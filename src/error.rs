use vstd::prelude::*;

verus! {

#[verifier::external_type_specification]
#[verifier::external_body]
pub struct ExUreqError(ureq::Error);

#[verifier::external_type_specification]
#[verifier::external_body]
pub struct ExIoError(std::io::Error);

#[verifier::external_type_specification]
#[verifier::external_body]
pub struct ExJsonError(serde_json::Error);

#[verifier::external_type_specification]
#[verifier::external_body]
pub struct ExReqwestError(reqwest::Error);

/// Everything that can go wrong while fetching articles.
#[derive(Debug)]
pub enum NewsApiError {
    /// The blocking HTTP request failed (connection, DNS, HTTP status).
    RequestFailed(ureq::Error),
    /// The response body could not be read as text.
    FailedResponseToString(std::io::Error),
    /// The response body is not JSON of the expected shape.
    ArticlesParseFailed(serde_json::Error),
    /// The server answered with a status other than `"ok"`; the message
    /// explains its error code.
    BadRequest(&'static str),
    /// The asynchronous HTTP request failed.
    AsyncRequestFailed(reqwest::Error),
}

/// The message that the server's error `code` stands for.
pub open spec fn error_message(code: Option<Seq<char>>) -> Seq<char> {
    match code {
        Some(c) => {
            if c == "apiKeyDisabled"@ {
                "Your API key has been disabled."@
            } else if c == "apiKeyExhausted"@ {
                "Your API key has no more requests available."@
            } else if c == "apiKeyInvalid"@ {
                "Your API key hasn't been entered correctly. Double check it and try again."@
            } else if c == "apiKeyMissing"@ {
                "Your API key is missing from the request."@
            } else if c == "parameterInvalid"@ {
                "You've included a parameter in your request which is currently not supported."@
            } else if c == "parametersMissing"@ {
                "Required parameters are missing from the request and it cannot be completed."@
            } else if c == "rateLimited"@ {
                "You have been rate limited. Back off for a while before trying the request again."@
            } else if c == "sourcesTooMany"@ {
                "You have requested too many sources in a single request. Try splitting the request into 2 smaller requests."@
            } else if c == "sourceDoesNotExist"@ {
                "You have requested a source which does not exist."@
            } else if c == "unexpectedError"@ {
                "This shouldn't happen, and if it does then it's our fault, not yours. Try the request again shortly."@
            } else {
                "Unknown Error"@
            }
        },
        None => "Unknown Error"@,
    }
}

/// The error codes that the server documents.
pub open spec fn is_known_code(c: Seq<char>) -> bool {
    ||| c == "apiKeyDisabled"@
    ||| c == "apiKeyExhausted"@
    ||| c == "apiKeyInvalid"@
    ||| c == "apiKeyMissing"@
    ||| c == "parameterInvalid"@
    ||| c == "parametersMissing"@
    ||| c == "rateLimited"@
    ||| c == "sourcesTooMany"@
    ||| c == "sourceDoesNotExist"@
    ||| c == "unexpectedError"@
}

/// An absent error code, or one that the server does not document, is
/// reported as an unknown error.
pub proof fn lemma_unknown_code_message(code: Option<Seq<char>>)
    requires
        code matches Some(c) ==> !is_known_code(c),
    ensures
        error_message(code) == "Unknown Error"@,
{
}

/// The text of an optional string.
pub open spec fn option_view(o: Option<String>) -> Option<Seq<char>> {
    match o {
        Some(s) => Some(s@),
        None => None,
    }
}

/// Whether two strings hold the same characters.
pub(crate) fn same_text(a: &str, b: &str) -> (r: bool)
    ensures
        r == (a@ == b@),
{
    let n = a.unicode_len();
    if n != b.unicode_len() {
        return false;
    }
    let mut i: usize = 0;
    while i < n
        invariant
            n == a@.len(),
            n == b@.len(),
            i <= n,
            a@.subrange(0, i as int) == b@.subrange(0, i as int),
        decreases n - i,
    {
        if a.get_char(i) != b.get_char(i) {
            return false;
        }
        assert(a@.subrange(0, i + 1) == a@.subrange(0, i as int).push(a@[i as int]));
        assert(b@.subrange(0, i + 1) == b@.subrange(0, i as int).push(b@[i as int]));
        i = i + 1;
    }
    assert(a@ == a@.subrange(0, n as int));
    assert(b@ == b@.subrange(0, n as int));
    true
}

/// Turns the error code of a failed response into an error that explains it.
pub fn map_response_err(code: Option<String>) -> (r: NewsApiError)
    ensures
        r matches NewsApiError::BadRequest(m) && m@ == error_message(option_view(code)),
{
    match code {
        Some(code) => {
            let c = code.as_str();
            if same_text(c, "apiKeyDisabled") {
                NewsApiError::BadRequest("Your API key has been disabled.")
            } else if same_text(c, "apiKeyExhausted") {
                NewsApiError::BadRequest("Your API key has no more requests available.")
            } else if same_text(c, "apiKeyInvalid") {
                NewsApiError::BadRequest(
                    "Your API key hasn't been entered correctly. Double check it and try again.",
                )
            } else if same_text(c, "apiKeyMissing") {
                NewsApiError::BadRequest("Your API key is missing from the request.")
            } else if same_text(c, "parameterInvalid") {
                NewsApiError::BadRequest(
                    "You've included a parameter in your request which is currently not supported.",
                )
            } else if same_text(c, "parametersMissing") {
                NewsApiError::BadRequest(
                    "Required parameters are missing from the request and it cannot be completed.",
                )
            } else if same_text(c, "rateLimited") {
                NewsApiError::BadRequest(
                    "You have been rate limited. Back off for a while before trying the request again.",
                )
            } else if same_text(c, "sourcesTooMany") {
                NewsApiError::BadRequest(
                    "You have requested too many sources in a single request. Try splitting the request into 2 smaller requests.",
                )
            } else if same_text(c, "sourceDoesNotExist") {
                NewsApiError::BadRequest("You have requested a source which does not exist.")
            } else if same_text(c, "unexpectedError") {
                NewsApiError::BadRequest(
                    "This shouldn't happen, and if it does then it's our fault, not yours. Try the request again shortly.",
                )
            } else {
                NewsApiError::BadRequest("Unknown Error")
            }
        },
        None => NewsApiError::BadRequest("Unknown Error"),
    }
}

} // verus!
