use vstd::prelude::*;

use crate::article::{articles_view, check_response, Article, NewsApiResponse, ResponseView};
use crate::error::{error_message, option_view, NewsApiError};
use crate::json::{
    custom_error, get_member, json_array, json_get, json_is_null, json_of, json_str, parse_json,
};

verus! {

/// The text of the string member `key` of `v`, if there is one.
pub open spec fn string_member(v: serde_json::Value, key: Seq<char>) -> Option<Seq<char>> {
    match json_get(v, key) {
        Some(m) => json_str(m),
        None => None,
    }
}

/// The title and URL of a JSON article: both members must be strings.
pub open spec fn decode_article(v: serde_json::Value) -> Option<(Seq<char>, Seq<char>)> {
    match (string_member(v, "title"@), string_member(v, "url"@)) {
        (Some(t), Some(u)) => Some((t, u)),
        _ => None,
    }
}

/// The articles of a JSON array, where every element is an article.
pub open spec fn decode_articles(items: Seq<serde_json::Value>) -> Option<Seq<(Seq<char>, Seq<char>)>> {
    if forall|i: int| 0 <= i < items.len() ==> (#[trigger] decode_article(items[i])) is Some {
        Some(items.map_values(|x: serde_json::Value| decode_article(x).unwrap()))
    } else {
        None
    }
}

/// The error code of a JSON envelope: absent and `null` both mean no code,
/// a string is the code, and anything else does not decode.
pub open spec fn decode_code(v: serde_json::Value) -> Option<Option<Seq<char>>> {
    match json_get(v, "code"@) {
        None => Some(None),
        Some(c) => {
            if json_is_null(c) {
                Some(None)
            } else {
                match json_str(c) {
                    Some(s) => Some(Some(s)),
                    None => None,
                }
            }
        },
    }
}

/// The envelope that a JSON value describes: a string `status`, an array
/// `articles` of articles, and an optional string `code`.
pub open spec fn decode_envelope(v: serde_json::Value) -> Option<ResponseView> {
    match string_member(v, "status"@) {
        None => None,
        Some(status) => match json_get(v, "articles"@) {
            None => None,
            Some(a) => match json_array(a) {
                None => None,
                Some(items) => match decode_articles(items) {
                    None => None,
                    Some(articles) => match decode_code(v) {
                        None => None,
                        Some(code) => Some(ResponseView { status, articles, code }),
                    },
                },
            },
        },
    }
}

/// The envelope that a response body describes, if it is JSON of that shape.
pub open spec fn body_envelope(body: Seq<char>) -> Option<ResponseView> {
    match json_of(body) {
        Some(v) => decode_envelope(v),
        None => None,
    }
}

fn string_member_of(v: &serde_json::Value, key: &str) -> (r: Option<String>)
    ensures
        option_view(r) == string_member(*v, key@),
{
    match get_member(v, key) {
        Some(m) => match m.as_str() {
            Some(s) => Some(String::from_str(s)),
            None => None,
        },
        None => None,
    }
}

fn article_of(v: &serde_json::Value) -> (r: Option<Article>)
    ensures
        match r {
            Some(a) => decode_article(*v) == Some(a@),
            None => decode_article(*v) is None,
        },
{
    let title = string_member_of(v, "title");
    let url = string_member_of(v, "url");
    match (title, url) {
        (Some(t), Some(u)) => Some(Article::new(t, u)),
        _ => None,
    }
}

fn articles_of(items: &Vec<serde_json::Value>) -> (r: Option<Vec<Article>>)
    ensures
        match r {
            Some(a) => decode_articles(items@) == Some(articles_view(a@)),
            None => decode_articles(items@) is None,
        },
{
    let mut out: Vec<Article> = Vec::new();
    let mut i: usize = 0;
    while i < items.len()
        invariant
            i <= items@.len(),
            out@.len() == i,
            forall|j: int| 0 <= j < i ==> decode_article(items@[j]) == Some(#[trigger] out@[j]@),
        decreases items@.len() - i,
    {
        match article_of(&items[i]) {
            Some(a) => {
                out.push(a);
            },
            None => {
                assert(decode_article(items@[i as int]) is None);
                return None;
            },
        }
        i = i + 1;
    }
    assert(forall|j: int| 0 <= j < items@.len() ==> (#[trigger] decode_article(items@[j])) is Some) by {
        assert forall|j: int| 0 <= j < items@.len() implies (#[trigger] decode_article(items@[j])) is Some by {
            assert(decode_article(items@[j]) == Some(out@[j]@));
        }
    }
    assert(articles_view(out@) =~= items@.map_values(
        |x: serde_json::Value| decode_article(x).unwrap(),
    ));
    Some(out)
}

/// The text carried by the error for a JSON value of the wrong shape.
pub const SHAPE_MESSAGE: &'static str = "the response is not a news envelope";

/// Reads a response envelope out of a JSON value.
pub fn response_from_value(v: &serde_json::Value) -> (r: Result<NewsApiResponse, NewsApiError>)
    ensures
        match decode_envelope(*v) {
            Some(m) => r matches Ok(x) && x@ == m,
            None => r matches Err(NewsApiError::ArticlesParseFailed(_)),
        },
{
    let status = match string_member_of(v, "status") {
        Some(s) => s,
        None => return Err(NewsApiError::ArticlesParseFailed(custom_error(SHAPE_MESSAGE))),
    };
    let items = match get_member(v, "articles") {
        Some(a) => match a.as_array() {
            Some(items) => items,
            None => return Err(NewsApiError::ArticlesParseFailed(custom_error(SHAPE_MESSAGE))),
        },
        None => return Err(NewsApiError::ArticlesParseFailed(custom_error(SHAPE_MESSAGE))),
    };
    let articles = match articles_of(items) {
        Some(a) => a,
        None => return Err(NewsApiError::ArticlesParseFailed(custom_error(SHAPE_MESSAGE))),
    };
    let code = match get_member(v, "code") {
        None => None,
        Some(c) => {
            if c.is_null() {
                None
            } else {
                match c.as_str() {
                    Some(s) => Some(String::from_str(s)),
                    None => return Err(
                        NewsApiError::ArticlesParseFailed(custom_error(SHAPE_MESSAGE)),
                    ),
                }
            }
        },
    };
    Ok(NewsApiResponse::new(status, articles, code))
}

/// Decodes a response body into an envelope, whatever its status.
pub fn parse_response(body: &str) -> (r: Result<NewsApiResponse, NewsApiError>)
    ensures
        match body_envelope(body@) {
            Some(m) => r matches Ok(x) && x@ == m,
            None => r matches Err(NewsApiError::ArticlesParseFailed(_)),
        },
{
    match parse_json(body) {
        Ok(v) => response_from_value(&v),
        Err(e) => Err(NewsApiError::ArticlesParseFailed(e)),
    }
}

/// What a fetch yields for a response body: the envelope where its status
/// is `"ok"`, the explained error code where it is not, and a parse error
/// where the body is not a JSON envelope.
pub fn response_from_body(body: &str) -> (r: Result<NewsApiResponse, NewsApiError>)
    ensures
        match body_envelope(body@) {
            None => r matches Err(NewsApiError::ArticlesParseFailed(_)),
            Some(m) => if m.status == "ok"@ {
                r matches Ok(x) && x@ == m
            } else {
                r matches Err(NewsApiError::BadRequest(msg)) && msg@ == error_message(m.code)
            },
        },
{
    match parse_response(body) {
        Ok(response) => check_response(response),
        Err(e) => Err(e),
    }
}

} // verus!
