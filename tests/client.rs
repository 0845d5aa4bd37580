use newsapi::{
    check_response, map_response_err, parse_response, response_from_body, response_from_value,
    Article, Country, Endpoint, NewsAPI, NewsApiError, NewsApiResponse, BASE_URL,
};

fn message_of(e: NewsApiError) -> &'static str {
    match e {
        NewsApiError::BadRequest(m) => m,
        other => panic!("expected a bad request, got {:?}", other),
    }
}

fn is_parse_error(r: &Result<NewsApiResponse, NewsApiError>) -> bool {
    matches!(r, Err(NewsApiError::ArticlesParseFailed(_)))
}

#[test]
fn known_codes_map_to_their_messages() {
    let table = [
        ("apiKeyDisabled", "Your API key has been disabled."),
        ("apiKeyExhausted", "Your API key has no more requests available."),
        ("apiKeyInvalid", "Your API key hasn't been entered correctly. Double check it and try again."),
        ("apiKeyMissing", "Your API key is missing from the request."),
        ("parameterInvalid", "You've included a parameter in your request which is currently not supported."),
        ("parametersMissing", "Required parameters are missing from the request and it cannot be completed."),
        ("rateLimited", "You have been rate limited. Back off for a while before trying the request again."),
        ("sourcesTooMany", "You have requested too many sources in a single request. Try splitting the request into 2 smaller requests."),
        ("sourceDoesNotExist", "You have requested a source which does not exist."),
        ("unexpectedError", "This shouldn't happen, and if it does then it's our fault, not yours. Try the request again shortly."),
    ];
    for (code, message) in table {
        assert_eq!(message_of(map_response_err(Some(code.to_string()))), message);
    }
}

#[test]
fn unknown_or_absent_code_is_unknown_error() {
    assert_eq!(message_of(map_response_err(None)), "Unknown Error");
    assert_eq!(message_of(map_response_err(Some(String::new()))), "Unknown Error");
    assert_eq!(message_of(map_response_err(Some("ratelimited".to_string()))), "Unknown Error");
    assert_eq!(message_of(map_response_err(Some("rateLimited ".to_string()))), "Unknown Error");
    assert_eq!(message_of(map_response_err(Some("somethingElse".to_string()))), "Unknown Error");
}

#[test]
fn endpoint_fragments() {
    assert_eq!(Endpoint::Business.to_string(), "/top-headlines?category=business&pageSize=100");
    assert_eq!(Endpoint::Crypto.to_string(), "/top-headlines?q=crypto&pageSize=100");
    assert_eq!(Endpoint::Everything.to_string(), "/everything?pageSize=100");
    assert_eq!(Endpoint::General.to_string(), "/top-headlines?category=general&pageSize=100");
    assert_eq!(Endpoint::Health.to_string(), "/top-headlines?category=health&pageSize=100");
    assert_eq!(Endpoint::Science.to_string(), "/top-headlines?category=science&pageSize=100");
    assert_eq!(Endpoint::Sports.to_string(), "/top-headlines?category=sports&pageSize=100");
    assert_eq!(Endpoint::Technology.to_string(), "/top-headlines?category=technology&pageSize=100");
    assert_eq!(Endpoint::TopHeadlines.to_string(), "/top-headlines?pageSize=100");
}

#[test]
fn country_codes() {
    assert_eq!(Country::IN.to_string(), "in");
    assert_eq!(Country::GB.to_string(), "gb");
    assert_eq!(Country::USA.to_string(), "us");
}

#[test]
fn default_config_url() {
    let api = NewsAPI::new("SECRET-REDACTED");
    assert_eq!(BASE_URL, "https://newsapi.org/v2");
    assert_eq!(
        api.prepare_url().unwrap(),
        "https://newsapi.org/v2/everything?pageSize=100&country=in"
    );
    assert_eq!(api.api_key(), "SECRET-REDACTED");
}

#[test]
fn url_is_deterministic() {
    let mut a = NewsAPI::new("key-one");
    a.country(Country::USA).endpoint(Endpoint::Technology);
    let mut b = NewsAPI::new("key-two");
    b.endpoint(Endpoint::Technology).country(Country::USA);
    let first = a.prepare_url().unwrap();
    assert_eq!(first, a.prepare_url().unwrap());
    assert_eq!(first, b.prepare_url().unwrap());
    assert_eq!(
        first,
        "https://newsapi.org/v2/top-headlines?category=technology&pageSize=100&country=us"
    );
}

#[test]
fn setters_change_only_their_field() {
    let mut api = NewsAPI::new("abc");
    api.country(Country::GB);
    assert_eq!(api.prepare_url().unwrap(), "https://newsapi.org/v2/everything?pageSize=100&country=gb");
    api.endpoint(Endpoint::TopHeadlines);
    assert_eq!(
        api.prepare_url().unwrap(),
        "https://newsapi.org/v2/top-headlines?pageSize=100&country=gb"
    );
    assert_eq!(api.api_key(), "abc");
}

#[test]
fn ok_body_yields_two_articles_verbatim() {
    let body = r#"{
        "status": "ok",
        "totalResults": 2,
        "articles": [
            {"source": {"id": null, "name": "Wire"}, "author": null,
             "title": "Café prices rise — again? \"Yes\", say økonomer 📈",
             "url": "https://example.com/a?b=1&c=%20d#frag", "description": null},
            {"title": "Second: a, b; c!", "url": "https://example.org/ünï"}
        ]
    }"#;
    let response = response_from_body(body).unwrap();
    let articles = response.get_articles();
    assert_eq!(articles.len(), 2);
    assert_eq!(articles[0].get_title(), "Café prices rise — again? \"Yes\", say økonomer 📈");
    assert_eq!(articles[0].get_url(), "https://example.com/a?b=1&c=%20d#frag");
    assert_eq!(articles[1].get_title(), "Second: a, b; c!");
    assert_eq!(articles[1].get_url(), "https://example.org/ünï");
}

#[test]
fn ok_body_with_no_articles() {
    let response = response_from_body(r#"{"status":"ok","articles":[],"code":null}"#).unwrap();
    assert!(response.get_articles().is_empty());
}

#[test]
fn rate_limited_body_is_bad_request() {
    let body = r#"{"status":"error","code":"rateLimited","message":"slow down","articles":[]}"#;
    let e = response_from_body(body).unwrap_err();
    let m = message_of(e);
    assert!(m.starts_with("You have been rate limited"));
    assert_eq!(m, "You have been rate limited. Back off for a while before trying the request again.");
}

#[test]
fn error_status_without_code_is_unknown_error() {
    let absent = response_from_body(r#"{"status":"error","articles":[]}"#).unwrap_err();
    assert_eq!(message_of(absent), "Unknown Error");
    let null = response_from_body(r#"{"status":"error","articles":[],"code":null}"#).unwrap_err();
    assert_eq!(message_of(null), "Unknown Error");
    let odd = response_from_body(r#"{"status":"error","articles":[],"code":"newCode"}"#).unwrap_err();
    assert_eq!(message_of(odd), "Unknown Error");
}

#[test]
fn non_json_body_is_parse_error() {
    assert!(is_parse_error(&response_from_body("<html>502 Bad Gateway</html>")));
    assert!(is_parse_error(&response_from_body("")));
    assert!(is_parse_error(&response_from_body(r#"{"status":"ok","articles":[{"title":"t","url":"u"}"#)));
    assert!(is_parse_error(&parse_response("not json")));
}

#[test]
fn wrong_shape_is_parse_error() {
    // articles that are not an array
    assert!(is_parse_error(&response_from_body(r#"{"status":"ok","articles":{}}"#)));
    // missing articles
    assert!(is_parse_error(&response_from_body(r#"{"status":"ok"}"#)));
    // missing status
    assert!(is_parse_error(&response_from_body(r#"{"articles":[]}"#)));
    // a status that is not a string
    assert!(is_parse_error(&response_from_body(r#"{"status":1,"articles":[]}"#)));
    // one good article and one without a URL: no partial list
    assert!(is_parse_error(&response_from_body(
        r#"{"status":"ok","articles":[{"title":"t","url":"u"},{"title":"only"}]}"#
    )));
    // a null title
    assert!(is_parse_error(&response_from_body(
        r#"{"status":"ok","articles":[{"title":null,"url":"u"}]}"#
    )));
    // a code that is neither a string nor null
    assert!(is_parse_error(&response_from_body(r#"{"status":"error","articles":[],"code":5}"#)));
    // not an object at all
    assert!(is_parse_error(&response_from_body("[1, 2, 3]")));
}

#[test]
fn parse_keeps_error_status() {
    let response = parse_response(r#"{"status":"error","articles":[],"code":"apiKeyInvalid"}"#).unwrap();
    let e = check_response(response).unwrap_err();
    assert_eq!(message_of(e), "Your API key hasn't been entered correctly. Double check it and try again.");
}

#[test]
fn decodes_a_parsed_value() {
    let v: serde_json::Value =
        serde_json::from_str(r#"{"status":"ok","articles":[{"title":"T","url":"U"}]}"#).unwrap();
    let response = response_from_value(&v).unwrap();
    assert_eq!(response.get_articles().len(), 1);
    assert_eq!(response.get_articles()[0].get_title(), "T");
    assert_eq!(response.get_articles()[0].get_url(), "U");
    let bad: serde_json::Value = serde_json::from_str(r#"{"status":"ok","articles":[3]}"#).unwrap();
    assert!(is_parse_error(&response_from_value(&bad)));
}

#[test]
fn check_response_on_built_envelopes() {
    let ok = NewsApiResponse::new(
        "ok".to_string(),
        vec![Article::new("title".to_string(), "https://x.test".to_string())],
        None,
    );
    let kept = check_response(ok).unwrap();
    assert_eq!(kept.get_articles()[0].get_title(), "title");
    assert_eq!(kept.get_articles()[0].get_url(), "https://x.test");
    let failed = NewsApiResponse::new("error".to_string(), vec![], Some("sourcesTooMany".to_string()));
    assert_eq!(
        message_of(check_response(failed).unwrap_err()),
        "You have requested too many sources in a single request. Try splitting the request into 2 smaller requests."
    );
    let odd_status = NewsApiResponse::new("OK".to_string(), vec![], Some("apiKeyMissing".to_string()));
    assert_eq!(message_of(check_response(odd_status).unwrap_err()), "Your API key is missing from the request.");
}
