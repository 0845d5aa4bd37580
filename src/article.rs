use vstd::prelude::*;

use crate::error::{error_message, map_response_err, option_view, same_text, NewsApiError};

verus! {

/// One news item: its headline and the address of the full story.
#[derive(Debug)]
pub struct Article {
    title: String,
    url: String,
}

impl View for Article {
    /// The title and the URL.
    type V = (Seq<char>, Seq<char>);

    closed spec fn view(&self) -> (Seq<char>, Seq<char>) {
        (self.title@, self.url@)
    }
}

impl Article {
    /// An article with the given title and URL.
    pub fn new(title: String, url: String) -> (r: Article)
        ensures
            r@ == (title@, url@),
    {
        Article { title, url }
    }

    pub fn get_title(&self) -> (r: &str)
        ensures
            r@ == self@.0,
    {
        self.title.as_str()
    }

    pub fn get_url(&self) -> (r: &str)
        ensures
            r@ == self@.1,
    {
        self.url.as_str()
    }
}

/// What a response envelope holds.
pub struct ResponseView {
    pub status: Seq<char>,
    pub articles: Seq<(Seq<char>, Seq<char>)>,
    pub code: Option<Seq<char>>,
}

/// The server's answer to one request: a status, the articles, and an error
/// code when the status is not `"ok"`.
#[derive(Debug)]
pub struct NewsApiResponse {
    status: String,
    articles: Vec<Article>,
    code: Option<String>,
}

/// The titles and URLs of a list of articles.
pub open spec fn articles_view(articles: Seq<Article>) -> Seq<(Seq<char>, Seq<char>)> {
    articles.map_values(|a: Article| a@)
}

impl View for NewsApiResponse {
    type V = ResponseView;

    closed spec fn view(&self) -> ResponseView {
        ResponseView {
            status: self.status@,
            articles: articles_view(self.articles@),
            code: option_view(self.code),
        }
    }
}

impl NewsApiResponse {
    /// An envelope with the given parts.
    pub fn new(status: String, articles: Vec<Article>, code: Option<String>) -> (r: NewsApiResponse)
        ensures
            r@ == (ResponseView {
                status: status@,
                articles: articles_view(articles@),
                code: option_view(code),
            }),
    {
        NewsApiResponse { status, articles, code }
    }

    pub fn get_articles(&self) -> (r: &Vec<Article>)
        ensures
            articles_view(r@) == self@.articles,
    {
        &self.articles
    }
}

/// Accepts an envelope whose status is `"ok"`, and turns any other into the
/// error that its code stands for.
pub fn check_response(response: NewsApiResponse) -> (r: Result<NewsApiResponse, NewsApiError>)
    ensures
        response@.status == "ok"@ ==> (r matches Ok(x) && x@ == response@),
        response@.status != "ok"@ ==> (r matches Err(NewsApiError::BadRequest(m)) && m@
            == error_message(response@.code)),
{
    if same_text(response.status.as_str(), "ok") {
        Ok(response)
    } else {
        Err(map_response_err(response.code))
    }
}

} // verus!
