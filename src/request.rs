use vstd::prelude::*;

use crate::error::NewsApiError;

verus! {

/// The root that every endpoint path is appended to.
pub const BASE_URL: &'static str = "https://newsapi.org/v2";

/// The news feeds that can be requested.
#[derive(Clone, Copy, Debug, PartialEq, Eq, Structural)]
pub enum Endpoint {
    Business,
    Crypto,
    Everything,
    General,
    Health,
    Science,
    Sports,
    Technology,
    TopHeadlines,
}

/// The path and query that select an endpoint's feed.
pub open spec fn endpoint_fragment(e: Endpoint) -> Seq<char> {
    match e {
        Endpoint::Business => "/top-headlines?category=business&pageSize=100"@,
        Endpoint::Crypto => "/top-headlines?q=crypto&pageSize=100"@,
        Endpoint::Everything => "/everything?pageSize=100"@,
        Endpoint::General => "/top-headlines?category=general&pageSize=100"@,
        Endpoint::Health => "/top-headlines?category=health&pageSize=100"@,
        Endpoint::Science => "/top-headlines?category=science&pageSize=100"@,
        Endpoint::Sports => "/top-headlines?category=sports&pageSize=100"@,
        Endpoint::Technology => "/top-headlines?category=technology&pageSize=100"@,
        Endpoint::TopHeadlines => "/top-headlines?pageSize=100"@,
    }
}

impl Endpoint {
    /// The path and query fragment of this endpoint.
    pub fn to_string(&self) -> (r: String)
        ensures
            r@ == endpoint_fragment(*self),
    {
        match self {
            Endpoint::Business => String::from_str("/top-headlines?category=business&pageSize=100"),
            Endpoint::Crypto => String::from_str("/top-headlines?q=crypto&pageSize=100"),
            Endpoint::Everything => String::from_str("/everything?pageSize=100"),
            Endpoint::General => String::from_str("/top-headlines?category=general&pageSize=100"),
            Endpoint::Health => String::from_str("/top-headlines?category=health&pageSize=100"),
            Endpoint::Science => String::from_str("/top-headlines?category=science&pageSize=100"),
            Endpoint::Sports => String::from_str("/top-headlines?category=sports&pageSize=100"),
            Endpoint::Technology => String::from_str(
                "/top-headlines?category=technology&pageSize=100",
            ),
            Endpoint::TopHeadlines => String::from_str("/top-headlines?pageSize=100"),
        }
    }
}

/// The countries whose news can be requested.
#[derive(Clone, Copy, Debug, PartialEq, Eq, Structural)]
pub enum Country {
    IN,
    GB,
    USA,
}

/// The two-letter code of a country.
pub open spec fn country_code(c: Country) -> Seq<char> {
    match c {
        Country::GB => "gb"@,
        Country::IN => "in"@,
        Country::USA => "us"@,
    }
}

impl Country {
    /// The two-letter code of this country.
    pub fn to_string(&self) -> (r: String)
        ensures
            r@ == country_code(*self),
    {
        match self {
            Country::GB => String::from_str("gb"),
            Country::IN => String::from_str("in"),
            Country::USA => String::from_str("us"),
        }
    }
}

/// The URL that requests the feed of `endpoint` for `country`.
pub open spec fn url_of(endpoint: Endpoint, country: Country) -> Seq<char> {
    BASE_URL@ + endpoint_fragment(endpoint) + "&country="@ + country_code(country)
}

/// What a request configuration holds.
pub struct NewsApiView {
    pub api_key: Seq<char>,
    pub endpoint: Endpoint,
    pub country: Country,
}

/// A request configuration: the API key, the feed and the country.
pub struct NewsAPI {
    api_key: String,
    endpoint: Endpoint,
    country: Country,
}

impl View for NewsAPI {
    type V = NewsApiView;

    closed spec fn view(&self) -> NewsApiView {
        NewsApiView { api_key: self.api_key@, endpoint: self.endpoint, country: self.country }
    }
}

impl NewsAPI {
    /// A configuration for `api_key` that asks for every article from India.
    pub fn new(api_key: &str) -> (r: NewsAPI)
        ensures
            r@ == (NewsApiView { api_key: api_key@, endpoint: Endpoint::Everything, country: Country::IN }),
    {
        NewsAPI { api_key: String::from_str(api_key), country: Country::IN, endpoint: Endpoint::Everything }
    }

    /// Selects the feed; the key and the country stay.
    pub fn endpoint(&mut self, endpoint: Endpoint) -> (r: &mut NewsAPI)
        ensures
            r@ == (NewsApiView { endpoint, ..old(self)@ }),
            *final(self) == *final(r),
    {
        self.endpoint = endpoint;
        self
    }

    /// Selects the country; the key and the feed stay.
    pub fn country(&mut self, country: Country) -> (r: &mut NewsAPI)
        ensures
            r@ == (NewsApiView { country, ..old(self)@ }),
            *final(self) == *final(r),
    {
        self.country = country;
        self
    }

    /// The API key that requests carry.
    pub fn api_key(&self) -> (r: &str)
        ensures
            r@ == self@.api_key,
    {
        self.api_key.as_str()
    }

    /// The URL of the configured feed and country.
    pub fn prepare_url(&self) -> (r: Result<String, NewsApiError>)
        ensures
            r matches Ok(u) && u@ == url_of(self@.endpoint, self@.country),
    {
        let mut url = String::from_str(BASE_URL);
        let endpoint = self.endpoint.to_string();
        url.append(endpoint.as_str());
        url.append("&country=");
        let country = self.country.to_string();
        url.append(country.as_str());
        Ok(url)
    }
}

/// The URL depends on the configured feed and country alone: two
/// configurations that agree on both give the same URL, whatever their keys.
pub proof fn lemma_url_deterministic(a: NewsApiView, b: NewsApiView)
    requires
        a.endpoint == b.endpoint,
        a.country == b.country,
    ensures
        url_of(a.endpoint, a.country) == url_of(b.endpoint, b.country),
{
}

} // verus!
