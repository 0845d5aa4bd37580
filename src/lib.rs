//! A small client library for a news aggregation HTTP API: it builds the
//! request URL from a configuration, decodes the JSON response envelope and
//! maps the server's error codes to messages.

pub mod article;
pub mod decode;
pub mod error;
pub mod json;
pub mod request;

pub use article::{check_response, Article, NewsApiResponse};
pub use decode::{parse_response, response_from_body, response_from_value};
pub use error::{map_response_err, NewsApiError};
pub use request::{Country, Endpoint, NewsAPI, BASE_URL};
