//! The client: its configuration, the requests it makes, and what it makes
//! of the responses.
use vstd::prelude::*;
use crate::common::{body_accepts, body_holds, ResponseObject};
use crate::endpoint::{
    financials_url, financials_url_spec, markets_url, markets_url_spec, parse_url,
    url_serialization,
};
use crate::error::PolygonError;

verus! {

/// The production host of the API.
pub const BASE_URL: &'static str = "https://api.polygon.io";

/// The value of the `Authorization` header for an API key.
pub open spec fn bearer(api_key: Seq<char>) -> Seq<char> {
    "Bearer "@ + api_key
}

/// One authenticated GET: the URL and the `Authorization` header to send.
#[derive(Debug, Clone)]
pub struct Request {
    pub url: String,
    pub authorization: String,
}

/// The client's configuration: where the API is and the key to present.
/// It is fixed when the client is made.
#[derive(Debug, Clone)]
pub struct Polygon {
    base_url: String,
    api_key: String,
}

/// The result of a request to `text`, with `api_key`: the request where
/// the text parses as a URL, else the error that says so.
pub open spec fn request_for(text: Seq<char>, api_key: Seq<char>, r: Result<Request, PolygonError>) -> bool {
    match r {
        Ok(req) => url_serialization(text) == Some(req.url@) && req.authorization@ == bearer(api_key),
        Err(e) => url_serialization(text) is None && (e matches PolygonError::InvalidUrl { url }
            && url@ == text),
    }
}

impl Polygon {
    /// The base URL that the endpoint paths are appended to.
    pub closed spec fn spec_base_url(&self) -> Seq<char> {
        self.base_url@
    }

    /// The key that each request presents.
    pub closed spec fn spec_api_key(&self) -> Seq<char> {
        self.api_key@
    }

    /// A client of the production API. Without a key there is no client.
    pub fn new(api_key: Option<String>) -> (r: Result<Polygon, PolygonError>)
        ensures
            api_key is None <==> r is Err,
            r matches Err(e) ==> e is Configuration,
            r matches Ok(p) ==> p.spec_base_url() == BASE_URL@ && p.spec_api_key() == api_key->0@,
    {
        Polygon::new_with_base_url(api_key, String::from_str(BASE_URL))
    }

    /// A client of the API at `base_url`, such as a server that stands in
    /// for it. Without a key there is no client.
    pub fn new_with_base_url(api_key: Option<String>, base_url: String) -> (r: Result<
        Polygon,
        PolygonError,
    >)
        ensures
            api_key is None <==> r is Err,
            r matches Err(e) ==> e is Configuration,
            r matches Ok(p) ==> p.spec_base_url() == base_url@ && p.spec_api_key() == api_key->0@,
    {
        match api_key {
            None => Err(PolygonError::Configuration),
            Some(api_key) => Ok(Polygon { base_url, api_key }),
        }
    }

    /// The key that each request presents.
    pub fn api_key(&self) -> (r: String)
        ensures
            r@ == self.spec_api_key(),
    {
        self.api_key.clone()
    }

    /// The base URL that the endpoint paths are appended to.
    pub fn base_url(&self) -> (r: String)
        ensures
            r@ == self.spec_base_url(),
    {
        self.base_url.clone()
    }

    /// The value of the `Authorization` header.
    pub fn authorization(&self) -> (r: String)
        ensures
            r@ == bearer(self.spec_api_key()),
    {
        let mut h = String::from_str("Bearer ");
        h.append(self.api_key.as_str());
        h
    }

    fn request(&self, text: String) -> (r: Result<Request, PolygonError>)
        ensures
            request_for(text@, self.spec_api_key(), r),
    {
        match parse_url(text.as_str()) {
            Ok(url) => Ok(Request { url, authorization: self.authorization() }),
            Err(_) => Err(PolygonError::InvalidUrl { url: text }),
        }
    }

    /// The request for the active stocks listing.
    pub fn markets(&self) -> (r: Result<Request, PolygonError>)
        ensures
            request_for(markets_url_spec(self.spec_base_url()), self.spec_api_key(), r),
    {
        self.request(markets_url(self.base_url.as_str()))
    }

    /// The request for the financials of `symbol`, or of all companies where
    /// the symbol is empty.
    pub fn financials(&self, symbol: String) -> (r: Result<Request, PolygonError>)
        ensures
            request_for(
                financials_url_spec(self.spec_base_url(), symbol@),
                self.spec_api_key(),
                r,
            ),
    {
        self.request(financials_url(self.base_url.as_str(), symbol.as_str()))
    }

    /// What a response to `request` comes to. A status other than 200 is an
    /// error that carries the URL, the status and the body. A 200 response
    /// gives the envelope that its body holds, or, where the body is no
    /// JSON object that makes one up, an error of its own.
    pub fn fetch(request: &Request, status: u16, body: String) -> (r: Result<
        ResponseObject,
        PolygonError,
    >)
        ensures
            status != 200 ==> (r matches Err(PolygonError::HttpStatus { url, status: s, body: b })
                && url@ == request.url@ && s == status && b@ == body@),
            status == 200 ==> match r {
                Ok(e) => body_accepts(body@) && body_holds(body@, e),
                Err(PolygonError::Decode { url, .. }) => url@ == request.url@ && !body_accepts(
                    body@,
                ),
                _ => false,
            },
    {
        if status != 200 {
            return Err(PolygonError::HttpStatus { url: request.url.clone(), status, body });
        }
        match ResponseObject::from_json(body.as_str()) {
            Ok(e) => Ok(e),
            Err(message) => Err(PolygonError::Decode { url: request.url.clone(), message }),
        }
    }
}

} // verus!
