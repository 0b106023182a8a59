use vstd::prelude::*;

use super::encoding::{url_encode, url_encoded};

verus! {

/// An outgoing HTTP request: method, URL, headers and body.
#[derive(Debug, Clone)]
pub struct HttpRequest {
    pub method: String,
    pub url: String,
    pub headers: Vec<(String, String)>,
    pub body: Vec<u8>,
}

/// The mathematical form of an [`HttpRequest`].
pub struct HttpRequestView {
    pub method: Seq<char>,
    pub url: Seq<char>,
    pub headers: Seq<(Seq<char>, Seq<char>)>,
    pub body: Seq<u8>,
}

impl View for HttpRequest {
    type V = HttpRequestView;

    open spec fn view(&self) -> HttpRequestView {
        HttpRequestView {
            method: self.method@,
            url: self.url@,
            headers: self.headers@.map_values(|h: (String, String)| (h.0@, h.1@)),
            body: self.body@,
        }
    }
}

/// The headers of a form request followed by one more header.
pub open spec fn form_headers(name: Seq<char>, value: Seq<char>) -> Seq<(Seq<char>, Seq<char>)> {
    seq![("Content-Type"@, "application/x-www-form-urlencoded"@), (name, value)]
}

/// The content-type header of a form request followed by `name: value`.
pub fn form_headers_with(name: &str, value: String) -> (res: Vec<(String, String)>)
    ensures
        res@.map_values(|h: (String, String)| (h.0@, h.1@)) =~= form_headers(name@, value@),
{
    let mut headers: Vec<(String, String)> = Vec::new();
    headers.push((String::from_str("Content-Type"), String::from_str("application/x-www-form-urlencoded")));
    headers.push((String::from_str(name), value));
    headers
}

/// A request with the given method, URL and headers and an empty body.
pub fn bodiless_request(method: &str, url: String, headers: Vec<(String, String)>) -> (res: HttpRequest)
    ensures
        res.method@ == method@,
        res.url == url,
        res.headers == headers,
        res.body@ == Seq::<u8>::empty(),
{
    HttpRequest { method: String::from_str(method), url, headers, body: Vec::new() }
}

/// `prefix` followed by the URL encoding of `url`.
pub fn wrap_url(prefix: &str, url: &str) -> (res: String)
    ensures
        res@ == prefix@ + url_encoded(url@),
{
    let mut wrapped = String::from_str(prefix);
    let encoded = url_encode(url);
    wrapped.append(encoded.as_str());
    wrapped
}

} // verus!
