//! Plain descriptions of an HTTP exchange: the request that the library
//! wants sent and the reply that came back.

use vstd::prelude::*;

verus! {

/// A named value: a request header or a query parameter.
#[derive(Clone, Debug)]
pub struct Param {
    pub name: String,
    pub value: String,
}

/// A `Param` as two texts.
pub struct ParamView {
    pub name: Seq<char>,
    pub value: Seq<char>,
}

impl View for Param {
    type V = ParamView;

    open spec fn view(&self) -> ParamView {
        ParamView { name: self.name@, value: self.value@ }
    }
}

/// The parameters of a list, as texts.
pub open spec fn params_view(params: Seq<Param>) -> Seq<ParamView> {
    params.map_values(|p: Param| p@)
}

/// A GET request.
#[derive(Clone, Debug)]
pub struct HttpRequest {
    /// The URL without its query.
    pub url: String,
    /// The headers, in the order in which they are set.
    pub headers: Vec<Param>,
    /// The query parameters, in their order.
    pub query: Vec<Param>,
}

/// An `HttpRequest` as texts.
pub struct HttpRequestView {
    pub url: Seq<char>,
    pub headers: Seq<ParamView>,
    pub query: Seq<ParamView>,
}

impl View for HttpRequest {
    type V = HttpRequestView;

    open spec fn view(&self) -> HttpRequestView {
        HttpRequestView {
            url: self.url@,
            headers: params_view(self.headers@),
            query: params_view(self.query@),
        }
    }
}

/// What came back for a request: the status code and the body as text.
#[derive(Clone, Debug)]
pub struct HttpReply {
    pub status: u16,
    pub body: String,
}

/// The request was not answered: it could not be sent, or no reply could be
/// read.
#[derive(Clone, Copy, Debug, PartialEq, Eq, Structural)]
pub struct TransportError;

impl Param {
    /// The parameter `name` with `value`.
    pub fn new(name: &str, value: String) -> (r: Param)
        ensures
            r@ == (ParamView { name: name@, value: value@ }),
    {
        Param { name: name.to_owned(), value }
    }
}

} // verus!
