//! Plain-value model of the HTTP traffic the proxy moves around: header
//! bags, request and response values. Headers and bodies are opaque to the
//! engine; it never parses them, it only copies them through.

use vstd::prelude::*;

verus! {

/// One header line: a name and an uninterpreted value. Order and duplicates
/// in a header bag are significant and are preserved by the engine.
#[derive(Debug, Clone, PartialEq, Eq)]
pub struct Header {
    pub name: String,
    pub value: Vec<u8>,
}

/// An inbound request as the surrounding server hands it over: the full
/// original path (prefix included), the method name, the header bag and the
/// raw body bytes.
#[derive(Debug, Clone, PartialEq, Eq)]
pub struct InboundRequest {
    pub path: String,
    pub method: String,
    pub headers: Vec<Header>,
    pub body: Vec<u8>,
}

/// The outbound request the engine asks the transport to issue: a complete
/// target URL, and method, headers and body taken from the inbound request.
#[derive(Debug, Clone, PartialEq, Eq)]
pub struct OutboundRequest {
    pub url: String,
    pub method: String,
    pub headers: Vec<Header>,
    pub body: Vec<u8>,
}

/// An HTTP response: either what the backend sent, or what the engine
/// synthesizes for the caller.
#[derive(Debug, Clone, PartialEq, Eq)]
pub struct Response {
    pub status: u16,
    pub headers: Vec<Header>,
    pub body: Vec<u8>,
}

/// The observable content of one header: its name's characters and its
/// value's bytes.
pub open spec fn header_view(h: Header) -> (Seq<char>, Seq<u8>) {
    (h.name@, h.value@)
}

/// The observable content of a header bag, order and duplicates kept.
pub open spec fn headers_view(hs: Seq<Header>) -> Seq<(Seq<char>, Seq<u8>)> {
    hs.map_values(|h: Header| header_view(h))
}

/// The observable content of a response: status, header bag and body bytes.
pub open spec fn response_view(r: Response) -> (int, Seq<(Seq<char>, Seq<u8>)>, Seq<u8>) {
    (r.status as int, headers_view(r.headers@), r.body@)
}

} // verus!
