//! Requests and responses as the handlers see them: a verb or a status
//! code, and an optional body of raw bytes.

use vstd::prelude::*;

verus! {

/// The verb of a request.
#[derive(Clone, Copy, Debug, PartialEq, Eq, Structural)]
pub enum Method {
    Get,
    Head,
    Post,
    Put,
    Patch,
    Delete,
}

/// The status codes that the handlers answer with.
#[derive(Clone, Copy, Debug, PartialEq, Eq, Structural)]
pub enum StatusCode {
    /// 200
    OK,
    /// 204
    NoContent,
    /// 400
    BadRequest,
    /// 500
    InternalServerError,
}

impl StatusCode {
    /// The number that goes on the wire.
    pub open spec fn spec_code(self) -> u16 {
        match self {
            StatusCode::OK => 200,
            StatusCode::NoContent => 204,
            StatusCode::BadRequest => 400,
            StatusCode::InternalServerError => 500,
        }
    }

    /// The number that goes on the wire.
    #[verifier::when_used_as_spec(spec_code)]
    pub fn code(self) -> (n: u16)
        ensures
            n == self.spec_code(),
    {
        match self {
            StatusCode::OK => 200,
            StatusCode::NoContent => 204,
            StatusCode::BadRequest => 400,
            StatusCode::InternalServerError => 500,
        }
    }
}

/// A request as the router hands it to a handler.
#[derive(Clone, Debug, PartialEq, Eq)]
pub struct Request {
    pub method: Method,
    pub body: Option<Vec<u8>>,
}

impl Request {
    /// A request with the given verb and body.
    pub fn new(method: Method, body: Option<Vec<u8>>) -> (req: Request)
        ensures
            req.method == method,
            req.body == body,
    {
        Request { method, body }
    }
}

/// The answer to one request.
#[derive(Clone, Debug, PartialEq, Eq)]
pub struct Response {
    pub status: StatusCode,
    pub body: Option<Vec<u8>>,
}

/// What a response is in contracts: its status and the bytes of its body.
pub struct ResponseView {
    pub status: StatusCode,
    pub body: Option<Seq<u8>>,
}

impl View for Response {
    type V = ResponseView;

    open spec fn view(&self) -> ResponseView {
        ResponseView {
            status: self.status,
            body: match self.body {
                Some(bytes) => Some(bytes@),
                None => None,
            },
        }
    }
}

impl ResponseView {
    /// The response that carries a status and nothing else.
    pub open spec fn empty(status: StatusCode) -> ResponseView {
        ResponseView { status, body: None }
    }

    /// The response that carries a status and the UTF-8 bytes of a text.
    pub open spec fn text(status: StatusCode, text: Seq<char>) -> ResponseView {
        ResponseView { status, body: Some(vstd::utf8::encode_utf8(text)) }
    }
}

impl Response {
    /// A response with the given status and no body.
    pub fn new(status: StatusCode) -> (resp: Response)
        ensures
            resp@ == ResponseView::empty(status),
    {
        Response { status, body: None }
    }

    /// Replaces the body and leaves the status as it is.
    pub fn set_body(&mut self, body: Vec<u8>)
        ensures
            final(self)@ == (ResponseView { status: old(self)@.status, body: Some(body@) }),
    {
        self.body = Some(body);
    }

    /// A response with the given status whose body is the text, UTF-8 encoded.
    pub fn with_text(status: StatusCode, text: &str) -> (resp: Response)
        ensures
            resp@ == ResponseView::text(status, text@),
    {
        let mut resp = Response::new(status);
        resp.set_body(text.as_bytes_vec());
        resp
    }
}

} // verus!
