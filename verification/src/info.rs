//! The handler that tells the state of the virtual machine.

use vstd::prelude::*;
use crate::api::ApiError;
use crate::dispatch::{reject, rejection, Dispatch};
use crate::error::{error_response, HttpError};
use crate::http::{Method, Request, Response, ResponseView, StatusCode};

verus! {

/// The answer of the info handler to what the control loop replied, the
/// state of the virtual machine being serialized already: 200 with the
/// text as body for a success, 500 with the rendered error for a failure.
pub open spec fn info_reply(outcome: Result<String, ApiError>) -> ResponseView {
    match outcome {
        Ok(text) => ResponseView::text(StatusCode::OK, text@),
        Err(e) => ResponseView::text(
            StatusCode::InternalServerError,
            HttpError::VmInfo(e).rendering(),
        ),
    }
}

/// The handler that tells the state of the virtual machine.
///
/// The state is opaque to the handler: the control loop hands it over and
/// a serializer turns it into the text of the body.
#[derive(Clone, Copy, Debug)]
pub struct VmInfo {}

impl VmInfo {
    /// Whether the handler asks the control loop for this request: the
    /// verb is `GET`.
    pub open spec fn accepts(req: &Request) -> bool {
        req.method == Method::Get
    }

    /// What the handler decides on a request: the query goes out for an
    /// accepted one, any other is answered with 400.
    pub open spec fn dispatched(req: &Request, d: Dispatch<()>) -> bool {
        if Self::accepts(req) {
            d == Dispatch::Forward(())
        } else {
            d.rejects()
        }
    }

    /// How the response to a request comes about: a request that is not
    /// accepted is answered with 400; for an accepted one the response is
    /// the answer to the error that `query` returned, or to the text that
    /// `serialize` made of the state that `query` returned.
    pub open spec fn handled<I, Q, S>(
        req: &Request,
        query: Q,
        serialize: S,
        response: Response,
    ) -> bool where
        Q: FnOnce() -> Result<I, ApiError>,
        S: FnOnce(&I) -> String,
    {
        if Self::accepts(req) {
            exists|outcome: Result<I, ApiError>|
                call_ensures(query, (), outcome) && match outcome {
                    Ok(info) => exists|text: String|
                        call_ensures(serialize, (&info,), text) && response@ == info_reply(
                            Ok(text),
                        ),
                    Err(e) => response@ == info_reply(Err(e)),
                }
        } else {
            response@ == rejection()
        }
    }

    /// Decides what becomes of a request.
    pub fn dispatch(&self, req: &Request) -> (d: Dispatch<()>)
        ensures
            Self::dispatched(req, d),
    {
        match req.method {
            Method::Get => Dispatch::Forward(()),
            _ => reject(),
        }
    }

    /// Turns the reply of the control loop, with the state serialized,
    /// into the response.
    pub fn respond(outcome: Result<String, ApiError>) -> (response: Response)
        ensures
            response@ == info_reply(outcome),
    {
        match outcome {
            Ok(text) => Response::with_text(StatusCode::OK, text.as_str()),
            Err(e) => error_response(HttpError::VmInfo(e), StatusCode::InternalServerError),
        }
    }

    /// Handles one request: asks the control loop through `query` if the
    /// request is accepted, serializes the state that comes back with
    /// `serialize`, and answers. `query` is called for an accepted request
    /// only, `serialize` only with a state that `query` returned, and each
    /// of them once.
    ///
    /// The serializer gives a text for every state. A state that cannot be
    /// serialized is a defect of the program: a serializer that meets one
    /// ends the program and does not return.
    pub fn handle_request<I, Q, S>(
        &self,
        req: &Request,
        query: Q,
        serialize: S,
    ) -> (response: Response) where
        Q: FnOnce() -> Result<I, ApiError>,
        S: FnOnce(&I) -> String,
        requires
            Self::accepts(req) ==> call_requires(query, ()),
            Self::accepts(req) ==> forall|info: I|
                call_ensures(query, (), Ok::<I, ApiError>(info)) ==> call_requires(
                    serialize,
                    (&info,),
                ),
        ensures
            Self::handled(req, query, serialize, response),
    {
        match self.dispatch(req) {
            Dispatch::Respond(response) => response,
            Dispatch::Forward(_) => match query() {
                Ok(info) => {
                    let text = serialize(&info);
                    Self::respond(Ok(text))
                },
                Err(e) => Self::respond(Err(e)),
            },
        }
    }
}

/// The query goes out exactly once for a `GET`. For any other verb it
/// does not go out, and the answer is 400.
pub proof fn lemma_info_queried_once(req: Request, d: Dispatch<()>)
    requires
        VmInfo::dispatched(&req, d),
    ensures
        req.method == Method::Get ==> d.forwarded() == seq![()],
        req.method != Method::Get ==> d.forwarded().len() == 0 && (d matches Dispatch::Respond(r)
            && r@.status.code() == 400),
{
}

/// A `GET` for which the control loop tells the state is answered with
/// 200, and the body is, byte for byte, the UTF-8 encoding of the text
/// that the serializer made of the state that the control loop returned.
pub proof fn lemma_info_body_is_serialization<I, Q, S>(
    req: Request,
    query: Q,
    serialize: S,
    response: Response,
) where
    Q: FnOnce() -> Result<I, ApiError>,
    S: FnOnce(&I) -> String,
    requires
        req.method == Method::Get,
        forall|outcome: Result<I, ApiError>| call_ensures(query, (), outcome) ==> outcome is Ok,
        VmInfo::handled(&req, query, serialize, response),
    ensures
        response@.status.code() == 200,
        exists|info: I, text: String|
            call_ensures(query, (), Ok::<I, ApiError>(info)) && call_ensures(
                serialize,
                (&info,),
                text,
            ) && response@.body == Some(vstd::utf8::encode_utf8(text@)),
{
}

/// The status of every answer of the info handler is 200, 400 or 500.
/// It is 400 for a verb other than `GET`, and for no other request. An
/// answer with 400 has no body, one with 200 has a body.
pub proof fn lemma_info_status<I, Q, S>(
    req: Request,
    query: Q,
    serialize: S,
    response: Response,
) where
    Q: FnOnce() -> Result<I, ApiError>,
    S: FnOnce(&I) -> String,
    requires
        VmInfo::handled(&req, query, serialize, response),
    ensures
        response@.status.code() == 200 || response@.status.code() == 400
            || response@.status.code() == 500,
        response@.status.code() == 400 <==> req.method != Method::Get,
        response@.status.code() == 400 ==> response@.body is None,
        response@.status.code() == 200 ==> response@.body is Some,
{
}

/// Two calls between which nothing changes are answered alike, byte for
/// byte. That nothing changes says: the two queries can only return the
/// same thing, and the two serializers can only make texts of the same
/// characters of one state.
pub proof fn lemma_info_repeatable<I, Q1, S1, Q2, S2>(
    req: Request,
    first_query: Q1,
    first_serialize: S1,
    first: Response,
    second_query: Q2,
    second_serialize: S2,
    second: Response,
) where
    Q1: FnOnce() -> Result<I, ApiError>,
    S1: FnOnce(&I) -> String,
    Q2: FnOnce() -> Result<I, ApiError>,
    S2: FnOnce(&I) -> String,
    requires
        forall|a: Result<I, ApiError>, b: Result<I, ApiError>|
            call_ensures(first_query, (), a) && call_ensures(second_query, (), b) ==> a == b,
        forall|info: I, s: String, t: String|
            call_ensures(first_serialize, (&info,), s) && call_ensures(
                second_serialize,
                (&info,),
                t,
            ) ==> s@ == t@,
        VmInfo::handled(&req, first_query, first_serialize, first),
        VmInfo::handled(&req, second_query, second_serialize, second),
    ensures
        first@ == second@,
{
}

} // verus!
