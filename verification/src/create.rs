//! The handler that creates a virtual machine.

use std::sync::Arc;
use vstd::prelude::*;
use crate::api::ApiError;
use crate::dispatch::{reject, rejection, Dispatch};
use crate::error::{error_response, HttpError};
use crate::http::{Method, Request, Response, ResponseView, StatusCode};

verus! {

/// The answer to a request whose body the decoder refused: 400, with the
/// decoder's error rendered as the body.
pub open spec fn undecodable(cause: String) -> ResponseView {
    ResponseView::text(
        StatusCode::BadRequest,
        HttpError::SerdeJsonDeserialize(cause).rendering(),
    )
}

/// The answer of the create handler to what the control loop replied:
/// 204 for a success, 500 with the rendered error for a failure.
pub open spec fn create_reply(outcome: Result<(), ApiError>) -> ResponseView {
    match outcome {
        Ok(_) => ResponseView::empty(StatusCode::NoContent),
        Err(e) => ResponseView::text(
            StatusCode::InternalServerError,
            HttpError::VmCreate(e).rendering(),
        ),
    }
}

/// The handler that creates a virtual machine from a configuration.
///
/// The configuration is opaque to the handler: a decoder turns the body of
/// the request into one, or into the debug rendering of its error, and the
/// handler forwards the configuration as it came.
#[derive(Clone, Copy, Debug)]
pub struct VmCreate {}

impl VmCreate {
    /// Whether the body of this request goes to the decoder: the verb is
    /// `PUT` and there is a body. A body without a byte is a body: the
    /// decoder says what it makes of it.
    pub open spec fn accepts(req: &Request) -> bool {
        req.method == Method::Put && req.body is Some
    }

    /// What the handler makes of the decoder's result: a configuration is
    /// forwarded, shared; an error is answered with 400 and its text.
    pub open spec fn decided<C>(decoded: Result<C, String>, d: Dispatch<Arc<C>>) -> bool {
        match decoded {
            Ok(config) => d matches Dispatch::Forward(shared) && *shared == config,
            Err(cause) => d matches Dispatch::Respond(r) && r@ == undecodable(cause),
        }
    }

    /// What the handler decides on a request: one that is not accepted is
    /// answered with 400; the body of an accepted one goes to `decode`,
    /// and the decision is made on what `decode` returned.
    pub open spec fn dispatched<C, D: FnOnce(&Vec<u8>) -> Result<C, String>>(
        req: &Request,
        decode: D,
        d: Dispatch<Arc<C>>,
    ) -> bool {
        if Self::accepts(req) {
            exists|decoded: Result<C, String>|
                call_ensures(decode, (&req.body->0,), decoded) && Self::decided(decoded, d)
        } else {
            d.rejects()
        }
    }

    /// How the response to a request comes about: a request that is not
    /// accepted is answered with 400; a body that `decode` refuses is
    /// answered with 400 and the error; a configuration goes to `create`,
    /// and the response is the answer to what `create` returned.
    pub open spec fn handled<C, D, F>(
        req: &Request,
        decode: D,
        create: F,
        response: Response,
    ) -> bool where
        D: FnOnce(&Vec<u8>) -> Result<C, String>,
        F: FnOnce(Arc<C>) -> Result<(), ApiError>,
    {
        if Self::accepts(req) {
            exists|decoded: Result<C, String>|
                call_ensures(decode, (&req.body->0,), decoded) && match decoded {
                    Ok(config) => exists|shared: Arc<C>, outcome: Result<(), ApiError>|
                        *shared == config && call_ensures(create, (shared,), outcome)
                            && response@ == create_reply(outcome),
                    Err(cause) => response@ == undecodable(cause),
                }
        } else {
            response@ == rejection()
        }
    }

    /// The body to decode, if the request is accepted.
    pub fn payload<'a>(req: &'a Request) -> (bytes: Option<&'a Vec<u8>>)
        ensures
            Self::accepts(req) ==> bytes == Some(&req.body->0),
            !Self::accepts(req) ==> bytes is None,
    {
        match req.method {
            Method::Put => match &req.body {
                Some(bytes) => Some(bytes),
                None => None,
            },
            _ => None,
        }
    }

    /// Decides on the decoder's result.
    pub fn decoded<C>(decoded: Result<C, String>) -> (d: Dispatch<Arc<C>>)
        ensures
            Self::decided(decoded, d),
    {
        match decoded {
            Ok(config) => Dispatch::Forward(Arc::new(config)),
            Err(cause) => Dispatch::Respond(
                error_response(HttpError::SerdeJsonDeserialize(cause), StatusCode::BadRequest),
            ),
        }
    }

    /// Decides what becomes of a request, with `decode` as the decoder.
    pub fn dispatch<C, D: FnOnce(&Vec<u8>) -> Result<C, String>>(
        &self,
        req: &Request,
        decode: D,
    ) -> (d: Dispatch<Arc<C>>)
        requires
            Self::accepts(req) ==> call_requires(decode, (&req.body->0,)),
        ensures
            Self::dispatched(req, decode, d),
    {
        match Self::payload(req) {
            Some(bytes) => {
                let decoded = decode(bytes);
                Self::decoded(decoded)
            },
            None => reject(),
        }
    }

    /// Turns the reply of the control loop into the response.
    pub fn respond(outcome: Result<(), ApiError>) -> (response: Response)
        ensures
            response@ == create_reply(outcome),
    {
        match outcome {
            Ok(_) => Response::new(StatusCode::NoContent),
            Err(e) => error_response(HttpError::VmCreate(e), StatusCode::InternalServerError),
        }
    }

    /// Handles one request: decodes the body of an accepted request with
    /// `decode`, forwards the configuration through `create`, and answers.
    /// `decode` is called for an accepted request only, `create` only with
    /// a configuration that `decode` returned, and each of them once.
    pub fn handle_request<C, D, F>(
        &self,
        req: &Request,
        decode: D,
        create: F,
    ) -> (response: Response) where
        D: FnOnce(&Vec<u8>) -> Result<C, String>,
        F: FnOnce(Arc<C>) -> Result<(), ApiError>,
        requires
            Self::accepts(req) ==> call_requires(decode, (&req.body->0,)),
            Self::accepts(req) ==> forall|shared: Arc<C>|
                call_ensures(decode, (&req.body->0,), Ok::<C, String>(*shared))
                    ==> call_requires(create, (shared,)),
        ensures
            Self::handled(req, decode, create, response),
    {
        match self.dispatch(req, decode) {
            Dispatch::Respond(response) => response,
            Dispatch::Forward(config) => {
                let outcome = create(config);
                Self::respond(outcome)
            },
        }
    }
}

/// A `PUT` whose body the decoder takes for a configuration forwards
/// exactly one command, and the command carries what the decoder made of
/// the body.
pub proof fn lemma_create_forwards_configuration<C, D: FnOnce(&Vec<u8>) -> Result<C, String>>(
    req: Request,
    decode: D,
    d: Dispatch<Arc<C>>,
)
    requires
        VmCreate::accepts(&req),
        forall|decoded: Result<C, String>|
            call_ensures(decode, (&req.body->0,), decoded) ==> decoded is Ok,
        VmCreate::dispatched(&req, decode, d),
    ensures
        d.forwarded().len() == 1,
        call_ensures(decode, (&req.body->0,), Ok::<C, String>(*d.forwarded()[0])),
{
}

/// A request without a body, or with one that the decoder refuses,
/// forwards no command and is answered with 400, whatever its verb.
pub proof fn lemma_create_refuses_malformed<C, D: FnOnce(&Vec<u8>) -> Result<C, String>>(
    req: Request,
    decode: D,
    d: Dispatch<Arc<C>>,
)
    requires
        VmCreate::accepts(&req) ==> forall|decoded: Result<C, String>|
            call_ensures(decode, (&req.body->0,), decoded) ==> decoded is Err,
        VmCreate::dispatched(&req, decode, d),
    ensures
        d.forwarded().len() == 0,
        d matches Dispatch::Respond(r) && r@.status.code() == 400,
{
}

/// Where the request is accepted, the decoder gives a configuration and
/// the control loop creates the virtual machine, the answer is 204 with no
/// body.
pub proof fn lemma_create_success<C, D, F>(
    req: Request,
    decode: D,
    create: F,
    response: Response,
) where
    D: FnOnce(&Vec<u8>) -> Result<C, String>,
    F: FnOnce(Arc<C>) -> Result<(), ApiError>,
    requires
        VmCreate::accepts(&req),
        forall|decoded: Result<C, String>|
            call_ensures(decode, (&req.body->0,), decoded) ==> decoded is Ok,
        forall|shared: Arc<C>, outcome: Result<(), ApiError>|
            call_ensures(create, (shared,), outcome) ==> outcome is Ok,
        VmCreate::handled(&req, decode, create, response),
    ensures
        response@.status.code() == 204,
        response@.body is None,
{
}

/// The status of every answer of the create handler is 204, 400 or 500.
/// A request that is not accepted is answered with 400 and no body. One
/// with 500 is given to an accepted request only. An answer has a body if
/// and only if its status is 500, or it is the 400 to a `PUT` whose body
/// the decoder refused.
pub proof fn lemma_create_status<C, D, F>(
    req: Request,
    decode: D,
    create: F,
    response: Response,
) where
    D: FnOnce(&Vec<u8>) -> Result<C, String>,
    F: FnOnce(Arc<C>) -> Result<(), ApiError>,
    requires
        VmCreate::handled(&req, decode, create, response),
    ensures
        response@.status.code() == 204 || response@.status.code() == 400
            || response@.status.code() == 500,
        !VmCreate::accepts(&req) ==> response@.status.code() == 400 && response@.body is None,
        response@.status.code() == 500 ==> VmCreate::accepts(&req),
        response@.body is Some <==> response@.status.code() == 500 || (VmCreate::accepts(&req)
            && response@.status.code() == 400),
        VmCreate::accepts(&req) && response@.status.code() == 400 ==> exists|cause: String|
            call_ensures(decode, (&req.body->0,), Err::<C, String>(cause)) && response@
                == undecodable(cause),
{
}

} // verus!
