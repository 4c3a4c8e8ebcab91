//! The handler that shuts the monitor down.

use vstd::prelude::*;
use crate::action::action_reply;
use crate::api::ApiError;
use crate::dispatch::{reject, rejection, Dispatch};
use crate::error::{error_response, HttpError};
use crate::http::{Method, Request, Response, ResponseView, StatusCode};

verus! {

/// The answer of the shutdown handler to what the control loop replied:
/// 200 for a success, 500 with the rendered error for a failure.
pub open spec fn shutdown_reply(outcome: Result<(), ApiError>) -> ResponseView {
    match outcome {
        Ok(_) => ResponseView::empty(StatusCode::OK),
        Err(e) => ResponseView::text(
            StatusCode::InternalServerError,
            HttpError::VmmShutdown(e).rendering(),
        ),
    }
}

/// The handler that shuts the monitor down.
#[derive(Clone, Copy, Debug)]
pub struct VmmShutdown {}

impl VmmShutdown {
    /// Whether the handler forwards the shutdown for this request: the
    /// verb is `PUT`.
    pub open spec fn accepts(req: &Request) -> bool {
        req.method == Method::Put
    }

    /// What the handler decides on a request: the shutdown is forwarded
    /// for an accepted one, any other is answered with 400.
    pub open spec fn dispatched(req: &Request, d: Dispatch<()>) -> bool {
        if Self::accepts(req) {
            d == Dispatch::Forward(())
        } else {
            d.rejects()
        }
    }

    /// How the response to a request comes about: a request that is not
    /// accepted is answered with 400; for an accepted one the response is
    /// the answer to what `shutdown` returned.
    pub open spec fn handled<F: FnOnce() -> Result<(), ApiError>>(
        req: &Request,
        shutdown: F,
        response: Response,
    ) -> bool {
        if Self::accepts(req) {
            exists|outcome: Result<(), ApiError>|
                call_ensures(shutdown, (), outcome) && response@ == shutdown_reply(outcome)
        } else {
            response@ == rejection()
        }
    }

    /// Decides what becomes of a request.
    pub fn dispatch(&self, req: &Request) -> (d: Dispatch<()>)
        ensures
            Self::dispatched(req, d),
    {
        match req.method {
            Method::Put => Dispatch::Forward(()),
            _ => reject(),
        }
    }

    /// Turns the reply of the control loop into the response.
    pub fn respond(outcome: Result<(), ApiError>) -> (response: Response)
        ensures
            response@ == shutdown_reply(outcome),
    {
        match outcome {
            Ok(_) => Response::new(StatusCode::OK),
            Err(e) => error_response(HttpError::VmmShutdown(e), StatusCode::InternalServerError),
        }
    }

    /// Handles one request: forwards the shutdown through `shutdown` if
    /// the request is accepted, and answers. `shutdown` is called for an
    /// accepted request only, and once.
    pub fn handle_request<F: FnOnce() -> Result<(), ApiError>>(
        &self,
        req: &Request,
        shutdown: F,
    ) -> (response: Response)
        requires
            Self::accepts(req) ==> call_requires(shutdown, ()),
        ensures
            Self::handled(req, shutdown, response),
    {
        match self.dispatch(req) {
            Dispatch::Respond(response) => response,
            Dispatch::Forward(_) => {
                let outcome = shutdown();
                Self::respond(outcome)
            },
        }
    }
}

/// The shutdown is forwarded exactly once for a `PUT`. For any other verb
/// it is not forwarded, and the answer is 400.
pub proof fn lemma_shutdown_forwarded_once(req: Request, d: Dispatch<()>)
    requires
        VmmShutdown::dispatched(&req, d),
    ensures
        req.method == Method::Put ==> d.forwarded() == seq![()],
        req.method != Method::Put ==> d.forwarded().len() == 0 && (d matches Dispatch::Respond(r)
            && r@.status.code() == 400),
{
}

/// The status of every answer of the shutdown handler is 200, 400 or 500,
/// and never 204. It is 400 for a verb other than `PUT`, and for no other
/// request. An answer with 400 or 200 has no body.
pub proof fn lemma_shutdown_status<F: FnOnce() -> Result<(), ApiError>>(
    req: Request,
    shutdown: F,
    response: Response,
)
    requires
        VmmShutdown::handled(&req, shutdown, response),
    ensures
        response@.status.code() == 200 || response@.status.code() == 400
            || response@.status.code() == 500,
        response@.status.code() == 400 <==> req.method != Method::Put,
        response@.status.code() == 400 ==> response@.body is None,
        response@.status.code() == 200 ==> response@.body is None,
{
}

/// A shutdown of the monitor that succeeded is answered with 200, and so
/// differs from a lifecycle action that succeeded, which is answered with
/// 204.
pub proof fn lemma_shutdown_success_is_ok()
    ensures
        shutdown_reply(Ok(())).status.code() == 200,
        shutdown_reply(Ok(())).body is None,
        action_reply(Ok(())).status.code() == 204,
        shutdown_reply(Ok(())) != action_reply(Ok(())),
{
}

} // verus!
