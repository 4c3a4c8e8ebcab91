//! The six lifecycle actions, handled by one type.

use vstd::prelude::*;
use crate::api::{ApiError, VmAction};
use crate::dispatch::{reject, rejection, Dispatch};
use crate::error::{error_response, HttpError};
use crate::http::{Method, Request, Response, ResponseView, StatusCode};

verus! {

/// The answer of a lifecycle action to what the control loop replied:
/// 204 for a success, 500 with the rendered error for a failure.
pub open spec fn action_reply(outcome: Result<(), ApiError>) -> ResponseView {
    match outcome {
        Ok(_) => ResponseView::empty(StatusCode::NoContent),
        Err(e) => ResponseView::text(
            StatusCode::InternalServerError,
            HttpError::action_failure(e).rendering(),
        ),
    }
}

/// The handler of the lifecycle actions, bound to one of them.
#[derive(Clone, Copy, Debug)]
pub struct VmActionHandler {
    action: VmAction,
}

impl VmActionHandler {
    /// The action that the handler forwards.
    pub closed spec fn spec_action(&self) -> VmAction {
        self.action
    }

    /// The handler of the given action.
    pub fn new(action: VmAction) -> (handler: VmActionHandler)
        ensures
            handler.action() == action,
    {
        VmActionHandler { action }
    }

    /// The action that the handler forwards.
    #[verifier::when_used_as_spec(spec_action)]
    pub fn action(&self) -> (action: VmAction)
        ensures
            action == self.action(),
    {
        self.action
    }

    /// Whether the handler forwards its action for this request: the verb
    /// is `PUT`.
    pub open spec fn accepts(req: &Request) -> bool {
        req.method == Method::Put
    }

    /// What the handler decides on a request: the action is forwarded for
    /// an accepted one, any other is answered with 400.
    pub open spec fn dispatched(&self, req: &Request, d: Dispatch<VmAction>) -> bool {
        if Self::accepts(req) {
            d == Dispatch::Forward(self.action())
        } else {
            d.rejects()
        }
    }

    /// How the response to a request comes about: a request that is not
    /// accepted is answered with 400; for an accepted one the response is
    /// the answer to what `act` returned for the action.
    pub open spec fn handled<F: FnOnce(VmAction) -> Result<(), ApiError>>(
        &self,
        req: &Request,
        act: F,
        response: Response,
    ) -> bool {
        if Self::accepts(req) {
            exists|outcome: Result<(), ApiError>|
                call_ensures(act, (self.action(),), outcome) && response@ == action_reply(outcome)
        } else {
            response@ == rejection()
        }
    }

    /// Decides what becomes of a request.
    pub fn dispatch(&self, req: &Request) -> (d: Dispatch<VmAction>)
        ensures
            self.dispatched(req, d),
    {
        match req.method {
            Method::Put => Dispatch::Forward(self.action),
            _ => reject(),
        }
    }

    /// Turns the reply of the control loop into the response.
    pub fn respond(outcome: Result<(), ApiError>) -> (response: Response)
        ensures
            response@ == action_reply(outcome),
    {
        match outcome {
            Ok(_) => Response::new(StatusCode::NoContent),
            Err(e) => error_response(
                HttpError::from_action_failure(e),
                StatusCode::InternalServerError,
            ),
        }
    }

    /// Handles one request: forwards the action through `act` if the
    /// request is accepted, and answers. `act` is called for an accepted
    /// request only, and once.
    pub fn handle_request<F: FnOnce(VmAction) -> Result<(), ApiError>>(
        &self,
        req: &Request,
        act: F,
    ) -> (response: Response)
        requires
            Self::accepts(req) ==> call_requires(act, (self.action(),)),
        ensures
            self.handled(req, act, response),
    {
        match self.dispatch(req) {
            Dispatch::Respond(response) => response,
            Dispatch::Forward(action) => {
                let outcome = act(action);
                Self::respond(outcome)
            },
        }
    }
}

/// Each of the six actions is forwarded exactly once for a `PUT`. For any
/// other verb nothing is forwarded, and the answer is 400.
pub proof fn lemma_action_forwarded_once(
    handler: VmActionHandler,
    action: VmAction,
    req: Request,
    d: Dispatch<VmAction>,
)
    requires
        handler.action() == action,
        handler.dispatched(&req, d),
    ensures
        req.method == Method::Put ==> d.forwarded() == seq![action],
        req.method != Method::Put ==> d.forwarded().len() == 0 && d.rejects(),
        d.rejects() ==> (d matches Dispatch::Respond(r) && r@.status.code() == 400),
{
}

/// The status of every answer of a lifecycle action is 204, 400 or 500:
/// 400 with no body for a verb other than `PUT`, and for no other request;
/// else 204 with no body where the control loop succeeds, and 500 with a
/// body where it fails.
pub proof fn lemma_action_status<F: FnOnce(VmAction) -> Result<(), ApiError>>(
    handler: VmActionHandler,
    req: Request,
    act: F,
    response: Response,
)
    requires
        handler.handled(&req, act, response),
    ensures
        response@.status.code() == 400 <==> req.method != Method::Put,
        req.method != Method::Put ==> response@.body is None,
        req.method == Method::Put ==> exists|outcome: Result<(), ApiError>|
            call_ensures(act, (handler.action(),), outcome) && match outcome {
                Ok(_) => response@.status.code() == 204 && response@.body is None,
                Err(_) => response@.status.code() == 500 && response@.body is Some,
            },
{
}

} // verus!
