//! What a handler decides before anything leaves it.

use vstd::prelude::*;
use crate::http::{Response, ResponseView, StatusCode};

verus! {

/// What a handler does with a request before anything leaves it: it
/// answers at once, or it forwards one command.
#[derive(Debug, PartialEq, Eq)]
pub enum Dispatch<T> {
    /// The request is answered without a command.
    Respond(Response),
    /// The command goes to the control loop.
    Forward(T),
}

impl<T> Dispatch<T> {
    /// The commands that leave the handler, in order: one or none.
    pub open spec fn forwarded(self) -> Seq<T> {
        match self {
            Dispatch::Respond(_) => Seq::empty(),
            Dispatch::Forward(command) => seq![command],
        }
    }

    /// Whether the request is answered without a command, and with 400
    /// and no body.
    pub open spec fn rejects(self) -> bool {
        self matches Dispatch::Respond(response) && response@ == rejection()
    }
}

/// The answer to a request that a handler does not accept.
pub open spec fn rejection() -> ResponseView {
    ResponseView::empty(StatusCode::BadRequest)
}

/// Answers a request that a handler does not accept.
pub fn reject<T>() -> (d: Dispatch<T>)
    ensures
        d.rejects(),
{
    Dispatch::Respond(Response::new(StatusCode::BadRequest))
}

} // verus!
