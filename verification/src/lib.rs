//! The HTTP-facing control surface of a virtual-machine monitor.
//!
//! A router hands each request to the handler of its route. The handler
//! checks the request, forwards at most one command to the control loop
//! that owns the virtual machine, and turns the reply into a response.
//! The way to the control loop is not part of this crate: a handler takes
//! it as a function that it calls at most once, and only for a request
//! that it accepts.

pub mod action;
pub mod api;
pub mod create;
pub mod dispatch;
pub mod error;
pub mod http;
pub mod info;
pub mod shutdown;

pub use action::VmActionHandler;
pub use api::{ApiError, VmAction};
pub use create::VmCreate;
pub use dispatch::Dispatch;
pub use error::{error_response, HttpError};
pub use http::{Method, Request, Response, StatusCode};
pub use info::VmInfo;
pub use shutdown::VmmShutdown;
