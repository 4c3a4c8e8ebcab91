use vmm::{ApiError, Dispatch, Method, Request, Response, StatusCode, VmAction, VmActionHandler, VmmShutdown};

#[test]
fn shutdown_put_answers_200() {
    let mut calls = 0;
    let response = VmmShutdown {}.handle_request(&Request::new(Method::Put, None), || {
        calls += 1;
        Ok(())
    });
    assert_eq!(calls, 1);
    assert_eq!(response, Response { status: StatusCode::OK, body: None });
    assert_eq!(response.status.code(), 200);
}

#[test]
fn shutdown_success_differs_from_the_success_of_an_action() {
    let req = Request::new(Method::Put, None);
    let monitor = VmmShutdown {}.handle_request(&req, || Ok(()));
    let machine = VmActionHandler::new(VmAction::Shutdown).handle_request(&req, |_a| Ok(()));
    assert_eq!(monitor.status.code(), 200);
    assert_eq!(machine.status.code(), 204);
    assert_ne!(monitor, machine);
}

#[test]
fn shutdown_rejects_every_verb_but_put() {
    for method in [Method::Get, Method::Head, Method::Post, Method::Patch, Method::Delete] {
        let mut calls = 0;
        let response = VmmShutdown {}.handle_request(&Request::new(method, None), || {
            calls += 1;
            Ok(())
        });
        assert_eq!(calls, 0);
        assert_eq!(response, Response { status: StatusCode::BadRequest, body: None });
    }
}

#[test]
fn shutdown_answers_500_when_the_control_loop_fails() {
    let response = VmmShutdown {}.handle_request(&Request::new(Method::Put, None), || {
        Err(ApiError::VmmShutdown(String::from("Busy")))
    });
    assert_eq!(response.status, StatusCode::InternalServerError);
    assert_eq!(response.status.code(), 500);
    assert_eq!(response.body, Some(b"VmmShutdown(VmmShutdown(Busy))".to_vec()));
}

#[test]
fn shutdown_dispatch_forwards_for_put_only() {
    assert_eq!(VmmShutdown {}.dispatch(&Request::new(Method::Put, None)), Dispatch::Forward(()));
    assert_eq!(
        VmmShutdown {}.dispatch(&Request::new(Method::Get, None)),
        Dispatch::Respond(Response { status: StatusCode::BadRequest, body: None })
    );
}

#[test]
fn shutdown_respond_answers_each_reply() {
    assert_eq!(VmmShutdown::respond(Ok(())), Response { status: StatusCode::OK, body: None });
    assert_eq!(
        VmmShutdown::respond(Err(ApiError::EventFdWrite(String::from("Os { code: 9 }")))),
        Response {
            status: StatusCode::InternalServerError,
            body: Some(b"VmmShutdown(EventFdWrite(Os { code: 9 }))".to_vec()),
        }
    );
}
