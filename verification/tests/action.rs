use vmm::{ApiError, Dispatch, HttpError, Method, Request, Response, StatusCode, VmAction, VmActionHandler};

const ACTIONS: [VmAction; 6] = [
    VmAction::Boot,
    VmAction::Delete,
    VmAction::Shutdown,
    VmAction::Reboot,
    VmAction::Pause,
    VmAction::Resume,
];

fn put() -> Request {
    Request::new(Method::Put, None)
}

#[test]
fn action_handler_is_bound_to_its_action() {
    for action in ACTIONS {
        assert_eq!(VmActionHandler::new(action).action(), action);
    }
}

#[test]
fn action_put_forwards_once() {
    for action in ACTIONS {
        let mut forwarded: Vec<VmAction> = Vec::new();
        let response = VmActionHandler::new(action).handle_request(&put(), |a| {
            forwarded.push(a);
            Ok(())
        });
        assert_eq!(forwarded, vec![action]);
        assert_eq!(response, Response { status: StatusCode::NoContent, body: None });
    }
}

#[test]
fn action_other_verbs_forward_nothing() {
    for action in ACTIONS {
        for method in [Method::Get, Method::Head, Method::Post, Method::Patch, Method::Delete] {
            let mut calls = 0;
            let response = VmActionHandler::new(action).handle_request(&Request::new(method, None), |_a| {
                calls += 1;
                Ok(())
            });
            assert_eq!(calls, 0);
            assert_eq!(response, Response { status: StatusCode::BadRequest, body: None });
            assert_eq!(response.status.code(), 400);
        }
    }
}

#[test]
fn action_put_with_a_body_is_accepted() {
    let mut calls = 0;
    let req = Request::new(Method::Put, Some(b"ignored".to_vec()));
    let response = VmActionHandler::new(VmAction::Pause).handle_request(&req, |_a| {
        calls += 1;
        Ok(())
    });
    assert_eq!(calls, 1);
    assert_eq!(response.status.code(), 204);
}

#[test]
fn boot_that_succeeds_answers_204() {
    let response = VmActionHandler::new(VmAction::Boot).handle_request(&put(), |_a| Ok(()));
    assert_eq!(response.status, StatusCode::NoContent);
    assert_eq!(response.status.code(), 204);
    assert_eq!(response.body, None);
}

#[test]
fn boot_that_fails_answers_500_with_the_boot_error() {
    let response = VmActionHandler::new(VmAction::Boot)
        .handle_request(&put(), |_a| Err(ApiError::VmBoot(String::from("KernelLoad"))));
    assert_eq!(response.status, StatusCode::InternalServerError);
    assert_eq!(response.status.code(), 500);
    assert_eq!(response.body, Some(b"VmBoot(VmBoot(KernelLoad))".to_vec()));
}

#[test]
fn delete_that_fails_is_a_failure_to_act() {
    let response = VmActionHandler::new(VmAction::Delete)
        .handle_request(&put(), |_a| Err(ApiError::VmDelete(String::from("Busy"))));
    assert_eq!(response.status, StatusCode::InternalServerError);
    assert_eq!(response.body, Some(b"VmAction(VmDelete(Busy))".to_vec()));
}

#[test]
fn action_error_goes_by_the_kind_of_the_failure_not_by_the_action() {
    let response = VmActionHandler::new(VmAction::Pause)
        .handle_request(&put(), |_a| Err(ApiError::VmResume(String::from("NotPaused"))));
    assert_eq!(response.body, Some(b"VmResume(VmResume(NotPaused))".to_vec()));
}

#[test]
fn action_dispatch_forwards_for_put_only() {
    for action in ACTIONS {
        let handler = VmActionHandler::new(action);
        assert_eq!(handler.dispatch(&put()), Dispatch::Forward(action));
        assert_eq!(
            handler.dispatch(&Request::new(Method::Get, None)),
            Dispatch::Respond(Response { status: StatusCode::BadRequest, body: None })
        );
    }
}

#[test]
fn action_respond_answers_each_reply() {
    assert_eq!(VmActionHandler::respond(Ok(())), Response { status: StatusCode::NoContent, body: None });
    assert_eq!(
        VmActionHandler::respond(Err(ApiError::VmShutdown(String::from("x")))),
        Response {
            status: StatusCode::InternalServerError,
            body: Some(b"VmShutdown(VmShutdown(x))".to_vec()),
        }
    );
    assert_eq!(
        VmActionHandler::respond(Err(ApiError::ResponseRecv(String::from("RecvError")))),
        Response {
            status: StatusCode::InternalServerError,
            body: Some(b"VmAction(ResponseRecv(RecvError))".to_vec()),
        }
    );
}

#[test]
fn action_failure_keeps_the_five_named_kinds() {
    let cause = || String::from("c");
    assert_eq!(
        HttpError::from_action_failure(ApiError::VmBoot(cause())),
        HttpError::VmBoot(ApiError::VmBoot(cause()))
    );
    assert_eq!(
        HttpError::from_action_failure(ApiError::VmShutdown(cause())),
        HttpError::VmShutdown(ApiError::VmShutdown(cause()))
    );
    assert_eq!(
        HttpError::from_action_failure(ApiError::VmReboot(cause())),
        HttpError::VmReboot(ApiError::VmReboot(cause()))
    );
    assert_eq!(
        HttpError::from_action_failure(ApiError::VmPause(cause())),
        HttpError::VmPause(ApiError::VmPause(cause()))
    );
    assert_eq!(
        HttpError::from_action_failure(ApiError::VmResume(cause())),
        HttpError::VmResume(ApiError::VmResume(cause()))
    );
}

#[test]
fn action_failure_of_any_other_kind_is_a_failure_to_act() {
    let cause = || String::from("c");
    let others = [
        ApiError::EventFdWrite(cause()),
        ApiError::RequestSend(cause()),
        ApiError::ResponsePayloadType,
        ApiError::ResponseRecv(cause()),
        ApiError::VmCreate(cause()),
        ApiError::VmDelete(cause()),
        ApiError::VmInfo(cause()),
        ApiError::VmmShutdown(cause()),
    ];
    for e in others {
        assert_eq!(HttpError::from_action_failure(e.clone()), HttpError::VmAction(e));
    }
}

#[test]
fn action_failure_gives_the_same_error_each_time() {
    let e = ApiError::VmReboot(String::from("c"));
    assert_eq!(HttpError::from_action_failure(e.clone()), HttpError::from_action_failure(e));
}
