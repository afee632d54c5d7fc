use device_token_server::listener::{
    device_token_reply, listen_address, listener_step, route_path, token_event_name, ListenerAction,
    ListenerEvent, ListenerState, Reply, RequestOutcome,
};
use device_token_server::tokens::DecodeError;

#[test]
fn bind_failure_aborts_before_serving() {
    let (s, a) = listener_step(ListenerState::Unbound, ListenerEvent::Start);
    assert_eq!((s, a), (ListenerState::Binding, ListenerAction::Bind));
    assert_eq!(
        listener_step(s, ListenerEvent::BindFailed),
        (ListenerState::Aborted, ListenerAction::Abort)
    );
}

#[test]
fn bind_then_serve_then_crash() {
    let (s, a) = listener_step(ListenerState::Binding, ListenerEvent::BindSucceeded);
    assert_eq!((s, a), (ListenerState::Serving, ListenerAction::Serve));
    assert_eq!(
        listener_step(s, ListenerEvent::ServeFailed),
        (ListenerState::Crashed, ListenerAction::ReportCrash)
    );
}

#[test]
fn events_out_of_place_are_ignored() {
    assert_eq!(
        listener_step(ListenerState::Unbound, ListenerEvent::BindSucceeded),
        (ListenerState::Unbound, ListenerAction::Ignore)
    );
    assert_eq!(
        listener_step(ListenerState::Serving, ListenerEvent::Start),
        (ListenerState::Serving, ListenerAction::Ignore)
    );
    assert_eq!(
        listener_step(ListenerState::Crashed, ListenerEvent::ServeFailed),
        (ListenerState::Crashed, ListenerAction::Ignore)
    );
}

#[test]
fn emit_failure_still_replies_ok() {
    assert_eq!(device_token_reply(RequestOutcome::EmitFailed), Reply::Success);
    assert_eq!(device_token_reply(RequestOutcome::Emitted), Reply::Success);
    assert_eq!(device_token_reply(RequestOutcome::EmitFailed).code(), 200);
}

#[test]
fn decode_failure_is_a_client_error() {
    let r = device_token_reply(RequestOutcome::DecodeFailed(DecodeError::MissingAccessToken));
    assert_eq!(r, Reply::BadRequest);
    assert_eq!(r.code(), 400);
}

#[test]
fn serialize_failure_is_a_server_error() {
    let r = device_token_reply(RequestOutcome::SerializeFailed);
    assert_eq!(r, Reply::InternalServerError);
    assert_eq!(r.code(), 500);
}

#[test]
fn listens_on_loopback_at_the_given_port() {
    assert_eq!(listen_address(49152), ([127, 0, 0, 1], 49152));
    assert_eq!(listen_address(0), ([127, 0, 0, 1], 0));
}

#[test]
fn route_and_event_names() {
    assert_eq!(route_path(), "/device-token");
    assert_eq!(token_event_name(), "hopp_auth://token");
}
