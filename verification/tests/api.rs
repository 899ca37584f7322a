use protobuf::{Message, ProtobufError, RepeatedField};
use sc2::api::{Action, Link, Operation, Running, TransportError, Work, API};
use sc2_proto::debug::{DebugCommand, DebugGameState};
use sc2_proto::sc2api::{Request, Response};

fn debug_request() -> Request {
    let mut command = DebugCommand::new();
    command.set_game_state(DebugGameState::show_map);
    let mut request = Request::new();
    request.mut_debug().set_debug(RepeatedField::from_vec(vec![command]));
    request
}

fn response_bytes(id: u32) -> Vec<u8> {
    let mut response = Response::new();
    response.mut_error().push(format!("reply {}", id));
    response.mut_debug();
    response.write_to_bytes().unwrap()
}

#[test]
fn a_fresh_connection_admits_everything() {
    let api = API::new();
    assert!(!api.is_broken());
    assert!(!api.awaits_reply());
    assert!(!api.is_running());
    assert_eq!(api.pending_work(), None);
    assert!(api.admits(Operation::Send));
    assert!(api.admits(Operation::SendRequest));
    assert!(api.admits(Operation::SendOnly));
    assert!(api.admits(Operation::WaitResponse));
}

#[test]
fn send_encodes_the_request() {
    let request = debug_request();
    let mut api = API::new();
    let bytes = api.send(&request).unwrap();
    assert!(!bytes.is_empty());
    assert_eq!(bytes, request.write_to_bytes().unwrap());
    let mut parsed = Request::new();
    parsed.merge_from_bytes(&bytes).unwrap();
    assert_eq!(parsed, request);
    assert!(parsed.has_debug());
    assert_eq!(parsed.get_debug().get_debug().len(), 1);
    assert_eq!(api.pending_work(), Some(Work::Write));
}

#[test]
fn send_writes_reads_and_decodes() {
    let mut api = API::new();
    assert!(api.send(&debug_request()).is_ok());
    assert!(api.is_running());
    assert!(!api.admits(Operation::Send));
    assert!(!api.admits(Operation::WaitResponse));
    assert!(!api.awaits_reply());
    assert_eq!(api.advance(true), Action::Do(Work::Read));
    assert!(api.awaits_reply());
    assert_eq!(api.pending_work(), Some(Work::Read));
    assert_eq!(api.advance(true), Action::Do(Work::Decode));
    assert!(!api.awaits_reply());
    assert_eq!(api.pending_work(), Some(Work::Decode));
    let reply = api.receive(&response_bytes(7)).unwrap().unwrap();
    assert_eq!(reply.get_error().to_vec(), vec!["reply 7".to_string()]);
    assert!(reply.has_debug());
    assert!(!api.is_running());
    assert!(!api.awaits_reply());
    assert!(!api.is_broken());
    assert!(api.admits(Operation::Send));
}

#[test]
fn send_request_drops_the_reply() {
    let mut api = API::new();
    let bytes = api.send_request(&Request::new()).unwrap();
    assert!(bytes.is_empty());
    assert_eq!(api.advance(true), Action::Do(Work::Read));
    assert_eq!(api.advance(true), Action::Do(Work::Decode));
    assert_eq!(api.receive(&response_bytes(3)), Ok(None));
    assert!(!api.awaits_reply());
    assert!(!api.is_running());
    assert!(api.admits(Operation::SendRequest));
}

#[test]
fn send_request_still_wants_a_reply_of_the_schema() {
    let mut api = API::new();
    assert!(api.send_request(&Request::new()).is_ok());
    api.advance(true);
    api.advance(true);
    assert_eq!(api.receive(&[0xff, 0xff]), Err(TransportError::Decode));
    assert!(api.is_broken());
}

#[test]
fn send_only_leaves_a_reply_to_come() {
    let mut api = API::new();
    assert_eq!(
        api.send_only(&debug_request()),
        Ok(debug_request().write_to_bytes().unwrap())
    );
    assert_eq!(api.pending_work(), Some(Work::Write));
    assert_eq!(api.advance(true), Action::Done { reply: false });
    assert_eq!(api.pending_work(), None);
    assert!(api.awaits_reply());
    assert!(!api.admits(Operation::Send));
    assert!(!api.admits(Operation::SendRequest));
    assert!(!api.admits(Operation::SendOnly));
    assert!(api.admits(Operation::WaitResponse));
}

#[test]
fn wait_response_takes_the_reply() {
    let mut api = API::new();
    assert!(api.send_only(&Request::new()).is_ok());
    api.advance(true);
    assert_eq!(api.wait_response(), Action::Do(Work::Read));
    assert_eq!(api.advance(true), Action::Do(Work::Decode));
    let reply = api.receive(&response_bytes(42)).unwrap().unwrap();
    assert_eq!(reply.get_error().to_vec(), vec!["reply 42".to_string()]);
    assert!(!api.awaits_reply());
    assert!(api.admits(Operation::SendOnly));
}

#[test]
fn an_empty_message_is_an_empty_reply() {
    let mut api = API::new();
    api.wait_response();
    api.advance(true);
    assert_eq!(api.receive(&[]), Ok(Some(Response::new())));
}

#[test]
fn a_failed_write_breaks_the_connection() {
    let mut api = API::new();
    assert!(api.send(&Request::new()).is_ok());
    assert_eq!(api.advance(false), Action::Failed(TransportError::Write));
    assert!(api.is_broken());
    assert!(!api.is_running());
    assert!(!api.awaits_reply());
    assert!(!api.admits(Operation::Send));
    assert!(!api.admits(Operation::SendRequest));
    assert!(!api.admits(Operation::SendOnly));
    assert!(!api.admits(Operation::WaitResponse));
}

#[test]
fn a_failed_read_breaks_the_connection() {
    let mut api = API::new();
    assert!(api.send(&Request::new()).is_ok());
    assert_eq!(api.advance(true), Action::Do(Work::Read));
    assert_eq!(api.advance(false), Action::Failed(TransportError::Read));
    assert!(api.is_broken());
    assert!(!api.admits(Operation::WaitResponse));
    let mut api = API::new();
    assert_eq!(api.wait_response(), Action::Do(Work::Read));
    assert_eq!(api.advance(false), Action::Failed(TransportError::Read));
    assert!(api.is_broken());
}

#[test]
fn a_malformed_reply_breaks_the_connection() {
    for bytes in [vec![0xff], vec![0x0a, 0x05, 0x01], vec![0x08]] {
        let mut api = API::new();
        api.wait_response();
        assert_eq!(api.advance(true), Action::Do(Work::Decode));
        assert_eq!(api.receive(&bytes), Err(TransportError::Decode), "{:?}", bytes);
        assert!(api.is_broken());
        assert!(!api.is_running());
        assert!(!api.admits(Operation::Send));
    }
}

#[test]
fn errors_say_what_failed() {
    assert_eq!(TransportError::Encode.message(), "failed to encode the request");
    assert_eq!(TransportError::Write.message(), "failed to write to the socket");
    assert_eq!(TransportError::Read.message(), "failed to read from the socket");
    assert_eq!(TransportError::Decode.message(), "failed to decode the response");
}

#[test]
fn link_values_compare_by_their_fields() {
    let idle = Link { running: None, awaiting_reply: false, broken: false };
    let busy = Link {
        running: Some(Running { operation: Operation::Send, position: 1 }),
        awaiting_reply: false,
        broken: false,
    };
    assert_ne!(idle, busy);
    assert_eq!(busy, busy.clone());
}

#[test]
fn a_request_that_does_not_encode_fails_the_operation() {
    for operation in [Operation::Send, Operation::SendRequest, Operation::SendOnly] {
        let mut api = API::new();
        assert_eq!(api.begin(operation), Action::Do(Work::Encode));
        assert_eq!(api.pending_work(), Some(Work::Encode));
        assert_eq!(
            api.finish_encode(Err(ProtobufError::message_not_initialized("Request"))),
            Err(TransportError::Encode)
        );
        assert!(api.is_broken());
        assert!(!api.is_running());
        assert!(!api.awaits_reply());
        assert!(!api.admits(operation));
    }
}

#[test]
fn encoded_bytes_are_handed_on_for_writing() {
    let mut api = API::new();
    api.begin(Operation::SendOnly);
    assert_eq!(api.finish_encode(Ok(vec![1, 2, 3])), Ok(vec![1, 2, 3]));
    assert_eq!(api.pending_work(), Some(Work::Write));
    assert!(!api.is_broken());
}

#[test]
fn a_decoded_reply_goes_to_the_caller_where_one_is_due() {
    let mut response = Response::new();
    response.mut_error().push("tagged".to_string());

    let mut api = API::new();
    assert_eq!(api.begin(Operation::WaitResponse), Action::Do(Work::Read));
    api.advance(true);
    assert_eq!(api.finish_decode(Ok(response.clone())), Ok(Some(response.clone())));
    assert!(!api.is_running());

    let mut api = API::new();
    assert!(api.send_request(&Request::new()).is_ok());
    api.advance(true);
    api.advance(true);
    assert_eq!(api.finish_decode(Ok(response.clone())), Ok(None));
    assert!(!api.is_running());
    assert!(!api.is_broken());

    let mut api = API::new();
    assert!(api.send(&Request::new()).is_ok());
    api.advance(true);
    api.advance(true);
    assert_eq!(
        api.finish_decode(Err(ProtobufError::message_not_initialized("Response"))),
        Err(TransportError::Decode)
    );
    assert!(api.is_broken());
}
