use keyz::command::close_command;
use keyz::command::delete_command;
use keyz::command::expires_in_command;
use keyz::command::get_command;
use keyz::command::set_command;
use keyz::errors::KeyzError;
use keyz::response::interpret_delete_response;
use keyz::response::interpret_expires_in_response;
use keyz::response::interpret_get_response;
use keyz::response::interpret_set_response;
use keyz::session::Session;
use keyz::wire::decode_frame;
use keyz::wire::encode_frame;

#[test]
fn connected_session_frames_a_message() {
    let session = Session::new();
    let message = b"GET test".to_vec();
    let plan = session.prepare_send(&message).unwrap();
    assert!(plan.expects_response);
    assert_eq!(plan.frame, encode_frame(&message));
    assert_eq!(decode_frame(&plan.frame), Ok(message));
}

#[test]
fn close_is_fire_and_forget() {
    let session = Session::new();
    let plan = session.prepare_send(&close_command()).unwrap();
    assert!(!plan.expects_response);
    assert_eq!(decode_frame(&plan.frame), Ok(b"CLOSE".to_vec()));
}

#[test]
fn closed_session_rejects_every_send() {
    let mut session = Session::new();
    session.close();
    assert_eq!(
        session.prepare_send(&b"GET test".to_vec()).err(),
        Some(KeyzError::ConnectionClosed)
    );
    assert_eq!(
        session.prepare_send(&close_command()).err(),
        Some(KeyzError::ConnectionClosed)
    );
}

#[test]
fn set_then_get_round_trip() {
    // The peer acknowledges `SET k v` with `ok`; a later `GET k` answers
    // with the stored value.
    let cmd = set_command(&b"k".to_vec(), &b"v".to_vec(), None);
    assert_eq!(cmd, b"SET k v".to_vec());
    assert_eq!(interpret_set_response(b"ok".to_vec()), Ok(b"ok".to_vec()));
    assert_eq!(get_command(&b"k".to_vec()), b"GET k".to_vec());
    assert_eq!(interpret_get_response(b"v".to_vec()), Ok(b"v".to_vec()));
}

#[test]
fn set_with_expiration_then_expires_in() {
    let cmd = set_command(&b"k".to_vec(), &b"v".to_vec(), Some(20));
    assert_eq!(cmd, b"SET k v EX 20".to_vec());
    assert_eq!(interpret_set_response(b"ok".to_vec()), Ok(b"ok".to_vec()));
    assert_eq!(expires_in_command(&b"k".to_vec()), b"EXIN k".to_vec());
    let seconds = interpret_expires_in_response(&b"k".to_vec(), &b"15".to_vec()).unwrap();
    assert!(seconds > 0 && seconds <= 20);
}

#[test]
fn set_response_other_than_ok_fails() {
    assert_eq!(interpret_set_response(b"nope".to_vec()), Err(KeyzError::SetFailed));
    assert_eq!(interpret_set_response(b"".to_vec()), Err(KeyzError::SetFailed));
}

#[test]
fn get_on_absent_key_fails() {
    assert_eq!(interpret_get_response(b"null".to_vec()), Err(KeyzError::GetFailed));
}

#[test]
fn get_returns_stored_value_verbatim() {
    assert_eq!(interpret_get_response(b"".to_vec()), Ok(b"".to_vec()));
    assert_eq!(interpret_get_response(b"0".to_vec()), Ok(b"0".to_vec()));
}

#[test]
fn delete_then_get_reports_absent_key() {
    assert_eq!(delete_command(&b"k".to_vec()), b"DEL k".to_vec());
    assert_eq!(
        interpret_delete_response(&b"k".to_vec(), b"k".to_vec()),
        Ok(b"k".to_vec())
    );
    assert_eq!(interpret_get_response(b"null".to_vec()), Err(KeyzError::GetFailed));
}

#[test]
fn delete_response_other_than_key_fails() {
    assert_eq!(
        interpret_delete_response(&b"k".to_vec(), b"other".to_vec()),
        Err(KeyzError::DeleteFailed)
    );
}

#[test]
fn expires_in_sentinel_and_violation() {
    // The echoed key is the failure sentinel.
    assert_eq!(
        interpret_expires_in_response(&b"k".to_vec(), &b"k".to_vec()),
        Err(KeyzError::ExpiresInFailed)
    );
    // A non-numeric success response breaks the protocol contract.
    assert_eq!(
        interpret_expires_in_response(&b"k".to_vec(), &b"soon".to_vec()),
        Err(KeyzError::ProtocolViolation)
    );
    assert_eq!(
        interpret_expires_in_response(&b"k".to_vec(), &b"15".to_vec()),
        Ok(15)
    );
}

#[test]
fn full_exchange_over_simulated_wire() {
    // Client side: frame the request.
    let session = Session::new();
    let request = set_command(&b"test".to_vec(), &b"1".to_vec(), None);
    let plan = session.prepare_send(&request).unwrap();
    assert!(plan.expects_response);

    // Peer side: read the frame off the wire and answer with `ok`.
    let received = decode_frame(&plan.frame).unwrap();
    assert_eq!(received, b"SET test 1".to_vec());
    let reply_wire = encode_frame(&b"ok".to_vec());

    // Client side: read the response frame and interpret it.
    let reply = decode_frame(&reply_wire).unwrap();
    assert_eq!(interpret_set_response(reply), Ok(b"ok".to_vec()));
}
