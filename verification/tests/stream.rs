use rpc_transport::errors::TransportError;
use rpc_transport::stream::{ReadEvent, ReadStep, StreamReassembler, READ_CHUNK_SIZE};

#[test]
fn reassembles_short_final_read_into_one_message() {
    // Total length not a multiple of the chunk size: two full chunks, one
    // short chunk, returned whole in one call.
    let mut machine = StreamReassembler::new(None);
    let chunk_a = vec![0xaau8; READ_CHUNK_SIZE];
    let chunk_b = vec![0xbbu8; READ_CHUNK_SIZE];
    let chunk_c = vec![0xccu8; 7];

    assert!(matches!(
        machine.on_read(ReadEvent::Data(chunk_a.clone())),
        ReadStep::Continue
    ));
    assert!(matches!(
        machine.on_read(ReadEvent::Data(chunk_b.clone())),
        ReadStep::Continue
    ));
    match machine.on_read(ReadEvent::Data(chunk_c.clone())) {
        ReadStep::Complete(message) => {
            let mut expected = chunk_a;
            expected.extend_from_slice(&chunk_b);
            expected.extend_from_slice(&chunk_c);
            assert_eq!(message, expected);
        }
        _ => panic!("expected a complete message"),
    }
}

#[test]
fn closure_also_terminates_a_message() {
    // Total length an exact multiple of the chunk size, then the stream
    // closes: closure, not size, completes the message.
    let mut machine = StreamReassembler::new(None);
    let chunk_a = vec![0x11u8; READ_CHUNK_SIZE];
    let chunk_b = vec![0x22u8; READ_CHUNK_SIZE];

    assert!(matches!(
        machine.on_read(ReadEvent::Data(chunk_a.clone())),
        ReadStep::Continue
    ));
    assert!(matches!(
        machine.on_read(ReadEvent::Data(chunk_b.clone())),
        ReadStep::Continue
    ));
    match machine.on_read(ReadEvent::Closed) {
        ReadStep::Complete(message) => {
            let mut expected = chunk_a;
            expected.extend_from_slice(&chunk_b);
            assert_eq!(message, expected);
        }
        _ => panic!("expected a complete message"),
    }
}

#[test]
fn closing_with_no_data_is_an_empty_message() {
    let mut machine = StreamReassembler::new(Some(3000));
    match machine.on_read(ReadEvent::Closed) {
        ReadStep::Complete(message) => assert!(message.is_empty()),
        _ => panic!("expected an empty complete message"),
    }
}

#[test]
fn timeout_discards_partial_bytes() {
    // A timeout mid-message fails with ReceiveTimeout carrying the
    // configured wait, and the bytes read so far are not returned, nor kept
    // for a subsequent message.
    let mut machine = StreamReassembler::new(Some(250));
    assert!(matches!(
        machine.on_read(ReadEvent::Data(vec![0x33u8; READ_CHUNK_SIZE])),
        ReadStep::Continue
    ));
    match machine.on_read(ReadEvent::TimedOut) {
        ReadStep::Failed(TransportError::ReceiveTimeout(ms)) => assert_eq!(ms, 250),
        _ => panic!("expected ReceiveTimeout"),
    }
    // The accumulation was discarded: a following short read yields only its
    // own bytes.
    match machine.on_read(ReadEvent::Data(vec![0x44u8; 3])) {
        ReadStep::Complete(message) => assert_eq!(message, vec![0x44u8; 3]),
        _ => panic!("expected a complete message"),
    }
}

#[test]
fn read_failure_discards_partial_bytes() {
    let mut machine = StreamReassembler::new(None);
    assert!(matches!(
        machine.on_read(ReadEvent::Data(vec![0x55u8; READ_CHUNK_SIZE])),
        ReadStep::Continue
    ));
    let err = TransportError::ReceiveError(String::from("connection reset"));
    match machine.on_read(ReadEvent::Failed(err)) {
        ReadStep::Failed(TransportError::ReceiveError(s)) => {
            assert_eq!(s, "connection reset")
        }
        _ => panic!("expected ReceiveError"),
    }
    match machine.on_read(ReadEvent::Closed) {
        ReadStep::Complete(message) => assert!(message.is_empty()),
        _ => panic!("expected an empty complete message"),
    }
}
