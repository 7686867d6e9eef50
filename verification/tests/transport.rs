use rpc_transport::codec::TransportWireConfig;
use rpc_transport::envelope::{
    deserialize_package, serialize_package, ReceivedQuery, RpcName, TransportPackage,
};
use rpc_transport::errors::TransportError;
use rpc_transport::transport::{
    InternalTransport,
    canned_query_name, CannedTestingTransport, Transport, TransportConfig,
};

#[test]
fn transport_package_round_trip() {
    let name = String::from("HelloWorld");
    let query = String::from("Foo");

    let transport_config = TransportWireConfig::Pickle;

    let name_bytes = transport_config.serialize_string(&name);
    let query_bytes = transport_config.serialize_string(&query);

    let package = TransportPackage {
        name_bytes: &name_bytes,
        query_bytes: &query_bytes,
    };

    let package_bytes = serialize_package(&transport_config, &package);

    let package2 = deserialize_package(&transport_config, &package_bytes).unwrap();

    let name2 = transport_config
        .deserialize_string(&package2.name_bytes)
        .unwrap();
    let query2 = transport_config
        .deserialize_string(&package2.query_bytes)
        .unwrap();

    assert_eq!(name, name2);
    assert_eq!(query, query2);
}

#[test]
fn postcard_package_round_trip() {
    let name = String::from("HelloWorld");
    let query = String::from("Foo");

    let transport_config = TransportWireConfig::Postcard;

    let name_bytes = transport_config.serialize_string(&name);
    let query_bytes = transport_config.serialize_string(&query);

    let package = TransportPackage {
        name_bytes: &name_bytes,
        query_bytes: &query_bytes,
    };

    let package_bytes = serialize_package(&transport_config, &package);
    let package2 = deserialize_package(&transport_config, &package_bytes).unwrap();

    assert_eq!(
        name,
        transport_config
            .deserialize_string(&package2.name_bytes)
            .unwrap()
    );
    assert_eq!(
        query,
        transport_config
            .deserialize_string(&package2.query_bytes)
            .unwrap()
    );
}

#[test]
fn pickle_string_encoding_matches_the_codec() {
    // The library's encoding must be the codec's own, not the input echoed
    // back: compare against serde_pickle invoked directly.
    let wire = TransportWireConfig::Pickle;
    let ours = wire.serialize_string("Foo");
    let reference =
        serde_pickle::ser::to_vec(&"Foo", serde_pickle::SerOptions::new()).unwrap();
    assert_eq!(ours, reference);
    assert_ne!(ours, b"Foo".to_vec());
}

#[test]
fn postcard_string_encoding_matches_the_codec() {
    let wire = TransportWireConfig::Postcard;
    let ours = wire.serialize_string("Foo");
    let reference = postcard::to_allocvec("Foo").unwrap();
    assert_eq!(ours, reference);
    assert_ne!(ours, b"Foo".to_vec());
}

#[test]
fn deserialize_rejects_garbage() {
    let wire = TransportWireConfig::Pickle;
    let garbage: Vec<u8> = vec![0xff, 0x00, 0x13, 0x37];
    match wire.deserialize_string(&garbage) {
        Err(TransportError::DeserialiseError(_)) => {}
        other => panic!("expected DeserialiseError, got {:?}", other),
    }
    match deserialize_package(&wire, &garbage) {
        Err(TransportError::DeserialiseError(_)) => {}
        Err(other) => panic!("expected DeserialiseError, got {:?}", other),
        Ok(_) => panic!("expected DeserialiseError, got a package"),
    }
}

#[test]
fn name_encode_decode_round_trip() {
    for wire in [TransportWireConfig::Pickle, TransportWireConfig::Postcard] {
        let name = String::from("HelloWorld");
        let encoded = name.encode(&wire).unwrap();
        let decoded = String::decode(&wire, &encoded).unwrap();
        assert_eq!(name, decoded);
    }
}

#[test]
fn send_query_against_canned_double_returns_foo() {
    // A query for the value 42 against a double that always answers "Foo":
    // the reply decodes to "Foo" regardless of the request payload.
    let canned = CannedTestingTransport::new(String::from("Foo"), 1);
    let config = TransportConfig::default();
    let mut transport: Transport<CannedTestingTransport, String> =
        Transport::new(canned, config);

    let query_bytes =
        serde_pickle::ser::to_vec(&42i64, serde_pickle::SerOptions::new()).unwrap();
    let name = String::from("HelloWorld");
    let response_bytes = transport.send_query(&query_bytes, &name).unwrap();

    let response: String = TransportWireConfig::Pickle
        .deserialize_string(&response_bytes)
        .unwrap();
    assert_eq!(response, "Foo");
}

#[test]
fn receive_query_against_canned_double() {
    // A responder around a double that carries "Foo" and allows one receive:
    // the first receive_query yields the sentinel name and a query buffer
    // that decodes back to "Foo"; the second fails with a receive error.
    let canned = CannedTestingTransport::new(String::from("Foo"), 1);
    let config = TransportConfig::default();
    let mut transport: Transport<CannedTestingTransport, String> =
        Transport::new(canned, config);

    let received: ReceivedQuery<String> = transport.receive_query().unwrap();
    assert_eq!(received.name, canned_query_name());
    let query: String = TransportWireConfig::Pickle
        .deserialize_string(&received.query_bytes)
        .unwrap();
    assert_eq!(query, "Foo");

    match transport.receive_query() {
        Err(TransportError::ReceiveError(_)) => {}
        Err(other) => panic!("expected ReceiveError, got {:?}", other),
        Ok(_) => panic!("expected ReceiveError, got a query"),
    }
}

#[test]
fn sends_keep_their_order() {
    // Two messages handed to one endpoint appear on the wire in call order.
    let mut canned = CannedTestingTransport::new(String::from("Foo"), 0);
    canned.send(b"first").unwrap();
    canned.send(b"second").unwrap();
    let _ = canned.send_and_wait_for_response(b"third", 3000).unwrap();
    assert_eq!(
        canned.sent_messages,
        vec![b"first".to_vec(), b"second".to_vec(), b"third".to_vec()]
    );
}

#[test]
fn default_config() {
    let config = TransportConfig::default();
    assert_eq!(config.rcv_timeout, 3000);
    assert_eq!(config.wire_config, TransportWireConfig::Pickle);
}

#[test]
fn error_constructors_pick_the_right_kind() {
    let send = TransportError::io_send(std::io::Error::new(
        std::io::ErrorKind::BrokenPipe,
        "pipe closed",
    ));
    assert!(matches!(send, TransportError::SendError(_)));

    let receive = TransportError::io_receive(std::io::Error::new(
        std::io::ErrorKind::ConnectionReset,
        "reset",
    ));
    assert!(matches!(receive, TransportError::ReceiveError(_)));
}
