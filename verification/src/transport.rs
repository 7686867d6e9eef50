//! The channel abstraction and the orchestrating transport facade.
//!
//! [`InternalTransport`] is the byte-channel capability: fire-and-forget
//! send, send-then-wait, and passive receive. [`Transport`] combines one such
//! channel with a [`TransportConfig`] to implement the caller side
//! (`send_query`) and the responder side (`receive_query`, `respond`) of the
//! envelope protocol. [`CannedTestingTransport`] is the channel's test
//! double, used to validate calling code without a real socket.

use vstd::prelude::*;

use crate::codec::{pickle_encode_pair, pickle_encode_string, TransportWireConfig};
use crate::codec::{pickle_pair_bytes, pickle_pair_parse, pickle_string_bytes, pickle_string_parse};
use crate::envelope::{build_query_message, parse_received_query, query_message_spec};
use crate::envelope::{received_query_spec, ReceivedQuery, RpcName};
use crate::errors::TransportError;

verus! {

/// The transport layer under the facade: an endpoint of a raw byte stream,
/// speaking whole logical messages.
///
/// The model of an endpoint is twofold: the sequence of messages
/// successfully handed to it so far, oldest first — what a send appends
/// there is what travels the wire, in that order — and the sequence of
/// receive attempts it has made, each with the timeout it raced against.
/// What a receive returns comes from the peer and is unconstrained here. An error never reports a failure of the send phase as
/// a failure of the receive phase: `SendError` and `ConnectError` mean the
/// message did not go out, `ReceiveError` and `ReceiveTimeout` mean waiting
/// for the peer failed.
pub trait InternalTransport: Sized {
    /// The messages this endpoint has sent so far, oldest first.
    spec fn sent(&self) -> Seq<Seq<u8>>;

    /// The receive attempts this endpoint has made so far, oldest first,
    /// each with the timeout it raced against in milliseconds (`None`:
    /// waited indefinitely).
    spec fn receives(&self) -> Seq<Option<u64>>;

    /// Transmit exactly the given bytes as one logical message. Failure must
    /// surface an error, never silently succeed.
    fn send(&mut self, b: &[u8]) -> (r: Result<(), TransportError>)
        ensures
            final(self).receives() == old(self).receives(),
            r is Ok ==> final(self).sent() == old(self).sent().push(b@),
            r matches Err(e) ==> final(self).sent() == old(self).sent() && (e is SendError
                || e is ConnectError),
    ;

    /// Send one message, then wait for one complete reply, each read racing
    /// the given timeout in milliseconds.
    fn send_and_wait_for_response(&mut self, b: &[u8], timeout_ms: u64) -> (r: Result<
        Vec<u8>,
        TransportError,
    >)
        ensures
            r is Ok ==> final(self).sent() == old(self).sent().push(b@)
                && final(self).receives() == old(self).receives().push(Some(timeout_ms)),
            r matches Err(e) ==> {
                &&& !(e is SerialiseError) && !(e is DeserialiseError)
                &&& ((e is SendError || e is ConnectError) ==> final(self).sent() == old(self).sent()
                    && final(self).receives() == old(self).receives())
                &&& ((e is ReceiveError || e is ReceiveTimeout) ==> final(self).sent() == old(self).sent().push(b@)
                    && final(self).receives() == old(self).receives().push(Some(timeout_ms)))
            },
    ;

    /// Wait until one complete logical message has arrived, or until the
    /// timeout in milliseconds elapses (if one is given), or until the stream
    /// closes normally.
    fn receive(&mut self, timeout_ms: Option<u64>) -> (r: Result<Vec<u8>, TransportError>)
        ensures
            final(self).sent() == old(self).sent(),
            final(self).receives() == old(self).receives().push(timeout_ms),
            r matches Err(e) ==> e is ReceiveError || e is ReceiveTimeout,
    ;
}

/// TransportConfig bundles the configuration of a [`Transport`]:
/// `rcv_timeout` protects receiving with a timeout in milliseconds, and
/// `wire_config` selects how sent data is serialised.
#[derive(Clone, Copy, Debug)]
pub struct TransportConfig {
    /// How long `send_query` waits for the reply, in milliseconds.
    pub rcv_timeout: u64,
    /// The wire codec strategy.
    pub wire_config: TransportWireConfig,
}

impl Default for TransportConfig {
    /// Three seconds of receive timeout, and the default codec strategy.
    fn default() -> (r: Self)
        ensures
            r.rcv_timeout == 3000,
            r.wire_config == TransportWireConfig::Pickle,
    {
        TransportConfig { rcv_timeout: 3000, wire_config: TransportWireConfig::Pickle }
    }
}

/// Transport for data between client and server, generic over the RPC name
/// type and the internal transport. The facade owns exactly one channel and
/// exposes exactly the three envelope operations, so the channel and the
/// codec cannot be bypassed. One logical caller or responder uses one
/// Transport at a time: every operation takes exclusive access, so messages
/// go out and come back in the order the operations are invoked.
pub struct Transport<I, Name> {
    internal_transport: I,
    name: core::marker::PhantomData<Name>,
    /// Exposed for reconfiguration between calls.
    pub config: TransportConfig,
}

impl<I: InternalTransport, Name: RpcName> Transport<I, Name> {
    /// The messages handed to the underlying channel so far, oldest first.
    pub closed spec fn sent(&self) -> Seq<Seq<u8>> {
        self.internal_transport.sent()
    }

    /// The receive attempts the underlying channel has made so far, oldest
    /// first, each with the timeout it raced against.
    pub closed spec fn receives(&self) -> Seq<Option<u64>> {
        self.internal_transport.receives()
    }

    /// The configuration, as contracts see it.
    pub closed spec fn spec_config(&self) -> TransportConfig {
        self.config
    }

    /// Wrap an already-established channel. Connection setup is the
    /// channel's concern, not the Transport's.
    pub fn new(internal_transport: I, transport_config: TransportConfig) -> (r: Self)
        ensures
            r.sent() == internal_transport.sent(),
            r.receives() == internal_transport.receives(),
            r.spec_config() == transport_config,
    {
        Transport {
            internal_transport,
            name: core::marker::PhantomData,
            config: transport_config,
        }
    }

    /// The caller side: encode the name, package it with the caller's
    /// already-encoded query bytes, encode the package as one unit, send it,
    /// and wait for the raw reply bytes, which are returned undecoded —
    /// interpreting the response payload is left to the layer above.
    ///
    /// On success exactly one message, the encoded envelope, was appended to
    /// the wire. A serialise failure (possible only for a name the codec
    /// cannot round-trip) sends nothing; a send-phase failure sends nothing
    /// and is never reported as a receive failure; a receive-phase failure
    /// means the envelope did go out.
    pub fn send_query(&mut self, query_bytes: &[u8], rpc_name: &Name) -> (r: Result<
        Vec<u8>,
        TransportError,
    >)
        ensures
            final(self).spec_config() == old(self).spec_config(),
            rpc_name.encodable(old(self).spec_config().wire_config) ==> !(r matches Err(e)
                && e is SerialiseError),
            match r {
                Ok(_) => final(self).sent() == old(self).sent().push(
                    query_message_spec(old(self).spec_config().wire_config, *rpc_name, query_bytes@),
                ) && final(self).receives() == old(self).receives().push(
                    Some(old(self).spec_config().rcv_timeout),
                ),
                Err(e) => {
                    &&& !(e is DeserialiseError)
                    &&& ((e is SerialiseError || e is SendError || e is ConnectError)
                        ==> final(self).sent() == old(self).sent()
                        && final(self).receives() == old(self).receives())
                    &&& ((e is ReceiveError || e is ReceiveTimeout) ==> final(self).sent()
                        == old(self).sent().push(
                        query_message_spec(old(self).spec_config().wire_config, *rpc_name, query_bytes@),
                    ) && final(self).receives() == old(self).receives().push(
                        Some(old(self).spec_config().rcv_timeout),
                    ))
                },
            },
    {
        let message = build_query_message(&self.config.wire_config, rpc_name, query_bytes)?;
        self.internal_transport.send_and_wait_for_response(
            message.as_slice(),
            self.config.rcv_timeout,
        )
    }

    /// The responder side: wait with no timeout for the next call (a
    /// responder is expected to sit and block), decode the envelope, decode
    /// its name field, and hand back the name together with the still-encoded
    /// query bytes. Channel errors propagate; nothing is retried here.
    ///
    /// On success the result is exactly what [`received_query_spec`] yields
    /// for the received wire bytes; nothing was sent either way.
    pub fn receive_query(&mut self) -> (r: Result<ReceivedQuery<Name>, TransportError>)
        ensures
            final(self).spec_config() == old(self).spec_config(),
            final(self).sent() == old(self).sent(),
            final(self).receives() == old(self).receives().push(None),
            r matches Ok(rq) ==> exists|b: Seq<u8>|
                #[trigger] received_query_spec::<Name>(old(self).spec_config().wire_config, b) == Some(
                    (rq.name@, rq.query_bytes@),
                ),
            r matches Err(e) ==> e is ReceiveError || e is ReceiveTimeout
                || e is DeserialiseError,
    {
        match self.internal_transport.receive(None) {
            Ok(bytes) => {
                let parsed = parse_received_query::<Name>(
                    &self.config.wire_config,
                    bytes.as_slice(),
                );
                proof {
                    if parsed is Ok {
                        assert(received_query_spec::<Name>(self.config.wire_config, bytes@)
                            is Some);
                    }
                }
                parsed
            },
            Err(e) => Err(e),
        }
    }

    /// The responder's reply: the caller supplies already-encoded response
    /// bytes, forwarded as one message with no waiting and no re-encoding.
    pub fn respond(&mut self, bytes: &[u8]) -> (r: Result<(), TransportError>)
        ensures
            final(self).spec_config() == old(self).spec_config(),
            final(self).receives() == old(self).receives(),
            r is Ok ==> final(self).sent() == old(self).sent().push(bytes@),
            r matches Err(e) ==> final(self).sent() == old(self).sent() && (e is SendError
                || e is ConnectError),
    {
        self.internal_transport.send(bytes)
    }
}

/// Ordering law: for one Transport instance, a query sent before another
/// appears on the wire strictly before it. `send_query(a)` then
/// `send_query(b)` appends first `a`'s envelope, then `b`'s (see
/// [`Transport::send_query`]): from any starting wire, the two occupy
/// adjacent positions in that order.
pub proof fn lemma_send_order(wire: Seq<Seq<u8>>, first_message: Seq<u8>, second_message: Seq<u8>)
    ensures
        ({
            let after = wire.push(first_message).push(second_message);
            &&& after.len() == wire.len() + 2
            &&& after[wire.len() as int] == first_message
            &&& after[wire.len() as int + 1] == second_message
        }),
{
}

/// The name a [`CannedTestingTransport`] stamps on every envelope it
/// delivers.
pub fn canned_query_name() -> (r: String)
    ensures
        r@ == "HelloWorld"@,
{
    String::from_str("HelloWorld")
}

/// The channel's test double: it accepts every send, answers a send-and-wait
/// with a fixed canned payload, and delivers a bounded number of canned
/// envelopes to a receiver before failing with a receive error. It always
/// speaks the default pickle strategy, whatever the facade above it is
/// configured with, and it keeps the messages it was asked to send, so a test
/// can inspect what went on the wire and in what order.
pub struct CannedTestingTransport {
    /// The string payload every reply and every delivered envelope carries.
    pub always_respond_with: String,
    /// How many receives are served before [`TransportError::ReceiveError`].
    pub receive_times: usize,
    /// Every message handed to this endpoint, oldest first.
    pub sent_messages: Vec<Vec<u8>>,
    /// The receive attempts made so far, with their timeouts (model only).
    pub receive_log: Ghost<Seq<Option<u64>>>,
}

impl CannedTestingTransport {
    /// A double that replies with the given payload and serves the given
    /// number of receives, with nothing sent yet.
    pub fn new(always_respond_with: String, receive_times: usize) -> (r: Self)
        ensures
            r.always_respond_with == always_respond_with,
            r.receive_times == receive_times,
            r.sent() == Seq::<Seq<u8>>::empty(),
            r.receives() == Seq::<Option<u64>>::empty(),
    {
        CannedTestingTransport {
            always_respond_with,
            receive_times,
            sent_messages: Vec::new(),
            receive_log: Ghost(Seq::empty()),
        }
    }
}

impl InternalTransport for CannedTestingTransport {
    open spec fn sent(&self) -> Seq<Seq<u8>> {
        self.sent_messages.deep_view()
    }

    open spec fn receives(&self) -> Seq<Option<u64>> {
        self.receive_log@
    }

    /// The double accepts every send.
    fn send(&mut self, b: &[u8]) -> (r: Result<(), TransportError>)
        ensures
            r is Ok,
            final(self).always_respond_with == old(self).always_respond_with,
            final(self).receive_times == old(self).receive_times,
    {
        self.sent_messages.push(vstd::slice::slice_to_vec(b));
        proof {
            assert(self.sent_messages.deep_view() =~~= old(self).sent_messages.deep_view().push(
                b@,
            ));
        }
        Ok(())
    }

    /// The reply is always the pickled canned payload, whatever was sent.
    fn send_and_wait_for_response(&mut self, b: &[u8], timeout_ms: u64) -> (r: Result<
        Vec<u8>,
        TransportError,
    >)
        ensures
            r matches Ok(v) && v@ == pickle_string_bytes(old(self).always_respond_with@),
            old(self).always_respond_with@.len() < 0x4000_0000 ==> (r matches Ok(v)
                && pickle_string_parse(v@) == Some(old(self).always_respond_with@)),
            final(self).always_respond_with == old(self).always_respond_with,
            final(self).receive_times == old(self).receive_times,
    {
        self.sent_messages.push(vstd::slice::slice_to_vec(b));
        self.receive_log = Ghost(self.receive_log@.push(Some(timeout_ms)));
        proof {
            assert(self.sent_messages.deep_view() =~~= old(self).sent_messages.deep_view().push(
                b@,
            ));
        }
        Ok(pickle_encode_string(self.always_respond_with.as_str()))
    }

    /// While receives remain, each one delivers the canned envelope — the
    /// sentinel name and the pickled canned payload — and consumes one
    /// receive; once they are spent, every receive fails with a receive
    /// error.
    fn receive(&mut self, timeout_ms: Option<u64>) -> (r: Result<Vec<u8>, TransportError>)
        ensures
            final(self).always_respond_with == old(self).always_respond_with,
            old(self).receive_times > 0 ==> (r matches Ok(v) && v@
                == pickle_pair_bytes(
                pickle_string_bytes("HelloWorld"@),
                pickle_string_bytes(old(self).always_respond_with@),
            ) && pickle_pair_parse(v@) == Some(
                (
                    pickle_string_bytes("HelloWorld"@),
                    pickle_string_bytes(old(self).always_respond_with@),
                ),
            ) && pickle_string_parse(pickle_string_bytes("HelloWorld"@)) == Some("HelloWorld"@)
                && final(self).receive_times == old(self).receive_times - 1),
            old(self).receive_times > 0 && old(self).always_respond_with@.len() < 0x4000_0000
                ==> pickle_string_parse(pickle_string_bytes(old(self).always_respond_with@))
                == Some(old(self).always_respond_with@),
            old(self).receive_times == 0 ==> (r matches Err(e) && e matches
                TransportError::ReceiveError(m) && m@ == "Run out of receive count"@
                && final(self).receive_times == 0),
    {
        self.receive_log = Ghost(self.receive_log@.push(timeout_ms));
        if self.receive_times > 0 {
            self.receive_times = self.receive_times - 1;
            proof {
                reveal_strlit("HelloWorld");
            }
            let name_bytes = pickle_encode_string(canned_query_name().as_str());
            let query_bytes = pickle_encode_string(self.always_respond_with.as_str());
            Ok(pickle_encode_pair(name_bytes.as_slice(), query_bytes.as_slice()))
        } else {
            Err(TransportError::ReceiveError(String::from_str("Run out of receive count")))
        }
    }
}

} // verus!
