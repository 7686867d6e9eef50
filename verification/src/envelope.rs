//! The envelope protocol: the message shape exchanged over a channel.
//!
//! An envelope bundles a separately-encoded operation name and a
//! separately-encoded query payload into one transmittable unit. The nesting
//! is fixed: encode the name, take the query bytes as supplied, then encode
//! the two buffers together as a pair. A receiver can therefore decode the
//! envelope without knowing either payload's concrete type, decode the name,
//! and hand the still-encoded query bytes onward to whichever handler the
//! name selects.

use vstd::prelude::*;

use crate::codec::{
    pair_bytes_spec, pair_parse_spec, string_bytes_spec, string_encodable_spec, string_parse_spec,
    TransportWireConfig,
};
use crate::errors::TransportError;

verus! {

/// An RPC operation name, as this transport consumes it: an opaque tag that
/// the configured codec can encode and decode. The layer above supplies the
/// concrete type; this crate ships an implementation for `String`.
///
/// An implementation fixes, per codec strategy, the wire bytes of a name and
/// what decoding yields, and must round-trip every encodable name.
pub trait RpcName: Sized + View {
    /// Whether the strategy is guaranteed to round-trip this name.
    spec fn encodable(&self, w: TransportWireConfig) -> bool;

    /// The wire bytes of this name under the strategy.
    spec fn name_bytes(&self, w: TransportWireConfig) -> Seq<u8>;

    /// What decoding a name from the given bytes yields under the strategy,
    /// at the level of views; `None` where decoding fails.
    spec fn name_of_bytes(w: TransportWireConfig, b: Seq<u8>) -> Option<Self::V>;

    /// Encode this name with the given strategy.
    fn encode(&self, w: &TransportWireConfig) -> (r: Result<Vec<u8>, TransportError>)
        ensures
            r matches Ok(v) ==> v@ == self.name_bytes(*w),
            self.encodable(*w) ==> r is Ok
                && Self::name_of_bytes(*w, self.name_bytes(*w)) == Some(self@),
            r matches Err(e) ==> e is SerialiseError,
    ;

    /// Decode a name from the given bytes with the given strategy.
    fn decode(w: &TransportWireConfig, b: &[u8]) -> (r: Result<Self, TransportError>)
        ensures
            match r {
                Ok(n) => Self::name_of_bytes(*w, b@) == Some(n@),
                Err(e) => Self::name_of_bytes(*w, b@) is None && e is DeserialiseError,
            },
    ;
}

impl RpcName for String {
    open spec fn encodable(&self, w: TransportWireConfig) -> bool {
        string_encodable_spec(w, self@)
    }

    open spec fn name_bytes(&self, w: TransportWireConfig) -> Seq<u8> {
        string_bytes_spec(w, self@)
    }

    open spec fn name_of_bytes(w: TransportWireConfig, b: Seq<u8>) -> Option<Seq<char>> {
        string_parse_spec(w, b)
    }

    fn encode(&self, w: &TransportWireConfig) -> (r: Result<Vec<u8>, TransportError>) {
        Ok(w.serialize_string(self.as_str()))
    }

    fn decode(w: &TransportWireConfig, b: &[u8]) -> (r: Result<Self, TransportError>) {
        w.deserialize_string(b)
    }
}

/// The envelope in its borrowed form: references into caller-owned buffers,
/// used on the send path, where the buffers outlive the call and no copy is
/// needed.
pub struct TransportPackage<'a> {
    pub name_bytes: &'a [u8],
    pub query_bytes: &'a [u8],
}

/// The envelope in its owned form: freshly allocated buffers, used on the
/// receive path, where the data originates inside the channel.
pub struct TransportPackageOwned {
    pub name_bytes: Vec<u8>,
    pub query_bytes: Vec<u8>,
}

/// The result of decoding an inbound envelope: the decoded name, plus the
/// still-encoded query bytes, which the caller decodes once the name has
/// determined the expected type.
pub struct ReceivedQuery<Name: RpcName> {
    pub name: Name,
    pub query_bytes: Vec<u8>,
}

/// The complete wire bytes of a query message: the name's encoding and the
/// raw query bytes, encoded together as a pair.
pub open spec fn query_message_spec<Name: RpcName>(
    w: TransportWireConfig,
    name: Name,
    query_bytes: Seq<u8>,
) -> Seq<u8> {
    pair_bytes_spec(w, name.name_bytes(w), query_bytes)
}

/// What a receiver obtains from the given wire bytes: the envelope decoded as
/// a pair, then the name decoded from the pair's first buffer; `None` where
/// either step fails.
pub open spec fn received_query_spec<Name: RpcName>(
    w: TransportWireConfig,
    b: Seq<u8>,
) -> Option<(Name::V, Seq<u8>)> {
    match pair_parse_spec(w, b) {
        Some(p) => match Name::name_of_bytes(w, p.0) {
            Some(n) => Some((n, p.1)),
            None => None,
        },
        None => None,
    }
}

/// Serialise an envelope as one unit with the given strategy. Decoding the
/// result with the same strategy yields both buffers back unchanged.
pub fn serialize_package(w: &TransportWireConfig, package: &TransportPackage<'_>) -> (r: Vec<u8>)
    ensures
        r@ == pair_bytes_spec(*w, package.name_bytes@, package.query_bytes@),
        pair_parse_spec(*w, r@) == Some((package.name_bytes@, package.query_bytes@)),
{
    w.serialize_pair(package.name_bytes, package.query_bytes)
}

/// Deserialise an envelope from received wire bytes with the given strategy.
/// Succeeds exactly where the strategy can read a pair out of the bytes.
pub fn deserialize_package(w: &TransportWireConfig, b: &[u8]) -> (r: Result<
    TransportPackageOwned,
    TransportError,
>)
    ensures
        match r {
            Ok(p) => pair_parse_spec(*w, b@) == Some((p.name_bytes@, p.query_bytes@)),
            Err(e) => pair_parse_spec(*w, b@) is None && e is DeserialiseError,
        },
{
    match w.deserialize_pair(b) {
        Ok(p) => Ok(TransportPackageOwned { name_bytes: p.0, query_bytes: p.1 }),
        Err(e) => Err(e),
    }
}

/// Build the complete wire bytes of a query: encode the name, package it with
/// the caller's already-encoded query bytes, and encode the package as one
/// unit.
///
/// For every encodable name this succeeds, and the built message round-trips:
/// a receiver that decodes it gets the same name (by view) and a query buffer
/// byte-equal to the one supplied.
pub fn build_query_message<Name: RpcName>(
    w: &TransportWireConfig,
    rpc_name: &Name,
    query_bytes: &[u8],
) -> (r: Result<Vec<u8>, TransportError>)
    ensures
        r matches Ok(v) ==> v@ == query_message_spec(*w, *rpc_name, query_bytes@),
        rpc_name.encodable(*w) ==> r is Ok
            && received_query_spec::<Name>(*w, query_message_spec(*w, *rpc_name, query_bytes@))
            == Some((rpc_name@, query_bytes@)),
        r matches Err(e) ==> e is SerialiseError,
{
    let name_bytes = rpc_name.encode(w)?;
    let package = TransportPackage { name_bytes: name_bytes.as_slice(), query_bytes };
    Ok(serialize_package(w, &package))
}

/// Decode received wire bytes into a [`ReceivedQuery`]: decode the envelope,
/// then the name; the query bytes are handed over still encoded. Succeeds
/// exactly where both decoding steps do.
pub fn parse_received_query<Name: RpcName>(w: &TransportWireConfig, b: &[u8]) -> (r: Result<
    ReceivedQuery<Name>,
    TransportError,
>)
    ensures
        match r {
            Ok(rq) => received_query_spec::<Name>(*w, b@) == Some((rq.name@, rq.query_bytes@)),
            Err(e) => received_query_spec::<Name>(*w, b@) is None && e is DeserialiseError,
        },
{
    let package = deserialize_package(w, b)?;
    let name = Name::decode(w, package.name_bytes.as_slice())?;
    Ok(ReceivedQuery { name, query_bytes: package.query_bytes })
}

} // verus!
