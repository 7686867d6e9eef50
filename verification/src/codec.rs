//! The pluggable wire codec: a closed set of strategies that turn typed
//! values into byte buffers and back.
//!
//! Two kinds of value cross the wire in this transport: strings (used for
//! operation names and for canned test payloads) and pairs of byte buffers
//! (the envelope of [`crate::envelope`]). Each strategy encodes both, and an
//! encoding made by a strategy is decoded only by that same strategy.
//!
//! What a codec returns is named by uninterpreted spec functions (one per
//! outside function); the contracts of this module and of everything above it
//! are stated over those names.

use vstd::prelude::*;

use crate::errors::TransportError;

verus! {

/// The bytes that serde_pickle (default options) produces for a string.
pub uninterp spec fn pickle_string_bytes(s: Seq<char>) -> Seq<u8>;

/// What serde_pickle (default options) yields when asked to read a string
/// back out of the given bytes; `None` where it reports an error.
pub uninterp spec fn pickle_string_parse(b: Seq<u8>) -> Option<Seq<char>>;

/// The bytes that serde_pickle (default options) produces for a pair of byte
/// buffers.
pub uninterp spec fn pickle_pair_bytes(first: Seq<u8>, second: Seq<u8>) -> Seq<u8>;

/// What serde_pickle (default options) yields when asked to read a pair of
/// byte buffers back out of the given bytes; `None` where it reports an error.
pub uninterp spec fn pickle_pair_parse(b: Seq<u8>) -> Option<(Seq<u8>, Seq<u8>)>;

/// The bytes that postcard produces for a string.
pub uninterp spec fn postcard_string_bytes(s: Seq<char>) -> Seq<u8>;

/// What postcard yields when asked to read a string back out of the given
/// bytes; `None` where it reports an error.
pub uninterp spec fn postcard_string_parse(b: Seq<u8>) -> Option<Seq<char>>;

/// The bytes that postcard produces for a pair of byte buffers.
pub uninterp spec fn postcard_pair_bytes(first: Seq<u8>, second: Seq<u8>) -> Seq<u8>;

/// What postcard yields when asked to read a pair of byte buffers back out of
/// the given bytes; `None` where it reports an error.
pub uninterp spec fn postcard_pair_parse(b: Seq<u8>) -> Option<(Seq<u8>, Seq<u8>)>;

/// Relies on serde_pickle::ser::to_vec with default options: the output is a
/// function of the string alone, writing into a `Vec` cannot fail, and (as
/// long as the string's UTF-8 length fits the format's 32-bit length field,
/// which fewer than 2^30 characters guarantees) serde_pickle reads the same
/// string back out of it.
#[verifier::external_body]
pub(crate) fn pickle_encode_string(s: &str) -> (r: Vec<u8>)
    ensures
        r@ == pickle_string_bytes(s@),
        s@.len() < 0x4000_0000 ==> pickle_string_parse(r@) == Some(s@),
{
    serde_pickle::ser::to_vec(&s, serde_pickle::SerOptions::new()).unwrap()
}

/// Relies on serde_pickle::de::from_slice reading a string: success and the
/// value read depend on the bytes alone.
#[verifier::external_body]
fn pickle_decode_string(b: &[u8]) -> (r: Result<String, TransportError>)
    ensures
        match r {
            Ok(s) => pickle_string_parse(b@) == Some(s@),
            Err(e) => pickle_string_parse(b@) is None && e is DeserialiseError,
        },
{
    match serde_pickle::de::from_slice::<String>(b, serde_pickle::DeOptions::new()) {
        Ok(s) => Ok(s),
        Err(e) => Err(TransportError::DeserialiseError(format!("{:?}", e))),
    }
}

/// Relies on serde_pickle::ser::to_vec with default options: the output for a
/// pair of byte buffers is a function of the buffers alone, writing into a
/// `Vec` cannot fail, and serde_pickle reads the same pair back out of it.
///
/// The envelope travels as a two-element tuple. A deployment that instead
/// framed it as a record with named fields would produce a pickle dict, so
/// the bytes would differ; the tuple form is this crate's wire format, a
/// deliberate choice (a record framing would need field-name constants
/// inside this trusted body).
#[verifier::external_body]
pub(crate) fn pickle_encode_pair(first: &[u8], second: &[u8]) -> (r: Vec<u8>)
    ensures
        r@ == pickle_pair_bytes(first@, second@),
        pickle_pair_parse(r@) == Some((first@, second@)),
{
    serde_pickle::ser::to_vec(&(first, second), serde_pickle::SerOptions::new()).unwrap()
}

/// Relies on serde_pickle::de::from_slice reading a pair of byte buffers:
/// success and the value read depend on the bytes alone.
#[verifier::external_body]
fn pickle_decode_pair(b: &[u8]) -> (r: Result<(Vec<u8>, Vec<u8>), TransportError>)
    ensures
        match r {
            Ok(p) => pickle_pair_parse(b@) == Some((p.0@, p.1@)),
            Err(e) => pickle_pair_parse(b@) is None && e is DeserialiseError,
        },
{
    match serde_pickle::de::from_slice::<(Vec<u8>, Vec<u8>)>(b, serde_pickle::DeOptions::new()) {
        Ok(p) => Ok(p),
        Err(e) => Err(TransportError::DeserialiseError(format!("{:?}", e))),
    }
}

/// Relies on postcard::to_allocvec: the output is a function of the string
/// alone, the allocating flavor cannot fail, and postcard reads the same
/// string back out of it.
#[verifier::external_body]
fn postcard_encode_string(s: &str) -> (r: Vec<u8>)
    ensures
        r@ == postcard_string_bytes(s@),
        postcard_string_parse(r@) == Some(s@),
{
    postcard::to_allocvec(s).unwrap()
}

/// Relies on postcard::from_bytes reading a string: success and the value
/// read depend on the bytes alone.
#[verifier::external_body]
fn postcard_decode_string(b: &[u8]) -> (r: Result<String, TransportError>)
    ensures
        match r {
            Ok(s) => postcard_string_parse(b@) == Some(s@),
            Err(e) => postcard_string_parse(b@) is None && e is DeserialiseError,
        },
{
    match postcard::from_bytes::<String>(b) {
        Ok(s) => Ok(s),
        Err(e) => Err(TransportError::DeserialiseError(format!("{:?}", e))),
    }
}

/// Relies on postcard::to_allocvec: the output for a pair of byte buffers is
/// a function of the buffers alone, the allocating flavor cannot fail, and
/// postcard reads the same pair back out of it.
#[verifier::external_body]
fn postcard_encode_pair(first: &[u8], second: &[u8]) -> (r: Vec<u8>)
    ensures
        r@ == postcard_pair_bytes(first@, second@),
        postcard_pair_parse(r@) == Some((first@, second@)),
{
    postcard::to_allocvec(&(first, second)).unwrap()
}

/// Relies on postcard::from_bytes reading a pair of byte buffers: success and
/// the value read depend on the bytes alone.
#[verifier::external_body]
fn postcard_decode_pair(b: &[u8]) -> (r: Result<(Vec<u8>, Vec<u8>), TransportError>)
    ensures
        match r {
            Ok(p) => postcard_pair_parse(b@) == Some((p.0@, p.1@)),
            Err(e) => postcard_pair_parse(b@) is None && e is DeserialiseError,
        },
{
    match postcard::from_bytes::<(Vec<u8>, Vec<u8>)>(b) {
        Ok(p) => Ok(p),
        Err(e) => Err(TransportError::DeserialiseError(format!("{:?}", e))),
    }
}

/// TransportWireConfig selects how queries and responses are (de)serialised:
/// a closed set of strategies, each using its codec's default options. The
/// default strategy is [`TransportWireConfig::Pickle`]; it determines
/// interoperability and changing it would change the bytes on the wire.
#[derive(Clone, Copy, Debug, PartialEq, Eq, Structural)]
#[non_exhaustive]
pub enum TransportWireConfig {
    /// The self-describing pickle format of serde_pickle, default options.
    Pickle,
    /// The compact fixed-schema format of postcard, allocating flavor.
    Postcard,
}

/// The wire bytes of a string under the given strategy.
pub open spec fn string_bytes_spec(w: TransportWireConfig, s: Seq<char>) -> Seq<u8> {
    match w {
        TransportWireConfig::Pickle => pickle_string_bytes(s),
        TransportWireConfig::Postcard => postcard_string_bytes(s),
    }
}

/// What decoding a string from the given bytes yields under the given
/// strategy.
pub open spec fn string_parse_spec(w: TransportWireConfig, b: Seq<u8>) -> Option<Seq<char>> {
    match w {
        TransportWireConfig::Pickle => pickle_string_parse(b),
        TransportWireConfig::Postcard => postcard_string_parse(b),
    }
}

/// Whether the given strategy is guaranteed to round-trip a string of this
/// length (pickle's length field caps the strings it can faithfully carry).
pub open spec fn string_encodable_spec(w: TransportWireConfig, s: Seq<char>) -> bool {
    match w {
        TransportWireConfig::Pickle => s.len() < 0x4000_0000,
        TransportWireConfig::Postcard => true,
    }
}

/// The wire bytes of a pair of byte buffers under the given strategy.
pub open spec fn pair_bytes_spec(w: TransportWireConfig, first: Seq<u8>, second: Seq<u8>) -> Seq<u8> {
    match w {
        TransportWireConfig::Pickle => pickle_pair_bytes(first, second),
        TransportWireConfig::Postcard => postcard_pair_bytes(first, second),
    }
}

/// What decoding a pair of byte buffers from the given bytes yields under the
/// given strategy.
pub open spec fn pair_parse_spec(w: TransportWireConfig, b: Seq<u8>) -> Option<(Seq<u8>, Seq<u8>)> {
    match w {
        TransportWireConfig::Pickle => pickle_pair_parse(b),
        TransportWireConfig::Postcard => postcard_pair_parse(b),
    }
}

impl TransportWireConfig {
    /// Serialise a string under this strategy.
    ///
    /// The result is deterministic for a fixed strategy, and decoding it with
    /// the same strategy yields the string back (for pickle, provided the
    /// string is short enough for the format's length field, as
    /// [`string_encodable_spec`] states).
    pub fn serialize_string(&self, s: &str) -> (r: Vec<u8>)
        ensures
            r@ == string_bytes_spec(*self, s@),
            string_encodable_spec(*self, s@) ==> string_parse_spec(*self, r@) == Some(s@),
    {
        match self {
            TransportWireConfig::Pickle => pickle_encode_string(s),
            TransportWireConfig::Postcard => postcard_encode_string(s),
        }
    }

    /// Serialise a pair of byte buffers under this strategy.
    ///
    /// The result is deterministic for a fixed strategy, and decoding it with
    /// the same strategy yields both buffers back unchanged.
    pub fn serialize_pair(&self, first: &[u8], second: &[u8]) -> (r: Vec<u8>)
        ensures
            r@ == pair_bytes_spec(*self, first@, second@),
            pair_parse_spec(*self, r@) == Some((first@, second@)),
    {
        match self {
            TransportWireConfig::Pickle => pickle_encode_pair(first, second),
            TransportWireConfig::Postcard => postcard_encode_pair(first, second),
        }
    }

    /// Deserialise a pair of byte buffers under this strategy. Succeeds
    /// exactly where the strategy can read a pair out of the bytes.
    pub fn deserialize_pair(&self, b: &[u8]) -> (r: Result<(Vec<u8>, Vec<u8>), TransportError>)
        ensures
            match r {
                Ok(p) => pair_parse_spec(*self, b@) == Some((p.0@, p.1@)),
                Err(e) => pair_parse_spec(*self, b@) is None && e is DeserialiseError,
            },
    {
        match self {
            TransportWireConfig::Pickle => pickle_decode_pair(b),
            TransportWireConfig::Postcard => postcard_decode_pair(b),
        }
    }

    /// Deserialise a string under this strategy. Succeeds exactly where the
    /// strategy can read a string out of the bytes.
    pub fn deserialize_string(&self, b: &[u8]) -> (r: Result<String, TransportError>)
        ensures
            match r {
                Ok(s) => string_parse_spec(*self, b@) == Some(s@),
                Err(e) => string_parse_spec(*self, b@) is None && e is DeserialiseError,
            },
    {
        match self {
            TransportWireConfig::Pickle => pickle_decode_string(b),
            TransportWireConfig::Postcard => postcard_decode_string(b),
        }
    }
}

impl Default for TransportWireConfig {
    /// The documented default strategy: pickle with default options.
    fn default() -> (r: Self)
        ensures
            r == TransportWireConfig::Pickle,
    {
        TransportWireConfig::Pickle
    }
}

} // verus!
