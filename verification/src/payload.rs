//! The input payload of an invocation: a JSON value written out into a
//! `bytes::Bytes` buffer, which the targets of a fan-out share cheaply.

use vstd::prelude::*;
use bytes::Bytes;

verus! {

/// `bytes::Bytes`, known by what it holds: see [`bytes_contents`].
#[verifier::external_type_specification]
#[verifier::external_body]
pub struct ExBytes(bytes::Bytes);

/// `serde_json::Value`, carried through as it is.
#[verifier::external_type_specification]
#[verifier::external_body]
pub struct ExJsonValue(serde_json::Value);

/// `serde_json::Error`, of which only the text is used.
#[verifier::external_type_specification]
#[verifier::external_body]
pub struct ExJsonError(serde_json::Error);

/// The bytes that a buffer holds, in order.
pub uninterp spec fn bytes_contents(buffer: Bytes) -> Seq<u8>;

/// `<Bytes as AsRef<[u8]>>::as_ref`: the slice handed out is the whole
/// content of the buffer.
#[verifier::external_body]
pub(crate) fn payload_slice(buffer: &Bytes) -> (slice: &[u8])
    ensures
        slice@ == bytes_contents(*buffer),
{
    buffer.as_ref()
}

/// `<Bytes as From<Vec<u8>>>::from`: the buffer takes over the vector and
/// holds exactly its elements.
#[verifier::external_body]
pub(crate) fn payload_from_vec(bytes: Vec<u8>) -> (buffer: Bytes)
    ensures
        bytes_contents(buffer) == bytes@,
{
    Bytes::from(bytes)
}

/// The JSON text of a value, as `serde_json::to_vec` writes it; `None`
/// for a value that it does not write.
pub uninterp spec fn json_encoding(value: serde_json::Value) -> Option<Seq<u8>>;

/// `serde_json::to_vec` on a JSON value: the value written out as JSON
/// text, or the error that the serializer reported. The same value is
/// always written the same way; nothing is claimed of the error.
#[verifier::external_body]
pub(crate) fn json_bytes(value: &serde_json::Value) -> (encoded: Result<
    Vec<u8>,
    serde_json::Error,
>)
    ensures
        match encoded {
            Ok(bytes) => json_encoding(*value) == Some(bytes@),
            Err(_) => json_encoding(*value) is None,
        },
{
    serde_json::to_vec(value)
}

} // verus!
