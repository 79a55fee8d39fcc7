//! The invocation fingerprint: a digest of the argument list and the input
//! payload, used to key the result cache.

use vstd::prelude::*;
use vstd::bytes::{spec_u64_to_le_bytes, u64_to_le_bytes};
use vstd::std_specs::hash::DefaultHasherAdditionalSpecFns;
use vstd::string::*;
use vstd::utf8::encode_utf8;
use std::collections::hash_map::DefaultHasher;
use std::hash::Hasher;
use bytes::Bytes;
use crate::payload::{bytes_contents, payload_slice};

verus! {

/// The byte that closes each argument. It occurs in no UTF-8 text, so no
/// argument runs into the next.
pub const ARGUMENT_END: u8 = 0xff;

/// A length, as the eight bytes that open a list of arguments or a payload.
pub open spec fn length_prefix(len: nat) -> Seq<u8> {
    spec_u64_to_le_bytes(len as u64)
}

/// What is fed to the hasher for the arguments: each as its UTF-8 bytes,
/// followed by the closing byte.
pub open spec fn argument_writes(args: Seq<Seq<char>>) -> Seq<Seq<u8>>
    decreases args.len(),
{
    if args.len() == 0 {
        Seq::empty()
    } else {
        argument_writes(args.drop_last()).push(encode_utf8(args.last())).push(seq![ARGUMENT_END])
    }
}

/// Everything that is fed to the hasher, write by write: the number of
/// arguments, the arguments, the length of the payload, the payload.
pub open spec fn fingerprint_writes(args: Seq<Seq<char>>, input: Seq<u8>) -> Seq<Seq<u8>> {
    seq![length_prefix(args.len())] + argument_writes(args) + seq![
        length_prefix(input.len()),
        input,
    ]
}

/// The fingerprint of an invocation: what the standard hasher makes of
/// [`fingerprint_writes`].
pub open spec fn spec_fingerprint(args: Seq<Seq<char>>, input: Seq<u8>) -> u64 {
    DefaultHasher::spec_finish(fingerprint_writes(args, input))
}

/// Computes the fingerprint of an invocation. Equal argument lists and
/// equal payloads give equal fingerprints.
pub fn fingerprint(args: &Vec<String>, input: &Bytes) -> (digest: u64)
    ensures
        digest == spec_fingerprint(args.deep_view(), bytes_contents(*input)),
{
    let mut hasher = DefaultHasher::new();
    let count = u64_to_le_bytes(args.len() as u64);
    hasher.write(count.as_slice());
    let end: Vec<u8> = vec![ARGUMENT_END];
    let mut i: usize = 0;
    assert(args.deep_view().take(0) =~= Seq::<Seq<char>>::empty());
    while i < args.len()
        invariant
            i <= args@.len(),
            end@ == seq![ARGUMENT_END],
            hasher@ == seq![length_prefix(args@.len())] + argument_writes(
                args.deep_view().take(i as int),
            ),
        decreases args@.len() - i,
    {
        proof {
            let seen = args.deep_view().take(i as int);
            let next = args.deep_view().take(i + 1);
            assert(next.drop_last() =~= seen);
            assert(next.last() == args@[i as int]@);
        }
        hasher.write(args[i].as_str().as_bytes());
        hasher.write(end.as_slice());
        i = i + 1;
    }
    assert(args.deep_view().take(args@.len() as int) =~= args.deep_view());
    let payload = payload_slice(input);
    let length = u64_to_le_bytes(payload.len() as u64);
    hasher.write(length.as_slice());
    hasher.write(payload);
    assert(hasher@ =~= fingerprint_writes(args.deep_view(), bytes_contents(*input)));
    hasher.finish()
}

} // verus!
