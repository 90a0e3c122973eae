//! The marker convention: a sealed reference is the literal prefix
//! `sealed.` followed by a ciphertext that is forwarded, never read.

use crate::text::{has_prefix, lemma_encode_concat};
use vstd::prelude::*;
use vstd::string::*;
use vstd::utf8::*;

verus! {

/// The marker that every sealed reference begins with.
pub const SEALED_PREFIX: &'static str = "sealed.";

/// `reference` carries the marker.
pub open spec fn is_sealed(reference: Seq<char>) -> bool {
    has_prefix(reference, SEALED_PREFIX@)
}

/// The ciphertext of a sealed reference: the UTF-8 bytes of what follows
/// the marker.
pub open spec fn ciphertext(reference: Seq<char>) -> Seq<u8> {
    encode_utf8(reference.skip(SEALED_PREFIX@.len() as int))
}

/// The marker is seven characters, each of them one byte of UTF-8.
pub proof fn lemma_marker()
    ensures
        SEALED_PREFIX@ == seq!['s', 'e', 'a', 'l', 'e', 'd', '.'],
        encode_utf8(SEALED_PREFIX@) == seq![0x73u8, 0x65u8, 0x61u8, 0x6cu8, 0x65u8, 0x64u8, 0x2eu8],
{
    reveal_strlit("sealed.");
    assert(SEALED_PREFIX@ =~= seq!['s', 'e', 'a', 'l', 'e', 'd', '.']);
    assert(is_ascii_chars(SEALED_PREFIX@));
    is_ascii_chars_encode_utf8(SEALED_PREFIX@);
    assert(encode_utf8(SEALED_PREFIX@) =~= seq![
        0x73u8,
        0x65u8,
        0x61u8,
        0x6cu8,
        0x65u8,
        0x64u8,
        0x2eu8,
    ]);
}

/// The ciphertext is forwarded verbatim: it is the bytes of the reference
/// less the seven bytes of the marker.
pub proof fn lemma_ciphertext_verbatim(reference: Seq<char>)
    requires
        is_sealed(reference),
    ensures
        encode_utf8(reference) == encode_utf8(SEALED_PREFIX@) + ciphertext(reference),
        ciphertext(reference) == encode_utf8(reference).skip(7),
{
    let rest = reference.skip(SEALED_PREFIX@.len() as int);
    assert(reference =~= SEALED_PREFIX@ + rest);
    lemma_encode_concat(SEALED_PREFIX@, rest);
    lemma_marker();
    assert((encode_utf8(SEALED_PREFIX@) + encode_utf8(rest)).skip(7) =~= encode_utf8(rest));
}

} // verus!
