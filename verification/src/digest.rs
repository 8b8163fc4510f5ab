//! The content-addressed identifier of a gossip message.
//!
//! Two messages with the same payload bytes are the same message to the
//! mesh, whatever path they took: the identifier is the decimal numeral of a
//! fixed-key hash of the payload.

use std::collections::hash_map::DefaultHasher;
use std::hash::Hasher;
use vstd::prelude::*;
use vstd::std_specs::hash::DefaultHasherAdditionalSpecFns;
use crate::text::decimal;
use crate::text::decimal_digits;
use crate::text::digit_char;

verus! {

/// What a hasher has been fed once a byte slice was hashed into it, given
/// what it had been fed before. It is one function for one build of the
/// program; the standard library does not promise the same across platforms
/// or compiler versions.
pub uninterp spec fn hashed_slice(fed: Seq<Seq<u8>>, data: Seq<u8>) -> Seq<Seq<u8>>;

/// Calls `Hash::hash` of a byte slice. What the hasher receives depends on
/// the bytes and on what it had received before, on nothing else.
#[verifier::external_body]
fn hash_slice(hasher: &mut DefaultHasher, data: &[u8])
    ensures
        final(hasher)@ == hashed_slice(old(hasher)@, data@),
{
    std::hash::Hash::hash(data, hasher);
}

/// The 64-bit digest of a payload: a fresh hasher, the payload hashed into
/// it, the hasher finished.
pub open spec fn content_digest(data: Seq<u8>) -> u64 {
    DefaultHasher::spec_finish(hashed_slice(Seq::empty(), data))
}

/// The identifier of a message with payload `data`.
pub open spec fn message_id_of(data: Seq<u8>) -> Seq<char> {
    decimal_digits(content_digest(data) as nat)
}

/// The identifier under which the mesh knows a message with payload `data`.
pub fn message_id(data: &[u8]) -> (id: String)
    ensures
        id@ == message_id_of(data@),
{
    let mut hasher = DefaultHasher::new();
    hash_slice(&mut hasher, data);
    decimal(hasher.finish())
}

/// The same payload always has the same identifier: publishing identical
/// bytes twice is publishing one message.
pub proof fn lemma_same_payload_same_id(first: Seq<u8>, second: Seq<u8>)
    requires
        first == second,
    ensures
        message_id_of(first) == message_id_of(second),
{
}

/// A numeral has at least one digit, and two digits once the number has
/// reached ten.
proof fn lemma_numeral_length(n: nat)
    ensures
        decimal_digits(n).len() >= 1,
        n >= 10 ==> decimal_digits(n).len() >= 2,
    decreases n,
{
    if n >= 10 {
        lemma_numeral_length(n / 10);
    }
}

/// Different digits have different numerals.
proof fn lemma_digits_differ(a: nat, b: nat)
    requires
        a < 10,
        b < 10,
        digit_char(a) == digit_char(b),
    ensures
        a == b,
{
    reveal_strlit("0123456789");
}

/// Different numbers have different numerals.
pub proof fn lemma_numeral_names_one_number(a: nat, b: nat)
    requires
        decimal_digits(a) == decimal_digits(b),
    ensures
        a == b,
    decreases a,
{
    lemma_numeral_length(a);
    lemma_numeral_length(b);
    if a < 10 && b < 10 {
        assert(decimal_digits(a)[0] == digit_char(a));
        assert(decimal_digits(b)[0] == digit_char(b));
        lemma_digits_differ(a, b);
    } else if a >= 10 && b >= 10 {
        let da = decimal_digits(a / 10);
        let db = decimal_digits(b / 10);
        assert(decimal_digits(a).last() == digit_char(a % 10));
        assert(decimal_digits(b).last() == digit_char(b % 10));
        assert(decimal_digits(a).drop_last() =~= da);
        assert(decimal_digits(b).drop_last() =~= db);
        lemma_digits_differ(a % 10, b % 10);
        lemma_numeral_names_one_number(a / 10, b / 10);
    }
}

/// The identifier tells messages apart exactly as the digest does: two
/// payloads share an identifier if and only if they share a digest.
pub proof fn lemma_id_is_the_digest(first: Seq<u8>, second: Seq<u8>)
    ensures
        message_id_of(first) == message_id_of(second) <==> content_digest(first) == content_digest(
            second,
        ),
{
    if message_id_of(first) == message_id_of(second) {
        lemma_numeral_names_one_number(content_digest(first) as nat, content_digest(second) as nat);
    }
}

} // verus!
