//! State ids of generated behavior states: hashes of text, by the standard library's
//! `DefaultHasher`.
use vstd::prelude::*;

use std::collections::hash_map::DefaultHasher;
use std::hash::Hasher;
use vstd::std_specs::hash::DefaultHasherAdditionalSpecFns;

verus! {

/// What `<str as Hash>::hash` leaves in a `DefaultHasher` whose writes so far are `state`.
pub uninterp spec fn str_hash_writes(state: Seq<Seq<u8>>, s: Seq<char>) -> Seq<Seq<u8>>;

/// `<str as Hash>::hash`: feeds the text into the hasher.
#[verifier::external_body]
fn hash_str(s: &str, hasher: &mut DefaultHasher)
    ensures
        final(hasher)@ == str_hash_writes(old(hasher)@, s@),
{
    std::hash::Hash::hash(s, hasher)
}

/// The 64-bit `DefaultHasher` hash of a text.
pub open spec fn spec_default_hash(s: Seq<char>) -> u64 {
    DefaultHasher::spec_finish(str_hash_writes(Seq::empty(), s))
}

fn default_hash(t: &str) -> (r: u64)
    ensures
        r == spec_default_hash(t@),
{
    let mut hasher = DefaultHasher::new();
    hash_str(t, &mut hasher);
    hasher.finish()
}

/// The hash of a text truncated to `i32` (it may be negative).
pub fn hash(t: &str) -> (r: i32)
    ensures
        r == spec_default_hash(t@) as i32,
{
    #[verifier::truncate]
    (default_hash(t) as i32)
}

/// A `stateId` for a text: its hash with the sign bit cleared, so it is never negative.
pub fn calculate_hash(t: &str) -> (r: i32)
    ensures
        r as int == (spec_default_hash(t@) & 0x7fff_ffffu64) as int,
        r >= 0,
{
    let h = default_hash(t);
    let masked = h & 0x7fff_ffffu64;
    assert(masked <= 0x7fff_ffffu64) by (bit_vector)
        requires
            masked == h & 0x7fff_ffffu64,
    ;
    masked as i32
}

} // verus!
