//! Content hashing for the configuration documents.
//!
//! Each layered document commits to the previous layer's exact on-disk bytes
//! through a content hash.  The hash is 64-bit FNV-1a: it only has to detect
//! accidental edits and drifted files, not withstand an adversary, and its
//! arithmetic is simple enough to prove the property the chain rests on:
//! changing any single byte of a document changes its hash
//! ([`lemma_hash_detects_changed_byte`]).
use vstd::arithmetic::div_mod::lemma_mul_mod_noop_left;
use vstd::arithmetic::div_mod::lemma_mul_mod_noop_right;
use vstd::arithmetic::div_mod::lemma_small_mod;
use vstd::arithmetic::mul::lemma_mul_is_associative;
use vstd::prelude::*;

verus! {

pub const FNV_OFFSET: u64 = 0xcbf29ce484222325;

pub const FNV_PRIME: u64 = 0x100000001b3;

/// One round of FNV-1a: fold the next byte into the running state.
pub open spec fn fnv_step(h: u64, b: u8) -> u64 {
    vstd::wrapping::u64_specs::wrapping_mul(h ^ (b as u64), FNV_PRIME)
}

/// FNV-1a over `s`, started from state `h`.
pub open spec fn fnv1a_from(h: u64, s: Seq<u8>) -> u64
    decreases s.len(),
{
    if s.len() == 0 {
        h
    } else {
        fnv1a_from(fnv_step(h, s[0]), s.skip(1))
    }
}

/// The content hash of a byte sequence.
pub open spec fn fnv1a(s: Seq<u8>) -> u64 {
    fnv1a_from(FNV_OFFSET, s)
}

/// Hash of the exact bytes of a document, computed before any parsing.
pub fn content_hash(bytes: &Vec<u8>) -> (r: u64)
    ensures
        r == fnv1a(bytes@),
{
    let mut h: u64 = FNV_OFFSET;
    let mut i: usize = 0;
    proof {
        assert(bytes@.skip(0) =~= bytes@);
    }
    while i < bytes.len()
        invariant
            i <= bytes@.len(),
            fnv1a(bytes@) == fnv1a_from(h, bytes@.skip(i as int)),
        decreases bytes@.len() - i,
    {
        proof {
            assert(bytes@.skip(i as int)[0] == bytes@[i as int]);
            assert(bytes@.skip(i as int).skip(1) =~= bytes@.skip(i as int + 1));
        }
        h = (h ^ (bytes[i] as u64)).wrapping_mul(FNV_PRIME);
        i += 1;
    }
    proof {
        assert(bytes@.skip(bytes@.len() as int) =~= Seq::<u8>::empty());
    }
    h
}

/// The FNV prime is odd, so multiplying by it modulo 2^64 is injective; this
/// is its multiplicative inverse modulo 2^64.
pub const FNV_PRIME_INVERSE: u64 = 0xce965057aff6957b;

proof fn lemma_mul_prime_injective(x: u64, y: u64)
    requires
        vstd::wrapping::u64_specs::wrapping_mul(x, FNV_PRIME) == vstd::wrapping::u64_specs::wrapping_mul(y, FNV_PRIME),
    ensures
        x == y,
{
    let m = 0x10000000000000000int;
    let p = FNV_PRIME as int;
    let q = FNV_PRIME_INVERSE as int;
    assert((x as int * p) % m == (y as int * p) % m);
    lemma_mul_mod_noop_left(x as int * p, q, m);
    lemma_mul_mod_noop_left(y as int * p, q, m);
    assert((x as int * p * q) % m == (y as int * p * q) % m);
    lemma_mul_is_associative(x as int, p, q);
    lemma_mul_is_associative(y as int, p, q);
    lemma_mul_mod_noop_right(x as int, p * q, m);
    lemma_mul_mod_noop_right(y as int, p * q, m);
    assert(p * q % m == 1);
    lemma_small_mod(x as nat, m as nat);
    lemma_small_mod(y as nat, m as nat);
    assert(x as int == (x as int * 1) % m);
    assert(y as int == (y as int * 1) % m);
}

proof fn lemma_fnv_step_state_injective(h1: u64, h2: u64, b: u8)
    requires
        h1 != h2,
    ensures
        fnv_step(h1, b) != fnv_step(h2, b),
{
    let x = h1 ^ (b as u64);
    let y = h2 ^ (b as u64);
    assert(x != y) by (bit_vector)
        requires
            h1 != h2,
            x == h1 ^ (b as u64),
            y == h2 ^ (b as u64),
    ;
    if fnv_step(h1, b) == fnv_step(h2, b) {
        lemma_mul_prime_injective(x, y);
        assert(false);
    }
}

proof fn lemma_fnv_step_byte_injective(h: u64, b1: u8, b2: u8)
    requires
        b1 != b2,
    ensures
        fnv_step(h, b1) != fnv_step(h, b2),
{
    let x = h ^ (b1 as u64);
    let y = h ^ (b2 as u64);
    assert(x != y) by (bit_vector)
        requires
            b1 != b2,
            x == h ^ (b1 as u64),
            y == h ^ (b2 as u64),
    ;
    if fnv_step(h, b1) == fnv_step(h, b2) {
        lemma_mul_prime_injective(x, y);
        assert(false);
    }
}

proof fn lemma_fnv_from_state_injective(h1: u64, h2: u64, s: Seq<u8>)
    requires
        h1 != h2,
    ensures
        fnv1a_from(h1, s) != fnv1a_from(h2, s),
    decreases s.len(),
{
    if s.len() > 0 {
        lemma_fnv_step_state_injective(h1, h2, s[0]);
        lemma_fnv_from_state_injective(fnv_step(h1, s[0]), fnv_step(h2, s[0]), s.skip(1));
    }
}

proof fn lemma_fnv_from_single_diff(h: u64, s1: Seq<u8>, s2: Seq<u8>, i: int)
    requires
        s1.len() == s2.len(),
        0 <= i < s1.len(),
        s1[i] != s2[i],
        forall|j: int| 0 <= j < s1.len() && j != i ==> s1[j] == s2[j],
    ensures
        fnv1a_from(h, s1) != fnv1a_from(h, s2),
    decreases s1.len(),
{
    if i == 0 {
        lemma_fnv_step_byte_injective(h, s1[0], s2[0]);
        assert(s1.skip(1) =~= s2.skip(1));
        lemma_fnv_from_state_injective(fnv_step(h, s1[0]), fnv_step(h, s2[0]), s1.skip(1));
    } else {
        assert(s1[0] == s2[0]);
        assert(forall|j: int|
            0 <= j < s1.skip(1).len() && j != i - 1 ==> s1.skip(1)[j] == s2.skip(1)[j]);
        lemma_fnv_from_single_diff(fnv_step(h, s1[0]), s1.skip(1), s2.skip(1), i - 1);
    }
}

/// Law: two equal-length byte sequences that differ in some position have
/// different content hashes.  So mutating any single byte of a document on
/// disk is always observed by the next hash comparison in the chain.
pub proof fn lemma_hash_detects_changed_byte(s1: Seq<u8>, s2: Seq<u8>, i: int)
    requires
        s1.len() == s2.len(),
        0 <= i < s1.len(),
        s1[i] != s2[i],
        forall|j: int| 0 <= j < s1.len() && j != i ==> s1[j] == s2[j],
    ensures
        fnv1a(s1) != fnv1a(s2),
{
    lemma_fnv_from_single_diff(FNV_OFFSET, s1, s2, i);
}

} // verus!
