//! Small verified helpers on byte vectors: equality, slicing, concatenation,
//! decimal rendering and lowercase-hex reading.  Every document, path and
//! command-line argument in this crate is a `Vec<u8>`, so these are the
//! primitives the rest of the library builds its exact contracts on.
use vstd::prelude::*;

verus! {

/// Decimal digit characters for a natural number, most significant first.
pub open spec fn dec_rep(n: nat) -> Seq<u8>
    decreases n,
{
    if n < 10 {
        seq![(n + 0x30) as u8]
    } else {
        dec_rep(n / 10).push(((n % 10) + 0x30) as u8)
    }
}

/// True when `b` is a lowercase hexadecimal digit character.
pub open spec fn is_hex_lower(b: u8) -> bool {
    (0x30 <= b <= 0x39) || (0x61 <= b <= 0x66)
}

/// Value of one lowercase hexadecimal digit character.
pub open spec fn hex_digit_val(b: u8) -> nat {
    if b <= 0x39 {
        (b - 0x30) as nat
    } else {
        (b - 0x61 + 10) as nat
    }
}

/// Value of a string of lowercase hexadecimal digit characters.
pub open spec fn hex_val(s: Seq<u8>) -> nat
    decreases s.len(),
{
    if s.len() == 0 {
        0
    } else {
        hex_val(s.drop_last()) * 16 + hex_digit_val(s.last())
    }
}

/// Sixteen raised to `n`; bounds the value of an `n`-digit hex string.
pub open spec fn pow16(n: nat) -> nat
    decreases n,
{
    if n == 0 {
        1
    } else {
        16 * pow16((n - 1) as nat)
    }
}

pub proof fn lemma_hex_val_bound(s: Seq<u8>)
    requires
        forall|j: int| 0 <= j < s.len() ==> is_hex_lower(s[j]),
    ensures
        hex_val(s) < pow16(s.len()),
    decreases s.len(),
{
    if s.len() > 0 {
        lemma_hex_val_bound(s.drop_last());
        assert(is_hex_lower(s.last()));
        assert(hex_digit_val(s.last()) < 16);
    }
}

pub fn bytes_eq(a: &Vec<u8>, b: &Vec<u8>) -> (r: bool)
    ensures
        r == (a@ == b@),
{
    if a.len() != b.len() {
        assert(a@ != b@);
        return false;
    }
    let mut i: usize = 0;
    while i < a.len()
        invariant
            i <= a.len(),
            a.len() == b.len(),
            forall|j: int| 0 <= j < i ==> a@[j] == b@[j],
        decreases a.len() - i,
    {
        if a[i] != b[i] {
            assert(a@ != b@);
            return false;
        }
        i += 1;
    }
    assert(a@ =~= b@);
    true
}

/// Copy of `v[from..to]`.
pub fn sub_bytes(v: &Vec<u8>, from: usize, to: usize) -> (r: Vec<u8>)
    requires
        from <= to <= v@.len(),
    ensures
        r@ == v@.subrange(from as int, to as int),
{
    let mut r: Vec<u8> = Vec::new();
    let mut i: usize = from;
    while i < to
        invariant
            from <= i <= to <= v@.len(),
            r@ == v@.subrange(from as int, i as int),
        decreases to - i,
    {
        r.push(v[i]);
        assert(r@ =~= v@.subrange(from as int, i + 1 as int));
        i += 1;
    }
    r
}

/// Append the whole of `src` to `dst`.
pub fn push_all(dst: &mut Vec<u8>, src: &Vec<u8>)
    ensures
        final(dst)@ == old(dst)@ + src@,
{
    let mut i: usize = 0;
    while i < src.len()
        invariant
            i <= src@.len(),
            dst@ == old(dst)@ + src@.take(i as int),
        decreases src@.len() - i,
    {
        dst.push(src[i]);
        assert(dst@ =~= old(dst)@ + src@.take(i + 1 as int));
        i += 1;
    }
    assert(dst@ =~= old(dst)@ + src@);
}

/// Decimal rendering of `n`, e.g. 1000 becomes "1000".
pub fn dec_u32(n: u32) -> (r: Vec<u8>)
    ensures
        r@ == dec_rep(n as nat),
    decreases n,
{
    if n < 10 {
        let d: u8 = (n as u8) + 0x30;
        let mut r: Vec<u8> = Vec::new();
        r.push(d);
        assert(r@ =~= dec_rep(n as nat));
        r
    } else {
        let mut r = dec_u32(n / 10);
        let d: u8 = ((n % 10) as u8) + 0x30;
        r.push(d);
        assert(r@ =~= dec_rep(n as nat));
        r
    }
}

/// True when every byte of `v` is a lowercase hexadecimal digit character.
pub fn all_hex_lower(v: &Vec<u8>, from: usize, to: usize) -> (r: bool)
    requires
        from <= to <= v@.len(),
    ensures
        r == forall|j: int| from <= j < to ==> is_hex_lower(v@[j]),
{
    let mut i: usize = from;
    while i < to
        invariant
            from <= i <= to <= v@.len(),
            forall|j: int| from <= j < i ==> is_hex_lower(v@[j]),
        decreases to - i,
    {
        let b = v[i];
        if !((0x30 <= b && b <= 0x39) || (0x61 <= b && b <= 0x66)) {
            return false;
        }
        i += 1;
    }
    true
}

/// Numeric value of the lowercase-hex digits `v[from..to]`; the width cap
/// keeps the value inside `u64`.
pub fn hex_val_u64(v: &Vec<u8>, from: usize, to: usize) -> (r: u64)
    requires
        from <= to <= v@.len(),
        to - from <= 16,
        forall|j: int| from <= j < to ==> is_hex_lower(v@[j]),
    ensures
        r as nat == hex_val(v@.subrange(from as int, to as int)),
    decreases to - from,
{
    if to == from {
        assert(v@.subrange(from as int, to as int) =~= Seq::<u8>::empty());
        0
    } else {
        let prefix = hex_val_u64(v, from, to - 1);
        proof {
            lemma_hex_val_bound(v@.subrange(from as int, to - 1 as int));
            lemma_pow16_mono((to - 1 - from) as nat, 15);
            assert(pow16(15) == 0x1000000000000000) by {
                reveal_with_fuel(pow16, 16);
            }
        }
        let b = v[to - 1];
        let d: u64 = if b <= 0x39 {
            (b - 0x30) as u64
        } else {
            (b - 0x61 + 10) as u64
        };
        let r = prefix * 16 + d;
        proof {
            let s = v@.subrange(from as int, to as int);
            assert(s.drop_last() =~= v@.subrange(from as int, to - 1 as int));
            assert(s.last() == v@[to - 1]);
        }
        r
    }
}

pub proof fn lemma_pow16_mono(a: nat, b: nat)
    requires
        a <= b,
    ensures
        pow16(a) <= pow16(b),
    decreases b,
{
    if a < b {
        lemma_pow16_mono(a, (b - 1) as nat);
    }
}

/// Index of the first occurrence of `sep` in `s`; `s.len()` when absent.
pub open spec fn first_at(s: Seq<u8>, sep: u8) -> int
    decreases s.len(),
{
    if s.len() == 0 {
        0
    } else if s[0] == sep {
        0
    } else {
        1 + first_at(s.skip(1), sep)
    }
}

pub proof fn lemma_first_at(s: Seq<u8>, sep: u8)
    ensures
        0 <= first_at(s, sep) <= s.len(),
        forall|j: int| 0 <= j < first_at(s, sep) ==> s[j] != sep,
        first_at(s, sep) < s.len() ==> s[first_at(s, sep)] == sep,
    decreases s.len(),
{
    if s.len() > 0 && s[0] != sep {
        lemma_first_at(s.skip(1), sep);
        assert forall|j: int| 0 <= j < first_at(s, sep) implies s[j] != sep by {
            if j > 0 {
                assert(s.skip(1)[j - 1] == s[j]);
            }
        }
        if first_at(s, sep) < s.len() {
            assert(s.skip(1)[first_at(s, sep) - 1] == s[first_at(s, sep)]);
        }
    }
}

pub proof fn lemma_first_at_is(s: Seq<u8>, sep: u8, k: int)
    requires
        0 <= k <= s.len(),
        forall|j: int| 0 <= j < k ==> s[j] != sep,
        k < s.len() ==> s[k] == sep,
    ensures
        first_at(s, sep) == k,
    decreases k,
{
    if k > 0 {
        assert forall|j: int| 0 <= j < k - 1 implies s.skip(1)[j] != sep by {
            assert(s.skip(1)[j] == s[j + 1]);
        }
        assert(k - 1 < s.skip(1).len() ==> s.skip(1)[k - 1] == sep);
        lemma_first_at_is(s.skip(1), sep, k - 1);
    }
}

/// Pieces of `s` between occurrences of `sep`: always one more piece than
/// there are separators, so the empty sequence splits to one empty piece.
pub open spec fn split_on(s: Seq<u8>, sep: u8) -> Seq<Seq<u8>>
    decreases s.len(),
{
    let k = first_at(s, sep);
    if 0 <= k < s.len() {
        seq![s.take(k)] + split_on(s.skip(k + 1), sep)
    } else {
        seq![s]
    }
}

/// First index at or after `start` holding `sep`, as an executable search.
pub fn find_from(v: &Vec<u8>, start: usize, sep: u8) -> (k: usize)
    requires
        start <= v@.len(),
    ensures
        start <= k <= v@.len(),
        k - start == first_at(v@.skip(start as int), sep),
{
    let ghost s = v@.skip(start as int);
    let mut i: usize = start;
    while i < v.len()
        invariant
            start <= i <= v@.len(),
            s == v@.skip(start as int),
            forall|j: int| start <= j < i ==> v@[j] != sep,
        decreases v@.len() - i,
    {
        if v[i] == sep {
            proof {
                assert forall|j: int| 0 <= j < i - start implies s[j] != sep by {
                    assert(s[j] == v@[start + j]);
                }
                assert(s[i - start] == v@[i as int]);
                lemma_first_at_is(s, sep, i - start);
            }
            return i;
        }
        i += 1;
    }
    proof {
        assert forall|j: int| 0 <= j < v@.len() - start implies s[j] != sep by {
            assert(s[j] == v@[start + j]);
        }
        lemma_first_at_is(s, sep, v@.len() - start);
    }
    v.len()
}

/// Split `v[start..]` on `sep`; the views of the returned pieces are exactly
/// [`split_on`] of the suffix.
pub fn split_from(v: &Vec<u8>, start: usize, sep: u8) -> (r: Vec<Vec<u8>>)
    requires
        start <= v@.len(),
    ensures
        r@.map_values(|p: Vec<u8>| p@) == split_on(v@.skip(start as int), sep),
    decreases v@.len() - start,
{
    let ghost s = v@.skip(start as int);
    let k = find_from(v, start, sep);
    let piece = sub_bytes(v, start, k);
    proof {
        lemma_first_at(s, sep);
    }
    if k == v.len() {
        let mut r: Vec<Vec<u8>> = Vec::new();
        r.push(piece);
        proof {
            assert(piece@ =~= s);
            assert(r@.map_values(|p: Vec<u8>| p@) =~= split_on(s, sep));
        }
        r
    } else {
        let mut rest = split_from(v, k + 1, sep);
        let mut r: Vec<Vec<u8>> = Vec::new();
        r.push(piece);
        r.append(&mut rest);
        proof {
            let k0 = first_at(s, sep);
            assert(s.take(k0) =~= piece@);
            assert(s.skip(k0 + 1) =~= v@.skip(k + 1 as int));
            assert(r@.map_values(|p: Vec<u8>| p@) =~= seq![s.take(k0)] + split_on(
                s.skip(k0 + 1),
                sep,
            ));
        }
        r
    }
}

} // verus!
