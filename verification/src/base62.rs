//! Base-62 codec over the alphabet `0-9 a-z A-Z`, mapping `u64` values to
//! short ASCII strings and back.

use vstd::arithmetic::div_mod::lemma_div_decreases;
use vstd::prelude::*;
use vstd::string::StringSliceAdditionalSpecFns;

use crate::decimal::push_char;

verus! {

/// Index of byte `v` in the base-62 alphabet, `None` when `v` is not in it.
pub open spec fn spec_value2index(v: u8) -> Option<u8> {
    if 48 <= v <= 57 {
        Some((v - 48) as u8)
    } else if 97 <= v <= 122 {
        Some((v - 97 + 10) as u8)
    } else if 65 <= v <= 90 {
        Some((v - 65 + 36) as u8)
    } else {
        None
    }
}

/// Alphabet byte standing for digit `i`, `None` when `i` is 62 or more.
pub open spec fn spec_index2value(i: u8) -> Option<u8> {
    if i <= 61 {
        Some(spec_b62_byte(i as nat))
    } else {
        None
    }
}

/// Alphabet byte of digit `d`; meaningful for `d < 62`.
pub open spec fn spec_b62_byte(d: nat) -> u8 {
    if d <= 9 {
        (d + 48) as u8
    } else if d <= 35 {
        (d - 10 + 97) as u8
    } else {
        (d - 36 + 65) as u8
    }
}

/// Digit stood for by alphabet byte `v`, taken as 0 when `v` is no digit.
pub open spec fn spec_b62_digit(v: u8) -> nat {
    match spec_value2index(v) {
        Some(d) => d as nat,
        None => 0,
    }
}

/// Whether every byte of `s` belongs to the base-62 alphabet.
pub open spec fn spec_is_b62(s: Seq<u8>) -> bool {
    forall|i: int| 0 <= i < s.len() ==> spec_value2index(s[i]) is Some
}

/// Numeric value of `s` read as big-endian base-62 digits.
pub open spec fn spec_b62_value(s: Seq<u8>) -> nat
    decreases s.len(),
{
    if s.len() == 0 {
        0
    } else {
        spec_b62_value(s.drop_last()) * 62 + spec_b62_digit(s.last())
    }
}

/// Big-endian base-62 digit string of `v`, without leading zeros except for
/// the single digit of `v < 62` itself.
pub open spec fn spec_b62_rep(v: nat) -> Seq<u8>
    decreases v,
    via spec_b62_rep_decreases
{
    if v < 62 {
        seq![spec_b62_byte(v)]
    } else {
        spec_b62_rep(v / 62).push(spec_b62_byte(v % 62))
    }
}

#[via_fn]
proof fn spec_b62_rep_decreases(v: nat) {
    if v >= 62 {
        lemma_div_decreases(v as int, 62);
    }
}

/// The characters spelled by the alphabet bytes of `s`.
pub open spec fn spec_chars(s: Seq<u8>) -> Seq<char> {
    s.map_values(|b: u8| b as char)
}

/// What decoding the byte string `s` yields: its base-62 value when every
/// byte is a digit and the value fits in a `u64`, and `None` otherwise.
pub open spec fn spec_b62_decode(s: Seq<u8>) -> Option<u64> {
    if spec_is_b62(s) && spec_b62_value(s) <= u64::MAX {
        Some(spec_b62_value(s) as u64)
    } else {
        None
    }
}

/// Reading back the digit of an alphabet byte undoes writing it.
proof fn lemma_b62_byte_digit(d: nat)
    requires
        d < 62,
    ensures
        spec_value2index(spec_b62_byte(d)) == Some(d as u8),
        spec_b62_digit(spec_b62_byte(d)) == d,
{
}

/// The digit string of a value is alphabet throughout and spells the value
/// back.
proof fn lemma_b62_rep_value(v: nat)
    ensures
        spec_is_b62(spec_b62_rep(v)),
        spec_b62_value(spec_b62_rep(v)) == v,
    decreases v,
{
    if v < 62 {
        lemma_b62_byte_digit(v);
        assert(spec_b62_rep(v).last() == spec_b62_byte(v));
        assert(spec_b62_rep(v).drop_last() =~= Seq::<u8>::empty());
        assert(spec_b62_value(Seq::<u8>::empty()) == 0);
    } else {
        lemma_div_decreases(v as int, 62);
        lemma_b62_rep_value(v / 62);
        lemma_b62_byte_digit(v % 62);
        let rep = spec_b62_rep(v);
        assert(rep.drop_last() =~= spec_b62_rep(v / 62));
        assert(rep.last() == spec_b62_byte(v % 62));
        assert(spec_b62_value(rep) == (v / 62) * 62 + v % 62);
        assert((v / 62) * 62 + v % 62 == v) by {
            vstd::arithmetic::div_mod::lemma_fundamental_div_mod(v as int, 62);
        }
        assert forall|i: int| 0 <= i < rep.len() implies spec_value2index(rep[i]) is Some by {
            if i < rep.len() - 1 {
                assert(rep[i] == spec_b62_rep(v / 62)[i]);
            }
        }
    }
}

/// Round trip: the digit string that encoding a value writes decodes back
/// to exactly that value.
pub proof fn lemma_b62_round_trip(v: u64)
    ensures
        spec_b62_decode(spec_b62_rep(v as nat)) == Some(v),
{
    lemma_b62_rep_value(v as nat);
}

/// Digit index of alphabet byte `v`: 0-9 for digits, 10-35 for lower-case
/// letters, 36-61 for upper-case letters.
pub fn value2index(v: u8) -> (r: Option<u8>)
    ensures
        r == spec_value2index(v),
{
    if 48 <= v && v <= 57 {
        Some(v - 48)
    } else if 97 <= v && v <= 122 {
        Some(v - 97 + 10)
    } else if 65 <= v && v <= 90 {
        Some(v - 65 + 36)
    } else {
        None
    }
}

/// Alphabet byte of digit index `v`, the inverse of [`value2index`].
pub fn index2value(v: u8) -> (r: Option<u8>)
    ensures
        r == spec_index2value(v),
{
    if v <= 9 {
        Some(v + 48)
    } else if v <= 35 {
        Some(v - 10 + 97)
    } else if v <= 61 {
        Some(v - 36 + 65)
    } else {
        None
    }
}

/// Whether byte `v` belongs to the base-62 alphabet.
pub fn contains(v: u8) -> (r: bool)
    ensures
        r == (spec_value2index(v) is Some),
{
    value2index(v).is_some()
}

/// The value of a prefix never exceeds the value of the whole string.
proof fn lemma_b62_prefix_le(s: Seq<u8>, j: int)
    requires
        0 <= j <= s.len(),
    ensures
        spec_b62_value(s.take(j)) <= spec_b62_value(s),
    decreases s.len(),
{
    if j == s.len() {
        assert(s.take(j) =~= s);
    } else {
        assert(s.drop_last().take(j) =~= s.take(j));
        lemma_b62_prefix_le(s.drop_last(), j);
    }
}

/// Base-62 value of `bytes`, `None` when a byte is no digit of the alphabet
/// or the value does not fit in a `u64`.
pub fn decode_bytes(bytes: &[u8]) -> (r: Option<u64>)
    ensures
        r == spec_b62_decode(bytes@),
{
    let n = bytes.len();
    let mut acc: u64 = 0;
    let mut i: usize = 0;
    while i < n
        invariant
            n == bytes@.len(),
            0 <= i <= n,
            spec_is_b62(bytes@.take(i as int)),
            acc == spec_b62_value(bytes@.take(i as int)),
        decreases n - i,
    {
        let b = bytes[i];
        proof {
            assert(bytes@.take(i + 1).drop_last() =~= bytes@.take(i as int));
            assert(bytes@.take(i + 1).last() == bytes@[i as int]);
        }
        match value2index(b) {
            None => {
                assert(!spec_is_b62(bytes@));
                return None;
            },
            Some(d) => {
                let shifted = match acc.checked_mul(62) {
                    Some(v) => v,
                    None => {
                        proof {
                            lemma_b62_prefix_le(bytes@, i + 1);
                        }
                        return None;
                    },
                };
                acc = match shifted.checked_add(d as u64) {
                    Some(v) => v,
                    None => {
                        proof {
                            lemma_b62_prefix_le(bytes@, i + 1);
                        }
                        return None;
                    },
                };
            },
        }
        i = i + 1;
    }
    proof {
        assert(bytes@.take(n as int) =~= bytes@);
    }
    Some(acc)
}

/// Base-62 value of the ASCII string `value`, `None` when a byte of it is no
/// digit of the alphabet or the value does not fit in a `u64`.
pub fn decode(value: &str) -> (r: Option<u64>)
    ensures
        r == spec_b62_decode(value.spec_bytes()),
{
    decode_bytes(value.as_bytes())
}

/// Alphabet byte of digit `d`.
fn byte_of_digit(d: u8) -> (r: u8)
    requires
        d < 62,
    ensures
        r == spec_b62_byte(d as nat),
{
    if d <= 9 {
        d + 48
    } else if d <= 35 {
        d - 10 + 97
    } else {
        d - 36 + 65
    }
}

/// Base-62 string of `value`: the big-endian digit string of
/// [`spec_b62_rep`], one character per digit, no leading zeros.
pub fn encode(value: u64) -> (r: String)
    ensures
        r@ == spec_chars(spec_b62_rep(value as nat)),
{
    // Alphabet bytes of the digits, least significant first.
    let mut digits: Vec<u8> = Vec::new();
    let mut v: u64 = value;
    while v >= 62
        invariant
            spec_b62_rep(value as nat) =~= spec_b62_rep(v as nat) + digits@.reverse(),
        decreases v,
    {
        let d: u8 = (v % 62) as u8;
        let b = byte_of_digit(d);
        proof {
            assert(spec_b62_rep(v as nat) == spec_b62_rep((v as nat) / 62).push(
                spec_b62_byte((v as nat) % 62),
            ));
            assert((v as nat) / 62 == (v / 62) as nat);
            assert(digits@.push(b).reverse() =~= seq![b] + digits@.reverse());
            assert(spec_b62_rep((v / 62) as nat) + digits@.push(b).reverse() =~= spec_b62_rep(
                (v / 62) as nat,
            ).push(b) + digits@.reverse());
        }
        digits.push(b);
        v = v / 62;
    }
    let b = byte_of_digit(v as u8);
    proof {
        assert(spec_b62_rep(v as nat) =~= seq![b]);
        assert(digits@.push(b).reverse() =~= seq![b] + digits@.reverse());
    }
    digits.push(b);
    let ghost rep = spec_b62_rep(value as nat);
    proof {
        assert(digits@.reverse() =~= rep);
        assert(forall|k: int|
            0 <= k < digits@.len() ==> rep[k] == digits@[digits@.len() - 1 - k]);
    }
    let n = digits.len();
    let mut s = String::new();
    let mut k: usize = 0;
    while k < n
        invariant
            n == digits@.len(),
            n == rep.len(),
            0 <= k <= n,
            forall|j: int| 0 <= j < n ==> rep[j] == digits@[n - 1 - j],
            s@ =~= spec_chars(rep.take(k as int)),
        decreases n - k,
    {
        let c: char = digits[n - 1 - k] as char;
        push_char(&mut s, c);
        proof {
            assert(rep.take(k + 1) =~= rep.take(k as int).push(rep[k as int]));
        }
        k = k + 1;
    }
    proof {
        assert(rep.take(n as int) =~= rep);
    }
    s
}

} // verus!
