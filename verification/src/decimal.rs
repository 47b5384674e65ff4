//! Decimal text helpers: formatting integers and booleans as the strings a
//! broker configuration wants, and parsing the integers configuration
//! values hold.

use vstd::arithmetic::div_mod::lemma_div_decreases;
use vstd::prelude::*;

verus! {

/// The character of decimal digit `d`; meaningful for `d < 10`.
pub open spec fn spec_digit_char(d: nat) -> char {
    ((d + 48) as u8) as char
}

/// The decimal digit string of `v`, most significant first, without leading
/// zeros except for the single digit of `v < 10` itself.
pub open spec fn spec_dec_digits(v: nat) -> Seq<char>
    decreases v,
    via spec_dec_digits_decreases
{
    if v < 10 {
        seq![spec_digit_char(v)]
    } else {
        spec_dec_digits(v / 10).push(spec_digit_char(v % 10))
    }
}

#[via_fn]
proof fn spec_dec_digits_decreases(v: nat) {
    if v >= 10 {
        lemma_div_decreases(v as int, 10);
    }
}

/// The decimal string of the integer `v`, a minus sign first when negative.
pub open spec fn spec_int_str(v: int) -> Seq<char> {
    if v < 0 {
        seq!['-'] + spec_dec_digits((-v) as nat)
    } else {
        spec_dec_digits(v as nat)
    }
}

/// The string a boolean spells as.
pub open spec fn spec_bool_str(b: bool) -> Seq<char> {
    if b {
        "true"@
    } else {
        "false"@
    }
}

/// Whether `s` is one or more decimal digit characters.
pub open spec fn spec_is_digits(s: Seq<char>) -> bool {
    s.len() > 0 && (forall|i: int| 0 <= i < s.len() ==> 48 <= (#[trigger] s[i]) as int <= 57)
}

/// The value of the digit string `s`, read most significant first.
pub open spec fn spec_digits_value(s: Seq<char>) -> nat
    decreases s.len(),
{
    if s.len() == 0 {
        0
    } else {
        spec_digits_value(s.drop_last()) * 10 + (if 48 <= s.last() as int <= 57 {
            (s.last() as int - 48) as nat
        } else {
            0
        })
    }
}

/// What parsing `s` as a `u32` yields: after an optional leading plus sign,
/// one or more decimal digits whose value fits, and `None` otherwise.
pub open spec fn spec_parse_u32(s: Seq<char>) -> Option<u32> {
    let t = if s.len() > 0 && s[0] == '+' {
        s.skip(1)
    } else {
        s
    };
    if spec_is_digits(t) && spec_digits_value(t) <= u32::MAX {
        Some(spec_digits_value(t) as u32)
    } else {
        None
    }
}

/// Writing a digit's character and reading it back undoes the writing.
proof fn lemma_digit_char_value(d: nat)
    requires
        d < 10,
    ensures
        48 <= spec_digit_char(d) as int <= 57,
        spec_digit_char(d) as int - 48 == d,
{
}

/// The digit string of a value is digits throughout and spells the value
/// back.
proof fn lemma_dec_digits_value(v: nat)
    ensures
        spec_is_digits(spec_dec_digits(v)),
        spec_digits_value(spec_dec_digits(v)) == v,
    decreases v,
{
    if v < 10 {
        lemma_digit_char_value(v);
        assert(spec_dec_digits(v).last() == spec_digit_char(v));
        assert(spec_dec_digits(v).drop_last() =~= Seq::<char>::empty());
        assert(spec_digits_value(Seq::<char>::empty()) == 0);
    } else {
        lemma_div_decreases(v as int, 10);
        lemma_dec_digits_value(v / 10);
        lemma_digit_char_value(v % 10);
        let rep = spec_dec_digits(v);
        assert(rep.drop_last() =~= spec_dec_digits(v / 10));
        assert(rep.last() == spec_digit_char(v % 10));
        assert(spec_digits_value(rep) == (v / 10) * 10 + v % 10);
        assert((v / 10) * 10 + v % 10 == v) by {
            vstd::arithmetic::div_mod::lemma_fundamental_div_mod(v as int, 10);
        }
        assert forall|i: int| 0 <= i < rep.len() implies 48 <= (#[trigger] rep[i]) as int <= 57 by {
            if i < rep.len() - 1 {
                assert(rep[i] == spec_dec_digits(v / 10)[i]);
            }
        }
    }
}

/// Round trip: the digit string that formatting a value writes parses back
/// to exactly that value.
pub proof fn lemma_decimal_round_trip(v: u32)
    ensures
        spec_parse_u32(spec_dec_digits(v as nat)) == Some(v),
{
    lemma_dec_digits_value(v as nat);
    let rep = spec_dec_digits(v as nat);
    assert(rep[0] != '+') by {
        assert(48 <= rep[0] as int <= 57);
    }
}

/// Appends one character to a string.
///
/// Relies on `String::push`: it appends exactly the given character.
#[verifier::external_body]
pub(crate) fn push_char(s: &mut String, c: char)
    ensures
        final(s)@ == old(s)@.push(c),
{
    s.push(c)
}

/// The decimal string of `v`.
pub fn format_u64(v: u64) -> (r: String)
    ensures
        r@ == spec_dec_digits(v as nat),
{
    // Digit characters, least significant first.
    let mut digits: Vec<char> = Vec::new();
    let mut v2: u64 = v;
    while v2 >= 10
        invariant
            spec_dec_digits(v as nat) =~= spec_dec_digits(v2 as nat) + digits@.reverse(),
        decreases v2,
    {
        let d: u8 = (v2 % 10) as u8;
        let c: char = (d + 48) as char;
        proof {
            assert(spec_dec_digits(v2 as nat) == spec_dec_digits((v2 as nat) / 10).push(
                spec_digit_char((v2 as nat) % 10),
            ));
            assert((v2 as nat) / 10 == (v2 / 10) as nat);
            assert(digits@.push(c).reverse() =~= seq![c] + digits@.reverse());
            assert(spec_dec_digits((v2 / 10) as nat) + digits@.push(c).reverse()
                =~= spec_dec_digits((v2 / 10) as nat).push(c) + digits@.reverse());
        }
        digits.push(c);
        v2 = v2 / 10;
    }
    let c: char = ((v2 as u8) + 48) as char;
    proof {
        assert(spec_dec_digits(v2 as nat) =~= seq![c]);
        assert(digits@.push(c).reverse() =~= seq![c] + digits@.reverse());
    }
    digits.push(c);
    let ghost rep = spec_dec_digits(v as nat);
    proof {
        assert(digits@.reverse() =~= rep);
        assert(forall|k: int| 0 <= k < digits@.len() ==> rep[k] == digits@[digits@.len() - 1 - k]);
    }
    let n = digits.len();
    let mut s = String::new();
    let mut k: usize = 0;
    while k < n
        invariant
            n == digits@.len(),
            n == rep.len(),
            0 <= k <= n,
            forall|j: int| 0 <= j < n ==> rep[j] == digits@[n - 1 - j],
            s@ =~= rep.take(k as int),
        decreases n - k,
    {
        push_char(&mut s, digits[n - 1 - k]);
        proof {
            assert(rep.take(k + 1) =~= rep.take(k as int).push(rep[k as int]));
        }
        k = k + 1;
    }
    proof {
        assert(rep.take(n as int) =~= rep);
    }
    s
}

/// The decimal string of `v`, a minus sign first when negative.
pub fn format_i32(v: i32) -> (r: String)
    ensures
        r@ == spec_int_str(v as int),
{
    if v >= 0 {
        format_u64(v as u64)
    } else {
        let magnitude: u64 = (-(v as i64)) as u64;
        let tail = format_u64(magnitude);
        let mut s = String::new();
        push_char(&mut s, '-');
        let r = s.concat(tail.as_str());
        proof {
            assert(r@ =~= seq!['-'] + spec_dec_digits(magnitude as nat));
        }
        r
    }
}

/// The string `b` spells as.
pub fn format_bool(b: bool) -> (r: String)
    ensures
        r@ == spec_bool_str(b),
{
    if b {
        "true".to_owned()
    } else {
        "false".to_owned()
    }
}

/// The value of a digit-string prefix never exceeds the whole string's.
proof fn lemma_digits_prefix_le(s: Seq<char>, j: int)
    requires
        0 <= j <= s.len(),
    ensures
        spec_digits_value(s.take(j)) <= spec_digits_value(s),
    decreases s.len(),
{
    if j == s.len() {
        assert(s.take(j) =~= s);
    } else {
        assert(s.drop_last().take(j) =~= s.take(j));
        lemma_digits_prefix_le(s.drop_last(), j);
    }
}

/// Parses `s` as a `u32`: an optional leading plus sign, then decimal
/// digits; `None` on any other character or when the value does not fit.
pub fn parse_u32(s: &str) -> (r: Option<u32>)
    ensures
        r == spec_parse_u32(s@),
{
    let n = s.unicode_len();
    let start: usize = if n > 0 && s.get_char(0) == '+' {
        1
    } else {
        0
    };
    let ghost t = if s@.len() > 0 && s@[0] == '+' {
        s@.skip(1)
    } else {
        s@
    };
    proof {
        assert(t.len() == n - start);
        assert(forall|i: int| 0 <= i < t.len() ==> t[i] == s@[i + start]);
    }
    if n == start {
        return None;
    }
    let mut acc: u32 = 0;
    let mut i: usize = start;
    while i < n
        invariant
            start <= i <= n,
            n == s@.len(),
            start == (if s@.len() > 0 && s@[0] == '+' {
                1int
            } else {
                0int
            }),
            t == (if s@.len() > 0 && s@[0] == '+' {
                s@.skip(1)
            } else {
                s@
            }),
            t.len() == n - start,
            forall|j: int| 0 <= j < t.len() ==> t[j] == s@[j + start],
            spec_is_digits(t.take(i - start)) || i == start,
            acc == spec_digits_value(t.take(i - start)),
        decreases n - i,
    {
        let c = s.get_char(i);
        let cv = c as u32;
        proof {
            assert(t.take(i - start + 1).drop_last() =~= t.take(i - start));
            assert(t.take(i - start + 1).last() == s@[i as int]);
        }
        if cv < 48 || cv > 57 {
            assert(!spec_is_digits(t));
            return None;
        }
        let shifted = match acc.checked_mul(10) {
            Some(v) => v,
            None => {
                proof {
                    lemma_digits_prefix_le(t, i - start + 1);
                }
                return None;
            },
        };
        acc = match shifted.checked_add(cv - 48) {
            Some(v) => v,
            None => {
                proof {
                    lemma_digits_prefix_le(t, i - start + 1);
                }
                return None;
            },
        };
        i = i + 1;
    }
    proof {
        assert(t.take(n - start) =~= t);
    }
    Some(acc)
}

/// Whether `flag` holds the exact text a boolean true spells as; the shape
/// a switch read from the environment has when it is on.
pub open spec fn spec_flag_true(flag: Option<String>) -> bool {
    flag matches Some(s) && s@ == "true"@
}

/// Whether `flag` holds the exact text a boolean true spells as.
pub fn flag_is_true(flag: &Option<String>) -> (b: bool)
    ensures
        b == spec_flag_true(*flag),
{
    match flag {
        Some(s) => *s == "true".to_owned(),
        None => false,
    }
}

} // verus!
