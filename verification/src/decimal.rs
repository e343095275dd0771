//! Decimal rendering and parsing of the integer form values.
//!
//! Form controls edit text, so every integer model value crosses to and from
//! its decimal notation. This module defines that notation once, as spec
//! functions over `Seq<char>`, and provides verified rendering, parsing and
//! validity checking for the widest integer widths; the per-type form-value
//! impls narrow them by casts.

use vstd::prelude::*;
use vstd::string::*;

verus! {

/// The character that writes a single decimal digit.
pub open spec fn spec_digit_char(d: nat) -> char {
    if d == 0 {
        '0'
    } else if d == 1 {
        '1'
    } else if d == 2 {
        '2'
    } else if d == 3 {
        '3'
    } else if d == 4 {
        '4'
    } else if d == 5 {
        '5'
    } else if d == 6 {
        '6'
    } else if d == 7 {
        '7'
    } else if d == 8 {
        '8'
    } else {
        '9'
    }
}

/// Whether `c` is a decimal digit character.
pub open spec fn spec_is_digit(c: char) -> bool {
    c == '0' || c == '1' || c == '2' || c == '3' || c == '4' || c == '5' || c == '6' || c == '7'
        || c == '8' || c == '9'
}

/// The value of a decimal digit character.
pub open spec fn spec_digit_val(c: char) -> nat {
    if c == '0' {
        0
    } else if c == '1' {
        1
    } else if c == '2' {
        2
    } else if c == '3' {
        3
    } else if c == '4' {
        4
    } else if c == '5' {
        5
    } else if c == '6' {
        6
    } else if c == '7' {
        7
    } else if c == '8' {
        8
    } else {
        9
    }
}

/// The decimal notation of `n`: most significant digit first, no leading
/// zeros except for `n == 0` itself.
pub open spec fn spec_udec(n: nat) -> Seq<char>
    decreases n,
{
    if n < 10 {
        seq![spec_digit_char(n)]
    } else {
        spec_udec(n / 10).push(spec_digit_char(n % 10))
    }
}

/// Whether every character of `s` is a decimal digit.
pub open spec fn spec_all_digits(s: Seq<char>) -> bool {
    forall|i: int| 0 <= i < s.len() ==> spec_is_digit(#[trigger] s[i])
}

/// The number that a sequence of digit characters denotes. Characters that
/// are not digits count as the digit given by [`spec_digit_val`]; the
/// predicates below rule them out where it matters.
pub open spec fn spec_udec_val(s: Seq<char>) -> nat
    decreases s.len(),
{
    if s.len() == 0 {
        0
    } else {
        spec_udec_val(s.drop_last()) * 10 + spec_digit_val(s.last())
    }
}

/// Whether `s` is a decimal notation (leading zeros allowed) of a number
/// no greater than `max`.
pub open spec fn spec_udec_ok(s: Seq<char>, max: nat) -> bool {
    s.len() > 0 && spec_all_digits(s) && spec_udec_val(s) <= max
}

/// The decimal notation of the integer `v`, a minus sign ahead of the
/// digits when `v` is negative.
pub open spec fn spec_idec(v: int) -> Seq<char> {
    if v < 0 {
        seq!['-'] + spec_udec((-v) as nat)
    } else {
        spec_udec(v as nat)
    }
}

/// Whether `s` denotes an integer of `[min, max]`: either a plain digit
/// string, or a minus sign followed by one.
pub open spec fn spec_idec_ok(s: Seq<char>, min: int, max: int) -> bool {
    if s.len() > 0 && s[0] == '-' {
        spec_udec_ok(s.skip(1), (-min) as nat)
    } else {
        spec_udec_ok(s, max as nat)
    }
}

/// The integer that `s` denotes under [`spec_idec_ok`].
pub open spec fn spec_idec_val(s: Seq<char>) -> int {
    if s.len() > 0 && s[0] == '-' {
        -(spec_udec_val(s.skip(1)) as int)
    } else {
        spec_udec_val(s) as int
    }
}

/// The notation of `n` is made of digits only, and is never empty.
pub proof fn lemma_udec_digits(n: nat)
    ensures
        spec_udec(n).len() >= 1,
        spec_all_digits(spec_udec(n)),
    decreases n,
{
    if n < 10 {
    } else {
        lemma_udec_digits(n / 10);
        assert forall|i: int| 0 <= i < spec_udec(n).len() implies spec_is_digit(
            #[trigger] spec_udec(n)[i],
        ) by {
            if i < spec_udec(n / 10).len() {
                assert(spec_udec(n)[i] == spec_udec(n / 10)[i]);
            }
        }
    }
}

/// Reading back the notation of `n` gives `n`: rendering is faithful.
pub proof fn lemma_udec_val(n: nat)
    ensures
        spec_udec_val(spec_udec(n)) == n,
    decreases n,
{
    if n < 10 {
        assert(seq![spec_digit_char(n)].drop_last() =~= Seq::<char>::empty());
        assert(spec_udec_val(Seq::<char>::empty()) == 0);
        assert(spec_digit_val(spec_digit_char(n)) == n);
        assert(spec_udec_val(seq![spec_digit_char(n)]) == n);
    } else {
        lemma_udec_val(n / 10);
        let s = spec_udec(n / 10).push(spec_digit_char(n % 10));
        assert(s.drop_last() =~= spec_udec(n / 10));
        assert(spec_udec_val(s) == (n / 10) * 10 + n % 10);
    }
}

/// A digit string denotes at least what any of its prefixes denotes.
pub proof fn lemma_udec_val_prefix(s: Seq<char>, i: int)
    requires
        0 <= i <= s.len(),
    ensures
        spec_udec_val(s.take(i)) <= spec_udec_val(s),
    decreases s.len() - i,
{
    if i == s.len() {
        assert(s.take(i) =~= s);
    } else {
        lemma_udec_val_prefix(s.drop_last(), i);
        assert(s.take(i) =~= s.drop_last().take(i));
        assert(spec_udec_val(s) == spec_udec_val(s.drop_last()) * 10 + spec_digit_val(s.last()));
    }
}

/// A notation admitted for `[min, max]` denotes a value of `[min, max]`.
pub proof fn lemma_idec_val_bounds(s: Seq<char>, min: int, max: int)
    requires
        spec_idec_ok(s, min, max),
        min <= 0,
        0 <= max,
    ensures
        min <= spec_idec_val(s) <= max,
{
}

/// A notation admitted for a range is admitted for any wider range.
pub proof fn lemma_idec_ok_widen(s: Seq<char>, min: int, max: int, min2: int, max2: int)
    requires
        spec_idec_ok(s, min, max),
        min2 <= min <= 0,
        0 <= max <= max2,
    ensures
        spec_idec_ok(s, min2, max2),
{
}

/// Rendering an integer of `[min, max]` yields a notation that is admitted
/// for `[min, max]` and reads back as the same integer.
pub proof fn lemma_idec_round_trip(v: int, min: int, max: int)
    requires
        min <= v <= max,
        min <= 0,
        0 <= max,
    ensures
        spec_idec_ok(spec_idec(v), min, max),
        spec_idec_val(spec_idec(v)) == v,
{
    if v < 0 {
        let mag = (-v) as nat;
        lemma_udec_digits(mag);
        lemma_udec_val(mag);
        let s = seq!['-'] + spec_udec(mag);
        assert(s[0] == '-');
        assert(s.skip(1) =~= spec_udec(mag));
    } else {
        lemma_udec_digits(v as nat);
        lemma_udec_val(v as nat);
        let s = spec_udec(v as nat);
        assert(spec_is_digit(s[0]));
        assert(s[0] != '-');
    }
}

/// The one-character string that writes the digit `d`.
pub fn digit_to_str(d: u8) -> (r: &'static str)
    requires
        d < 10,
    ensures
        r@ == seq![spec_digit_char(d as nat)],
{
    proof {
        reveal_strlit("0");
        reveal_strlit("1");
        reveal_strlit("2");
        reveal_strlit("3");
        reveal_strlit("4");
        reveal_strlit("5");
        reveal_strlit("6");
        reveal_strlit("7");
        reveal_strlit("8");
        reveal_strlit("9");
    }
    let r = match d {
        0 => "0",
        1 => "1",
        2 => "2",
        3 => "3",
        4 => "4",
        5 => "5",
        6 => "6",
        7 => "7",
        8 => "8",
        _ => "9",
    };
    proof {
        assert(r@ =~= seq![spec_digit_char(d as nat)]);
    }
    r
}

/// Whether `c` is a decimal digit.
pub fn is_digit(c: char) -> (b: bool)
    ensures
        b == spec_is_digit(c),
{
    match c {
        '0' | '1' | '2' | '3' | '4' | '5' | '6' | '7' | '8' | '9' => true,
        _ => false,
    }
}

/// The value of the digit `c`.
pub fn digit_val(c: char) -> (d: u8)
    requires
        spec_is_digit(c),
    ensures
        d == spec_digit_val(c),
        d < 10,
{
    match c {
        '0' => 0,
        '1' => 1,
        '2' => 2,
        '3' => 3,
        '4' => 4,
        '5' => 5,
        '6' => 6,
        '7' => 7,
        '8' => 8,
        _ => 9,
    }
}

/// Renders `n` in decimal.
pub fn u128_to_dec(n: u128) -> (r: String)
    ensures
        r@ == spec_udec(n as nat),
    decreases n,
{
    if n < 10 {
        digit_to_str(n as u8).to_owned()
    } else {
        let mut s = u128_to_dec(n / 10);
        s.append(digit_to_str((n % 10) as u8));
        proof {
            assert(s@ =~= spec_udec(n as nat));
        }
        s
    }
}

/// Reads a digit string back as a number. The caller warrants that the
/// value fits, so no overflow can arise.
pub fn dec_to_u128(s: &str) -> (n: u128)
    requires
        spec_udec_ok(s@, u128::MAX as nat),
    ensures
        n as nat == spec_udec_val(s@),
{
    let len = s.unicode_len();
    let mut acc: u128 = 0;
    let mut i: usize = 0;
    while i < len
        invariant
            len == s@.len(),
            i <= len,
            spec_udec_ok(s@, u128::MAX as nat),
            acc as nat == spec_udec_val(s@.take(i as int)),
        decreases len - i,
    {
        let c = s.get_char(i);
        let d = digit_val(c);
        proof {
            assert(s@.take(i + 1).drop_last() =~= s@.take(i as int));
            lemma_udec_val_prefix(s@, i + 1);
            assert(spec_udec_val(s@.take(i + 1)) == acc * 10 + d);
        }
        acc = acc * 10 + d as u128;
        i += 1;
    }
    proof {
        assert(s@.take(len as int) =~= s@);
    }
    acc
}

/// Decides whether `s` is a digit string whose value is at most `max`,
/// without ever overflowing on oversized input.
pub fn dec_check(s: &str, max: u128) -> (b: bool)
    ensures
        b == spec_udec_ok(s@, max as nat),
{
    let len = s.unicode_len();
    if len == 0 {
        return false;
    }
    let mut acc: u128 = 0;
    let mut i: usize = 0;
    while i < len
        invariant
            len == s@.len(),
            0 < len,
            i <= len,
            spec_all_digits(s@.take(i as int)),
            acc as nat == spec_udec_val(s@.take(i as int)),
            acc <= max,
        decreases len - i,
    {
        let c = s.get_char(i);
        if !is_digit(c) {
            return false;
        }
        let d = digit_val(c);
        proof {
            assert(s@.take(i + 1).drop_last() =~= s@.take(i as int));
            assert(spec_all_digits(s@.take(i + 1)));
            assert(spec_udec_val(s@.take(i + 1)) == acc * 10 + d);
            if spec_all_digits(s@) {
                lemma_udec_val_prefix(s@, i + 1);
            }
        }
        let next = match acc.checked_mul(10) {
            Some(x) => x.checked_add(d as u128),
            None => None,
        };
        match next {
            Some(v) => {
                if v > max {
                    return false;
                }
                acc = v;
            },
            None => {
                return false;
            },
        }
        i += 1;
    }
    proof {
        assert(s@.take(len as int) =~= s@);
    }
    true
}

/// Renders the integer `v` in decimal, minus sign first when negative.
pub fn i128_to_dec(v: i128) -> (r: String)
    ensures
        r@ == spec_idec(v as int),
{
    proof {
        reveal_strlit("-");
    }
    if v >= 0 {
        u128_to_dec(v as u128)
    } else {
        let mag: u128 = ((-(v + 1)) as u128) + 1;
        let digits = u128_to_dec(mag);
        let mut s = "-".to_owned();
        s.append(digits.as_str());
        proof {
            assert(s@ =~= spec_idec(v as int));
        }
        s
    }
}

/// Reads a decimal integer, optionally signed. The caller warrants the
/// bounds of the 128-bit width.
pub fn dec_to_i128(s: &str) -> (n: i128)
    requires
        spec_idec_ok(s@, i128::MIN as int, i128::MAX as int),
    ensures
        n as int == spec_idec_val(s@),
{
    proof {
        reveal_strlit("-");
    }
    let len = s.unicode_len();
    if len > 0 && s.get_char(0) == '-' {
        let digits = s.substring_char(1, len);
        proof {
            assert(digits@ =~= s@.skip(1));
        }
        let mag = dec_to_u128(digits);
        if mag == 0 {
            0
        } else {
            -((mag - 1) as i128) - 1
        }
    } else {
        dec_to_u128(s) as i128
    }
}

/// Decides whether `s` denotes an integer of `[-(min_mag), max]`, where
/// `min_mag` is the magnitude of the lower bound.
pub fn dec_check_signed(s: &str, min_mag: u128, max: u128) -> (b: bool)
    ensures
        b == spec_idec_ok(s@, -(min_mag as int), max as int),
{
    proof {
        reveal_strlit("-");
    }
    let len = s.unicode_len();
    if len > 0 && s.get_char(0) == '-' {
        let digits = s.substring_char(1, len);
        proof {
            assert(digits@ =~= s@.skip(1));
        }
        dec_check(digits, min_mag)
    } else {
        dec_check(s, max)
    }
}

} // verus!
