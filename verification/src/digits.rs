//! Decimal rendering of the interval value, and the spec-level meaning of
//! digit strings, shared by the worker argument derivation and the
//! configuration codec.

use vstd::prelude::*;
use vstd::string::StringExecFns;

verus! {

/// The character for a single decimal digit.
pub open spec fn digit_char(d: nat) -> char {
    ((48 + d) as u8) as char
}

/// Whether a character is a decimal digit.
pub open spec fn is_digit(c: char) -> bool {
    48 <= c as int <= 57
}

/// The numeric value of a digit character.
pub open spec fn digit_val(c: char) -> nat {
    (c as int - 48) as nat
}

/// The canonical decimal rendering of a natural number: no sign, no
/// leading zeros (a single `'0'` for zero).
pub open spec fn spec_decimal(n: nat) -> Seq<char>
    decreases n,
{
    if n < 10 {
        seq![digit_char(n)]
    } else {
        spec_decimal(n / 10).push(digit_char(n % 10))
    }
}

/// The number denoted by a sequence of digit characters, most significant
/// first.
pub open spec fn decimal_val(s: Seq<char>) -> nat
    decreases s.len(),
{
    if s.len() == 0 {
        0
    } else {
        decimal_val(s.drop_last()) * 10 + digit_val(s.last())
    }
}

/// Whether every character of the sequence is a decimal digit.
pub open spec fn all_digits(s: Seq<char>) -> bool {
    forall|i: int| 0 <= i < s.len() ==> is_digit(s[i])
}

/// The canonical decimal rendering consists of digits and denotes the
/// number it was made from.
pub proof fn lemma_spec_decimal_val(n: nat)
    ensures
        spec_decimal(n).len() >= 1,
        all_digits(spec_decimal(n)),
        decimal_val(spec_decimal(n)) == n,
    decreases n,
{
    if n < 10 {
        let s = spec_decimal(n);
        assert(s =~= seq![digit_char(n)]);
        assert(s.drop_last() =~= Seq::<char>::empty());
        assert(decimal_val(Seq::<char>::empty()) == 0);
        assert(decimal_val(s) == decimal_val(s.drop_last()) * 10 + digit_val(s.last()));
        assert(digit_val(digit_char(n)) == n);
    } else {
        lemma_spec_decimal_val(n / 10);
        let prefix = spec_decimal(n / 10);
        let whole = spec_decimal(n);
        assert(whole =~= prefix.push(digit_char(n % 10)));
        assert(whole.drop_last() =~= prefix);
        assert(whole.last() == digit_char(n % 10));
        assert(decimal_val(whole) == decimal_val(prefix) * 10 + digit_val(digit_char(n % 10)));
        assert(digit_val(digit_char(n % 10)) == n % 10);
        assert(forall|i: int| 0 <= i < whole.len() ==> is_digit(#[trigger] whole[i])) by {
            assert(forall|i: int| 0 <= i < prefix.len() ==> whole[i] == prefix[i]);
        }
    }
}

/// A longer run of digits denotes at least as large a number: appending
/// one digit multiplies the value by ten and adds the digit.
pub proof fn lemma_decimal_val_push(s: Seq<char>, c: char)
    ensures
        decimal_val(s.push(c)) == decimal_val(s) * 10 + digit_val(c),
{
    assert(s.push(c).drop_last() =~= s);
    assert(s.push(c).last() == c);
}

/// Where the run of digit characters beginning at `i` ends: the first
/// position at or after `i` holding no digit, or the end of the text.
pub open spec fn digit_run_end(s: Seq<char>, i: int) -> int
    decreases s.len() - i when 0 <= i <= s.len()
{
    if i >= s.len() || !is_digit(s[i]) {
        i
    } else {
        digit_run_end(s, i + 1)
    }
}

/// The digit run's characterization: it spans digits only and stops at
/// the first non-digit or at the end.
pub proof fn lemma_digit_run_end_props(s: Seq<char>, i: int)
    requires
        0 <= i <= s.len(),
    ensures
        i <= digit_run_end(s, i) <= s.len(),
        forall|k: int| i <= k < digit_run_end(s, i) ==> is_digit(s[k]),
        digit_run_end(s, i) < s.len() ==> !is_digit(s[digit_run_end(s, i)]),
    decreases s.len() - i,
{
    if i < s.len() && is_digit(s[i]) {
        lemma_digit_run_end_props(s, i + 1);
    }
}

/// Any position that spans digits only and stops at a non-digit or the
/// end is the digit run's end.
pub proof fn lemma_digit_run_end_unique(s: Seq<char>, i: int, e: int)
    requires
        0 <= i <= e <= s.len(),
        forall|k: int| i <= k < e ==> is_digit(s[k]),
        e < s.len() ==> !is_digit(s[e]),
    ensures
        digit_run_end(s, i) == e,
    decreases e - i,
{
    if i < e {
        lemma_digit_run_end_unique(s, i + 1, e);
    }
}

/// A run of digits read further denotes at least as much: its value only
/// grows as digits are appended.
pub proof fn lemma_decimal_val_monotone(s: Seq<char>, a: int, b: int, c: int)
    requires
        0 <= a <= b <= c <= s.len(),
    ensures
        decimal_val(s.subrange(a, b)) <= decimal_val(s.subrange(a, c)),
    decreases c - b,
{
    if b < c {
        assert(s.subrange(a, b + 1) =~= s.subrange(a, b).push(s[b]));
        lemma_decimal_val_push(s.subrange(a, b), s[b]);
        lemma_decimal_val_monotone(s, a, b + 1, c);
    }
}

/// The canonical rendering of a positive number never begins with a zero.
pub proof fn lemma_spec_decimal_no_leading_zero(n: nat)
    ensures
        spec_decimal(n).len() > 1 ==> spec_decimal(n)[0] != '0',
        n >= 1 ==> spec_decimal(n)[0] != '0',
    decreases n,
{
    if n < 10 {
        assert(spec_decimal(n) =~= seq![digit_char(n)]);
    } else {
        lemma_spec_decimal_no_leading_zero(n / 10);
        lemma_spec_decimal_val(n / 10);
        assert(spec_decimal(n)[0] == spec_decimal(n / 10)[0]);
        assert(n / 10 >= 1);
    }
}

/// A digit string without a leading zero is the canonical rendering of
/// the number it denotes.
pub proof fn lemma_decimal_canonical(s: Seq<char>)
    requires
        s.len() >= 1,
        all_digits(s),
        s.len() > 1 ==> s[0] != '0',
    ensures
        spec_decimal(decimal_val(s)) == s,
    decreases s.len(),
{
    if s.len() == 1 {
        assert(s.drop_last() =~= Seq::<char>::empty());
        assert(decimal_val(Seq::<char>::empty()) == 0);
        assert(decimal_val(s) == digit_val(s[0]));
        assert(is_digit(s[0]));
        assert(spec_decimal(decimal_val(s)) =~= seq![digit_char(digit_val(s[0]))]);
        assert(digit_char(digit_val(s[0])) == s[0]);
        assert(spec_decimal(decimal_val(s)) =~= s);
    } else {
        let p = s.drop_last();
        let c = s.last();
        assert(all_digits(p)) by {
            assert(forall|k: int| 0 <= k < p.len() ==> p[k] == s[k]);
        }
        assert(p[0] == s[0]);
        lemma_decimal_canonical(p);
        // the prefix denotes at least one: its first digit is not zero
        assert(decimal_val(p) >= 1) by {
            assert(p.subrange(0, 1) =~= seq![p[0]]);
            assert(seq![p[0]].drop_last() =~= Seq::<char>::empty());
            assert(decimal_val(Seq::<char>::empty()) == 0);
            assert(decimal_val(seq![p[0]]) == digit_val(p[0]));
            assert(is_digit(p[0]) && p[0] != '0');
            assert(digit_val(p[0]) >= 1);
            assert(p.subrange(0, p.len() as int) =~= p);
            lemma_decimal_val_monotone(p, 0, 1, p.len() as int);
        }
        let v = decimal_val(s);
        assert(v == decimal_val(p) * 10 + digit_val(c));
        assert(is_digit(c) && digit_val(c) < 10);
        assert(v / 10 == decimal_val(p) && v % 10 == digit_val(c));
        assert(v >= 10);
        assert(spec_decimal(v) == spec_decimal(v / 10).push(digit_char(v % 10)));
        assert(digit_char(digit_val(c)) == c);
        assert(spec_decimal(v) =~= s);
    }
}

/// A single digit as a string slice.
fn digit_str(d: u32) -> (s: &'static str)
    requires
        d < 10,
    ensures
        s@ =~= seq![digit_char(d as nat)],
{
    proof {
        reveal_strlit("0");
        reveal_strlit("1");
        reveal_strlit("2");
        reveal_strlit("3");
        reveal_strlit("4");
        reveal_strlit("5");
        reveal_strlit("6");
        reveal_strlit("7");
        reveal_strlit("8");
        reveal_strlit("9");
    }
    match d {
        0 => "0",
        1 => "1",
        2 => "2",
        3 => "3",
        4 => "4",
        5 => "5",
        6 => "6",
        7 => "7",
        8 => "8",
        _ => "9",
    }
}

/// Render a number as its canonical decimal string.
pub fn decimal_string(n: u32) -> (s: String)
    ensures
        s@ == spec_decimal(n as nat),
    decreases n,
{
    if n < 10 {
        String::from_str(digit_str(n))
    } else {
        let prefix = decimal_string(n / 10);
        let s = prefix.concat(digit_str(n % 10));
        proof {
            assert(s@ =~= spec_decimal((n / 10) as nat).push(digit_char((n % 10) as nat)));
        }
        s
    }
}

} // verus!
