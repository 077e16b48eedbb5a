//! The configuration store's codec: the persisted record is a single
//! structured document, rendered canonically and parsed strictly, so a
//! loaded record is exactly the one saved.  Reading and writing the
//! backing file is I/O and stays outside the library; absence of the
//! file is reported by handing `load_from` no contents.

use vstd::prelude::*;
use vstd::string::StringExecFns;
use vstd::string::StrSliceExecFns;
use crate::config::{Config, ConfigError};
use crate::digits::{
    all_digits, decimal_string, decimal_val, digit_run_end, is_digit, lemma_decimal_canonical,
    lemma_decimal_val_monotone, lemma_decimal_val_push, lemma_digit_run_end_props,
    lemma_digit_run_end_unique, lemma_spec_decimal_no_leading_zero, lemma_spec_decimal_val,
    spec_decimal,
};

verus! {

/// The rendering of one boolean field.
pub open spec fn spec_bool(b: bool) -> Seq<char> {
    if b {
        "true"@
    } else {
        "false"@
    }
}

/// The canonical text of a persisted configuration record: one document
/// holding the five fields in a fixed order, the interval in decimal and
/// the flags as `true` or `false`.
pub open spec fn spec_render(c: Config) -> Seq<char> {
    "{\"interval\":"@ + spec_decimal(c.interval as nat) + ",\"adaptive\":"@ + spec_bool(c.adaptive)
        + ",\"burst\":"@ + spec_bool(c.burst) + ",\"idle_check\":"@ + spec_bool(c.idle_check)
        + ",\"low_priority\":"@ + spec_bool(c.low_priority) + "}"@
}

/// The boolean keyword as a string slice.
fn bool_str(b: bool) -> (s: &'static str)
    ensures
        s@ == spec_bool(b),
{
    if b {
        "true"
    } else {
        "false"
    }
}

/// Render a configuration as the canonical text of its persisted record.
pub fn render_config(c: &Config) -> (s: String)
    ensures
        s@ == spec_render(*c),
{
    let mut s = String::from_str("{\"interval\":");
    s.append(decimal_string(c.interval).as_str());
    s.append(",\"adaptive\":");
    s.append(bool_str(c.adaptive));
    s.append(",\"burst\":");
    s.append(bool_str(c.burst));
    s.append(",\"idle_check\":");
    s.append(bool_str(c.idle_check));
    s.append(",\"low_priority\":");
    s.append(bool_str(c.low_priority));
    s.append("}");
    proof {
        assert(s@ =~= spec_render(*c));
    }
    s
}

/// Whether the text carries the expected literal at the position.
fn expect<'a>(s: &'a str, i: usize, lit: &'a str) -> (r: Option<usize>)
    requires
        i <= s@.len(),
    ensures
        r matches Some(j) ==> (j as int == i as int + lit@.len() && j <= s@.len()
            && s@.subrange(i as int, j as int) == lit@),
        r is None ==> !(i as int + lit@.len() <= s@.len() && s@.subrange(
            i as int,
            i as int + lit@.len(),
        ) == lit@),
{
    let sl = s.unicode_len();
    let ll = lit.unicode_len();
    if ll > sl - i {
        return None;
    }
    let mut k: usize = 0;
    while k < ll
        invariant
            k <= ll,
            i + ll <= sl,
            sl == s@.len(),
            ll == lit@.len(),
            forall|m: int| 0 <= m < k ==> s@[i + m] == lit@[m],
        decreases ll - k,
    {
        if s.get_char(i + k) != lit.get_char(k) {
            proof {
                assert(s@.subrange(i as int, i as int + lit@.len())[k as int] != lit@[k as int]);
            }
            return None;
        }
        k = k + 1;
    }
    proof {
        assert(s@.subrange(i as int, i as int + lit@.len()) =~= lit@);
    }
    Some(i + ll)
}

/// Read the decimal number beginning at the position: the maximal run of
/// digits there, refused when it is empty, carries a leading zero, or
/// denotes more than the interval type can hold.
fn scan_number(s: &str, i: usize) -> (r: Option<(u32, usize)>)
    requires
        i <= s@.len(),
    ensures
        ({
            let e = digit_run_end(s@, i as int);
            let run = s@.subrange(i as int, e);
            let ok = (i as int) < e && (e == i as int + 1 || s@[i as int] != '0') && decimal_val(
                run,
            ) <= u32::MAX;
            &&& ok ==> (r matches Some(p) && p.0 as nat == decimal_val(run) && p.1 as int == e)
            &&& !ok ==> r is None
        }),
{
    proof {
        lemma_digit_run_end_props(s@, i as int);
    }
    let ghost e = digit_run_end(s@, i as int);
    let len = s.unicode_len();
    let mut j: usize = i;
    let mut acc: u64 = 0;
    while j < len
        invariant
            i <= j <= len,
            len == s@.len(),
            i as int <= e <= len as int,
            e == digit_run_end(s@, i as int),
            forall|k: int| i <= k < e ==> is_digit(s@[k]),
            e < len ==> !is_digit(s@[e]),
            j as int <= e,
            acc as nat == decimal_val(s@.subrange(i as int, j as int)),
            acc <= u32::MAX as u64,
        ensures
            j as int == e,
            acc as nat == decimal_val(s@.subrange(i as int, j as int)),
            acc <= u32::MAX as u64,
            len == s@.len(),
            i <= j <= len,
        decreases len - j,
    {
        let ch = s.get_char(j);
        let u = ch as u32;
        if u < 48 || u > 57 {
            proof {
                assert(!is_digit(s@[j as int]));
                assert(j as int >= e);
            }
            break ;
        }
        proof {
            assert(is_digit(s@[j as int]));
            if j as int == e {
                assert(e < len as int);
                assert(!is_digit(s@[e]));
                assert(false);
            }
            assert((j as int) < e);
            assert(s@.subrange(i as int, j as int + 1) =~= s@.subrange(i as int, j as int).push(
                s@[j as int],
            ));
            lemma_decimal_val_push(s@.subrange(i as int, j as int), s@[j as int]);
        }
        let d = (u - 48) as u64;
        acc = acc * 10 + d;
        if acc > 0xFFFF_FFFF {
            proof {
                assert(decimal_val(s@.subrange(i as int, j as int + 1)) > u32::MAX);
                lemma_decimal_val_monotone(s@, i as int, j as int + 1, e);
                assert(decimal_val(s@.subrange(i as int, e)) > u32::MAX);
            }
            return None;
        }
        j = j + 1;
    }
    proof {
        assert(j as int == e);
    }
    if j == i {
        return None;
    }
    let first = s.get_char(i);
    if (first as u32) == 48 && j > i + 1 {
        return None;
    }
    Some((acc as u32, j))
}


/// The boolean keyword `b` stands complete at position `i` of the text.
spec fn bool_token_at(s: Seq<char>, i: int, b: bool) -> bool {
    &&& i + spec_bool(b).len() <= s.len()
    &&& s.subrange(i, i + spec_bool(b).len()) == spec_bool(b)
}

/// The boolean keyword `b` stands at position `i` of the text, and when
/// it is `false` the text there cannot be mistaken for `true`.
spec fn bool_at(s: Seq<char>, i: int, b: bool) -> bool {
    &&& 0 <= i
    &&& bool_token_at(s, i, b)
    &&& (!b ==> !bool_token_at(s, i, true))
}

/// Read the boolean keyword beginning at the position.
fn parse_bool(s: &str, i: usize) -> (r: Option<(bool, usize)>)
    requires
        i <= s@.len(),
    ensures
        ({
            let has_t = bool_token_at(s@, i as int, true);
            let has_f = bool_token_at(s@, i as int, false);
            &&& has_t ==> (r matches Some(p) && p.0 == true && p.1 as int == i as int + spec_bool(
                true,
            ).len())
            &&& !has_t && has_f ==> (r matches Some(p) && p.0 == false && p.1 as int == i as int
                + spec_bool(false).len())
            &&& !has_t && !has_f ==> r is None
        }),
{
    proof {
        reveal_strlit("true");
        reveal_strlit("false");
        assert("true"@.len() == 4 && "false"@.len() == 5);
    }
    if let Some(j) = expect(s, i, "true") {
        Some((true, j))
    } else if let Some(j) = expect(s, i, "false") {
        Some((false, j))
    } else {
        None
    }
}

/// Gluing two adjacent subrange agreements into one.
proof fn lemma_extend_prefix(s: Seq<char>, r: Seq<char>, a: int, b: int, c: int)
    requires
        0 <= a <= b <= c <= s.len(),
        c <= r.len(),
        s.subrange(a, b) == r.subrange(a, b),
        s.subrange(b, c) == r.subrange(b, c),
    ensures
        s.subrange(a, c) == r.subrange(a, c),
{
    assert(s.subrange(a, c) =~= s.subrange(a, b) + s.subrange(b, c));
    assert(r.subrange(a, c) =~= r.subrange(a, b) + r.subrange(b, c));
}

/// The segment layout of a rendered record: where each literal, the
/// interval's digits and each boolean keyword stand in the text.
proof fn lemma_render_segments(c: Config)
    ensures
        ({
            let d = spec_decimal(c.interval as nat);
            let b1 = spec_bool(c.adaptive);
            let b2 = spec_bool(c.burst);
            let b3 = spec_bool(c.idle_check);
            let b4 = spec_bool(c.low_priority);
            let r = spec_render(c);
            let p2 = 12 + d.len() as int;
            let p3 = p2 + 12;
            let p4 = p3 + b1.len() as int;
            let p5 = p4 + 9;
            let p6 = p5 + b2.len() as int;
            let p7 = p6 + 14;
            let p8 = p7 + b3.len() as int;
            let p9 = p8 + 16;
            let p10 = p9 + b4.len() as int;
            let p11 = p10 + 1;
            &&& r.len() == p11
            &&& r.subrange(0, 12) == "{\"interval\":"@
            &&& r.subrange(12, p2) == d
            &&& r.subrange(p2, p3) == ",\"adaptive\":"@
            &&& r.subrange(p3, p4) == b1
            &&& r.subrange(p4, p5) == ",\"burst\":"@
            &&& r.subrange(p5, p6) == b2
            &&& r.subrange(p6, p7) == ",\"idle_check\":"@
            &&& r.subrange(p7, p8) == b3
            &&& r.subrange(p8, p9) == ",\"low_priority\":"@
            &&& r.subrange(p9, p10) == b4
            &&& r.subrange(p10, p11) == "}"@
        }),
{
    reveal_strlit("{\"interval\":");
    reveal_strlit(",\"adaptive\":");
    reveal_strlit(",\"burst\":");
    reveal_strlit(",\"idle_check\":");
    reveal_strlit(",\"low_priority\":");
    reveal_strlit("}");
    reveal_strlit("true");
    reveal_strlit("false");
    assert("{\"interval\":"@.len() == 12);
    assert(",\"adaptive\":"@.len() == 12);
    assert(",\"burst\":"@.len() == 9);
    assert(",\"idle_check\":"@.len() == 14);
    assert(",\"low_priority\":"@.len() == 16);
    assert("}"@.len() == 1);
    assert("true"@.len() == 4 && "false"@.len() == 5);
    let d = spec_decimal(c.interval as nat);
    let b1 = spec_bool(c.adaptive);
    let b2 = spec_bool(c.burst);
    let b3 = spec_bool(c.idle_check);
    let b4 = spec_bool(c.low_priority);
    let r = spec_render(c);
    let p2 = 12 + d.len() as int;
    let p3 = p2 + 12;
    let p4 = p3 + b1.len() as int;
    let p5 = p4 + 9;
    let p6 = p5 + b2.len() as int;
    let p7 = p6 + 14;
    let p8 = p7 + b3.len() as int;
    let p9 = p8 + 16;
    let p10 = p9 + b4.len() as int;
    let p11 = p10 + 1;
    assert(r.len() == p11);
    assert(r.subrange(0, 12) =~= "{\"interval\":"@);
    assert(r.subrange(12, p2) =~= d);
    assert(r.subrange(p2, p3) =~= ",\"adaptive\":"@);
    assert(r.subrange(p3, p4) =~= b1);
    assert(r.subrange(p4, p5) =~= ",\"burst\":"@);
    assert(r.subrange(p5, p6) =~= b2);
    assert(r.subrange(p6, p7) =~= ",\"idle_check\":"@);
    assert(r.subrange(p7, p8) =~= b3);
    assert(r.subrange(p8, p9) =~= ",\"low_priority\":"@);
    assert(r.subrange(p9, p10) =~= b4);
    assert(r.subrange(p10, p11) =~= "}"@);
}

/// On the rendering of a valid configuration, every step of the strict
/// parse is determined: each literal matches at its position, the digit
/// run is exactly the interval's rendering, and each boolean keyword is
/// the field's value.
proof fn lemma_steps_determined(s: Seq<char>, c: Config)
    requires
        c.valid(),
        s == spec_render(c),
    ensures
        ({
            let d = spec_decimal(c.interval as nat);
            let p2 = 12 + d.len() as int;
            let p3 = p2 + 12;
            let p4 = p3 + spec_bool(c.adaptive).len() as int;
            let p5 = p4 + 9;
            let p6 = p5 + spec_bool(c.burst).len() as int;
            let p7 = p6 + 14;
            let p8 = p7 + spec_bool(c.idle_check).len() as int;
            let p9 = p8 + 16;
            let p10 = p9 + spec_bool(c.low_priority).len() as int;
            let p11 = p10 + 1;
            &&& 12 <= s.len() && s.subrange(0, 12) == "{\"interval\":"@
            &&& digit_run_end(s, 12) == p2
            &&& 12 < p2 && (p2 == 13 || s[12] != '0')
            &&& decimal_val(s.subrange(12, p2)) == c.interval
            &&& p3 <= s.len() && s.subrange(p2, p3) == ",\"adaptive\":"@
            &&& bool_at(s, p3, c.adaptive)
            &&& p5 <= s.len() && s.subrange(p4, p5) == ",\"burst\":"@
            &&& bool_at(s, p5, c.burst)
            &&& p7 <= s.len() && s.subrange(p6, p7) == ",\"idle_check\":"@
            &&& bool_at(s, p7, c.idle_check)
            &&& p9 <= s.len() && s.subrange(p8, p9) == ",\"low_priority\":"@
            &&& bool_at(s, p9, c.low_priority)
            &&& p10 + 1 <= s.len() && s.subrange(p10, p11) == "}"@
            &&& s.len() == p11
        }),
{
    reveal_strlit(",\"adaptive\":");
    reveal_strlit("true");
    reveal_strlit("false");
    lemma_render_segments(c);
    let d = spec_decimal(c.interval as nat);
    let p2 = 12 + d.len() as int;
    lemma_spec_decimal_val(c.interval as nat);
    lemma_spec_decimal_no_leading_zero(c.interval as nat);
    assert(s[12] == d[0]);
    assert(forall|k: int| 12 <= k < p2 ==> is_digit(s[k])) by {
        assert(forall|k: int| 12 <= k < p2 ==> s[k] == d[k - 12]);
        assert(all_digits(d));
    }
    assert(s[p2] == ","@[0] || s[p2] == s.subrange(p2, p2 + 12)[0]);
    assert(s[p2] == ',') by {
        assert(s.subrange(p2, p2 + 12)[0] == ',');
    }
    assert(!is_digit(',' ));
    lemma_digit_run_end_unique(s, 12, p2);
    let p3 = p2 + 12;
    let p4 = p3 + spec_bool(c.adaptive).len() as int;
    let p5 = p4 + 9;
    let p6 = p5 + spec_bool(c.burst).len() as int;
    let p7 = p6 + 14;
    let p8 = p7 + spec_bool(c.idle_check).len() as int;
    let p9 = p8 + 16;
    let p10 = p9 + spec_bool(c.low_priority).len() as int;
    if !c.adaptive {
        assert(s.subrange(p3, p4)[0] == 'f');
        if p3 + 4 <= s.len() && s.subrange(p3, p3 + 4) == "true"@ {
            assert(s[p3] == 't' && s[p3] == 'f');
        }
    }
    if !c.burst {
        assert(s.subrange(p5, p6)[0] == 'f');
        if p5 + 4 <= s.len() && s.subrange(p5, p5 + 4) == "true"@ {
            assert(s[p5] == 't' && s[p5] == 'f');
        }
    }
    if !c.idle_check {
        assert(s.subrange(p7, p8)[0] == 'f');
        if p7 + 4 <= s.len() && s.subrange(p7, p7 + 4) == "true"@ {
            assert(s[p7] == 't' && s[p7] == 'f');
        }
    }
    if !c.low_priority {
        assert(s.subrange(p9, p10)[0] == 'f');
        if p9 + 4 <= s.len() && s.subrange(p9, p9 + 4) == "true"@ {
            assert(s[p9] == 't' && s[p9] == 'f');
        }
    }
}

/// A text carrying every segment of a record, in order and exactly
/// covering it, is that record's rendering.
proof fn lemma_assembled(
    s: Seq<char>,
    cfg: Config,
    j2: int,
    j3: int,
    j4: int,
    j5: int,
    j6: int,
    j7: int,
    j8: int,
    j9: int,
    j10: int,
    j11: int,
)
    requires
        0 <= 12 <= j2 <= j3 <= j4 <= j5 <= j6 <= j7 <= j8 <= j9 <= j10 <= j11,
        j11 == s.len(),
        s.subrange(0, 12) == "{\"interval\":"@,
        s.subrange(12, j2) == spec_decimal(cfg.interval as nat),
        s.subrange(j2, j3) == ",\"adaptive\":"@,
        s.subrange(j3, j4) == spec_bool(cfg.adaptive),
        s.subrange(j4, j5) == ",\"burst\":"@,
        s.subrange(j5, j6) == spec_bool(cfg.burst),
        s.subrange(j6, j7) == ",\"idle_check\":"@,
        s.subrange(j7, j8) == spec_bool(cfg.idle_check),
        s.subrange(j8, j9) == ",\"low_priority\":"@,
        s.subrange(j9, j10) == spec_bool(cfg.low_priority),
        s.subrange(j10, j11) == "}"@,
    ensures
        s == spec_render(cfg),
{
    lemma_render_segments(cfg);
    let r = spec_render(cfg);
    lemma_extend_prefix(s, r, 0, 12, j2);
    lemma_extend_prefix(s, r, 0, j2, j3);
    lemma_extend_prefix(s, r, 0, j3, j4);
    lemma_extend_prefix(s, r, 0, j4, j5);
    lemma_extend_prefix(s, r, 0, j5, j6);
    lemma_extend_prefix(s, r, 0, j6, j7);
    lemma_extend_prefix(s, r, 0, j7, j8);
    lemma_extend_prefix(s, r, 0, j8, j9);
    lemma_extend_prefix(s, r, 0, j9, j10);
    lemma_extend_prefix(s, r, 0, j10, j11);
    assert(s =~= s.subrange(0, j11));
    assert(r =~= r.subrange(0, j11));
}

/// Two valid configurations with the same rendering are the same: the
/// rendering is injective.
proof fn lemma_render_injective(c1: Config, c2: Config)
    requires
        c1.valid(),
        c2.valid(),
        spec_render(c1) == spec_render(c2),
    ensures
        c1 == c2,
{
    let s = spec_render(c1);
    lemma_steps_determined(s, c1);
    lemma_steps_determined(s, c2);
    lemma_spec_decimal_val(c1.interval as nat);
    lemma_spec_decimal_val(c2.interval as nat);
    reveal_strlit("true");
    reveal_strlit("false");
    assert("true"@.len() == 4 && "false"@.len() == 5);
    let q2 = digit_run_end(s, 12);
    assert(c1.interval == decimal_val(s.subrange(12, q2)));
    assert(c1.interval == c2.interval);
    let p3 = q2 + 12;
    if c1.adaptive != c2.adaptive {
        assert(s.subrange(p3, p3 + 4) == "true"@);
        assert(bool_at(s, p3, false));
    }
    assert(c1.adaptive == c2.adaptive);
    let p5 = p3 + spec_bool(c1.adaptive).len() as int + 9;
    if c1.burst != c2.burst {
        assert(s.subrange(p5, p5 + 4) == "true"@);
        assert(bool_at(s, p5, false));
    }
    assert(c1.burst == c2.burst);
    let p7 = p5 + spec_bool(c1.burst).len() as int + 14;
    if c1.idle_check != c2.idle_check {
        assert(s.subrange(p7, p7 + 4) == "true"@);
        assert(bool_at(s, p7, false));
    }
    assert(c1.idle_check == c2.idle_check);
    let p9 = p7 + spec_bool(c1.idle_check).len() as int + 16;
    if c1.low_priority != c2.low_priority {
        assert(s.subrange(p9, p9 + 4) == "true"@);
        assert(bool_at(s, p9, false));
    }
    assert(c1.low_priority == c2.low_priority);
}


/// The lengths of the record's fixed literals and keywords.
proof fn lemma_literal_lengths()
    ensures
        "{\"interval\":"@.len() == 12,
        ",\"adaptive\":"@.len() == 12,
        ",\"burst\":"@.len() == 9,
        ",\"idle_check\":"@.len() == 14,
        ",\"low_priority\":"@.len() == 16,
        "}"@.len() == 1,
        "true"@.len() == 4,
        "false"@.len() == 5,
{
    reveal_strlit("{\"interval\":");
    reveal_strlit(",\"adaptive\":");
    reveal_strlit(",\"burst\":");
    reveal_strlit(",\"idle_check\":");
    reveal_strlit(",\"low_priority\":");
    reveal_strlit("}");
    reveal_strlit("true");
    reveal_strlit("false");
}

/// On the rendering of a valid configuration, the opening literal stands
/// at the start.
proof fn lemma_head_lit_at(s: Seq<char>, c: Config)
    requires
        c.valid(),
        s == spec_render(c),
    ensures
        0 + "{\"interval\":"@.len() as int <= s.len() && s.subrange(0, 0 + "{\"interval\":"@.len() as int) == "{\"interval\":"@,
{
    lemma_literal_lengths();
    lemma_steps_determined(s, c);
}

/// On the rendering of a valid configuration, an acceptable digit run
/// follows the opening literal and denotes the positive interval.
proof fn lemma_digits_at(s: Seq<char>, c: Config)
    requires
        c.valid(),
        s == spec_render(c),
    ensures
        ({
            let e = digit_run_end(s, 12);
            let run = s.subrange(12, e);
            12 < e && (e == 13 || s[12] != '0') && 1 <= decimal_val(run) <= u32::MAX
        }),
{
    lemma_literal_lengths();
    lemma_steps_determined(s, c);

    lemma_spec_decimal_val(c.interval as nat);
}

/// On the rendering of a valid configuration, the adaptive key literal
/// follows the digits.
proof fn lemma_adaptive_lit_at(s: Seq<char>, c: Config, j2: int)
    requires
        c.valid(),
        s == spec_render(c),
        j2 == digit_run_end(s, 12),
    ensures
        j2 + ",\"adaptive\":"@.len() <= s.len() && s.subrange(j2, j2 + ",\"adaptive\":"@.len()) == ",\"adaptive\":"@,
{
    lemma_literal_lengths();
    lemma_steps_determined(s, c);
}

/// On the rendering of a valid configuration, the adaptive value stands
/// after its key.
proof fn lemma_adaptive_val_at(s: Seq<char>, c: Config, j2: int, j3: int)
    requires
        c.valid(),
        s == spec_render(c),
        j2 == digit_run_end(s, 12),
        j3 == j2 + ",\"adaptive\":"@.len(),
    ensures
        bool_at(s, j3, c.adaptive),
{
    lemma_literal_lengths();
    lemma_steps_determined(s, c);
}

/// On the rendering of a valid configuration, the burst key literal
/// follows the adaptive value.
proof fn lemma_burst_lit_at(s: Seq<char>, c: Config, j2: int, j3: int, b1: bool, j4: int)
    requires
        c.valid(),
        s == spec_render(c),
        j2 == digit_run_end(s, 12),
        j3 == j2 + ",\"adaptive\":"@.len(),
        bool_at(s, j3, b1),
        j4 == j3 + spec_bool(b1).len(),
    ensures
        j4 + ",\"burst\":"@.len() <= s.len() && s.subrange(j4, j4 + ",\"burst\":"@.len()) == ",\"burst\":"@,
{
    lemma_literal_lengths();
    lemma_steps_determined(s, c);
}

/// On the rendering of a valid configuration, the burst value stands
/// after its key.
proof fn lemma_burst_val_at(s: Seq<char>, c: Config, j2: int, j3: int, b1: bool, j4: int, j5: int)
    requires
        c.valid(),
        s == spec_render(c),
        j2 == digit_run_end(s, 12),
        j3 == j2 + ",\"adaptive\":"@.len(),
        bool_at(s, j3, b1),
        j4 == j3 + spec_bool(b1).len(),
        j5 == j4 + ",\"burst\":"@.len(),
    ensures
        bool_at(s, j5, c.burst),
{
    lemma_literal_lengths();
    lemma_steps_determined(s, c);
}

/// On the rendering of a valid configuration, the idle-check key literal
/// follows the burst value.
proof fn lemma_idle_lit_at(s: Seq<char>, c: Config, j2: int, j3: int, b1: bool, j4: int, j5: int, b2: bool, j6: int)
    requires
        c.valid(),
        s == spec_render(c),
        j2 == digit_run_end(s, 12),
        j3 == j2 + ",\"adaptive\":"@.len(),
        bool_at(s, j3, b1),
        j4 == j3 + spec_bool(b1).len(),
        j5 == j4 + ",\"burst\":"@.len(),
        bool_at(s, j5, b2),
        j6 == j5 + spec_bool(b2).len(),
    ensures
        j6 + ",\"idle_check\":"@.len() <= s.len() && s.subrange(j6, j6 + ",\"idle_check\":"@.len()) == ",\"idle_check\":"@,
{
    lemma_literal_lengths();
    lemma_steps_determined(s, c);
}

/// On the rendering of a valid configuration, the idle-check value
/// stands after its key.
proof fn lemma_idle_val_at(s: Seq<char>, c: Config, j2: int, j3: int, b1: bool, j4: int, j5: int, b2: bool, j6: int, j7: int)
    requires
        c.valid(),
        s == spec_render(c),
        j2 == digit_run_end(s, 12),
        j3 == j2 + ",\"adaptive\":"@.len(),
        bool_at(s, j3, b1),
        j4 == j3 + spec_bool(b1).len(),
        j5 == j4 + ",\"burst\":"@.len(),
        bool_at(s, j5, b2),
        j6 == j5 + spec_bool(b2).len(),
        j7 == j6 + ",\"idle_check\":"@.len(),
    ensures
        bool_at(s, j7, c.idle_check),
{
    lemma_literal_lengths();
    lemma_steps_determined(s, c);
}

/// On the rendering of a valid configuration, the low-priority key
/// literal follows the idle-check value.
proof fn lemma_low_lit_at(s: Seq<char>, c: Config, j2: int, j3: int, b1: bool, j4: int, j5: int, b2: bool, j6: int, j7: int, b3: bool, j8: int)
    requires
        c.valid(),
        s == spec_render(c),
        j2 == digit_run_end(s, 12),
        j3 == j2 + ",\"adaptive\":"@.len(),
        bool_at(s, j3, b1),
        j4 == j3 + spec_bool(b1).len(),
        j5 == j4 + ",\"burst\":"@.len(),
        bool_at(s, j5, b2),
        j6 == j5 + spec_bool(b2).len(),
        j7 == j6 + ",\"idle_check\":"@.len(),
        bool_at(s, j7, b3),
        j8 == j7 + spec_bool(b3).len(),
    ensures
        j8 + ",\"low_priority\":"@.len() <= s.len() && s.subrange(j8, j8 + ",\"low_priority\":"@.len()) == ",\"low_priority\":"@,
{
    lemma_literal_lengths();
    lemma_steps_determined(s, c);
}

/// On the rendering of a valid configuration, the low-priority value
/// stands after its key.
proof fn lemma_low_val_at(s: Seq<char>, c: Config, j2: int, j3: int, b1: bool, j4: int, j5: int, b2: bool, j6: int, j7: int, b3: bool, j8: int, j9: int)
    requires
        c.valid(),
        s == spec_render(c),
        j2 == digit_run_end(s, 12),
        j3 == j2 + ",\"adaptive\":"@.len(),
        bool_at(s, j3, b1),
        j4 == j3 + spec_bool(b1).len(),
        j5 == j4 + ",\"burst\":"@.len(),
        bool_at(s, j5, b2),
        j6 == j5 + spec_bool(b2).len(),
        j7 == j6 + ",\"idle_check\":"@.len(),
        bool_at(s, j7, b3),
        j8 == j7 + spec_bool(b3).len(),
        j9 == j8 + ",\"low_priority\":"@.len(),
    ensures
        bool_at(s, j9, c.low_priority),
{
    lemma_literal_lengths();
    lemma_steps_determined(s, c);
}

/// On the rendering of a valid configuration, the closing brace follows
/// the low-priority value.
proof fn lemma_close_at(s: Seq<char>, c: Config, j2: int, j3: int, b1: bool, j4: int, j5: int, b2: bool, j6: int, j7: int, b3: bool, j8: int, j9: int, b4: bool, j10: int)
    requires
        c.valid(),
        s == spec_render(c),
        j2 == digit_run_end(s, 12),
        j3 == j2 + ",\"adaptive\":"@.len(),
        bool_at(s, j3, b1),
        j4 == j3 + spec_bool(b1).len(),
        j5 == j4 + ",\"burst\":"@.len(),
        bool_at(s, j5, b2),
        j6 == j5 + spec_bool(b2).len(),
        j7 == j6 + ",\"idle_check\":"@.len(),
        bool_at(s, j7, b3),
        j8 == j7 + spec_bool(b3).len(),
        j9 == j8 + ",\"low_priority\":"@.len(),
        bool_at(s, j9, b4),
        j10 == j9 + spec_bool(b4).len(),
    ensures
        j10 + "}"@.len() <= s.len() && s.subrange(j10, j10 + "}"@.len()) == "}"@,
{
    lemma_literal_lengths();
    lemma_steps_determined(s, c);
}

/// On the rendering of a valid configuration, the closing brace ends
/// the text.
proof fn lemma_end_at(s: Seq<char>, c: Config, j2: int, j3: int, b1: bool, j4: int, j5: int, b2: bool, j6: int, j7: int, b3: bool, j8: int, j9: int, b4: bool, j10: int, j11: int)
    requires
        c.valid(),
        s == spec_render(c),
        j2 == digit_run_end(s, 12),
        j3 == j2 + ",\"adaptive\":"@.len(),
        bool_at(s, j3, b1),
        j4 == j3 + spec_bool(b1).len(),
        j5 == j4 + ",\"burst\":"@.len(),
        bool_at(s, j5, b2),
        j6 == j5 + spec_bool(b2).len(),
        j7 == j6 + ",\"idle_check\":"@.len(),
        bool_at(s, j7, b3),
        j8 == j7 + spec_bool(b3).len(),
        j9 == j8 + ",\"low_priority\":"@.len(),
        bool_at(s, j9, b4),
        j10 == j9 + spec_bool(b4).len(),
        j11 == j10 + "}"@.len(),
    ensures
        j11 == s.len(),
{
    lemma_literal_lengths();
    lemma_steps_determined(s, c);
}

/// A fresh corruption error.
fn corrupt() -> (e: ConfigError)
    ensures
        e is ConfigCorrupt,
{
    ConfigError::ConfigCorrupt(String::from_str("not a valid configuration record"))
}

/// Parse the text of a persisted record.
///
/// Exactly the canonical rendering of a valid configuration is accepted,
/// and yields that configuration; any other text — present but
/// unparsable — is reported as corrupt.
#[verifier::rlimit(100)]
pub fn parse_config(s: &str) -> (r: Result<Config, ConfigError>)
    ensures
        r matches Ok(c) ==> c.valid() && s@ == spec_render(c),
        forall|c: Config| c.valid() && s@ == spec_render(c) ==> r == Ok::<Config, ConfigError>(c),
        r matches Err(e) ==> e is ConfigCorrupt,
{
    proof {
        lemma_literal_lengths();
    }
    let j1 = match expect(s, 0, "{\"interval\":") {
        Some(j) => j,
        None => {
            proof {
                assert forall|c: Config| !(c.valid() && s@ == spec_render(c)) by {
                    if c.valid() && s@ == spec_render(c) {
                        lemma_head_lit_at(s@, c);
                    }
                }
            }
            return Err(corrupt());
        },
    };
    proof {
        lemma_digit_run_end_props(s@, j1 as int);
    }
    let (v, j2) = match scan_number(s, j1) {
        Some(p) => p,
        None => {
            proof {
                assert forall|c: Config| !(c.valid() && s@ == spec_render(c)) by {
                    if c.valid() && s@ == spec_render(c) {
                        lemma_digits_at(s@, c);
                    }
                }
            }
            return Err(corrupt());
        },
    };
    if v == 0 {
        proof {
            assert forall|c: Config| !(c.valid() && s@ == spec_render(c)) by {
                if c.valid() && s@ == spec_render(c) {
                    lemma_digits_at(s@, c);
                }
            }
        }
        return Err(corrupt());
    }
    proof {
        let run = s@.subrange(j1 as int, j2 as int);
        assert(all_digits(run)) by {
            assert(forall|k: int| j1 <= k < j2 ==> is_digit(s@[k]));
            assert(forall|k: int| 0 <= k < run.len() ==> run[k] == s@[j1 + k]);
        }
        assert(run.len() > 1 ==> run[0] != '0') by {
            assert(run[0] == s@[j1 as int]);
        }
        lemma_decimal_canonical(run);
        assert(run == spec_decimal(v as nat));
    }
    parse_fields(s, v, j2)
}

/// Parse the first two boolean fields of a record whose opening literal
/// and interval digits were already read.
#[verifier::rlimit(100)]
fn parse_fields(s: &str, v: u32, j2: usize) -> (r: Result<Config, ConfigError>)
    requires
        v >= 1,
        12 <= j2 <= s@.len(),
        s@.subrange(0, 12) == "{\"interval\":"@,
        s@.subrange(12, j2 as int) == spec_decimal(v as nat),
        j2 as int == digit_run_end(s@, 12),
    ensures
        r matches Ok(c) ==> c.valid() && s@ == spec_render(c),
        forall|c: Config| c.valid() && s@ == spec_render(c) ==> r == Ok::<Config, ConfigError>(c),
        r matches Err(e) ==> e is ConfigCorrupt,
{
    let j3 = match expect(s, j2, ",\"adaptive\":") {
        Some(j) => j,
        None => {
            proof {
                assert forall|c: Config| !(c.valid() && s@ == spec_render(c)) by {
                    if c.valid() && s@ == spec_render(c) {
                        lemma_adaptive_lit_at(s@, c, j2 as int);
                    }
                }
            }
            return Err(corrupt());
        },
    };
    let (b_adaptive, j4) = match parse_bool(s, j3) {
        Some(p) => p,
        None => {
            proof {
                assert forall|c: Config| !(c.valid() && s@ == spec_render(c)) by {
                    if c.valid() && s@ == spec_render(c) {
                        lemma_adaptive_val_at(s@, c, j2 as int, j3 as int);
                    }
                }
            }
            return Err(corrupt());
        },
    };
    let j5 = match expect(s, j4, ",\"burst\":") {
        Some(j) => j,
        None => {
            proof {
                assert forall|c: Config| !(c.valid() && s@ == spec_render(c)) by {
                    if c.valid() && s@ == spec_render(c) {
                        lemma_burst_lit_at(s@, c, j2 as int, j3 as int, b_adaptive, j4 as int);
                    }
                }
            }
            return Err(corrupt());
        },
    };
    let (b_burst, j6) = match parse_bool(s, j5) {
        Some(p) => p,
        None => {
            proof {
                assert forall|c: Config| !(c.valid() && s@ == spec_render(c)) by {
                    if c.valid() && s@ == spec_render(c) {
                        lemma_burst_val_at(s@, c, j2 as int, j3 as int, b_adaptive, j4 as int, j5 as int);
                    }
                }
            }
            return Err(corrupt());
        },
    };
    parse_trailing_fields(s, v, j2, j3, b_adaptive, j4, j5, b_burst, j6)
}

/// Parse the last two boolean fields and the closing brace of a record
/// whose first half was already read.
#[verifier::rlimit(100)]
fn parse_trailing_fields(
    s: &str,
    v: u32,
    j2: usize,
    j3: usize,
    b_adaptive: bool,
    j4: usize,
    j5: usize,
    b_burst: bool,
    j6: usize,
) -> (r: Result<Config, ConfigError>)
    requires
        v >= 1,
        12 <= j2 <= j3 <= j4 <= j5 <= j6 <= s@.len(),
        s@.subrange(0, 12) == "{\"interval\":"@,
        s@.subrange(12, j2 as int) == spec_decimal(v as nat),
        j2 as int == digit_run_end(s@, 12),
        s@.subrange(j2 as int, j3 as int) == ",\"adaptive\":"@,
        j3 as int == j2 as int + ",\"adaptive\":"@.len(),
        bool_at(s@, j3 as int, b_adaptive),
        j4 as int == j3 as int + spec_bool(b_adaptive).len(),
        s@.subrange(j4 as int, j5 as int) == ",\"burst\":"@,
        j5 as int == j4 as int + ",\"burst\":"@.len(),
        bool_at(s@, j5 as int, b_burst),
        j6 as int == j5 as int + spec_bool(b_burst).len(),
    ensures
        r matches Ok(c) ==> c.valid() && s@ == spec_render(c),
        forall|c: Config| c.valid() && s@ == spec_render(c) ==> r == Ok::<Config, ConfigError>(c),
        r matches Err(e) ==> e is ConfigCorrupt,
{
    let j7 = match expect(s, j6, ",\"idle_check\":") {
        Some(j) => j,
        None => {
            proof {
                assert forall|c: Config| !(c.valid() && s@ == spec_render(c)) by {
                    if c.valid() && s@ == spec_render(c) {
                        lemma_idle_lit_at(s@, c, j2 as int, j3 as int, b_adaptive, j4 as int, j5 as int, b_burst, j6 as int);
                    }
                }
            }
            return Err(corrupt());
        },
    };
    let (b_idle, j8) = match parse_bool(s, j7) {
        Some(p) => p,
        None => {
            proof {
                assert forall|c: Config| !(c.valid() && s@ == spec_render(c)) by {
                    if c.valid() && s@ == spec_render(c) {
                        lemma_idle_val_at(s@, c, j2 as int, j3 as int, b_adaptive, j4 as int, j5 as int, b_burst, j6 as int, j7 as int);
                    }
                }
            }
            return Err(corrupt());
        },
    };
    let j9 = match expect(s, j8, ",\"low_priority\":") {
        Some(j) => j,
        None => {
            proof {
                assert forall|c: Config| !(c.valid() && s@ == spec_render(c)) by {
                    if c.valid() && s@ == spec_render(c) {
                        lemma_low_lit_at(s@, c, j2 as int, j3 as int, b_adaptive, j4 as int, j5 as int, b_burst, j6 as int, j7 as int, b_idle, j8 as int);
                    }
                }
            }
            return Err(corrupt());
        },
    };
    let (b_low, j10) = match parse_bool(s, j9) {
        Some(p) => p,
        None => {
            proof {
                assert forall|c: Config| !(c.valid() && s@ == spec_render(c)) by {
                    if c.valid() && s@ == spec_render(c) {
                        lemma_low_val_at(s@, c, j2 as int, j3 as int, b_adaptive, j4 as int, j5 as int, b_burst, j6 as int, j7 as int, b_idle, j8 as int, j9 as int);
                    }
                }
            }
            return Err(corrupt());
        },
    };
    let j11 = match expect(s, j10, "}") {
        Some(j) => j,
        None => {
            proof {
                assert forall|c: Config| !(c.valid() && s@ == spec_render(c)) by {
                    if c.valid() && s@ == spec_render(c) {
                        lemma_close_at(s@, c, j2 as int, j3 as int, b_adaptive, j4 as int, j5 as int, b_burst, j6 as int, j7 as int, b_idle, j8 as int, j9 as int, b_low, j10 as int);
                    }
                }
            }
            return Err(corrupt());
        },
    };
    let n = s.unicode_len();
    if j11 != n {
        proof {
            assert forall|c: Config| !(c.valid() && s@ == spec_render(c)) by {
                if c.valid() && s@ == spec_render(c) {
                    lemma_end_at(
                        s@,
                        c,
                        j2 as int,
                        j3 as int,
                        b_adaptive,
                        j4 as int,
                        j5 as int,
                        b_burst,
                        j6 as int,
                        j7 as int,
                        b_idle,
                        j8 as int,
                        j9 as int,
                        b_low,
                        j10 as int,
                        j11 as int,
                    );
                }
            }
        }
        return Err(corrupt());
    }
    let cfg = Config {
        interval: v,
        adaptive: b_adaptive,
        burst: b_burst,
        idle_check: b_idle,
        low_priority: b_low,
    };
    proof {
        lemma_assembled(
            s@,
            cfg,
            j2 as int,
            j3 as int,
            j4 as int,
            j5 as int,
            j6 as int,
            j7 as int,
            j8 as int,
            j9 as int,
            j10 as int,
            j11 as int,
        );
        assert forall|c: Config| c.valid() && s@ == spec_render(c) implies Ok::<
            Config,
            ConfigError,
        >(cfg) == Ok::<Config, ConfigError>(c) by {
            lemma_render_injective(cfg, c);
        }
    }
    Ok(cfg)
}

/// The fixed file name of the persisted record, under the user's home
/// directory.
pub fn config_file_name() -> (s: &'static str)
    ensures
        s@ == ".green-dot-config.json"@,
{
    ".green-dot-config.json"
}

/// Interpret what was found at the backing location: an absent record
/// yields the defaults without error, a present one is parsed strictly.
pub fn load_from(contents: Option<&str>) -> (r: Result<Config, ConfigError>)
    ensures
        contents is None ==> r == Ok::<Config, ConfigError>(
            Config {
                interval: 4,
                adaptive: true,
                burst: true,
                idle_check: true,
                low_priority: true,
            },
        ),
        contents matches Some(s) ==> {
            &&& r matches Ok(c) ==> c.valid() && s@ == spec_render(c)
            &&& (forall|c: Config| c.valid() && s@ == spec_render(c) ==> r == Ok::<
                Config,
                ConfigError,
            >(c))
            &&& r matches Err(e) ==> e is ConfigCorrupt
        },
{
    match contents {
        None => Ok(Config::default()),
        Some(s) => parse_config(s),
    }
}

} // verus!
