//! Locale-tolerant numeric parsing.
//!
//! Values on the scraped pages mix two conventions: `1.234,56` (dot as
//! thousands separator, comma as decimal point) and `1,234` / `12.34`
//! (comma as thousands separator).  The convention is decided by whether
//! the text matches the pattern `digits{1,3} (dot? digits{3})* (comma
//! digits+)?`; matching text is read the Italian way, anything else has
//! its commas stripped.  Results are exact scaled decimals, never
//! floats: a value is present exactly when the text denotes one that a
//! `u64` unscaled part and a `u32` scale represent without rounding.

use vstd::prelude::*;
use crate::text::{
    is_digit, digit_val, spec_trim, strip_one_prefix, strip_one_suffix, find_char, str_chars, trim,
    strip_prefix_char, strip_suffix_char, check_digit_char, copy_range, find_first_char,
};

verus! {

/// An exact decimal number: `(-1)^negative * unscaled / 10^scale`.
#[derive(Debug, Clone, Copy, PartialEq, Eq, Structural)]
pub struct Decimal {
    pub negative: bool,
    pub unscaled: u64,
    pub scale: u32,
}

impl Decimal {
    pub fn new(negative: bool, unscaled: u64, scale: u32) -> (r: Decimal)
        ensures
            r == (Decimal { negative, unscaled, scale }),
    {
        Decimal { negative, unscaled, scale }
    }
}

/// `s` with every occurrence of `c` removed.
pub open spec fn remove_char(s: Seq<char>, c: char) -> Seq<char>
    decreases s.len(),
{
    if s.len() == 0 {
        Seq::empty()
    } else {
        let rest = remove_char(s.drop_last(), c);
        if s.last() == c {
            rest
        } else {
            rest.push(s.last())
        }
    }
}

/// `s` with every occurrence of `from` replaced by `to`.
pub open spec fn swap_char(s: Seq<char>, from: char, to: char) -> Seq<char> {
    s.map_values(
        |c: char|
            if c == from {
                to
            } else {
                c
            },
    )
}

/// Removes every occurrence of `c`.
pub fn remove_char_exec(v: &Vec<char>, c: char) -> (r: Vec<char>)
    ensures
        r@ == remove_char(v@, c),
{
    let mut r: Vec<char> = Vec::new();
    let mut i: usize = 0;
    proof {
        assert(v@.take(0) =~= Seq::<char>::empty());
    }
    while i < v.len()
        invariant
            i <= v@.len(),
            r@ == remove_char(v@.take(i as int), c),
        decreases v@.len() - i,
    {
        proof {
            assert(v@.take(i + 1).drop_last() =~= v@.take(i as int));
            assert(v@.take(i + 1).last() == v@[i as int]);
        }
        if v[i] != c {
            r.push(v[i]);
        }
        i = i + 1;
    }
    proof {
        assert(v@.take(v@.len() as int) =~= v@);
    }
    r
}

/// Replaces every occurrence of `from` by `to`.
pub fn swap_char_exec(v: &Vec<char>, from: char, to: char) -> (r: Vec<char>)
    ensures
        r@ == swap_char(v@, from, to),
{
    let mut r: Vec<char> = Vec::new();
    let mut i: usize = 0;
    while i < v.len()
        invariant
            i <= v@.len(),
            r@.len() == i,
            forall|k: int| 0 <= k < i ==> r@[k] == (if v@[k] == from {
                to
            } else {
                v@[k]
            }),
        decreases v@.len() - i,
    {
        if v[i] == from {
            r.push(to);
        } else {
            r.push(v[i]);
        }
        i = i + 1;
    }
    proof {
        assert(r@ =~= swap_char(v@, from, to));
    }
    r
}

/// Scans the dot-and-digit part of the thousands pattern from index `i`,
/// with `run` digits seen since the last dot and `first` while still in
/// the leading run: the leading run needs one digit or more, every
/// dot-separated run after it a positive multiple of three digits.
pub open spec fn head_ok_from(s: Seq<char>, i: int, run: int, first: bool) -> bool
    decreases s.len() - i,
{
    if i >= s.len() {
        run >= 1 && (first || run % 3 == 0)
    } else if s[i] == '.' {
        run >= 1 && (first || run % 3 == 0) && head_ok_from(s, i + 1, 0, false)
    } else if is_digit(s[i]) {
        head_ok_from(s, i + 1, run + 1, first)
    } else {
        false
    }
}

/// All characters of `s` from index `i` on are decimal digits.
pub open spec fn all_digits_from(s: Seq<char>, i: int) -> bool {
    forall|k: int| i <= k < s.len() ==> is_digit(s[k])
}

/// The text matches `^(\d{1,3})(\.?\d{3})*(,\d+)?$`: dots as thousands
/// separators, an optional comma-led fraction.
pub open spec fn spec_matches_thousands(s: Seq<char>) -> bool {
    match find_char(s, ',') {
        None => head_ok_from(s, 0, 0, true),
        Some(ci) => head_ok_from(s.subrange(0, ci), 0, 0, true) && ci + 1 < s.len()
            && all_digits_from(s, ci + 1),
    }
}

/// Checks the integer-part structure of the thousands pattern.
fn head_ok_exec(v: &Vec<char>) -> (r: bool)
    ensures
        r == head_ok_from(v@, 0, 0, true),
{
    let mut i: usize = 0;
    let mut run: usize = 0;
    let mut first: bool = true;
    while i < v.len()
        invariant
            i <= v@.len(),
            run <= i,
            head_ok_from(v@, 0, 0, true) == head_ok_from(v@, i as int, run as int, first),
        decreases v@.len() - i,
    {
        let c = v[i];
        if c == '.' {
            if !(run >= 1 && (first || run % 3 == 0)) {
                return false;
            }
            run = 0;
            first = false;
        } else if check_digit_char(c) {
            run = run + 1;
        } else {
            return false;
        }
        i = i + 1;
    }
    run >= 1 && (first || run % 3 == 0)
}

/// Decides the separator convention for `v`.
#[verifier::loop_isolation(false)]
pub fn matches_thousands(v: &Vec<char>) -> (r: bool)
    ensures
        r == spec_matches_thousands(v@),
{
    match find_first_char(v, ',') {
        None => head_ok_exec(v),
        Some(ci) => {
            let n = v.len();
            let head = copy_range(v, 0, ci);
            if !head_ok_exec(&head) {
                return false;
            }
            if ci + 1 >= n {
                return false;
            }
            let mut k: usize = ci + 1;
            while k < v.len()
                invariant
                    ci + 1 <= k <= v@.len(),
                    forall|t: int| ci + 1 <= t < k ==> is_digit(v@[t]),
                decreases v@.len() - k,
            {
                if !check_digit_char(v[k]) {
                    return false;
                }
                k = k + 1;
            }
            true
        },
    }
}

/// 10^n.
pub open spec fn pow10(n: nat) -> int
    decreases n,
{
    if n == 0 {
        1
    } else {
        10 * pow10((n - 1) as nat)
    }
}

pub proof fn lemma_pow10_pos(n: nat)
    ensures
        pow10(n) >= 1,
    decreases n,
{
    if n > 0 {
        lemma_pow10_pos((n - 1) as nat);
    }
}

pub proof fn lemma_pow10_mono(a: nat, b: nat)
    requires
        a <= b,
    ensures
        pow10(a) <= pow10(b),
    decreases b,
{
    if a < b {
        lemma_pow10_mono(a, (b - 1) as nat);
        lemma_pow10_pos((b - 1) as nat);
    }
}

/// Exponent digits, with the running mantissa and fraction count carried
/// through: the final net scale is `scale - exp` (or `scale + exp` for a
/// negative exponent).  Exponent values beyond 10^8 — far past anything a
/// finite number in the pipeline's range can use — are rejected.
pub open spec fn exp_scan(
    s: Seq<char>,
    i: int,
    acc: int,
    scale: int,
    neg: bool,
    exp: int,
    expdigits: int,
) -> Option<(int, int)>
    decreases s.len() - i,
{
    if i >= s.len() {
        if expdigits >= 1 {
            Some(
                (
                    acc,
                    if neg {
                        scale + exp
                    } else {
                        scale - exp
                    },
                ),
            )
        } else {
            None
        }
    } else if is_digit(s[i]) {
        let e2 = exp * 10 + digit_val(s[i]);
        if e2 > 100_000_000 {
            None
        } else {
            exp_scan(s, i + 1, acc, scale, neg, e2, expdigits + 1)
        }
    } else {
        None
    }
}

/// The optional sign in front of the exponent digits.
pub open spec fn exp_sign_scan(s: Seq<char>, i: int, acc: int, scale: int) -> Option<(int, int)> {
    if i < s.len() && (s[i] == '+' || s[i] == '-') {
        exp_scan(s, i + 1, acc, scale, s[i] == '-', 0, 0)
    } else {
        exp_scan(s, i, acc, scale, false, 0, 0)
    }
}

/// Value scan of a normalized numeric literal: a mantissa (`digits`,
/// `digits.digits`, `digits.`, or `.digits`) optionally followed by an
/// `e`/`E` exponent with an optional sign.  Yields the mantissa's digit
/// value and the net decimal scale, which an exponent may drive negative.
pub open spec fn dec_scan(
    s: Seq<char>,
    i: int,
    acc: int,
    scale: int,
    seen_dot: bool,
    digits: int,
) -> Option<(int, int)>
    decreases s.len() - i,
{
    if i >= s.len() {
        if digits >= 1 {
            Some((acc, scale))
        } else {
            None
        }
    } else if is_digit(s[i]) {
        dec_scan(
            s,
            i + 1,
            acc * 10 + digit_val(s[i]),
            if seen_dot {
                scale + 1
            } else {
                scale
            },
            seen_dot,
            digits + 1,
        )
    } else if s[i] == '.' && !seen_dot {
        dec_scan(s, i + 1, acc, scale, true, digits)
    } else if (s[i] == 'e' || s[i] == 'E') && digits >= 1 {
        exp_sign_scan(s, i + 1, acc, scale)
    } else {
        None
    }
}

/// A negative net scale (a positive surplus exponent) folded into the
/// digits, so the value is always `unscaled / 10^scale` with `scale >= 0`.
pub open spec fn dec_normal(t: Option<(int, int)>) -> Option<(int, int)> {
    match t {
        None => None,
        Some(p) => if p.1 < 0 {
            Some((p.0 * pow10((-p.1) as nat), 0))
        } else {
            Some(p)
        },
    }
}

/// The exponent never changes the mantissa value.
proof fn lemma_exp_scan_acc(
    s: Seq<char>,
    i: int,
    acc: int,
    scale: int,
    neg: bool,
    exp: int,
    expdigits: int,
)
    ensures
        match exp_scan(s, i, acc, scale, neg, exp, expdigits) {
            Some(t) => t.0 == acc,
            None => true,
        },
    decreases s.len() - i,
{
    if i < s.len() && is_digit(s[i]) {
        let e2 = exp * 10 + digit_val(s[i]);
        if e2 <= 100_000_000 {
            lemma_exp_scan_acc(s, i + 1, acc, scale, neg, e2, expdigits + 1);
        }
    }
}

/// A successful scan never shrinks the mantissa value.
proof fn lemma_dec_scan_monotone(
    s: Seq<char>,
    i: int,
    acc: int,
    scale: int,
    seen_dot: bool,
    digits: int,
)
    requires
        acc >= 0,
    ensures
        match dec_scan(s, i, acc, scale, seen_dot, digits) {
            Some(t) => t.0 >= acc,
            None => true,
        },
    decreases s.len() - i,
{
    if i < s.len() {
        if is_digit(s[i]) {
            lemma_dec_scan_monotone(
                s,
                i + 1,
                acc * 10 + digit_val(s[i]),
                if seen_dot {
                    scale + 1
                } else {
                    scale
                },
                seen_dot,
                digits + 1,
            );
        } else if s[i] == '.' && !seen_dot {
            lemma_dec_scan_monotone(s, i + 1, acc, scale, true, digits);
        } else if (s[i] == 'e' || s[i] == 'E') && digits >= 1 {
            if i + 1 < s.len() && (s[i + 1] == '+' || s[i + 1] == '-') {
                lemma_exp_scan_acc(s, i + 2, acc, scale, s[i + 1] == '-', 0, 0);
            } else {
                lemma_exp_scan_acc(s, i + 1, acc, scale, false, 0, 0);
            }
        }
    }
}

/// Normalization never shrinks the mantissa value.
proof fn lemma_dec_normal_lb(t: Option<(int, int)>, lb: int)
    requires
        0 <= lb,
        t matches Some(p) ==> p.0 >= lb,
    ensures
        dec_normal(t) matches Some(q) ==> q.0 >= lb,
{
    match t {
        Some(p) => {
            if p.1 < 0 {
                lemma_pow10_pos((-p.1) as nat);
                assert(p.0 * pow10((-p.1) as nat) >= p.0 * 1) by (nonlinear_arith)
                    requires
                        p.0 >= 0,
                        pow10((-p.1) as nat) >= 1,
                ;
            }
        },
        None => {},
    }
}

/// Scans a normalized numeric literal into `(unscaled, scale)`, failing
/// exactly when the literal is malformed or the exact value does not fit
/// a `u64` unscaled part with a `u32` scale.
#[verifier::loop_isolation(false)]
fn scan_normalized(s: &Vec<char>) -> (r: Option<(u64, u32)>)
    ensures
        r is Some <==> (dec_normal(dec_scan(s@, 0, 0, 0, false, 0)) matches Some(t) && t.0
            <= u64::MAX && 0 <= t.1 <= u32::MAX),
        r matches Some(p) ==> dec_normal(dec_scan(s@, 0, 0, 0, false, 0)) == Some(
            (p.0 as int, p.1 as int),
        ),
{
    let n = s.len();
    let mut i: usize = 0;
    let mut acc: u64 = 0;
    let mut frac: u64 = 0;
    let mut seen_dot: bool = false;
    let mut digits: usize = 0;
    let mut has_exp: bool = false;
    while i < n && !has_exp
        invariant
            i <= n,
            digits <= i,
            frac <= i,
            !has_exp ==> dec_scan(s@, 0, 0, 0, false, 0) == dec_scan(
                s@,
                i as int,
                acc as int,
                frac as int,
                seen_dot,
                digits as int,
            ),
            has_exp ==> dec_scan(s@, 0, 0, 0, false, 0) == exp_sign_scan(
                s@,
                i as int,
                acc as int,
                frac as int,
            ),
        decreases n - i,
    {
        let c = s[i];
        if check_digit_char(c) {
            let d: u64 = (c as u32 as u64) - 48;
            let next_acc = match acc.checked_mul(10) {
                Some(m) => m.checked_add(d),
                None => None,
            };
            match next_acc {
                Some(a) => {
                    acc = a;
                    if seen_dot {
                        frac = frac + 1;
                    }
                    digits = digits + 1;
                },
                None => {
                    proof {
                        lemma_dec_scan_monotone(
                            s@,
                            i + 1,
                            acc * 10 + digit_val(s@[i as int]),
                            if seen_dot {
                                frac + 1
                            } else {
                                frac as int
                            },
                            seen_dot,
                            digits + 1,
                        );
                        lemma_dec_normal_lb(
                            dec_scan(s@, 0, 0, 0, false, 0),
                            acc * 10 + digit_val(s@[i as int]),
                        );
                    }
                    return None;
                },
            }
        } else if c == '.' && !seen_dot {
            seen_dot = true;
        } else if (c == 'e' || c == 'E') && digits >= 1 {
            has_exp = true;
        } else {
            return None;
        }
        i = i + 1;
    }
    if !has_exp {
        if digits >= 1 {
            if frac <= u32::MAX as u64 {
                return Some((acc, frac as u32));
            } else {
                return None;
            }
        } else {
            return None;
        }
    }
    let mut neg_exp: bool = false;
    if i < n && (s[i] == '+' || s[i] == '-') {
        neg_exp = s[i] == '-';
        i = i + 1;
    }
    let mut exp: u64 = 0;
    let mut expdigits: usize = 0;
    while i < n
        invariant
            i <= n,
            expdigits <= i,
            exp <= 100_000_000,
            dec_scan(s@, 0, 0, 0, false, 0) == exp_scan(
                s@,
                i as int,
                acc as int,
                frac as int,
                neg_exp,
                exp as int,
                expdigits as int,
            ),
        decreases n - i,
    {
        let c = s[i];
        if !check_digit_char(c) {
            return None;
        }
        let d: u64 = (c as u32 as u64) - 48;
        let e2: u64 = exp * 10 + d;
        if e2 > 100_000_000 {
            return None;
        }
        exp = e2;
        expdigits = expdigits + 1;
        i = i + 1;
    }
    if expdigits == 0 {
        return None;
    }
    if neg_exp {
        // Net scale grows by the exponent.
        let total = match frac.checked_add(exp) {
            Some(t) => t,
            None => {
                return None;
            },
        };
        if total <= u32::MAX as u64 {
            Some((acc, total as u32))
        } else {
            None
        }
    } else if exp <= frac {
        let sc = frac - exp;
        if sc <= u32::MAX as u64 {
            Some((acc, sc as u32))
        } else {
            None
        }
    } else {
        // Surplus exponent: the scale goes negative and folds into the
        // digits as a power of ten.
        let k: u64 = exp - frac;
        proof {
            lemma_pow10_pos(k as nat);
        }
        if acc == 0 {
            proof {
                assert(0int * pow10(k as nat) == 0) by (nonlinear_arith);
            }
            Some((0, 0))
        } else if k >= 20 {
            proof {
                lemma_pow10_mono(20, k as nat);
                assert(pow10(20) == 0x56bc75e2d63100000) by {
                    reveal_with_fuel(pow10, 21);
                }
                assert(acc as int * pow10(k as nat) > u64::MAX as int) by (nonlinear_arith)
                    requires
                        acc >= 1,
                        pow10(k as nat) >= pow10(20),
                        pow10(20) == 0x56bc75e2d63100000,
                ;
            }
            None
        } else {
            let ghost acc0 = acc as int;
            let mut j: u64 = 0;
            let mut prod: u64 = acc;
            while j < k
                invariant
                    j <= k,
                    k < 20,
                    acc >= 1,
                    prod as int == acc0 * pow10(j as nat),
                decreases k - j,
            {
                proof {
                    assert(pow10((j + 1) as nat) == 10 * pow10(j as nat));
                }
                match prod.checked_mul(10) {
                    Some(p2) => {
                        proof {
                            assert(prod as int * 10 == acc0 * pow10((j + 1) as nat))
                                by (nonlinear_arith)
                                requires
                                    prod as int == acc0 * pow10(j as nat),
                                    pow10((j + 1) as nat) == 10 * pow10(j as nat),
                            ;
                        }
                        prod = p2;
                        j = j + 1;
                    },
                    None => {
                        proof {
                            lemma_pow10_mono((j + 1) as nat, k as nat);
                            assert(acc0 * pow10(k as nat) >= acc0 * pow10((j + 1) as nat))
                                by (nonlinear_arith)
                                requires
                                    acc0 >= 0,
                                    pow10(k as nat) >= pow10((j + 1) as nat),
                            ;
                            assert(acc0 * pow10((j + 1) as nat) == prod as int * 10)
                                by (nonlinear_arith)
                                requires
                                    prod as int == acc0 * pow10(j as nat),
                                    pow10((j + 1) as nat) == 10 * pow10(j as nat),
                            ;
                        }
                        return None;
                    },
                }
            }
            Some((prod, 0))
        }
    }
}

/// The cleaned numeric body of `s` and its sign: trim, drop one leading
/// `+`, one trailing `%`, trim again, then detect and drop one leading `-`.
pub open spec fn spec_clean(s: Seq<char>) -> (Seq<char>, bool) {
    let t = spec_trim(strip_one_suffix(strip_one_prefix(spec_trim(s), '+'), '%'));
    let neg = t.len() > 0 && t[0] == '-';
    (strip_one_prefix(t, '-'), neg)
}

/// The numeric value of `s` under the separator-convention rule: sign,
/// unscaled digits, and decimal scale, with any exponent folded in
/// exactly.
pub open spec fn spec_parse_numeric(s: Seq<char>) -> Option<(bool, int, int)> {
    let (body, neg) = spec_clean(s);
    let norm = if spec_matches_thousands(body) {
        swap_char(remove_char(body, '.'), ',', '.')
    } else {
        remove_char(body, ',')
    };
    match dec_normal(dec_scan(norm, 0, 0, 0, false, 0)) {
        None => None,
        Some(t) => Some((neg, t.0, t.1)),
    }
}

/// Parses a localized numeric string into an exact decimal.
///
/// After cleaning and the separator-convention rewrite, the text must be
/// a decimal literal — a mantissa with at most one dot, optionally
/// followed by a signed `e`/`E` exponent, which is folded into the scale
/// exactly.  `None` means the text is not such a literal or its exact
/// value does not fit the representation: more significant digits than a
/// `u64` holds, a scale beyond `u32`, or an exponent past 10^8.  Infinite,
/// not-a-number, and rounded-off float spellings have no exact decimal
/// and are likewise absent, as is any sign that survives the affix
/// cleaning.
pub fn parse_numeric(text: &str) -> (r: Option<Decimal>)
    ensures
        r is Some <==> (spec_parse_numeric(text@) matches Some(t) && t.1 <= u64::MAX && t.2
            <= u32::MAX),
        r matches Some(d) ==> spec_parse_numeric(text@) == Some(
            (d.negative, d.unscaled as int, d.scale as int),
        ),
{
    let v = str_chars(text);
    parse_numeric_chars(&v)
}

/// [`parse_numeric`] over an already-exploded character vector.
pub fn parse_numeric_chars(v: &Vec<char>) -> (r: Option<Decimal>)
    ensures
        r is Some <==> (spec_parse_numeric(v@) matches Some(t) && t.1 <= u64::MAX && t.2
            <= u32::MAX),
        r matches Some(d) ==> spec_parse_numeric(v@) == Some(
            (d.negative, d.unscaled as int, d.scale as int),
        ),
{
    let t1 = trim(v);
    let t2 = strip_prefix_char(&t1, '+');
    let t3 = strip_suffix_char(&t2, '%');
    let t4 = trim(&t3);
    let negative = t4.len() > 0 && t4[0] == '-';
    let body = strip_prefix_char(&t4, '-');
    let norm = if matches_thousands(&body) {
        let no_dots = remove_char_exec(&body, '.');
        swap_char_exec(&no_dots, ',', '.')
    } else {
        remove_char_exec(&body, ',')
    };
    match scan_normalized(&norm) {
        None => None,
        Some(p) => Some(Decimal { negative, unscaled: p.0, scale: p.1 }),
    }
}

/// Integer scan: all characters from `i` must be digits, with at least one
/// digit overall.
pub open spec fn int_scan(s: Seq<char>, i: int, acc: int, digits: int) -> Option<int>
    decreases s.len() - i,
{
    if i >= s.len() {
        if digits >= 1 {
            Some(acc)
        } else {
            None
        }
    } else if is_digit(s[i]) {
        int_scan(s, i + 1, acc * 10 + digit_val(s[i]), digits + 1)
    } else {
        None
    }
}

/// A successful integer scan never shrinks the accumulated value.
pub proof fn lemma_int_scan_monotone(s: Seq<char>, i: int, acc: int, digits: int)
    requires
        acc >= 0,
    ensures
        match int_scan(s, i, acc, digits) {
            Some(t) => t >= acc,
            None => true,
        },
    decreases s.len() - i,
{
    if i < s.len() && is_digit(s[i]) {
        lemma_int_scan_monotone(s, i + 1, acc * 10 + digit_val(s[i]), digits + 1);
    }
}

/// The unsigned integer read from `s` the way the pipeline reads counts:
/// trim, remove every dot (a thousands separator), allow one leading `+`,
/// then decimal digits only.
pub open spec fn spec_parse_int(s: Seq<char>) -> Option<int> {
    let body = strip_one_prefix(remove_char(spec_trim(s), '.'), '+');
    int_scan(body, 0, 0, 0)
}

/// Parses a dot-separated unsigned integer (`"1.234"` → `1234`).
///
/// Returns `None` exactly when the cleaned text is not a plain unsigned
/// decimal integer or its value exceeds `u64::MAX`.
pub fn parse_int(text: &str) -> (r: Option<u64>)
    ensures
        r is Some <==> (spec_parse_int(text@) matches Some(t) && t <= u64::MAX),
        r matches Some(n) ==> spec_parse_int(text@) == Some(n as int),
{
    let v = str_chars(text);
    parse_int_chars(&v)
}

/// [`parse_int`] over an already-exploded character vector.
#[verifier::loop_isolation(false)]
pub fn parse_int_chars(v: &Vec<char>) -> (r: Option<u64>)
    ensures
        r is Some <==> (spec_parse_int(v@) matches Some(t) && t <= u64::MAX),
        r matches Some(n) ==> spec_parse_int(v@) == Some(n as int),
{
    let t1 = trim(v);
    let t2 = remove_char_exec(&t1, '.');
    let body = strip_prefix_char(&t2, '+');
    let mut i: usize = 0;
    let mut acc: u64 = 0;
    let mut digits: usize = 0;
    while i < body.len()
        invariant
            i <= body@.len(),
            digits <= i,
            int_scan(body@, 0, 0, 0) == int_scan(body@, i as int, acc as int, digits as int),
        decreases body@.len() - i,
    {
        let c = body[i];
        if check_digit_char(c) {
            let d: u64 = (c as u32 as u64) - 48;
            let next_acc = match acc.checked_mul(10) {
                Some(m) => m.checked_add(d),
                None => None,
            };
            match next_acc {
                Some(a) => {
                    acc = a;
                    digits = digits + 1;
                },
                None => {
                    proof {
                        lemma_int_scan_monotone(
                            body@,
                            i + 1,
                            acc * 10 + digit_val(body@[i as int]),
                            digits + 1,
                        );
                    }
                    return None;
                },
            }
        } else {
            return None;
        }
        i = i + 1;
    }
    if digits >= 1 {
        Some(acc)
    } else {
        None
    }
}

} // verus!
