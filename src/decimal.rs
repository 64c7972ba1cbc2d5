use vstd::prelude::*;

use crate::exchanges::Decimal;

verus! {

/// Longest integer part accepted, in digits.
pub const MAX_INT_DIGITS: usize = 20;

/// Most fractional digits accepted (the precision of `Decimal`).
pub const MAX_FRAC_DIGITS: usize = 9;

pub open spec fn is_digit(c: char) -> bool {
    '0' <= c && c <= '9'
}

pub open spec fn all_digits(s: Seq<char>) -> bool {
    forall|i: int| 0 <= i < s.len() ==> is_digit(s[i])
}

/// The number that a run of decimal digits spells.
pub open spec fn digits_value(s: Seq<char>) -> int
    decreases s.len(),
{
    if s.len() == 0 {
        0
    } else {
        digits_value(s.drop_last()) * 10 + (s.last() as int - '0' as int)
    }
}

pub open spec fn pow10(n: nat) -> int
    decreases n,
{
    if n == 0 { 1 } else { 10 * pow10((n - 1) as nat) }
}

/// Position of the first `.` in `s`, or its length when there is none.
pub open spec fn first_dot(s: Seq<char>) -> int
    decreases s.len(),
{
    if s.len() == 0 {
        0
    } else if s[0] == '.' {
        0
    } else {
        1 + first_dot(s.drop_first())
    }
}

/// The text after an optional leading `-`.
pub open spec fn unsigned_part(t: Seq<char>) -> Seq<char> {
    if t.len() > 0 && t[0] == '-' { t.drop_first() } else { t }
}

pub open spec fn int_digits(t: Seq<char>) -> Seq<char> {
    unsigned_part(t).take(first_dot(unsigned_part(t)))
}

/// The digits after the `.`, empty when there is no `.`.
pub open spec fn frac_digits(t: Seq<char>) -> Seq<char> {
    let u = unsigned_part(t);
    if first_dot(u) < u.len() { u.skip(first_dot(u) + 1) } else { Seq::empty() }
}

/// Whether `t` is `[-]digits[.digits]` with 1 to `MAX_INT_DIGITS` integer
/// digits and, after a `.`, 1 to `MAX_FRAC_DIGITS` fractional digits.
pub open spec fn decimal_text(t: Seq<char>) -> bool {
    let u = unsigned_part(t);
    &&& 1 <= int_digits(t).len() <= MAX_INT_DIGITS
    &&& all_digits(int_digits(t))
    &&& all_digits(frac_digits(t))
    &&& first_dot(u) < u.len() ==> 1 <= frac_digits(t).len() <= MAX_FRAC_DIGITS
}

/// The value of decimal text in units of `10^-MAX_FRAC_DIGITS`.
pub open spec fn decimal_units(t: Seq<char>) -> int {
    let magnitude = digits_value(int_digits(t)) * pow10(MAX_FRAC_DIGITS as nat) + digits_value(
        frac_digits(t),
    ) * pow10((MAX_FRAC_DIGITS - frac_digits(t).len()) as nat);
    if t.len() > 0 && t[0] == '-' { -magnitude } else { magnitude }
}

proof fn lemma_pow10_positive(n: nat)
    ensures
        pow10(n) >= 1,
    decreases n,
{
    if n > 0 {
        lemma_pow10_positive((n - 1) as nat);
    }
}

proof fn lemma_digits_bound(s: Seq<char>)
    requires
        all_digits(s),
    ensures
        0 <= digits_value(s) < pow10(s.len()),
    decreases s.len(),
{
    if s.len() > 0 {
        let p = s.drop_last();
        assert(all_digits(p)) by {
            assert forall|i: int| 0 <= i < p.len() implies is_digit(p[i]) by {
                assert(p[i] == s[i]);
            }
        }
        lemma_digits_bound(p);
        let d = s.last() as int - '0' as int;
        assert(0 <= d <= 9) by {
            assert(is_digit(s[s.len() - 1]));
        }
        let v = digits_value(p);
        let q = pow10(p.len());
        assert(v * 10 + d < q * 10) by (nonlinear_arith)
            requires
                0 <= v < q,
                0 <= d <= 9,
        ;
    }
}

/// Reads the digits `t[from..to]` as a number.
fn read_digits(t: &str, from: usize, to: usize) -> (r: u128)
    requires
        from <= to <= t@.len(),
        to - from <= MAX_INT_DIGITS,
        all_digits(t@.subrange(from as int, to as int)),
    ensures
        r == digits_value(t@.subrange(from as int, to as int)),
        r < pow10((to - from) as nat),
{
    let mut acc: u128 = 0;
    let mut i: usize = from;
    proof {
        reveal_with_fuel(pow10, 21);
        assert(pow10(20) == 100000000000000000000);
    }
    while i < to
        invariant
            from <= i <= to <= t@.len(),
            to - from <= MAX_INT_DIGITS,
            all_digits(t@.subrange(from as int, to as int)),
            acc == digits_value(t@.subrange(from as int, i as int)),
            pow10(20) == 100000000000000000000,
        decreases to - i,
    {
        let ghost s = t@.subrange(from as int, i as int + 1);
        proof {
            assert(s.drop_last() =~= t@.subrange(from as int, i as int));
            assert(all_digits(s)) by {
                assert forall|k: int| 0 <= k < s.len() implies is_digit(s[k]) by {
                    assert(s[k] == t@.subrange(from as int, to as int)[k]);
                }
            }
            lemma_digits_bound(s);
            lemma_pow10_mono(s.len(), 20);
            assert(is_digit(s[s.len() - 1]));
        }
        let c = t.get_char(i);
        let d = (c as u32 - '0' as u32) as u128;
        acc = acc * 10 + d;
        i = i + 1;
    }
    proof {
        let s = t@.subrange(from as int, to as int);
        lemma_digits_bound(s);
    }
    acc
}

proof fn lemma_pow10_mono(a: nat, b: nat)
    requires
        a <= b,
    ensures
        pow10(a) <= pow10(b),
    decreases b,
{
    if a < b {
        lemma_pow10_mono(a, (b - 1) as nat);
        lemma_pow10_positive((b - 1) as nat);
    }
}

proof fn lemma_first_dot(u: Seq<char>, k: int)
    requires
        0 <= k <= u.len(),
        forall|j: int| 0 <= j < k ==> u[j] != '.',
        k == u.len() || u[k] == '.',
    ensures
        first_dot(u) == k,
    decreases u.len(),
{
    if u.len() > 0 && k > 0 {
        let v = u.drop_first();
        assert forall|j: int| 0 <= j < k - 1 implies v[j] != '.' by {
            assert(v[j] == u[j + 1]);
        }
        lemma_first_dot(v, k - 1);
    }
}

fn pow10_exec(n: usize) -> (r: u128)
    requires
        n <= MAX_FRAC_DIGITS,
    ensures
        r == pow10(n as nat),
{
    let mut r: u128 = 1;
    let mut i: usize = 0;
    while i < n
        invariant
            i <= n <= MAX_FRAC_DIGITS,
            r == pow10(i as nat),
            r <= 1000000000,
        decreases n - i,
    {
        proof {
            lemma_pow10_mono((i + 1) as nat, 9);
            reveal_with_fuel(pow10, 10);
        }
        r = r * 10;
        i = i + 1;
    }
    r
}

/// Whether `t[from..to]` is all decimal digits.
fn digits_between(t: &str, from: usize, to: usize) -> (r: bool)
    requires
        from <= to <= t@.len(),
    ensures
        r == all_digits(t@.subrange(from as int, to as int)),
{
    let mut i: usize = from;
    while i < to
        invariant
            from <= i <= to <= t@.len(),
            forall|j: int| from <= j < i ==> is_digit(#[trigger] t@[j]),
        decreases to - i,
    {
        let c = t.get_char(i);
        if !('0' <= c && c <= '9') {
            assert(!is_digit(t@.subrange(from as int, to as int)[i - from]));
            return false;
        }
        i = i + 1;
    }
    assert forall|j: int| 0 <= j < to - from implies is_digit(#[trigger] t@.subrange(from as int, to as int)[j]) by {
        assert(t@.subrange(from as int, to as int)[j] == t@[from + j]);
    }
    true
}

/// Reads decimal text such as `43210.5` or `-0.125` exactly.
pub fn parse_decimal(t: &str) -> (r: Option<Decimal>)
    ensures
        r is Some <==> decimal_text(t@),
        r matches Some(d) ==> d.units == decimal_units(t@),
{
    let n = t.unicode_len();
    let start: usize = if n > 0 && t.get_char(0) == '-' { 1 } else { 0 };
    let ghost u = unsigned_part(t@);
    assert(u =~= t@.subrange(start as int, n as int));
    let mut dot: usize = start;
    while dot < n && t.get_char(dot) != '.'
        invariant
            start <= dot <= n == t@.len(),
            forall|j: int| start <= j < dot ==> t@[j] != '.',
        decreases n - dot,
    {
        dot = dot + 1;
    }
    proof {
        assert forall|j: int| 0 <= j < dot - start implies u[j] != '.' by {
            assert(u[j] == t@[start + j]);
        }
        lemma_first_dot(u, dot - start);
        assert(int_digits(t@) =~= t@.subrange(start as int, dot as int));
        if dot < n {
            assert(frac_digits(t@) =~= t@.subrange(dot + 1, n as int));
        } else {
            assert(frac_digits(t@) =~= t@.subrange(n as int, n as int));
        }
    }
    let int_len = dot - start;
    if int_len < 1 || int_len > MAX_INT_DIGITS || !digits_between(t, start, dot) {
        return None;
    }
    let frac_from: usize = if dot < n { dot + 1 } else { n };
    let frac_len = n - frac_from;
    if dot < n && (frac_len < 1 || frac_len > MAX_FRAC_DIGITS) {
        return None;
    }
    if !digits_between(t, frac_from, n) {
        return None;
    }
    let int_value = read_digits(t, start, dot);
    let frac_value = read_digits(t, frac_from, n);
    let scale = pow10_exec(MAX_FRAC_DIGITS);
    let frac_scale = pow10_exec(MAX_FRAC_DIGITS - frac_len);
    proof {
        reveal_with_fuel(pow10, 21);
        lemma_pow10_mono(int_len as nat, 20);
        lemma_pow10_mono(frac_len as nat, 9);
        lemma_pow10_mono((MAX_FRAC_DIGITS - frac_len) as nat, 9);
        assert(int_value * scale <= 100000000000000000000 * 1000000000) by (nonlinear_arith)
            requires
                int_value <= 100000000000000000000,
                scale == 1000000000,
        ;
        assert(frac_value * frac_scale <= 1000000000 * 1000000000) by (nonlinear_arith)
            requires
                frac_value <= 1000000000,
                frac_scale <= 1000000000,
        ;
    }
    let magnitude = int_value * scale + frac_value * frac_scale;
    let units: i128 = if start == 1 { -(magnitude as i128) } else { magnitude as i128 };
    Some(Decimal { units })
}

} // verus!
