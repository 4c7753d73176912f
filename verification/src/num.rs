//! Exact decimal numbers.
//!
//! The vendor transmits every quantity (prices, share counts, percentages)
//! as a decimal numeral with at most nine fractional digits, sometimes as a
//! JSON number and sometimes as a JSON string.  This module gives the
//! library one exact representation for such quantities: a sign, a whole
//! part, and a fractional part in billionths.

use vstd::prelude::*;
use vstd::string::StrSliceExecFns;
use crate::json::string_from_chars;

verus! {

/// Billionths in one whole unit: the finest resolution the vendor uses.
pub const NANOS_PER_UNIT: u32 = 1_000_000_000;

/// An exact decimal quantity: `(-1)^neg * (units + nanos / 1e9)`.
#[derive(Clone, Copy, Debug, PartialEq, Eq, Structural)]
pub struct Decimal {
    /// True for quantities strictly below zero.
    pub neg: bool,
    /// Whole units.
    pub units: u64,
    /// Billionths of a unit, always below `NANOS_PER_UNIT`.
    pub nanos: u32,
}

impl Decimal {
    /// Well-formed: the fractional part is in range, and zero is never
    /// negative, so equal quantities are equal values.
    pub open spec fn wf(self) -> bool {
        &&& self.nanos < NANOS_PER_UNIT
        &&& (self.units == 0 && self.nanos == 0 ==> !self.neg)
    }

    /// The quantity scaled to an integer count of billionths.
    pub open spec fn to_nanos(self) -> int {
        let mag = self.units * (NANOS_PER_UNIT as int) + self.nanos;
        if self.neg {
            -mag
        } else {
            mag
        }
    }
}

/// Equal quantities are equal values: a well-formed `Decimal` is the one
/// canonical representation of the quantity it stands for, so decoded
/// records can be compared field for field.
pub proof fn lemma_decimal_canonical(a: Decimal, b: Decimal)
    requires
        a.wf(),
        b.wf(),
        a.to_nanos() == b.to_nanos(),
    ensures
        a == b,
{
    let base = NANOS_PER_UNIT as int;
    let maga = a.units * base + a.nanos;
    let magb = b.units * base + b.nanos;
    assert(maga >= 0 && magb >= 0) by (nonlinear_arith)
        requires
            maga == a.units * base + a.nanos,
            magb == b.units * base + b.nanos,
            a.units >= 0,
            b.units >= 0,
            a.nanos >= 0,
            b.nanos >= 0,
            base > 0,
    ;
    if a.neg != b.neg {
        // Opposite signs force both magnitudes to zero, and a zero
        // quantity sheds its sign under well-formedness.
        assert(maga == 0 && magb == 0);
        assert(a.units == 0 && a.nanos == 0) by (nonlinear_arith)
            requires
                a.units * base + a.nanos == 0,
                a.units >= 0,
                a.nanos >= 0,
                base > 0,
        ;
        assert(b.units == 0 && b.nanos == 0) by (nonlinear_arith)
            requires
                b.units * base + b.nanos == 0,
                b.units >= 0,
                b.nanos >= 0,
                base > 0,
        ;
        assert(false);
    } else {
        assert(maga == magb);
        vstd::arithmetic::div_mod::lemma_fundamental_div_mod_converse(
            maga,
            base,
            a.units as int,
            a.nanos as int,
        );
        vstd::arithmetic::div_mod::lemma_fundamental_div_mod_converse(
            magb,
            base,
            b.units as int,
            b.nanos as int,
        );
    }
}

/// Whether `c` is a decimal digit.
pub open spec fn is_digit(c: char) -> bool {
    '0' <= c <= '9'
}

/// The value of one digit character.
pub open spec fn digit_val(c: char) -> nat
    recommends
        is_digit(c),
{
    (c as u32 - '0' as u32) as nat
}

/// Whether `s` is a non-empty run of digits.
pub open spec fn all_digits(s: Seq<char>) -> bool {
    forall|i: int| 0 <= i < s.len() ==> is_digit(#[trigger] s[i])
}

/// The numeral `s` read as a natural number (most significant digit first).
pub open spec fn digits_to_nat(s: Seq<char>) -> nat
    decreases s.len(),
{
    if s.len() == 0 {
        0
    } else {
        digits_to_nat(s.drop_last()) * 10 + digit_val(s.last())
    }
}

/// Ten to the `n`.
pub open spec fn pow10(n: nat) -> nat
    decreases n,
{
    if n == 0 {
        1
    } else {
        10 * pow10((n - 1) as nat)
    }
}

/// A numeral of `n` digits is below `10^n`.
pub proof fn lemma_digits_bound(s: Seq<char>)
    requires
        all_digits(s),
    ensures
        digits_to_nat(s) < pow10(s.len() as nat),
    decreases s.len(),
{
    if s.len() > 0 {
        assert(all_digits(s.drop_last()));
        assert(digit_val(s.last()) <= 9);
        lemma_digits_bound(s.drop_last());
    }
}

/// Powers of ten are at least one.
pub proof fn lemma_pow10_pos(n: nat)
    ensures
        pow10(n) >= 1,
    decreases n,
{
    if n > 0 {
        lemma_pow10_pos((n - 1) as nat);
    }
}

/// `10^a * 10^b == 10^(a + b)`.
pub proof fn lemma_pow10_adds(a: nat, b: nat)
    ensures
        pow10(a) * pow10(b) == pow10(a + b),
    decreases a,
{
    if a == 0 {
        assert(pow10(0) == 1);
        assert(1 * pow10(b) == pow10(b)) by (nonlinear_arith);
    } else {
        lemma_pow10_adds((a - 1) as nat, b);
        assert(pow10(a) * pow10(b) == 10 * (pow10((a - 1) as nat) * pow10(b)))
            by (nonlinear_arith)
            requires
                pow10(a) == 10 * pow10((a - 1) as nat),
        ;
    }
}

/// The numeral `s` split at its first `.`: the digits before it, and
/// what follows it (`None` when there is no dot at all).
pub open spec fn split_at_dot(s: Seq<char>) -> (Seq<char>, Option<Seq<char>>)
    decreases s.len(),
{
    if s.len() == 0 {
        (Seq::empty(), None::<Seq<char>>)
    } else if s[0] == '.' {
        (Seq::empty(), Some(s.drop_first()))
    } else {
        let (ip, fp) = split_at_dot(s.drop_first());
        (seq![s[0]] + ip, fp)
    }
}

/// `split_at_dot` agrees with the index of the first dot.
pub proof fn lemma_split_at_dot(s: Seq<char>, i: int)
    requires
        0 <= i <= s.len(),
        forall|j: int| 0 <= j < i ==> s[j] != '.',
        i < s.len() ==> s[i] == '.',
    ensures
        split_at_dot(s).0 == s.subrange(0, i),
        split_at_dot(s).1 == if i < s.len() {
            Some(s.subrange(i + 1, s.len() as int))
        } else {
            None::<Seq<char>>
        },
    decreases s.len(),
{
    if s.len() == 0 {
        assert(split_at_dot(s).0 =~= s.subrange(0, i));
    } else if s[0] == '.' {
        assert(i == 0);
        assert(split_at_dot(s).0 =~= s.subrange(0, 0));
        assert(s.drop_first() =~= s.subrange(1, s.len() as int));
    } else {
        let t = s.drop_first();
        lemma_split_at_dot(t, i - 1);
        assert(seq![s[0]] + t.subrange(0, i - 1) =~= s.subrange(0, i));
        if i < s.len() {
            assert(t.subrange(i, t.len() as int) =~= s.subrange(i + 1, s.len() as int));
        }
    }
}

/// How a sign and two digit runs are assembled into a quantity: the whole
/// part must fit in `u64`, the fraction may have one to nine digits, and a
/// zero result sheds its sign.
pub open spec fn decimal_of_parts(neg: bool, ip: Seq<char>, fp: Option<Seq<char>>) -> Option<
    Decimal,
> {
    if ip.len() == 0 || !all_digits(ip) || digits_to_nat(ip) > u64::MAX {
        None
    } else {
        let units = digits_to_nat(ip) as u64;
        match fp {
            None => Some(mk_decimal(neg, units, 0)),
            Some(f) => if f.len() == 0 || f.len() > 9 || !all_digits(f) {
                None
            } else {
                Some(
                    mk_decimal(
                        neg,
                        units,
                        (digits_to_nat(f) * pow10((9 - f.len()) as nat)) as u32,
                    ),
                )
            },
        }
    }
}

/// A `Decimal` from raw parts, normalising the sign of zero.
pub open spec fn mk_decimal(neg: bool, units: u64, nanos: u32) -> Decimal {
    Decimal { neg: neg && !(units == 0 && nanos == 0), units, nanos }
}

/// What `parse_decimal` accepts and returns: an optional leading minus,
/// then digits, then optionally a dot and one to nine more digits.
pub open spec fn spec_parse_decimal(t: Seq<char>) -> Option<Decimal> {
    let neg = t.len() > 0 && t[0] == '-';
    let body = if neg {
        t.drop_first()
    } else {
        t
    };
    let (ip, fp) = split_at_dot(body);
    decimal_of_parts(neg, ip, fp)
}

/// A parsed quantity is well formed.
pub proof fn lemma_parse_decimal_wf(t: Seq<char>)
    ensures
        spec_parse_decimal(t) matches Some(d) ==> d.wf(),
{
    let neg = t.len() > 0 && t[0] == '-';
    let body = if neg {
        t.drop_first()
    } else {
        t
    };
    let (ip, fp) = split_at_dot(body);
    if spec_parse_decimal(t) is Some {
        match fp {
            None => {},
            Some(f) => {
                if 1 <= f.len() <= 9 && all_digits(f) {
                    lemma_digits_bound(f);
                    lemma_pow10_pos((9 - f.len()) as nat);
                    lemma_pow10_adds(f.len() as nat, (9 - f.len()) as nat);
                    assert(digits_to_nat(f) * pow10((9 - f.len()) as nat) < pow10(
                        f.len() as nat,
                    ) * pow10((9 - f.len()) as nat))
                        by (nonlinear_arith)
                        requires
                            digits_to_nat(f) < pow10(f.len() as nat),
                            pow10((9 - f.len()) as nat) >= 1,
                    ;
                    assert(pow10(9) == 1_000_000_000) by {
                        reveal_with_fuel(pow10, 10);
                    }
                }
            },
        }
    }
}

/// Powers of ten are monotonic.
pub proof fn lemma_pow10_mono(a: nat, b: nat)
    requires
        a <= b,
    ensures
        pow10(a) <= pow10(b),
    decreases b,
{
    if a < b {
        lemma_pow10_mono(a, (b - 1) as nat);
        lemma_pow10_pos((b - 1) as nat);
    }
}

/// The numeral value, saturated just above the largest `u64`.
pub open spec fn clamped_digits(s: Seq<char>) -> nat {
    if digits_to_nat(s) > u64::MAX {
        (u64::MAX + 1) as nat
    } else {
        digits_to_nat(s)
    }
}

/// Reads the digit run `s@[from..to]`, saturating just above `u64::MAX`;
/// `None` when some character there is not a digit.
fn scan_digits(s: &str, from: usize, to: usize) -> (r: Option<u128>)
    requires
        from <= to <= s@.len(),
    ensures
        match r {
            Some(acc) => all_digits(s@.subrange(from as int, to as int)) && acc
                == clamped_digits(s@.subrange(from as int, to as int)),
            None => !all_digits(s@.subrange(from as int, to as int)),
        },
{
    let mut acc: u128 = 0;
    let mut i = from;
    while i < to
        invariant
            from <= i <= to <= s@.len(),
            all_digits(s@.subrange(from as int, i as int)),
            acc == clamped_digits(s@.subrange(from as int, i as int)),
        decreases to - i,
    {
        let c = s.get_char(i);
        let u = c as u32;
        if u < 48 || u > 57 {
            proof {
                assert(s@.subrange(from as int, to as int)[i - from] == s@[i as int]);
            }
            return None;
        }
        proof {
            let p = s@.subrange(from as int, i as int);
            let q = s@.subrange(from as int, i + 1);
            assert(q.drop_last() =~= p);
            assert(q.last() == s@[i as int]);
            assert(digits_to_nat(q) == digits_to_nat(p) * 10 + digit_val(s@[i as int]));
        }
        let d = (u - 48) as u128;
        acc = 10 * acc + d;
        if acc > u64::MAX as u128 {
            acc = u64::MAX as u128 + 1;
        }
        i = i + 1;
    }
    Some(acc)
}

/// `10^e` for small exponents.
fn pow10_u32(e: usize) -> (r: u32)
    requires
        e <= 9,
    ensures
        r == pow10(e as nat),
{
    let mut r: u32 = 1;
    let mut k: usize = 0;
    while k < e
        invariant
            k <= e <= 9,
            r == pow10(k as nat),
        decreases e - k,
    {
        proof {
            lemma_pow10_mono(k as nat, 8);
            assert(pow10(8) == 100_000_000) by {
                reveal_with_fuel(pow10, 9);
            }
        }
        r = r * 10;
        k = k + 1;
    }
    r
}

/// Reads a decimal numeral: an optional leading minus, a whole part, and
/// optionally a dot followed by one to nine fractional digits.  This is the
/// one normalisation point for the vendor's numbers, whichever JSON shape
/// they arrive in.
#[verifier::rlimit(50)]
pub fn parse_decimal(s: &str) -> (r: Option<Decimal>)
    ensures
        r == spec_parse_decimal(s@),
        r matches Some(d) ==> d.wf(),
{
    proof {
        lemma_parse_decimal_wf(s@);
    }
    let n = s.unicode_len();
    let neg_sign = n > 0 && s.get_char(0) == '-';
    let start: usize = if neg_sign {
        1
    } else {
        0
    };
    // Find the first dot, if any.
    let mut dot = start;
    while dot < n
        invariant_except_break
            start <= dot <= n,
            n == s@.len(),
            forall|j: int| start <= j < dot ==> s@[j] != '.',
        ensures
            start <= dot <= n,
            n == s@.len(),
            forall|j: int| start <= j < dot ==> s@[j] != '.',
            dot < n ==> s@[dot as int] == '.',
        decreases n - dot,
    {
        if s.get_char(dot) == '.' {
            break ;
        }
        dot = dot + 1;
    }
    proof {
        let body = s@.subrange(start as int, n as int);
        assert forall|j: int| 0 <= j < dot - start implies body[j] != '.' by {
            assert(body[j] == s@[start + j]);
        }
        lemma_split_at_dot(body, dot - start);
        assert(body.subrange(0, dot - start) =~= s@.subrange(start as int, dot as int));
        if dot < n {
            assert(body.subrange(dot - start + 1, body.len() as int) =~= s@.subrange(
                dot + 1,
                n as int,
            ));
        }
        if neg_sign {
            assert(s@.drop_first() =~= body);
        } else {
            assert(s@ =~= body);
        }
    }
    if dot == start {
        // Empty whole part.
        return None;
    }
    let ip = match scan_digits(s, start, dot) {
        Some(acc) => acc,
        None => {
            return None;
        },
    };
    if ip > u64::MAX as u128 {
        return None;
    }
    let units = ip as u64;
    let mut nanos: u32 = 0;
    if dot < n {
        let flen = n - dot - 1;
        if flen == 0 || flen > 9 {
            return None;
        }
        let fp = match scan_digits(s, dot + 1, n) {
            Some(acc) => acc,
            None => {
                return None;
            },
        };
        let ghost f = s@.subrange(dot + 1, n as int);
        proof {
            lemma_digits_bound(f);
            lemma_pow10_mono(f.len() as nat, 9);
            assert(pow10(9) == 1_000_000_000) by {
                reveal_with_fuel(pow10, 10);
            }
        }
        let scale = pow10_u32(9 - flen);
        proof {
            lemma_pow10_pos((9 - flen) as nat);
            lemma_pow10_adds(f.len() as nat, (9 - f.len()) as nat);
            assert(digits_to_nat(f) * pow10((9 - f.len()) as nat) < pow10(f.len() as nat)
                * pow10((9 - f.len()) as nat))
                by (nonlinear_arith)
                requires
                    digits_to_nat(f) < pow10(f.len() as nat),
                    pow10((9 - f.len()) as nat) >= 1,
            ;
        }
        let wide = (fp as u64) * (scale as u64);
        nanos = wide as u32;
    }
    let neg = neg_sign && !(units == 0 && nanos == 0);
    Some(Decimal { neg, units, nanos })
}

/// The digit character of a value below ten.
fn digit_char(d: u64) -> (r: char)
    requires
        d < 10,
    ensures
        is_digit(r),
        digit_val(r) == d,
{
    if d == 0 {
        '0'
    } else if d == 1 {
        '1'
    } else if d == 2 {
        '2'
    } else if d == 3 {
        '3'
    } else if d == 4 {
        '4'
    } else if d == 5 {
        '5'
    } else if d == 6 {
        '6'
    } else if d == 7 {
        '7'
    } else if d == 8 {
        '8'
    } else {
        '9'
    }
}

/// Prepending a digit scales its value past the rest.
pub proof fn lemma_digits_cons(c: char, s: Seq<char>)
    ensures
        digits_to_nat(seq![c] + s) == digit_val(c) * pow10(s.len() as nat) + digits_to_nat(s),
    decreases s.len(),
{
    let w = seq![c] + s;
    if s.len() == 0 {
        assert(w =~= seq![c]);
        assert(w.drop_last() =~= Seq::<char>::empty());
        assert(digits_to_nat(Seq::<char>::empty()) == 0);
        assert(w.last() == c);
        assert(digits_to_nat(w) == 0 * 10 + digit_val(c));
        assert(pow10(0) == 1);
        assert(digit_val(c) * 1 == digit_val(c)) by (nonlinear_arith);
    } else {
        assert(w.drop_last() =~= seq![c] + s.drop_last());
        assert(w.last() == s.last());
        lemma_digits_cons(c, s.drop_last());
        assert(digits_to_nat(w) == (digit_val(c) * pow10(s.drop_last().len() as nat)
            + digits_to_nat(s.drop_last())) * 10 + digit_val(s.last()));
        assert(pow10(s.len() as nat) == 10 * pow10((s.len() - 1) as nat));
        assert((digit_val(c) * pow10((s.len() - 1) as nat) + digits_to_nat(s.drop_last())) * 10
            + digit_val(s.last()) == digit_val(c) * (10 * pow10((s.len() - 1) as nat)) + (
        digits_to_nat(s.drop_last()) * 10 + digit_val(s.last()))) by (nonlinear_arith);
    }
}

/// The digits of `n`, most significant first, without a sign.
fn u64_digits(n: u64) -> (r: Vec<char>)
    ensures
        all_digits(r@),
        r@.len() >= 1,
        digits_to_nat(r@) == n,
{
    let mut out: Vec<char> = Vec::new();
    let mut m = n;
    proof {
        assert(digits_to_nat(Seq::<char>::empty()) == 0);
        assert(pow10(0) == 1);
        assert(m * 1 == m) by (nonlinear_arith);
    }
    loop
        invariant
            all_digits(out@),
            digits_to_nat(out@) + m * pow10(out@.len() as nat) == n,
        ensures
            all_digits(out@),
            out@.len() >= 1,
            digits_to_nat(out@) == n,
        decreases m, n - out@.len(),
    {
        proof {
            assert(pow10(0) == 1);
        }
        let d = m % 10;
        let c = digit_char(d);
        proof {
            lemma_digits_cons(c, out@);
            assert(pow10((out@.len() + 1) as nat) == 10 * pow10(out@.len() as nat));
            assert((m / 10) * (10 * pow10(out@.len() as nat)) + digit_val(c) * pow10(
                out@.len() as nat,
            ) == m * pow10(out@.len() as nat))
                by (nonlinear_arith)
                requires
                    m == 10 * (m / 10) + digit_val(c),
            ;
        }
        let ghost before = out@;
        out.insert(0, c);
        proof {
            assert(out@ =~= seq![c] + before);
        }
        m = m / 10;
        if m == 0 {
            break ;
        }
    }
    out
}

/// Writes a quantity as a decimal numeral: an optional minus, the whole
/// units, and — when the fractional part is not zero — a dot and its
/// digits with trailing zeroes trimmed.  The one exact statement that
/// matters: reading the text back yields the same quantity.
pub fn format_decimal(d: Decimal) -> (r: String)
    requires
        d.wf(),
    ensures
        spec_parse_decimal(r@) == Some(d),
{
    let mut out: Vec<char> = Vec::new();
    if d.neg {
        out.push('-');
        proof {
            assert(out@ =~= seq!['-']);
        }
    }
    let ghost sign = out@;
    proof {
        if d.neg {
            assert(sign == seq!['-']);
        } else {
            assert(sign =~= Seq::<char>::empty());
        }
    }
    let units = u64_digits(d.units);
    let ghost ip = units@;
    let mut i: usize = 0;
    let un = units.len();
    while i < un
        invariant
            i <= un,
            un == ip.len(),
            units@ == ip,
            all_digits(ip),
            out@ == sign + ip.subrange(0, i as int),
        decreases un - i,
    {
        let c = units[i];
        out.push(c);
        proof {
            assert(ip.subrange(0, i + 1) =~= ip.subrange(0, i as int).push(c));
            assert((sign + ip.subrange(0, i as int)).push(c) =~= sign + ip.subrange(0, i + 1));
        }
        i = i + 1;
    }
    proof {
        assert(ip.subrange(0, un as int) =~= ip);
    }
    let mut fdigits: Vec<char> = Vec::new();
    if d.nanos > 0 {
        // Exactly nine digits of the fractional part, then trim zeroes.
        let mut m: u64 = d.nanos as u64;
        let mut k: usize = 0;
        proof {
            assert(digits_to_nat(Seq::<char>::empty()) == 0);
            assert(pow10(0) == 1);
            assert(m * 1 == m) by (nonlinear_arith);
        }
        while k < 9
            invariant
                k <= 9,
                fdigits@.len() == k,
                all_digits(fdigits@),
                digits_to_nat(fdigits@) + m * pow10(fdigits@.len() as nat) == d.nanos,
            decreases 9 - k,
        {
            proof {
                assert(pow10(0) == 1);
            }
            let dd = m % 10;
            let c = digit_char(dd);
            proof {
                lemma_digits_cons(c, fdigits@);
                assert(pow10((fdigits@.len() + 1) as nat) == 10 * pow10(fdigits@.len() as nat));
                assert((m / 10) * (10 * pow10(fdigits@.len() as nat)) + digit_val(c) * pow10(
                    fdigits@.len() as nat,
                ) == m * pow10(fdigits@.len() as nat))
                    by (nonlinear_arith)
                    requires
                        m == 10 * (m / 10) + digit_val(c),
                ;
            }
            let ghost before = fdigits@;
            fdigits.insert(0, c);
            proof {
                assert(fdigits@ =~= seq![c] + before);
            }
            m = m / 10;
            k = k + 1;
        }
        proof {
            lemma_pow10_pos(9);
            assert(pow10(9) == 1_000_000_000) by {
                reveal_with_fuel(pow10, 10);
            }
            assert(m * pow10(9) <= d.nanos);
            if m > 0 {
                assert(m * pow10(9) >= pow10(9)) by (nonlinear_arith)
                    requires
                        m >= 1,
                        pow10(9) >= 1,
                ;
            }
            assert(m == 0);
        }
        // Trim trailing zeroes; the value scaled by the missing places
        // stays the nanos count.
        while fdigits.len() > 1 && fdigits[fdigits.len() - 1] == '0'
            invariant
                1 <= fdigits@.len() <= 9,
                all_digits(fdigits@),
                digits_to_nat(fdigits@) * pow10((9 - fdigits@.len()) as nat) == d.nanos,
            decreases fdigits@.len(),
        {
            proof {
                let s = fdigits@;
                assert(digits_to_nat(s) == digits_to_nat(s.drop_last()) * 10 + digit_val(
                    s.last(),
                ));
                assert(digit_val(s.last()) == 0);
                assert(pow10((9 - s.len() + 1) as nat) == 10 * pow10((9 - s.len()) as nat));
                assert((digits_to_nat(s.drop_last()) * 10) * pow10((9 - s.len()) as nat)
                    == digits_to_nat(s.drop_last()) * (10 * pow10((9 - s.len()) as nat)))
                    by (nonlinear_arith);
            }
            let _ = fdigits.pop();
        }
        proof {
            // A fraction of all zeroes would mean zero nanos.
            assert(digits_to_nat(fdigits@) > 0) by {
                if digits_to_nat(fdigits@) == 0 {
                    assert(0 * pow10((9 - fdigits@.len()) as nat) == 0) by (nonlinear_arith);
                }
            }
        }
        let ghost before_dot = out@;
        out.push('.');
        proof {
            assert(before_dot.push('.') =~= before_dot + seq!['.']);
        }
        let fn_ = fdigits.len();
        let ghost fd = fdigits@;
        let mut k2: usize = 0;
        while k2 < fn_
            invariant
                k2 <= fn_,
                fn_ == fd.len(),
                fdigits@ == fd,
                out@ == sign + ip + seq!['.'] + fd.subrange(0, k2 as int),
            decreases fn_ - k2,
        {
            let c = fdigits[k2];
            out.push(c);
            proof {
                assert(fd.subrange(0, k2 + 1) =~= fd.subrange(0, k2 as int).push(c));
                assert((sign + ip + seq!['.'] + fd.subrange(0, k2 as int)).push(c) =~= sign + ip
                    + seq!['.'] + fd.subrange(0, k2 + 1));
            }
            k2 = k2 + 1;
        }
        proof {
            assert(fd.subrange(0, fn_ as int) =~= fd);
        }
    }
    proof {
        lemma_format_parses(d, ip, fdigits@);
        let body = if d.nanos > 0 {
            ip + seq!['.'] + fdigits@
        } else {
            ip
        };
        let t = (if d.neg {
            seq!['-']
        } else {
            Seq::<char>::empty()
        }) + body;
        assert(out@ =~= t);
    }
    string_from_chars(&out)
}

/// The formatter's text parses back to the quantity it wrote.
proof fn lemma_format_parses(d: Decimal, ip: Seq<char>, fp: Seq<char>)
    requires
        d.wf(),
        all_digits(ip),
        ip.len() >= 1,
        digits_to_nat(ip) == d.units,
        d.nanos > 0 ==> {
            &&& all_digits(fp)
            &&& 1 <= fp.len() <= 9
            &&& digits_to_nat(fp) * pow10((9 - fp.len()) as nat) == d.nanos
            &&& digits_to_nat(fp) > 0
        },
    ensures
        ({
            let body = if d.nanos > 0 {
                ip + seq!['.'] + fp
            } else {
                ip
            };
            let t = (if d.neg {
                seq!['-']
            } else {
                Seq::<char>::empty()
            }) + body;
            spec_parse_decimal(t) == Some(d)
        }),
{
    let body = if d.nanos > 0 {
        ip + seq!['.'] + fp
    } else {
        ip
    };
    let t = (if d.neg {
        seq!['-']
    } else {
        Seq::<char>::empty()
    }) + body;
    assert(t.len() > 0);
    if d.neg {
        assert(t[0] == '-');
        assert(t.drop_first() =~= body);
    } else {
        assert(t =~= body);
        assert(is_digit(t[0]));
        assert(t[0] != '-');
    }
    if d.nanos > 0 {
        assert forall|j: int| 0 <= j < ip.len() implies body[j] != '.' by {
            assert(body[j] == ip[j]);
            assert(is_digit(ip[j]));
        }
        assert(body[ip.len() as int] == '.');
        lemma_split_at_dot(body, ip.len() as int);
        assert(body.subrange(0, ip.len() as int) =~= ip);
        assert(body.subrange(ip.len() as int + 1, body.len() as int) =~= fp);
        assert(digits_to_nat(ip) <= u64::MAX);
        assert(mk_decimal(d.neg, d.units, (digits_to_nat(fp) * pow10((9 - fp.len()) as nat)) as u32)
            == d);
    } else {
        assert forall|j: int| 0 <= j < body.len() implies body[j] != '.' by {
            assert(is_digit(body[j]));
        }
        lemma_split_at_dot(body, body.len() as int);
        assert(body.subrange(0, body.len() as int) =~= body);
        assert(digits_to_nat(ip) <= u64::MAX);
        assert(mk_decimal(d.neg, d.units, 0) == d);
    }
}

} // verus!


