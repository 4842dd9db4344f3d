//! Exact base-10 numbers. The text format carries fractional quantities
//! (m/z, intensity, acquisition start time); this module represents them as
//! `mantissa / 10^scale` with an explicit sign, and parses them from bytes.

use vstd::prelude::*;

verus! {

/// A base-10 fixed-point number denoting `mantissa / 10^scale`, negated when
/// `negative` is set.
#[derive(Debug, Clone, Copy, PartialEq, Eq, Structural)]
pub struct FixedDecimal {
    pub negative: bool,
    pub mantissa: u64,
    pub scale: u32,
}

pub open spec fn pow10(n: nat) -> nat
    decreases n,
{
    if n == 0 {
        1
    } else {
        10 * pow10((n - 1) as nat)
    }
}

/// The mantissa with its sign applied.
pub open spec fn signed_mantissa(d: FixedDecimal) -> int {
    if d.negative {
        -(d.mantissa as int)
    } else {
        d.mantissa as int
    }
}

/// `a` and `b` denote the same rational number.
pub open spec fn dec_eq(a: FixedDecimal, b: FixedDecimal) -> bool {
    signed_mantissa(a) * pow10(b.scale as nat) == signed_mantissa(b) * pow10(a.scale as nat)
}

pub open spec fn is_ascii_digit(b: u8) -> bool {
    0x30 <= b <= 0x39
}

pub open spec fn all_digits(s: Seq<u8>) -> bool {
    forall|i: int| 0 <= i < s.len() ==> is_ascii_digit(#[trigger] s[i])
}

/// The number written by a sequence of ASCII digits, most significant first.
pub open spec fn digits_val(s: Seq<u8>) -> nat
    decreases s.len(),
{
    if s.len() == 0 {
        0
    } else {
        (digits_val(s.drop_last()) * 10 + (s.last() - 0x30)) as nat
    }
}

/// Index of the first occurrence of `b` in `s`, or `s.len()` if absent.
pub open spec fn find_byte(s: Seq<u8>, b: u8) -> int
    decreases s.len(),
{
    if s.len() == 0 {
        0
    } else if s[0] == b {
        0
    } else {
        1 + find_byte(s.skip(1), b)
    }
}

pub proof fn lemma_find_byte(s: Seq<u8>, b: u8)
    ensures
        0 <= find_byte(s, b) <= s.len(),
        find_byte(s, b) < s.len() ==> s[find_byte(s, b)] == b,
        forall|i: int| 0 <= i < find_byte(s, b) ==> s[i] != b,
    decreases s.len(),
{
    if s.len() > 0 && s[0] != b {
        lemma_find_byte(s.skip(1), b);
        assert forall|i: int| 0 <= i < find_byte(s, b) implies s[i] != b by {
            if i > 0 {
                assert(s.skip(1)[i - 1] == s[i]);
            }
        }
        if find_byte(s, b) < s.len() {
            assert(s.skip(1)[find_byte(s, b) - 1] == s[find_byte(s, b)]);
        }
    }
}

/// The sign character, if `s` starts with one.
pub open spec fn has_sign(s: Seq<u8>) -> bool {
    s.len() > 0 && (s[0] == 0x2b || s[0] == 0x2d)
}

pub open spec fn sign_of(s: Seq<u8>) -> bool {
    s.len() > 0 && s[0] == 0x2d
}

/// `s` with a leading sign character removed.
pub open spec fn body_of(s: Seq<u8>) -> Seq<u8> {
    if has_sign(s) {
        s.skip(1)
    } else {
        s
    }
}

/// The digits before the decimal point.
pub open spec fn int_digits(s: Seq<u8>) -> Seq<u8> {
    let t = body_of(s);
    t.take(find_byte(t, 0x2e))
}

/// The digits after the decimal point (empty when there is no point).
pub open spec fn frac_digits(s: Seq<u8>) -> Seq<u8> {
    let t = body_of(s);
    let d = find_byte(t, 0x2e);
    if d == t.len() {
        Seq::empty()
    } else {
        t.skip(d + 1)
    }
}

/// `s` is an optional sign, digits, and at most one decimal point, with at
/// least one digit overall.
pub open spec fn dec_shape_ok(s: Seq<u8>) -> bool {
    &&& all_digits(int_digits(s))
    &&& all_digits(frac_digits(s))
    &&& int_digits(s).len() + frac_digits(s).len() >= 1
}

/// All the digits of `s`, the decimal point dropped.
pub open spec fn dec_digits(s: Seq<u8>) -> Seq<u8> {
    int_digits(s) + frac_digits(s)
}

/// The decimal number written by `s`: `None` when `s` is not an optionally
/// signed decimal numeral, or when its digits overflow a 64-bit mantissa.
pub open spec fn dec_of(s: Seq<u8>) -> Option<FixedDecimal> {
    if dec_shape_ok(s) && digits_val(dec_digits(s)) <= u64::MAX && frac_digits(s).len()
        <= u32::MAX {
        Some(
            FixedDecimal {
                negative: sign_of(s),
                mantissa: digits_val(dec_digits(s)) as u64,
                scale: frac_digits(s).len() as u32,
            },
        )
    } else {
        None
    }
}

proof fn lemma_digits_val_grows(s: Seq<u8>)
    requires
        all_digits(s),
    ensures
        forall|i: int| 0 <= i <= s.len() ==> digits_val(#[trigger] s.take(i)) <= digits_val(s),
    decreases s.len(),
{
    if s.len() > 0 {
        lemma_digits_val_grows(s.drop_last());
        assert forall|i: int| 0 <= i <= s.len() implies digits_val(#[trigger] s.take(i))
            <= digits_val(s) by {
            if i < s.len() {
                assert(s.drop_last().take(i) =~= s.take(i));
            } else {
                assert(s.take(i) =~= s);
            }
        }
    }
}

/// Parses an optionally signed decimal numeral from `s`.
#[verifier::loop_isolation(false)]
#[verifier::rlimit(60)]
pub fn parse_decimal(s: &[u8]) -> (r: Option<FixedDecimal>)
    ensures
        r == dec_of(s@),
{
    let n = s.len();
    let mut i: usize = 0;
    let mut negative = false;
    if n > 0 && (s[0] == 0x2b || s[0] == 0x2d) {
        negative = s[0] == 0x2d;
        i = 1;
    }
    let ghost body = body_of(s@);
    proof {
        assert(body =~= s@.subrange(i as int, n as int));
        lemma_find_byte(body, 0x2e);
    }
    let body_start = i;
    let mut digits: Vec<u8> = Vec::new();
    // Digits before the decimal point.
    let mut j = i;
    while j < n && s[j] != 0x2e
        invariant
            body_start <= j <= n,
            n == s@.len(),
            body =~= s@.subrange(body_start as int, n as int),
            forall|m: int| 0 <= m < j - body_start ==> body[m] != 0x2e,
            digits@ =~= body.take(j - body_start),
            all_digits(digits@),
        decreases n - j,
    {
        if s[j] < 0x30 || s[j] > 0x39 {
            proof {
                assert(body[j - body_start] == s@[j as int]);
                if find_byte(body, 0x2e) > j - body_start {
                    assert(int_digits(s@)[j - body_start] == body[j - body_start]);
                    assert(!all_digits(int_digits(s@)));
                } else {
                    assert(find_byte(body, 0x2e) == j - body_start);
                }
            }
            return None;
        }
        digits.push(s[j]);
        proof {
            assert(body.take(j + 1 - body_start) =~= body.take(j - body_start).push(
                body[j - body_start],
            ));
        }
        j += 1;
    }
    proof {
        if j == n {
            assert(find_byte(body, 0x2e) == body.len());
        } else {
            assert(body[j - body_start] == 0x2e);
            assert(find_byte(body, 0x2e) == j - body_start);
        }
        assert(digits@ =~= int_digits(s@));
    }
    let int_len = digits.len();
    // Digits after the decimal point, if there is one.
    if j < n {
        let mut k = j + 1;
        while k < n
            invariant
                j + 1 <= k <= n,
                n == s@.len(),
                body =~= s@.subrange(body_start as int, n as int),
                find_byte(body, 0x2e) == j - body_start,
                body_start <= j < n,
                digits@ =~= int_digits(s@) + frac_digits(s@).take(k - j - 1),
                all_digits(digits@),
            decreases n - k,
        {
            proof {
                assert(frac_digits(s@)[k - j - 1] == body[k - body_start]);
                assert(body[k - body_start] == s@[k as int]);
            }
            if s[k] < 0x30 || s[k] > 0x39 {
                proof {
                    assert(!all_digits(frac_digits(s@)));
                }
                return None;
            }
            digits.push(s[k]);
            proof {
                let prev = int_digits(s@) + frac_digits(s@).take(k - j - 1);
                let next = int_digits(s@) + frac_digits(s@).take(k + 1 - j - 1);
                assert(next =~= prev.push(frac_digits(s@)[k - j - 1]));
            }
            k += 1;
        }
        proof {
            assert(frac_digits(s@).take(n - j - 1) =~= frac_digits(s@));
        }
    } else {
        proof {
            assert(frac_digits(s@) =~= Seq::<u8>::empty());
            assert(digits@ =~= int_digits(s@) + frac_digits(s@));
        }
    }
    proof {
        assert(digits@ =~= dec_digits(s@));
    }
    if digits.len() == 0 {
        return None;
    }
    let frac_len = digits.len() - int_len;
    if frac_len > 0xffff_ffff {
        return None;
    }
    // The mantissa, most significant digit first.
    let mut mant: u64 = 0;
    let mut k: usize = 0;
    while k < digits.len()
        invariant
            0 <= k <= digits@.len(),
            all_digits(digits@),
            mant == digits_val(digits@.take(k as int)),
        decreases digits@.len() - k,
    {
        let d = digits[k] - 0x30;
        proof {
            assert(digits@.take(k + 1).drop_last() =~= digits@.take(k as int));
            assert(digits@.take(k + 1).last() == digits@[k as int]);
        }
        if mant > (u64::MAX - d as u64) / 10 {
            proof {
                lemma_digits_val_grows(digits@);
                assert(digits_val(digits@.take(k + 1)) > u64::MAX);
            }
            return None;
        }
        mant = mant * 10 + d as u64;
        k += 1;
    }
    proof {
        assert(digits@.take(digits@.len() as int) =~= digits@);
        assert(digits@ =~= dec_digits(s@));
        assert forall|m: int| 0 <= m < int_digits(s@).len() implies is_ascii_digit(
            #[trigger] int_digits(s@)[m],
        ) by {
            assert(digits@[m] == int_digits(s@)[m]);
        }
        assert forall|m: int| 0 <= m < frac_digits(s@).len() implies is_ascii_digit(
            #[trigger] frac_digits(s@)[m],
        ) by {
            assert(digits@[int_len + m] == frac_digits(s@)[m]);
        }
        assert(dec_shape_ok(s@));
        assert(mant == digits_val(dec_digits(s@)));
        assert(frac_len == frac_digits(s@).len());
    }
    Some(FixedDecimal { negative, mantissa: mant, scale: frac_len as u32 })
}

/// The signed 32-bit integer written by `s`: `None` when `s` is not an
/// optionally signed run of digits, or when the value is out of range.
pub open spec fn int_of(s: Seq<u8>) -> Option<i32> {
    let body = body_of(s);
    if all_digits(body) && body.len() >= 1 {
        if sign_of(s) {
            if digits_val(body) <= 0x8000_0000 {
                Some((-(digits_val(body) as int)) as i32)
            } else {
                None
            }
        } else {
            if digits_val(body) <= 0x7fff_ffff {
                Some(digits_val(body) as i32)
            } else {
                None
            }
        }
    } else {
        None
    }
}

/// Parses an optionally signed 32-bit integer from `s`.
#[verifier::loop_isolation(false)]
pub fn parse_i32(s: &[u8]) -> (r: Option<i32>)
    ensures
        r == int_of(s@),
{
    let n = s.len();
    let mut i: usize = 0;
    let mut negative = false;
    if n > 0 && (s[0] == 0x2b || s[0] == 0x2d) {
        negative = s[0] == 0x2d;
        i = 1;
    }
    let ghost body = body_of(s@);
    proof {
        assert(body =~= s@.subrange(i as int, n as int));
    }
    if i == n {
        return None;
    }
    let body_start = i;
    let mut acc: u64 = 0;
    while i < n
        invariant
            body_start <= i <= n,
            n == s@.len(),
            body =~= s@.subrange(body_start as int, n as int),
            all_digits(body.take(i - body_start)),
            acc == digits_val(body.take(i - body_start)),
            acc <= 0x8000_0000,
        decreases n - i,
    {
        proof {
            assert(body[i - body_start] == s@[i as int]);
        }
        if s[i] < 0x30 || s[i] > 0x39 {
            proof {
                assert(!is_ascii_digit(body[i - body_start]));
            }
            return None;
        }
        let d = s[i] - 0x30;
        proof {
            assert(body.take(i + 1 - body_start).drop_last() =~= body.take(i - body_start));
            assert(body.take(i + 1 - body_start).last() == body[i - body_start]);
        }
        acc = acc * 10 + d as u64;
        i += 1;
        if acc > 0x8000_0000 {
            proof {
                let ghost pre = body.take(i - body_start);
                assert forall|m: int| 0 <= m < body.len() implies is_ascii_digit(
                    #[trigger] body[m],
                ) || !all_digits(body) by {}
                if all_digits(body) {
                    lemma_digits_val_grows(body);
                    assert(digits_val(pre) <= digits_val(body));
                }
            }
            return None;
        }
    }
    proof {
        assert(body.take(n - body_start) =~= body);
    }
    if negative {
        if acc <= 0x7fff_ffff {
            Some(-(acc as i32))
        } else {
            Some(i32::MIN)
        }
    } else {
        if acc <= 0x7fff_ffff {
            Some(acc as i32)
        } else {
            None
        }
    }
}

proof fn lemma_pow10_pos(n: nat)
    ensures
        pow10(n) >= 1,
    decreases n,
{
    if n > 0 {
        lemma_pow10_pos((n - 1) as nat);
    }
}

proof fn lemma_pow10_add(a: nat, b: nat)
    ensures
        pow10(a + b) == pow10(a) * pow10(b),
    decreases a,
{
    if a == 0 {
        assert(pow10(0 + b) == 1 * pow10(b));
    } else {
        lemma_pow10_add((a - 1) as nat, b);
        assert(pow10(a + b) == 10 * pow10((a - 1) as nat + b)) by {
            assert(a + b == ((a + b) - 1) + 1);
        }
        assert(10 * (pow10((a - 1) as nat) * pow10(b)) == (10 * pow10((a - 1) as nat)) * pow10(
            b,
        )) by (nonlinear_arith);
    }
}

/// Denoting the same number is transitive.
pub proof fn lemma_dec_eq_trans(x: FixedDecimal, y: FixedDecimal, z: FixedDecimal)
    requires
        dec_eq(x, y),
        dec_eq(y, z),
    ensures
        dec_eq(x, z),
{
    let sx = signed_mantissa(x);
    let sy = signed_mantissa(y);
    let sz = signed_mantissa(z);
    let px = pow10(x.scale as nat);
    let py = pow10(y.scale as nat);
    let pz = pow10(z.scale as nat);
    lemma_pow10_pos(y.scale as nat);
    assert((sx * py) * pz == (sy * px) * pz && (sy * pz) * px == (sz * py) * px ==> (sx * pz) * py
        == (sz * px) * py) by (nonlinear_arith);
    assert((sx * pz) * py == (sz * px) * py && py >= 1 ==> sx * pz == sz * px) by (
    nonlinear_arith);
}

/// No trailing zero digit is left in the fraction, and zero is written one
/// way only.
pub open spec fn is_normal(d: FixedDecimal) -> bool {
    &&& (d.mantissa == 0 ==> d.scale == 0 && !d.negative)
    &&& (d.scale > 0 ==> d.mantissa % 10 != 0)
}

/// Two normal forms denoting the same number are identical.
proof fn lemma_normal_unique(a: FixedDecimal, b: FixedDecimal)
    requires
        is_normal(a),
        is_normal(b),
        dec_eq(a, b),
    ensures
        a == b,
{
    let pa = pow10(a.scale as nat);
    let pb = pow10(b.scale as nat);
    lemma_pow10_pos(a.scale as nat);
    lemma_pow10_pos(b.scale as nat);
    if a.mantissa == 0 {
        assert(signed_mantissa(a) == 0);
        assert(signed_mantissa(a) * pb == 0) by (nonlinear_arith)
            requires
                signed_mantissa(a) == 0,
        ;
        assert(signed_mantissa(b) * pa == 0);
        assert(signed_mantissa(b) == 0) by (nonlinear_arith)
            requires
                signed_mantissa(b) * pa == 0,
                pa >= 1,
        ;
        assert(b.mantissa == 0);
    } else if b.mantissa == 0 {
        assert(signed_mantissa(b) == 0);
        assert(signed_mantissa(b) * pa == 0) by (nonlinear_arith)
            requires
                signed_mantissa(b) == 0,
        ;
        assert(signed_mantissa(a) * pb == 0);
        assert(signed_mantissa(a) == 0) by (nonlinear_arith)
            requires
                signed_mantissa(a) * pb == 0,
                pb >= 1,
        ;
        assert(a.mantissa == 0);
    } else {
        // signs must agree on a nonzero value
        assert(a.negative == b.negative) by (nonlinear_arith)
            requires
                signed_mantissa(a) * pb == signed_mantissa(b) * pa,
                pa >= 1,
                pb >= 1,
                a.mantissa > 0,
                b.mantissa > 0,
                signed_mantissa(a) == (if a.negative {
                    -(a.mantissa as int)
                } else {
                    a.mantissa as int
                }),
                signed_mantissa(b) == (if b.negative {
                    -(b.mantissa as int)
                } else {
                    b.mantissa as int
                }),
        ;
        assert(a.mantissa * pb == b.mantissa * pa) by (nonlinear_arith)
            requires
                signed_mantissa(a) * pb == signed_mantissa(b) * pa,
                a.negative == b.negative,
                signed_mantissa(a) == (if a.negative {
                    -(a.mantissa as int)
                } else {
                    a.mantissa as int
                }),
                signed_mantissa(b) == (if b.negative {
                    -(b.mantissa as int)
                } else {
                    b.mantissa as int
                }),
        ;
        if a.scale < b.scale {
            lemma_scale_gap(a, b);
            assert(b.scale > 0 && b.mantissa % 10 == 0);
            assert(false);
        } else if b.scale < a.scale {
            lemma_scale_gap(b, a);
            assert(a.scale > 0 && a.mantissa % 10 == 0);
            assert(false);
        } else {
            assert(pa == pb);
            assert(a.mantissa == b.mantissa) by (nonlinear_arith)
                requires
                    a.mantissa * pb == b.mantissa * pa,
                    pa == pb,
                    pa >= 1,
            ;
        }
    }
}

/// A smaller scale with equal value forces a trailing zero digit on the
/// larger-scale side, which a normal form forbids.
proof fn lemma_scale_gap(a: FixedDecimal, b: FixedDecimal)
    requires
        a.scale < b.scale,
        a.mantissa > 0,
        b.mantissa > 0,
        a.mantissa * pow10(b.scale as nat) == b.mantissa * pow10(a.scale as nat),
    ensures
        b.mantissa % 10 == 0,
{
    let d = (b.scale - a.scale) as nat;
    let pa = pow10(a.scale as nat);
    lemma_pow10_pos(a.scale as nat);
    lemma_pow10_add(a.scale as nat, d);
    assert(pow10(b.scale as nat) == pa * pow10(d));
    assert(a.mantissa * (pa * pow10(d)) == (a.mantissa * pow10(d)) * pa) by (nonlinear_arith);
    assert((a.mantissa * pow10(d)) * pa == b.mantissa * pa ==> a.mantissa * pow10(d) == b.mantissa)
        by (nonlinear_arith)
        requires
            pa >= 1,
    ;
    assert(pow10(d) == 10 * pow10((d - 1) as nat));
    assert(b.mantissa == (a.mantissa * pow10((d - 1) as nat)) * 10) by (nonlinear_arith)
        requires
            b.mantissa == a.mantissa * (10 * pow10((d - 1) as nat)),
    ;
    assert(b.mantissa % 10 == 0) by (nonlinear_arith)
        requires
            b.mantissa == (a.mantissa * pow10((d - 1) as nat)) * 10,
    ;
}

impl FixedDecimal {
    /// The same number with trailing zero digits stripped from the fraction
    /// and zero written one way only.
    #[verifier::loop_isolation(false)]
    pub fn normalized(self) -> (r: FixedDecimal)
        ensures
            dec_eq(r, self),
            is_normal(r),
    {
        if self.mantissa == 0 {
            let r = FixedDecimal { negative: false, mantissa: 0, scale: 0 };
            proof {
                lemma_pow10_pos(self.scale as nat);
                assert(signed_mantissa(r) * pow10(self.scale as nat) == 0);
                assert(signed_mantissa(self) == 0);
            }
            return r;
        }
        let mut m = self.mantissa;
        let mut s = self.scale;
        while s > 0 && m % 10 == 0
            invariant
                m >= 1,
                m * pow10(self.scale as nat) == self.mantissa * pow10(s as nat),
            decreases s,
        {
            proof {
                assert(pow10(s as nat) == 10 * pow10((s - 1) as nat));
                assert((m / 10) * pow10(self.scale as nat) * 10 == m * pow10(self.scale as nat))
                    by (nonlinear_arith)
                    requires
                        m % 10 == 0,
                        m >= 1,
                ;
                assert(self.mantissa * pow10(s as nat) == (self.mantissa * pow10(
                    (s - 1) as nat,
                )) * 10) by (nonlinear_arith)
                    requires
                        pow10(s as nat) == 10 * pow10((s - 1) as nat),
                ;
                assert((m / 10) * pow10(self.scale as nat) == self.mantissa * pow10((s - 1) as nat))
                    by (nonlinear_arith)
                    requires
                        (m / 10) * pow10(self.scale as nat) * 10 == (self.mantissa * pow10(
                            (s - 1) as nat,
                        )) * 10,
                ;
            }
            m = m / 10;
            s = s - 1;
        }
        let r = FixedDecimal { negative: self.negative, mantissa: m, scale: s };
        proof {
            assert(signed_mantissa(r) * pow10(self.scale as nat) == signed_mantissa(self) * pow10(
                s as nat,
            )) by (nonlinear_arith)
                requires
                    m * pow10(self.scale as nat) == self.mantissa * pow10(s as nat),
                    signed_mantissa(r) == (if self.negative {
                        -(m as int)
                    } else {
                        m as int
                    }),
                    signed_mantissa(self) == (if self.negative {
                        -(self.mantissa as int)
                    } else {
                        self.mantissa as int
                    }),
            ;
        }
        r
    }

    /// Whether `self` and `other` denote the same rational number, whatever
    /// their written form.
    pub fn eq_value(self, other: FixedDecimal) -> (r: bool)
        ensures
            r == dec_eq(self, other),
    {
        let a = self.normalized();
        let b = other.normalized();
        proof {
            if a == b {
                lemma_dec_eq_trans_chain(self, a, b, other);
            } else {
                if dec_eq(self, other) {
                    lemma_dec_eq_sym(a, self);
                    lemma_dec_eq_trans(a, self, other);
                    lemma_dec_eq_sym(b, other);
                    lemma_dec_eq_sym(other, b);
                    lemma_dec_eq_trans(a, other, b);
                    lemma_normal_unique(a, b);
                    assert(false);
                }
            }
        }
        a == b
    }
}

/// Denoting the same number is symmetric.
pub proof fn lemma_dec_eq_sym(x: FixedDecimal, y: FixedDecimal)
    requires
        dec_eq(x, y),
    ensures
        dec_eq(y, x),
{
}

proof fn lemma_dec_eq_trans_chain(
    x: FixedDecimal,
    a: FixedDecimal,
    b: FixedDecimal,
    y: FixedDecimal,
)
    requires
        dec_eq(a, x),
        dec_eq(b, y),
        a == b,
    ensures
        dec_eq(x, y),
{
    lemma_dec_eq_sym(a, x);
    lemma_dec_eq_trans(x, a, b);
    lemma_dec_eq_trans(x, b, y);
}

} // verus!
