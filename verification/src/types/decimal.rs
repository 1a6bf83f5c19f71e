//! Fixed-point decimal numbers as the exchange exchanges them: an integer
//! mantissa over a power of ten, with at most 28 fractional digits and a
//! mantissa of at most 96 bits.
use vstd::prelude::*;
use crate::text::{decimal_text, padded_digits, push_char, push_decimal_u128, push_padded_digits};

verus! {

/// Largest scale (number of fractional digits) a decimal can carry.
pub const MAX_SCALE: u32 = 28;

/// Largest magnitude of a mantissa: 2^96 - 1.
pub const MAX_MANTISSA: i128 = 0xFFFF_FFFF_FFFF_FFFF_FFFF_FFFFi128;

/// 10^n.
pub open spec fn pow10(n: nat) -> nat
    decreases n,
{
    if n == 0 {
        1
    } else {
        10 * pow10((n - 1) as nat)
    }
}

/// The same number with trailing zeros of the mantissa stripped, and zero
/// written with scale 0.
pub open spec fn strip_trailing_zeros(m: int, s: nat) -> (int, nat)
    decreases s,
{
    if m == 0 {
        (0, 0)
    } else if s == 0 || m % 10 != 0 {
        (m, s)
    } else {
        strip_trailing_zeros(m / 10, (s - 1) as nat)
    }
}

/// A decimal number `mantissa / 10^scale`.
#[derive(Clone, Copy, Debug)]
pub struct Decimal {
    mantissa: i128,
    scale: u32,
}

impl Decimal {
    #[verifier::type_invariant]
    spec fn well_formed(self) -> bool {
        &&& self.scale <= MAX_SCALE
        &&& -MAX_MANTISSA <= self.mantissa <= MAX_MANTISSA
    }

    /// The mantissa.
    pub closed spec fn spec_mantissa(self) -> int {
        self.mantissa as int
    }

    /// The number of fractional digits.
    pub closed spec fn spec_scale(self) -> nat {
        self.scale as nat
    }

    /// The decimal `mantissa / 10^scale`, or `None` when the scale exceeds 28
    /// or the mantissa does not fit in 96 bits.
    pub fn from_parts(mantissa: i128, scale: u32) -> (r: Option<Decimal>)
        ensures
            r is Some <==> (scale <= MAX_SCALE && -MAX_MANTISSA <= mantissa <= MAX_MANTISSA),
            r matches Some(d) ==> d.spec_mantissa() == mantissa && d.spec_scale() == scale,
    {
        if scale <= MAX_SCALE && -MAX_MANTISSA <= mantissa && mantissa <= MAX_MANTISSA {
            Some(Decimal { mantissa, scale })
        } else {
            None
        }
    }

    /// The decimal `num / 10^scale`.
    pub fn new(num: i64, scale: u32) -> (d: Decimal)
        requires
            scale <= MAX_SCALE,
        ensures
            d.spec_mantissa() == num,
            d.spec_scale() == scale,
    {
        Decimal { mantissa: num as i128, scale }
    }

    /// Zero.
    pub fn zero() -> (d: Decimal)
        ensures
            d.spec_mantissa() == 0,
            d.spec_scale() == 0,
    {
        Decimal { mantissa: 0, scale: 0 }
    }

    /// The mantissa.
    pub fn mantissa(&self) -> (m: i128)
        ensures
            m == self.spec_mantissa(),
            -MAX_MANTISSA <= m <= MAX_MANTISSA,
    {
        proof {
            use_type_invariant(self);
        }
        self.mantissa
    }

    /// The number of fractional digits.
    pub fn scale(&self) -> (s: u32)
        ensures
            s == self.spec_scale(),
            s <= MAX_SCALE,
    {
        proof {
            use_type_invariant(self);
        }
        self.scale
    }
}

/// `Decimal::normalize` of `rust_decimal`: drops trailing zeros of the
/// mantissa (lowering the scale by as many) and writes zero with scale 0.
/// The contract states what the crate's source does in `normalize_assign`.
#[verifier::external_body]
pub(crate) fn normalize_parts(mantissa: i128, scale: u32) -> (r: (i128, u32))
    requires
        scale <= MAX_SCALE,
        -MAX_MANTISSA <= mantissa <= MAX_MANTISSA,
    ensures
        (r.0 as int, r.1 as nat) == strip_trailing_zeros(mantissa as int, scale as nat),
{
    let d = rust_decimal::Decimal::from_i128_with_scale(mantissa, scale).normalize();
    (d.mantissa(), d.scale())
}

/// Stripping trailing zeros keeps the scale within its bound and the mantissa's
/// magnitude from growing.
pub proof fn lemma_strip_bounds(m: int, s: nat)
    ensures
        strip_trailing_zeros(m, s).1 <= s,
        m > 0 ==> 0 < strip_trailing_zeros(m, s).0 <= m,
        m == 0 ==> strip_trailing_zeros(m, s).0 == 0,
        m < 0 ==> m <= strip_trailing_zeros(m, s).0 < 0,
    decreases s,
{
    if m != 0 && s != 0 && m % 10 == 0 {
        lemma_strip_bounds(m / 10, (s - 1) as nat);
    }
}

/// Whether the value of `a` is below that of `b` (as rationals).
pub open spec fn value_lt(a: Decimal, b: Decimal) -> bool {
    a.spec_mantissa() * pow10(b.spec_scale()) < b.spec_mantissa() * pow10(a.spec_scale())
}

/// Whether `a` and `b` have the same value (as rationals), whatever their
/// scales.
pub open spec fn value_eq(a: Decimal, b: Decimal) -> bool {
    a.spec_mantissa() * pow10(b.spec_scale()) == b.spec_mantissa() * pow10(a.spec_scale())
}

/// `<` of `rust_decimal::Decimal`, which compares values: whether
/// `ma / 10^sa` is below `mb / 10^sb`.
#[verifier::external_body]
fn parts_lt(ma: i128, sa: u32, mb: i128, sb: u32) -> (r: bool)
    requires
        sa <= MAX_SCALE,
        sb <= MAX_SCALE,
        -MAX_MANTISSA <= ma <= MAX_MANTISSA,
        -MAX_MANTISSA <= mb <= MAX_MANTISSA,
    ensures
        r == (ma * pow10(sb as nat) < mb * pow10(sa as nat)),
{
    rust_decimal::Decimal::from_i128_with_scale(ma, sa) < rust_decimal::Decimal::from_i128_with_scale(mb, sb)
}

/// `==` of `rust_decimal::Decimal`, which compares values: whether
/// `ma / 10^sa` equals `mb / 10^sb`.
#[verifier::external_body]
fn parts_eq(ma: i128, sa: u32, mb: i128, sb: u32) -> (r: bool)
    requires
        sa <= MAX_SCALE,
        sb <= MAX_SCALE,
        -MAX_MANTISSA <= ma <= MAX_MANTISSA,
        -MAX_MANTISSA <= mb <= MAX_MANTISSA,
    ensures
        r == (ma * pow10(sb as nat) == mb * pow10(sa as nat)),
{
    rust_decimal::Decimal::from_i128_with_scale(ma, sa) == rust_decimal::Decimal::from_i128_with_scale(mb, sb)
}

impl Decimal {
    /// Whether the value of `self` is below that of `other`.
    pub fn lt_value(&self, other: &Decimal) -> (r: bool)
        ensures
            r == value_lt(*self, *other),
    {
        proof {
            use_type_invariant(self);
            use_type_invariant(other);
        }
        parts_lt(self.mantissa, self.scale, other.mantissa, other.scale)
    }

    /// Whether `self` and `other` have the same value.
    pub fn eq_value(&self, other: &Decimal) -> (r: bool)
        ensures
            r == value_eq(*self, *other),
    {
        proof {
            use_type_invariant(self);
            use_type_invariant(other);
        }
        parts_eq(self.mantissa, self.scale, other.mantissa, other.scale)
    }
}

/// Powers of ten are positive.
pub proof fn lemma_pow10_positive(n: nat)
    ensures
        pow10(n) > 0,
    decreases n,
{
    if n > 0 {
        lemma_pow10_positive((n - 1) as nat);
    }
}

/// Values of decimals are totally ordered: exactly one of below, equal and
/// above holds, and being below is transitive, as is being equal.
pub proof fn lemma_value_order(a: Decimal, b: Decimal, c: Decimal)
    ensures
        value_lt(a, b) || value_eq(a, b) || value_lt(b, a),
        !(value_lt(a, b) && value_eq(a, b)),
        !(value_lt(a, b) && value_lt(b, a)),
        value_eq(a, b) ==> value_eq(b, a),
        value_eq(a, a),
        value_lt(a, b) && value_lt(b, c) ==> value_lt(a, c),
        value_lt(a, b) && value_eq(b, c) ==> value_lt(a, c),
        value_eq(a, b) && value_lt(b, c) ==> value_lt(a, c),
        value_eq(a, b) && value_eq(b, c) ==> value_eq(a, c),
{
    let pa = pow10(a.spec_scale());
    let pb = pow10(b.spec_scale());
    let pc = pow10(c.spec_scale());
    lemma_pow10_positive(a.spec_scale());
    lemma_pow10_positive(b.spec_scale());
    lemma_pow10_positive(c.spec_scale());
    let ma = a.spec_mantissa();
    let mb = b.spec_mantissa();
    let mc = c.spec_mantissa();
    assert(ma * pb < mb * pa && mb * pc < mc * pb ==> ma * pc < mc * pa) by (nonlinear_arith)
        requires
            pa > 0,
            pb > 0,
            pc > 0,
    {
        if ma * pb < mb * pa && mb * pc < mc * pb {
            assert(ma * pb * pc < mb * pa * pc);
            assert(mb * pc * pa < mc * pb * pa);
            assert(ma * pc * pb < mc * pa * pb);
        }
    }
    assert(ma * pb < mb * pa && mb * pc == mc * pb ==> ma * pc < mc * pa) by (nonlinear_arith)
        requires
            pa > 0,
            pb > 0,
            pc > 0,
    {
        if ma * pb < mb * pa && mb * pc == mc * pb {
            assert(ma * pb * pc < mb * pa * pc);
            assert(mb * pc * pa == mc * pb * pa);
            assert(ma * pc * pb < mc * pa * pb);
        }
    }
    assert(ma * pb == mb * pa && mb * pc < mc * pb ==> ma * pc < mc * pa) by (nonlinear_arith)
        requires
            pa > 0,
            pb > 0,
            pc > 0,
    {
        if ma * pb == mb * pa && mb * pc < mc * pb {
            assert(ma * pb * pc == mb * pa * pc);
            assert(mb * pc * pa < mc * pb * pa);
            assert(ma * pc * pb < mc * pa * pb);
        }
    }
    assert(ma * pb == mb * pa && mb * pc == mc * pb ==> ma * pc == mc * pa) by (nonlinear_arith)
        requires
            pa > 0,
            pb > 0,
            pc > 0,
    {
        if ma * pb == mb * pa && mb * pc == mc * pb {
            assert(ma * pb * pc == mb * pa * pc);
            assert(mb * pc * pa == mc * pb * pa);
            assert(ma * pc * pb == mc * pa * pb);
        }
    }
}

/// The text of `m / 10^s` as `rust_decimal` prints it: a minus sign for a
/// negative value, the whole part, and, when the scale is positive, a point
/// and exactly `s` fractional digits (trailing zeros kept).
pub open spec fn decimal_display(m: int, s: nat) -> Seq<char> {
    let a: nat = (if m < 0 { -m } else { m }) as nat;
    (if m < 0 { seq!['-'] } else { Seq::<char>::empty() }) + decimal_text(a / pow10(s)) + (if s == 0 {
        Seq::<char>::empty()
    } else {
        seq!['.'] + padded_digits(a % pow10(s), s)
    })
}

impl Decimal {
    /// The text of the number (its `Display`), e.g. `-0.050` for mantissa
    /// -50 and scale 3.
    pub fn to_string(&self) -> (r: String)
        ensures
            r@ == decimal_display(self.spec_mantissa(), self.spec_scale()),
    {
        proof {
            use_type_invariant(self);
            lemma_pow10_values(self.scale as nat);
        }
        let mut out = String::new();
        let neg = self.mantissa < 0;
        if neg {
            push_char(&mut out, '-');
        }
        let a: u128 = if neg { (-self.mantissa) as u128 } else { self.mantissa as u128 };
        let p = pow10_of(self.scale);
        push_decimal_u128(&mut out, a / p);
        if self.scale > 0 {
            push_char(&mut out, '.');
            push_padded_digits(&mut out, a % p, self.scale);
        }
        proof {
            let m = self.spec_mantissa();
            let sign = if m < 0 { seq!['-'] } else { Seq::<char>::empty() };
            let whole = decimal_text((a as nat) / pow10(self.scale as nat));
            if self.scale > 0 {
                let frac = seq!['.'] + padded_digits((a as nat) % pow10(self.scale as nat), self.scale as nat);
                assert(out@ =~= sign + whole + frac);
            } else {
                assert(out@ =~= sign + whole + Seq::<char>::empty());
            }
        }
        out
    }
}

/// 10^n for a scale, as a 128-bit integer.
fn pow10_of(n: u32) -> (r: u128)
    requires
        n <= MAX_SCALE,
    ensures
        r == pow10(n as nat),
        r >= 1,
{
    let mut r: u128 = 1;
    let mut i: u32 = 0;
    proof {
        lemma_pow10_values(28);
    }
    while i < n
        invariant
            i <= n <= MAX_SCALE,
            r == pow10(i as nat),
            1 <= r <= pow10(i as nat),
            pow10(28) == 10_000_000_000_000_000_000_000_000_000nat,
        decreases n - i,
    {
        proof {
            lemma_pow10_values((i + 1) as nat);
            lemma_pow10_grows((i + 1) as nat, 28);
        }
        r = r * 10;
        i = i + 1;
    }
    r
}

/// Powers of ten are positive, and 10^28 is what it is.
proof fn lemma_pow10_values(n: nat)
    ensures
        pow10(n) >= 1,
        pow10(28) == 10_000_000_000_000_000_000_000_000_000nat,
{
    lemma_pow10_positive(n);
    reveal_with_fuel(pow10, 29);
}

/// Powers of ten grow with the exponent.
proof fn lemma_pow10_grows(i: nat, j: nat)
    requires
        i <= j,
    ensures
        pow10(i) <= pow10(j),
    decreases j,
{
    if i < j {
        lemma_pow10_grows(i, (j - 1) as nat);
        lemma_pow10_positive((j - 1) as nat);
    }
}

} // verus!
