//! Prices in euro, held as a decimal number `mantissa / 10^scale` in the
//! ranges that `rust_decimal::Decimal` allows, and their conversion to whole
//! cents for storage.
use vstd::prelude::*;

verus! {

/// The largest mantissa magnitude a `Decimal` can hold: 2^96 - 1.
pub const MAX_MANTISSA: i128 = 0xFFFF_FFFF_FFFF_FFFF_FFFF_FFFFi128;

/// The largest scale a `Decimal` can hold.
pub const MAX_SCALE: u32 = 28u32;

pub open spec fn pow10(n: nat) -> nat
    decreases n,
{
    if n == 0 {
        1
    } else {
        10 * pow10((n - 1) as nat)
    }
}

pub open spec fn abs(x: int) -> int {
    if x < 0 {
        -x
    } else {
        x
    }
}

/// A (mantissa, scale) pair that a `Decimal` can hold.
pub open spec fn valid_parts(p: (i128, u32)) -> bool {
    &&& p.1 <= MAX_SCALE
    &&& -MAX_MANTISSA <= p.0 <= MAX_MANTISSA
}

/// `ToPrimitive::to_i64` of the decimal `p.0 / 10^p.1`: the value truncated
/// toward zero, when that fits an `i64`.
pub open spec fn decimal_to_i64_spec(p: (i128, u32)) -> Option<i64> {
    let q = abs(p.0 as int) / (pow10(p.1 as nat) as int);
    if p.0 >= 0 {
        if q <= i64::MAX {
            Some(q as i64)
        } else {
            None
        }
    } else {
        if q <= 0x8000_0000_0000_0000 {
            Some((-q) as i64)
        } else {
            None
        }
    }
}

/// What `<Decimal as FromStr>::from_str` gives for a text, as (mantissa, scale).
pub uninterp spec fn decimal_from_str(text: Seq<char>) -> Option<(i128, u32)>;

/// What `Decimal::checked_mul` gives for two decimals, as (mantissa, scale).
pub uninterp spec fn decimal_checked_mul(a: (i128, u32), b: (i128, u32)) -> Option<(i128, u32)>;

/// `<Decimal as FromStr>::from_str` (rust_decimal): parses a decimal number,
/// also in scientific notation. The contract names the result and states the
/// ranges that every `Decimal` keeps (its mantissa is built from three 32-bit
/// words, its scale is at most 28); the grammar itself is not stated.
#[verifier::external_body]
fn parse_decimal(text: &str) -> (r: Option<(i128, u32)>)
    ensures
        r == decimal_from_str(text@),
        r matches Some(p) ==> valid_parts(p),
{
    match text.parse::<::rust_decimal::Decimal>() {
        Ok(d) => Some((d.mantissa(), d.scale())),
        Err(_) => None,
    }
}

/// The integer `num`, read at `scale` decimals, can be held exactly by a
/// decimal: dropping `d` trailing zero digits leaves a mantissa of at most 96
/// bits at a scale of at most 28.
pub open spec fn representable(num: int, scale: nat) -> bool {
    exists|d: nat|
        #![trigger pow10(d)]
        d <= scale && scale - d <= MAX_SCALE && abs(num) % (pow10(d) as int) == 0 && abs(num) / (
        pow10(d) as int) <= MAX_MANTISSA
}

/// `Decimal::checked_mul` (rust_decimal), on decimals rebuilt from their parts
/// by `Decimal::from_i128_with_scale`. The contract names the result, states
/// that a result is a valid decimal, that a zero operand gives zero, and that
/// the product keeps its exact value whenever a decimal can hold that value:
/// `mul_impl` computes the full product, and `finish_mul` / `Buf24::rescale`
/// drop trailing digits only as far as needed to reach 96 bits and a scale of
/// 28, rounding only when a dropped digit is not zero. How the crate rounds a
/// product that no decimal holds exactly is not stated.
#[verifier::external_body]
fn checked_mul_decimal(a: (i128, u32), b: (i128, u32)) -> (r: Option<(i128, u32)>)
    requires
        valid_parts(a),
        valid_parts(b),
    ensures
        r == decimal_checked_mul(a, b),
        r matches Some(p) ==> valid_parts(p),
        (a.0 == 0 || b.0 == 0) ==> r == Some((0i128, 0u32)),
        (a.0 != 0 && b.0 != 0 && representable(a.0 * b.0, (a.1 + b.1) as nat)) ==> (r is Some
            && r.unwrap().1 <= a.1 + b.1 && r.unwrap().0 * pow10((a.1 + b.1 - r.unwrap().1) as nat)
            == a.0 * b.0),
{
    let x = ::rust_decimal::Decimal::from_i128_with_scale(a.0, a.1);
    let y = ::rust_decimal::Decimal::from_i128_with_scale(b.0, b.1);
    x.checked_mul(y).map(|d| (d.mantissa(), d.scale()))
}

/// `ToPrimitive::to_i64` for `Decimal` (rust_decimal), on a decimal rebuilt
/// from its parts: it truncates toward zero and gives `None` when the integer
/// part does not fit an `i64`.
#[verifier::external_body]
fn decimal_to_i64(p: (i128, u32)) -> (r: Option<i64>)
    requires
        valid_parts(p),
    ensures
        r == decimal_to_i64_spec(p),
{
    ::rust_decimal::prelude::ToPrimitive::to_i64(
        &::rust_decimal::Decimal::from_i128_with_scale(p.0, p.1),
    )
}

/// A price in euro: the decimal `mantissa / 10^scale`.
#[derive(Clone, Copy, Debug)]
pub struct PriceEur {
    mantissa: i128,
    scale: u32,
}

/// Why a price could not be stored as whole cents.
#[derive(Clone, Copy, Debug, PartialEq, Eq, Structural)]
pub enum PriceError {
    /// Multiplying by 100 overflowed the decimal range.
    Overflow,
    /// The number of cents does not fit an `i64`.
    CannotRepresentAsI64,
}

impl View for PriceEur {
    type V = (i128, u32);

    open spec fn view(&self) -> (i128, u32) {
        (self.spec_mantissa(), self.spec_scale())
    }
}

/// What storing a price as cents gives, from the result of multiplying it by 100.
pub open spec fn cents_of_product(product: Option<(i128, u32)>) -> Result<i64, PriceError> {
    match product {
        None => Err(PriceError::Overflow),
        Some(p) => match decimal_to_i64_spec(p) {
            Some(c) => Ok(c),
            None => Err(PriceError::CannotRepresentAsI64),
        },
    }
}

/// The cents of a price: `price * 100` truncated toward zero, when it fits an
/// `i64`.
pub open spec fn exact_cents(p: (i128, u32)) -> Result<i64, PriceError> {
    match decimal_to_i64_spec(((p.0 * 100) as i128, p.1)) {
        Some(c) => Ok(c),
        None => Err(PriceError::CannotRepresentAsI64),
    }
}

/// Turns the result of `price * 100` into whole cents: `Overflow` when the
/// product overflowed, else the product truncated toward zero when it fits an
/// `i64`.
pub fn cents_from_product(product: Option<(i128, u32)>) -> (r: Result<i64, PriceError>)
    requires
        product matches Some(p) ==> valid_parts(p),
    ensures
        r == cents_of_product(product),
{
    match product {
        None => Err(PriceError::Overflow),
        Some(p) => match decimal_to_i64(p) {
            Some(c) => Ok(c),
            None => Err(PriceError::CannotRepresentAsI64),
        },
    }
}

impl PriceEur {
    pub closed spec fn spec_mantissa(self) -> i128 {
        self.mantissa
    }

    pub closed spec fn spec_scale(self) -> u32 {
        self.scale
    }

    #[verifier::type_invariant]
    spec fn inv(self) -> bool {
        valid_parts((self.mantissa, self.scale))
    }

    /// The price `mantissa / 10^scale`, when a decimal can hold it.
    pub fn new(mantissa: i128, scale: u32) -> (r: Option<PriceEur>)
        ensures
            r is Some <==> valid_parts((mantissa, scale)),
            r matches Some(p) ==> p@ == (mantissa, scale),
    {
        if scale <= MAX_SCALE && -MAX_MANTISSA <= mantissa && mantissa <= MAX_MANTISSA {
            Some(PriceEur { mantissa, scale })
        } else {
            None
        }
    }

    /// The price held by a (mantissa, scale) pair that is known to be valid.
    pub fn from_parts(p: (i128, u32)) -> (r: PriceEur)
        requires
            valid_parts(p),
        ensures
            r@ == p,
    {
        PriceEur { mantissa: p.0, scale: p.1 }
    }

    pub fn mantissa(&self) -> (m: i128)
        ensures
            m == self@.0,
    {
        self.mantissa
    }

    pub fn scale(&self) -> (s: u32)
        ensures
            s == self@.1,
    {
        self.scale
    }

    /// The price in whole cents, as it is stored: `price * 100` by
    /// `Decimal::checked_mul` ("Overflow" when that fails), then
    /// `to_i64` ("cannot represent as i64" when that fails). Whenever a decimal
    /// can hold `price * 100` exactly, and so whenever `price * 100` truncated
    /// toward zero fits an `i64`, the result is that truncation.
    pub fn to_cents(&self) -> (r: Result<i64, PriceError>)
        ensures
            r == cents_of_product(decimal_checked_mul(self@, (100i128, 0u32))),
            representable(self@.0 * 100, self@.1 as nat) ==> r == exact_cents(self@),
            exact_cents(self@) is Ok ==> r == exact_cents(self@),
    {
        proof {
            use_type_invariant(self);
            law_cents_in_range_are_exact(self@);
        }
        let product = checked_mul_decimal((self.mantissa, self.scale), (100i128, 0u32));
        proof {
            if representable(self@.0 * 100, self@.1 as nat) {
                let exact = ((self.mantissa * 100) as i128, self.scale);
                if self.mantissa == 0 {
                    assert(exact.0 == 0);
                    assert(0i128 * pow10(self.scale as nat) == 0);
                    lemma_to_i64_rescaled((0i128, 0u32), exact);
                } else {
                    let p = product->0;
                    lemma_to_i64_rescaled(p, exact);
                }
            }
        }
        cents_from_product(product)
    }
}

pub proof fn lemma_pow10_positive(n: nat)
    ensures
        pow10(n) >= 1,
    decreases n,
{
    if n > 0 {
        lemma_pow10_positive((n - 1) as nat);
    }
}

pub proof fn lemma_pow10_add(a: nat, b: nat)
    ensures
        pow10(a + b) == pow10(a) * pow10(b),
    decreases a,
{
    if a > 0 {
        let a1 = (a - 1) as nat;
        lemma_pow10_add(a1, b);
        assert(pow10(a + b) == 10 * pow10(a1 + b));
        assert(pow10(a) == 10 * pow10(a1));
        assert(10 * (pow10(a1) * pow10(b)) == (10 * pow10(a1)) * pow10(b)) by (nonlinear_arith);
    } else {
        assert(pow10(a) == 1);
    }
}

/// Writing a decimal with `k` more trailing zero digits does not change its
/// integer part.
proof fn lemma_to_i64_rescaled(p: (i128, u32), q: (i128, u32))
    requires
        p.1 <= q.1,
        p.0 * pow10((q.1 - p.1) as nat) == q.0,
    ensures
        decimal_to_i64_spec(p) == decimal_to_i64_spec(q),
{
    let k = (q.1 - p.1) as nat;
    let c = pow10(k) as int;
    lemma_pow10_positive(k);
    lemma_pow10_positive(p.1 as nat);
    lemma_pow10_add(p.1 as nat, k);
    assert(p.1 as nat + k == q.1 as nat);
    let dp = pow10(p.1 as nat) as int;
    let dq = pow10(q.1 as nat) as int;
    assert(dq == c * dp) by (nonlinear_arith)
        requires
            dq == dp * c,
    ;
    let ap = abs(p.0 as int);
    assert(abs(q.0 as int) == c * ap && (q.0 >= 0 <==> p.0 >= 0)) by (nonlinear_arith)
        requires
            c >= 1,
            q.0 == p.0 * c,
            ap == abs(p.0 as int),
    ;
    vstd::arithmetic::div_mod::lemma_div_multiples_vanish_quotient(c, ap, dp);
}

/// A price with at most two decimals is stored exactly: when its mantissa
/// times 10^(2 - scale) fits an `i64`, a decimal holds `price * 100` exactly
/// and its cents are that number.
pub proof fn law_two_decimals_stored_exactly(p: (i128, u32))
    requires
        valid_parts(p),
        p.1 <= 2,
    ensures
        ({
            let c = p.0 * pow10((2 - p.1) as nat);
            exact_cents(p) == if i64::MIN <= c <= i64::MAX {
                Ok::<i64, PriceError>(c as i64)
            } else {
                Err::<i64, PriceError>(PriceError::CannotRepresentAsI64)
            }
        }),
        i64::MIN <= p.0 * pow10((2 - p.1) as nat) <= i64::MAX ==> representable(
            p.0 * 100,
            p.1 as nat,
        ),
{
    reveal_with_fuel(pow10, 3);
    let m = p.0 as int;
    assert(pow10(0) == 1 && pow10(1) == 10 && pow10(2) == 100);
    let a = abs(m);
    assert(abs(m * 100) == a * 100);
    assert((a * 100) / 1 == a * 100);
    assert((a * 100) / 10 == a * 10);
    assert((a * 100) / 100 == a);
    assert((a * 100) % 1 == 0);
    assert((a * 100) % 10 == 0);
    assert((a * 100) % 100 == 0);
    let prod = (p.0 * 100) as i128;
    assert(prod as int == m * 100);
    let e = pow10((2 - p.1) as nat) as int;
    let q = abs(prod as int) / (pow10(p.1 as nat) as int);
    assert(q == a * e) by {
        if p.1 == 0 {
            assert(e == 100);
        } else if p.1 == 1 {
            assert(e == 10);
        } else {
            assert(e == 1);
        }
    }
    assert(m * e == if m >= 0 { a * e } else { -(a * e) }) by (nonlinear_arith)
        requires
            a == abs(m),
    ;
    if i64::MIN <= m * e <= i64::MAX {
        let d = p.1 as nat;
        assert(abs(m * 100) % (pow10(d) as int) == 0);
        assert(abs(m * 100) / (pow10(d) as int) == a * e);
    }
}

/// Whenever `price * 100` truncated toward zero fits an `i64`, a decimal holds
/// `price * 100` exactly: with two or more decimals, dropping the two zeros
/// that the multiplication appended gives back the price's own mantissa;
/// with fewer, `price * 100` is an integer that fits an `i64`.
pub proof fn law_cents_in_range_are_exact(p: (i128, u32))
    requires
        valid_parts(p),
    ensures
        exact_cents(p) is Ok ==> representable(p.0 * 100, p.1 as nat),
{
    reveal_with_fuel(pow10, 3);
    let m = p.0 as int;
    let a = abs(m);
    assert(abs(m * 100) == a * 100);
    assert(pow10(0) == 1 && pow10(1) == 10 && pow10(2) == 100);
    if exact_cents(p) is Ok {
        if p.1 >= 2 {
            assert((a * 100) % 100 == 0 && (a * 100) / 100 == a);
            assert(2 <= p.1 && p.1 - 2 <= MAX_SCALE && abs(m * 100) % (pow10(2) as int) == 0 && abs(
                m * 100,
            ) / (pow10(2) as int) <= MAX_MANTISSA);
        } else {
            let d = p.1 as nat;
            let prod = (p.0 * 100) as i128;
            assert(prod as int == m * 100);
            assert((a * 100) % 1 == 0 && (a * 100) / 1 == a * 100);
            assert((a * 100) % 10 == 0 && (a * 100) / 10 == a * 10);
            assert(abs(m * 100) / (pow10(d) as int) <= 0x8000_0000_0000_0000);
            assert(d <= p.1 && p.1 - d <= MAX_SCALE && abs(m * 100) % (pow10(d) as int) == 0 && abs(
                m * 100,
            ) / (pow10(d) as int) <= MAX_MANTISSA);
        }
    }
}

/// Negating a price negates its cents: truncation is toward zero, so
/// `-price` is stored as minus the cents of `price` (but for cents of
/// `i64::MIN`, whose negation no `i64` holds); and a decimal holds
/// `-price * 100` exactly when it holds `price * 100` exactly.
pub proof fn law_negated_price_negates_cents(p: (i128, u32))
    requires
        valid_parts(p),
    ensures
        representable(-p.0 * 100, p.1 as nat) == representable(p.0 * 100, p.1 as nat),
        exact_cents(p) matches Ok(c) ==> (c != i64::MIN ==> exact_cents(((-p.0) as i128, p.1))
            == Ok::<i64, PriceError>((-c) as i64)),
{
    let a = ((p.0 * 100) as i128, p.1);
    let b = (((-p.0) as i128 * 100) as i128, p.1);
    assert(b.0 == -a.0);
    assert(abs(b.0 as int) == abs(a.0 as int));
    assert(abs(-p.0 * 100) == abs(p.0 * 100));
    let q = abs(a.0 as int) / (pow10(p.1 as nat) as int);
    lemma_pow10_positive(p.1 as nat);
    assert(q >= 0);
    if exact_cents(p) is Ok && exact_cents(p)->Ok_0 != i64::MIN {
        if a.0 >= 0 {
            assert(q <= i64::MAX);
            if a.0 == 0 {
                assert(b.0 == 0);
            } else {
                assert(b.0 < 0);
            }
        } else {
            assert(q <= 0x8000_0000_0000_0000);
            assert(q != 0x8000_0000_0000_0000);
            assert(b.0 > 0);
        }
    }
}

/// Parses a price text that has already been normalised to a decimal number,
/// with `Decimal::from_str`.
pub fn parse_price(text: &str) -> (r: Option<PriceEur>)
    ensures
        match decimal_from_str(text@) {
            Some(p) => r matches Some(price) && price@ == p,
            None => r is None,
        },
{
    match parse_decimal(text) {
        Some(p) => Some(PriceEur::from_parts(p)),
        None => None,
    }
}

} // verus!
