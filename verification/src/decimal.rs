//! Exchange decimal text, read with `rust_decimal`.
//!
//! A decimal is carried as its parts `(mantissa, scale)`: the value is
//! `mantissa / 10^scale`.

use std::str::FromStr;

use rust_decimal::Decimal;
use vstd::prelude::*;

use crate::text::{chars_of, nat_decimal, string_of_chars};

verus! {

/// `10^n`.
pub open spec fn pow10(n: nat) -> int
    decreases n,
{
    if n == 0 {
        1
    } else {
        10 * pow10((n - 1) as nat)
    }
}

/// Whether `(mantissa, scale)` are the parts of a `Decimal`: a mantissa of
/// at most 96 bits and a scale of at most 28.
pub open spec fn valid_parts(d: (i128, u32)) -> bool {
    &&& d.1 <= 28
    &&& -0xFFFF_FFFF_FFFF_FFFF_FFFF_FFFF <= d.0 <= 0xFFFF_FFFF_FFFF_FFFF_FFFF_FFFF
}

/// Whether the decimal `a` is less than the decimal `b`, comparing
/// `a.0 / 10^a.1` with `b.0 / 10^b.1` exactly.
pub open spec fn decimal_less(a: (i128, u32), b: (i128, u32)) -> bool {
    a.0 * pow10(b.1 as nat) < b.0 * pow10(a.1 as nat)
}

/// The parts of the `Decimal` that `rust_decimal` reads from the text `s`,
/// or `None` where it refuses the text.
pub uninterp spec fn decimal_parts_of_text(s: Seq<char>) -> Option<(i128, u32)>;

/// The text of the error that `rust_decimal` gives where it refuses the
/// text `s` (the error's `Display`).
pub uninterp spec fn decimal_parse_error(s: Seq<char>) -> Seq<char>;

/// `Decimal::from_str`, taken apart into `(mantissa, scale)`, with the
/// refusal as its error's text. The result is the one that
/// `decimal_parts_of_text` and `decimal_parse_error` name for the text;
/// that the parts are those of a valid `Decimal` (a 96-bit mantissa, a
/// scale of at most 28) is what `Decimal` itself guarantees. The grammar the
/// parser accepts and how it rounds long fractions are left unstated.
#[verifier::external_body]
pub fn parse_decimal(s: &str) -> (d: Result<(i128, u32), String>)
    ensures
        match decimal_parts_of_text(s@) {
            Some(p) => d == Ok::<(i128, u32), String>(p) && valid_parts(p),
            None => d is Err && d->Err_0@ == decimal_parse_error(s@),
        },
{
    match Decimal::from_str(s) {
        Ok(d) => Ok((d.mantissa(), d.scale())),
        Err(e) => Err(e.to_string()),
    }
}

/// Compares two decimals with `Decimal`'s order (`Ord::cmp`), which is the
/// order of their values: `-1`, `0` or `1` as `a` is less than, equal to or
/// greater than `b`.
#[verifier::external_body]
pub fn decimal_order(a: (i128, u32), b: (i128, u32)) -> (r: i8)
    requires
        valid_parts(a),
        valid_parts(b),
    ensures
        r == -1 <==> decimal_less(a, b),
        r == 1 <==> decimal_less(b, a),
        r == 0 || r == -1 || r == 1,
{
    let x = Decimal::from_i128_with_scale(a.0, a.1);
    let y = Decimal::from_i128_with_scale(b.0, b.1);
    match x.cmp(&y) {
        std::cmp::Ordering::Less => -1,
        std::cmp::Ordering::Equal => 0,
        std::cmp::Ordering::Greater => 1,
    }
}

/// The parts that `parse_decimal` gives for `s`, or zero where the text is
/// refused.
pub open spec fn parts_or_zero(s: Seq<char>) -> (i128, u32) {
    match decimal_parts_of_text(s) {
        Some(p) => p,
        None => (0i128, 0u32),
    }
}

/// Reads decimal text, taking refused text as zero.
pub fn parse_decimal_or_zero(s: &str) -> (d: (i128, u32))
    ensures
        d == parts_or_zero(s@),
        valid_parts(d),
{
    match parse_decimal(s) {
        Ok(p) => p,
        Err(_) => (0, 0),
    }
}

proof fn lemma_pow10_positive(n: nat)
    ensures
        pow10(n) > 0,
    decreases n,
{
    if n > 0 {
        lemma_pow10_positive((n - 1) as nat);
    }
}

/// A decimal is above zero exactly when its mantissa is.
pub proof fn lemma_positive_iff_mantissa(a: (i128, u32))
    ensures
        decimal_less((0i128, 0u32), a) <==> a.0 > 0,
{
    lemma_pow10_positive(a.1 as nat);
    assert(pow10(0) == 1);
    if a.0 > 0 {
        assert(a.0 * 1 > 0);
    }
}

/// Whether `a` is greater than `b`.
pub fn decimal_greater(a: (i128, u32), b: (i128, u32)) -> (r: bool)
    requires
        valid_parts(a),
        valid_parts(b),
    ensures
        r == decimal_less(b, a),
{
    decimal_order(a, b) == 1
}

/// The parts of `a / b` as `Decimal::checked_div` computes them, or `None`
/// where it refuses: on division by zero or overflow.
pub uninterp spec fn decimal_quotient(a: (i128, u32), b: (i128, u32)) -> Option<(i128, u32)>;

/// The parts of `a * b` as `Decimal::checked_mul` computes them, or `None`
/// on overflow.
pub uninterp spec fn decimal_product(a: (i128, u32), b: (i128, u32)) -> Option<(i128, u32)>;

/// The largest mantissa of a `Decimal`: `2^96 - 1`.
pub open spec fn max_mantissa() -> int {
    0xFFFF_FFFF_FFFF_FFFF_FFFF_FFFF
}

/// `Decimal::checked_div` on two decimals given by their parts. The
/// quotient is the one `decimal_quotient` names; a zero divisor gives
/// `None`, and a quotient is a valid `Decimal`. Its source returns zero as
/// `(0, 0)` for a zero dividend, and an exact quotient unchanged where the
/// divisor's mantissa fits 32 bits, divides the dividend's, and the
/// dividend's scale is not below the divisor's (its fast path). How other
/// quotients are rounded to 28 digits is left unstated.
#[verifier::external_body]
pub fn checked_quotient(a: (i128, u32), b: (i128, u32)) -> (r: Option<(i128, u32)>)
    requires
        valid_parts(a),
        valid_parts(b),
    ensures
        r == decimal_quotient(a, b),
        b.0 == 0 ==> r is None,
        b.0 != 0 && a.0 == 0 ==> r == Some((0i128, 0u32)),
        b.0 != 0 && a.0 != 0 && -0x1_0000_0000 < b.0 < 0x1_0000_0000 && a.0 % b.0 == 0 && a.1 >= b.1 ==> r == Some(
            ((a.0 / b.0) as i128, (a.1 - b.1) as u32),
        ),
        r matches Some(p) ==> valid_parts(p),
{
    match Decimal::from_i128_with_scale(a.0, a.1).checked_div(Decimal::from_i128_with_scale(b.0, b.1)) {
        Some(d) => Some((d.mantissa(), d.scale())),
        None => None,
    }
}

/// `Decimal::checked_mul` on two decimals given by their parts. The
/// product is the one `decimal_product` names, and is a valid `Decimal`.
/// Its source returns zero as `(0, 0)`, and a product whose mantissa fits
/// 96 bits and whose scales add to at most 28 exactly: the product of the
/// mantissas at the sum of the scales. How a larger product is rounded is
/// left unstated.
#[verifier::external_body]
pub fn checked_product(a: (i128, u32), b: (i128, u32)) -> (r: Option<(i128, u32)>)
    requires
        valid_parts(a),
        valid_parts(b),
    ensures
        r == decimal_product(a, b),
        a.0 * b.0 == 0 ==> r == Some((0i128, 0u32)),
        a.0 * b.0 != 0 && a.1 + b.1 <= 28 && -max_mantissa() <= a.0 * b.0 <= max_mantissa() ==> r == Some(
            ((a.0 * b.0) as i128, (a.1 + b.1) as u32),
        ),
        r matches Some(p) ==> valid_parts(p),
{
    match Decimal::from_i128_with_scale(a.0, a.1).checked_mul(Decimal::from_i128_with_scale(b.0, b.1)) {
        Some(d) => Some((d.mantissa(), d.scale())),
        None => None,
    }
}

/// The greatest integer not above the decimal, at scale zero; a decimal
/// already at scale zero is kept as it is.
pub open spec fn floor_parts(a: (i128, u32)) -> (i128, u32) {
    if a.1 == 0 {
        a
    } else {
        ((a.0 as int / pow10(a.1 as nat)) as i128, 0u32)
    }
}

/// The least integer not below the decimal, at scale zero; a decimal
/// already at scale zero is kept as it is.
pub open spec fn ceil_parts(a: (i128, u32)) -> (i128, u32) {
    if a.1 == 0 {
        a
    } else {
        ((-((-(a.0 as int)) / pow10(a.1 as nat))) as i128, 0u32)
    }
}

/// `Decimal::floor`: the largest integer not above the decimal, at scale
/// zero, as its source computes it (truncation, less one for a negative
/// decimal that had a fraction).
#[verifier::external_body]
pub fn decimal_floor(a: (i128, u32)) -> (r: (i128, u32))
    requires
        valid_parts(a),
    ensures
        r == floor_parts(a),
        valid_parts(r),
{
    let d = Decimal::from_i128_with_scale(a.0, a.1).floor();
    (d.mantissa(), d.scale())
}

/// `Decimal::ceil`: the smallest integer not below the decimal, at scale
/// zero, as its source computes it (truncation, plus one for a positive
/// decimal that had a fraction).
#[verifier::external_body]
pub fn decimal_ceil(a: (i128, u32)) -> (r: (i128, u32))
    requires
        valid_parts(a),
    ensures
        r == ceil_parts(a),
        valid_parts(r),
{
    let d = Decimal::from_i128_with_scale(a.0, a.1).ceil();
    (d.mantissa(), d.scale())
}

/// The decimal with its trailing fractional zeros stripped; zero becomes
/// `(0, 0)`.
pub open spec fn normalized_parts(a: (i128, u32)) -> (i128, u32)
    decreases a.1,
{
    if a.0 == 0 {
        (0i128, 0u32)
    } else if a.1 > 0 && a.0 % 10 == 0 {
        normalized_parts(((a.0 / 10) as i128, (a.1 - 1) as u32))
    } else {
        a
    }
}

/// `Decimal::normalize`: strips trailing fractional zeros, zero becoming
/// `(0, 0)`.
#[verifier::external_body]
pub fn decimal_normalize(a: (i128, u32)) -> (r: (i128, u32))
    requires
        valid_parts(a),
    ensures
        r == normalized_parts(a),
        valid_parts(r),
{
    let d = Decimal::from_i128_with_scale(a.0, a.1).normalize();
    (d.mantissa(), d.scale())
}

/// `n` zero characters.
pub open spec fn zeros(n: nat) -> Seq<char> {
    Seq::new(n, |i: int| '0')
}

/// The text of a decimal as `Decimal`'s `Display` writes it: the digits of
/// the mantissa, padded with leading zeros to at least the scale, a point
/// before the last `scale` of them (a `0` before the point when no digit is
/// left for the whole part), and a minus sign for a negative decimal.
pub open spec fn decimal_text(a: (i128, u32)) -> Seq<char> {
    let mag: nat = if a.0 < 0 { (-(a.0 as int)) as nat } else { a.0 as nat };
    let d = if mag == 0 { Seq::<char>::empty() } else { nat_decimal(mag) };
    let s = a.1 as int;
    let padded = if d.len() < s { zeros((s - d.len()) as nat) + d } else { d };
    let whole = padded.subrange(0, padded.len() - s);
    let frac = padded.subrange(padded.len() - s, padded.len() as int);
    let body = (if whole.len() == 0 { "0"@ } else { whole }) + (if s > 0 { "."@ + frac } else { Seq::empty() });
    if a.0 < 0 { "-"@ + body } else { body }
}

/// `Decimal`'s `to_string`, as its source writes a decimal.
#[verifier::external_body]
pub fn decimal_to_string(a: (i128, u32)) -> (s: String)
    requires
        valid_parts(a),
    ensures
        s@ == decimal_text(a),
{
    Decimal::from_i128_with_scale(a.0, a.1).to_string()
}

/// Whether the decimals are equal in value.
pub fn decimal_eq(a: (i128, u32), b: (i128, u32)) -> (r: bool)
    requires
        valid_parts(a),
        valid_parts(b),
    ensures
        r == (!decimal_less(a, b) && !decimal_less(b, a)),
{
    decimal_order(a, b) == 0
}

/// Whether `a` is less than `b`.
pub fn decimal_lt(a: (i128, u32), b: (i128, u32)) -> (r: bool)
    requires
        valid_parts(a),
        valid_parts(b),
    ensures
        r == decimal_less(a, b),
{
    decimal_order(a, b) == -1
}

/// The larger of two decimals, the second where neither is larger
/// (`Decimal::max`, which is `Ord::max`).
pub open spec fn decimal_max_parts(a: (i128, u32), b: (i128, u32)) -> (i128, u32) {
    if decimal_less(b, a) { a } else { b }
}

/// The larger of two decimals (`Decimal::max`).
pub fn decimal_max(a: (i128, u32), b: (i128, u32)) -> (r: (i128, u32))
    requires
        valid_parts(a),
        valid_parts(b),
    ensures
        r == decimal_max_parts(a, b),
        valid_parts(r),
{
    if decimal_lt(b, a) { a } else { b }
}

/// `value` rounded down to a multiple of `step`: the floor of their
/// quotient times `step`; `value` itself when `step` is not above zero.
/// `None` where the quotient or the product overflows.
pub open spec fn quantized_down(value: (i128, u32), step: (i128, u32)) -> Option<(i128, u32)> {
    if step.0 <= 0 {
        Some(value)
    } else {
        match decimal_quotient(value, step) {
            Some(q) => decimal_product(floor_parts(q), step),
            None => None,
        }
    }
}

/// A product of a nonzero number and a positive one is nonzero.
proof fn lemma_nonzero_product(n: int, m: int)
    requires
        m > 0,
    ensures
        n != 0 ==> n * m != 0,
{
    if n != 0 {
        assert(n * m != 0) by (nonlinear_arith)
            requires
                n != 0,
                m > 0,
        ;
    }
}

/// `10^(a + b)` is `10^a * 10^b`.
proof fn lemma_pow10_add(a: nat, b: nat)
    ensures
        pow10(a + b) == pow10(a) * pow10(b),
    decreases a,
{
    if a > 0 {
        lemma_pow10_add((a - 1) as nat, b);
        assert(pow10(a + b) == 10 * pow10((a - 1 + b) as nat));
        assert(10 * (pow10((a - 1) as nat) * pow10(b)) == (10 * pow10((a - 1) as nat)) * pow10(b)) by (nonlinear_arith);
    }
}

/// Whether the quotient `q` of `value / step` is not above the true one:
/// `q * step <= value`, exactly.
pub open spec fn quotient_not_above(value: (i128, u32), step: (i128, u32), q: (i128, u32)) -> bool {
    q.0 * step.0 * pow10(value.1 as nat) <= value.0 * pow10((q.1 + step.1) as nat)
}

/// Counting whole steps by the floor of a quotient that is not above the
/// true one never gives more than the value: `floor(q)` steps of `step`
/// are at most `value`.
pub proof fn lemma_floor_steps_not_above(value: (i128, u32), step: (i128, u32), q: (i128, u32))
    requires
        step.0 > 0,
        quotient_not_above(value, step, q),
        steps_fit_mantissa(floor_parts(q).0 as int, step),
    ensures
        !decimal_less(value, whole_steps(floor_parts(q).0 as int, step)),
{
    let p = pow10(q.1 as nat);
    let sp = pow10(step.1 as nat);
    let v = pow10(value.1 as nat);
    lemma_pow10_positive(q.1 as nat);
    lemma_pow10_positive(step.1 as nat);
    lemma_pow10_positive(value.1 as nat);
    lemma_pow10_add(q.1 as nat, step.1 as nat);
    assert(pow10(0) == 1);
    let n = floor_parts(q).0 as int;
    let qm = q.0 as int;
    let sm = step.0 as int;
    let vm = value.0 as int;
    if q.1 == 0 {
        assert(n * p <= qm);
    } else {
        assert(qm / p <= if qm >= 0 { qm } else { 0 } && qm / p >= if qm >= 0 { 0 } else { qm }) by (nonlinear_arith)
            requires
                p > 0,
        ;
        assert(n == qm / p);
        assert(n * p <= qm) by (nonlinear_arith)
            requires
                n == qm / p,
                p > 0,
        ;
    }
    assert(qm * sm * v <= vm * (p * sp));
    assert(p * (n * sm * v) <= p * (vm * sp)) by (nonlinear_arith)
        requires
            n * p <= qm,
            qm * sm * v <= vm * (p * sp),
            sm > 0,
            v > 0,
    ;
    assert(n * sm * v <= vm * sp) by (nonlinear_arith)
        requires
            p * (n * sm * v) <= p * (vm * sp),
            p > 0,
    ;
    if n == 0 {
        assert(qm >= 0);
        assert(qm * sm * v >= 0) by (nonlinear_arith)
            requires
                qm >= 0,
                sm > 0,
                v > 0,
        ;
        assert(vm >= 0) by (nonlinear_arith)
            requires
                vm * (p * sp) >= 0,
                p > 0,
                sp > 0,
        ;
    }
}

/// How many whole steps rounding down counts: the floor of the quotient
/// `value / step` as `rust_decimal` computes it.
pub open spec fn steps_down(value: (i128, u32), step: (i128, u32)) -> Option<int> {
    match decimal_quotient(value, step) {
        Some(q) => Some(floor_parts(q).0 as int),
        None => None,
    }
}

/// How many whole ticks rounding a price counts: the floor of the quotient
/// for a buy, its ceiling for a sell.
pub open spec fn ticks_for(value: (i128, u32), tick: (i128, u32), buy: bool) -> Option<int> {
    match decimal_quotient(value, tick) {
        Some(q) => Some((if buy { floor_parts(q) } else { ceil_parts(q) }).0 as int),
        None => None,
    }
}

/// `n` whole steps of `step`, as `Decimal` holds them: zero as `(0, 0)`,
/// else `n` times the step's mantissa at the step's scale.
pub open spec fn whole_steps(n: int, step: (i128, u32)) -> (i128, u32) {
    if n == 0 {
        (0i128, 0u32)
    } else {
        ((n * step.0) as i128, step.1)
    }
}

/// Whether `n` whole steps of `step` fit a `Decimal`'s mantissa.
pub open spec fn steps_fit_mantissa(n: int, step: (i128, u32)) -> bool {
    -max_mantissa() <= n * step.0 <= max_mantissa()
}

/// What rounding `value` down to `step` is known to give: a whole number
/// of steps where that number of steps fits a `Decimal`, and no more than
/// `value` where, besides, the quotient was not rounded above the true
/// one.
pub open spec fn quantity_within(quantity: (i128, u32), value: (i128, u32), step: (i128, u32)) -> bool {
    &&& steps_down(value, step) matches Some(n) ==> (step.0 > 0 && steps_fit_mantissa(n, step) ==> quantity
        == whole_steps(n, step))
    &&& decimal_quotient(value, step) matches Some(q) ==> (step.0 > 0 && steps_fit_mantissa(
        floor_parts(q).0 as int,
        step,
    ) && quotient_not_above(value, step, q) ==> !decimal_less(value, quantity))
}

/// Rounds a quantity down to a multiple of the step size (a step not above
/// zero leaves it as it is).
pub fn quantize_down(value: (i128, u32), step: (i128, u32)) -> (r: (i128, u32))
    requires
        valid_parts(value),
        valid_parts(step),
        quantized_down(value, step) is Some,
    ensures
        Some(r) == quantized_down(value, step),
        valid_parts(r),
        steps_down(value, step) matches Some(n) ==> (step.0 > 0 && steps_fit_mantissa(n, step) ==> r
            == whole_steps(n, step)),
        decimal_quotient(value, step) matches Some(q) ==> (step.0 > 0 && steps_fit_mantissa(
            floor_parts(q).0 as int,
            step,
        ) && quotient_not_above(value, step, q) ==> !decimal_less(value, r)),
{
    proof {
        lemma_positive_iff_mantissa(step);
    }
    if !decimal_greater(step, (0, 0)) {
        return value;
    }
    let q = checked_quotient(value, step).unwrap();
    let f = decimal_floor(q);
    proof {
        lemma_nonzero_product(f.0 as int, step.0 as int);
        if steps_fit_mantissa(f.0 as int, step) && quotient_not_above(value, step, q) {
            lemma_floor_steps_not_above(value, step, q);
        }
    }
    checked_product(f, step).unwrap()
}

/// `value` rounded to a multiple of `tick`, down for a buy and up for a
/// sell; `value` itself when `tick` is not above zero. `None` where the
/// quotient or the product overflows.
pub open spec fn quantized_price(value: (i128, u32), tick: (i128, u32), buy: bool) -> Option<(i128, u32)> {
    if tick.0 <= 0 {
        Some(value)
    } else {
        match decimal_quotient(value, tick) {
            Some(q) => decimal_product(if buy { floor_parts(q) } else { ceil_parts(q) }, tick),
            None => None,
        }
    }
}

/// Rounds a quantity down to a multiple of the step size, or `None` where
/// the arithmetic overflows.
pub fn try_quantize_down(value: (i128, u32), step: (i128, u32)) -> (r: Option<(i128, u32)>)
    requires
        valid_parts(value),
        valid_parts(step),
    ensures
        r == quantized_down(value, step),
        r matches Some(p) ==> valid_parts(p),
        steps_down(value, step) matches Some(n) ==> (step.0 > 0 && steps_fit_mantissa(n, step) ==> r == Some(
            whole_steps(n, step),
        )),
        decimal_quotient(value, step) matches Some(q) ==> (step.0 > 0 && steps_fit_mantissa(
            floor_parts(q).0 as int,
            step,
        ) && quotient_not_above(value, step, q) ==> r is Some && !decimal_less(value, r->0)),
        r matches Some(p) ==> quantity_within(p, value, step),
{
    proof {
        lemma_positive_iff_mantissa(step);
    }
    if !decimal_greater(step, (0, 0)) {
        return Some(quantize_down(value, step));
    }
    let fits = match checked_quotient(value, step) {
        Some(q) => checked_product(decimal_floor(q), step).is_some(),
        None => false,
    };
    if fits {
        Some(quantize_down(value, step))
    } else {
        None
    }
}

/// Rounds a price to a multiple of the tick size, down for a buy and up for
/// a sell, or `None` where the arithmetic overflows.
pub fn try_quantize_price(value: (i128, u32), tick: (i128, u32), buy: bool) -> (r: Option<(i128, u32)>)
    requires
        valid_parts(value),
        valid_parts(tick),
    ensures
        r == quantized_price(value, tick, buy),
        r matches Some(p) ==> valid_parts(p),
        ticks_for(value, tick, buy) matches Some(n) ==> (tick.0 > 0 && steps_fit_mantissa(n, tick) ==> r == Some(
            whole_steps(n, tick),
        )),
{
    proof {
        lemma_positive_iff_mantissa(tick);
    }
    if !decimal_greater(tick, (0, 0)) {
        return Some(value);
    }
    match checked_quotient(value, tick) {
        Some(q) => {
            let units = if buy { decimal_floor(q) } else { decimal_ceil(q) };
            proof {
                lemma_nonzero_product(units.0 as int, tick.0 as int);
                assert(units.1 == 0);
                assert(ticks_for(value, tick, buy) == Some(units.0 as int));
            }
            checked_product(units, tick)
        },
        None => None,
    }
}

/// `s` without every trailing `.0` (`str::trim_end_matches(".0")`).
pub open spec fn trim_dot_zeros(s: Seq<char>) -> Seq<char>
    decreases s.len(),
{
    if s.len() >= 2 && s[s.len() - 2] == '.' && s[s.len() - 1] == '0' {
        trim_dot_zeros(s.subrange(0, s.len() - 2))
    } else {
        s
    }
}

/// The text a decimal is sent to the exchange as: its trailing zeros
/// stripped, written as `Decimal` writes it, without a trailing `.0`.
pub open spec fn exchange_text(a: (i128, u32)) -> Seq<char> {
    trim_dot_zeros(decimal_text(normalized_parts(a)))
}

/// The text a decimal is sent to the exchange as.
#[verifier::rlimit(40)]
pub fn decimal_to_exchange_string(value: (i128, u32)) -> (s: String)
    requires
        valid_parts(value),
    ensures
        s@ == exchange_text(value),
{
    let n = decimal_normalize(value);
    let text = decimal_to_string(n);
    let v = chars_of(text.as_str());
    let mut end: usize = v.len();
    assert(v@.subrange(0, end as int) =~= v@);
    while end >= 2 && v[end - 2] == '.' && v[end - 1] == '0'
        invariant
            v@ == decimal_text(n),
            end <= v@.len(),
            trim_dot_zeros(v@.subrange(0, end as int)) == trim_dot_zeros(v@),
        decreases end,
    {
        assert(v@.subrange(0, end as int).subrange(0, end - 2) =~= v@.subrange(0, end - 2));
        end = end - 2;
    }
    let mut out: Vec<char> = Vec::new();
    let mut i: usize = 0;
    while i < end
        invariant
            end <= v@.len(),
            i <= end,
            out@ == v@.subrange(0, i as int),
        decreases end - i,
    {
        out.push(v[i]);
        i = i + 1;
    }
    string_of_chars(&out)
}

} // verus!
