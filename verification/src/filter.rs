//! Filters on measurement values, and the ordering of numbers held as
//! IEEE-754 binary64 bit patterns.
use vstd::prelude::*;

use crate::measurement::MeasurementValue;
use crate::text::contains_seq;
use crate::text::occurs_at;
use crate::text::str_contains;

verus! {

/// A condition on a measurement value. The numbers of `LessThan` and
/// `MoreThan` are IEEE-754 binary64 bit patterns (`f64::to_bits`).
#[derive(Debug, PartialEq)]
pub enum Filter {
    Is(bool),
    LessThan(u64),
    MoreThan(u64),
    Contains(String),
    Excludes(String),
}

pub open spec fn sign_bit() -> u64 {
    0x8000_0000_0000_0000u64
}

pub open spec fn exponent_mask() -> u64 {
    0x7ff0_0000_0000_0000u64
}

pub open spec fn fraction_mask() -> u64 {
    0x000f_ffff_ffff_ffffu64
}

pub open spec fn magnitude_mask() -> u64 {
    0x7fff_ffff_ffff_ffffu64
}

/// The bit pattern is a NaN: all exponent bits set and a non-zero fraction.
pub open spec fn is_nan_bits(b: u64) -> bool {
    b & exponent_mask() == exponent_mask() && b & fraction_mask() != 0
}

/// The position of a (non-NaN) binary64 value on the number line: the
/// magnitude bits grow with the absolute value, and the sign bit negates.
/// Both zeros get position 0.
pub open spec fn float_position(b: u64) -> int {
    let magnitude = (b & magnitude_mask()) as int;
    if b >= sign_bit() {
        -magnitude
    } else {
        magnitude
    }
}

/// `a < b` for the binary64 values with bit patterns `a` and `b` (false
/// when either is NaN, as for `f64`'s `<`).
pub open spec fn float_lt(a: u64, b: u64) -> bool {
    !is_nan_bits(a) && !is_nan_bits(b) && float_position(a) < float_position(b)
}

fn is_nan(b: u64) -> (r: bool)
    ensures
        r == is_nan_bits(b),
{
    b & 0x7ff0_0000_0000_0000u64 == 0x7ff0_0000_0000_0000u64 && b & 0x000f_ffff_ffff_ffffu64 != 0
}

fn position(b: u64) -> (p: i128)
    ensures
        p as int == float_position(b),
{
    let magnitude = (b & 0x7fff_ffff_ffff_ffffu64) as i128;
    if b >= 0x8000_0000_0000_0000u64 {
        -magnitude
    } else {
        magnitude
    }
}

/// `a < b` on binary64 values given by their bit patterns.
pub fn float_less(a: u64, b: u64) -> (r: bool)
    ensures
        r == float_lt(a, b),
{
    !is_nan(a) && !is_nan(b) && position(a) < position(b)
}

/// Whether `value` passes `filter`: a boolean passes `Is` when it is equal,
/// a number passes `LessThan` / `MoreThan` when it is smaller / greater, a
/// text passes `Contains` when it contains the text and `Excludes` when it
/// does not. Every other combination fails.
pub open spec fn filter_holds(value: MeasurementValue, filter: Filter) -> bool {
    match (value, filter) {
        (MeasurementValue::Bool(b1), Filter::Is(b2)) => b1 == b2,
        (MeasurementValue::Float(f1), Filter::LessThan(f2)) => float_lt(f1, f2),
        (MeasurementValue::Float(f1), Filter::MoreThan(f2)) => float_lt(f2, f1),
        (MeasurementValue::Text(t1), Filter::Contains(t2)) => contains_seq(t1@, t2@),
        (MeasurementValue::Text(t1), Filter::Excludes(t2)) => !contains_seq(t1@, t2@),
        _ => false,
    }
}

/// Something a filter can be applied to.
pub trait Filterable {
    spec fn passes(&self, filter: Filter) -> bool;

    fn apply_filter(&self, filter: &Filter) -> (b: bool)
        ensures
            b == self.passes(*filter),
    ;
}

impl Filterable for MeasurementValue {
    open spec fn passes(&self, filter: Filter) -> bool {
        filter_holds(*self, filter)
    }

    fn apply_filter(&self, filter: &Filter) -> (b: bool) {
        match (self, filter) {
            (MeasurementValue::Bool(b1), Filter::Is(b2)) => *b1 == *b2,
            (MeasurementValue::Bool(_), _) => false,
            (MeasurementValue::Float(f1), Filter::LessThan(f2)) => float_less(*f1, *f2),
            (MeasurementValue::Float(f1), Filter::MoreThan(f2)) => float_less(*f2, *f1),
            (MeasurementValue::Float(_), _) => false,
            (MeasurementValue::Text(t1), Filter::Contains(t2)) => str_contains(t1.as_str(), t2.as_str()),
            (MeasurementValue::Text(t1), Filter::Excludes(t2)) => !str_contains(t1.as_str(), t2.as_str()),
            (MeasurementValue::Text(_), _) => false,
            (_, _) => false,
        }
    }
}

// ---------------------------------------------------------------------------
// Laws
// ---------------------------------------------------------------------------

/// On a text, `Excludes(t)` passes exactly when `Contains(t)` does not.
pub proof fn lemma_excludes_is_not_contains(text: String, t: String)
    ensures
        filter_holds(MeasurementValue::Text(text), Filter::Excludes(t)) == !filter_holds(
            MeasurementValue::Text(text),
            Filter::Contains(t),
        ),
{
}

/// No number is both below and above the same bound.
pub proof fn lemma_less_and_more_exclusive(v: u64, bound: u64)
    ensures
        !(filter_holds(MeasurementValue::Float(v), Filter::LessThan(bound)) && filter_holds(
            MeasurementValue::Float(v),
            Filter::MoreThan(bound),
        )),
{
}

/// The order on binary64 values is transitive.
pub proof fn lemma_float_lt_transitive(a: u64, b: u64, c: u64)
    requires
        float_lt(a, b),
        float_lt(b, c),
    ensures
        float_lt(a, c),
{
}

/// A NaN passes no numeric filter, and no numeric filter with a NaN bound
/// passes.
pub proof fn lemma_nan_passes_nothing(v: u64, bound: u64)
    requires
        is_nan_bits(v) || is_nan_bits(bound),
    ensures
        !filter_holds(MeasurementValue::Float(v), Filter::LessThan(bound)),
        !filter_holds(MeasurementValue::Float(v), Filter::MoreThan(bound)),
{
}

/// A filter only passes values of its own kind.
pub proof fn lemma_filter_kind(value: MeasurementValue, filter: Filter)
    requires
        filter_holds(value, filter),
    ensures
        filter is Is ==> value is Bool,
        (filter is LessThan || filter is MoreThan) ==> value is Float,
        (filter is Contains || filter is Excludes) ==> value is Text,
{
}

/// A boolean passes `Is(c)` exactly when it is `c`; no other filter passes
/// a boolean.
pub proof fn lemma_bool_filter(b: bool, c: bool, filter: Filter)
    ensures
        filter_holds(MeasurementValue::Bool(b), Filter::Is(c)) <==> b == c,
        filter_holds(MeasurementValue::Bool(true), Filter::Is(true)),
        filter_holds(MeasurementValue::Bool(false), Filter::Is(false)),
        !(filter is Is) ==> !filter_holds(MeasurementValue::Bool(b), filter),
{
}

/// A text passes `Contains(n)` exactly when `n` occurs in it at some
/// position, and `Excludes(n)` exactly when it occurs nowhere.
pub proof fn lemma_text_filter(t: String, n: String)
    ensures
        filter_holds(MeasurementValue::Text(t), Filter::Contains(n)) <==> exists|i: int|
            0 <= i && i + n@.len() <= t@.len() && #[trigger] t@.subrange(i, i + n@.len()) == n@,
        filter_holds(MeasurementValue::Text(t), Filter::Excludes(n)) <==> forall|i: int|
            0 <= i && i + n@.len() <= t@.len() ==> #[trigger] t@.subrange(i, i + n@.len()) != n@,
{
    if filter_holds(MeasurementValue::Text(t), Filter::Contains(n)) {
        let i = choose|i: int| occurs_at(t@, n@, i);
        assert(t@.subrange(i, i + n@.len()) == n@);
    }
    if exists|i: int| 0 <= i && i + n@.len() <= t@.len() && #[trigger] t@.subrange(i, i + n@.len()) == n@ {
        let i = choose|i: int| 0 <= i && i + n@.len() <= t@.len() && #[trigger] t@.subrange(i, i + n@.len()) == n@;
        assert(occurs_at(t@, n@, i));
    }
}

/// A number passes `MoreThan(y)` exactly when `y` passes `LessThan` of it,
/// and `LessThan(y)` exactly when it lies below `y` in the order of binary64
/// values.
pub proof fn lemma_number_filters(x: u64, y: u64)
    ensures
        filter_holds(MeasurementValue::Float(x), Filter::MoreThan(y)) <==> filter_holds(
            MeasurementValue::Float(y),
            Filter::LessThan(x),
        ),
        filter_holds(MeasurementValue::Float(x), Filter::LessThan(y)) <==> float_lt(x, y),
{
}

/// The order of binary64 values read off their bit patterns: among
/// non-negative values (sign bit clear) it is the order of the patterns,
/// among negative ones the reverse; every negative value lies below every
/// non-negative one, except that the two zeros are equal.
pub proof fn lemma_float_order_on_bits(a: u64, b: u64)
    requires
        !is_nan_bits(a),
        !is_nan_bits(b),
    ensures
        a < 0x8000_0000_0000_0000u64 && b < 0x8000_0000_0000_0000u64 ==> (float_lt(a, b) <==> a < b),
        a >= 0x8000_0000_0000_0000u64 && b >= 0x8000_0000_0000_0000u64 ==> (float_lt(a, b) <==> b < a),
        a < 0x8000_0000_0000_0000u64 && b >= 0x8000_0000_0000_0000u64 ==> !float_lt(a, b),
        a >= 0x8000_0000_0000_0000u64 && b < 0x8000_0000_0000_0000u64 ==> (float_lt(a, b) <==> !(a
            == 0x8000_0000_0000_0000u64 && b == 0)),
        !float_lt(a, a),
{
    assert(a < 0x8000_0000_0000_0000u64 ==> a & 0x7fff_ffff_ffff_ffffu64 == a) by (bit_vector);
    assert(a >= 0x8000_0000_0000_0000u64 ==> a & 0x7fff_ffff_ffff_ffffu64 == a - 0x8000_0000_0000_0000u64)
        by (bit_vector);
    assert(b < 0x8000_0000_0000_0000u64 ==> b & 0x7fff_ffff_ffff_ffffu64 == b) by (bit_vector);
    assert(b >= 0x8000_0000_0000_0000u64 ==> b & 0x7fff_ffff_ffff_ffffu64 == b - 0x8000_0000_0000_0000u64)
        by (bit_vector);
}

} // verus!
