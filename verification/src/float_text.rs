//! Floating-point metadata as text.
//!
//! The crate carries floating-point numbers as bits and never computes with
//! them, so it cannot write one as text or read one back. Whoever moves
//! metadata with such numbers in it says how that is done, by a type with
//! [`FloatText`]. The crate hands it the bits when a field is asked for its
//! text, and hands it the text when a field is read.
//!
//! The functions here offer and take double-precision fields. A shape that
//! is written out by [`derive_meta`](crate::generate::derive_meta) names
//! this module in the options of such a field.

use crate::float::Float64;
use crate::meta::{writes, FieldMap, Held, MetaField, MetaValue};
use vstd::prelude::*;

verus! {

/// How floating-point numbers become text, and text numbers.
pub trait FloatText: 'static {
    /// Writes the double-precision number with these bits.
    fn write(bits: u64) -> String;

    /// The bits of the double-precision number that a text reads as, if it
    /// reads as one.
    fn read(text: String) -> Option<u64>;

    /// Writes the single-precision number with these bits.
    fn write_single(bits: u32) -> String;

    /// The bits of the single-precision number that a text reads as, if it
    /// reads as one.
    fn read_single(text: String) -> Option<u32>;
}

/// The number that was read, and `default` where none was.
pub open spec fn spec_resolve(read: Option<u64>, default: Float64) -> Float64 {
    match read {
        Some(bits) => Float64 { bits },
        None => default,
    }
}

/// The number that was read, and `default` where none was.
pub fn resolve(read: Option<u64>, default: Float64) -> (value: Float64)
    ensures
        value == spec_resolve(read, default),
{
    match read {
        Some(bits) => Float64 { bits },
        None => default,
    }
}

/// The field that offers a number: it holds the number's bits for as long
/// as it borrows the number, and `F` writes them when the field is asked
/// for its text.
pub fn offer<'a, F: FloatText>(value: &'a Float64) -> (field: MetaField<'a, F>)
    ensures
        field@ == Held::Double(value.bits),
{
    MetaField::of(MetaValue::Double(value.bits))
}

/// Whether `value` is what `F` makes of an offered field: the field's text
/// was written, `F` was asked to read that text, and `value` is the number
/// that it read, or `default` where it read none.
pub open spec fn taken<F: FloatText>(held: Held, default: Float64, value: Float64) -> bool {
    exists|text: String, read: Option<u64>|
        {
            &&& writes::<F>(held, text)
            &&& #[trigger] call_ensures(F::read, (text,), read)
            &&& value == spec_resolve(read, default)
        }
}

/// The number that a map offers under a name: what `F` reads the offered
/// field's text as, and `default` where the name is not offered or `F`
/// reads no number.
pub fn take<F: FloatText>(fields: &FieldMap<'_, F>, name: &str, default: Float64) -> (value:
    Float64)
    ensures
        if fields@.contains_key(name@) {
            taken::<F>(fields@[name@], default, value)
        } else {
            value == default
        },
{
    match fields.get(name) {
        Some(field) => resolve(F::read(field.encode()), default),
        None => default,
    }
}

} // verus!
