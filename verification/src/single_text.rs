//! Single-precision metadata as text.
//!
//! What [`float_text`](crate::float_text) is for double-precision fields,
//! this module is for single-precision ones.

use crate::float::Float32;
use crate::float_text::FloatText;
use crate::meta::{writes, FieldMap, Held, MetaField, MetaValue};
use vstd::prelude::*;

verus! {

/// The number that was read, and `default` where none was.
pub open spec fn spec_resolve(read: Option<u32>, default: Float32) -> Float32 {
    match read {
        Some(bits) => Float32 { bits },
        None => default,
    }
}

/// The number that was read, and `default` where none was.
pub fn resolve(read: Option<u32>, default: Float32) -> (value: Float32)
    ensures
        value == spec_resolve(read, default),
{
    match read {
        Some(bits) => Float32 { bits },
        None => default,
    }
}

/// The field that offers a number: it holds the number's bits for as long
/// as it borrows the number, and `F` writes them when the field is asked
/// for its text.
pub fn offer<'a, F: FloatText>(value: &'a Float32) -> (field: MetaField<'a, F>)
    ensures
        field@ == Held::Single(value.bits),
{
    MetaField::of(MetaValue::Single(value.bits))
}

/// Whether `value` is what `F` makes of an offered field: the field's text
/// was written, `F` was asked to read that text, and `value` is the number
/// that it read, or `default` where it read none.
pub open spec fn taken<F: FloatText>(held: Held, default: Float32, value: Float32) -> bool {
    exists|text: String, read: Option<u32>|
        {
            &&& writes::<F>(held, text)
            &&& #[trigger] call_ensures(F::read_single, (text,), read)
            &&& value == spec_resolve(read, default)
        }
}

/// The number that a map offers under a name: what `F` reads the offered
/// field's text as, and `default` where the name is not offered or `F`
/// reads no number.
pub fn take<F: FloatText>(fields: &FieldMap<'_, F>, name: &str, default: Float32) -> (value:
    Float32)
    ensures
        if fields@.contains_key(name@) {
            taken::<F>(fields@[name@], default, value)
        } else {
            value == default
        },
{
    match fields.get(name) {
        Some(field) => resolve(F::read_single(field.encode()), default),
        None => default,
    }
}

} // verus!
