//! Metadata that moves between formats by the names of its fields.
//!
//! Every format keeps metadata of its own shape. Two shapes share no layout,
//! only some names, so a value passes from one to the other as text: the
//! shape it comes from offers each field under a name, the shape it goes to
//! looks up the names it knows, reads what it can and keeps its own default
//! where a name is missing or the text does not read as its field's type.
//!
//! A field is not turned into text when it is offered, only when it is asked
//! for: [`MetaField`] holds on to the value and writes it on demand. Whole
//! numbers and text are written here. A floating-point number is held by
//! its bits and written by the [`FloatText`] that the fields go by.

use crate::decimal::{
    format_signed, format_unsigned, lemma_format_round_trip, parse_signed, parse_unsigned,
    spec_format, spec_parse,
};
use crate::float_text::FloatText;
use std::marker::PhantomData;
use vstd::hash_map::StringHashMap;
use vstd::prelude::*;
use vstd::string::StringExecFns;

verus! {

/// What a field holds until it is asked for its text.
pub enum Held {
    /// A value whose text is settled: the text itself.
    Text(Seq<char>),
    /// A double-precision number, by its bits.
    Double(u64),
    /// A single-precision number, by its bits.
    Single(u32),
}

/// Whether `text` is what a held value is written as, where `F` writes the
/// floating-point numbers: the settled text, or what `F` wrote when it was
/// handed the number's bits.
pub open spec fn writes<F: FloatText>(held: Held, text: String) -> bool {
    match held {
        Held::Text(known) => text@ == known,
        Held::Double(bits) => call_ensures(F::write, (bits,), text),
        Held::Single(bits) => call_ensures(F::write_single, (bits,), text),
    }
}

/// A value as a field holds on to it until its text is asked for.
#[derive(Debug)]
pub enum MetaValue<'a> {
    /// A whole number without a sign.
    Unsigned(u64),
    /// A whole number with a sign.
    Signed(i64),
    /// Text, which is its own encoding.
    Text(&'a str),
    /// Text that the field keeps for itself: the encoding of a value whose
    /// owner wrote it down before offering it.
    Owned(String),
    /// Nothing, whose encoding is empty.
    Unit,
    /// A double-precision number, by its bits.
    Double(u64),
    /// A single-precision number, by its bits.
    Single(u32),
}

impl<'a> View for MetaValue<'a> {
    type V = Held;

    open spec fn view(&self) -> Held {
        match *self {
            MetaValue::Unsigned(n) => Held::Text(spec_format(n as int)),
            MetaValue::Signed(n) => Held::Text(spec_format(n as int)),
            MetaValue::Text(text) => Held::Text(text@),
            MetaValue::Owned(text) => Held::Text(text@),
            MetaValue::Unit => Held::Text(Seq::empty()),
            MetaValue::Double(bits) => Held::Double(bits),
            MetaValue::Single(bits) => Held::Single(bits),
        }
    }
}

impl<'a> MetaValue<'a> {
    /// Writes the value. A floating-point number is handed to `F` now.
    pub fn encode<F: FloatText>(&self) -> (text: String)
        ensures
            writes::<F>(self@, text),
    {
        match self {
            MetaValue::Unsigned(n) => format_unsigned(*n),
            MetaValue::Signed(n) => format_signed(*n),
            MetaValue::Text(text) => String::from_str(*text),
            MetaValue::Owned(text) => text.clone(),
            MetaValue::Unit => String::new(),
            MetaValue::Double(bits) => F::write(*bits),
            MetaValue::Single(bits) => F::write_single(*bits),
        }
    }
}

/// Trait for types that can be encoded into metadata fields.
pub trait MetaEncodable {
    /// The text that the value is written as.
    spec fn encoded(&self) -> Seq<char>;

    /// Encode the type into a string.
    fn encode(&self) -> (text: String)
        ensures
            text@ == self.encoded(),
    ;

    /// Holds on to the value so that it can be written later.
    fn capture(&self) -> (held: MetaValue<'_>)
        ensures
            held@ == Held::Text(self.encoded()),
    ;
}

/// Trait for types that can be decoded from metadata fields.
pub trait MetaDecodable: Sized {
    /// Whether a text reads as a value of the type.
    spec fn readable(encoded: Seq<char>) -> bool;

    /// Whether `value` is what a text reads as.
    spec fn reads_as(encoded: Seq<char>, value: Self) -> bool;

    /// Decode the type from a string.
    fn decode(encoded: String) -> (value: Option<Self>)
        ensures
            value is Some <==> Self::readable(encoded@),
            value matches Some(read) ==> Self::reads_as(encoded@, read),
    ;
}

/// A metadata field. `F` writes it where it holds a floating-point number.
pub struct MetaField<'a, F: FloatText> {
    source: MetaValue<'a>,
    how: PhantomData<F>,
}

impl<'a, F: FloatText> View for MetaField<'a, F> {
    type V = Held;

    /// What the field holds.
    closed spec fn view(&self) -> Held {
        self.source@
    }
}

impl<'a, F: FloatText> MetaField<'a, F> {
    /// Create a new metadata field that writes `value` when it is asked.
    pub fn new<T: MetaEncodable>(value: &'a T) -> (field: Self)
        ensures
            field@ == Held::Text(value.encoded()),
    {
        MetaField { source: value.capture(), how: PhantomData }
    }

    /// Create a new metadata field out of text that is an encoding already.
    /// The field gives that text when it is asked.
    pub fn owned(text: String) -> (field: Self)
        ensures
            field@ == Held::Text(text@),
    {
        MetaField { source: MetaValue::Owned(text), how: PhantomData }
    }

    /// Create a new metadata field that holds what was captured.
    pub fn of(source: MetaValue<'a>) -> (field: Self)
        ensures
            field@ == source@,
    {
        MetaField { source, how: PhantomData }
    }

    /// Writes the value that the field holds. A floating-point number is
    /// handed to `F` now, and not before.
    #[must_use]
    pub fn encode(&self) -> (text: String)
        ensures
            writes::<F>(self@, text),
    {
        self.source.encode::<F>()
    }

    /// Decode a metadata field into a decodable type.
    #[must_use]
    pub fn decode<T: MetaDecodable>(&self, encoded: String) -> (value: Option<T>)
        ensures
            value is Some <==> T::readable(encoded@),
            value matches Some(read) ==> T::reads_as(encoded@, read),
    {
        T::decode(encoded)
    }
}

/// Whether `value` is what a text gives a field of type `T`: what the text
/// reads as, and `default` where it does not read as a `T`.
pub open spec fn reads<T: MetaDecodable>(text: Seq<char>, default: T, value: T) -> bool {
    if T::readable(text) {
        T::reads_as(text, value)
    } else {
        value == default
    }
}

/// Whether `value` is what a shape takes for its field named `name`: what
/// the offered field's text reads as, and the shape's own default where the
/// name was not offered or the text does not read as the field's type. The
/// text of a floating-point number is what `F` wrote for its bits.
pub open spec fn transfers<T: MetaDecodable, F: FloatText>(
    offered: Map<Seq<char>, Held>,
    name: Seq<char>,
    default: T,
    value: T,
) -> bool {
    if !offered.contains_key(name) {
        value == default
    } else {
        match offered[name] {
            Held::Text(text) => reads(text, default, value),
            number => exists|text: String|
                #[trigger] writes::<F>(number, text) && reads(text@, default, value),
        }
    }
}

/// The value that a text gives a field: what it reads as, or `default`.
pub fn read_or<T: MetaDecodable>(text: String, default: T) -> (value: T)
    ensures
        reads(text@, default, value),
{
    match T::decode(text) {
        Some(value) => value,
        None => default,
    }
}

/// The fields that a shape offers, each under its name. `F` writes the
/// floating-point numbers among them.
#[verifier::reject_recursive_types(F)]
pub struct FieldMap<'a, F: FloatText> {
    fields: StringHashMap<MetaField<'a, F>>,
}

impl<'a, F: FloatText> View for FieldMap<'a, F> {
    type V = Map<Seq<char>, Held>;

    /// What is held under each name.
    closed spec fn view(&self) -> Map<Seq<char>, Held> {
        self.fields@.map_values(|field: MetaField<'a, F>| field@)
    }
}

impl<'a, F: FloatText> FieldMap<'a, F> {
    /// A map that offers nothing.
    pub fn new() -> (map: Self)
        ensures
            map@ == Map::<Seq<char>, Held>::empty(),
    {
        FieldMap { fields: StringHashMap::new() }
    }

    /// Offers a field under a name. A field that was offered under the name
    /// before is replaced.
    pub fn insert(&mut self, name: String, field: MetaField<'a, F>)
        ensures
            final(self)@ == old(self)@.insert(name@, field@),
    {
        self.fields.insert(name, field);
    }

    /// The field that is offered under a name.
    pub fn get(&self, name: &str) -> (found: Option<&MetaField<'a, F>>)
        ensures
            match found {
                Some(field) => self@.contains_key(name@) && field@ == self@[name@],
                None => !self@.contains_key(name@),
            },
    {
        self.fields.get(name)
    }

    pub fn contains_key(&self, name: &str) -> (offered: bool)
        ensures
            offered == self@.contains_key(name@),
    {
        self.fields.contains_key(name)
    }

    /// The value of a shape's field named `name` after the transfer: the
    /// offered field is written and read as a `T`, and `default` stands in
    /// where that gives nothing. The transfer itself cannot fail.
    pub fn decode_or<T: MetaDecodable>(&self, name: &str, default: T) -> (value: T)
        ensures
            transfers::<T, F>(self@, name@, default, value),
    {
        match self.get(name) {
            Some(field) => read_or(field.encode(), default),
            None => default,
        }
    }
}

/// Generic metadata trait for different replays.
pub trait Meta {
    /// Fetch all fields in a metadata object.
    fn fields<F: FloatText>(&self) -> FieldMap<'_, F> where Self: Sized;

    /// Create a metadata object from fields.
    fn from_fields<F: FloatText>(fields: FieldMap<'_, F>) -> Self where Self: Sized;
}

/// The shape of no metadata at all: it offers nothing and takes nothing.
impl Meta for () {
    fn fields<F: FloatText>(&self) -> (offered: FieldMap<'_, F>)
        ensures
            offered@ == Map::<Seq<char>, Held>::empty(),
    {
        FieldMap::new()
    }

    fn from_fields<F: FloatText>(fields: FieldMap<'_, F>) -> Self {
        ()
    }
}

/// A transfer keeps the default of every field that was not offered, or
/// whose text does not read as the field's type.
pub proof fn lemma_transfer_falls_back<T: MetaDecodable, F: FloatText>(
    offered: Map<Seq<char>, Held>,
    name: Seq<char>,
    default: T,
    value: T,
)
    requires
        transfers::<T, F>(offered, name, default, value),
        !offered.contains_key(name) || (offered[name] matches Held::Text(text) && !T::readable(
            text,
        )),
    ensures
        value == default,
{
}

/// A transfer takes what was offered for every field whose text reads as
/// the field's type, whatever the default.
pub proof fn lemma_transfer_takes_offer<T: MetaDecodable, F: FloatText>(
    offered: Map<Seq<char>, Held>,
    name: Seq<char>,
    text: Seq<char>,
    default: T,
    value: T,
)
    requires
        transfers::<T, F>(offered, name, default, value),
        offered.contains_key(name),
        offered[name] == Held::Text(text),
        T::readable(text),
    ensures
        T::reads_as(text, value),
{
}

/// A transfer from a floating-point number takes what the number's text
/// reads as, or keeps the default: there is no third outcome. The text is
/// what `F` wrote for the number.
pub proof fn lemma_transfer_from_number<T: MetaDecodable, F: FloatText>(
    offered: Map<Seq<char>, Held>,
    name: Seq<char>,
    default: T,
    value: T,
)
    requires
        transfers::<T, F>(offered, name, default, value),
        offered.contains_key(name),
        !(offered[name] is Text),
    ensures
        exists|text: String|
            #[trigger] writes::<F>(offered[name], text) && if T::readable(text@) {
                T::reads_as(text@, value)
            } else {
                value == default
            },
{
}

impl MetaEncodable for u8 {
    open spec fn encoded(&self) -> Seq<char> {
        spec_format(*self as int)
    }

    fn encode(&self) -> (text: String) {
        format_unsigned(*self as u64)
    }

    fn capture(&self) -> (held: MetaValue<'_>) {
        MetaValue::Unsigned(*self as u64)
    }
}

impl MetaDecodable for u8 {
    open spec fn readable(encoded: Seq<char>) -> bool {
        spec_parse(encoded, 0 as int, u8::MAX as int) is Some
    }

    open spec fn reads_as(encoded: Seq<char>, value: Self) -> bool {
        spec_parse(encoded, 0 as int, u8::MAX as int) == Some(value as int)
    }

    fn decode(encoded: String) -> (value: Option<Self>) {
        match parse_unsigned(encoded.as_str(), u8::MAX as u64) {
            Some(n) => Some(n as u8),
            None => None,
        }
    }
}

impl MetaEncodable for u16 {
    open spec fn encoded(&self) -> Seq<char> {
        spec_format(*self as int)
    }

    fn encode(&self) -> (text: String) {
        format_unsigned(*self as u64)
    }

    fn capture(&self) -> (held: MetaValue<'_>) {
        MetaValue::Unsigned(*self as u64)
    }
}

impl MetaDecodable for u16 {
    open spec fn readable(encoded: Seq<char>) -> bool {
        spec_parse(encoded, 0 as int, u16::MAX as int) is Some
    }

    open spec fn reads_as(encoded: Seq<char>, value: Self) -> bool {
        spec_parse(encoded, 0 as int, u16::MAX as int) == Some(value as int)
    }

    fn decode(encoded: String) -> (value: Option<Self>) {
        match parse_unsigned(encoded.as_str(), u16::MAX as u64) {
            Some(n) => Some(n as u16),
            None => None,
        }
    }
}

impl MetaEncodable for u32 {
    open spec fn encoded(&self) -> Seq<char> {
        spec_format(*self as int)
    }

    fn encode(&self) -> (text: String) {
        format_unsigned(*self as u64)
    }

    fn capture(&self) -> (held: MetaValue<'_>) {
        MetaValue::Unsigned(*self as u64)
    }
}

impl MetaDecodable for u32 {
    open spec fn readable(encoded: Seq<char>) -> bool {
        spec_parse(encoded, 0 as int, u32::MAX as int) is Some
    }

    open spec fn reads_as(encoded: Seq<char>, value: Self) -> bool {
        spec_parse(encoded, 0 as int, u32::MAX as int) == Some(value as int)
    }

    fn decode(encoded: String) -> (value: Option<Self>) {
        match parse_unsigned(encoded.as_str(), u32::MAX as u64) {
            Some(n) => Some(n as u32),
            None => None,
        }
    }
}

impl MetaEncodable for u64 {
    open spec fn encoded(&self) -> Seq<char> {
        spec_format(*self as int)
    }

    fn encode(&self) -> (text: String) {
        format_unsigned(*self)
    }

    fn capture(&self) -> (held: MetaValue<'_>) {
        MetaValue::Unsigned(*self)
    }
}

impl MetaDecodable for u64 {
    open spec fn readable(encoded: Seq<char>) -> bool {
        spec_parse(encoded, 0 as int, u64::MAX as int) is Some
    }

    open spec fn reads_as(encoded: Seq<char>, value: Self) -> bool {
        spec_parse(encoded, 0 as int, u64::MAX as int) == Some(value as int)
    }

    fn decode(encoded: String) -> (value: Option<Self>) {
        match parse_unsigned(encoded.as_str(), u64::MAX) {
            Some(n) => Some(n),
            None => None,
        }
    }
}

impl MetaEncodable for i8 {
    open spec fn encoded(&self) -> Seq<char> {
        spec_format(*self as int)
    }

    fn encode(&self) -> (text: String) {
        format_signed(*self as i64)
    }

    fn capture(&self) -> (held: MetaValue<'_>) {
        MetaValue::Signed(*self as i64)
    }
}

impl MetaDecodable for i8 {
    open spec fn readable(encoded: Seq<char>) -> bool {
        spec_parse(encoded, i8::MIN as int, i8::MAX as int) is Some
    }

    open spec fn reads_as(encoded: Seq<char>, value: Self) -> bool {
        spec_parse(encoded, i8::MIN as int, i8::MAX as int) == Some(value as int)
    }

    fn decode(encoded: String) -> (value: Option<Self>) {
        match parse_signed(encoded.as_str(), i8::MIN as i64, i8::MAX as i64) {
            Some(n) => Some(n as i8),
            None => None,
        }
    }
}

impl MetaEncodable for i16 {
    open spec fn encoded(&self) -> Seq<char> {
        spec_format(*self as int)
    }

    fn encode(&self) -> (text: String) {
        format_signed(*self as i64)
    }

    fn capture(&self) -> (held: MetaValue<'_>) {
        MetaValue::Signed(*self as i64)
    }
}

impl MetaDecodable for i16 {
    open spec fn readable(encoded: Seq<char>) -> bool {
        spec_parse(encoded, i16::MIN as int, i16::MAX as int) is Some
    }

    open spec fn reads_as(encoded: Seq<char>, value: Self) -> bool {
        spec_parse(encoded, i16::MIN as int, i16::MAX as int) == Some(value as int)
    }

    fn decode(encoded: String) -> (value: Option<Self>) {
        match parse_signed(encoded.as_str(), i16::MIN as i64, i16::MAX as i64) {
            Some(n) => Some(n as i16),
            None => None,
        }
    }
}

impl MetaEncodable for i32 {
    open spec fn encoded(&self) -> Seq<char> {
        spec_format(*self as int)
    }

    fn encode(&self) -> (text: String) {
        format_signed(*self as i64)
    }

    fn capture(&self) -> (held: MetaValue<'_>) {
        MetaValue::Signed(*self as i64)
    }
}

impl MetaDecodable for i32 {
    open spec fn readable(encoded: Seq<char>) -> bool {
        spec_parse(encoded, i32::MIN as int, i32::MAX as int) is Some
    }

    open spec fn reads_as(encoded: Seq<char>, value: Self) -> bool {
        spec_parse(encoded, i32::MIN as int, i32::MAX as int) == Some(value as int)
    }

    fn decode(encoded: String) -> (value: Option<Self>) {
        match parse_signed(encoded.as_str(), i32::MIN as i64, i32::MAX as i64) {
            Some(n) => Some(n as i32),
            None => None,
        }
    }
}

impl MetaEncodable for i64 {
    open spec fn encoded(&self) -> Seq<char> {
        spec_format(*self as int)
    }

    fn encode(&self) -> (text: String) {
        format_signed(*self)
    }

    fn capture(&self) -> (held: MetaValue<'_>) {
        MetaValue::Signed(*self)
    }
}

impl MetaDecodable for i64 {
    open spec fn readable(encoded: Seq<char>) -> bool {
        spec_parse(encoded, i64::MIN as int, i64::MAX as int) is Some
    }

    open spec fn reads_as(encoded: Seq<char>, value: Self) -> bool {
        spec_parse(encoded, i64::MIN as int, i64::MAX as int) == Some(value as int)
    }

    fn decode(encoded: String) -> (value: Option<Self>) {
        match parse_signed(encoded.as_str(), i64::MIN, i64::MAX) {
            Some(n) => Some(n),
            None => None,
        }
    }
}

impl MetaEncodable for String {
    open spec fn encoded(&self) -> Seq<char> {
        self@
    }

    fn encode(&self) -> (text: String) {
        self.clone()
    }

    fn capture(&self) -> (held: MetaValue<'_>) {
        MetaValue::Text(self.as_str())
    }
}

impl MetaDecodable for String {
    open spec fn readable(encoded: Seq<char>) -> bool {
        true
    }

    open spec fn reads_as(encoded: Seq<char>, value: Self) -> bool {
        value@ == encoded
    }

    fn decode(encoded: String) -> (value: Option<Self>) {
        Some(encoded)
    }
}

impl MetaEncodable for () {
    open spec fn encoded(&self) -> Seq<char> {
        Seq::empty()
    }

    fn encode(&self) -> (text: String) {
        String::new()
    }

    fn capture(&self) -> (held: MetaValue<'_>) {
        MetaValue::Unit
    }
}

impl MetaDecodable for () {
    open spec fn readable(encoded: Seq<char>) -> bool {
        true
    }

    open spec fn reads_as(encoded: Seq<char>, value: Self) -> bool {
        true
    }

    fn decode(_encoded: String) -> (value: Option<Self>) {
        Some(())
    }
}

/// What a number is written as reads as that number, and as no other.
pub proof fn lemma_numbers_round_trip(
    a: u8,
    b: u16,
    c: u32,
    d: u64,
    e: i8,
    f: i16,
    g: i32,
    h: i64,
)
    ensures
        u8::readable(a.encoded()) && forall|x: u8| u8::reads_as(a.encoded(), x) <==> x == a,
        u16::readable(b.encoded()) && forall|x: u16| u16::reads_as(b.encoded(), x) <==> x == b,
        u32::readable(c.encoded()) && forall|x: u32| u32::reads_as(c.encoded(), x) <==> x == c,
        u64::readable(d.encoded()) && forall|x: u64| u64::reads_as(d.encoded(), x) <==> x == d,
        i8::readable(e.encoded()) && forall|x: i8| i8::reads_as(e.encoded(), x) <==> x == e,
        i16::readable(f.encoded()) && forall|x: i16| i16::reads_as(f.encoded(), x) <==> x == f,
        i32::readable(g.encoded()) && forall|x: i32| i32::reads_as(g.encoded(), x) <==> x == g,
        i64::readable(h.encoded()) && forall|x: i64| i64::reads_as(h.encoded(), x) <==> x == h,
{
    lemma_format_round_trip(a as int, 0, u8::MAX as int);
    lemma_format_round_trip(b as int, 0, u16::MAX as int);
    lemma_format_round_trip(c as int, 0, u32::MAX as int);
    lemma_format_round_trip(d as int, 0, u64::MAX as int);
    lemma_format_round_trip(e as int, i8::MIN as int, i8::MAX as int);
    lemma_format_round_trip(f as int, i16::MIN as int, i16::MAX as int);
    lemma_format_round_trip(g as int, i32::MIN as int, i32::MAX as int);
    lemma_format_round_trip(h as int, i64::MIN as int, i64::MAX as int);
}

/// What a text is written as reads as a text of the same characters, and
/// what nothing is written as reads as nothing.
pub proof fn lemma_text_round_trips(text: String, read: String)
    ensures
        String::readable(text.encoded()),
        String::reads_as(text.encoded(), read) <==> read@ == text@,
        <()>::readable(().encoded()),
        <()>::reads_as(().encoded(), ()),
{
}

} // verus!
