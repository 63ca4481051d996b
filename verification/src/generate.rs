//! Writes the code that makes a struct a shape of metadata.
//!
//! A struct with named fields offers each field under its own name, or
//! under the name that the field's options give it, and takes each field
//! back by that name, with the default of the options or the default of
//! the field's type. What is written here is the text of that
//! implementation of [`Meta`](crate::meta::Meta); reading the struct and
//! its options out of source code, and turning the text into tokens, is
//! the caller's part.
//!
//! A field of a type that encodes and decodes itself (whole numbers, text
//! and the unit type) needs no more than that. A field of any other type
//! names, in its options, a module with two functions: `offer`, which makes
//! the field that holds the value, and `take`, which reads the value back
//! from the offered fields, a name and a default. For floating-point
//! numbers held by their bits these are
//! [`float_text`](crate::float_text) and
//! [`single_text`](crate::single_text).

use vstd::prelude::*;
use vstd::string::{StrSliceExecFns, StringExecFns};

verus! {

/// What the `meta` attribute of a field says.
pub struct MetaOptions {
    /// The name to offer the field under, in place of its own.
    pub renamed: Option<String>,
    /// The expression for the field's default, as it was written.
    pub default: Option<String>,
    /// The path of the module whose `offer` and `take` stand in for the
    /// field's own encoding and decoding, as it was written.
    pub with: Option<String>,
}

/// A field with a name.
pub struct Field {
    pub ident: String,
    pub options: MetaOptions,
}

/// The fields of a struct.
pub enum Fields {
    Named(Vec<Field>),
    Unnamed,
    Unit,
}

pub struct DataStruct {
    pub fields: Fields,
}

/// What kind of type an implementation is asked for.
pub enum Data {
    Struct(DataStruct),
    Enum,
    Union,
}

/// The type that an implementation is asked for.
pub struct DeriveInput {
    pub ident: String,
    pub data: Data,
}

/// The name that a field is offered under.
pub open spec fn name_of(field: Field) -> Seq<char> {
    match field.options.renamed {
        Some(name) => name@,
        None => field.ident@,
    }
}

/// The expression for a field's default.
pub open spec fn default_of(field: Field) -> Seq<char> {
    match field.options.default {
        Some(expr) => expr@,
        None => "Default::default()"@,
    }
}

/// A character as it stands inside a string literal.
pub open spec fn escaped_char(c: char) -> Seq<char> {
    if c == '"' {
        seq!['\\', '"']
    } else if c == '\\' {
        seq!['\\', '\\']
    } else if c == '\n' {
        seq!['\\', 'n']
    } else if c == '\r' {
        seq!['\\', 'r']
    } else if c == '\t' {
        seq!['\\', 't']
    } else if c == '\0' {
        seq!['\\', '0']
    } else {
        seq![c]
    }
}

/// A text as it stands inside a string literal.
pub open spec fn escaped(text: Seq<char>) -> Seq<char>
    decreases text.len(),
{
    if text.len() == 0 {
        Seq::empty()
    } else {
        escaped(text.drop_last()) + escaped_char(text.last())
    }
}

/// The string literal for a text.
pub open spec fn spec_literal(text: Seq<char>) -> Seq<char> {
    seq!['"'] + escaped(text) + seq!['"']
}

/// The call that makes the field for a value: the library's own, or
/// `offer` of the module that the options name.
pub open spec fn offer_of(field: Field) -> Seq<char> {
    match field.options.with {
        Some(path) => path@ + "::offer"@,
        None => "siliconv::meta::MetaField::new"@,
    }
}

/// The call that reads a value back: the library's own, or `take` of the
/// module that the options name.
pub open spec fn take_of(field: Field) -> Seq<char> {
    match field.options.with {
        Some(path) => path@ + "::take(&fields, "@,
        None => "fields.decode_or("@,
    }
}

/// The statement that offers a field.
pub open spec fn spec_insert(field: Field) -> Seq<char> {
    "        map.insert("@ + spec_literal(name_of(field)) + ".to_string(), "@ + offer_of(field)
        + "(&self."@ + field.ident@ + "));\n"@
}

/// The initializer that takes a field back.
pub open spec fn spec_take(field: Field) -> Seq<char> {
    "            "@ + field.ident@ + ": "@ + take_of(field) + spec_literal(name_of(field)) + ", "@
        + default_of(field) + "),\n"@
}

/// The first `count` texts, one after the other.
pub open spec fn joined(parts: Seq<String>, count: int) -> Seq<char>
    decreases count,
{
    if count <= 0 {
        Seq::empty()
    } else {
        joined(parts, count - 1) + parts[count - 1]@
    }
}

/// The named fields of a type: those of a struct that names its fields,
/// and none of any other type.
pub open spec fn named_fields(data: Data) -> Seq<Field> {
    match data {
        Data::Struct(DataStruct { fields: Fields::Named(fields) }) => fields@,
        _ => Seq::empty(),
    }
}

/// The statements that offer the first `count` fields.
pub open spec fn spec_inserts(fields: Seq<Field>, count: int) -> Seq<char>
    decreases count,
{
    if count <= 0 {
        Seq::empty()
    } else {
        spec_inserts(fields, count - 1) + spec_insert(fields[count - 1])
    }
}

/// The initializers that take the first `count` fields back.
pub open spec fn spec_takes(fields: Seq<Field>, count: int) -> Seq<char>
    decreases count,
{
    if count <= 0 {
        Seq::empty()
    } else {
        spec_takes(fields, count - 1) + spec_take(fields[count - 1])
    }
}

/// The implementation for a type.
pub open spec fn spec_derive_meta(input: DeriveInput) -> Seq<char> {
    let fields = named_fields(input.data);
    "impl siliconv::meta::Meta for "@ + input.ident@
        + " {\n    fn fields<F: siliconv::float_text::FloatText>(&self) -> siliconv::meta::FieldMap<'_, F> {\n        let mut map = siliconv::meta::FieldMap::new();\n"@
        + spec_inserts(fields, fields.len() as int)
        + "        map\n    }\n\n    fn from_fields<F: siliconv::float_text::FloatText>(fields: siliconv::meta::FieldMap<'_, F>) -> Self {\n        Self {\n"@
        + spec_takes(fields, fields.len() as int) + "        }\n    }\n}\n"@
}

/// Writes the string literal for a text.
pub fn literal(text: &str) -> (written: String)
    ensures
        written@ == spec_literal(text@),
{
    let mut written = String::from_str("\"");
    let len = text.unicode_len();
    let mut at: usize = 0;
    proof {
        reveal_strlit("\"");
    }
    while at < len
        invariant
            at <= len,
            len == text@.len(),
            written@ == seq!['"'] + escaped(text@.take(at as int)),
        decreases len - at,
    {
        let c = text.get_char(at);
        if c == '"' {
            written.append("\\\"");
        } else if c == '\\' {
            written.append("\\\\");
        } else if c == '\n' {
            written.append("\\n");
        } else if c == '\r' {
            written.append("\\r");
        } else if c == '\t' {
            written.append("\\t");
        } else if c == '\0' {
            written.append("\\0");
        } else {
            written.append(text.substring_char(at, at + 1));
        }
        proof {
            reveal_strlit("\\\"");
            reveal_strlit("\\\\");
            reveal_strlit("\\n");
            reveal_strlit("\\r");
            reveal_strlit("\\t");
            reveal_strlit("\\0");
            assert(text@.take(at + 1).drop_last() =~= text@.take(at as int));
        }
        at = at + 1;
    }
    assert(text@.take(at as int) =~= text@);
    written.append("\"");
    written
}

/// The name that a field is offered under.
fn offered_name(field: &Field) -> (name: &str)
    ensures
        name@ == name_of(*field),
{
    match &field.options.renamed {
        Some(name) => name.as_str(),
        None => field.ident.as_str(),
    }
}

/// Writes the statement that offers a field.
pub fn insert_statement(field: &Field) -> (written: String)
    ensures
        written@ == spec_insert(*field),
{
    let mut written = String::from_str("        map.insert(");
    written.append(literal(offered_name(field)).as_str());
    written.append(".to_string(), ");
    match &field.options.with {
        Some(path) => {
            written.append(path.as_str());
            written.append("::offer");
        },
        None => written.append("siliconv::meta::MetaField::new"),
    }
    written.append("(&self.");
    written.append(field.ident.as_str());
    written.append("));\n");
    written
}

/// Writes the initializer that takes a field back.
pub fn take_initializer(field: &Field) -> (written: String)
    ensures
        written@ == spec_take(*field),
{
    let mut written = String::from_str("            ");
    written.append(field.ident.as_str());
    written.append(": ");
    match &field.options.with {
        Some(path) => {
            written.append(path.as_str());
            written.append("::take(&fields, ");
        },
        None => written.append("fields.decode_or("),
    }
    written.append(literal(offered_name(field)).as_str());
    written.append(", ");
    match &field.options.default {
        Some(expr) => written.append(expr.as_str()),
        None => written.append("Default::default()"),
    }
    written.append("),\n");
    written
}

/// What `transform` makes of each named field of a struct, in the order
/// of the fields. A struct that does not name its fields gives nothing.
pub fn from_each_named_field<F: Fn(&Field) -> String>(
    transform: F,
    data_struct: &DataStruct,
) -> (made: Vec<String>)
    requires
        data_struct.fields matches Fields::Named(fields) ==> forall|i: int|
            0 <= i < fields@.len() ==> call_requires(transform, (&#[trigger] fields@[i],)),
    ensures
        match data_struct.fields {
            Fields::Named(fields) => {
                &&& made@.len() == fields@.len()
                &&& forall|i: int|
                    0 <= i < fields@.len() ==> call_ensures(
                        transform,
                        (&fields@[i],),
                        #[trigger] made@[i],
                    )
            },
            _ => made@.len() == 0,
        },
{
    let mut made: Vec<String> = Vec::new();
    if let Fields::Named(fields_named) = &data_struct.fields {
        let mut at: usize = 0;
        while at < fields_named.len()
            invariant
                at <= fields_named.len(),
                made@.len() == at,
                forall|i: int|
                    0 <= i < fields_named@.len() ==> call_requires(
                        transform,
                        (&#[trigger] fields_named@[i],),
                    ),
                forall|i: int|
                    0 <= i < at ==> call_ensures(
                        transform,
                        (&fields_named@[i],),
                        #[trigger] made@[i],
                    ),
            decreases fields_named.len() - at,
        {
            made.push(transform(&fields_named[at]));
            at = at + 1;
        }
    }
    made
}

/// Writes texts one after the other.
pub fn join(parts: &Vec<String>) -> (written: String)
    ensures
        written@ == joined(parts@, parts@.len() as int),
{
    let mut written = String::new();
    let mut at: usize = 0;
    while at < parts.len()
        invariant
            at <= parts.len(),
            written@ == joined(parts@, at as int),
        decreases parts.len() - at,
    {
        written.append(parts[at].as_str());
        at = at + 1;
    }
    written
}

/// What was written for the first `count` fields, one after the other, is
/// the statements that offer them.
proof fn lemma_joined_inserts(fields: Seq<Field>, parts: Seq<String>, count: int)
    requires
        0 <= count <= fields.len(),
        parts.len() == fields.len(),
        forall|i: int| 0 <= i < fields.len() ==> (#[trigger] parts[i])@ == spec_insert(fields[i]),
    ensures
        joined(parts, count) == spec_inserts(fields, count),
    decreases count,
{
    if count > 0 {
        lemma_joined_inserts(fields, parts, count - 1);
    }
}

/// What was written for the first `count` fields, one after the other, is
/// the initializers that take them back.
proof fn lemma_joined_takes(fields: Seq<Field>, parts: Seq<String>, count: int)
    requires
        0 <= count <= fields.len(),
        parts.len() == fields.len(),
        forall|i: int| 0 <= i < fields.len() ==> (#[trigger] parts[i])@ == spec_take(fields[i]),
    ensures
        joined(parts, count) == spec_takes(fields, count),
    decreases count,
{
    if count > 0 {
        lemma_joined_takes(fields, parts, count - 1);
    }
}

/// Writes the implementation of `Meta` for a type.
pub fn derive_meta(input: &DeriveInput) -> (written: String)
    ensures
        written@ == spec_derive_meta(*input),
{
    let fields = if let Data::Struct(data_struct) = &input.data {
        from_each_named_field(insert_statement, data_struct)
    } else {
        Vec::new()
    };
    let from_fields = if let Data::Struct(data_struct) = &input.data {
        from_each_named_field(take_initializer, data_struct)
    } else {
        Vec::new()
    };
    proof {
        let named = named_fields(input.data);
        assert forall|i: int| 0 <= i < named.len() implies (#[trigger] fields@[i])@ == spec_insert(
            named[i],
        ) by {
            assert(call_ensures(insert_statement, (&named[i],), fields@[i]));
        }
        assert forall|i: int| 0 <= i < named.len() implies (#[trigger] from_fields@[i])@
            == spec_take(named[i]) by {
            assert(call_ensures(take_initializer, (&named[i],), from_fields@[i]));
        }
        lemma_joined_inserts(named, fields@, named.len() as int);
        lemma_joined_takes(named, from_fields@, named.len() as int);
    }
    let mut written = String::from_str("impl siliconv::meta::Meta for ");
    written.append(input.ident.as_str());
    written.append(
        " {\n    fn fields<F: siliconv::float_text::FloatText>(&self) -> siliconv::meta::FieldMap<'_, F> {\n        let mut map = siliconv::meta::FieldMap::new();\n",
    );
    written.append(join(&fields).as_str());
    written.append(
        "        map\n    }\n\n    fn from_fields<F: siliconv::float_text::FloatText>(fields: siliconv::meta::FieldMap<'_, F>) -> Self {\n        Self {\n",
    );
    written.append(join(&from_fields).as_str());
    written.append("        }\n    }\n}\n");
    written
}

} // verus!
