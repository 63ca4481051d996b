use siliconv::generate::{
    derive_meta, from_each_named_field, insert_statement, join, literal, take_initializer, Data,
    DataStruct, DeriveInput, Field, Fields, MetaOptions,
};
use siliconv::float::Float64;
use siliconv::float_text::FloatText;
use siliconv::meta::{FieldMap, Meta, MetaField};

struct StdText;

impl FloatText for StdText {
    fn write(bits: u64) -> String {
        f64::from_bits(bits).to_string()
    }

    fn read(text: String) -> Option<u64> {
        text.parse::<f64>().ok().map(f64::to_bits)
    }

    fn write_single(bits: u32) -> String {
        f32::from_bits(bits).to_string()
    }

    fn read_single(text: String) -> Option<u32> {
        text.parse::<f32>().ok().map(f32::to_bits)
    }
}

fn field(ident: &str, renamed: Option<&str>, default: Option<&str>) -> Field {
    Field {
        ident: ident.to_string(),
        options: MetaOptions {
            renamed: renamed.map(str::to_string),
            default: default.map(str::to_string),
            with: None,
        },
    }
}

fn field_with(ident: &str, default: Option<&str>, with: &str) -> Field {
    Field {
        ident: ident.to_string(),
        options: MetaOptions {
            renamed: None,
            default: default.map(str::to_string),
            with: Some(with.to_string()),
        },
    }
}

// The module that the fields of `Silicate` name for their floating-point
// numbers, and the implementation that `derive_meta` writes for `Silicate`,
// both put here by hand.
struct Float;

impl Float {
    fn offer<'a, F: FloatText>(value: &'a f64) -> MetaField<'a, F> {
        MetaField::of(siliconv::meta::MetaValue::Double(value.to_bits()))
    }

    fn take<F: FloatText>(fields: &FieldMap<'_, F>, name: &str, default: f64) -> f64 {
        let default = Float64::from_bits(default.to_bits());
        f64::from_bits(siliconv::float_text::take(fields, name, default).to_bits())
    }
}

#[derive(Debug, PartialEq)]
struct Silicate {
    tps: f64,
    seed: u64,
}

impl siliconv::meta::Meta for Silicate {
    fn fields<F: siliconv::float_text::FloatText>(&self) -> siliconv::meta::FieldMap<'_, F> {
        let mut map = siliconv::meta::FieldMap::new();
        map.insert("tps".to_string(), Float::offer(&self.tps));
        map.insert("seed".to_string(), siliconv::meta::MetaField::new(&self.seed));
        map
    }

    fn from_fields<F: siliconv::float_text::FloatText>(fields: siliconv::meta::FieldMap<'_, F>) -> Self {
        Self {
            tps: Float::take(&fields, "tps", 240.0),
            seed: fields.decode_or("seed", Default::default()),
        }
    }
}

const SILICATE: &str = "impl siliconv::meta::Meta for Silicate {
    fn fields<F: siliconv::float_text::FloatText>(&self) -> siliconv::meta::FieldMap<'_, F> {
        let mut map = siliconv::meta::FieldMap::new();
        map.insert(\"tps\".to_string(), Float::offer(&self.tps));
        map.insert(\"seed\".to_string(), siliconv::meta::MetaField::new(&self.seed));
        map
    }

    fn from_fields<F: siliconv::float_text::FloatText>(fields: siliconv::meta::FieldMap<'_, F>) -> Self {
        Self {
            tps: Float::take(&fields, \"tps\", 240.0),
            seed: fields.decode_or(\"seed\", Default::default()),
        }
    }
}
";

#[test]
fn shape_with_a_float_is_written_out() {
    let input = DeriveInput {
        ident: "Silicate".to_string(),
        data: Data::Struct(DataStruct {
            fields: Fields::Named(vec![
                field_with("tps", Some("240.0"), "Float"),
                field("seed", None, None),
            ]),
        }),
    };
    let written = derive_meta(&input);
    assert_eq!(written, SILICATE);
    assert!(syn::parse_file(&written).is_ok());
    let renamed = Field {
        ident: "tps".to_string(),
        options: MetaOptions {
            renamed: Some("ticks".to_string()),
            default: None,
            with: Some("crate::float".to_string()),
        },
    };
    assert_eq!(
        insert_statement(&renamed),
        "        map.insert(\"ticks\".to_string(), crate::float::offer(&self.tps));\n"
    );
    assert_eq!(
        take_initializer(&renamed),
        "            tps: crate::float::take(&fields, \"ticks\", Default::default()),\n"
    );
}

#[test]
fn shape_with_a_float_transfers_by_name() {
    let original = Silicate { tps: 60.0, seed: 1234 };
    assert_eq!(original.fields::<StdText>().get("tps").unwrap().encode(), "60");
    assert_eq!(Silicate::from_fields(original.fields::<StdText>()), original);
    assert_eq!(Silicate::from_fields(FieldMap::<StdText>::new()), Silicate { tps: 240.0, seed: 0 });
    let odd = Silicate { tps: 59.94, seed: 7 };
    assert_eq!(Silicate::from_fields(odd.fields::<StdText>()), odd);
    let counters = Counters { seed: 99, count: 1 };
    assert_eq!(Silicate::from_fields(counters.fields::<StdText>()), Silicate { tps: 240.0, seed: 99 });
    assert_eq!(Counters::from_fields(odd.fields::<StdText>()), Counters { seed: 7, count: 7 });
}

fn counters() -> DeriveInput {
    DeriveInput {
        ident: "Counters".to_string(),
        data: Data::Struct(DataStruct {
            fields: Fields::Named(vec![
                field("seed", None, None),
                field("count", Some("n"), Some("7")),
            ]),
        }),
    }
}

const COUNTERS: &str = "impl siliconv::meta::Meta for Counters {
    fn fields<F: siliconv::float_text::FloatText>(&self) -> siliconv::meta::FieldMap<'_, F> {
        let mut map = siliconv::meta::FieldMap::new();
        map.insert(\"seed\".to_string(), siliconv::meta::MetaField::new(&self.seed));
        map.insert(\"n\".to_string(), siliconv::meta::MetaField::new(&self.count));
        map
    }

    fn from_fields<F: siliconv::float_text::FloatText>(fields: siliconv::meta::FieldMap<'_, F>) -> Self {
        Self {
            seed: fields.decode_or(\"seed\", Default::default()),
            count: fields.decode_or(\"n\", 7),
        }
    }
}
";

// The implementation that `derive_meta` writes for `Counters`, put here by hand.
#[derive(Debug, PartialEq)]
struct Counters {
    seed: u64,
    count: u32,
}

impl siliconv::meta::Meta for Counters {
    fn fields<F: siliconv::float_text::FloatText>(&self) -> siliconv::meta::FieldMap<'_, F> {
        let mut map = siliconv::meta::FieldMap::new();
        map.insert("seed".to_string(), siliconv::meta::MetaField::new(&self.seed));
        map.insert("n".to_string(), siliconv::meta::MetaField::new(&self.count));
        map
    }

    fn from_fields<F: siliconv::float_text::FloatText>(fields: siliconv::meta::FieldMap<'_, F>) -> Self {
        Self {
            seed: fields.decode_or("seed", Default::default()),
            count: fields.decode_or("n", 7),
        }
    }
}

#[derive(Debug, PartialEq)]
struct Named {
    n: i8,
    label: String,
}

impl Meta for Named {
    fn fields<F: FloatText>(&self) -> FieldMap<'_, F> {
        let mut map = FieldMap::new();
        map.insert("n".to_string(), MetaField::new(&self.n));
        map.insert("label".to_string(), MetaField::new(&self.label));
        map
    }

    fn from_fields<F: FloatText>(fields: FieldMap<'_, F>) -> Self {
        Self { n: fields.decode_or("n", -1), label: fields.decode_or("label", "none".to_string()) }
    }
}

#[test]
fn implementation_is_written_out() {
    assert_eq!(derive_meta(&counters()), COUNTERS);
}

#[test]
fn implementation_is_code() {
    let file = syn::parse_file(&derive_meta(&counters())).unwrap();
    assert_eq!(file.items.len(), 1);
    match &file.items[0] {
        syn::Item::Impl(item) => {
            assert!(item.trait_.is_some());
            assert_eq!(item.items.len(), 2);
        }
        _ => panic!("not an implementation"),
    }
}

#[test]
fn types_without_named_fields_offer_nothing() {
    let expected = "impl siliconv::meta::Meta for Bare {
    fn fields<F: siliconv::float_text::FloatText>(&self) -> siliconv::meta::FieldMap<'_, F> {
        let mut map = siliconv::meta::FieldMap::new();
        map
    }

    fn from_fields<F: siliconv::float_text::FloatText>(fields: siliconv::meta::FieldMap<'_, F>) -> Self {
        Self {
        }
    }
}
";
    for data in [
        Data::Struct(DataStruct { fields: Fields::Named(vec![]) }),
        Data::Struct(DataStruct { fields: Fields::Unnamed }),
        Data::Struct(DataStruct { fields: Fields::Unit }),
        Data::Enum,
        Data::Union,
    ] {
        let written = derive_meta(&DeriveInput { ident: "Bare".to_string(), data });
        assert_eq!(written, expected);
        assert!(syn::parse_file(&written).is_ok());
    }
}

#[test]
fn statements_name_the_field_and_its_default() {
    let plain = field("seed", None, None);
    assert_eq!(
        insert_statement(&plain),
        "        map.insert(\"seed\".to_string(), siliconv::meta::MetaField::new(&self.seed));\n"
    );
    assert_eq!(
        take_initializer(&plain),
        "            seed: fields.decode_or(\"seed\", Default::default()),\n"
    );
    let renamed = field("tps", Some("ticks per second"), Some("240 + 0"));
    assert_eq!(
        insert_statement(&renamed),
        "        map.insert(\"ticks per second\".to_string(), siliconv::meta::MetaField::new(&self.tps));\n"
    );
    assert_eq!(
        take_initializer(&renamed),
        "            tps: fields.decode_or(\"ticks per second\", 240 + 0),\n"
    );
}

#[test]
fn literals_read_back_as_the_text() {
    assert_eq!(literal("seed"), "\"seed\"");
    assert_eq!(literal(""), "\"\"");
    assert_eq!(literal("a\"b"), "\"a\\\"b\"");
    assert_eq!(literal("a\\b"), "\"a\\\\b\"");
    assert_eq!(literal("a\nb\rc\td\0e"), "\"a\\nb\\rc\\td\\0e\"");
    for text in ["seed", "", "\"", "\\", "\\\"", "a\nb", "\r", "\t\0", "ünï©ode ✓", "{}'", "\\n"] {
        let parsed: syn::LitStr = syn::parse_str(&literal(text)).unwrap();
        assert_eq!(parsed.value(), text, "{text:?}");
    }
}

#[test]
fn each_named_field_is_transformed_in_order() {
    let named = DataStruct {
        fields: Fields::Named(vec![field("a", None, None), field("b", Some("c"), None)]),
    };
    let made = from_each_named_field(|f: &Field| format!("<{}>", f.ident), &named);
    assert_eq!(made, vec!["<a>".to_string(), "<b>".to_string()]);
    assert_eq!(join(&made), "<a><b>");
    for fields in [Fields::Unnamed, Fields::Unit, Fields::Named(vec![])] {
        let made = from_each_named_field(|f: &Field| f.ident.clone(), &DataStruct { fields });
        assert!(made.is_empty());
        assert_eq!(join(&made), "");
    }
}

#[test]
fn written_implementation_transfers_by_name() {
    let original = Counters { seed: 1234, count: 5 };
    assert_eq!(Counters::from_fields(original.fields::<StdText>()), original);
    // `Named` shares the name `n` with `Counters` and nothing else.
    let named = Named::from_fields(original.fields::<StdText>());
    assert_eq!(named, Named { n: 5, label: "none".to_string() });
    let back = Counters::from_fields(named.fields::<StdText>());
    assert_eq!(back, Counters { seed: 0, count: 5 });
    // 300 is no `i8`: the default stays.
    let wide = Counters { seed: 1, count: 300 };
    assert_eq!(Named::from_fields(wide.fields::<StdText>()).n, -1);
    // Text that is no number: the default stays.
    let label = Named { n: 3, label: "seed".to_string() };
    let mut offered: FieldMap<'_, StdText> = label.fields();
    offered.insert("seed".to_string(), MetaField::new(&label.label));
    assert_eq!(Counters::from_fields(offered), Counters { seed: 0, count: 3 });
    assert_eq!(Counters::from_fields(FieldMap::<StdText>::new()), Counters { seed: 0, count: 7 });
}
