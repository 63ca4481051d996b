use siliconv::float::{Float32, Float64};
use siliconv::float_text::{self, FloatText};
use siliconv::meta::{FieldMap, Meta, MetaDecodable, MetaEncodable, MetaField, MetaValue};
use siliconv::single_text;

struct StdText;

impl FloatText for StdText {
    fn write(bits: u64) -> String {
        f64::from_bits(bits).to_string()
    }

    fn read(text: String) -> Option<u64> {
        text.parse::<f64>().ok().map(f64::to_bits)
    }

    fn write_single(bits: u32) -> String {
        f32::from_bits(bits).to_string()
    }

    fn read_single(text: String) -> Option<u32> {
        text.parse::<f32>().ok().map(f32::to_bits)
    }
}

// A way of writing numbers that must not be asked.
struct Unasked;

impl FloatText for Unasked {
    fn write(_bits: u64) -> String {
        panic!("a number was written before its text was asked for")
    }

    fn read(_text: String) -> Option<u64> {
        None
    }

    fn write_single(_bits: u32) -> String {
        panic!("a number was written before its text was asked for")
    }

    fn read_single(_text: String) -> Option<u32> {
        None
    }
}

type Field<'a> = MetaField<'a, StdText>;
type Fields<'a> = FieldMap<'a, StdText>;

fn double(value: f64) -> Float64 {
    Float64::from_bits(value.to_bits())
}

fn float_field<'a, F: FloatText>(value: &'a f64) -> MetaField<'a, F> {
    MetaField::of(MetaValue::Double(value.to_bits()))
}

fn take_float<F: FloatText>(fields: &FieldMap<'_, F>, name: &str, default: f64) -> f64 {
    f64::from_bits(float_text::take(fields, name, double(default)).to_bits())
}

struct TestMeta {
    pub tps: f64,
}

impl Meta for TestMeta {
    fn fields<F: FloatText>(&self) -> FieldMap<'_, F> {
        let mut map = FieldMap::new();
        let tps_field = float_field(&self.tps);
        map.insert("tps".to_string(), tps_field);
        map
    }

    fn from_fields<F: FloatText>(fields: FieldMap<'_, F>) -> Self {
        let tps = take_float(&fields, "tps", 240.0);
        TestMeta { tps }
    }
}

struct OtherTestMeta {
    pub tps: f32,
    pub seed: u64,
}

impl Meta for OtherTestMeta {
    fn fields<F: FloatText>(&self) -> FieldMap<'_, F> {
        let mut map = FieldMap::new();
        let tps_field = MetaField::of(MetaValue::Double(f64::from(self.tps).to_bits()));
        let seed_field = MetaField::new(&self.seed);
        map.insert("tps".to_string(), tps_field);
        map.insert("seed".to_string(), seed_field);
        map
    }

    fn from_fields<F: FloatText>(fields: FieldMap<'_, F>) -> Self {
        let tps = take_float(&fields, "tps", 240.0) as f32;
        let seed = fields.decode_or::<u64>("seed", 2137);
        OtherTestMeta { tps, seed }
    }
}

#[test]
fn test_meta_field_encode_decode() {
    let value: f64 = 60.0;
    let meta_field: Field = float_field(&value);

    let encoded = meta_field.encode();
    assert_eq!(encoded, "60");

    let decoded: f64 = f64::from_bits(StdText::read(encoded).unwrap());
    assert!(decoded.eq(&value));
}

#[test]
fn test_same_meta() {
    let original_meta = TestMeta { tps: 60.0 };
    let fields: Fields = original_meta.fields();
    let reconstructed_meta = TestMeta::from_fields(fields);

    assert!(original_meta.tps.eq(&reconstructed_meta.tps));
}

#[test]
fn test_different_meta() {
    let original_meta = TestMeta { tps: 60.0 };
    let other_meta = OtherTestMeta::from_fields(original_meta.fields::<StdText>());

    assert!(other_meta.tps.eq(&60.0));
    assert!(other_meta.seed.eq(&2137));
}

#[test]
fn test_different_meta_to_original() {
    let original_meta = OtherTestMeta {
        tps: 75.0,
        seed: 1234,
    };

    let reconstructed_meta = TestMeta::from_fields(original_meta.fields::<StdText>());
    assert!(reconstructed_meta.tps.eq(&75.0));
}

#[test]
fn seed_passes_between_shapes() {
    let original_meta = OtherTestMeta {
        tps: 75.0,
        seed: 1234,
    };
    let same_shape = OtherTestMeta::from_fields(original_meta.fields::<StdText>());
    assert_eq!(same_shape.seed, 1234);
    assert!(same_shape.tps.eq(&75.0));
}

#[test]
fn numbers_encode_as_decimal_text() {
    assert_eq!(0u8.encode(), "0");
    assert_eq!(255u8.encode(), "255");
    assert_eq!(65535u16.encode(), "65535");
    assert_eq!(4294967295u32.encode(), "4294967295");
    assert_eq!(u64::MAX.encode(), "18446744073709551615");
    assert_eq!(2137u64.encode(), "2137");
    assert_eq!((-128i8).encode(), "-128");
    assert_eq!(127i8.encode(), "127");
    assert_eq!((-32768i16).encode(), "-32768");
    assert_eq!(i32::MIN.encode(), "-2147483648");
    assert_eq!(i64::MIN.encode(), "-9223372036854775808");
    assert_eq!(i64::MAX.encode(), "9223372036854775807");
    assert_eq!(0i64.encode(), "0");
    assert_eq!((-1i64).encode(), "-1");
}

#[test]
fn numbers_encode_as_the_standard_library_writes_them() {
    for n in [0u64, 1, 9, 10, 11, 99, 100, 101, 1234567890, u64::MAX - 1, u64::MAX] {
        assert_eq!(n.encode(), n.to_string());
    }
    for n in [i64::MIN, i64::MIN + 1, -100, -10, -9, -1, 0, 1, 9, 10, i64::MAX] {
        assert_eq!(n.encode(), n.to_string());
    }
}

#[test]
fn numbers_decode_as_the_standard_library_reads_them() {
    let texts = [
        "", "+", "-", "0", "-0", "+0", "007", "+7", "-7", "255", "256", "-128", "-129", "127",
        "128", " 1", "1 ", "1_0", "0x10", "1.0", "--1", "+-1", "-+1", "++1", "18446744073709551615",
        "18446744073709551616", "99999999999999999999999999", "-9223372036854775808",
        "-9223372036854775809", "9223372036854775807", "9223372036854775808", "١٢٣", "12a",
        "a12", "65535", "65536", "4294967295", "4294967296", "-32768", "-32769",
        "-2147483648", "-2147483649", "000000000000000000000000000000255",
    ];
    for text in texts {
        assert_eq!(u8::decode(text.to_string()), text.parse::<u8>().ok(), "u8 {text:?}");
        assert_eq!(u16::decode(text.to_string()), text.parse::<u16>().ok(), "u16 {text:?}");
        assert_eq!(u32::decode(text.to_string()), text.parse::<u32>().ok(), "u32 {text:?}");
        assert_eq!(u64::decode(text.to_string()), text.parse::<u64>().ok(), "u64 {text:?}");
        assert_eq!(i8::decode(text.to_string()), text.parse::<i8>().ok(), "i8 {text:?}");
        assert_eq!(i16::decode(text.to_string()), text.parse::<i16>().ok(), "i16 {text:?}");
        assert_eq!(i32::decode(text.to_string()), text.parse::<i32>().ok(), "i32 {text:?}");
        assert_eq!(i64::decode(text.to_string()), text.parse::<i64>().ok(), "i64 {text:?}");
    }
}

#[test]
fn numbers_round_trip() {
    for n in [0u8, 1, 9, 10, 99, 100, 255] {
        assert_eq!(u8::decode(n.encode()), Some(n));
    }
    for n in [i8::MIN, -100, -1, 0, 1, 100, i8::MAX] {
        assert_eq!(i8::decode(n.encode()), Some(n));
    }
    for n in [0u16, 65535] {
        assert_eq!(u16::decode(n.encode()), Some(n));
    }
    for n in [i16::MIN, i16::MAX] {
        assert_eq!(i16::decode(n.encode()), Some(n));
    }
    for n in [0u32, u32::MAX] {
        assert_eq!(u32::decode(n.encode()), Some(n));
    }
    for n in [i32::MIN, i32::MAX] {
        assert_eq!(i32::decode(n.encode()), Some(n));
    }
    for n in [0u64, 2137, u64::MAX] {
        assert_eq!(u64::decode(n.encode()), Some(n));
    }
    for n in [i64::MIN, -2137, 0, i64::MAX] {
        assert_eq!(i64::decode(n.encode()), Some(n));
    }
}

#[test]
fn text_and_unit_round_trip() {
    let text = "sixty ticks".to_string();
    assert_eq!(text.encode(), "sixty ticks");
    assert_eq!(String::decode(text.encode()), Some(text));
    assert_eq!(String::decode(String::new()), Some(String::new()));
    assert_eq!(().encode(), "");
    assert_eq!(<()>::decode(().encode()), Some(()));
    assert_eq!(<()>::decode("anything".to_string()), Some(()));
}

#[test]
fn field_writes_its_value_when_asked() {
    let seed: u64 = 1234;
    let name = "level".to_string();
    let offset: i32 = -5;
    let nothing = ();
    assert_eq!(Field::new(&seed).encode(), "1234");
    assert_eq!(Field::new(&name).encode(), "level");
    assert_eq!(Field::new(&offset).encode(), "-5");
    assert_eq!(Field::new(&nothing).encode(), "");
    assert_eq!(Field::owned("59.94".to_string()).encode(), "59.94");
    assert_eq!(Field::of(seed.capture()).encode(), "1234");
    let field = Field::new(&seed);
    assert_eq!(field.encode(), field.encode());
    assert_eq!(field.decode::<u64>(field.encode()), Some(1234));
    assert_eq!(field.decode::<u8>(field.encode()), None);
    assert_eq!(field.decode::<String>(field.encode()), Some("1234".to_string()));
}

#[test]
fn transfer_falls_back_to_the_default() {
    let seed: u64 = 70000;
    let name = "level".to_string();
    let mut map = Fields::new();
    assert!(!map.contains_key("seed"));
    map.insert("seed".to_string(), MetaField::new(&seed));
    map.insert("name".to_string(), MetaField::new(&name));
    assert!(map.contains_key("seed"));
    assert!(map.get("seed").is_some());
    assert!(map.get("tps").is_none());
    // Offered and readable: the offer is taken.
    assert_eq!(map.decode_or::<u64>("seed", 2137), 70000);
    assert_eq!(map.decode_or::<u32>("seed", 2137), 70000);
    assert_eq!(map.decode_or::<String>("name", String::new()), "level");
    assert_eq!(map.decode_or::<String>("seed", String::new()), "70000");
    // Offered and not readable as the type: the default stays.
    assert_eq!(map.decode_or::<u16>("seed", 2137), 2137);
    assert_eq!(map.decode_or::<u64>("name", 2137), 2137);
    // Not offered: the default stays.
    assert_eq!(map.decode_or::<u64>("tps", 240), 240);
    assert_eq!(map.decode_or::<String>("tps", "none".to_string()), "none");
    assert_eq!(map.decode_or::<()>("tps", ()), ());
}

#[test]
fn later_field_replaces_earlier_one() {
    let first: u64 = 1;
    let second: u64 = 2;
    let mut map = Fields::new();
    map.insert("seed".to_string(), MetaField::new(&first));
    map.insert("seed".to_string(), MetaField::new(&second));
    assert_eq!(map.decode_or::<u64>("seed", 0), 2);
}

#[test]
fn number_is_written_at_transfer_and_not_before() {
    let tps = double(59.94);
    let x = Float32::from_bits(1.5f32.to_bits());
    let mut map: FieldMap<'_, Unasked> = FieldMap::new();
    map.insert("tps".to_string(), float_text::offer(&tps));
    map.insert("x".to_string(), single_text::offer(&x));
    assert!(map.contains_key("tps"));
    assert!(map.get("tps").is_some());
    assert!(map.get("x").is_some());
    assert_eq!(map.decode_or::<u64>("seed", 1), 1);
    assert_eq!(take_float(&map, "seed", 240.0), 240.0);
}

#[test]
fn number_is_written_by_the_way_that_the_fields_go_by() {
    let tps = 59.94;
    let x = Float32::from_bits(60.1f32.to_bits());
    let mut map = Fields::new();
    map.insert("tps".to_string(), float_field(&tps));
    map.insert("x".to_string(), single_text::offer(&x));
    assert_eq!(map.get("tps").unwrap().encode(), "59.94");
    assert_eq!(map.get("x").unwrap().encode(), "60.1");
    assert_eq!(take_float(&map, "tps", 240.0), 59.94);
    assert_eq!(take_float(&map, "x", 240.0), 60.1);
    let single = single_text::take(&map, "x", Float32::from_bits(0));
    assert_eq!(f32::from_bits(single.to_bits()), 60.1);
    let widened = single_text::take(&map, "tps", Float32::from_bits(0));
    assert_eq!(f32::from_bits(widened.to_bits()), 59.94);
    let kept = single_text::take(&map, "y", Float32::from_bits(7));
    assert_eq!(kept, Float32::from_bits(7));
    assert_eq!(single_text::resolve(Some(3), Float32::from_bits(7)), Float32::from_bits(3));
    assert_eq!(single_text::resolve(None, Float32::from_bits(7)), Float32::from_bits(7));
    // Text that is no whole number leaves the default; text is text.
    assert_eq!(map.decode_or::<u64>("tps", 240), 240);
    assert_eq!(map.decode_or::<String>("tps", String::new()), "59.94");
    assert_eq!(siliconv::meta::read_or::<u8>("255".to_string(), 3), 255);
    assert_eq!(siliconv::meta::read_or::<u8>("256".to_string(), 3), 3);
    assert_eq!(siliconv::meta::read_or::<i8>("".to_string(), -3), -3);
}

#[test]
fn text_that_is_no_literal_of_the_type_reads_as_nothing() {
    assert_eq!(u8::decode("".to_string()), None);
    assert_eq!(u8::decode("abc".to_string()), None);
    assert_eq!(u8::decode("256".to_string()), None);
    assert_eq!(u64::decode("-1".to_string()), None);
    assert_eq!(i8::decode("128".to_string()), None);
    assert_eq!(StdText::read("".to_string()), None);
    assert_eq!(StdText::read("abc".to_string()), None);
    assert_eq!(StdText::read_single("abc".to_string()), None);
    for value in [0.0f64, -0.0, 60.0, 59.94, 1e300, f64::MIN_POSITIVE, f64::MAX, -240.5] {
        assert_eq!(StdText::read(StdText::write(value.to_bits())), Some(value.to_bits()));
    }
    for value in [0.0f32, 60.1, -1.5, f32::MAX, f32::MIN_POSITIVE] {
        assert_eq!(
            StdText::read_single(StdText::write_single(value.to_bits())),
            Some(value.to_bits())
        );
    }
}
