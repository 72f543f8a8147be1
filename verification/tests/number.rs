use valu3::prelude::{Error, Float32, Float64, Number, NumberBehavior, NumberType, Rendering};

fn f32v(x: f32) -> Float32 {
    Float32::from_bits(x.to_bits())
}

fn f64v(x: f64) -> Float64 {
    Float64::from_bits(x.to_bits())
}

fn back32(x: Option<Float32>) -> Option<f32> {
    x.map(|f| f32::from_bits(f.to_bits()))
}

fn back64(x: Option<Float64>) -> Option<f64> {
    x.map(|f| f64::from_bits(f.to_bits()))
}

fn shown(number: &Number) -> String {
    match number.display() {
        Rendering::Text(text) => text,
        Rendering::Float32(f) => format!("{}", f32::from_bits(f.to_bits())),
        Rendering::Float64(f) => format!("{}", f64::from_bits(f.to_bits())),
        Rendering::Json(_) => unreachable!(),
    }
}

fn read(text: &str) -> Result<Number, Error> {
    let wide = text.parse::<f64>().ok().map(f64v);
    let narrow = text.parse::<f32>().ok().map(f32v);
    Number::try_from(text, wide, narrow)
}

#[test]
fn test_setters_and_getters() {
    let mut number = Number::default();

    number.clean().set_u8(42);
    assert_eq!(number.get_u8(), Some(42));

    number.clean().set_u16(12345);
    assert_eq!(number.get_u16(), Some(12345));

    number.clean().set_u32(12345678);
    assert_eq!(number.get_u32(), Some(12345678));

    number.clean().set_u64(12345678901234);
    assert_eq!(number.get_u64(), Some(12345678901234));

    number.clean().set_u128(123456789012345678901234567890);
    assert_eq!(number.get_u128(), Some(123456789012345678901234567890));

    number.clean().set_i8(-42);
    assert_eq!(number.get_i8(), Some(-42));

    number.clean().set_i16(-12345);
    assert_eq!(number.get_i16(), Some(-12345));

    number.clean().set_i32(-12345678);
    assert_eq!(number.get_i32(), Some(-12345678));

    number.clean().set_i64(-12345678901234);
    assert_eq!(number.get_i64(), Some(-12345678901234));

    number.clean().set_i128(-123456789012345678901234567890);
    assert_eq!(number.get_i128(), Some(-123456789012345678901234567890));

    number.clean().set_f32(f32v(3.14));
    assert_eq!(back32(number.get_f32()), Some(3.14));

    number.clean().set_f64(f64v(6.283185307179586));
    assert_eq!(back64(number.get_f64()), Some(6.283185307179586));
}

#[test]
fn test_display() {
    let mut number = Number::default();

    number.clean().set_u8(42);
    assert_eq!(shown(&number), "42");

    number.clean().set_i32(-12345678);
    assert_eq!(shown(&number), "-12345678");

    number.clean().set_f32(f32v(3.14));
    assert_eq!(shown(&number), "3.14");

    number.clean().set_u128(123456789012345678901234567890);
    assert_eq!(shown(&number), "123456789012345678901234567890");
}

#[test]
fn test_type_checkers() {
    let mut number = Number::default();

    number.clean().set_u8(42);
    assert!(number.is_u8());
    assert!(number.is_integer());
    assert!(!number.is_float());
    assert!(!number.is_signed());
    assert!(number.is_unsigned());
    assert!(!number.is_zero());
    assert!(number.is_positive());
    assert!(!number.is_negative());

    number.clean().set_i32(-12345678);
    assert!(number.is_i32());
    assert!(number.is_integer());
    assert!(!number.is_float());
    assert!(number.is_signed());
    assert!(!number.is_unsigned());
    assert!(!number.is_zero());
    assert!(!number.is_positive());
    assert!(number.is_negative());

    number.clean().set_f32(f32v(0.0));
    assert!(number.is_f32());
    assert!(!number.is_integer());
    assert!(number.is_float());
    assert!(!number.is_signed());
    assert!(!number.is_unsigned());
    assert!(number.is_zero());
}

#[test]
fn test_set_and_get() {
    let mut number = Number::default();

    number.clean().set_u8(42);
    assert_eq!(number.get_u8(), Some(42));

    number.clean().set_u16(42);
    assert_eq!(number.get_u16(), Some(42));

    number.clean().set_u32(42);
    assert_eq!(number.get_u32(), Some(42));

    number.clean().set_u64(42);
    assert_eq!(number.get_u64(), Some(42));

    number.clean().set_u128(42);
    assert_eq!(number.get_u128(), Some(42));

    number.clean().set_i8(-42);
    assert_eq!(number.get_i8(), Some(-42));

    number.clean().set_i16(-42);
    assert_eq!(number.get_i16(), Some(-42));

    number.clean().set_i32(-42);
    assert_eq!(number.get_i32(), Some(-42));

    number.clean().set_i64(-42);
    assert_eq!(number.get_i64(), Some(-42));

    number.clean().set_i128(-42);
    assert_eq!(number.get_i128(), Some(-42));

    number.clean().set_f32(f32v(-42.0));
    assert_eq!(back32(number.get_f32()), Some(-42.0));

    number.clean().set_f64(f64v(-42.0));
    assert_eq!(back64(number.get_f64()), Some(-42.0));
}

#[test]
fn test_is_methods() {
    let mut number = Number::default();

    number.clean().set_u8(42);
    assert!(number.is_u8());

    number.clean().set_u16(42);
    assert!(number.is_u16());

    number.clean().set_u32(42);
    assert!(number.is_u32());

    number.clean().set_u64(42);
    assert!(number.is_u64());

    number.clean().set_u128(42);
    assert!(number.is_u128());

    number.clean().set_i8(-42);
    assert!(number.is_i8());

    number.clean().set_i16(-42);
    assert!(number.is_i16());

    number.clean().set_i32(-42);
    assert!(number.is_i32());

    number.clean().set_i64(-42);
    assert!(number.is_i64());

    number.clean().set_i128(-42);
    assert!(number.is_i128());

    number.clean().set_f32(f32v(-42.0));
    assert!(number.is_f32());

    number.clean().set_f64(f64v(-42.0));
    assert!(number.is_f64());
}

#[test]
fn test_number_type() {
    let mut number = Number::default();

    number.clean().set_u8(10);
    assert_eq!(number.number_type(), NumberType::U8);

    number.clean().set_u16(10_000);
    assert_eq!(number.number_type(), NumberType::U16);

    number.clean().set_u32(1_000_000);
    assert_eq!(number.number_type(), NumberType::U32);

    number.clean().set_u64(10_000_000_000);
    assert_eq!(number.number_type(), NumberType::U64);

    number.clean().set_u128(100_000_000_000_000_000_000);
    assert_eq!(number.number_type(), NumberType::U128);

    number.clean().set_i8(-42);
    assert_eq!(number.number_type(), NumberType::I8);

    number.clean().set_i16(-12345);
    assert_eq!(number.number_type(), NumberType::I16);

    number.clean().set_i32(-1_000_000);
    assert_eq!(number.number_type(), NumberType::I32);

    number.clean().set_i64(-10_000_000_000);
    assert_eq!(number.number_type(), NumberType::I64);

    number.clean().set_i128(-100_000_000_000_000_000_000);
    assert_eq!(number.number_type(), NumberType::I128);

    number.clean().set_f32(f32v(-1_000_000.0));
    assert_eq!(number.number_type(), NumberType::F32);

    number.clean().set_f64(f64v(-10_000_000_000.0));
    assert_eq!(number.number_type(), NumberType::F64);
}

#[test]
fn test_from_usize() {
    let number = Number::from(42usize);
    assert_eq!(number.get_u8(), Some(42));
}

#[test]
fn test_from_isize() {
    let number = Number::from(-42isize);
    assert_eq!(number.get_i8(), Some(-42));
}

#[test]
fn test_convert_number_to_f64() {
    let mut number = Number::default();

    number.clean().set_u8(42);
    assert_eq!(back64(number.to_f64()), Some(42.0f64));

    number.clean().set_i32(-42);
    assert_eq!(back64(number.to_f64()), Some(-42.0f64));

    number.clean().set_f32(f32v(3.14));
    assert_eq!(back64(number.to_f64()), Some(3.140000104904175f64)); // the nearest binary32 to 3.14

    number.clean().set_u128(123456789012345678901234567890);
    assert_eq!(back64(number.to_f64()), Some(123456789012345678901234567890.0));
}

#[test]
fn test_convert_number_to_i64() {
    let mut number = Number::default();

    number.clean().set_i32(-42);
    assert_eq!(number.to_i64(), Some(-42));

    number.clean().set_i128(-42);
    assert_eq!(number.to_i64(), Some(-42));

    number.clean().set_f32(f32v(3.14));
    assert_eq!(number.to_i64(), None);

    number.clean().set_u128(123456789012345678901234567890);
    assert_eq!(number.to_i64(), None);

    number.clean().set_i128(i128::MAX);
    assert_eq!(number.to_i64(), None);
}

#[test]
fn test_convert_number_to_u64() {
    let mut number = Number::default();

    number.clean().set_u32(42);
    assert_eq!(number.to_u64(), Some(42));

    number.clean().set_u128(42);
    assert_eq!(number.to_u64(), Some(42));

    number.clean().set_f32(f32v(3.14));
    assert_eq!(number.to_u64(), None);

    number.clean().set_i128(-42);
    assert_eq!(number.to_u64(), None);

    number.clean().set_u128(u128::MAX);
    assert_eq!(number.to_u64(), None);
}

#[test]
fn canonical_forms_at_the_bounds() {
    assert_eq!(Number::from(i128::MAX).to_i64(), None);
    assert_eq!(Number::from(i128::MIN).to_i64(), None);
    assert_eq!(Number::from(u64::MAX).to_i64(), None);
    assert_eq!(Number::from(-1i8).to_u64(), None);
    assert_eq!(Number::from(42u8).to_i64(), Some(42));
    assert_eq!(Number::from(i64::MAX as u64).to_i64(), Some(i64::MAX));
    assert_eq!(Number::from(i64::MAX as u64 + 1).to_i64(), None);
    assert_eq!(Number::from(i64::MIN as i128).to_i64(), Some(i64::MIN));
    assert_eq!(Number::from(i64::MIN as i128 - 1).to_i64(), None);
    assert_eq!(Number::from(u64::MAX as u128).to_u64(), Some(u64::MAX));
    assert_eq!(Number::from(u64::MAX as u128 + 1).to_u64(), None);
    assert_eq!(Number::from(u64::MAX as i128).to_u64(), Some(u64::MAX));
    assert_eq!(Number::from(0i64).to_u64(), Some(0));
    assert_eq!(Number::from(-1i64).to_u64(), None);
    assert_eq!(Number::from(f64v(1.0)).to_u64(), None);
    assert_eq!(Number::from(f64v(1.0)).to_i64(), None);
    assert_eq!(Number::default().to_i64(), None);
    assert_eq!(Number::default().to_u64(), None);
    assert_eq!(Number::default().to_f64().map(|f| f.to_bits()), None);
}

#[test]
fn text_is_read_in_a_fixed_order() {
    let number = read("200").unwrap();
    assert_eq!(number.number_type(), NumberType::I32);
    assert_eq!(number.get_i32(), Some(200));
    assert_eq!(number.get_u8(), None);

    let number = read("3.14").unwrap();
    assert_eq!(number.number_type(), NumberType::F64);
    assert_eq!(back64(number.get_f64()), Some(3.14));

    assert_eq!(read("abc"), Err(Error::NotNumber));
    assert_eq!(read(""), Err(Error::NotNumber));
    assert_eq!(read("-"), Err(Error::NotNumber));
    assert_eq!(read(" 1"), Err(Error::NotNumber));

    let number = read("42").unwrap();
    assert_eq!(number.get_i32(), Some(42));
    let number = read("42.0").unwrap();
    assert_eq!(back64(number.get_f64()), Some(42.0));
    let number = read("-2147483648").unwrap();
    assert_eq!(number.get_i32(), Some(i32::MIN));
    let number = read("+7").unwrap();
    assert_eq!(number.get_i32(), Some(7));

    // Too wide for an `i32`: the float reader takes it before the wider integers.
    let number = read("2147483648").unwrap();
    assert_eq!(number.number_type(), NumberType::F64);
    assert_eq!(back64(number.get_f64()), Some(2147483648.0));
}

#[test]
fn text_without_a_float_reader_goes_on_to_the_wider_integers() {
    let number = Number::try_from("2147483648", None, None).unwrap();
    assert_eq!(number.get_i64(), Some(2147483648));
    let number = Number::try_from("-9223372036854775809", None, None).unwrap();
    assert_eq!(number.get_i128(), Some(-9223372036854775809));
    let number = Number::try_from("170141183460469231731687303715884105728", None, None).unwrap();
    assert_eq!(number.get_u128(), Some(170141183460469231731687303715884105728));
    let number = Number::try_from("340282366920938463463374607431768211455", None, None).unwrap();
    assert_eq!(number.get_u128(), Some(u128::MAX));
    assert_eq!(
        Number::try_from("340282366920938463463374607431768211456", None, None),
        Err(Error::NotNumber)
    );
    let number = Number::try_from("x", None, Some(f32v(1.5))).unwrap();
    assert_eq!(number.number_type(), NumberType::F32);
    let number = Number::try_from_string("17".to_string(), None, None).unwrap();
    assert_eq!(number.get_i32(), Some(17));
}

#[test]
fn cleared_then_set_holds_one_slot() {
    let mut number = Number::default();
    number.set_u8(1);
    number.clean().set_i64(-5);
    let tests = [
        number.is_u8(),
        number.is_u16(),
        number.is_u32(),
        number.is_u64(),
        number.is_u128(),
        number.is_i8(),
        number.is_i16(),
        number.is_i32(),
        number.is_i64(),
        number.is_i128(),
        number.is_f32(),
        number.is_f64(),
    ];
    assert_eq!(tests.iter().filter(|t| **t).count(), 1);
    assert!(number.is_i64());
    assert_eq!(number.number_type(), NumberType::I64);
    number.clean();
    assert!(!number.is_number());
    assert_eq!(number.number_type(), NumberType::Unknown);
    assert_eq!(shown(&number), "0");
}

#[test]
fn a_slot_that_is_set_leaves_the_others() {
    let mut number = Number::default();
    number.set_u8(1);
    number.set_i16(-2);
    assert_eq!(number.get_u8(), Some(1));
    assert_eq!(number.get_i16(), Some(-2));
    assert_eq!(number.number_type(), NumberType::I16);
    assert_eq!(number.to_i64(), Some(-2));
    assert_eq!(shown(&number), "-2");
}

#[test]
fn signs_go_by_the_value() {
    let number = Number::from(5i32);
    assert!(!number.is_signed());
    assert!(number.is_positive());
    let number = Number::from(0i32);
    assert!(number.is_zero());
    assert!(!number.is_positive());
    assert!(!number.is_negative());
    let number = Number::from(f64v(-0.0));
    assert!(number.is_zero());
    assert!(!number.is_signed());
    let number = Number::from(f64v(-1.5));
    assert!(number.is_signed());
    assert!(number.is_negative());
    let number = Number::from(f64v(f64::NAN));
    assert!(!number.is_signed());
    assert!(!number.is_zero());
    let number = Number::from(f32v(-f32::MIN_POSITIVE));
    assert!(number.is_negative());
    let number = Number::default();
    assert!(number.is_positive());
    assert!(!number.is_negative());
}

#[test]
fn unchecked_getters_read_a_filled_slot() {
    assert_eq!(Number::from(7u8).get_u8_unsafe(), 7);
    assert_eq!(Number::from(7u16).get_u16_unsafe(), 7);
    assert_eq!(Number::from(7u32).get_u32_unsafe(), 7);
    assert_eq!(Number::from(7u64).get_u64_unsafe(), 7);
    assert_eq!(Number::from(7u128).get_u128_unsafe(), 7);
    assert_eq!(Number::from(-7i8).get_i8_unsafe(), -7);
    assert_eq!(Number::from(-7i16).get_i16_unsafe(), -7);
    assert_eq!(Number::from(-7i32).get_i32_unsafe(), -7);
    assert_eq!(Number::from(-7i64).get_i64_unsafe(), -7);
    assert_eq!(Number::from(-7i128).get_i128_unsafe(), -7);
    assert_eq!(Number::from(f32v(0.5)).get_f32_unsafe().to_bits(), 0.5f32.to_bits());
    assert_eq!(Number::from(f64v(0.5)).get_f64_unsafe().to_bits(), 0.5f64.to_bits());
}

#[test]
fn sizes_go_to_the_slot_that_the_bound_picks() {
    assert_eq!(Number::from(255usize).get_u8(), Some(255));
    assert_eq!(Number::from(256usize).get_u16(), Some(256));
    assert_eq!(Number::from(65536usize).get_u32(), Some(65536));
    assert_eq!(Number::from(4294967296usize).get_u64(), Some(4294967296));
    assert_eq!(Number::from(127isize).get_i8(), Some(127));
    assert_eq!(Number::from(128isize).get_i16(), Some(128));
    assert_eq!(Number::from(32768isize).get_i32(), Some(32768));
    assert_eq!(Number::from(2147483648isize).get_i64(), Some(2147483648));
    assert_eq!(Number::from(-128isize).get_i8(), Some(-128));
    assert_eq!(Number::from(-129isize).get_i16(), Some(-129));
    assert_eq!(Number::from(-200isize).get_i16(), Some(-200));
    assert_eq!(Number::from(-200isize).get_i8(), None);
    assert_eq!(Number::from(-1000isize).get_i16(), Some(-1000));
    assert_eq!(Number::from(-32768isize).get_i16(), Some(-32768));
    assert_eq!(Number::from(-32769isize).get_i32(), Some(-32769));
    assert_eq!(Number::from(-2147483648isize).get_i32(), Some(-2147483648));
    assert_eq!(Number::from(-2147483649isize).get_i64(), Some(-2147483649));
    assert_eq!(Number::from(isize::MIN).get_i64(), Some(isize::MIN as i64));
    assert_eq!(Number::from(isize::MAX).get_i64(), Some(isize::MAX as i64));
}

#[test]
fn a_size_comes_back_as_it_went_in() {
    let signed = [
        isize::MIN, -2147483649, -2147483648, -32769, -32768, -1000, -200, -129, -128, -42, -1, 0,
        1, 127, 128, 32767, 32768, 2147483647, 2147483648, isize::MAX,
    ];
    for v in signed {
        let number = Number::from(v);
        assert_eq!(number.to_i64(), Some(v as i64), "{v}");
        assert_eq!(number.to_u64(), u64::try_from(v).ok(), "{v}");
        assert!(number.is_integer() && !number.is_unsigned());
        assert_eq!(number.is_negative(), v < 0);
    }
    let unsigned = [0usize, 1, 255, 256, 65535, 65536, 4294967295, 4294967296, usize::MAX];
    for v in unsigned {
        let number = Number::from(v);
        assert_eq!(number.to_u64(), Some(v as u64), "{v}");
        assert_eq!(number.to_i64(), i64::try_from(v).ok(), "{v}");
        assert!(number.is_unsigned());
    }
}

#[test]
fn numbers_are_ordered_slot_by_slot() {
    assert!(Number::from(f64v(3.14)) < Number::from(f64v(3.141)));
    assert!(Number::from(3i32) < Number::from(4i32));
    assert!(Number::from(-3i32) > Number::from(-4i32));
    assert!(Number::from(3u8) == Number::from(3u8));
    assert!(Number::from(3u8) != Number::from(3u16));
    // An empty slot comes before a filled one, and the `u8` slot is looked at first.
    assert!(Number::from(200i32) < Number::from(1u8));
    assert!(Number::default() < Number::from(0i128));
    let nan = Number::from(f64v(f64::NAN));
    assert!(nan != nan);
    assert_eq!(nan.partial_cmp(&nan), None);
    assert!(Number::from(f64v(0.0)) == Number::from(f64v(-0.0)));
    assert!(Number::from(f32v(-1.0)) < Number::from(f32v(1.0e-40)));
}
