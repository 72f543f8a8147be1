use valu3::prelude::{
    Array, DateTime, DateTimeBehavior, Float32, Float64, FromValueBehavior, Number, NumberBehavior,
    NumberType, Object, SortedTextMap, StringB, TextMap, ToValueBehavior, Value,
};
use valu3::traits::try_from_value;

fn f32v(x: f32) -> Float32 {
    Float32::from_bits(x.to_bits())
}

fn f64v(x: f64) -> Float64 {
    Float64::from_bits(x.to_bits())
}

fn text(s: &str) -> Value {
    Value::String(StringB::from_str(s))
}

fn slot_of(value: Value) -> NumberType {
    match value {
        Value::Number(number) => number.number_type(),
        _ => NumberType::Unknown,
    }
}

#[test]
fn null_gives_no_optional_at_all() {
    assert_eq!(Option::<i32>::from_value(Value::Null), None);
    assert_eq!(
        Option::<i32>::from_value(Value::Number(Number::from(42))),
        Some(Some(42))
    );
    // A value of another kind is there, but converts to nothing.
    assert_eq!(Option::<i32>::from_value(text("42")), Some(None));
    assert_eq!(Option::<i32>::from_value(Value::Undefined), Some(None));
    assert_eq!(Option::<i32>::from_value(Value::Number(Number::from(42u8))), Some(None));
    assert_eq!(Option::<Value>::from_value(Value::Null), None);
    assert_eq!(Option::<Value>::from_value(Value::Undefined), Some(Some(Value::Undefined)));
    assert_eq!(Option::<Option<bool>>::from_value(Value::Boolean(true)), Some(Some(Some(true))));
}

#[test]
fn an_absent_native_value_is_written_as_null() {
    assert_eq!(None::<i32>.to_value(), Value::Null);
    assert_eq!(Some(7i32).to_value(), Value::Number(Number::from(7i32)));
    assert_eq!(Some(Some(true)).to_value(), Value::Boolean(true));
}

#[test]
fn a_number_converts_only_to_the_type_of_its_slot() {
    let value = Value::Number(Number::from(200u8));
    assert_eq!(u8::from_value(value.clone()), Some(200));
    assert_eq!(i32::from_value(value.clone()), None);
    assert_eq!(u16::from_value(value.clone()), None);
    assert_eq!(i8::from_value(value.clone()), None);
    assert_eq!(Float64::from_value(value.clone()).map(|f| f.to_bits()), None);
    assert_eq!(bool::from_value(value.clone()), None);
    assert_eq!(String::from_value(value), None);

    assert_eq!(i8::from_value(Value::Number(Number::from(-8i8))), Some(-8));
    assert_eq!(i16::from_value(Value::Number(Number::from(-16i16))), Some(-16));
    assert_eq!(i32::from_value(Value::Number(Number::from(-32i32))), Some(-32));
    assert_eq!(i64::from_value(Value::Number(Number::from(-64i64))), Some(-64));
    assert_eq!(i128::from_value(Value::Number(Number::from(-128i128))), Some(-128));
    assert_eq!(u16::from_value(Value::Number(Number::from(16u16))), Some(16));
    assert_eq!(u32::from_value(Value::Number(Number::from(32u32))), Some(32));
    assert_eq!(u64::from_value(Value::Number(Number::from(64u64))), Some(64));
    assert_eq!(u128::from_value(Value::Number(Number::from(128u128))), Some(128));
    assert_eq!(
        Float32::from_value(Value::Number(Number::from(f32v(1.5)))).map(|f| f.to_bits()),
        Some(1.5f32.to_bits())
    );
    assert_eq!(
        Float64::from_value(Value::Number(Number::from(f64v(1.5)))).map(|f| f.to_bits()),
        Some(1.5f64.to_bits())
    );
    assert_eq!(i32::from_value(Value::Null), None);
    assert_eq!(i32::from_value(Value::Number(Number::default())), None);
}

#[test]
fn texts_booleans_and_values_convert_by_kind() {
    assert_eq!(String::from_value(text("hello")), Some("hello".to_string()));
    assert_eq!(<&str>::from_value(text("hello")), Some("hello".to_string()));
    assert_eq!(str::from_value(text("hello")), Some("hello".to_string()));
    assert_eq!(String::from_value(Value::Boolean(true)), None);
    assert_eq!(<&str>::from_value(Value::Null), None);
    assert_eq!(str::from_value(Value::Undefined), None);
    assert_eq!(bool::from_value(Value::Boolean(true)), Some(true));
    assert_eq!(bool::from_value(text("true")), None);
    assert_eq!(Value::from_value(Value::Undefined), Some(Value::Undefined));
    let date = Value::DateTime(DateTime::from_ymd_opt(2023, 4, 5));
    assert_eq!(Value::from_value(date.clone()), Some(date));
}

#[test]
fn native_values_are_written_in_their_own_slot() {
    assert_eq!(7u8.to_value(), Value::Number(Number::from(7u8)));
    assert_eq!(slot_of(7u8.to_value()), NumberType::U8);
    assert_eq!(slot_of(7u16.to_value()), NumberType::U16);
    assert_eq!(slot_of(7u32.to_value()), NumberType::U32);
    assert_eq!(slot_of(7u64.to_value()), NumberType::U64);
    assert_eq!(slot_of(7u128.to_value()), NumberType::U128);
    assert_eq!(slot_of((-7i8).to_value()), NumberType::I8);
    assert_eq!(slot_of((-7i16).to_value()), NumberType::I16);
    assert_eq!(slot_of((-7i32).to_value()), NumberType::I32);
    assert_eq!(slot_of((-7i64).to_value()), NumberType::I64);
    assert_eq!(slot_of((-7i128).to_value()), NumberType::I128);
    assert_eq!(slot_of(f32v(0.5).to_value()), NumberType::F32);
    assert_eq!(slot_of(f64v(0.5).to_value()), NumberType::F64);
    assert_eq!(true.to_value(), Value::Boolean(true));
    assert_eq!("hi".to_value(), text("hi"));
    assert_eq!("hi".to_string().to_value(), text("hi"));
    assert_eq!(Value::Undefined.to_value(), Value::Undefined);
}

#[test]
fn a_list_converts_value_by_value() {
    let mut array = Array::new();
    array.push(Value::Number(Number::from(1)));
    array.push(Value::Number(Number::from(2)));
    array.push(Value::Number(Number::from(3)));
    let value = Value::Array(array);
    assert_eq!(Vec::<i32>::from_value(value.clone()), Some(vec![1, 2, 3]));
    assert_eq!(Vec::<Value>::from_value(value.clone()).map(|v| v.len()), Some(3));
    assert_eq!(Vec::<i32>::from_value(Value::Null), None);
    assert_eq!(Vec::<i32>::from_value(Value::Object(Object::new())), None);
    assert_eq!(Vec::<i32>::from_value(Value::Array(Array::new())), Some(vec![]));
    assert_eq!(vec![1, 2, 3].to_value(), value);
    assert_eq!(Vec::<i32>::new().to_value(), Value::Array(Array::new()));

    let nested = vec![vec![true], vec![], vec![false, true]];
    assert_eq!(Vec::<Vec<bool>>::from_value(nested.to_value()), Some(nested));
}

#[test]
fn a_map_converts_entry_by_entry() {
    let mut object = Object::new();
    object.insert("one", Value::Number(Number::from(1)));
    object.insert("two", Value::Number(Number::from(2)));
    let value = Value::Object(object);
    let map = TextMap::<i32>::from_value(value.clone()).unwrap();
    assert_eq!(map.len(), 2);
    assert_eq!(map.key_at(0), "one");
    assert_eq!(map.value_at(0), &1);
    assert_eq!(map.key_at(1), "two");
    assert_eq!(map.get("two"), Some(&2));
    assert_eq!(map.get("three"), None);
    assert!(map.contains_key("one"));
    assert_eq!(map.to_value(), value);
    assert!(TextMap::<i32>::from_value(Value::Array(Array::new())).is_none());
    assert!(TextMap::<i32>::from_value(Value::Null).is_none());
    let empty = TextMap::<i32>::from_value(Value::Object(Object::new())).unwrap();
    assert!(empty.is_empty());
}

#[test]
fn two_keys_with_one_text_make_one_entry() {
    let mut object = Object::new();
    object.insert(1usize, Value::Boolean(false));
    object.insert("x", Value::Boolean(false));
    object.insert("1", Value::Boolean(true));
    let map = TextMap::<bool>::from_value(Value::Object(object)).unwrap();
    assert_eq!(map.len(), 2);
    assert_eq!(map.key_at(0), "1");
    assert_eq!(map.value_at(0), &true);
    assert_eq!(map.key_at(1), "x");
    let entries = map.into_entries();
    assert_eq!(entries, vec![("1".to_string(), true), ("x".to_string(), false)]);
}

#[test]
fn a_text_map_keeps_order_and_the_later_item() {
    let mut map = TextMap::new();
    assert_eq!(map.insert("b".to_string(), 1), None);
    assert_eq!(map.insert("a".to_string(), 2), None);
    assert_eq!(map.insert("b".to_string(), 3), Some(1));
    assert_eq!(map.len(), 2);
    assert_eq!(map.key_at(0), "b");
    assert_eq!(map.value_at(0), &3);
    assert_eq!(map.key_at(1), "a");
}

#[test]
fn there_and_back_gives_the_same_value() {
    let values = [
        Value::Number(Number::from(5i32)),
        Value::Number(Number::from(i32::MIN)),
    ];
    for value in values {
        assert_eq!(i32::from_value(value.clone()).map(|x| x.to_value()), Some(value));
    }
    let value = Value::Number(Number::from(u128::MAX));
    assert_eq!(u128::from_value(value.clone()).map(|x| x.to_value()), Some(value));
    let value = Value::Number(Number::from(f64v(-0.0)));
    let back = Float64::from_value(value.clone()).map(|x| x.to_value()).unwrap();
    assert_eq!(back, value);
    let value = text("hello");
    assert_eq!(String::from_value(value.clone()).map(|x| x.to_value()), Some(value));
    let value = Value::Boolean(false);
    assert_eq!(bool::from_value(value.clone()).map(|x| x.to_value()), Some(value));

    let mut inner = Object::new();
    inner.insert("k", text("v"));
    let mut array = Array::new();
    array.push(Value::Null);
    array.push(Value::Object(inner.clone()));
    let value = Value::Array(array);
    assert_eq!(Value::from_value(value.clone()).map(|x| x.to_value()), Some(value.clone()));
    assert_eq!(Vec::<Value>::from_value(value.clone()).map(|x| x.to_value()), Some(value.clone()));
    assert_eq!(Option::<Value>::from_value(value.clone()).map(|x| x.to_value()), Some(value));
    let value = Value::Object(inner);
    assert_eq!(TextMap::<String>::from_value(value.clone()).map(|x| x.to_value()), Some(value));
}

#[test]
fn a_list_with_a_value_that_does_not_convert_gives_nothing_as_a_whole() {
    let mut array = Array::new();
    array.push(Value::Number(Number::from(1)));
    array.push(text("two"));
    let value = Value::Array(array);
    assert!(!Vec::<i32>::is_defined_on(&value));
    assert!(Vec::<i32>::is_accepted(&value));
    assert_eq!(try_from_value::<Vec<i32>>(value.clone()), None);
    assert!(Vec::<Value>::is_defined_on(&value));
    assert_eq!(try_from_value::<Vec<Value>>(value.clone()).map(|v| v.len()), Some(2));
    assert!(Vec::<Option<i32>>::is_defined_on(&value));
    assert_eq!(try_from_value::<Vec<Option<i32>>>(value.clone()), Some(vec![Some(1), None]));
    assert!(Option::<Vec<i32>>::is_accepted(&value));
    assert!(!Option::<Vec<i32>>::is_defined_on(&value));
    assert_eq!(try_from_value::<Option<Vec<i32>>>(value), None);

    let mut with_null = Array::new();
    with_null.push(Value::Null);
    let value = Value::Array(with_null);
    assert!(!Vec::<Option<i32>>::is_defined_on(&value));
    assert_eq!(try_from_value::<Vec<Option<i32>>>(value), None);

    let mut object = Object::new();
    object.insert("a", Value::Boolean(true));
    object.insert("b", Value::Null);
    let value = Value::Object(object);
    assert!(!TextMap::<bool>::is_defined_on(&value));
    assert!(TextMap::<bool>::is_accepted(&value));
    assert!(try_from_value::<TextMap<bool>>(value.clone()).is_none());
    assert!(TextMap::<Value>::is_defined_on(&value));
    assert_eq!(try_from_value::<TextMap<Value>>(value).map(|m| m.len()), Some(2));

    assert!(i32::is_defined_on(&Value::Null));
    assert!(!i32::is_accepted(&Value::Null));
    assert!(i32::is_accepted(&Value::Number(Number::from(1))));
    assert!(!i32::is_accepted(&Value::Number(Number::from(1u8))));
    assert_eq!(try_from_value::<i32>(Value::Number(Number::from(1))), Some(1));
    assert_eq!(try_from_value::<String>(Value::Boolean(true)), None);
    assert!(bool::is_accepted(&Value::Boolean(false)));
    assert!(String::is_accepted(&text("s")));
    assert!(Value::is_accepted(&Value::Undefined));
    assert!(Vec::<i32>::is_defined_on(&Value::Null));
    assert!(!Vec::<i32>::is_accepted(&Value::Null));
    assert!(!Option::<i32>::is_accepted(&Value::Null));
    assert!(Option::<i32>::is_accepted(&Value::Undefined));
}

#[test]
fn a_sorted_map_keeps_its_texts_in_order() {
    let mut map = SortedTextMap::new();
    assert!(map.is_empty());
    assert_eq!(map.insert("m".to_string(), 1), None);
    assert_eq!(map.insert("z".to_string(), 2), None);
    assert_eq!(map.insert("a".to_string(), 3), None);
    assert_eq!(map.insert("mm".to_string(), 4), None);
    assert_eq!(map.insert("m".to_string(), 5), Some(1));
    assert_eq!(map.len(), 4);
    assert_eq!(map.key_at(0), "a");
    assert_eq!(map.key_at(1), "m");
    assert_eq!(map.value_at(1), &5);
    assert_eq!(map.key_at(2), "mm");
    assert_eq!(map.key_at(3), "z");
    assert_eq!(map.get("mm"), Some(&4));
    assert_eq!(map.get("b"), None);
    assert_eq!(map.get(""), None);
    assert_eq!(map.get("zz"), None);
    assert!(map.contains_key("z"));
    assert!(!map.contains_key("y"));
    let mut reference = std::collections::BTreeMap::new();
    for (k, v) in [("m", 1), ("z", 2), ("a", 3), ("mm", 4), ("m", 5)] {
        reference.insert(k.to_string(), v);
    }
    assert_eq!(map.into_entries(), reference.into_iter().collect::<Vec<_>>());
}

#[test]
fn a_map_converts_to_a_sorted_map() {
    let mut object = Object::new();
    object.insert("two", Value::Number(Number::from(2)));
    object.insert("one", Value::Number(Number::from(1)));
    object.insert(10usize, Value::Number(Number::from(10)));
    object.insert("10", Value::Number(Number::from(-10)));
    let value = Value::Object(object);
    let map = SortedTextMap::<i32>::from_value(value.clone()).unwrap();
    assert_eq!(
        map.into_entries(),
        vec![("10".to_string(), -10), ("one".to_string(), 1), ("two".to_string(), 2)]
    );
    assert!(SortedTextMap::<i32>::from_value(Value::Null).is_none());
    assert!(SortedTextMap::<i32>::is_defined_on(&value));
    assert!(!SortedTextMap::<bool>::is_defined_on(&value));
    assert!(SortedTextMap::<bool>::is_accepted(&value));
    assert!(try_from_value::<SortedTextMap<bool>>(value).is_none());

    let mut sorted = Object::new();
    sorted.insert("a", Value::Boolean(true));
    sorted.insert("b", Value::Boolean(false));
    let value = Value::Object(sorted);
    let map = SortedTextMap::<bool>::from_value(value.clone()).unwrap();
    assert_eq!(map.to_value(), value);
}

#[test]
fn what_a_value_is_made_of_converts_as_it_is() {
    let number = Number::from(7u16);
    assert_eq!(number.to_value(), Value::Number(number));
    assert_eq!(Number::from_value(Value::Number(number)), Some(number));
    assert_eq!(Number::from_value(Value::Null), None);
    assert!(Number::is_accepted(&Value::Number(number)));
    assert!(!Number::is_accepted(&text("7")));

    let date = DateTime::from_ymd_opt(2023, 4, 5);
    assert_eq!(date.to_value(), Value::DateTime(date));
    assert_eq!(DateTime::held_by(Value::DateTime(date)), date);
    assert_eq!(DateTime::from_value(Value::DateTime(date)), Some(date));
    assert_eq!(DateTime::from_value(Value::Null), None);

    let word = StringB::from_str("word");
    assert_eq!(word.to_value(), text("word"));
    assert_eq!(StringB::from_value(text("word")), Some(word));
    assert_eq!(StringB::from_value(Value::Boolean(true)), None);

    let mut array = Array::new();
    array.push(Value::Null);
    array.push(text("x"));
    assert_eq!(array.to_value(), Value::Array(array.clone()));
    assert_eq!(Array::from_value(Value::Array(array.clone())), Some(array.clone()));
    assert_eq!(Array::from_value(Value::Object(Object::new())), None);

    let mut object = Object::new();
    object.insert("list", Value::Array(array));
    object.insert(2usize, Value::Undefined);
    assert_eq!(object.to_value(), Value::Object(object.clone()));
    assert_eq!(Object::from_value(Value::Object(object.clone())), Some(object.clone()));
    assert_eq!(Object::from_value(Value::Array(Array::new())), None);
    assert!(Object::is_defined_on(&Value::Null) && !Object::is_accepted(&Value::Null));

    for value in [Value::Null, Value::Undefined, Value::Object(object), date.to_value()] {
        assert_eq!(Value::from_value(value.clone()).map(|x| x.to_value()), Some(value));
    }
}
