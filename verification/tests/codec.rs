use rabbit_rpc::util::{deserialize_vec_8, serialize_vec_8, DecodeError};
use std::collections::BTreeMap;

fn round_trip_u32(v: u32) -> u32 {
    deserialize_vec_8::<u32>(serialize_vec_8(v).unwrap()).unwrap()
}

#[test]
fn encodes_a_number_as_its_decimal_text() {
    assert_eq!(serialize_vec_8(5u32), Some(b"5".to_vec()));
    assert_eq!(serialize_vec_8(-17i64), Some(b"-17".to_vec()));
}

#[test]
fn encodes_a_string_in_quotes() {
    assert_eq!(serialize_vec_8("x"), Some(b"\"x\"".to_vec()));
    assert_eq!(serialize_vec_8(String::from("a\"b")), Some(b"\"a\\\"b\"".to_vec()));
}

#[test]
fn encodes_a_sequence_as_an_array() {
    assert_eq!(serialize_vec_8(vec![1u8, 2, 3]), Some(b"[1,2,3]".to_vec()));
    assert_eq!(serialize_vec_8(Vec::<u8>::new()), Some(b"[]".to_vec()));
}

#[test]
fn encodes_unit_and_options() {
    assert_eq!(serialize_vec_8(()), Some(b"null".to_vec()));
    assert_eq!(serialize_vec_8(None::<u8>), Some(b"null".to_vec()));
    assert_eq!(serialize_vec_8(Some(true)), Some(b"true".to_vec()));
}

#[test]
fn encodes_a_map_with_field_names() {
    let mut fields = BTreeMap::new();
    fields.insert("a".to_string(), 1u32);
    fields.insert("b".to_string(), 2u32);
    assert_eq!(serialize_vec_8(fields), Some(b"{\"a\":1,\"b\":2}".to_vec()));
}

#[test]
fn refuses_a_map_whose_keys_are_not_strings() {
    let mut table = BTreeMap::new();
    table.insert((1u32, 2u32), 3u32);
    assert_eq!(serialize_vec_8(table), None);
}

#[test]
fn encoded_bytes_are_text() {
    let encoded = serialize_vec_8("h\u{e9}llo \u{1f600}").unwrap();
    assert!(String::from_utf8(encoded).is_ok());
}

#[test]
fn decodes_a_number() {
    assert_eq!(deserialize_vec_8::<u32>(b"10".to_vec()), Ok(10));
    assert_eq!(deserialize_vec_8::<i64>(b" -3 ".to_vec()), Ok(-3));
}

#[test]
fn decodes_a_string_and_a_sequence() {
    assert_eq!(deserialize_vec_8::<String>(b"\"x\"".to_vec()), Ok("x".to_string()));
    assert_eq!(deserialize_vec_8::<Vec<u16>>(b"[1, 2]".to_vec()), Ok(vec![1, 2]));
}

#[test]
fn bytes_that_are_not_utf8_are_refused_as_such() {
    assert_eq!(deserialize_vec_8::<u32>(vec![0xff]), Err(DecodeError::InvalidUtf8));
    assert_eq!(deserialize_vec_8::<String>(vec![b'"', 0xc3, b'"']), Err(DecodeError::InvalidUtf8));
    assert_eq!(deserialize_vec_8::<u32>(vec![b'1', 0x80]), Err(DecodeError::InvalidUtf8));
}

#[test]
fn text_that_is_not_json_is_malformed() {
    assert_eq!(deserialize_vec_8::<u32>(b"{".to_vec()), Err(DecodeError::Malformed));
    assert_eq!(deserialize_vec_8::<u32>(Vec::new()), Err(DecodeError::Malformed));
    assert_eq!(deserialize_vec_8::<u32>(b"1 2".to_vec()), Err(DecodeError::Malformed));
}

#[test]
fn json_of_another_type_is_malformed() {
    assert_eq!(deserialize_vec_8::<u32>(b"\"x\"".to_vec()), Err(DecodeError::Malformed));
    assert_eq!(deserialize_vec_8::<u8>(b"256".to_vec()), Err(DecodeError::Malformed));
    assert_eq!(deserialize_vec_8::<String>(b"5".to_vec()), Err(DecodeError::Malformed));
}

#[test]
fn round_trip_of_numbers() {
    for v in [0u32, 1, 5, 10, 255, 65_536, u32::MAX] {
        assert_eq!(round_trip_u32(v), v);
    }
    for v in [i64::MIN, -1, 0, 1, i64::MAX] {
        assert_eq!(deserialize_vec_8::<i64>(serialize_vec_8(v).unwrap()), Ok(v));
    }
    assert_eq!(deserialize_vec_8::<u64>(serialize_vec_8(u64::MAX).unwrap()), Ok(u64::MAX));
}

#[test]
fn round_trip_of_text() {
    for v in ["", "x", "a\"b\\c", "line\nbreak\ttab", "h\u{e9}llo \u{1f600}", "\u{0}\u{1f}"] {
        let v = v.to_string();
        assert_eq!(deserialize_vec_8::<String>(serialize_vec_8(v.clone()).unwrap()), Ok(v));
    }
}

#[test]
fn round_trip_of_compound_values() {
    let v = (true, vec![Some(1u8), None, Some(3)], "x".to_string());
    assert_eq!(
        deserialize_vec_8::<(bool, Vec<Option<u8>>, String)>(serialize_vec_8(v.clone()).unwrap()),
        Ok(v)
    );
    let mut fields = BTreeMap::new();
    fields.insert("a".to_string(), vec![1u32]);
    fields.insert("b".to_string(), vec![]);
    assert_eq!(
        deserialize_vec_8::<BTreeMap<String, Vec<u32>>>(serialize_vec_8(fields.clone()).unwrap()),
        Ok(fields)
    );
}

#[test]
fn round_trip_of_a_structured_value() {
    let mut fields = serde_json::Map::new();
    fields.insert("a".to_string(), serde_json::Value::from(1u64));
    fields.insert("b".to_string(), serde_json::Value::from("x"));
    let v = serde_json::Value::Object(fields);
    let encoded = serialize_vec_8(v.clone()).unwrap();
    assert_eq!(encoded, b"{\"a\":1,\"b\":\"x\"}".to_vec());
    assert_eq!(deserialize_vec_8::<serde_json::Value>(encoded), Ok(v));
}
