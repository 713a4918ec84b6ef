use valkey_glide::decoder::decode;
use valkey_glide::error::{BridgeError, ErrorClass};
use valkey_glide::response::{CommandResponse, ResponseType};
use valkey_glide::value::Value;

fn text(s: &str) -> CommandResponse {
    CommandResponse::byte_string(s.as_bytes().to_vec())
}

#[test]
fn null_decodes_to_absent() {
    assert_eq!(decode(&CommandResponse::null()), Ok(Value::Absent));
}

#[test]
fn int_decodes_to_its_payload() {
    assert_eq!(decode(&CommandResponse::integer(-42)), Ok(Value::Int(-42)));
    assert_eq!(decode(&CommandResponse::integer(i64::MIN)), Ok(Value::Int(i64::MIN)));
    assert_eq!(decode(&CommandResponse::integer(i64::MAX)), Ok(Value::Int(i64::MAX)));
}

#[test]
fn float_decodes_to_its_payload() {
    let decoded = decode(&CommandResponse::floating(1.5f64.to_bits())).unwrap();
    assert_eq!(decoded, Value::Float(1.5f64.to_bits()));
    assert_eq!(f64::from_bits(decoded.as_float_bits().unwrap()), 1.5);
    let nan = decode(&CommandResponse::floating(f64::NAN.to_bits())).unwrap();
    assert!(f64::from_bits(nan.as_float_bits().unwrap()).is_nan());
}

#[test]
fn bool_decodes_to_its_payload() {
    assert_eq!(decode(&CommandResponse::boolean(true)), Ok(Value::Bool(true)));
    assert_eq!(decode(&CommandResponse::boolean(false)), Ok(Value::Bool(false)));
}

#[test]
fn string_decodes_to_its_bytes() {
    assert_eq!(decode(&text("hello")), Ok(Value::Bytes(b"hello".to_vec())));
    assert_eq!(decode(&text("")), Ok(Value::Bytes(Vec::new())));
}

#[test]
fn string_with_embedded_zero_byte_is_not_truncated() {
    let decoded = decode(&CommandResponse::byte_string(vec![b'a', 0, b'b'])).unwrap();
    assert_eq!(decoded.as_bytes().unwrap().len(), 3);
    assert_eq!(decoded, Value::Bytes(vec![b'a', 0, b'b']));
}

#[test]
fn string_that_is_not_utf8_is_kept_as_it_is() {
    let decoded = decode(&CommandResponse::byte_string(vec![0xff, 0xfe, 0x00, 0x80])).unwrap();
    assert_eq!(decoded, Value::Bytes(vec![0xff, 0xfe, 0x00, 0x80]));
}

#[test]
fn array_decodes_to_ordered_sequence() {
    let response =
        CommandResponse::array_of(vec![CommandResponse::null(), CommandResponse::integer(5), text("ab")]);
    assert_eq!(
        decode(&response),
        Ok(Value::Sequence(vec![Value::Absent, Value::Int(5), Value::Bytes(b"ab".to_vec())]))
    );
}

#[test]
fn map_skips_entry_with_null_key() {
    let response = CommandResponse::mapping_of(vec![
        CommandResponse::entry(Some(text("k1")), Some(CommandResponse::integer(1))),
        CommandResponse::entry(None, Some(CommandResponse::integer(7))),
        CommandResponse::entry(Some(text("k2")), Some(CommandResponse::integer(2))),
    ]);
    assert_eq!(
        decode(&response),
        Ok(Value::Pairs(vec![
            (Value::Bytes(b"k1".to_vec()), Value::Int(1)),
            (Value::Bytes(b"k2".to_vec()), Value::Int(2)),
        ]))
    );
}

#[test]
fn map_skips_entry_with_null_value() {
    let response = CommandResponse::mapping_of(vec![
        CommandResponse::entry(Some(text("k1")), None),
        CommandResponse::entry(None, None),
        CommandResponse::entry(Some(text("k2")), Some(CommandResponse::boolean(true))),
    ]);
    assert_eq!(
        decode(&response),
        Ok(Value::Pairs(vec![(Value::Bytes(b"k2".to_vec()), Value::Bool(true))]))
    );
}

#[test]
fn map_passes_duplicate_keys_through_in_order() {
    let response = CommandResponse::mapping_of(vec![
        CommandResponse::entry(Some(text("k")), Some(CommandResponse::integer(1))),
        CommandResponse::entry(Some(text("k")), Some(CommandResponse::integer(2))),
    ]);
    let decoded = decode(&response).unwrap();
    let pairs = decoded.as_pairs().unwrap();
    assert_eq!(pairs.len(), 2);
    assert_eq!(pairs[0], (Value::Bytes(b"k".to_vec()), Value::Int(1)));
    assert_eq!(pairs[1], (Value::Bytes(b"k".to_vec()), Value::Int(2)));
}

#[test]
fn set_keeps_arrival_order_and_duplicates() {
    let response = CommandResponse::set_of(vec![
        text("b"),
        text("a"),
        text("b"),
    ]);
    assert_eq!(
        decode(&response),
        Ok(Value::Sequence(vec![
            Value::Bytes(b"b".to_vec()),
            Value::Bytes(b"a".to_vec()),
            Value::Bytes(b"b".to_vec()),
        ]))
    );
}

#[test]
fn null_payload_is_absent_and_empty_collection_is_empty() {
    assert_eq!(decode(&CommandResponse::blank(ResponseType::Array)), Ok(Value::Absent));
    assert_eq!(decode(&CommandResponse::blank(ResponseType::Mapping)), Ok(Value::Absent));
    assert_eq!(decode(&CommandResponse::blank(ResponseType::Sets)), Ok(Value::Absent));
    assert_eq!(decode(&CommandResponse::blank(ResponseType::ByteString)), Ok(Value::Absent));
    assert_eq!(decode(&CommandResponse::array_of(Vec::new())), Ok(Value::Sequence(Vec::new())));
    assert_eq!(decode(&CommandResponse::mapping_of(Vec::new())), Ok(Value::Pairs(Vec::new())));
    assert_eq!(decode(&CommandResponse::set_of(Vec::new())), Ok(Value::Sequence(Vec::new())));
}

#[test]
fn map_reads_its_entries_from_the_array_payload() {
    let mut response = CommandResponse::mapping_of(vec![CommandResponse::entry(
        Some(text("k")),
        Some(CommandResponse::integer(1)),
    )]);
    response.sets_value = Some(vec![CommandResponse::integer(9)]);
    assert_eq!(
        decode(&response),
        Ok(Value::Pairs(vec![(Value::Bytes(b"k".to_vec()), Value::Int(1))]))
    );
}

#[test]
fn only_the_payload_of_the_discriminant_is_read() {
    let mut response = CommandResponse::integer(3);
    response.bool_value = true;
    response.float_bits = 2.0f64.to_bits();
    response.string_value = Some(b"x".to_vec());
    response.array_value = Some(vec![CommandResponse::null()]);
    assert_eq!(decode(&response), Ok(Value::Int(3)));
}

#[test]
fn unknown_discriminant_is_a_protocol_error() {
    let mut response = CommandResponse::integer(3);
    response.response_type = 8;
    let failure = decode(&response).unwrap_err();
    assert_eq!(failure, BridgeError::Protocol(8));
    assert_eq!(failure.class(), ErrorClass::Protocol);
    response.response_type = u32::MAX;
    assert_eq!(decode(&response), Err(BridgeError::Protocol(u32::MAX)));
}

#[test]
fn first_failing_child_decides_the_failure() {
    let mut bad_first = CommandResponse::null();
    bad_first.response_type = 100;
    let mut bad_second = CommandResponse::null();
    bad_second.response_type = 200;
    let response = CommandResponse::array_of(vec![
        CommandResponse::integer(1),
        CommandResponse::array_of(vec![CommandResponse::null(), bad_first]),
        bad_second,
    ]);
    assert_eq!(decode(&response), Err(BridgeError::Protocol(100)));
}

#[test]
fn failing_map_side_fails_the_map_and_key_is_read_first() {
    let mut bad_key = CommandResponse::null();
    bad_key.response_type = 11;
    let mut bad_value = CommandResponse::null();
    bad_value.response_type = 12;
    let response = CommandResponse::mapping_of(vec![CommandResponse::entry(
        Some(bad_key),
        Some(bad_value),
    )]);
    assert_eq!(decode(&response), Err(BridgeError::Protocol(11)));
    let mut bad_value = CommandResponse::null();
    bad_value.response_type = 12;
    let response =
        CommandResponse::mapping_of(vec![CommandResponse::entry(Some(text("k")), Some(bad_value))]);
    assert_eq!(decode(&response), Err(BridgeError::Protocol(12)));
}

#[test]
fn skipped_entry_is_not_decoded() {
    let mut bad = CommandResponse::null();
    bad.response_type = 99;
    let response = CommandResponse::mapping_of(vec![CommandResponse::entry(Some(bad), None)]);
    assert_eq!(decode(&response), Ok(Value::Pairs(Vec::new())));
}

#[test]
fn nested_collections_decode_recursively() {
    let response = CommandResponse::array_of(vec![
        CommandResponse::mapping_of(vec![CommandResponse::entry(
            Some(text("inner")),
            Some(CommandResponse::set_of(vec![CommandResponse::integer(1), CommandResponse::integer(2)])),
        )]),
        CommandResponse::array_of(Vec::new()),
    ]);
    assert_eq!(
        decode(&response),
        Ok(Value::Sequence(vec![
            Value::Pairs(vec![(
                Value::Bytes(b"inner".to_vec()),
                Value::Sequence(vec![Value::Int(1), Value::Int(2)]),
            )]),
            Value::Sequence(Vec::new()),
        ]))
    );
}

#[test]
fn response_type_codes_round_trip() {
    let all = [
        ResponseType::Null,
        ResponseType::Int,
        ResponseType::Float,
        ResponseType::Bool,
        ResponseType::ByteString,
        ResponseType::Array,
        ResponseType::Mapping,
        ResponseType::Sets,
    ];
    for (code, response_type) in all.iter().enumerate() {
        assert_eq!(response_type.code(), code as u32);
        assert_eq!(ResponseType::from_code(code as u32), Some(*response_type));
    }
    assert_eq!(ResponseType::from_code(8), None);
}

#[test]
fn value_accessors_read_only_their_own_variant() {
    let number = Value::Int(7);
    assert_eq!(number.as_int(), Some(7));
    assert_eq!(number.as_bool(), None);
    assert_eq!(number.as_float_bits(), None);
    assert!(number.as_bytes().is_none());
    assert!(number.as_sequence().is_none());
    assert!(number.as_pairs().is_none());
    assert!(!number.is_absent());
    assert!(Value::Absent.is_absent());
    assert_eq!(Value::Bool(true).as_bool(), Some(true));
    assert_eq!(Value::Sequence(vec![Value::Absent]).as_sequence().unwrap().len(), 1);
}

#[test]
fn map_entry_holds_only_its_two_sides() {
    let entry = CommandResponse::entry(Some(text("k")), None);
    assert_eq!(entry.response_type, ResponseType::Mapping.code());
    assert_eq!(entry.int_value, 0);
    assert_eq!(entry.float_bits, 0);
    assert!(!entry.bool_value);
    assert_eq!(entry.map_key, Some(Box::new(text("k"))));
    assert_eq!(entry.map_value, None);
    assert_eq!(entry.string_value, None);
    assert_eq!(entry.array_value, None);
    assert_eq!(entry.sets_value, None);
}

#[test]
fn unknown_discriminant_fails_the_decoding_at_any_depth() {
    let mut bad = CommandResponse::null();
    bad.response_type = 77;
    let deep = CommandResponse::array_of(vec![CommandResponse::set_of(vec![
        CommandResponse::mapping_of(vec![CommandResponse::entry(
            Some(text("k")),
            Some(CommandResponse::array_of(vec![CommandResponse::integer(1), bad])),
        )]),
    ])]);
    assert_eq!(decode(&deep), Err(BridgeError::Protocol(77)));
}
