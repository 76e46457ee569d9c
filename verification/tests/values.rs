use entity_gateway::values::KeyAndValue;
use entity_gateway::values::KeyValue;
use entity_gateway::values::TaggedValue;
use entity_gateway::values::convert_attributes;
use entity_gateway::values::derive_scale;

fn entry(key: &str) -> KeyAndValue {
    let mut entry = KeyAndValue::default();
    entry.key = key.to_string();
    entry
}

#[test]
fn scale_three_fractional_digits() {
    let mut e = entry("Amount");
    e.decimal_value = Some("12.340".to_string());
    let pair = e.to_grpc_value();
    assert_eq!(
        pair.value,
        TaggedValue::Decimal { digits: "12.340".to_string(), scale: 3 }
    );
}

#[test]
fn scale_zero_without_fraction() {
    let mut e = entry("Amount");
    e.decimal_value = Some("7".to_string());
    let pair = e.to_grpc_value();
    assert_eq!(pair.value, TaggedValue::Decimal { digits: "7".to_string(), scale: 0 });
}

#[test]
fn scale_one_fractional_digit() {
    let mut e = entry("Amount");
    e.decimal_value = Some("0.1".to_string());
    let pair = e.to_grpc_value();
    assert_eq!(pair.value, TaggedValue::Decimal { digits: "0.1".to_string(), scale: 1 });
}

#[test]
fn derive_scale_cases() {
    assert_eq!(derive_scale("12.340"), 3);
    assert_eq!(derive_scale("7"), 0);
    assert_eq!(derive_scale("0.1"), 1);
    assert_eq!(derive_scale(""), 0);
    assert_eq!(derive_scale("1."), 0);
    assert_eq!(derive_scale(".25"), 2);
    // only the first point counts
    assert_eq!(derive_scale("1.2.3"), 3);
}

#[test]
fn round_trip_integer_entry() {
    let mut e = entry("Qty");
    e.integer_value = Some(14);
    e.value_type = Some("INTEGER".to_string());
    let expected = {
        let mut x = entry("Qty");
        x.integer_value = Some(14);
        x.value_type = Some("INTEGER".to_string());
        x
    };
    let pair = e.to_grpc_value();
    let back = KeyAndValue::from_grpc_value(pair.key, pair.value);
    assert_eq!(back, expected);
}

#[test]
fn round_trip_boolean_entry() {
    let mut e = entry("IsActive");
    e.boolean_value = Some(true);
    e.value_type = Some("BOOLEAN".to_string());
    let expected = {
        let mut x = entry("IsActive");
        x.boolean_value = Some(true);
        x.value_type = Some("BOOLEAN".to_string());
        x
    };
    let pair = e.to_grpc_value();
    let back = KeyAndValue::from_grpc_value(pair.key, pair.value);
    assert_eq!(back, expected);
}

#[test]
fn round_trip_string_entry() {
    let mut e = entry("Name");
    e.string_value = Some("Widget".to_string());
    e.value_type = Some("STRING".to_string());
    let expected = {
        let mut x = entry("Name");
        x.string_value = Some("Widget".to_string());
        x.value_type = Some("STRING".to_string());
        x
    };
    let pair = e.to_grpc_value();
    let back = KeyAndValue::from_grpc_value(pair.key, pair.value);
    assert_eq!(back, expected);
}

#[test]
fn round_trip_date_entry() {
    let mut e = entry("Created");
    e.date_value = Some("2023-04-01".to_string());
    e.value_type = Some("DATE".to_string());
    let expected = {
        let mut x = entry("Created");
        x.date_value = Some("2023-04-01".to_string());
        x.value_type = Some("DATE".to_string());
        x
    };
    let pair = e.to_grpc_value();
    let back = KeyAndValue::from_grpc_value(pair.key, pair.value);
    assert_eq!(back, expected);
}

#[test]
fn round_trip_decimal_keeps_digits() {
    // The wire keeps the rendered digit string verbatim, so the decimal
    // round trip is exact at this boundary; only the floating approximation
    // made for JSON transport, outside the library, is lossy.
    let mut e = entry("Price");
    e.decimal_value = Some("12.340".to_string());
    e.value_type = Some("DECIMAL".to_string());
    let expected = {
        let mut x = entry("Price");
        x.decimal_value = Some("12.340".to_string());
        x.value_type = Some("DECIMAL".to_string());
        x
    };
    let pair = e.to_grpc_value();
    let back = KeyAndValue::from_grpc_value(pair.key, pair.value);
    assert_eq!(back, expected);
}

#[test]
fn unknown_hint_yields_unset() {
    let mut e = entry("Blob");
    e.string_value = Some("data".to_string());
    e.value_type = Some("BINARY".to_string());
    let pair = e.to_grpc_value();
    assert_eq!(pair.value, TaggedValue::Unset);
}

#[test]
fn hint_without_matching_slot_yields_unset() {
    let mut e = entry("Qty");
    e.string_value = Some("14".to_string());
    e.value_type = Some("INTEGER".to_string());
    let pair = e.to_grpc_value();
    assert_eq!(pair.value, TaggedValue::Unset);
}

#[test]
fn inference_prefers_integer_over_string() {
    let mut e = entry("Mixed");
    e.integer_value = Some(3);
    e.string_value = Some("three".to_string());
    let pair = e.to_grpc_value();
    assert_eq!(pair.value, TaggedValue::Integer { integer: 3 });
}

#[test]
fn inference_prefers_decimal_over_boolean() {
    let mut e = entry("Mixed");
    e.decimal_value = Some("1.5".to_string());
    e.boolean_value = Some(false);
    let pair = e.to_grpc_value();
    assert_eq!(pair.value, TaggedValue::Decimal { digits: "1.5".to_string(), scale: 1 });
}

#[test]
fn inference_prefers_string_over_date() {
    let mut e = entry("Mixed");
    e.string_value = Some("text".to_string());
    e.date_value = Some("2023-04-01".to_string());
    let pair = e.to_grpc_value();
    assert_eq!(pair.value, TaggedValue::Text { text: "text".to_string() });
}

#[test]
fn empty_entry_yields_unset() {
    let e = entry("Nothing");
    let pair = e.to_grpc_value();
    assert_eq!(pair.key, "Nothing".to_string());
    assert_eq!(pair.value, TaggedValue::Unset);
}

#[test]
fn unset_converts_back_to_empty_entry() {
    let back = KeyAndValue::from_grpc_value("Nothing".to_string(), TaggedValue::Unset);
    assert_eq!(back, entry("Nothing"));
}

#[test]
fn from_grpc_value_sets_discriminator() {
    let back = KeyAndValue::from_grpc_value(
        "Qty".to_string(),
        TaggedValue::Integer { integer: 5 },
    );
    assert_eq!(back.integer_value, Some(5));
    assert_eq!(back.value_type, Some("INTEGER".to_string()));
    assert_eq!(back.string_value, None);
    assert_eq!(back.boolean_value, None);
    assert_eq!(back.date_value, None);
    assert_eq!(back.decimal_value, None);
}

#[test]
fn convert_attributes_keeps_order() {
    let mut first = entry("Name");
    first.string_value = Some("Widget".to_string());
    first.value_type = Some("STRING".to_string());
    let mut second = entry("Qty");
    second.integer_value = Some(2);
    let pairs = convert_attributes(vec![first, second]);
    assert_eq!(
        pairs,
        vec![
            KeyValue {
                key: "Name".to_string(),
                value: TaggedValue::Text { text: "Widget".to_string() },
            },
            KeyValue { key: "Qty".to_string(), value: TaggedValue::Integer { integer: 2 } },
        ]
    );
}
