use anthropic_compatible::json::{Json, JsonEntry, JsonNumber};
use anthropic_compatible::outside::{parse_json, print_json};
use anthropic_compatible::string_map::StringMap;
use anthropic_compatible::text::{decimal, strip_prefix};

#[test]
fn json_text_is_read_and_written() {
    let json = parse_json(r#" {"b": [true, null, 0.1, 18446744073709551615, -9], "a": "é"} "#)
        .unwrap();
    assert_eq!(
        print_json(&json),
        r#"{"a":"é","b":[true,null,0.1,18446744073709551615,-9]}"#
    );
    assert_eq!(parse_json(&print_json(&json)).unwrap(), json);
    assert!(parse_json("{\"a\":}").is_err());
    assert!(parse_json("1 2").is_err());
}

#[test]
fn numbers_keep_their_kind() {
    assert_eq!(
        parse_json("7").unwrap(),
        Json::Number(JsonNumber::Unsigned(7))
    );
    assert_eq!(
        parse_json("-7").unwrap(),
        Json::Number(JsonNumber::Negative(-7))
    );
    assert_eq!(
        parse_json("7.0").unwrap(),
        Json::Number(JsonNumber::Fractional("7.0".to_string()))
    );
    assert_eq!(
        parse_json("1e3").unwrap(),
        Json::Number(JsonNumber::Fractional("1000.0".to_string()))
    );
}

#[test]
fn deep_values_are_read_back_up_to_the_limit() {
    let nested = |depth: usize| format!("{}{}", "[".repeat(depth), "]".repeat(depth));
    let deepest = parse_json(&nested(127)).unwrap();
    assert_eq!(parse_json(&print_json(&deepest)).unwrap(), deepest);
    assert!(parse_json(&nested(128)).is_err());
}

#[test]
fn repeated_keys_keep_the_last_value() {
    let repeated = Json::object(vec![
        JsonEntry::new("k", Json::count(1)),
        JsonEntry::new("k", Json::count(2)),
    ]);
    assert_eq!(print_json(&repeated), r#"{"k":2}"#);
}

#[test]
fn integers_are_written_with_their_sign() {
    assert_eq!(print_json(&Json::integer(-3)), "-3");
    assert_eq!(print_json(&Json::integer(3)), "3");
    assert_eq!(print_json(&Json::optional_text(&None)), "null");
}

#[test]
fn maps_hold_one_value_per_key() {
    let map = StringMap::new()
        .with("a".to_string(), "1".to_string())
        .with("b".to_string(), "2".to_string())
        .with("a".to_string(), "3".to_string());
    assert_eq!(map.get("a"), Some(&"3".to_string()));
    assert_eq!(map.get("b"), Some(&"2".to_string()));
    assert_eq!(map.get("c"), None);
    assert_eq!(map.pairs().len(), 2);
}

#[test]
fn numerals_and_prefixes() {
    assert_eq!(decimal(0), "0");
    assert_eq!(decimal(9), "9");
    assert_eq!(decimal(10), "10");
    assert_eq!(decimal(usize::MAX), usize::MAX.to_string());
    assert_eq!(strip_prefix("añb", "añ"), Some("b".to_string()));
    assert_eq!(strip_prefix("a", "ab"), None);
    assert_eq!(strip_prefix("a", ""), Some("a".to_string()));
}

#[test]
fn the_key_that_serde_json_keeps_is_not_read_back() {
    let text = r#"{"a": 1, "$serde_json::private::RawValue": "7"}"#;
    let json = parse_json(text).unwrap();
    let printed = print_json(&json);
    assert_eq!(printed, r#"{"$serde_json::private::RawValue":"7","a":1}"#);
    assert!(parse_json(&printed).is_err());
    assert_eq!(
        parse_json(r#"{"$serde_json::private::RawValue": "[7]"}"#).unwrap(),
        parse_json("[7]").unwrap()
    );
}

#[test]
fn keys_come_back_sorted() {
    let built = Json::object(vec![
        JsonEntry::new("b", Json::integer(-1)),
        JsonEntry::new("ab", Json::Null),
        JsonEntry::new(
            "a",
            Json::array(vec![Json::object(vec![
                JsonEntry::new("z", Json::Bool(true)),
                JsonEntry::new("é", Json::count(0)),
                JsonEntry::new("", Json::text("")),
            ])]),
        ),
    ]);
    let read = parse_json(&print_json(&built)).unwrap();
    assert_eq!(
        read,
        Json::object(vec![
            JsonEntry::new(
                "a",
                Json::array(vec![Json::object(vec![
                    JsonEntry::new("", Json::text("")),
                    JsonEntry::new("z", Json::Bool(true)),
                    JsonEntry::new("é", Json::count(0)),
                ])]),
            ),
            JsonEntry::new("ab", Json::Null),
            JsonEntry::new("b", Json::integer(-1)),
        ])
    );
}

#[test]
fn fractions_come_back_among_unsorted_keys() {
    let built = Json::object(vec![
        JsonEntry::new("b", parse_json("0.25").unwrap()),
        JsonEntry::new("a", parse_json("1e300").unwrap()),
    ]);
    assert_eq!(
        parse_json(&print_json(&built)).unwrap(),
        parse_json(r#"{"a": 1e300, "b": 0.25}"#).unwrap()
    );
}

#[test]
fn nesting_is_counted() {
    let nested = |text: &str, limit: usize| parse_json(text).unwrap().nests_at_most(limit);
    assert!(nested("1", 0));
    assert!(!nested("[]", 0));
    assert!(nested(r#"{"a": [1], "b": {}}"#, 2));
    assert!(!nested(r#"{"a": [1, {}]}"#, 2));
}
