use binance_async::decimal::Decimal;
use binance_async::json::{list_from_json, FromJson, Json};
use binance_async::text::u64_to_text;

fn object(members: Vec<(&str, Json)>) -> Json {
    Json::Object(members.into_iter().map(|(key, item)| (key.to_string(), item)).collect())
}

#[test]
fn parses_an_object_and_finds_its_members() {
    let doc = Json::parse("{\"a\": 1, \"b\": \"0.10\", \"c\": [true, null, -3, 1.5]}").unwrap();
    assert_eq!(doc.get("a").unwrap().as_u64(), Some(1));
    assert_eq!(doc.get("b").unwrap().as_decimal(), Some(Decimal { mantissa: 10, scale: 2 }));
    let items = doc.get("c").unwrap().as_items().unwrap();
    assert_eq!(items.len(), 4);
    assert_eq!(items[0].as_bool(), Some(true));
    assert_eq!(items[1], Json::Null);
    assert_eq!(items[2].as_i64(), Some(-3));
    assert_eq!(items[3], Json::Real("1.5".to_string()));
    assert!(doc.get("d").is_none());
}

#[test]
fn parse_builds_the_tree_of_the_document() {
    assert_eq!(Json::parse("null"), Some(Json::Null));
    assert_eq!(Json::parse("false"), Some(Json::Bool(false)));
    assert_eq!(Json::parse("18446744073709551615"), Some(Json::Unsigned(u64::MAX)));
    assert_eq!(Json::parse("-9223372036854775808"), Some(Json::Signed(i64::MIN)));
    assert_eq!(Json::parse("0.25"), Some(Json::Real("0.25".to_string())));
    assert_eq!(Json::parse("\"x\""), Some(Json::Text("x".to_string())));
    assert_eq!(
        Json::parse("[1, [2]]"),
        Some(Json::Array(vec![Json::Unsigned(1), Json::Array(vec![Json::Unsigned(2)])]))
    );
    assert_eq!(
        Json::parse("{\"k\": {\"n\": null}}"),
        Some(object(vec![("k", object(vec![("n", Json::Null)]))]))
    );
}

#[test]
fn parse_rejects_what_is_no_document() {
    assert_eq!(Json::parse(""), None);
    assert_eq!(Json::parse("{"), None);
    assert_eq!(Json::parse("{\"a\": }"), None);
    assert_eq!(Json::parse("[1, 2] 3"), None);
    assert_eq!(Json::parse("nul"), None);
}

#[test]
fn get_finds_the_first_member_of_that_key() {
    let doc = object(vec![("a", Json::Unsigned(1)), ("b", Json::Unsigned(2)), ("a", Json::Unsigned(3))]);
    assert_eq!(doc.get("a"), Some(&Json::Unsigned(1)));
    assert_eq!(doc.get("b"), Some(&Json::Unsigned(2)));
    assert_eq!(doc.get("c"), None);
    assert_eq!(Json::Array(vec![]).get("a"), None);
    assert_eq!(Json::Null.get("a"), None);
}

#[test]
fn whole_numbers_are_read_by_their_value() {
    assert_eq!(Json::Unsigned(7).as_u64(), Some(7));
    assert_eq!(Json::Signed(7).as_u64(), Some(7));
    assert_eq!(Json::Signed(-1).as_u64(), None);
    assert_eq!(Json::Unsigned(u64::MAX).as_u64(), Some(u64::MAX));
    assert_eq!(Json::Unsigned(7).as_i64(), Some(7));
    assert_eq!(Json::Unsigned(i64::MAX as u64).as_i64(), Some(i64::MAX));
    assert_eq!(Json::Unsigned(i64::MAX as u64 + 1).as_i64(), None);
    assert_eq!(Json::Signed(-5).as_i64(), Some(-5));
    assert_eq!(Json::Text("7".to_string()).as_u64(), None);
    assert_eq!(Json::Real("7.0".to_string()).as_i64(), None);
    assert_eq!(Json::Null.as_u64(), None);
}

#[test]
fn scalars_are_read_only_from_their_own_kind() {
    assert_eq!(Json::Bool(true).as_bool(), Some(true));
    assert_eq!(Json::Unsigned(1).as_bool(), None);
    assert_eq!(Json::Text("t".to_string()).as_text(), Some(&"t".to_string()));
    assert_eq!(Json::Null.as_text(), None);
    assert_eq!(Json::Array(vec![Json::Null]).as_items(), Some(&vec![Json::Null]));
    assert_eq!(Json::Null.as_items(), None);
}

#[test]
fn decimals_are_read_from_strings_and_numbers() {
    assert_eq!(Json::Text("0.00100000".to_string()).as_decimal(), Some(Decimal { mantissa: 100000, scale: 8 }));
    assert_eq!(Json::Real("1.5".to_string()).as_decimal(), Some(Decimal { mantissa: 15, scale: 1 }));
    assert_eq!(Json::Unsigned(12).as_decimal(), Some(Decimal { mantissa: 12, scale: 0 }));
    assert_eq!(Json::Signed(-12).as_decimal(), Some(Decimal { mantissa: -12, scale: 0 }));
    assert_eq!(Json::Text("abc".to_string()).as_decimal(), None);
    assert_eq!(Json::Bool(true).as_decimal(), None);
    assert_eq!(Json::Text("2.50".to_string()).as_text_decimal(), Some(Decimal { mantissa: 250, scale: 2 }));
    assert_eq!(Json::Unsigned(12).as_text_decimal(), None);
}

#[test]
fn typed_members_are_read_by_key() {
    let doc = Json::parse(
        "{\"u\": 5, \"i\": -5, \"b\": true, \"t\": \"abc\", \"d\": \"1.20\", \"l\": [1, 2], \"n\": null}",
    )
    .unwrap();
    assert_eq!(doc.u64_field("u"), Some(5));
    assert_eq!(doc.u64_field("i"), None);
    assert_eq!(doc.u64_field("missing"), None);
    assert_eq!(doc.i64_field("i"), Some(-5));
    assert_eq!(doc.i64_field("t"), None);
    assert_eq!(doc.bool_field("b"), Some(true));
    assert_eq!(doc.bool_field("u"), None);
    assert_eq!(doc.text_field("t"), Some("abc".to_string()));
    assert_eq!(doc.text_field("u"), None);
    assert_eq!(doc.decimal_field("d"), Some(Decimal { mantissa: 120, scale: 2 }));
    assert_eq!(doc.decimal_field("u"), Some(Decimal { mantissa: 5, scale: 0 }));
    assert_eq!(doc.decimal_field("t"), None);
    assert_eq!(doc.items_field("l"), Some(&vec![Json::Unsigned(1), Json::Unsigned(2)]));
    assert_eq!(doc.items_field("t"), None);
}

#[test]
fn optional_text_may_be_absent_or_null() {
    let doc = Json::parse("{\"t\": \"abc\", \"n\": null, \"u\": 5}").unwrap();
    assert_eq!(doc.optional_text_field("t"), Some(Some("abc".to_string())));
    assert_eq!(doc.optional_text_field("n"), Some(None));
    assert_eq!(doc.optional_text_field("missing"), Some(None));
    assert_eq!(doc.optional_text_field("u"), None);
}

#[test]
fn a_list_is_read_item_by_item() {
    let items = vec![Json::Text("a".to_string()), Json::Text("b".to_string())];
    assert_eq!(list_from_json::<String>(&items), Some(vec!["a".to_string(), "b".to_string()]));
    let mixed = vec![Json::Text("a".to_string()), Json::Unsigned(1)];
    assert_eq!(list_from_json::<String>(&mixed), None);
    assert_eq!(list_from_json::<String>(&vec![]), Some(vec![]));
    assert_eq!(String::from_json(&Json::Text("x".to_string())), Some("x".to_string()));
    assert_eq!(String::from_json(&Json::Null), None);
}

#[test]
fn renders_unsigned_integers() {
    assert_eq!(u64_to_text(0), "0");
    assert_eq!(u64_to_text(5), "5");
    assert_eq!(u64_to_text(10), "10");
    assert_eq!(u64_to_text(1000), "1000");
    assert_eq!(u64_to_text(1234567890), "1234567890");
    assert_eq!(u64_to_text(u64::MAX), "18446744073709551615");
}

#[test]
fn a_key_written_twice_keeps_what_was_written_last() {
    let doc = Json::parse("{\"a\": 1, \"b\": 2, \"a\": 3}").unwrap();
    assert_eq!(doc.get("a"), Some(&Json::Unsigned(3)));
    assert_eq!(doc.get("b"), Some(&Json::Unsigned(2)));
    match doc {
        Json::Object(members) => assert_eq!(members.len(), 2),
        other => panic!("{:?}", other),
    }
}

#[test]
fn a_number_too_large_for_a_whole_number_is_kept_by_its_text() {
    match Json::parse("18446744073709551616").unwrap() {
        Json::Real(text) => assert_eq!(text.parse::<f64>().unwrap(), 18446744073709551616.0),
        other => panic!("{:?}", other),
    }
    assert_eq!(Json::parse("-1").unwrap(), Json::Signed(-1));
    assert_eq!(Json::parse("0").unwrap(), Json::Unsigned(0));
}
