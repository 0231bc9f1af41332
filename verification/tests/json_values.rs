use installer_config::Json;

fn parse(text: &str) -> Json {
    Json::parse(text).expect("valid JSON")
}

fn value(text: &str) -> serde_json::Value {
    serde_json::from_str(text).expect("valid JSON")
}

#[test]
fn parse_reads_every_kind_of_value() {
    assert_eq!(parse("null"), Json::Null);
    assert_eq!(parse("true"), Json::Bool(true));
    assert_eq!(parse("false"), Json::Bool(false));
    assert_eq!(parse("\"a b\""), Json::String(String::from("a b")));
    assert_eq!(parse("7"), Json::Number(serde_json::Number::from(7u64)));
    assert_eq!(parse("-7"), Json::Number(serde_json::Number::from(-7i64)));
    assert_eq!(
        parse("[null, [true], \"x\"]"),
        Json::Array(vec![
            Json::Null,
            Json::Array(vec![Json::Bool(true)]),
            Json::String(String::from("x")),
        ])
    );
    assert_eq!(
        parse("{\"b\": 1, \"a\": {\"c\": false}}"),
        Json::Object(vec![
            (
                String::from("a"),
                Json::Object(vec![(String::from("c"), Json::Bool(false))])
            ),
            (String::from("b"), Json::Number(serde_json::Number::from(1u64))),
        ])
    );
}

#[test]
fn parse_refuses_what_is_no_json() {
    assert_eq!(Json::parse(""), None);
    assert_eq!(Json::parse("{"), None);
    assert_eq!(Json::parse("{\"a\": }"), None);
    assert_eq!(Json::parse("[1, 2,]"), None);
    assert_eq!(Json::parse("nul"), None);
    assert_eq!(Json::parse("{} {}"), None);
}

#[test]
fn from_value_keeps_what_the_value_holds() {
    let text = "{\"n\": null, \"t\": true, \"i\": -12, \"f\": 1.5, \"s\": \"str\", \
                \"a\": [1, \"two\", [3]], \"o\": {\"k\": {\"deep\": []}}}";
    let v = value(text);
    let j = Json::from_value(&v);
    assert_eq!(j.get("n"), Some(&Json::Null));
    assert_eq!(j.get("t"), Some(&Json::Bool(true)));
    assert_eq!(j.get("i").and_then(|i| i.as_integer()), Some(-12));
    assert_eq!(j.get("f").and_then(|f| f.as_integer()), None);
    assert_eq!(j.get("s").and_then(|s| s.as_text()), Some(&String::from("str")));
    assert_eq!(j.get("a").and_then(|a| a.as_items()).map(|a| a.len()), Some(3));
    assert_eq!(
        j.get("o").and_then(|o| o.get("k")).and_then(|k| k.get("deep")),
        Some(&Json::Array(vec![]))
    );
    assert_eq!(j.get("missing"), None);
}

#[test]
fn to_value_gives_back_the_value() {
    let texts = [
        "null",
        "true",
        "0",
        "-3",
        "18446744073709551615",
        "2.25",
        "\"text with \\\"quotes\\\"\"",
        "[]",
        "{}",
        "[1, [2, [3, {\"a\": null}]]]",
        "{\"z\": 1, \"a\": {\"m\": [true, false]}, \"k\": \"v\"}",
    ];
    for text in texts {
        let v = value(text);
        assert_eq!(Json::from_value(&v).to_value(), v, "{}", text);
    }
}

#[test]
fn to_value_builds_each_variant() {
    assert_eq!(Json::Null.to_value(), serde_json::Value::Null);
    assert_eq!(Json::Bool(true).to_value(), serde_json::Value::Bool(true));
    assert_eq!(
        Json::String(String::from("s")).to_value(),
        serde_json::Value::String(String::from("s"))
    );
    assert_eq!(
        Json::Number(serde_json::Number::from(9u64)).to_value(),
        serde_json::Value::Number(serde_json::Number::from(9u64))
    );
    assert_eq!(
        Json::Array(vec![Json::Bool(false), Json::Null]).to_value(),
        serde_json::Value::Array(vec![serde_json::Value::Bool(false), serde_json::Value::Null])
    );
    let mut map = serde_json::Map::new();
    map.insert(String::from("k"), serde_json::Value::Bool(true));
    assert_eq!(
        Json::Object(vec![(String::from("k"), Json::Bool(true))]).to_value(),
        serde_json::Value::Object(map)
    );
}

#[test]
fn the_last_member_with_a_key_counts() {
    let j = Json::Object(vec![
        (String::from("k"), Json::Bool(false)),
        (String::from("other"), Json::Null),
        (String::from("k"), Json::Bool(true)),
    ]);
    assert_eq!(j.get("k"), Some(&Json::Bool(true)));
    assert_eq!(j.to_value(), value("{\"k\": true, \"other\": null}"));
    assert_eq!(j.to_text(), "{\"k\":true,\"other\":null}");
}

#[test]
fn with_adds_and_replaces_members() {
    let j = Json::object().with("a", Json::Bool(true)).with("b", Json::text("x"));
    assert_eq!(j.get("a"), Some(&Json::Bool(true)));
    assert_eq!(j.get("b"), Some(&Json::String(String::from("x"))));
    let j = j.with("a", Json::Null);
    assert_eq!(j.get("a"), Some(&Json::Null));
    assert_eq!(j.get("b"), Some(&Json::String(String::from("x"))));
    assert_eq!(j.to_text(), "{\"a\":null,\"b\":\"x\"}");
    let fresh = Json::Bool(true).with("k", Json::Null);
    assert_eq!(fresh.to_text(), "{\"k\":null}");
    assert_eq!(Json::object().to_text(), "{}");
}

#[test]
fn get_finds_nothing_outside_objects() {
    assert_eq!(Json::Null.get("a"), None);
    assert_eq!(Json::Array(vec![Json::Null]).get("0"), None);
    assert_eq!(Json::String(String::from("a")).get("a"), None);
    assert_eq!(Json::object().get(""), None);
}

#[test]
fn readers_tell_the_kinds_apart() {
    let s = Json::text("t");
    let b = Json::Bool(true);
    let n = parse("42");
    let f = parse("42.0");
    let a = parse("[1]");
    let o = parse("{}");
    assert!(Json::Null.is_null() && !b.is_null() && !o.is_null());
    assert!(o.is_object() && !a.is_object() && !Json::Null.is_object());
    assert_eq!(s.as_text(), Some(&String::from("t")));
    assert_eq!(b.as_text(), None);
    assert_eq!(b.as_flag(), Some(true));
    assert_eq!(s.as_flag(), None);
    assert_eq!(n.as_integer(), Some(42));
    assert_eq!(f.as_integer(), None);
    assert_eq!(s.as_integer(), None);
    assert_eq!(parse("-9223372036854775808").as_integer(), Some(i64::MIN as i128));
    assert_eq!(parse("18446744073709551615").as_integer(), Some(u64::MAX as i128));
    assert_eq!(a.as_items().map(|items| items.len()), Some(1));
    assert_eq!(o.as_items(), None);
}

#[test]
fn clone_is_a_deep_copy() {
    let j = parse("{\"a\": [1, {\"b\": \"c\"}, 2.5], \"d\": null}");
    let copy = j.clone();
    assert_eq!(copy, j);
    assert_eq!(copy.to_text(), "{\"a\":[1,{\"b\":\"c\"},2.5],\"d\":null}");
}

#[test]
fn to_text_is_compact_json() {
    assert_eq!(Json::Null.to_text(), "null");
    assert_eq!(Json::Bool(false).to_text(), "false");
    assert_eq!(Json::text("a\"b").to_text(), "\"a\\\"b\"");
    assert_eq!(parse(" [ 1 , 2 ] ").to_text(), "[1,2]");
    assert_eq!(parse("{ \"k\" : [ ] }").to_text(), "{\"k\":[]}");
    assert_eq!(parse("-0.5").to_text(), "-0.5");
}
