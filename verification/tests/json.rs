use serenity::http::client::Http;
use serenity::http::error::ErrorBody;
use serenity::http::number::parse_i64;
use serenity::json::JsonValue;
use serenity::model::id::GuildId;

fn text(s: &str) -> JsonValue {
    JsonValue::Text(s.to_string())
}

fn number(s: &str) -> JsonValue {
    JsonValue::Number(s.to_string())
}

fn object(members: Vec<(&str, JsonValue)>) -> JsonValue {
    JsonValue::Object(members.into_iter().map(|(n, v)| (n.to_string(), v)).collect())
}

fn show(v: &JsonValue) -> String {
    format!("{:?}", v)
}

#[test]
fn parse_i64_reads_whole_numbers() {
    assert_eq!(parse_i64(b"0"), Some(0));
    assert_eq!(parse_i64(b"-0"), Some(0));
    assert_eq!(parse_i64(b"50035"), Some(50035));
    assert_eq!(parse_i64(b"-1"), Some(-1));
    assert_eq!(parse_i64(b"9223372036854775807"), Some(i64::MAX));
    assert_eq!(parse_i64(b"-9223372036854775808"), Some(i64::MIN));
    assert_eq!(parse_i64(b"9223372036854775808"), None);
    assert_eq!(parse_i64(b"-9223372036854775809"), None);
    assert_eq!(parse_i64(b""), None);
    assert_eq!(parse_i64(b"-"), None);
    assert_eq!(parse_i64(b"1.0"), None);
    assert_eq!(parse_i64(b"1e3"), None);
    assert_eq!(parse_i64(b"--1"), None);
    assert_eq!(parse_i64(b"+1"), None);
}

#[test]
fn members_are_found_by_name() {
    let v = object(vec![("a", number("1")), ("b", text("two")), ("a", number("3"))]);
    assert_eq!(v.field("a").unwrap().as_i64(), Some(1));
    assert_eq!(v.field("b").unwrap().as_text(), Some("two"));
    assert!(v.field("c").is_none());
    assert!(text("x").field("a").is_none());
    assert_eq!(text("x").as_i64(), None);
    assert_eq!(number("7").as_text(), None);
    assert_eq!(number("7.5").as_i64(), None);
}

#[test]
fn guild_id_is_added_to_an_object() {
    let v = object(vec![("id", text("1")), ("name", text("mods"))]);
    let named = Http::with_guild_id(v, GuildId::new(42));
    assert_eq!(
        show(&named),
        show(&object(vec![("id", text("1")), ("name", text("mods")), ("guild_id", number("42"))]))
    );
}

#[test]
fn guild_id_replaces_the_one_that_is_there() {
    let v = object(vec![("guild_id", text("old")), ("id", text("1"))]);
    let named = Http::with_guild_id(v, GuildId::new(u64::MAX));
    assert_eq!(
        show(&named),
        show(&object(vec![("guild_id", number("18446744073709551615")), ("id", text("1"))]))
    );
}

#[test]
fn guild_id_is_not_added_to_what_is_no_object() {
    assert_eq!(show(&Http::with_guild_id(text("x"), GuildId::new(1))), show(&text("x")));
    assert_eq!(show(&Http::with_guild_id(JsonValue::Null, GuildId::new(1))), show(&JsonValue::Null));
    let list = JsonValue::Array(vec![object(vec![])]);
    assert_eq!(
        show(&Http::with_guild_id(list, GuildId::new(1))),
        show(&JsonValue::Array(vec![object(vec![])]))
    );
}

#[test]
fn guild_id_is_added_to_each_object_of_an_array() {
    let list = JsonValue::Array(vec![
        object(vec![("id", text("1"))]),
        JsonValue::Bool(true),
        object(vec![("guild_id", number("9")), ("id", text("2"))]),
        object(vec![]),
    ]);
    let named = Http::with_guild_id_in_each(list, GuildId::new(5));
    let expected = JsonValue::Array(vec![
        object(vec![("id", text("1")), ("guild_id", number("5"))]),
        JsonValue::Bool(true),
        object(vec![("guild_id", number("5")), ("id", text("2"))]),
        object(vec![("guild_id", number("5"))]),
    ]);
    assert_eq!(show(&named), show(&expected));
    let single = object(vec![("id", text("1"))]);
    assert_eq!(
        show(&Http::with_guild_id_in_each(single, GuildId::new(5))),
        show(&object(vec![("id", text("1"))]))
    );
}

#[test]
fn error_body_is_decoded() {
    let v = object(vec![("message", text("Unknown Channel")), ("code", number("10003"))]);
    let body = ErrorBody::decode(&v).unwrap();
    assert_eq!(body.code, 10003);
    assert_eq!(body.message, "Unknown Channel");
    assert!(body.errors.is_empty());
}

#[test]
fn error_body_needs_code_and_message() {
    assert!(ErrorBody::decode(&object(vec![("message", text("m"))])).is_none());
    assert!(ErrorBody::decode(&object(vec![("code", number("1"))])).is_none());
    assert!(ErrorBody::decode(&object(vec![("code", text("1")), ("message", text("m"))])).is_none());
    assert!(ErrorBody::decode(&object(vec![("code", number("1.5")), ("message", text("m"))])).is_none());
    assert!(ErrorBody::decode(&object(vec![("code", number("1")), ("message", number("2"))])).is_none());
    assert!(ErrorBody::decode(&text("oops")).is_none());
    assert!(ErrorBody::decode(&JsonValue::Array(Vec::new())).is_none());
}

fn listed(code: &str, message: &str) -> JsonValue {
    object(vec![("code", text(code)), ("message", text(message))])
}

#[test]
fn per_field_errors_are_flattened_with_their_paths() {
    let errors = object(vec![
        (
            "embeds",
            object(vec![(
                "0",
                object(vec![
                    (
                        "title",
                        object(vec![(
                            "_errors",
                            JsonValue::Array(vec![listed("BASE_TYPE_MAX_LENGTH", "too long")]),
                        )]),
                    ),
                    (
                        "fields",
                        object(vec![(
                            "3",
                            object(vec![(
                                "_errors",
                                JsonValue::Array(vec![
                                    listed("A", "first"),
                                    object(vec![("code", text("B"))]),
                                    text("not an object"),
                                    listed("C", "third"),
                                ]),
                            )]),
                        )]),
                    ),
                ]),
            )]),
        ),
        ("content", object(vec![("_errors", JsonValue::Array(vec![listed("REQUIRED", "needed")]))])),
        ("_errors", JsonValue::Array(vec![listed("TOP", "at the top")])),
        ("odd", text("no object")),
        ("odder", object(vec![("_errors", text("no list"))])),
    ]);
    let v = object(vec![("code", number("50035")), ("errors", errors), ("message", text("Invalid Form Body"))]);
    let body = ErrorBody::decode(&v).unwrap();
    assert_eq!(body.code, 50035);
    let flat: Vec<(&str, &str, &str)> =
        body.errors.iter().map(|e| (e.code.as_str(), e.message.as_str(), e.path.as_str())).collect();
    assert_eq!(
        flat,
        vec![
            ("BASE_TYPE_MAX_LENGTH", "too long", "embeds.0.title"),
            ("A", "first", "embeds.0.fields.3"),
            ("C", "third", "embeds.0.fields.3"),
            ("REQUIRED", "needed", "content"),
            ("TOP", "at the top", ""),
        ]
    );
}

#[test]
fn errors_that_are_no_object_give_none() {
    let v = object(vec![("code", number("1")), ("message", text("m")), ("errors", text("x"))]);
    assert!(ErrorBody::decode(&v).unwrap().errors.is_empty());
    let v = object(vec![("code", number("-7")), ("message", text("m")), ("errors", JsonValue::Null)]);
    let body = ErrorBody::decode(&v).unwrap();
    assert_eq!(body.code, -7);
    assert!(body.errors.is_empty());
}

#[test]
fn errors_nested_deeper_than_the_limit_are_not_looked_into() {
    let mut deep = object(vec![("_errors", JsonValue::Array(vec![listed("X", "deep")]))]);
    for _ in 0..126 {
        deep = object(vec![("f", deep)]);
    }
    let v = object(vec![("code", number("1")), ("message", text("m")), ("errors", deep)]);
    assert_eq!(ErrorBody::decode(&v).unwrap().errors.len(), 1);
    let mut deeper = object(vec![("_errors", JsonValue::Array(vec![listed("X", "deep")]))]);
    for _ in 0..200 {
        deeper = object(vec![("f", deeper)]);
    }
    let v = object(vec![("code", number("1")), ("message", text("m")), ("errors", deeper)]);
    assert!(ErrorBody::decode(&v).unwrap().errors.is_empty());
}
