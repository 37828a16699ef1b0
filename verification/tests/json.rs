use dockers::common::json::optional_number_field;
use dockers::common::json::optional_text_list_field;
use dockers::common::json::parse;
use dockers::common::json::text_field;
use dockers::common::json::Json;
use dockers::common::text::joined;
use dockers::common::text::read_text;

fn member(key: &str, value: Json) -> (String, Json) {
    (key.to_string(), value)
}

fn text(value: &str) -> Json {
    Json::Text(value.to_string())
}

#[test]
fn parse_builds_the_tree_of_a_nested_document() {
    let doc = parse(r#"{"b": [1, -2, 1.5, "x", true, null], "a": {"k": "v"}}"#).unwrap();
    assert_eq!(
        doc,
        Json::Object(vec![
            member("a", Json::Object(vec![member("k", text("v"))])),
            member(
                "b",
                Json::List(vec![
                    Json::Unsigned(1),
                    Json::Signed(-2),
                    Json::Decimal("1.5".to_string()),
                    text("x"),
                    Json::Bool(true),
                    Json::Null,
                ]),
            ),
        ])
    );
}

#[test]
fn parse_reads_scalars() {
    assert_eq!(parse("null"), Ok(Json::Null));
    assert_eq!(parse("false"), Ok(Json::Bool(false)));
    assert_eq!(parse("18446744073709551615"), Ok(Json::Unsigned(u64::MAX)));
    assert_eq!(parse("-9223372036854775808"), Ok(Json::Signed(i64::MIN)));
    assert_eq!(parse(r#""é\n""#), Ok(text("\u{e9}\n")));
    assert_eq!(parse("[]"), Ok(Json::List(vec![])));
    assert_eq!(parse("{}"), Ok(Json::Object(vec![])));
}

#[test]
fn parse_keeps_the_last_of_two_members_with_one_name() {
    assert_eq!(parse(r#"{"a": 1, "a": 2}"#), Ok(Json::Object(vec![member("a", Json::Unsigned(2))])));
}

#[test]
fn parse_reports_the_parser_s_complaint() {
    assert_eq!(parse(""), Err("EOF while parsing a value at line 1 column 0".to_string()));
    assert_eq!(parse("{"), Err("EOF while parsing an object at line 1 column 1".to_string()));
    assert_eq!(parse("nope"), Err("expected ident at line 1 column 2".to_string()));
    assert_eq!(parse("1 2"), Err("trailing characters at line 1 column 3".to_string()));
}

#[test]
fn member_finds_the_last_member_of_a_name() {
    let doc = Json::Object(vec![member("a", text("first")), member("b", Json::Null), member("a", text("last"))]);
    assert_eq!(doc.member("a"), Some(&text("last")));
    assert_eq!(doc.member("b"), Some(&Json::Null));
    assert_eq!(doc.member("c"), None);
    assert_eq!(doc.member(""), None);
}

#[test]
fn member_of_what_is_no_object_is_none() {
    assert_eq!(Json::List(vec![text("a")]).member("a"), None);
    assert_eq!(text("a").member("a"), None);
    assert_eq!(Json::Null.member("a"), None);
}

#[test]
fn kinds_are_told_apart() {
    assert!(Json::Object(vec![]).is_object());
    assert!(!Json::List(vec![]).is_object());
    assert!(Json::Null.is_null());
    assert!(!Json::Bool(false).is_null());
}

#[test]
fn as_text_gives_only_texts() {
    assert_eq!(text("abc").as_text(), Some(&"abc".to_string()));
    assert_eq!(Json::Unsigned(1).as_text(), None);
    assert_eq!(Json::Decimal("1.5".to_string()).as_text(), None);
}

#[test]
fn as_text_list_gives_only_lists_of_texts() {
    assert_eq!(Json::List(vec![text("a"), text("b")]).as_text_list(), Some(vec!["a".to_string(), "b".to_string()]));
    assert_eq!(Json::List(vec![]).as_text_list(), Some(vec![]));
    assert_eq!(Json::List(vec![text("a"), Json::Unsigned(1)]).as_text_list(), None);
    assert_eq!(text("a").as_text_list(), None);
}

#[test]
fn text_field_reads_or_complains() {
    let doc = Json::Object(vec![member("image", text("nginx")), member("n", Json::Unsigned(1))]);
    assert_eq!(text_field(&doc, "image"), Ok("nginx".to_string()));
    assert_eq!(text_field(&doc, "n"), Err("invalid type for field `n`".to_string()));
    assert_eq!(text_field(&doc, "other"), Err("missing field `other`".to_string()));
    assert_eq!(text_field(&Json::List(vec![]), "image"), Err("invalid type: expected an object".to_string()));
}

#[test]
fn optional_text_list_field_reads_or_complains() {
    let doc = Json::Object(vec![
        member("command", Json::List(vec![text("ls"), text("-l")])),
        member("none", Json::Null),
        member("bad", Json::List(vec![Json::Bool(true)])),
    ]);
    assert_eq!(optional_text_list_field(&doc, "command"), Ok(Some(vec!["ls".to_string(), "-l".to_string()])));
    assert_eq!(optional_text_list_field(&doc, "none"), Ok(None));
    assert_eq!(optional_text_list_field(&doc, "absent"), Ok(None));
    assert_eq!(optional_text_list_field(&doc, "bad"), Err("invalid type for field `bad`".to_string()));
    assert_eq!(optional_text_list_field(&Json::Null, "command"), Err("invalid type: expected an object".to_string()));
}

#[test]
fn duplicate_copies_the_whole_tree() {
    let doc = Json::Object(vec![
        member("a", Json::List(vec![text("x"), Json::Signed(-3), Json::Object(vec![member("k", Json::Null)])])),
        member("b", Json::Decimal("2.5".to_string())),
    ]);
    assert_eq!(doc.duplicate(), doc);
    assert_eq!(Json::Bool(true).duplicate(), Json::Bool(true));
}

#[test]
fn read_text_decodes_utf8() {
    assert_eq!(read_text(b"boom"), Ok("boom".to_string()));
    assert_eq!(read_text(&[0xe2, 0x82, 0xac]), Ok("\u{20ac}".to_string()));
    assert_eq!(read_text(b""), Ok(String::new()));
}

#[test]
fn read_text_reports_bytes_that_are_no_utf8() {
    assert_eq!(read_text(&[0xff, 0x41]), Err("invalid utf-8 sequence of 1 bytes from index 0".to_string()));
    assert_eq!(read_text(&[0x41, 0xe2, 0x82]), Err("incomplete utf-8 byte sequence from index 1".to_string()));
}

#[test]
fn joined_puts_one_text_after_the_other() {
    assert_eq!(joined("config/", "test"), "config/test");
    assert_eq!(joined("", ""), "");
}

#[test]
fn optional_number_field_reads_or_complains() {
    let doc = Json::Object(vec![
        member("n", Json::Unsigned(7)),
        member("zero", Json::Unsigned(0)),
        member("none", Json::Null),
        member("neg", Json::Signed(-7)),
        member("text", text("7")),
    ]);
    assert_eq!(optional_number_field(&doc, "n"), Ok(Some(7)));
    assert_eq!(optional_number_field(&doc, "zero"), Ok(Some(0)));
    assert_eq!(optional_number_field(&doc, "none"), Ok(None));
    assert_eq!(optional_number_field(&doc, "absent"), Ok(None));
    assert_eq!(optional_number_field(&doc, "neg"), Err("invalid type for field `neg`".to_string()));
    assert_eq!(optional_number_field(&doc, "text"), Err("invalid type for field `text`".to_string()));
    assert_eq!(optional_number_field(&Json::List(vec![]), "n"), Err("invalid type: expected an object".to_string()));
}
