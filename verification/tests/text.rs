use codex_agents_api::error::disconnected_error;
use codex_agents_api::error::invalid;
use codex_agents_api::error::ApiError;
use codex_agents_api::json::Json;
use codex_agents_api::json::Number;
use codex_agents_api::outside::read_document;
use codex_agents_api::outside::write_document;
use codex_agents_api::text;

#[test]
fn blank_text_is_white_space_only() {
    assert!(text::is_blank(""));
    assert!(text::is_blank(" \t\u{3000}\n"));
    assert!(!text::is_blank(" x "));
    for c in ['\u{85}', '\u{a0}', '\u{1680}', '\u{2000}', '\u{200b}', '\u{2028}', 'a', '\u{b}'] {
        assert_eq!(text::is_white_space(c), c.is_whitespace());
    }
}

#[test]
fn texts_are_ordered_as_their_bytes_are() {
    let texts = ["", "a", "aa", "ab", "b", "é", "\u{ffff}", "\u{10000}"];
    for (i, a) in texts.iter().enumerate() {
        for (j, b) in texts.iter().enumerate() {
            assert_eq!(text::is_before(a, b), i < j, "{a:?} {b:?}");
            assert_eq!(text::is_before(a, b), a.as_bytes() < b.as_bytes());
            assert_eq!(text::same(a, b), i == j);
            assert_eq!(text::starts_with(a, b), a.starts_with(b));
        }
        assert_eq!(text::byte_len(a), a.len());
    }
    assert_eq!(text::joined("ab", "é"), "abé");
}

#[test]
fn documents_are_read_and_written() {
    let text = r#"{"a":[1,-2,1.5,null,true,"x\n"],"b":{}}"#;
    let json = read_document(text.as_bytes()).unwrap();
    assert_eq!(write_document(&json), text);
    assert!(read_document(b"{").is_none());
    assert!(read_document(b"{} {}").is_none());
    assert!(matches!(json.field("a"), Json::Array(items) if items.len() == 6));
    assert!(json.field("missing").is_null());
    assert!(json.field("a").field("a").is_null());
    let big = read_document(b"18446744073709551615").unwrap();
    assert_eq!(big.as_unsigned(), Some(u64::MAX));
    assert_eq!(big.as_signed(), None);
    let small = read_document(b"-9223372036854775808").unwrap();
    assert_eq!(small.as_signed(), Some(i64::MIN));
    assert_eq!(small.as_unsigned(), None);
    assert!(matches!(
        read_document(b"0.25").unwrap(),
        Json::Number(Number::Decimal(text)) if text == "0.25"
    ));
}

#[test]
fn fields_are_set_and_removed() {
    let mut json = Json::object().entry("a", Json::unsigned(1)).entry("b", Json::signed(-1));
    json.set("a", Json::string("x"));
    json.set("c", Json::Bool(false));
    json.remove("b");
    json.remove("missing");
    assert_eq!(write_document(&json), r#"{"a":"x","c":false}"#);
    assert!(json.field("a").is_text("x"));
    assert!(json.field("c").is_false());
    let mut null = Json::Null;
    null.set("k", Json::optional(&None));
    assert_eq!(write_document(&null), r#"{"k":null}"#);
    let list = Json::list().item(Json::optional(&Some("x".to_string())));
    assert_eq!(write_document(&list), r#"["x"]"#);
}

#[test]
fn errors_have_two_forms() {
    let error = ApiError::new(502, "bad gateway");
    assert_eq!(write_document(&error.into_response()), r#"{"error":"bad gateway"}"#);
    assert_eq!(
        write_document(&error.public_response()),
        r#"{"error":{"code":null,"message":"bad gateway","param":null,"type":"server_error"}}"#
    );
    let error = invalid("no");
    assert_eq!(error.status, 400);
    assert_eq!(
        write_document(&error.public_response()),
        r#"{"error":{"code":null,"message":"no","param":null,"type":"invalid_request_error"}}"#
    );
    assert_eq!(disconnected_error().status, 503);
    assert_eq!(ApiError::internal().message, "internal API error");
}

#[test]
fn decimal_numbers_are_written_as_they_are_held() {
    for text in ["97.45365320034685", "0.1", "-0.0", "1e+300", "2.2250738585072014e-308", "5e-324"] {
        let held = Json::Number(Number::Decimal(text.into()));
        assert_eq!(write_document(&held), text);
        let value: serde_json::Value = serde_json::from_str(text).unwrap();
        let read = read_document(text.as_bytes()).unwrap();
        assert_eq!(write_document(&read), value.to_string());
    }
    let large = read_document(b"18446744073709551616").unwrap();
    assert_eq!(write_document(&large), "1.8446744073709552e+19");
    assert_eq!(write_document(&Json::Number(Number::Decimal("1e999".into()))), "null");
}
