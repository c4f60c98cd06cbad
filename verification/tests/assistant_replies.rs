use laberry_core::dm::settings_dm_mode;
use laberry_core::homie::{
    homie_base_url, homie_error_from_value, homie_http_token, homie_ok_from_value,
    homie_text_from_value, json_member, JsonValue,
};

fn s(t: &str) -> JsonValue {
    JsonValue::Str(t.to_string(), None)
}

fn obj(members: Vec<(&str, JsonValue)>) -> JsonValue {
    JsonValue::Object(members.into_iter().map(|(k, v)| (k.to_string(), v)).collect())
}

#[test]
fn scalar_replies() {
    assert_eq!(homie_text_from_value(&JsonValue::Null, 0), None);
    assert_eq!(homie_text_from_value(&JsonValue::Bool(true), 0).as_deref(), Some("true"));
    assert_eq!(homie_text_from_value(&JsonValue::Number("1.5".to_string()), 0).as_deref(), Some("1.5"));
    assert_eq!(homie_text_from_value(&s("  "), 0), None);
    assert_eq!(homie_text_from_value(&s("line\\nnext"), 0).as_deref(), Some("line\nnext"));
}

#[test]
fn answer_members_in_order() {
    let v = obj(vec![("text", s("from text")), ("answer", s("from answer"))]);
    assert_eq!(homie_text_from_value(&v, 0).as_deref(), Some("from answer"));
    let v = obj(vec![("answer", s("   ")), ("message", s("msg"))]);
    assert_eq!(homie_text_from_value(&v, 0).as_deref(), Some("msg"));
    let v = obj(vec![("other", s("x"))]);
    assert_eq!(homie_text_from_value(&v, 0), None);
}

#[test]
fn choices_are_searched_last() {
    let choice = obj(vec![("message", obj(vec![("content", s("deep"))]))]);
    let v = obj(vec![("choices", JsonValue::Array(vec![JsonValue::Null, choice]))]);
    assert_eq!(homie_text_from_value(&v, 0).as_deref(), Some("deep"));
}

#[test]
fn strings_holding_json() {
    let inner = obj(vec![("answer", s("inner answer"))]);
    let v = JsonValue::Str(" {\"answer\":\"inner answer\"} ".to_string(), Some(Box::new(inner)));
    assert_eq!(homie_text_from_value(&v, 0).as_deref(), Some("inner answer"));
    let unparsed = JsonValue::Str("{not json}".to_string(), None);
    assert_eq!(homie_text_from_value(&unparsed, 0).as_deref(), Some("{not json}"));
}

#[test]
fn nesting_is_bounded() {
    let mut v = s("bottom");
    for _ in 0..6 {
        v = JsonValue::Array(vec![v]);
    }
    assert_eq!(homie_text_from_value(&v, 0).as_deref(), Some("bottom"));
    let deeper = JsonValue::Array(vec![v]);
    assert_eq!(homie_text_from_value(&deeper, 0), None);
    assert_eq!(homie_text_from_value(&s("x"), 7), None);
}

#[test]
fn errors_and_success() {
    let v = obj(vec![("ok", JsonValue::Bool(false)), ("error", s("boom"))]);
    assert_eq!(homie_error_from_value(&v), "boom");
    assert!(!homie_ok_from_value(&v, "  "));
    assert!(homie_ok_from_value(&v, "answer"));
    let v = obj(vec![("ok", JsonValue::Bool(true))]);
    assert_eq!(homie_error_from_value(&v), "");
    assert!(homie_ok_from_value(&v, ""));
    assert!(!homie_ok_from_value(&obj(vec![("ok", s("true"))]), ""));
    assert_eq!(homie_error_from_value(&JsonValue::Array(vec![])), "");
}

#[test]
fn members_by_name() {
    let members = vec![("a".to_string(), JsonValue::Bool(true)), ("a".to_string(), JsonValue::Null)];
    assert!(matches!(json_member(&members, "a"), Some(JsonValue::Bool(true))));
    assert!(json_member(&members, "b").is_none());
}

#[test]
fn direct_message_setting() {
    let settings = obj(vec![("theme", s("dark")), ("dms", s("friends_only"))]);
    assert_eq!(settings_dm_mode(&settings).as_deref(), Some("friends_only"));
    assert_eq!(settings_dm_mode(&obj(vec![("dms", JsonValue::Bool(true))])), None);
    assert_eq!(settings_dm_mode(&obj(vec![])), None);
    assert_eq!(settings_dm_mode(&s("dms")), None);
}

#[test]
fn service_settings() {
    assert_eq!(homie_base_url(Some(" http://h:1// "), Some("x")), "http://h:1");
    assert_eq!(homie_base_url(None, Some("https://legacy/")), "https://legacy");
    assert_eq!(homie_base_url(None, None), "http://127.0.0.1:8090");
    assert_eq!(homie_base_url(Some("///"), None), "");
    assert_eq!(homie_http_token(Some(" t "), Some("u")).as_deref(), Some("t"));
    assert_eq!(homie_http_token(Some("  "), Some("u")), None);
    assert_eq!(homie_http_token(None, Some("u")).as_deref(), Some("u"));
    assert_eq!(homie_http_token(None, None), None);
}
