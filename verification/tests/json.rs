use user_service::json::quote_json;
use user_service::user::{transformed_list_to_json, transformed_user_to_json, user_to_json, TransformedUser, User};

fn user(name: &str, lastname: &str) -> User {
    User { name: name.to_string(), lastname: lastname.to_string() }
}

fn listed(id: &str, name: &str, surname: &str) -> TransformedUser {
    TransformedUser { id: id.to_string(), name: name.to_string(), surname: surname.to_string() }
}

#[test]
fn quote_plain_text() {
    assert_eq!(quote_json(&"John".to_string()), "\"John\"");
    assert_eq!(quote_json(&String::new()), "\"\"");
}

#[test]
fn quote_escapes_quote_and_backslash() {
    assert_eq!(quote_json(&"a\"b\\c".to_string()), "\"a\\\"b\\\\c\"");
}

#[test]
fn quote_escapes_control_characters() {
    assert_eq!(quote_json(&"\n\t\r\u{8}\u{c}".to_string()), "\"\\n\\t\\r\\b\\f\"");
    assert_eq!(quote_json(&"\u{1}\u{1f}".to_string()), "\"\\u0001\\u001f\"");
}

#[test]
fn quote_keeps_other_characters() {
    assert_eq!(quote_json(&"é/\u{7f}".to_string()), "\"é/\u{7f}\"");
}

#[test]
fn user_json_object() {
    assert_eq!(user_to_json(&user("John", "Doe")), "{\"name\":\"John\",\"lastname\":\"Doe\"}");
    assert_eq!(user_to_json(&user("", "O\"Neil")), "{\"name\":\"\",\"lastname\":\"O\\\"Neil\"}");
}

#[test]
fn transformed_user_json_object() {
    assert_eq!(
        transformed_user_to_json(&listed("7", "John", "Doe")),
        "{\"id\":\"7\",\"name\":\"John\",\"surname\":\"Doe\"}"
    );
}

#[test]
fn transformed_list_json_array() {
    assert_eq!(transformed_list_to_json(&Vec::new()), "[]");
    assert_eq!(
        transformed_list_to_json(&vec![listed("1", "a", "b")]),
        "[{\"id\":\"1\",\"name\":\"a\",\"surname\":\"b\"}]"
    );
    assert_eq!(
        transformed_list_to_json(&vec![listed("1", "a", "b"), listed("2", "c", "d")]),
        "[{\"id\":\"1\",\"name\":\"a\",\"surname\":\"b\"},{\"id\":\"2\",\"name\":\"c\",\"surname\":\"d\"}]"
    );
}

#[test]
fn json_matches_serde_json_values() {
    let v: serde_json::Value = serde_json::from_str(&user_to_json(&user("x\u{0}y", "z"))).unwrap();
    assert_eq!(v["name"], "x\u{0}y");
    assert_eq!(v["lastname"], "z");
}
