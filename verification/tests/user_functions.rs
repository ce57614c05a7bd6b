use user_service::user::User;
use user_service::user_functions::{
    create_user, delete_user, get_user, get_users, list_users, lookup_user, update_user, users_hash,
    Outcome, RedisCommand,
};

fn user(name: &str, lastname: &str) -> User {
    User { name: name.to_string(), lastname: lastname.to_string() }
}

#[test]
fn users_hash_name() {
    assert_eq!(users_hash(), "users");
}

#[test]
fn create_user_stores_json_under_id() {
    match create_user(&"42".to_string(), &user("John", "Doe")) {
        RedisCommand::HSet { key, field, value } => {
            assert_eq!(key, "users");
            assert_eq!(field, "42");
            assert_eq!(value, "{\"name\":\"John\",\"lastname\":\"Doe\"}");
        }
        other => panic!("unexpected command {:?}", other),
    }
}

#[test]
fn lookups() {
    assert!(matches!(lookup_user(&"9".to_string()),
        RedisCommand::HGet { key, field } if key == "users" && field == "9"));
    assert!(matches!(list_users(), RedisCommand::HGetAll { key } if key == "users"));
}

#[test]
fn update_missing_user_does_nothing() {
    let id = "1".to_string();
    assert!(matches!(update_user(&id, &user("a", "b"), Ok(None)), Outcome::Done(None)));
    assert!(matches!(update_user(&id, &user("a", "b"), Err(())), Outcome::Done(None)));
}

#[test]
fn update_existing_user_overwrites() {
    let id = "1".to_string();
    match update_user(&id, &user("a", "b"), Ok(Some("{}".to_string()))) {
        Outcome::Then(RedisCommand::HSet { key, field, value }, Some(done)) => {
            assert_eq!(key, "users");
            assert_eq!(field, "1");
            assert_eq!(value, "{\"name\":\"a\",\"lastname\":\"b\"}");
            assert_eq!(done, "");
        }
        other => panic!("unexpected outcome {:?}", other),
    }
}

#[test]
fn delete_missing_user_does_nothing() {
    let id = "1".to_string();
    assert!(matches!(delete_user(&id, Ok(None)), Outcome::Done(None)));
    assert!(matches!(delete_user(&id, Err(())), Outcome::Done(None)));
}

#[test]
fn delete_existing_user_removes_it() {
    let id = "1".to_string();
    match delete_user(&id, Ok(Some("{}".to_string()))) {
        Outcome::Then(RedisCommand::HDel { key, field }, Some(done)) => {
            assert_eq!(key, "users");
            assert_eq!(field, "1");
            assert_eq!(done, "");
        }
        other => panic!("unexpected outcome {:?}", other),
    }
}

#[test]
fn get_user_cases() {
    assert!(get_user(None).is_none());
    assert!(get_user(Some(None)).is_none());
    let found = get_user(Some(Some(user("a", "b")))).unwrap();
    assert_eq!(found.name, "a");
    assert_eq!(found.lastname, "b");
}

#[test]
fn get_users_empty_is_error() {
    assert!(get_users(&Vec::new()).is_err());
}

#[test]
fn get_users_transforms_in_order() {
    let entries = vec![("1".to_string(), user("a", "b")), ("2".to_string(), user("c", "d"))];
    let list = get_users(&entries).unwrap();
    assert_eq!(list.len(), 2);
    assert_eq!((list[0].id.as_str(), list[0].name.as_str(), list[0].surname.as_str()), ("1", "a", "b"));
    assert_eq!((list[1].id.as_str(), list[1].name.as_str(), list[1].surname.as_str()), ("2", "c", "d"));
}
