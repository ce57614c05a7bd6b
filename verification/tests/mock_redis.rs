use user_service::mock_redis::{MockRedisDatabase, UserData};

fn user_data(name: &str, lastname: &str) -> UserData {
    UserData { name: name.to_string(), lastname: lastname.to_string() }
}

#[test]
fn test_mock_redis_hset_hget_hdel_user() {
    let mut mock_db = MockRedisDatabase::new();

    // Test HSET
    let user_data = UserData { name: "John".to_string(), lastname: "Doe".to_string() };
    mock_db.hset_user("user_id", "field1", user_data.clone());
    assert_eq!(mock_db.hget_user("user_id", "field1"), Some(user_data.clone()));

    // Test HDEL
    assert_eq!(mock_db.hdel_user("user_id", "field1"), true);
    assert_eq!(mock_db.hget_user("user_id", "field1"), None);

    // Test non-existing key
    assert_eq!(mock_db.hget_user("non_existent", "field1"), None);

    // Test non-existing field
    assert_eq!(mock_db.hget_user("user_id", "non_existent"), None);
}

#[test]
fn hset_overwrites_the_same_field() {
    let mut db = MockRedisDatabase::new();
    db.hset_user("k", "f", user_data("a", "b"));
    db.hset_user("k", "f", user_data("c", "d"));
    assert_eq!(db.hget_user("k", "f"), Some(user_data("c", "d")));
}

#[test]
fn hset_keeps_other_fields_and_keys() {
    let mut db = MockRedisDatabase::new();
    db.hset_user("k", "f1", user_data("a", "b"));
    db.hset_user("k", "f2", user_data("c", "d"));
    db.hset_user("k2", "f1", user_data("e", "f"));
    assert_eq!(db.hget_user("k", "f1"), Some(user_data("a", "b")));
    assert_eq!(db.hget_user("k", "f2"), Some(user_data("c", "d")));
    assert_eq!(db.hget_user("k2", "f1"), Some(user_data("e", "f")));
    assert_eq!(db.hget_user("k2", "f2"), None);
}

#[test]
fn hdel_keeps_other_fields() {
    let mut db = MockRedisDatabase::new();
    db.hset_user("k", "f1", user_data("a", "b"));
    db.hset_user("k", "f2", user_data("c", "d"));
    assert!(db.hdel_user("k", "f1"));
    assert_eq!(db.hget_user("k", "f1"), None);
    assert_eq!(db.hget_user("k", "f2"), Some(user_data("c", "d")));
}

#[test]
fn hdel_reports_whether_the_key_exists() {
    let mut db = MockRedisDatabase::new();
    assert!(!db.hdel_user("k", "f"));
    db.hset_user("k", "f", user_data("a", "b"));
    // an absent field of a present key still reports true
    assert!(db.hdel_user("k", "other"));
    assert!(db.hdel_user("k", "f"));
    // the key keeps its emptied hash
    assert!(db.hdel_user("k", "f"));
    assert!(!db.hdel_user("missing", "f"));
}

#[test]
fn fresh_database_reads_nothing() {
    let db = MockRedisDatabase::new();
    assert_eq!(db.hget_user("k", "f"), None);
}
