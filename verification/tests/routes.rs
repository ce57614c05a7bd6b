use user_service::routes::{
    index, user, user_delete, user_patch, user_post, user_put, users, HttpReply, PatchStep,
};
use user_service::user::{TransformedUser, User};
use user_service::user_functions::{Outcome, RedisCommand};

fn u(name: &str, lastname: &str) -> User {
    User { name: name.to_string(), lastname: lastname.to_string() }
}

fn check(reply: &HttpReply, status: u16, content_type: Option<&str>, body: &str) {
    assert_eq!(reply.status, status);
    assert_eq!(reply.content_type.as_deref(), content_type);
    assert_eq!(reply.body, body);
}

#[test]
fn index_page() {
    check(
        &index(),
        200,
        Some("text/html; charset=utf-8"),
        "<!DOCTYPE html><html><body><p>Welcome to your TLS-secured homepage!</p></body></html>",
    );
}

#[test]
fn post_and_put_store_then_reply_no_content() {
    for outcome in [user_post(&"5".to_string(), u("a", "b")), user_put(&"5".to_string(), u("a", "b"))] {
        match outcome {
            Outcome::Then(RedisCommand::HSet { key, field, value }, reply) => {
                assert_eq!(key, "users");
                assert_eq!(field, "5");
                assert_eq!(value, "{\"name\":\"a\",\"lastname\":\"b\"}");
                check(&reply, 204, None, "");
            }
            other => panic!("unexpected outcome {:?}", other),
        }
    }
}

fn refused(step: PatchStep) {
    match step {
        PatchStep::Finish(Outcome::Done(reply)) => check(&reply, 400, Some("plaintext"), "Name and lastname are required"),
        other => panic!("unexpected step {:?}", other),
    }
}

#[test]
fn patch_requires_both_names() {
    let id = "1".to_string();
    // refused before any lookup, and whatever a lookup would have said
    refused(user_patch(&id, &u("", "b"), None));
    refused(user_patch(&id, &u("a", ""), None));
    refused(user_patch(&id, &u("", ""), Some(Ok(Some("{}".to_string())))));
}

#[test]
fn patch_looks_up_first() {
    match user_patch(&"1".to_string(), &u("a", "b"), None) {
        PatchStep::Lookup(RedisCommand::HGet { key, field }) => {
            assert_eq!(key, "users");
            assert_eq!(field, "1");
        }
        other => panic!("unexpected step {:?}", other),
    }
}

#[test]
fn patch_overwrites_existing_user() {
    match user_patch(&"1".to_string(), &u("a", "b"), Some(Ok(Some("{}".to_string())))) {
        PatchStep::Finish(Outcome::Then(RedisCommand::HSet { key, field, value }, reply)) => {
            assert_eq!(key, "users");
            assert_eq!(field, "1");
            assert_eq!(value, "{\"name\":\"a\",\"lastname\":\"b\"}");
            check(&reply, 204, None, "");
        }
        other => panic!("unexpected step {:?}", other),
    }
}

#[test]
fn patch_of_missing_user() {
    for lookup in [Ok(None), Err(())] {
        match user_patch(&"1".to_string(), &u("a", "b"), Some(lookup)) {
            PatchStep::Finish(Outcome::Done(reply)) => check(&reply, 400, Some("plaintext"), "User does not exist"),
            other => panic!("unexpected step {:?}", other),
        }
    }
}

#[test]
fn delete_reply() {
    check(&user_delete(&Some(String::new())), 204, None, "");
    check(&user_delete(&None), 400, Some("plaintext"), "User not exist");
}

#[test]
fn get_one_reply() {
    check(&user(&Some(u("John", "Doe"))), 200, Some("application/json"), "{\"name\":\"John\",\"lastname\":\"Doe\"}");
    check(&user(&None), 400, Some("plaintext"), "User does not exist");
}

#[test]
fn get_all_reply() {
    let list = vec![TransformedUser { id: "1".to_string(), name: "a".to_string(), surname: "b".to_string() }];
    check(&users(&Ok(list)), 200, Some("application/json"), "[{\"id\":\"1\",\"name\":\"a\",\"surname\":\"b\"}]");
    check(&users(&Err(())), 200, Some("application/json"), "[]");
}
