use vstd::prelude::*;
use vstd::string::*;
use crate::user::{User, UserView, TransformedUser, user_json, user_to_json, transformed_list_json, transformed_list_to_json};
use crate::user_functions::{
    Outcome, RedisCommand, create_user, lookup_user, lookup_user_command, store_user_command, update_user,
};

verus! {

/// An HTTP reply, as text.
pub struct HttpReplyView {
    pub status: u16,
    pub content_type: Option<Seq<char>>,
    pub body: Seq<char>,
}

/// An HTTP reply: status code, content type (if one is set) and body.
#[derive(Debug)]
pub struct HttpReply {
    pub status: u16,
    pub content_type: Option<String>,
    pub body: String,
}

impl View for HttpReply {
    type V = HttpReplyView;

    open spec fn view(&self) -> HttpReplyView {
        HttpReplyView {
            status: self.status,
            content_type: match self.content_type {
                Some(t) => Some(t@),
                None => None,
            },
            body: self.body@,
        }
    }
}

/// `204 No Content`, with no content type and an empty body.
pub open spec fn no_content() -> HttpReplyView {
    HttpReplyView { status: 204, content_type: None, body: Seq::empty() }
}

/// `400 Bad Request` with a plain-text message.
pub open spec fn bad_request(message: Seq<char>) -> HttpReplyView {
    HttpReplyView { status: 400, content_type: Some("plaintext"@), body: message }
}

/// `200 OK` with a JSON body.
pub open spec fn ok_json(body: Seq<char>) -> HttpReplyView {
    HttpReplyView { status: 200, content_type: Some("application/json"@), body }
}

/// The home page's HTML.
pub open spec fn home_page() -> Seq<char> {
    "<!DOCTYPE html><html><body><p>Welcome to your TLS-secured homepage!</p></body></html>"@
}

fn no_content_reply() -> (r: HttpReply)
    ensures
        r@ == no_content(),
{
    HttpReply { status: 204, content_type: None, body: String::new() }
}

fn bad_request_reply(message: &str) -> (r: HttpReply)
    ensures
        r@ == bad_request(message@),
{
    HttpReply {
        status: 400,
        content_type: Some(String::from_str("plaintext")),
        body: String::from_str(message),
    }
}

fn ok_json_reply(body: String) -> (r: HttpReply)
    ensures
        r@ == ok_json(body@),
{
    HttpReply { status: 200, content_type: Some(String::from_str("application/json")), body }
}

/// The home page: `200 OK`, HTML.
pub fn index() -> (r: HttpReply)
    ensures
        r@ == (HttpReplyView {
            status: 200,
            content_type: Some("text/html; charset=utf-8"@),
            body: home_page(),
        }),
{
    HttpReply {
        status: 200,
        content_type: Some(String::from_str("text/html; charset=utf-8")),
        body: String::from_str(
            "<!DOCTYPE html><html><body><p>Welcome to your TLS-secured homepage!</p></body></html>",
        ),
    }
}

/// `POST /users/{id}`: store the posted user under the id, then `204`.
pub fn user_post(user_id: &String, user: User) -> (r: Outcome<HttpReply>)
    ensures
        r matches Outcome::Then(cmd, reply) && cmd@ == store_user_command(user_id@, user@) && reply@
            == no_content(),
{
    let new_user = User { name: user.name, lastname: user.lastname };
    Outcome::Then(create_user(user_id, &new_user), no_content_reply())
}

/// `PUT /users/{id}`: store the given user under the id, then `204`.
pub fn user_put(user_id: &String, user: User) -> (r: Outcome<HttpReply>)
    ensures
        r matches Outcome::Then(cmd, reply) && cmd@ == store_user_command(user_id@, user@) && reply@
            == no_content(),
{
    let new_user = User { name: user.name, lastname: user.lastname };
    Outcome::Then(create_user(user_id, &new_user), no_content_reply())
}

/// A patch refuses a user whose name or last name is empty.
pub open spec fn patch_refused(user: UserView) -> bool {
    user.name.len() == 0 || user.lastname.len() == 0
}

/// A patch is refused exactly when the name or the last name is empty; any
/// user with two non-empty names goes on to the lookup.
pub proof fn lemma_patch_refused_exactly_on_empty_names(user: UserView)
    ensures
        patch_refused(user) <==> (user.name.len() == 0 || user.lastname.len() == 0),
        (user.name.len() > 0 && user.lastname.len() > 0) ==> !patch_refused(user),
{
}

/// The next step of `PATCH /users/{id}`: look the user up, or finish.
#[derive(Debug)]
pub enum PatchStep {
    Lookup(RedisCommand),
    Finish(Outcome<HttpReply>),
}

/// `PATCH /users/{id}`, given the lookup's reply once it has run (`None`
/// before). A user with an empty name or last name is refused with `400` at
/// once, with no lookup and no write. Otherwise the user is looked up; a
/// stored user is overwritten and the reply is `204`, and a missing user (or a
/// failed lookup) gives `400` with no write.
pub fn user_patch(user_id: &String, user: &User, lookup: Option<Result<Option<String>, ()>>) -> (r: PatchStep)
    ensures
        (user.name@.len() == 0 || user.lastname@.len() == 0) ==> (r matches PatchStep::Finish(Outcome::Done(reply)) && reply@
            == bad_request("Name and lastname are required"@)),
        user.name@.len() > 0 && user.lastname@.len() > 0 && lookup is None ==> (r matches PatchStep::Lookup(cmd) && cmd@
            == lookup_user_command(user_id@)),
        user.name@.len() > 0 && user.lastname@.len() > 0 && lookup == Some(Ok::<Option<String>, ()>(None)) ==> (r matches PatchStep::Finish(
            Outcome::Done(reply),
        ) && reply@ == bad_request("User does not exist"@)),
        user.name@.len() > 0 && user.lastname@.len() > 0 && lookup == Some(Err::<Option<String>, ()>(())) ==> (r matches PatchStep::Finish(
            Outcome::Done(reply),
        ) && reply@ == bad_request("User does not exist"@)),
        user.name@.len() > 0 && user.lastname@.len() > 0 && (lookup matches Some(Ok(Some(_)))) ==> (r matches PatchStep::Finish(
            Outcome::Then(cmd, reply),
        ) && cmd@ == store_user_command(user_id@, user@) && reply@ == no_content()),
{
    if user.name.as_str().is_empty() || user.lastname.as_str().is_empty() {
        return PatchStep::Finish(Outcome::Done(bad_request_reply("Name and lastname are required")));
    }
    match lookup {
        None => PatchStep::Lookup(lookup_user(user_id)),
        Some(found) => match update_user(user_id, user, found) {
            Outcome::Then(cmd, _) => PatchStep::Finish(Outcome::Then(cmd, no_content_reply())),
            Outcome::Done(_) => PatchStep::Finish(Outcome::Done(bad_request_reply("User does not exist"))),
        },
    }
}

/// `DELETE /users/{id}`, after the deletion: `204` if the user existed,
/// otherwise `400`.
pub fn user_delete(deleted: &Option<String>) -> (r: HttpReply)
    ensures
        deleted is Some ==> r@ == no_content(),
        deleted is None ==> r@ == bad_request("User not exist"@),
{
    match deleted {
        Some(_) => no_content_reply(),
        None => bad_request_reply("User not exist"),
    }
}

/// `GET /users/{id}`, after the read: the user as JSON, or `400` if there is
/// none.
pub fn user(found: &Option<User>) -> (r: HttpReply)
    ensures
        match found {
            Some(u) => r@ == ok_json(user_json(u@)),
            None => r@ == bad_request("User does not exist"@),
        },
{
    match found {
        Some(u) => ok_json_reply(user_to_json(u)),
        None => bad_request_reply("User does not exist"),
    }
}

/// `GET /users`, after the listing: the listed users as a JSON array, or an
/// empty array when the listing failed; `200` either way.
pub fn users(listing: &Result<Vec<TransformedUser>, ()>) -> (r: HttpReply)
    ensures
        match listing {
            Ok(list) => r@ == ok_json(transformed_list_json(list@)),
            Err(_) => r@ == ok_json("[]"@),
        },
{
    match listing {
        Ok(list) => ok_json_reply(transformed_list_to_json(list)),
        Err(_) => ok_json_reply(String::from_str("[]")),
    }
}

} // verus!
