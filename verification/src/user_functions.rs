use vstd::prelude::*;
use vstd::string::*;
use crate::user::{
    User, TransformedUser, UserView, TransformedUserView, user_json, user_to_json, read_user_json,
    lemma_user_json_reads_back,
};

verus! {

/// The Redis hash that holds every user, keyed by user id.
pub open spec fn users_key() -> Seq<char> {
    "users"@
}

/// The name of the Redis hash that holds the users.
pub fn users_hash() -> (r: String)
    ensures
        r@ == users_key(),
{
    String::from_str("users")
}

/// A command on a Redis hash, as text.
pub enum RedisCommandView {
    HSet { key: Seq<char>, field: Seq<char>, value: Seq<char> },
    HGet { key: Seq<char>, field: Seq<char> },
    HDel { key: Seq<char>, field: Seq<char> },
    HGetAll { key: Seq<char> },
}

/// A command on a Redis hash that the user functions ask the caller to run.
#[derive(Debug)]
pub enum RedisCommand {
    HSet { key: String, field: String, value: String },
    HGet { key: String, field: String },
    HDel { key: String, field: String },
    HGetAll { key: String },
}

impl View for RedisCommand {
    type V = RedisCommandView;

    open spec fn view(&self) -> RedisCommandView {
        match self {
            RedisCommand::HSet { key, field, value } => RedisCommandView::HSet {
                key: key@,
                field: field@,
                value: value@,
            },
            RedisCommand::HGet { key, field } => RedisCommandView::HGet { key: key@, field: field@ },
            RedisCommand::HDel { key, field } => RedisCommandView::HDel { key: key@, field: field@ },
            RedisCommand::HGetAll { key } => RedisCommandView::HGetAll { key: key@ },
        }
    }
}

/// What an operation comes to: a value at once, or a command to run
/// (whose failure aborts the operation) and then the value.
#[derive(Debug)]
pub enum Outcome<T> {
    Done(T),
    Then(RedisCommand, T),
}

/// The command that stores `user`, as JSON, under `user_id` in the users hash.
pub open spec fn store_user_command(user_id: Seq<char>, user: UserView) -> RedisCommandView {
    RedisCommandView::HSet { key: users_key(), field: user_id, value: user_json(user) }
}

/// The command that reads the stored JSON of `user_id` from the users hash.
pub open spec fn lookup_user_command(user_id: Seq<char>) -> RedisCommandView {
    RedisCommandView::HGet { key: users_key(), field: user_id }
}

/// The command that removes `user_id` from the users hash.
pub open spec fn delete_user_command(user_id: Seq<char>) -> RedisCommandView {
    RedisCommandView::HDel { key: users_key(), field: user_id }
}

/// The command that reads the whole users hash.
pub open spec fn list_users_command() -> RedisCommandView {
    RedisCommandView::HGetAll { key: users_key() }
}

/// The contents of Redis hashes as text: each key's hash maps fields to values.
pub type RedisHashes = Map<Seq<char>, Map<Seq<char>, Seq<char>>>;

/// What a command leaves in the hashes: `HSET` sets the field in the key's
/// hash (made if missing), `HDEL` removes the field, and reads change nothing.
pub open spec fn after_command(db: RedisHashes, cmd: RedisCommandView) -> RedisHashes {
    match cmd {
        RedisCommandView::HSet { key, field, value } => {
            let hash = if db.contains_key(key) {
                db[key]
            } else {
                Map::empty()
            };
            db.insert(key, hash.insert(field, value))
        },
        RedisCommandView::HDel { key, field } => if db.contains_key(key) {
            db.insert(key, db[key].remove(field))
        } else {
            db
        },
        _ => db,
    }
}

/// What an `HGET` command reads from the hashes (nothing, for another command).
pub open spec fn read_field(db: RedisHashes, cmd: RedisCommandView) -> Option<Seq<char>> {
    match cmd {
        RedisCommandView::HGet { key, field } => if db.contains_key(key) && db[key].contains_key(field) {
            Some(db[key][field])
        } else {
            None
        },
        _ => None,
    }
}

/// After a user is stored under an id, looking that id up finds the user's
/// JSON, and that JSON reads back as exactly the user's names.
pub proof fn lemma_stored_user_is_found(db: RedisHashes, user_id: Seq<char>, user: UserView)
    ensures
        read_field(after_command(db, store_user_command(user_id, user)), lookup_user_command(user_id))
            == Some(user_json(user)),
        read_user_json(user_json(user)) == Some(user),
{
    lemma_user_json_reads_back(user);
}

/// Storing a user leaves what every other id looks up.
pub proof fn lemma_store_keeps_other_users(db: RedisHashes, user_id: Seq<char>, user: UserView, other: Seq<char>)
    requires
        other != user_id,
    ensures
        read_field(after_command(db, store_user_command(user_id, user)), lookup_user_command(other))
            == read_field(db, lookup_user_command(other)),
{
}

/// After a user is deleted, looking its id up finds nothing.
pub proof fn lemma_deleted_user_is_gone(db: RedisHashes, user_id: Seq<char>)
    ensures
        read_field(after_command(db, delete_user_command(user_id)), lookup_user_command(user_id)) is None,
{
}

/// Deleting a user leaves what every other id looks up.
pub proof fn lemma_delete_keeps_other_users(db: RedisHashes, user_id: Seq<char>, other: Seq<char>)
    requires
        other != user_id,
    ensures
        read_field(after_command(db, delete_user_command(user_id)), lookup_user_command(other))
            == read_field(db, lookup_user_command(other)),
{
}

/// Creating a user is one command: store its JSON under its id.
pub fn create_user(user_id: &String, user: &User) -> (cmd: RedisCommand)
    ensures
        cmd@ == store_user_command(user_id@, user@),
{
    RedisCommand::HSet { key: users_hash(), field: user_id.clone(), value: user_to_json(user) }
}

/// The lookup that updating, deleting and reading a user start with.
pub fn lookup_user(user_id: &String) -> (cmd: RedisCommand)
    ensures
        cmd@ == lookup_user_command(user_id@),
{
    RedisCommand::HGet { key: users_hash(), field: user_id.clone() }
}

/// The lookup that listing the users starts with.
pub fn list_users() -> (cmd: RedisCommand)
    ensures
        cmd@ == list_users_command(),
{
    RedisCommand::HGetAll { key: users_hash() }
}

/// Updating a user, given what its lookup gave: a failed lookup, or no stored
/// user, gives `None` at once; a stored user is overwritten with `user` and
/// the update gives `Some("")`.
pub fn update_user(user_id: &String, user: &User, lookup: Result<Option<String>, ()>) -> (r: Outcome<Option<String>>)
    ensures
        match (lookup, r) {
            (Ok(Some(_)), Outcome::Then(cmd, Some(s))) => cmd@ == store_user_command(user_id@, user@) && s@ == Seq::<char>::empty(),
            (Ok(Some(_)), _) => false,
            (_, Outcome::Done(None)) => true,
            (_, _) => false,
        },
{
    match lookup {
        Ok(Some(_)) => Outcome::Then(create_user(user_id, user), Some(String::new())),
        _ => Outcome::Done(None),
    }
}

/// Deleting a user, given what its lookup gave: a failed lookup, or no stored
/// user, gives `None` at once; a stored user is removed and the deletion gives
/// `Some("")`.
pub fn delete_user(user_id: &String, lookup: Result<Option<String>, ()>) -> (r: Outcome<Option<String>>)
    ensures
        match (lookup, r) {
            (Ok(Some(_)), Outcome::Then(cmd, Some(s))) => cmd@ == delete_user_command(user_id@) && s@ == Seq::<char>::empty(),
            (Ok(Some(_)), _) => false,
            (_, Outcome::Done(None)) => true,
            (_, _) => false,
        },
{
    match lookup {
        Ok(Some(_)) => Outcome::Then(
            RedisCommand::HDel { key: users_hash(), field: user_id.clone() },
            Some(String::new()),
        ),
        _ => Outcome::Done(None),
    }
}

/// Reading a user, given its stored JSON already parsed (`None`: nothing was
/// stored; `Some(None)`: what was stored is no user): the user, if there is
/// one.
pub fn get_user(stored: Option<Option<User>>) -> (r: Option<User>)
    ensures
        match stored {
            Some(Some(u)) => r == Some(u),
            _ => r is None,
        },
{
    match stored {
        Some(parsed) => parsed,
        None => None,
    }
}

/// A listed user: the id beside the stored names, the last name as surname.
pub open spec fn transform_user(id: Seq<char>, user: UserView) -> TransformedUserView {
    TransformedUserView { id, name: user.name, surname: user.lastname }
}

/// Listing the users, given the hash's entries with their JSON parsed: an
/// empty hash gives `Err(())`; otherwise each entry, in order, as a listed
/// user.
pub fn get_users(entries: &Vec<(String, User)>) -> (r: Result<Vec<TransformedUser>, ()>)
    ensures
        match r {
            Err(()) => entries@.len() == 0,
            Ok(list) => {
                &&& entries@.len() > 0
                &&& list@.len() == entries@.len()
                &&& forall|i: int| 0 <= i < list@.len() ==> #[trigger] list@[i]@ == transform_user(
                    entries@[i].0@,
                    entries@[i].1@,
                )
            },
        },
{
    if entries.len() == 0 {
        return Err(());
    }
    let mut list: Vec<TransformedUser> = Vec::new();
    let mut i: usize = 0;
    while i < entries.len()
        invariant
            i <= entries@.len(),
            list@.len() == i,
            forall|j: int| 0 <= j < i ==> #[trigger] list@[j]@ == transform_user(
                entries@[j].0@,
                entries@[j].1@,
            ),
        decreases entries@.len() - i,
    {
        let entry = &entries[i];
        list.push(TransformedUser {
            id: entry.0.clone(),
            name: entry.1.name.clone(),
            surname: entry.1.lastname.clone(),
        });
        i = i + 1;
    }
    Ok(list)
}

} // verus!
