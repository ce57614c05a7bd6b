use vstd::prelude::*;
use vstd::string::*;
use crate::json::{json_string, quote_json, read_json_string, lemma_read_json_string};

verus! {

/// What a user record holds, as text.
pub struct UserView {
    pub name: Seq<char>,
    pub lastname: Seq<char>,
}

/// A user as it is posted and stored.
#[derive(Debug)]
pub struct User {
    pub name: String,
    pub lastname: String,
}

impl View for User {
    type V = UserView;

    open spec fn view(&self) -> UserView {
        UserView { name: self.name@, lastname: self.lastname@ }
    }
}

/// What a listed user holds, as text.
pub struct TransformedUserView {
    pub id: Seq<char>,
    pub name: Seq<char>,
    pub surname: Seq<char>,
}

/// A user as the listing shows it: its id beside its names.
#[derive(Debug)]
pub struct TransformedUser {
    pub id: String,
    pub name: String,
    pub surname: String,
}

impl View for TransformedUser {
    type V = TransformedUserView;

    open spec fn view(&self) -> TransformedUserView {
        TransformedUserView { id: self.id@, name: self.name@, surname: self.surname@ }
    }
}

/// The JSON object for a user: `{"name":..,"lastname":..}`, fields in
/// declaration order, compact.
pub open spec fn user_json(u: UserView) -> Seq<char> {
    "{\"name\":"@ + json_string(u.name) + ",\"lastname\":"@ + json_string(u.lastname) + "}"@
}

/// The JSON object for a listed user: `{"id":..,"name":..,"surname":..}`.
pub open spec fn transformed_user_json(t: TransformedUserView) -> Seq<char> {
    "{\"id\":"@ + json_string(t.id) + ",\"name\":"@ + json_string(t.name) + ",\"surname\":"@
        + json_string(t.surname) + "}"@
}

/// The listed users' objects, separated by commas.
pub open spec fn transformed_items_json(s: Seq<TransformedUser>) -> Seq<char>
    decreases s.len(),
{
    if s.len() == 0 {
        Seq::empty()
    } else if s.len() == 1 {
        transformed_user_json(s[0]@)
    } else {
        transformed_items_json(s.drop_last()) + ","@ + transformed_user_json(s.last()@)
    }
}

/// The JSON array of listed users.
pub open spec fn transformed_list_json(s: Seq<TransformedUser>) -> Seq<char> {
    "["@ + transformed_items_json(s) + "]"@
}

/// The text after `prefix`, if `t` starts with it.
pub open spec fn strip_prefix(t: Seq<char>, prefix: Seq<char>) -> Option<Seq<char>> {
    if t.len() >= prefix.len() && t.take(prefix.len() as int) == prefix {
        Some(t.skip(prefix.len() as int))
    } else {
        None
    }
}

/// Reads a user's JSON object back: the two names, if `t` is such an object.
pub open spec fn read_user_json(t: Seq<char>) -> Option<UserView> {
    match strip_prefix(t, "{\"name\":"@) {
        None => None,
        Some(r0) => match read_json_string(r0) {
            None => None,
            Some((name, r1)) => match strip_prefix(r1, ",\"lastname\":"@) {
                None => None,
                Some(r2) => match read_json_string(r2) {
                    None => None,
                    Some((lastname, r3)) => if r3 == "}"@ {
                        Some(UserView { name, lastname })
                    } else {
                        None
                    },
                },
            },
        },
    }
}

/// Reads a listed user's JSON object back, if `t` is such an object.
pub open spec fn read_transformed_user_json(t: Seq<char>) -> Option<TransformedUserView> {
    match strip_prefix(t, "{\"id\":"@) {
        None => None,
        Some(r0) => match read_json_string(r0) {
            None => None,
            Some((id, r1)) => match strip_prefix(r1, ",\"name\":"@) {
                None => None,
                Some(r2) => match read_json_string(r2) {
                    None => None,
                    Some((name, r3)) => match strip_prefix(r3, ",\"surname\":"@) {
                        None => None,
                        Some(r4) => match read_json_string(r4) {
                            None => None,
                            Some((surname, r5)) => if r5 == "}"@ {
                                Some(TransformedUserView { id, name, surname })
                            } else {
                                None
                            },
                        },
                    },
                },
            },
        },
    }
}

proof fn lemma_strip_prefix(prefix: Seq<char>, rest: Seq<char>)
    ensures
        strip_prefix(prefix + rest, prefix) == Some(rest),
{
    assert((prefix + rest).take(prefix.len() as int) =~= prefix);
    assert((prefix + rest).skip(prefix.len() as int) =~= rest);
}

/// A stored user's JSON reads back as exactly that user's two names.
pub proof fn lemma_user_json_reads_back(u: UserView)
    ensures
        read_user_json(user_json(u)) == Some(u),
{
    let p = "{\"name\":"@;
    let q = ",\"lastname\":"@;
    let z = "}"@;
    let tail = q + json_string(u.lastname) + z;
    assert(user_json(u) =~= p + (json_string(u.name) + tail));
    lemma_strip_prefix(p, json_string(u.name) + tail);
    lemma_read_json_string(u.name, tail);
    assert(tail =~= q + (json_string(u.lastname) + z));
    lemma_strip_prefix(q, json_string(u.lastname) + z);
    lemma_read_json_string(u.lastname, z);
}

/// A listed user's JSON reads back as exactly its id, name and surname.
pub proof fn lemma_transformed_user_json_reads_back(t: TransformedUserView)
    ensures
        read_transformed_user_json(transformed_user_json(t)) == Some(t),
{
    let p = "{\"id\":"@;
    let q = ",\"name\":"@;
    let w = ",\"surname\":"@;
    let z = "}"@;
    let tail2 = w + json_string(t.surname) + z;
    let tail1 = q + json_string(t.name) + tail2;
    assert(transformed_user_json(t) =~= p + (json_string(t.id) + tail1));
    lemma_strip_prefix(p, json_string(t.id) + tail1);
    lemma_read_json_string(t.id, tail1);
    assert(tail1 =~= q + (json_string(t.name) + tail2));
    lemma_strip_prefix(q, json_string(t.name) + tail2);
    lemma_read_json_string(t.name, tail2);
    assert(tail2 =~= w + (json_string(t.surname) + z));
    lemma_strip_prefix(w, json_string(t.surname) + z);
    lemma_read_json_string(t.surname, z);
}

/// A listing is an array: `[`, the users' objects, `]`.
pub proof fn lemma_list_json_is_array(s: Seq<TransformedUser>)
    ensures
        transformed_list_json(s) == "["@ + transformed_items_json(s) + "]"@,
        transformed_list_json(s).len() >= 2,
        transformed_list_json(s)[0] == '[',
        transformed_list_json(s).last() == ']',
{
    reveal_strlit("[");
    reveal_strlit("]");
}

/// An empty listing is the empty array.
pub proof fn lemma_list_json_empty()
    ensures
        transformed_list_json(Seq::<TransformedUser>::empty()) == "["@ + "]"@,
{
    assert("["@ + Seq::<char>::empty() + "]"@ =~= "["@ + "]"@);
}

/// A listing of one user is that user's object alone.
pub proof fn lemma_list_items_single(t: TransformedUser)
    ensures
        transformed_items_json(seq![t]) == transformed_user_json(t@),
{
}

/// Adding a user to a non-empty listing adds one comma and that user's
/// object at the end, whatever the listing's length.
pub proof fn lemma_list_items_push(s: Seq<TransformedUser>, t: TransformedUser)
    requires
        s.len() > 0,
    ensures
        transformed_items_json(s.push(t)) == transformed_items_json(s) + ","@ + transformed_user_json(t@),
{
    assert(s.push(t).drop_last() =~= s);
}

/// Writes a user as JSON.
pub fn user_to_json(user: &User) -> (r: String)
    ensures
        r@ == user_json(user@),
{
    let mut out = String::new();
    out.append("{\"name\":");
    let name = quote_json(&user.name);
    out.append(name.as_str());
    out.append(",\"lastname\":");
    let lastname = quote_json(&user.lastname);
    out.append(lastname.as_str());
    out.append("}");
    out
}

/// Writes one listed user as JSON.
pub fn transformed_user_to_json(t: &TransformedUser) -> (r: String)
    ensures
        r@ == transformed_user_json(t@),
{
    let mut out = String::new();
    out.append("{\"id\":");
    let id = quote_json(&t.id);
    out.append(id.as_str());
    out.append(",\"name\":");
    let name = quote_json(&t.name);
    out.append(name.as_str());
    out.append(",\"surname\":");
    let surname = quote_json(&t.surname);
    out.append(surname.as_str());
    out.append("}");
    out
}

/// Writes a list of listed users as a JSON array.
pub fn transformed_list_to_json(list: &Vec<TransformedUser>) -> (r: String)
    ensures
        r@ == transformed_list_json(list@),
{
    let mut items = String::new();
    let mut i: usize = 0;
    while i < list.len()
        invariant
            i <= list.len(),
            items@ == transformed_items_json(list@.take(i as int)),
        decreases list.len() - i,
    {
        let ghost prefix = list@.take(i as int);
        let ghost next = list@.take(i as int + 1);
        assert(next.drop_last() == prefix);
        assert(next.last() == list@[i as int]);
        if i > 0 {
            items.append(",");
        }
        let one = transformed_user_to_json(&list[i]);
        items.append(one.as_str());
        i = i + 1;
    }
    assert(list@.take(list.len() as int) == list@);
    let mut out = String::new();
    out.append("[");
    out.append(items.as_str());
    out.append("]");
    out
}

} // verus!
