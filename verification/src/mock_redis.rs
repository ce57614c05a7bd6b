use vstd::prelude::*;
use crate::keyed_list::KeyedList;
use crate::user::UserView;

verus! {

/// A user record as the in-memory Redis stand-in stores it.
#[derive(Debug, PartialEq, Eq)]
pub struct UserData {
    pub name: String,
    pub lastname: String,
}

impl View for UserData {
    type V = UserView;

    open spec fn view(&self) -> UserView {
        UserView { name: self.name@, lastname: self.lastname@ }
    }
}

impl Clone for UserData {
    fn clone(&self) -> (r: Self)
        ensures
            r == *self,
    {
        UserData { name: self.name.clone(), lastname: self.lastname.clone() }
    }
}

/// The contents of a set of Redis hashes: each key maps to its hash, a map
/// from field to value.
pub type HashesView = Map<Seq<char>, Map<Seq<char>, UserView>>;

/// The hashes after `HSET key field value`: the key's hash (an empty one if
/// the key had none) with `field` set to `value`.
pub open spec fn hset_spec(db: HashesView, key: Seq<char>, field: Seq<char>, value: UserView) -> HashesView {
    let hash = if db.contains_key(key) {
        db[key]
    } else {
        Map::empty()
    };
    db.insert(key, hash.insert(field, value))
}

/// What `HGET key field` reads: the value of `field` in the key's hash.
pub open spec fn hget_spec(db: HashesView, key: Seq<char>, field: Seq<char>) -> Option<UserView> {
    if db.contains_key(key) && db[key].contains_key(field) {
        Some(db[key][field])
    } else {
        None
    }
}

/// The hashes after deleting `field` from the key's hash; a key without a
/// hash is left as it is, and a key whose hash becomes empty keeps it.
pub open spec fn hdel_spec(db: HashesView, key: Seq<char>, field: Seq<char>) -> HashesView {
    if db.contains_key(key) {
        db.insert(key, db[key].remove(field))
    } else {
        db
    }
}

/// A read gives back what the last write to the same key and field wrote.
pub proof fn lemma_hget_after_hset(db: HashesView, key: Seq<char>, field: Seq<char>, value: UserView)
    ensures
        hget_spec(hset_spec(db, key, field, value), key, field) == Some(value),
{
}

/// A write to one key and field leaves what every other key and field reads.
pub proof fn lemma_hset_keeps_others(
    db: HashesView,
    key: Seq<char>,
    field: Seq<char>,
    value: UserView,
    other_key: Seq<char>,
    other_field: Seq<char>,
)
    requires
        other_key != key || other_field != field,
    ensures
        hget_spec(hset_spec(db, key, field, value), other_key, other_field) == hget_spec(
            db,
            other_key,
            other_field,
        ),
{
}

/// After a deletion the deleted field reads as absent.
pub proof fn lemma_hget_after_hdel(db: HashesView, key: Seq<char>, field: Seq<char>)
    ensures
        hget_spec(hdel_spec(db, key, field), key, field) is None,
{
}

/// A deletion leaves what every other key and field reads.
pub proof fn lemma_hdel_keeps_others(
    db: HashesView,
    key: Seq<char>,
    field: Seq<char>,
    other_key: Seq<char>,
    other_field: Seq<char>,
)
    requires
        other_key != key || other_field != field,
    ensures
        hget_spec(hdel_spec(db, key, field), other_key, other_field) == hget_spec(
            db,
            other_key,
            other_field,
        ),
{
}

/// Once a key has been written, it has a hash for good: deleting any of its
/// fields reports success, and the key keeps its (perhaps empty) hash.
pub proof fn lemma_key_stays_after_hset(
    db: HashesView,
    key: Seq<char>,
    field: Seq<char>,
    value: UserView,
    deleted: Seq<char>,
)
    ensures
        hset_spec(db, key, field, value).contains_key(key),
        hdel_spec(hset_spec(db, key, field, value), key, deleted).contains_key(key),
{
}

/// A fresh database reads every key and field as absent.
pub proof fn lemma_empty_reads_nothing(key: Seq<char>, field: Seq<char>)
    ensures
        hget_spec(HashesView::empty(), key, field) is None,
{
}

/// An in-memory stand-in for the Redis hashes that hold user records.
pub struct MockRedisDatabase {
    data: KeyedList<KeyedList<UserData>>,
}

impl View for MockRedisDatabase {
    type V = HashesView;

    closed spec fn view(&self) -> HashesView {
        self.data.stored().map_values(|hash: KeyedList<UserData>| hash.stored().map_values(|u: UserData| u@))
    }
}

impl MockRedisDatabase {
    /// A database with no hashes.
    pub fn new() -> (r: Self)
        ensures
            r@ == HashesView::empty(),
    {
        let r = MockRedisDatabase { data: KeyedList::new() };
        assert(r@ =~= HashesView::empty());
        r
    }

    /// `HSET key field user_data`.
    pub fn hset_user(&mut self, key: &str, field: &str, user_data: UserData)
        ensures
            final(self)@ == hset_spec(old(self)@, key@, field@, user_data@),
    {
        let key = key.to_owned();
        let field = field.to_owned();
        let mut hash = match self.data.take(&key) {
            Some(hash) => hash,
            None => KeyedList::new(),
        };
        let ghost pre_hash = hash;
        hash.insert(field, user_data);
        self.data.insert(key, hash);
        proof {
            let pre = old(self);
            let k = key@;
            let f = field@;
            let before = if pre@.contains_key(k) {
                pre@[k]
            } else {
                Map::empty()
            };
            assert(pre_hash.stored().map_values(|u: UserData| u@) =~= before);
            assert(self@[k] =~= before.insert(f, user_data@));
            assert(self@ =~= hset_spec(pre@, k, f, user_data@));
        }
    }

    /// `HGET key field`: a copy of the stored record, if any.
    pub fn hget_user(&self, key: &str, field: &str) -> (r: Option<UserData>)
        ensures
            match (r, hget_spec(self@, key@, field@)) {
                (Some(u), Some(v)) => u@ == v,
                (None, None) => true,
                (_, _) => false,
            },
    {
        let key = key.to_owned();
        let field = field.to_owned();
        match self.data.get(&key) {
            Some(hash) => match hash.get(&field) {
                Some(u) => Some(u.clone()),
                None => None,
            },
            None => None,
        }
    }

    /// `HDEL key field`: removes the field from the key's hash and tells
    /// whether the key has a hash at all (whether or not it held the field).
    pub fn hdel_user(&mut self, key: &str, field: &str) -> (r: bool)
        ensures
            r == old(self)@.contains_key(key@),
            final(self)@ == hdel_spec(old(self)@, key@, field@),
    {
        let key = key.to_owned();
        let field = field.to_owned();
        match self.data.take(&key) {
            Some(mut hash) => {
                let ghost pre_hash = hash;
                let _ = hash.take(&field);
                self.data.insert(key, hash);
                proof {
                    let pre = old(self);
                    let k = key@;
                    let f = field@;
                    assert(pre_hash.stored().map_values(|u: UserData| u@) =~= pre@[k]);
                    assert(self@[k] =~= pre@[k].remove(f));
                    assert(self@ =~= hdel_spec(pre@, k, f));
                }
                true
            },
            None => {
                proof {
                    assert(self.data.stored() =~= old(self).data.stored());
                }
                false
            },
        }
    }
}

} // verus!
