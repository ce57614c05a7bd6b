# user_service

A small HTTP service that keeps user records in a Redis hash, with its logic
verified by Verus.

- `src/` — the verified library: the JSON form of users (`json`, `user`), the
  Redis commands each user operation issues and how it decides on their replies
  (`user_functions`), the HTTP replies of each route (`routes`), the
  bookkeeping of the connection pool (`connection_pool`), the TLS setup from
  the bytes of the certificate and key files (`tls`), and an in-memory stand-in for Redis hashes (`mock_redis`, built
  on `keyed_list`).
- `app/` — the server: actix-web handlers, the Redis connections and the
  waiting clients, TLS files, and the serde forms of the request bodies.
- `tests/` — tests of the library.

The in-memory stand-in keeps its hashes in `KeyedList`, a vector of entries
with no key twice, rather than in `HashMap<String, _>` or
`BTreeMap<String, _>`: vstd specifies those maps only for keys that obey its
key model (`obeys_key_model`, `key_obeys_cmp_spec`), and it establishes that
for integer and boolean keys, not for `String`. vstd's `StringHashMap` has
`String` keys, but it neither hands a stored value back by value on removal nor
lends it mutably, which updating a hash nested inside another requires.
