//! The requests the client sends: one JSON object per command, naming the
//! command under "cmd" and its arguments under their own keys, and tagged
//! with a "unique_id" before it leaves so that its reply can find its way back.
use vstd::prelude::*;

use crate::errors::{client_error, is_client_error, ACIError};
use crate::json::{is_json_str, is_json_uint, Json, JsonObject};

verus! {

/// `o` holds the JSON string `v` under `k`.
pub open spec fn has_str(o: Map<Seq<char>, Json>, k: Seq<char>, v: Seq<char>) -> bool {
    o.contains_key(k) && is_json_str(o[k], v)
}

/// `o` holds the non-negative JSON integer `n` under `k`.
pub open spec fn has_uint(o: Map<Seq<char>, Json>, k: Seq<char>, n: int) -> bool {
    o.contains_key(k) && is_json_uint(o[k], n)
}

/// `o` holds exactly `v` under `k`.
pub open spec fn has_value(o: Map<Seq<char>, Json>, k: Seq<char>, v: Json) -> bool {
    o.contains_key(k) && o[k] == v
}

/// `r` is the request `{"cmd": cmd, "db_key": db_key}`.
pub open spec fn is_db_request(r: Json, cmd: Seq<char>, db_key: Seq<char>) -> bool {
    &&& r matches Json::Object(o)
    &&& o@.dom() == set!["cmd"@, "db_key"@]
    &&& has_str(o@, "cmd"@, cmd)
    &&& has_str(o@, "db_key"@, db_key)
}

/// `o` is the object `{"cmd": cmd, "db_key": db_key, "key": key}`, with
/// `extra` keys besides.
pub open spec fn is_key_object(
    o: Map<Seq<char>, Json>,
    cmd: Seq<char>,
    db_key: Seq<char>,
    key: Seq<char>,
    extra: Set<Seq<char>>,
) -> bool {
    &&& o.dom() == set!["cmd"@, "db_key"@, "key"@] + extra
    &&& has_str(o, "cmd"@, cmd)
    &&& has_str(o, "db_key"@, db_key)
    &&& has_str(o, "key"@, key)
}

/// A request object with only its command.
fn command(cmd: &str) -> (r: JsonObject)
    ensures
        r@.dom() == set![ "cmd"@ ],
        has_str(r@, "cmd"@, cmd@),
{
    let mut o = JsonObject::new();
    o.insert("cmd".to_owned(), Json::from_str(cmd));
    assert(o@.dom() =~= set!["cmd"@]);
    o
}

/// Puts the JSON string `val` under `key`.
fn put_str(o: &mut JsonObject, key: &str, val: &str)
    ensures
        final(o)@ == old(o)@.insert(key@, final(o)@[key@]),
        is_json_str(final(o)@[key@], val@),
{
    o.insert(key.to_owned(), Json::from_str(val));
}

/// Puts the JSON integer `n` under `key`.
fn put_uint(o: &mut JsonObject, key: &str, n: usize)
    ensures
        final(o)@ == old(o)@.insert(key@, final(o)@[key@]),
        is_json_uint(final(o)@[key@], n as int),
{
    o.insert(key.to_owned(), Json::from_usize(n));
}

/// The request `{"cmd": cmd, "db_key": db_key}`.
fn db_request(cmd: &str, db_key: &str) -> (r: JsonObject)
    ensures
        is_db_request(Json::Object(r), cmd@, db_key@),
{
    let mut o = command(cmd);
    put_str(&mut o, "db_key", db_key);
    proof {
        reveal_strlit("cmd");
        reveal_strlit("db_key");
        assert("cmd"@ != "db_key"@) by {
            assert("cmd"@.len() != "db_key"@.len());
        }
        assert(o@.dom() =~= set!["cmd"@, "db_key"@]);
    }
    o
}

/// The request `{"cmd": cmd, "db_key": db_key, "key": key}`.
fn key_request(cmd: &str, db_key: &str, key: &str) -> (r: JsonObject)
    ensures
        is_key_object(r@, cmd@, db_key@, key@, Set::empty()),
{
    let mut o = db_request(cmd, db_key);
    put_str(&mut o, "key", key);
    proof {
        reveal_strlit("cmd");
        reveal_strlit("db_key");
        reveal_strlit("key");
        assert("cmd"@ != "key"@) by {
            assert("cmd"@[0] != "key"@[0]);
        }
        assert("db_key"@ != "key"@) by {
            assert("db_key"@.len() != "key"@.len());
        }
        assert(o@.dom() =~= set!["cmd"@, "db_key"@, "key"@] + Set::empty());
    }
    o
}

/// The request that authenticates with acronym authentication:
/// `{"cmd": "a_auth", "id": id, "token": token}`.
pub fn auth_request(id: &str, token: &str) -> (r: Json)
    ensures
        r matches Json::Object(o) && o@.dom() == set!["cmd"@, "id"@, "token"@] && has_str(
            o@,
            "cmd"@,
            "a_auth"@,
        ) && has_str(o@, "id"@, id@) && has_str(o@, "token"@, token@),
{
    let mut o = command("a_auth");
    put_str(&mut o, "id", id);
    put_str(&mut o, "token", token);
    proof {
        reveal_strlit("cmd");
        reveal_strlit("id");
        reveal_strlit("token");
        assert("cmd"@ != "id"@) by {
            assert("cmd"@.len() != "id"@.len());
        }
        assert("cmd"@ != "token"@) by {
            assert("cmd"@.len() != "token"@.len());
        }
        assert("id"@ != "token"@) by {
            assert("id"@.len() != "token"@.len());
        }
        assert(o@.dom() =~= set!["cmd"@, "id"@, "token"@]);
    }
    Json::Object(o)
}

/// The request that reads a database from disk on the server.
pub fn read_from_disk_request(db_key: &str) -> (r: Json)
    ensures
        is_db_request(r, "read_from_disk"@, db_key@),
{
    Json::Object(db_request("read_from_disk", db_key))
}

/// The request that writes a database to disk on the server.
pub fn write_to_disk_request(db_key: &str) -> (r: Json)
    ensures
        is_db_request(r, "write_to_disk"@, db_key@),
{
    Json::Object(db_request("write_to_disk", db_key))
}

/// The request for the keys of a loaded database.
pub fn list_keys_request(db_key: &str) -> (r: Json)
    ensures
        is_db_request(r, "list_keys"@, db_key@),
{
    Json::Object(db_request("list_keys", db_key))
}

/// The request for the loaded databases: the command "list_keys" with no
/// database named.
pub fn list_databases_request() -> (r: Json)
    ensures
        r matches Json::Object(o) && o@.dom() == set!["cmd"@] && has_str(o@, "cmd"@, "list_keys"@),
{
    Json::Object(command("list_keys"))
}

/// The request that creates a database.
pub fn create_database_request(db_key: &str) -> (r: Json)
    ensures
        is_db_request(r, "create_database"@, db_key@),
{
    Json::Object(db_request("create_database", db_key))
}

/// The request for the value of a key.
pub fn get_value_request(db_key: &str, key: &str) -> (r: Json)
    ensures
        r matches Json::Object(o) && is_key_object(o@, "get_value"@, db_key@, key@, Set::empty()),
{
    Json::Object(key_request("get_value", db_key, key))
}

/// The request for the length of the list under a key.
pub fn get_list_length_request(db_key: &str, key: &str) -> (r: Json)
    ensures
        r matches Json::Object(o) && is_key_object(
            o@,
            "get_list_length"@,
            db_key@,
            key@,
            Set::empty(),
        ),
{
    Json::Object(key_request("get_list_length", db_key, key))
}

/// The keys that differ from "cmd", "db_key" and "key".
proof fn lemma_extra_keys_distinct()
    ensures
        "val"@ != "cmd"@,
        "val"@ != "db_key"@,
        "val"@ != "key"@,
        "index"@ != "cmd"@,
        "index"@ != "db_key"@,
        "index"@ != "key"@,
        "index"@ != "val"@,
        "num"@ != "cmd"@,
        "num"@ != "db_key"@,
        "num"@ != "key"@,
{
    reveal_strlit("cmd");
    reveal_strlit("db_key");
    reveal_strlit("key");
    reveal_strlit("val");
    reveal_strlit("index");
    reveal_strlit("num");
    assert("val"@[0] != "cmd"@[0]);
    assert("val"@[0] != "key"@[0]);
    assert("val"@.len() != "db_key"@.len());
    assert("index"@.len() != "cmd"@.len());
    assert("index"@.len() != "db_key"@.len());
    assert("index"@.len() != "key"@.len());
    assert("index"@.len() != "val"@.len());
    assert("num"@[0] != "cmd"@[0]);
    assert("num"@[0] != "key"@[0]);
    assert("num"@.len() != "db_key"@.len());
}

/// The request that writes `data` to a key.
pub fn set_value_request(db_key: &str, key: &str, data: Json) -> (r: Json)
    ensures
        r matches Json::Object(o) && is_key_object(o@, "set_value"@, db_key@, key@, set!["val"@])
            && has_value(o@, "val"@, data),
{
    let mut o = key_request("set_value", db_key, key);
    o.insert("val".to_owned(), data);
    proof {
        lemma_extra_keys_distinct();
        assert(o@.dom() =~= set!["cmd"@, "db_key"@, "key"@] + set!["val"@]);
    }
    Json::Object(o)
}

/// The request for the value at `index` of the list under a key.
pub fn get_index_request(db_key: &str, key: &str, index: usize) -> (r: Json)
    ensures
        r matches Json::Object(o) && is_key_object(o@, "get_index"@, db_key@, key@, set!["index"@])
            && has_uint(o@, "index"@, index as int),
{
    let mut o = key_request("get_index", db_key, key);
    put_uint(&mut o, "index", index);
    proof {
        lemma_extra_keys_distinct();
        assert(o@.dom() =~= set!["cmd"@, "db_key"@, "key"@] + set!["index"@]);
    }
    Json::Object(o)
}

/// The request that writes `data` at `index` of the list under a key.
pub fn set_index_request(db_key: &str, key: &str, index: usize, data: Json) -> (r: Json)
    ensures
        r matches Json::Object(o) && is_key_object(
            o@,
            "set_index"@,
            db_key@,
            key@,
            set!["index"@, "val"@],
        ) && has_uint(o@, "index"@, index as int) && has_value(o@, "val"@, data),
{
    let mut o = key_request("set_index", db_key, key);
    put_uint(&mut o, "index", index);
    o.insert("val".to_owned(), data);
    proof {
        lemma_extra_keys_distinct();
        assert(o@.dom() =~= set!["cmd"@, "db_key"@, "key"@] + set!["index"@, "val"@]);
    }
    Json::Object(o)
}

/// The request that appends `data` to the list under a key.
pub fn append_list_request(db_key: &str, key: &str, data: Json) -> (r: Json)
    ensures
        r matches Json::Object(o) && is_key_object(o@, "append_list"@, db_key@, key@, set!["val"@])
            && has_value(o@, "val"@, data),
{
    let mut o = key_request("append_list", db_key, key);
    o.insert("val".to_owned(), data);
    proof {
        lemma_extra_keys_distinct();
        assert(o@.dom() =~= set!["cmd"@, "db_key"@, "key"@] + set!["val"@]);
    }
    Json::Object(o)
}

/// The request for the last `n` values of the list under a key: the command
/// "get_index" with the count under "num".
pub fn get_recent_request(db_key: &str, key: &str, n: usize) -> (r: Json)
    ensures
        r matches Json::Object(o) && is_key_object(o@, "get_index"@, db_key@, key@, set!["num"@])
            && has_uint(o@, "num"@, n as int),
{
    let mut o = key_request("get_index", db_key, key);
    put_uint(&mut o, "num", n);
    proof {
        lemma_extra_keys_distinct();
        assert(o@.dom() =~= set!["cmd"@, "db_key"@, "key"@] + set!["num"@]);
    }
    Json::Object(o)
}

/// `r` is the event request `{"cmd": "event", "event_id": event_id,
/// "destination": dest, "origin": origin, "data": data}`.
pub open spec fn is_event_request(
    o: Map<Seq<char>, Json>,
    event_id: Seq<char>,
    origin: Seq<char>,
    dest: Seq<char>,
    data: Json,
) -> bool {
    &&& o.dom() == set!["cmd"@, "event_id"@, "destination"@, "origin"@, "data"@]
    &&& has_str(o, "cmd"@, "event"@)
    &&& has_str(o, "event_id"@, event_id)
    &&& has_str(o, "destination"@, dest)
    &&& has_str(o, "origin"@, origin)
    &&& has_value(o, "data"@, data)
}

/// The keys of an event request differ from one another.
pub proof fn lemma_event_keys_distinct()
    ensures
        "cmd"@ != "event_id"@,
        "cmd"@ != "destination"@,
        "cmd"@ != "origin"@,
        "cmd"@ != "data"@,
        "event_id"@ != "destination"@,
        "event_id"@ != "origin"@,
        "event_id"@ != "data"@,
        "destination"@ != "origin"@,
        "destination"@ != "data"@,
        "origin"@ != "data"@,
        "cmd"@ != "unique_id"@,
        "event_id"@ != "unique_id"@,
        "destination"@ != "unique_id"@,
        "origin"@ != "unique_id"@,
        "data"@ != "unique_id"@,
{
    reveal_strlit("cmd");
    reveal_strlit("event_id");
    reveal_strlit("destination");
    reveal_strlit("origin");
    reveal_strlit("data");
    reveal_strlit("unique_id");
    assert("cmd"@.len() != "event_id"@.len());
    assert("cmd"@.len() != "destination"@.len());
    assert("cmd"@.len() != "origin"@.len());
    assert("cmd"@.len() != "data"@.len());
    assert("event_id"@.len() != "destination"@.len());
    assert("event_id"@.len() != "origin"@.len());
    assert("event_id"@.len() != "data"@.len());
    assert("destination"@.len() != "origin"@.len());
    assert("destination"@.len() != "data"@.len());
    assert("origin"@.len() != "data"@.len());
    assert("cmd"@.len() != "unique_id"@.len());
    assert("event_id"@.len() != "unique_id"@.len());
    assert("destination"@.len() != "unique_id"@.len());
    assert("origin"@.len() != "unique_id"@.len());
    assert("data"@.len() != "unique_id"@.len());
}

/// The request that sends the event `data`, with the id `event_id`, from
/// `origin` to `dest`.
pub fn event_request(event_id: &str, origin: &str, dest: &str, data: Json) -> (r: Json)
    ensures
        r matches Json::Object(o) && is_event_request(o@, event_id@, origin@, dest@, data),
{
    let mut o = command("event");
    put_str(&mut o, "event_id", event_id);
    put_str(&mut o, "destination", dest);
    put_str(&mut o, "origin", origin);
    o.insert("data".to_owned(), data);
    proof {
        lemma_event_keys_distinct();
        assert(o@.dom() =~= set!["cmd"@, "event_id"@, "destination"@, "origin"@, "data"@]);
    }
    Json::Object(o)
}

/// The object a request is made of, or the client error "Bad JSON Packet"
/// for a value that is not an object.
pub fn request_object(data: Json) -> (r: Result<JsonObject, ACIError>)
    ensures
        match data {
            Json::Object(o) => r == Ok::<JsonObject, ACIError>(o),
            _ => r matches Err(e) && is_client_error(e, "Bad JSON Packet"@),
        },
{
    match data {
        Json::Object(o) => Ok(o),
        _ => Err(client_error("Bad JSON Packet")),
    }
}

/// The packet that goes on the wire: the request with `unique_id` under
/// "unique_id", and nothing else changed.
pub fn tag_request(request: JsonObject, unique_id: usize) -> (r: Json)
    ensures
        r matches Json::Object(o) && o@ == request@.insert("unique_id"@, o@["unique_id"@])
            && is_json_uint(o@["unique_id"@], unique_id as int),
{
    let mut o = request;
    put_uint(&mut o, "unique_id", unique_id);
    Json::Object(o)
}

} // verus!
