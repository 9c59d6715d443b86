//! What the client makes of the server's replies.
//!
//! Every reply is a JSON object whose "mode" says how the request went:
//! "error" for a refused request, with the reason under "msg"; "ok" (or "ack"
//! for an event) for one that was carried out, with its result under a key of
//! its own.
use vstd::prelude::*;

use crate::errors::{is_client_error, is_server_error, ACIClientError, ACIError, ACIServerError};
use crate::json::{field, has_field, is_json_str, uint_of, Json, JsonObject};
use crate::requests::has_str;

verus! {

/// The reason the server gives for a refused request, or why the packet
/// cannot be read as a reply; `None` for a packet that passes as a reply.
pub open spec fn refusal(packet: Json) -> Option<Seq<char>> {
    match packet {
        Json::Object(o) => if !o@.contains_key("mode"@) {
            Some("Malformed packet, no `mode` field"@)
        } else {
            match o@["mode"@] {
                Json::String(m) => if m@ == "error"@ {
                    if !o@.contains_key("msg"@) {
                        Some("Unknown Error: No msg field"@)
                    } else {
                        match o@["msg"@] {
                            Json::String(t) => Some(t@),
                            _ => Some("Unknown Error: Malformed msg field"@),
                        }
                    }
                } else {
                    None
                },
                _ => Some("Malformed packet, `mode` field is not a string"@),
            }
        },
        _ => None,
    }
}

/// The reply to a request as the caller gets it: a refused request, or a
/// packet that cannot be a reply, becomes a server error with its reason;
/// any other packet comes through unchanged.
pub fn check_reply(packet: Json) -> (r: Result<Json, ACIError>)
    ensures
        match refusal(packet) {
            None => r == Ok::<Json, ACIError>(packet),
            Some(reason) => r matches Err(e) && is_server_error(e, reason),
        },
{
    let reason: Option<String> = match &packet {
        Json::Object(o) => match o.get("mode") {
            None => Some("Malformed packet, no `mode` field".to_owned()),
            Some(Json::String(m)) => {
                if *m == "error".to_owned() {
                    match o.get("msg") {
                        None => Some("Unknown Error: No msg field".to_owned()),
                        Some(Json::String(t)) => Some(t.clone()),
                        Some(_) => Some("Unknown Error: Malformed msg field".to_owned()),
                    }
                } else {
                    None
                }
            },
            Some(_) => Some("Malformed packet, `mode` field is not a string".to_owned()),
        },
        _ => None,
    };
    match reason {
        None => Ok(packet),
        Some(reason) => Err(ACIError::ServerError(ACIServerError::new(reason))),
    }
}

/// Only a reply object in mode "error", or one whose "mode" is missing or not
/// a string, is refused; every other packet, in mode "ok", "ack" or any other
/// text, or not an object at all, passes. A refusal gives the server's "msg"
/// when it is a string.
pub proof fn lemma_only_error_mode_is_refused(packet: Json)
    ensures
        refusal(packet) is None <==> (!(packet is Object) || (has_field(packet, "mode"@) && field(
            packet,
            "mode"@,
        ) is String && !is_json_str(field(packet, "mode"@), "error"@))),
        (has_field(packet, "mode"@) && is_json_str(field(packet, "mode"@), "error"@) && has_field(
            packet,
            "msg"@,
        ) && field(packet, "msg"@) is String) ==> refusal(packet) is Some && is_json_str(
            field(packet, "msg"@),
            refusal(packet)->0,
        ),
{
}

/// Why a reply could not be read: the whole reply, or the entry of a key
/// list that is not a string.
#[derive(Debug)]
pub enum ReplyFault {
    Malformed(Json),
    NonStringKey(Json),
}

impl ReplyFault {
    /// The JSON value the fault is about.
    pub fn payload(&self) -> (r: &Json)
        ensures
            *r == match *self {
                ReplyFault::Malformed(j) => j,
                ReplyFault::NonStringKey(j) => j,
            },
    {
        match self {
            ReplyFault::Malformed(j) => j,
            ReplyFault::NonStringKey(j) => j,
        }
    }

    /// The client error for the fault, given `rendered`, the JSON text of its
    /// payload.
    pub fn to_error(&self, rendered: &str) -> (r: ACIError)
        ensures
            is_client_error(
                r,
                match *self {
                    ReplyFault::Malformed(_) => "Response is malformed, `"@,
                    ReplyFault::NonStringKey(_) => "Key is not a string, `"@,
                } + rendered@ + "`"@,
            ),
    {
        let mut text = match self {
            ReplyFault::Malformed(_) => "Response is malformed, `".to_owned(),
            ReplyFault::NonStringKey(_) => "Key is not a string, `".to_owned(),
        };
        text.append(rendered);
        text.append("`");
        ACIError::ClientError(ACIClientError::new(text))
    }
}

/// `resp` is an object whose "mode" is `mode`.
pub open spec fn mode_is(resp: Json, mode: Seq<char>) -> bool {
    resp matches Json::Object(o) && has_str(o@, "mode"@, mode)
}

/// A reply is in a mode exactly when it is an object whose "mode" is that
/// string; replies in two different modes are never both read as one.
pub proof fn lemma_mode_is_the_mode_string(resp: Json, mode: Seq<char>, other: Seq<char>)
    ensures
        mode_is(resp, mode) <==> (has_field(resp, "mode"@) && is_json_str(field(resp, "mode"@), mode)),
        (mode != other && mode_is(resp, mode)) ==> !mode_is(resp, other),
{
}

/// Whether `resp` is an object whose "mode" is `mode`.
fn check_mode(resp: &Json, mode: &str) -> (r: bool)
    ensures
        r == mode_is(*resp, mode@),
{
    match resp {
        Json::Object(o) => match o.get("mode") {
            Some(m) => m.is_str(mode),
            None => false,
        },
        _ => false,
    }
}

/// The answer to an authentication: whether the server said "success", for a
/// reply in mode "ok" with a string "msg".
pub open spec fn auth_answer(resp: Json) -> Option<bool> {
    if mode_is(resp, "ok"@) {
        match resp {
            Json::Object(o) => if o@.contains_key("msg"@) {
                match o@["msg"@] {
                    Json::String(t) => Some(t@ == "success"@),
                    _ => None,
                }
            } else {
                None
            },
            _ => None,
        }
    } else {
        None
    }
}

/// An authentication is answered exactly by a reply in mode "ok" with a
/// string "msg"; it succeeds when that text is "success" and fails for every
/// other text.
pub proof fn lemma_auth_succeeds_only_on_success(resp: Json)
    ensures
        auth_answer(resp) is Some <==> (has_field(resp, "mode"@) && is_json_str(
            field(resp, "mode"@),
            "ok"@,
        ) && has_field(resp, "msg"@) && field(resp, "msg"@) is String),
        auth_answer(resp) is Some ==> (auth_answer(resp)->0 <==> is_json_str(
            field(resp, "msg"@),
            "success"@,
        )),
{
}

/// Reads the reply to an authentication.
pub fn auth_reply(resp: Json) -> (r: Result<bool, ReplyFault>)
    ensures
        match auth_answer(resp) {
            Some(b) => r == Ok::<bool, ReplyFault>(b),
            None => r == Err::<bool, ReplyFault>(ReplyFault::Malformed(resp)),
        },
{
    let answer: Option<bool> = if check_mode(&resp, "ok") {
        match &resp {
            Json::Object(o) => match o.get("msg") {
                Some(Json::String(t)) => Some(*t == "success".to_owned()),
                _ => None,
            },
            _ => None,
        }
    } else {
        None
    };
    match answer {
        Some(b) => Ok(b),
        None => Err(ReplyFault::Malformed(resp)),
    }
}

/// Reads a reply that only says the request was carried out: one in mode
/// "ok".
pub fn ok_reply(resp: Json) -> (r: Result<(), ReplyFault>)
    ensures
        if mode_is(resp, "ok"@) {
            r is Ok
        } else {
            r == Err::<(), ReplyFault>(ReplyFault::Malformed(resp))
        },
{
    if check_mode(&resp, "ok") {
        Ok(())
    } else {
        Err(ReplyFault::Malformed(resp))
    }
}

/// Reads the reply to an event: one in mode "ack".
pub fn ack_reply(resp: Json) -> (r: Result<(), ReplyFault>)
    ensures
        if mode_is(resp, "ack"@) {
            r is Ok
        } else {
            r == Err::<(), ReplyFault>(ReplyFault::Malformed(resp))
        },
{
    if check_mode(&resp, "ack") {
        Ok(())
    } else {
        Err(ReplyFault::Malformed(resp))
    }
}

/// `resp` is in mode "ok" and has a value under `key`.
pub open spec fn carries(resp: Json, key: Seq<char>) -> bool {
    mode_is(resp, "ok"@) && (resp matches Json::Object(o) && o@.contains_key(key))
}

/// A reply in mode "ok" carries whatever value it holds under `key`, false,
/// zero, empty or null included, and only such a reply carries one.
pub proof fn lemma_carried_value_is_any_value(resp: Json, key: Seq<char>)
    ensures
        carries(resp, key) <==> (has_field(resp, "mode"@) && is_json_str(field(resp, "mode"@), "ok"@)
            && has_field(resp, key)),
{
}

/// The value under `key` of a reply in mode "ok".
fn carried(resp: Json, key: &str) -> (r: Result<Json, ReplyFault>)
    ensures
        if carries(resp, key@) {
            resp matches Json::Object(o) && r == Ok::<Json, ReplyFault>(o@[key@])
        } else {
            r == Err::<Json, ReplyFault>(ReplyFault::Malformed(resp))
        },
{
    let ok = check_mode(&resp, "ok");
    match resp {
        Json::Object(mut o) => {
            if ok && o.contains_key(key) {
                match o.remove(key) {
                    Some(v) => Ok(v),
                    None => vstd::pervasive::unreached(),
                }
            } else {
                Err(ReplyFault::Malformed(Json::Object(o)))
            }
        },
        other => Err(ReplyFault::Malformed(other)),
    }
}

/// Reads a reply that carries a value under "val": the value of a key, the
/// value at an index of a list, or the last values of a list.
pub fn value_reply(resp: Json) -> (r: Result<Json, ReplyFault>)
    ensures
        if carries(resp, "val"@) {
            resp matches Json::Object(o) && r == Ok::<Json, ReplyFault>(o@["val"@])
        } else {
            r == Err::<Json, ReplyFault>(ReplyFault::Malformed(resp))
        },
{
    carried(resp, "val")
}

/// The count under `key` of a reply in mode "ok", when it is a non-negative
/// integer that fits a `u64`.
pub open spec fn count_in(resp: Json, key: Seq<char>) -> Option<u64> {
    if carries(resp, key) {
        match resp {
            Json::Object(o) => match o@[key] {
                Json::Number(m) => m.u64_value(),
                _ => None,
            },
            _ => None,
        }
    } else {
        None
    }
}

/// The count read from a reply in mode "ok" is the non-negative integer under
/// `key`, whatever else the reply holds; with anything but such an integer
/// there, there is no count.
pub proof fn lemma_count_is_the_integer_under_key(resp: Json, key: Seq<char>)
    ensures
        count_in(resp, key) is Some <==> (has_field(resp, "mode"@) && is_json_str(
            field(resp, "mode"@),
            "ok"@,
        ) && has_field(resp, key) && uint_of(field(resp, key)) is Some),
        count_in(resp, key) is Some ==> count_in(resp, key) == uint_of(field(resp, key)),
{
}

/// Adding a field under another key than "mode" and `key` to a reply does
/// not change the count read from it.
pub proof fn lemma_count_ignores_other_fields(
    before: JsonObject,
    after: JsonObject,
    key: Seq<char>,
    other: Seq<char>,
    value: Json,
)
    requires
        other != key,
        other != "mode"@,
        after@ == before@.insert(other, value),
    ensures
        count_in(Json::Object(after), key) == count_in(Json::Object(before), key),
{
}

/// The count under `key` of a reply in mode "ok".
fn count_reply(resp: Json, key: &str) -> (r: Result<usize, ReplyFault>)
    ensures
        match count_in(resp, key@) {
            Some(n) => r == Ok::<usize, ReplyFault>(n as usize),
            None => r == Err::<usize, ReplyFault>(ReplyFault::Malformed(resp)),
        },
{
    let count: Option<u64> = if check_mode(&resp, "ok") {
        match &resp {
            Json::Object(o) => match o.get(key) {
                Some(Json::Number(n)) => n.as_u64(),
                _ => None,
            },
            _ => None,
        }
    } else {
        None
    };
    match count {
        Some(n) => Ok(n as usize),
        None => Err(ReplyFault::Malformed(resp)),
    }
}

/// Reads the reply to an append: the index the next value will take, under
/// "next".
pub fn next_index_reply(resp: Json) -> (r: Result<usize, ReplyFault>)
    ensures
        match count_in(resp, "next"@) {
            Some(n) => r == Ok::<usize, ReplyFault>(n as usize),
            None => r == Err::<usize, ReplyFault>(ReplyFault::Malformed(resp)),
        },
{
    count_reply(resp, "next")
}

/// Reads the reply to a length query: the length under "length".
pub fn length_reply(resp: Json) -> (r: Result<usize, ReplyFault>)
    ensures
        match count_in(resp, "length"@) {
            Some(n) => r == Ok::<usize, ReplyFault>(n as usize),
            None => r == Err::<usize, ReplyFault>(ReplyFault::Malformed(resp)),
        },
{
    count_reply(resp, "length")
}

/// `keys` are the strings that make up `items`, in order.
pub open spec fn strings_of(items: Seq<Json>, keys: Seq<String>) -> bool {
    keys.len() == items.len() && forall|i: int|
        0 <= i < items.len() ==> items[i] == Json::String(#[trigger] keys[i])
}

/// `items[i]` is the first entry of `items` that is not a string.
pub open spec fn first_non_string(items: Seq<Json>, i: int) -> bool {
    &&& 0 <= i < items.len()
    &&& !(items[i] is String)
    &&& forall|j: int| 0 <= j < i ==> #[trigger] items[j] is String
}

/// The strings of a list of keys, or the first entry that is not a string.
fn collect_keys(items: Vec<Json>) -> (r: Result<Vec<String>, ReplyFault>)
    ensures
        match r {
            Ok(keys) => strings_of(items@, keys@),
            Err(f) => f matches ReplyFault::NonStringKey(x) && exists|i: int|
                first_non_string(items@, i) && items@[i] == x,
        },
        r is Ok <==> forall|j: int| 0 <= j < items@.len() ==> #[trigger] items@[j] is String,
{
    let ghost all = items@;
    let mut keys: Vec<String> = Vec::new();
    for item in it: items.into_iter()
        invariant
            it.seq() == all,
            keys@.len() == it.index(),
            forall|i: int| 0 <= i < keys@.len() ==> #[trigger] all[i] == Json::String(keys@[i]),
    {
        let ghost k = keys@.len() as int;
        assert(item == all[k]);
        match item {
            Json::String(s) => {
                keys.push(s);
            },
            other => {
                assert(first_non_string(all, k));
                return Err(ReplyFault::NonStringKey(other));
            },
        }
    }
    assert(strings_of(all, keys@));
    Ok(keys)
}

/// `resp` is in mode "ok" and carries a list under "val".
pub open spec fn carries_list(resp: Json) -> bool {
    carries(resp, "val"@) && (resp matches Json::Object(o) && o@["val"@] is Array)
}

/// The entries of the list under "val".
pub open spec fn listed(resp: Json) -> Seq<Json> {
    match resp {
        Json::Object(o) => match o@["val"@] {
            Json::Array(items) => items@,
            _ => Seq::empty(),
        },
        _ => Seq::empty(),
    }
}

/// A key list is read from exactly the replies in mode "ok" that hold a
/// JSON array under "val", and its entries are that array's entries.
pub proof fn lemma_key_list_is_the_val_array(resp: Json)
    ensures
        carries_list(resp) <==> (has_field(resp, "mode"@) && is_json_str(field(resp, "mode"@), "ok"@)
            && has_field(resp, "val"@) && field(resp, "val"@) is Array),
        carries_list(resp) ==> (field(resp, "val"@) matches Json::Array(items) && items@ == listed(
            resp,
        )),
{
}

/// Reads a reply that carries a list of keys under "val": the keys of a
/// database, or the databases loaded on the server.
pub fn keys_reply(resp: Json) -> (r: Result<Vec<String>, ReplyFault>)
    ensures
        carries_list(resp) ==> match r {
            Ok(keys) => strings_of(listed(resp), keys@),
            Err(f) => f matches ReplyFault::NonStringKey(x) && exists|i: int|
                first_non_string(listed(resp), i) && listed(resp)[i] == x,
        },
        carries_list(resp) ==> (r is Ok <==> forall|j: int|
            0 <= j < listed(resp).len() ==> #[trigger] listed(resp)[j] is String),
        !carries_list(resp) ==> r == Err::<Vec<String>, ReplyFault>(ReplyFault::Malformed(resp)),
{
    let list = match &resp {
        Json::Object(o) => match o.get("val") {
            Some(Json::Array(_)) => true,
            _ => false,
        },
        _ => false,
    };
    if list && check_mode(&resp, "ok") {
        match carried(resp, "val") {
            Ok(Json::Array(items)) => collect_keys(items),
            _ => vstd::pervasive::unreached(),
        }
    } else {
        Err(ReplyFault::Malformed(resp))
    }
}

} // verus!
