//! Where an incoming message goes: back to the request it answers, out as an
//! event, or nowhere.
use vstd::prelude::*;

use crate::event::ACIEvent;
use crate::json::{field, has_field, is_json_str, is_json_uint, uint_of, Json};
use crate::requests::{has_str, is_event_request, lemma_event_keys_distinct};

verus! {

/// The id of the request that `msg` answers: the non-negative integer under
/// "unique_id", taken as a `usize`.
pub open spec fn reply_id_of(msg: Json) -> Option<usize> {
    match msg {
        Json::Object(o) => if o@.contains_key("unique_id"@) {
            match o@["unique_id"@] {
                Json::Number(m) => match m.u64_value() {
                    Some(n) => Some(n as usize),
                    None => None,
                },
                _ => None,
            }
        } else {
            None
        },
        _ => None,
    }
}

/// The id of the request that `msg` answers, if it carries one.
pub fn reply_id(msg: &Json) -> (r: Option<usize>)
    ensures
        r == reply_id_of(*msg),
{
    match msg {
        Json::Object(o) => match o.get("unique_id") {
            Some(Json::Number(n)) => match n.as_u64() {
                Some(id) => Some(id as usize),
                None => None,
            },
            _ => None,
        },
        _ => None,
    }
}

/// The parts of an event message: who sent it, to whom, what it carries and
/// its id. A message is an event when its "cmd" is "event" and it has an
/// "event_id", a "data", and string "origin" and "destination".
pub open spec fn event_parts(msg: Json) -> Option<(String, String, Json, Json)> {
    match msg {
        Json::Object(o) => if has_str(o@, "cmd"@, "event"@) && o@.contains_key("event_id"@)
            && o@.contains_key("data"@) && o@.contains_key("origin"@) && o@.contains_key(
            "destination"@,
        ) {
            match o@["origin"@] {
                Json::String(s) => match o@["destination"@] {
                    Json::String(d) => Some((s, d, o@["data"@], o@["event_id"@])),
                    _ => None,
                },
                _ => None,
            }
        } else {
            None
        },
        _ => None,
    }
}

/// Where an incoming message goes.
#[derive(Debug)]
pub enum Route {
    /// Back to the waiting request with this id.
    Reply(usize, Json),
    /// Out to whoever listens for events.
    Event(ACIEvent),
    /// Nowhere.
    Ignore,
}

/// Routes an incoming message. `reply_pending` tells whether a request with
/// the message's reply id (see `reply_id`) is waiting for its answer. A
/// message that answers a waiting request goes back to it unchanged; any
/// other message that is an event goes out as that event; the rest is
/// dropped.
pub fn route_message(msg: Json, reply_pending: bool) -> (r: Route)
    ensures
        (reply_pending && reply_id_of(msg) is Some) ==> r == Route::Reply(
            reply_id_of(msg)->0,
            msg,
        ),
        !(reply_pending && reply_id_of(msg) is Some) ==> match event_parts(msg) {
            Some((s, d, p, e)) => r matches Route::Event(ev) && ev.sender() == s && ev.receiver()
                == d && ev.payload() == p && ev.id() == e,
            None => r is Ignore,
        },
{
    if reply_pending {
        if let Some(id) = reply_id(&msg) {
            return Route::Reply(id, msg);
        }
    }
    proof {
        lemma_event_keys_distinct();
    }
    match msg {
        Json::Object(mut o) => {
            let ghost o0 = o@;
            let is_event = match o.remove("cmd") {
                Some(c) => c.is_str("event"),
                None => false,
            };
            if !is_event {
                return Route::Ignore;
            }
            let event_id = match o.remove("event_id") {
                Some(v) => v,
                None => {
                    return Route::Ignore;
                },
            };
            let data = match o.remove("data") {
                Some(v) => v,
                None => {
                    return Route::Ignore;
                },
            };
            let origin = match o.remove("origin") {
                Some(Json::String(s)) => s,
                _ => {
                    return Route::Ignore;
                },
            };
            let dest = match o.remove("destination") {
                Some(Json::String(s)) => s,
                _ => {
                    return Route::Ignore;
                },
            };
            Route::Event(ACIEvent::create(origin, dest, data, event_id))
        },
        _ => Route::Ignore,
    }
}

/// A message is an event exactly when its "cmd" is the string "event", it has
/// an "event_id" and a "data", and its "origin" and "destination" are strings;
/// the kinds of value under "event_id" and "data" are never looked at.
pub open spec fn is_event_message(msg: Json) -> bool {
    &&& has_field(msg, "cmd"@)
    &&& is_json_str(field(msg, "cmd"@), "event"@)
    &&& has_field(msg, "event_id"@)
    &&& has_field(msg, "data"@)
    &&& has_field(msg, "origin"@)
    &&& field(msg, "origin"@) is String
    &&& has_field(msg, "destination"@)
    &&& field(msg, "destination"@) is String
}

/// Any event message is routed as its event, whatever JSON values its
/// "event_id" and "data" hold: the sender and receiver are the strings under
/// "origin" and "destination", and the data and id are the values under
/// "data" and "event_id", unchanged. Nothing else is an event.
pub proof fn lemma_event_message_is_routed(msg: Json)
    ensures
        event_parts(msg) is Some <==> is_event_message(msg),
        is_event_message(msg) ==> {
            &&& field(msg, "origin"@) == Json::String((event_parts(msg)->0).0)
            &&& field(msg, "destination"@) == Json::String((event_parts(msg)->0).1)
            &&& (event_parts(msg)->0).2 == field(msg, "data"@)
            &&& (event_parts(msg)->0).3 == field(msg, "event_id"@)
        },
{
}

/// The reply id of a message is the non-negative integer under its
/// "unique_id", whatever else the message holds; a message without one has no
/// reply id.
pub proof fn lemma_reply_id_is_the_unique_id(msg: Json)
    ensures
        reply_id_of(msg) is Some <==> (has_field(msg, "unique_id"@) && uint_of(
            field(msg, "unique_id"@),
        ) is Some),
        reply_id_of(msg) is Some ==> reply_id_of(msg)->0 == (uint_of(field(msg, "unique_id"@))->0) as usize,
{
}

/// A reply that carries back the unique id its request was tagged with has
/// that id as its reply id, so it goes back to that request while it waits.
pub proof fn lemma_reply_finds_its_request(reply: Json, unique_id: usize)
    requires
        reply matches Json::Object(o) && o@.contains_key("unique_id"@) && is_json_uint(
            o@["unique_id"@],
            unique_id as int,
        ),
    ensures
        reply_id_of(reply) == Some(unique_id),
{
}

/// An event sent with `event_request` and tagged for the wire with
/// `tag_request` is, where it is not taken for a reply, delivered by the
/// router as that same event: same sender, same receiver, same data, same id.
pub proof fn lemma_event_request_is_delivered(
    msg: Json,
    request: Map<Seq<char>, Json>,
    event_id: Seq<char>,
    origin: Seq<char>,
    dest: Seq<char>,
    data: Json,
)
    requires
        is_event_request(request, event_id, origin, dest, data),
        msg matches Json::Object(o) && o@ == request.insert("unique_id"@, o@["unique_id"@]),
    ensures
        event_parts(msg) matches Some((s, d, p, e)) && s@ == origin && d@ == dest && p == data
            && is_json_str(e, event_id),
{
    lemma_event_keys_distinct();
}

} // verus!
