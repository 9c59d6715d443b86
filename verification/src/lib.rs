//! Client library for an ACI server: a key-value store and event relay that
//! speaks JSON over a websocket.
//!
//! The library builds the requests the client sends, reads the replies it
//! gets back, and decides where each incoming message goes. Sending and
//! receiving, and turning JSON text into `Json` values and back, happen
//! around it.
pub mod endpoint;
pub mod errors;
pub mod event;
pub mod ids;
pub mod json;
pub mod replies;
pub mod requests;
pub mod routing;

pub use endpoint::{server_url, url_error};
pub use errors::{ACIClientError, ACIError, ACIServerError};
pub use event::ACIEvent;
pub use ids::{event_id, server_url_text};
pub use json::{Json, JsonNumber, JsonObject};
pub use replies::{
    ack_reply, auth_reply, check_reply, keys_reply, length_reply, next_index_reply, ok_reply,
    value_reply, ReplyFault,
};
pub use requests::{
    append_list_request, auth_request, create_database_request, event_request,
    get_index_request, get_list_length_request, get_recent_request, get_value_request,
    list_databases_request, list_keys_request, read_from_disk_request, request_object,
    set_index_request, set_value_request, tag_request, write_to_disk_request,
};
pub use routing::{reply_id, route_message, Route};
