# aci

A client for an ACI server: a key-value store and event relay that speaks
JSON over a websocket.

- `src/` is the verified library. `json` models JSON values and objects;
  `requests` builds the request for each command and tags it with its unique
  id; `replies` reads the server's replies; `routing` decides where an
  incoming message goes; `ids` makes event ids and the server address;
  `endpoint` parses that address with the `url` crate; `errors` and `event`
  hold the error and event types.
- `app/` is the program around it: the websocket connection, the listener
  task, the registry of requests waiting for replies, and the conversion
  between serde_json values and the library's `Json`.
- `tests/` runs the library on concrete messages.
