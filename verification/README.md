# chat_r

A small websocket chat room: an actix server whose host relays each chat line
to every other connected browser, and a leptos page that shows the
conversation.

- `src/` is the verified library (Verus): user names, the JSON layout of
  server messages, how a session reacts to websocket frames and chat lines
  (including the `/name` command), which sessions the host delivers each
  message to, and the page's small decisions (websocket address, sender
  labels, when the send button is disabled). The only trusted items are thin
  wrappers around `serde_json` string encoding and decoding and around
  `uuid::Uuid::new_v4`.
- `app/` is the runtime around it: the actix actors and websocket route,
  which perform what the library decides, and the leptos components.
- `tests/` runs the library on concrete conversations.
