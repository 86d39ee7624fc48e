# whatsapp_desktop

A desktop WhatsApp client whose application logic is written in Verus and
proved against its contracts.

## Layout

- `src/` — the verified library.
  - `model/` — the application state: chats, messages, typing indicators,
    history sync, the local cache records and their conversions.
  - `controller.rs`, `app.rs` — how user actions and service notifications
    change the state, and what the interface does next.
  - `rpc/` — the service between the interface and the WhatsApp client:
    its request and notification types, the conversion of client events
    into notifications and store commands, and message content parsing.
  - `whatsapp/` — the client-side types, the command channel and the
    local store's records, queries and write buffer.
  - `ui.rs`, `view.rs`, `app_core/` — the state and the text that the
    screens show.
  - `keyed.rs`, `text.rs`, `clock.rs` — insertion-ordered string maps,
    string helpers and time.
- `tests/` — tests that run the library with the real outside crates.
- `app/` — the program around the library: the window, the network
  connection, the SQLite store, the JSON cache and the conversions from
  the protocol's types.

Laws of the library (round trips of the stored and cached forms, the
ordering of the chat list, what typing and sync updates keep) are public
proof functions next to the code they speak of.
