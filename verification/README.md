# tvmate

The verified core of a watch-together service: people open a room, others
join it by its code, and everybody's video player, chat and calls stay in
step through the server.

Layout:

- `src/model.rs`, `src/message.rs`, `src/params.rs` — the shared room model,
  the websocket messages and the endpoint parameters.
- `src/room.rs` — the server's registry of rooms (unique codes, never an
  empty room).
- `src/server.rs` — opening and joining rooms, relaying what members send,
  the call-request cooldown, and leaving.
- `src/client.rs`, `src/player.rs` — a client's session: how it reacts to
  messages, what it sends, its notifications, its call media, and how the
  local player follows the room.
- `src/peer.rs` — call permissions, outgoing and incoming calls (held-back
  ICE candidates, the offer sent once), offer checks.
- `src/plugin.rs` — the native shell plugin's commands.
- `src/util.rs` — random room codes.
- `app/` — the server program: axum websocket handlers, bincode framing and
  the per-member queues around the library.

Playback positions travel as the bit patterns of `f64` values and member ids
as the 128-bit value of their UUID; `app/wire.rs` converts to and from the
serde forms used on the wire.
