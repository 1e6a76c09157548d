# semi

Verified building blocks of the SEMI equipment communication stack, written in
Verus.

- `src/secs_ii` — SECS-II message content (SEMI E5): generic messages and
  items, the byte encoding of items with its round-trip laws, data items and
  the stream 1 messages, units of measure.
- `src/hsms` — HSMS (SEMI E37) message headers, messages and their byte form,
  the HSMS message kinds, and the decisions of a primitive and a generic
  client: how a received message is checked, answered or delivered.
- `src/semi_e37` — the same services with SECS-II message bodies, split into
  primitive, generic and single selected-session services; the generic
  services keep a selection count whose invariant every operation preserves.
- `src/frame.rs`, `src/data_text.rs` — the wire framing shared by the clients
  and the text of a data message.
- `app/` — the network clients: TCP streams, threads, channels, locks and
  timeouts around the verified decisions.
- `tests/` — concrete examples of the encodings, conversions and decisions.
