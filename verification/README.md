# bt_hci

Reading Bluetooth HCI event packets, verified with Verus.

- `src/lib.rs` — the `FromHciBytes` and `AsHciBytes` traits and the models their
  contracts speak of.
- `src/primitives.rs` — reading bytes, little-endian integers, flags and byte arrays.
- `src/param.rs` — the parameter types that events carry (status codes, handles,
  addresses, enumerations).
- `src/cmd.rs` — `SyncCmd`, what a Command Complete event needs to know of a command.
- `src/event.rs` — the event parameter types, the `Event` enum and packet reading.
- `src/event/classic.rs` — iterating over the responses of Inquiry Result events.
- `app/lib.rs` — reading events from blocking and async byte streams (`embedded-io`).

Every parser's contract states its result exactly: the model of the value read and the
bytes left over, or the error. The laws (proof functions named `law_*`) relate parsers
to each other and to `as_hci_bytes`, and describe iteration over inquiry responses.
