# lib_shared

The library shared by the game's client and server, with its logic proved
by Verus.

- `src/` is the verified library:
  - `vec` — `Vector`, a vector that keeps zero or one element without
    allocating and otherwise behaves like `Vec` (its view is a `Seq`).
  - `boxed` — the lock word of the shared boxes (readers, an exclusive
    holder, a waiting writer) with its transitions and their laws, the
    `WaitPolicy` that decides how long a blocked acquisition waits, and the
    readers' and writers' acquisitions as state machines, with laws over
    their whole runs.
  - `error` — `GameError`, its conversions, its display and debug texts, and
    the `GameResult` helpers.
  - `proto::msg_channel` — the channel-connect message, its client kinds and
    the rules of its protobuf encoding (sizes, fields written, fields read).
  - `logger` — which records reach the native callback and each log file,
    and the text of their lines and file names.
  - `libconfig` — configuration records.
  - `text` — decimal numbers, joined lines and character scanning.
  - `lib.rs` — condition checks, session tokens, the file-listing rules.
- `app/` holds what Verus cannot take: the boxes that hand out references
  into an `UnsafeCell`, the logger's globals and files, the protobuf runtime
  plumbing, `anyhow` errors, `serde` records and directory listing.
- `tests/` runs the library on concrete values.
