# x

A command line for X (Twitter): timelines, posts, users, lists, collections, direct messages,
streams, places and accounts. The logic of every command is written and verified in Verus.

- `src/` is the library. A command is a talk with the outside world: it runs on the replies that
  are known, and where it needs one more it stops with what it asks for (`session.rs`). Each
  command has a specification, as a function of the talk, that says which calls are made, what is
  said and how the command ends; `command.rs` chooses among them. `manifest.rs`, `thor.rs` and
  `plan.rs` turn the class texts of `sources.rs` into the plan of the command line. `steady.rs`
  proves that a command which is run again with more replies does again what it did.
- `tests/` runs single functions (`units.rs`), whole commands against canned answers
  (`commands.rs`) and the command line's plan (`manifest.rs`).
- `app/` is what surrounds the library: the parser made from the plan, the files, the network, the
  browser and the loop that answers what a command asks for.

What the library takes from outside crates is declared where it is used: `encode.rs` (base64,
ring, serde_urlencoded, reqwest's addresses), `patterns.rs` (regex) and `time.rs` (chrono). The
doc comment of each such item says what is relied on.
