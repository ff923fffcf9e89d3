# Bloom bot, verified core

The logic of Bloom, the Discord bot of a meditation community that tracks
meditation time, keeps streaks and vanity roles, imports sessions from other
apps and serves a glossary, quotes, courses, challenges and moderation tools.

- `src/` is the library, verified with Verus: every function carries a
  contract, and the properties that span several functions are stated and
  proved as public proof functions (`lemma_*`).
- `tests/` runs the library on concrete values.
- `app/` holds what stays outside verification: reading and writing CSV and
  JSON with serde, and the computations on floating-point numbers.

Calls into outside crates (`chrono`, `ulid`, `csv`, `rand`, `indexmap`) and
the few std functions that vstd does not specify go through small trusted
functions, each marked `#[verifier::external_body]` with a doc comment that
says what is assumed. Most of them do not describe the outside result: they
only name it, by an uninterpreted spec function of their arguments (a date's
text as `chrono` formats it, the headers `csv` reads), so that the verified
code states exactly what it does with whatever comes back. A few state short
facts that the crates document: a ULID is 26 characters of its alphabet, a
month outside 1 to 12 has no first day, an `IndexMap` keeps the order in
which keys first arrived.

The commands that talk with a member across several messages are verified
step functions from state and event to next state and action: `add` (store,
ask for confirmation of a large entry, commit or drop it), the confirm-or-cancel
exchange of the event and key-recipient commands (`dialog`), the search for a
challenge winner and the key offer to the winner (`winner`). Whatever drives
the bot performs the actions and reports back what happened.
