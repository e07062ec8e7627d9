# omeet

The verified core of omeet: workspace administration, collaborative rooms and
the planning behind the `SyncableState` derive, written in Verus with
contracts that Verus proves.

## Layout

- `src/workspace/` — typed identifiers, users, memberships, workspaces and
  their last-update instants, the guards that mint permissions, the errors,
  the repository ports, and the services that orchestrate them. The
  decisions the services take on what a port answered live in
  `service/rules.rs`, each with an exact contract. Each port method is tied to its answer by a `spec fn`
  of its trait (which answers the store may give), and the services state
  their outcome over those answers.
- `src/room/` — members of a room, the document app, the app runtime and the
  room that routes mutations and subscriptions, and random node ids.
- `src/derive_plan/` — reading `#[sync(..)]` attributes, reading a struct,
  the checks it must pass, and the plan of which fields each generated item
  covers.
- `tests/` — the tests, run against the compiled library.
- `app/` — what the library cannot hold: the derive's token front end (syn
  and quote), serde copies of serialized types, `std::error::Error` wrappers
  of the error types, and the async event-recorder port.

## Not here

The room's sync layer (`SyncableBlock`, `State` and `StateC` with their
`apply` and `poll`) is built on the `syncable_state` crate, whose source is
not available to this project, so it stands neither in the library nor in
`app/`; the room and its apps here hold their state as plain values. The
room service's async stubs, which have no bodies yet, are left out as well.

## Outside crates

`chrono` (clock, RFC 3339 reading and writing, millisecond steps) and `rand`
(node ids) are called from the library through small trusted wrappers whose
contracts are stated next to them. `syn`, `quote`, `proc-macro2`, `serde`,
`thiserror` and `futures` are used by `app/` only.
