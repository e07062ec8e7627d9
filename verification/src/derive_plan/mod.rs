//! The decisions behind the `SyncableState` derive: reading `#[sync(..)]`
//! attributes, checking a struct, and planning what each generated item
//! covers. Token generation itself stays with the macro front end.

pub mod attrs;
pub mod state;
pub mod validate;
pub mod plan;
