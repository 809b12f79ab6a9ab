//! A typed memory arena: chunked, append-only storage that hands out
//! position-stable handles to the values placed in it.
//!
//! Storage grows by appending chunks of one fixed capacity and never by
//! resizing one, so a value keeps the `(chunk, slot)` position it was given
//! for as long as the arena lives. Handles are such positions. A shared
//! handle reads and can be duplicated; an exclusive handle reads and writes
//! and cannot. `freeze` turns an exclusive handle into a shared one over the
//! same slot; `make_mut` clones a value into a fresh slot and returns an
//! exclusive handle to the clone, leaving the source untouched.
pub mod basic;
pub mod deref;
pub mod internal;
pub mod lemmas;
pub mod model;
pub mod traits;

pub use basic::{BasicArena, BasicArenaMutRef, BasicArenaRef};
pub use deref::{PureDeref, PureDerefMut};
pub use internal::{UnsafeArena, UnsafeArenaRef};
pub use traits::{
    Arena, ArenaImmutRef, ArenaMutRef, ArenaRef, EnumArena, EnumImmutRef, EnumMutRef, EnumRef,
};
