//! Memory-state watchers and timer-control rules for game auto splitters.
//!
//! The library watches values that live at pointer paths inside a game
//! process, keeps the last two successful observations of each, and turns
//! transitions in those values into timer commands. Attaching to the game,
//! reading its memory and driving the host timer are done by the caller,
//! which hands the library plain values and carries out the commands it gets
//! back.
pub mod p4g;
pub mod poll;
pub mod session;
pub mod sr2;
pub mod text;
pub mod timer;
pub mod watcher;
