//! An emoji picker's core: a catalog of emoji records, a filter by Unicode
//! version, a search by name, a grid layout in rows of fixed width, and the
//! state machine that turns user events into state changes and effects.

pub mod version;
pub mod record;
pub mod search;
pub mod error;
pub mod grid;
pub mod catalog;
pub mod picker;
