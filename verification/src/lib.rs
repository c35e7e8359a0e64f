//! Content-pack loading and sheet persistence for a tabletop character
//! manager.
//!
//! A content pack is read from a zip-like archive whose entries are small
//! sandboxed scripts, each defining one game-rule entity (a class, a balance,
//! a race or a cybernetic). Entries that fail to load are recorded as
//! diagnostics; they never abort the load of other entries. Player-authored
//! sheets (characters, races, classes) are kept in an embedded transactional
//! key-value store, one table per sheet kind, keyed by sheet name.

pub mod ability;
pub mod archive;
pub mod pack;
pub mod playersheet;
pub mod script;
pub mod sheet;
pub mod store;
pub mod text;
