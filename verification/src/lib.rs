//! Federation core: signed activity delivery between independent servers.
//!
//! The crate holds the decisions of the federation layer as verified
//! functions over plain values: which languages an actor may use, how a
//! typed object reference is resolved, when an inbound request is authentic,
//! and what one inbox delivery does to the local store. Everything that
//! waits on a socket or a database lives with the embedding server; it hands
//! this crate values and carries out the actions that come back.

pub mod newtypes;
pub mod seq_lemmas;
pub mod actor_language;
pub mod objects;
pub mod store;
pub mod text;
pub mod instance;
pub mod cache;
pub mod object_id;
pub mod signature;
pub mod activity;
pub mod inbox;
pub mod federation;
