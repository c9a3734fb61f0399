//! Core logic of a small blog engine: the post entity, the persistence
//! semantics of a post store, the draft-editing state machine, and the
//! transient toast notification center.

pub mod draft;
pub mod post;
pub mod store;
pub mod timestamp;
pub mod toast;
