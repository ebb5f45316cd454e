//! Binds strongly typed components to a host runtime that only knows opaque
//! handles and untyped schema objects.
//!
//! - `handle`: the arena that owns every typed value a host handle stands for.
//! - `schema`: field-indexed schema objects, the medium of serialization.
//! - `lifecycle`: what deserialize, serialize, copy and free do to an arena.
//! - `component`: the component contract, its dispatch table, and the data and
//!   update entries.
//! - `command`: the optional command capability and its request and response entries.
//! - `value_type`: the contract of value types nested inside a schema object.
//! - `laws`: properties that hold across several crossings of the boundary.

pub mod handle;
pub mod schema;
pub mod lifecycle;
pub mod component;
pub mod command;
pub mod value_type;
pub mod laws;
