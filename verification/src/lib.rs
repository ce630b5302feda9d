//! Bounds-checked buffers that carry bytes between an extension and the
//! storage engine that hosts it.
//!
//! A [`buf::ReadBuf`] is a read-only handle to a record the engine fetched.
//! A [`buf::WriteBuf`] is an append-only handle to a slab the engine
//! allocated; the engine takes it back, frozen, once the extension is done.
//! Every contract is stated over the bytes a handle holds. The calls into
//! the `bytes` crate are gathered in [`region`], each with the contract
//! that is taken on trust about it; everything else is proved from those.
//!
//! [`mock::MockDB`] is a log that remembers what was written to it, for
//! testing extensions.

pub mod endian;
pub mod region;
pub mod model;
pub mod buf;
pub mod mock;
