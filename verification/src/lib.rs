//! Typed handles over untyped arrays of fixed-size elements.
//!
//! A [`RawArray`] stands for an array as GLib keeps one: it knows the size
//! in bytes of its elements and holds them in order, and that is all it
//! knows of them. An [`Array`] is a handle laid over such an array, made
//! only where the recorded size is the size of the handle's element type,
//! and shows the elements as a slice of that type.
//!
//! Handles are built from native values in `construct`, and their elements
//! are turned into native values in `convert`. What holds of a handle that
//! was built and read again is proved in `laws`.

pub mod array;
pub mod construct;
pub mod convert;
pub mod laws;
pub mod raw;

pub use array::Array;
pub use raw::RawArray;
