//! Core of a bridge between native code and an embedded scripting host: the
//! dynamic value model, the conversions between it and native types, the
//! call-scoped arena, the borrow marker and the calling convention of
//! boundary calls.
pub mod api;
pub mod arena;
pub mod borrow;
pub mod conversion;
pub mod entrypoint;
pub mod error;
pub mod init_error;
pub mod object;

pub use arena::{init_arena, Arena, ArenaRef, ArenaSlot};
pub use borrow::NonOwning;
pub use conversion::{FromObject, RoundTrip, ToObject};
pub use error::Error;
pub use init_error::InitError;
pub use object::{Array, ByteString, Dictionary, Float, Function, HandleKind, Object, ObjectKind};
