//! The decisions behind the Linux system calls `name_to_handle_at(2)` and
//! `open_by_handle_at(2)`, verified.
//!
//! The two calls turn a path into a file handle, and a file handle back into an open
//! file. Everything about them that is a decision stands in this crate: which request
//! goes to the kernel, how large the handle buffer is, what each reply means, when a
//! call is repeated, which error comes out, and what is remembered about whether the
//! kernel has the call at all. Memory that the kernel writes to, and the calls
//! themselves, belong to the code around this crate.
//!
//! - [`errno`] holds the error numbers that steer the decisions.
//! - [`flags`] holds the flags of `name_to_handle_at` and reads the mount ID by them.
//! - [`handle`] holds file handles, their C header and the layout of the buffer.
//! - [`supported`] remembers whether the kernel has a call.
//! - [`cvt`](mod@cvt) turns the return value of a call into a `Result`.
//! - [`lookup`] drives `name_to_handle_at`.
//! - [`opening`] drives `open_by_handle_at`.
//! - [`laws`] states what holds across whole conversations with the kernel.
pub mod cvt;
pub mod errno;
pub mod flags;
pub mod handle;
pub mod laws;
pub mod lookup;
pub mod opening;
pub mod supported;

pub use crate::cvt::{cvt, cvt_code, cvt_with, IsMinusOne};
pub use crate::errno::Errnos;
pub use crate::flags::{
    mount_id, MountId, AT_EMPTY_PATH, AT_HANDLE_FID, AT_HANDLE_MNT_ID_UNIQUE, AT_SYMLINK_FOLLOW,
};
pub use crate::handle::{handle_layout, FileHandle, HandleHeader, HandleLayout};
pub use crate::supported::{AtomicSupported, Supported};
pub use crate::lookup::{Lookup, NameReply, NameRequest, NameStep};
pub use crate::opening::{OpenRequest, Opening};
