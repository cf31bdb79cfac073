//! A verified, I/O-free core for a GlusterFS volume client.
//!
//! The crate decides what a client says to the native cluster library and
//! what each answer means; it never talks to the cluster itself. Every
//! operation is split in two steps. The first marshals the arguments and
//! yields a typed description of one native call, or refuses the arguments
//! before anything is sent. The second takes what the native call answered
//! and turns it into the operation's result. The embedding program performs
//! the call in between.
//!
//! - [`marshal`]: strings in native form, and text out of native buffers.
//! - [`error`]: the causes of failure and their texts.
//! - [`call`]: the descriptions of native calls and the meaning of their
//!   answers.
//! - [`connection`]: connecting to a volume in three calls, and releasing
//!   the connection once.
//! - [`operations`]: the file, directory and extended-attribute operations
//!   of a connection.
//! - [`directory`]: reading a directory entry by entry.

pub mod call;
pub mod connection;
pub mod directory;
pub mod error;
pub mod marshal;
pub mod operations;

pub use call::{
    AttributeCall, FileHandle, GetcwdCall, HandleCall, MetadataCall, PreadCall, PreadvCall,
    ReadCall, ReadlinkCall, ReadvCall, SeekCall, Stat, StatusCall, WriteCall, TEXT_BUFFER_SIZE,
};
pub use connection::{
    ConnectFailure, FiniCall, Gluster, InitCall, NewCall, SetVolfileServerCall,
};
pub use directory::{
    Advance, ClosedirCall, DirEntry, GlusterDirectory, Lookahead, ReaddirCall, TelldirCall,
};
pub use error::{GlusterError, IntoStringError, NulError};
pub use marshal::NativeString;
