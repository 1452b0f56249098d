//! Client-side engine pieces of an SSH session and its SFTP channel: the
//! session builder and destination parsing, remote command lines, the
//! splitting of scatter/gather write batches under a length limit, the
//! cancellation guard that observes the background reader's death, the
//! negotiated limits, and the filesystem front end with its handles.
mod buffers;
pub mod builder;
pub mod chunk;
pub mod command;
pub mod error;
pub mod fs;
pub mod guard;
pub mod reader;
pub mod session;
pub mod text;

pub use buffers::ByteBuf;
pub use builder::{KnownHosts, SessionBuilder};
pub use chunk::{take_bytes, take_io_slices, take_slices};
pub use command::{Command, Stdio};
pub use error::Error;
pub use guard::{Auxiliary, CancellationGuard};
pub use session::{Extensions, Limits};
pub use fs::{Dir, Fs, IdCache, OwnedHandle};
pub use reader::{ReadTask, ReaderAction, Termination};
