//! Watch a project's source tree and re-run a pipeline of commands when it
//! changes.
//!
//! The library holds the decisions of the watcher: which changed paths count,
//! when a restart is due, how a pipeline of commands proceeds, and how a
//! running child is brought down. The host program performs the work that
//! these decisions call for.

pub mod debounce;
pub mod filter;
pub mod path;
pub mod pipeline;
pub mod supervisor;
pub mod watch;
pub mod watch_loop;

pub use debounce::Debouncer;
pub use filter::{ChangeKind, ChangedPath, EventFilter};
pub use path::WatchPath;
pub use pipeline::PipelineRun;
pub use supervisor::{ChildSlot, Termination};
pub use watch::Watch;
pub use watch_loop::WatchLoop;
