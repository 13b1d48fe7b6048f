//! Update dispatching for chat bots.
//!
//! A [`Dispatcher`] receives updates from a listener and hands each of them to a
//! worker. Updates of one chat go to one worker, which consumes them one after
//! another; updates of different chats go to different workers; updates of no
//! chat go to the default worker, which consumes them concurrently. What counts
//! as a chat is decided by a distribution function.
//!
//! The library decides: which worker gets an update, when a worker is spawned and
//! with which queue and which dependencies, what a handler is given and what
//! follows from what it returned, when the listener is stopped, what is waited for
//! at the end. Awaiting is left to the caller, who performs what the library asks
//! for and reports back what happened.

pub mod calls;
pub mod dependencies;
pub mod dispatcher;
pub mod handling;
pub mod laws;
pub mod listening;
pub mod queue;
pub mod shutdown;
pub mod types;
pub mod worker;

pub use dependencies::{Dependency, DependencyKind};
pub use dispatcher::{
    Action, CtrlcHandler, Dispatcher, DispatcherBuilder, SignalResponse, DEFAULT_WORKER_QUEUE_SIZE,
};
pub use handling::{after_dispatch, handle_update, try_after_dispatch, Reaction};
pub use listening::{Event, Listening, Phase, Step};
pub use queue::is_valid_queue_size;
pub use shutdown::{AlreadyRunning, IdleShutdownError, ShutdownState, ShutdownToken, Transition};
pub use types::{default_distribution_function, Bot, DefaultKey, Me, Update, UpdateKind};
pub use worker::{
    spawn_default_worker, spawn_worker, DefaultHandler, ErrorHandler, Worker, WorkerId, WorkerKind,
    WorkerTask,
};
