//! Workers: the tasks that consume updates, and what they are started with.

use std::sync::Arc;

use dptree::di::DependencyMap;
use tokio::sync::mpsc::{Receiver, Sender};
use tokio::task::{JoinError, JoinHandle};
use vstd::prelude::*;

use crate::dependencies::{dependency_contents, Dependency, DependencyKind};
use crate::queue::{queue_bound, queue_connects, update_queue, valid_queue_size};
use crate::types::Update;

verus! {

/// The handle of a spawned `tokio` task.
#[verifier::external_type_specification]
#[verifier::external_body]
#[verifier::reject_recursive_types(T)]
pub struct ExJoinHandle<T>(JoinHandle<T>);

/// What waiting for a `tokio` task fails with.
#[verifier::external_type_specification]
#[verifier::external_body]
pub struct ExJoinError(JoinError);

/// How a worker consumes the updates in its queue.
#[derive(Clone, Copy, Debug, PartialEq, Eq, Structural)]
pub enum WorkerKind {
    /// One after another: the next update is taken when the last one is handled.
    Sequential,
    /// All at once, without a limit.
    Concurrent,
}

/// The name of a worker in its dispatcher.
#[derive(Clone, Copy, Debug, PartialEq, Eq, Structural)]
pub struct WorkerId {
    pub kind: WorkerKind,
    /// The number of the worker among those of its kind that the dispatcher has
    /// spawned since it last had none.
    pub number: usize,
}

/// What is done with an update that no handler took.
pub enum DefaultHandler<D> {
    /// A warning is logged.
    LogWarning,
    /// The update is handed to this handler.
    Custom(Arc<D>),
}

impl<D> Clone for DefaultHandler<D> {
    fn clone(&self) -> (copy: Self)
        ensures
            copy == *self,
    {
        match self {
            DefaultHandler::LogWarning => DefaultHandler::LogWarning,
            DefaultHandler::Custom(handler) => DefaultHandler::Custom(Arc::clone(handler)),
        }
    }
}

/// What is done with an error that a handler returned.
pub enum ErrorHandler<E> {
    /// The error is logged.
    Logging,
    /// The error is handed to this handler.
    Custom(Arc<E>),
}

impl<E> Clone for ErrorHandler<E> {
    fn clone(&self) -> (copy: Self)
        ensures
            copy == *self,
    {
        match self {
            ErrorHandler::Logging => ErrorHandler::Logging,
            ErrorHandler::Custom(handler) => ErrorHandler::Custom(Arc::clone(handler)),
        }
    }
}

/// What a worker is started with: the queue it consumes, how it consumes it, and
/// what it needs to handle an update.
pub struct WorkerTask<H, D, E> {
    pub kind: WorkerKind,
    pub updates: Receiver<Update>,
    pub deps: Arc<DependencyMap>,
    pub handler: Arc<H>,
    pub default_handler: DefaultHandler<D>,
    pub error_handler: ErrorHandler<E>,
}

/// A [`WorkerTask`] but for its queue.
pub struct WorkerTaskView<H, D, E> {
    pub kind: WorkerKind,
    pub dependencies: Map<DependencyKind, Dependency>,
    pub handler: H,
    pub default_handler: DefaultHandler<D>,
    pub error_handler: ErrorHandler<E>,
}

impl<H, D, E> View for WorkerTask<H, D, E> {
    type V = WorkerTaskView<H, D, E>;

    open spec fn view(&self) -> WorkerTaskView<H, D, E> {
        WorkerTaskView {
            kind: self.kind,
            dependencies: dependency_contents(*self.deps),
            handler: *self.handler,
            default_handler: self.default_handler,
            error_handler: self.error_handler,
        }
    }
}

/// A worker, as its dispatcher sees it.
pub struct Worker {
    pub id: WorkerId,
    /// Where the worker's updates are sent.
    pub tx: Sender<Update>,
}

impl Worker {
    /// `task` is the worker's task: it consumes what is sent to the worker, in the way
    /// that the worker is for.
    pub open spec fn runs<H, D, E>(self, task: WorkerTask<H, D, E>) -> bool {
        &&& task.kind == self.id.kind
        &&& queue_connects(self.tx, task.updates)
    }
}

/// Makes a worker that consumes its updates one after another, and the task that has
/// to be started for it. Its queue holds `queue_size` updates.
pub fn spawn_worker<H, D, E>(
    number: usize,
    deps: DependencyMap,
    handler: Arc<H>,
    default_handler: DefaultHandler<D>,
    error_handler: ErrorHandler<E>,
    queue_size: usize,
) -> (spawned: (Worker, WorkerTask<H, D, E>))
    requires
        valid_queue_size(queue_size),
    ensures
        spawned.0.id == (WorkerId { kind: WorkerKind::Sequential, number }),
        queue_bound(spawned.0.tx) == queue_size,
        spawned.0.runs(spawned.1),
        spawned.1@ == (WorkerTaskView {
            kind: WorkerKind::Sequential,
            dependencies: dependency_contents(deps),
            handler: *handler,
            default_handler,
            error_handler,
        }),
{
    let (tx, updates) = update_queue(queue_size);
    let worker = Worker { id: WorkerId { kind: WorkerKind::Sequential, number }, tx };
    let task = WorkerTask {
        kind: WorkerKind::Sequential,
        updates,
        deps: Arc::new(deps),
        handler,
        default_handler,
        error_handler,
    };
    (worker, task)
}

/// Makes a worker that consumes its updates concurrently, and the task that has to be
/// started for it. Its queue holds `queue_size` updates.
pub fn spawn_default_worker<H, D, E>(
    deps: DependencyMap,
    handler: Arc<H>,
    default_handler: DefaultHandler<D>,
    error_handler: ErrorHandler<E>,
    queue_size: usize,
) -> (spawned: (Worker, WorkerTask<H, D, E>))
    requires
        valid_queue_size(queue_size),
    ensures
        spawned.0.id == (WorkerId { kind: WorkerKind::Concurrent, number: 0 }),
        queue_bound(spawned.0.tx) == queue_size,
        spawned.0.runs(spawned.1),
        spawned.1@ == (WorkerTaskView {
            kind: WorkerKind::Concurrent,
            dependencies: dependency_contents(deps),
            handler: *handler,
            default_handler,
            error_handler,
        }),
{
    let (tx, updates) = update_queue(queue_size);
    let worker = Worker { id: WorkerId { kind: WorkerKind::Concurrent, number: 0 }, tx };
    let task = WorkerTask {
        kind: WorkerKind::Concurrent,
        updates,
        deps: Arc::new(deps),
        handler,
        default_handler,
        error_handler,
    };
    (worker, task)
}

} // verus!
