//! The dispatcher and its builder.

use std::collections::hash_map::Entry;
use std::collections::HashMap;
use std::hash::Hash;
use std::sync::Arc;

use dptree::di::DependencyMap;
use tokio::task::JoinHandle;
use vstd::prelude::*;
use vstd::std_specs::hash::{group_hash_axioms, obeys_key_model};

use crate::dependencies::{
    copy_dependencies, dependency_contents, insert_dependency, no_dependencies,
    session_dependencies, Dependency, DependencyKind,
};
use crate::listening::{Listening, ListeningView, Phase};
use crate::queue::{is_valid_queue_size, queue_bound, valid_queue_size};
use crate::shutdown::{
    AlreadyRunning, IdleShutdownError, ShutdownState, ShutdownToken, Transition,
};
use crate::types::{default_distribution_function, Bot, DefaultKey, Me, Update, UpdateKind};
use crate::worker::{
    spawn_default_worker, spawn_worker, DefaultHandler, ErrorHandler, Worker, WorkerId,
    WorkerKind, WorkerTask, WorkerTaskView,
};

verus! {

/// How many updates a worker's queue holds, unless the builder is told otherwise.
pub const DEFAULT_WORKER_QUEUE_SIZE: usize = 64;

/// The builder for [`Dispatcher`].
///
/// `H` is the type of the handler, `D` and `E` are those of the default handler
/// and the error handler, and `F` is that of the distribution function.
pub struct DispatcherBuilder<H, D, E, F> {
    bot: Bot,
    dependencies: DependencyMap,
    handler: Arc<H>,
    default_handler: DefaultHandler<D>,
    error_handler: ErrorHandler<E>,
    distribution_f: F,
    worker_queue_size: usize,
}

/// What a [`DispatcherBuilder`] has been told.
pub struct DispatcherBuilderView<H, D, E, F> {
    pub bot: Bot,
    pub dependencies: Map<DependencyKind, Dependency>,
    pub handler: H,
    pub default_handler: DefaultHandler<D>,
    pub error_handler: ErrorHandler<E>,
    pub distribution_f: F,
    pub worker_queue_size: usize,
}

impl<H, D, E, F> View for DispatcherBuilder<H, D, E, F> {
    type V = DispatcherBuilderView<H, D, E, F>;

    closed spec fn view(&self) -> DispatcherBuilderView<H, D, E, F> {
        DispatcherBuilderView {
            bot: self.bot,
            dependencies: dependency_contents(self.dependencies),
            handler: *self.handler,
            default_handler: self.default_handler,
            error_handler: self.error_handler,
            distribution_f: self.distribution_f,
            worker_queue_size: self.worker_queue_size,
        }
    }
}

impl<H, D, E, F> DispatcherBuilder<H, D, E, F> {
    /// Specifies a handler that will be called for an unhandled update.
    ///
    /// By default, a warning is logged.
    #[must_use]
    pub fn default_handler(self, handler: D) -> (builder: Self)
        ensures
            builder@ == (DispatcherBuilderView {
                default_handler: DefaultHandler::Custom(Arc::new(handler)),
                ..self@
            }),
    {
        DispatcherBuilder { default_handler: DefaultHandler::Custom(Arc::new(handler)), ..self }
    }

    /// Specifies a handler that will be called on a handler error.
    ///
    /// By default, the error is logged.
    #[must_use]
    pub fn error_handler(self, handler: Arc<E>) -> (builder: Self)
        ensures
            builder@ == (DispatcherBuilderView {
                error_handler: ErrorHandler::Custom(handler),
                ..self@
            }),
    {
        DispatcherBuilder { error_handler: ErrorHandler::Custom(handler), ..self }
    }

    /// Specifies dependencies that can be used inside of handlers.
    ///
    /// By default, there are none.
    #[must_use]
    pub fn dependencies(self, dependencies: DependencyMap) -> (builder: Self)
        ensures
            builder@ == (DispatcherBuilderView {
                dependencies: dependency_contents(dependencies),
                ..self@
            }),
    {
        DispatcherBuilder { dependencies, ..self }
    }

    /// Specifies the size of the queue for workers. No worker can be spawned with a
    /// size that is zero or too large for a queue.
    ///
    /// By default, it is [`DEFAULT_WORKER_QUEUE_SIZE`].
    #[must_use]
    pub fn worker_queue_size(self, size: usize) -> (builder: Self)
        ensures
            builder@ == (DispatcherBuilderView { worker_queue_size: size, ..self@ }),
    {
        DispatcherBuilder { worker_queue_size: size, ..self }
    }

    /// Specifies the distribution function that decides how updates are grouped
    /// before execution.
    pub fn distribution_function<Key, G>(self, f: G) -> (builder: DispatcherBuilder<
        H,
        D,
        E,
        G,
    >) where G: Fn(&Update) -> Option<Key>, Key: Hash + Eq
        ensures
            builder@ == (DispatcherBuilderView {
                bot: self@.bot,
                dependencies: self@.dependencies,
                handler: self@.handler,
                default_handler: self@.default_handler,
                error_handler: self@.error_handler,
                distribution_f: f,
                worker_queue_size: self@.worker_queue_size,
            }),
    {
        let DispatcherBuilder {
            bot,
            dependencies,
            handler,
            default_handler,
            error_handler,
            distribution_f: _,
            worker_queue_size,
        } = self;

        DispatcherBuilder {
            bot,
            dependencies,
            handler,
            default_handler,
            error_handler,
            distribution_f: f,
            worker_queue_size,
        }
    }

    /// Constructs [`Dispatcher`]: it has no workers, is not dispatching, and has a
    /// token of its own.
    #[must_use]
    pub fn build<Key>(self) -> (dispatcher: Dispatcher<H, D, E, Key, F>) where
        F: Fn(&Update) -> Option<Key>,
        Key: Hash + Eq,

        ensures
            dispatcher.wf(),
            dispatcher@ == (DispatcherView {
                bot: self@.bot,
                dependencies: self@.dependencies,
                handler: self@.handler,
                default_handler: self@.default_handler,
                error_handler: self@.error_handler,
                distribution_f: self@.distribution_f,
                worker_queue_size: self@.worker_queue_size,
                workers: Map::<Key, Worker>::empty(),
                default_worker: None,
                handles: Seq::<(WorkerId, JoinHandle<()>)>::empty(),
                running: false,
                state: dispatcher@.state,
            }),
            dispatcher@.state.initial() is Idle,
            dispatcher@.state.made_with(ShutdownState::Idle),
    {
        let DispatcherBuilder {
            bot,
            dependencies,
            handler,
            default_handler,
            error_handler,
            distribution_f,
            worker_queue_size,
        } = self;

        let dispatcher = Dispatcher {
            bot,
            dependencies,
            handler,
            default_handler,
            distribution_f,
            worker_queue_size,
            slots: HashMap::new(),
            pool: Vec::new(),
            default_worker: None,
            handles: Vec::new(),
            error_handler,
            running: false,
            state: ShutdownToken::new(),
        };
        assert(dispatcher@.workers =~= Map::<Key, Worker>::empty());
        dispatcher
    }
}

/// The base for update dispatching.
///
/// Updates from different chats are handled concurrently, whereas updates from
/// the same chats are handled sequentially. If the dispatcher is unable to
/// determine a chat ID of an incoming update, it will be handled concurrently.
/// Note that this behaviour can be altered with [`distribution_function`].
///
/// The keys of a distribution function are kept in a [`HashMap`], so their `Hash`
/// and `Eq` have to be as it demands.
///
/// [`distribution_function`]: DispatcherBuilder::distribution_function
#[verifier::reject_recursive_types(Key)]
pub struct Dispatcher<H, D, E, Key, F> {
    bot: Bot,
    dependencies: DependencyMap,
    handler: Arc<H>,
    default_handler: DefaultHandler<D>,
    distribution_f: F,
    worker_queue_size: usize,
    // Where in `pool` the worker of each key is.
    slots: HashMap<Key, usize>,
    // The workers that consume updates sequentially, in the order of spawning.
    pool: Vec<Worker>,
    // The worker that consumes updates concurrently.
    default_worker: Option<Worker>,
    // The handles of the workers' tasks, as they were started.
    handles: Vec<(WorkerId, JoinHandle<()>)>,
    error_handler: ErrorHandler<E>,
    // Dispatching was started and has not ended.
    running: bool,
    state: ShutdownToken,
}

/// The state of a [`Dispatcher`].
#[verifier::reject_recursive_types(Key)]
pub struct DispatcherView<H, D, E, Key, F> {
    pub bot: Bot,
    pub dependencies: Map<DependencyKind, Dependency>,
    pub handler: H,
    pub default_handler: DefaultHandler<D>,
    pub error_handler: ErrorHandler<E>,
    pub distribution_f: F,
    pub worker_queue_size: usize,
    /// The worker of each key.
    pub workers: Map<Key, Worker>,
    /// The worker of updates without a key.
    pub default_worker: Option<Worker>,
    /// The handles of the workers' tasks that have been started, in that order.
    pub handles: Seq<(WorkerId, JoinHandle<()>)>,
    /// Dispatching was started and has not ended.
    pub running: bool,
    pub state: ShutdownToken,
}

impl<H, D, E, Key, F> View for Dispatcher<H, D, E, Key, F> {
    type V = DispatcherView<H, D, E, Key, F>;

    closed spec fn view(&self) -> DispatcherView<H, D, E, Key, F> {
        DispatcherView {
            bot: self.bot,
            dependencies: dependency_contents(self.dependencies),
            handler: *self.handler,
            default_handler: self.default_handler,
            error_handler: self.error_handler,
            distribution_f: self.distribution_f,
            worker_queue_size: self.worker_queue_size,
            workers: self.slots@.map_values(|slot: usize| self.pool@[slot as int]),
            default_worker: self.default_worker,
            handles: self.handles@,
            running: self.running,
            state: self.state,
        }
    }
}

impl<H, D, E, Key, F> DispatcherView<H, D, E, Key, F> {
    /// Every worker was spawned for what it is used for: the workers of the keys
    /// consume sequentially and are numbered from zero, the default worker consumes
    /// concurrently, and every queue has the size that was asked for.
    pub open spec fn valid(self) -> bool {
        &&& self.workers.dom().finite()
        &&& forall|key: Key| #[trigger]
            self.workers.contains_key(key) ==> {
                &&& self.workers[key].id.kind is Sequential
                &&& self.workers[key].id.number < self.workers.dom().len()
                &&& queue_bound(self.workers[key].tx) == self.worker_queue_size
            }
        &&& forall|one: Key, other: Key| #[trigger]
            self.workers.contains_key(one) && #[trigger] self.workers.contains_key(other) && one
                != other ==> self.workers[one].id != self.workers[other].id
        &&& self.default_worker matches Some(worker) ==> {
            &&& worker.id == (WorkerId { kind: WorkerKind::Concurrent, number: 0 })
            &&& queue_bound(worker.tx) == self.worker_queue_size
        }
        &&& self.workers.dom().len() > 0 || self.default_worker is Some ==> valid_queue_size(
            self.worker_queue_size,
        )
    }

    /// The worker of the updates with this key, or of those without a key.
    pub open spec fn worker_of(self, key: Option<Key>) -> Option<Worker> {
        match key {
            Some(key) => if self.workers.contains_key(key) {
                Some(self.workers[key])
            } else {
                None
            },
            None => self.default_worker,
        }
    }

    /// The state with a worker for the updates with this key, or for those without
    /// a key.
    pub open spec fn with_worker(self, key: Option<Key>, worker: Worker) -> Self {
        match key {
            Some(key) => DispatcherView { workers: self.workers.insert(key, worker), ..self },
            None => DispatcherView { default_worker: Some(worker), ..self },
        }
    }

    /// The state with the dependencies of a round of dispatching. `me` is what the
    /// messaging service knows about the bot.
    pub open spec fn with_session(self, me: Me) -> Self {
        DispatcherView {
            dependencies: session_dependencies(self.dependencies, me, self.bot),
            ..self
        }
    }

    /// A look at the shared state, which found that `history` had led to it, tells the
    /// dispatcher to shut down.
    pub open spec fn is_told_to_stop(self, history: Seq<Transition>) -> bool {
        self.running && self.state.state_after(history) is ShuttingDown
    }

    /// The state without any worker.
    pub open spec fn without_workers(self) -> Self {
        DispatcherView {
            workers: Map::<Key, Worker>::empty(),
            default_worker: None,
            handles: Seq::<(WorkerId, JoinHandle<()>)>::empty(),
            ..self
        }
    }

    /// The state after the task of `worker` was started, with this handle.
    pub open spec fn with_handle(self, worker: WorkerId, handle: JoinHandle<()>) -> Self {
        DispatcherView { handles: self.handles.push((worker, handle)), ..self }
    }

    /// What the worker of the updates with this key, or of those without a key, is
    /// started with.
    pub open spec fn task_for(self, key: Option<Key>) -> WorkerTaskView<H, D, E> {
        WorkerTaskView {
            kind: if key is Some {
                WorkerKind::Sequential
            } else {
                WorkerKind::Concurrent
            },
            dependencies: self.dependencies,
            handler: self.handler,
            default_handler: self.default_handler,
            error_handler: self.error_handler,
        }
    }

    /// `worker` can be new in this state, as the one of the updates with this key, or
    /// of those without a key: it consumes its updates in the right way, has the next
    /// number, and has a queue of the size that was asked for.
    pub open spec fn is_new(self, key: Option<Key>, worker: Worker) -> bool {
        &&& worker.id.kind == self.task_for(key).kind
        &&& worker.id.number == (if key is Some {
            self.workers.dom().len()
        } else {
            0
        })
        &&& queue_bound(worker.tx) == self.worker_queue_size
        &&& valid_queue_size(self.worker_queue_size)
    }

    /// In this state `task` has to be started for `worker`, the one of the updates with
    /// this key, or of those without a key: a task of the worker's own if the worker is
    /// new, and nothing otherwise.
    pub open spec fn spawns(
        self,
        key: Option<Key>,
        worker: Worker,
        task: Option<WorkerTask<H, D, E>>,
    ) -> bool {
        match task {
            Some(task) => {
                &&& self.worker_of(key) is None
                &&& self.is_new(key, worker)
                &&& worker.runs(task)
                &&& task@ == self.task_for(key)
            },
            None => self.worker_of(key) is Some,
        }
    }

    /// In this state an update with this key, or without a key, goes to `worker`,
    /// and the state is then `after`: a worker that is there stays, one that is not
    /// there is added, and nothing else changes.
    pub open spec fn routes(self, key: Option<Key>, worker: Worker, after: Self) -> bool {
        match self.worker_of(key) {
            Some(present) => worker == present && after == self,
            None => after == self.with_worker(key, worker),
        }
    }
}

impl<H, D, E, F, Key> DispatcherView<H, D, E, Key, F> where F: Fn(&Update) -> Option<Key> {
    /// If `update` is to be sent to a worker, then the distribution function can be
    /// asked for its key, and a worker can be spawned for it.
    pub open spec fn accepts(self, update: Update) -> bool {
        update.is_parsed() ==> {
            &&& call_requires(self.distribution_f, (&update,))
            &&& valid_queue_size(self.worker_queue_size)
        }
    }

    /// The distribution function may give `update` this key, or none.
    pub open spec fn assigns(self, update: Update, key: Option<Key>) -> bool {
        call_ensures(self.distribution_f, (&update,), key)
    }

    /// In this state `update` is sent to `worker`, after `task` was started, and the
    /// state is then `after`: the worker is the one of the key that the distribution
    /// function gives the update.
    pub open spec fn delivers(
        self,
        update: Update,
        worker: Worker,
        task: Option<WorkerTask<H, D, E>>,
        after: Self,
    ) -> bool {
        exists|key: Option<Key>| #[trigger]
            self.assigns(update, key) && self.routes(key, worker, after) && self.spawns(
                key,
                worker,
                task,
            )
    }

    /// In this state what the listener produced is answered by `action`, and the
    /// state is then `after`.
    pub open spec fn processes<Error>(
        self,
        update: Result<Update, Error>,
        action: Action<H, D, E, Error>,
        after: Self,
    ) -> bool {
        match update {
            Err(error) => action == Action::<H, D, E, Error>::HandleListenerError(error) && after
                == self,
            Ok(update) => match update.kind {
                UpdateKind::Error(error) => action == Action::<H, D, E, Error>::ReportUnparsed(
                    error,
                ) && after == self,
                UpdateKind::Event(_) => {
                    &&& action is Send
                    &&& action->update == update
                    &&& self.delivers(update, *action->worker, action->task, after)
                },
            },
        }
    }
}

impl<H, D, E, Key, F> Dispatcher<H, D, E, Key, F> {
    /// The dispatcher is in a state that its operations can lead to.
    pub closed spec fn wf(&self) -> bool {
        &&& self@.valid()
        &&& self.slots@.dom().len() == self.pool@.len()
        &&& forall|key: Key| #[trigger]
            self.slots@.contains_key(key) ==> self.slots@[key] < self.pool@.len()
        &&& forall|slot: int|
            0 <= slot < self.pool@.len() ==> (#[trigger] self.pool@[slot]).id.number == slot
    }

    /// The workers of a well-formed dispatcher are what they are used for.
    pub proof fn law_workers_valid(&self)
        requires
            self.wf(),
        ensures
            self@.valid(),
    {
    }
}

/// What has to be done with what the listener produced.
pub enum Action<'a, H, D, E, Error> {
    /// The update could not be parsed, for this reason: log that.
    ReportUnparsed(String),
    /// The listener failed: hand the error to the listener's error handler.
    HandleListenerError(Error),
    /// Start the task, if there is one, and send the update to the worker.
    Send { worker: &'a Worker, update: Update, task: Option<WorkerTask<H, D, E>> },
}

impl<'a, H, D, E, Error> Action<'a, H, D, E, Error> {
    /// The worker whose task has to be started.
    pub open spec fn starts(self) -> Option<WorkerId> {
        if self is Send && self->task is Some {
            Some(self->worker.id)
        } else {
            None
        }
    }

    /// The worker whose task has to be started.
    pub(crate) fn starting(&self) -> (worker: Option<WorkerId>)
        ensures
            worker == self.starts(),
    {
        match self {
            Action::Send { worker, task: Some(_), .. } => Some(worker.id),
            _ => None,
        }
    }
}

/// What has to be done about an interrupt signal.
#[derive(Clone, Copy, Debug, PartialEq, Eq, Structural)]
pub enum SignalResponse {
    /// The dispatcher is shutting down: wait until it is shut down.
    AwaitShutdown,
    /// The dispatcher is not running: ignore the signal.
    Ignore,
}

impl SignalResponse {
    /// What has to be done about an interrupt signal, by the answer to the request
    /// to shut down that it led to.
    pub fn to_request(request: Result<(), IdleShutdownError>) -> (response: SignalResponse)
        ensures
            response == (if request is Ok {
                SignalResponse::AwaitShutdown
            } else {
                SignalResponse::Ignore
            }),
    {
        match request {
            Ok(_) => SignalResponse::AwaitShutdown,
            Err(_) => SignalResponse::Ignore,
        }
    }
}

/// Shuts a dispatcher down on an interrupt signal.
pub struct CtrlcHandler {
    token: ShutdownToken,
}

impl View for CtrlcHandler {
    type V = ShutdownToken;

    closed spec fn view(&self) -> ShutdownToken {
        self.token
    }
}

impl CtrlcHandler {
    /// Requests that dispatching stops, and tells what else has to be done.
    pub fn on_signal(&self) -> (response: SignalResponse)
        ensures
            exists|history: Seq<Transition>| #[trigger]
                self@.replaced(history, Transition::Shutdown) && (response is AwaitShutdown) == (
                self@.state_after(history).shutdown_result() is Ok),
    {
        assert(self@ == self.token);
        SignalResponse::to_request(self.token.shutdown())
    }
}

impl<H, D, E> Dispatcher<H, D, E, DefaultKey, ()> {
    /// Constructs a new [`DispatcherBuilder`] with `bot` and `handler`.
    #[must_use]
    pub fn builder(bot: Bot, handler: H) -> (builder: DispatcherBuilder<
        H,
        D,
        E,
        impl Fn(&Update) -> Option<DefaultKey>,
    >)
        ensures
            builder@.bot == bot,
            builder@.dependencies == Map::<DependencyKind, Dependency>::empty(),
            builder@.handler == handler,
            builder@.default_handler is LogWarning,
            builder@.error_handler is Logging,
            builder@.worker_queue_size == DEFAULT_WORKER_QUEUE_SIZE,
            forall|update: &Update| #[trigger] call_requires(builder@.distribution_f, (update,)),
            forall|update: &Update, key: Option<DefaultKey>| #[trigger]
                call_ensures(builder@.distribution_f, (update,), key) ==> key == update.chat,
    {
        let by_chat = |update: &Update| -> (key: Option<DefaultKey>)
            ensures
                key == update.chat,
            { default_distribution_function(update) };

        DispatcherBuilder {
            bot,
            dependencies: no_dependencies(),
            handler: Arc::new(handler),
            default_handler: DefaultHandler::LogWarning,
            error_handler: ErrorHandler::Logging,
            distribution_f: by_chat,
            worker_queue_size: DEFAULT_WORKER_QUEUE_SIZE,
        }
    }
}

impl<H, D, E, Key, F> Dispatcher<H, D, E, Key, F> where
    F: Fn(&Update) -> Option<Key>,
    Key: Hash + Eq,
 {
    /// Starts dispatching updates of a listener, whose stop token is `stop_token`.
    /// `me` is what the messaging service knows about the bot.
    ///
    /// Each time a handler is invoked, [`Dispatcher`] adds the following
    /// dependencies (in addition to those passed to
    /// [`DispatcherBuilder::dependencies`]):
    ///
    ///  - Your bot passed to [`Dispatcher::builder`];
    ///  - An update;
    ///  - [`Me`].
    ///
    /// The bot and `me` are added here, whether or not dispatching can be started: it
    /// can if, and only if, it is not running. The start is made in the state that the
    /// dispatcher shares with its tokens.
    pub fn dispatch_with_listener<T>(&mut self, me: Me, stop_token: T) -> (listening: Result<
        Listening<T>,
        AlreadyRunning,
    >)
        requires
            old(self).wf(),
        ensures
            final(self).wf(),
            final(self)@ == (DispatcherView { running: true, ..old(self)@.with_session(me) }),
            match listening {
                Ok(listening) => {
                    &&& !old(self)@.running
                    &&& listening@ == (ListeningView {
                        phase: Phase::Polling,
                        stop_token: Some(stop_token),
                    })
                    &&& exists|history: Seq<Transition>| #[trigger]
                        old(self)@.state.replaced(history, Transition::Start)
                },
                Err(error) => {
                    &&& old(self)@.running
                    &&& exists|history: Seq<Transition>| #[trigger]
                        old(self)@.state.was_read(history) && error.found == (if old(
                            self)@.is_told_to_stop(history) {
                            ShutdownState::ShuttingDown
                        } else {
                            ShutdownState::Running
                        })
                },
            },
    {
        insert_dependency(&mut self.dependencies, me);
        insert_dependency(&mut self.dependencies, self.bot.clone());

        if self.running {
            let found = if self.is_shutting_down() {
                ShutdownState::ShuttingDown
            } else {
                ShutdownState::Running
            };
            Err(AlreadyRunning { found })
        } else {
            self.state.start_dispatching();
            self.running = true;
            Ok(Listening::new(stop_token))
        }
    }

    /// Looks whether the dispatcher is to shut down: whether it is dispatching, and a
    /// holder of its token has requested it.
    pub(crate) fn is_shutting_down(&self) -> (result: bool)
        ensures
            exists|history: Seq<Transition>| #[trigger]
                self@.state.was_read(history) && result == self@.is_told_to_stop(history),
    {
        assert(self@.state == self.state);
        let requested = self.state.is_shutting_down();
        self.running && requested
    }

    /// Keeps the handle of the task that was started for a worker.
    pub fn add_handle(&mut self, worker: WorkerId, handle: JoinHandle<()>)
        requires
            old(self).wf(),
        ensures
            final(self).wf(),
            final(self)@ == old(self)@.with_handle(worker, handle),
    {
        self.handles.push((worker, handle));
        assert(self@.workers =~= old(self)@.workers);
    }

    /// Takes all workers, when the listener has ended, and returns the handles of their
    /// tasks, in the order in which they were started. The senders of their queues are
    /// dropped; that a queue is closed thereby, so that its task ends when it has
    /// consumed what is left, is up to `tokio` and no part of the contract.
    pub fn take_workers(&mut self) -> (handles: Vec<JoinHandle<()>>)
        requires
            old(self).wf(),
        ensures
            final(self).wf(),
            final(self)@ == old(self)@.without_workers(),
            handles@ == old(self)@.handles.map_values(|started: (WorkerId, JoinHandle<()>)| started.1),
    {
        let mut taken: Vec<(WorkerId, JoinHandle<()>)> = Vec::new();
        std::mem::swap(&mut taken, &mut self.handles);
        self.slots.clear();
        self.pool.clear();
        self.default_worker = None;

        let ghost started = taken@;
        let mut handles: Vec<JoinHandle<()>> = Vec::new();
        for entry in it: taken.into_iter()
            invariant
                it.seq() == started,
                handles@.len() == it.index(),
                forall|i: int| 0 <= i < it.index() ==> #[trigger] handles@[i] == started[i].1,
        {
            handles.push(entry.1);
        }
        assert(self@.workers =~= Map::<Key, Worker>::empty());
        handles
    }

    /// Ends dispatching, when all workers have ended: it can then be started again.
    /// The state that the dispatcher shares with its tokens is made idle. Tells whether
    /// it was shut down, so that somebody waits for that.
    pub(crate) fn done(&mut self) -> (requested: bool)
        requires
            old(self).wf(),
        ensures
            final(self).wf(),
            final(self)@ == (DispatcherView { running: false, ..old(self)@ }),
            exists|history: Seq<Transition>| #[trigger]
                old(self)@.state.replaced(history, Transition::End) && requested == old(
                self)@.is_told_to_stop(history),
    {
        let requested = self.state.done() && self.running;
        self.running = false;
        requested
    }

    /// Prepares a handler of interrupt signals that shuts dispatching down.
    pub fn setup_ctrlc_handler(&self) -> (handler: CtrlcHandler)
        ensures
            handler@ == self@.state,
    {
        CtrlcHandler { token: self.shutdown_token() }
    }

    /// The handler that the dispatcher was built with.
    pub fn handler(&self) -> (handler: &H)
        ensures
            *handler == self@.handler,
    {
        &self.handler
    }

    /// Returns a shutdown token, which can later be used to shutdown
    /// dispatching.
    pub fn shutdown_token(&self) -> (token: ShutdownToken)
        ensures
            token == self@.state,
    {
        self.state.clone()
    }

    /// Tells whether workers can be spawned: whether their queues can have the size
    /// that was asked for. An update that needs a worker is accepted only then.
    pub fn can_spawn(&self) -> (can: bool)
        ensures
            can == valid_queue_size(self@.worker_queue_size),
    {
        is_valid_queue_size(self.worker_queue_size)
    }

    /// Finds the worker for an update with this key, or without a key. Where there is
    /// none yet, makes one, and returns the task that has to be started for it; where
    /// there is one, nothing has to be started.
    pub fn route(&mut self, key: Option<Key>) -> (routed: (&Worker, Option<WorkerTask<H, D, E>>))
        requires
            old(self).wf(),
            obeys_key_model::<Key>(),
            old(self)@.worker_of(key) is None ==> valid_queue_size(old(self)@.worker_queue_size),
        ensures
            final(self).wf(),
            old(self)@.routes(key, *routed.0, final(self)@),
            old(self)@.spawns(key, *routed.0, routed.1),
    {
        broadcast use group_hash_axioms;

        match key {
            Some(key) => {
                let ghost routed = key;
                let next: usize = self.pool.len();
                let (slot, task): (usize, Option<WorkerTask<H, D, E>>) = match self.slots.entry(
                    key,
                ) {
                    Entry::Occupied(entry) => (*entry.get(), None),
                    Entry::Vacant(entry) => {
                        let (worker, task) = spawn_worker(
                            next,
                            copy_dependencies(&self.dependencies),
                            Arc::clone(&self.handler),
                            self.default_handler.clone(),
                            self.error_handler.clone(),
                            self.worker_queue_size,
                        );
                        assert(old(self)@.workers.dom() =~= old(self).slots@.dom());
                        self.pool.push(worker);
                        entry.insert(next);
                        (next, Some(task))
                    },
                };
                proof {
                    let before = old(self)@;
                    let worker = self.pool@[slot as int];
                    if before.workers.contains_key(routed) {
                        assert(self.slots@ =~= old(self).slots@);
                        assert(self@.workers =~= before.workers);
                    } else {
                        assert(self.slots@ =~= old(self).slots@.insert(routed, next));
                        assert(self@.workers =~= before.workers.insert(routed, worker));
                        assert(self@.workers.dom() =~= before.workers.dom().insert(routed));
                    }
                    assert(before.routes(Some(routed), worker, self@));
                    assert(before.spawns(Some(routed), worker, task));
                }
                (&self.pool[slot], task)
            },
            None => {
                let task = if self.default_worker.is_none() {
                    let (worker, task) = spawn_default_worker(
                        copy_dependencies(&self.dependencies),
                        Arc::clone(&self.handler),
                        self.default_handler.clone(),
                        self.error_handler.clone(),
                        self.worker_queue_size,
                    );
                    self.default_worker = Some(worker);
                    Some(task)
                } else {
                    None
                };
                (self.default_worker.as_ref().unwrap(), task)
            },
        }
    }

    /// Decides what to do with what the listener produced: an error goes to the
    /// listener's error handler, an update that could not be parsed is reported, and
    /// any other update is sent to the worker of its key. Where that worker is new, its
    /// task has to be started.
    pub fn process_update<Error>(&mut self, update: Result<Update, Error>) -> (action: Action<
        '_,
        H,
        D,
        E,
        Error,
    >)
        requires
            old(self).wf(),
            obeys_key_model::<Key>(),
            update matches Ok(update) ==> old(self)@.accepts(update),
        ensures
            final(self).wf(),
            old(self)@.processes(update, action, final(self)@),
    {
        match update {
            Ok(update) => match update.kind {
                UpdateKind::Error(error) => Action::ReportUnparsed(error),
                UpdateKind::Event(body) => {
                    let update = Update {
                        id: update.id,
                        chat: update.chat,
                        kind: UpdateKind::Event(body),
                    };
                    let key = (self.distribution_f)(&update);
                    assert(self@.assigns(update, key));
                    let (worker, task) = self.route(key);
                    let action = Action::Send { worker, update, task };
                    assert(old(self)@.assigns(action->update, key));
                    action
                },
            },
            Err(error) => Action::HandleListenerError(error),
        }
    }
}

} // verus!
