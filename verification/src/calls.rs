//! What the calls of the library do, each told by what it is given and what it
//! returns, and how calls that follow one another relate.

use std::hash::Hash;
use std::ops::ControlFlow;
use std::sync::Arc;

use dptree::di::DependencyMap;
use tokio::task::JoinHandle;
use vstd::prelude::*;
use vstd::std_specs::hash::obeys_key_model;

use crate::dependencies::{dependency_contents, Dependency, DependencyKind};
use crate::dispatcher::{Action, CtrlcHandler, Dispatcher, DispatcherBuilder, SignalResponse};
use crate::handling::{after_dispatch, handle_update, try_after_dispatch, Reaction};
use crate::laws::{
    is_dispatching, is_requested_to_stop, law_history, requested_at, started_at,
};
use crate::listening::{Event, Listening, Step};
use crate::queue::{is_valid_queue_size, queue_bound, queue_connects};
use crate::shutdown::{
    AlreadyRunning, IdleShutdownError, ShutdownState, ShutdownToken, Transition,
};
use crate::types::{default_distribution_function, Bot, DefaultKey, Me, Update, UpdateKind};
use crate::worker::{
    spawn_default_worker, spawn_worker, DefaultHandler, ErrorHandler, Worker, WorkerId,
    WorkerTask,
};

verus! {

/// An error that a handler returned goes to the error handler, if there is one, and is
/// logged otherwise, whatever the default handler is.
pub proof fn law_error_is_handled<D, E, Error>(
    error: Error,
    default_handler: &DefaultHandler<D>,
    error_handler: &ErrorHandler<E>,
    reaction: Reaction<D, E, Error>,
)
    requires
        call_ensures(
            after_dispatch::<D, E, Error>,
            (ControlFlow::Break(Err(error)), default_handler, error_handler),
            reaction,
        ),
    ensures
        match *error_handler {
            ErrorHandler::Custom(handler) => reaction == Reaction::<D, E, Error>::HandleError(
                handler,
                error,
            ),
            ErrorHandler::Logging => reaction == Reaction::<D, E, Error>::LogError(error),
        },
{
}

/// An update that no handler took goes to the default handler, if there is one, and is
/// logged otherwise, whatever the update and the error handler are.
pub proof fn law_unhandled_update_is_handled<D, E, Error>(
    deps: DependencyMap,
    update: Update,
    default_handler: &DefaultHandler<D>,
    error_handler: &ErrorHandler<E>,
    reaction: Reaction<D, E, Error>,
)
    requires
        dependency_contents(deps).contains_key(DependencyKind::Update),
        dependency_contents(deps)[DependencyKind::Update] == Dependency::Update(update),
        call_ensures(
            after_dispatch::<D, E, Error>,
            (ControlFlow::Continue(deps), default_handler, error_handler),
            reaction,
        ),
    ensures
        match *default_handler {
            DefaultHandler::Custom(handler) => {
                &&& reaction is HandleUnhandled
                &&& reaction->HandleUnhandled_0 == handler
                &&& *reaction->HandleUnhandled_1 == update
            },
            DefaultHandler::LogWarning => {
                &&& reaction is LogUnhandled
                &&& *reaction->LogUnhandled_0 == update
            },
        },
{
}

/// An update that a handler took needs nothing more, whatever handlers there are.
pub proof fn law_handled_update_is_done<D, E, Error>(
    default_handler: &DefaultHandler<D>,
    error_handler: &ErrorHandler<E>,
    reaction: Reaction<D, E, Error>,
)
    requires
        call_ensures(
            after_dispatch::<D, E, Error>,
            (ControlFlow::Break(Ok(())), default_handler, error_handler),
            reaction,
        ),
    ensures
        reaction is Handled,
{
}

/// The handling of an update can be finished whatever the handler returned, unless it
/// passed on dependencies without an update; and it can always be tried.
pub proof fn law_handling_can_be_finished<D, E, Error>(
    flow: ControlFlow<Result<(), Error>, DependencyMap>,
    default_handler: &DefaultHandler<D>,
    error_handler: &ErrorHandler<E>,
)
    ensures
        match flow {
            ControlFlow::Break(_) => true,
            ControlFlow::Continue(deps) => dependency_contents(deps).contains_key(
                DependencyKind::Update,
            ),
        } ==> call_requires(after_dispatch::<D, E, Error>, (flow, default_handler, error_handler)),
        call_requires(try_after_dispatch::<D, E, Error>, (flow, default_handler, error_handler)),
{
}

/// Trying to finish the handling of an update fails if, and only if, the handler passed
/// on dependencies without an update. Otherwise it finishes it: an error and an update
/// go where [`law_error_is_handled`] and [`law_unhandled_update_is_handled`] say.
pub proof fn law_handling_is_tried<D, E, Error>(
    flow: ControlFlow<Result<(), Error>, DependencyMap>,
    default_handler: &DefaultHandler<D>,
    error_handler: &ErrorHandler<E>,
    tried: Option<Reaction<D, E, Error>>,
)
    requires
        call_ensures(
            try_after_dispatch::<D, E, Error>,
            (flow, default_handler, error_handler),
            tried,
        ),
    ensures
        match flow {
            ControlFlow::Break(Ok(_)) => tried == Some(Reaction::<D, E, Error>::Handled),
            ControlFlow::Break(Err(error)) => tried == Some(
                match *error_handler {
                    ErrorHandler::Custom(handler) => Reaction::<D, E, Error>::HandleError(
                        handler,
                        error,
                    ),
                    ErrorHandler::Logging => Reaction::<D, E, Error>::LogError(error),
                },
            ),
            ControlFlow::Continue(deps) => {
                let held = dependency_contents(deps);
                &&& tried is Some <==> held.contains_key(DependencyKind::Update)
                &&& tried is Some && held[DependencyKind::Update] is Update ==> {
                    let update = held[DependencyKind::Update]->Update_0;
                    match *default_handler {
                        DefaultHandler::Custom(handler) => {
                            &&& tried->0 is HandleUnhandled
                            &&& tried->0->HandleUnhandled_0 == handler
                            &&& *tried->0->HandleUnhandled_1 == update
                        },
                        DefaultHandler::LogWarning => {
                            &&& tried->0 is LogUnhandled
                            &&& *tried->0->LogUnhandled_0 == update
                        },
                    }
                }
            },
        },
{
}

/// Trying to finish the handling of an update gives what finishing it gives, where that
/// can be done.
pub proof fn law_trying_is_finishing<D, E, Error>(
    flow: ControlFlow<Result<(), Error>, DependencyMap>,
    default_handler: &DefaultHandler<D>,
    error_handler: &ErrorHandler<E>,
    reaction: Reaction<D, E, Error>,
    tried: Option<Reaction<D, E, Error>>,
)
    requires
        match flow {
            ControlFlow::Break(_) => true,
            ControlFlow::Continue(deps) => dependency_contents(deps).contains_key(
                DependencyKind::Update,
            ),
        },
        call_ensures(
            after_dispatch::<D, E, Error>,
            (flow, default_handler, error_handler),
            reaction,
        ),
        call_ensures(
            try_after_dispatch::<D, E, Error>,
            (flow, default_handler, error_handler),
            tried,
        ),
    ensures
        tried == Some(reaction),
{
}

/// A handler is given the update, and of every other type what the worker has.
pub proof fn law_handler_is_given(update: Update, deps: &DependencyMap, given: DependencyMap)
    requires
        call_ensures(handle_update, (update, deps), given),
    ensures
        dependency_contents(given).contains_key(DependencyKind::Update),
        dependency_contents(given)[DependencyKind::Update] == Dependency::Update(update),
        forall|kind: DependencyKind|
            kind != DependencyKind::Update ==> #[trigger] dependency_contents(given).contains_key(
                kind,
            ) == dependency_contents(*deps).contains_key(kind),
        forall|kind: DependencyKind|
            kind != DependencyKind::Update && dependency_contents(*deps).contains_key(kind)
                ==> #[trigger] dependency_contents(given)[kind] == dependency_contents(
                *deps,
            )[kind],
{
}

/// An update for which a handler was asked, and which it passed on with what it was
/// given, is the update that goes to the default handler.
pub proof fn law_update_is_passed_on<D, E, Error>(
    update: Update,
    deps: &DependencyMap,
    given: DependencyMap,
    handler: Arc<D>,
    error_handler: &ErrorHandler<E>,
    reaction: Reaction<D, E, Error>,
)
    requires
        call_ensures(handle_update, (update, deps), given),
        call_ensures(
            after_dispatch::<D, E, Error>,
            (ControlFlow::Continue(given), &DefaultHandler::Custom(handler), error_handler),
            reaction,
        ),
    ensures
        reaction is HandleUnhandled,
        reaction->HandleUnhandled_0 == handler,
        *reaction->HandleUnhandled_1 == update,
{
}

/// By default, updates are grouped by their chat.
pub proof fn law_grouped_by_chat(update: &Update, key: Option<DefaultKey>)
    requires
        call_ensures(default_distribution_function, (update,), key),
    ensures
        key == update.chat,
{
}

/// A parsed update is sent. The distribution function is asked for its key: with a key,
/// the update goes to the worker of that key, which consumes its updates one after
/// another; without one, to the default worker, which consumes them concurrently. A
/// worker that is there is used, and nothing is started; otherwise a task has to be
/// started. No other worker changes.
pub proof fn law_update_is_sent<H, D, E, Key, F, Error>(
    dispatcher: &mut Dispatcher<H, D, E, Key, F>,
    update: Update,
    action: Action<'_, H, D, E, Error>,
) where F: Fn(&Update) -> Option<Key>, Key: Hash + Eq
    requires
        update.kind is Event,
        call_ensures(
            Dispatcher::<H, D, E, Key, F>::process_update::<Error>,
            (dispatcher, Ok(update)),
            action,
        ),
    ensures
        action is Send,
        action->update == update,
        exists|key: Option<Key>|
            {
                &&& #[trigger] call_ensures(old(dispatcher)@.distribution_f, (&update,), key)
                &&& match key {
                    Some(key) => {
                        &&& action->worker.id.kind is Sequential
                        &&& final(dispatcher)@.workers.contains_key(key)
                        &&& final(dispatcher)@.workers[key] == *action->worker
                        &&& final(dispatcher)@.default_worker == old(dispatcher)@.default_worker
                        &&& action->task is None <==> old(dispatcher)@.workers.contains_key(key)
                        &&& old(dispatcher)@.workers.contains_key(key) ==> old(dispatcher)@.workers[key] == *action->worker
                        &&& forall|other: Key|
                            other != key ==> #[trigger] final(dispatcher)@.workers.contains_key(
                                other,
                            ) == old(dispatcher)@.workers.contains_key(other)
                        &&& forall|other: Key|
                            other != key && old(dispatcher)@.workers.contains_key(other)
                                ==> #[trigger] final(dispatcher)@.workers[other] == old(dispatcher)@.workers[other]
                    },
                    None => {
                        &&& action->worker.id.kind is Concurrent
                        &&& final(dispatcher)@.default_worker == Some(*action->worker)
                        &&& final(dispatcher)@.workers == old(dispatcher)@.workers
                        &&& action->task is None <==> old(dispatcher)@.default_worker is Some
                        &&& old(dispatcher)@.default_worker is Some ==> old(dispatcher)@.default_worker == Some(*action->worker)
                    },
                }
            },
{
    final(dispatcher).law_workers_valid();
}

/// With the distribution by chat, an update of a chat goes to that chat's own worker,
/// which consumes its updates one after another; an update without a chat goes to the
/// default worker.
pub proof fn law_update_goes_to_its_chat<H, D, E, F, Error>(
    dispatcher: &mut Dispatcher<H, D, E, DefaultKey, F>,
    update: Update,
    action: Action<'_, H, D, E, Error>,
) where F: Fn(&Update) -> Option<DefaultKey>
    requires
        update.kind is Event,
        forall|key: Option<DefaultKey>| #[trigger]
            call_ensures(old(dispatcher)@.distribution_f, (&update,), key) ==> key == update.chat,
        call_ensures(
            Dispatcher::<H, D, E, DefaultKey, F>::process_update::<Error>,
            (dispatcher, Ok(update)),
            action,
        ),
    ensures
        action is Send,
        match update.chat {
            Some(chat) => {
                &&& action->worker.id.kind is Sequential
                &&& final(dispatcher)@.workers.contains_key(chat)
                &&& final(dispatcher)@.workers[chat] == *action->worker
            },
            None => {
                &&& action->worker.id.kind is Concurrent
                &&& final(dispatcher)@.default_worker == Some(*action->worker)
            },
        },
{
    law_update_is_sent(dispatcher, update, action);
}

/// What the listener produced besides parsed updates reaches no worker: an error of the
/// listener is handed on, and the reason for which an update could not be parsed is
/// reported. Nothing changes.
pub proof fn law_nothing_else_is_sent<H, D, E, Key, F, Error>(
    dispatcher: &mut Dispatcher<H, D, E, Key, F>,
    update: Result<Update, Error>,
    action: Action<'_, H, D, E, Error>,
) where F: Fn(&Update) -> Option<Key>, Key: Hash + Eq
    requires
        update is Ok ==> update->Ok_0.kind is Error,
        call_ensures(
            Dispatcher::<H, D, E, Key, F>::process_update::<Error>,
            (dispatcher, update),
            action,
        ),
    ensures
        final(dispatcher)@ == old(dispatcher)@,
        match update {
            Ok(update) => action == Action::<H, D, E, Error>::ReportUnparsed(
                update.kind->Error_0,
            ),
            Err(error) => action == Action::<H, D, E, Error>::HandleListenerError(error),
        },
{
}

/// Processing changes nothing of a dispatcher but its workers.
pub proof fn law_processing_keeps_the_rest<H, D, E, Key, F, Error>(
    dispatcher: &mut Dispatcher<H, D, E, Key, F>,
    update: Result<Update, Error>,
    action: Action<'_, H, D, E, Error>,
) where F: Fn(&Update) -> Option<Key>, Key: Hash + Eq
    requires
        call_ensures(
            Dispatcher::<H, D, E, Key, F>::process_update::<Error>,
            (dispatcher, update),
            action,
        ),
    ensures
        final(dispatcher).wf(),
        final(dispatcher)@.bot == old(dispatcher)@.bot,
        final(dispatcher)@.dependencies == old(dispatcher)@.dependencies,
        final(dispatcher)@.handler == old(dispatcher)@.handler,
        final(dispatcher)@.default_handler == old(dispatcher)@.default_handler,
        final(dispatcher)@.error_handler == old(dispatcher)@.error_handler,
        final(dispatcher)@.distribution_f == old(dispatcher)@.distribution_f,
        final(dispatcher)@.worker_queue_size == old(dispatcher)@.worker_queue_size,
        final(dispatcher)@.handles == old(dispatcher)@.handles,
        final(dispatcher)@.running == old(dispatcher)@.running,
        final(dispatcher)@.state == old(dispatcher)@.state,
{
}

/// A task that has to be started is that of the worker that the update goes to: it
/// consumes what is sent to that worker, in the way of that worker, with the handlers
/// and the dependencies of the dispatcher. The worker is one that was not there, and has
/// a queue of the size that was asked for.
pub proof fn law_new_worker<H, D, E, Key, F, Error>(
    dispatcher: &mut Dispatcher<H, D, E, Key, F>,
    update: Result<Update, Error>,
    action: Action<'_, H, D, E, Error>,
) where F: Fn(&Update) -> Option<Key>, Key: Hash + Eq
    requires
        old(dispatcher).wf(),
        call_ensures(
            Dispatcher::<H, D, E, Key, F>::process_update::<Error>,
            (dispatcher, update),
            action,
        ),
        action is Send,
        action->task is Some,
    ensures
        action->task->0.kind == action->worker.id.kind,
        queue_connects(action->worker.tx, action->task->0.updates),
        queue_bound(action->worker.tx) == old(dispatcher)@.worker_queue_size,
        dependency_contents(*action->task->0.deps) == old(dispatcher)@.dependencies,
        *action->task->0.handler == old(dispatcher)@.handler,
        action->task->0.default_handler == old(dispatcher)@.default_handler,
        action->task->0.error_handler == old(dispatcher)@.error_handler,
        action->worker.id.number == (if action->worker.id.kind is Sequential {
            old(dispatcher)@.workers.dom().len()
        } else {
            0
        }),
        forall|key: Key| #[trigger]
            old(dispatcher)@.workers.contains_key(key) ==> old(dispatcher)@.workers[key].id
                != action->worker.id,
        old(dispatcher)@.default_worker is Some ==> old(dispatcher)@.default_worker->0.id
            != action->worker.id,
{
    old(dispatcher).law_workers_valid();
    final(dispatcher).law_workers_valid();
}

/// What the listener produced can always be processed, with one exception: where an
/// update was parsed, the distribution function has to accept it, and a queue has to have
/// room for an update without being too large.
pub proof fn law_everything_is_processed<H, D, E, Key, F, Error>(
    dispatcher: &mut Dispatcher<H, D, E, Key, F>,
    update: Result<Update, Error>,
) where F: Fn(&Update) -> Option<Key>, Key: Hash + Eq
    requires
        old(dispatcher).wf(),
        obeys_key_model::<Key>(),
        update is Ok && update->Ok_0.kind is Event ==> {
            &&& call_requires(old(dispatcher)@.distribution_f, (&update->Ok_0,))
            &&& 0 < old(dispatcher)@.worker_queue_size <= usize::MAX / 8
        },
    ensures
        call_requires(
            Dispatcher::<H, D, E, Key, F>::process_update::<Error>,
            (dispatcher, update),
        ),
{
}

/// Of two updates that are processed one after the other, both go to the same worker if,
/// and only if, the distribution function gives both the same key, or none; the second
/// one then starts nothing. Workers of different keys have different names.
pub proof fn law_same_key_same_worker<H, D, E, Key, F, Error>(
    dispatcher: &mut Dispatcher<H, D, E, Key, F>,
    first: Update,
    of_first: Action<'_, H, D, E, Error>,
    later: &mut Dispatcher<H, D, E, Key, F>,
    second: Update,
    of_second: Action<'_, H, D, E, Error>,
) where F: Fn(&Update) -> Option<Key>, Key: Hash + Eq
    requires
        first.kind is Event,
        second.kind is Event,
        call_ensures(
            Dispatcher::<H, D, E, Key, F>::process_update::<Error>,
            (dispatcher, Ok(first)),
            of_first,
        ),
        *old(later) == *final(dispatcher),
        call_ensures(
            Dispatcher::<H, D, E, Key, F>::process_update::<Error>,
            (later, Ok(second)),
            of_second,
        ),
    ensures
        exists|one: Option<Key>, other: Option<Key>|
            {
                &&& #[trigger] call_ensures(old(dispatcher)@.distribution_f, (&first,), one)
                &&& #[trigger] call_ensures(old(dispatcher)@.distribution_f, (&second,), other)
                &&& one == other <==> *of_first->worker == *of_second->worker
                &&& one == other <==> of_first->worker.id == of_second->worker.id
                &&& one == other ==> of_second->task is None
                &&& one is Some <==> of_first->worker.id.kind is Sequential
                &&& other is Some <==> of_second->worker.id.kind is Sequential
            },
{
    let before = old(dispatcher)@;
    let between = final(dispatcher)@;
    let one = choose|key: Option<Key>| #[trigger]
        before.assigns(first, key) && before.routes(key, *of_first->worker, between)
            && before.spawns(key, *of_first->worker, of_first->task);
    let other = choose|key: Option<Key>| #[trigger]
        between.assigns(second, key) && between.routes(
            key,
            *of_second->worker,
            final(later)@,
        ) && between.spawns(key, *of_second->worker, of_second->task);
    law_processing_keeps_the_rest(dispatcher, Ok::<Update, Error>(first), of_first);
    final(later).law_workers_valid();
    assert(final(later)@.worker_of(one) == Some(*of_first->worker));
    assert(final(later)@.worker_of(other) == Some(*of_second->worker));
    assert(call_ensures(before.distribution_f, (&first,), one));
    assert(call_ensures(before.distribution_f, (&second,), other));
}

/// An update with a given key, or without a key, goes to the worker of that key, or to
/// the default worker; a worker that is there is used, and nothing is started. No other
/// worker changes, nor does anything else.
pub proof fn law_key_is_routed<H, D, E, Key, F>(
    dispatcher: &mut Dispatcher<H, D, E, Key, F>,
    key: Option<Key>,
    worker: &Worker,
    task: Option<WorkerTask<H, D, E>>,
) where F: Fn(&Update) -> Option<Key>, Key: Hash + Eq
    requires
        call_ensures(
            Dispatcher::<H, D, E, Key, F>::route,
            (dispatcher, key),
            (worker, task),
        ),
    ensures
        final(dispatcher).wf(),
        match key {
            Some(key) => {
                &&& worker.id.kind is Sequential
                &&& final(dispatcher)@.workers.contains_key(key)
                &&& final(dispatcher)@.workers[key] == *worker
                &&& task is None <==> old(dispatcher)@.workers.contains_key(key)
                &&& old(dispatcher)@.workers.contains_key(key) ==> old(dispatcher)@.workers[key]
                    == *worker
                &&& final(dispatcher)@.default_worker == old(dispatcher)@.default_worker
                &&& final(dispatcher)@.workers.remove(key) =~= old(dispatcher)@.workers.remove(key)
                &&& task is Some ==> worker.id.number == old(dispatcher)@.workers.dom().len()
                &&& forall|other: Key| #[trigger]
                    final(dispatcher)@.workers.contains_key(other) && other != key ==> final(
                        dispatcher)@.workers[other].id != worker.id
            },
            None => {
                &&& worker.id.kind is Concurrent
                &&& final(dispatcher)@.default_worker == Some(*worker)
                &&& task is None <==> old(dispatcher)@.default_worker is Some
                &&& old(dispatcher)@.default_worker is Some ==> old(dispatcher)@.default_worker
                    == Some(*worker)
                &&& final(dispatcher)@.workers == old(dispatcher)@.workers
                &&& worker.id.number == 0
            },
        },
        final(dispatcher)@.bot == old(dispatcher)@.bot,
        final(dispatcher)@.dependencies == old(dispatcher)@.dependencies,
        final(dispatcher)@.handler == old(dispatcher)@.handler,
        final(dispatcher)@.default_handler == old(dispatcher)@.default_handler,
        final(dispatcher)@.error_handler == old(dispatcher)@.error_handler,
        final(dispatcher)@.distribution_f == old(dispatcher)@.distribution_f,
        final(dispatcher)@.worker_queue_size == old(dispatcher)@.worker_queue_size,
        final(dispatcher)@.handles == old(dispatcher)@.handles,
        final(dispatcher)@.running == old(dispatcher)@.running,
        final(dispatcher)@.state == old(dispatcher)@.state,
        task is Some ==> {
            &&& task->0.kind == worker.id.kind
            &&& queue_connects(worker.tx, task->0.updates)
            &&& queue_bound(worker.tx) == old(dispatcher)@.worker_queue_size
            &&& dependency_contents(*task->0.deps) == old(dispatcher)@.dependencies
            &&& *task->0.handler == old(dispatcher)@.handler
            &&& task->0.default_handler == old(dispatcher)@.default_handler
            &&& task->0.error_handler == old(dispatcher)@.error_handler
        },
{
    final(dispatcher).law_workers_valid();
}

/// Every key can be routed if its worker is there, or if a queue has room for an update
/// without being too large.
pub proof fn law_every_key_is_routed<H, D, E, Key, F>(
    dispatcher: &mut Dispatcher<H, D, E, Key, F>,
    key: Option<Key>,
) where F: Fn(&Update) -> Option<Key>, Key: Hash + Eq
    requires
        old(dispatcher).wf(),
        obeys_key_model::<Key>(),
        match key {
            Some(key) => old(dispatcher)@.workers.contains_key(key),
            None => old(dispatcher)@.default_worker is Some,
        } || 0 < old(dispatcher)@.worker_queue_size <= usize::MAX / 8,
    ensures
        call_requires(Dispatcher::<H, D, E, Key, F>::route, (dispatcher, key)),
{
}

/// Starting to dispatch adds what the messaging service knows about the bot, and the
/// bot, to the dependencies, and changes nothing else but that dispatching goes on.
pub proof fn law_start_keeps_the_rest<H, D, E, Key, F, T>(
    dispatcher: &mut Dispatcher<H, D, E, Key, F>,
    me: Me,
    stop_token: T,
    listening: Result<Listening<T>, AlreadyRunning>,
) where F: Fn(&Update) -> Option<Key>, Key: Hash + Eq
    requires
        call_ensures(
            Dispatcher::<H, D, E, Key, F>::dispatch_with_listener::<T>,
            (dispatcher, me, stop_token),
            listening,
        ),
    ensures
        final(dispatcher).wf(),
        final(dispatcher)@.bot == old(dispatcher)@.bot,
        final(dispatcher)@.handler == old(dispatcher)@.handler,
        final(dispatcher)@.default_handler == old(dispatcher)@.default_handler,
        final(dispatcher)@.error_handler == old(dispatcher)@.error_handler,
        final(dispatcher)@.distribution_f == old(dispatcher)@.distribution_f,
        final(dispatcher)@.worker_queue_size == old(dispatcher)@.worker_queue_size,
        final(dispatcher)@.workers == old(dispatcher)@.workers,
        final(dispatcher)@.default_worker == old(dispatcher)@.default_worker,
        final(dispatcher)@.handles == old(dispatcher)@.handles,
        final(dispatcher)@.state == old(dispatcher)@.state,
        final(dispatcher)@.running,
        final(dispatcher)@.dependencies.contains_key(DependencyKind::Me),
        final(dispatcher)@.dependencies[DependencyKind::Me] == Dependency::Me(me),
        final(dispatcher)@.dependencies.contains_key(DependencyKind::Bot),
        final(dispatcher)@.dependencies[DependencyKind::Bot] == Dependency::Bot(
            old(dispatcher)@.bot,
        ),
        forall|kind: DependencyKind|
            kind != DependencyKind::Me && kind != DependencyKind::Bot ==> #[trigger] final(dispatcher)@.dependencies.contains_key(kind) == old(dispatcher)@.dependencies.contains_key(kind),
        forall|kind: DependencyKind|
            kind != DependencyKind::Me && kind != DependencyKind::Bot && old(dispatcher)@.dependencies.contains_key(kind) ==> #[trigger] final(dispatcher)@.dependencies[kind] == old(dispatcher)@.dependencies[kind],
{
}

/// Dispatching is started if, and only if, it is not running; the round begins by
/// waiting for the listener, and has the listener's stop token. It can be tried always.
pub proof fn law_start<H, D, E, Key, F, T>(
    dispatcher: &mut Dispatcher<H, D, E, Key, F>,
    me: Me,
    stop_token: T,
    listening: Result<Listening<T>, AlreadyRunning>,
) where F: Fn(&Update) -> Option<Key>, Key: Hash + Eq
    requires
        call_ensures(
            Dispatcher::<H, D, E, Key, F>::dispatch_with_listener::<T>,
            (dispatcher, me, stop_token),
            listening,
        ),
    ensures
        listening is Ok <==> !old(dispatcher)@.running,
        listening is Ok ==> {
            &&& listening->Ok_0@.phase is Polling
            &&& listening->Ok_0@.stop_token == Some(stop_token)
        },
        old(dispatcher).wf() ==> call_requires(
            Dispatcher::<H, D, E, Key, F>::dispatch_with_listener::<T>,
            (dispatcher, me, stop_token),
        ),
{
}

/// A handle that is kept is the last of those that are kept, and nothing else changes.
pub proof fn law_handle_is_kept<H, D, E, Key, F>(
    dispatcher: &mut Dispatcher<H, D, E, Key, F>,
    worker: WorkerId,
    handle: JoinHandle<()>,
) where F: Fn(&Update) -> Option<Key>, Key: Hash + Eq
    requires
        call_ensures(
            Dispatcher::<H, D, E, Key, F>::add_handle,
            (dispatcher, worker, handle),
            (),
        ),
    ensures
        old(dispatcher).wf() ==> call_requires(
            Dispatcher::<H, D, E, Key, F>::add_handle,
            (dispatcher, worker, handle),
        ),
        final(dispatcher).wf(),
        final(dispatcher)@.handles == old(dispatcher)@.handles.push((worker, handle)),
        final(dispatcher)@.bot == old(dispatcher)@.bot,
        final(dispatcher)@.dependencies == old(dispatcher)@.dependencies,
        final(dispatcher)@.handler == old(dispatcher)@.handler,
        final(dispatcher)@.default_handler == old(dispatcher)@.default_handler,
        final(dispatcher)@.error_handler == old(dispatcher)@.error_handler,
        final(dispatcher)@.distribution_f == old(dispatcher)@.distribution_f,
        final(dispatcher)@.worker_queue_size == old(dispatcher)@.worker_queue_size,
        final(dispatcher)@.workers == old(dispatcher)@.workers,
        final(dispatcher)@.default_worker == old(dispatcher)@.default_worker,
        final(dispatcher)@.running == old(dispatcher)@.running,
        final(dispatcher)@.state == old(dispatcher)@.state,
{
}

/// Taking the workers returns all handles that were kept, in their order, and leaves
/// neither workers nor handles; nothing else changes.
pub proof fn law_workers_are_taken<H, D, E, Key, F>(
    dispatcher: &mut Dispatcher<H, D, E, Key, F>,
    handles: Vec<JoinHandle<()>>,
) where F: Fn(&Update) -> Option<Key>, Key: Hash + Eq
    requires
        call_ensures(Dispatcher::<H, D, E, Key, F>::take_workers, (dispatcher,), handles),
    ensures
        old(dispatcher).wf() ==> call_requires(
            Dispatcher::<H, D, E, Key, F>::take_workers,
            (dispatcher,),
        ),
        final(dispatcher).wf(),
        handles@.len() == old(dispatcher)@.handles.len(),
        forall|i: int|
            0 <= i < handles@.len() ==> #[trigger] handles@[i] == old(dispatcher)@.handles[i].1,
        final(dispatcher)@.handles.len() == 0,
        forall|key: Key| !#[trigger] final(dispatcher)@.workers.contains_key(key),
        final(dispatcher)@.default_worker is None,
        final(dispatcher)@.bot == old(dispatcher)@.bot,
        final(dispatcher)@.dependencies == old(dispatcher)@.dependencies,
        final(dispatcher)@.handler == old(dispatcher)@.handler,
        final(dispatcher)@.default_handler == old(dispatcher)@.default_handler,
        final(dispatcher)@.error_handler == old(dispatcher)@.error_handler,
        final(dispatcher)@.distribution_f == old(dispatcher)@.distribution_f,
        final(dispatcher)@.worker_queue_size == old(dispatcher)@.worker_queue_size,
        final(dispatcher)@.running == old(dispatcher)@.running,
        final(dispatcher)@.state == old(dispatcher)@.state,
{
}

/// A handle that was kept is the last of those that are returned when the workers are
/// taken next.
pub proof fn law_kept_handle_is_taken<H, D, E, Key, F>(
    dispatcher: &mut Dispatcher<H, D, E, Key, F>,
    worker: WorkerId,
    handle: JoinHandle<()>,
    later: &mut Dispatcher<H, D, E, Key, F>,
    handles: Vec<JoinHandle<()>>,
) where F: Fn(&Update) -> Option<Key>, Key: Hash + Eq
    requires
        call_ensures(
            Dispatcher::<H, D, E, Key, F>::add_handle,
            (dispatcher, worker, handle),
            (),
        ),
        *old(later) == *final(dispatcher),
        call_ensures(Dispatcher::<H, D, E, Key, F>::take_workers, (later,), handles),
    ensures
        handles@.len() > 0,
        handles@.last() == handle,
{
}

/// A builder that is told a default handler has it, and nothing else changes.
pub proof fn law_default_handler_is_set<H, D, E, F>(
    before: DispatcherBuilder<H, D, E, F>,
    handler: D,
    builder: DispatcherBuilder<H, D, E, F>,
)
    requires
        call_ensures(DispatcherBuilder::<H, D, E, F>::default_handler, (before, handler), builder),
    ensures
        builder@.default_handler == DefaultHandler::Custom(Arc::new(handler)),
        builder@.bot == before@.bot,
        builder@.dependencies == before@.dependencies,
        builder@.handler == before@.handler,
        builder@.error_handler == before@.error_handler,
        builder@.distribution_f == before@.distribution_f,
        builder@.worker_queue_size == before@.worker_queue_size,
{
}

/// A builder that is told an error handler has it, and nothing else changes.
pub proof fn law_error_handler_is_set<H, D, E, F>(
    before: DispatcherBuilder<H, D, E, F>,
    handler: Arc<E>,
    builder: DispatcherBuilder<H, D, E, F>,
)
    requires
        call_ensures(DispatcherBuilder::<H, D, E, F>::error_handler, (before, handler), builder),
    ensures
        builder@.error_handler == ErrorHandler::Custom(handler),
        builder@.bot == before@.bot,
        builder@.dependencies == before@.dependencies,
        builder@.handler == before@.handler,
        builder@.default_handler == before@.default_handler,
        builder@.distribution_f == before@.distribution_f,
        builder@.worker_queue_size == before@.worker_queue_size,
{
}

/// A builder that is told dependencies has them, and nothing else changes.
pub proof fn law_dependencies_are_set<H, D, E, F>(
    before: DispatcherBuilder<H, D, E, F>,
    dependencies: DependencyMap,
    builder: DispatcherBuilder<H, D, E, F>,
)
    requires
        call_ensures(DispatcherBuilder::<H, D, E, F>::dependencies, (before, dependencies), builder),
    ensures
        builder@.dependencies == dependency_contents(dependencies),
        builder@.bot == before@.bot,
        builder@.handler == before@.handler,
        builder@.default_handler == before@.default_handler,
        builder@.error_handler == before@.error_handler,
        builder@.distribution_f == before@.distribution_f,
        builder@.worker_queue_size == before@.worker_queue_size,
{
}

/// A builder that is told a queue size has it, and nothing else changes.
pub proof fn law_queue_size_is_set<H, D, E, F>(
    before: DispatcherBuilder<H, D, E, F>,
    size: usize,
    builder: DispatcherBuilder<H, D, E, F>,
)
    requires
        call_ensures(DispatcherBuilder::<H, D, E, F>::worker_queue_size, (before, size), builder),
    ensures
        builder@.worker_queue_size == size,
        builder@.bot == before@.bot,
        builder@.dependencies == before@.dependencies,
        builder@.handler == before@.handler,
        builder@.default_handler == before@.default_handler,
        builder@.error_handler == before@.error_handler,
        builder@.distribution_f == before@.distribution_f,
{
}

/// A builder that is told a distribution function has it, and nothing else changes.
pub proof fn law_distribution_is_set<H, D, E, F, Key, G>(
    before: DispatcherBuilder<H, D, E, F>,
    f: G,
    builder: DispatcherBuilder<H, D, E, G>,
) where G: Fn(&Update) -> Option<Key>, Key: Hash + Eq
    requires
        call_ensures(
            DispatcherBuilder::<H, D, E, F>::distribution_function::<Key, G>,
            (before, f),
            builder,
        ),
    ensures
        builder@.distribution_f == f,
        builder@.bot == before@.bot,
        builder@.dependencies == before@.dependencies,
        builder@.handler == before@.handler,
        builder@.default_handler == before@.default_handler,
        builder@.error_handler == before@.error_handler,
        builder@.worker_queue_size == before@.worker_queue_size,
{
}

/// A dispatcher has what its builder was told, no workers, and a state of its own, which
/// is idle; it is not dispatching.
pub proof fn law_dispatcher_is_built<H, D, E, Key, F>(
    builder: DispatcherBuilder<H, D, E, F>,
    dispatcher: Dispatcher<H, D, E, Key, F>,
) where F: Fn(&Update) -> Option<Key>, Key: Hash + Eq
    requires
        call_ensures(DispatcherBuilder::<H, D, E, F>::build::<Key>, (builder,), dispatcher),
    ensures
        dispatcher.wf(),
        dispatcher@.bot == builder@.bot,
        dispatcher@.dependencies == builder@.dependencies,
        dispatcher@.handler == builder@.handler,
        dispatcher@.default_handler == builder@.default_handler,
        dispatcher@.error_handler == builder@.error_handler,
        dispatcher@.distribution_f == builder@.distribution_f,
        dispatcher@.worker_queue_size == builder@.worker_queue_size,
        forall|key: Key| !#[trigger] dispatcher@.workers.contains_key(key),
        dispatcher@.default_worker is None,
        dispatcher@.handles.len() == 0,
        !dispatcher@.running,
        dispatcher@.state.initial() is Idle,
{
}

/// A new builder has its bot and its handler, no dependencies, and nobody to handle
/// errors and unhandled updates; its queues hold 64 updates, and it groups updates by
/// their chat.
pub proof fn law_builder_is_new<H, D, E>(bot: Bot, handler: H)
    ensures
        forall|builder|
            #[trigger] call_ensures(
                Dispatcher::<H, D, E, DefaultKey, ()>::builder,
                (bot, handler),
                builder,
            ) ==> {
                &&& builder@.bot == bot
                &&& builder@.handler == handler
                &&& builder@.dependencies.dom().is_empty()
                &&& builder@.default_handler is LogWarning
                &&& builder@.error_handler is Logging
                &&& builder@.worker_queue_size == 64
                &&& forall|update: &Update| #[trigger]
                    call_requires(builder@.distribution_f, (update,))
                &&& forall|update: &Update, key: Option<DefaultKey>| #[trigger]
                    call_ensures(builder@.distribution_f, (update,), key) ==> key == update.chat
            },
{
}

/// The first update that a dispatcher with the default settings processes goes to the
/// worker of its chat, or to the default worker, and starts it, with those settings.
pub proof fn law_first_update<H, D, E, Error>(bot: Bot, handler: H, update: Update)
    requires
        update.kind is Event,
    ensures
        forall|builder, dispatcher: &mut Dispatcher<H, D, E, DefaultKey, _>, action|
            (#[trigger] call_ensures(
                Dispatcher::<H, D, E, DefaultKey, ()>::builder,
                (bot, handler),
                builder,
            ) && #[trigger] call_ensures(
                DispatcherBuilder::<H, D, E, _>::build::<DefaultKey>,
                (builder,),
                *dispatcher,
            ) && #[trigger] call_ensures(
                Dispatcher::<H, D, E, DefaultKey, _>::process_update::<Error>,
                (dispatcher, Ok(update)),
                action,
            )) ==> {
                &&& action is Send
                &&& action->update == update
                &&& action->worker.id.kind is Sequential <==> update.chat is Some
                &&& action->worker.id.number == 0
                &&& action->task is Some
                &&& action->task->0.kind == action->worker.id.kind
                &&& queue_connects(action->worker.tx, action->task->0.updates)
                &&& queue_bound(action->worker.tx) == 64
                &&& *action->task->0.handler == handler
                &&& action->task->0.default_handler is LogWarning
                &&& action->task->0.error_handler is Logging
                &&& dependency_contents(*action->task->0.deps).dom().is_empty()
            },
{
}

/// What a builder was told reaches the tasks of the workers: after dispatching was
/// started, the first update that is processed starts a worker with the handlers, the
/// dependencies and the queue size that the builder was told, of the kind that follows
/// from the distribution function that it was told.
pub proof fn law_told_reaches_tasks<H, D, E, Key, F, G, T, Error>(
    new: DispatcherBuilder<H, D, E, G>,
    default_handler: D,
    with_default_handler: DispatcherBuilder<H, D, E, G>,
    error_handler: Arc<E>,
    with_error_handler: DispatcherBuilder<H, D, E, G>,
    dependencies: DependencyMap,
    with_dependencies: DispatcherBuilder<H, D, E, G>,
    size: usize,
    with_size: DispatcherBuilder<H, D, E, G>,
    f: F,
    told: DispatcherBuilder<H, D, E, F>,
    dispatcher: &mut Dispatcher<H, D, E, Key, F>,
    me: Me,
    stop_token: T,
    listening: Result<Listening<T>, AlreadyRunning>,
    started: &mut Dispatcher<H, D, E, Key, F>,
    update: Update,
    action: Action<'_, H, D, E, Error>,
) where F: Fn(&Update) -> Option<Key>, Key: Hash + Eq
    requires
        call_ensures(
            DispatcherBuilder::<H, D, E, G>::default_handler,
            (new, default_handler),
            with_default_handler,
        ),
        call_ensures(
            DispatcherBuilder::<H, D, E, G>::error_handler,
            (with_default_handler, error_handler),
            with_error_handler,
        ),
        call_ensures(
            DispatcherBuilder::<H, D, E, G>::dependencies,
            (with_error_handler, dependencies),
            with_dependencies,
        ),
        call_ensures(
            DispatcherBuilder::<H, D, E, G>::worker_queue_size,
            (with_dependencies, size),
            with_size,
        ),
        call_ensures(
            DispatcherBuilder::<H, D, E, G>::distribution_function::<Key, F>,
            (with_size, f),
            told,
        ),
        call_ensures(DispatcherBuilder::<H, D, E, F>::build::<Key>, (told,), *old(dispatcher)),
        call_ensures(
            Dispatcher::<H, D, E, Key, F>::dispatch_with_listener::<T>,
            (dispatcher, me, stop_token),
            listening,
        ),
        *old(started) == *final(dispatcher),
        update.kind is Event,
        call_ensures(
            Dispatcher::<H, D, E, Key, F>::process_update::<Error>,
            (started, Ok(update)),
            action,
        ),
    ensures
        listening is Ok,
        action is Send,
        action->update == update,
        action->task is Some,
        action->task->0.default_handler == DefaultHandler::Custom(Arc::new(default_handler)),
        action->task->0.error_handler == ErrorHandler::Custom(error_handler),
        *action->task->0.handler == new@.handler,
        queue_bound(action->worker.tx) == size,
        exists|key: Option<Key>| #[trigger]
            call_ensures(f, (&update,), key) && (key is Some
                <==> action->worker.id.kind is Sequential),
        ({
            let held = dependency_contents(*action->task->0.deps);
            let passed = dependency_contents(dependencies);
            &&& held.contains_key(DependencyKind::Me)
            &&& held[DependencyKind::Me] == Dependency::Me(me)
            &&& held.contains_key(DependencyKind::Bot)
            &&& held[DependencyKind::Bot] == Dependency::Bot(new@.bot)
            &&& forall|kind: DependencyKind|
                kind != DependencyKind::Me && kind != DependencyKind::Bot
                    ==> #[trigger] held.contains_key(kind) == passed.contains_key(kind)
            &&& forall|kind: DependencyKind|
                kind != DependencyKind::Me && kind != DependencyKind::Bot && passed.contains_key(
                    kind,
                ) ==> #[trigger] held[kind] == passed[kind]
        }),
{
    law_start_keeps_the_rest(dispatcher, me, stop_token, listening);
    law_update_is_sent(started, update, action);
    law_new_worker(started, Ok::<Update, Error>(update), action);
}

/// After dispatching was started, a handler is given the bot, what the messaging service
/// knows about it, the update, and of every other type what the dispatcher had.
pub proof fn law_handler_is_given_all<H, D, E, Key, F, T, Error>(
    dispatcher: &mut Dispatcher<H, D, E, Key, F>,
    me: Me,
    stop_token: T,
    listening: Result<Listening<T>, AlreadyRunning>,
    started: &mut Dispatcher<H, D, E, Key, F>,
    processed: Result<Update, Error>,
    action: Action<'_, H, D, E, Error>,
    update: Update,
    given: DependencyMap,
) where F: Fn(&Update) -> Option<Key>, Key: Hash + Eq
    requires
        call_ensures(
            Dispatcher::<H, D, E, Key, F>::dispatch_with_listener::<T>,
            (dispatcher, me, stop_token),
            listening,
        ),
        *old(started) == *final(dispatcher),
        old(started).wf(),
        call_ensures(
            Dispatcher::<H, D, E, Key, F>::process_update::<Error>,
            (started, processed),
            action,
        ),
        action is Send,
        action->task is Some,
        call_ensures(handle_update, (update, &*action->task->0.deps), given),
    ensures
        ({
            let held = dependency_contents(given);
            let passed = old(dispatcher)@.dependencies;
            &&& held.contains_key(DependencyKind::Update)
            &&& held[DependencyKind::Update] == Dependency::Update(update)
            &&& held.contains_key(DependencyKind::Me)
            &&& held[DependencyKind::Me] == Dependency::Me(me)
            &&& held.contains_key(DependencyKind::Bot)
            &&& held[DependencyKind::Bot] == Dependency::Bot(old(dispatcher)@.bot)
            &&& forall|kind: int| #[trigger]
                held.contains_key(DependencyKind::Other(kind)) == passed.contains_key(
                    DependencyKind::Other(kind),
                )
            &&& forall|kind: int|
                passed.contains_key(DependencyKind::Other(kind)) ==> #[trigger] held[
                DependencyKind::Other(kind)] == passed[DependencyKind::Other(kind)]
        }),
{
    law_start_keeps_the_rest(dispatcher, me, stop_token, listening);
    law_new_worker(started, processed, action);
    law_handler_is_given(update, &*action->task->0.deps, given);
}

/// A worker that is made for a key consumes its updates one after another: its task gets
/// what is sent to it, and what it needs to handle it.
pub proof fn law_worker_is_made<H, D, E>(
    number: usize,
    deps: DependencyMap,
    handler: Arc<H>,
    default_handler: DefaultHandler<D>,
    error_handler: ErrorHandler<E>,
    size: usize,
    worker: Worker,
    task: WorkerTask<H, D, E>,
)
    requires
        call_ensures(
            spawn_worker::<H, D, E>,
            (number, deps, handler, default_handler, error_handler, size),
            (worker, task),
        ),
    ensures
        worker.id.kind is Sequential,
        worker.id.number == number,
        queue_bound(worker.tx) == size,
        queue_connects(worker.tx, task.updates),
        task.kind is Sequential,
        dependency_contents(*task.deps) == dependency_contents(deps),
        *task.handler == *handler,
        task.default_handler == default_handler,
        task.error_handler == error_handler,
{
}

/// A default worker that is made consumes its updates concurrently: its task gets what
/// is sent to it, and what it needs to handle it.
pub proof fn law_default_worker_is_made<H, D, E>(
    deps: DependencyMap,
    handler: Arc<H>,
    default_handler: DefaultHandler<D>,
    error_handler: ErrorHandler<E>,
    size: usize,
    worker: Worker,
    task: WorkerTask<H, D, E>,
)
    requires
        call_ensures(
            spawn_default_worker::<H, D, E>,
            (deps, handler, default_handler, error_handler, size),
            (worker, task),
        ),
    ensures
        worker.id.kind is Concurrent,
        worker.id.number == 0,
        queue_bound(worker.tx) == size,
        queue_connects(worker.tx, task.updates),
        task.kind is Concurrent,
        dependency_contents(*task.deps) == dependency_contents(deps),
        *task.handler == *handler,
        task.default_handler == default_handler,
        task.error_handler == error_handler,
{
}

/// Workers can be made with every queue size that has room for an update and is not too
/// large.
pub proof fn law_workers_can_be_made<H, D, E>(
    number: usize,
    deps: DependencyMap,
    handler: Arc<H>,
    default_handler: DefaultHandler<D>,
    error_handler: ErrorHandler<E>,
    size: usize,
)
    requires
        0 < size <= usize::MAX / 8,
    ensures
        call_requires(
            spawn_worker::<H, D, E>,
            (number, deps, handler, default_handler, error_handler, size),
        ),
        call_requires(
            spawn_default_worker::<H, D, E>,
            (deps, handler, default_handler, error_handler, size),
        ),
{
}

/// A queue size is valid if, and only if, it has room for an update and is not too large.
pub proof fn law_queue_sizes(size: usize, valid: bool)
    requires
        call_ensures(is_valid_queue_size, (size,), valid),
    ensures
        valid <==> 0 < size <= usize::MAX / 8,
{
}

/// A dispatcher can spawn workers if, and only if, the queue size that was asked for has
/// room for an update and is not too large.
pub proof fn law_spawning_is_possible<H, D, E, Key, F>(
    dispatcher: &Dispatcher<H, D, E, Key, F>,
    can: bool,
) where F: Fn(&Update) -> Option<Key>, Key: Hash + Eq
    requires
        call_ensures(Dispatcher::<H, D, E, Key, F>::can_spawn, (dispatcher,), can),
    ensures
        can <==> 0 < dispatcher@.worker_queue_size <= usize::MAX / 8,
{
}

/// The handler of a dispatcher is the one that it was built with.
pub proof fn law_handler_is_known<H, D, E, Key, F>(
    dispatcher: &Dispatcher<H, D, E, Key, F>,
    handler: &H,
) where F: Fn(&Update) -> Option<Key>, Key: Hash + Eq
    requires
        call_ensures(Dispatcher::<H, D, E, Key, F>::handler, (dispatcher,), handler),
    ensures
        *handler == dispatcher@.handler,
{
}

/// Copies are what they are copied from.
pub proof fn law_copies(
    update: &Update,
    update_copy: Update,
    kind: &UpdateKind,
    kind_copy: UpdateKind,
    bot: &Bot,
    bot_copy: Bot,
    me: &Me,
    me_copy: Me,
    token: &ShutdownToken,
    token_copy: ShutdownToken,
)
    requires
        call_ensures(Update::clone, (update,), update_copy),
        call_ensures(UpdateKind::clone, (kind,), kind_copy),
        call_ensures(Bot::clone, (bot,), bot_copy),
        call_ensures(Me::clone, (me,), me_copy),
        call_ensures(ShutdownToken::clone, (token,), token_copy),
    ensures
        update_copy == *update,
        kind_copy == *kind,
        bot_copy == *bot,
        me_copy == *me,
        token_copy == *token,
{
}

/// Copies of handlers are what they are copied from.
pub proof fn law_copies_of_handlers<D, E>(
    default_handler: &DefaultHandler<D>,
    default_handler_copy: DefaultHandler<D>,
    error_handler: &ErrorHandler<E>,
    error_handler_copy: ErrorHandler<E>,
)
    requires
        call_ensures(DefaultHandler::<D>::clone, (default_handler,), default_handler_copy),
        call_ensures(ErrorHandler::<E>::clone, (error_handler,), error_handler_copy),
    ensures
        default_handler_copy == *default_handler,
        error_handler_copy == *error_handler,
{
}

/// A new bot has its token.
pub proof fn law_bot_has_its_token(token: String, bot: Bot)
    requires
        call_ensures(Bot::new, (token,), bot),
    ensures
        bot.token == token,
{
}

/// A state is started from idle only, and a start changes no other state.
pub proof fn law_state_is_started(state: &mut ShutdownState)
    requires
        call_ensures(ShutdownState::start_dispatching, (state,), ()),
    ensures
        match *old(state) {
            ShutdownState::Idle => *final(state) is Running,
            ShutdownState::Running => *final(state) is Running,
            ShutdownState::ShuttingDown => *final(state) is ShuttingDown,
        },
{
}

/// A request to shut down is refused if, and only if, the state is idle, and then changes
/// nothing; otherwise the state is shutting down afterwards.
pub proof fn law_state_is_shut_down(
    state: &mut ShutdownState,
    result: Result<(), IdleShutdownError>,
)
    requires
        call_ensures(ShutdownState::shutdown, (state,), result),
    ensures
        match *old(state) {
            ShutdownState::Idle => result is Err && *final(state) is Idle,
            ShutdownState::Running => result is Ok && *final(state) is ShuttingDown,
            ShutdownState::ShuttingDown => result is Ok && *final(state) is ShuttingDown,
        },
{
}

/// A look at a state tells whether it is shutting down.
pub proof fn law_state_is_looked_at(state: &ShutdownState, result: bool)
    requires
        call_ensures(ShutdownState::is_shutting_down, (state,), result),
    ensures
        result <==> *state is ShuttingDown,
{
}

/// At the end a state is idle, and the answer tells whether it was shutting down.
pub proof fn law_state_is_done(state: &mut ShutdownState, requested: bool)
    requires
        call_ensures(ShutdownState::done, (state,), requested),
    ensures
        *final(state) is Idle,
        requested <==> *old(state) is ShuttingDown,
{
}

/// A request to shut down that was granted is what the end tells.
pub proof fn law_granted_request_is_told(
    state: &mut ShutdownState,
    result: Result<(), IdleShutdownError>,
    later: &mut ShutdownState,
    requested: bool,
)
    requires
        call_ensures(ShutdownState::shutdown, (state,), result),
        *old(later) == *final(state),
        call_ensures(ShutdownState::done, (later,), requested),
    ensures
        requested <==> result is Ok,
{
}

/// An interrupt signal is waited on if, and only if, its request was granted.
pub proof fn law_signal_response(
    request: Result<(), IdleShutdownError>,
    response: SignalResponse,
)
    requires
        call_ensures(SignalResponse::to_request, (request,), response),
    ensures
        request is Ok ==> response is AwaitShutdown,
        request is Err ==> response is Ignore,
{
}

/// Dispatching goes on if, and only if, it was started, and has not ended since.
proof fn lemma_dispatching(history: Seq<Transition>)
    ensures
        is_dispatching(history) <==> exists|i: int|
            0 <= i < history.len() && history[i] is Start && !(#[trigger] history.skip(
                i,
            )).contains(Transition::End),
{
    assert forall|i: int| 0 <= i < history.len() && history[i] is Start implies started_at(
        history,
        i,
    ) == !(#[trigger] history.skip(i)).contains(Transition::End) by {
        lemma_since(history, i);
    }
    if is_dispatching(history) {
        let i = choose|i: int| #[trigger] started_at(history, i);
        assert(!history.skip(i).contains(Transition::End));
    }
}

/// Dispatching is requested to stop if, and only if, it was started, a request came
/// after that, and it has not ended since.
proof fn lemma_requested(history: Seq<Transition>)
    ensures
        is_requested_to_stop(history) <==> exists|i: int|
            0 <= i < history.len() && history[i] is Start && !(#[trigger] history.skip(
                i,
            )).contains(Transition::End) && history.skip(i).contains(Transition::Shutdown),
{
    if is_requested_to_stop(history) {
        let (i, k) = choose|i: int, k: int| #[trigger] requested_at(history, i, k);
        lemma_since(history, i);
        assert(history.skip(i)[k - i] is Shutdown);
        assert(history.skip(i).contains(Transition::Shutdown));
    }
    if exists|i: int|
        0 <= i < history.len() && history[i] is Start && !(#[trigger] history.skip(i)).contains(
            Transition::End,
        ) && history.skip(i).contains(Transition::Shutdown) {
        let i = choose|i: int|
            0 <= i < history.len() && history[i] is Start && !(#[trigger] history.skip(
                i,
            )).contains(Transition::End) && history.skip(i).contains(Transition::Shutdown);
        lemma_since(history, i);
        let k = choose|k: int|
            0 <= k < history.skip(i).len() && history.skip(i)[k] == Transition::Shutdown;
        assert(history[i + k] is Shutdown);
        assert(requested_at(history, i, i + k));
    }
}

/// Dispatching was started by a transition and has not ended since if, and only if, no
/// end is among what followed.
proof fn lemma_since(history: Seq<Transition>, i: int)
    requires
        0 <= i < history.len(),
        history[i] is Start,
    ensures
        started_at(history, i) == !history.skip(i).contains(Transition::End),
{
    let since = history.skip(i);
    if since.contains(Transition::End) {
        let j = choose|j: int| 0 <= j < since.len() && since[j] == Transition::End;
        assert(history[i + j] is End);
    } else {
        assert forall|j: int| i < j < history.len() implies !(#[trigger] history[j] is End) by {
            assert(since[j - i] == history[j]);
            if history[j] is End {
                assert(since.contains(Transition::End));
            }
        }
    }
}

/// A request to shut down, through a token whose state was idle at first, is one
/// transition of the state that the token shares. It is granted if, and only if, the
/// transitions before it have started dispatching without ending it.
pub proof fn law_token_shuts_down(
    token: &ShutdownToken,
    result: Result<(), IdleShutdownError>,
)
    requires
        token.initial() is Idle,
        call_ensures(ShutdownToken::shutdown, (token,), result),
    ensures
        exists|history: Seq<Transition>|
            {
                &&& #[trigger] token.replaced(history, Transition::Shutdown)
                &&& result is Ok <==> exists|i: int|
                    0 <= i < history.len() && history[i] is Start && !(#[trigger] history.skip(
                        i,
                    )).contains(Transition::End)
            },
{
    let history = choose|history: Seq<Transition>| #[trigger]
        token.replaced(history, Transition::Shutdown) && result == token.state_after(
            history,
        ).shutdown_result();
    law_history(history);
    lemma_dispatching(history);
}

/// The tokens of a dispatcher, and its handlers of interrupt signals, share its state.
pub proof fn law_tokens_share<H, D, E, Key, F>(
    dispatcher: &Dispatcher<H, D, E, Key, F>,
    token: ShutdownToken,
    handler: CtrlcHandler,
) where F: Fn(&Update) -> Option<Key>, Key: Hash + Eq
    requires
        call_ensures(Dispatcher::<H, D, E, Key, F>::shutdown_token, (dispatcher,), token),
        call_ensures(Dispatcher::<H, D, E, Key, F>::setup_ctrlc_handler, (dispatcher,), handler),
    ensures
        token == dispatcher@.state,
        handler@ == token,
{
}

/// An interrupt signal requests that dispatching stops, as a token of the same
/// dispatcher does; the end of dispatching is waited for if, and only if, that is
/// granted.
pub proof fn law_signal_shuts_down(handler: &CtrlcHandler, response: SignalResponse)
    requires
        handler@.initial() is Idle,
        call_ensures(CtrlcHandler::on_signal, (handler,), response),
    ensures
        exists|history: Seq<Transition>|
            {
                &&& #[trigger] handler@.replaced(history, Transition::Shutdown)
                &&& response is AwaitShutdown <==> exists|i: int|
                    0 <= i < history.len() && history[i] is Start && !(#[trigger] history.skip(
                        i,
                    )).contains(Transition::End)
            },
{
    let history = choose|history: Seq<Transition>| #[trigger]
        handler@.replaced(history, Transition::Shutdown) && (response is AwaitShutdown) == (
        handler@.state_after(history).shutdown_result() is Ok);
    law_history(history);
    lemma_dispatching(history);
}

/// Transitions that begin with an idle state lead to one that is idle unless dispatching
/// was started and has not ended since, and to one that is shutting down if, and only if,
/// that was requested since.
pub proof fn law_transitions(history: Seq<Transition>)
    ensures
        ShutdownState::Idle.after_all(history) is Idle <==> !exists|i: int|
            0 <= i < history.len() && history[i] is Start && !(#[trigger] history.skip(
                i,
            )).contains(Transition::End),
        ShutdownState::Idle.after_all(history) is ShuttingDown <==> exists|i: int|
            0 <= i < history.len() && history[i] is Start && !(#[trigger] history.skip(
                i,
            )).contains(Transition::End) && history.skip(i).contains(Transition::Shutdown),
{
    law_history(history);
    lemma_dispatching(history);
    lemma_requested(history);
}

/// After a look, the listener is told to stop if the dispatcher is to shut down and the
/// stop token is still there, which it then is no more; otherwise the listener is waited
/// for, and the stop token stays.
pub proof fn law_look_is_answered<'a, H, D, E, T, Error>(
    listening: &mut Listening<T>,
    shutting_down: bool,
    step: Step<'a, T, H, D, E, Error>,
)
    requires
        call_ensures(
            Listening::<T>::check::<H, D, E, Error>,
            (listening, shutting_down),
            step,
        ),
    ensures
        final(listening)@.phase is Polling,
        match (old(listening)@.stop_token, shutting_down) {
            (Some(stop_token), true) => {
                &&& step == Step::<T, H, D, E, Error>::StopAndPoll(stop_token)
                &&& final(listening)@.stop_token is None
            },
            (stop_token, _) => {
                &&& step is Poll
                &&& final(listening)@.stop_token == stop_token
            },
        },
{
}

/// When the listener did nothing for long enough, the dispatcher looks at the state that
/// it shares with its tokens. The listener is told to stop if dispatching goes on, was
/// requested to stop since it was started, and the stop token is still there; otherwise
/// the listener is waited for. The dispatcher does not change.
pub proof fn law_time_passes<'a, H, D, E, Key, F, T, Error>(
    listening: &mut Listening<T>,
    dispatcher: &'a mut Dispatcher<H, D, E, Key, F>,
    step: Step<'a, T, H, D, E, Error>,
) where F: Fn(&Update) -> Option<Key>, Key: Hash + Eq
    requires
        old(dispatcher)@.state.initial() is Idle,
        call_ensures(
            Listening::<T>::advance::<H, D, E, Key, F, Error>,
            (listening, dispatcher, Event::TimedOut),
            step,
        ),
    ensures
        final(dispatcher).wf(),
        final(dispatcher)@ == old(dispatcher)@,
        final(listening)@.phase is Polling,
        exists|history: Seq<Transition>|
            {
                let told = old(dispatcher)@.running && exists|i: int|
                    0 <= i < history.len() && history[i] is Start && !(#[trigger] history.skip(
                        i,
                    )).contains(Transition::End) && history.skip(i).contains(
                        Transition::Shutdown,
                    );
                &&& #[trigger] old(dispatcher)@.state.was_read(history)
                &&& match (old(listening)@.stop_token, told) {
                    (Some(stop_token), true) => {
                        &&& step == Step::<T, H, D, E, Error>::StopAndPoll(stop_token)
                        &&& final(listening)@.stop_token is None
                    },
                    (stop_token, _) => {
                        &&& step is Poll
                        &&& final(listening)@.stop_token == stop_token
                    },
                }
            },
{
    let history = choose|history: Seq<Transition>| #[trigger]
        old(dispatcher)@.state.was_read(history) && step == old(listening)@.checked_step::<
            H,
            D,
            E,
            Error,
        >(old(dispatcher)@.is_told_to_stop(history));
    law_transitions(history);
}

/// When what an update asked for has been done, the handle of a task that was started is
/// kept, as that of the worker whose task it is, and nothing else of the dispatcher
/// changes. Then the dispatcher looks at the state that it shares with its tokens, as
/// it does when the listener did nothing.
pub proof fn law_update_is_done<'a, H, D, E, Key, F, T, Error>(
    listening: &mut Listening<T>,
    dispatcher: &'a mut Dispatcher<H, D, E, Key, F>,
    started: Option<JoinHandle<()>>,
    step: Step<'a, T, H, D, E, Error>,
) where F: Fn(&Update) -> Option<Key>, Key: Hash + Eq
    requires
        old(dispatcher)@.state.initial() is Idle,
        call_ensures(
            Listening::<T>::advance::<H, D, E, Key, F, Error>,
            (listening, dispatcher, Event::Acted { started }),
            step,
        ),
    ensures
        final(dispatcher).wf(),
        match started {
            Some(handle) => final(dispatcher)@.handles == old(dispatcher)@.handles.push(
                (old(listening)@.phase->starting->0, handle),
            ),
            None => final(dispatcher)@.handles == old(dispatcher)@.handles,
        },
        final(dispatcher)@.bot == old(dispatcher)@.bot,
        final(dispatcher)@.dependencies == old(dispatcher)@.dependencies,
        final(dispatcher)@.handler == old(dispatcher)@.handler,
        final(dispatcher)@.default_handler == old(dispatcher)@.default_handler,
        final(dispatcher)@.error_handler == old(dispatcher)@.error_handler,
        final(dispatcher)@.distribution_f == old(dispatcher)@.distribution_f,
        final(dispatcher)@.worker_queue_size == old(dispatcher)@.worker_queue_size,
        final(dispatcher)@.workers == old(dispatcher)@.workers,
        final(dispatcher)@.default_worker == old(dispatcher)@.default_worker,
        final(dispatcher)@.running == old(dispatcher)@.running,
        final(dispatcher)@.state == old(dispatcher)@.state,
        final(listening)@.phase is Polling,
        exists|history: Seq<Transition>|
            {
                let told = old(dispatcher)@.running && exists|i: int|
                    0 <= i < history.len() && history[i] is Start && !(#[trigger] history.skip(
                        i,
                    )).contains(Transition::End) && history.skip(i).contains(
                        Transition::Shutdown,
                    );
                &&& #[trigger] old(dispatcher)@.state.was_read(history)
                &&& match (old(listening)@.stop_token, told) {
                    (Some(stop_token), true) => {
                        &&& step == Step::<T, H, D, E, Error>::StopAndPoll(stop_token)
                        &&& final(listening)@.stop_token is None
                    },
                    (stop_token, _) => {
                        &&& step is Poll
                        &&& final(listening)@.stop_token == stop_token
                    },
                }
            },
{
    let history = choose|history: Seq<Transition>| #[trigger]
        old(dispatcher)@.state.was_read(history) && step == old(listening)@.checked_step::<
            H,
            D,
            E,
            Error,
        >(old(dispatcher)@.is_told_to_stop(history));
    law_transitions(history);
}

/// What the listener produced is acted on as processing it says, whether it is a parsed
/// update, an update that could not be parsed, or an error; the round then waits until
/// that is done, and for the handle of a task that has to be started. The stop token
/// stays.
pub proof fn law_update_is_received<'a, H, D, E, Key, F, T, Error>(
    listening: &mut Listening<T>,
    dispatcher: &'a mut Dispatcher<H, D, E, Key, F>,
    update: Result<Update, Error>,
    step: Step<'a, T, H, D, E, Error>,
) where F: Fn(&Update) -> Option<Key>, Key: Hash + Eq
    requires
        call_ensures(
            Listening::<T>::advance::<H, D, E, Key, F, Error>,
            (listening, dispatcher, Event::Received(update)),
            step,
        ),
    ensures
        final(dispatcher).wf(),
        step is Act,
        final(listening)@.stop_token == old(listening)@.stop_token,
        final(listening)@.phase is Acting,
        final(listening)@.phase->starting == match step->Act_0 {
            Action::Send { worker, task: Some(_), .. } => Some(worker.id),
            _ => None,
        },
        final(dispatcher)@.bot == old(dispatcher)@.bot,
        final(dispatcher)@.dependencies == old(dispatcher)@.dependencies,
        final(dispatcher)@.handler == old(dispatcher)@.handler,
        final(dispatcher)@.default_handler == old(dispatcher)@.default_handler,
        final(dispatcher)@.error_handler == old(dispatcher)@.error_handler,
        final(dispatcher)@.distribution_f == old(dispatcher)@.distribution_f,
        final(dispatcher)@.worker_queue_size == old(dispatcher)@.worker_queue_size,
        final(dispatcher)@.handles == old(dispatcher)@.handles,
        final(dispatcher)@.running == old(dispatcher)@.running,
        final(dispatcher)@.state == old(dispatcher)@.state,
        match update {
            Err(error) => {
                &&& step->Act_0 == Action::<H, D, E, Error>::HandleListenerError(error)
                &&& final(dispatcher)@ == old(dispatcher)@
            },
            Ok(update) => match update.kind {
                UpdateKind::Error(error) => {
                    &&& step->Act_0 == Action::<H, D, E, Error>::ReportUnparsed(error)
                    &&& final(dispatcher)@ == old(dispatcher)@
                },
                UpdateKind::Event(_) => {
                    let action = step->Act_0;
                    &&& action is Send
                    &&& action->update == update
                    &&& exists|key: Option<Key>|
                        {
                            &&& #[trigger] call_ensures(
                                old(dispatcher)@.distribution_f,
                                (&update,),
                                key,
                            )
                            &&& match key {
                                Some(key) => {
                                    &&& action->worker.id.kind is Sequential
                                    &&& final(dispatcher)@.workers.contains_key(key)
                                    &&& final(dispatcher)@.workers[key] == *action->worker
                                    &&& action->task is None <==> old(
                                        dispatcher)@.workers.contains_key(key)
                                    &&& final(dispatcher)@.default_worker == old(
                                        dispatcher)@.default_worker
                                },
                                None => {
                                    &&& action->worker.id.kind is Concurrent
                                    &&& final(dispatcher)@.default_worker == Some(*action->worker)
                                    &&& action->task is None <==> old(
                                        dispatcher)@.default_worker is Some
                                    &&& final(dispatcher)@.workers == old(dispatcher)@.workers
                                },
                            }
                        }
                    &&& action->task is Some ==> {
                        &&& action->task->0.kind == action->worker.id.kind
                        &&& queue_connects(action->worker.tx, action->task->0.updates)
                        &&& queue_bound(action->worker.tx) == old(dispatcher)@.worker_queue_size
                        &&& dependency_contents(*action->task->0.deps) == old(
                            dispatcher)@.dependencies
                        &&& *action->task->0.handler == old(dispatcher)@.handler
                        &&& action->task->0.default_handler == old(dispatcher)@.default_handler
                        &&& action->task->0.error_handler == old(dispatcher)@.error_handler
                    }
                },
            },
        },
{
    final(dispatcher).law_workers_valid();
}

/// When the listener has ended, the tasks whose handles were kept are waited for, all of
/// them and in their order. No worker is left; nothing else of the dispatcher changes.
pub proof fn law_listener_has_ended<'a, H, D, E, Key, F, T, Error>(
    listening: &mut Listening<T>,
    dispatcher: &'a mut Dispatcher<H, D, E, Key, F>,
    step: Step<'a, T, H, D, E, Error>,
) where F: Fn(&Update) -> Option<Key>, Key: Hash + Eq
    requires
        call_ensures(
            Listening::<T>::advance::<H, D, E, Key, F, Error>,
            (listening, dispatcher, Event::Ended),
            step,
        ),
    ensures
        final(dispatcher).wf(),
        step is Join,
        step->Join_0@.len() == old(dispatcher)@.handles.len(),
        forall|i: int|
            0 <= i < step->Join_0@.len() ==> #[trigger] step->Join_0@[i] == old(
                dispatcher)@.handles[i].1,
        final(listening)@.phase is Joining,
        final(listening)@.stop_token == old(listening)@.stop_token,
        final(dispatcher)@.handles.len() == 0,
        forall|key: Key| !#[trigger] final(dispatcher)@.workers.contains_key(key),
        final(dispatcher)@.default_worker is None,
        final(dispatcher)@.bot == old(dispatcher)@.bot,
        final(dispatcher)@.dependencies == old(dispatcher)@.dependencies,
        final(dispatcher)@.handler == old(dispatcher)@.handler,
        final(dispatcher)@.default_handler == old(dispatcher)@.default_handler,
        final(dispatcher)@.error_handler == old(dispatcher)@.error_handler,
        final(dispatcher)@.distribution_f == old(dispatcher)@.distribution_f,
        final(dispatcher)@.worker_queue_size == old(dispatcher)@.worker_queue_size,
        final(dispatcher)@.running == old(dispatcher)@.running,
        final(dispatcher)@.state == old(dispatcher)@.state,
{
}

/// When the workers have ended, dispatching ends too, which is one transition of the
/// state that the dispatcher shares with its tokens. Those who wait for it are told if,
/// and only if, dispatching went on and was requested to stop since it was started.
/// Nothing else of the dispatcher changes.
pub proof fn law_workers_have_ended<'a, H, D, E, Key, F, T, Error>(
    listening: &mut Listening<T>,
    dispatcher: &'a mut Dispatcher<H, D, E, Key, F>,
    step: Step<'a, T, H, D, E, Error>,
) where F: Fn(&Update) -> Option<Key>, Key: Hash + Eq
    requires
        old(dispatcher)@.state.initial() is Idle,
        call_ensures(
            Listening::<T>::advance::<H, D, E, Key, F, Error>,
            (listening, dispatcher, Event::Joined),
            step,
        ),
    ensures
        final(dispatcher).wf(),
        step is Finish,
        exists|history: Seq<Transition>|
            {
                &&& #[trigger] old(dispatcher)@.state.replaced(history, Transition::End)
                &&& step->requested <==> old(dispatcher)@.running && exists|i: int|
                    0 <= i < history.len() && history[i] is Start && !(#[trigger] history.skip(
                        i,
                    )).contains(Transition::End) && history.skip(i).contains(
                        Transition::Shutdown,
                    )
            },
        final(listening)@.phase is Over,
        final(listening)@.stop_token == old(listening)@.stop_token,
        !final(dispatcher)@.running,
        final(dispatcher)@.bot == old(dispatcher)@.bot,
        final(dispatcher)@.dependencies == old(dispatcher)@.dependencies,
        final(dispatcher)@.handler == old(dispatcher)@.handler,
        final(dispatcher)@.default_handler == old(dispatcher)@.default_handler,
        final(dispatcher)@.error_handler == old(dispatcher)@.error_handler,
        final(dispatcher)@.distribution_f == old(dispatcher)@.distribution_f,
        final(dispatcher)@.worker_queue_size == old(dispatcher)@.worker_queue_size,
        final(dispatcher)@.workers == old(dispatcher)@.workers,
        final(dispatcher)@.default_worker == old(dispatcher)@.default_worker,
        final(dispatcher)@.handles == old(dispatcher)@.handles,
        final(dispatcher)@.state == old(dispatcher)@.state,
{
    let history = choose|history: Seq<Transition>| #[trigger]
        old(dispatcher)@.state.replaced(history, Transition::End) && step->requested == old(
            dispatcher,
        )@.is_told_to_stop(history);
    law_transitions(history);
}

/// A round can go on after everything that can happen where it stands: while it waits for
/// the listener, after what the listener does; while an update is acted on, after that,
/// with a handle if, and only if, a task was to be started; at the end, when the workers
/// have ended.
pub proof fn law_round_can_go_on<'a, H, D, E, Key, F, T, Error>(
    listening: &mut Listening<T>,
    dispatcher: &'a mut Dispatcher<H, D, E, Key, F>,
    event: Event<Error>,
) where F: Fn(&Update) -> Option<Key>, Key: Hash + Eq
    requires
        old(dispatcher).wf(),
        obeys_key_model::<Key>(),
        match event {
            Event::TimedOut | Event::Ended => old(listening)@.phase is Polling,
            Event::Received(Ok(update)) => old(listening)@.phase is Polling && (
            update.kind is Event ==> {
                &&& call_requires(old(dispatcher)@.distribution_f, (&update,))
                &&& 0 < old(dispatcher)@.worker_queue_size <= usize::MAX / 8
            }),
            Event::Received(Err(_)) => old(listening)@.phase is Polling,
            Event::Acted { started: Some(_) } => old(listening)@.phase is Acting && old(
                listening)@.phase->starting is Some,
            Event::Acted { started: None } => old(listening)@.phase is Acting && old(
                listening)@.phase->starting is None,
            Event::Joined => old(listening)@.phase is Joining,
        },
    ensures
        call_requires(
            Listening::<T>::advance::<H, D, E, Key, F, Error>,
            (listening, dispatcher, event),
        ),
{
}

/// Dispatching is started by one transition of the state that the dispatcher shares with
/// its tokens. Where it is running already, what was found there is told: that it is
/// shutting down if it was requested to stop since it was started, and that it is running
/// otherwise.
pub proof fn law_start_is_made<H, D, E, Key, F, T>(
    dispatcher: &mut Dispatcher<H, D, E, Key, F>,
    me: Me,
    stop_token: T,
    listening: Result<Listening<T>, AlreadyRunning>,
) where F: Fn(&Update) -> Option<Key>, Key: Hash + Eq
    requires
        old(dispatcher)@.state.initial() is Idle,
        call_ensures(
            Dispatcher::<H, D, E, Key, F>::dispatch_with_listener::<T>,
            (dispatcher, me, stop_token),
            listening,
        ),
    ensures
        match listening {
            Ok(_) => exists|history: Seq<Transition>| #[trigger]
                old(dispatcher)@.state.replaced(history, Transition::Start),
            Err(error) => exists|history: Seq<Transition>|
                {
                    let requested = exists|i: int|
                        0 <= i < history.len() && history[i] is Start && !(
                        #[trigger] history.skip(i)).contains(Transition::End) && history.skip(
                            i,
                        ).contains(Transition::Shutdown);
                    &&& #[trigger] old(dispatcher)@.state.was_read(history)
                    &&& requested ==> error.found is ShuttingDown
                    &&& !requested ==> error.found is Running
                },
        },
{
    if listening is Err {
        let history = choose|history: Seq<Transition>| #[trigger]
            old(dispatcher)@.state.was_read(history) && listening->Err_0.found == (if old(
                dispatcher,
            )@.is_told_to_stop(history) {
                ShutdownState::ShuttingDown
            } else {
                ShutdownState::Running
            });
        law_transitions(history);
        assert(old(dispatcher)@.state.was_read(history));
    }
}

/// After dispatching was started with the default settings, the first update that is
/// processed starts a worker whose dependencies are the bot, and what the messaging
/// service knows about it.
pub proof fn law_first_update_of_round<H, D, E, T, Error>(
    bot: Bot,
    handler: H,
    me: Me,
    stop_token: T,
    update: Update,
)
    requires
        update.kind is Event,
    ensures
        forall|
            builder,
            dispatcher: &mut Dispatcher<H, D, E, DefaultKey, _>,
            listening,
            started: &mut Dispatcher<H, D, E, DefaultKey, _>,
            action,
        |
            (#[trigger] call_ensures(
                Dispatcher::<H, D, E, DefaultKey, ()>::builder,
                (bot, handler),
                builder,
            ) && #[trigger] call_ensures(
                DispatcherBuilder::<H, D, E, _>::build::<DefaultKey>,
                (builder,),
                *dispatcher,
            ) && #[trigger] call_ensures(
                Dispatcher::<H, D, E, DefaultKey, _>::dispatch_with_listener::<T>,
                (dispatcher, me, stop_token),
                listening,
            ) && equal(*started, *final(dispatcher)) && #[trigger] call_ensures(
                Dispatcher::<H, D, E, DefaultKey, _>::process_update::<Error>,
                (started, Ok(update)),
                action,
            )) ==> {
                let held = dependency_contents(*action->task->0.deps);
                &&& listening is Ok
                &&& action is Send
                &&& action->update == update
                &&& action->worker.id.kind is Sequential <==> update.chat is Some
                &&& action->task is Some
                &&& *action->task->0.handler == handler
                &&& action->task->0.default_handler is LogWarning
                &&& action->task->0.error_handler is Logging
                &&& held.contains_key(DependencyKind::Bot)
                &&& held[DependencyKind::Bot] == Dependency::Bot(bot)
                &&& held.contains_key(DependencyKind::Me)
                &&& held[DependencyKind::Me] == Dependency::Me(me)
                &&& !held.contains_key(DependencyKind::Update)
                &&& forall|kind: int| !#[trigger] held.contains_key(DependencyKind::Other(kind))
            },
{
}

/// The handles that a new dispatcher is given are those that it returns when its workers
/// are taken, in their order; when they are taken again, there are none.
pub proof fn law_handles_are_returned_once<H, D, E, Key, F>(
    builder: DispatcherBuilder<H, D, E, F>,
    dispatcher: &mut Dispatcher<H, D, E, Key, F>,
    first: WorkerId,
    of_first: JoinHandle<()>,
    with_first: &mut Dispatcher<H, D, E, Key, F>,
    second: WorkerId,
    of_second: JoinHandle<()>,
    with_second: &mut Dispatcher<H, D, E, Key, F>,
    handles: Vec<JoinHandle<()>>,
    without: &mut Dispatcher<H, D, E, Key, F>,
    rest: Vec<JoinHandle<()>>,
) where F: Fn(&Update) -> Option<Key>, Key: Hash + Eq
    requires
        call_ensures(DispatcherBuilder::<H, D, E, F>::build::<Key>, (builder,), *old(dispatcher)),
        call_ensures(
            Dispatcher::<H, D, E, Key, F>::add_handle,
            (dispatcher, first, of_first),
            (),
        ),
        *old(with_first) == *final(dispatcher),
        call_ensures(
            Dispatcher::<H, D, E, Key, F>::add_handle,
            (with_first, second, of_second),
            (),
        ),
        *old(with_second) == *final(with_first),
        call_ensures(Dispatcher::<H, D, E, Key, F>::take_workers, (with_second,), handles),
        *old(without) == *final(with_second),
        call_ensures(Dispatcher::<H, D, E, Key, F>::take_workers, (without,), rest),
    ensures
        handles@ == seq![of_first, of_second],
        rest@.len() == 0,
{
}

/// The stop token with which dispatching was started is handed out at the first look that
/// finds the dispatcher shutting down, and at no other.
pub proof fn law_stop_token_is_handed_out_once<'a, H, D, E, Key, F, T, Error>(
    dispatcher: &mut Dispatcher<H, D, E, Key, F>,
    me: Me,
    stop_token: T,
    started: Result<Listening<T>, AlreadyRunning>,
    listening: &mut Listening<T>,
    before: Step<'a, T, H, D, E, Error>,
    later: &mut Listening<T>,
    at_request: Step<'a, T, H, D, E, Error>,
    afterwards: &mut Listening<T>,
    shutting_down: bool,
    after: Step<'a, T, H, D, E, Error>,
) where F: Fn(&Update) -> Option<Key>, Key: Hash + Eq
    requires
        call_ensures(
            Dispatcher::<H, D, E, Key, F>::dispatch_with_listener::<T>,
            (dispatcher, me, stop_token),
            started,
        ),
        started == Ok::<Listening<T>, AlreadyRunning>(*old(listening)),
        call_ensures(Listening::<T>::check::<H, D, E, Error>, (listening, false), before),
        *old(later) == *final(listening),
        call_ensures(Listening::<T>::check::<H, D, E, Error>, (later, true), at_request),
        *old(afterwards) == *final(later),
        call_ensures(
            Listening::<T>::check::<H, D, E, Error>,
            (afterwards, shutting_down),
            after,
        ),
    ensures
        before is Poll,
        at_request == Step::<T, H, D, E, Error>::StopAndPoll(stop_token),
        after is Poll,
{
}

/// A task that an update starts is waited for when the listener has ended: its handle is
/// the last of those that are returned.
pub proof fn law_started_task_is_joined<'a, H, D, E, Key, F, T, Error>(
    listening: &mut Listening<T>,
    dispatcher: &'a mut Dispatcher<H, D, E, Key, F>,
    update: Result<Update, Error>,
    step: Step<'a, T, H, D, E, Error>,
    acting: &mut Listening<T>,
    sending: &'a mut Dispatcher<H, D, E, Key, F>,
    handle: JoinHandle<()>,
    next: Step<'a, T, H, D, E, Error>,
    polling: &mut Listening<T>,
    ending: &'a mut Dispatcher<H, D, E, Key, F>,
    last: Step<'a, T, H, D, E, Error>,
) where F: Fn(&Update) -> Option<Key>, Key: Hash + Eq
    requires
        call_ensures(
            Listening::<T>::advance::<H, D, E, Key, F, Error>,
            (listening, dispatcher, Event::Received(update)),
            step,
        ),
        step is Act,
        step->Act_0 is Send,
        step->Act_0->task is Some,
        *old(acting) == *final(listening),
        *old(sending) == *final(dispatcher),
        call_ensures(
            Listening::<T>::advance::<H, D, E, Key, F, Error>,
            (acting, sending, Event::Acted { started: Some(handle) }),
            next,
        ),
        *old(polling) == *final(acting),
        *old(ending) == *final(sending),
        call_ensures(
            Listening::<T>::advance::<H, D, E, Key, F, Error>,
            (polling, ending, Event::Ended),
            last,
        ),
    ensures
        last is Join,
        last->Join_0@.len() > 0,
        last->Join_0@.last() == handle,
        final(sending)@.handles.last().0 == step->Act_0->worker.id,
{
}

/// The token of a dispatcher stays the same when dispatching is started, and after
/// everything that happens in a round.
pub proof fn law_token_stays<'a, H, D, E, Key, F, T, Error>(
    dispatcher: &'a mut Dispatcher<H, D, E, Key, F>,
    token: ShutdownToken,
    me: Me,
    stop_token: T,
    started: Result<Listening<T>, AlreadyRunning>,
    running: &'a mut Dispatcher<H, D, E, Key, F>,
    listening: &mut Listening<T>,
    event: Event<Error>,
    step: Step<'a, T, H, D, E, Error>,
    token_after: ShutdownToken,
) where F: Fn(&Update) -> Option<Key>, Key: Hash + Eq
    requires
        call_ensures(
            Dispatcher::<H, D, E, Key, F>::shutdown_token,
            (&*old(dispatcher),),
            token,
        ),
        call_ensures(
            Dispatcher::<H, D, E, Key, F>::dispatch_with_listener::<T>,
            (dispatcher, me, stop_token),
            started,
        ),
        *old(running) == *final(dispatcher),
        call_ensures(
            Listening::<T>::advance::<H, D, E, Key, F, Error>,
            (listening, running, event),
            step,
        ),
        call_ensures(
            Dispatcher::<H, D, E, Key, F>::shutdown_token,
            (&*final(running),),
            token_after,
        ),
    ensures
        token_after == token,
{
}

/// What a builder can be told, and a new dispatcher be built from, is not restricted.
pub proof fn law_builders_take_everything<H, D, E, F, Key, G>(
    bot: Bot,
    new_handler: H,
    builder: DispatcherBuilder<H, D, E, F>,
    default_handler: D,
    error_handler: Arc<E>,
    dependencies: DependencyMap,
    size: usize,
    f: G,
    told: DispatcherBuilder<H, D, E, G>,
) where G: Fn(&Update) -> Option<Key>, Key: Hash + Eq
    ensures
        call_requires(Dispatcher::<H, D, E, DefaultKey, ()>::builder, (bot, new_handler)),
        call_requires(
            DispatcherBuilder::<H, D, E, F>::default_handler,
            (builder, default_handler),
        ),
        call_requires(DispatcherBuilder::<H, D, E, F>::error_handler, (builder, error_handler)),
        call_requires(DispatcherBuilder::<H, D, E, F>::dependencies, (builder, dependencies)),
        call_requires(DispatcherBuilder::<H, D, E, F>::worker_queue_size, (builder, size)),
        call_requires(
            DispatcherBuilder::<H, D, E, F>::distribution_function::<Key, G>,
            (builder, f),
        ),
        call_requires(DispatcherBuilder::<H, D, E, G>::build::<Key>, (told,)),
{
}

/// A dispatcher can be asked for its handler, its tokens and its queues at any time.
pub proof fn law_dispatchers_can_be_asked<H, D, E, Key, F>(
    dispatcher: &Dispatcher<H, D, E, Key, F>,
) where F: Fn(&Update) -> Option<Key>, Key: Hash + Eq
    ensures
        call_requires(Dispatcher::<H, D, E, Key, F>::handler, (dispatcher,)),
        call_requires(Dispatcher::<H, D, E, Key, F>::shutdown_token, (dispatcher,)),
        call_requires(Dispatcher::<H, D, E, Key, F>::setup_ctrlc_handler, (dispatcher,)),
        call_requires(Dispatcher::<H, D, E, Key, F>::can_spawn, (dispatcher,)),
{
}

/// Shutting down can be requested, and looked for, at any time.
pub proof fn law_shutting_down_can_be_requested<'a, H, D, E, T, Error>(
    token: &ShutdownToken,
    handler: &CtrlcHandler,
    request: Result<(), IdleShutdownError>,
    state: &mut ShutdownState,
    listening: &mut Listening<T>,
    shutting_down: bool,
)
    ensures
        call_requires(ShutdownToken::shutdown, (token,)),
        call_requires(CtrlcHandler::on_signal, (handler,)),
        call_requires(SignalResponse::to_request, (request,)),
        call_requires(ShutdownState::start_dispatching, (state,)),
        call_requires(ShutdownState::shutdown, (state,)),
        call_requires(ShutdownState::is_shutting_down, (&*old(state),)),
        call_requires(ShutdownState::done, (state,)),
        call_requires(
            Listening::<T>::check::<H, D, E, Error>,
            (listening, shutting_down),
        ),
{
}

/// Every update can be grouped, and handled with whatever dependencies there are.
pub proof fn law_every_update_is_handled(update: Update, deps: &DependencyMap, size: usize)
    ensures
        call_requires(default_distribution_function, (&update,)),
        call_requires(handle_update, (update, deps)),
        call_requires(is_valid_queue_size, (size,)),
{
}

} // verus!
