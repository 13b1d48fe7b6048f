//! What holds of the library as a whole.

use std::ops::ControlFlow;

use dptree::di::DependencyMap;
use tokio::task::JoinHandle;
use vstd::prelude::*;

use crate::calls::law_transitions;
use crate::dependencies::{
    dependency_contents, handler_dependencies, Dependency, DependencyKind,
};
use crate::dispatcher::{Action, DispatcherView};
use crate::handling::{keeps_update, reaction, unhandled_reaction};
use crate::listening::{dispatcher_answers, Event, ListeningView, Phase, Step};
use crate::shutdown::{ShutdownState, Transition};
use crate::types::{DefaultKey, Me, Update};
use crate::worker::{DefaultHandler, ErrorHandler, Worker, WorkerId, WorkerTaskView};

verus! {

/// An update that was sent to a worker, with the key that it was given.
pub struct Delivery<Key> {
    pub update: Update,
    pub key: Option<Key>,
    pub worker: Worker,
}

/// In the state `before` a delivery was made, and the state was then `after`, whatever
/// handles it had.
pub open spec fn is_delivered<H, D, E, Key, F: Fn(&Update) -> Option<Key>>(
    before: DispatcherView<H, D, E, Key, F>,
    delivery: Delivery<Key>,
    after: DispatcherView<H, D, E, Key, F>,
) -> bool {
    &&& before.assigns(delivery.update, delivery.key)
    &&& before.routes(
        delivery.key,
        delivery.worker,
        DispatcherView { handles: before.handles, ..after },
    )
    &&& before.worker_of(delivery.key) is None ==> before.is_new(delivery.key, delivery.worker)
}

/// `deliveries` are made one after another, from the first of `states` to the last.
pub open spec fn is_run<H, D, E, Key, F: Fn(&Update) -> Option<Key>>(
    states: Seq<DispatcherView<H, D, E, Key, F>>,
    deliveries: Seq<Delivery<Key>>,
) -> bool {
    &&& states.len() == deliveries.len() + 1
    &&& states[0].valid()
    &&& forall|i: int|
        0 <= i < deliveries.len() ==> is_delivered(
            states[i],
            #[trigger] deliveries[i],
            states[i + 1],
        )
}

/// A delivery after a run makes a longer run.
pub proof fn law_run_goes_on<H, D, E, Key, F: Fn(&Update) -> Option<Key>>(
    states: Seq<DispatcherView<H, D, E, Key, F>>,
    deliveries: Seq<Delivery<Key>>,
    delivery: Delivery<Key>,
    after: DispatcherView<H, D, E, Key, F>,
)
    requires
        is_run(states, deliveries),
        is_delivered(states.last(), delivery, after),
    ensures
        is_run(states.push(after), deliveries.push(delivery)),
{
    let longer = deliveries.push(delivery);
    assert forall|i: int| 0 <= i < longer.len() implies is_delivered(
        states.push(after)[i],
        #[trigger] longer[i],
        states.push(after)[i + 1],
    ) by {
        if i < deliveries.len() {
            assert(longer[i] == deliveries[i]);
        }
    }
}

/// What the listener produced is an update that was parsed.
pub open spec fn is_to_be_sent<Error>(update: Result<Update, Error>) -> bool {
    update is Ok && update->Ok_0.is_parsed()
}

/// Processing what the listener produced makes one delivery if it is a parsed update:
/// of that update, to the worker that it is sent to. Otherwise nothing is sent, and
/// nothing changes.
pub proof fn law_processing_delivers<H, D, E, Key, F: Fn(&Update) -> Option<Key>, Error>(
    before: DispatcherView<H, D, E, Key, F>,
    update: Result<Update, Error>,
    action: Action<H, D, E, Error>,
    after: DispatcherView<H, D, E, Key, F>,
)
    requires
        before.processes(update, action, after),
    ensures
        is_to_be_sent(update) <==> action is Send,
        action is Send ==> exists|delivery: Delivery<Key>| #[trigger]
            is_delivered(before, delivery, after) && delivery.update == update->Ok_0
                && delivery.worker == *action->worker,
        !(action is Send) ==> after == before,
{
    if is_to_be_sent(update) {
        let sent = update->Ok_0;
        let worker = *action->worker;
        assert(before.delivers(sent, worker, action->task, after));
        let key = choose|key: Option<Key>| #[trigger]
            before.assigns(sent, key) && before.routes(key, worker, after) && before.spawns(
                key,
                worker,
                action->task,
            );
        let delivery = Delivery { update: sent, key, worker };
        assert(after == DispatcherView { handles: before.handles, ..after });
        assert(is_delivered(before, delivery, after));
    }
}

/// A valid state stays valid when an update is sent, with a new worker or not.
pub proof fn law_stays_valid<H, D, E, Key, F: Fn(&Update) -> Option<Key>>(
    before: DispatcherView<H, D, E, Key, F>,
    delivery: Delivery<Key>,
    after: DispatcherView<H, D, E, Key, F>,
)
    requires
        before.valid(),
        is_delivered(before, delivery, after),
    ensures
        after.valid(),
{
    let key = delivery.key;
    if before.worker_of(key) is None && key is Some {
        assert(after.workers.dom() =~= before.workers.dom().insert(key->0));
    }
}

/// All states of a run are valid.
proof fn lemma_run_valid<H, D, E, Key, F: Fn(&Update) -> Option<Key>>(
    states: Seq<DispatcherView<H, D, E, Key, F>>,
    deliveries: Seq<Delivery<Key>>,
    i: int,
)
    requires
        is_run(states, deliveries),
        0 <= i < states.len(),
    ensures
        states[i].valid(),
    decreases i,
{
    if i > 0 {
        lemma_run_valid(states, deliveries, i - 1);
        law_stays_valid(states[i - 1], deliveries[i - 1], states[i]);
    }
}

/// A worker that is there stays until the end of the run.
proof fn lemma_worker_stays<H, D, E, Key, F: Fn(&Update) -> Option<Key>>(
    states: Seq<DispatcherView<H, D, E, Key, F>>,
    deliveries: Seq<Delivery<Key>>,
    key: Option<Key>,
    i: int,
    j: int,
)
    requires
        is_run(states, deliveries),
        0 <= i <= j < states.len(),
        states[i].worker_of(key) is Some,
    ensures
        states[j].worker_of(key) == states[i].worker_of(key),
    decreases j - i,
{
    if i < j {
        let delivery = deliveries[i];
        assert(states[i + 1].worker_of(key) == states[i].worker_of(key));
        lemma_worker_stays(states, deliveries, key, i + 1, j);
    }
}

/// An update's worker is, from then on, the worker of the update's key.
proof fn lemma_delivered_to_worker_of_key<H, D, E, Key, F: Fn(&Update) -> Option<Key>>(
    states: Seq<DispatcherView<H, D, E, Key, F>>,
    deliveries: Seq<Delivery<Key>>,
    i: int,
)
    requires
        is_run(states, deliveries),
        0 <= i < deliveries.len(),
    ensures
        states.last().worker_of(deliveries[i].key) == Some(deliveries[i].worker),
{
    let delivery = deliveries[i];
    assert(states[i + 1].worker_of(delivery.key) == Some(delivery.worker));
    lemma_worker_stays(states, deliveries, delivery.key, i + 1, states.len() - 1);
}

/// Updates with the same key go to the same worker, updates with different keys to
/// different workers, and updates without a key to a worker that no key has.
pub proof fn law_one_worker_per_key<H, D, E, Key, F: Fn(&Update) -> Option<Key>>(
    states: Seq<DispatcherView<H, D, E, Key, F>>,
    deliveries: Seq<Delivery<Key>>,
    i: int,
    j: int,
)
    requires
        is_run(states, deliveries),
        0 <= i < deliveries.len(),
        0 <= j < deliveries.len(),
    ensures
        deliveries[i].key == deliveries[j].key <==> deliveries[i].worker == deliveries[j].worker,
{
    lemma_delivered_to_worker_of_key(states, deliveries, i);
    lemma_delivered_to_worker_of_key(states, deliveries, j);
    lemma_run_valid(states, deliveries, states.len() - 1);
}

/// An update with a key goes to a worker that consumes its updates one after
/// another; an update without a key goes to a worker that consumes them
/// concurrently.
pub proof fn law_sequential_per_key<H, D, E, Key, F: Fn(&Update) -> Option<Key>>(
    states: Seq<DispatcherView<H, D, E, Key, F>>,
    deliveries: Seq<Delivery<Key>>,
    i: int,
)
    requires
        is_run(states, deliveries),
        0 <= i < deliveries.len(),
    ensures
        deliveries[i].key is Some <==> deliveries[i].worker.id.kind is Sequential,
        deliveries[i].key is None <==> deliveries[i].worker.id.kind is Concurrent,
{
    lemma_delivered_to_worker_of_key(states, deliveries, i);
    lemma_run_valid(states, deliveries, states.len() - 1);
}

/// Two tests that agree on all items of a sequence leave the same items.
proof fn lemma_same_filter<A>(items: Seq<A>, one: spec_fn(A) -> bool, other: spec_fn(A) -> bool)
    requires
        forall|i: int| 0 <= i < items.len() ==> one(#[trigger] items[i]) == other(items[i]),
    ensures
        items.filter(one) == items.filter(other),
    decreases items.len(),
{
    reveal(Seq::filter);
    if items.len() > 0 {
        let rest = items.drop_last();
        assert forall|i: int| 0 <= i < rest.len() implies one(#[trigger] rest[i]) == other(
            rest[i],
        ) by {
            assert(rest[i] == items[i]);
        }
        lemma_same_filter(rest, one, other);
        assert(one(items[items.len() - 1]) == other(items[items.len() - 1]));
    }
}

/// What is sent to the worker of an update is exactly the updates with that update's
/// key, in the order in which they came.
pub proof fn law_updates_in_order<H, D, E, Key, F: Fn(&Update) -> Option<Key>>(
    states: Seq<DispatcherView<H, D, E, Key, F>>,
    deliveries: Seq<Delivery<Key>>,
    i: int,
)
    requires
        is_run(states, deliveries),
        0 <= i < deliveries.len(),
    ensures
        deliveries.filter(|delivery: Delivery<Key>| delivery.worker == deliveries[i].worker)
            == deliveries.filter(|delivery: Delivery<Key>| delivery.key == deliveries[i].key),
{
    let to_worker = |delivery: Delivery<Key>| delivery.worker == deliveries[i].worker;
    let with_key = |delivery: Delivery<Key>| delivery.key == deliveries[i].key;
    assert forall|j: int| 0 <= j < deliveries.len() implies to_worker(#[trigger] deliveries[j])
        == with_key(deliveries[j]) by {
        law_one_worker_per_key(states, deliveries, i, j);
    }
    lemma_same_filter(deliveries, to_worker, with_key);
}

/// With the distribution by chat, updates from the same chat go to the same worker,
/// which consumes them one after another; updates from different chats go to
/// different workers; and an update of which no chat is known goes to a worker that
/// consumes its updates concurrently.
pub proof fn law_chats<H, D, E, F: Fn(&Update) -> Option<DefaultKey>>(
    states: Seq<DispatcherView<H, D, E, DefaultKey, F>>,
    deliveries: Seq<Delivery<DefaultKey>>,
    i: int,
    j: int,
)
    requires
        is_run(states, deliveries),
        forall|n: int, update: Update, key: Option<DefaultKey>|
            0 <= n < states.len() && #[trigger] states[n].assigns(update, key) ==> key
                == update.chat,
        0 <= i < deliveries.len(),
        0 <= j < deliveries.len(),
    ensures
        deliveries[i].update.chat == deliveries[j].update.chat <==> deliveries[i].worker
            == deliveries[j].worker,
        deliveries[i].update.chat is Some <==> deliveries[i].worker.id.kind is Sequential,
        deliveries[i].update.chat is None <==> deliveries[i].worker.id.kind is Concurrent,
{
    law_one_worker_per_key(states, deliveries, i, j);
    law_sequential_per_key(states, deliveries, i);
    assert(states[i].assigns(deliveries[i].update, deliveries[i].key));
    assert(states[j].assigns(deliveries[j].update, deliveries[j].key));
}

/// A dispatcher that had no workers has a worker for a key, or for updates without a
/// key, if, and only if, an update with that key, or without a key, was sent since.
pub proof fn law_workers_of_keys<H, D, E, Key, F: Fn(&Update) -> Option<Key>>(
    states: Seq<DispatcherView<H, D, E, Key, F>>,
    deliveries: Seq<Delivery<Key>>,
    key: Option<Key>,
)
    requires
        is_run(states, deliveries),
        states[0].workers == Map::<Key, Worker>::empty(),
        states[0].default_worker is None,
    ensures
        states.last().worker_of(key) is Some <==> exists|i: int|
            0 <= i < deliveries.len() && (#[trigger] deliveries[i]).key == key,
{
    lemma_worker_of_key(states, deliveries, key, deliveries.len() as int);
}

/// The same of the first `n` deliveries.
proof fn lemma_worker_of_key<H, D, E, Key, F: Fn(&Update) -> Option<Key>>(
    states: Seq<DispatcherView<H, D, E, Key, F>>,
    deliveries: Seq<Delivery<Key>>,
    key: Option<Key>,
    n: int,
)
    requires
        is_run(states, deliveries),
        states[0].workers == Map::<Key, Worker>::empty(),
        states[0].default_worker is None,
        0 <= n <= deliveries.len(),
    ensures
        states[n].worker_of(key) is Some <==> exists|i: int|
            0 <= i < n && (#[trigger] deliveries[i]).key == key,
    decreases n,
{
    if n > 0 {
        lemma_worker_of_key(states, deliveries, key, n - 1);
        assert(is_delivered(states[n - 1], deliveries[n - 1], states[n]));
    }
}

/// A handler is given the dependencies that were passed to the dispatcher, with the
/// bot, what the messaging service knows about it, and the update.
pub proof fn law_handler_dependencies<H, D, E, Key, F>(
    dispatcher: DispatcherView<H, D, E, Key, F>,
    me: Me,
    key: Option<Key>,
    update: Update,
)
    ensures
        ({
            let passed = dispatcher.dependencies;
            let given = handler_dependencies(
                dispatcher.with_session(me).task_for(key).dependencies,
                update,
            );
            &&& given.contains_key(DependencyKind::Bot)
            &&& given[DependencyKind::Bot] == Dependency::Bot(dispatcher.bot)
            &&& given.contains_key(DependencyKind::Me)
            &&& given[DependencyKind::Me] == Dependency::Me(me)
            &&& given.contains_key(DependencyKind::Update)
            &&& given[DependencyKind::Update] == Dependency::Update(update)
            &&& forall|n: int|
                #![trigger given.contains_key(DependencyKind::Other(n))]
                #![trigger passed.contains_key(DependencyKind::Other(n))]
                given.contains_key(DependencyKind::Other(n)) == passed.contains_key(
                    DependencyKind::Other(n),
                )
            &&& forall|n: int|
                passed.contains_key(DependencyKind::Other(n)) ==> #[trigger] given[
                DependencyKind::Other(n)] == passed[DependencyKind::Other(n)]
        }),
{
}

/// If the handler passes on what it was given for an update, then it is that update
/// that goes to the default handler.
pub proof fn law_unhandled_update<D, E, Error>(
    session: Map<DependencyKind, Dependency>,
    update: Update,
    given: DependencyMap,
    default_handler: DefaultHandler<D>,
    error_handler: ErrorHandler<E>,
)
    requires
        dependency_contents(given) == handler_dependencies(session, update),
    ensures
        ({
            let flow = ControlFlow::<Result<(), Error>, DependencyMap>::Continue(given);
            &&& keeps_update(flow)
            &&& reaction(flow, default_handler, error_handler) == unhandled_reaction::<D, E, Error>(
                update,
                default_handler,
            )
        }),
{
}

/// `steps` are the answers of a round of dispatching to `events`, from the first of
/// `states` to the last.
pub open spec fn is_round<'a, T, H, D, E, Error>(
    states: Seq<ListeningView<T>>,
    events: Seq<Event<Error>>,
    steps: Seq<Step<'a, T, H, D, E, Error>>,
) -> bool {
    &&& states.len() == events.len() + 1
    &&& steps.len() == events.len()
    &&& states[0].phase is Polling
    &&& forall|i: int|
        0 <= i < events.len() ==> {
            &&& states[i].expects(#[trigger] events[i])
            &&& states[i].goes_on(events[i], steps[i], states[i + 1])
        }
}

/// A stop token stays what it is until it is taken, and is never replaced.
proof fn lemma_stop_token<'a, T, H, D, E, Error>(
    states: Seq<ListeningView<T>>,
    events: Seq<Event<Error>>,
    steps: Seq<Step<'a, T, H, D, E, Error>>,
    i: int,
    j: int,
)
    requires
        is_round(states, events, steps),
        0 <= i <= j < states.len(),
    ensures
        states[j].stop_token is None || states[j].stop_token == states[i].stop_token,
    decreases j - i,
{
    if i < j {
        let event = events[i];
        assert(states[i].goes_on(event, steps[i], states[i + 1]));
        lemma_stop_token(states, events, steps, i + 1, j);
    }
}

/// A listener is told to stop with the token that the round was started with.
pub proof fn law_stopped_with_own_token<'a, T, H, D, E, Error>(
    states: Seq<ListeningView<T>>,
    events: Seq<Event<Error>>,
    steps: Seq<Step<'a, T, H, D, E, Error>>,
    i: int,
)
    requires
        is_round(states, events, steps),
        0 <= i < steps.len(),
        steps[i] is StopAndPoll,
    ensures
        states[0].stop_token == Some(steps[i]->StopAndPoll_0),
{
    assert(states[i].goes_on(events[i], steps[i], states[i + 1]));
    lemma_stop_token(states, events, steps, 0, i);
}

/// A listener is told to stop at most once in a round.
pub proof fn law_stopped_at_most_once<'a, T, H, D, E, Error>(
    states: Seq<ListeningView<T>>,
    events: Seq<Event<Error>>,
    steps: Seq<Step<'a, T, H, D, E, Error>>,
    i: int,
    j: int,
)
    requires
        is_round(states, events, steps),
        0 <= i < j < steps.len(),
        steps[i] is StopAndPoll,
    ensures
        !(steps[j] is StopAndPoll),
{
    assert(states[i].goes_on(events[i], steps[i], states[i + 1]));
    assert(states[j].goes_on(events[j], steps[j], states[j + 1]));
    lemma_stop_token(states, events, steps, i + 1, j);
}

/// The phase that follows a step.
proof fn lemma_phases<'a, T, H, D, E, Error>(
    states: Seq<ListeningView<T>>,
    events: Seq<Event<Error>>,
    steps: Seq<Step<'a, T, H, D, E, Error>>,
    i: int,
)
    requires
        is_round(states, events, steps),
        0 <= i < steps.len(),
    ensures
        steps[i] is Join <==> states[i + 1].phase is Joining,
        steps[i] is Finish <==> states[i + 1].phase is Over,
        states[i].phase is Joining ==> steps[i] is Finish,
        !(states[i].phase is Over),
        steps[i] is Finish ==> states[i].phase is Joining,
        events[i] is Ended <==> steps[i] is Join,
{
    assert(states[i].expects(events[i]));
    assert(states[i].goes_on(events[i], steps[i], states[i + 1]));
}

/// The workers are waited for when the listener has ended, and only then; nothing
/// comes after that but the end of the round.
pub proof fn law_workers_awaited_last<'a, T, H, D, E, Error>(
    states: Seq<ListeningView<T>>,
    events: Seq<Event<Error>>,
    steps: Seq<Step<'a, T, H, D, E, Error>>,
    i: int,
    j: int,
)
    requires
        is_round(states, events, steps),
        0 <= i < steps.len(),
        i < j < steps.len(),
    ensures
        steps[i] is Join <==> events[i] is Ended,
        steps[i] is Join ==> j == i + 1 && steps[j] is Finish,
        !(steps[i] is Finish),
{
    lemma_phases(states, events, steps, i);
    lemma_phases(states, events, steps, i + 1);
    if j > i + 1 {
        lemma_phases(states, events, steps, i + 2);
    }
}

/// A round ends only after the workers have been waited for.
pub proof fn law_finish_after_join<'a, T, H, D, E, Error>(
    states: Seq<ListeningView<T>>,
    events: Seq<Event<Error>>,
    steps: Seq<Step<'a, T, H, D, E, Error>>,
    i: int,
)
    requires
        is_round(states, events, steps),
        0 <= i < steps.len(),
        steps[i] is Finish,
    ensures
        i > 0,
        steps[i - 1] is Join,
        events[i] is Joined,
{
    assert(states[i].expects(events[i]));
    lemma_phases(states, events, steps, i);
    if i > 0 {
        lemma_phases(states, events, steps, i - 1);
    }
}

/// Only a dispatcher that is running can be shut down; a second request changes
/// nothing; and while a dispatcher is running or shutting down an attempt to start it
/// changes nothing.
pub proof fn law_shutdown(state: ShutdownState)
    ensures
        state.shutdown_result() is Ok <==> state.after_shutdown() is ShuttingDown,
        state.shutdown_result() is Err ==> state.after_shutdown() == state,
        state.after_start().shutdown_result() is Ok,
        state.after_shutdown().after_shutdown() == state.after_shutdown(),
        state.after_shutdown().shutdown_result() == state.shutdown_result(),
        state.after_start().after_start() == state.after_start(),
        state.after_start().after_shutdown().after_start() is ShuttingDown,
{
}

/// Dispatching was started by the transition at `i`, and has not ended since.
pub open spec fn started_at(history: Seq<Transition>, i: int) -> bool {
    &&& 0 <= i < history.len()
    &&& history[i] is Start
    &&& forall|j: int| i < j < history.len() ==> !(#[trigger] history[j] is End)
}

/// Dispatching was started, and has not ended since.
pub open spec fn is_dispatching(history: Seq<Transition>) -> bool {
    exists|i: int| #[trigger] started_at(history, i)
}

/// Dispatching was started by the transition at `i`, was then requested to stop by the
/// one at `k`, and has not ended since.
pub open spec fn requested_at(history: Seq<Transition>, i: int, k: int) -> bool {
    &&& started_at(history, i)
    &&& i < k < history.len()
    &&& history[k] is Shutdown
}

/// Dispatching was started, was then requested to stop, and has not ended since.
pub open spec fn is_requested_to_stop(history: Seq<Transition>) -> bool {
    exists|i: int, k: int| #[trigger] requested_at(history, i, k)
}

/// How one more transition changes where dispatching was started.
proof fn lemma_started_at(history: Seq<Transition>, i: int)
    requires
        history.len() > 0,
    ensures
        started_at(history, i) <==> if i == history.len() - 1 {
            history.last() is Start
        } else {
            started_at(history.drop_last(), i) && !(history.last() is End)
        },
{
    let rest = history.drop_last();
    if i != history.len() - 1 && started_at(history, i) {
        assert forall|j: int| i < j < rest.len() implies !(#[trigger] rest[j] is End) by {
            assert(history[j] == rest[j]);
        }
        assert(!(history[history.len() - 1] is End));
    }
    if i != history.len() - 1 && started_at(rest, i) && !(history.last() is End) {
        assert forall|j: int| i < j < history.len() implies !(#[trigger] history[j] is End) by {
            if j < rest.len() {
                assert(history[j] == rest[j]);
            }
        }
    }
}

/// How one more transition changes whether dispatching is going on.
proof fn lemma_is_dispatching(history: Seq<Transition>)
    requires
        history.len() > 0,
    ensures
        is_dispatching(history) <==> match history.last() {
            Transition::Start => true,
            Transition::Shutdown => is_dispatching(history.drop_last()),
            Transition::End => false,
        },
{
    let rest = history.drop_last();
    lemma_started_at(history, history.len() - 1);
    if is_dispatching(history) {
        let i = choose|i: int| #[trigger] started_at(history, i);
        lemma_started_at(history, i);
    }
    if is_dispatching(rest) {
        let i = choose|i: int| #[trigger] started_at(rest, i);
        lemma_started_at(history, i);
    }
}

/// How one more transition changes whether dispatching is requested to stop.
proof fn lemma_is_requested_to_stop(history: Seq<Transition>)
    requires
        history.len() > 0,
    ensures
        is_requested_to_stop(history) <==> match history.last() {
            Transition::Start => is_requested_to_stop(history.drop_last()),
            Transition::Shutdown => is_dispatching(history.drop_last()),
            Transition::End => false,
        },
{
    let rest = history.drop_last();
    let last = history.len() - 1;
    if is_requested_to_stop(history) {
        let (i, k) = choose|i: int, k: int| #[trigger] requested_at(history, i, k);
        lemma_started_at(history, i);
        if k < last {
            assert(requested_at(rest, i, k));
        }
    }
    if is_requested_to_stop(rest) {
        let (i, k) = choose|i: int, k: int| #[trigger] requested_at(rest, i, k);
        lemma_started_at(history, i);
        if history.last() is Start {
            assert(requested_at(history, i, k));
        }
    }
    if is_dispatching(rest) && history.last() is Shutdown {
        let i = choose|i: int| #[trigger] started_at(rest, i);
        lemma_started_at(history, i);
        assert(requested_at(history, i, last));
    }
}

/// A dispatcher that was idle at first is idle unless dispatching was started and has
/// not ended since: only then a request to shut it down is granted. It is shutting down
/// if, and only if, that was requested since the start.
pub proof fn law_history(history: Seq<Transition>)
    ensures
        ({
            let state = ShutdownState::Idle.after_all(history);
            &&& state is Idle <==> !is_dispatching(history)
            &&& state.shutdown_result() is Ok <==> is_dispatching(history)
            &&& state is ShuttingDown <==> is_requested_to_stop(history)
        }),
    decreases history.len(),
{
    if history.len() > 0 {
        law_history(history.drop_last());
        lemma_is_dispatching(history);
        lemma_is_requested_to_stop(history);
    }
}

/// A listener is told to stop only while dispatching, and only if the transitions of the
/// dispatcher's own shared state were found to hold a request to stop since dispatching
/// was started.
pub proof fn law_stopped_only_on_request<H, D, E, Key, F: Fn(&Update) -> Option<Key>, T, Error>(
    round: ListeningView<T>,
    before: DispatcherView<H, D, E, Key, F>,
    event: Event<Error>,
    step: Step<T, H, D, E, Error>,
    after: DispatcherView<H, D, E, Key, F>,
)
    requires
        before.state.initial() is Idle,
        dispatcher_answers(round, before, event, step, after),
        step is StopAndPoll,
    ensures
        before.running,
        exists|history: Seq<Transition>| #[trigger]
            before.state.was_read(history) && is_requested_to_stop(history),
{
    let history = choose|history: Seq<Transition>| #[trigger]
        before.state.was_read(history) && step == round.checked_step::<H, D, E, Error>(
            before.is_told_to_stop(history),
        );
    law_history(history);
}

/// A request to shut down is noticed at the next look, which comes after each update
/// and each time that the listener did nothing for long enough: while dispatching, a
/// listener that can still be told to stop is left alone only if the transitions of the
/// dispatcher's own shared state were found to hold no request to stop since dispatching
/// was started.
pub proof fn law_request_is_noticed<H, D, E, Key, F: Fn(&Update) -> Option<Key>, T, Error>(
    round: ListeningView<T>,
    before: DispatcherView<H, D, E, Key, F>,
    event: Event<Error>,
    step: Step<T, H, D, E, Error>,
    after: DispatcherView<H, D, E, Key, F>,
)
    requires
        before.state.initial() is Idle,
        before.running,
        round.stop_token is Some,
        event is TimedOut || event is Acted,
        dispatcher_answers(round, before, event, step, after),
        !(step is StopAndPoll),
    ensures
        exists|history: Seq<Transition>| #[trigger]
            before.state.was_read(history) && !is_requested_to_stop(history),
{
    let history = choose|history: Seq<Transition>| #[trigger]
        before.state.was_read(history) && step == round.checked_step::<H, D, E, Error>(
            before.is_told_to_stop(history),
        );
    law_history(history);
}

/// `steps` are the answers of a round of dispatching, and of the dispatcher, to `events`:
/// the round goes from the first of `rounds` to the last, and the dispatcher from the
/// first of `states` to the last.
pub open spec fn is_dispatched<'a, H, D, E, Key, F: Fn(&Update) -> Option<Key>, T, Error>(
    rounds: Seq<ListeningView<T>>,
    states: Seq<DispatcherView<H, D, E, Key, F>>,
    events: Seq<Event<Error>>,
    steps: Seq<Step<'a, T, H, D, E, Error>>,
) -> bool {
    &&& is_round(rounds, events, steps)
    &&& states.len() == rounds.len()
    &&& forall|i: int|
        0 <= i < events.len() ==> dispatcher_answers(
            rounds[i],
            states[i],
            #[trigger] events[i],
            steps[i],
            states[i + 1],
        )
}

/// What is the same of a dispatcher in all states of a round: everything but the workers,
/// their handles, and whether dispatching goes on.
pub open spec fn same_settings<H, D, E, Key, F>(
    one: DispatcherView<H, D, E, Key, F>,
    other: DispatcherView<H, D, E, Key, F>,
) -> bool {
    one == DispatcherView {
        workers: one.workers,
        default_worker: one.default_worker,
        handles: one.handles,
        running: one.running,
        ..other
    }
}

/// A round changes no settings.
proof fn lemma_settings<'a, H, D, E, Key, F: Fn(&Update) -> Option<Key>, T, Error>(
    rounds: Seq<ListeningView<T>>,
    states: Seq<DispatcherView<H, D, E, Key, F>>,
    events: Seq<Event<Error>>,
    steps: Seq<Step<'a, T, H, D, E, Error>>,
    n: int,
)
    requires
        is_dispatched(rounds, states, events, steps),
        0 <= n < states.len(),
    ensures
        same_settings(states[n], states[0]),
    decreases n,
{
    if n > 0 {
        lemma_settings(rounds, states, events, steps, n - 1);
        let event = events[n - 1];
        assert(dispatcher_answers(rounds[n - 1], states[n - 1], event, steps[n - 1], states[n]));
        if event is Received {
            law_processing_delivers(
                states[n - 1],
                event->Received_0,
                steps[n - 1]->Act_0,
                states[n],
            );
        }
    }
}

/// A whole round, from its start to its end, leaves the dispatcher as it was before,
/// without workers, idle, and ready to be started again; it has only added the bot and
/// `me` to the dependencies.
pub proof fn law_whole_round<'a, H, D, E, Key, F: Fn(&Update) -> Option<Key>, T, Error>(
    before: DispatcherView<H, D, E, Key, F>,
    me: Me,
    rounds: Seq<ListeningView<T>>,
    states: Seq<DispatcherView<H, D, E, Key, F>>,
    events: Seq<Event<Error>>,
    steps: Seq<Step<'a, T, H, D, E, Error>>,
)
    requires
        is_dispatched(rounds, states, events, steps),
        states[0] == (DispatcherView { running: true, ..before.with_session(me) }),
        steps.len() > 0,
        steps.last() is Finish,
    ensures
        states.last() == (DispatcherView {
            running: false,
            ..before.with_session(me).without_workers()
        }),
        exists|history: Seq<Transition>| #[trigger]
            before.state.replaced(history, Transition::End) && before.state.state_after(
                history.push(Transition::End),
            ) is Idle,
{
    let last = steps.len() - 1;
    law_finish_after_join(rounds, events, steps, last);
    lemma_phases(rounds, events, steps, last - 1);
    lemma_settings(rounds, states, events, steps, last - 1);
    lemma_settings(rounds, states, events, steps, last);
    assert(dispatcher_answers(
        rounds[last - 1],
        states[last - 1],
        events[last - 1],
        steps[last - 1],
        states[last],
    ));
    assert(dispatcher_answers(
        rounds[last],
        states[last],
        events[last],
        steps[last],
        states[last + 1],
    ));
    let history = choose|history: Seq<Transition>| #[trigger]
        states[last].state.replaced(history, Transition::End) && steps[last]->requested
            == states[last].is_told_to_stop(history);
    assert(before.state.replaced(history, Transition::End));
    assert(history.push(Transition::End).drop_last() =~= history);
}

/// From its start until it is over, a round keeps dispatching going: nothing that happens
/// in it but its end makes the dispatcher take itself for not running.
pub proof fn law_running_until_over<'a, H, D, E, Key, F: Fn(&Update) -> Option<Key>, T, Error>(
    rounds: Seq<ListeningView<T>>,
    states: Seq<DispatcherView<H, D, E, Key, F>>,
    events: Seq<Event<Error>>,
    steps: Seq<Step<'a, T, H, D, E, Error>>,
    n: int,
)
    requires
        is_dispatched(rounds, states, events, steps),
        states[0].running,
        0 <= n < states.len(),
    ensures
        states[n].running <==> !(rounds[n].phase is Over),
        states[n].state == states[0].state,
    decreases n,
{
    if n > 0 {
        law_running_until_over(rounds, states, events, steps, n - 1);
        let event = events[n - 1];
        assert(rounds[n - 1].expects(event));
        assert(rounds[n - 1].goes_on(event, steps[n - 1], rounds[n]));
        assert(dispatcher_answers(rounds[n - 1], states[n - 1], event, steps[n - 1], states[n]));
    }
}

/// In a round that was started, a request to shut down is noticed at every look, which
/// comes after each update and each time that the listener did nothing for long enough:
/// if the transitions of the dispatcher's own shared state were found to hold a request
/// to stop since dispatching was started, then the listener has been told to stop before,
/// or is told to stop now, with the stop token that the round was started with; and it
/// is told to stop only then.
pub proof fn law_request_is_noticed_in_round<
    'a,
    H,
    D,
    E,
    Key,
    F: Fn(&Update) -> Option<Key>,
    T,
    Error,
>(
    rounds: Seq<ListeningView<T>>,
    states: Seq<DispatcherView<H, D, E, Key, F>>,
    events: Seq<Event<Error>>,
    steps: Seq<Step<'a, T, H, D, E, Error>>,
    n: int,
)
    requires
        is_dispatched(rounds, states, events, steps),
        states[0].running,
        states[0].state.initial() is Idle,
        rounds[0].stop_token is Some,
        0 <= n < events.len(),
        events[n] is TimedOut || events[n] is Acted,
    ensures
        exists|history: Seq<Transition>|
            {
                let requested = exists|i: int|
                    0 <= i < history.len() && history[i] is Start && !(#[trigger] history.skip(
                        i,
                    )).contains(Transition::End) && history.skip(i).contains(
                        Transition::Shutdown,
                    );
                &&& #[trigger] states[0].state.was_read(history)
                &&& requested ==> steps[n] == Step::<T, H, D, E, Error>::StopAndPoll(
                    rounds[0].stop_token->0,
                ) || exists|m: int| 0 <= m < n && (#[trigger] steps[m]) is StopAndPoll
                &&& !requested ==> steps[n] is Poll
            },
{
    law_running_until_over(rounds, states, events, steps, n);
    lemma_stop_token(rounds, events, steps, 0, n);
    assert(rounds[n].expects(events[n]));
    assert(dispatcher_answers(rounds[n], states[n], events[n], steps[n], states[n + 1]));
    let history = choose|history: Seq<Transition>| #[trigger]
        states[n].state.was_read(history) && steps[n] == rounds[n].checked_step::<H, D, E, Error>(
            states[n].is_told_to_stop(history),
        );
    law_transitions(history);
    if rounds[n].stop_token is None {
        lemma_stop_token_was_used(rounds, events, steps, n);
    }
    assert(states[0].state.was_read(history));
}

/// A stop token that is no longer there was used to tell the listener to stop.
proof fn lemma_stop_token_was_used<'a, T, H, D, E, Error>(
    states: Seq<ListeningView<T>>,
    events: Seq<Event<Error>>,
    steps: Seq<Step<'a, T, H, D, E, Error>>,
    n: int,
)
    requires
        is_round(states, events, steps),
        0 <= n < states.len(),
        states[0].stop_token is Some,
        states[n].stop_token is None,
    ensures
        exists|m: int| 0 <= m < n && (#[trigger] steps[m]) is StopAndPoll,
    decreases n,
{
    if n > 0 {
        assert(states[n - 1].goes_on(events[n - 1], steps[n - 1], states[n]));
        if states[n - 1].stop_token is None {
            lemma_stop_token_was_used(states, events, steps, n - 1);
        } else {
            assert(steps[n - 1] is StopAndPoll);
        }
    }
}

/// At the end of a round that was started, those who wait for the shutdown are told if,
/// and only if, the transitions of the dispatcher's own shared state were found to hold a
/// request to stop since dispatching was started.
pub proof fn law_waiting_are_told<'a, H, D, E, Key, F: Fn(&Update) -> Option<Key>, T, Error>(
    rounds: Seq<ListeningView<T>>,
    states: Seq<DispatcherView<H, D, E, Key, F>>,
    events: Seq<Event<Error>>,
    steps: Seq<Step<'a, T, H, D, E, Error>>,
    n: int,
)
    requires
        is_dispatched(rounds, states, events, steps),
        states[0].running,
        states[0].state.initial() is Idle,
        0 <= n < events.len(),
        events[n] is Joined,
    ensures
        steps[n] is Finish,
        exists|history: Seq<Transition>|
            {
                &&& #[trigger] states[0].state.replaced(history, Transition::End)
                &&& steps[n]->requested <==> exists|i: int|
                    0 <= i < history.len() && history[i] is Start && !(#[trigger] history.skip(
                        i,
                    )).contains(Transition::End) && history.skip(i).contains(
                        Transition::Shutdown,
                    )
            },
{
    law_running_until_over(rounds, states, events, steps, n);
    assert(rounds[n].expects(events[n]));
    assert(dispatcher_answers(rounds[n], states[n], events[n], steps[n], states[n + 1]));
    let history = choose|history: Seq<Transition>| #[trigger]
        states[n].state.replaced(history, Transition::End) && steps[n]->requested
            == states[n].is_told_to_stop(history);
    law_transitions(history);
    assert(states[0].state.replaced(history, Transition::End));
}

/// The updates that were sent by these steps, with the workers that they were sent to.
pub open spec fn sent<'a, T, H, D, E, Error>(steps: Seq<Step<'a, T, H, D, E, Error>>) -> Seq<
    (Update, Worker),
>
    decreases steps.len(),
{
    if steps.len() == 0 {
        Seq::empty()
    } else {
        let rest = sent(steps.drop_last());
        match steps.last() {
            Step::Act(Action::Send { worker, update, .. }) => rest.push((update, *worker)),
            _ => rest,
        }
    }
}

/// What was sent in a round of dispatching was sent by a run: what holds of all runs
/// holds of it.
pub proof fn law_round_is_run<'a, H, D, E, Key, F: Fn(&Update) -> Option<Key>, T, Error>(
    rounds: Seq<ListeningView<T>>,
    states: Seq<DispatcherView<H, D, E, Key, F>>,
    events: Seq<Event<Error>>,
    steps: Seq<Step<'a, T, H, D, E, Error>>,
)
    requires
        is_dispatched(rounds, states, events, steps),
        states[0].valid(),
    ensures
        exists|run: Seq<DispatcherView<H, D, E, Key, F>>, deliveries: Seq<Delivery<Key>>| #[trigger]
            is_run(run, deliveries) && run[0] == states[0] && are_sent(deliveries, sent(steps)),
{
    let n = steps.len() as int;
    let (run, deliveries) = lemma_round_is_run(rounds, states, events, steps, n);
    assert(steps.take(n) =~= steps);
    assert(is_run(run, deliveries));
}

/// These updates were sent to these workers, by these deliveries.
pub open spec fn are_sent<Key>(
    deliveries: Seq<Delivery<Key>>,
    sent: Seq<(Update, Worker)>,
) -> bool {
    &&& sent.len() == deliveries.len()
    &&& forall|i: int|
        #![trigger sent[i]]
        #![trigger deliveries[i]]
        0 <= i < sent.len() ==> sent[i] == (deliveries[i].update, deliveries[i].worker)
}

/// The same of the first `n` steps, and that the run leads to the dispatcher's state, but
/// for its handles, as long as the listener has not ended.
proof fn lemma_round_is_run<'a, H, D, E, Key, F: Fn(&Update) -> Option<Key>, T, Error>(
    rounds: Seq<ListeningView<T>>,
    states: Seq<DispatcherView<H, D, E, Key, F>>,
    events: Seq<Event<Error>>,
    steps: Seq<Step<'a, T, H, D, E, Error>>,
    n: int,
) -> (found: (Seq<DispatcherView<H, D, E, Key, F>>, Seq<Delivery<Key>>))
    requires
        is_dispatched(rounds, states, events, steps),
        states[0].valid(),
        0 <= n <= steps.len(),
    ensures
        is_run(found.0, found.1),
        found.0[0] == states[0],
        are_sent(found.1, sent(steps.take(n))),
        rounds[n].phase is Polling || rounds[n].phase is Acting ==> states[n] == (DispatcherView {
            handles: states[n].handles,
            ..found.0.last()
        }),
    decreases n,
{
    if n == 0 {
        (seq![states[0]], Seq::empty())
    } else {
        let (run, deliveries) = lemma_round_is_run(rounds, states, events, steps, n - 1);
        let event = events[n - 1];
        let step = steps[n - 1];
        assert(rounds[n - 1].expects(event));
        assert(rounds[n - 1].goes_on(event, step, rounds[n]));
        assert(dispatcher_answers(rounds[n - 1], states[n - 1], event, step, states[n]));
        assert(steps.take(n).drop_last() =~= steps.take(n - 1));
        assert(steps.take(n).last() == step);
        if event is Received && step->Act_0 is Send {
            let action = step->Act_0;
            law_processing_delivers(states[n - 1], event->Received_0, action, states[n]);
            let delivery = choose|delivery: Delivery<Key>| #[trigger]
                is_delivered(states[n - 1], delivery, states[n]) && delivery.update
                    == event->Received_0->Ok_0 && delivery.worker == *action->worker;
            assert(run.last().assigns(delivery.update, delivery.key));
            assert(run.last().worker_of(delivery.key) == states[n - 1].worker_of(delivery.key));
            assert(is_delivered(run.last(), delivery, states[n]));
            law_run_goes_on(run, deliveries, delivery, states[n]);
            assert(are_sent(deliveries.push(delivery), sent(steps.take(n))));
            (run.push(states[n]), deliveries.push(delivery))
        } else {
            (run, deliveries)
        }
    }
}

/// The worker whose task is being started.
pub open spec fn being_started<T>(round: ListeningView<T>) -> Option<WorkerId> {
    match round.phase {
        Phase::Acting { starting } => starting,
        _ => None,
    }
}

/// The dispatcher has this worker.
pub open spec fn has_worker<H, D, E, Key, F>(
    state: DispatcherView<H, D, E, Key, F>,
    id: WorkerId,
) -> bool {
    exists|key: Option<Key>|
        (#[trigger] state.worker_of(key)) is Some && state.worker_of(key)->0.id == id
}

/// The `n`th of the handles that the dispatcher keeps is that of the task of this worker.
pub open spec fn is_handle_of<H, D, E, Key, F>(
    state: DispatcherView<H, D, E, Key, F>,
    n: int,
    id: WorkerId,
) -> bool {
    0 <= n < state.handles.len() && state.handles[n].0 == id
}

/// The dispatcher keeps a handle of the task of this worker.
pub open spec fn has_handle<H, D, E, Key, F>(
    state: DispatcherView<H, D, E, Key, F>,
    id: WorkerId,
) -> bool {
    exists|n: int| #[trigger] is_handle_of(state, n, id)
}

/// Every worker has one handle, and there are no others; a worker whose task is being
/// started has none yet.
pub open spec fn handles_match<H, D, E, Key, F, T>(
    round: ListeningView<T>,
    state: DispatcherView<H, D, E, Key, F>,
) -> bool {
    &&& forall|id: WorkerId| #[trigger]
        has_worker(state, id) <==> has_handle(state, id) || being_started(round) == Some(id)
    &&& forall|id: WorkerId| #[trigger]
        has_handle(state, id) ==> being_started(round) != Some(id)
    &&& forall|m: int, n: int, id: WorkerId| #[trigger]
        is_handle_of(state, m, id) && #[trigger] is_handle_of(state, n, id) ==> m == n
}

/// Every worker keeps having one handle, and there are no others, at each answer to an
/// event.
proof fn lemma_handles_match<H, D, E, Key, F: Fn(&Update) -> Option<Key>, T, Error>(
    round: ListeningView<T>,
    before: DispatcherView<H, D, E, Key, F>,
    event: Event<Error>,
    step: Step<T, H, D, E, Error>,
    next: ListeningView<T>,
    after: DispatcherView<H, D, E, Key, F>,
)
    requires
        before.valid(),
        handles_match(round, before),
        round.expects(event),
        round.goes_on(event, step, next),
        dispatcher_answers(round, before, event, step, after),
    ensures
        after.valid(),
        handles_match(next, after),
{
    match event {
        Event::Received(update) => {
            let action = step->Act_0;
            law_processing_delivers(before, update, action, after);
            if action is Send {
                let worker = *action->worker;
                let key = choose|key: Option<Key>| #[trigger]
                    before.assigns(update->Ok_0, key) && before.routes(key, worker, after)
                        && before.spawns(key, worker, action->task);
                lemma_worker_added(before, key, worker, after);
                law_stays_valid(
                    before,
                    Delivery { update: update->Ok_0, key, worker },
                    after,
                );
                assert forall|id: WorkerId| #[trigger] has_worker(after, id) <==> has_handle(
                    after,
                    id,
                ) || being_started(next) == Some(id) by {
                    assert(has_worker(before, id) || !has_worker(before, id));
                    lemma_same_handles(before, after, id);
                }
                assert forall|id: WorkerId| #[trigger] has_handle(after, id) implies being_started(
                    next,
                ) != Some(id) by {
                    lemma_same_handles(before, after, id);
                    assert(has_worker(before, id));
                }
                assert forall|m: int, n: int, id: WorkerId| #[trigger]
                    is_handle_of(after, m, id) && #[trigger] is_handle_of(
                    after,
                    n,
                    id,
                ) implies m == n by {
                    assert(is_handle_of(before, m, id) && is_handle_of(before, n, id));
                }
            }
        },
        Event::Acted { started } => {
            if started is Some {
                let id = round.phase->starting->0;
                assert(after.handles.drop_last() =~= before.handles);
                lemma_handle_added(before, id, after);
                assert forall|other: WorkerId| #[trigger] has_worker(
                    after,
                    other,
                ) <==> has_handle(after, other) || being_started(next) == Some(other) by {
                    lemma_same_workers(before, after, other);
                    assert(has_handle(after, other) <==> has_handle(before, other) || other == id);
                }
                assert forall|m: int, n: int, other: WorkerId| #[trigger]
                    is_handle_of(after, m, other) && #[trigger] is_handle_of(
                    after,
                    n,
                    other,
                ) implies m == n by {
                    let last = before.handles.len() as int;
                    if m < last {
                        assert(is_handle_of(before, m, other));
                    }
                    if n < last {
                        assert(is_handle_of(before, n, other));
                    }
                    assert(!has_handle(before, id));
                }
            }
        },
        Event::Ended => {
            assert forall|id: WorkerId| #[trigger] has_worker(after, id) <==> has_handle(after, id)
                || being_started(next) == Some(id) by {
                assert(!has_worker(after, id));
            }
        },
        _ => {
            assert forall|id: WorkerId| #[trigger] has_worker(after, id) <==> has_worker(
                before,
                id,
            ) by {
                lemma_same_workers(before, after, id);
            }
            assert forall|id: WorkerId| #[trigger] has_handle(after, id) <==> has_handle(
                before,
                id,
            ) by {
                lemma_same_handles(before, after, id);
            }
            assert forall|m: int, n: int, id: WorkerId| #[trigger]
                is_handle_of(after, m, id) && #[trigger] is_handle_of(after, n, id) implies m
                == n by {
                assert(is_handle_of(before, m, id) && is_handle_of(before, n, id));
            }
        },
    }
}

/// Two states with the same workers have the same workers by their names too.
proof fn lemma_same_workers<H, D, E, Key, F>(
    one: DispatcherView<H, D, E, Key, F>,
    other: DispatcherView<H, D, E, Key, F>,
    id: WorkerId,
)
    requires
        one.workers == other.workers,
        one.default_worker == other.default_worker,
    ensures
        has_worker(one, id) == has_worker(other, id),
{
    if has_worker(one, id) {
        let key = choose|key: Option<Key>|
            (#[trigger] one.worker_of(key)) is Some && one.worker_of(key)->0.id == id;
        assert(other.worker_of(key) == one.worker_of(key));
    }
    if has_worker(other, id) {
        let key = choose|key: Option<Key>|
            (#[trigger] other.worker_of(key)) is Some && other.worker_of(key)->0.id == id;
        assert(one.worker_of(key) == other.worker_of(key));
    }
}

/// Two states with the same handles have handles of the same workers.
proof fn lemma_same_handles<H, D, E, Key, F>(
    one: DispatcherView<H, D, E, Key, F>,
    other: DispatcherView<H, D, E, Key, F>,
    id: WorkerId,
)
    requires
        one.handles == other.handles,
    ensures
        has_handle(one, id) == has_handle(other, id),
{
    if has_handle(one, id) {
        let n = choose|n: int| #[trigger] is_handle_of(one, n, id);
        assert(is_handle_of(other, n, id));
    }
    if has_handle(other, id) {
        let n = choose|n: int| #[trigger] is_handle_of(other, n, id);
        assert(is_handle_of(one, n, id));
    }
}

/// A new handle is that of its worker, and changes nothing for the others.
proof fn lemma_handle_added<H, D, E, Key, F>(
    before: DispatcherView<H, D, E, Key, F>,
    id: WorkerId,
    after: DispatcherView<H, D, E, Key, F>,
)
    requires
        after.handles.len() == before.handles.len() + 1,
        after.handles.drop_last() == before.handles,
        after.handles.last().0 == id,
    ensures
        forall|other: WorkerId| #[trigger]
            has_handle(after, other) <==> has_handle(before, other) || other == id,
{
    let last = before.handles.len() as int;
    assert(is_handle_of(after, last, id));
    assert forall|other: WorkerId| #[trigger] has_handle(after, other) <==> has_handle(
        before,
        other,
    ) || other == id by {
        if has_handle(after, other) {
            let n = choose|n: int| #[trigger] is_handle_of(after, n, other);
            if n < last {
                assert(after.handles.drop_last()[n] == after.handles[n]);
                assert(is_handle_of(before, n, other));
            }
        }
        if has_handle(before, other) {
            let n = choose|n: int| #[trigger] is_handle_of(before, n, other);
            assert(after.handles.drop_last()[n] == after.handles[n]);
            assert(is_handle_of(after, n, other));
        }
    }
}

/// A new worker is one that was not there; the others stay.
proof fn lemma_worker_added<H, D, E, Key, F>(
    before: DispatcherView<H, D, E, Key, F>,
    key: Option<Key>,
    worker: Worker,
    after: DispatcherView<H, D, E, Key, F>,
)
    requires
        before.valid(),
        before.routes(key, worker, after),
        before.worker_of(key) is None ==> before.is_new(key, worker),
    ensures
        before.worker_of(key) is None ==> !has_worker(before, worker.id),
        before.worker_of(key) is Some ==> has_worker(before, worker.id),
        forall|id: WorkerId| #[trigger]
            has_worker(after, id) <==> has_worker(before, id) || id == worker.id,
{
    assert(after.worker_of(key) == Some(worker));
    if before.worker_of(key) is None && has_worker(before, worker.id) {
        let other = choose|other: Option<Key>|
            (#[trigger] before.worker_of(other)) is Some && before.worker_of(other)->0.id
                == worker.id;
        assert(other != key);
        assert(false);
    }
    assert forall|id: WorkerId| #[trigger] has_worker(after, id) <==> has_worker(before, id) || id
        == worker.id by {
        if has_worker(after, id) {
            let other = choose|other: Option<Key>|
                (#[trigger] after.worker_of(other)) is Some && after.worker_of(other)->0.id == id;
            if other != key {
                assert(before.worker_of(other) == after.worker_of(other));
            }
        }
        if has_worker(before, id) {
            let other = choose|other: Option<Key>|
                (#[trigger] before.worker_of(other)) is Some && before.worker_of(other)->0.id
                    == id;
            assert(after.worker_of(other) == before.worker_of(other));
        }
    }
}

/// In a round that began without workers, every worker has one handle, and there are no
/// others; a worker whose task is being started has none yet. So when the listener has
/// ended, what is waited for is the task of every worker, once, and nothing else.
pub proof fn law_all_workers_awaited<
    'a,
    H,
    D,
    E,
    Key,
    F: Fn(&Update) -> Option<Key>,
    T,
    Error,
>(
    rounds: Seq<ListeningView<T>>,
    states: Seq<DispatcherView<H, D, E, Key, F>>,
    events: Seq<Event<Error>>,
    steps: Seq<Step<'a, T, H, D, E, Error>>,
    n: int,
)
    requires
        is_dispatched(rounds, states, events, steps),
        states[0].valid(),
        states[0] == states[0].without_workers(),
        0 <= n < states.len(),
    ensures
        states[n].valid(),
        handles_match(rounds[n], states[n]),
        n < steps.len() && events[n] is Ended ==> {
            &&& steps[n] is Join
            &&& steps[n]->Join_0@ == states[n].handles.map_values(
                |started: (WorkerId, JoinHandle<()>)| started.1,
            )
            &&& being_started(rounds[n]) is None
        },
    decreases n,
{
    if n > 0 {
        law_all_workers_awaited(rounds, states, events, steps, n - 1);
        let event = events[n - 1];
        assert(rounds[n - 1].expects(event));
        assert(rounds[n - 1].goes_on(event, steps[n - 1], rounds[n]));
        assert(dispatcher_answers(rounds[n - 1], states[n - 1], event, steps[n - 1], states[n]));
        lemma_handles_match(
            rounds[n - 1],
            states[n - 1],
            event,
            steps[n - 1],
            rounds[n],
            states[n],
        );
    } else {
        assert forall|id: WorkerId| !(#[trigger] has_worker(states[0], id)) by {}
        assert forall|id: WorkerId| !(#[trigger] has_handle(states[0], id)) by {}
    }
    if n < steps.len() {
        assert(rounds[n].expects(events[n]));
        assert(dispatcher_answers(rounds[n], states[n], events[n], steps[n], states[n + 1]));
    }
}

/// The handles of the tasks that were started, as these events report them.
pub open spec fn reported<Error>(events: Seq<Event<Error>>) -> Seq<JoinHandle<()>>
    decreases events.len(),
{
    if events.len() == 0 {
        Seq::empty()
    } else {
        let rest = reported(events.drop_last());
        match events.last() {
            Event::Acted { started: Some(handle) } => rest.push(handle),
            _ => rest,
        }
    }
}

/// In a round that began without workers, what is waited for when the listener has ended
/// is every task that was reported to have been started, in that order, and nothing
/// else.
pub proof fn law_started_tasks_awaited<
    'a,
    H,
    D,
    E,
    Key,
    F: Fn(&Update) -> Option<Key>,
    T,
    Error,
>(
    rounds: Seq<ListeningView<T>>,
    states: Seq<DispatcherView<H, D, E, Key, F>>,
    events: Seq<Event<Error>>,
    steps: Seq<Step<'a, T, H, D, E, Error>>,
    n: int,
)
    requires
        is_dispatched(rounds, states, events, steps),
        states[0] == states[0].without_workers(),
        0 <= n < steps.len(),
        events[n] is Ended,
    ensures
        steps[n] is Join,
        steps[n]->Join_0@ == reported(events.take(n)),
{
    assert(rounds[n].expects(events[n]));
    assert(dispatcher_answers(rounds[n], states[n], events[n], steps[n], states[n + 1]));
    lemma_reported(rounds, states, events, steps, n);
}

/// The handles that are kept, as long as the listener has not ended.
proof fn lemma_reported<'a, H, D, E, Key, F: Fn(&Update) -> Option<Key>, T, Error>(
    rounds: Seq<ListeningView<T>>,
    states: Seq<DispatcherView<H, D, E, Key, F>>,
    events: Seq<Event<Error>>,
    steps: Seq<Step<'a, T, H, D, E, Error>>,
    n: int,
)
    requires
        is_dispatched(rounds, states, events, steps),
        states[0] == states[0].without_workers(),
        0 <= n < states.len(),
        rounds[n].phase is Polling || rounds[n].phase is Acting,
    ensures
        states[n].handles.map_values(|started: (WorkerId, JoinHandle<()>)| started.1) == reported(
            events.take(n),
        ),
    decreases n,
{
    let handle_of = |started: (WorkerId, JoinHandle<()>)| started.1;
    if n == 0 {
        assert(states[0].handles.map_values(handle_of) =~= reported(events.take(0)));
    } else {
        let event = events[n - 1];
        assert(rounds[n - 1].expects(event));
        assert(rounds[n - 1].goes_on(event, steps[n - 1], rounds[n]));
        assert(dispatcher_answers(rounds[n - 1], states[n - 1], event, steps[n - 1], states[n]));
        lemma_reported(rounds, states, events, steps, n - 1);
        assert(events.take(n).drop_last() =~= events.take(n - 1));
        assert(events.take(n).last() == event);
        if event is Received {
            law_processing_delivers(
                states[n - 1],
                event->Received_0,
                steps[n - 1]->Act_0,
                states[n],
            );
        }
        assert(states[n].handles.map_values(handle_of) =~= reported(events.take(n)));
    }
}

/// A worker that is there stays as long as the listener has not ended.
proof fn lemma_worker_kept<'a, H, D, E, Key, F: Fn(&Update) -> Option<Key>, T, Error>(
    rounds: Seq<ListeningView<T>>,
    states: Seq<DispatcherView<H, D, E, Key, F>>,
    events: Seq<Event<Error>>,
    steps: Seq<Step<'a, T, H, D, E, Error>>,
    id: WorkerId,
    m: int,
    n: int,
)
    requires
        is_dispatched(rounds, states, events, steps),
        states[0].valid(),
        states[0] == states[0].without_workers(),
        0 <= m <= n < states.len(),
        rounds[n].phase is Polling || rounds[n].phase is Acting,
        has_worker(states[m], id),
    ensures
        has_worker(states[n], id),
    decreases n,
{
    if m < n {
        let event = events[n - 1];
        let step = steps[n - 1];
        let before = states[n - 1];
        assert(rounds[n - 1].expects(event));
        assert(rounds[n - 1].goes_on(event, step, rounds[n]));
        assert(dispatcher_answers(rounds[n - 1], before, event, step, states[n]));
        lemma_worker_kept(rounds, states, events, steps, id, m, n - 1);
        if event is Received && step->Act_0 is Send {
            let worker = *step->Act_0->worker;
            let key = choose|key: Option<Key>| #[trigger]
                before.assigns(event->Received_0->Ok_0, key) && before.routes(
                    key,
                    worker,
                    states[n],
                ) && before.spawns(key, worker, step->Act_0->task);
            law_all_workers_awaited(rounds, states, events, steps, n - 1);
            lemma_worker_added(before, key, worker, states[n]);
        } else {
            lemma_same_workers(before, states[n], id);
        }
    }
}

/// In a round that began without workers, no worker's task is to be started twice.
pub proof fn law_started_once<'a, H, D, E, Key, F: Fn(&Update) -> Option<Key>, T, Error>(
    rounds: Seq<ListeningView<T>>,
    states: Seq<DispatcherView<H, D, E, Key, F>>,
    events: Seq<Event<Error>>,
    steps: Seq<Step<'a, T, H, D, E, Error>>,
    i: int,
    j: int,
)
    requires
        is_dispatched(rounds, states, events, steps),
        states[0].valid(),
        states[0] == states[0].without_workers(),
        0 <= i < j < steps.len(),
        steps[i] is Act && steps[i]->Act_0.starts() is Some,
        steps[j] is Act && steps[j]->Act_0.starts() is Some,
    ensures
        steps[i]->Act_0.starts() != steps[j]->Act_0.starts(),
{
    let id = steps[i]->Act_0.starts()->0;
    assert(rounds[i].goes_on(events[i], steps[i], rounds[i + 1]));
    assert(being_started(rounds[i + 1]) == Some(id));
    law_all_workers_awaited(rounds, states, events, steps, i + 1);
    assert(has_worker(states[i + 1], id));

    let before = states[j];
    assert(rounds[j].expects(events[j]));
    assert(rounds[j].goes_on(events[j], steps[j], rounds[j + 1]));
    assert(dispatcher_answers(rounds[j], before, events[j], steps[j], states[j + 1]));
    lemma_worker_kept(rounds, states, events, steps, id, i + 1, j);
    law_all_workers_awaited(rounds, states, events, steps, j);
    let action = steps[j]->Act_0;
    let worker = *action->worker;
    let key = choose|key: Option<Key>| #[trigger]
        before.assigns(events[j]->Received_0->Ok_0, key) && before.routes(
            key,
            worker,
            states[j + 1],
        ) && before.spawns(key, worker, action->task);
    lemma_worker_added(before, key, worker, states[j + 1]);
}

/// Every task that is to be started in a round is that of the worker that the update is
/// sent to, and is started with the handlers and the dependencies that the dispatcher
/// had at the beginning of the round.
pub proof fn law_tasks_of_round<'a, H, D, E, Key, F: Fn(&Update) -> Option<Key>, T, Error>(
    rounds: Seq<ListeningView<T>>,
    states: Seq<DispatcherView<H, D, E, Key, F>>,
    events: Seq<Event<Error>>,
    steps: Seq<Step<'a, T, H, D, E, Error>>,
    i: int,
)
    requires
        is_dispatched(rounds, states, events, steps),
        0 <= i < steps.len(),
        steps[i] is Act && steps[i]->Act_0.starts() is Some,
    ensures
        ({
            let action = steps[i]->Act_0;
            let task = action->task->0;
            &&& action->worker.runs(task)
            &&& task@ == (WorkerTaskView {
                kind: action->worker.id.kind,
                dependencies: states[0].dependencies,
                handler: states[0].handler,
                default_handler: states[0].default_handler,
                error_handler: states[0].error_handler,
            })
        }),
{
    assert(rounds[i].goes_on(events[i], steps[i], rounds[i + 1]));
    assert(dispatcher_answers(rounds[i], states[i], events[i], steps[i], states[i + 1]));
    lemma_settings(rounds, states, events, steps, i);
}

} // verus!
