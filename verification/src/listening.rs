//! A round of dispatching, from the first update to the last worker: what is done
//! next, after what has happened.

use std::hash::Hash;

use tokio::task::JoinHandle;
use vstd::prelude::*;
use vstd::std_specs::hash::obeys_key_model;

use crate::dispatcher::{Action, Dispatcher, DispatcherView};
use crate::shutdown::Transition;
use crate::types::Update;
use crate::worker::WorkerId;

verus! {

/// Where a round of dispatching stands: what it is waiting for.
#[derive(Clone, Copy, Debug, PartialEq, Eq)]
pub enum Phase {
    /// The listener's next update.
    Polling,
    /// That what an update asks for has been done. The task of the worker `starting`,
    /// if there is one, is started thereby.
    Acting { starting: Option<WorkerId> },
    /// The end of the workers.
    Joining,
    /// Nothing: the round is over.
    Over,
}

/// What has happened.
pub enum Event<Error> {
    /// The listener did nothing, for as long as is waited before the next look
    /// whether the dispatcher is to shut down.
    TimedOut,
    /// The listener produced an update, or failed to.
    Received(Result<Update, Error>),
    /// The listener has ended: there will be no more updates.
    Ended,
    /// What the last update asked for has been done. Where a task was to be started,
    /// `started` is its handle.
    Acted { started: Option<JoinHandle<()>> },
    /// All workers have ended.
    Joined,
}

/// What is to be done next.
pub enum Step<'a, T, H, D, E, Error> {
    /// Wait for the listener.
    Poll,
    /// Tell the listener to stop, with its stop token; then wait for it.
    StopAndPoll(T),
    /// Do what an update asks for.
    Act(Action<'a, H, D, E, Error>),
    /// Wait for all these tasks.
    Join(Vec<JoinHandle<()>>),
    /// Nothing more. Tell those who wait for the shutdown, if it was requested.
    Finish { requested: bool },
}

/// A round of dispatching.
pub struct Listening<T> {
    phase: Phase,
    // Taken when the listener is told to stop.
    stop_token: Option<T>,
}

/// The state of a round of dispatching: where it stands, and the listener's stop
/// token, until the listener is told to stop.
pub struct ListeningView<T> {
    pub phase: Phase,
    pub stop_token: Option<T>,
}

impl<T> View for Listening<T> {
    type V = ListeningView<T>;

    closed spec fn view(&self) -> ListeningView<T> {
        ListeningView { phase: self.phase, stop_token: self.stop_token }
    }
}

impl<T> ListeningView<T> {
    /// `event` is what is waited for.
    pub open spec fn expects<Error>(self, event: Event<Error>) -> bool {
        match event {
            Event::TimedOut => self.phase is Polling,
            Event::Received(_) => self.phase is Polling,
            Event::Ended => self.phase is Polling,
            Event::Acted { started } => self.phase is Acting && (started is Some
                <==> self.phase->starting is Some),
            Event::Joined => self.phase is Joining,
        }
    }

    /// What is done next after a look whether the dispatcher is to shut down.
    pub open spec fn checked_step<'a, H, D, E, Error>(self, shutting_down: bool) -> Step<
        'a,
        T,
        H,
        D,
        E,
        Error,
    > {
        if shutting_down && self.stop_token is Some {
            Step::StopAndPoll(self.stop_token->0)
        } else {
            Step::Poll
        }
    }

    /// The state after a look whether the dispatcher is to shut down.
    pub open spec fn after_check(self, shutting_down: bool) -> Self {
        ListeningView {
            phase: Phase::Polling,
            stop_token: if shutting_down {
                None
            } else {
                self.stop_token
            },
        }
    }

    /// The round goes on from here, after `event`, with `step`, and is then in the
    /// state `after`.
    pub open spec fn goes_on<H, D, E, Error>(
        self,
        event: Event<Error>,
        step: Step<T, H, D, E, Error>,
        after: Self,
    ) -> bool {
        match event {
            Event::TimedOut | Event::Acted { .. } => exists|shutting_down: bool|
                after == #[trigger] self.after_check(shutting_down) && step
                    == self.checked_step::<H, D, E, Error>(shutting_down),
            Event::Received(_) => step is Act && after == (ListeningView {
                phase: Phase::Acting { starting: step->Act_0.starts() },
                ..self
            }),
            Event::Ended => step is Join && after == (ListeningView {
                phase: Phase::Joining,
                ..self
            }),
            Event::Joined => step is Finish && after == (ListeningView {
                phase: Phase::Over,
                ..self
            }),
        }
    }
}

/// A dispatcher in the state `before`, in a round of dispatching in the state `round`,
/// answers `event` with `step`, and is then in the state `after`. It looks at the state
/// that it shares with its own tokens, and it is that state which it makes idle at the
/// end.
pub open spec fn dispatcher_answers<H, D, E, Key, F, T, Error>(
    round: ListeningView<T>,
    before: DispatcherView<H, D, E, Key, F>,
    event: Event<Error>,
    step: Step<T, H, D, E, Error>,
    after: DispatcherView<H, D, E, Key, F>,
) -> bool where F: Fn(&Update) -> Option<Key> {
    match event {
        Event::Received(update) => step is Act && before.processes(update, step->Act_0, after),
        Event::Ended => {
            &&& step is Join
            &&& step->Join_0@ == before.handles.map_values(
                |started: (WorkerId, JoinHandle<()>)| started.1,
            )
            &&& after == before.without_workers()
        },
        Event::TimedOut => {
            &&& looks(round, before, step)
            &&& after == before
        },
        Event::Acted { started } => {
            &&& looks(round, before, step)
            &&& after == if started is Some {
                before.with_handle(round.phase->starting->0, started->0)
            } else {
                before
            }
        },
        Event::Joined => {
            &&& step is Finish
            &&& exists|history: Seq<Transition>| #[trigger]
                before.state.replaced(history, Transition::End) && step->requested
                    == before.is_told_to_stop(history)
            &&& after == (DispatcherView { running: false, ..before })
        },
    }
}

/// A dispatcher looked whether it is to shut down, and `step` is what follows from
/// what it found in the state that it shares with its own tokens.
pub open spec fn looks<H, D, E, Key, F, T, Error>(
    round: ListeningView<T>,
    dispatcher: DispatcherView<H, D, E, Key, F>,
    step: Step<T, H, D, E, Error>,
) -> bool {
    exists|history: Seq<Transition>| #[trigger]
        dispatcher.state.was_read(history) && step == round.checked_step::<H, D, E, Error>(
            dispatcher.is_told_to_stop(history),
        )
}

impl<T> Listening<T> {
    /// Starts a round of dispatching, with the listener's stop token.
    pub(crate) fn new(stop_token: T) -> (listening: Self)
        ensures
            listening@ == (ListeningView {
                phase: Phase::Polling,
                stop_token: Some(stop_token),
            }),
    {
        Listening { phase: Phase::Polling, stop_token: Some(stop_token) }
    }

    /// Tells what is done next after a look whether the dispatcher is to shut down:
    /// the first time that it is, the listener is told to stop.
    pub fn check<'a, H, D, E, Error>(&mut self, shutting_down: bool) -> (step: Step<
        'a,
        T,
        H,
        D,
        E,
        Error,
    >)
        ensures
            step == old(self)@.checked_step::<H, D, E, Error>(shutting_down),
            final(self)@ == old(self)@.after_check(shutting_down),
    {
        self.phase = Phase::Polling;
        if shutting_down {
            match self.stop_token.take() {
                Some(stop_token) => Step::StopAndPoll(stop_token),
                None => Step::Poll,
            }
        } else {
            Step::Poll
        }
    }

    /// Tells what is done next after `event`.
    pub fn advance<'a, H, D, E, Key, F, Error>(
        &mut self,
        dispatcher: &'a mut Dispatcher<H, D, E, Key, F>,
        event: Event<Error>,
    ) -> (step: Step<'a, T, H, D, E, Error>) where
        F: Fn(&Update) -> Option<Key>,
        Key: Hash + Eq,

        requires
            old(self)@.expects(event),
            old(dispatcher).wf(),
            obeys_key_model::<Key>(),
            event matches Event::Received(Ok(update)) ==> old(dispatcher)@.accepts(update),
        ensures
            final(dispatcher).wf(),
            old(self)@.goes_on(event, step, final(self)@),
            dispatcher_answers(old(self)@, old(dispatcher)@, event, step, final(dispatcher)@),
    {
        match event {
            Event::TimedOut => self.check(dispatcher.is_shutting_down()),
            Event::Acted { started } => {
                match (self.phase, started) {
                    (Phase::Acting { starting: Some(worker) }, Some(handle)) => {
                        dispatcher.add_handle(worker, handle);
                    },
                    _ => {},
                }
                self.check(dispatcher.is_shutting_down())
            },
            Event::Received(update) => {
                let action = dispatcher.process_update(update);
                self.phase = Phase::Acting { starting: action.starting() };
                Step::Act(action)
            },
            Event::Ended => {
                self.phase = Phase::Joining;
                Step::Join(dispatcher.take_workers())
            },
            Event::Joined => {
                self.phase = Phase::Over;
                Step::Finish { requested: dispatcher.done() }
            },
        }
    }
}

} // verus!
