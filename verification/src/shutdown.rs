//! Starting and shutting down: the state of a dispatcher and the token that
//! shares it.

use std::sync::Arc;

use vstd::prelude::*;
use vstd::rwlock::{ReadHandle, RwLock, RwLockPredicate, WriteHandle};

verus! {

/// What a dispatcher is doing.
#[derive(Clone, Copy, Debug, PartialEq, Eq, Structural)]
pub enum ShutdownState {
    /// It is not dispatching.
    Idle,
    /// It is dispatching.
    Running,
    /// It is dispatching and has been told to stop.
    ShuttingDown,
}

/// What can be done to the state of a dispatcher.
pub enum Transition {
    /// An attempt to start dispatching.
    Start,
    /// A request to shut down.
    Shutdown,
    /// The end of dispatching.
    End,
}

/// Dispatching was started while it was already running.
#[derive(Clone, Copy, Debug, PartialEq, Eq, Structural)]
pub struct AlreadyRunning {
    /// The state that was found.
    pub found: ShutdownState,
}

/// A dispatcher that is not running was told to shut down.
#[derive(Clone, Copy, Debug, PartialEq, Eq, Structural)]
pub struct IdleShutdownError;

impl ShutdownState {
    /// The state after an attempt to start dispatching.
    pub open spec fn after_start(self) -> ShutdownState {
        if self is Idle {
            ShutdownState::Running
        } else {
            self
        }
    }

    /// The state after a request to shut down.
    pub open spec fn after_shutdown(self) -> ShutdownState {
        if self is Idle {
            ShutdownState::Idle
        } else {
            ShutdownState::ShuttingDown
        }
    }

    /// The answer to a request to shut down.
    pub open spec fn shutdown_result(self) -> Result<(), IdleShutdownError> {
        if self is Idle {
            Err(IdleShutdownError)
        } else {
            Ok(())
        }
    }

    /// The state after a transition.
    pub open spec fn after(self, transition: Transition) -> ShutdownState {
        match transition {
            Transition::Start => self.after_start(),
            Transition::Shutdown => self.after_shutdown(),
            Transition::End => ShutdownState::Idle,
        }
    }

    /// The state after some transitions, one after another.
    pub open spec fn after_all(self, transitions: Seq<Transition>) -> ShutdownState
        decreases transitions.len(),
    {
        if transitions.len() == 0 {
            self
        } else {
            self.after_all(transitions.drop_last()).after(transitions.last())
        }
    }

    /// Starts dispatching, unless it is running already.
    pub fn start_dispatching(&mut self)
        ensures
            *final(self) == old(self).after_start(),
    {
        match *self {
            ShutdownState::Idle => {
                *self = ShutdownState::Running;
            },
            _ => {},
        }
    }

    /// Requests that dispatching stops, if it is running.
    pub fn shutdown(&mut self) -> (result: Result<(), IdleShutdownError>)
        ensures
            *final(self) == old(self).after_shutdown(),
            result == old(self).shutdown_result(),
    {
        match *self {
            ShutdownState::Idle => Err(IdleShutdownError),
            _ => {
                *self = ShutdownState::ShuttingDown;
                Ok(())
            },
        }
    }

    /// Dispatching has been told to stop.
    pub fn is_shutting_down(&self) -> (result: bool)
        ensures
            result == (*self is ShuttingDown),
    {
        match self {
            ShutdownState::ShuttingDown => true,
            _ => false,
        }
    }

    /// Dispatching has ended. Tells whether that was because of a request to shut
    /// down, so that somebody waits for it.
    pub fn done(&mut self) -> (requested: bool)
        ensures
            *final(self) is Idle,
            requested == (*old(self) is ShuttingDown),
    {
        let requested = self.is_shutting_down();
        *self = ShutdownState::Idle;
        requested
    }
}

/// Calls `f`. The contract keeps that it was called, and with what.
fn call<A, R, F: FnOnce(A) -> R>(f: F, argument: A) -> (result: R)
    requires
        call_requires(f, (argument,)),
    ensures
        call_ensures(f, (argument,), result),
{
    f(argument)
}

/// Calls `f`, with two arguments. The contract keeps that it was called, and with
/// what.
fn call_with<A, B, R, F: FnOnce(A, B) -> R>(f: F, first: A, second: B) -> (result: R)
    requires
        call_requires(f, (first, second)),
    ensures
        call_ensures(f, (first, second), result),
{
    f(first, second)
}

/// A state that is shared, with all transitions that led to it.
pub struct SharedState {
    pub state: ShutdownState,
    pub history: Ghost<Seq<Transition>>,
}

/// What holds of a shared state at any time: its transitions led to it, from
/// `initial`.
pub struct ReachedFrom {
    initial: ShutdownState,
}

impl RwLockPredicate<SharedState> for ReachedFrom {
    closed spec fn inv(self, shared: SharedState) -> bool {
        shared.state == self.initial.after_all(shared.history@)
    }
}

/// A token with which a dispatcher can be shut down. The dispatcher and all copies
/// of its token share one [`ShutdownState`], which any of them may change at any
/// time; two tokens are equal in a contract if they share the same one. What a
/// method finds is therefore up to all holders; what it does with what it found
/// is what the method of the same name of [`ShutdownState`] does.
pub struct ShutdownToken {
    shared: Arc<RwLock<SharedState, ReachedFrom>>,
}

impl Clone for ShutdownToken {
    fn clone(&self) -> (token: ShutdownToken)
        ensures
            token == *self,
    {
        ShutdownToken { shared: Arc::clone(&self.shared) }
    }
}

impl ShutdownToken {
    /// What the token shares with its copies.
    pub closed spec fn lock(self) -> RwLock<SharedState, ReachedFrom> {
        *self.shared
    }

    /// The state that is shared was this one at first.
    pub closed spec fn initial(self) -> ShutdownState {
        self.shared.pred().initial
    }

    /// The token was made with this state, for it to share, before any transition.
    pub closed spec fn made_with(self, state: ShutdownState) -> bool {
        exists|shared: SharedState, reached: Ghost<ReachedFrom>| #[trigger]
            call_ensures(
                RwLock::<SharedState, ReachedFrom>::new,
                (shared, reached),
                *self.shared,
            ) && shared.state == state && shared.history@ == Seq::<Transition>::empty()
    }

    /// The state that is shared after these transitions.
    pub open spec fn state_after(self, history: Seq<Transition>) -> ShutdownState {
        self.initial().after_all(history)
    }

    /// One transition was made: the transitions that had led to the shared state were
    /// found to be `history`, no holder could make another one, and then the state was
    /// put that `transition` makes of it.
    pub closed spec fn replaced(self, history: Seq<Transition>, transition: Transition) -> bool {
        exists|
            shared: SharedState,
            handle: WriteHandle<SharedState, ReachedFrom>,
            put: SharedState,
        |
            {
                &&& #[trigger] call_ensures(
                    RwLock::<SharedState, ReachedFrom>::acquire_write,
                    (&*self.shared,),
                    (shared, handle),
                )
                &&& #[trigger] call_ensures(
                    WriteHandle::<SharedState, ReachedFrom>::release_write,
                    (handle, put),
                    (),
                )
                &&& shared.history@ == history
                &&& shared.state == self.state_after(history)
                &&& put.history@ == history.push(transition)
                &&& put.state == shared.state.after(transition)
            }
    }

    /// The transitions that had led to the shared state were found to be `history`.
    pub closed spec fn was_read(self, history: Seq<Transition>) -> bool {
        exists|handle: ReadHandle<SharedState, ReachedFrom>| #[trigger]
            call_ensures(
                RwLock::<SharedState, ReachedFrom>::acquire_read,
                (&*self.shared,),
                handle,
            ) && handle.view().history@ == history && handle.view().state == self.state_after(
                history,
            )
    }

    /// Creates a token with an idle state of its own.
    pub(crate) fn new() -> (token: ShutdownToken)
        ensures
            token.initial() is Idle,
            token.made_with(ShutdownState::Idle),
    {
        let ghost initial = ShutdownState::Idle;
        let ghost history = Seq::empty();
        let shared = SharedState { state: ShutdownState::Idle, history: Ghost(history) };
        let lock = call_with(
            RwLock::<SharedState, ReachedFrom>::new,
            shared,
            Ghost(ReachedFrom { initial }),
        );
        ShutdownToken { shared: Arc::new(lock) }
    }

    /// Starts dispatching, unless it is running already.
    pub(crate) fn start_dispatching(&self)
        ensures
            exists|history: Seq<Transition>| #[trigger] self.replaced(history, Transition::Start),
    {
        let (shared, handle) = call(
            RwLock::<SharedState, ReachedFrom>::acquire_write,
            &*self.shared,
        );
        let SharedState { mut state, history: Ghost(history) } = shared;
        state.start_dispatching();
        let put = SharedState { state, history: Ghost(history.push(Transition::Start)) };
        assert(put.history@.drop_last() =~= history);
        call_with(WriteHandle::<SharedState, ReachedFrom>::release_write, handle, put);
        assert(self.replaced(history, Transition::Start));
    }

    /// Requests that dispatching stops, if it is running.
    pub fn shutdown(&self) -> (result: Result<(), IdleShutdownError>)
        ensures
            exists|history: Seq<Transition>| #[trigger]
                self.replaced(history, Transition::Shutdown) && result == self.state_after(
                    history,
                ).shutdown_result(),
    {
        let (shared, handle) = call(
            RwLock::<SharedState, ReachedFrom>::acquire_write,
            &*self.shared,
        );
        let SharedState { mut state, history: Ghost(history) } = shared;
        let result = state.shutdown();
        let put = SharedState { state, history: Ghost(history.push(Transition::Shutdown)) };
        assert(put.history@.drop_last() =~= history);
        call_with(WriteHandle::<SharedState, ReachedFrom>::release_write, handle, put);
        assert(self.replaced(history, Transition::Shutdown));
        result
    }

    /// Tells whether dispatching has been told to stop.
    pub(crate) fn is_shutting_down(&self) -> (result: bool)
        ensures
            exists|history: Seq<Transition>| #[trigger]
                self.was_read(history) && result == (self.state_after(history) is ShuttingDown),
    {
        let handle = call(RwLock::<SharedState, ReachedFrom>::acquire_read, &*self.shared);
        let result = handle.borrow().state.is_shutting_down();
        assert(self.was_read(handle.view().history@));
        handle.release_read();
        result
    }

    /// Dispatching has ended. Tells whether that was because of a request to shut
    /// down, so that somebody waits for it.
    pub(crate) fn done(&self) -> (requested: bool)
        ensures
            exists|history: Seq<Transition>| #[trigger]
                self.replaced(history, Transition::End) && requested == (self.state_after(
                    history,
                ) is ShuttingDown),
    {
        let (shared, handle) = call(
            RwLock::<SharedState, ReachedFrom>::acquire_write,
            &*self.shared,
        );
        let SharedState { mut state, history: Ghost(history) } = shared;
        let requested = state.done();
        let put = SharedState { state, history: Ghost(history.push(Transition::End)) };
        assert(put.history@.drop_last() =~= history);
        call_with(WriteHandle::<SharedState, ReachedFrom>::release_write, handle, put);
        assert(self.replaced(history, Transition::End));
        requested
    }
}

/// A request to shut down takes hold of the shared state, with the transitions that led
/// to it, and puts it back with that request as one more. It is refused if, and only if,
/// the state is idle, which it then stays; otherwise the state is shutting down.
pub proof fn law_shutdown_is_one_transition(
    token: &ShutdownToken,
    result: Result<(), IdleShutdownError>,
)
    requires
        call_ensures(ShutdownToken::shutdown, (token,), result),
    ensures
        exists|
            shared: SharedState,
            handle: WriteHandle<SharedState, ReachedFrom>,
            put: SharedState,
        |
            {
                &&& #[trigger] call_ensures(
                    RwLock::<SharedState, ReachedFrom>::acquire_write,
                    (&token.lock(),),
                    (shared, handle),
                )
                &&& #[trigger] call_ensures(
                    WriteHandle::<SharedState, ReachedFrom>::release_write,
                    (handle, put),
                    (),
                )
                &&& put.history@ == shared.history@.push(Transition::Shutdown)
                &&& match shared.state {
                    ShutdownState::Idle => result is Err && put.state is Idle,
                    ShutdownState::Running => result is Ok && put.state is ShuttingDown,
                    ShutdownState::ShuttingDown => result is Ok && put.state is ShuttingDown,
                }
            },
{
    assert(token.lock() == *token.shared);
}

/// A start takes hold of the shared state, with the transitions that led to it, and puts
/// it back with that start as one more. An idle state is running then; any other stays
/// as it is.
pub(crate) proof fn law_start_is_one_transition(token: &ShutdownToken)
    requires
        call_ensures(ShutdownToken::start_dispatching, (token,), ()),
    ensures
        exists|
            shared: SharedState,
            handle: WriteHandle<SharedState, ReachedFrom>,
            put: SharedState,
        |
            {
                &&& #[trigger] call_ensures(
                    RwLock::<SharedState, ReachedFrom>::acquire_write,
                    (&token.lock(),),
                    (shared, handle),
                )
                &&& #[trigger] call_ensures(
                    WriteHandle::<SharedState, ReachedFrom>::release_write,
                    (handle, put),
                    (),
                )
                &&& put.history@ == shared.history@.push(Transition::Start)
                &&& match shared.state {
                    ShutdownState::Idle => put.state is Running,
                    ShutdownState::Running => put.state is Running,
                    ShutdownState::ShuttingDown => put.state is ShuttingDown,
                }
            },
{
    assert(token.lock() == *token.shared);
}

/// The end takes hold of the shared state, with the transitions that led to it, and puts
/// it back with that end as one more. The state is idle then, and the answer tells
/// whether it was shutting down.
pub(crate) proof fn law_end_is_one_transition(token: &ShutdownToken, requested: bool)
    requires
        call_ensures(ShutdownToken::done, (token,), requested),
    ensures
        exists|
            shared: SharedState,
            handle: WriteHandle<SharedState, ReachedFrom>,
            put: SharedState,
        |
            {
                &&& #[trigger] call_ensures(
                    RwLock::<SharedState, ReachedFrom>::acquire_write,
                    (&token.lock(),),
                    (shared, handle),
                )
                &&& #[trigger] call_ensures(
                    WriteHandle::<SharedState, ReachedFrom>::release_write,
                    (handle, put),
                    (),
                )
                &&& put.history@ == shared.history@.push(Transition::End)
                &&& match shared.state {
                    ShutdownState::Idle => !requested && put.state is Idle,
                    ShutdownState::Running => !requested && put.state is Idle,
                    ShutdownState::ShuttingDown => requested && put.state is Idle,
                }
            },
{
    assert(token.lock() == *token.shared);
}

/// A look reads the shared state, and tells whether it is shutting down.
pub(crate) proof fn law_look_reads(token: &ShutdownToken, result: bool)
    requires
        call_ensures(ShutdownToken::is_shutting_down, (token,), result),
    ensures
        exists|handle: ReadHandle<SharedState, ReachedFrom>| #[trigger]
            call_ensures(
                RwLock::<SharedState, ReachedFrom>::acquire_read,
                (&token.lock(),),
                handle,
            ) && (result <==> handle.view().state is ShuttingDown),
{
    assert(token.lock() == *token.shared);
}

/// A new token shares a state of its own, which is idle and to which no transitions led.
pub(crate) proof fn law_new_token_is_idle(token: ShutdownToken)
    requires
        call_ensures(ShutdownToken::new, (), token),
    ensures
        token.initial() is Idle,
        exists|shared: SharedState, reached: Ghost<ReachedFrom>| #[trigger]
            call_ensures(
                RwLock::<SharedState, ReachedFrom>::new,
                (shared, reached),
                token.lock(),
            ) && shared.state is Idle && shared.history@.len() == 0,
{
    assert(token.lock() == *token.shared);
}

/// One transition, as contracts speak of it, is that the shared state was taken hold of,
/// with the transitions that led to it, and was put back with that transition as one
/// more.
pub proof fn law_transition_is_made(
    token: ShutdownToken,
    history: Seq<Transition>,
    transition: Transition,
)
    requires
        token.replaced(history, transition),
    ensures
        exists|
            shared: SharedState,
            handle: WriteHandle<SharedState, ReachedFrom>,
            put: SharedState,
        |
            {
                &&& #[trigger] call_ensures(
                    RwLock::<SharedState, ReachedFrom>::acquire_write,
                    (&token.lock(),),
                    (shared, handle),
                )
                &&& #[trigger] call_ensures(
                    WriteHandle::<SharedState, ReachedFrom>::release_write,
                    (handle, put),
                    (),
                )
                &&& shared.history@ == history
                &&& put.history@ == history.push(transition)
            },
{
    assert(token.lock() == *token.shared);
}

/// A look, as contracts speak of it, is that the shared state was read, and with it the
/// transitions that led to it.
pub proof fn law_look_is_made(token: ShutdownToken, history: Seq<Transition>)
    requires
        token.was_read(history),
    ensures
        exists|handle: ReadHandle<SharedState, ReachedFrom>| #[trigger]
            call_ensures(
                RwLock::<SharedState, ReachedFrom>::acquire_read,
                (&token.lock(),),
                handle,
            ) && handle.view().history@ == history,
{
    assert(token.lock() == *token.shared);
}

/// Whoever takes hold of the shared state finds the one that its transitions led to.
pub proof fn law_taken_was_reached(
    token: ShutdownToken,
    shared: SharedState,
    handle: WriteHandle<SharedState, ReachedFrom>,
)
    requires
        call_ensures(
            RwLock::<SharedState, ReachedFrom>::acquire_write,
            (&token.lock(),),
            (shared, handle),
        ),
    ensures
        shared.state == token.initial().after_all(shared.history@),
{
    assert(token.lock() == *token.shared);
}

/// Whoever reads the shared state finds the one that its transitions led to.
pub proof fn law_read_was_reached(
    token: ShutdownToken,
    handle: ReadHandle<SharedState, ReachedFrom>,
)
    requires
        call_ensures(
            RwLock::<SharedState, ReachedFrom>::acquire_read,
            (&token.lock(),),
            handle,
        ),
    ensures
        handle.view().state == token.initial().after_all(handle.view().history@),
{
    assert(token.lock() == *token.shared);
}

} // verus!
