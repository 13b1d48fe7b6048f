use std::convert::Infallible;

use dispatching::{
    Action, AlreadyRunning, Bot, DefaultKey, Dispatcher, Event, IdleShutdownError, Listening, Me,
    ShutdownState, SignalResponse, Step, Update, UpdateKind, WorkerId, WorkerKind,
};
use dptree::di::DependencyMap;
use tokio::runtime::{Builder, Runtime};

fn runtime() -> Runtime {
    Builder::new_current_thread().build().unwrap()
}

fn event(id: i32, chat: Option<i64>) -> Update {
    Update { id, chat, kind: UpdateKind::Event(String::from("text")) }
}

fn me() -> Me {
    Me { id: 1, username: String::from("a_bot") }
}

fn bot() -> Bot {
    Bot::new(String::new())
}

#[test]
fn a_state_goes_from_idle_to_idle() {
    let mut state = ShutdownState::Idle;
    assert_eq!(state.shutdown(), Err(IdleShutdownError));
    assert_eq!(state, ShutdownState::Idle);
    state.start_dispatching();
    assert_eq!(state, ShutdownState::Running);
    assert!(!state.is_shutting_down());
    state.start_dispatching();
    assert_eq!(state, ShutdownState::Running);
    assert_eq!(state.shutdown(), Ok(()));
    assert_eq!(state.shutdown(), Ok(()));
    assert!(state.is_shutting_down());
    state.start_dispatching();
    assert_eq!(state, ShutdownState::ShuttingDown);
    assert!(state.done());
    assert_eq!(state, ShutdownState::Idle);
    assert!(!state.done());
}

#[test]
fn a_token_shares_the_state_of_its_dispatcher() {
    let mut dispatcher = Dispatcher::<u32, (), (), DefaultKey, ()>::builder(bot(), 1).build();
    let other = Dispatcher::<u32, (), (), DefaultKey, ()>::builder(bot(), 1).build();
    let token = dispatcher.shutdown_token();
    let copy = token.clone();

    assert_eq!(token.shutdown(), Err(IdleShutdownError));
    assert!(dispatcher.dispatch_with_listener(me(), ()).is_ok());
    assert_eq!(other.shutdown_token().shutdown(), Err(IdleShutdownError));
    assert_eq!(token.shutdown(), Ok(()));
    assert_eq!(copy.shutdown(), Ok(()));
    match dispatcher.dispatch_with_listener(me(), ()) {
        Err(error) => assert_eq!(error.found, ShutdownState::ShuttingDown),
        Ok(_) => panic!("dispatching was started twice"),
    }
}

#[test]
fn a_new_dispatcher_refuses_to_shut_down() {
    let mut dispatcher = Dispatcher::<u32, (), (), DefaultKey, ()>::builder(bot(), 1)
        .worker_queue_size(5)
        .build();

    assert_eq!(dispatcher.shutdown_token().shutdown(), Err(IdleShutdownError));
    assert!(dispatcher.can_spawn());
    assert!(dispatcher.take_workers().is_empty());
}

#[test]
fn two_dispatchers_are_shut_down_apart() {
    let mut one = Dispatcher::<u32, (), (), DefaultKey, ()>::builder(bot(), 1).build();
    let mut other = Dispatcher::<u32, (), (), DefaultKey, ()>::builder(bot(), 1).build();
    let (mut of_one, mut of_other) =
        match (one.dispatch_with_listener(me(), 1u8), other.dispatch_with_listener(me(), 2u8)) {
            (Ok(of_one), Ok(of_other)) => (of_one, of_other),
            _ => panic!("dispatching cannot be started"),
        };

    assert_eq!(one.shutdown_token().shutdown(), Ok(()));
    let step = of_other.advance(&mut other, Event::<String>::TimedOut);
    assert!(matches!(step, Step::Poll));
    let step = of_one.advance(&mut one, Event::<String>::TimedOut);
    assert!(matches!(step, Step::StopAndPoll(1)));
    assert_eq!(other.shutdown_token().shutdown(), Ok(()));
    let step = of_other.advance(&mut other, Event::<String>::TimedOut);
    assert!(matches!(step, Step::StopAndPoll(2)));
}

#[test]
fn a_signal_shuts_down_a_later_round_too() {
    let mut dispatcher = Dispatcher::<u32, (), (), DefaultKey, ()>::builder(bot(), 1).build();
    let handler = dispatcher.setup_ctrlc_handler();

    for round in [1u8, 2] {
        let mut listening = match dispatcher.dispatch_with_listener(me(), round) {
            Ok(listening) => listening,
            Err(_) => panic!("dispatching cannot be started"),
        };
        let step = listening.advance(&mut dispatcher, Event::<String>::TimedOut);
        assert!(matches!(step, Step::Poll));
        assert_eq!(handler.on_signal(), SignalResponse::AwaitShutdown);
        let step = listening.advance(&mut dispatcher, Event::<String>::TimedOut);
        assert!(matches!(step, Step::StopAndPoll(token) if token == round));
        let step = listening.advance(&mut dispatcher, Event::<String>::Ended);
        assert!(matches!(step, Step::Join(_)));
        let step = listening.advance(&mut dispatcher, Event::<String>::Joined);
        assert!(matches!(step, Step::Finish { requested: true }));
        assert_eq!(handler.on_signal(), SignalResponse::Ignore);
    }
}

#[test]
fn a_signal_shuts_down_only_what_is_running() {
    let mut dispatcher = Dispatcher::<u32, (), (), DefaultKey, ()>::builder(bot(), 1).build();
    let handler = dispatcher.setup_ctrlc_handler();

    assert_eq!(handler.on_signal(), SignalResponse::Ignore);
    let mut listening = match dispatcher.dispatch_with_listener(me(), "stop") {
        Ok(listening) => listening,
        Err(_) => panic!("dispatching cannot be started"),
    };
    assert_eq!(handler.on_signal(), SignalResponse::AwaitShutdown);
    let step = listening.advance(&mut dispatcher, Event::<String>::TimedOut);
    assert!(matches!(step, Step::StopAndPoll("stop")));
}

#[test]
fn responses_follow_requests() {
    assert_eq!(SignalResponse::to_request(Ok(())), SignalResponse::AwaitShutdown);
    assert_eq!(SignalResponse::to_request(Err(IdleShutdownError)), SignalResponse::Ignore);
}

#[test]
fn a_listener_is_stopped_once() {
    let mut dispatcher = Dispatcher::<u32, (), (), DefaultKey, ()>::builder(bot(), 1).build();
    let mut listening: Listening<u8> = match dispatcher.dispatch_with_listener(me(), 9) {
        Ok(listening) => listening,
        Err(_) => panic!("dispatching cannot be started"),
    };

    assert!(matches!(listening.check::<u32, (), (), String>(false), Step::Poll));
    assert!(matches!(listening.check::<u32, (), (), String>(true), Step::StopAndPoll(9)));
    assert!(matches!(listening.check::<u32, (), (), String>(true), Step::Poll));
    assert!(matches!(listening.check::<u32, (), (), String>(false), Step::Poll));
}

#[test]
fn a_round_that_is_shut_down() {
    let rt = runtime();
    let mut dispatcher = Dispatcher::<u32, (), (), DefaultKey, ()>::builder(bot(), 1).build();
    let token = dispatcher.shutdown_token();
    let mut listening = match dispatcher.dispatch_with_listener(me(), 9u8) {
        Ok(listening) => listening,
        Err(_) => panic!("dispatching cannot be started"),
    };

    let step = listening.advance(&mut dispatcher, Event::<String>::TimedOut);
    assert!(matches!(step, Step::Poll));

    let received = Event::<String>::Received(Ok(event(1, Some(7))));
    let handle = match listening.advance(&mut dispatcher, received) {
        Step::Act(Action::Send { worker, update, task: Some(task) }) => {
            assert_eq!(worker.id, WorkerId { kind: WorkerKind::Sequential, number: 0 });
            assert_eq!(update, event(1, Some(7)));
            rt.spawn(async move { drop(task) })
        }
        _ => panic!("a task has to be started, and the update to be sent"),
    };
    let started = handle.id();
    assert_eq!(token.shutdown(), Ok(()));
    let acted = Event::<String>::Acted { started: Some(handle) };
    let step = listening.advance(&mut dispatcher, acted);
    assert!(matches!(step, Step::StopAndPoll(9)));

    let received = Event::Received(Err(String::from("late")));
    match listening.advance(&mut dispatcher, received) {
        Step::Act(Action::HandleListenerError(error)) => assert_eq!(error, "late"),
        _ => panic!("the error has to be handled"),
    }
    let acted = Event::<String>::Acted { started: None };
    let step = listening.advance(&mut dispatcher, acted);
    assert!(matches!(step, Step::Poll));

    let received = Event::<String>::Received(Ok(event(2, Some(7))));
    match listening.advance(&mut dispatcher, received) {
        Step::Act(Action::Send { worker, update, task }) => {
            assert_eq!(worker.id, WorkerId { kind: WorkerKind::Sequential, number: 0 });
            assert_eq!(update, event(2, Some(7)));
            assert!(task.is_none());
        }
        _ => panic!("the update has to be sent"),
    }
    let acted = Event::<String>::Acted { started: None };
    let step = listening.advance(&mut dispatcher, acted);
    assert!(matches!(step, Step::Poll));

    match listening.advance(&mut dispatcher, Event::<String>::Ended) {
        Step::Join(handles) => {
            let ids: Vec<_> = handles.iter().map(|handle| handle.id()).collect();
            assert_eq!(ids, vec![started]);
            for handle in handles {
                rt.block_on(handle).unwrap();
            }
        }
        _ => panic!("the workers have to be waited for"),
    }
    let step = listening.advance(&mut dispatcher, Event::<String>::Joined);
    assert!(matches!(step, Step::Finish { requested: true }));

    assert_eq!(token.shutdown(), Err(IdleShutdownError));
    assert!(dispatcher.dispatch_with_listener(me(), 9u8).is_ok());
}

#[test]
fn a_round_that_the_listener_ends() {
    let mut dispatcher = Dispatcher::<u32, (), (), DefaultKey, ()>::builder(bot(), 1).build();
    let mut listening = match dispatcher.dispatch_with_listener(me(), 9u8) {
        Ok(listening) => listening,
        Err(_) => panic!("dispatching cannot be started"),
    };

    match listening.advance(&mut dispatcher, Event::<String>::Ended) {
        Step::Join(handles) => assert!(handles.is_empty()),
        _ => panic!("the workers have to be waited for"),
    }
    let step = listening.advance(&mut dispatcher, Event::<String>::Joined);
    assert!(matches!(step, Step::Finish { requested: false }));
}

#[test]
fn a_round_leaves_nothing_behind() {
    let rt = runtime();
    let mut dispatcher = Dispatcher::<u32, (), (), DefaultKey, ()>::builder(bot(), 1).build();

    for round in [1u8, 2] {
        let mut listening = match dispatcher.dispatch_with_listener(me(), round) {
            Ok(listening) => listening,
            Err(_) => panic!("dispatching cannot be started"),
        };
        let mut started = Vec::new();
        for (id, chat) in [(1, Some(7)), (2, None), (3, Some(8)), (4, Some(7)), (5, None)] {
            let received = Event::<String>::Received(Ok(event(id, chat)));
            let task = match listening.advance(&mut dispatcher, received) {
                Step::Act(Action::Send { task, .. }) => task,
                _ => panic!("the update has to be sent"),
            };
            assert_eq!(task.is_some(), id <= 3);
            let handle = task.map(|task| rt.spawn(async move { drop(task) }));
            started.extend(handle.iter().map(|handle| handle.id()));
            let acted = Event::<String>::Acted { started: handle };
            assert!(matches!(listening.advance(&mut dispatcher, acted), Step::Poll));
        }
        match listening.advance(&mut dispatcher, Event::<String>::Ended) {
            Step::Join(handles) => {
                let ids: Vec<_> = handles.iter().map(|handle| handle.id()).collect();
                assert_eq!(ids, started);
            }
            _ => panic!("the workers have to be waited for"),
        }
        let step = listening.advance(&mut dispatcher, Event::<String>::Joined);
        assert!(matches!(step, Step::Finish { requested: false }));
        assert!(dispatcher.take_workers().is_empty());
        assert_eq!(dispatcher.shutdown_token().shutdown(), Err(IdleShutdownError));
    }
}

#[test]
fn dispatching_cannot_be_started_twice() {
    let mut dispatcher = Dispatcher::<u32, (), (), DefaultKey, ()>::builder(bot(), 1).build();

    assert!(dispatcher.dispatch_with_listener(me(), ()).is_ok());
    match dispatcher.dispatch_with_listener(me(), ()) {
        Err(error) => assert_eq!(error, AlreadyRunning { found: ShutdownState::Running }),
        Ok(_) => panic!("dispatching was started twice"),
    }
}

#[test]
fn test_tokio_spawn() {
    runtime()
        .block_on(async {
            tokio::spawn(async {
                // Just check that this code compiles.
                if false {
                    let handler: dptree::Handler<
                        'static,
                        DependencyMap,
                        Result<(), Infallible>,
                    > = dptree::entry();
                    let mut dispatcher =
                        Dispatcher::<_, (), (), DefaultKey, ()>::builder(bot(), handler).build();
                    let listening = dispatcher.dispatch_with_listener(me(), ());
                    tokio::task::yield_now().await;
                    drop(listening);
                }
            })
            .await
        })
        .unwrap();
}
