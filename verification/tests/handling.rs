use std::ops::ControlFlow;
use std::sync::Arc;

use dispatching::{
    after_dispatch, handle_update, try_after_dispatch, Bot, DefaultHandler, DefaultKey,
    Dispatcher, ErrorHandler, Me, Reaction, Update, UpdateKind, WorkerTask,
};
use dptree::di::{DependencyMap, DependencySupplier};

type Flow = ControlFlow<Result<(), String>, DependencyMap>;

fn event(id: i32) -> Update {
    Update { id, chat: Some(1), kind: UpdateKind::Event(String::from("text")) }
}

fn custom() -> (DefaultHandler<u8>, ErrorHandler<u16>) {
    (DefaultHandler::Custom(Arc::new(8)), ErrorHandler::Custom(Arc::new(16)))
}

fn logging() -> (DefaultHandler<u8>, ErrorHandler<u16>) {
    (DefaultHandler::LogWarning, ErrorHandler::Logging)
}

#[test]
fn a_handler_is_given_the_update() {
    let mut deps = DependencyMap::new();
    deps.insert(5i64);

    let given = handle_update(event(3), &deps);

    let update: Arc<Update> = given.get();
    let number: Arc<i64> = given.get();
    assert_eq!(*update, event(3));
    assert_eq!(*number, 5);
}

#[test]
fn the_worker_keeps_its_dependencies() {
    let mut deps = DependencyMap::new();
    deps.insert(event(1));

    let given = handle_update(event(2), &deps);

    let kept: Arc<Update> = deps.get();
    let update: Arc<Update> = given.get();
    assert_eq!(kept.id, 1);
    assert_eq!(update.id, 2);
}

#[test]
fn a_handled_update_needs_nothing_more() {
    let (default_handler, error_handler) = custom();
    let flow: Flow = ControlFlow::Break(Ok(()));
    assert!(matches!(after_dispatch(flow, &default_handler, &error_handler), Reaction::Handled));
}

#[test]
fn a_handler_error_goes_to_the_error_handler() {
    let (default_handler, error_handler) = custom();
    let flow: Flow = ControlFlow::Break(Err(String::from("broken")));
    match after_dispatch(flow, &default_handler, &error_handler) {
        Reaction::HandleError(handler, error) => {
            assert_eq!(*handler, 16);
            assert_eq!(error, "broken");
        }
        _ => panic!("the error has to be handled"),
    }
}

#[test]
fn a_handler_error_is_logged_by_default() {
    let (default_handler, error_handler) = logging();
    let flow: Flow = ControlFlow::Break(Err(String::from("broken")));
    match after_dispatch(flow, &default_handler, &error_handler) {
        Reaction::LogError(error) => assert_eq!(error, "broken"),
        _ => panic!("the error has to be logged"),
    }
}

#[test]
fn an_unhandled_update_goes_to_the_default_handler() {
    let (default_handler, error_handler) = custom();
    let flow: Flow = ControlFlow::Continue(handle_update(event(9), &DependencyMap::new()));
    match after_dispatch(flow, &default_handler, &error_handler) {
        Reaction::HandleUnhandled(handler, update) => {
            assert_eq!(*handler, 8);
            assert_eq!(*update, event(9));
        }
        _ => panic!("the update has to reach the default handler"),
    }
}

#[test]
fn an_unhandled_update_is_logged_by_default() {
    let (default_handler, error_handler) = logging();
    let flow: Flow = ControlFlow::Continue(handle_update(event(9), &DependencyMap::new()));
    match after_dispatch(flow, &default_handler, &error_handler) {
        Reaction::LogUnhandled(update) => assert_eq!(*update, event(9)),
        _ => panic!("the update has to be logged"),
    }
}

#[test]
fn a_lost_update_is_noticed() {
    let (default_handler, error_handler) = custom();
    let lost: Flow = ControlFlow::Continue(DependencyMap::new());
    assert!(try_after_dispatch(lost, &default_handler, &error_handler).is_none());

    let kept: Flow = ControlFlow::Continue(handle_update(event(9), &DependencyMap::new()));
    match try_after_dispatch(kept, &default_handler, &error_handler) {
        Some(Reaction::HandleUnhandled(_, update)) => assert_eq!(*update, event(9)),
        _ => panic!("the update has to reach the default handler"),
    }

    let handled: Flow = ControlFlow::Break(Ok(()));
    assert!(matches!(
        try_after_dispatch(handled, &default_handler, &error_handler),
        Some(Reaction::Handled)
    ));
}

#[test]
fn there_are_no_dependencies_by_default() {
    let mut dispatcher = Dispatcher::<u32, u8, u16, DefaultKey, ()>::builder(
        Bot::new(String::from("token")),
        1,
    )
    .build();

    let task: WorkerTask<u32, u8, u16> =
        dispatcher.route(None).1.expect("a task has to be started");
    let mut deps = (*task.deps).clone();
    assert!(deps.remove::<Bot>().is_none());
    assert!(deps.remove::<Me>().is_none());
    assert!(deps.remove::<Update>().is_none());
}

#[test]
fn a_handler_is_given_bot_me_update_and_what_was_passed() {
    let mut passed = DependencyMap::new();
    passed.insert(5i64);
    passed.insert("passed");
    let me = Me { id: 77, username: String::from("a_bot") };
    let mut dispatcher = Dispatcher::<u32, u8, u16, DefaultKey, ()>::builder(
        Bot::new(String::from("token")),
        1,
    )
    .dependencies(passed)
    .build();

    assert!(dispatcher.dispatch_with_listener(me.clone(), ()).is_ok());
    let task: WorkerTask<u32, u8, u16> =
        dispatcher.route(Some(1)).1.expect("a task has to be started");
    let given = handle_update(event(4), &task.deps);

    let bot: Arc<Bot> = given.get();
    let known: Arc<Me> = given.get();
    let update: Arc<Update> = given.get();
    let number: Arc<i64> = given.get();
    let text: Arc<&'static str> = given.get();
    assert_eq!(bot.token, "token");
    assert_eq!(*known, me);
    assert_eq!(*update, event(4));
    assert_eq!(*number, 5);
    assert_eq!(*text, "passed");
}

#[test]
fn a_handler_tree_decides_who_gets_the_update() {
    let rt = tokio::runtime::Builder::new_current_thread().build().unwrap();
    let handler: dptree::Handler<'static, DependencyMap, Result<(), String>> = dptree::entry()
        .branch(dptree::filter(|update: Update| update.id == 1).endpoint(|| async { Ok(()) }))
        .branch(
            dptree::filter(|update: Update| update.id == 2)
                .endpoint(|| async { Err(String::from("no")) }),
        );
    let (default_handler, error_handler) = custom();
    let deps = DependencyMap::new();

    let mut reactions = Vec::new();
    for id in [1, 2, 3] {
        let flow = rt.block_on(handler.dispatch(handle_update(event(id), &deps)));
        reactions.push(after_dispatch(flow, &default_handler, &error_handler));
    }

    assert!(matches!(&reactions[0], Reaction::Handled));
    assert!(matches!(&reactions[1], Reaction::HandleError(_, error) if error == "no"));
    assert!(matches!(&reactions[2], Reaction::HandleUnhandled(_, update) if update.id == 3));
}
