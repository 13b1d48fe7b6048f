use std::hash::Hash;

use dispatching::{
    default_distribution_function, is_valid_queue_size, Action, Bot, DefaultKey, Dispatcher,
    Update, UpdateKind, WorkerId, WorkerKind, WorkerTask, DEFAULT_WORKER_QUEUE_SIZE,
};
use tokio::runtime::{Builder, Runtime};
use tokio::sync::mpsc::Sender;

type Task = WorkerTask<&'static str, (), ()>;

fn runtime() -> Runtime {
    Builder::new_current_thread().build().unwrap()
}

fn event(id: i32, chat: Option<i64>) -> Update {
    Update { id, chat, kind: UpdateKind::Event(format!("update {}", id)) }
}

fn bot() -> Bot {
    Bot::new(String::from("token"))
}

/// What a delivery shows: the worker, its queue, the update, and the task to start.
struct Sent {
    id: WorkerId,
    tx: Sender<Update>,
    update: Update,
    task: Option<Task>,
}

fn sent(action: Action<'_, &'static str, (), (), String>) -> Sent {
    match action {
        Action::Send { worker, update, task } => {
            Sent { id: worker.id, tx: worker.tx.clone(), update, task }
        }
        Action::ReportUnparsed(reason) => panic!("unparsed: {}", reason),
        Action::HandleListenerError(error) => panic!("listener error: {}", error),
    }
}

/// Processes an update that needs a new worker, and starts a task for it that does
/// nothing.
fn to_new<Key, F>(
    rt: &Runtime,
    dispatcher: &mut Dispatcher<&'static str, (), (), Key, F>,
    update: Update,
) -> Sent
where
    Key: Hash + Eq,
    F: Fn(&Update) -> Option<Key>,
{
    let mut delivery = sent(dispatcher.process_update(Ok(update)));
    let task = delivery.task.take().expect("a task has to be started");
    assert_eq!(task.kind, delivery.id.kind);
    dispatcher.add_handle(delivery.id, rt.spawn(async move { drop(task) }));
    delivery
}

/// Processes an update that has a worker already.
fn to_present<Key, F>(
    dispatcher: &mut Dispatcher<&'static str, (), (), Key, F>,
    update: Update,
) -> Sent
where
    Key: Hash + Eq,
    F: Fn(&Update) -> Option<Key>,
{
    let delivery = sent(dispatcher.process_update(Ok(update)));
    assert!(delivery.task.is_none());
    delivery
}

fn sequential(number: usize) -> WorkerId {
    WorkerId { kind: WorkerKind::Sequential, number }
}

fn concurrent() -> WorkerId {
    WorkerId { kind: WorkerKind::Concurrent, number: 0 }
}

#[test]
fn default_distribution_is_by_chat() {
    assert_eq!(default_distribution_function(&event(1, Some(-42))), Some(-42));
    assert_eq!(default_distribution_function(&event(1, None)), None);
}

#[test]
fn updates_of_one_chat_share_a_sequential_worker() {
    let rt = runtime();
    let mut dispatcher =
        Dispatcher::<_, (), (), DefaultKey, ()>::builder(bot(), "handler").build();

    let first = to_new(&rt, &mut dispatcher, event(1, Some(7)));
    let second = to_present(&mut dispatcher, event(2, Some(7)));

    assert_eq!((first.id, second.id), (sequential(0), sequential(0)));
    assert!(first.tx.same_channel(&second.tx));
    assert_eq!(first.update, event(1, Some(7)));
    assert_eq!(second.update, event(2, Some(7)));
}

#[test]
fn updates_of_different_chats_have_different_workers() {
    let rt = runtime();
    let mut dispatcher =
        Dispatcher::<_, (), (), DefaultKey, ()>::builder(bot(), "handler").build();

    let first = to_new(&rt, &mut dispatcher, event(1, Some(7)));
    let second = to_new(&rt, &mut dispatcher, event(2, Some(8)));
    let again = to_present(&mut dispatcher, event(3, Some(7)));

    assert_eq!((first.id, second.id, again.id), (sequential(0), sequential(1), sequential(0)));
    assert!(!first.tx.same_channel(&second.tx));
    assert!(first.tx.same_channel(&again.tx));
    assert_eq!(dispatcher.take_workers().len(), 2);
}

#[test]
fn updates_without_a_chat_share_the_concurrent_worker() {
    let rt = runtime();
    let mut dispatcher =
        Dispatcher::<_, (), (), DefaultKey, ()>::builder(bot(), "handler").build();

    let keyed = to_new(&rt, &mut dispatcher, event(1, Some(7)));
    let first = to_new(&rt, &mut dispatcher, event(2, None));
    let second = to_present(&mut dispatcher, event(3, None));

    assert_eq!((keyed.id, first.id, second.id), (sequential(0), concurrent(), concurrent()));
    assert!(first.tx.same_channel(&second.tx));
    assert!(!first.tx.same_channel(&keyed.tx));
    assert_eq!(dispatcher.take_workers().len(), 2);
}

#[test]
fn route_takes_the_key_itself() {
    let mut dispatcher =
        Dispatcher::<_, (), (), DefaultKey, ()>::builder(bot(), "handler").build();
    let mut route = |key: Option<i64>| {
        let (worker, task): (_, Option<Task>) = dispatcher.route(key);
        (worker.id, task.is_some())
    };

    assert_eq!(route(Some(3)), (sequential(0), true));
    assert_eq!(route(Some(4)), (sequential(1), true));
    assert_eq!(route(Some(3)), (sequential(0), false));
    assert_eq!(route(None), (concurrent(), true));
    assert_eq!(route(None), (concurrent(), false));
}

#[test]
fn unparsed_updates_reach_no_worker() {
    let mut dispatcher = Dispatcher::<_, (), (), DefaultKey, ()>::builder(bot(), "handler")
        .worker_queue_size(0)
        .build();
    let update =
        Update { id: 1, chat: Some(7), kind: UpdateKind::Error(String::from("missing field")) };

    match dispatcher.process_update(Ok::<_, String>(update)) {
        Action::ReportUnparsed(reason) => assert_eq!(reason, "missing field"),
        _ => panic!("an unparsed update has to be reported"),
    }
    assert!(dispatcher.take_workers().is_empty());
}

#[test]
fn listener_errors_reach_no_worker() {
    let mut dispatcher = Dispatcher::<_, (), (), DefaultKey, ()>::builder(bot(), "handler")
        .worker_queue_size(0)
        .build();

    match dispatcher.process_update(Err(String::from("timeout"))) {
        Action::HandleListenerError(error) => assert_eq!(error, "timeout"),
        _ => panic!("a listener error has to be handled"),
    }
    assert!(dispatcher.take_workers().is_empty());
}

#[test]
fn queues_have_the_default_size() {
    let rt = runtime();
    let mut dispatcher =
        Dispatcher::<_, (), (), DefaultKey, ()>::builder(bot(), "handler").build();

    let keyed = to_new(&rt, &mut dispatcher, event(1, Some(7)));
    let default = to_new(&rt, &mut dispatcher, event(2, None));

    assert_eq!(DEFAULT_WORKER_QUEUE_SIZE, 64);
    assert_eq!(keyed.tx.max_capacity(), 64);
    assert_eq!(default.tx.max_capacity(), 64);
}

#[test]
fn queues_have_the_size_that_was_asked_for() {
    let rt = runtime();
    let mut dispatcher = Dispatcher::<_, (), (), DefaultKey, ()>::builder(bot(), "handler")
        .worker_queue_size(3)
        .build();

    let keyed = to_new(&rt, &mut dispatcher, event(1, Some(7)));
    let default = to_new(&rt, &mut dispatcher, event(2, None));

    assert_eq!(keyed.tx.max_capacity(), 3);
    assert_eq!(default.tx.max_capacity(), 3);
}

#[test]
fn workers_cannot_be_spawned_without_a_queue() {
    let builder = Dispatcher::<_, (), (), DefaultKey, ()>::builder(bot(), "handler");
    assert!(builder.build().can_spawn());
    let builder = Dispatcher::<_, (), (), DefaultKey, ()>::builder(bot(), "handler");
    assert!(!builder.worker_queue_size(0).build().can_spawn());
}

#[test]
fn queue_sizes_have_bounds() {
    assert!(!is_valid_queue_size(0));
    assert!(is_valid_queue_size(1));
    assert!(is_valid_queue_size(usize::MAX / 8));
    assert!(!is_valid_queue_size(usize::MAX / 8 + 1));
    assert_eq!(usize::MAX / 8, tokio::sync::Semaphore::MAX_PERMITS);
}

#[test]
fn a_worker_receives_what_is_sent_to_it_in_order() {
    let rt = runtime();
    let mut dispatcher =
        Dispatcher::<_, (), (), DefaultKey, ()>::builder(bot(), "handler").build();
    let (out, mut seen) = tokio::sync::mpsc::unbounded_channel();

    for (id, chat) in [(1, 7), (2, 8), (3, 7), (4, 7), (5, 8)] {
        let delivery = sent(dispatcher.process_update(Ok(event(id, Some(chat)))));
        if let Some(mut task) = delivery.task {
            let out = out.clone();
            let handle = rt.spawn(async move {
                while let Some(update) = task.updates.recv().await {
                    out.send(update).unwrap();
                }
            });
            dispatcher.add_handle(delivery.id, handle);
        }
        rt.block_on(delivery.tx.send(delivery.update)).unwrap();
    }
    for handle in dispatcher.take_workers() {
        rt.block_on(handle).unwrap();
    }
    drop(out);

    let mut of_seven = Vec::new();
    let mut of_eight = Vec::new();
    while let Ok(update) = seen.try_recv() {
        match update.chat {
            Some(7) => of_seven.push(update.id),
            Some(8) => of_eight.push(update.id),
            _ => panic!("no such chat"),
        }
    }
    assert_eq!(of_seven, vec![1, 3, 4]);
    assert_eq!(of_eight, vec![2, 5]);
}

#[test]
fn a_worker_is_started_with_what_the_builder_was_told() {
    let mut dispatcher = Dispatcher::<&'static str, u8, u16, DefaultKey, ()>::builder(bot(), "h")
        .default_handler(5u8)
        .error_handler(std::sync::Arc::new(6u16))
        .build();

    let mut kinds = Vec::new();
    for chat in [Some(1), None] {
        let task = match dispatcher.process_update(Ok::<_, String>(event(1, chat))) {
            Action::Send { task: Some(task), .. } => task,
            _ => panic!("a task has to be started"),
        };
        assert_eq!(*task.handler, "h");
        match &task.default_handler {
            dispatching::DefaultHandler::Custom(handler) => assert_eq!(**handler, 5),
            dispatching::DefaultHandler::LogWarning => panic!("default handler lost"),
        }
        match &task.error_handler {
            dispatching::ErrorHandler::Custom(handler) => assert_eq!(**handler, 6),
            dispatching::ErrorHandler::Logging => panic!("error handler lost"),
        }
        kinds.push(task.kind);
    }
    assert_eq!(kinds, vec![WorkerKind::Sequential, WorkerKind::Concurrent]);
}

#[test]
fn handlers_log_by_default() {
    let mut dispatcher =
        Dispatcher::<_, (), (), DefaultKey, ()>::builder(bot(), "handler").build();

    let task: Task = dispatcher.route(Some(1)).1.expect("a task has to be started");
    assert!(matches!(task.default_handler, dispatching::DefaultHandler::LogWarning));
    assert!(matches!(task.error_handler, dispatching::ErrorHandler::Logging));
}

#[test]
fn a_distribution_function_of_ones_own_decides() {
    let rt = runtime();
    let mut dispatcher = Dispatcher::<_, (), (), DefaultKey, ()>::builder(bot(), "handler")
        .distribution_function(|update: &Update| if update.id < 10 { Some(update.id % 2) } else { None })
        .build();

    let one = to_new(&rt, &mut dispatcher, event(1, Some(100)));
    let two = to_new(&rt, &mut dispatcher, event(2, Some(100)));
    let three = to_present(&mut dispatcher, event(3, None));
    let ten = to_new(&rt, &mut dispatcher, event(10, Some(100)));

    assert!(!one.tx.same_channel(&two.tx));
    assert!(one.tx.same_channel(&three.tx));
    assert_eq!(ten.id, concurrent());
}

#[test]
fn workers_are_spawned_anew_after_they_were_taken() {
    let rt = runtime();
    let mut dispatcher =
        Dispatcher::<_, (), (), DefaultKey, ()>::builder(bot(), "handler").build();

    let before = to_new(&rt, &mut dispatcher, event(1, Some(7)));
    assert_eq!(dispatcher.take_workers().len(), 1);
    assert!(dispatcher.take_workers().is_empty());
    let after = to_new(&rt, &mut dispatcher, event(2, Some(7)));

    assert_eq!(after.id, sequential(0));
    assert!(!before.tx.same_channel(&after.tx));
}

#[test]
fn workers_are_those_of_the_keys_of_parsed_updates() {
    let rt = runtime();
    let mut dispatcher =
        Dispatcher::<_, (), (), DefaultKey, ()>::builder(bot(), "handler").build();
    let unparsed =
        |chat| Update { id: 1, chat, kind: UpdateKind::Error(String::from("missing field")) };
    let inputs = vec![
        Err(String::from("timeout")),
        Ok(event(1, Some(1))),
        Ok(unparsed(Some(2))),
        Ok(unparsed(None)),
        Ok(event(2, Some(3))),
        Ok(event(3, Some(1))),
    ];

    let mut spawned = Vec::new();
    for input in inputs {
        let chat = match &input {
            Ok(update) => update.chat,
            Err(_) => None,
        };
        if let Action::Send { worker, task: Some(_), .. } = dispatcher.process_update(input) {
            let id = worker.id;
            spawned.push((chat, id));
            dispatcher.add_handle(id, rt.spawn(async {}));
        }
    }

    assert_eq!(
        spawned,
        vec![(Some(1), sequential(0)), (Some(3), sequential(1))]
    );
    assert_eq!(dispatcher.take_workers().len(), 2);
}

#[test]
fn the_handler_is_kept() {
    let dispatcher = Dispatcher::<_, (), (), DefaultKey, ()>::builder(bot(), "handler").build();
    assert_eq!(*dispatcher.handler(), "handler");
}

#[test]
fn handles_are_those_of_the_workers() {
    let rt = runtime();
    let mut dispatcher =
        Dispatcher::<_, (), (), DefaultKey, ()>::builder(bot(), "handler").build();
    let mut ids = Vec::new();

    for chat in [Some(1), None, Some(2), Some(1), Some(3), None] {
        let delivery = sent(dispatcher.process_update(Ok(event(1, chat))));
        if delivery.task.is_some() {
            let handle = rt.spawn(async {});
            ids.push((chat, handle.id()));
            dispatcher.add_handle(delivery.id, handle);
        }
    }

    let taken: Vec<_> = dispatcher.take_workers().iter().map(|handle| handle.id()).collect();
    let chats: Vec<_> = ids.iter().map(|started| started.0).collect();
    assert_eq!(chats, vec![Some(1), None, Some(2), Some(3)]);
    assert_eq!(taken, vec![ids[0].1, ids[1].1, ids[2].1, ids[3].1]);
    assert!(dispatcher.take_workers().is_empty());
}
