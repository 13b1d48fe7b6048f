# dispatching

Update dispatching for chat bots, verified with Verus.

A dispatcher takes updates from a listener and hands each to a worker: updates of
one chat to one worker, which consumes them one after another, updates without a
chat to a worker that consumes them concurrently. The library in `src/` holds every
decision of that, as functions with contracts; `app/` runs them on `tokio`.

- `types`: bots, updates, and the distribution by chat.
- `dependencies`: what a handler can ask for, in a `dptree` container.
- `queue`: the bounded `tokio` channels between a dispatcher and its workers.
- `worker`: what a worker is started with, and making one.
- `dispatcher`: the builder, the dispatcher, and which worker gets an update.
- `listening`: a round of dispatching, step by step, from the first update to the
  last worker.
- `handling`: what a handler is given, and what follows from what it returned.
- `shutdown`: the state that a dispatcher shares with its shutdown tokens.
- `laws`: what holds of all of them together.

The library trusts what its doc comments say of `dptree::di::DependencyMap` and of
`tokio::sync::mpsc::channel`.
