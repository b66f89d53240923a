# rusnel

Lifecycle control for an embedded Rusnel client: a handle that starts a client session, stops it
within five seconds or aborts it, and tells subscribers of each change of state.

The library under `src/` is verified with Verus. `RusnelHandle` there is owned by one party at a
time: each operation takes `&mut self`, and its contract gives the state, the events and the task
after it. `app/` puts that handle behind a lock, so that its clones and the running session share
it, and does what has to be awaited: the client future, and the wait for it to exit.

- `client::lifecycle`: states, exit reasons, events, and the transition between states
- `client::session`: how a session ended, and the exit reason that stands for it
- `client::handle`: the handle
- `client::task`, `client::channel`, `client::crypto`: the parts that come from `tokio` and `rustls`
- `client::error`: the error of a refused start
- `client::laws`: what holds over whole runs of operations
