# async_deferred

Fire-and-forget asynchronous computations on the tokio runtime, with the result
collected later.

- `src/` is the verified library (Verus): the task lifecycle (`State`), the
  `Deferred` handle and how its state is read from what the runtime reports
  (`deferred.rs`), what a failed join records (`join.rs`), the tokio and `Arc`
  items it relies on and what is assumed of each (`runtime.rs`), and the
  properties proved of the lifecycle (`laws.rs`).
- `app/` spawns the task future and awaits task handles: `start`, `begin`,
  `join` and `state_async`, as the `DeferredTasks` trait on `Deferred`.
- `tests/` exercises both the pure state functions and real tasks on a tokio
  runtime.
