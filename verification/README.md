# elegant_departure

Graceful shutdown coordination, verified with Verus.

- `src/` is the verified library:
  - `deplist`: an append-only list and a cursor that also reaches later items.
  - `wake`: a `tokio_util` cancellation token with the record of its cancellation;
    only trusted wrappers make one or write the record.
  - `signal`: a one-shot flag that cancels its token when raised.
  - `registry`: the registry of shutdown guards, the guards, and the waiter's step function.
  - `history`: laws over whole histories of a registry and its waiters.
  - `tokio`: the `Departure` builder of shutdown conditions.
- `app/` is the async runtime glue: the process-wide registry, guards that depart when
  dropped, and the futures that wait, each step directed by the library.
- `tests/` runs the library on concrete values.
