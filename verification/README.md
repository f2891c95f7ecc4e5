# compio-compat

Runs a compio runtime inside another async runtime (futures, smol). The
host runtime waits for the compio driver through an adapter, and the
`execute` loop alternates between polling the user's future, running the
runtime's tasks and waiting for the driver.

- `src/` is the verified library: the decisions of that loop
  (`execute.rs`), of the helper threads that block on the driver on Unix and
  on Windows (`poller.rs`), of their shutdown (`shutdown.rs`), the choice of
  the descriptor to wait on and the outcome of a wait raced against a timer
  (`notifier.rs`), and the timeouts handed to the driver waits
  (`timeout.rs`). Each is a state machine, or a function, with an exact
  contract, and the properties of the loops are proved as lemmas.
- `app/` performs the actions that those state machines ask for: it polls
  the future, drives the compio runtime, runs the helper threads and talks
  to the operating system.
