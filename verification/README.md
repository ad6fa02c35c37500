# ctrlc2

Ctrl-C handling, split into a proved decision core and a thin layer that
performs the operating-system work. The core also covers handling SIGTERM
and SIGHUP; the embedding layer handles Ctrl-C alone.

- `src/` is the library, with proved contracts. It holds the process-wide
  registration rules (`registry`), the loop of the signal-handling thread
  (`watcher`), the steps of a poll of the Ctrl-C future and of its completion
  (`async_ctrlc`), every interleaving of those steps (`interleaving`), and
  per-platform installation and wait decisions (`platform::unix`,
  `platform::windows`). Each is a state machine whose step has an exact
  contract, together with proved laws over whole runs: a handler is
  registered at most once, a failed installation restores exactly the signal
  dispositions it replaced, the user's handler runs once per signal and the
  watcher stops exactly when it returns `true`, no interleaving of a poll with the
  handler loses a wake-up, and once ready the future stays ready.
- `app/` performs what the decisions ask for: `sigaction`, the self-pipe,
  the console control handler, the watcher thread, and the `Future` impl.
- `tests/` exercises every decision on concrete values.
