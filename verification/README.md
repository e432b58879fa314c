# async_steps

The computing parts of a set of small asynchronous and multi-threaded Rust
programs, verified with Verus.

- `src/` — the library: the Fibonacci work the threads run (`fib`), the
  answer of one poll (`step`), the counting futures (`counter`, `queue`),
  the counter shared by two futures (`shared`), the future completed from
  outside (`waking`), the log lines (`logfile`), the delayed request's
  address (`fetch`) and the self-referring value (`pinning`).
- `app/` — the programs themselves, one per subcommand: runtimes, threads,
  locks, files, processes and network requests around the library's steps.
- `tests/` — tests of the library on concrete values.
