# kontena

A daemon that keeps a container runtime VM configured and running: it creates
and starts a podman machine and watches it, or starts colima in the
foreground. launchd restarts it when it exits.

The library (`src/`) is written in Verus and verified:

- `util::text` — decimal writing of numbers (proved to parse back), string
  comparison, trimming, and the std parsing, decoding and quoting that the
  rest relies on.
- `util` — what the value of an environment variable gives: a text with a
  default, a flag, or a parsed number or boolean with its error.
- `util::validate` — range and list checks with their error messages.
- `util::process` — the `CommandRunner` trait through which every command
  runs, the requests, replies and steps of a command sequence, and how a
  process's exit and output become the result of capturing its output.
- `util::backoff` — the counting of attempts of an exponential backoff.
- `error` — the errors and the exact messages they print.
- `colima::start` — configuration, checks and the command that starts colima.
- `podman::machine`, `podman::init`, `podman::start` — making sure a machine
  exists, initialising it, starting it, and watching it until it stops.

Each sequence of commands (initialising; starting and then watching the
machine until it stops; exec'ing colima) is a
step function: given where the sequence stands and what the last command
reported, it says exactly which command runs next, or how the sequence ends.
Whoever runs the sequence carries out each command with a `CommandRunner`
(`util::process::perform`) and hands the reply back; the tests do so with a
mock runner.

`app/` is the program: command line, environment variables, real
subprocesses, logging, the loop that runs each sequence, the pause before
each query of the watched machine with its growing interval, and the delays of
the exponential backoff (both computed in floating point).
