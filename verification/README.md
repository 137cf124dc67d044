# cargo-llvm-cov

A wrapper for source based code coverage (`-Zinstrument-coverage`). It runs the tests of a
workspace with coverage instrumentation and reports what they reach, with `llvm-cov`.

The library in `src/` decides: which programs run, with which arguments and environment, in
which order, and what their output means. Its contracts are proved with Verus. It does no input
or output itself:

- `setup` finds out what has to be known before the tests run, one request at a time; `system`
  gives the outcome for a system of which everything is already known.
- `session` is the run itself: tasks to do, and questions whose answers lead to the next tasks.
- `context`, `plan`, `report`, `toolchain` and `objects` make the commands and read their output.
- `laws`, `setup_laws` and `session_laws` state what holds across functions and across whole runs.

The program in `app/` reads the command line, answers the requests and performs the tasks.
