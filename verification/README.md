# tauri_fuzz

Security policies for fuzzing Tauri applications, with their evaluation proved in Verus.

A policy is a list of function policies. Each names a monitored function and a rule: a
condition on the parameters checked when the function is entered, on the return value
checked when it returns, or both, with a value stored at entry and used at exit. A rule that
needs a value from the memory of the fuzzed process (a file name, the status of a child
process) says which one; the runtime reads it and hands it to the evaluation.

- `src/` is the verified library:
  - `engine`: rules, contexts and their evaluation;
  - `policies`: the policies on file access, process creation and child exit status;
  - `listener`: what the runtime decides on a monitored call, and how a policy's function is
    found among the loaded modules and symbols;
  - `laws`: properties that span several evaluations;
  - `cli` (with `cli::init`: the crate name, the template data and the files rendered from
    the templates), `fuzzer_options`, `random_bytes`, `regs`, `tauri_utils`, `text`: the command-line
    tool's decisions, the fuzzer configuration, values built from random bytes, registers,
    Tauri command arguments and text helpers.
- `app/` is the `cargo-tauri-fuzz` program and the unverified glue. The fuzzing loop, the
  Frida instrumentation runtime and the Tauri invoke helpers are not here: they are built on
  LibAFL, Frida and Tauri (the first two through forks of the fuzzing framework), which this
  crate does not depend on. Rules are data: a condition is one of a closed set, and a new
  kind of condition is a new variant with its verdict in `engine`. `app/` handles the file
  system, process memory reads, logging and the command line.
- `tests/` runs the library on concrete values.
