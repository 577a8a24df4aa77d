# sps

The kernel and cognitive layers of SPS, a system that records everything it
does as a hash-chained log of events, written in Verus.

- `src/kernel_core`: events, their ids, logical times and SHA-256 hashes; the
  kernel state and its reducer; replay validation, the kernel invariants, the
  constitutional audit and the verification suite; `log_laws.rs` proves that
  logs built by `Event::new_after` replay to their live state and pass every
  check, provided no event hash is all zeros (a zero hash is what an empty
  state holds, so the invariant checks would flag it).
- `src/canonical_state`: the whole state (world, memory, cognition, goals,
  plans, executions, reflections, evolution) and the reducer over it.
  Confidences and weights are kept as the bit patterns of IEEE-754 doubles.
- `src/abductive`, `src/inductive`, `src/causal`: ranking, filtering and
  generating explanations, generalizing and detecting patterns, causal lookups.
- `src/goal_system`, `src/governance`, `src/autonomy`, `src/execution`:
  goals and their allocation, values, authorities and policies, and the events
  that record autonomous work.
- `src/context_engine`: a bounded conversation window that resolves references.
- `src/cli`: a command-line session as a state machine: `execute` takes a
  command and says what to print and whether to go on.
- The library has no memory manager, world graph, causal graph, software
  factory, runtime manager, reflector, dialogue engine or language-model
  client, so the commands that need them (memory, world relations and checks,
  causal links, the factory, runtime, reflection, chat and model commands) are
  not offered, nor are the governance and self-awareness steps that would
  follow each command.
- `app/`: the terminal loop, the SQLite file the session is saved to, and the
  floating-point scores and confidences.

