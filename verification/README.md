# soroban_cost_lints

Lints for Soroban contracts that flag structural patterns with a needless cost: storage and
host calls in loops, clones of the environment handle, symbols built at run time from short
literals.

- `src/` is the verified library: the lints themselves. A lint looks at an expression tree and
  at the facts that it has been told, and asks, reports, or stays quiet. `src/laws.rs` states
  what holds of the lints as a whole.
- `app/` is the Dylint library around it, for a nightly compiler with the `rustc-dev`
  component. It lowers the compiler's trees, answers the lints' questions and emits their
  findings.
- `tests/` runs the library on concrete trees.
