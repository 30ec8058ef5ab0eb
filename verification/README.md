# solana-perps-flywheel

A perpetual-futures program for Solana whose trading logic is verified with Verus.

- `src/` is the verified library: the account state (`state`), error codes
  (`errors`), events (`events`), the oracle read (`oracle`), the mark price
  (`math`), and one module per instruction under `instructions/`
  (administration, market creation, funding settlement, opening and closing
  positions, liquidation, creator-reward sweeps). `numeric` states Rust's
  truncating signed division and wrapping `as` conversions over mathematical
  integers; `laws` proves properties that relate the operations.
  Every arithmetic step is proved free of overflow on the inputs that each
  function's `requires` admits; for each instruction a `*_computable`
  function decides exactly those inputs.
- `app/` is the Anchor program around it: account validation, the clock,
  SPL token transfers and events. It hands the library plain values and
  performs the transfers and state writes that the library returns.
- `tests/` exercise the library on concrete values.
