# taiko-revm

Taiko's rules on top of revm, with the logic verified by Verus.

- `src/` — the verified library:
  - `spec`: Taiko hard forks, their order, their names, and the Ethereum fork they run;
  - `l1sload`: the L1SLOAD precompile and the cache of L1 storage values it reads;
  - `handler`: the caller's balance check before execution, and after execution
    the reimbursement decision and the base fee shares of treasury and beneficiary;
  - `transaction`: the Taiko transaction fields and its validation error;
  - `u256`: 256-bit words, whose arithmetic is `ruint`'s.
- `app/` — the glue to revm: handler and precompile provider trait impls, the
  process-wide L1SLOAD cache, KZG settings, and copies of the library's types
  that carry revm's and serde's traits.
- `tests/` — tests of the library.
