# veNEAR

Locked NEAR that grows into voting power (veNEAR), kept in a Merkle tree so
that votes can be checked against a snapshot of it.

- `src/` is the verified library. `token`, `fraction`, `wide` and `venear`
  hold the amounts and the exact growth arithmetic; `account`,
  `global_state`, `encoding`, `merkle*` the tree of account records, its
  proofs and snapshots; `venear_contract`, `lockup_contract` and `voting` the
  three contracts' state and calls, each call taking the chain's context as a
  `CallContext` and returning the cross-contract calls and transfers to
  perform; `crypto` and `account_id` SHA-256, hex and NEAR account IDs.
- `tests/` runs the library on concrete values.
- `app/` holds what stays outside: event logs and call arguments as JSON.
