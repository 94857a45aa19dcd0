# hive_kernel

The kernel of an autonomous agent-subcontracting swarm, verified with Verus:
a delegator locks a bounty in escrow, workers bid in a reverse auction, the
winner audits a smart contract and signs a receipt bound to the exact input
and output, a validator re-runs the deterministic audit, and the escrow
either settles (paying the worker) or slashes (refunding the delegator).

## Layout

- `src/` — the verified library.
  - `auditor` — the static security and gas analysis, specified as a fold of
    per-line rules over the source's lines.
  - `receipt` — Ed25519 key pairs and receipts bound by SHA-256 digests.
  - `registry` — agent identities and reputations.
  - `settlement` — the balance ledger.
  - `auction` — bid construction and best-bid selection.
  - `escrow` — the optimistic escrow life cycle, bounty locking and release.
  - `validation` — the validator's verdict on a receipt and fraud proofs.
  - `keystore` — sealing key pairs under a passphrase and opening them.
  - `http` — request-head parsing, routing and response framing for the
    dashboard server.
  - `text` — character-sequence models of the string operations used above.
  - `primitives` — the trusted wrappers around hashing, hex, Ed25519, UUIDs,
    the clock, randomness, PBKDF2, AES-GCM and JSON string quoting.
  - `error`, `types`, `agent` — shared types.
- `tests/` — tests run against the compiled library.
- `app/` — the `hive-cli` program: the swarm simulation, a live TCP swarm,
  the web dashboard, key files and the wire protocol (serde, tokio, clap).

Each public operation states its result in `ensures` over spec functions;
the laws that relate several operations are public proof functions named
`lemma_*` in the module they concern.
