# normal_oracle

A price oracle for Soroban, verified with Verus.

`src/` is the verified library:

- `oracle.rs` — the price queries: the newest usable round, the walk back over up to
  twenty records, time-weighted averages, asset lookup and cross prices.
- `math.rs` — powers of ten and fixed-point division rounded toward negative infinity.
- `abi.rs` — the encoding of string messages exchanged with other chains, with its
  round-trip laws.
- `price_table.rs` — recorded prices keyed by asset index and timestamp.
- `contract.rs`, `storage.rs` — the contract's state, its settings with their defaults,
  and the requests it answers (construction, guard-rail settings, privileged addresses,
  emergency mode, cross-chain messages).
- `laws.rs` — properties that relate several operations.

`app/` is the Soroban contract around the library: it loads state from ledger storage,
checks authorization signatures, emits events and makes the gateway and gas-service calls.
