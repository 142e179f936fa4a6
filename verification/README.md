# socketfi

Verified core of the SocketFi smart-wallet contracts (Stellar/Soroban):
social payments routed by `(platform, user_id)`, the identity registry and
its validator set, upgrade governance, the wallet factory and wallet
settings.

- `src/` — the library, verified with Verus. Contract state is held in plain
  values (`PaymentBook`, `UpgradeState`, `Validators`, ...); every entry point
  states its result and its effect on the state, and failures leave the state
  unchanged. Hashing and BLS point addition are host calls behind the trusted
  items in `src/host.rs` and `src/bls.rs`.
- `tests/` — tests run against the real host (`soroban-sdk` test utilities),
  including byte-for-byte checks of the XDR the library writes.
- `app/` — host glue: address conversion, authorization, token transfers,
  signature and proof-of-possession checks, registry calls, deployment.
