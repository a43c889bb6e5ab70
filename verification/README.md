# stellara

Verified core logic of the Stellara Soroban contracts, written in Verus.

Each contract is modelled as a plain state value (`...Env`) with a view
(`...View`) over Verus maps and sequences; each entry point's contract gives
the result it returns and relates the state it leaves to the state it started
from.
Ledger time, the caller that authorized an invocation, and balances held by
other token contracts are passed in as arguments; the token movements a call
decides are returned for the host to carry out.

Layout:

- `src/common.rs`, `src/store.rs`: addresses, byte helpers, string order and
  a keyed record store with the semantics of contract storage.
- `src/crypto.rs`: SHA-256 and Ed25519 verification, called through `sha2`
  and `ed25519-dalek`.
- One module per contract: `bridge` (cross-chain bridge with validator
  votes), `message_bridge` (multi-signature message bridge), `contract_factory`,
  `disaster_recovery`, `academy` (vesting), `token`, `reward_distributor`,
  `trading`, `governance`, `privacy_trading`, `privacy_token`,
  `yield_farming`, `social_rewards`, `identity`.
- `laws.rs` files and `law_*` proof functions: properties that span several
  entry points.
- `tests/`: scenarios on concrete values.
- `app/`: the host-side calls (deployments, upgrades, token mints, burns and
  transfers) made with `soroban-sdk`.
