# moonglass

Deposit processing for a beacon chain, and the fork-choice handler that files
delivered execution payloads, verified with Verus.

- `src/state_transition/operations/deposits.rs`: the registries of validators
  and builders, deposits with their signatures and inclusion proofs. The rules
  stand as functions on `BeaconStateView`; each method of `BeaconState` says
  which of them it carries out.
- `src/state_transition/operations/*_laws.rs`: what holds of these rules as a
  whole.
- `src/state_transition/signing.rs`: domains, signing roots, signatures.
- `src/hashing.rs`: SHA-256 and hash tree roots.
- `src/fork_choice/`: the store, the handler for payload envelopes, and the laws
  of their delivery.

Four functions are taken on trust. They call `sha2`, `ssz_rs` and `blst`, and
the comment above each says what is believed of the call: `sha256_digest`,
`byte_vector_root`, `u64_root` and `bls_verify`.

`blst` is there for `verify_signature` alone. Deposits prove possession of a key
by a BLS signature; the library binds that signature to the right message and
implements nothing of the curve itself. The envelope's check against the state
of its block is not part of the library: the handler takes it as an argument.
