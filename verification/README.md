# pallet-kitties

A kitty-trading pallet as a verified library. Accounts create kitties (staking
part of their balance), set a price on them, give them away, buy them and
breed them. Each kitty has a 16-byte DNA and a gender, drawn from the
runtime's randomness, and an account owns at most three kitties.

- `src/types.rs`: kitties, genders, errors, events, origins and the pallet's constants.
- `src/model.rs`: the mathematical model of storage and of every call, and the storage invariant.
- `src/pallet.rs`: the storage (`Pallet`) and its calls, each proved against the model.
- `src/laws.rs`: properties of the calls, proved over the model.
- `src/owned.rs`: the bounded list of an account's kitties (`sp_core::bounded::BoundedVec`).
- `src/dna.rs`: DNA from a random seed (SCALE encoding, Blake2-128) and DNA mixing.
- `src/config.rs`: what the hosting runtime supplies, and `run_to_block`.
- `src/genesis.rs`: kitties a chain starts with.
- `app/lib.rs`: the types with their SCALE and serde encodings.
