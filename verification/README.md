# potw_pallets

Verified models of two Substrate pallets, written in Verus.

- `src/potw.rs`: the proof-of-tangible-work pallet (scoreboard registration,
  task creation, rewards and conversions); `src/potw_laws.rs` holds what its
  operations guarantee.
- `src/validator_set.rs`: the validator-set pallet (validator additions and
  removals, offline purges, profiles and session hooks);
  `src/validator_set_laws.rs` holds its laws.
- `src/encoding.rs`: task and profile identifiers, BLAKE2b-128 of the SCALE
  encoding of the owner and the payload (through `parity-scale-codec` and
  `sp-crypto-hashing`).
- `src/id_map.rs`, `src/account_list.rs`, `src/origin.rs`: storage maps keyed
  by identifiers, account lists, and dispatch origins.

Storage items are held in plain collections: `Vec` for lists, `HashMap` for
maps keyed by accounts (`u64`, for which vstd specifies `HashMap`), and
`IdMap` for maps keyed by 16-byte identifiers, since vstd's `HashMap`
specification holds only for keys with a known hashing model, such as
integers, and not for byte arrays.

Each pallet keeps its storage in a `Pallet` value whose view (`PalletView`)
the contracts speak of. Calls on the runtime's currencies are returned as
`CurrencyCall` values for the runtime to make.
