# photon_types

Shared types of the Photon sidechain node, verified with Verus.

- `src/error.rs`: the error types, each with its message as a contract.
- `src/types.rs`: block hashes, transaction ids, outpoints and addresses as
  plain bytes.
- `src/text.rs`: decimal text of integers, as the messages write them.
- `src/util/serialize.rs`, `src/util/deserialize.rs`: the Borsh encodings of
  block hashes, outpoints and Utreexo roots, with the proof that an outpoint
  reads back as it was written.
- `src/util/hexstr_human_readable.rs`: hex text for human-readable formats,
  with the proof that what is written reads back as the same bytes.
- `app/`: `Display` and `std::error::Error` for the errors, conversions from
  the `bitcoin` crate's values, and the Borsh and serde adapters over generic
  readers, writers and (de)serializers.
