# pallet_supersig

A verified model of the supersig pallet: multi-signature organisations
("supersigs") with a member list and a threshold, each represented on chain by
an account derived from its storage index, to which members submit calls with
a deposit reserved per byte.

- `src/account.rs`: the 32-byte account, the sub-account layout
  (`b"modl" ++ pallet id ++ index (16 bytes LE) ++ 0000`), the calls into
  `frame_support::PalletId` that derive and read back such accounts, and the
  byte-level lemmas.
- `src/types.rs`: stored values, events, errors, the per-byte deposit.
- `src/pallet.rs`: storage, its invariant, and the extrinsics. Each extrinsic
  runs in two steps: the first decides and returns the transfer or reservation
  it asks of the runtime's currency; the second takes the currency's answer and
  updates storage.
- `src/laws.rs`: properties that span operations.
- `app/lib.rs`: glue to a FRAME runtime (origins, performing the requested
  transfers and reservations, SCALE-encoding of runtime calls).
