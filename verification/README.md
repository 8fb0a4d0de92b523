# credits

A Soroban contract that takes XLM donations for a carbon-credit initiative,
with its logic verified by Verus.

- `src/` is the verified library. `storage` models the contract's storage
  (one optional entry per `DataKey`; an unset number reads as zero, an unset
  address is refused); `admin` holds the administrator check; `donation` carries a
  donation step by step, from the storage and the host's answers to the
  next action (authorizations, the bucket query, transfers, the swap, the
  event), through the fee shares and the settlement of the carbon into the
  balance and bucket payouts; `contract` prepares swaps; `calls` describes
  what each storage-writing call leaves; `updates` holds the admin-only
  setters; `sink` walks the chain of sink-contract successors;
  `views` holds the constructor and the getters; `events` the events the
  contract publishes; `laws` the properties proved of the whole.
- `app/` is the contract itself: it loads the storage model from the host,
  calls the library, and performs the authorizations, token transfers,
  router and sink calls and event publications the library hands back.
- `tests/` runs the library on concrete values.
