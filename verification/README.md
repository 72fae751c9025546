# wallet713_api

The owner and foreign APIs of a Grin wallet, written in Verus.

The APIs drive a wallet backend (`WalletBackend`): the wallet's storage and
keychain, its transaction building, and its node client. Users implement the
backend. The backend keeps a log of the calls made to it (`call_log`, ghost
state): the only thing each of its methods promises is that it adds itself to
that log, with its arguments and the answer it gives. An implementation keeps
the log beside its real work; that promise is trusted for implementations
that are not verified.

The contracts in `calls.rs` state, for every API operation, exactly which
calls it adds to the backend's log, with which arguments, and what it answers
for every combination of the backend's answers. A backend reports a failure
as a message, which the APIs pass on as `Error::Backend`; every other error is
one the APIs decide themselves, and their contracts say when.

Layout of `src/`:

- `types.rs`: the plain values exchanged (slates, transactions, log entries,
  outputs, contexts, payment proofs, errors). Commitments and public keys are
  their 33-byte serialized forms; slate ids are the 128-bit values of UUIDs.
- `text.rs`: the text forms of slate ids (`uuid`) and of serialized
  transactions (`grin_util`'s hex encoding), with their exact specifications.
- `pedersen.rs`: Pedersen commitments and public keys computed by secp256k1-zkp
  (re-exported by `grin_util`), each result named by an uninterpreted function.
- `rules.rs`: the decisions on plain values: refusing a slate already received,
  the last transaction id, the fallback node height, the single slate of a
  proof lookup, recording commitments in a context and filling a proof from
  it, and combining the node's answers.
- `payment_proof.rs`: checking a payment proof against the slate it carries.
- `backend.rs`: the backend trait and its call log.
- `calls.rs`: what each operation hands to the backend and makes of its answers.
- `owner.rs`, `foreign.rs`: the two APIs.
- `laws.rs`: properties that span operations, proved.

`app/` reads grin's own `Transaction` into the API's values and posts one in
grin's binary serialization.
