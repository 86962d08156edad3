# subscription_vault

A vault of prepaid subscriptions, written and proved in Verus.

Subscribers fund subscriptions in advance, merchants are paid by interval charges and one-off charges,
and an admin looks after settings, exports and recoveries.

- `src/` is the verified library. `vault` holds the state and its model, `lifecycle`, `billing`,
  `funds`, `admin`, `metadata` and `queries` hold the operations with their contracts. `requests` puts
  all operations behind one entry point; `laws` and `ledger` state what holds whatever is asked of the
  vault. `policy`, `roles`, `harness` and `wording` state and prove the
  authorization matrix, down to the texts of the replies. `host` is the
  boundary to lists that live in the host environment.
- `tests/` runs the library on concrete values.
- `app/` connects the library to accounts, tokens, time and signatures of a Soroban host.
