# diamond_vault

A deposit vault for a fungible token, verified with Verus.

Tokens sent to the vault with the action `increase_deposit` go into the active vault:
the depositor becomes its winner, and the size of the deposit sets how long the vault
stays open. A share of each deposit goes to a treasury. When a vault has closed and a
further withdraw period has passed, its winner claims what it holds.

Layout:

- `src/` — the verified library. Every call is a function from the contract state, the
  request and what the chain reports (caller, signer, block time) to the next state and
  the token transfers to make; a refused call returns the reason and leaves the state
  unchanged.
  - `contract.rs`: the state, its mathematical view and its invariant;
  - `deposit.rs`: deposits (`ft_on_transfer`); `claim.rs`: claims (`claim_vault`);
  - `governance.rs`: owner-only settings; `views.rs`: queries;
  - `laws.rs`: properties that relate the operations;
  - `types.rs`, `errors.rs`, `decimal.rs`: records, refusals, base-10 amounts.
- `tests/` — tests of the library on concrete values.
- `app/` — the NEAR contract (`near-sdk`) around the library: storage, environment,
  message parsing, cross-contract token transfers and logs.
