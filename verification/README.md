# token_demo

Two token contracts and a vault, as a Verus library.

- `manual_token`: a token whose storage is addressed by a `DataKey` enum, with
  error codes 1 to 5.
- `demo_token`: the same token with its storage laid out as typed fields.
- `demo_vault`: a vault that takes deposits of one token and pays them back;
  its errors number its own first and then the token's.

Both tokens are specified by the same abstract ledger (`ledger`), the vault by
`vault_ledger`; `laws` holds the properties that span operations (the supply is
the sum of the balances, a transfer back undoes a transfer, a withdrawal undoes
a deposit, the vault stays solvent, error codes round-trip, only an owner or its
approved spender lowers a balance); `history` states what holds over any
sequence of token calls, whatever their results (a call that fails or would
overflow leaves the ledger as it was) (the supply is the sum of the successful mints, an
address never credited holds nothing, an allowance is the last approved amount
less what was spent through it since).

`app/` holds the Soroban contracts that run on the host: they read the entries
a call needs from contract storage, demand the authorizations, call the token
from the vault, hand everything to the model, and write back what changed.
