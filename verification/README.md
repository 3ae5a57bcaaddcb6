# marginfi lending-pool group instructions, verified core

`src/` is a Verus library holding the computations of the lending-pool group
instructions:

- `fixed_point` — `I80F48` amounts held by their bits (`WrappedI80F48`) and the
  calls into the `fixed` crate that compute on them.
- `collect_fees` — how a bank's outstanding insurance and group fees are paid
  out of its liquidity vault (`lending_pool_collect_fees`), and the law that a
  second collection right after the first moves nothing.
- `bankruptcy` — handling a bankrupt account's bad debt in a bank
  (`lending_pool_handle_bankruptcy`): finding its balance, pricing it, and
  splitting the debt between the insurance fund and the depositors
  (`settle_bad_debt`).
- `pubkey`, `error` — account addresses and the errors the instructions return.

`app/` is the Anchor side: it reads the vaults' token balances, calls the
library and performs the SPL token transfers. `tests/` runs the library on
concrete values.
