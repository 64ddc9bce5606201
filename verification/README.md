# cp_swap

Verified logic of two constant-product pool programs for Solana.

- `src/` is the library, verified with Verus:
  - `math.rs`: ceiling division and the facts about it.
  - `transfer_fee.rs`: token-2022 transfer-fee terms and what they do to an
    amount.
  - `token_mint.rs`: addresses, mint accounts, their extensions and fee terms.
  - `cp_swap/`: the config, curve, swap, pool-creation and withdrawal logic of
    the first program.
  - `cp_swapp/`: the deposit, pool-creation and swap logic of the second
    program, whose fee rate is in parts per million.
- `app/` holds the Anchor account structs and the handlers that read the
  accounts, call the library and make the token transfers.
- `tests/` runs the library on concrete pools.
