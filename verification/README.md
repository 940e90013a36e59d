# lpusd_auction

The accounting of an lpUSD auction pool on Solana, verified with Verus.

- `src/state.rs`: the accounts (auction state, user state, bumps) and the error codes, as plain values.
- `src/share.rs`: the share arithmetic (`deposit_share`, `withdrawable`, `withdraw_share`) and its lemmas.
- `src/auction.rs`: the instructions `initialize`, `init_user_account`, `deposit_lpusd`,
  `withdraw_lpusd` and `liquidate`, each over a plain-value view of its accounts, with exact
  contracts; `deposit_in_range` and `withdraw_in_range` test the arithmetic bounds.
- `src/laws.rs`: properties across instructions (deposit/withdraw round trip, the pool total,
  share accounting at the full percentage, settings that no instruction changes).
- `app/`: the Anchor program: account validation, token transfers and the call into the lending
  protocol; it converts accounts to and from the library's values.
- `tests/`: tests of the library on concrete values.
