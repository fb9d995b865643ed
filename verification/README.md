# direct_sales

A verified core for a small Solana token marketplace, written in Verus.

* `src/direct_sales.rs` — the direct-sales desk: the inventory of a listed
  mint (price per token, tokens held) and its four instructions (deposit,
  price update, withdrawal, purchase) as step functions: after a given number
  of transfers has gone through, each says which transfer comes next, or the
  inventory to store, or the error. The proof functions there state what the
  instructions keep (the inventory count follows the vault) and how they
  combine.
* `src/creator.rs` — the creator of a mint, read from its token-metadata
  account.
* `src/order_book.rs` — asks keyed by seller, and the steps of placing an ask
  and of taking escrowed tokens back.
* `src/bids.rs` — the bid list and the steps of placing a bid.
* `src/transfer.rs`, `src/address.rs` — the transfers the instructions ask
  for, and account addresses.
* `app/` — the Anchor programs: account layouts, instruction handlers that
  perform the transfers the library asks for and store what it commits.
