# nebula

The logic of the Nebula programs, verified with Verus: the shield around the swaps of a
concentrated-liquidity pool, perpetual markets with their circuit breaker, the standalone shield
program, position NFTs, and perpetual positions under a commitment.

Every instruction is a function from the plain contents of its accounts to their next contents, and
to what has to be done on chain: move tokens, publish an event, answer a question about a price.

- `src/` is the library. `amm` holds the pool program, `shield` the standalone shield, `nft` the
  position NFTs and `drift` the committed positions. `arith`, `pricing`, `commitment` and `keys` are
  shared. What holds across instructions is stated in `amm/laws.rs`, `amm/perp_laws.rs`, and at the
  end of the modules that it concerns.
- `tests/` runs the library on concrete values.
- `app/` binds the library to the chain with Anchor. The core of the pool (price arithmetic, the
  walk along the ticks, transfer fees) comes in through the trait `amm::host::PoolCore`, and the
  markets of the perpetuals program through `drift::Markets`. A swap there is a loop over the
  questions of `amm/instructions/swap_steps.rs`.

Two functions of the Solana runtime are trusted rather than proved: the SHA-256 digest, and the
derivation of program addresses. Both stand in `src/keys.rs`.
