# seitizen_staking

An NFT staking contract for CosmWasm chains, whose decisions are proved correct against a formal model.

Holders send NFTs of one configured cw721 collection to the contract, which
records them per holder and counts them. A holder asks for a token back; with a
lock time the first request only starts the clock. The owner changes the
settings and may withdraw any token.

- `src/` is the verified library. `contract.rs` holds the entry points and the
  model they are proved against (what each request does to the state and what
  it answers); `laws.rs` proves properties that span requests; `state.rs`,
  `strmap.rs`, `msg.rs`, `response.rs`, `error.rs` and `util.rs` hold the data
  and the helpers.
- `app/` holds the CosmWasm entry points: they read what a request needs from
  the chain's storage, validate addresses and decode hook messages through the
  chain, call the library, and write back what changed.
- `tests/` runs the library on concrete requests.
