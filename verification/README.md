# xvault

The rules of the xVault programs on Solana, verified with Verus.

- `src/oracle.rs`: NAV snapshots that keepers push (price and multiplier per asset).
- `src/rewards/`: staking of VLT, epochs, and claims against a Merkle root.
- `src/vault/`: the index vault. Deposits and withdrawals at the NAV, rebalances, fees and pauses.
- `src/laws/`: what holds across these functions, as proofs.
- `app/`: the Anchor programs that load accounts, call the library and move tokens.

Each request is a plain function: it takes the accounts by value or by `&mut`, the signer and the
clock as a small struct, and returns an error or what has to be minted, burnt or sent. Its contract
names every refusal and says that a refused request changes nothing.

The library calls `sha2` for digests, and Anchor for reading token accounts, mints and the
instructions sysvar. What is assumed of these calls is written above each of them.
