# safe_wallet

A verified policy engine for a smart-contract wallet on Stellar's Soroban
platform: a daily spending cap over a 24-hour window, a deduplicated recipient
whitelist of at most 50 addresses, an emergency freeze held by a recovery key
that can never spend, and rotation of that key with the owner's and the
current key's signatures.

- `src/account.rs` — addresses as the bytes of their strkey encoding.
- `src/wallet.rs` — the wallet's storage (`SafeWallet`), its mathematical
  model (`WalletModel`), one specification per entry point, and the verified
  entry points. Each takes the addresses that signed the call and refuses
  with `Unauthorized` when a signature it needs is missing. Each returns an
  `Invocation`: the signatures the call checked, in order; the refusal or the new state; the storage keys written; whether the
  storage lifetime is extended; and, for a transfer, the token payment.
- `src/laws.rs` — properties across calls, proved over the specifications.
- `app/lib.rs` — the Soroban contract: it loads storage, learns from a trial
  run of the engine which signatures the call checks and requires them of the
  host, runs the engine with those signers, writes the keys and calls the
  token contract. Soroban's `require_auth` aborts the call when a signature is
  missing and offers no check that does not, so on chain an unsigned call
  aborts rather than return `Unauthorized`.

The whitelist is a `Vec<Account>` in the engine: Soroban's own `Vec<Address>`
lives in the host, needs an `Env` for every operation and can hold only host
values, so it stays at the storage edge in `app/`, which converts both ways.

The tests in `tests/` run the engine on concrete scenarios.
