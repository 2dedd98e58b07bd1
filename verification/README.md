# atm

A small bank and its ATM: owners, accounts with Argon2 password hashes,
transactions between accounts, balances per currency, the decisions of an
administration web site, and the ATM's own encrypted account store.

- `src/` is the library, written in Verus and verified: every public
  function states what it returns. Calls into outside crates (`steel-cent`,
  `rust-argon2`, `rand`, `uuid`, `chrono`, `base64`, `rust-crypto`,
  `bincode`) go
  through small trusted functions whose contracts say what the crates do.
  - `currency`: currencies, amounts of money and their rendering.
  - `transaction`: stored transaction rows, their decoding, and how much a
    transaction changes an account's balance.
  - `account`: owners, accounts, opening an account with its password, and
    balances as the per-currency sums of an account's changes.
  - `web`: who may see the administration pages, posted transaction forms,
    and what an account page shows.
  - `machine`: the ATM's transactions, its accounts stored encrypted under
    their owner's password, and its terminal keys.
- `app/` is the program around it: the Postgres database (Diesel), the
  administration web site (Rocket) and a command-line run.
- `tests/` runs the library on concrete values.
