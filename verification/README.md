# tuktuk_counter

A whitelist-gated token vault on Solana, with rewards distributed at once by
a task queued on the tuktuk scheduler and then on a cron schedule by a tuktuk
cron job, and a counter whose increments can be queued the same way.

- `src/` is the verified library. Each instruction of the program is a
  function from the plain contents of its accounts to their new contents and
  to the token-program or scheduler calls it asks for, with a contract.
  - `state.rs`: the vault, whitelist records and the counter; the vault's user
    list never holds a user twice and fits in the vault account.
  - `instructions/`: one module per instruction, with the checks made on its
    accounts (`validate`) and its handler.
  - `tuktuk_counter.rs`: the instructions as the program exposes them, each
    running its checks and then its handler.
  - `extra_account_meta.rs`, `scheduler.rs`: the byte layout of the transfer
    hook's extra accounts and the scheduler's transaction form, each resting
    on one call into `spl-tlv-account-resolution` or `tuktuk-program`.
  - `laws.rs`: properties that span several instructions.
- `app/` is the Anchor program around the library: account loading and
  address derivation, the clock, and the calls into the token program and the
  scheduler.
- `tests/` runs the library on concrete accounts.
