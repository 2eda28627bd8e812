# solana_experiments

Verified models of several small Solana programs: two counters, a counter
written with a framework, a calculator, a favourites record, a lamport vault
and a voting program.

- `src/` is the library, verified with Verus. Each program is a set of pure
  decisions over plain values (account flags and addresses, account data as
  bytes, instruction data), with contracts that give the answer and the
  account data afterwards for every input. `src/codec.rs` states the byte
  layout the programs use for accounts and instructions, with the lemmas that
  every layout reads back what was written and nothing else.
- `app/` is the runtime side of each program: turning the runtime's accounts
  into plain values, reading sysvars, invoking the system program, writing
  account data back and logging. The vault's derived-address lookups are
  made in `src/`, through one trusted call into pinocchio.
- `tests/` runs the library on the scenarios of the programs' own tests and
  checks the byte layouts against `borsh`.
