# pool_manager

A staking pool program for Solana, with its rules proved in Verus.

* `src/` is the library. For each request it has a type that holds what the request
  sees of its accounts, a spec function `outcome` that says whether they are accepted,
  and a function that decides on the request and returns the calls into other programs
  to make. `src/queue.rs` is the ring of reward events, `src/address.rs` derives the
  addresses that the program signs for, `src/calls.rs` decides which call comes next and
  which records are stored, and `src/laws.rs` states what holds across requests.
* `app/` is the on-chain program: it loads and stores accounts, and makes the calls.
* `tests/` runs the library on concrete values.
