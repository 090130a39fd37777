# stellar_trust

Smart contracts of an escrow platform on the Stellar network, with their behaviour stated in
contracts and proved by Verus.

| module         | what it does                                                              |
| -------------- | ------------------------------------------------------------------------- |
| `fees`         | fees that double when a transaction drains the pool                       |
| `subscription` | recurring withdrawals that a client authorizes ahead of time              |
| `crosschain`   | release of an escrow on a proof signed by enough bridge signers           |
| `penalties`    | penalty points of arbitrators and what they cost in reward                |
| `staking`      | stakes, voting power and gas rebates                                      |
| `vault`        | withdrawals that need several signatures and wait out a timelock          |
| `host`         | ledger position, addresses and the effects that a call asks for           |
| `table`        | stored entries                                                            |
| `arith`        | saturating arithmetic on amounts                                          |
| `ed25519`      | signature verification by the ledger host, the one thing taken on trust   |

A contract function takes an environment with the stored entries, returns its answer, and leaves
behind the new entries and an ordered list of effects: authorizations to be checked, tokens to be
moved, entries to be written, lifetimes to be extended, events to be published. The proof functions
named `law_..` at the end of each module state what holds of the contract as a whole.

`app/` puts the contracts on the ledger: it loads the entries, calls the library and performs the
effects. `tests/` runs the library.
