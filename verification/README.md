# Percolator Meta

Two Solana programs, with what they decide verified by Verus.

- The **rewards program** runs the genesis of a COIN. Depositors put principal at risk in a Percolator
  market and vote, weighted by how long they have held, on who receives the whole COIN supply. Principal
  can be taken out at any time, at the price of the vote.
- The **governance adapter** is the only way to the rewards program's governed instructions. It checks
  the controller of a COIN and signs with the COIN's authority.

## Layout

`src/` is the verified library. A handler takes the accounts that an instruction names and its data, and
returns either the reason for refusing it or the list of effects to carry out: accounts to create, calls
to make, contents to write. Its contract is one specification function, `..._outcome`.

| Module | Contents |
|--------|----------|
| `rewards`, `governance` | the instructions of the two programs |
| `ledger` | what deposits, ballots and exits do to the records |
| `coin`, `genesis`, `builder` | the records and their layouts |
| `checks`, `effects`, `addresses` | what handlers ask of accounts, what they ask for, derived addresses |
| `percolator_abi`, `squads`, `token`, `system` | the programs that are called |
| `laws` | what holds of the library as a whole |

`laws` states, among others, that the books balance after every operation (`book`), that nobody can
divert principal or dilute the vote (`custody`), that no more is minted than the supply (`supply`), who
may do what and when (`access`), that a loss is shared fairly whatever the order of exits (`haircut`),
that a retraction undoes a vote (`ballots`), that what is minted, deployed, finalized or live stays so over
the whole life of a genesis (`milestones`), and how votes weigh (`weight`).

`app/` connects the library to the Solana runtime; a build with `--cfg governance_adapter` is the adapter,
one without is the rewards program. `tests/` runs both programs against a small runtime
with the real SPL Token program.

## What is trusted

Each call into `solana-program` and `spl-token` goes through one function with a stated contract, in
`addresses`, `token` and `system`. How a program-derived address is searched for is not stated, only that
it depends on the seeds and the program alone.
