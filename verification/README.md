# stacks_core

Two verified parts of a Stacks signer and its contract language.

- `signer_state` is the signer's state machine: which burn block it has seen, and who
  should be mining on top of what. A call on it (`arrival`, `inactivity`, and the checks
  that these are made of: `timeout`, `tenure`, `miner`) asks one `Request` at a time and
  goes on with the `Reply`, so that every decision is a verified function of what the
  outside answered. `update` is how the other signers are told of a view. `laws` and
  `histories` hold what is proved of calls as a whole.
- `representations` holds the symbolic expressions of contract code.

`app/` connects the state machine to a node, a database, the clock and the message board
of the signers, and holds the forms in which states and expressions are stored.
