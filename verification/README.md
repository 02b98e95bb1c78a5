# spoke_lending

The logic of a Solana spoke in a hub-and-spoke cross-chain lending protocol,
verified with Verus.

- `src/` is the verified library: account state and its risk arithmetic
  (`state/`), the wire format of the messages exchanged with the hub
  (`wormhole/`), the decision logic of every instruction (`instructions/`),
  error codes and events, and the laws that span instructions (`laws.rs`).
  Every instruction takes the accounts' contents as plain values, checks
  them in the program's order, and either refuses with an error and changes
  nothing, or returns the new contents and the event to emit.
- `app/` is the Anchor program around it: account validation (seeds, bumps,
  signers, account creation), the clock, token transfers and event
  emission.
- `tests/` runs the library on concrete values, and checks the message
  encoding against borsh.
