# cw-xrpl bridge core

Verified core of a bridge of tokens between a Cosmos chain and the XRP
Ledger. The library holds the bridge's logic on plain values: each handler
takes the state it works on (tokens, the ticket and operation queue, the
bridge's status and configuration) and the facts that only the chain knows
(balances, whether a Cosmos address is valid), and returns the new state and
the messages to send. This crate holds no CosmWasm contract: storage, entry
points and message encoding are left to the code that embeds it.

- `src/amount.rs`: powers of ten, truncation to a sending precision,
  conversion between decimal scales, bridging fees, XRPL amount format.
- `src/currency.rs`: XRPL currency codes and the hexadecimal code of a name.
- `src/token.rs`: bridged tokens and the checks on their parameters.
- `src/address.rs`: XRPL classic addresses (base58 and checksum) and the
  recipients the bridge refuses.
- `src/hash.rs`: SHA-256, hexadecimal and decimal text.
- `src/registration.rs`: token registration and the names derived for tokens.
- `src/transfers.rs`: amounts of transfers in both directions.
- `src/bridge.rs`: halting, key rotation, ticket recovery and threshold,
  instantiation, prohibited recipients, fee updates, authorization, migration.
- `src/relayer.rs`: the relayer set and the evidence threshold.
- `src/evidence.rs`: the checks on reported evidences, how reports are
  counted, and the result a cancellation is handled with.
- `src/actions.rs`: token factory mints, and the messages of an accepted
  payment from XRPL.
- `src/tickets.rs`: ticket allocation.
- `src/operations.rs`: pending operations, their tickets, signatures and
  cancellation.
- `src/outgoing.rs`: transfers to XRPL, with their operations and rate limit
  messages.
- `src/fees.rs`: relayer fee claims and pending refunds.
- `src/query.rs`: pagination.
- `app/lib.rs`: the contract error with its messages (with `thiserror`), and
  amount functions on CosmWasm's `Uint128` that check the library's
  preconditions before they call it.
