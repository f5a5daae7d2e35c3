# fedimint_guard

Verified core logic of a federation guardian, written in Verus.

`src/` is the verified library:

- `outbound_address`: which destination IP addresses count as public
  Internet addresses (the outbound connection policy), with the network
  prefix check and its laws.
- `p2p_frame`: the 4-byte big-endian length prefix of peer messages and the
  receiver's size limit.
- `wallet_recovery`: the deposit index scan of wallet recovery as a state
  machine, and when a recovery starts.
- `wallet_db`, `meta_db`: database key prefixes and record keys.
- `consensus_backup`: numbering and reading back of consensus backup units.
- `setup_ui`: the access and navigation decisions of the guardian setup UI.
- `meta_cli`: what the meta module's `get-consensus` command shows.

`app/` holds the I/O around it: the iroh policy object, peer connections,
the database-backed backup store, the axum/maud web UI, the clap command
line and the asynchronous wallet recovery driver.

`tests/` runs the library on concrete values.
