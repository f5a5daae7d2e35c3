//! Verified core logic of a federation guardian: the outbound address
//! policy, peer message framing, wallet recovery scanning, database key
//! layouts, consensus backup bookkeeping and guardian UI access decisions.
pub mod outbound_address;
pub mod p2p_frame;
pub mod wallet_recovery;
pub mod wallet_db;
pub mod meta_db;
pub mod consensus_backup;
pub mod setup_ui;
pub mod meta_cli;
