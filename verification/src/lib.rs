//! The chain-following logic of a Cardano data node, with its contracts
//! proved by Verus: chain points and their text and byte forms, the rules
//! for crawling and intersecting a write-ahead log, the protocol parameter
//! version ladder from Byron to Dijkstra, the reading of governance
//! proposals into parameter sets, the protocol parameters a local state
//! query replies with, a ledger state store and the import of blocks into
//! it, the decisions of a chain event stream, and an epoch and its protocol
//! parameters as a REST service renders them.

pub mod point;
pub mod seqs;
pub mod bytes;
pub mod text;
pub mod point_text;
pub mod wal;
pub mod cost_models;
pub mod pparams;
pub mod genesis;
pub mod forks;
pub mod ledger;
pub mod proposals;
pub mod query_params;
pub mod dijkstra;
pub mod relay;
pub mod slice;
pub mod stream;
pub mod governance;
pub mod epoch_params;
