//! Follows a JSON-RPC ledger endpoint block by block: the wire types of the
//! calls, and the cursor state machine that decides what to fetch next.

pub mod rpc;
pub mod harvest;
pub mod laws;
