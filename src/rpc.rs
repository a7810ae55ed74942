//! JSON-RPC 2.0 wire values as the follower sees them.

use vstd::prelude::*;

verus! {

/// Remote error code: the block at the requested slot is not produced yet.
pub const BLOCK_NOT_AVAILABLE: i64 = -32004;

/// Remote error code: the slot was skipped and will never hold a block.
pub const BLOCK_SKIPPED: i64 = -32007;

/// A remote error object: `{"code": .., "message": ..}`.
#[derive(Debug, PartialEq)]
pub struct JsonRpcError {
    pub code: i64,
    pub message: String,
}

/// A decoded response. Exactly one of `result` and `error` is expected;
/// when both are present the error wins.
#[derive(Debug, PartialEq)]
pub struct JsonRpcResponse<T> {
    pub jsonrpc: String,
    pub id: u64,
    pub result: Option<T>,
    pub error: Option<JsonRpcError>,
}

/// Request id of the frontier call.
pub const SLOT_REQUEST_ID: u64 = 1;

/// Request id of every block call.
pub const BLOCK_REQUEST_ID: u64 = 2;

/// The fixed options of every block call: JSON encoding, full transaction
/// details, no rewards, and transaction versions up to 0.
#[derive(Debug, PartialEq)]
pub struct BlockConfig {
    pub encoding: String,
    pub max_supported_transaction_version: u8,
    pub transaction_details: String,
    pub rewards: bool,
}

/// The positional parameters of a call.
#[derive(Debug, PartialEq)]
pub enum Params {
    /// `[]`
    Empty,
    /// `[slot, config]`
    Block { slot: u64, config: BlockConfig },
}

/// An outgoing call: `{"jsonrpc": "2.0", "id": .., "method": .., "params": [..]}`.
#[derive(Debug, PartialEq)]
pub struct JsonRpcRequest {
    pub jsonrpc: String,
    pub id: u64,
    pub method: String,
    pub params: Params,
}

impl BlockConfig {
    /// The options that every block call carries.
    pub open spec fn is_fetch_config(&self) -> bool {
        &&& self.encoding@ == "json"@
        &&& self.max_supported_transaction_version == 0
        &&& self.transaction_details@ == "full"@
        &&& !self.rewards
    }

    /// The options sent with every block call.
    pub fn fetch_config() -> (r: BlockConfig)
        ensures
            r.is_fetch_config(),
    {
        BlockConfig {
            encoding: String::from_str("json"),
            max_supported_transaction_version: 0,
            transaction_details: String::from_str("full"),
            rewards: false,
        }
    }
}

impl JsonRpcRequest {
    /// A version-2.0 request with the given id, method and parameters.
    pub fn new(id: u64, method: &str, params: Params) -> (r: JsonRpcRequest)
        ensures
            r.jsonrpc@ == "2.0"@,
            r.id == id,
            r.method@ == method@,
            r.params == params,
    {
        JsonRpcRequest { jsonrpc: String::from_str("2.0"), id, method: method.to_string(), params }
    }

    /// The frontier call: `getSlot` with no parameters.
    pub open spec fn is_slot_request(&self) -> bool {
        &&& self.jsonrpc@ == "2.0"@
        &&& self.id == SLOT_REQUEST_ID
        &&& self.method@ == "getSlot"@
        &&& self.params is Empty
    }

    /// The block call for `slot`: `getBlock` with the slot and the fetch options.
    pub open spec fn is_block_request(&self, slot: u64) -> bool {
        &&& self.jsonrpc@ == "2.0"@
        &&& self.id == BLOCK_REQUEST_ID
        &&& self.method@ == "getBlock"@
        &&& self.params matches Params::Block { slot: s, config } && s == slot
            && config.is_fetch_config()
    }

    /// The call that asks for the current frontier slot.
    pub fn slot_request() -> (r: JsonRpcRequest)
        ensures
            r.is_slot_request(),
    {
        JsonRpcRequest::new(SLOT_REQUEST_ID, "getSlot", Params::Empty)
    }

    /// The call that asks for the block at `slot`.
    pub fn block_request(slot: u64) -> (r: JsonRpcRequest)
        ensures
            r.is_block_request(slot),
    {
        let config = BlockConfig::fetch_config();
        JsonRpcRequest::new(BLOCK_REQUEST_ID, "getBlock", Params::Block { slot, config })
    }
}

#[verifier::external_type_specification]
#[verifier::external_body]
pub struct ExValue(serde_json::Value);

/// Relies on serde_json::Value::get with a string key: the member of that name
/// when the value is an object holding it, `None` otherwise.
#[verifier::external_body]
fn member<'a>(value: &'a serde_json::Value, key: &str) -> (r: Option<&'a serde_json::Value>) {
    value.get(key)
}

/// Relies on serde_json::Value::as_array: the number of elements when the
/// value is an array, `None` otherwise.
#[verifier::external_body]
fn array_len(value: &serde_json::Value) -> (r: Option<usize>) {
    value.as_array().map(|items| items.len())
}

/// What a block response amounts to for the follower.
#[derive(Debug, PartialEq)]
pub enum BlockOutcome {
    /// The remote answered with an error object.
    Remote(JsonRpcError),
    /// Neither a result nor an error: there is no block data.
    NoResult,
    /// A result without a `"transactions"` array.
    NoTransactions,
    /// A block whose `"transactions"` array holds this many entries.
    Transactions(usize),
}

impl BlockOutcome {
    /// Reads a decoded block response: its error first, then whether a
    /// result came, then the length of the result's `"transactions"` array.
    pub fn from_response(response: JsonRpcResponse<serde_json::Value>) -> (r: BlockOutcome)
        ensures
            response.error matches Some(e) ==> r == BlockOutcome::Remote(e),
            response.error is None && response.result is None ==> r is NoResult,
            response.error is None && response.result is Some ==> (r is NoTransactions
                || r is Transactions),
    {
        match response.error {
            Some(e) => BlockOutcome::Remote(e),
            None => match &response.result {
                None => BlockOutcome::NoResult,
                Some(block) => match member(block, "transactions") {
                    None => BlockOutcome::NoTransactions,
                    Some(txs) => match array_len(txs) {
                        None => BlockOutcome::NoTransactions,
                        Some(n) => BlockOutcome::Transactions(n),
                    },
                },
            },
        }
    }
}

} // verus!
