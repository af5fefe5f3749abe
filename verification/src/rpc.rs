//! JSON-RPC envelopes: the requests the gateway sends and the reading of
//! what comes back.

use vstd::prelude::*;
use vstd::string::*;

verus! {

/// One positional parameter of a request.
#[derive(Debug, PartialEq, Eq)]
pub enum RpcParam {
    /// A JSON string.
    Text(String),
    /// A JSON number holding an amount of base units.
    Amount(u64),
}

/// The mathematical content of an [`RpcParam`].
pub ghost enum RpcParamView {
    Text(Seq<char>),
    Amount(u64),
}

impl View for RpcParam {
    type V = RpcParamView;

    open spec fn view(&self) -> RpcParamView {
        match self {
            RpcParam::Text(s) => RpcParamView::Text(s@),
            RpcParam::Amount(n) => RpcParamView::Amount(*n),
        }
    }
}

/// The envelope of an outbound call.
#[derive(Debug, PartialEq, Eq)]
pub struct RpcRequest {
    pub jsonrpc: String,
    pub id: u32,
    pub method: String,
    pub params: Vec<RpcParam>,
}

/// The mathematical content of an [`RpcRequest`].
pub ghost struct RpcRequestView {
    pub jsonrpc: Seq<char>,
    pub id: u32,
    pub method: Seq<char>,
    pub params: Seq<RpcParamView>,
}

impl View for RpcRequest {
    type V = RpcRequestView;

    open spec fn view(&self) -> RpcRequestView {
        RpcRequestView {
            jsonrpc: self.jsonrpc@,
            id: self.id,
            method: self.method@,
            params: self.params@.map_values(|p: RpcParam| p@),
        }
    }
}

/// The structured error of an upstream reply.
#[derive(Debug, PartialEq, Eq)]
pub struct RpcError {
    pub code: i32,
    pub message: String,
}

/// The envelope of an upstream reply. A well-formed reply holds exactly one
/// of `result` and `error`; one that holds neither is read as a failure.
#[derive(Debug, PartialEq)]
pub struct RpcResponse {
    pub jsonrpc: String,
    pub id: u32,
    pub result: Option<serde_json::Value>,
    pub error: Option<RpcError>,
}

/// Why an upstream call produced no result.
#[derive(Debug, PartialEq, Eq)]
pub enum RpcCallError {
    /// The node could not be reached; the detail is the client's account.
    Transport(String),
    /// The reply could not be decoded; the detail is the decoder's account.
    Decode(String),
    /// The node answered with a structured error.
    Upstream { code: i32, message: String },
    /// The reply held neither a result nor an error.
    EmptyResponse,
}

/// The mathematical content of an [`RpcCallError`].
pub ghost enum RpcFailure {
    Transport(Seq<char>),
    Decode(Seq<char>),
    Upstream { code: i32, message: Seq<char> },
    EmptyResponse,
}

impl View for RpcCallError {
    type V = RpcFailure;

    open spec fn view(&self) -> RpcFailure {
        match self {
            RpcCallError::Transport(detail) => RpcFailure::Transport(detail@),
            RpcCallError::Decode(detail) => RpcFailure::Decode(detail@),
            RpcCallError::Upstream { code, message } => RpcFailure::Upstream {
                code: *code,
                message: message@,
            },
            RpcCallError::EmptyResponse => RpcFailure::EmptyResponse,
        }
    }
}

/// How one exchange with the upstream node ended.
#[derive(Debug, PartialEq)]
pub enum Exchange {
    /// The request could not be delivered or no reply arrived; the detail
    /// is the client's account.
    Unreachable(String),
    /// A reply arrived whose body is no envelope; the detail is the
    /// decoder's account.
    Undecodable(String),
    /// A reply arrived and was decoded.
    Answered(RpcResponse),
}

/// The protocol version tag of every envelope.
pub open spec fn protocol_version() -> Seq<char> {
    "2.0"@
}

/// The request for an airdrop of `amount` base units to `address`.
pub open spec fn airdrop_call(address: Seq<char>, amount: u64) -> RpcRequestView {
    RpcRequestView {
        jsonrpc: protocol_version(),
        id: 1,
        method: "requestAirdrop"@,
        params: seq![RpcParamView::Text(address), RpcParamView::Amount(amount)],
    }
}

/// The request for the current slot.
pub open spec fn slot_call() -> RpcRequestView {
    RpcRequestView {
        jsonrpc: protocol_version(),
        id: 1,
        method: "getSlot"@,
        params: Seq::<RpcParamView>::empty(),
    }
}

/// The request for the node's version.
pub open spec fn version_call() -> RpcRequestView {
    RpcRequestView {
        jsonrpc: protocol_version(),
        id: 2,
        method: "getVersion"@,
        params: Seq::<RpcParamView>::empty(),
    }
}

/// What a reply amounts to: the upstream error where it reports one, else
/// its result where it holds one, else the failure of an empty reply.
pub open spec fn outcome_of(response: RpcResponse) -> Result<serde_json::Value, RpcFailure> {
    match response.error {
        Some(error) => Err(RpcFailure::Upstream { code: error.code, message: error.message@ }),
        None => match response.result {
            Some(value) => Ok(value),
            None => Err(RpcFailure::EmptyResponse),
        },
    }
}

/// What an exchange amounts to: a transport failure where the node was
/// not reached, a decode failure where its reply is no envelope, else what
/// the reply amounts to.
pub open spec fn exchange_outcome(exchange: Exchange) -> Result<serde_json::Value, RpcFailure> {
    match exchange {
        Exchange::Unreachable(detail) => Err(RpcFailure::Transport(detail@)),
        Exchange::Undecodable(detail) => Err(RpcFailure::Decode(detail@)),
        Exchange::Answered(response) => outcome_of(response),
    }
}

/// The outcome of a call with its error taken by view.
pub open spec fn outcome_view(outcome: Result<serde_json::Value, RpcCallError>) -> Result<
    serde_json::Value,
    RpcFailure,
> {
    match outcome {
        Ok(value) => Ok(value),
        Err(error) => Err(error@),
    }
}

/// Builds the envelope of an airdrop request.
pub fn airdrop_rpc_request(address: &str, amount: u64) -> (request: RpcRequest)
    ensures
        request@ == airdrop_call(address@, amount),
{
    let mut params: Vec<RpcParam> = Vec::new();
    params.push(RpcParam::Text(String::from_str(address)));
    params.push(RpcParam::Amount(amount));
    let request = RpcRequest {
        jsonrpc: String::from_str("2.0"),
        id: 1,
        method: String::from_str("requestAirdrop"),
        params,
    };
    assert(request@.params =~= airdrop_call(address@, amount).params);
    request
}

/// Builds the envelope of a slot query.
pub fn slot_request() -> (request: RpcRequest)
    ensures
        request@ == slot_call(),
{
    let request = RpcRequest {
        jsonrpc: String::from_str("2.0"),
        id: 1,
        method: String::from_str("getSlot"),
        params: Vec::new(),
    };
    assert(request@.params =~= slot_call().params);
    request
}

/// Builds the envelope of a version query.
pub fn version_request() -> (request: RpcRequest)
    ensures
        request@ == version_call(),
{
    let request = RpcRequest {
        jsonrpc: String::from_str("2.0"),
        id: 2,
        method: String::from_str("getVersion"),
        params: Vec::new(),
    };
    assert(request@.params =~= version_call().params);
    request
}

/// Reads a decoded reply: an upstream error wins over a result, and a reply
/// with neither is a failure of its own.
pub fn interpret_response(response: RpcResponse) -> (outcome: Result<
    serde_json::Value,
    RpcCallError,
>)
    ensures
        outcome_view(outcome) == outcome_of(response),
{
    match response.error {
        Some(error) => Err(RpcCallError::Upstream { code: error.code, message: error.message }),
        None => match response.result {
            Some(value) => Ok(value),
            None => Err(RpcCallError::EmptyResponse),
        },
    }
}

/// Reads the end of an exchange. Every failure surfaces at once, each
/// under its own kind; nothing is retried.
pub fn call_outcome(exchange: Exchange) -> (outcome: Result<serde_json::Value, RpcCallError>)
    ensures
        outcome_view(outcome) == exchange_outcome(exchange),
{
    match exchange {
        Exchange::Unreachable(detail) => Err(RpcCallError::Transport(detail)),
        Exchange::Undecodable(detail) => Err(RpcCallError::Decode(detail)),
        Exchange::Answered(response) => interpret_response(response),
    }
}

} // verus!
