//! The handling of one claim: what is decided before the upstream call and
//! what is answered after it.

use crate::address::{address_accepted, trimmed, validate_address};
use crate::config::{get_rpc_url, network_or_default, rpc_url_of, FaucetConfig};
use crate::json::{json_text, value_as_str};
use crate::rate_limit::{decide, last_claim, Decision, RateLimiter};
use crate::rpc::{
    airdrop_call, airdrop_rpc_request, outcome_view, RpcCallError, RpcFailure, RpcRequest,
    RpcRequestView,
};
use crate::text::{
    airdropped_message, airdropped_text, decode_error_text, empty_response_text,
    invalid_address_text, prefixed, rate_limited_message, rate_limited_text, text_of,
    transport_error_text, upstream_error_text,
};
use vstd::prelude::*;
use vstd::string::*;

verus! {

/// A claim as it arrives.
#[derive(Debug, PartialEq, Eq)]
pub struct AirdropRequest {
    pub address: String,
    pub network: Option<String>,
}

/// The answer to a claim.
#[derive(Debug, PartialEq, Eq)]
pub struct AirdropResponse {
    pub success: bool,
    pub tx_signature: Option<String>,
    pub message: String,
    pub lamports: u64,
}

/// The mathematical content of an [`AirdropResponse`].
pub ghost struct AirdropReply {
    pub success: bool,
    pub tx_signature: Option<Seq<char>>,
    pub message: Seq<char>,
    pub lamports: u64,
}

impl View for AirdropResponse {
    type V = AirdropReply;

    open spec fn view(&self) -> AirdropReply {
        AirdropReply {
            success: self.success,
            tx_signature: text_of(self.tx_signature),
            message: self.message@,
            lamports: self.lamports,
        }
    }
}

/// An upstream call that the caller is asked to perform.
#[derive(Debug, PartialEq, Eq)]
pub struct RpcDispatch {
    /// Where to send the request.
    pub endpoint: String,
    /// The trimmed address the claim is for.
    pub address: String,
    /// The envelope to send.
    pub request: RpcRequest,
}

/// What follows the arrival of a claim.
#[derive(Debug, PartialEq, Eq)]
pub enum AirdropStep {
    /// The claim is answered at once; nothing is sent upstream.
    Reply(AirdropResponse),
    /// The claim goes upstream.
    Dispatch(RpcDispatch),
}

/// The mathematical content of an [`AirdropStep`].
pub ghost enum AirdropStepView {
    Reply(AirdropReply),
    Dispatch { endpoint: Seq<char>, address: Seq<char>, request: RpcRequestView },
}

impl View for AirdropStep {
    type V = AirdropStepView;

    open spec fn view(&self) -> AirdropStepView {
        match self {
            AirdropStep::Reply(reply) => AirdropStepView::Reply(reply@),
            AirdropStep::Dispatch(call) => AirdropStepView::Dispatch {
                endpoint: call.endpoint@,
                address: call.address@,
                request: call.request@,
            },
        }
    }
}

/// The answer to a claim that gets nothing: no signature, no amount.
pub open spec fn refusal(message: Seq<char>) -> AirdropReply {
    AirdropReply { success: false, tx_signature: None, message, lamports: 0 }
}

/// The detail reported when the upstream result is no signature string.
pub open spec fn not_a_signature_text() -> Seq<char> {
    "result is not a string"@
}

/// What follows the arrival of a claim: a refusal for an unacceptable
/// address; a refusal naming the wait while the trimmed address, last
/// claimed at `last`, is cooling down; else the airdrop request for the
/// trimmed address, bound for the endpoint of the chosen network.
pub open spec fn first_step(
    raw_address: Seq<char>,
    network: Option<Seq<char>>,
    amount: u64,
    last: Option<u64>,
    cooldown: u64,
    now: u64,
) -> AirdropStepView {
    if !address_accepted(raw_address) {
        AirdropStepView::Reply(refusal(invalid_address_text()))
    } else {
        match decide(last, cooldown, now) {
            Decision::Deny { remaining } => AirdropStepView::Reply(
                refusal(rate_limited_text(remaining)),
            ),
            Decision::Allow => AirdropStepView::Dispatch {
                endpoint: rpc_url_of(network_or_default(network)),
                address: trimmed(raw_address),
                request: airdrop_call(trimmed(raw_address), amount),
            },
        }
    }
}

/// The answer to a claim for `address` once the upstream call is over,
/// `outcome` being the signature found in its result (`Ok(None)` where the
/// result is no string) or the failure of the call.
pub open spec fn claim_reply(
    address: Seq<char>,
    amount: u64,
    outcome: Result<Option<Seq<char>>, RpcFailure>,
) -> AirdropReply {
    match outcome {
        Ok(Some(signature)) => AirdropReply {
            success: true,
            tx_signature: Some(signature),
            message: airdropped_text(amount, address),
            lamports: amount,
        },
        Ok(None) => refusal(decode_error_text(not_a_signature_text())),
        Err(RpcFailure::Transport(detail)) => refusal(transport_error_text(detail)),
        Err(RpcFailure::Decode(detail)) => refusal(decode_error_text(detail)),
        Err(RpcFailure::Upstream { code, message }) => refusal(upstream_error_text(message)),
        Err(RpcFailure::EmptyResponse) => refusal(empty_response_text()),
    }
}

/// The signature that the outcome of an airdrop call carries.
pub open spec fn signature_of(outcome: Result<serde_json::Value, RpcFailure>) -> Result<
    Option<Seq<char>>,
    RpcFailure,
> {
    match outcome {
        Ok(value) => Ok(json_text(value)),
        Err(failure) => Err(failure),
    }
}

/// The content of a signature outcome.
pub open spec fn signature_view(outcome: Result<Option<String>, RpcCallError>) -> Result<
    Option<Seq<char>>,
    RpcFailure,
> {
    match outcome {
        Ok(signature) => Ok(text_of(signature)),
        Err(error) => Err(error@),
    }
}

fn refuse(message: String) -> (reply: AirdropResponse)
    ensures
        reply@ == refusal(message@),
{
    AirdropResponse { success: false, tx_signature: None, message, lamports: 0 }
}

/// Validates a claim and consults the limiter. Nothing is recorded here: a
/// claim counts only once the upstream node has confirmed it.
pub fn request_airdrop(
    payload: &AirdropRequest,
    config: &FaucetConfig,
    limiter: &RateLimiter,
    now: u64,
) -> (step: AirdropStep)
    ensures
        step@ == first_step(
            payload.address@,
            text_of(payload.network),
            config.airdrop_amount,
            last_claim(limiter@, trimmed(payload.address@)),
            limiter.cooldown(),
            now,
        ),
{
    let address = match validate_address(payload.address.as_str()) {
        Ok(address) => address,
        Err(_) => {
            return AirdropStep::Reply(refuse(String::from_str("Invalid Solana address")));
        },
    };
    match limiter.check(address.as_str(), now) {
        Decision::Deny { remaining } => AirdropStep::Reply(refuse(rate_limited_message(remaining))),
        Decision::Allow => {
            let endpoint = match &payload.network {
                Some(name) => get_rpc_url(name.as_str()),
                None => get_rpc_url("devnet"),
            };
            let request = airdrop_rpc_request(address.as_str(), config.airdrop_amount);
            AirdropStep::Dispatch(RpcDispatch { endpoint, address, request })
        },
    }
}

/// Words the answer to a claim from the signature found upstream or the
/// failure of the call.
pub fn claim_reply_for(
    address: &str,
    amount: u64,
    outcome: Result<Option<String>, RpcCallError>,
) -> (reply: AirdropResponse)
    ensures
        reply@ == claim_reply(address@, amount, signature_view(outcome)),
{
    match outcome {
        Ok(Some(signature)) => AirdropResponse {
            success: true,
            tx_signature: Some(signature),
            message: airdropped_message(amount, address),
            lamports: amount,
        },
        Ok(None) => refuse(prefixed("Parse error: ", "result is not a string")),
        Err(RpcCallError::Transport(detail)) => refuse(
            prefixed("Request failed: ", detail.as_str()),
        ),
        Err(RpcCallError::Decode(detail)) => refuse(prefixed("Parse error: ", detail.as_str())),
        Err(RpcCallError::Upstream { code, message }) => refuse(
            prefixed("RPC Error: ", message.as_str()),
        ),
        Err(RpcCallError::EmptyResponse) => refuse(String::from_str("No result from RPC")),
    }
}

/// Finishes a dispatched claim: answers it from the outcome of the upstream
/// call and records the claim at `now` exactly when the answer is a
/// success.
pub fn complete_airdrop(
    address: &str,
    outcome: Result<serde_json::Value, RpcCallError>,
    config: &FaucetConfig,
    limiter: &mut RateLimiter,
    now: u64,
) -> (reply: AirdropResponse)
    ensures
        reply@ == claim_reply(address@, config.airdrop_amount, signature_of(outcome_view(outcome))),
        reply@.success <==> outcome is Ok && json_text(outcome->Ok_0) is Some,
        final(limiter)@ == if reply@.success {
            old(limiter)@.insert(address@, now)
        } else {
            old(limiter)@
        },
        final(limiter).cooldown() == old(limiter).cooldown(),
{
    let signature = match outcome {
        Ok(value) => match value_as_str(&value) {
            Some(text) => Ok(Some(String::from_str(text))),
            None => Ok(None),
        },
        Err(error) => Err(error),
    };
    let reply = claim_reply_for(address, config.airdrop_amount, signature);
    if reply.success {
        limiter.record(address, now);
    }
    reply
}

/// A second claim of an address whose airdrop was recorded at `claimed_at`
/// is refused while the cooldown runs, however the address is padded: it
/// is told the rest of the cooldown, and nothing goes upstream.
pub proof fn lemma_repeated_claim_refused(
    table: Map<Seq<char>, u64>,
    raw_address: Seq<char>,
    network: Option<Seq<char>>,
    amount: u64,
    cooldown: u64,
    claimed_at: u64,
    now: u64,
)
    requires
        address_accepted(raw_address),
        claimed_at <= now,
        now - claimed_at < cooldown,
    ensures
        first_step(
            raw_address,
            network,
            amount,
            last_claim(table.insert(trimmed(raw_address), claimed_at), trimmed(raw_address)),
            cooldown,
            now,
        ) == AirdropStepView::Reply(
            refusal(rate_limited_text((cooldown - (now - claimed_at)) as u64)),
        ),
{
}

/// A claim succeeds exactly when the upstream call yields a signature. A
/// success carries that signature and the configured amount; every other
/// reply carries no signature and the amount zero.
pub proof fn lemma_failure_carries_nothing(
    address: Seq<char>,
    amount: u64,
    outcome: Result<Option<Seq<char>>, RpcFailure>,
)
    ensures
        claim_reply(address, amount, outcome).success <==> outcome is Ok && outcome->Ok_0 is Some,
        !claim_reply(address, amount, outcome).success ==> {
            &&& claim_reply(address, amount, outcome).tx_signature is None
            &&& claim_reply(address, amount, outcome).lamports == 0
        },
        claim_reply(address, amount, outcome).success ==> {
            &&& claim_reply(address, amount, outcome).tx_signature == outcome->Ok_0
            &&& claim_reply(address, amount, outcome).lamports == amount
        },
{
}

} // verus!
