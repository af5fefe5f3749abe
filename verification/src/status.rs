//! The network status summary, assembled from two upstream queries that
//! may fail independently.

use crate::config::{get_rpc_url, rpc_url_of};
use crate::json::{json_member, json_text, json_u64, value_as_str, value_as_u64, value_get};
use crate::rpc::{outcome_view, RpcCallError, RpcFailure};
use crate::text::text_of;
use vstd::prelude::*;
use vstd::string::*;

verus! {

/// The status summary.
#[derive(Debug, PartialEq, Eq)]
pub struct NetworkStatus {
    pub network: String,
    pub slot: u64,
    pub version: String,
}

/// The mathematical content of a [`NetworkStatus`].
pub ghost struct NetworkStatusView {
    pub network: Seq<char>,
    pub slot: u64,
    pub version: Seq<char>,
}

impl View for NetworkStatus {
    type V = NetworkStatusView;

    open spec fn view(&self) -> NetworkStatusView {
        NetworkStatusView { network: self.network@, slot: self.slot, version: self.version@ }
    }
}

/// The network the summary describes, whatever a claim selects.
pub open spec fn status_network() -> Seq<char> {
    "devnet"@
}

/// The member of the version payload that holds the version.
pub open spec fn version_key() -> Seq<char> {
    "solanaCore"@
}

/// The summary for a slot and a version, each of which may be missing:
/// slot 0 and version `"unknown"` stand in.
pub open spec fn status_of(slot: Option<u64>, version: Option<Seq<char>>) -> NetworkStatusView {
    NetworkStatusView {
        network: status_network(),
        slot: match slot {
            Some(n) => n,
            None => 0,
        },
        version: match version {
            Some(v) => v,
            None => "unknown"@,
        },
    }
}

/// The slot that the outcome of a slot query carries.
pub open spec fn slot_of(outcome: Result<serde_json::Value, RpcFailure>) -> Option<u64> {
    match outcome {
        Ok(value) => json_u64(value),
        Err(_) => None,
    }
}

/// The version that the outcome of a version query carries.
pub open spec fn version_of(outcome: Result<serde_json::Value, RpcFailure>) -> Option<Seq<char>> {
    match outcome {
        Ok(value) => match json_member(value, version_key()) {
            Some(member) => json_text(member),
            None => None,
        },
        Err(_) => None,
    }
}

/// The endpoint both status queries go to.
pub fn status_endpoint() -> (url: String)
    ensures
        url@ == rpc_url_of(status_network()),
{
    get_rpc_url("devnet")
}

/// Assembles the summary from what the two queries yielded.
pub fn status_summary(slot: Option<u64>, version: Option<String>) -> (status: NetworkStatus)
    ensures
        status@ == status_of(slot, text_of(version)),
{
    NetworkStatus {
        network: String::from_str("devnet"),
        slot: match slot {
            Some(n) => n,
            None => 0,
        },
        version: match version {
            Some(v) => v,
            None => String::from_str("unknown"),
        },
    }
}

/// Reads the slot out of the outcome of a slot query.
pub fn read_slot(outcome: &Result<serde_json::Value, RpcCallError>) -> (slot: Option<u64>)
    ensures
        slot == slot_of(outcome_view(*outcome)),
{
    match outcome {
        Ok(value) => value_as_u64(value),
        Err(_) => None,
    }
}

/// Reads the version out of the outcome of a version query.
pub fn read_version(outcome: &Result<serde_json::Value, RpcCallError>) -> (version: Option<String>)
    ensures
        match version {
            Some(v) => version_of(outcome_view(*outcome)) == Some(v@),
            None => version_of(outcome_view(*outcome)) is None,
        },
{
    match outcome {
        Ok(value) => match value_get(value, "solanaCore") {
            Some(member) => match value_as_str(member) {
                Some(text) => Some(String::from_str(text)),
                None => None,
            },
            None => None,
        },
        Err(_) => None,
    }
}

/// Builds the status summary from the outcomes of the slot query and the
/// version query. A failure of either is absorbed on its own.
pub fn get_status(
    slot_outcome: Result<serde_json::Value, RpcCallError>,
    version_outcome: Result<serde_json::Value, RpcCallError>,
) -> (status: NetworkStatus)
    ensures
        status@ == status_of(
            slot_of(outcome_view(slot_outcome)),
            version_of(outcome_view(version_outcome)),
        ),
{
    let slot = read_slot(&slot_outcome);
    let version = read_version(&version_outcome);
    status_summary(slot, version)
}

} // verus!
