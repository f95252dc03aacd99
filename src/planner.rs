use vstd::prelude::*;

use crate::checkpoint::BridgeState;

verus! {

/// Page size used to re-scan recent history while no receipt time is known.
pub const LEGACY_WINDOW: u32 = 10;

/// Query parameters for one fetch of upstream messages.
#[derive(Clone, Debug, Default, PartialEq, Eq)]
pub struct FetchParams {
    pub limit: Option<u32>,
    pub since: Option<u64>,
}

/// Chooses what to fetch from the checkpoint:
/// everything on a first run, everything since the last receipt time once
/// one is known, and a small recent window for a checkpoint that has only
/// a message id.
pub fn build_fetch_params(state: &BridgeState) -> (r: FetchParams)
    ensures
        state.last_message_id is None ==> r.limit is None && r.since is None,
        state.last_message_id is Some && state.last_receipt_time is Some ==> r.limit is None
            && r.since == state.last_receipt_time,
        state.last_message_id is Some && state.last_receipt_time is None ==> r.limit
            == Some(LEGACY_WINDOW) && r.since is None,
{
    if state.last_message_id.is_none() {
        FetchParams { limit: None, since: None }
    } else if let Some(ts) = state.last_receipt_time {
        FetchParams { limit: None, since: Some(ts) }
    } else {
        FetchParams { limit: Some(LEGACY_WINDOW), since: None }
    }
}

} // verus!
