//! Replies of the MiniMax coding-plan API and the statistics drawn from them.

use vstd::prelude::*;

verus! {

/// Reply of the coding-plan `remains` endpoint.
#[derive(Debug)]
pub struct MiniMaxRemainsResponse {
    pub base_resp: Option<MiniMaxBaseResp>,
    pub model_remains: Vec<MiniMaxModelRemains>,
}

#[derive(Debug)]
pub struct MiniMaxBaseResp {
    pub status_code: i32,
    pub status_msg: String,
}

/// What one model has left. The `usage_count` fields hold what remains,
/// not what was used.
#[derive(Debug)]
pub struct MiniMaxModelRemains {
    pub model_name: String,
    pub current_interval_total_count: i64,
    pub current_interval_usage_count: i64,
    pub end_time: Option<i64>,
    pub current_weekly_total_count: i64,
    pub current_weekly_usage_count: i64,
    pub weekly_end_time: Option<i64>,
}

/// MiniMax usage of the coding model.
#[derive(Debug, Clone, Copy, PartialEq, Eq, Structural)]
pub struct MiniMaxUsageStats {
    pub interval_used: i64,
    pub interval_total: i64,
    pub interval_pct: u8,
    /// Milliseconds since the epoch.
    pub reset_time: Option<i64>,
    pub weekly_used: Option<i64>,
    pub weekly_total: Option<i64>,
    pub weekly_pct: Option<u8>,
    pub weekly_reset_time: Option<i64>,
}

} // verus!
