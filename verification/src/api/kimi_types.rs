//! Replies of the Kimi usage API and the statistics drawn from them.

use vstd::prelude::*;

verus! {

/// Reply of the Kimi usages endpoint.
#[derive(Debug)]
pub struct KimiUsagesResponse {
    pub usage: Option<KimiUsage>,
    pub limits: Vec<KimiLimit>,
}

#[derive(Debug)]
pub struct KimiUsage {
    pub remaining: Option<i64>,
    pub limit: Option<i64>,
    pub reset_time: Option<String>,
}

/// One rate-limit window and its state.
#[derive(Debug)]
pub struct KimiLimit {
    pub window: KimiWindow,
    pub detail: KimiDetail,
}

#[derive(Debug)]
pub struct KimiWindow {
    pub duration: i64,
    pub time_unit: String,
}

#[derive(Debug)]
pub struct KimiDetail {
    pub limit: i64,
    pub remaining: i64,
    pub reset_time: Option<String>,
}

/// Kimi usage: the five-hour and weekly windows.
#[derive(Debug)]
pub struct KimiUsageStats {
    pub five_hour_pct: u8,
    /// ISO 8601 text.
    pub five_hour_reset: Option<String>,
    pub weekly_pct: u8,
    /// ISO 8601 text.
    pub weekly_reset: Option<String>,
}

} // verus!
