//! The Kimi client: its monitor origin and credentials, the request it makes
//! and how the reply's windows are found.

use crate::api::kimi_types::{KimiDetail, KimiLimit, KimiUsageStats, KimiUsagesResponse};
use crate::api::url::{domain_of, extract_domain};
use crate::text::{concat_str, contains_str, contains_text, nat_text, same_text, u64_text};
use vstd::prelude::*;
use vstd::string::*;

verus! {

/// Errors of the Kimi client.
#[derive(Debug, Clone)]
pub enum KimiError {
    MissingApiKey,
    MissingBaseUrl,
    NotKimiUrl,
    Http(String),
    Status(u16),
    Parse(String),
    NoFiveHourWindow,
    NoWeeklyWindow,
}

/// The text that an error reads as.
pub open spec fn kimi_error_text(e: KimiError) -> Seq<char> {
    match e {
        KimiError::MissingApiKey => "Missing API key (env or settings.json)"@,
        KimiError::MissingBaseUrl => "Missing base URL (env or settings.json)"@,
        KimiError::NotKimiUrl => "Not a Kimi base URL"@,
        KimiError::Http(s) => "HTTP error: "@ + s@,
        KimiError::Status(c) => "HTTP status "@ + nat_text(c as nat),
        KimiError::Parse(s) => "Parse error: "@ + s@,
        KimiError::NoFiveHourWindow => "No 5-hour window found in Kimi response"@,
        KimiError::NoWeeklyWindow => "No weekly window found in Kimi response"@,
    }
}

impl KimiError {
    /// The message of the error.
    pub fn message(&self) -> (r: String)
        ensures
            r@ == kimi_error_text(*self),
    {
        match self {
            KimiError::MissingApiKey => String::from_str("Missing API key (env or settings.json)"),
            KimiError::MissingBaseUrl => String::from_str("Missing base URL (env or settings.json)"),
            KimiError::NotKimiUrl => String::from_str("Not a Kimi base URL"),
            KimiError::Http(s) => concat_str("HTTP error: ", s.as_str()),
            KimiError::Status(c) => {
                let code = u64_text(*c as u64);
                concat_str("HTTP status ", code.as_str())
            },
            KimiError::Parse(s) => concat_str("Parse error: ", s.as_str()),
            KimiError::NoFiveHourWindow => String::from_str("No 5-hour window found in Kimi response"),
            KimiError::NoWeeklyWindow => String::from_str("No weekly window found in Kimi response"),
        }
    }
}

/// Kimi API client: the monitor origin and the token it is asked with.
#[derive(Debug)]
pub struct KimiApiClient {
    pub base_url: String,
    pub token: String,
}

/// Whether a window is the five-hour one: 300 minutes.
pub open spec fn is_five_hour_window(l: KimiLimit) -> bool {
    l.window.duration == 300 && l.window.time_unit@ == "TIME_UNIT_MINUTE"@
}

/// Whether a window is the weekly one: a duration of 10080.
pub open spec fn is_weekly_window(l: KimiLimit) -> bool {
    l.window.duration == 10080
}

/// `i` is the first five-hour window.
pub open spec fn is_first_five_hour(limits: Seq<KimiLimit>, i: int) -> bool {
    &&& 0 <= i < limits.len()
    &&& is_five_hour_window(limits[i])
    &&& forall|j: int| 0 <= j < i ==> !is_five_hour_window(limits[j])
}

/// `i` is the first weekly window.
pub open spec fn is_first_weekly(limits: Seq<KimiLimit>, i: int) -> bool {
    &&& 0 <= i < limits.len()
    &&& is_weekly_window(limits[i])
    &&& forall|j: int| 0 <= j < i ==> !is_weekly_window(limits[j])
}

/// What a window has used: its limit less what remains.
pub open spec fn window_used(d: KimiDetail) -> int {
    d.limit - d.remaining
}

/// The first five-hour window.
fn first_five_hour(limits: &Vec<KimiLimit>) -> (r: Option<usize>)
    ensures
        match r {
            Some(i) => is_first_five_hour(limits@, i as int),
            None => forall|j: int| 0 <= j < limits@.len() ==> !is_five_hour_window(limits@[j]),
        },
{
    let n = limits.len();
    let mut i: usize = 0;
    while i < n
        invariant
            n == limits@.len(),
            i <= n,
            forall|j: int| 0 <= j < i ==> !is_five_hour_window(limits@[j]),
        decreases n - i,
    {
        let l = &limits[i];
        if l.window.duration == 300 && same_text(l.window.time_unit.as_str(), "TIME_UNIT_MINUTE") {
            return Some(i);
        }
        i = i + 1;
    }
    None
}

/// The first weekly window.
fn first_weekly(limits: &Vec<KimiLimit>) -> (r: Option<usize>)
    ensures
        match r {
            Some(i) => is_first_weekly(limits@, i as int),
            None => forall|j: int| 0 <= j < limits@.len() ==> !is_weekly_window(limits@[j]),
        },
{
    let n = limits.len();
    let mut i: usize = 0;
    while i < n
        invariant
            n == limits@.len(),
            i <= n,
            forall|j: int| 0 <= j < i ==> !is_weekly_window(limits@[j]),
        decreases n - i,
    {
        if limits[i].window.duration == 10080 {
            return Some(i);
        }
        i = i + 1;
    }
    None
}

impl KimiApiClient {
    /// Builds the client from the API key (absent where none is configured)
    /// and the base URL (empty where none is configured), which must name
    /// `kimi.com`; the monitor API lives at the origin of the base URL.
    pub fn from_env(api_key: Option<String>, base_url: String) -> (r: Result<KimiApiClient, KimiError>)
        ensures
            api_key is None ==> r matches Err(KimiError::MissingApiKey),
            api_key is Some && base_url@.len() == 0 ==> r matches Err(KimiError::MissingBaseUrl),
            api_key is Some && base_url@.len() != 0 && !contains_text(base_url@, "kimi.com"@)
                ==> r matches Err(KimiError::NotKimiUrl),
            api_key is Some && base_url@.len() != 0 && contains_text(base_url@, "kimi.com"@) ==> (
            r matches Ok(c) && c.token == api_key.unwrap() && c.base_url@ == domain_of(base_url@)),
    {
        let token = match api_key {
            Some(t) => t,
            None => {
                return Err(KimiError::MissingApiKey);
            },
        };
        if base_url.as_str().is_empty() {
            return Err(KimiError::MissingBaseUrl);
        }
        if !contains_str(base_url.as_str(), "kimi.com") {
            return Err(KimiError::NotKimiUrl);
        }
        let monitor_base = extract_domain(base_url.as_str());
        Ok(KimiApiClient { base_url: monitor_base, token })
    }

    /// The usages endpoint.
    pub fn usages_url(&self) -> (r: String)
        ensures
            r@ == self.base_url@ + "/coding/v1/usages"@,
    {
        concat_str(self.base_url.as_str(), "/coding/v1/usages")
    }

    /// The headers every request carries: the bearer token and the JSON
    /// content type.
    pub fn request_headers(&self) -> (r: Vec<(String, String)>)
        ensures
            r@.len() == 2,
            r@[0].0@ == "Authorization"@,
            r@[0].1@ == "Bearer "@ + self.token@,
            r@[1].0@ == "Content-Type"@,
            r@[1].1@ == "application/json"@,
    {
        let mut r = Vec::new();
        r.push((String::from_str("Authorization"), concat_str("Bearer ", self.token.as_str())));
        r.push((String::from_str("Content-Type"), String::from_str("application/json")));
        r
    }

    /// A reply other than `200` is an error naming its status.
    pub fn check_status(status: u16) -> (r: Result<(), KimiError>)
        ensures
            status == 200 ==> r is Ok,
            status != 200 ==> r == Err::<(), KimiError>(KimiError::Status(status)),
    {
        if status == 200 {
            Ok(())
        } else {
            Err(KimiError::Status(status))
        }
    }

    /// The positions of the five-hour window and of the weekly window (the
    /// first of each); an error names the one that is missing, the five-hour
    /// window first.
    pub fn find_windows(reply: &KimiUsagesResponse) -> (r: Result<(usize, usize), KimiError>)
        ensures
            match r {
                Ok((f, w)) => is_first_five_hour(reply.limits@, f as int) && is_first_weekly(
                    reply.limits@,
                    w as int,
                ),
                Err(KimiError::NoFiveHourWindow) => forall|j: int|
                    0 <= j < reply.limits@.len() ==> !is_five_hour_window(reply.limits@[j]),
                Err(KimiError::NoWeeklyWindow) => (exists|f: int|
                    is_first_five_hour(reply.limits@, f)) && forall|j: int|
                    0 <= j < reply.limits@.len() ==> !is_weekly_window(reply.limits@[j]),
                Err(_) => false,
            },
    {
        let f = match first_five_hour(&reply.limits) {
            Some(f) => f,
            None => {
                return Err(KimiError::NoFiveHourWindow);
            },
        };
        match first_weekly(&reply.limits) {
            Some(w) => Ok((f, w)),
            None => Err(KimiError::NoWeeklyWindow),
        }
    }

    /// What a window with a positive limit has used: its limit less what
    /// remains. The percentage shown is this over the limit.
    pub fn used_of(detail: &KimiDetail) -> (r: Option<i64>)
        requires
            detail.limit > 0 ==> i64::MIN <= window_used(*detail) <= i64::MAX,
        ensures
            detail.limit > 0 ==> r == Some(window_used(*detail) as i64),
            detail.limit <= 0 ==> r is None,
    {
        if detail.limit > 0 {
            Some(detail.limit - detail.remaining)
        } else {
            None
        }
    }
}

/// A copy of an optional text.
fn copy_text(t: &Option<String>) -> (r: Option<String>)
    ensures
        r == *t,
{
    match t {
        Some(s) => Some(s.clone()),
        None => None,
    }
}

impl KimiUsageStats {
    /// The statistics of the two windows, with the percentages of their use.
    pub fn from_windows(five_hour: &KimiLimit, weekly: &KimiLimit, five_hour_pct: u8, weekly_pct: u8) -> (r:
        KimiUsageStats)
        ensures
            r.five_hour_pct == five_hour_pct,
            r.five_hour_reset == five_hour.detail.reset_time,
            r.weekly_pct == weekly_pct,
            r.weekly_reset == weekly.detail.reset_time,
    {
        KimiUsageStats {
            five_hour_pct,
            five_hour_reset: copy_text(&five_hour.detail.reset_time),
            weekly_pct,
            weekly_reset: copy_text(&weekly.detail.reset_time),
        }
    }
}

} // verus!
