//! The MiniMax client: its monitor origin and credentials, the request it
//! makes and how the coding model's counts are read.

use crate::api::minimax_types::{MiniMaxModelRemains, MiniMaxRemainsResponse, MiniMaxUsageStats};
use crate::api::url::{domain_of, extract_domain};
use crate::text::{concat_str, contains_str, contains_text, nat_text, starts_with_str, starts_with_text, u64_text};
use vstd::prelude::*;
use vstd::string::*;

verus! {

/// Errors of the MiniMax client.
#[derive(Debug, Clone)]
pub enum MiniMaxError {
    MissingApiKey,
    MissingBaseUrl,
    NotMiniMaxUrl,
    Http(String),
    Status(u16),
    Parse(String),
    NoCodingModel,
}

/// The text that an error reads as.
pub open spec fn minimax_error_text(e: MiniMaxError) -> Seq<char> {
    match e {
        MiniMaxError::MissingApiKey => "Missing API key (env or settings.json)"@,
        MiniMaxError::MissingBaseUrl => "Missing base URL (env or settings.json)"@,
        MiniMaxError::NotMiniMaxUrl => "Not a MiniMax base URL"@,
        MiniMaxError::Http(s) => "HTTP error: "@ + s@,
        MiniMaxError::Status(c) => "HTTP status "@ + nat_text(c as nat),
        MiniMaxError::Parse(s) => "Parse error: "@ + s@,
        MiniMaxError::NoCodingModel => "No coding model found in response"@,
    }
}

impl MiniMaxError {
    /// The message of the error.
    pub fn message(&self) -> (r: String)
        ensures
            r@ == minimax_error_text(*self),
    {
        match self {
            MiniMaxError::MissingApiKey => String::from_str("Missing API key (env or settings.json)"),
            MiniMaxError::MissingBaseUrl => String::from_str("Missing base URL (env or settings.json)"),
            MiniMaxError::NotMiniMaxUrl => String::from_str("Not a MiniMax base URL"),
            MiniMaxError::Http(s) => concat_str("HTTP error: ", s.as_str()),
            MiniMaxError::Status(c) => {
                let code = u64_text(*c as u64);
                concat_str("HTTP status ", code.as_str())
            },
            MiniMaxError::Parse(s) => concat_str("Parse error: ", s.as_str()),
            MiniMaxError::NoCodingModel => String::from_str("No coding model found in response"),
        }
    }
}

/// MiniMax API client: the monitor origin, the token, and the session
/// cookie that the usage endpoint asks for.
#[derive(Debug)]
pub struct MiniMaxApiClient {
    pub base_url: String,
    pub token: String,
    pub cookie: Option<String>,
}

/// Whether a base URL names MiniMax.
pub open spec fn is_minimax_url(url: Seq<char>) -> bool {
    contains_text(url, "minimaxi.com"@) || contains_text(url, "minimax.io"@)
}

/// The cookie sent: `USAGE_MINIMAX_COOKIE` as it is, else the value of
/// `USAGE_HERTZ_SESSION` as a `HERTZ-SESSION` cookie.
pub open spec fn cookie_text(minimax_cookie: Option<String>, hertz_session: Option<String>) -> Option<
    Seq<char>,
> {
    match minimax_cookie {
        Some(c) => Some(c@),
        None => match hertz_session {
            Some(v) => Some("HERTZ-SESSION="@ + v@),
            None => None,
        },
    }
}

/// Whether a model is the coding model: its name begins with `MiniMax-M`.
pub open spec fn is_coding_model(m: MiniMaxModelRemains) -> bool {
    starts_with_text(m.model_name@, "MiniMax-M"@)
}

/// `i` is the first coding model.
pub open spec fn is_first_coding_model(models: Seq<MiniMaxModelRemains>, i: int) -> bool {
    &&& 0 <= i < models.len()
    &&& is_coding_model(models[i])
    &&& forall|j: int| 0 <= j < i ==> !is_coding_model(models[j])
}

/// Calls used in the five-hour interval: the total less what remains.
pub open spec fn interval_used(m: MiniMaxModelRemains) -> int {
    m.current_interval_total_count - m.current_interval_usage_count
}

/// Calls used in the week: the weekly total less what remains.
pub open spec fn weekly_used(m: MiniMaxModelRemains) -> int {
    m.current_weekly_total_count - m.current_weekly_usage_count
}

/// The counts of a model can be subtracted within `i64`.
pub open spec fn counts_in_range(m: MiniMaxModelRemains) -> bool {
    &&& i64::MIN <= interval_used(m) <= i64::MAX
    &&& m.current_weekly_total_count > 0 ==> i64::MIN <= weekly_used(m) <= i64::MAX
}

impl MiniMaxApiClient {
    /// Builds the client from the API key (absent where none is configured),
    /// the base URL (empty where none is configured), which must name
    /// `minimaxi.com` or `minimax.io`, and the values of
    /// `USAGE_MINIMAX_COOKIE` and `USAGE_HERTZ_SESSION`.
    pub fn from_env(
        api_key: Option<String>,
        base_url: String,
        minimax_cookie: Option<String>,
        hertz_session: Option<String>,
    ) -> (r: Result<MiniMaxApiClient, MiniMaxError>)
        ensures
            api_key is None ==> r matches Err(MiniMaxError::MissingApiKey),
            api_key is Some && base_url@.len() == 0 ==> r matches Err(MiniMaxError::MissingBaseUrl),
            api_key is Some && base_url@.len() != 0 && !is_minimax_url(base_url@) ==> r matches Err(
                MiniMaxError::NotMiniMaxUrl,
            ),
            api_key is Some && base_url@.len() != 0 && is_minimax_url(base_url@) ==> (r matches Ok(c)
                && c.token == api_key.unwrap() && c.base_url@ == domain_of(base_url@) && match c.cookie {
                Some(k) => cookie_text(minimax_cookie, hertz_session) == Some(k@),
                None => cookie_text(minimax_cookie, hertz_session) is None,
            }),
    {
        let token = match api_key {
            Some(t) => t,
            None => {
                return Err(MiniMaxError::MissingApiKey);
            },
        };
        if base_url.as_str().is_empty() {
            return Err(MiniMaxError::MissingBaseUrl);
        }
        if !contains_str(base_url.as_str(), "minimaxi.com") && !contains_str(
            base_url.as_str(),
            "minimax.io",
        ) {
            return Err(MiniMaxError::NotMiniMaxUrl);
        }
        let monitor_base = extract_domain(base_url.as_str());
        let cookie = match minimax_cookie {
            Some(c) => Some(c),
            None => match hertz_session {
                Some(v) => Some(concat_str("HERTZ-SESSION=", v.as_str())),
                None => None,
            },
        };
        Ok(MiniMaxApiClient { base_url: monitor_base, token, cookie })
    }

    /// The coding-plan `remains` endpoint.
    pub fn remains_url(&self) -> (r: String)
        ensures
            r@ == self.base_url@ + "/v1/api/openplatform/coding_plan/remains"@,
    {
        concat_str(self.base_url.as_str(), "/v1/api/openplatform/coding_plan/remains")
    }

    /// The headers every request carries: the bearer token, the JSON content
    /// type, and the cookie where there is one.
    pub fn request_headers(&self) -> (r: Vec<(String, String)>)
        ensures
            r@.len() == if self.cookie is Some { 3int } else { 2int },
            r@[0].0@ == "Authorization"@,
            r@[0].1@ == "Bearer "@ + self.token@,
            r@[1].0@ == "Content-Type"@,
            r@[1].1@ == "application/json"@,
            self.cookie matches Some(c) ==> r@[2].0@ == "Cookie"@ && r@[2].1@ == c@,
    {
        let mut r = Vec::new();
        r.push((String::from_str("Authorization"), concat_str("Bearer ", self.token.as_str())));
        r.push((String::from_str("Content-Type"), String::from_str("application/json")));
        match &self.cookie {
            Some(c) => {
                r.push((String::from_str("Cookie"), c.clone()));
            },
            None => {},
        }
        r
    }

    /// A reply other than `200` is an error naming its status.
    pub fn check_status(status: u16) -> (r: Result<(), MiniMaxError>)
        ensures
            status == 200 ==> r is Ok,
            status != 200 ==> r == Err::<(), MiniMaxError>(MiniMaxError::Status(status)),
    {
        if status == 200 {
            Ok(())
        } else {
            Err(MiniMaxError::Status(status))
        }
    }

    /// The position of the coding model: the first whose name begins with
    /// `MiniMax-M`.
    pub fn find_coding_model(reply: &MiniMaxRemainsResponse) -> (r: Result<usize, MiniMaxError>)
        ensures
            match r {
                Ok(i) => is_first_coding_model(reply.model_remains@, i as int),
                Err(e) => e == MiniMaxError::NoCodingModel && forall|j: int|
                    0 <= j < reply.model_remains@.len() ==> !is_coding_model(reply.model_remains@[j]),
            },
    {
        let models = &reply.model_remains;
        let n = models.len();
        let mut i: usize = 0;
        while i < n
            invariant
                n == models@.len(),
                models@ == reply.model_remains@,
                i <= n,
                forall|j: int| 0 <= j < i ==> !is_coding_model(models@[j]),
            decreases n - i,
        {
            let m = &models[i];
            if starts_with_str(m.model_name.as_str(), "MiniMax-M") {
                return Ok(i);
            }
            i = i + 1;
        }
        Err(MiniMaxError::NoCodingModel)
    }

    /// The calls used in the interval, and the interval total.
    pub fn interval_counts(model: &MiniMaxModelRemains) -> (r: (i64, i64))
        requires
            counts_in_range(*model),
        ensures
            r.0 == interval_used(*model),
            r.1 == model.current_interval_total_count,
    {
        (model.current_interval_total_count - model.current_interval_usage_count, model.current_interval_total_count)
    }

    /// The calls used in the week and the weekly total, where the plan has a
    /// weekly limit (older plans report a weekly total of zero).
    pub fn weekly_counts(model: &MiniMaxModelRemains) -> (r: Option<(i64, i64)>)
        requires
            counts_in_range(*model),
        ensures
            model.current_weekly_total_count > 0 ==> r == Some(
                (weekly_used(*model) as i64, model.current_weekly_total_count),
            ),
            model.current_weekly_total_count <= 0 ==> r is None,
    {
        if model.current_weekly_total_count > 0 {
            Some(
                (
                    model.current_weekly_total_count - model.current_weekly_usage_count,
                    model.current_weekly_total_count,
                ),
            )
        } else {
            None
        }
    }
}

impl MiniMaxUsageStats {
    /// The statistics of the coding model, with the percentages of use of the
    /// interval and of the week (the latter kept only where the plan has a
    /// weekly limit).
    pub fn from_model(model: &MiniMaxModelRemains, interval_pct: u8, weekly_pct: u8) -> (r:
        MiniMaxUsageStats)
        requires
            counts_in_range(*model),
        ensures
            r.interval_used == interval_used(*model),
            r.interval_total == model.current_interval_total_count,
            r.interval_pct == interval_pct,
            r.reset_time == model.end_time,
            model.current_weekly_total_count > 0 ==> {
                &&& r.weekly_used == Some(weekly_used(*model) as i64)
                &&& r.weekly_total == Some(model.current_weekly_total_count)
                &&& r.weekly_pct == Some(weekly_pct)
                &&& r.weekly_reset_time == model.weekly_end_time
            },
            model.current_weekly_total_count <= 0 ==> {
                &&& r.weekly_used is None
                &&& r.weekly_total is None
                &&& r.weekly_pct is None
                &&& r.weekly_reset_time is None
            },
    {
        let (interval_used, interval_total) = MiniMaxApiClient::interval_counts(model);
        let (weekly_used, weekly_total, weekly_pct, weekly_reset_time) = match MiniMaxApiClient::weekly_counts(model) {
            Some((u, t)) => (Some(u), Some(t), Some(weekly_pct), model.weekly_end_time),
            None => (None, None, None, None),
        };
        MiniMaxUsageStats {
            interval_used,
            interval_total,
            interval_pct,
            reset_time: model.end_time,
            weekly_used,
            weekly_total,
            weekly_pct,
            weekly_reset_time,
        }
    }
}

} // verus!
