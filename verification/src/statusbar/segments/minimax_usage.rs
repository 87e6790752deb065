//! The MiniMax segment: its cache and its text.

use crate::api::minimax_types::MiniMaxUsageStats;
use crate::config::types::{Config, InputData};
use crate::statusbar::segments::cache::{
    fetch_outcome, get_or_fetch_outcome, held, measured_age, served, stamped_now, Snapshot, UsageCache,
};
use crate::statusbar::segments::glm_usage::opt_part;
use crate::statusbar::segments::{SegmentData, SegmentStyle};
use crate::terminal::CharMode;
use crate::text::{
    concat_str, contains_folded, contains_text, i64_text, int_text, join_strings, join_text, lower_text,
    nat_text, texts, u64_text,
};
use crate::api::client::millis_to_secs;
use crate::timefmt::{clock_text, local_time_reading, shown_reset, shown_reset_time, timestamp_in_range};
use vstd::prelude::*;
use vstd::string::*;

verus! {

impl Snapshot for MiniMaxUsageStats {
    fn snapshot(&self) -> (r: MiniMaxUsageStats) {
        *self
    }
}

/// The MiniMax segment: the statistics last fetched and the character mode.
#[derive(Debug)]
pub struct MiniMaxUsageSegment {
    pub cache: UsageCache<MiniMaxUsageStats>,
    pub char_mode: CharMode,
}

/// The four MiniMax icons (quota, reset time, calls, week); none in minimal
/// mode.
pub open spec fn minimax_icons(m: CharMode, minimal: bool) -> (Seq<char>, Seq<char>, Seq<char>, Seq<char>) {
    if minimal {
        (Seq::empty(), Seq::empty(), Seq::empty(), Seq::empty())
    } else {
        match m {
            CharMode::Emoji => ("🔋"@, "⏰"@, "📊"@, "📅"@),
            CharMode::Ascii => ("$"@, "T"@, "#"@, "%"@),
        }
    }
}

/// What stands between an icon and its value: a space, or nothing in
/// minimal mode.
pub open spec fn icon_gap(minimal: bool) -> Seq<char> {
    if minimal {
        Seq::empty()
    } else {
        " "@
    }
}

/// The parts of the MiniMax text: the interval percentage with its reset
/// time, the calls used out of the total, and the weekly percentage where
/// there is a weekly limit.
pub open spec fn minimax_parts(s: MiniMaxUsageStats, m: CharMode, minimal: bool, reset: Seq<char>) -> Seq<
    Seq<char>,
> {
    let icons = minimax_icons(m, minimal);
    let gap = icon_gap(minimal);
    seq![
        icons.0 + gap + nat_text(s.interval_pct as nat) + "% · "@ + icons.1 + gap + reset,
        icons.2 + gap + int_text(s.interval_used as int) + "/"@ + int_text(s.interval_total as int),
    ] + opt_part(
        match s.weekly_pct {
            Some(p) => Some(icons.3 + gap + nat_text(p as nat) + "%"@),
            None => None,
        },
    )
}

/// The MiniMax text: the prefix (the model's name), a space, and the parts
/// joined with ` · `.
pub open spec fn minimax_text(s: MiniMaxUsageStats, m: CharMode, minimal: bool, prefix: Seq<char>, reset: Seq<
    char,
>) -> Seq<char> {
    prefix + " "@ + join_text(minimax_parts(s, m, minimal, reset), " · "@)
}

/// The prefix of the MiniMax text: the model's id, or `MiniMax`.
pub open spec fn model_prefix(input: InputData) -> Seq<char> {
    match input.model {
        Some(m) => m.id@,
        None => "MiniMax"@,
    }
}

/// The icons of a mode.
fn icons_for(m: CharMode, minimal: bool) -> (r: (&'static str, &'static str, &'static str, &'static str))
    ensures
        r.0@ == minimax_icons(m, minimal).0,
        r.1@ == minimax_icons(m, minimal).1,
        r.2@ == minimax_icons(m, minimal).2,
        r.3@ == minimax_icons(m, minimal).3,
{
    if minimal {
        proof {
            reveal_strlit("");
        }
        ("", "", "", "")
    } else {
        match m {
            CharMode::Emoji => ("🔋", "⏰", "📊", "📅"),
            CharMode::Ascii => ("$", "T", "#", "%"),
        }
    }
}

/// The icon gap of a mode.
fn gap_for(minimal: bool) -> (r: &'static str)
    ensures
        r@ == icon_gap(minimal),
{
    if minimal {
        proof {
            reveal_strlit("");
        }
        ""
    } else {
        " "
    }
}

/// Three texts one after the other.
fn concat3(a: &str, b: &str, c: &str) -> (r: String)
    ensures
        r@ == a@ + b@ + c@,
{
    let mut r = concat_str(a, b);
    r.append(c);
    r
}

impl MiniMaxUsageSegment {
    /// A segment with an empty cache.
    pub fn new(char_mode: CharMode) -> (r: MiniMaxUsageSegment)
        ensures
            r.cache.entry is None,
            r.char_mode == char_mode,
    {
        MiniMaxUsageSegment { cache: UsageCache::new(), char_mode }
    }

    /// The cached statistics, where caching is on and they are younger than
    /// the configured lifetime.
    pub fn cached_stats(&self, config: &Config) -> (r: Option<MiniMaxUsageStats>)
        ensures
            !config.cache.enabled ==> r is None,
            self.cache.entry is None ==> r is None,
            r matches Some(s) ==> held(self.cache) == Some(s),
            self.cache.entry matches Some(e) ==> exists|age_secs: u64|
                measured_age(e.timestamp, age_secs) && r == #[trigger] served(
                    self.cache,
                    config.cache.enabled,
                    age_secs,
                    config.cache.ttl_seconds,
                ),
    {
        self.cache.fresh(config.cache.enabled, config.cache.ttl_seconds)
    }

    /// The statistics to show: the cached ones while caching is on and they
    /// are fresh (their age is read from the clock); otherwise what `fetch`
    /// gives (`None` where no client could be built, `Some(None)` where the
    /// fetch failed), settled as `settle` does.
    pub fn get_usage_stats<F>(&mut self, config: &Config, fetch: F) -> (r: Option<MiniMaxUsageStats>) where
        F: FnOnce() -> Option<Option<MiniMaxUsageStats>>,

        requires
            call_requires(fetch, ()),
        ensures
            final(self).char_mode == old(self).char_mode,
            exists|age_secs: u64|
                {
                    let now_served = #[trigger] served(
                        old(self).cache,
                        config.cache.enabled,
                        age_secs,
                        config.cache.ttl_seconds,
                    );
                    &&& now_served is Some ==> r == now_served && final(self).cache == old(self).cache
                    &&& now_served is None ==> exists|out: Option<Option<MiniMaxUsageStats>>|
                        call_ensures(fetch, (), out) && fetch_outcome(
                            old(self).cache,
                            final(self).cache,
                            config.cache.enabled,
                            out,
                            r,
                        )
                },
            get_or_fetch_outcome(
                old(self).cache,
                final(self).cache,
                config.cache.enabled,
                config.cache.ttl_seconds,
                fetch,
                r,
            ),
    {
        self.cache.get_or_fetch(config.cache.enabled, config.cache.ttl_seconds, fetch)
    }

    /// Settles a fetch: its statistics where it succeeded (kept where
    /// caching is on), else whatever the cache holds.
    pub fn settle(&mut self, config: &Config, fetched: Option<MiniMaxUsageStats>) -> (r: Option<
        MiniMaxUsageStats,
    >)
        ensures
            final(self).char_mode == old(self).char_mode,
            match fetched {
                Some(s) => {
                    &&& r == Some(s)
                    &&& config.cache.enabled ==> held(final(self).cache) == Some(s)
                },
                None => r == held(old(self).cache) && final(self).cache == old(self).cache,
            },
            config.cache.enabled && fetched is Some ==> (final(self).cache.entry matches Some(e) && stamped_now(
                e.timestamp,
            )),
    {
        self.cache.settle(config.cache.enabled, fetched)
    }

    /// The MiniMax text with the reset time already rendered.
    pub fn stats_text(stats: &MiniMaxUsageStats, char_mode: CharMode, minimal: bool, prefix: &str, reset: &str) -> (r:
        String)
        ensures
            r@ == minimax_text(*stats, char_mode, minimal, prefix@, reset@),
    {
        let icons = icons_for(char_mode, minimal);
        let gap = gap_for(minimal);
        let mut parts: Vec<String> = Vec::new();
        let pct = u64_text(stats.interval_pct as u64);
        let mut p = concat3(icons.0, gap, pct.as_str());
        p.append("% · ");
        p.append(icons.1);
        p.append(gap);
        p.append(reset);
        parts.push(p);
        let used = i64_text(stats.interval_used);
        let total = i64_text(stats.interval_total);
        let mut q = concat3(icons.2, gap, used.as_str());
        q.append("/");
        q.append(total.as_str());
        parts.push(q);
        let ghost two = texts(parts@);
        match stats.weekly_pct {
            Some(w) => {
                let wp = u64_text(w as u64);
                let mut x = concat3(icons.3, gap, wp.as_str());
                x.append("%");
                parts.push(x);
            },
            None => {},
        }
        assert(texts(parts@) =~= minimax_parts(*stats, char_mode, minimal, reset@));
        let joined = join_strings(&parts, " · ");
        let mut out = concat_str(prefix, " ");
        out.append(joined.as_str());
        out
    }

    /// The MiniMax text, with the reset time (milliseconds, cut to whole
    /// seconds toward zero) read as local wall-clock time, or `--:--`.
    pub fn format_stats(stats: &MiniMaxUsageStats, char_mode: CharMode, prefix: &str, minimal: bool) -> (r:
        String)
        ensures
            exists|reset: Seq<char>|
                shown_reset(reset, reset_secs(*stats)) && r@ == #[trigger] minimax_text(
                    *stats,
                    char_mode,
                    minimal,
                    prefix@,
                    reset,
                ),
    {
        let secs = match stats.reset_time {
            Some(ms) => Some(ms / 1000),
            None => None,
        };
        assert(secs == reset_secs(*stats));
        let reset = shown_reset_time(secs);
        Self::stats_text(stats, char_mode, minimal, prefix, reset.as_str())
    }

    /// The MiniMax segment: nothing for models other than MiniMax, nor
    /// without statistics; otherwise the text, prefixed with the model's id
    /// (or `MiniMax`), in 256-colour 208, bold.
    pub fn collect(&self, input: &InputData, stats: Option<MiniMaxUsageStats>, minimal: bool) -> (r: Option<
        SegmentData,
    >)
        ensures
            !shown_for_minimax(*input) ==> r is None,
            stats is None ==> r is None,
            (shown_for_minimax(*input) && stats is Some) ==> ({ let s = stats.unwrap(); r matches Some(d) && (exists|
                reset: Seq<char>,
            |
                shown_reset(reset, reset_secs(s)) && d.text@ == #[trigger] minimax_text(
                    s,
                    self.char_mode,
                    minimal,
                    model_prefix(*input),
                    reset,
                )) && d.style.color_256 == Some(208u8) && d.style.bold && d.style.color is None }),
    {
        if !is_minimax_model(input) {
            return None;
        }
        let s = match stats {
            Some(s) => s,
            None => {
                return None;
            },
        };
        let model_name = match &input.model {
            Some(m) => m.id.as_str(),
            None => "MiniMax",
        };
        assert(model_name@ == model_prefix(*input));
        let text = Self::format_stats(&s, self.char_mode, model_name, minimal);
        Some(SegmentData { text, style: SegmentStyle { color_256: Some(208), bold: true, color: None } })
    }
}

/// The reset instant in seconds: the reset time in milliseconds cut toward
/// zero.
pub open spec fn reset_secs(s: MiniMaxUsageStats) -> Option<i64> {
    match s.reset_time {
        Some(ms) => Some(millis_to_secs(ms as int) as i64),
        None => None,
    }
}

/// Whether the MiniMax segment is shown for the model: only for model ids
/// that mention `minimax` (in any letter case); always where no model is
/// named.
pub open spec fn shown_for_minimax(input: InputData) -> bool {
    match input.model {
        Some(m) => contains_text(lower_text(m.id@), "minimax"@),
        None => true,
    }
}

/// Whether the MiniMax segment is shown for the model of the input.
pub fn is_minimax_model(input: &InputData) -> (r: bool)
    ensures
        r == shown_for_minimax(*input),
{
    match &input.model {
        Some(m) => contains_folded(m.id.as_str(), "minimax"),
        None => true,
    }
}

/// In minimal mode the text carries no icons, so it is the same in either
/// character mode.
pub proof fn lemma_minimal_ignores_mode(s: MiniMaxUsageStats, prefix: Seq<char>, reset: Seq<char>)
    ensures
        minimax_text(s, CharMode::Emoji, true, prefix, reset) == minimax_text(
            s,
            CharMode::Ascii,
            true,
            prefix,
            reset,
        ),
{
}

/// The reset time in the MiniMax text is that of the interval: the first
/// part shows the interval percentage, then the local clock that chrono read
/// for the interval's reset instant (its milliseconds cut to seconds toward
/// zero), or `--:--` where there is none that chrono can hold.
pub proof fn lemma_minimax_reset_is_interval_reset(
    s: MiniMaxUsageStats,
    m: CharMode,
    minimal: bool,
    reset: Seq<char>,
)
    requires
        shown_reset(reset, reset_secs(s)),
    ensures
        ({
            let icons = minimax_icons(m, minimal);
            let first = minimax_parts(s, m, minimal, reset)[0];
            let lead = icons.0 + icon_gap(minimal) + nat_text(s.interval_pct as nat) + "% · "@ + icons.1
                + icon_gap(minimal);
            &&& (s.reset_time matches Some(ms) && timestamp_in_range(millis_to_secs(ms as int) as i64))
                ==> exists|hm: (u32, u32)|
                local_time_reading(millis_to_secs(s.reset_time->0 as int) as i64, hm) && first == lead
                    + clock_text(hm.0 as nat, hm.1 as nat)
            &&& !(s.reset_time matches Some(ms) && timestamp_in_range(millis_to_secs(ms as int) as i64))
                ==> first == lead + "--:--"@
        }),
{
}

} // verus!
