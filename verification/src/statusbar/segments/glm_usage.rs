//! The GLM segment: which models it is shown for, and its text.

use crate::api::types::UsageStats;
use crate::config::types::InputData;
use crate::statusbar::segments::cache::Snapshot;
use crate::statusbar::segments::{SegmentData, SegmentStyle};
use crate::terminal::CharMode;
use crate::text::{
    concat_str, contains_folded, contains_text, i64_text, int_text, join_strings, join_text,
    lower_text, nat_text, texts, u64_text,
};
use crate::statusbar::segments::minimax_usage::icon_gap;
use crate::timefmt::{clock_text, local_time_reading, shown_reset, shown_reset_time, timestamp_in_range};
use vstd::prelude::*;
use vstd::string::*;

verus! {

impl Snapshot for UsageStats {
    fn snapshot(&self) -> (r: UsageStats) {
        self.duplicate()
    }
}

/// The icon of the token quota; none in minimal mode.
pub open spec fn token_icon(m: CharMode, minimal: bool) -> Seq<char> {
    if minimal {
        Seq::empty()
    } else {
        match m {
            CharMode::Emoji => "🔋"@,
            CharMode::Ascii => "$"@,
        }
    }
}
/// The icon of the reset time; none in minimal mode.
pub open spec fn clock_icon(m: CharMode, minimal: bool) -> Seq<char> {
    if minimal {
        Seq::empty()
    } else {
        match m {
            CharMode::Emoji => "⏰"@,
            CharMode::Ascii => "T"@,
        }
    }
}
/// The icon of the call count; none in minimal mode.
pub open spec fn chart_icon(m: CharMode, minimal: bool) -> Seq<char> {
    if minimal {
        Seq::empty()
    } else {
        match m {
            CharMode::Emoji => "📊"@,
            CharMode::Ascii => "#"@,
        }
    }
}
/// The icon of the weekly quota; none in minimal mode.
pub open spec fn calendar_icon(m: CharMode, minimal: bool) -> Seq<char> {
    if minimal {
        Seq::empty()
    } else {
        match m {
            CharMode::Emoji => "📅"@,
            CharMode::Ascii => "%"@,
        }
    }
}
/// The icon of the MCP quota; none in minimal mode.
pub open spec fn globe_icon(m: CharMode, minimal: bool) -> Seq<char> {
    if minimal {
        Seq::empty()
    } else {
        match m {
            CharMode::Emoji => "🌐"@,
            CharMode::Ascii => "M"@,
        }
    }
}
/// The icon of the token consumption; none in minimal mode.
pub open spec fn lightning_icon(m: CharMode, minimal: bool) -> Seq<char> {
    if minimal {
        Seq::empty()
    } else {
        match m {
            CharMode::Emoji => "⚡"@,
            CharMode::Ascii => "k"@,
        }
    }
}
/// The icon of the output speed; none in minimal mode.
pub open spec fn rocket_icon(m: CharMode, minimal: bool) -> Seq<char> {
    if minimal {
        Seq::empty()
    } else {
        match m {
            CharMode::Emoji => "🚀"@,
            CharMode::Ascii => "v"@,
        }
    }
}
/// The icon of the input speed; none in minimal mode.
pub open spec fn inbox_icon(m: CharMode, minimal: bool) -> Seq<char> {
    if minimal {
        Seq::empty()
    } else {
        match m {
            CharMode::Emoji => "📥"@,
            CharMode::Ascii => "^"@,
        }
    }
}
/// The icons of one character mode.
#[derive(Debug, Clone, Copy)]
pub struct GlmIcons {
    pub token: &'static str,
    pub clock: &'static str,
    pub chart: &'static str,
    pub calendar: &'static str,
    pub globe: &'static str,
    pub lightning: &'static str,
    pub rocket: &'static str,
    pub inbox: &'static str,
}

/// The icons of a character mode; all empty in minimal mode.
pub fn glm_icons(m: CharMode, minimal: bool) -> (r: GlmIcons)
    ensures
        r.token@ == token_icon(m, minimal),
        r.clock@ == clock_icon(m, minimal),
        r.chart@ == chart_icon(m, minimal),
        r.calendar@ == calendar_icon(m, minimal),
        r.globe@ == globe_icon(m, minimal),
        r.lightning@ == lightning_icon(m, minimal),
        r.rocket@ == rocket_icon(m, minimal),
        r.inbox@ == inbox_icon(m, minimal),
{
    if minimal {
        proof {
            reveal_strlit("");
        }
        return GlmIcons {
            token: "",
            clock: "",
            chart: "",
            calendar: "",
            globe: "",
            lightning: "",
            rocket: "",
            inbox: "",
        };
    }
    match m {
        CharMode::Emoji => GlmIcons {
            token: "🔋",
            clock: "⏰",
            chart: "📊",
            calendar: "📅",
            globe: "🌐",
            lightning: "⚡",
            rocket: "🚀",
            inbox: "📥",
        },
        CharMode::Ascii => GlmIcons {
            token: "$",
            clock: "T",
            chart: "#",
            calendar: "%",
            globe: "M",
            lightning: "k",
            rocket: "v",
            inbox: "^",
        },
    }
}

/// A part where there is one.
pub open spec fn opt_part(o: Option<Seq<char>>) -> Seq<Seq<char>> {
    match o {
        Some(p) => seq![p],
        None => Seq::empty(),
    }
}

/// The token quota with its reset time: `🔋 5% · ⏰ 23:00`.
pub open spec fn token_part(s: UsageStats, m: CharMode, minimal: bool, reset: Seq<char>) -> Option<Seq<char>> {
    match s.token_usage {
        Some(t) => Some(
            token_icon(m, minimal) + icon_gap(minimal) + nat_text(t.percentage as nat) + "% · "@
                + clock_icon(m, minimal) + icon_gap(minimal) + reset,
        ),
        None => None,
    }
}

/// A speed with its arrow and icon: `↓🚀 12.5`.
pub open spec fn speed_part(arrow: Seq<char>, icon: Seq<char>, gap: Seq<char>, speed: Option<Seq<char>>) -> Option<
    Seq<char>,
> {
    match speed {
        Some(v) => Some(arrow + icon + gap + v),
        None => None,
    }
}

/// The call count: `📊 93`.
pub open spec fn call_part(s: UsageStats, m: CharMode, minimal: bool) -> Option<Seq<char>> {
    match s.call_count {
        Some(c) => Some(chart_icon(m, minimal) + icon_gap(minimal) + int_text(c as int)),
        None => None,
    }
}

/// The weekly quota: `📅 25%`.
pub open spec fn weekly_part(s: UsageStats, m: CharMode, minimal: bool) -> Option<Seq<char>> {
    match s.weekly_usage {
        Some(w) => Some(calendar_icon(m, minimal) + icon_gap(minimal) + nat_text(w.percentage as nat) + "%"@),
        None => None,
    }
}

/// The MCP count: `🌐 0/1000`.
pub open spec fn mcp_part(s: UsageStats, m: CharMode, minimal: bool) -> Option<Seq<char>> {
    match s.mcp_usage {
        Some(u) => Some(
            globe_icon(m, minimal) + icon_gap(minimal) + int_text(u.used as int) + "/"@ + int_text(
                u.limit as int,
            ),
        ),
        None => None,
    }
}

/// The token consumption: `⚡ 3.38M`.
pub open spec fn tokens_part(m: CharMode, minimal: bool, tokens: Option<Seq<char>>) -> Option<Seq<char>> {
    match tokens {
        Some(v) => Some(lightning_icon(m, minimal) + icon_gap(minimal) + v),
        None => None,
    }
}

/// The parts of the GLM text, in order: token quota with its reset time,
/// output speed, input speed, call count, weekly quota, MCP count, token
/// consumption; each only where it is known.
pub open spec fn glm_parts(
    s: UsageStats,
    m: CharMode,
    minimal: bool,
    reset: Seq<char>,
    out_speed: Option<Seq<char>>,
    in_speed: Option<Seq<char>>,
    tokens: Option<Seq<char>>,
) -> Seq<Seq<char>> {
    opt_part(token_part(s, m, minimal, reset)) + opt_part(
        speed_part("↓"@, rocket_icon(m, minimal), icon_gap(minimal), out_speed),
    ) + opt_part(speed_part("↑"@, inbox_icon(m, minimal), icon_gap(minimal), in_speed)) + opt_part(
        call_part(s, m, minimal),
    ) + opt_part(weekly_part(s, m, minimal)) + opt_part(mcp_part(s, m, minimal)) + opt_part(
        tokens_part(m, minimal, tokens),
    )
}

/// Whether the GLM text has anything to show.
pub open spec fn glm_has_parts(
    s: UsageStats,
    out_speed: Option<Seq<char>>,
    in_speed: Option<Seq<char>>,
    tokens: Option<Seq<char>>,
) -> bool {
    ||| s.token_usage is Some
    ||| out_speed is Some
    ||| in_speed is Some
    ||| s.call_count is Some
    ||| s.weekly_usage is Some
    ||| s.mcp_usage is Some
    ||| tokens is Some
}

/// The GLM text: the prefix, a space, and the parts joined with ` · `;
/// empty without parts.
pub open spec fn glm_text(prefix: Seq<char>, parts: Seq<Seq<char>>) -> Seq<char> {
    if parts.len() == 0 {
        Seq::empty()
    } else {
        prefix + " "@ + join_text(parts, " · "@)
    }
}

/// The prefix of the GLM text: `GLM`; in minimal mode the model's id (or
/// `GLM` where no model is named).
pub open spec fn glm_prefix(input: InputData, minimal: bool) -> Seq<char> {
    if minimal {
        match input.model {
            Some(m) => m.id@,
            None => "GLM"@,
        }
    } else {
        "GLM"@
    }
}

/// The GLM text is empty exactly when there is nothing to show.
pub proof fn lemma_glm_text_empty(
    s: UsageStats,
    m: CharMode,
    minimal: bool,
    prefix: Seq<char>,
    reset: Seq<char>,
    out_speed: Option<Seq<char>>,
    in_speed: Option<Seq<char>>,
    tokens: Option<Seq<char>>,
)
    ensures
        (glm_text(prefix, glm_parts(s, m, minimal, reset, out_speed, in_speed, tokens)).len() == 0)
            <==> !glm_has_parts(s, out_speed, in_speed, tokens),
{
    reveal_strlit(" ");
}

/// In minimal mode the text carries no icons, so it is the same in either
/// character mode.
pub proof fn lemma_glm_minimal_ignores_mode(
    s: UsageStats,
    prefix: Seq<char>,
    reset: Seq<char>,
    out_speed: Option<Seq<char>>,
    in_speed: Option<Seq<char>>,
    tokens: Option<Seq<char>>,
)
    ensures
        glm_text(prefix, glm_parts(s, CharMode::Emoji, true, reset, out_speed, in_speed, tokens))
            == glm_text(prefix, glm_parts(s, CharMode::Ascii, true, reset, out_speed, in_speed, tokens)),
{
}

/// The views of optional texts.
pub open spec fn opt_view(o: Option<&str>) -> Option<Seq<char>> {
    match o {
        Some(s) => Some(s@),
        None => None,
    }
}

/// The views of an optional text.
pub open spec fn opt_string(o: Option<String>) -> Option<Seq<char>> {
    match o {
        Some(s) => Some(s@),
        None => None,
    }
}

/// `a`, the gap, then `b`.
fn gapped(a: &str, gap: &str, b: &str) -> (r: String)
    ensures
        r@ == a@ + gap@ + b@,
{
    let mut r = String::from_str(a);
    r.append(gap);
    r.append(b);
    r
}

/// The gap between an icon and its value.
fn gap_str(minimal: bool) -> (r: &'static str)
    ensures
        r@ == icon_gap(minimal),
{
    if minimal {
        proof {
            reveal_strlit("");
        }
        ""
    } else {
        " "
    }
}

/// Pushes a part, keeping track of the texts.
fn push_part(parts: &mut Vec<String>, p: String)
    ensures
        texts(final(parts)@) == texts(old(parts)@).push(p@),
{
    parts.push(p);
    assert(texts(parts@) =~= texts(old(parts)@).push(p@));
}

/// Pushes a part where there is one.
fn push_opt(parts: &mut Vec<String>, p: Option<String>)
    ensures
        texts(final(parts)@) == texts(old(parts)@) + opt_part(opt_string(p)),
{
    match p {
        Some(x) => {
            push_part(parts, x);
            assert(texts(parts@) =~= texts(old(parts)@) + opt_part(opt_string(Some(x))));
        },
        None => {
            assert(texts(parts@) =~= texts(old(parts)@) + opt_part(opt_string(p)));
        },
    }
}

fn token_part_exec(stats: &UsageStats, icons: &GlmIcons, gap: &str, m: CharMode, minimal: bool, reset: &str) -> (r:
    Option<String>)
    requires
        icons.token@ == token_icon(m, minimal),
        icons.clock@ == clock_icon(m, minimal),
        gap@ == icon_gap(minimal),
    ensures
        opt_string(r) == token_part(*stats, m, minimal, reset@),
{
    match &stats.token_usage {
        Some(t) => {
            let pct = u64_text(t.percentage as u64);
            let mut p = gapped(icons.token, gap, pct.as_str());
            p.append("% · ");
            p.append(icons.clock);
            p.append(gap);
            p.append(reset);
            Some(p)
        },
        None => None,
    }
}

fn speed_part_exec(arrow: &str, icon: &str, gap: &str, speed: Option<&str>) -> (r: Option<String>)
    ensures
        opt_string(r) == speed_part(arrow@, icon@, gap@, opt_view(speed)),
{
    match speed {
        Some(v) => {
            let mut p = concat_str(arrow, icon);
            p.append(gap);
            p.append(v);
            Some(p)
        },
        None => None,
    }
}

fn call_part_exec(stats: &UsageStats, icons: &GlmIcons, gap: &str, m: CharMode, minimal: bool) -> (r: Option<
    String,
>)
    requires
        icons.chart@ == chart_icon(m, minimal),
        gap@ == icon_gap(minimal),
    ensures
        opt_string(r) == call_part(*stats, m, minimal),
{
    match stats.call_count {
        Some(cc) => {
            let n = i64_text(cc);
            Some(gapped(icons.chart, gap, n.as_str()))
        },
        None => None,
    }
}

fn weekly_part_exec(stats: &UsageStats, icons: &GlmIcons, gap: &str, m: CharMode, minimal: bool) -> (r: Option<
    String,
>)
    requires
        icons.calendar@ == calendar_icon(m, minimal),
        gap@ == icon_gap(minimal),
    ensures
        opt_string(r) == weekly_part(*stats, m, minimal),
{
    match &stats.weekly_usage {
        Some(w) => {
            let pct = u64_text(w.percentage as u64);
            let mut p = gapped(icons.calendar, gap, pct.as_str());
            p.append("%");
            Some(p)
        },
        None => None,
    }
}

fn mcp_part_exec(stats: &UsageStats, icons: &GlmIcons, gap: &str, m: CharMode, minimal: bool) -> (r: Option<
    String,
>)
    requires
        icons.globe@ == globe_icon(m, minimal),
        gap@ == icon_gap(minimal),
    ensures
        opt_string(r) == mcp_part(*stats, m, minimal),
{
    match &stats.mcp_usage {
        Some(u) => {
            let used = i64_text(u.used);
            let limit = i64_text(u.limit);
            let mut p = gapped(icons.globe, gap, used.as_str());
            p.append("/");
            p.append(limit.as_str());
            Some(p)
        },
        None => None,
    }
}

fn tokens_part_exec(icons: &GlmIcons, gap: &str, m: CharMode, minimal: bool, tokens: Option<&str>) -> (r: Option<
    String,
>)
    requires
        icons.lightning@ == lightning_icon(m, minimal),
        gap@ == icon_gap(minimal),
    ensures
        opt_string(r) == tokens_part(m, minimal, opt_view(tokens)),
{
    match tokens {
        Some(v) => Some(gapped(icons.lightning, gap, v)),
        None => None,
    }
}

/// The GLM text of the statistics, with the prefix given, the reset time
/// already rendered (`reset`), the speeds already rendered (present where
/// positive), and the token consumption already rendered.
pub fn glm_stats_text(
    stats: &UsageStats,
    mode: CharMode,
    minimal: bool,
    prefix: &str,
    reset: &str,
    out_speed: Option<&str>,
    in_speed: Option<&str>,
    tokens: Option<&str>,
) -> (r: String)
    ensures
        r@ == glm_text(
            prefix@,
            glm_parts(*stats, mode, minimal, reset@, opt_view(out_speed), opt_view(in_speed), opt_view(tokens)),
        ),
{
    let icons = glm_icons(mode, minimal);
    let gap = gap_str(minimal);
    let mut parts: Vec<String> = Vec::new();
    push_opt(&mut parts, token_part_exec(stats, &icons, gap, mode, minimal, reset));
    push_opt(&mut parts, speed_part_exec("↓", icons.rocket, gap, out_speed));
    push_opt(&mut parts, speed_part_exec("↑", icons.inbox, gap, in_speed));
    push_opt(&mut parts, call_part_exec(stats, &icons, gap, mode, minimal));
    push_opt(&mut parts, weekly_part_exec(stats, &icons, gap, mode, minimal));
    push_opt(&mut parts, mcp_part_exec(stats, &icons, gap, mode, minimal));
    push_opt(&mut parts, tokens_part_exec(&icons, gap, mode, minimal, tokens));
    assert(texts(parts@) =~= glm_parts(
        *stats,
        mode,
        minimal,
        reset@,
        opt_view(out_speed),
        opt_view(in_speed),
        opt_view(tokens),
    ));
    if parts.len() == 0 {
        String::new()
    } else {
        let joined = join_strings(&parts, " · ");
        let mut r = concat_str(prefix, " ");
        r.append(joined.as_str());
        r
    }
}

/// The reset instant of the token quota (seconds since the epoch), where
/// known.
pub open spec fn token_reset_at(s: UsageStats) -> Option<i64> {
    match s.token_usage {
        Some(t) => t.reset_at,
        None => None,
    }
}

/// The GLM text of the statistics, with the token quota's reset time read
/// as local wall-clock time (`--:--` where there is none, or it is beyond
/// what `chrono` can hold).
pub fn format_stats(
    stats: &UsageStats,
    mode: CharMode,
    minimal: bool,
    prefix: &str,
    out_speed: Option<&str>,
    in_speed: Option<&str>,
    tokens: Option<&str>,
) -> (r: String)
    ensures
        exists|reset: Seq<char>|
            shown_reset(reset, token_reset_at(*stats)) && r@ == #[trigger] glm_text(
                prefix@,
                glm_parts(*stats, mode, minimal, reset, opt_view(out_speed), opt_view(in_speed), opt_view(tokens)),
            ),
{
    let reset_at = match &stats.token_usage {
        Some(t) => t.reset_at,
        None => None,
    };
    let reset = shown_reset_time(reset_at);
    glm_stats_text(stats, mode, minimal, prefix, reset.as_str(), out_speed, in_speed, tokens)
}

/// The GLM text shown while no statistics could be had.
pub open spec fn placeholder_text(m: CharMode) -> Seq<char> {
    "GLM "@ + join_text(
        seq![
            token_icon(m, false) + " % · "@ + clock_icon(m, false) + " --:--"@,
            "↓"@ + rocket_icon(m, false) + " --"@,
            "↑"@ + inbox_icon(m, false) + " --"@,
            chart_icon(m, false) + " 0"@,
            globe_icon(m, false) + " /"@,
            lightning_icon(m, false),
        ],
        " · "@,
    )
}

/// The GLM text shown while no statistics could be had.
pub fn placeholder(mode: CharMode) -> (r: String)
    ensures
        r@ == placeholder_text(mode),
{
    let icons = glm_icons(mode, false);
    let mut parts: Vec<String> = Vec::new();
    let mut p = concat_str(icons.token, " % · ");
    p.append(icons.clock);
    p.append(" --:--");
    push_part(&mut parts, p);
    let mut p = concat_str("↓", icons.rocket);
    p.append(" --");
    push_part(&mut parts, p);
    let mut p = concat_str("↑", icons.inbox);
    p.append(" --");
    push_part(&mut parts, p);
    push_part(&mut parts, concat_str(icons.chart, " 0"));
    push_part(&mut parts, concat_str(icons.globe, " /"));
    push_part(&mut parts, String::from_str(icons.lightning));
    assert(texts(parts@) =~= seq![
        token_icon(mode, false) + " % · "@ + clock_icon(mode, false) + " --:--"@,
        "↓"@ + rocket_icon(mode, false) + " --"@,
        "↑"@ + inbox_icon(mode, false) + " --"@,
        chart_icon(mode, false) + " 0"@,
        globe_icon(mode, false) + " /"@,
        lightning_icon(mode, false),
    ]);
    let joined = join_strings(&parts, " · ");
    concat_str("GLM ", joined.as_str())
}

/// The style of the GLM segment: 256-colour 109, bold.
pub fn glm_style() -> (r: SegmentStyle)
    ensures
        r.color is None,
        r.color_256 == Some(109u8),
        r.bold,
{
    SegmentStyle { color: None, color_256: Some(109), bold: true }
}

/// Whether the GLM segment is shown for the model: only for model ids that
/// mention `glm` (in any letter case); always where no model is named.
pub open spec fn shown_for_model(input: InputData) -> bool {
    match input.model {
        Some(m) => contains_text(lower_text(m.id@), "glm"@) || contains_text(
            lower_text(m.id@),
            "chatglm"@,
        ),
        None => true,
    }
}

/// Whether the GLM segment is shown for the model of the input.
pub fn is_glm_model(input: &InputData) -> (r: bool)
    ensures
        r == shown_for_model(*input),
{
    match &input.model {
        Some(m) => contains_folded(m.id.as_str(), "glm") || contains_folded(m.id.as_str(), "chatglm"),
        None => true,
    }
}

/// The prefix of the GLM text for the input.
fn prefix_for(input: &InputData, minimal: bool) -> (r: &str)
    ensures
        r@ == glm_prefix(*input, minimal),
{
    if minimal {
        match &input.model {
            Some(m) => m.id.as_str(),
            None => "GLM",
        }
    } else {
        "GLM"
    }
}

/// The GLM segment: nothing for models other than GLM; otherwise the text of
/// the statistics (or the placeholder where there are none) in the GLM
/// style, and nothing where that text is empty. In minimal mode the text
/// carries no icons and starts with the model's id.
pub fn collect(
    input: &InputData,
    stats: Option<&UsageStats>,
    mode: CharMode,
    minimal: bool,
    out_speed: Option<&str>,
    in_speed: Option<&str>,
    tokens: Option<&str>,
) -> (r: Option<SegmentData>)
    ensures
        !shown_for_model(*input) ==> r is None,
        shown_for_model(*input) && stats is None ==> (r matches Some(d) && d.text@ == placeholder_text(
            mode,
        ) && d.style.color_256 == Some(109u8) && d.style.bold && d.style.color is None),
        shown_for_model(*input) && stats is Some ==> match r {
            Some(d) => (exists|reset: Seq<char>|
                shown_reset(reset, token_reset_at(*stats.unwrap())) && d.text@ == #[trigger] glm_text(
                    glm_prefix(*input, minimal),
                    glm_parts(
                        *stats.unwrap(),
                        mode,
                        minimal,
                        reset,
                        opt_view(out_speed),
                        opt_view(in_speed),
                        opt_view(tokens),
                    ),
                )) && d.style.color_256 == Some(109u8) && d.style.bold && d.style.color is None,
            None => !glm_has_parts(
                *stats.unwrap(),
                opt_view(out_speed),
                opt_view(in_speed),
                opt_view(tokens),
            ),
        },
        r matches Some(d) ==> d.text@.len() > 0,
{
    if !is_glm_model(input) {
        return None;
    }
    let prefix = prefix_for(input, minimal);
    let text = match stats {
        Some(s) => format_stats(s, mode, minimal, prefix, out_speed, in_speed, tokens),
        None => {
            let t = placeholder(mode);
            proof {
                reveal_strlit("GLM ");
            }
            t
        },
    };
    if text.as_str().is_empty() {
        proof {
            if let Some(s) = stats {
                let reset = choose|reset: Seq<char>|
                    shown_reset(reset, token_reset_at(*s)) && text@ == #[trigger] glm_text(
                        prefix@,
                        glm_parts(
                            *s,
                            mode,
                            minimal,
                            reset,
                            opt_view(out_speed),
                            opt_view(in_speed),
                            opt_view(tokens),
                        ),
                    );
                lemma_glm_text_empty(
                    *s,
                    mode,
                    minimal,
                    prefix@,
                    reset,
                    opt_view(out_speed),
                    opt_view(in_speed),
                    opt_view(tokens),
                );
            }
        }
        None
    } else {
        Some(SegmentData { text, style: glm_style() })
    }
}

/// The reset time in the GLM text is that of the token quota itself: the
/// first part shows the token percentage, then the local clock that chrono
/// read for the quota's own reset instant (or `--:--` where there is none
/// that chrono can hold).
pub proof fn lemma_glm_reset_is_token_reset(
    s: UsageStats,
    m: CharMode,
    minimal: bool,
    reset: Seq<char>,
    out_speed: Option<Seq<char>>,
    in_speed: Option<Seq<char>>,
    tokens: Option<Seq<char>>,
)
    requires
        shown_reset(reset, token_reset_at(s)),
        s.token_usage is Some,
    ensures
        ({
            let t = s.token_usage->0;
            let first = glm_parts(s, m, minimal, reset, out_speed, in_speed, tokens)[0];
            let lead = token_icon(m, minimal) + icon_gap(minimal) + nat_text(t.percentage as nat) + "% · "@
                + clock_icon(m, minimal) + icon_gap(minimal);
            &&& (t.reset_at matches Some(x) && timestamp_in_range(x)) ==> exists|hm: (u32, u32)|
                local_time_reading(t.reset_at->0, hm) && first == lead + clock_text(hm.0 as nat, hm.1 as nat)
            &&& !(t.reset_at matches Some(x) && timestamp_in_range(x)) ==> first == lead + "--:--"@
        }),
{
    let parts = glm_parts(s, m, minimal, reset, out_speed, in_speed, tokens);
    assert(parts[0] == token_part(s, m, minimal, reset)->0);
}

} // verus!
