//! Joining the segments into the status line.

use crate::config::types::{Config, SegmentConfig};
use crate::statusbar::segments::{is_enabled, segment_enabled, SegmentData};
use crate::text::{join_strings, join_text, nat_text, texts, u64_text};
use vstd::prelude::*;
use vstd::string::*;

verus! {

/// The escape that selects a segment's colour: the 256-colour index where
/// there is one, else the RGB colour, else nothing.
pub open spec fn color_escape(d: SegmentData) -> Seq<char> {
    match d.style.color_256 {
        Some(c) => "\x1b[38;5;"@ + nat_text(c as nat) + "m"@,
        None => match d.style.color {
            Some(rgb) => "\x1b[38;2;"@ + nat_text(rgb.0 as nat) + ";"@ + nat_text(rgb.1 as nat) + ";"@
                + nat_text(rgb.2 as nat) + "m"@,
            None => Seq::empty(),
        },
    }
}

/// A segment as the terminal receives it: with colour on, its colour,
/// boldness, the text, and the reset escape; with colour off (`NO_COLOR`),
/// the bare text.
pub open spec fn segment_text(d: SegmentData, color: bool) -> Seq<char> {
    if color {
        color_escape(d) + (if d.style.bold {
            "\x1b[1m"@
        } else {
            Seq::empty()
        }) + d.text@ + "\x1b[0m"@
    } else {
        d.text@
    }
}

/// The rendered segments, in order, of those that are enabled and gave data.
pub open spec fn rendered_parts(
    ids: Seq<String>,
    data: Seq<Option<SegmentData>>,
    cfg: Seq<SegmentConfig>,
    color: bool,
) -> Seq<Seq<char>>
    decreases ids.len(),
{
    if ids.len() == 0 || data.len() != ids.len() {
        Seq::empty()
    } else {
        let prev = rendered_parts(ids.drop_last(), data.drop_last(), cfg, color);
        let i = ids.len() - 1;
        if segment_enabled(cfg, ids[i]@) && data[i] is Some {
            prev.push(segment_text(data[i].unwrap(), color))
        } else {
            prev
        }
    }
}

/// Status line generator: the ids of its segments, in order.
#[derive(Debug)]
pub struct StatusLineGenerator {
    pub segments: Vec<String>,
}

impl StatusLineGenerator {
    /// A generator without segments.
    pub fn new() -> (r: StatusLineGenerator)
        ensures
            r.segments@.len() == 0,
    {
        StatusLineGenerator { segments: Vec::new() }
    }

    /// The generator with one more segment at the end.
    pub fn add_segment(self, id: String) -> (r: StatusLineGenerator)
        ensures
            r.segments@ == self.segments@.push(id),
    {
        let mut s = self;
        s.segments.push(id);
        s
    }

    /// The status line: the segments that are enabled and gave data
    /// (`collected[i]` is what segment `i` gave), each rendered, joined
    /// with the configured separator; `color` is off where `NO_COLOR` or
    /// `USAGE_NO_COLOR` is set.
    pub fn generate(&self, collected: &Vec<Option<SegmentData>>, config: &Config, color: bool) -> (r: String)
        requires
            collected@.len() == self.segments@.len(),
        ensures
            r@ == join_text(
                rendered_parts(self.segments@, collected@, config.segments@, color),
                config.style.separator@,
            ),
    {
        let n = self.segments.len();
        let mut parts: Vec<String> = Vec::new();
        let mut i: usize = 0;
        while i < n
            invariant
                n == self.segments@.len(),
                collected@.len() == n,
                i <= n,
                texts(parts@) == rendered_parts(
                    self.segments@.take(i as int),
                    collected@.take(i as int),
                    config.segments@,
                    color,
                ),
            decreases n - i,
        {
            let ghost prev = texts(parts@);
            assert(self.segments@.take(i + 1).drop_last() =~= self.segments@.take(i as int));
            assert(collected@.take(i + 1).drop_last() =~= collected@.take(i as int));
            if is_enabled(config, self.segments[i].as_str()) {
                match &collected[i] {
                    Some(d) => {
                        let formatted = Self::format_segment(d, color);
                        parts.push(formatted);
                        assert(texts(parts@) =~= prev.push(segment_text(*d, color)));
                    },
                    None => {},
                }
            }
            i = i + 1;
        }
        assert(self.segments@.take(n as int) =~= self.segments@);
        assert(collected@.take(n as int) =~= collected@);
        join_strings(&parts, config.style.separator.as_str())
    }

    /// One segment as the terminal receives it; with colour off, its bare
    /// text.
    pub fn format_segment(data: &SegmentData, color: bool) -> (r: String)
        ensures
            r@ == segment_text(*data, color),
    {
        if !color {
            return String::from_str(data.text.as_str());
        }
        let mut out = String::new();
        match data.style.color_256 {
            Some(c) => {
                out.append("\x1b[38;5;");
                let n = u64_text(c as u64);
                out.append(n.as_str());
                out.append("m");
            },
            None => match data.style.color {
                Some((r, g, b)) => {
                    out.append("\x1b[38;2;");
                    let rs = u64_text(r as u64);
                    out.append(rs.as_str());
                    out.append(";");
                    let gs = u64_text(g as u64);
                    out.append(gs.as_str());
                    out.append(";");
                    let bs = u64_text(b as u64);
                    out.append(bs.as_str());
                    out.append("m");
                },
                None => {},
            },
        }
        if data.style.bold {
            out.append("\x1b[1m");
        }
        out.append(data.text.as_str());
        out.append("\x1b[0m");
        proof {
            assert(out@ =~= segment_text(*data, color));
        }
        out
    }
}

/// With colour on, every rendered segment ends by resetting the terminal's
/// style.
pub proof fn lemma_segment_closes_style(d: SegmentData)
    ensures
        segment_text(d, true).len() >= 4,
        segment_text(d, true).subrange(segment_text(d, true).len() - 4, segment_text(d, true).len() as int)
            == "\x1b[0m"@,
{
    reveal_strlit("\x1b[0m");
    let t = segment_text(d, true);
    assert(t.subrange(t.len() - 4, t.len() as int) =~= "\x1b[0m"@);
}

/// A join of parts that are not empty is empty only where there are no
/// parts.
proof fn lemma_join_nonempty(parts: Seq<Seq<char>>, sep: Seq<char>)
    requires
        parts.len() > 0,
        forall|i: int| 0 <= i < parts.len() ==> parts[i].len() > 0,
    ensures
        join_text(parts, sep).len() > 0,
    decreases parts.len(),
{
    if parts.len() > 1 {
        assert(parts.last().len() > 0);
    }
}

/// Every segment's text is shown, where colour is off.
pub open spec fn texts_shown(data: Seq<Option<SegmentData>>, color: bool) -> bool {
    color || forall|i: int| 0 <= i < data.len() && #[trigger] data[i] is Some ==> data[i].unwrap().text@.len() > 0
}

/// Every part of the status line is a rendered segment, and so not empty:
/// with colour on it holds escapes; with colour off it is a segment's text.
proof fn lemma_rendered_parts_nonempty(
    ids: Seq<String>,
    data: Seq<Option<SegmentData>>,
    cfg: Seq<SegmentConfig>,
    color: bool,
)
    requires
        texts_shown(data, color),
    ensures
        forall|i: int|
            0 <= i < rendered_parts(ids, data, cfg, color).len() ==> rendered_parts(ids, data, cfg, color)[i].len()
                > 0,
    decreases ids.len(),
{
    if ids.len() > 0 && data.len() == ids.len() {
        let n = ids.len() - 1;
        assert forall|i: int| 0 <= i < data.drop_last().len() && #[trigger] data.drop_last()[i] is Some implies (color
            || data.drop_last()[i].unwrap().text@.len() > 0) by {
            assert(data.drop_last()[i] == data[i]);
        }
        lemma_rendered_parts_nonempty(ids.drop_last(), data.drop_last(), cfg, color);
        let prev = rendered_parts(ids.drop_last(), data.drop_last(), cfg, color);
        if segment_enabled(cfg, ids[n]@) && data[n] is Some {
            let x = segment_text(data[n].unwrap(), color);
            lemma_segment_closes_style(data[n].unwrap());
            let parts = prev.push(x);
            assert(rendered_parts(ids, data, cfg, color) == parts);
            assert forall|i: int| 0 <= i < parts.len() implies parts[i].len() > 0 by {
                if i < prev.len() {
                    assert(parts[i] == prev[i]);
                }
            }
        }
    }
}

/// The status line is empty exactly when no enabled segment gave data
/// (with colour off, where every segment's text is shown).
pub proof fn lemma_status_line_empty(
    ids: Seq<String>,
    data: Seq<Option<SegmentData>>,
    cfg: Seq<SegmentConfig>,
    color: bool,
    sep: Seq<char>,
)
    requires
        data.len() == ids.len(),
        texts_shown(data, color),
    ensures
        (join_text(rendered_parts(ids, data, cfg, color), sep).len() == 0) <==> (forall|i: int|
            0 <= i < ids.len() ==> !(segment_enabled(cfg, ids[i]@) && data[i] is Some)),
    decreases ids.len(),
{
    lemma_rendered_parts_nonempty(ids, data, cfg, color);
    let parts = rendered_parts(ids, data, cfg, color);
    if parts.len() > 0 {
        lemma_join_nonempty(parts, sep);
    }
    if ids.len() > 0 {
        let n = ids.len() - 1;
        assert forall|i: int| 0 <= i < data.drop_last().len() && #[trigger] data.drop_last()[i] is Some implies (color
            || data.drop_last()[i].unwrap().text@.len() > 0) by {
            assert(data.drop_last()[i] == data[i]);
        }
        lemma_status_line_empty(ids.drop_last(), data.drop_last(), cfg, color, sep);
        lemma_rendered_parts_nonempty(ids.drop_last(), data.drop_last(), cfg, color);
        let prev = rendered_parts(ids.drop_last(), data.drop_last(), cfg, color);
        if prev.len() > 0 {
            lemma_join_nonempty(prev, sep);
        }
        assert forall|i: int| 0 <= i < n implies ids.drop_last()[i] == ids[i] && data.drop_last()[i] == data[i] by {}
        if parts.len() == 0 {
            assert forall|i: int| 0 <= i < ids.len() implies !(segment_enabled(cfg, ids[i]@) && data[i] is Some) by {
                if i < n {
                    assert(ids.drop_last()[i] == ids[i]);
                    assert(data.drop_last()[i] == data[i]);
                }
            }
        } else {
            if prev.len() == 0 {
                assert(segment_enabled(cfg, ids[n]@) && data[n] is Some);
            } else {
                let i = choose|i: int|
                    0 <= i < n && (segment_enabled(cfg, ids.drop_last()[i]@) && data.drop_last()[i] is Some);
                assert(ids.drop_last()[i] == ids[i]);
            }
        }
    }
}

/// Adding a segment puts it last: the status line of the longer generator
/// is that of the shorter one, followed (after the separator, where the
/// shorter one shows anything) by the new segment rendered, where it is
/// enabled and gave data; earlier segments keep their order.
pub proof fn lemma_added_segment_comes_last(
    ids: Seq<String>,
    data: Seq<Option<SegmentData>>,
    id: String,
    d: Option<SegmentData>,
    cfg: Seq<SegmentConfig>,
    color: bool,
    sep: Seq<char>,
)
    requires
        data.len() == ids.len(),
    ensures
        ({
            let before = rendered_parts(ids, data, cfg, color);
            let after = rendered_parts(ids.push(id), data.push(d), cfg, color);
            if segment_enabled(cfg, id@) && d is Some {
                &&& after == before.push(segment_text(d.unwrap(), color))
                &&& join_text(after, sep) == if before.len() == 0 {
                    segment_text(d.unwrap(), color)
                } else {
                    join_text(before, sep) + sep + segment_text(d.unwrap(), color)
                }
            } else {
                &&& after == before
                &&& join_text(after, sep) == join_text(before, sep)
            }
        }),
{
    assert(ids.push(id).drop_last() =~= ids);
    assert(data.push(d).drop_last() =~= data);
    let before = rendered_parts(ids, data, cfg, color);
    let after = rendered_parts(ids.push(id), data.push(d), cfg, color);
    if segment_enabled(cfg, id@) && d is Some {
        assert(after == before.push(segment_text(d.unwrap(), color)));
        assert(after.drop_last() =~= before);
    }
}

} // verus!
