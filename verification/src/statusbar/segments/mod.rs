//! Segments of the status line.

pub mod cache;
pub mod glm_usage;
pub mod minimax_usage;

use crate::config::types::{Config, SegmentConfig};
use crate::text::same_text;
use vstd::prelude::*;

verus! {

/// What a segment shows, and how.
#[derive(Debug)]
pub struct SegmentData {
    pub text: String,
    pub style: SegmentStyle,
}

/// The style of a segment: an RGB colour, a 256-colour index (which wins
/// over the RGB colour), and boldness.
#[derive(Debug, Clone, Copy)]
pub struct SegmentStyle {
    pub color: Option<(u8, u8, u8)>,
    pub color_256: Option<u8>,
    pub bold: bool,
}

impl Default for SegmentStyle {
    fn default() -> (r: SegmentStyle)
        ensures
            r.color is None,
            r.color_256 is None,
            !r.bold,
    {
        SegmentStyle { color: None, color_256: None, bold: false }
    }
}

/// `i` is the first segment configuration with the given id.
pub open spec fn is_first_with_id(segments: Seq<SegmentConfig>, id: Seq<char>, i: int) -> bool {
    &&& 0 <= i < segments.len()
    &&& segments[i].id@ == id
    &&& forall|j: int| 0 <= j < i ==> segments[j].id@ != id
}

/// Whether a segment is enabled: as the first configuration with its id
/// says; a segment without one is disabled.
pub open spec fn segment_enabled(segments: Seq<SegmentConfig>, id: Seq<char>) -> bool {
    exists|i: int| is_first_with_id(segments, id, i) && segments[i].enabled
}

/// Whether the segment with this id is enabled in the configuration.
pub fn is_enabled(config: &Config, id: &str) -> (r: bool)
    ensures
        r == segment_enabled(config.segments@, id@),
{
    let segments = &config.segments;
    let n = segments.len();
    let mut i: usize = 0;
    while i < n
        invariant
            n == segments@.len(),
            segments@ == config.segments@,
            i <= n,
            forall|j: int| 0 <= j < i ==> segments@[j].id@ != id@,
        decreases n - i,
    {
        let s = &segments[i];
        if same_text(s.id.as_str(), id) {
            proof {
                assert(is_first_with_id(segments@, id@, i as int));
                if !s.enabled {
                    assert forall|k: int| is_first_with_id(segments@, id@, k) implies !segments@[k].enabled by {
                        if k < i {
                            assert(segments@[k].id@ != id@);
                        } else if k > i {
                            assert(segments@[i as int].id@ != id@);
                        }
                    }
                }
            }
            return s.enabled;
        }
        i = i + 1;
    }
    false
}

} // verus!
