//! Reading yt-dlp's stdout: the progress lines that the fixed progress
//! template produces, and the lines that announce post-processing.
use vstd::prelude::*;
use vstd::string::*;

use crate::text::{
    chars_of, contains_text, free_of, has_prefix, lemma_split_on_first_piece, lemma_split_on_free,
    occurs_in, opt_string_view, range_equals, range_string, split_on, split_ranges, starts_with_text,
    strip_leading, strip_leading_range, strip_trailing, strip_trailing_range, trim, trim_range,
};

verus! {

/// Unique marker at the start of every progress line, so that a progress
/// line cannot be confused with other yt-dlp output.
pub const PROGRESS_MARKER: &'static str = "OMNIFORM_PROGRESS";

/// The progress template handed to yt-dlp: the marker, then percent, speed
/// and ETA, separated by `|` in that order.
pub const PROGRESS_TEMPLATE: &'static str = "OMNIFORM_PROGRESS|%(progress._percent_str)s|%(progress._speed_str)s|%(progress._eta_str)s";

/// What yt-dlp prints for a value that it does not know.
pub const NOT_AVAILABLE: &'static str = "N/A";

/// Stdout markers of the merge and audio-extraction steps.
pub const MERGER_MARKER: &'static str = "[Merger]";

pub const EXTRACT_AUDIO_MARKER: &'static str = "[ExtractAudio]";

/// The fields of one progress line, as text. The percent is the number
/// as yt-dlp printed it, without surrounding whitespace and trailing `%`.
#[derive(Clone, Debug, PartialEq, Eq)]
pub struct ProgressFields {
    pub percent: String,
    pub speed: Option<String>,
    pub eta: Option<String>,
}

/// The mathematical value of `ProgressFields`.
pub struct ProgressFieldsView {
    pub percent: Seq<char>,
    pub speed: Option<Seq<char>>,
    pub eta: Option<Seq<char>>,
}

impl View for ProgressFields {
    type V = ProgressFieldsView;

    open spec fn view(&self) -> ProgressFieldsView {
        ProgressFieldsView {
            percent: self.percent@,
            speed: opt_string_view(self.speed),
            eta: opt_string_view(self.eta),
        }
    }
}

/// A speed or ETA field: absent when it is blank or `N/A`, else its
/// trimmed text.
pub open spec fn optional_field(p: Seq<char>) -> Option<Seq<char>> {
    let t = trim(p);
    if t.len() == 0 || t == NOT_AVAILABLE@ {
        None
    } else {
        Some(t)
    }
}

/// The fields of a progress line: `None` unless the line starts with the
/// marker and, after the marker and any `|` right behind it, holds at
/// least three `|`-separated pieces. Pieces past the third are ignored.
pub open spec fn progress_fields(line: Seq<char>) -> Option<ProgressFieldsView> {
    if !has_prefix(line, PROGRESS_MARKER@) {
        None
    } else {
        let rest = strip_leading(line.skip(PROGRESS_MARKER@.len() as int), '|');
        let parts = split_on(rest, '|');
        if parts.len() < 3 {
            None
        } else {
            Some(
                ProgressFieldsView {
                    percent: strip_trailing(trim(parts[0]), '%'),
                    speed: optional_field(parts[1]),
                    eta: optional_field(parts[2]),
                },
            )
        }
    }
}

/// A line that the merge or audio-extraction step prints.
pub open spec fn is_postprocess_text(line: Seq<char>) -> bool {
    occurs_in(MERGER_MARKER@, line) || occurs_in(EXTRACT_AUDIO_MARKER@, line)
}

fn optional_field_range(line: &str, v: &Vec<char>, a: usize, b: usize) -> (r: Option<String>)
    requires
        v@ == line@,
        a <= b <= v@.len(),
    ensures
        opt_string_view(r) == optional_field(v@.subrange(a as int, b as int)),
{
    let (lo, hi) = trim_range(v, a, b);
    if lo == hi || range_equals(v, lo, hi, NOT_AVAILABLE) {
        None
    } else {
        Some(range_string(line, v, lo, hi))
    }
}

/// Reads a line of the progress template: the percent text, the speed and
/// the ETA, or `None` where the line is no progress line.
pub fn parse_progress_marker_line(line: &str) -> (r: Option<ProgressFields>)
    ensures
        match r {
            Some(f) => progress_fields(line@) == Some(f@),
            None => progress_fields(line@) is None,
        },
{
    let v = chars_of(line);
    if !starts_with_text(&v, PROGRESS_MARKER) {
        return None;
    }
    let m = PROGRESS_MARKER.unicode_len();
    let n = v.len();
    assert(v@.subrange(m as int, n as int) =~= line@.skip(m as int));
    let a = strip_leading_range(&v, m, n, '|');
    let parts = split_ranges(&v, a, n, '|');
    if parts.len() < 3 {
        return None;
    }
    let (p0, q0) = parts[0];
    let (lo, hi) = trim_range(&v, p0, q0);
    let hi2 = strip_trailing_range(&v, lo, hi, '%');
    let percent = range_string(line, &v, lo, hi2);
    let (p1, q1) = parts[1];
    let speed = optional_field_range(line, &v, p1, q1);
    let (p2, q2) = parts[2];
    let eta = optional_field_range(line, &v, p2, q2);
    let r = ProgressFields { percent, speed, eta };
    assert(r@ == progress_fields(line@).unwrap());
    Some(r)
}

/// Whether a stdout line announces the merge or audio-extraction step.
pub fn is_postprocess_line(line: &str) -> (r: bool)
    ensures
        r == is_postprocess_text(line@),
        r == (occurs_in(MERGER_MARKER@, line@) || occurs_in(EXTRACT_AUDIO_MARKER@, line@)),
{
    let v = chars_of(line);
    contains_text(&v, MERGER_MARKER) || contains_text(&v, EXTRACT_AUDIO_MARKER)
}

/// A line that the progress template renders from a percent, speed and
/// ETA text reads back as those fields: the percent trimmed and without
/// its `%`, and speed and ETA trimmed, or absent where blank or `N/A`.
/// This holds where no field holds a `|` and the percent is not empty.
pub proof fn law_progress_line_round_trip(percent: Seq<char>, speed: Seq<char>, eta: Seq<char>)
    requires
        percent.len() > 0,
        free_of(percent, '|'),
        free_of(speed, '|'),
        free_of(eta, '|'),
    ensures
        progress_fields(
            PROGRESS_MARKER@ + seq!['|'] + percent + seq!['|'] + speed + seq!['|'] + eta,
        ) == Some(
            ProgressFieldsView {
                percent: strip_trailing(trim(percent), '%'),
                speed: optional_field(speed),
                eta: optional_field(eta),
            },
        ),
{
    let m = PROGRESS_MARKER@;
    let body = percent + seq!['|'] + speed + seq!['|'] + eta;
    let line = m + seq!['|'] + percent + seq!['|'] + speed + seq!['|'] + eta;
    assert(line =~= m + (seq!['|'] + body));
    assert(line.take(m.len() as int) =~= m);
    assert(line.skip(m.len() as int) =~= seq!['|'] + body);
    assert((seq!['|'] + body).drop_first() =~= body);
    assert(body[0] == percent[0]);
    assert(strip_leading(seq!['|'] + body, '|') == strip_leading(body, '|'));
    assert(strip_leading(body, '|') == body);
    let tail = speed + seq!['|'] + eta;
    assert(body =~= percent + seq!['|'] + tail);
    lemma_split_on_first_piece(percent, tail, '|');
    lemma_split_on_first_piece(speed, eta, '|');
    lemma_split_on_free(eta, '|');
    assert(split_on(body, '|') =~= seq![percent, speed, eta]);
}

/// A line is a post-processing line when `[Merger]` or `[ExtractAudio]`
/// stands anywhere in it, whatever comes before or after, and only then.
pub proof fn law_postprocess_markers_anywhere(before: Seq<char>, after: Seq<char>, line: Seq<char>)
    ensures
        is_postprocess_text(before + MERGER_MARKER@ + after),
        is_postprocess_text(before + EXTRACT_AUDIO_MARKER@ + after),
        !occurs_in(MERGER_MARKER@, line) && !occurs_in(EXTRACT_AUDIO_MARKER@, line)
            ==> !is_postprocess_text(line),
{
    let m = before + MERGER_MARKER@ + after;
    assert(m.subrange(before.len() as int, (before.len() + MERGER_MARKER@.len()) as int) =~= MERGER_MARKER@);
    let x = before + EXTRACT_AUDIO_MARKER@ + after;
    assert(x.subrange(before.len() as int, (before.len() + EXTRACT_AUDIO_MARKER@.len()) as int)
        =~= EXTRACT_AUDIO_MARKER@);
}

} // verus!
