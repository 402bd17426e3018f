//! What a download reports: the events sent to the interface, and the
//! decisions taken from what yt-dlp printed and how it ended.
use vstd::prelude::*;
use vstd::string::*;

use crate::text::{chars_of, opt_string_view, owned, range_string, split_on, split_ranges, trim, trim_range};

verus! {

/// Title and thumbnail of the video behind a URL.
#[derive(Clone, Debug, PartialEq, Eq)]
pub struct InfoEvent {
    pub id: String,
    pub title: String,
    pub thumbnail: Option<String>,
}

/// A download finished; `output_path` is the folder it was saved into.
#[derive(Clone, Debug, PartialEq, Eq)]
pub struct DoneEvent {
    pub id: String,
    pub output_path: String,
}

/// A download failed with `message`.
#[derive(Clone, Debug, PartialEq, Eq)]
pub struct ErrorEvent {
    pub id: String,
    pub message: String,
}

/// The metadata that yt-dlp's JSON dump gives of a video.
#[derive(Clone, Debug, PartialEq, Eq)]
pub struct VideoInfo {
    pub title: Option<String>,
    pub thumbnail: Option<String>,
}

/// How a download ended.
#[derive(Clone, Debug, PartialEq, Eq)]
pub enum DownloadEnd {
    /// yt-dlp failed and said why on stderr.
    Failed(ErrorEvent),
    /// yt-dlp stopped without success and without a word on stderr: the
    /// download was cancelled.
    Cancelled,
    /// yt-dlp succeeded.
    Done(DoneEvent),
}

/// The first line of `text`, as `str::lines` gives it: up to the first
/// `\n`, without a `\r` right before that `\n`; none for an empty text.
pub open spec fn first_line_of(text: Seq<char>) -> Option<Seq<char>> {
    if text.len() == 0 {
        None
    } else {
        let p = split_on(text, '\n')[0];
        if p.len() < text.len() && p.len() > 0 && p.last() == '\r' {
            Some(p.drop_last())
        } else {
            Some(p)
        }
    }
}

/// The info event for `id`: the video's title, or the URL where it has
/// none, and its thumbnail.
pub fn info_event(id: &str, url: &str, info: VideoInfo) -> (e: InfoEvent)
    ensures
        e.id@ == id@,
        e.title@ == (match info.title {
            Some(t) => t@,
            None => url@,
        }),
        opt_string_view(e.thumbnail) == opt_string_view(info.thumbnail),
{
    let title = match info.title {
        Some(t) => t,
        None => owned(url),
    };
    InfoEvent { id: owned(id), title, thumbnail: info.thumbnail }
}

/// The first line of `text`, where the JSON dump of a video stands.
pub fn first_line(text: &str) -> (r: Option<String>)
    ensures
        opt_string_view(r) == first_line_of(text@),
{
    let v = chars_of(text);
    let n = v.len();
    if n == 0 {
        return None;
    }
    assert(v@.subrange(0, n as int) =~= text@);
    let pieces = split_ranges(&v, 0, n, '\n');
    proof {
        crate::text::lemma_split_on_nonempty(text@, '\n');
    }
    let (a, b) = pieces[0];
    if b - a < n && b > a && v[b - 1] == '\r' {
        let r = range_string(text, &v, a, b - 1);
        assert(r@ =~= v@.subrange(a as int, b as int).drop_last());
        Some(r)
    } else {
        Some(range_string(text, &v, a, b))
    }
}

/// Adds a line of yt-dlp's stderr to the text gathered so far.
pub fn append_stderr_line(text: &mut String, line: &str)
    ensures
        final(text)@ == old(text)@ + line@ + "\n"@,
{
    text.append(line);
    text.append("\n");
}

/// The end of download `id`: done (saved into `output_dir`) when yt-dlp
/// succeeded; otherwise failed with the trimmed stderr as message, or
/// cancelled when stderr holds nothing but whitespace.
pub fn finish_download(id: &str, output_dir: &str, succeeded: bool, err_text: &str) -> (r:
    DownloadEnd)
    ensures
        match r {
            DownloadEnd::Done(d) => succeeded && d.id@ == id@ && d.output_path@ == output_dir@,
            DownloadEnd::Cancelled => !succeeded && trim(err_text@).len() == 0,
            DownloadEnd::Failed(e) => !succeeded && trim(err_text@).len() > 0 && e.id@ == id@
                && e.message@ == trim(err_text@),
        },
{
    if succeeded {
        return DownloadEnd::Done(DoneEvent { id: owned(id), output_path: owned(output_dir) });
    }
    let v = chars_of(err_text);
    assert(v@.subrange(0, v@.len() as int) =~= err_text@);
    let (lo, hi) = trim_range(&v, 0, v.len());
    if lo == hi {
        DownloadEnd::Cancelled
    } else {
        DownloadEnd::Failed(
            ErrorEvent { id: owned(id), message: range_string(err_text, &v, lo, hi) },
        )
    }
}

/// Whether a download can start: yt-dlp must be installed.
pub fn download_requirement(yt_dlp_installed: bool) -> (r: Result<(), String>)
    ensures
        match r {
            Ok(()) => yt_dlp_installed,
            Err(e) => !yt_dlp_installed && e@ == "yt-dlp is not installed yet"@,
        },
{
    if yt_dlp_installed {
        Ok(())
    } else {
        Err(owned("yt-dlp is not installed yet"))
    }
}

} // verus!
