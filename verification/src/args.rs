//! The command lines handed to yt-dlp.
use vstd::prelude::*;

use crate::progress::PROGRESS_TEMPLATE;
use crate::text::{owned, str_equals, strings_view};

verus! {

/// The audio formats: for these yt-dlp extracts the audio track.
pub open spec fn is_audio_format(format: Seq<char>) -> bool {
    format == "mp3"@ || format == "wav"@ || format == "flac"@ || format == "m4a"@ || format
        == "ogg"@
}

/// yt-dlp's `--audio-quality` value for a quality name: 5 for `low`, 2 for
/// `medium`, and 0 (the best) for `high` and anything else.
pub open spec fn bitrate_for(quality: Seq<char>) -> Seq<char> {
    if quality == "low"@ {
        "5"@
    } else if quality == "medium"@ {
        "2"@
    } else {
        "0"@
    }
}

/// The height limit that a video quality name asks for, if any.
pub open spec fn height_for(quality: Seq<char>) -> Option<Seq<char>> {
    if quality == "1080p"@ {
        Some("1080"@)
    } else if quality == "720p"@ {
        Some("720"@)
    } else if quality == "480p"@ {
        Some("480"@)
    } else {
        None
    }
}

/// The format selector for a video download: best mp4 video with m4a
/// audio, within the height limit where there is one.
pub open spec fn format_selector(height: Option<Seq<char>>) -> Seq<char> {
    match height {
        Some(h) => "bestvideo[height<="@ + h + "][ext=mp4]+bestaudio[ext=m4a]/best[height<="@ + h
            + "]"@,
        None => "bestvideo[ext=mp4]+bestaudio[ext=m4a]/best"@,
    }
}

/// The arguments that select the output format and quality.
pub open spec fn format_args(format: Seq<char>, quality: Seq<char>) -> Seq<Seq<char>> {
    if is_audio_format(format) {
        seq!["-x"@, "--audio-format"@, format, "--audio-quality"@, bitrate_for(quality)]
    } else {
        seq!["-f"@, format_selector(height_for(quality)), "--merge-output-format"@, format]
    }
}

/// The whole argument list of a download.
pub open spec fn download_args_spec(
    ffmpeg_location: Seq<char>,
    output_dir: Seq<char>,
    format: Seq<char>,
    quality: Seq<char>,
    url: Seq<char>,
) -> Seq<Seq<char>> {
    seq![
        "--newline"@,
        "--no-playlist"@,
        "--ffmpeg-location"@,
        ffmpeg_location,
        "-o"@,
        output_dir + "/%(title)s.%(ext)s"@,
        "--progress-template"@,
        PROGRESS_TEMPLATE@,
    ] + format_args(format, quality) + seq![url]
}

/// The argument list that asks for a video's metadata as JSON.
pub open spec fn info_args_spec(url: Seq<char>) -> Seq<Seq<char>> {
    seq!["--dump-json"@, "--no-download"@, "--no-playlist"@, url]
}

/// yt-dlp's `--audio-quality` value for a quality name.
pub fn audio_quality_to_bitrate(quality: &str) -> (r: &'static str)
    ensures
        r@ == bitrate_for(quality@),
{
    if str_equals(quality, "low") {
        "5"
    } else if str_equals(quality, "medium") {
        "2"
    } else {
        "0"
    }
}

/// Whether `format` is one of the audio formats.
pub fn is_audio(format: &str) -> (r: bool)
    ensures
        r == is_audio_format(format@),
{
    str_equals(format, "mp3") || str_equals(format, "wav") || str_equals(format, "flac")
        || str_equals(format, "m4a") || str_equals(format, "ogg")
}

fn video_height(quality: &str) -> (r: Option<&'static str>)
    ensures
        match r {
            Some(h) => height_for(quality@) == Some(h@),
            None => height_for(quality@) is None,
        },
{
    if str_equals(quality, "1080p") {
        Some("1080")
    } else if str_equals(quality, "720p") {
        Some("720")
    } else if str_equals(quality, "480p") {
        Some("480")
    } else {
        None
    }
}

/// The arguments that select the output format and quality.
pub fn format_to_args(format: &str, quality: &str) -> (r: Vec<String>)
    ensures
        strings_view(r@) == format_args(format@, quality@),
        is_audio_format(format@) ==> r@.len() == 5 && r@[2]@ == format@ && r@[4]@ == bitrate_for(
            quality@,
        ),
        !is_audio_format(format@) ==> r@.len() == 4 && r@[1]@ == format_selector(
            height_for(quality@),
        ) && r@[3]@ == format@,
{
    let mut r: Vec<String> = Vec::new();
    if is_audio(format) {
        r.push(owned("-x"));
        r.push(owned("--audio-format"));
        r.push(owned(format));
        r.push(owned("--audio-quality"));
        r.push(owned(audio_quality_to_bitrate(quality)));
    } else {
        let height = video_height(quality);
        let selector = match height {
            Some(h) => {
                let mut s = owned("bestvideo[height<=");
                s.append(h);
                s.append("][ext=mp4]+bestaudio[ext=m4a]/best[height<=");
                s.append(h);
                s.append("]");
                s
            },
            None => owned("bestvideo[ext=mp4]+bestaudio[ext=m4a]/best"),
        };
        r.push(owned("-f"));
        r.push(selector);
        r.push(owned("--merge-output-format"));
        r.push(owned(format));
    }
    assert(strings_view(r@) =~= format_args(format@, quality@));
    r
}

/// The whole argument list of a download: line-by-line progress through the
/// fixed template, no playlists, ffmpeg from `ffmpeg_location`, output
/// named by title inside `output_dir`, then the format arguments and the URL.
pub fn download_args(
    ffmpeg_location: &str,
    output_dir: &str,
    format: &str,
    quality: &str,
    url: &str,
) -> (r: Vec<String>)
    ensures
        strings_view(r@) == download_args_spec(
            ffmpeg_location@,
            output_dir@,
            format@,
            quality@,
            url@,
        ),
{
    let mut r: Vec<String> = Vec::new();
    r.push(owned("--newline"));
    r.push(owned("--no-playlist"));
    r.push(owned("--ffmpeg-location"));
    r.push(owned(ffmpeg_location));
    r.push(owned("-o"));
    let mut out = owned(output_dir);
    out.append("/%(title)s.%(ext)s");
    r.push(out);
    r.push(owned("--progress-template"));
    r.push(owned(PROGRESS_TEMPLATE));
    let mut fa = format_to_args(format, quality);
    r.append(&mut fa);
    r.push(owned(url));
    assert(strings_view(r@) =~= download_args_spec(
        ffmpeg_location@,
        output_dir@,
        format@,
        quality@,
        url@,
    ));
    r
}

/// The argument list that asks for a video's metadata as JSON.
pub fn info_args(url: &str) -> (r: Vec<String>)
    ensures
        strings_view(r@) == info_args_spec(url@),
{
    let mut r: Vec<String> = Vec::new();
    r.push(owned("--dump-json"));
    r.push(owned("--no-download"));
    r.push(owned("--no-playlist"));
    r.push(owned(url));
    assert(strings_view(r@) =~= info_args_spec(url@));
    r
}

/// The requested format is never swapped for another: an audio format is
/// what `--audio-format` asks for, and any other format is what
/// `--merge-output-format` asks for, whatever the quality.
pub proof fn law_requested_format_is_kept(format: Seq<char>, quality: Seq<char>)
    ensures
        is_audio_format(format) ==> format_args(format, quality).len() == 5 && format_args(
            format,
            quality,
        )[1] == "--audio-format"@ && format_args(format, quality)[2] == format,
        !is_audio_format(format) ==> format_args(format, quality).len() == 4 && format_args(
            format,
            quality,
        )[2] == "--merge-output-format"@ && format_args(format, quality)[3] == format,
{
}

/// The quality only chooses the height limit (or the audio bitrate): two
/// qualities give the same arguments but for that one.
pub proof fn law_quality_only_picks_the_limit(format: Seq<char>, q1: Seq<char>, q2: Seq<char>)
    ensures
        format_args(format, q1).len() == format_args(format, q2).len(),
        forall|k: int|
            0 <= k < format_args(format, q1).len() && k != (if is_audio_format(format) {
                4int
            } else {
                1int
            }) ==> #[trigger] format_args(format, q1)[k] == format_args(format, q2)[k],
{
}

/// A video download keeps its format behind `--merge-output-format` in the
/// whole command line, right after the ffmpeg location, output name and
/// progress template, and the URL comes last.
pub proof fn law_download_keeps_format_and_url(
    ffmpeg_location: Seq<char>,
    output_dir: Seq<char>,
    format: Seq<char>,
    quality: Seq<char>,
    url: Seq<char>,
)
    ensures
        ({
            let a = download_args_spec(ffmpeg_location, output_dir, format, quality, url);
            &&& a.last() == url
            &&& a[3] == ffmpeg_location
            &&& !is_audio_format(format) ==> a.len() == 13 && a[10] == "--merge-output-format"@
                && a[11] == format
            &&& is_audio_format(format) ==> a.len() == 14 && a[9] == "--audio-format"@ && a[10]
                == format
        }),
{
}

} // verus!
