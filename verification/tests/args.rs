use omniform::args::{audio_quality_to_bitrate, download_args, format_to_args, info_args, is_audio};

#[test]
fn bitrates() {
    assert_eq!(audio_quality_to_bitrate("low"), "5");
    assert_eq!(audio_quality_to_bitrate("medium"), "2");
    assert_eq!(audio_quality_to_bitrate("high"), "0");
    assert_eq!(audio_quality_to_bitrate("best"), "0");
    assert_eq!(audio_quality_to_bitrate(""), "0");
}

#[test]
fn audio_formats() {
    for f in ["mp3", "wav", "flac", "m4a", "ogg"] {
        assert!(is_audio(f));
    }
    for f in ["mp4", "webm", "MP3", "mp3 ", ""] {
        assert!(!is_audio(f));
    }
}

#[test]
fn audio_format_args() {
    assert_eq!(
        format_to_args("mp3", "medium"),
        vec!["-x", "--audio-format", "mp3", "--audio-quality", "2"]
    );
    assert_eq!(
        format_to_args("flac", "1080p"),
        vec!["-x", "--audio-format", "flac", "--audio-quality", "0"]
    );
}

#[test]
fn video_format_args_with_height() {
    assert_eq!(
        format_to_args("mp4", "720p"),
        vec![
            "-f",
            "bestvideo[height<=720][ext=mp4]+bestaudio[ext=m4a]/best[height<=720]",
            "--merge-output-format",
            "mp4"
        ]
    );
    assert_eq!(
        format_to_args("webm", "1080p")[1],
        "bestvideo[height<=1080][ext=mp4]+bestaudio[ext=m4a]/best[height<=1080]"
    );
    assert_eq!(
        format_to_args("mp4", "480p")[1],
        "bestvideo[height<=480][ext=mp4]+bestaudio[ext=m4a]/best[height<=480]"
    );
}

#[test]
fn video_format_args_without_height() {
    assert_eq!(
        format_to_args("webm", "best"),
        vec!["-f", "bestvideo[ext=mp4]+bestaudio[ext=m4a]/best", "--merge-output-format", "webm"]
    );
}

#[test]
fn full_download_command() {
    let a = download_args("/data/bin/ffmpeg", "/home/u/Downloads", "mp3", "low", "https://x.test/v");
    assert_eq!(
        a,
        vec![
            "--newline",
            "--no-playlist",
            "--ffmpeg-location",
            "/data/bin/ffmpeg",
            "-o",
            "/home/u/Downloads/%(title)s.%(ext)s",
            "--progress-template",
            "OMNIFORM_PROGRESS|%(progress._percent_str)s|%(progress._speed_str)s|%(progress._eta_str)s",
            "-x",
            "--audio-format",
            "mp3",
            "--audio-quality",
            "5",
            "https://x.test/v"
        ]
    );
}

#[test]
fn metadata_command() {
    assert_eq!(
        info_args("https://x.test/v"),
        vec!["--dump-json", "--no-download", "--no-playlist", "https://x.test/v"]
    );
}
