use omniform::downloads::{
    append_stderr_line, download_requirement, finish_download, first_line, info_event, DownloadEnd, VideoInfo,
};

#[test]
fn info_event_keeps_the_title() {
    let e = info_event(
        "7",
        "https://x.test/v",
        VideoInfo { title: Some("A talk".to_string()), thumbnail: Some("https://x.test/t.jpg".to_string()) },
    );
    assert_eq!(e.id, "7");
    assert_eq!(e.title, "A talk");
    assert_eq!(e.thumbnail.as_deref(), Some("https://x.test/t.jpg"));
}

#[test]
fn info_event_falls_back_to_the_url() {
    let e = info_event("7", "https://x.test/v", VideoInfo { title: None, thumbnail: None });
    assert_eq!(e.title, "https://x.test/v");
    assert_eq!(e.thumbnail, None);
}

#[test]
fn first_lines() {
    assert_eq!(first_line("{\"title\":\"a\"}\n{\"title\":\"b\"}\n").as_deref(), Some("{\"title\":\"a\"}"));
    assert_eq!(first_line("one\r\ntwo").as_deref(), Some("one"));
    assert_eq!(first_line("only").as_deref(), Some("only"));
    assert_eq!(first_line("tail\r").as_deref(), Some("tail\r"));
    assert_eq!(first_line("\n").as_deref(), Some(""));
    assert_eq!(first_line("\r\n").as_deref(), Some(""));
    assert_eq!(first_line(""), None);
    for t in ["a\nb", "a\r\nb", "x", "\n\n", "a\rb\nc", "é\u{2028}\n"] {
        assert_eq!(first_line(t).as_deref(), t.lines().next());
    }
}

#[test]
fn stderr_lines_are_gathered() {
    let mut text = String::new();
    append_stderr_line(&mut text, "ERROR: first");
    append_stderr_line(&mut text, "second");
    assert_eq!(text, "ERROR: first\nsecond\n");
}

#[test]
fn success_is_done() {
    match finish_download("9", "/out", true, "WARNING: ignored\n") {
        DownloadEnd::Done(d) => {
            assert_eq!(d.id, "9");
            assert_eq!(d.output_path, "/out");
        }
        other => panic!("unexpected {other:?}"),
    }
}

#[test]
fn silent_failure_is_cancelled() {
    assert_eq!(finish_download("9", "/out", false, ""), DownloadEnd::Cancelled);
    assert_eq!(finish_download("9", "/out", false, " \n\t\n"), DownloadEnd::Cancelled);
}

#[test]
fn failure_reports_trimmed_stderr() {
    match finish_download("9", "/out", false, "\nERROR: Unsupported URL\n") {
        DownloadEnd::Failed(e) => {
            assert_eq!(e.id, "9");
            assert_eq!(e.message, "ERROR: Unsupported URL");
        }
        other => panic!("unexpected {other:?}"),
    }
}

#[test]
fn whitespace_agrees_with_std_trim() {
    for u in 0u32..=0x3100 {
        if let Some(c) = char::from_u32(u) {
            let text = format!("{c}x{c}");
            match finish_download("1", "/o", false, &text) {
                DownloadEnd::Failed(e) => assert_eq!(e.message, text.trim(), "char {u:#x}"),
                other => panic!("unexpected {other:?}"),
            }
            let blank = finish_download("1", "/o", false, &c.to_string()) == DownloadEnd::Cancelled;
            assert_eq!(blank, c.is_whitespace(), "char {u:#x}");
        }
    }
}

#[test]
fn download_needs_yt_dlp() {
    assert_eq!(download_requirement(true), Ok(()));
    assert_eq!(download_requirement(false), Err("yt-dlp is not installed yet".to_string()));
}
