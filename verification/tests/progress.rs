use omniform::progress::{is_postprocess_line, parse_progress_marker_line, PROGRESS_TEMPLATE};

#[test]
fn parses_a_typical_progress_line() {
    let f = parse_progress_marker_line("OMNIFORM_PROGRESS|  42.5%|  1.20MiB/s|00:13").unwrap();
    assert_eq!(f.percent, "42.5");
    assert_eq!(f.speed.as_deref(), Some("1.20MiB/s"));
    assert_eq!(f.eta.as_deref(), Some("00:13"));
}

#[test]
fn unknown_speed_and_eta_are_absent() {
    let f = parse_progress_marker_line("OMNIFORM_PROGRESS|100.0%|N/A|  ").unwrap();
    assert_eq!(f.percent, "100.0");
    assert_eq!(f.speed, None);
    assert_eq!(f.eta, None);
    let g = parse_progress_marker_line("OMNIFORM_PROGRESS|5%| N/A |").unwrap();
    assert_eq!(g.speed, None);
    assert_eq!(g.eta, None);
}

#[test]
fn lines_without_the_marker_are_no_progress() {
    assert!(parse_progress_marker_line("[download]  42.5% of 10.00MiB").is_none());
    assert!(parse_progress_marker_line("").is_none());
    assert!(parse_progress_marker_line(" OMNIFORM_PROGRESS|1%|a|b").is_none());
    assert!(parse_progress_marker_line("OMNIFORM_PROGRES|1%|a|b").is_none());
}

#[test]
fn too_few_fields_are_no_progress() {
    assert!(parse_progress_marker_line("OMNIFORM_PROGRESS").is_none());
    assert!(parse_progress_marker_line("OMNIFORM_PROGRESS|50%|1MiB/s").is_none());
}

#[test]
fn leading_separators_and_extra_fields() {
    let f = parse_progress_marker_line("OMNIFORM_PROGRESS|||7%|s|e|extra|more").unwrap();
    assert_eq!(f.percent, "7");
    assert_eq!(f.speed.as_deref(), Some("s"));
    assert_eq!(f.eta.as_deref(), Some("e"));
}

#[test]
fn every_trailing_percent_sign_goes() {
    let f = parse_progress_marker_line("OMNIFORM_PROGRESS| 99.9%% |x|y").unwrap();
    assert_eq!(f.percent, "99.9");
}

#[test]
fn empty_fields_between_separators() {
    let f = parse_progress_marker_line("OMNIFORM_PROGRESS|12%||").unwrap();
    assert_eq!(f.percent, "12");
    assert_eq!(f.speed, None);
    assert_eq!(f.eta, None);
}

#[test]
fn rendered_line_reads_back() {
    let (p, s, e) = ("  3.0%", " 512.00KiB/s", "01:02:03 ");
    let line = format!("OMNIFORM_PROGRESS|{p}|{s}|{e}");
    let f = parse_progress_marker_line(&line).unwrap();
    assert_eq!(f.percent, "3.0");
    assert_eq!(f.speed.as_deref(), Some("512.00KiB/s"));
    assert_eq!(f.eta.as_deref(), Some("01:02:03"));
}

#[test]
fn template_starts_with_the_marker() {
    assert!(PROGRESS_TEMPLATE.starts_with("OMNIFORM_PROGRESS|"));
    assert_eq!(PROGRESS_TEMPLATE.split('|').count(), 4);
}

#[test]
fn postprocess_lines() {
    assert!(is_postprocess_line("[Merger] Merging formats into \"a.mp4\""));
    assert!(is_postprocess_line("[ExtractAudio] Destination: a.mp3"));
    assert!(!is_postprocess_line("[download] Destination: a.webm"));
    assert!(!is_postprocess_line("[Merge] almost"));
    assert!(!is_postprocess_line(""));
}
