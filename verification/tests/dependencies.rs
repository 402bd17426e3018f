use omniform::dependencies::{
    current_status, ensure_dependencies_start, ensure_dependencies_step, ffmpeg_archive_kind,
    ffmpeg_download_url, ffmpeg_file_name, make_executable, update_available,
    update_ytdlp_finished, update_ytdlp_started, yt_dlp_download_url, yt_dlp_file_name,
    ArchiveKind, Component, DependencyStatus, EnsureStep, TargetOs,
};

#[test]
fn status_from_disk() {
    let s = current_status(true, false);
    assert_eq!(
        s,
        DependencyStatus { yt_dlp_ready: true, ffmpeg_ready: false, downloading: false, message: None }
    );
}

#[test]
fn nothing_to_install() {
    let (s, step) = ensure_dependencies_start(current_status(true, true));
    assert_eq!(step, EnsureStep::Finish(Ok(())));
    assert_eq!(s, current_status(true, true));
}

#[test]
fn installs_both_when_all_succeed() {
    let (s1, st1) = ensure_dependencies_start(current_status(false, false));
    assert_eq!(st1, EnsureStep::Install(Component::YtDlp));
    assert!(s1.downloading);
    assert_eq!(s1.message.as_deref(), Some("Downloading yt-dlp..."));
    let (s2, st2) = ensure_dependencies_step(s1, Component::YtDlp, Ok(()));
    assert_eq!(st2, EnsureStep::Install(Component::Ffmpeg));
    assert!(s2.yt_dlp_ready && !s2.ffmpeg_ready && s2.downloading);
    assert_eq!(s2.message.as_deref(), Some("Downloading ffmpeg..."));
    let (s3, st3) = ensure_dependencies_step(s2, Component::Ffmpeg, Ok(()));
    assert_eq!(st3, EnsureStep::Finish(Ok(())));
    assert_eq!(
        s3,
        DependencyStatus {
            yt_dlp_ready: true,
            ffmpeg_ready: true,
            downloading: false,
            message: Some("Ready.".to_string())
        }
    );
}

#[test]
fn installs_only_the_missing_one() {
    let (s1, st1) = ensure_dependencies_start(current_status(true, false));
    assert_eq!(st1, EnsureStep::Install(Component::Ffmpeg));
    assert_eq!(s1.message.as_deref(), Some("Downloading ffmpeg..."));
    let (s2, st2) = ensure_dependencies_step(s1, Component::Ffmpeg, Ok(()));
    assert_eq!(st2, EnsureStep::Finish(Ok(())));
    assert_eq!(s2.message.as_deref(), Some("Ready."));
}

#[test]
fn failed_install_is_reported() {
    let (s1, _) = ensure_dependencies_start(current_status(false, false));
    let (s2, st2) = ensure_dependencies_step(s1, Component::YtDlp, Err("could not connect: timeout".to_string()));
    assert_eq!(st2, EnsureStep::Finish(Err("could not connect: timeout".to_string())));
    assert!(!s2.downloading && !s2.yt_dlp_ready);
    assert_eq!(s2.message.as_deref(), Some("Error downloading yt-dlp: could not connect: timeout"));
    let (s3, _) = ensure_dependencies_start(current_status(true, false));
    let (s4, st4) = ensure_dependencies_step(s3, Component::Ffmpeg, Err("boom".to_string()));
    assert_eq!(st4, EnsureStep::Finish(Err("boom".to_string())));
    assert_eq!(s4.message.as_deref(), Some("Error downloading ffmpeg: boom"));
}

#[test]
fn download_urls() {
    assert_eq!(
        yt_dlp_download_url(TargetOs::Windows),
        "https://github.com/yt-dlp/yt-dlp/releases/latest/download/yt-dlp.exe"
    );
    assert_eq!(
        yt_dlp_download_url(TargetOs::MacOs),
        "https://github.com/yt-dlp/yt-dlp/releases/latest/download/yt-dlp_macos"
    );
    assert_eq!(
        yt_dlp_download_url(TargetOs::Linux),
        "https://github.com/yt-dlp/yt-dlp/releases/latest/download/yt-dlp"
    );
    assert_eq!(
        ffmpeg_download_url(TargetOs::Windows),
        "https://www.gyan.dev/ffmpeg/builds/ffmpeg-release-essentials.zip"
    );
    assert_eq!(ffmpeg_download_url(TargetOs::MacOs), "https://evermeet.cx/ffmpeg/getrelease/zip");
    assert_eq!(
        ffmpeg_download_url(TargetOs::Other),
        "https://johnvansickle.com/ffmpeg/releases/ffmpeg-release-amd64-static.tar.xz"
    );
}

#[test]
fn file_names_and_archives() {
    assert_eq!(yt_dlp_file_name(TargetOs::Windows), "yt-dlp.exe");
    assert_eq!(yt_dlp_file_name(TargetOs::Linux), "yt-dlp");
    assert_eq!(ffmpeg_file_name(TargetOs::Windows), "ffmpeg.exe");
    assert_eq!(ffmpeg_file_name(TargetOs::MacOs), "ffmpeg");
    assert_eq!(ffmpeg_archive_kind(TargetOs::Linux), ArchiveKind::TarXz);
    assert_eq!(ffmpeg_archive_kind(TargetOs::Windows), ArchiveKind::Zip);
    assert_eq!(ffmpeg_archive_kind(TargetOs::Other), ArchiveKind::Zip);
}

#[test]
fn executable_bits() {
    assert_eq!(make_executable(true), Some(0o755));
    assert_eq!(make_executable(false), None);
}

#[test]
fn update_statuses() {
    let s = update_ytdlp_started(current_status(true, true));
    assert!(s.downloading);
    assert_eq!(s.message.as_deref(), Some("Updating yt-dlp..."));
    let t = update_ytdlp_finished(s);
    assert!(!t.downloading && t.yt_dlp_ready && t.ffmpeg_ready);
    assert_eq!(t.message.as_deref(), Some("yt-dlp updated."));
}

#[test]
fn newer_release_detection() {
    assert!(update_available("2024.08.06\n", Some("2024.10.22".to_string())));
    assert!(!update_available("2024.10.22\n", Some("2024.10.22".to_string())));
    assert!(!update_available("  2024.10.22  ", Some("2024.10.22".to_string())));
    assert!(!update_available("2024.08.06", Some(String::new())));
    assert!(!update_available("2024.08.06", None));
    assert!(update_available("", Some("2024.10.22".to_string())));
}
