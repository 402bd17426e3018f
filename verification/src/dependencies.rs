//! The two programs the app runs, yt-dlp and ffmpeg: where they come from,
//! what they are called, and the steps that install and update them.
use vstd::prelude::*;
use vstd::string::*;

use crate::text::{chars_of, opt_string_view, owned, str_equals, trim, trim_range};

verus! {

/// The operating system the app was built for.
#[derive(Clone, Copy, Debug, PartialEq, Eq, Structural)]
pub enum TargetOs {
    Windows,
    MacOs,
    Linux,
    Other,
}

/// One of the two programs the app manages.
#[derive(Clone, Copy, Debug, PartialEq, Eq, Structural)]
pub enum Component {
    YtDlp,
    Ffmpeg,
}

/// How the ffmpeg download is packed.
#[derive(Clone, Copy, Debug, PartialEq, Eq, Structural)]
pub enum ArchiveKind {
    TarXz,
    Zip,
}

/// What the interface is told about the two programs.
#[derive(Clone, Debug, PartialEq, Eq)]
pub struct DependencyStatus {
    pub yt_dlp_ready: bool,
    pub ffmpeg_ready: bool,
    pub downloading: bool,
    pub message: Option<String>,
}

pub struct DependencyStatusView {
    pub yt_dlp_ready: bool,
    pub ffmpeg_ready: bool,
    pub downloading: bool,
    pub message: Option<Seq<char>>,
}

impl View for DependencyStatus {
    type V = DependencyStatusView;

    open spec fn view(&self) -> DependencyStatusView {
        DependencyStatusView {
            yt_dlp_ready: self.yt_dlp_ready,
            ffmpeg_ready: self.ffmpeg_ready,
            downloading: self.downloading,
            message: opt_string_view(self.message),
        }
    }
}

/// The next thing to do while installing the programs.
#[derive(Debug, PartialEq, Eq)]
pub enum EnsureStep {
    /// Download and install this program, then report how that went.
    Install(Component),
    /// Nothing is left to do; this is the outcome.
    Finish(Result<(), String>),
}

pub enum EnsureStepView {
    Install(Component),
    Finish(Result<(), Seq<char>>),
}

impl View for EnsureStep {
    type V = EnsureStepView;

    open spec fn view(&self) -> EnsureStepView {
        match self {
            EnsureStep::Install(c) => EnsureStepView::Install(*c),
            EnsureStep::Finish(Ok(())) => EnsureStepView::Finish(Ok(())),
            EnsureStep::Finish(Err(e)) => EnsureStepView::Finish(Err(e@)),
        }
    }
}

/// The name of a program, as messages show it.
pub open spec fn component_name(c: Component) -> Seq<char> {
    match c {
        Component::YtDlp => "yt-dlp"@,
        Component::Ffmpeg => "ffmpeg"@,
    }
}

pub open spec fn is_ready(s: DependencyStatusView, c: Component) -> bool {
    match c {
        Component::YtDlp => s.yt_dlp_ready,
        Component::Ffmpeg => s.ffmpeg_ready,
    }
}

/// `s` with program `c` marked as installed.
pub open spec fn mark_ready(s: DependencyStatusView, c: Component) -> DependencyStatusView {
    match c {
        Component::YtDlp => DependencyStatusView { yt_dlp_ready: true, ..s },
        Component::Ffmpeg => DependencyStatusView { ffmpeg_ready: true, ..s },
    }
}

/// The status right after checking which programs are on disk.
pub open spec fn initial_status(yt_dlp_exists: bool, ffmpeg_exists: bool) -> DependencyStatusView {
    DependencyStatusView {
        yt_dlp_ready: yt_dlp_exists,
        ffmpeg_ready: ffmpeg_exists,
        downloading: false,
        message: None,
    }
}

/// Goes on to the first program still missing, or finishes with both ready.
pub open spec fn ensure_advance(s: DependencyStatusView) -> (DependencyStatusView, EnsureStepView) {
    if !s.yt_dlp_ready {
        (
            DependencyStatusView { downloading: true, message: Some("Downloading yt-dlp..."@), ..s },
            EnsureStepView::Install(Component::YtDlp),
        )
    } else if !s.ffmpeg_ready {
        (
            DependencyStatusView { downloading: true, message: Some("Downloading ffmpeg..."@), ..s },
            EnsureStepView::Install(Component::Ffmpeg),
        )
    } else {
        (
            DependencyStatusView { downloading: false, message: Some("Ready."@), ..s },
            EnsureStepView::Finish(Ok(())),
        )
    }
}

/// The first step: nothing to do when both programs are there, else the
/// first missing one is installed.
pub open spec fn ensure_start(s: DependencyStatusView) -> (DependencyStatusView, EnsureStepView) {
    if s.yt_dlp_ready && s.ffmpeg_ready {
        (s, EnsureStepView::Finish(Ok(())))
    } else {
        ensure_advance(s)
    }
}

/// The step after installing `c`: a failure ends the run with its error,
/// reported in the message; a success goes on.
pub open spec fn ensure_next(
    s: DependencyStatusView,
    c: Component,
    result: Result<(), Seq<char>>,
) -> (DependencyStatusView, EnsureStepView) {
    match result {
        Err(e) => (
            DependencyStatusView {
                downloading: false,
                message: Some("Error downloading "@ + component_name(c) + ": "@ + e),
                ..s
            },
            EnsureStepView::Finish(Err(e)),
        ),
        Ok(()) => ensure_advance(mark_ready(s, c)),
    }
}

/// The status of the two programs, from whether their files exist.
pub fn current_status(yt_dlp_exists: bool, ffmpeg_exists: bool) -> (s: DependencyStatus)
    ensures
        s@ == initial_status(yt_dlp_exists, ffmpeg_exists),
{
    DependencyStatus {
        yt_dlp_ready: yt_dlp_exists,
        ffmpeg_ready: ffmpeg_exists,
        downloading: false,
        message: None,
    }
}

fn advance(s: DependencyStatus) -> (r: (DependencyStatus, EnsureStep))
    ensures
        (r.0@, r.1@) == ensure_advance(s@),
{
    if !s.yt_dlp_ready {
        (
            DependencyStatus {
                downloading: true,
                message: Some(owned("Downloading yt-dlp...")),
                ..s
            },
            EnsureStep::Install(Component::YtDlp),
        )
    } else if !s.ffmpeg_ready {
        (
            DependencyStatus {
                downloading: true,
                message: Some(owned("Downloading ffmpeg...")),
                ..s
            },
            EnsureStep::Install(Component::Ffmpeg),
        )
    } else {
        (
            DependencyStatus { downloading: false, message: Some(owned("Ready.")), ..s },
            EnsureStep::Finish(Ok(())),
        )
    }
}

/// First step of making sure both programs are installed: the status to
/// report, and what to do next.
pub fn ensure_dependencies_start(s: DependencyStatus) -> (r: (DependencyStatus, EnsureStep))
    ensures
        (r.0@, r.1@) == ensure_start(s@),
{
    if s.yt_dlp_ready && s.ffmpeg_ready {
        (s, EnsureStep::Finish(Ok(())))
    } else {
        advance(s)
    }
}

/// The name of program `c`.
pub fn component_label(c: Component) -> (r: &'static str)
    ensures
        r@ == component_name(c),
{
    match c {
        Component::YtDlp => "yt-dlp",
        Component::Ffmpeg => "ffmpeg",
    }
}

/// Next step of making sure both programs are installed, after installing
/// `installed` gave `result`: the status to report, and what to do next.
pub fn ensure_dependencies_step(
    s: DependencyStatus,
    installed: Component,
    result: Result<(), String>,
) -> (r: (DependencyStatus, EnsureStep))
    ensures
        (r.0@, r.1@) == ensure_next(
            s@,
            installed,
            match result {
                Ok(()) => Ok(()),
                Err(e) => Err(e@),
            },
        ),
{
    match result {
        Err(e) => {
            let mut m = owned("Error downloading ");
            m.append(component_label(installed));
            m.append(": ");
            m.append(e.as_str());
            (
                DependencyStatus { downloading: false, message: Some(m), ..s },
                EnsureStep::Finish(Err(e)),
            )
        },
        Ok(()) => {
            let marked = match installed {
                Component::YtDlp => DependencyStatus { yt_dlp_ready: true, ..s },
                Component::Ffmpeg => DependencyStatus { ffmpeg_ready: true, ..s },
            };
            advance(marked)
        },
    }
}

/// Where the standalone yt-dlp build for `os` is published.
pub fn yt_dlp_download_url(os: TargetOs) -> (r: &'static str)
    ensures
        r@ == (match os {
            TargetOs::Windows => "https://github.com/yt-dlp/yt-dlp/releases/latest/download/yt-dlp.exe"@,
            TargetOs::MacOs => "https://github.com/yt-dlp/yt-dlp/releases/latest/download/yt-dlp_macos"@,
            _ => "https://github.com/yt-dlp/yt-dlp/releases/latest/download/yt-dlp"@,
        }),
{
    match os {
        TargetOs::Windows => "https://github.com/yt-dlp/yt-dlp/releases/latest/download/yt-dlp.exe",
        TargetOs::MacOs => "https://github.com/yt-dlp/yt-dlp/releases/latest/download/yt-dlp_macos",
        _ => "https://github.com/yt-dlp/yt-dlp/releases/latest/download/yt-dlp",
    }
}

/// Where a static ffmpeg build for `os` is published. ffmpeg has no single
/// official standalone binary per platform, so these are widely used
/// third-party static builds.
pub fn ffmpeg_download_url(os: TargetOs) -> (r: &'static str)
    ensures
        r@ == (match os {
            TargetOs::Windows => "https://www.gyan.dev/ffmpeg/builds/ffmpeg-release-essentials.zip"@,
            TargetOs::MacOs => "https://evermeet.cx/ffmpeg/getrelease/zip"@,
            _ => "https://johnvansickle.com/ffmpeg/releases/ffmpeg-release-amd64-static.tar.xz"@,
        }),
{
    match os {
        TargetOs::Windows => "https://www.gyan.dev/ffmpeg/builds/ffmpeg-release-essentials.zip",
        TargetOs::MacOs => "https://evermeet.cx/ffmpeg/getrelease/zip",
        _ => "https://johnvansickle.com/ffmpeg/releases/ffmpeg-release-amd64-static.tar.xz",
    }
}

/// How the ffmpeg download is unpacked on `os`: a `.tar.xz` on Linux, a
/// zip elsewhere.
pub fn ffmpeg_archive_kind(os: TargetOs) -> (r: ArchiveKind)
    ensures
        r == (if os == TargetOs::Linux {
            ArchiveKind::TarXz
        } else {
            ArchiveKind::Zip
        }),
{
    match os {
        TargetOs::Linux => ArchiveKind::TarXz,
        _ => ArchiveKind::Zip,
    }
}

/// The file name of yt-dlp inside the app's `bin` folder.
pub fn yt_dlp_file_name(os: TargetOs) -> (r: &'static str)
    ensures
        r@ == (if os == TargetOs::Windows {
            "yt-dlp.exe"@
        } else {
            "yt-dlp"@
        }),
{
    match os {
        TargetOs::Windows => "yt-dlp.exe",
        _ => "yt-dlp",
    }
}

/// The file name of ffmpeg inside the app's `bin` folder.
pub fn ffmpeg_file_name(os: TargetOs) -> (r: &'static str)
    ensures
        r@ == (if os == TargetOs::Windows {
            "ffmpeg.exe"@
        } else {
            "ffmpeg"@
        }),
{
    match os {
        TargetOs::Windows => "ffmpeg.exe",
        _ => "ffmpeg",
    }
}

/// The permission bits that make an installed program runnable: on a Unix
/// system `rwxr-xr-x`; elsewhere nothing needs to change.
pub fn make_executable(unix: bool) -> (r: Option<u32>)
    ensures
        r == (if unix {
            Some(0o755u32)
        } else {
            None::<u32>
        }),
{
    if unix {
        Some(0o755)
    } else {
        None
    }
}

/// The status reported while yt-dlp is being replaced by its latest build.
pub open spec fn updating_status(s: DependencyStatusView) -> DependencyStatusView {
    DependencyStatusView { downloading: true, message: Some("Updating yt-dlp..."@), ..s }
}

/// The status reported once yt-dlp has been replaced.
pub open spec fn updated_status(s: DependencyStatusView) -> DependencyStatusView {
    DependencyStatusView { downloading: false, message: Some("yt-dlp updated."@), ..s }
}

/// The status to report when an update of yt-dlp begins.
pub fn update_ytdlp_started(s: DependencyStatus) -> (r: DependencyStatus)
    ensures
        r@ == updating_status(s@),
{
    DependencyStatus { downloading: true, message: Some(owned("Updating yt-dlp...")), ..s }
}

/// The status to report when an update of yt-dlp has been written.
pub fn update_ytdlp_finished(s: DependencyStatus) -> (r: DependencyStatus)
    ensures
        r@ == updated_status(s@),
{
    DependencyStatus { downloading: false, message: Some(owned("yt-dlp updated.")), ..s }
}

/// Whether a newer yt-dlp is published: the latest release tag is known,
/// not empty, and differs from the installed version, which is what
/// `yt-dlp --version` printed, trimmed.
pub open spec fn newer_release(version_output: Seq<char>, latest_tag: Option<Seq<char>>) -> bool {
    let latest = match latest_tag {
        Some(t) => t,
        None => Seq::<char>::empty(),
    };
    latest.len() > 0 && latest != trim(version_output)
}

/// Whether a newer yt-dlp is published than the installed one, from what
/// `yt-dlp --version` printed and the `tag_name` of the latest release.
pub fn update_available(version_output: &str, latest_tag: Option<String>) -> (r: bool)
    ensures
        r == newer_release(version_output@, opt_string_view(latest_tag)),
        r == (match latest_tag {
            Some(t) => t@.len() > 0 && t@ != trim(version_output@),
            None => false,
        }),
{
    let latest = match latest_tag {
        Some(t) => t,
        None => String::new(),
    };
    let lv = chars_of(latest.as_str());
    if lv.len() == 0 {
        return false;
    }
    let v = chars_of(version_output);
    assert(v@.subrange(0, v@.len() as int) =~= v@);
    let (lo, hi) = trim_range(&v, 0, v.len());
    let local = crate::text::range_string(version_output, &v, lo, hi);
    !str_equals(latest.as_str(), local.as_str())
}

/// Installing never forgets a program that is ready: readiness only grows
/// from one step to the next.
pub proof fn law_ensure_ready_kept(s: DependencyStatusView, c: Component, d: Component, result: Result<(), Seq<char>>)
    ensures
        is_ready(s, d) ==> is_ready(ensure_start(s).0, d),
        is_ready(s, d) ==> is_ready(ensure_next(s, c, result).0, d),
        result is Ok ==> is_ready(ensure_next(s, c, result).0, c),
{
}

/// A program is only installed while it is missing, and while it is, the
/// status says that a download is under way.
pub proof fn law_ensure_installs_missing(s: DependencyStatusView, c: Component, d: Component, result: Result<(), Seq<char>>)
    ensures
        ensure_start(s).1 == EnsureStepView::Install(d) ==> !is_ready(ensure_start(s).0, d)
            && ensure_start(s).0.downloading,
        ensure_next(s, c, result).1 == EnsureStepView::Install(d) ==> !is_ready(
            ensure_next(s, c, result).0,
            d,
        ) && ensure_next(s, c, result).0.downloading,
{
}

/// Starting from what is on disk, when every installation succeeds, the run
/// asks for at most two of them, never the same program twice, and ends
/// ready: both programs there, no download under way, and success.
pub proof fn law_ensure_all_succeed(yt_dlp_exists: bool, ffmpeg_exists: bool)
    ensures
        ({
            let (s1, st1) = ensure_start(initial_status(yt_dlp_exists, ffmpeg_exists));
            match st1 {
                EnsureStepView::Finish(r) => r is Ok && s1.yt_dlp_ready && s1.ffmpeg_ready
                    && !s1.downloading,
                EnsureStepView::Install(c1) => {
                    let (s2, st2) = ensure_next(s1, c1, Ok(()));
                    match st2 {
                        EnsureStepView::Finish(r) => r is Ok && s2.yt_dlp_ready
                            && s2.ffmpeg_ready && !s2.downloading,
                        EnsureStepView::Install(c2) => c2 != c1 && {
                            let (s3, st3) = ensure_next(s2, c2, Ok(()));
                            st3 == EnsureStepView::Finish(Ok(())) && s3.yt_dlp_ready
                                && s3.ffmpeg_ready && !s3.downloading
                        },
                    }
                },
            }
        }),
{
}

/// A failed installation ends the run with its error, and the status says
/// so: no download under way, and a message that names the program and
/// ends with the error.
pub proof fn law_ensure_failure_reported(s: DependencyStatusView, c: Component, e: Seq<char>)
    ensures
        ensure_next(s, c, Err(e)).1 == EnsureStepView::Finish(Err(e)),
        !ensure_next(s, c, Err(e)).0.downloading,
        ensure_next(s, c, Err(e)).0.message == Some(
            "Error downloading "@ + component_name(c) + ": "@ + e,
        ),
        ensure_next(s, c, Err(e)).0.yt_dlp_ready == s.yt_dlp_ready,
        ensure_next(s, c, Err(e)).0.ffmpeg_ready == s.ffmpeg_ready,
{
}

/// An update is reported exactly when the latest tag is known, not empty,
/// and differs in any character, or in length, from the installed version
/// with its surrounding whitespace removed.
pub proof fn law_update_iff_tag_differs(version_output: Seq<char>, tag: Seq<char>)
    ensures
        newer_release(version_output, None) == false,
        newer_release(version_output, Some(tag)) == (tag.len() > 0 && (tag.len() != trim(
            version_output,
        ).len() || exists|k: int| 0 <= k < tag.len() && tag[k] != trim(version_output)[k])),
{
    let local = trim(version_output);
    if tag.len() == local.len() && !(exists|k: int| 0 <= k < tag.len() && tag[k] != local[k]) {
        assert(tag =~= local);
    }
}

/// The installed version is never reported as an update of itself, however
/// its output is padded, and a tag that differs from it in its last
/// character is always reported.
pub proof fn law_update_compares_whole_version(version_output: Seq<char>, tag: Seq<char>, c: char)
    requires
        tag.len() > 0,
        c != tag.last(),
    ensures
        !newer_release(version_output, Some(trim(version_output))),
        trim(version_output) == tag ==> newer_release(
            version_output,
            Some(tag.drop_last().push(c)),
        ),
{
    if trim(version_output) == tag {
        let t2 = tag.drop_last().push(c);
        assert(t2[t2.len() - 1] != tag[tag.len() - 1]);
    }
}

} // verus!
