use vstd::prelude::*;
use super::CaptureBackend;

verus! {

/// The Windows capture backend (DXGI desktop capture and WASAPI).
#[derive(Clone, Copy, Debug)]
pub struct WindowsCaptureBackend;

impl CaptureBackend for WindowsCaptureBackend {
    fn name(&self) -> (n: &'static str)
        ensures
            n@ == "windows"@,
    {
        "windows"
    }

    fn diagnostics_hint(&self) -> (h: &'static str)
        ensures
            h@ == "Use latest GPU drivers, keep display refresh >= 60Hz, and disable Windows power saver for stable capture pacing."@,
    {
        "Use latest GPU drivers, keep display refresh >= 60Hz, and disable Windows power saver for stable capture pacing."
    }

    fn bootstrap_notice(&self, dry_run: bool) -> (m: &'static str)
        ensures
            dry_run ==> m@ == "[windows] dry-run capture bootstrap: DXGI + WASAPI pipeline placeholder"@,
            !dry_run ==> m@ == "[windows] next milestone: route captured frames into encoder/publisher pipeline"@,
    {
        if dry_run {
            "[windows] dry-run capture bootstrap: DXGI + WASAPI pipeline placeholder"
        } else {
            "[windows] next milestone: route captured frames into encoder/publisher pipeline"
        }
    }
}

/// Which desktop capture the probe uses.
#[derive(Clone, Copy, Debug, PartialEq, Eq, Structural)]
pub enum CaptureMode {
    /// The `scrap` desktop capturer.
    Scrap,
    /// ffmpeg's `ddagrab` filter.
    FfmpegDdagrab,
    /// ffmpeg first, then `scrap` if ffmpeg fails.
    Auto,
}

/// A desktop capture that the probe runs.
#[derive(Clone, Copy, Debug, PartialEq, Eq, Structural)]
pub enum CaptureSource {
    Scrap,
    FfmpegDdagrab,
}

impl CaptureSource {
    /// The name of the capture in reports.
    pub fn label(&self) -> (l: &'static str)
        ensures
            *self == CaptureSource::Scrap ==> l@ == "scrap"@,
            *self == CaptureSource::FfmpegDdagrab ==> l@ == "ffmpeg-ddagrab"@,
    {
        match self {
            CaptureSource::Scrap => "scrap",
            CaptureSource::FfmpegDdagrab => "ffmpeg-ddagrab",
        }
    }
}

/// The capture tried first in a mode.
pub open spec fn spec_first_capture(mode: CaptureMode) -> CaptureSource {
    match mode {
        CaptureMode::Scrap => CaptureSource::Scrap,
        CaptureMode::FfmpegDdagrab => CaptureSource::FfmpegDdagrab,
        CaptureMode::Auto => CaptureSource::FfmpegDdagrab,
    }
}

/// The capture tried after `failed` failed in a mode, if any: only `Auto`
/// falls back, from ffmpeg to `scrap`.
pub open spec fn spec_fallback_capture(mode: CaptureMode, failed: CaptureSource) -> Option<
    CaptureSource,
> {
    if mode == CaptureMode::Auto && failed == CaptureSource::FfmpegDdagrab {
        Some(CaptureSource::Scrap)
    } else {
        None
    }
}

/// The capture tried first in `mode`.
pub fn first_capture(mode: CaptureMode) -> (s: CaptureSource)
    ensures
        s == spec_first_capture(mode),
{
    match mode {
        CaptureMode::Scrap => CaptureSource::Scrap,
        CaptureMode::FfmpegDdagrab => CaptureSource::FfmpegDdagrab,
        CaptureMode::Auto => CaptureSource::FfmpegDdagrab,
    }
}

/// The capture tried after `failed` failed in `mode`, if any.
pub fn fallback_capture(mode: CaptureMode, failed: CaptureSource) -> (s: Option<CaptureSource>)
    ensures
        s == spec_fallback_capture(mode, failed),
{
    match (mode, failed) {
        (CaptureMode::Auto, CaptureSource::FfmpegDdagrab) => Some(CaptureSource::Scrap),
        _ => None,
    }
}

/// How the encoder stage encodes frames.
#[derive(Clone, Copy, Debug, PartialEq, Eq, Structural)]
pub enum EncoderBackend {
    /// The built-in fast path.
    Fast,
    /// One ffmpeg `libx264` run per frame.
    FfmpegLibx264,
    /// One ffmpeg `h264_nvenc` run per frame.
    FfmpegH264Nvenc,
}

impl EncoderBackend {
    /// The ffmpeg codec that the backend runs, if it runs ffmpeg.
    pub fn ffmpeg_codec(&self) -> (c: Option<&'static str>)
        ensures
            *self == EncoderBackend::Fast ==> c is None,
            *self == EncoderBackend::FfmpegLibx264 ==> c is Some && c->0@ == "libx264"@,
            *self == EncoderBackend::FfmpegH264Nvenc ==> c is Some && c->0@ == "h264_nvenc"@,
    {
        match self {
            EncoderBackend::Fast => None,
            EncoderBackend::FfmpegLibx264 => Some("libx264"),
            EncoderBackend::FfmpegH264Nvenc => Some("h264_nvenc"),
        }
    }
}

/// Why a desktop capture probe failed.
#[derive(Clone, Copy, Debug, PartialEq, Eq, Structural)]
pub enum CaptureError {
    /// The screen reported a width or a height of zero.
    ScreenSizeUnavailable,
    /// The ffmpeg capture produced no frame during the probe.
    NoFramesProduced,
    /// Reading a frame from the capture failed.
    FrameReadFailed,
}

/// How a failed frame read ended.
#[derive(Clone, Copy, Debug, PartialEq, Eq, Structural)]
pub enum FrameReadError {
    /// No new frame yet.
    WouldBlock,
    /// The stream ended before a whole frame.
    UnexpectedEof,
    /// Any other failure.
    Other,
}

/// The bytes of one raw BGRA frame from the ffmpeg capture of a screen of
/// `width` by `height` pixels; refused where either is 0.
pub fn ffmpeg_frame_size(width: usize, height: usize) -> (r: Result<usize, CaptureError>)
    requires
        width * height * 4 <= usize::MAX,
    ensures
        (width == 0 || height == 0) ==> r == Err::<usize, CaptureError>(
            CaptureError::ScreenSizeUnavailable,
        ),
        (width != 0 && height != 0) ==> r == Ok::<usize, CaptureError>(
            (width * height * 4) as usize,
        ),
{
    if width == 0 || height == 0 {
        return Err(CaptureError::ScreenSizeUnavailable);
    }
    assert(width * height <= width * height * 4) by (nonlinear_arith);
    Ok(width * height * 4)
}

/// Whether a failed read from the `scrap` capturer only means that no frame
/// is ready (`Ok(())`), or fails the probe.
pub fn scrap_read_outcome(err: FrameReadError) -> (r: Result<(), CaptureError>)
    ensures
        r is Ok <==> err == FrameReadError::WouldBlock,
        r is Err ==> r == Err::<(), CaptureError>(CaptureError::FrameReadFailed),
{
    match err {
        FrameReadError::WouldBlock => Ok(()),
        _ => Err(CaptureError::FrameReadFailed),
    }
}

/// Whether a failed read from the ffmpeg stream only means that no frame is
/// ready (`Ok(())`), or fails the probe.
pub fn ffmpeg_read_outcome(err: FrameReadError) -> (r: Result<(), CaptureError>)
    ensures
        r is Ok <==> (err == FrameReadError::WouldBlock || err == FrameReadError::UnexpectedEof),
        r is Err ==> r == Err::<(), CaptureError>(CaptureError::FrameReadFailed),
{
    match err {
        FrameReadError::WouldBlock => Ok(()),
        FrameReadError::UnexpectedEof => Ok(()),
        FrameReadError::Other => Err(CaptureError::FrameReadFailed),
    }
}

/// Refuses an ffmpeg capture probe that produced no frame.
pub fn check_ffmpeg_frames(produced_frames: u64) -> (r: Result<(), CaptureError>)
    ensures
        produced_frames == 0 ==> r == Err::<(), CaptureError>(CaptureError::NoFramesProduced),
        produced_frames > 0 ==> r is Ok,
{
    if produced_frames == 0 {
        Err(CaptureError::NoFramesProduced)
    } else {
        Ok(())
    }
}

/// Where the Windows bootstrap stands.
#[derive(Clone, Copy, Debug, PartialEq, Eq, Structural)]
pub enum BootstrapPhase {
    /// Waiting for the DXGI adapter probe.
    ProbingAdapter,
    /// Waiting for a capture probe.
    Capturing { source: CaptureSource },
    /// Finished, one way or the other.
    Done,
}

/// What happened since the last step.
#[derive(Clone, Copy, Debug, PartialEq, Eq, Structural)]
pub enum BootstrapEvent {
    AdapterProbed,
    AdapterFailed,
    CaptureSucceeded,
    CaptureFailed,
}

/// What the bootstrap asks the caller to do next.
#[derive(Clone, Copy, Debug, PartialEq, Eq, Structural)]
pub enum BootstrapAction {
    /// Probe the primary DXGI adapter.
    ProbeAdapter,
    /// Run a desktop capture probe.
    RunCapture { source: CaptureSource },
    /// Done without running the pipeline (dry run): no report.
    FinishWithoutReport,
    /// Done: report the successful capture probe.
    FinishWithReport,
    /// Done: fail with the last error.
    Fail,
}

/// The Windows capture bootstrap: probe the adapter, then, unless this is a
/// dry run, run a capture probe, falling back once where the mode allows.
#[derive(Clone, Copy, Debug)]
pub struct WindowsBootstrap {
    pub dry_run: bool,
    pub mode: CaptureMode,
    pub phase: BootstrapPhase,
}

/// The next phase and action of a bootstrap on an event.
pub open spec fn spec_step(s: WindowsBootstrap, event: BootstrapEvent) -> (
    BootstrapPhase,
    BootstrapAction,
) {
    match (s.phase, event) {
        (BootstrapPhase::ProbingAdapter, BootstrapEvent::AdapterProbed) => if s.dry_run {
            (BootstrapPhase::Done, BootstrapAction::FinishWithoutReport)
        } else {
            (
                BootstrapPhase::Capturing { source: spec_first_capture(s.mode) },
                BootstrapAction::RunCapture { source: spec_first_capture(s.mode) },
            )
        },
        (BootstrapPhase::Capturing { .. }, BootstrapEvent::CaptureSucceeded) => (
            BootstrapPhase::Done,
            BootstrapAction::FinishWithReport,
        ),
        (BootstrapPhase::Capturing { source }, BootstrapEvent::CaptureFailed) => match spec_fallback_capture(s.mode, source) {
            Some(next) => (
                BootstrapPhase::Capturing { source: next },
                BootstrapAction::RunCapture { source: next },
            ),
            None => (BootstrapPhase::Done, BootstrapAction::Fail),
        },
        _ => (BootstrapPhase::Done, BootstrapAction::Fail),
    }
}

/// How many capture probes a bootstrap may still run.
pub open spec fn captures_left(s: WindowsBootstrap) -> nat {
    match s.phase {
        BootstrapPhase::ProbingAdapter => if s.dry_run {
            0
        } else if s.mode == CaptureMode::Auto {
            2
        } else {
            1
        },
        BootstrapPhase::Capturing { source } => if spec_fallback_capture(s.mode, source) is Some {
            1
        } else {
            0
        },
        BootstrapPhase::Done => 0,
    }
}

impl WindowsBootstrap {
    /// A bootstrap that first probes the adapter.
    pub fn new(dry_run: bool, mode: CaptureMode) -> (r: (WindowsBootstrap, BootstrapAction))
        ensures
            r.0.dry_run == dry_run,
            r.0.mode == mode,
            r.0.phase == BootstrapPhase::ProbingAdapter,
            r.1 == BootstrapAction::ProbeAdapter,
    {
        (WindowsBootstrap { dry_run, mode, phase: BootstrapPhase::ProbingAdapter }, BootstrapAction::ProbeAdapter)
    }

    /// Moves the bootstrap on by an event and says what to do next. An event
    /// that the phase does not wait for fails the bootstrap.
    pub fn step(&mut self, event: BootstrapEvent) -> (action: BootstrapAction)
        ensures
            final(self).dry_run == old(self).dry_run,
            final(self).mode == old(self).mode,
            (final(self).phase, action) == spec_step(*old(self), event),
    {
        let (phase, action) = match (self.phase, event) {
            (BootstrapPhase::ProbingAdapter, BootstrapEvent::AdapterProbed) => {
                if self.dry_run {
                    (BootstrapPhase::Done, BootstrapAction::FinishWithoutReport)
                } else {
                    let source = first_capture(self.mode);
                    (BootstrapPhase::Capturing { source }, BootstrapAction::RunCapture { source })
                }
            },
            (BootstrapPhase::Capturing { .. }, BootstrapEvent::CaptureSucceeded) => {
                (BootstrapPhase::Done, BootstrapAction::FinishWithReport)
            },
            (BootstrapPhase::Capturing { source }, BootstrapEvent::CaptureFailed) => {
                match fallback_capture(self.mode, source) {
                    Some(next) => (
                        BootstrapPhase::Capturing { source: next },
                        BootstrapAction::RunCapture { source: next },
                    ),
                    None => (BootstrapPhase::Done, BootstrapAction::Fail),
                }
            },
            _ => (BootstrapPhase::Done, BootstrapAction::Fail),
        };
        self.phase = phase;
        action
    }
}

/// A dry run never runs a capture probe: from any phase other than a
/// capture, no step starts one or enters one.
pub proof fn law_dry_run_never_captures(s: WindowsBootstrap, event: BootstrapEvent)
    requires
        s.dry_run,
        !(s.phase is Capturing),
    ensures
        !(spec_step(s, event).0 is Capturing),
        !(spec_step(s, event).1 is RunCapture),
{
}

/// Only `Auto` falls back, only from a failed ffmpeg capture, and only to
/// `scrap`; a failed `scrap` capture fails the bootstrap.
pub proof fn law_fallback_only_from_ffmpeg_in_auto(s: WindowsBootstrap)
    requires
        s.phase is Capturing,
    ensures
        spec_step(s, BootstrapEvent::CaptureFailed).1 is RunCapture ==> s.mode == CaptureMode::Auto
            && s.phase == (BootstrapPhase::Capturing { source: CaptureSource::FfmpegDdagrab })
            && spec_step(s, BootstrapEvent::CaptureFailed).1 == (BootstrapAction::RunCapture {
                source: CaptureSource::Scrap,
            }),
        s.phase == (BootstrapPhase::Capturing { source: CaptureSource::Scrap }) ==> spec_step(
            s,
            BootstrapEvent::CaptureFailed,
        ).1 == BootstrapAction::Fail,
{
}

/// A successful capture probe always finishes the bootstrap with its report,
/// whatever the capture and the mode.
pub proof fn law_capture_success_reports(s: WindowsBootstrap)
    requires
        s.phase is Capturing,
    ensures
        spec_step(s, BootstrapEvent::CaptureSucceeded) == (
            BootstrapPhase::Done,
            BootstrapAction::FinishWithReport,
        ),
{
}

/// A bootstrap runs at most two capture probes: it starts with at most two
/// left, every step that runs one uses one up, and no step adds any.
pub proof fn law_capture_runs_bounded(s: WindowsBootstrap, event: BootstrapEvent)
    ensures
        s.phase == BootstrapPhase::ProbingAdapter ==> captures_left(s) <= 2,
        ({
            let next = WindowsBootstrap { phase: spec_step(s, event).0, ..s };
            &&& spec_step(s, event).1 is RunCapture ==> captures_left(next) + 1 == captures_left(s)
            &&& !(spec_step(s, event).1 is RunCapture) ==> captures_left(next) <= captures_left(s)
        }),
{
}

} // verus!
