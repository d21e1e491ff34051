use native_sender::platform::ffmpeg::{
    decimal_string, ffmpeg_capture_args, ffmpeg_encode_args, frame_size_text,
};
use native_sender::platform::macos::MacOsCaptureBackend;
use native_sender::platform::windows::{
    check_ffmpeg_frames, fallback_capture, ffmpeg_frame_size, ffmpeg_read_outcome, first_capture,
    scrap_read_outcome, BootstrapAction, BootstrapEvent, CaptureError, CaptureMode,
    CaptureSource, EncoderBackend, FrameReadError, WindowsBootstrap, WindowsCaptureBackend,
};
use native_sender::platform::windows_dxgi::{decode_adapter_name, AdapterDescription, DxgiAdapterProbe};
use native_sender::platform::{
    resolve_platform, select_platform, CaptureBackend, HostOs, PlatformError, PlatformKind,
};

#[test]
fn backend_names_and_hints() {
    assert_eq!(MacOsCaptureBackend.name(), "macos");
    assert_eq!(WindowsCaptureBackend.name(), "windows");
    assert!(MacOsCaptureBackend.diagnostics_hint().starts_with("Grant Screen Recording permission"));
    assert!(WindowsCaptureBackend.diagnostics_hint().starts_with("Use latest GPU drivers"));
}

#[test]
fn bootstrap_notices() {
    assert_eq!(
        MacOsCaptureBackend.bootstrap_notice(true),
        "[macos] dry-run capture bootstrap: ScreenCaptureKit + CoreAudio placeholder"
    );
    assert_eq!(
        MacOsCaptureBackend.bootstrap_notice(false),
        "[macos] capture pipeline bootstrap placeholder (implement ScreenCaptureKit next)"
    );
    assert_eq!(
        WindowsCaptureBackend.bootstrap_notice(true),
        "[windows] dry-run capture bootstrap: DXGI + WASAPI pipeline placeholder"
    );
}

#[test]
fn auto_selects_host() {
    assert_eq!(select_platform("auto", HostOs::Windows).unwrap(), PlatformKind::Windows);
    assert_eq!(select_platform("auto", HostOs::MacOs).unwrap(), PlatformKind::MacOs);
    assert!(matches!(select_platform("auto", HostOs::Other), Err(PlatformError::UnsupportedHost)));
}

#[test]
fn explicit_platform_must_match_host() {
    assert_eq!(select_platform("windows", HostOs::Windows).unwrap(), PlatformKind::Windows);
    assert_eq!(select_platform("macos", HostOs::MacOs).unwrap(), PlatformKind::MacOs);
    match select_platform("macos", HostOs::Windows) {
        Err(PlatformError::Mismatch { requested, host }) => {
            assert_eq!(requested, "macos");
            assert_eq!(host, PlatformKind::Windows);
        }
        other => panic!("unexpected {:?}", other),
    }
    assert!(matches!(select_platform("windows", HostOs::MacOs), Err(PlatformError::Mismatch { .. })));
}

#[test]
fn requested_platform_is_lowercased() {
    assert_eq!(resolve_platform("WINDOWS", HostOs::Windows).unwrap(), PlatformKind::Windows);
    assert_eq!(resolve_platform("MacOS", HostOs::MacOs).unwrap(), PlatformKind::MacOs);
    assert_eq!(resolve_platform("Auto", HostOs::MacOs).unwrap(), PlatformKind::MacOs);
    match resolve_platform("Linux", HostOs::Windows) {
        Err(PlatformError::Mismatch { requested, .. }) => assert_eq!(requested, "linux"),
        other => panic!("unexpected {:?}", other),
    }
    assert!(matches!(resolve_platform("auto", HostOs::Other), Err(PlatformError::UnsupportedHost)));
}

#[test]
fn capture_modes() {
    assert_eq!(first_capture(CaptureMode::Auto), CaptureSource::FfmpegDdagrab);
    assert_eq!(first_capture(CaptureMode::Scrap), CaptureSource::Scrap);
    assert_eq!(first_capture(CaptureMode::FfmpegDdagrab), CaptureSource::FfmpegDdagrab);
    assert_eq!(fallback_capture(CaptureMode::Auto, CaptureSource::FfmpegDdagrab), Some(CaptureSource::Scrap));
    assert_eq!(fallback_capture(CaptureMode::Auto, CaptureSource::Scrap), None);
    assert_eq!(fallback_capture(CaptureMode::FfmpegDdagrab, CaptureSource::FfmpegDdagrab), None);
    assert_eq!(CaptureSource::Scrap.label(), "scrap");
    assert_eq!(CaptureSource::FfmpegDdagrab.label(), "ffmpeg-ddagrab");
}

#[test]
fn encoder_codecs() {
    assert_eq!(EncoderBackend::Fast.ffmpeg_codec(), None);
    assert_eq!(EncoderBackend::FfmpegLibx264.ffmpeg_codec(), Some("libx264"));
    assert_eq!(EncoderBackend::FfmpegH264Nvenc.ffmpeg_codec(), Some("h264_nvenc"));
}

#[test]
fn ffmpeg_frame_sizes() {
    assert_eq!(ffmpeg_frame_size(1920, 1080), Ok(1920 * 1080 * 4));
    assert_eq!(ffmpeg_frame_size(0, 1080), Err(CaptureError::ScreenSizeUnavailable));
    assert_eq!(ffmpeg_frame_size(1920, 0), Err(CaptureError::ScreenSizeUnavailable));
    assert_eq!(check_ffmpeg_frames(0), Err(CaptureError::NoFramesProduced));
    assert_eq!(check_ffmpeg_frames(3), Ok(()));
}

#[test]
fn read_error_outcomes() {
    assert_eq!(scrap_read_outcome(FrameReadError::WouldBlock), Ok(()));
    assert_eq!(scrap_read_outcome(FrameReadError::UnexpectedEof), Err(CaptureError::FrameReadFailed));
    assert_eq!(scrap_read_outcome(FrameReadError::Other), Err(CaptureError::FrameReadFailed));
    assert_eq!(ffmpeg_read_outcome(FrameReadError::WouldBlock), Ok(()));
    assert_eq!(ffmpeg_read_outcome(FrameReadError::UnexpectedEof), Ok(()));
    assert_eq!(ffmpeg_read_outcome(FrameReadError::Other), Err(CaptureError::FrameReadFailed));
}

#[test]
fn dry_run_bootstrap_never_captures() {
    let (mut b, first) = WindowsBootstrap::new(true, CaptureMode::Auto);
    assert_eq!(first, BootstrapAction::ProbeAdapter);
    assert_eq!(b.step(BootstrapEvent::AdapterProbed), BootstrapAction::FinishWithoutReport);
}

#[test]
fn auto_bootstrap_falls_back_once() {
    let (mut b, _) = WindowsBootstrap::new(false, CaptureMode::Auto);
    assert_eq!(
        b.step(BootstrapEvent::AdapterProbed),
        BootstrapAction::RunCapture { source: CaptureSource::FfmpegDdagrab }
    );
    assert_eq!(
        b.step(BootstrapEvent::CaptureFailed),
        BootstrapAction::RunCapture { source: CaptureSource::Scrap }
    );
    assert_eq!(b.step(BootstrapEvent::CaptureFailed), BootstrapAction::Fail);
}

#[test]
fn bootstrap_reports_success() {
    let (mut b, _) = WindowsBootstrap::new(false, CaptureMode::Scrap);
    assert_eq!(
        b.step(BootstrapEvent::AdapterProbed),
        BootstrapAction::RunCapture { source: CaptureSource::Scrap }
    );
    assert_eq!(b.step(BootstrapEvent::CaptureSucceeded), BootstrapAction::FinishWithReport);
}

#[test]
fn bootstrap_fails_on_adapter_error() {
    let (mut b, _) = WindowsBootstrap::new(false, CaptureMode::Auto);
    assert_eq!(b.step(BootstrapEvent::AdapterFailed), BootstrapAction::Fail);
}

#[test]
fn ffmpeg_only_mode_does_not_fall_back() {
    let (mut b, _) = WindowsBootstrap::new(false, CaptureMode::FfmpegDdagrab);
    b.step(BootstrapEvent::AdapterProbed);
    assert_eq!(b.step(BootstrapEvent::CaptureFailed), BootstrapAction::Fail);
}

fn units(s: &str, pad: usize) -> Vec<u16> {
    let mut v: Vec<u16> = s.encode_utf16().collect();
    v.extend(std::iter::repeat(0).take(pad));
    v
}

#[test]
fn adapter_name_stops_at_nul() {
    let mut description = units("NVIDIA GeForce RTX 4090", 4);
    description.extend(units("junk", 0));
    let desc = AdapterDescription {
        description,
        vendor_id: 0x10de,
        dedicated_video_memory: 24 * 1024 * 1024 * 1024,
        shared_system_memory: 3 * 1024 * 1024 + 5,
    };
    assert_eq!(decode_adapter_name(&desc), "NVIDIA GeForce RTX 4090");
    let probe = DxgiAdapterProbe::from_description(&desc);
    assert_eq!(probe.adapter_name, "NVIDIA GeForce RTX 4090");
    assert_eq!(probe.vendor_id, 0x10de);
    assert_eq!(probe.dedicated_video_memory_mb, 24 * 1024);
    assert_eq!(probe.shared_system_memory_mb, 3);
}

#[test]
fn adapter_name_without_nul_and_invalid_units() {
    let desc = AdapterDescription {
        description: vec![0x0041, 0xD800, 0x0042],
        vendor_id: 0,
        dedicated_video_memory: 0,
        shared_system_memory: 0,
    };
    assert_eq!(decode_adapter_name(&desc), "A\u{FFFD}B");
    let empty = AdapterDescription { description: vec![0, 0x41], vendor_id: 0, dedicated_video_memory: 0, shared_system_memory: 0 };
    assert_eq!(decode_adapter_name(&empty), "");
}

#[test]
fn decimal_strings() {
    assert_eq!(decimal_string(0), "0");
    assert_eq!(decimal_string(7), "7");
    assert_eq!(decimal_string(60), "60");
    assert_eq!(decimal_string(1920), "1920");
    assert_eq!(decimal_string(u64::MAX), u64::MAX.to_string());
    assert_eq!(frame_size_text(1920, 1080), "1920x1080");
}

#[test]
fn ffmpeg_encode_command_line() {
    let args = ffmpeg_encode_args(1280, 720, "libx264");
    let expected = [
        "-hide_banner", "-loglevel", "error", "-f", "rawvideo", "-pix_fmt", "bgra", "-s",
        "1280x720", "-r", "60", "-i", "pipe:0", "-frames:v", "1", "-an", "-c:v", "libx264", "-f",
        "h264", "pipe:1",
    ];
    assert_eq!(args, expected);
}

#[test]
fn ffmpeg_capture_command_line() {
    let args = ffmpeg_capture_args(60);
    let expected = [
        "-hide_banner", "-loglevel", "error", "-f", "lavfi", "-i", "ddagrab=framerate=60",
        "-pix_fmt", "bgra", "-f", "rawvideo", "pipe:1",
    ];
    assert_eq!(args, expected);
}

#[test]
fn adapter_name_roundtrip_with_padding() {
    for name in ["GPU", "", "Radeon™ RX 7900", "𝄞 Adapter", "Intel(R) UHD"] {
        let mut description: Vec<u16> = name.encode_utf16().collect();
        description.resize(128, 0);
        let desc = AdapterDescription {
            description,
            vendor_id: 1,
            dedicated_video_memory: 0,
            shared_system_memory: 0,
        };
        assert_eq!(decode_adapter_name(&desc), name);
    }
}

#[test]
fn adapter_name_surrogates() {
    let desc = AdapterDescription {
        description: vec![0xD834, 0xDD1E, 0xDC00, 0x0041, 0xD800, 0],
        vendor_id: 0,
        dedicated_video_memory: 0,
        shared_system_memory: 0,
    };
    assert_eq!(decode_adapter_name(&desc), "\u{1D11E}\u{FFFD}A\u{FFFD}");
}

#[test]
fn refusal_names_the_host() {
    match resolve_platform("MacOS", HostOs::Windows) {
        Err(PlatformError::Mismatch { requested, host }) => {
            assert_eq!(requested, "macos");
            assert_eq!(host, PlatformKind::Windows);
        }
        other => panic!("unexpected {:?}", other),
    }
    match resolve_platform("Windows", HostOs::MacOs) {
        Err(PlatformError::Mismatch { requested, host }) => {
            assert_eq!(requested, "windows");
            assert_eq!(host, PlatformKind::MacOs);
        }
        other => panic!("unexpected {:?}", other),
    }
}
