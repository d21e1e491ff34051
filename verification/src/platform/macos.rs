use vstd::prelude::*;
use super::CaptureBackend;

verus! {

/// The macOS capture backend (ScreenCaptureKit and CoreAudio).
#[derive(Clone, Copy, Debug)]
pub struct MacOsCaptureBackend;

impl CaptureBackend for MacOsCaptureBackend {
    fn name(&self) -> (n: &'static str)
        ensures
            n@ == "macos"@,
    {
        "macos"
    }

    fn diagnostics_hint(&self) -> (h: &'static str)
        ensures
            h@ == "Grant Screen Recording permission, keep app in foreground for first capture grant, and prefer wired/strong Wi-Fi for 1080p60."@,
    {
        "Grant Screen Recording permission, keep app in foreground for first capture grant, and prefer wired/strong Wi-Fi for 1080p60."
    }

    fn bootstrap_notice(&self, dry_run: bool) -> (m: &'static str)
        ensures
            dry_run ==> m@ == "[macos] dry-run capture bootstrap: ScreenCaptureKit + CoreAudio placeholder"@,
            !dry_run ==> m@ == "[macos] capture pipeline bootstrap placeholder (implement ScreenCaptureKit next)"@,
    {
        if dry_run {
            "[macos] dry-run capture bootstrap: ScreenCaptureKit + CoreAudio placeholder"
        } else {
            "[macos] capture pipeline bootstrap placeholder (implement ScreenCaptureKit next)"
        }
    }
}

} // verus!
