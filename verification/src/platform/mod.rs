use vstd::prelude::*;

pub mod ffmpeg;
pub mod macos;
pub mod windows;
pub mod windows_dxgi;

verus! {

/// A capture backend of one operating system.
pub trait CaptureBackend {
    /// The platform name of the backend.
    fn name(&self) -> &'static str;

    /// Advice for a stable capture on this platform.
    fn diagnostics_hint(&self) -> &'static str;

    /// The line announced when the capture pipeline is bootstrapped, with or
    /// without the media pipeline.
    fn bootstrap_notice(&self, dry_run: bool) -> &'static str;
}

/// The operating system the sender runs on.
#[derive(Clone, Copy, Debug, PartialEq, Eq, Structural)]
pub enum HostOs {
    Windows,
    MacOs,
    Other,
}

/// The platform backends of the sender.
#[derive(Clone, Copy, Debug, PartialEq, Eq, Structural)]
pub enum PlatformKind {
    Windows,
    MacOs,
}

/// Why no platform backend can be used.
#[derive(Clone, Debug)]
pub enum PlatformError {
    /// The requested platform (lowercased) is neither `auto` nor the host's.
    Mismatch { requested: String, host: PlatformKind },
    /// The host is neither Windows nor macOS.
    UnsupportedHost,
}

/// The lowercase form of a text, as `str::to_lowercase` computes it.
pub uninterp spec fn lowercase(s: Seq<char>) -> Seq<char>;

/// Calls `str::to_lowercase`, which maps every character to its Unicode
/// lowercase mapping; the contract names the result and claims nothing
/// more of it.
#[verifier::external_body]
fn to_lowercase(s: &str) -> (r: String)
    ensures
        r@ == lowercase(s@),
{
    s.to_lowercase()
}

/// The backend that a request already in lowercase selects on a host:
/// `auto` or the host's own name selects the host's backend; any other
/// request is refused, and a host other than Windows and macOS has none.
pub open spec fn spec_select_platform(requested: Seq<char>, host: HostOs) -> Option<PlatformKind> {
    match host {
        HostOs::Windows => if requested == "auto"@ || requested == "windows"@ {
            Some(PlatformKind::Windows)
        } else {
            None
        },
        HostOs::MacOs => if requested == "auto"@ || requested == "macos"@ {
            Some(PlatformKind::MacOs)
        } else {
            None
        },
        HostOs::Other => None,
    }
}

fn same_text(a: &str, b: &str) -> (r: bool)
    ensures
        r == (a@ == b@),
{
    String::from_str(a) == String::from_str(b)
}

/// Selects the platform backend for a request already in lowercase.
pub fn select_platform(requested: &str, host: HostOs) -> (r: Result<PlatformKind, PlatformError>)
    ensures
        r is Ok <==> spec_select_platform(requested@, host) is Some,
        r matches Ok(k) ==> spec_select_platform(requested@, host) == Some(k),
        host == HostOs::Other ==> r matches Err(PlatformError::UnsupportedHost),
        host == HostOs::Windows && r is Err ==> (r matches Err(
            PlatformError::Mismatch { requested: req, host: PlatformKind::Windows },
        ) && req@ == requested@),
        host == HostOs::MacOs && r is Err ==> (r matches Err(
            PlatformError::Mismatch { requested: req, host: PlatformKind::MacOs },
        ) && req@ == requested@),
{
    match host {
        HostOs::Windows => {
            if same_text(requested, "auto") || same_text(requested, "windows") {
                Ok(PlatformKind::Windows)
            } else {
                Err(
                    PlatformError::Mismatch {
                        requested: String::from_str(requested),
                        host: PlatformKind::Windows,
                    },
                )
            }
        },
        HostOs::MacOs => {
            if same_text(requested, "auto") || same_text(requested, "macos") {
                Ok(PlatformKind::MacOs)
            } else {
                Err(
                    PlatformError::Mismatch {
                        requested: String::from_str(requested),
                        host: PlatformKind::MacOs,
                    },
                )
            }
        },
        HostOs::Other => Err(PlatformError::UnsupportedHost),
    }
}

/// Lowercases the requested platform and selects the backend for it.
pub fn resolve_platform(requested: &str, host: HostOs) -> (r: Result<PlatformKind, PlatformError>)
    ensures
        r is Ok <==> spec_select_platform(lowercase(requested@), host) is Some,
        r matches Ok(k) ==> spec_select_platform(lowercase(requested@), host) == Some(k),
        host == HostOs::Other ==> r matches Err(PlatformError::UnsupportedHost),
        r matches Err(PlatformError::Mismatch { requested: req, .. }) ==> req@ == lowercase(
            requested@,
        ),
        host == HostOs::Windows && r is Err ==> (r matches Err(
            PlatformError::Mismatch { requested: req, host: PlatformKind::Windows },
        ) && req@ == lowercase(requested@)),
        host == HostOs::MacOs && r is Err ==> (r matches Err(
            PlatformError::Mismatch { requested: req, host: PlatformKind::MacOs },
        ) && req@ == lowercase(requested@)),
{
    let lowered = to_lowercase(requested);
    select_platform(lowered.as_str(), host)
}

/// `auto` selects the host's own backend on every supported host.
pub proof fn law_auto_selects_host(host: HostOs)
    ensures
        host == HostOs::Windows ==> spec_select_platform("auto"@, host) == Some(PlatformKind::Windows),
        host == HostOs::MacOs ==> spec_select_platform("auto"@, host) == Some(PlatformKind::MacOs),
        host == HostOs::Other ==> spec_select_platform("auto"@, host) is None,
{
}

/// A request selects a backend exactly when it is `auto` or the host's own
/// name; every other request is refused.
pub proof fn law_only_auto_or_host_name_selects(requested: Seq<char>, host: HostOs)
    ensures
        spec_select_platform(requested, host) is Some <==> (host != HostOs::Other && (requested == "auto"@ || (host
            == HostOs::MacOs && requested == "macos"@) || (host == HostOs::Windows && requested
            == "windows"@))),
{
}

/// A selected backend is always the host's own.
pub proof fn law_selection_matches_host(requested: Seq<char>, host: HostOs)
    ensures
        spec_select_platform(requested, host) == Some(PlatformKind::Windows) ==> host
            == HostOs::Windows,
        spec_select_platform(requested, host) == Some(PlatformKind::MacOs) ==> host
            == HostOs::MacOs,
{
}

} // verus!
