use vstd::prelude::*;
use crate::capture::CaptureTuning;

verus! {

/// The command line of the sender.
#[derive(Clone, Debug)]
pub struct CliArgs {
    /// Room override.
    pub room: Option<String>,
    /// Sender identity override.
    pub identity: Option<String>,
    /// Requested platform backend: `windows`, `macos` or `auto`.
    pub platform: String,
    /// Skip the media pipeline.
    pub dry_run: bool,
    /// Target frame rate of the probe and the pipeline.
    pub target_fps: u32,
    /// Length of the pacing probe, in seconds.
    pub probe_seconds: u64,
}

/// The settings of the environment that the configuration reads, each
/// `None` where the variable is unset or not valid unicode.
#[derive(Clone, Debug)]
pub struct ConfigEnv {
    /// `API_BASE_URL`
    pub api_base_url: Option<String>,
    /// `ROOM_NAME`
    pub room_name: Option<String>,
    /// `IDENTITY`
    pub identity: Option<String>,
    /// `CLIENT_TYPE`
    pub client_type: Option<String>,
}

/// The resolved configuration of the sender.
#[derive(Clone, Debug)]
pub struct AppConfig {
    pub api_base_url: String,
    pub room_name: String,
    pub identity: String,
    pub client_type: String,
}

pub open spec fn default_api_base_url() -> Seq<char> {
    "http://localhost:4000"@
}

pub open spec fn default_room_name() -> Seq<char> {
    "mycord-room"@
}

pub open spec fn default_identity() -> Seq<char> {
    "native-sender"@
}

pub open spec fn default_client_type() -> Seq<char> {
    "native_sender"@
}

pub open spec fn default_platform() -> Seq<char> {
    "auto"@
}

pub open spec fn default_target_fps() -> u32 {
    60
}

pub open spec fn default_probe_seconds() -> u64 {
    5
}

/// The text of an optional string.
pub open spec fn text_of(o: Option<String>) -> Option<Seq<char>> {
    match o {
        Some(s) => Some(s@),
        None => None,
    }
}

/// A setting: the command line value where there is one, else the
/// environment's, else the default.
pub open spec fn resolve_setting(
    cli: Option<Seq<char>>,
    env: Option<Seq<char>>,
    default: Seq<char>,
) -> Seq<char> {
    match cli {
        Some(v) => v,
        None => match env {
            Some(v) => v,
            None => default,
        },
    }
}

fn first_of(cli: &Option<String>, env: &Option<String>, default: &str) -> (r: String)
    ensures
        r@ == resolve_setting(text_of(*cli), text_of(*env), default@),
{
    match cli {
        Some(v) => v.clone(),
        None => match env {
            Some(v) => v.clone(),
            None => String::from_str(default),
        },
    }
}

impl CliArgs {
    /// The command line with the documented defaults filled in where a flag
    /// was not given: platform `auto`, 60 fps, a 5 second probe.
    pub fn with_defaults(
        room: Option<String>,
        identity: Option<String>,
        platform: Option<String>,
        dry_run: bool,
        target_fps: Option<u32>,
        probe_seconds: Option<u64>,
    ) -> (r: CliArgs)
        ensures
            r.room == room,
            r.identity == identity,
            r.platform@ == resolve_setting(text_of(platform), None, default_platform()),
            r.dry_run == dry_run,
            r.target_fps == (match target_fps {
                Some(f) => f,
                None => default_target_fps(),
            }),
            r.probe_seconds == (match probe_seconds {
                Some(s) => s,
                None => default_probe_seconds(),
            }),
    {
        let platform = first_of(&platform, &None, "auto");
        let target_fps: u32 = match target_fps {
            Some(f) => f,
            None => 60,
        };
        let probe_seconds: u64 = match probe_seconds {
            Some(s) => s,
            None => 5,
        };
        CliArgs { room, identity, platform, dry_run, target_fps, probe_seconds }
    }

    /// The pacing and pipeline tuning that the command line asks for.
    pub fn capture_tuning(&self) -> (t: CaptureTuning)
        ensures
            t.target_fps == self.target_fps,
            t.probe_seconds == self.probe_seconds,
    {
        CaptureTuning { target_fps: self.target_fps, probe_seconds: self.probe_seconds }
    }
}

impl AppConfig {
    /// Resolves the configuration: the room and the identity come from the
    /// command line where given, else from the environment, else from the
    /// defaults; the API base URL and the client type from the environment,
    /// else from the defaults.
    pub fn from_env(args: &CliArgs, env: &ConfigEnv) -> (c: AppConfig)
        ensures
            c.api_base_url@ == resolve_setting(None, text_of(env.api_base_url), default_api_base_url()),
            c.room_name@ == resolve_setting(text_of(args.room), text_of(env.room_name), default_room_name()),
            c.identity@ == resolve_setting(text_of(args.identity), text_of(env.identity), default_identity()),
            c.client_type@ == resolve_setting(None, text_of(env.client_type), default_client_type()),
    {
        AppConfig {
            api_base_url: first_of(&None, &env.api_base_url, "http://localhost:4000"),
            room_name: first_of(&args.room, &env.room_name, "mycord-room"),
            identity: first_of(&args.identity, &env.identity, "native-sender"),
            client_type: first_of(&None, &env.client_type, "native_sender"),
        }
    }
}

/// A setting given on the command line wins over the environment, a setting
/// in the environment wins over the default, and the default is used only
/// where neither gives a value.
pub proof fn law_setting_precedence(
    cli: Option<Seq<char>>,
    env: Option<Seq<char>>,
    default: Seq<char>,
)
    ensures
        cli is None && env is None ==> resolve_setting(cli, env, default) == default,
        cli is Some ==> resolve_setting(cli, env, default) == cli->0,
        cli is None && env is Some ==> resolve_setting(cli, env, default) == env->0,
{
}

} // verus!
