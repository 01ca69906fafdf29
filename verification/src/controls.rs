//! The system-control commands: `volume`, `appearance`, `wifi`, and the
//! gate in front of external execution (`run-shell`, `run-applescript`,
//! `run-jxa`, `open-url`, `open-path`).
use vstd::prelude::*;
use crate::adapter::PlatformAdapter;
use crate::error::{AdapterError, AppError, ErrorCode};
use crate::system::{
    AppearanceRequest, AppearanceState, AudioRequest, AudioState, ExternalKind, ExternalRequest,
    ExternalResult, NetworkRequest, NetworkState,
};
use crate::text::{chars_of, owned, str_eq, string_of_range};

verus! {

/// The number of set flags.
pub open spec fn count_true(s: Seq<bool>) -> nat
    decreases s.len(),
{
    if s.len() == 0 {
        0
    } else {
        count_true(s.drop_last()) + if s.last() { 1nat } else { 0nat }
    }
}

/// Exactly one of `flags` is set.
pub fn exactly_one(flags: &[bool]) -> (r: bool)
    ensures
        r == (count_true(flags@) == 1),
{
    let mut n: usize = 0;
    let mut i: usize = 0;
    while i < flags.len()
        invariant
            i <= flags.len(),
            n == count_true(flags@.take(i as int)),
            n <= i,
        decreases flags.len() - i,
    {
        assert(flags@.take(i + 1).drop_last() =~= flags@.take(i as int));
        if flags[i] {
            n = n + 1;
        }
        i = i + 1;
    }
    assert(flags@.take(i as int) =~= flags@);
    n == 1
}

/// Arguments of the `volume` command.
pub struct VolumeArgs {
    pub get: bool,
    pub set: Option<u8>,
    pub up: bool,
    pub down: bool,
    pub mute: bool,
    pub unmute: bool,
    pub step: u8,
}

/// The flags of the `volume` command, in the order the command lists them.
pub open spec fn volume_flags(args: VolumeArgs) -> Seq<bool> {
    seq![args.get, args.set is Some, args.up, args.down, args.mute, args.unmute]
}

/// The volume step as a signed change: the step itself, or 127 when it does
/// not fit.
pub open spec fn step_delta(step: u8) -> i8 {
    if step <= 127 {
        step as i8
    } else {
        127
    }
}

/// `--set` asks for a volume above 100.
pub open spec fn set_out_of_range(args: VolumeArgs) -> bool {
    args.set matches Some(v) && v > 100
}

/// The audio request that valid `volume` arguments ask for.
pub open spec fn volume_request(args: VolumeArgs) -> AudioRequest {
    if args.set is Some {
        AudioRequest::SetVolume(args.set->0)
    } else if args.get {
        AudioRequest::GetState
    } else if args.up {
        AudioRequest::AdjustVolume(step_delta(args.step))
    } else if args.down {
        AudioRequest::AdjustVolume((-step_delta(args.step)) as i8)
    } else {
        AudioRequest::SetMuted(args.mute)
    }
}

/// What each single `volume` flag asks for: `--set v` sets the volume to
/// `v`, `--get` reads the state, `--up` raises and `--down` lowers the
/// volume by the step (at most 127), `--mute` mutes and `--unmute` unmutes.
pub proof fn lemma_volume_flags_mean(args: VolumeArgs)
    requires
        count_true(volume_flags(args)) == 1,
    ensures
        args.set matches Some(v) ==> volume_request(args) == AudioRequest::SetVolume(v),
        args.get ==> volume_request(args) == AudioRequest::GetState,
        args.up ==> (volume_request(args) matches AudioRequest::AdjustVolume(d) && d as int == (if args.step
            <= 127 {
            args.step as int
        } else {
            127
        })),
        args.down ==> (volume_request(args) matches AudioRequest::AdjustVolume(d) && d as int == -(if args.step
            <= 127 {
            args.step as int
        } else {
            127
        })),
        args.mute ==> volume_request(args) == AudioRequest::SetMuted(true),
        args.unmute ==> volume_request(args) == AudioRequest::SetMuted(false),
        set_out_of_range(args) <==> (args.set matches Some(v) && v > 100),
{
    reveal_with_fuel(count_true, 7);
}

/// The audio request for `volume` arguments: exactly one of
/// `--get/--set/--up/--down/--mute/--unmute`, and `--set` within 0..=100.
pub fn to_request(args: &VolumeArgs) -> (r: Result<AudioRequest, AppError>)
    ensures
        count_true(volume_flags(*args)) != 1 ==> (r matches Err(AppError::InvalidInput { message, .. })
            && message@ == "volume needs exactly one of --get/--set/--up/--down/--mute/--unmute"@),
        count_true(volume_flags(*args)) == 1 && set_out_of_range(*args) ==> (r matches Err(
            AppError::InvalidInput { message, .. },
        ) && message@ == "--set must be 0..=100"@),
        count_true(volume_flags(*args)) == 1 && !set_out_of_range(*args) ==> r
            == Ok::<AudioRequest, AppError>(volume_request(*args)),
{
    let flags = [args.get, args.set.is_some(), args.up, args.down, args.mute, args.unmute];
    assert(flags@ =~= volume_flags(*args));
    if !exactly_one(&flags) {
        return Err(
            AppError::invalid_input(
                owned("volume needs exactly one of --get/--set/--up/--down/--mute/--unmute"),
            ),
        );
    }
    if let Some(v) = args.set {
        if v > 100 {
            return Err(AppError::invalid_input(owned("--set must be 0..=100")));
        }
        return Ok(AudioRequest::SetVolume(v));
    }
    if args.get {
        return Ok(AudioRequest::GetState);
    }
    let delta: i8 = if args.step <= 127 { args.step as i8 } else { 127 };
    if args.up {
        return Ok(AudioRequest::AdjustVolume(delta));
    }
    if args.down {
        return Ok(AudioRequest::AdjustVolume(-delta));
    }
    Ok(AudioRequest::SetMuted(args.mute))
}

/// The `volume` command: performs the request through the platform's audio
/// control and reports the resulting state.
pub fn volume<A: PlatformAdapter>(args: &VolumeArgs, adapter: &A) -> (r: Result<AudioState, AppError>)
    ensures
        count_true(volume_flags(*args)) != 1 ==> (r matches Err(AppError::InvalidInput { message, .. })
            && message@ == "volume needs exactly one of --get/--set/--up/--down/--mute/--unmute"@),
        count_true(volume_flags(*args)) == 1 && set_out_of_range(*args) ==> (r matches Err(
            AppError::InvalidInput { message, .. },
        ) && message@ == "--set must be 0..=100"@),
        count_true(volume_flags(*args)) == 1 && !set_out_of_range(*args) ==> !(r matches Err(
            AppError::InvalidInput { .. },
        )),
{
    let req = to_request(args)?;
    match adapter.system().audio(req) {
        Ok(state) => Ok(state),
        Err(e) => Err(AppError::Adapter(e)),
    }
}

/// Arguments of the `appearance` command.
pub struct AppearanceArgs {
    pub get: bool,
    pub dark: bool,
    pub light: bool,
    pub toggle: bool,
}

/// The flags of the `appearance` command.
pub open spec fn appearance_flags(args: AppearanceArgs) -> Seq<bool> {
    seq![args.get, args.dark, args.light, args.toggle]
}

/// The appearance request that valid arguments ask for.
pub open spec fn appearance_request_spec(args: AppearanceArgs) -> AppearanceRequest {
    if args.get {
        AppearanceRequest::Get
    } else if args.dark {
        AppearanceRequest::SetDark(true)
    } else if args.light {
        AppearanceRequest::SetDark(false)
    } else {
        AppearanceRequest::Toggle
    }
}

/// What each single `appearance` flag asks for: `--get` reads the
/// appearance, `--dark` turns dark mode on, `--light` turns it off and
/// `--toggle` flips it.
pub proof fn lemma_appearance_flags_mean(args: AppearanceArgs)
    requires
        count_true(appearance_flags(args)) == 1,
    ensures
        args.get ==> appearance_request_spec(args) == AppearanceRequest::Get,
        args.dark ==> appearance_request_spec(args) == AppearanceRequest::SetDark(true),
        args.light ==> appearance_request_spec(args) == AppearanceRequest::SetDark(false),
        args.toggle ==> appearance_request_spec(args) == AppearanceRequest::Toggle,
{
    reveal_with_fuel(count_true, 5);
}

/// The appearance request for `appearance` arguments: exactly one of
/// `--get/--dark/--light/--toggle`.
pub fn appearance_request(args: &AppearanceArgs) -> (r: Result<AppearanceRequest, AppError>)
    ensures
        count_true(appearance_flags(*args)) == 1 ==> r == Ok::<AppearanceRequest, AppError>(
            appearance_request_spec(*args),
        ),
        count_true(appearance_flags(*args)) != 1 ==> (r matches Err(AppError::InvalidInput { message, .. })
            && message@ == "appearance needs exactly one of --get/--dark/--light/--toggle"@),
{
    let flags = [args.get, args.dark, args.light, args.toggle];
    assert(flags@ =~= appearance_flags(*args));
    if !exactly_one(&flags) {
        return Err(
            AppError::invalid_input(owned("appearance needs exactly one of --get/--dark/--light/--toggle")),
        );
    }
    let req = if args.get {
        AppearanceRequest::Get
    } else if args.dark {
        AppearanceRequest::SetDark(true)
    } else if args.light {
        AppearanceRequest::SetDark(false)
    } else {
        AppearanceRequest::Toggle
    };
    Ok(req)
}

/// The `appearance` command: performs the request through the platform's
/// appearance control and reports the resulting state.
pub fn appearance<A: PlatformAdapter>(args: &AppearanceArgs, adapter: &A) -> (r: Result<AppearanceState, AppError>)
    ensures
        count_true(appearance_flags(*args)) != 1 ==> (r matches Err(AppError::InvalidInput { message, .. })
            && message@ == "appearance needs exactly one of --get/--dark/--light/--toggle"@),
        count_true(appearance_flags(*args)) == 1 ==> !(r matches Err(AppError::InvalidInput { .. })),
{
    let req = appearance_request(args)?;
    match adapter.system().appearance(req) {
        Ok(state) => Ok(state),
        Err(e) => Err(AppError::Adapter(e)),
    }
}

/// Arguments of the `wifi` command.
pub struct WifiArgs {
    pub on: bool,
    pub off: bool,
    pub status: bool,
}

/// The flags of the `wifi` command.
pub open spec fn wifi_flags(args: WifiArgs) -> Seq<bool> {
    seq![args.on, args.off, args.status]
}

/// The network request that valid `wifi` arguments ask for.
pub open spec fn wifi_request_spec(args: WifiArgs) -> NetworkRequest {
    if args.status {
        NetworkRequest::WifiStatus
    } else {
        NetworkRequest::WifiPower(args.on)
    }
}

/// What each single `wifi` flag asks for: `--on` powers Wi-Fi on, `--off`
/// powers it off and `--status` reads it.
pub proof fn lemma_wifi_flags_mean(args: WifiArgs)
    requires
        count_true(wifi_flags(args)) == 1,
    ensures
        args.on ==> wifi_request_spec(args) == NetworkRequest::WifiPower(true),
        args.off ==> wifi_request_spec(args) == NetworkRequest::WifiPower(false),
        args.status ==> wifi_request_spec(args) == NetworkRequest::WifiStatus,
{
    reveal_with_fuel(count_true, 4);
}

/// The network request for `wifi` arguments: exactly one of
/// `--on/--off/--status`.
pub fn wifi_request(args: &WifiArgs) -> (r: Result<NetworkRequest, AppError>)
    ensures
        count_true(wifi_flags(*args)) == 1 ==> r == Ok::<NetworkRequest, AppError>(wifi_request_spec(*args)),
        count_true(wifi_flags(*args)) != 1 ==> (r matches Err(AppError::InvalidInput { message, .. })
            && message@ == "wifi needs exactly one of --on/--off/--status"@),
{
    let flags = [args.on, args.off, args.status];
    assert(flags@ =~= wifi_flags(*args));
    if !exactly_one(&flags) {
        return Err(AppError::invalid_input(owned("wifi needs exactly one of --on/--off/--status")));
    }
    if args.status {
        Ok(NetworkRequest::WifiStatus)
    } else {
        Ok(NetworkRequest::WifiPower(args.on))
    }
}

/// The `wifi` command: performs the request through the platform's network
/// control and reports the resulting state.
pub fn wifi<A: PlatformAdapter>(args: &WifiArgs, adapter: &A) -> (r: Result<NetworkState, AppError>)
    ensures
        count_true(wifi_flags(*args)) != 1 ==> (r matches Err(AppError::InvalidInput { message, .. })
            && message@ == "wifi needs exactly one of --on/--off/--status"@),
        count_true(wifi_flags(*args)) == 1 ==> !(r matches Err(AppError::InvalidInput { .. })),
{
    let req = wifi_request(args)?;
    match adapter.system().network(req) {
        Ok(state) => Ok(state),
        Err(e) => Err(AppError::Adapter(e)),
    }
}

/// The environment variable that enables external execution.
pub const EXEC_ENV: &'static str = "AGENT_DESKTOP_ENABLE_EXEC";

/// External execution is enabled by a value of `EXEC_ENV` that is set,
/// non-empty and not `0`.
pub open spec fn exec_value_enables(value: Option<Seq<char>>) -> bool {
    value matches Some(v) && v.len() > 0 && v != "0"@
}

/// Whether a value of `EXEC_ENV` enables external execution.
pub fn exec_flag_enabled(value: Option<&str>) -> (r: bool)
    ensures
        r == exec_value_enables(match value {
            Some(v) => Some(v@),
            None => None,
        }),
{
    match value {
        Some(v) => !v.is_empty() && !str_eq(v, "0"),
        None => false,
    }
}

/// The first 120 characters of a payload, as the audit log records it.
pub fn audit_preview(payload: &str) -> (r: String)
    ensures
        r@ == payload@.take(if payload@.len() < 120 { payload@.len() as int } else { 120 }),
{
    let cs = chars_of(payload);
    let n = if cs.len() < 120 { cs.len() } else { 120 };
    string_of_range(&cs, 0, n)
}

/// The error for external execution while it is disabled.
pub open spec fn exec_disabled_error(e: AppError) -> bool {
    e matches AppError::Adapter(a) && a.code == ErrorCode::PolicyDenied
        && a.message@ == "External execution is disabled"@
        && (a.suggestion matches Some(s)
        && s@ == "Set AGENT_DESKTOP_ENABLE_EXEC=1 to enable run-shell/run-applescript/run-jxa/open-url/open-path"@)
}

/// The request that `run_with_gate` hands the platform: the kind, payload
/// and timeout, each unchanged.
pub fn external_request(kind: ExternalKind, payload: String, timeout_ms: Option<u64>) -> (q: ExternalRequest)
    ensures
        q.kind == kind,
        q.payload@ == payload@,
        q.timeout_ms == timeout_ms,
{
    ExternalRequest { kind, payload, timeout_ms }
}

/// Runs an external request through the platform when `enabled`, and
/// refuses it with `POLICY_DENIED` otherwise, without reaching the platform.
pub fn run_with_gate<A: PlatformAdapter>(
    enabled: bool,
    kind: ExternalKind,
    payload: String,
    timeout_ms: Option<u64>,
    adapter: &A,
) -> (r: Result<ExternalResult, AppError>)
    ensures
        !enabled ==> (r matches Err(e) && exec_disabled_error(e)),
        enabled ==> (r is Ok || r matches Err(AppError::Adapter(_))),
{
    if !enabled {
        return Err(
            AppError::Adapter(
                AdapterError::new(ErrorCode::PolicyDenied, "External execution is disabled").with_suggestion(
                    "Set AGENT_DESKTOP_ENABLE_EXEC=1 to enable run-shell/run-applescript/run-jxa/open-url/open-path",
                ),
            ),
        );
    }
    match adapter.system().run_external(external_request(kind, payload, timeout_ms)) {
        Ok(result) => Ok(result),
        Err(e) => Err(AppError::Adapter(e)),
    }
}

/// Arguments of the `open-url` and `open-path` commands: what to open.
pub struct OpenTargetArgs {
    pub target: String,
}

/// Arguments of the `run-shell` and `run-jxa` commands: the script and an
/// optional timeout in milliseconds.
pub struct RunScriptArgs {
    pub script: String,
    pub timeout: Option<u64>,
}

/// Arguments of the `permissions` command: whether to ask the platform for
/// the permissions rather than report them.
pub struct PermissionsArgs {
    pub request: bool,
}

} // verus!
