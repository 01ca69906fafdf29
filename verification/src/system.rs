//! System controls: audio volume and mute, light/dark appearance, Wi-Fi
//! power, and running external commands. Requests and states, the
//! controller interface a platform implements, and a controller that keeps
//! its state in memory.
use vstd::prelude::*;
use crate::error::{AdapterError, ErrorCode};

verus! {

/// A request to the audio control.
#[derive(Debug, Clone, Copy, PartialEq, Eq, Structural)]
pub enum AudioRequest {
    GetState,
    SetVolume(u8),
    AdjustVolume(i8),
    SetMuted(bool),
}

/// The output volume (0 to 100) and whether output is muted.
#[derive(Debug, Clone, Copy, PartialEq, Eq, Structural)]
pub struct AudioState {
    pub output_volume: u8,
    pub muted: bool,
}

/// A request to the appearance control.
#[derive(Debug, Clone, Copy, PartialEq, Eq, Structural)]
pub enum AppearanceRequest {
    Get,
    SetDark(bool),
    Toggle,
}

/// Whether the dark appearance is on.
#[derive(Debug, Clone, Copy, PartialEq, Eq, Structural)]
pub struct AppearanceState {
    pub dark: bool,
}

/// A request to the network control.
#[derive(Debug, Clone, Copy, PartialEq, Eq, Structural)]
pub enum NetworkRequest {
    WifiStatus,
    WifiPower(bool),
}

/// Whether Wi-Fi is powered, and the network it is joined to.
#[derive(Debug, Clone, PartialEq, Eq)]
pub struct NetworkState {
    pub wifi_power: bool,
    pub ssid: Option<String>,
}

/// The kinds of external execution.
#[derive(Debug, Clone, Copy, PartialEq, Eq, Structural)]
pub enum ExternalKind {
    Shell,
    AppleScript,
    Jxa,
    OpenUrl,
    OpenPath,
}

/// The wire name of a kind of external execution.
pub open spec fn external_kind_name(k: ExternalKind) -> Seq<char> {
    match k {
        ExternalKind::Shell => "shell"@,
        ExternalKind::AppleScript => "applescript"@,
        ExternalKind::Jxa => "jxa"@,
        ExternalKind::OpenUrl => "open-url"@,
        ExternalKind::OpenPath => "open-path"@,
    }
}

impl ExternalKind {
    /// The wire name of this kind, e.g. `open-url`.
    pub fn as_str(&self) -> (r: &'static str)
        ensures
            r@ == external_kind_name(*self),
    {
        match self {
            ExternalKind::Shell => "shell",
            ExternalKind::AppleScript => "applescript",
            ExternalKind::Jxa => "jxa",
            ExternalKind::OpenUrl => "open-url",
            ExternalKind::OpenPath => "open-path",
        }
    }
}

/// A request to run something outside the agent.
#[derive(Debug, PartialEq, Eq)]
pub struct ExternalRequest {
    pub kind: ExternalKind,
    pub payload: String,
    pub timeout_ms: Option<u64>,
}

impl Clone for ExternalRequest {
    fn clone(&self) -> (r: Self)
        ensures
            r == *self,
    {
        ExternalRequest { kind: self.kind, payload: self.payload.clone(), timeout_ms: self.timeout_ms }
    }
}

/// What an external execution produced.
#[derive(Debug, PartialEq, Eq)]
pub struct ExternalResult {
    pub exit_code: i32,
    pub stdout: String,
    pub stderr: String,
    pub duration_ms: u64,
}

impl Clone for ExternalResult {
    fn clone(&self) -> (r: Self)
        ensures
            r == *self,
    {
        ExternalResult {
            exit_code: self.exit_code,
            stdout: self.stdout.clone(),
            stderr: self.stderr.clone(),
            duration_ms: self.duration_ms,
        }
    }
}

/// The system controls a platform provides. Every control defaults to
/// reporting that the platform does not support it.
pub trait SystemController {
    /// This controller supports none of the controls, so that every control
    /// reports the platform as unsupported. An implementation that says so
    /// sets it; otherwise it is false.
    open spec fn supports_nothing(&self) -> bool {
        false
    }

    /// Performs an audio request and reports the resulting state.
    fn audio(&self, req: AudioRequest) -> (r: Result<AudioState, AdapterError>)
        ensures
            self.supports_nothing() ==> (r matches Err(e) && e.code == ErrorCode::PlatformNotSupported),
        default_ensures
            r matches Err(e) && e.code == ErrorCode::PlatformNotSupported && e.message@
                == "system.audio"@ + " is not supported on this platform"@ && e.suggestion is None
                && e.platform_detail is None,
    {
        Err(AdapterError::not_supported("system.audio"))
    }

    /// Performs an appearance request and reports the resulting state.
    fn appearance(&self, req: AppearanceRequest) -> (r: Result<AppearanceState, AdapterError>)
        ensures
            self.supports_nothing() ==> (r matches Err(e) && e.code == ErrorCode::PlatformNotSupported),
        default_ensures
            r matches Err(e) && e.code == ErrorCode::PlatformNotSupported && e.message@
                == "system.appearance"@ + " is not supported on this platform"@ && e.suggestion is None
                && e.platform_detail is None,
    {
        Err(AdapterError::not_supported("system.appearance"))
    }

    /// Performs a network request and reports the resulting state.
    fn network(&self, req: NetworkRequest) -> (r: Result<NetworkState, AdapterError>)
        ensures
            self.supports_nothing() ==> (r matches Err(e) && e.code == ErrorCode::PlatformNotSupported),
        default_ensures
            r matches Err(e) && e.code == ErrorCode::PlatformNotSupported && e.message@
                == "system.network"@ + " is not supported on this platform"@ && e.suggestion is None
                && e.platform_detail is None,
    {
        Err(AdapterError::not_supported("system.network"))
    }

    /// Runs an external request.
    fn run_external(&self, req: ExternalRequest) -> (r: Result<ExternalResult, AdapterError>)
        ensures
            self.supports_nothing() ==> (r matches Err(e) && e.code == ErrorCode::PlatformNotSupported),
        default_ensures
            r matches Err(e) && e.code == ErrorCode::PlatformNotSupported && e.message@
                == "system.run_external"@ + " is not supported on this platform"@ && e.suggestion is None
                && e.platform_detail is None,
    {
        Err(AdapterError::not_supported("system.run_external"))
    }
}

/// The controller of a platform without system controls.
pub struct UnsupportedSystemController;

impl SystemController for UnsupportedSystemController {
    open spec fn supports_nothing(&self) -> bool {
        true
    }
}


/// The volume after moving `current` by `delta`, kept within 0 to 100.
pub open spec fn adjusted_volume_spec(current: u8, delta: i8) -> u8 {
    let v = current + delta;
    if v < 0 {
        0
    } else if v > 100 {
        100
    } else {
        v as u8
    }
}

/// Moves the volume `current` by `delta` and clamps the result to 0..=100.
pub fn adjusted_volume(current: u8, delta: i8) -> (r: u8)
    ensures
        r == adjusted_volume_spec(current, delta),
{
    let v: i16 = current as i16 + delta as i16;
    if v < 0 {
        0
    } else if v > 100 {
        100
    } else {
        v as u8
    }
}

/// The volume a controller holds after `req`.
pub open spec fn volume_after(volume: u8, req: AudioRequest) -> u8 {
    match req {
        AudioRequest::SetVolume(v) => v,
        AudioRequest::AdjustVolume(d) => adjusted_volume_spec(volume, d),
        _ => volume,
    }
}

/// The appearance a controller holds after `req`.
pub open spec fn dark_after(dark: bool, req: AppearanceRequest) -> bool {
    match req {
        AppearanceRequest::SetDark(v) => v,
        AppearanceRequest::Toggle => !dark,
        AppearanceRequest::Get => dark,
    }
}

/// The Wi-Fi power a controller holds after `req`.
pub open spec fn wifi_after(power: bool, req: NetworkRequest) -> bool {
    match req {
        NetworkRequest::WifiPower(v) => v,
        NetworkRequest::WifiStatus => power,
    }
}

/// A controller that keeps volume, appearance and Wi-Fi power in memory,
/// records the last audio and external requests, and answers external
/// requests with a preset result. It stands in for a platform in tests.
#[derive(Debug)]
pub struct MockSystemController {
    pub volume: u8,
    pub dark: bool,
    pub wifi_power: bool,
    pub external_result: ExternalResult,
    pub last_audio: Option<AudioRequest>,
    pub last_external: Option<ExternalRequest>,
}

impl Default for MockSystemController {
    fn default() -> (r: Self)
        ensures
            r.volume == 0,
            !r.dark,
            r.wifi_power,
            r.external_result.exit_code == 0,
            r.external_result.stdout@ == Seq::<char>::empty(),
            r.external_result.stderr@ == Seq::<char>::empty(),
            r.external_result.duration_ms == 0,
            r.last_audio is None,
            r.last_external is None,
    {
        MockSystemController {
            volume: 0,
            dark: false,
            wifi_power: true,
            external_result: ExternalResult {
                exit_code: 0,
                stdout: String::new(),
                stderr: String::new(),
                duration_ms: 0,
            },
            last_audio: None,
            last_external: None,
        }
    }
}

impl MockSystemController {
    /// The last audio request, if any.
    pub fn last_audio(&self) -> (r: Option<AudioRequest>)
        ensures
            r == self.last_audio,
    {
        self.last_audio
    }

    /// The last external request, if any.
    pub fn last_external(&self) -> (r: Option<ExternalRequest>)
        ensures
            r == self.last_external,
    {
        match &self.last_external {
            Some(req) => Some(req.clone()),
            None => None,
        }
    }

    /// Sets the result that external requests are answered with.
    pub fn external_result(&mut self, result: ExternalResult)
        ensures
            final(self).external_result == result,
            final(self).volume == old(self).volume,
            final(self).dark == old(self).dark,
            final(self).wifi_power == old(self).wifi_power,
            final(self).last_audio == old(self).last_audio,
            final(self).last_external == old(self).last_external,
    {
        self.external_result = result;
    }

    /// A default controller whose volume is `volume`.
    pub fn with_volume(volume: u8) -> (r: Self)
        ensures
            r.volume == volume,
            !r.dark,
            r.wifi_power,
            r.last_audio is None,
            r.last_external is None,
    {
        MockSystemController { volume, ..Default::default() }
    }

    /// Records `req`, applies it to the volume and reports the state; output
    /// is never muted.
    pub fn audio(&mut self, req: AudioRequest) -> (r: Result<AudioState, AdapterError>)
        ensures
            final(self).last_audio == Some(req),
            final(self).volume == volume_after(old(self).volume, req),
            r == Ok::<AudioState, AdapterError>(AudioState { output_volume: final(self).volume, muted: false }),
            final(self).dark == old(self).dark,
            final(self).wifi_power == old(self).wifi_power,
            final(self).external_result == old(self).external_result,
            final(self).last_external == old(self).last_external,
    {
        self.last_audio = Some(req);
        match req {
            AudioRequest::SetVolume(v) => self.volume = v,
            AudioRequest::AdjustVolume(d) => self.volume = adjusted_volume(self.volume, d),
            _ => {},
        }
        Ok(AudioState { output_volume: self.volume, muted: false })
    }

    /// Applies `req` to the appearance and reports it.
    pub fn appearance(&mut self, req: AppearanceRequest) -> (r: Result<AppearanceState, AdapterError>)
        ensures
            final(self).dark == dark_after(old(self).dark, req),
            r == Ok::<AppearanceState, AdapterError>(AppearanceState { dark: final(self).dark }),
            final(self).volume == old(self).volume,
            final(self).wifi_power == old(self).wifi_power,
            final(self).external_result == old(self).external_result,
            final(self).last_audio == old(self).last_audio,
            final(self).last_external == old(self).last_external,
    {
        match req {
            AppearanceRequest::SetDark(v) => self.dark = v,
            AppearanceRequest::Toggle => self.dark = !self.dark,
            AppearanceRequest::Get => {},
        }
        Ok(AppearanceState { dark: self.dark })
    }

    /// Applies `req` to the Wi-Fi power and reports it, with no network name.
    pub fn network(&mut self, req: NetworkRequest) -> (r: Result<NetworkState, AdapterError>)
        ensures
            final(self).wifi_power == wifi_after(old(self).wifi_power, req),
            r matches Ok(s) && s.wifi_power == final(self).wifi_power && s.ssid is None,
            final(self).volume == old(self).volume,
            final(self).dark == old(self).dark,
            final(self).external_result == old(self).external_result,
            final(self).last_audio == old(self).last_audio,
            final(self).last_external == old(self).last_external,
    {
        if let NetworkRequest::WifiPower(v) = req {
            self.wifi_power = v;
        }
        Ok(NetworkState { wifi_power: self.wifi_power, ssid: None })
    }

    /// Records `req` and answers with the preset result.
    pub fn run_external(&mut self, req: ExternalRequest) -> (r: Result<ExternalResult, AdapterError>)
        ensures
            final(self).last_external == Some(req),
            r == Ok::<ExternalResult, AdapterError>(old(self).external_result),
            final(self).volume == old(self).volume,
            final(self).dark == old(self).dark,
            final(self).wifi_power == old(self).wifi_power,
            final(self).external_result == old(self).external_result,
            final(self).last_audio == old(self).last_audio,
    {
        self.last_external = Some(req);
        Ok(self.external_result.clone())
    }
}

/// A volume that is set is the volume that is then read back.
pub proof fn lemma_volume_read_after_write(volume: u8, v: u8)
    ensures
        volume_after(volume_after(volume, AudioRequest::SetVolume(v)), AudioRequest::GetState) == v,
{
}

/// Adjusting the volume never leaves the range 0 to 100, and moves it by
/// exactly `delta` whenever that stays within the range.
pub proof fn lemma_adjust_stays_in_range(volume: u8, delta: i8)
    ensures
        adjusted_volume_spec(volume, delta) <= 100,
        0 <= volume + delta <= 100 ==> adjusted_volume_spec(volume, delta) == volume + delta,
{
}

/// Toggling the appearance twice restores it; setting it is idempotent.
pub proof fn lemma_toggle_involution(dark: bool, v: bool)
    ensures
        dark_after(dark_after(dark, AppearanceRequest::Toggle), AppearanceRequest::Toggle) == dark,
        dark_after(dark_after(dark, AppearanceRequest::SetDark(v)), AppearanceRequest::SetDark(v))
            == dark_after(dark, AppearanceRequest::SetDark(v)),
{
}

} // verus!
