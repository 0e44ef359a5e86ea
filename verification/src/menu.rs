//! The TV's own settings vocabulary: the locks this set puts on the shared rows, the host power
//! row's picks, and the log levels.
use vstd::prelude::*;
use vstd::arithmetic::div_mod::{lemma_mod_multiples_vanish, lemma_small_mod};
use vstd::string::*;
use crate::model::{AudioRoutePref, CodecPref, ExitAction, GamepadType, LogLevelOverride, MenuEvent, Settings, VideoCaps};
use crate::text::{decimal, decimal_text, join2};

verus! {

/// A direction on screen.
#[derive(Clone, Copy, PartialEq, Eq, Structural, Debug)]
pub enum Dir {
    Up,
    Down,
    Left,
    Right,
}

pub open spec fn dir_of(ev: MenuEvent) -> Option<Dir> {
    match ev {
        MenuEvent::Up => Some(Dir::Up),
        MenuEvent::Down => Some(Dir::Down),
        MenuEvent::Left => Some(Dir::Left),
        MenuEvent::Right => Some(Dir::Right),
        _ => None,
    }
}

/// The input vocabulary mapped onto directions: one place decides that "Up" means up.
pub fn nav_dir(ev: MenuEvent) -> (r: Option<Dir>)
    ensures
        r == dir_of(ev),
{
    match ev {
        MenuEvent::Up => Some(Dir::Up),
        MenuEvent::Down => Some(Dir::Down),
        MenuEvent::Left => Some(Dir::Left),
        MenuEvent::Right => Some(Dir::Right),
        _ => None,
    }
}

/// Where a row list's cursor goes: Up and Down step it and wrap at either end. `None` where the
/// event does not move it.
pub open spec fn list_step(cursor: usize, len: nat, dir: Option<Dir>) -> Option<usize> {
    if len < 2 {
        None
    } else {
        match dir {
            Some(Dir::Down) => Some(if cursor + 1 < len {
                (cursor + 1) as usize
            } else {
                0
            }),
            Some(Dir::Up) => Some(if cursor == 0 || cursor >= len {
                (len - 1) as usize
            } else {
                (cursor - 1) as usize
            }),
            _ => None,
        }
    }
}

/// Moves a row list's cursor; reports whether the event was spent doing so. A list with nothing
/// to move to takes no event.
pub fn list_nav(cursor: &mut usize, len: usize, dir: Option<Dir>) -> (r: bool)
    ensures
        r == (list_step(*old(cursor), len as nat, dir) is Some),
        *final(cursor) == (match list_step(*old(cursor), len as nat, dir) {
            Some(c) => c,
            None => *old(cursor),
        }),
{
    if len < 2 {
        return false;
    }
    match dir {
        Some(Dir::Down) => {
            *cursor = if *cursor < len - 1 {
                *cursor + 1
            } else {
                0
            };
            true
        },
        Some(Dir::Up) => {
            *cursor = if *cursor == 0 || *cursor >= len {
                len - 1
            } else {
                *cursor - 1
            };
            true
        },
        _ => false,
    }
}

/// A step down a row list and a step up cancel out, and neither leaves the list.
pub proof fn law_list_step_undone(cursor: usize, len: nat)
    requires
        2 <= len <= usize::MAX,
        cursor < len,
    ensures
        ({
            let down = list_step(cursor, len, Some(Dir::Down));
            let up = list_step(cursor, len, Some(Dir::Up));
            &&& down matches Some(d) && d < len && list_step(d, len, Some(Dir::Up)) == Some(cursor)
            &&& up matches Some(u) && u < len && list_step(u, len, Some(Dir::Down)) == Some(cursor)
        }),
{
}

/// The shared rows this set can lock.
#[derive(Clone, Copy, PartialEq, Eq, Structural, Debug)]
pub enum SettingsRow {
    /// Locked where only one codec can be decoded.
    Codec,
    /// HDR applies only to HEVC, so the row locks on an explicit H.264 pick.
    Hdr,
    /// Locked where the backend is capped at stereo.
    Audio,
    /// Which controller the host presents to the game.
    Gamepad,
    /// Whether the controller shell may front the app at all.
    GamepadUi,
    /// When it does.
    GamepadUiMode,
}

/// Why a row is shown but not editable.
#[derive(Clone, Copy, PartialEq, Eq, Structural, Debug)]
pub enum RowLock {
    HdrNeedsHevc,
    NoHdr,
    OneCodec,
    StereoOnly,
    RouteStereoOnly,
    NoGamepad,
    NoShell,
    ConsoleOff,
}

/// What a pairing may do to its host's power.
#[derive(Clone, Copy, PartialEq, Eq, Structural, Debug)]
pub struct PowerRights {
    pub sleep: bool,
    pub shutdown: bool,
}

impl PowerRights {
    pub fn any(self) -> (r: bool)
        ensures
            r == (self.sleep || self.shutdown),
    {
        self.sleep || self.shutdown
    }

    pub fn allows(self, action: ExitAction) -> (r: bool)
        ensures
            r == (match action {
                ExitAction::Nothing => true,
                ExitAction::Sleep => self.sleep,
                ExitAction::Shutdown => self.shutdown,
            }),
    {
        match action {
            ExitAction::Nothing => true,
            ExitAction::Sleep => self.sleep,
            ExitAction::Shutdown => self.shutdown,
        }
    }
}

/// What is known about a pairing's power rights on a host.
#[derive(Clone, Copy, PartialEq, Eq, Structural, Debug)]
pub enum PowerAccess {
    /// No pairing with this host, so nothing could carry a power grant.
    NotPaired,
    /// The probe has not answered yet.
    Unknown,
    /// The host never answered.
    Unreachable,
    /// The host answered, but has no power actions at all.
    Unsupported,
    /// What the host says this pairing may invoke.
    Rights(PowerRights),
}

impl PowerAccess {
    pub open spec fn is_unlocked(self) -> bool {
        self matches PowerAccess::Rights(r) && (r.sleep || r.shutdown)
    }

    /// Whether the row is usable at all: the host answered and offers something.
    pub fn unlocked(self) -> (r: bool)
        ensures
            r == self.is_unlocked(),
    {
        match self {
            PowerAccess::Rights(r) => r.any(),
            _ => false,
        }
    }

    /// Whether one pick would be accepted. Where there is no answer it says yes: the row is
    /// locked then anyway.
    pub fn allows(self, action: ExitAction) -> (r: bool)
        ensures
            r == (match (self, action) {
                (PowerAccess::Rights(rights), ExitAction::Sleep) => rights.sleep,
                (PowerAccess::Rights(rights), ExitAction::Shutdown) => rights.shutdown,
                _ => true,
            }),
    {
        match self {
            PowerAccess::Rights(r) => r.allows(action),
            _ => true,
        }
    }
}

/// Host power row indices.
pub const POWER_ROW_AUTO: usize = 0;

pub const POWER_ROW_EXIT: usize = 1;

pub const POWER_ROW_COUNT: usize = 2;

/// The exit behaviours in pick order.
pub open spec fn exit_actions() -> Seq<ExitAction> {
    seq![ExitAction::Nothing, ExitAction::Sleep, ExitAction::Shutdown]
}

/// How many exit behaviours there are to pick from.
pub const EXIT_ACTIONS: usize = 3;

/// The exit behaviour at a pick's index.
pub fn exit_action_at(index: usize) -> (r: Option<ExitAction>)
    ensures
        r == (if index < exit_actions().len() {
            Some(exit_actions()[index as int])
        } else {
            None
        }),
{
    if index == 0 {
        Some(ExitAction::Nothing)
    } else if index == 1 {
        Some(ExitAction::Sleep)
    } else if index == 2 {
        Some(ExitAction::Shutdown)
    } else {
        None
    }
}

pub fn exit_action_label(action: ExitAction) -> (r: &'static str)
    ensures
        r@ == (match action {
            ExitAction::Nothing => "None"@,
            ExitAction::Sleep => "Sleep"@,
            ExitAction::Shutdown => "Shut down"@,
        }),
{
    match action {
        ExitAction::Nothing => "None",
        ExitAction::Sleep => "Sleep",
        ExitAction::Shutdown => "Shut down",
    }
}

/// What each pick does to the machine.
pub fn exit_action_caption(action: ExitAction) -> (r: &'static str)
    ensures
        r@ == (match action {
            ExitAction::Nothing => "The host keeps running after you leave"@,
            ExitAction::Sleep => "Suspend the host — Wake-on-LAN brings it back"@,
            ExitAction::Shutdown => "Power the host off completely"@,
        }),
{
    match action {
        ExitAction::Nothing => "The host keeps running after you leave",
        ExitAction::Sleep => "Suspend the host — Wake-on-LAN brings it back",
        ExitAction::Shutdown => "Power the host off completely",
    }
}

pub open spec fn exit_index(action: ExitAction) -> usize {
    match action {
        ExitAction::Nothing => 0,
        ExitAction::Sleep => 1,
        ExitAction::Shutdown => 2,
    }
}

/// A pick's index among the exit behaviours.
pub fn exit_action_current_index(action: ExitAction) -> (r: usize)
    ensures
        r == exit_index(action),
        r < exit_actions().len(),
        exit_actions()[r as int] == action,
{
    match action {
        ExitAction::Nothing => 0,
        ExitAction::Sleep => 1,
        ExitAction::Shutdown => 2,
    }
}

/// What a caption calls this set.
pub open spec fn set_name(webos_major: Option<u32>) -> Seq<char> {
    match webos_major {
        Some(major) => "webOS "@ + decimal(major as nat),
        None => "this TV"@,
    }
}

pub open spec fn lock_text(lock: RowLock, webos_major: Option<u32>) -> Seq<char> {
    match lock {
        RowLock::HdrNeedsHevc => "HDR is not supported by H.264"@,
        RowLock::NoHdr => "HDR is not supported by "@ + set_name(webos_major),
        RowLock::OneCodec => "H.264 is the only codec supported by "@ + set_name(webos_major),
        RowLock::StereoOnly => "Stereo is the only layout supported by "@ + set_name(webos_major),
        RowLock::RouteStereoOnly => "Offload (NDL)"@
            + " audio processing decodes stereo only — change it under Audio"@,
        RowLock::NoGamepad => "Connect a controller to your TV"@,
        RowLock::NoShell => "This build has no controller UI"@,
        RowLock::ConsoleOff => "Turn the controller UI on to choose when"@,
    }
}

/// Why a row is fixed, as the row's caption. `webos_major` is `None` where it could not be read.
pub fn lock_caption(lock: RowLock, webos_major: Option<u32>) -> (r: String)
    ensures
        r@ == lock_text(lock, webos_major),
{
    let source: String = match webos_major {
        Some(major) => join2("webOS ", decimal_text(major as u128).as_str()),
        None => "this TV".to_owned(),
    };
    match lock {
        RowLock::HdrNeedsHevc => "HDR is not supported by H.264".to_owned(),
        RowLock::NoHdr => join2("HDR is not supported by ", source.as_str()),
        RowLock::OneCodec => join2("H.264 is the only codec supported by ", source.as_str()),
        RowLock::StereoOnly => join2("Stereo is the only layout supported by ", source.as_str()),
        RowLock::RouteStereoOnly => join2(
            audio_route_label(AudioRoutePref::NdlOpus),
            " audio processing decodes stereo only — change it under Audio",
        ),
        RowLock::NoGamepad => "Connect a controller to your TV".to_owned(),
        RowLock::NoShell => "This build has no controller UI".to_owned(),
        RowLock::ConsoleOff => "Turn the controller UI on to choose when".to_owned(),
    }
}

/// The channel counts this client can label, and their names.
pub open spec fn audio_channels() -> Seq<(u8, Seq<char>)> {
    seq![(2u8, "Stereo"@), (6u8, "5.1 surround"@), (8u8, "7.1 surround"@)]
}

/// How many of them a ceiling of `max` channels leaves.
pub open spec fn channels_up_to(max: u8) -> nat {
    if max < 2 {
        0
    } else if max < 6 {
        1
    } else if max < 8 {
        2
    } else {
        3
    }
}

/// The most channels a route can put on a speaker: offload carries stereo only.
pub open spec fn route_channels(route: AudioRoutePref, caps: VideoCaps) -> u8 {
    match route {
        AudioRoutePref::Software => caps.max_channels,
        AudioRoutePref::NdlOpus => if caps.max_channels < 2 {
            caps.max_channels
        } else {
            2
        },
    }
}

/// Why a shared row cannot be edited on this set, given whether the build has the controller
/// shell and which pad is attached. The device comes before the route: where the client itself
/// decodes stereo only, no audio pick could widen it.
pub open spec fn locked_by(
    row: SettingsRow,
    settings: Settings,
    caps: VideoCaps,
    shell_built: bool,
    detected: Option<GamepadType>,
) -> Option<RowLock> {
    match row {
        SettingsRow::Hdr => if !caps.hdr {
            Some(RowLock::NoHdr)
        } else if settings.codec == CodecPref::H264 {
            Some(RowLock::HdrNeedsHevc)
        } else {
            None
        },
        SettingsRow::Codec => if caps.codec_prefs < 2 {
            Some(RowLock::OneCodec)
        } else {
            None
        },
        SettingsRow::Audio => if channels_up_to(caps.max_channels) < 2 {
            Some(RowLock::StereoOnly)
        } else if channels_up_to(route_channels(settings.audio_route, caps)) < 2 {
            Some(RowLock::RouteStereoOnly)
        } else {
            None
        },
        SettingsRow::Gamepad => if detected is None {
            Some(RowLock::NoGamepad)
        } else {
            None
        },
        SettingsRow::GamepadUi => if !shell_built {
            Some(RowLock::NoShell)
        } else {
            None
        },
        SettingsRow::GamepadUiMode => if !shell_built {
            Some(RowLock::NoShell)
        } else if !settings.gamepad_ui {
            Some(RowLock::ConsoleOff)
        } else {
            None
        },
    }
}

/// One predicate for the renderer and the input path, so a greyed row and a rejected press
/// cannot disagree.
pub fn row_lock(
    row: SettingsRow,
    settings: &Settings,
    caps: VideoCaps,
    shell_built: bool,
    detected: Option<GamepadType>,
) -> (r: Option<RowLock>)
    ensures
        r == locked_by(row, *settings, caps, shell_built, detected),
{
    match row {
        SettingsRow::Hdr => if !caps.hdr {
            Some(RowLock::NoHdr)
        } else if settings.codec == CodecPref::H264 {
            Some(RowLock::HdrNeedsHevc)
        } else {
            None
        },
        SettingsRow::Codec => if caps.codec_prefs < 2 {
            Some(RowLock::OneCodec)
        } else {
            None
        },
        SettingsRow::Audio => if channel_options_up_to(caps.max_channels).len() < 2 {
            Some(RowLock::StereoOnly)
        } else if audio_channel_options(settings, caps).len() < 2 {
            Some(RowLock::RouteStereoOnly)
        } else {
            None
        },
        SettingsRow::Gamepad => if detected.is_none() {
            Some(RowLock::NoGamepad)
        } else {
            None
        },
        SettingsRow::GamepadUi => if !shell_built {
            Some(RowLock::NoShell)
        } else {
            None
        },
        SettingsRow::GamepadUiMode => if !shell_built {
            Some(RowLock::NoShell)
        } else if !settings.gamepad_ui {
            Some(RowLock::ConsoleOff)
        } else {
            None
        },
    }
}

/// The index after or before `current`, around a list of `len`.
pub open spec fn cycled(current: int, len: int, forward: bool) -> int {
    if forward {
        (current + 1) % len
    } else {
        (current + len - 1) % len
    }
}

pub fn cycle_index(current: usize, len: usize, forward: bool) -> (r: usize)
    requires
        len > 0,
        current < len || current + len <= usize::MAX,
    ensures
        r == cycled(current as int, len as int, forward),
        r < len,
{
    if current >= len {
        if forward {
            (current + 1) % len
        } else {
            (current + len - 1) % len
        }
    } else if forward {
        if current + 1 == len {
            assert(len as int % len as int == 0) by (nonlinear_arith)
                requires
                    len > 0,
            ;
            0
        } else {
            proof {
                lemma_small_mod((current + 1) as nat, len as nat);
            }
            current + 1
        }
    } else if current == 0 {
        proof {
            lemma_small_mod((len - 1) as nat, len as nat);
        }
        len - 1
    } else {
        proof {
            lemma_mod_multiples_vanish(1, current - 1, len as int);
            lemma_small_mod((current - 1) as nat, len as nat);
        }
        current - 1
    }
}

/// A step forward and a step back cancel out.
pub proof fn law_cycle_undone(current: int, len: int, forward: bool)
    requires
        0 <= current < len,
    ensures
        0 <= cycled(current, len, forward) < len,
        cycled(cycled(current, len, forward), len, !forward) == current,
{
    if current + 1 < len {
        lemma_small_mod((current + 1) as nat, len as nat);
    } else {
        assert(len % len == 0) by (nonlinear_arith)
            requires
                len > 0,
        ;
    }
    lemma_small_mod(current as nat, len as nat);
    lemma_mod_multiples_vanish(1, current, len);
    if current > 0 {
        lemma_mod_multiples_vanish(1, current - 1, len);
        lemma_small_mod((current - 1) as nat, len as nat);
    } else {
        lemma_small_mod((len - 1) as nat, len as nat);
        assert(len % len == 0) by (nonlinear_arith)
            requires
                len > 0,
        ;
    }
}

/// The log levels in pick order.
pub open spec fn log_levels() -> Seq<LogLevelOverride> {
    seq![LogLevelOverride::Debug, LogLevelOverride::Info, LogLevelOverride::Warn, LogLevelOverride::Error]
}

/// How many log levels there are to pick from.
pub const LOG_LEVELS: usize = 4;

/// The log level at a pick's index; the last one past the end.
pub fn log_level_at(index: usize) -> (r: LogLevelOverride)
    ensures
        index < log_levels().len() ==> r == log_levels()[index as int],
        index >= log_levels().len() ==> r == LogLevelOverride::Error,
{
    if index == 0 {
        LogLevelOverride::Debug
    } else if index == 1 {
        LogLevelOverride::Info
    } else if index == 2 {
        LogLevelOverride::Warn
    } else {
        LogLevelOverride::Error
    }
}

pub open spec fn level_name(l: LogLevelOverride) -> Seq<char> {
    match l {
        LogLevelOverride::Debug => "Debug"@,
        LogLevelOverride::Info => "Info"@,
        LogLevelOverride::Warn => "Warn"@,
        LogLevelOverride::Error => "Error"@,
    }
}

pub fn log_level_label(l: LogLevelOverride) -> (r: &'static str)
    ensures
        r@ == level_name(l),
{
    match l {
        LogLevelOverride::Debug => "Debug",
        LogLevelOverride::Info => "Info",
        LogLevelOverride::Warn => "Warn",
        LogLevelOverride::Error => "Error",
    }
}

pub open spec fn log_level_index(level: LogLevelOverride) -> usize {
    match level {
        LogLevelOverride::Debug => 0,
        LogLevelOverride::Info => 1,
        LogLevelOverride::Warn => 2,
        LogLevelOverride::Error => 3,
    }
}

pub fn log_level_dropdown_current_index(level: LogLevelOverride) -> (r: usize)
    ensures
        r == log_level_index(level),
        r < log_levels().len(),
        log_levels()[r as int] == level,
{
    match level {
        LogLevelOverride::Debug => 0,
        LogLevelOverride::Info => 1,
        LogLevelOverride::Warn => 2,
        LogLevelOverride::Error => 3,
    }
}

/// The values of a list of labelled channel counts.
pub open spec fn channel_views(v: Seq<(u8, &'static str)>) -> Seq<(u8, Seq<char>)> {
    v.map_values(|c: (u8, &'static str)| (c.0, c.1@))
}

/// The channel counts offered: what this client can decode, capped by what the selected route
/// can put on a speaker.
pub fn audio_channel_options(settings: &Settings, caps: VideoCaps) -> (r: Vec<(u8, &'static str)>)
    ensures
        channel_views(r@) == audio_channels().take(
            channels_up_to(route_channels(settings.audio_route, caps)) as int,
        ),
        r.len() == channels_up_to(route_channels(settings.audio_route, caps)),
{
    let max: u8 = match settings.audio_route {
        AudioRoutePref::Software => caps.max_channels,
        AudioRoutePref::NdlOpus => if caps.max_channels < 2 {
            caps.max_channels
        } else {
            2
        },
    };
    channel_options_up_to(max)
}

/// The prefix of the channel counts that a ceiling of `max` leaves.
pub fn channel_options_up_to(max: u8) -> (r: Vec<(u8, &'static str)>)
    ensures
        channel_views(r@) == audio_channels().take(channels_up_to(max) as int),
        r.len() == channels_up_to(max),
{
    let mut out: Vec<(u8, &'static str)> = Vec::new();
    if max >= 2 {
        out.push((2, "Stereo"));
        if max >= 6 {
            out.push((6, "5.1 surround"));
            if max >= 8 {
                out.push((8, "7.1 surround"));
            }
        }
    }
    assert(channel_views(out@) =~= audio_channels().take(channels_up_to(max) as int));
    out
}

/// The channel options are exactly the counts, in order, that a ceiling does not exclude.
pub proof fn law_channel_options(max: u8, i: int)
    requires
        0 <= i < audio_channels().len(),
    ensures
        i < channels_up_to(max) <==> audio_channels()[i].0 <= max,
{
}

/// A route's label: the decode step and the sink behind it.
pub fn audio_route_label(route: AudioRoutePref) -> (r: &'static str)
    ensures
        r@ == (match route {
            AudioRoutePref::Software => "Software (SDL)"@,
            AudioRoutePref::NdlOpus => "Offload (NDL)"@,
        }),
{
    match route {
        AudioRoutePref::Software => "Software (SDL)",
        AudioRoutePref::NdlOpus => "Offload (NDL)",
    }
}

} // verus!
