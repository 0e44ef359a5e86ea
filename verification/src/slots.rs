//! Per-screen payloads: the state a single screen owns while it is up, the work it has asked
//! for, and what it asks the outer loop to do.
use vstd::prelude::*;
use crate::flags::{Job, Out};
use crate::menu::PowerRights;
use crate::model::{
    host_views, profile_views, target_of, views_of, ExitAction, HdrDisplay, HostV, KnownHost, LogLevelOverride,
    PairingFocus, ProfileV, Settings, StreamProfile, Target, TargetV,
};
use crate::seqs::views;
use crate::text::{text_of, texts};

verus! {

/// Which of a row's buttons the cursor is on. The absence of one is the row body.
#[derive(Clone, Copy, PartialEq, Eq, Structural, Debug)]
pub enum RowButton {
    /// The row's icon slot, at its left end.
    Leading,
    /// One of the buttons at its right end.
    Trailing(usize),
}

impl RowButton {
    /// The trailing index, `None` for the leading button.
    pub fn trailing(self) -> (r: Option<usize>)
        ensures
            r == (match self {
                RowButton::Trailing(i) => Some(i),
                RowButton::Leading => None,
            }),
    {
        match self {
            RowButton::Trailing(i) => Some(i),
            RowButton::Leading => None,
        }
    }
}

/// A settings page.
#[derive(Clone, Copy, PartialEq, Eq, Structural, Debug)]
pub enum Page {
    General,
    Display,
    Input,
    Audio,
    Controllers,
    About,
}

/// A settings row that every front end has, with the same label, options and step.
#[derive(Clone, Copy, PartialEq, Eq, Structural, Debug)]
pub enum KitRow {
    AutoWake,
    Stats,
    Palette,
    GamepadUi,
    GamepadUiMode,
    Resolution,
    Refresh,
    Bitrate,
    Codec,
    Hdr,
    Mouse,
    CursorGestures,
    InvertScroll,
    Audio,
    AudioRoute,
    PadType,
    PadHaptics,
    PadSpeaker,
}

/// Which document the settings page edits.
pub enum Scope {
    Global,
    /// One profile's overlay, by catalog id.
    Profile(String),
}

pub enum ScopeV {
    Global,
    Profile(Seq<char>),
}

impl View for Scope {
    type V = ScopeV;

    open spec fn view(&self) -> ScopeV {
        match self {
            Scope::Global => ScopeV::Global,
            Scope::Profile(id) => ScopeV::Profile(id@),
        }
    }
}

impl Clone for Scope {
    fn clone(&self) -> (r: Self)
        ensures
            r@ == self@,
    {
        match self {
            Scope::Global => Scope::Global,
            Scope::Profile(id) => Scope::Profile(id.clone()),
        }
    }
}

/// The settings page's own state, beside its row cursor.
pub struct SettingsPageState {
    pub page: Page,
    pub scope: Scope,
    /// Focus is on the page column, not the rows.
    pub column: bool,
}

pub struct SettingsPageV {
    pub page: Page,
    pub scope: ScopeV,
    pub column: bool,
}

impl View for SettingsPageState {
    type V = SettingsPageV;

    open spec fn view(&self) -> SettingsPageV {
        SettingsPageV { page: self.page, scope: self.scope@, column: self.column }
    }
}

/// Why the profile list is up, and what a pick writes.
pub enum ProfilePick {
    /// The host's default profile; "None" is the global document.
    HostDefault(Target),
    /// Stream the host's desktop once with a profile, binding nothing.
    ConnectWith(Target),
    /// A title's binding; "None" clears it.
    BindGame { pin_id: String, title: String },
    /// Toggle which profiles the host shows as sidebar cards.
    Pin(Target),
}

pub enum ProfilePickV {
    HostDefault(TargetV),
    ConnectWith(TargetV),
    BindGame { pin_id: Seq<char>, title: Seq<char> },
    Pin(TargetV),
}

impl View for ProfilePick {
    type V = ProfilePickV;

    open spec fn view(&self) -> ProfilePickV {
        match self {
            ProfilePick::HostDefault(t) => ProfilePickV::HostDefault(t@),
            ProfilePick::ConnectWith(t) => ProfilePickV::ConnectWith(t@),
            ProfilePick::BindGame { pin_id, title } => ProfilePickV::BindGame { pin_id: pin_id@, title: title@ },
            ProfilePick::Pin(t) => ProfilePickV::Pin(t@),
        }
    }
}

impl Clone for ProfilePick {
    fn clone(&self) -> (r: Self)
        ensures
            r@ == self@,
    {
        match self {
            ProfilePick::HostDefault(t) => ProfilePick::HostDefault(t.clone()),
            ProfilePick::ConnectWith(t) => ProfilePick::ConnectWith(t.clone()),
            ProfilePick::BindGame { pin_id, title } => ProfilePick::BindGame {
                pin_id: pin_id.clone(),
                title: title.clone(),
            },
            ProfilePick::Pin(t) => ProfilePick::Pin(t.clone()),
        }
    }
}

impl ProfilePickV {
    /// Whether the list leads with a "None" row.
    pub open spec fn has_none(self) -> bool {
        self is HostDefault || self is BindGame
    }

    pub open spec fn heading(self) -> Seq<char> {
        match self {
            ProfilePickV::HostDefault(_) => "Default profile"@,
            ProfilePickV::ConnectWith(_) => "Connect with"@,
            ProfilePickV::BindGame { .. } => "Settings profile"@,
            ProfilePickV::Pin(_) => "Pin to sidebar"@,
        }
    }
}

impl ProfilePick {
    /// Whether the list leads with a "None" row.
    pub fn has_none(&self) -> (r: bool)
        ensures
            r == self@.has_none(),
    {
        match self {
            ProfilePick::HostDefault(_) => true,
            ProfilePick::BindGame { .. } => true,
            _ => false,
        }
    }

    pub fn title(&self) -> (r: &'static str)
        ensures
            r@ == self@.heading(),
    {
        match self {
            ProfilePick::HostDefault(_) => "Default profile",
            ProfilePick::ConnectWith(_) => "Connect with",
            ProfilePick::BindGame { .. } => "Settings profile",
            ProfilePick::Pin(_) => "Pin to sidebar",
        }
    }
}

/// What the collections screen and the dialogs over it are acting on.
pub struct CollectionsState {
    /// The card being moved.
    pub target: Option<String>,
    /// That card's title.
    pub title: String,
    /// The collection being named, `None` while naming one that does not exist yet.
    pub renaming: Option<usize>,
    /// The collection the remove dialog is asking about.
    pub removing: Option<usize>,
    /// The name being typed.
    pub name: String,
    /// The row being dragged, while one is held.
    pub dragging: Option<usize>,
}

pub struct CollectionsV {
    pub target: Option<Seq<char>>,
    pub title: Seq<char>,
    pub renaming: Option<usize>,
    pub removing: Option<usize>,
    pub name: Seq<char>,
    pub dragging: Option<usize>,
}

impl View for CollectionsState {
    type V = CollectionsV;

    open spec fn view(&self) -> CollectionsV {
        CollectionsV {
            target: text_of(self.target),
            title: self.title@,
            renaming: self.renaming,
            removing: self.removing,
            name: self.name@,
            dragging: self.dragging,
        }
    }
}

/// The collections screen acting on nothing.
pub open spec fn no_collections() -> CollectionsV {
    CollectionsV {
        target: None,
        title: Seq::empty(),
        renaming: None,
        removing: None,
        name: Seq::empty(),
        dragging: None,
    }
}

impl CollectionsState {
    pub fn new() -> (r: Self)
        ensures
            r@ == no_collections(),
    {
        CollectionsState {
            target: None,
            title: String::new(),
            renaming: None,
            removing: None,
            name: String::new(),
            dragging: None,
        }
    }
}

/// What a wake packet on its way out was for.
#[derive(Clone, Copy, PartialEq, Eq, Structural, Debug)]
pub enum WakeSend {
    /// The host wakes without asking, and nothing is on screen.
    Auto,
    /// The wait ran out and the packet goes again; `reveal` brings the prompt up with it.
    Retry { reveal: bool },
    /// The prompt's button.
    Prompt,
}

/// Wake-on-LAN flow state: both the prompt and the silent wait.
pub struct WakeState {
    pub host: String,
    pub port: u16,
    pub name: String,
    pub mac: Vec<String>,
    /// Why the host could not be reached, restored on back-out.
    pub reason: String,
    pub focused: usize,
    pub sent: bool,
    /// Packets sent, shown so that a silent wait visibly progresses.
    pub attempts: u32,
    pub since: Option<u64>,
    pub last_attempt: Option<u64>,
    /// Running silently: the prompt may come up by itself.
    pub silent: bool,
    pub last_probe: Option<u64>,
    /// A reachability probe is out.
    pub probing: bool,
    /// A packet is being sent.
    pub sending: Option<WakeSend>,
}

/// A [`WakeState`] as a value.
pub struct WakeV {
    pub host: Seq<char>,
    pub port: u16,
    pub name: Seq<char>,
    pub mac: Seq<Seq<char>>,
    pub reason: Seq<char>,
    pub focused: usize,
    pub sent: bool,
    pub attempts: u32,
    pub since: Option<u64>,
    pub last_attempt: Option<u64>,
    pub silent: bool,
    pub last_probe: Option<u64>,
    pub probing: bool,
    pub sending: Option<WakeSend>,
}

impl View for WakeState {
    type V = WakeV;

    open spec fn view(&self) -> WakeV {
        WakeV {
            host: self.host@,
            port: self.port,
            name: self.name@,
            mac: texts(self.mac@),
            reason: self.reason@,
            focused: self.focused,
            sent: self.sent,
            attempts: self.attempts,
            since: self.since,
            last_attempt: self.last_attempt,
            silent: self.silent,
            last_probe: self.last_probe,
            probing: self.probing,
            sending: self.sending,
        }
    }
}

/// What a speed measurement found.
#[derive(Clone, Copy, PartialEq, Eq, Structural, Debug)]
pub struct ProbeOutcome {
    pub throughput_kbps: u32,
    pub recv_bytes: u64,
    pub elapsed_ms: u32,
}

/// Where a running or finished speed test has got to.
pub enum SpeedTestState {
    Connecting,
    /// The burst is running; `partial` is the latest poll.
    Measuring { partial: Option<ProbeOutcome> },
    /// `confirmed` is false if the host's report did not arrive.
    Done { outcome: ProbeOutcome, confirmed: bool },
    Failed(String),
}

pub enum SpeedV {
    Connecting,
    Measuring { partial: Option<ProbeOutcome> },
    Done { outcome: ProbeOutcome, confirmed: bool },
    Failed(Seq<char>),
}

impl View for SpeedTestState {
    type V = SpeedV;

    open spec fn view(&self) -> SpeedV {
        match self {
            SpeedTestState::Connecting => SpeedV::Connecting,
            SpeedTestState::Measuring { partial } => SpeedV::Measuring { partial: *partial },
            SpeedTestState::Done { outcome, confirmed } => SpeedV::Done { outcome: *outcome, confirmed: *confirmed },
            SpeedTestState::Failed(e) => SpeedV::Failed(e@),
        }
    }
}

/// One of the three luminances an HDR calibration measures.
#[derive(Clone, Copy, PartialEq, Eq, Structural, Debug)]
pub enum HdrStep {
    Peak,
    FrameAverage,
    Black,
}

impl HdrStep {
    pub open spec fn following(self) -> Option<HdrStep> {
        match self {
            HdrStep::Peak => Some(HdrStep::FrameAverage),
            HdrStep::FrameAverage => Some(HdrStep::Black),
            HdrStep::Black => None,
        }
    }

    /// The step after this one, `None` on the last.
    pub fn next(self) -> (r: Option<HdrStep>)
        ensures
            r == self.following(),
    {
        match self {
            HdrStep::Peak => Some(HdrStep::FrameAverage),
            HdrStep::FrameAverage => Some(HdrStep::Black),
            HdrStep::Black => None,
        }
    }
}

/// What the calibration screen owns while it is up.
#[derive(Clone, Copy, PartialEq, Eq, Structural, Debug)]
pub struct HdrCalibrationState {
    pub step: HdrStep,
    /// The volume being measured. Committed to the settings only on finish.
    pub display: HdrDisplay,
    /// Whether the pattern feed runs. The screen stays usable without it.
    pub playing: bool,
    /// Whether the loop was last told that the pattern shows.
    pub seen_presenting: bool,
    /// Whether the loop was last told that the feed gave up.
    pub seen_stalled: bool,
}

/// Why a power-rights probe produced no rights.
#[derive(Clone, Copy, PartialEq, Eq, Structural, Debug)]
pub enum ProbeFailure {
    /// The host answered, and predates power actions entirely.
    Unsupported,
    /// No answer at all.
    Unreachable,
}

/// A power-rights probe's verdict.
#[derive(Clone, Copy, PartialEq, Eq, Structural, Debug)]
pub enum ProbeVerdict {
    Rights(PowerRights),
    Failure(ProbeFailure),
}

/// The state single screens own.
pub struct ScreenSlots {
    /// The sidebar row the host menu, and everything reached from it, is acting on.
    pub host_menu_index: Option<usize>,
    /// Which of the focused row's buttons has focus, rather than the row body.
    pub row_button: Option<RowButton>,
    /// What the host menu's power row does, fixed when that menu opens: it is read once to draw
    /// the row and once when it is pressed, and must not change in between.
    pub host_menu_power: Option<ExitAction>,
    pub hdr: Option<HdrCalibrationState>,
    pub speed_test: Option<SpeedTestState>,
    /// The host being measured.
    pub speed_test_name: String,
    /// The address being typed.
    pub add_host: String,
    pub settings_page: SettingsPageState,
    /// The name being typed for the profile in scope.
    pub profile_name: String,
    pub profile_pick: Option<ProfilePick>,
    /// The About document's first visible line.
    pub about_scroll: usize,
    pub collections: CollectionsState,
    /// What the host said about this pairing's power rights, `None` while the probe is out.
    pub power_rights: Option<ProbeVerdict>,
    pub wake: Option<WakeState>,
    pub pin_digits: [u8; 4],
    pub pin_digit_index: usize,
    pub pairing_focus: PairingFocus,
    pub pairing_status: Option<String>,
    pub pairing_busy: bool,
    /// The sidebar row being paired.
    pub pairing_entry: usize,
}

/// A [`ScreenSlots`] as a value.
pub struct ScreensV {
    pub host_menu_index: Option<usize>,
    pub row_button: Option<RowButton>,
    pub host_menu_power: Option<ExitAction>,
    pub hdr: Option<HdrCalibrationState>,
    pub speed_test: Option<SpeedV>,
    pub speed_test_name: Seq<char>,
    pub add_host: Seq<char>,
    pub settings_page: SettingsPageV,
    pub profile_name: Seq<char>,
    pub profile_pick: Option<ProfilePickV>,
    pub about_scroll: usize,
    pub collections: CollectionsV,
    pub power_rights: Option<ProbeVerdict>,
    pub wake: Option<WakeV>,
    pub pin_digits: Seq<u8>,
    pub pin_digit_index: usize,
    pub pairing_focus: PairingFocus,
    pub pairing_status: Option<Seq<char>>,
    pub pairing_busy: bool,
    pub pairing_entry: usize,
}

impl View for ScreenSlots {
    type V = ScreensV;

    open spec fn view(&self) -> ScreensV {
        ScreensV {
            host_menu_index: self.host_menu_index,
            row_button: self.row_button,
            host_menu_power: self.host_menu_power,
            hdr: self.hdr,
            speed_test: views_of(self.speed_test),
            speed_test_name: self.speed_test_name@,
            add_host: self.add_host@,
            settings_page: self.settings_page@,
            profile_name: self.profile_name@,
            profile_pick: views_of(self.profile_pick),
            about_scroll: self.about_scroll,
            collections: self.collections@,
            power_rights: self.power_rights,
            wake: views_of(self.wake),
            pin_digits: self.pin_digits@,
            pin_digit_index: self.pin_digit_index,
            pairing_focus: self.pairing_focus,
            pairing_status: text_of(self.pairing_status),
            pairing_busy: self.pairing_busy,
            pairing_entry: self.pairing_entry,
        }
    }
}

/// A power action under way, with the host it was sent to: the menu that started it is closed by
/// the time the host replies.
pub struct PowerJob {
    pub at: Target,
    pub action: ExitAction,
}

pub struct PowerJobV {
    pub at: TargetV,
    pub action: ExitAction,
}

impl View for PowerJob {
    type V = PowerJobV;

    open spec fn view(&self) -> PowerJobV {
        PowerJobV { at: self.at@, action: self.action }
    }
}

/// Which background work is in flight.
pub struct Jobs {
    pub out: Out,
    /// The host whose power rights are being asked for.
    pub power_access: Option<Target>,
    pub power_action: Option<PowerJob>,
}

pub struct JobsV {
    pub out: Set<Job>,
    pub power_access: Option<TargetV>,
    pub power_action: Option<PowerJobV>,
}

impl View for Jobs {
    type V = JobsV;

    open spec fn view(&self) -> JobsV {
        JobsV {
            out: self.out@,
            power_access: target_of(self.power_access),
            power_action: views_of(self.power_action),
        }
    }
}

impl JobsV {
    pub open spec fn has(self, j: Job) -> bool {
        self.out.contains(j)
    }

    pub open spec fn start(self, j: Job) -> JobsV {
        JobsV { out: self.out.insert(j), ..self }
    }

    pub open spec fn stop(self, j: Job) -> JobsV {
        JobsV { out: self.out.remove(j), ..self }
    }

    pub open spec fn cancel_library(self) -> JobsV {
        self.stop(Job::Games).stop(Job::Art).stop(Job::Running)
    }
}

impl Jobs {
    pub fn new() -> (r: Self)
        ensures
            r@ == (JobsV { out: Set::empty(), power_access: None, power_action: None }),
    {
        Jobs { out: Out::new(), power_access: None, power_action: None }
    }

    pub fn has(&self, j: Job) -> (r: bool)
        ensures
            r == self@.has(j),
    {
        self.out.has(j)
    }

    pub fn start(&mut self, j: Job)
        ensures
            final(self)@ == old(self)@.start(j),
    {
        self.out.set(j, true);
    }

    pub fn stop(&mut self, j: Job)
        ensures
            final(self)@ == old(self)@.stop(j),
    {
        self.out.set(j, false);
    }

    pub fn cancel_pairing(&mut self)
        ensures
            final(self)@ == old(self)@.stop(Job::Pairing),
    {
        self.stop(Job::Pairing);
    }

    pub fn cancel_speed_test(&mut self)
        ensures
            final(self)@ == old(self)@.stop(Job::SpeedTest),
    {
        self.stop(Job::SpeedTest);
    }

    /// Drops the library fetch and the art loader together: they are one pipeline, and a stale
    /// fetch landing after a host switch would start art for the wrong library.
    pub fn cancel_library(&mut self)
        ensures
            final(self)@ == old(self)@.cancel_library(),
    {
        self.stop(Job::Games);
        self.stop(Job::Art);
        self.stop(Job::Running);
    }
}

/// Where a management request goes: the address, the port to ask if one is known, and the
/// certificate to expect if one is pinned.
pub struct Endpoint {
    pub at: Target,
    pub mgmt_port: Option<u16>,
    pub pin: Option<[u8; 32]>,
}

pub struct EndpointV {
    pub at: TargetV,
    pub mgmt_port: Option<u16>,
    pub pin: Option<[u8; 32]>,
}

impl View for Endpoint {
    type V = EndpointV;

    open spec fn view(&self) -> EndpointV {
        EndpointV { at: self.at@, mgmt_port: self.mgmt_port, pin: self.pin }
    }
}

/// The management-lane target for one power action. The pin is required: a power action is the
/// last request to send to a peer that is not verified.
pub struct ExitPlan {
    pub addr: String,
    pub mgmt_port: Option<u16>,
    pub pin: [u8; 32],
    pub action: ExitAction,
}

pub struct ExitPlanV {
    pub addr: Seq<char>,
    pub mgmt_port: Option<u16>,
    pub pin: [u8; 32],
    pub action: ExitAction,
}

impl View for ExitPlan {
    type V = ExitPlanV;

    open spec fn view(&self) -> ExitPlanV {
        ExitPlanV { addr: self.addr@, mgmt_port: self.mgmt_port, pin: self.pin, action: self.action }
    }
}

/// The document that is kept between launches.
pub struct Persisted {
    pub settings: Settings,
    pub known_hosts: Vec<KnownHost>,
    pub selected_host: Option<Target>,
    pub profiles: Vec<StreamProfile>,
}

pub struct PersistedV {
    pub settings: Settings,
    pub known_hosts: Seq<HostV>,
    pub selected_host: Option<TargetV>,
    pub profiles: Seq<ProfileV>,
}

impl View for Persisted {
    type V = PersistedV;

    open spec fn view(&self) -> PersistedV {
        PersistedV {
            settings: self.settings,
            known_hosts: host_views(self.known_hosts@),
            selected_host: target_of(self.selected_host),
            profiles: profile_views(self.profiles@),
        }
    }
}

/// What the menu asks the outer loop to do, in the order it asks.
pub enum Effect {
    /// Write the document.
    Save(Persisted),
    /// Write the launch history.
    SaveRecents,
    /// Drop cached art of hosts that are no longer saved.
    ReconcileCaches,
    /// Fetch the selected host's library.
    FetchGames(Endpoint),
    /// Ask a waking host for its library, to learn whether it is back.
    ProbeGames(Endpoint),
    /// Start loading the library's art for cards of this size.
    StartArt(Endpoint, (u32, u32)),
    /// Ask the selected host what it runs.
    AskRunning(Endpoint),
    /// Probe every listed host.
    SweepReach(Vec<Target>),
    /// Send a wake packet to these addresses.
    WakePacket(Vec<String>, String, String),
    /// Ask which power actions this pairing may invoke.
    ProbePower(ExitPlan),
    /// Invoke a power action.
    PowerAction(ExitPlan),
    /// Find out whether this TV is rooted.
    ProbeRoot,
    /// Measure the network to a host.
    StartSpeedTest(Target, Option<[u8; 32]>),
    /// Send the log to a host.
    SendLogs(Endpoint, String),
    /// Show or hide the log overlay.
    LogOverlay(bool),
    /// Log at this level.
    LogLevel(LogLevelOverride),
    /// Start feeding a calibration pattern.
    StartPattern(HdrStep, HdrDisplay),
    /// Feed another calibration pattern.
    ShowPattern(HdrStep, HdrDisplay),
    /// Arm the launch backdrop for a game, or for none.
    ArmHero(Option<String>),
    /// Fetch a game's backdrop and hold the hand-off for it.
    AwaitHero(String),
    /// Raise the pairing card for a sidebar row.
    OpenPairing(usize),
    /// Drop a loaded cover and forget that it was asked for.
    DropCover(String),
    /// Ask for a card's art.
    RequestArt(String),
    /// Ask for the focused card's backdrop ahead of its launch.
    WantHero(String),
    /// Forget that a backdrop was asked for: it came when it was no longer of use.
    ForgetHero(String),
    /// Drop every built cover.
    StaleCovers,
    /// Drop a built cover; its art stays.
    StaleCover(String),
    /// Build a cover from the art in hand.
    BuildCover(String),
    /// Say on Home that a power action is on its way to a host of this name.
    TellPending(ExitAction, String),
    /// Step a shared settings row by this much, wrapping at the end or not, over the document
    /// that is in scope.
    AdjustRow(KitRow, i32, bool),
    /// Send the log wherever it can go.
    OfferLogs,
    /// Move on to the address's next field.
    AdvanceAddress,
}

/// An [`Effect`] as a value.
pub enum EffectV {
    Save(PersistedV),
    SaveRecents,
    ReconcileCaches,
    FetchGames(EndpointV),
    ProbeGames(EndpointV),
    StartArt(EndpointV, (u32, u32)),
    AskRunning(EndpointV),
    SweepReach(Seq<TargetV>),
    WakePacket(Seq<Seq<char>>, Seq<char>, Seq<char>),
    ProbePower(ExitPlanV),
    PowerAction(ExitPlanV),
    ProbeRoot,
    StartSpeedTest(TargetV, Option<[u8; 32]>),
    SendLogs(EndpointV, Seq<char>),
    LogOverlay(bool),
    LogLevel(LogLevelOverride),
    StartPattern(HdrStep, HdrDisplay),
    ShowPattern(HdrStep, HdrDisplay),
    ArmHero(Option<Seq<char>>),
    AwaitHero(Seq<char>),
    OpenPairing(usize),
    DropCover(Seq<char>),
    RequestArt(Seq<char>),
    WantHero(Seq<char>),
    ForgetHero(Seq<char>),
    StaleCovers,
    StaleCover(Seq<char>),
    BuildCover(Seq<char>),
    TellPending(ExitAction, Seq<char>),
    AdjustRow(KitRow, i32, bool),
    OfferLogs,
    AdvanceAddress,
}

impl View for Effect {
    type V = EffectV;

    open spec fn view(&self) -> EffectV {
        match self {
            Effect::Save(d) => EffectV::Save(d@),
            Effect::SaveRecents => EffectV::SaveRecents,
            Effect::ReconcileCaches => EffectV::ReconcileCaches,
            Effect::FetchGames(e) => EffectV::FetchGames(e@),
            Effect::ProbeGames(e) => EffectV::ProbeGames(e@),
            Effect::StartArt(e, size) => EffectV::StartArt(e@, *size),
            Effect::AskRunning(e) => EffectV::AskRunning(e@),
            Effect::SweepReach(t) => EffectV::SweepReach(views(t@)),
            Effect::WakePacket(mac, host, name) => EffectV::WakePacket(texts(mac@), host@, name@),
            Effect::ProbePower(p) => EffectV::ProbePower(p@),
            Effect::PowerAction(p) => EffectV::PowerAction(p@),
            Effect::ProbeRoot => EffectV::ProbeRoot,
            Effect::StartSpeedTest(t, pin) => EffectV::StartSpeedTest(t@, *pin),
            Effect::SendLogs(e, name) => EffectV::SendLogs(e@, name@),
            Effect::LogOverlay(on) => EffectV::LogOverlay(*on),
            Effect::LogLevel(l) => EffectV::LogLevel(*l),
            Effect::StartPattern(s, d) => EffectV::StartPattern(*s, *d),
            Effect::ShowPattern(s, d) => EffectV::ShowPattern(*s, *d),
            Effect::ArmHero(id) => EffectV::ArmHero(text_of(*id)),
            Effect::AwaitHero(id) => EffectV::AwaitHero(id@),
            Effect::OpenPairing(i) => EffectV::OpenPairing(*i),
            Effect::DropCover(id) => EffectV::DropCover(id@),
            Effect::RequestArt(id) => EffectV::RequestArt(id@),
            Effect::WantHero(id) => EffectV::WantHero(id@),
            Effect::ForgetHero(id) => EffectV::ForgetHero(id@),
            Effect::StaleCovers => EffectV::StaleCovers,
            Effect::StaleCover(id) => EffectV::StaleCover(id@),
            Effect::BuildCover(id) => EffectV::BuildCover(id@),
            Effect::TellPending(a, name) => EffectV::TellPending(*a, name@),
            Effect::AdjustRow(row, delta, wrap) => EffectV::AdjustRow(*row, *delta, *wrap),
            Effect::OfferLogs => EffectV::OfferLogs,
            Effect::AdvanceAddress => EffectV::AdvanceAddress,
        }
    }
}

} // verus!
