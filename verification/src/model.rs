//! The menu's data: hosts, collections, games, profiles and the settings its rules read.
use vstd::prelude::*;
use crate::seqs::views;
use crate::text::{text_of, texts};

verus! {

/// The value of an optional thing.
pub open spec fn views_of<T: View>(x: Option<T>) -> Option<T::V> {
    match x {
        Some(t) => Some(t@),
        None => None,
    }
}

/// What a remote press means to the menu.
#[derive(Clone, Copy, PartialEq, Eq, Structural, Debug)]
pub enum MenuEvent {
    Up,
    Down,
    Left,
    Right,
    Confirm,
    Back,
    Secondary,
}

/// What is on screen: Home, or one modal over it.
#[derive(Clone, Copy, PartialEq, Eq, Structural, Debug)]
pub enum Screen {
    Home,
    Pairing,
    AddHost,
    Wake,
    ForgetHost,
    EditHost,
    About,
    SpeedTest,
    SendLogs,
    Collections,
    RenameCollection,
    RemoveCollection,
    ResetHdrCalibration,
    SettingsPage,
    RenameProfile,
    DeleteProfile,
    HostMenu,
    HostPower,
    PickProfile,
    HdrCalibration,
}

/// Where Home's focus is: a sidebar row, that row's actions button, or a grid card.
#[derive(Clone, Copy, PartialEq, Eq, Structural, Debug)]
pub enum HomeFocus {
    Sidebar(usize),
    SidebarMenu(usize),
    Grid(usize),
}

/// Which half of the pairing card takes input.
#[derive(Clone, Copy, PartialEq, Eq, Structural, Debug)]
pub enum PairingFocus {
    Pin,
    RequestAccess,
}

/// What happens to a host when the app is left.
#[derive(Clone, Copy, PartialEq, Eq, Structural, Debug)]
pub enum ExitAction {
    Nothing,
    Sleep,
    Shutdown,
}

/// Why a management request produced no answer that can be used.
#[derive(Clone, Copy, PartialEq, Eq, Structural, Debug)]
pub enum LibraryError {
    /// The host never answered.
    Unreachable,
    /// The host answered and does not know this device.
    NotPaired,
    /// The host presented another certificate than the pinned one.
    PinMismatch,
    /// The host answered with this status.
    Http(u16),
}

/// Which codec a session asks for.
#[derive(Clone, Copy, PartialEq, Eq, Structural, Debug)]
pub enum CodecPref {
    Automatic,
    H264,
    Hevc,
}

/// Where sound is decoded.
#[derive(Clone, Copy, PartialEq, Eq, Structural, Debug)]
pub enum AudioRoutePref {
    Software,
    NdlOpus,
}

/// Which controller the host presents to a game.
#[derive(Clone, Copy, PartialEq, Eq, Structural, Debug)]
pub enum GamepadType {
    Auto,
    Xbox,
    DualShock,
    DualSense,
}

/// How much the log keeps.
#[derive(Clone, Copy, PartialEq, Eq, Structural, Debug)]
pub enum LogLevelOverride {
    Debug,
    Info,
    Warn,
    Error,
}

/// The panel volume an HDR calibration measures.
#[derive(Clone, Copy, PartialEq, Eq, Structural, Debug)]
pub struct HdrDisplay {
    pub peak_nits: u16,
    pub frame_avg_nits: u16,
    pub black_code: u16,
}

/// What the active video backend can do.
#[derive(Clone, Copy, PartialEq, Eq, Structural, Debug)]
pub struct VideoCaps {
    pub hdr: bool,
    /// How many codec picks the backend leaves.
    pub codec_prefs: usize,
    pub max_channels: u8,
}

/// The part of the settings document that the menu's rules read and write.
#[derive(Clone, Copy, PartialEq, Eq, Structural, Debug)]
pub struct Settings {
    pub bitrate_kbps: u32,
    pub hdr_enabled: bool,
    pub codec: CodecPref,
    pub audio_route: AudioRoutePref,
    pub gamepad_type: GamepadType,
    pub gamepad_ui: bool,
    pub game_mode: bool,
    pub show_logs: bool,
    pub log_level: LogLevelOverride,
    pub hdr_display: HdrDisplay,
    pub hdr_calibrated: bool,
}

/// A profile's overrides: a field is pinned where it is `Some`.
#[derive(Clone, Copy, PartialEq, Eq, Structural, Debug)]
pub struct SettingsOverlay {
    pub width: Option<u32>,
    pub height: Option<u32>,
    pub match_window: Option<bool>,
    pub refresh_hz: Option<u32>,
    pub bitrate_kbps: Option<u32>,
    pub codec: Option<u8>,
    pub hdr_enabled: Option<bool>,
    pub audio_channels: Option<u8>,
    pub mouse_mode: Option<u8>,
    pub invert_scroll: Option<bool>,
    pub gamepad: Option<u8>,
    pub stats_verbosity: Option<u8>,
}

/// A network endpoint.
pub struct Target {
    pub host: String,
    pub port: u16,
}

/// A [`Target`] as a value.
pub struct TargetV {
    pub host: Seq<char>,
    pub port: u16,
}

impl View for Target {
    type V = TargetV;

    open spec fn view(&self) -> TargetV {
        TargetV { host: self.host@, port: self.port }
    }
}

pub open spec fn target_of(t: Option<Target>) -> Option<TargetV> {
    match t {
        Some(x) => Some(x@),
        None => None,
    }
}

impl Clone for Target {
    fn clone(&self) -> (r: Self)
        ensures
            r@ == self@,
    {
        Target { host: self.host.clone(), port: self.port }
    }
}

/// Whether the endpoint is `host`:`port`.
pub fn is_target(t: &Option<Target>, host: &String, port: u16) -> (r: bool)
    ensures
        r == (target_of(*t) == Some(TargetV { host: host@, port })),
{
    match t {
        Some(x) => x.host == *host && x.port == port,
        None => false,
    }
}

/// A game's images, by where they can be fetched.
pub struct Artwork {
    pub portrait: Option<String>,
    pub header: Option<String>,
    pub hero: Option<String>,
}

pub struct ArtworkV {
    pub portrait: Option<Seq<char>>,
    pub header: Option<Seq<char>>,
    pub hero: Option<Seq<char>>,
}

impl View for Artwork {
    type V = ArtworkV;

    open spec fn view(&self) -> ArtworkV {
        ArtworkV { portrait: text_of(self.portrait), header: text_of(self.header), hero: text_of(self.hero) }
    }
}

/// The card id of the host's own desktop.
pub const DESKTOP_PIN_ID: &'static str = "__desktop__";

/// One card of the library.
pub struct GameEntry {
    pub id: String,
    pub title: String,
    pub art: Artwork,
    /// The mark a card without a cover wears.
    pub icon: Option<String>,
}

/// A [`GameEntry`] as a value.
pub struct GameV {
    pub id: Seq<char>,
    pub title: Seq<char>,
    pub art: ArtworkV,
    pub icon: Option<Seq<char>>,
}

impl View for GameEntry {
    type V = GameV;

    open spec fn view(&self) -> GameV {
        GameV { id: self.id@, title: self.title@, art: self.art@, icon: text_of(self.icon) }
    }
}

pub open spec fn game_views(games: Seq<GameEntry>) -> Seq<GameV> {
    views(games)
}

/// A named shelf of cards. The dynamic one is the Library: whatever no other shelf claims.
pub struct Collection {
    pub name: String,
    pub dynamic: bool,
    /// Member ids, in the collection's own order.
    pub games: Vec<String>,
}

/// A [`Collection`] as a value.
pub struct CollectionV {
    pub name: Seq<char>,
    pub dynamic: bool,
    pub games: Seq<Seq<char>>,
}

impl View for Collection {
    type V = CollectionV;

    open spec fn view(&self) -> CollectionV {
        CollectionV { name: self.name@, dynamic: self.dynamic, games: texts(self.games@) }
    }
}

pub open spec fn collection_views(v: Seq<Collection>) -> Seq<CollectionV> {
    views(v)
}

impl Clone for Collection {
    fn clone(&self) -> (r: Self)
        ensures
            r@ == self@,
    {
        let games = self.games.clone();
        assert(games@ =~= self.games@);
        Collection { name: self.name.clone(), dynamic: self.dynamic, games }
    }
}

/// A title's bound profile.
pub struct Binding {
    pub game: String,
    pub profile: String,
}

pub struct BindingV {
    pub game: Seq<char>,
    pub profile: Seq<char>,
}

impl View for Binding {
    type V = BindingV;

    open spec fn view(&self) -> BindingV {
        BindingV { game: self.game@, profile: self.profile@ }
    }
}

pub open spec fn binding_views(v: Seq<Binding>) -> Seq<BindingV> {
    views(v)
}

impl Clone for Binding {
    fn clone(&self) -> (r: Self)
        ensures
            r@ == self@,
    {
        Binding { game: self.game.clone(), profile: self.profile.clone() }
    }
}

/// A saved host.
pub struct KnownHost {
    pub name: String,
    pub addr: String,
    pub port: u16,
    pub mgmt_port: Option<u16>,
    /// Wake-on-LAN addresses, empty until the host has been seen advertising them.
    pub mac: Vec<String>,
    pub os: String,
    /// The pinned certificate. Pairing is what pins it, so it is also the pair state.
    pub pin: Option<[u8; 32]>,
    /// Whether an unreachable host is woken without asking.
    pub wol_auto: bool,
    pub exit_action: ExitAction,
    /// The profile a title with no binding streams with.
    pub profile_id: Option<String>,
    /// Profiles shown as cards of their own in the sidebar.
    pub pinned_profiles: Vec<String>,
    pub game_profiles: Vec<Binding>,
    pub collections: Vec<Collection>,
}

/// A [`KnownHost`] as a value.
pub struct HostV {
    pub name: Seq<char>,
    pub addr: Seq<char>,
    pub port: u16,
    pub mgmt_port: Option<u16>,
    pub mac: Seq<Seq<char>>,
    pub os: Seq<char>,
    pub pin: Option<[u8; 32]>,
    pub wol_auto: bool,
    pub exit_action: ExitAction,
    pub profile_id: Option<Seq<char>>,
    pub pinned_profiles: Seq<Seq<char>>,
    pub game_profiles: Seq<BindingV>,
    pub collections: Seq<CollectionV>,
}

impl View for KnownHost {
    type V = HostV;

    open spec fn view(&self) -> HostV {
        HostV {
            name: self.name@,
            addr: self.addr@,
            port: self.port,
            mgmt_port: self.mgmt_port,
            mac: texts(self.mac@),
            os: self.os@,
            pin: self.pin,
            wol_auto: self.wol_auto,
            exit_action: self.exit_action,
            profile_id: text_of(self.profile_id),
            pinned_profiles: texts(self.pinned_profiles@),
            game_profiles: binding_views(self.game_profiles@),
            collections: collection_views(self.collections@),
        }
    }
}

pub open spec fn host_views(v: Seq<KnownHost>) -> Seq<HostV> {
    views(v)
}

impl Clone for KnownHost {
    fn clone(&self) -> (r: Self)
        ensures
            r@ == self@,
    {
        let mac = self.mac.clone();
        let pinned_profiles = self.pinned_profiles.clone();
        let game_profiles = self.game_profiles.clone();
        let collections = self.collections.clone();
        assert(mac@ =~= self.mac@);
        assert(pinned_profiles@ =~= self.pinned_profiles@);
        assert(binding_views(game_profiles@) =~= binding_views(self.game_profiles@));
        assert(collection_views(collections@) =~= collection_views(self.collections@));
        KnownHost {
            name: self.name.clone(),
            addr: self.addr.clone(),
            port: self.port,
            mgmt_port: self.mgmt_port,
            mac,
            os: self.os.clone(),
            pin: self.pin,
            wol_auto: self.wol_auto,
            exit_action: self.exit_action,
            profile_id: self.profile_id.clone(),
            pinned_profiles,
            game_profiles,
            collections,
        }
    }
}

/// A host heard on the network.
pub struct DiscoveredHost {
    pub name: String,
    pub addr: String,
    pub port: u16,
    pub mgmt_port: Option<u16>,
    pub mac: Vec<String>,
    pub os: String,
}

/// A [`DiscoveredHost`] as a value.
pub struct FoundV {
    pub name: Seq<char>,
    pub addr: Seq<char>,
    pub port: u16,
    pub mgmt_port: Option<u16>,
    pub mac: Seq<Seq<char>>,
    pub os: Seq<char>,
}

impl View for DiscoveredHost {
    type V = FoundV;

    open spec fn view(&self) -> FoundV {
        FoundV {
            name: self.name@,
            addr: self.addr@,
            port: self.port,
            mgmt_port: self.mgmt_port,
            mac: texts(self.mac@),
            os: self.os@,
        }
    }
}

pub open spec fn found_views(v: Seq<DiscoveredHost>) -> Seq<FoundV> {
    views(v)
}

impl Clone for DiscoveredHost {
    fn clone(&self) -> (r: Self)
        ensures
            r@ == self@,
    {
        let mac = self.mac.clone();
        assert(mac@ =~= self.mac@);
        DiscoveredHost {
            name: self.name.clone(),
            addr: self.addr.clone(),
            port: self.port,
            mgmt_port: self.mgmt_port,
            mac,
            os: self.os.clone(),
        }
    }
}

/// One settings profile of the catalog.
pub struct StreamProfile {
    pub id: String,
    pub name: String,
    pub overrides: SettingsOverlay,
}

/// A [`StreamProfile`] as a value.
pub struct ProfileV {
    pub id: Seq<char>,
    pub name: Seq<char>,
    pub overrides: SettingsOverlay,
}

impl View for StreamProfile {
    type V = ProfileV;

    open spec fn view(&self) -> ProfileV {
        ProfileV { id: self.id@, name: self.name@, overrides: self.overrides }
    }
}

pub open spec fn profile_views(v: Seq<StreamProfile>) -> Seq<ProfileV> {
    views(v)
}

impl Clone for StreamProfile {
    fn clone(&self) -> (r: Self)
        ensures
            r@ == self@,
    {
        StreamProfile { id: self.id.clone(), name: self.name.clone(), overrides: self.overrides }
    }
}

/// What a stream is started with.
pub struct ConnectTarget {
    pub host: String,
    pub port: u16,
    pub fingerprint: [u8; 32],
    /// The game to launch, `None` for the desktop.
    pub launch: Option<String>,
    /// The profile for this session only.
    pub profile: Option<String>,
}

/// A [`ConnectTarget`] as a value.
pub struct ConnectV {
    pub host: Seq<char>,
    pub port: u16,
    pub fingerprint: [u8; 32],
    pub launch: Option<Seq<char>>,
    pub profile: Option<Seq<char>>,
}

impl View for ConnectTarget {
    type V = ConnectV;

    open spec fn view(&self) -> ConnectV {
        ConnectV {
            host: self.host@,
            port: self.port,
            fingerprint: self.fingerprint,
            launch: text_of(self.launch),
            profile: text_of(self.profile),
        }
    }
}

pub open spec fn connect_of(t: Option<ConnectTarget>) -> Option<ConnectV> {
    match t {
        Some(c) => Some(c@),
        None => None,
    }
}

} // verus!
