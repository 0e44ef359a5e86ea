//! Which of the open modal's drawn pieces are stale: the card's shell, its focused widget, the
//! copy of a card that fades out, and the rows of a scrolling list.
use vstd::prelude::*;
use crate::app::{App, AppV};
use crate::flags::Flag;
use crate::hostmenu::HostAction;
use crate::menu::PowerAccess;
use crate::model::{
    ExitAction, GamepadType, HdrDisplay, HomeFocus, LogLevelOverride, PairingFocus, Screen, Settings, SettingsOverlay,
};
use crate::profilepick::{PickRow, PickRowV};
use crate::seqs::views;
use crate::slots::{HdrStep, Page, ProbeOutcome, RowButton, ScreensV, SpeedTestState, SpeedV};
use crate::text::{is_text, same_text, text_of};

verus! {

/// How far a speed test has got, as its card says it.
#[derive(Clone, Copy, PartialEq, Eq, Structural, Debug)]
pub enum TestPhase {
    Connecting,
    Measuring(Option<ProbeOutcome>),
    Done(ProbeOutcome, bool),
    Failed,
}

/// What a card's shell is drawn from. Where the focus is, is no part of it: a shell is redrawn
/// when what it says changes, not when focus moves.
pub enum ShellKey {
    Shelves { held: bool, card: Option<String>, rows: usize },
    Wake { name: String, no_address: bool },
    Pairing { digits: [u8; 4], status: Option<String>, busy: bool },
    Forget(String),
    HostMenu { name: String, address: String, rows: usize, power: Option<ExitAction> },
    HostPower { name: String, auto: bool, exit: ExitAction, access: PowerAccess },
    SpeedTest { name: String, phase: Option<TestPhase>, failure: String },
    Luminance { step: HdrStep, display: HdrDisplay, stalled: bool },
    Remove { name: String, games: usize },
    /// The name of the profile that a deletion is asked about.
    Delete(String),
    /// The page, and the name of the profile in scope.
    Settings { page: Page, profile: Option<String> },
    Pick { about: Option<String>, choices: Vec<PickRow> },
    /// A card that says the same whenever it is up.
    Fixed(Screen),
}

/// A [`ShellKey`] as a value.
pub enum ShellKeyV {
    Shelves { held: bool, card: Option<Seq<char>>, rows: nat },
    Wake { name: Seq<char>, no_address: bool },
    Pairing { digits: Seq<u8>, status: Option<Seq<char>>, busy: bool },
    Forget(Seq<char>),
    HostMenu { name: Seq<char>, address: Seq<char>, rows: nat, power: Option<ExitAction> },
    HostPower { name: Seq<char>, auto: bool, exit: ExitAction, access: PowerAccess },
    SpeedTest { name: Seq<char>, phase: Option<TestPhase>, failure: Seq<char> },
    Luminance { step: HdrStep, display: HdrDisplay, stalled: bool },
    Remove { name: Seq<char>, games: nat },
    Delete(Seq<char>),
    Settings { page: Page, profile: Option<Seq<char>> },
    Pick { about: Option<Seq<char>>, choices: Seq<PickRowV> },
    Fixed(Screen),
}

impl View for ShellKey {
    type V = ShellKeyV;

    open spec fn view(&self) -> ShellKeyV {
        match self {
            ShellKey::Shelves { held, card, rows } => ShellKeyV::Shelves {
                held: *held,
                card: text_of(*card),
                rows: *rows as nat,
            },
            ShellKey::Wake { name, no_address } => ShellKeyV::Wake { name: name@, no_address: *no_address },
            ShellKey::Pairing { digits, status, busy } => ShellKeyV::Pairing {
                digits: digits@,
                status: text_of(*status),
                busy: *busy,
            },
            ShellKey::Forget(name) => ShellKeyV::Forget(name@),
            ShellKey::HostMenu { name, address, rows, power } => ShellKeyV::HostMenu {
                name: name@,
                address: address@,
                rows: *rows as nat,
                power: *power,
            },
            ShellKey::HostPower { name, auto, exit, access } => ShellKeyV::HostPower {
                name: name@,
                auto: *auto,
                exit: *exit,
                access: *access,
            },
            ShellKey::SpeedTest { name, phase, failure } => ShellKeyV::SpeedTest {
                name: name@,
                phase: *phase,
                failure: failure@,
            },
            ShellKey::Luminance { step, display, stalled } => ShellKeyV::Luminance {
                step: *step,
                display: *display,
                stalled: *stalled,
            },
            ShellKey::Remove { name, games } => ShellKeyV::Remove { name: name@, games: *games as nat },
            ShellKey::Delete(name) => ShellKeyV::Delete(name@),
            ShellKey::Settings { page, profile } => ShellKeyV::Settings { page: *page, profile: text_of(*profile) },
            ShellKey::Pick { about, choices } => ShellKeyV::Pick { about: text_of(*about), choices: views(choices@) },
            ShellKey::Fixed(screen) => ShellKeyV::Fixed(*screen),
        }
    }
}

pub open spec fn shell_key_of(k: Option<ShellKey>) -> Option<ShellKeyV> {
    match k {
        Some(k) => Some(k@),
        None => None,
    }
}

fn same_line(a: &Option<String>, b: &Option<String>) -> (r: bool)
    ensures
        r == (text_of(*a) == text_of(*b)),
{
    match (a, b) {
        (Some(x), Some(y)) => same_text(x.as_str(), y.as_str()),
        (None, None) => true,
        _ => false,
    }
}

fn same_digits(a: &[u8; 4], b: &[u8; 4]) -> (r: bool)
    ensures
        r == (a@ == b@),
{
    let same: bool = a[0] == b[0] && a[1] == b[1] && a[2] == b[2] && a[3] == b[3];
    proof {
        if same {
            assert(a@ =~= b@);
        }
    }
    same
}

fn same_choice(a: &PickRow, b: &PickRow) -> (r: bool)
    ensures
        r == (a@ == b@),
{
    same_line(&a.name, &b.name) && a.marked == b.marked
}

fn same_choices(a: &Vec<PickRow>, b: &Vec<PickRow>) -> (r: bool)
    ensures
        r == (views(a@) == views(b@)),
{
    if a.len() != b.len() {
        assert(views(a@).len() != views(b@).len());
        return false;
    }
    let mut i: usize = 0;
    while i < a.len()
        invariant
            i <= a.len(),
            a.len() == b.len(),
            forall|k: int| 0 <= k < i ==> views(a@)[k] == #[trigger] views(b@)[k],
        decreases a.len() - i,
    {
        assert(views(a@)[i as int] == a[i as int]@ && views(b@)[i as int] == b[i as int]@);
        if !same_choice(&a[i], &b[i]) {
            return false;
        }
        i = i + 1;
    }
    assert(views(a@) =~= views(b@));
    true
}

impl ShellKey {
    /// Whether two keys draw the same shell.
    pub fn same(&self, other: &ShellKey) -> (r: bool)
        ensures
            r == (self@ == other@),
    {
        match (self, other) {
            (ShellKey::Shelves { held: a, card: b, rows: c }, ShellKey::Shelves { held: x, card: y, rows: z }) => *a
                == *x && same_line(b, y) && *c == *z,
            (ShellKey::Wake { name: a, no_address: b }, ShellKey::Wake { name: x, no_address: y }) => same_text(
                a.as_str(),
                x.as_str(),
            ) && *b == *y,
            (
                ShellKey::Pairing { digits: a, status: b, busy: c },
                ShellKey::Pairing { digits: x, status: y, busy: z },
            ) => same_digits(a, x) && same_line(b, y) && *c == *z,
            (ShellKey::Forget(a), ShellKey::Forget(x)) => same_text(a.as_str(), x.as_str()),
            (
                ShellKey::HostMenu { name: a, address: b, rows: c, power: d },
                ShellKey::HostMenu { name: x, address: y, rows: z, power: w },
            ) => same_text(a.as_str(), x.as_str()) && same_text(b.as_str(), y.as_str()) && *c == *z && *d == *w,
            (
                ShellKey::HostPower { name: a, auto: b, exit: c, access: d },
                ShellKey::HostPower { name: x, auto: y, exit: z, access: w },
            ) => same_text(a.as_str(), x.as_str()) && *b == *y && *c == *z && *d == *w,
            (
                ShellKey::SpeedTest { name: a, phase: b, failure: c },
                ShellKey::SpeedTest { name: x, phase: y, failure: z },
            ) => same_text(a.as_str(), x.as_str()) && *b == *y && same_text(c.as_str(), z.as_str()),
            (
                ShellKey::Luminance { step: a, display: b, stalled: c },
                ShellKey::Luminance { step: x, display: y, stalled: z },
            ) => *a == *x && *b == *y && *c == *z,
            (ShellKey::Remove { name: a, games: b }, ShellKey::Remove { name: x, games: y }) => same_text(
                a.as_str(),
                x.as_str(),
            ) && *b == *y,
            (ShellKey::Delete(a), ShellKey::Delete(x)) => same_text(a.as_str(), x.as_str()),
            (ShellKey::Settings { page: a, profile: b }, ShellKey::Settings { page: x, profile: y }) => *a == *x
                && same_line(b, y),
            (ShellKey::Pick { about: a, choices: b }, ShellKey::Pick { about: x, choices: y }) => same_line(a, x)
                && same_choices(b, y),
            (ShellKey::Fixed(a), ShellKey::Fixed(x)) => *a == *x,
            _ => false,
        }
    }
}

/// What a shell was drawn from: what its card says, and whether the close mark that every card
/// wears was hovered.
pub struct Shell {
    pub hover_close: bool,
    pub key: ShellKey,
}

/// A [`Shell`] as a value.
pub struct ShellV {
    pub hover_close: bool,
    pub key: ShellKeyV,
}

impl View for Shell {
    type V = ShellV;

    open spec fn view(&self) -> ShellV {
        ShellV { hover_close: self.hover_close, key: self.key@ }
    }
}

pub open spec fn shell_of(s: Option<Shell>) -> Option<ShellV> {
    match s {
        Some(s) => Some(s@),
        None => None,
    }
}

impl Shell {
    /// Whether two shells look the same.
    pub fn same(&self, other: &Shell) -> (r: bool)
        ensures
            r == (self@ == other@),
    {
        self.hover_close == other.hover_close && self.key.same(&other.key)
    }
}

/// What the open card's focused widget is drawn from: which one it is, and its value.
pub enum FocusKey {
    Shelf { row: usize, name: String, holding: bool, button: Option<RowButton>, held: bool },
    Answer(Screen, usize),
    /// A speed test's answer names the bitrate it would write.
    Apply(usize, Option<u32>),
    Digit(usize, u8),
    RequestAccess,
    HostRow { row: usize, action: HostAction, paired: bool, button: Option<RowButton>, power: Option<ExitAction> },
    PowerRow { row: usize, auto: bool, exit: ExitAction, access: PowerAccess },
    Slider { row: usize, step: HdrStep, display: HdrDisplay, stalled: bool, button: Option<RowButton> },
    Setting {
        row: usize,
        page: Page,
        settings: Settings,
        overrides: Option<SettingsOverlay>,
        pad: Option<GamepadType>,
        level: LogLevelOverride,
        rooted: Option<bool>,
    },
    Choice { row: usize, choice: PickRow },
}

/// A [`FocusKey`] as a value.
pub enum FocusKeyV {
    Shelf { row: usize, name: Seq<char>, holding: bool, button: Option<RowButton>, held: bool },
    Answer(Screen, usize),
    Apply(usize, Option<u32>),
    Digit(usize, u8),
    RequestAccess,
    HostRow { row: usize, action: HostAction, paired: bool, button: Option<RowButton>, power: Option<ExitAction> },
    PowerRow { row: usize, auto: bool, exit: ExitAction, access: PowerAccess },
    Slider { row: usize, step: HdrStep, display: HdrDisplay, stalled: bool, button: Option<RowButton> },
    Setting {
        row: usize,
        page: Page,
        settings: Settings,
        overrides: Option<SettingsOverlay>,
        pad: Option<GamepadType>,
        level: LogLevelOverride,
        rooted: Option<bool>,
    },
    Choice { row: usize, choice: PickRowV },
}

impl View for FocusKey {
    type V = FocusKeyV;

    open spec fn view(&self) -> FocusKeyV {
        match self {
            FocusKey::Shelf { row, name, holding, button, held } => FocusKeyV::Shelf {
                row: *row,
                name: name@,
                holding: *holding,
                button: *button,
                held: *held,
            },
            FocusKey::Answer(screen, at) => FocusKeyV::Answer(*screen, *at),
            FocusKey::Apply(at, kbps) => FocusKeyV::Apply(*at, *kbps),
            FocusKey::Digit(at, digit) => FocusKeyV::Digit(*at, *digit),
            FocusKey::RequestAccess => FocusKeyV::RequestAccess,
            FocusKey::HostRow { row, action, paired, button, power } => FocusKeyV::HostRow {
                row: *row,
                action: *action,
                paired: *paired,
                button: *button,
                power: *power,
            },
            FocusKey::PowerRow { row, auto, exit, access } => FocusKeyV::PowerRow {
                row: *row,
                auto: *auto,
                exit: *exit,
                access: *access,
            },
            FocusKey::Slider { row, step, display, stalled, button } => FocusKeyV::Slider {
                row: *row,
                step: *step,
                display: *display,
                stalled: *stalled,
                button: *button,
            },
            FocusKey::Setting { row, page, settings, overrides, pad, level, rooted } => FocusKeyV::Setting {
                row: *row,
                page: *page,
                settings: *settings,
                overrides: *overrides,
                pad: *pad,
                level: *level,
                rooted: *rooted,
            },
            FocusKey::Choice { row, choice } => FocusKeyV::Choice { row: *row, choice: choice@ },
        }
    }
}

pub open spec fn focus_key_of(k: Option<FocusKey>) -> Option<FocusKeyV> {
    match k {
        Some(k) => Some(k@),
        None => None,
    }
}

impl FocusKey {
    /// Whether two keys draw the same widget.
    pub fn same(&self, other: &FocusKey) -> (r: bool)
        ensures
            r == (self@ == other@),
    {
        match (self, other) {
            (
                FocusKey::Shelf { row: a, name: b, holding: c, button: d, held: e },
                FocusKey::Shelf { row: v, name: w, holding: x, button: y, held: z },
            ) => *a == *v && same_text(b.as_str(), w.as_str()) && *c == *x && *d == *y && *e == *z,
            (FocusKey::Answer(a, b), FocusKey::Answer(x, y)) => *a == *x && *b == *y,
            (FocusKey::Apply(a, b), FocusKey::Apply(x, y)) => *a == *x && *b == *y,
            (FocusKey::Digit(a, b), FocusKey::Digit(x, y)) => *a == *x && *b == *y,
            (FocusKey::RequestAccess, FocusKey::RequestAccess) => true,
            (
                FocusKey::HostRow { row: a, action: b, paired: c, button: d, power: e },
                FocusKey::HostRow { row: v, action: w, paired: x, button: y, power: z },
            ) => *a == *v && *b == *w && *c == *x && *d == *y && *e == *z,
            (
                FocusKey::PowerRow { row: a, auto: b, exit: c, access: d },
                FocusKey::PowerRow { row: w, auto: x, exit: y, access: z },
            ) => *a == *w && *b == *x && *c == *y && *d == *z,
            (
                FocusKey::Slider { row: a, step: b, display: c, stalled: d, button: e },
                FocusKey::Slider { row: v, step: w, display: x, stalled: y, button: z },
            ) => *a == *v && *b == *w && *c == *x && *d == *y && *e == *z,
            (
                FocusKey::Setting { row: a, page: b, settings: c, overrides: d, pad: e, level: f, rooted: g },
                FocusKey::Setting { row: t, page: u, settings: v, overrides: w, pad: x, level: y, rooted: z },
            ) => *a == *t && *b == *u && *c == *v && *d == *w && *e == *x && *f == *y && *g == *z,
            (FocusKey::Choice { row: a, choice: b }, FocusKey::Choice { row: x, choice: y }) => *a == *x
                && same_choice(b, y),
            _ => false,
        }
    }
}

/// What a frame does with the focused widget's tile.
#[derive(Clone, Copy, PartialEq, Eq, Structural, Debug)]
pub enum FocusStep {
    /// There is no such widget: the tile goes.
    Drop,
    Keep,
    Redraw,
}

/// What a frame redraws of the open modal.
#[derive(Clone, Copy, PartialEq, Eq, Structural, Debug)]
pub struct ModalPlan {
    /// The shell waits until a switch has slid: the widget over it shows the new value meanwhile.
    pub defer: bool,
    pub redraw_shell: bool,
    pub focus: FocusStep,
}

/// What a frame does with the copy of a card that fades out.
#[derive(Clone, Copy, PartialEq, Eq, Structural, Debug)]
pub enum SnapshotStep {
    /// The fade is over: the copies go.
    Drop,
    Keep,
    /// The card just left is copied aside; `rows` where its body is a list that is drawn from its
    /// own rows.
    Take { rows: bool },
}

pub open spec fn test_phase(s: Option<SpeedV>) -> Option<TestPhase> {
    match s {
        Some(SpeedV::Connecting) => Some(TestPhase::Connecting),
        Some(SpeedV::Measuring { partial }) => Some(TestPhase::Measuring(partial)),
        Some(SpeedV::Done { outcome, confirmed }) => Some(TestPhase::Done(outcome, confirmed)),
        Some(SpeedV::Failed(_)) => Some(TestPhase::Failed),
        None => None,
    }
}

pub open spec fn test_failure(s: Option<SpeedV>) -> Seq<char> {
    match s {
        Some(SpeedV::Failed(e)) => e,
        _ => Seq::empty(),
    }
}

impl AppV {
    pub open spec fn shelves_shell(self) -> ShellKeyV {
        ShellKeyV::Shelves {
            held: self.screens.collections.target matches Some(id) && self.collection_of_card(id) is Some,
            card: if self.screens.collections.dragging is Some {
                None
            } else {
                Some(self.screens.collections.title)
            },
            rows: self.collections_row_count(),
        }
    }

    pub open spec fn remove_shell(self) -> Option<ShellKeyV> {
        match (self.screens.collections.removing, self.selected_known_host()) {
            (Some(at), Some(h)) => if at < h.collections.len() {
                Some(
                    ShellKeyV::Remove {
                        name: h.collections[at as int].name,
                        games: h.collections[at as int].games.len(),
                    },
                )
            } else {
                None
            },
            _ => None,
        }
    }

    /// The name of the profile in scope.
    pub open spec fn scope_name(self) -> Option<Seq<char>> {
        match self.scope_pos() {
            Some(i) => Some(self.profiles[i].name),
            None => None,
        }
    }

    /// What the open card's shell is drawn from; `None` on the text forms, whose one field is
    /// always being edited.
    pub open spec fn modal_shell_key(self) -> Option<ShellKeyV> {
        match self.nav.screen {
            Screen::Collections => Some(self.shelves_shell()),
            Screen::Wake => match self.screens.wake {
                Some(w) => Some(ShellKeyV::Wake { name: w.name, no_address: w.mac.len() == 0 }),
                None => None,
            },
            Screen::Pairing => Some(
                ShellKeyV::Pairing {
                    digits: self.screens.pin_digits,
                    status: self.screens.pairing_status,
                    busy: self.screens.pairing_busy,
                },
            ),
            Screen::ForgetHost => Some(ShellKeyV::Forget(self.dialog_host())),
            Screen::HostMenu => Some(
                ShellKeyV::HostMenu {
                    name: self.host_menu_title(),
                    address: self.host_menu_subtitle(),
                    rows: self.host_menu_actions().len(),
                    power: self.screens.host_menu_power,
                },
            ),
            Screen::HostPower => Some(
                ShellKeyV::HostPower {
                    name: self.dialog_host(),
                    auto: self.host_wol_auto(),
                    exit: self.host_power_exit_action(),
                    access: self.power_access(),
                },
            ),
            Screen::SpeedTest => Some(
                ShellKeyV::SpeedTest {
                    name: self.screens.speed_test_name,
                    phase: test_phase(self.screens.speed_test),
                    failure: test_failure(self.screens.speed_test),
                },
            ),
            Screen::HdrCalibration => match self.screens.hdr {
                Some(h) => Some(
                    ShellKeyV::Luminance {
                        step: h.step,
                        display: h.display,
                        stalled: !h.playing || h.seen_stalled,
                    },
                ),
                None => None,
            },
            Screen::RemoveCollection => self.remove_shell(),
            Screen::DeleteProfile => Some(
                ShellKeyV::Delete(
                    match self.scope_name() {
                        Some(name) => name,
                        None => Seq::empty(),
                    },
                ),
            ),
            Screen::SettingsPage => Some(
                ShellKeyV::Settings { page: self.screens.settings_page.page, profile: self.scope_name() },
            ),
            Screen::PickProfile => Some(
                ShellKeyV::Pick { about: self.pick_profile_subtitle(), choices: self.pick_profile_rows() },
            ),
            Screen::Home => None,
            Screen::AddHost => None,
            Screen::EditHost => None,
            Screen::RenameCollection => None,
            Screen::RenameProfile => None,
            screen => Some(ShellKeyV::Fixed(screen)),
        }
    }

    /// What the open card's shell is drawn from, with the hover of its close mark.
    pub open spec fn modal_shell(self) -> Option<ShellV> {
        match self.modal_shell_key() {
            Some(key) => Some(ShellV { hover_close: self.flags.contains(Flag::HoverClose), key }),
            None => None,
        }
    }

    pub open spec fn setting_focus(self) -> FocusKeyV {
        FocusKeyV::Setting {
            row: self.nav.cursor(Screen::SettingsPage),
            page: self.screens.settings_page.page,
            settings: self.settings,
            overrides: match self.scope_pos() {
                Some(i) => Some(self.profiles[i].overrides),
                None => None,
            },
            pad: self.detected_gamepad_type,
            level: self.log_level,
            rooted: self.hosts.rooted,
        }
    }

    pub open spec fn choice_focus(self) -> Option<FocusKeyV> {
        let row = self.nav.cursor(Screen::PickProfile);
        let rows = self.pick_profile_rows();
        if row < rows.len() {
            Some(FocusKeyV::Choice { row, choice: rows[row as int] })
        } else {
            None
        }
    }

    pub open spec fn shelf_focus(self) -> FocusKeyV {
        let row = self.nav.cursor(Screen::Collections);
        FocusKeyV::Shelf {
            row,
            name: match self.selected_known_host() {
                Some(h) => if row < h.collections.len() {
                    h.collections[row as int].name
                } else {
                    Seq::empty()
                },
                None => Seq::empty(),
            },
            holding: self.holds_target(row),
            button: self.screens.row_button,
            held: self.screens.collections.dragging is Some,
        }
    }

    pub open spec fn host_row_focus(self) -> Option<FocusKeyV> {
        let row = self.nav.cursor(Screen::HostMenu);
        let actions = self.host_menu_actions();
        if row < actions.len() {
            Some(
                FocusKeyV::HostRow {
                    row,
                    action: actions[row as int],
                    paired: self.host_menu_paired(),
                    button: self.screens.row_button,
                    power: self.screens.host_menu_power,
                },
            )
        } else {
            None
        }
    }

    /// Only once there are buttons to focus: a running test has nothing on its card but text.
    pub open spec fn apply_focus(self) -> Option<FocusKeyV> {
        match self.screens.speed_test {
            Some(s) => if s.finished() {
                Some(
                    FocusKeyV::Apply(
                        self.nav.cursor(Screen::SpeedTest),
                        match s.recommendation() {
                            Some(kbps) => Some(kbps as u32),
                            None => None,
                        },
                    ),
                )
            } else {
                None
            },
            None => None,
        }
    }

    /// What the open card's focused widget is drawn from; `None` where it has no single one.
    pub open spec fn modal_focus_key(self) -> Option<FocusKeyV> {
        match self.nav.screen {
            Screen::Collections => Some(self.shelf_focus()),
            Screen::Wake => match self.screens.wake {
                Some(w) => Some(FocusKeyV::Answer(Screen::Wake, w.focused)),
                None => None,
            },
            Screen::Pairing => Some(
                match self.screens.pairing_focus {
                    PairingFocus::Pin => FocusKeyV::Digit(
                        self.screens.pin_digit_index,
                        self.screens.pin_digits[self.screens.pin_digit_index as int],
                    ),
                    PairingFocus::RequestAccess => FocusKeyV::RequestAccess,
                },
            ),
            Screen::HostMenu => self.host_row_focus(),
            Screen::HostPower => Some(
                FocusKeyV::PowerRow {
                    row: self.nav.cursor(Screen::HostPower),
                    auto: self.host_wol_auto(),
                    exit: self.host_power_exit_action(),
                    access: self.power_access(),
                },
            ),
            Screen::SpeedTest => self.apply_focus(),
            Screen::HdrCalibration => match self.screens.hdr {
                Some(h) => Some(
                    FocusKeyV::Slider {
                        row: self.nav.cursor(Screen::HdrCalibration),
                        step: h.step,
                        display: h.display,
                        stalled: !h.playing || h.seen_stalled,
                        button: self.screens.row_button,
                    },
                ),
                None => None,
            },
            Screen::SettingsPage => Some(self.setting_focus()),
            Screen::PickProfile => self.choice_focus(),
            Screen::Home => None,
            Screen::AddHost => None,
            Screen::EditHost => None,
            Screen::RenameCollection => None,
            Screen::RenameProfile => None,
            Screen::About => None,
            screen => Some(FocusKeyV::Answer(screen, self.nav.cursor(screen))),
        }
    }

    /// Whether the shell's redraw waits for a switch that is sliding.
    pub open spec fn defers_shell(self, has_shell: bool, screen_changed: bool) -> bool {
        self.switch_anim is Some && has_shell && !screen_changed
    }

    /// Whether the shell that is there says something else than the card does now.
    pub open spec fn shell_stale(self, drawn: Option<ShellV>, has_shell: bool, content_dirty: bool) -> bool {
        match self.modal_shell() {
            Some(k) => !has_shell || drawn != Some(k),
            None => content_dirty || !has_shell,
        }
    }

    pub open spec fn focus_step(self, drawn: Option<FocusKeyV>) -> FocusStep {
        match self.modal_focus_key() {
            Some(k) => if self.switch_anim is Some || drawn != Some(k) {
                FocusStep::Redraw
            } else {
                FocusStep::Keep
            },
            None => FocusStep::Drop,
        }
    }

    /// What a frame redraws of the open modal.
    pub open spec fn modal_plan(
        self,
        shell: Option<ShellV>,
        focus: Option<FocusKeyV>,
        has_shell: bool,
        content_dirty: bool,
        screen_changed: bool,
    ) -> ModalPlan {
        let defer = self.defers_shell(has_shell, screen_changed);
        ModalPlan {
            defer,
            redraw_shell: self.nav.screen != Screen::Home && !defer && (screen_changed || self.shell_stale(
                shell,
                has_shell,
                content_dirty,
            )),
            focus: self.focus_step(focus),
        }
    }
}

/// The lists that scroll, and are drawn from rows of their own.
pub open spec fn scrolls_rows(screen: Screen) -> bool {
    screen == Screen::SettingsPage || screen == Screen::Collections
}

pub fn is_scroll_list(screen: Screen) -> (r: bool)
    ensures
        r == scrolls_rows(screen),
{
    match screen {
        Screen::SettingsPage => true,
        Screen::Collections => true,
        _ => false,
    }
}

/// What a frame does with the copy of a card that fades out. It is taken on the frame on which the
/// fade starts, from what was on screen in the last one.
pub open spec fn snapshot_step(
    closing: Option<Screen>,
    had_copy: bool,
    screen_changed: bool,
    has_shell: bool,
) -> SnapshotStep {
    match closing {
        None => if had_copy {
            SnapshotStep::Drop
        } else {
            SnapshotStep::Keep
        },
        Some(left) => if screen_changed && has_shell {
            SnapshotStep::Take { rows: scrolls_rows(left) }
        } else {
            SnapshotStep::Keep
        },
    }
}

/// Decides what a frame does with the copy of a card that fades out.
pub fn snapshot_closing_modal(
    closing: Option<Screen>,
    had_copy: bool,
    screen_changed: bool,
    has_shell: bool,
) -> (r: SnapshotStep)
    ensures
        r == snapshot_step(closing, had_copy, screen_changed, has_shell),
{
    match closing {
        None => if had_copy {
            SnapshotStep::Drop
        } else {
            SnapshotStep::Keep
        },
        Some(left) => if screen_changed && has_shell {
            SnapshotStep::Take { rows: is_scroll_list(left) }
        } else {
            SnapshotStep::Keep
        },
    }
}

/// A shell reads the hosts, the profiles and what its screen holds; which row, button or answer has
/// focus is nothing to it.
proof fn lemma_shell_reads(a: AppV, b: AppV)
    requires
        a.nav.screen == b.nav.screen,
        a.hosts == b.hosts,
        a.library == b.library,
        a.profiles == b.profiles,
        a.jobs == b.jobs,
        b.screens == (ScreensV { row_button: b.screens.row_button, wake: b.screens.wake, ..a.screens }),
        match (a.screens.wake, b.screens.wake) {
            (Some(v), Some(w)) => v.name == w.name && v.mac == w.mac,
            (None, None) => true,
            _ => false,
        },
    ensures
        a.modal_shell_key() == b.modal_shell_key(),
{
    assert(a.selected_known_host() == b.selected_known_host());
    match a.nav.screen {
        Screen::PickProfile => {
            assert(a.pick_profile_rows() == b.pick_profile_rows());
            assert(a.pick_profile_subtitle() == b.pick_profile_subtitle());
        },
        Screen::Collections => {
            assert(a.shelves_shell() == b.shelves_shell());
        },
        Screen::HostMenu => {
            assert(a.host_menu_entry() == b.host_menu_entry());
            assert(a.host_menu_actions() == b.host_menu_actions());
        },
        Screen::HostPower => {
            assert(a.host_menu_entry() == b.host_menu_entry());
        },
        _ => {},
    }
}

/// Moving focus redraws no shell: not along a list, not between a row and its buttons, not between
/// a dialog's answers.
pub proof fn law_focus_moves_keep_the_shell(app: AppV, at: usize, button: Option<RowButton>)
    ensures
        app.with_row(at).with_button(button).modal_shell() == app.modal_shell(),
        app.with_confirm_focused(at).modal_shell() == app.modal_shell(),
{
    lemma_shell_reads(app, app.with_row(at).with_button(button));
    lemma_shell_reads(app, app.with_confirm_focused(at));
}

/// Every card that has a key of its own is redrawn when the pointer comes onto its close mark, and
/// when it leaves it.
pub proof fn law_close_hover_redraws(app: AppV, on: bool, focus: Option<FocusKeyV>)
    requires
        app.nav.screen != Screen::Home,
        app.switch_anim is None,
        app.modal_shell_key() is Some,
        on != app.flags.contains(Flag::HoverClose),
    ensures
        app.with_hover_close(on).modal_plan(app.modal_shell(), focus, true, false, false).redraw_shell,
{
    let hovered = app.with_hover_close(on);
    assert(hovered.flags.contains(Flag::HoverClose) == on);
    lemma_shell_reads(app, hovered);
}

/// A changed value redraws its row as a move of focus does.
pub proof fn law_changed_setting_redraws_its_row(app: AppV, settings: Settings)
    requires
        app.nav.screen == Screen::SettingsPage,
        settings != app.settings,
    ensures
        app.with_settings(settings).focus_step(app.modal_focus_key()) == FocusStep::Redraw,
{
}

/// A switch that slides is redrawn on every tick and its shell on none; once it has slid, a stale
/// shell is redrawn.
pub proof fn law_switch_defers_the_shell(
    app: AppV,
    shell: Option<ShellV>,
    focus: Option<FocusKeyV>,
    content_dirty: bool,
)
    ensures
        app.switch_anim is Some ==> {
            &&& !app.modal_plan(shell, focus, true, content_dirty, false).redraw_shell
            &&& app.modal_plan(shell, focus, true, content_dirty, false).focus != FocusStep::Keep
        },
        app.switch_anim is None && app.nav.screen != Screen::Home && app.modal_shell() is Some && shell
            != app.modal_shell() ==> app.modal_plan(shell, focus, true, content_dirty, false).redraw_shell,
{
}

/// A modal that has just come up is always drawn.
pub proof fn law_entered_modal_is_drawn(app: AppV, shell: Option<ShellV>, focus: Option<FocusKeyV>, has: bool, d: bool)
    requires
        app.nav.screen != Screen::Home,
    ensures
        app.modal_plan(shell, focus, has, d, true).redraw_shell,
        app.modal_plan(shell, focus, false, d, false).redraw_shell,
{
}

/// Which rows of a list are to be drawn anew: those whose drawn version is not the wanted one, up
/// to the number of slots.
pub open spec fn stale_rows(drawn: Seq<Option<u64>>, wanted: Seq<u64>, n: int) -> Seq<usize>
    decreases n,
{
    if n <= 0 {
        Seq::empty()
    } else {
        let before = stale_rows(drawn, wanted, n - 1);
        if n - 1 < drawn.len() && drawn[n - 1] != Some(wanted[n - 1]) {
            before.push((n - 1) as usize)
        } else {
            before
        }
    }
}

/// Which drawn rows are past the end of the list.
pub open spec fn spare_rows(drawn: Seq<Option<u64>>, from: int, n: int) -> Seq<usize>
    decreases n,
{
    if n <= 0 {
        Seq::empty()
    } else {
        let before = spare_rows(drawn, from, n - 1);
        if n - 1 >= from && drawn[n - 1] is Some {
            before.push((n - 1) as usize)
        } else {
            before
        }
    }
}

/// The rows of a list to draw anew. `drawn` has one entry per slot, `None` where nothing is drawn;
/// `wanted` one version per row. Rows past the last slot are not drawn.
pub fn rows_to_draw(drawn: &Vec<Option<u64>>, wanted: &Vec<u64>) -> (r: Vec<usize>)
    ensures
        r@ == stale_rows(drawn@, wanted@, wanted.len() as int),
{
    let mut out: Vec<usize> = Vec::new();
    let mut i: usize = 0;
    while i < wanted.len()
        invariant
            i <= wanted.len(),
            out@ == stale_rows(drawn@, wanted@, i as int),
        decreases wanted.len() - i,
    {
        if i < drawn.len() {
            let fresh: bool = match drawn[i] {
                Some(v) => v == wanted[i],
                None => false,
            };
            if !fresh {
                out.push(i);
            }
        }
        i = i + 1;
    }
    out
}

/// The drawn rows to let go, from `first` on: the tail of a list that got shorter, or all of them
/// once the list is left.
pub fn rows_to_drop(drawn: &Vec<Option<u64>>, first: usize) -> (r: Vec<usize>)
    ensures
        r@ == spare_rows(drawn@, first as int, drawn.len() as int),
{
    let mut out: Vec<usize> = Vec::new();
    let mut i: usize = 0;
    while i < drawn.len()
        invariant
            i <= drawn.len(),
            out@ == spare_rows(drawn@, first as int, i as int),
        decreases drawn.len() - i,
    {
        if i >= first && drawn[i].is_some() {
            out.push(i);
        }
        i = i + 1;
    }
    out
}

/// The rows named are just the stale ones, so that drawing them leaves every row as wanted; and a
/// list that has not changed draws none.
pub proof fn law_only_stale_rows_are_drawn(drawn: Seq<Option<u64>>, wanted: Seq<u64>, n: int)
    requires
        0 <= n <= wanted.len() <= usize::MAX,
    ensures
        forall|i: usize|
            stale_rows(drawn, wanted, n).contains(i) <==> i < n && i < drawn.len() && drawn[i as int] != Some(
                wanted[i as int],
            ),
    decreases n,
{
    if n > 0 {
        law_only_stale_rows_are_drawn(drawn, wanted, n - 1);
        let before = stale_rows(drawn, wanted, n - 1);
        let all = stale_rows(drawn, wanted, n);
        assert forall|i: usize|
            all.contains(i) <==> i < n && i < drawn.len() && drawn[i as int] != Some(wanted[i as int]) by {
            if before.contains(i) {
                let k = choose|k: int| 0 <= k < before.len() && before[k] == i;
                assert(all[k] == i);
            }
            if all.len() > before.len() {
                assert(all[before.len() as int] == (n - 1) as usize);
            }
        }
    }
}

/// The part of a long content that is drawn: its first line or row, and how many follow.
#[derive(Clone, Copy, PartialEq, Eq, Structural, Debug)]
pub struct ContentWindow {
    pub start: usize,
    pub len: usize,
}

/// What the indicator beside a scrolling content is drawn from.
#[derive(Clone, Copy, PartialEq, Eq, Structural, Debug)]
pub struct IndicatorKey {
    pub screen: Screen,
    /// How many rows or lines there are, how many show, and which is the first.
    pub total: usize,
    pub visible: usize,
    pub scroll: usize,
    pub height: u32,
}

/// The open screen's scrolling content, and what is drawn of it.
pub struct ScrollContext {
    /// How many rows or lines there are, how many show, the first that does, and the height in
    /// pixels; `None` where nothing scrolls.
    pub content: Option<(usize, usize, usize, u32)>,
    /// What the indicator was drawn from.
    pub indicator: Option<IndicatorKey>,
    /// The version each row slot was drawn at.
    pub drawn: Vec<Option<u64>>,
    /// The version of each row.
    pub wanted: Vec<u64>,
    /// The version of the rows together, and the one they were drawn at last.
    pub rows_version: u64,
    pub drawn_version: Option<u64>,
    pub window: ContentWindow,
    /// Where the document's window should start, once the scroll comes too near its edge.
    pub recentre: Option<usize>,
    /// How many lines of the document are drawn at once.
    pub budget: usize,
}

/// A [`ScrollContext`] as a value.
pub struct ScrollContextV {
    pub content: Option<(usize, usize, usize, u32)>,
    pub indicator: Option<IndicatorKey>,
    pub drawn: Seq<Option<u64>>,
    pub wanted: Seq<u64>,
    pub rows_version: u64,
    pub drawn_version: Option<u64>,
    pub window: ContentWindow,
    pub recentre: Option<usize>,
    pub budget: usize,
}

impl View for ScrollContext {
    type V = ScrollContextV;

    open spec fn view(&self) -> ScrollContextV {
        ScrollContextV {
            content: self.content,
            indicator: self.indicator,
            drawn: self.drawn@,
            wanted: self.wanted@,
            rows_version: self.rows_version,
            drawn_version: self.drawn_version,
            window: self.window,
            recentre: self.recentre,
            budget: self.budget,
        }
    }
}

/// What a frame draws and lets go of the scrolling content.
pub struct ScrollPlan {
    /// What the indicator is drawn from, where it is drawn anew.
    pub indicator: Option<IndicatorKey>,
    /// The rows to draw, and the slots to let go.
    pub draw: Vec<usize>,
    pub drop: Vec<usize>,
    /// The version the rows are drawn at afterwards.
    pub drawn_version: Option<u64>,
    pub window: ContentWindow,
    /// The document's window is drawn anew.
    pub redraw_window: bool,
}

/// A [`ScrollPlan`] as a value.
pub struct ScrollPlanV {
    pub indicator: Option<IndicatorKey>,
    pub draw: Seq<usize>,
    pub drop: Seq<usize>,
    pub drawn_version: Option<u64>,
    pub window: ContentWindow,
    pub redraw_window: bool,
}

impl View for ScrollPlan {
    type V = ScrollPlanV;

    open spec fn view(&self) -> ScrollPlanV {
        ScrollPlanV {
            indicator: self.indicator,
            draw: self.draw@,
            drop: self.drop@,
            drawn_version: self.drawn_version,
            window: self.window,
            redraw_window: self.redraw_window,
        }
    }
}

/// Whether the first `n` rows all have a slot and are drawn.
pub open spec fn rows_drawn(drawn: Seq<Option<u64>>, n: nat) -> bool {
    n <= drawn.len() && forall|i: int| 0 <= i < n ==> (#[trigger] drawn[i]) is Some
}

/// The window of a document of `total` lines from `start` on: no more than the budget, and no more
/// than there is.
pub open spec fn window_at(start: usize, total: usize, budget: usize) -> ContentWindow {
    let rest = if total > start {
        (total - start) as usize
    } else {
        0
    };
    ContentWindow {
        start,
        len: if budget < rest {
            budget
        } else {
            rest
        },
    }
}

impl ScrollContextV {
    /// Whether the rows are drawn as they are: at the same version together, and none missing.
    pub open spec fn rows_current(self) -> bool {
        self.drawn_version == Some(self.rows_version) && rows_drawn(self.drawn, self.wanted.len())
    }

    /// Nothing drawn, nothing let go.
    pub open spec fn idle(self) -> ScrollPlanV {
        ScrollPlanV {
            indicator: None,
            draw: Seq::empty(),
            drop: Seq::empty(),
            drawn_version: self.drawn_version,
            window: self.window,
            redraw_window: false,
        }
    }

    /// The indicator's key on a screen.
    pub open spec fn wanted_indicator(self, screen: Screen) -> Option<IndicatorKey> {
        match self.content {
            Some((total, visible, scroll, height)) => Some(IndicatorKey { screen, total, visible, scroll, height }),
            None => None,
        }
    }

    /// The plan for a screen. The rows of a list that is left are let go, all of them. On a list the
    /// stale rows are drawn and the spare ones let go, unless the rows are drawn as they are; every
    /// row is in the window. On the document a window that has to move is drawn anew.
    pub open spec fn plan(self, screen: Screen, copy_holds_rows: bool) -> ScrollPlanV {
        let left = if copy_holds_rows || over_list(screen) {
            self.idle()
        } else {
            ScrollPlanV { drop: spare_rows(self.drawn, 0, self.drawn.len() as int), ..self.idle() }
        };
        match self.content {
            None => left,
            Some((total, _, _, _)) => {
                let shown = ScrollPlanV {
                    indicator: if self.indicator == self.wanted_indicator(screen) {
                        None
                    } else {
                        self.wanted_indicator(screen)
                    },
                    ..left
                };
                if scrolls_rows(screen) {
                    let windowed = ScrollPlanV {
                        window: ContentWindow { start: 0, len: self.wanted.len() as usize },
                        ..shown
                    };
                    if self.rows_current() {
                        windowed
                    } else {
                        ScrollPlanV {
                            draw: stale_rows(self.drawn, self.wanted, self.wanted.len() as int),
                            drop: spare_rows(self.drawn, self.wanted.len() as int, self.drawn.len() as int),
                            drawn_version: Some(self.rows_version),
                            ..windowed
                        }
                    }
                } else if screen == Screen::About {
                    match self.recentre {
                        Some(start) => ScrollPlanV {
                            window: window_at(start, total, self.budget),
                            redraw_window: true,
                            ..shown
                        },
                        None => shown,
                    }
                } else {
                    shown
                }
            },
        }
    }
}

/// Rows that are drawn as they are cost nothing: on an unchanged version no row is drawn and none is
/// let go.
pub proof fn law_unchanged_rows_are_kept(c: ScrollContextV, screen: Screen, copy_holds_rows: bool)
    requires
        c.rows_current(),
        scrolls_rows(screen),
    ensures
        c.plan(screen, copy_holds_rows).draw.len() == 0,
        c.plan(screen, copy_holds_rows).drop.len() == 0,
        c.plan(screen, copy_holds_rows).drawn_version == c.drawn_version,
{
}

/// The document's window never reaches past its end nor over the budget, whatever line it starts at.
pub proof fn law_window_stays_in_the_document(start: usize, total: usize, budget: usize)
    ensures
        window_at(start, total, budget).len <= budget,
        start <= total ==> window_at(start, total, budget).start + window_at(start, total, budget).len <= total,
        start + budget <= total ==> window_at(start, total, budget).len == budget,
        start >= total ==> window_at(start, total, budget).len == 0,
{
}

/// A list that is left behind keeps no drawn row, unless a copy of it is still fading out.
pub proof fn law_left_list_is_let_go(c: ScrollContextV, screen: Screen, i: int)
    requires
        !over_list(screen),
        0 <= i < c.drawn.len() <= usize::MAX,
        c.drawn[i] is Some,
    ensures
        c.plan(screen, false).drop.contains(i as usize),
        c.plan(screen, true).drop.len() == 0,
{
    lemma_spare_rows(c.drawn, 0, c.drawn.len() as int, i);
}

proof fn lemma_spare_rows(drawn: Seq<Option<u64>>, from: int, n: int, i: int)
    requires
        0 <= n <= drawn.len() <= usize::MAX,
        from <= i,
        0 <= i < n,
        drawn[i] is Some,
    ensures
        spare_rows(drawn, from, n).contains(i as usize),
    decreases n,
{
    let all = spare_rows(drawn, from, n);
    if i == n - 1 {
        assert(all.last() == i as usize);
    } else {
        lemma_spare_rows(drawn, from, n - 1, i);
        let before = spare_rows(drawn, from, n - 1);
        let k = choose|k: int| 0 <= k < before.len() && before[k] == i as usize;
        assert(all[k] == i as usize);
    }
}

fn all_rows_drawn(drawn: &Vec<Option<u64>>, n: usize) -> (r: bool)
    ensures
        r == rows_drawn(drawn@, n as nat),
{
    if n > drawn.len() {
        return false;
    }
    let mut i: usize = 0;
    while i < n
        invariant
            i <= n <= drawn.len(),
            forall|k: int| 0 <= k < i ==> (#[trigger] drawn@[k]) is Some,
        decreases n - i,
    {
        if drawn[i].is_none() {
            assert(drawn@[i as int] is None);
            return false;
        }
        i = i + 1;
    }
    true
}

impl ScrollContext {
    /// Whether the rows are drawn as they are.
    pub fn rows_current(&self) -> (r: bool)
        ensures
            r == self@.rows_current(),
    {
        let same: bool = match self.drawn_version {
            Some(v) => v == self.rows_version,
            None => false,
        };
        same && all_rows_drawn(&self.drawn, self.wanted.len())
    }

    /// What a frame draws and lets go of the scrolling content; `copy_holds_rows` says that a copy of
    /// a list is still fading out.
    pub fn plan(&self, screen: Screen, copy_holds_rows: bool) -> (r: ScrollPlan)
        ensures
            r@ == self@.plan(screen, copy_holds_rows),
    {
        let mut r = ScrollPlan {
            indicator: None,
            draw: Vec::new(),
            drop: Vec::new(),
            drawn_version: self.drawn_version,
            window: self.window,
            redraw_window: false,
        };
        if !keeps_list_rows(screen, copy_holds_rows) {
            r.drop = rows_to_drop(&self.drawn, 0);
        }
        let (total, visible, scroll, height): (usize, usize, usize, u32) = match self.content {
            Some(content) => content,
            None => {
                return r;
            },
        };
        let key = IndicatorKey { screen, total, visible, scroll, height };
        let stands: bool = match self.indicator {
            Some(was) => was == key,
            None => false,
        };
        if !stands {
            r.indicator = Some(key);
        }
        if is_scroll_list(screen) {
            r.window = ContentWindow { start: 0, len: self.wanted.len() };
            if !self.rows_current() {
                r.draw = rows_to_draw(&self.drawn, &self.wanted);
                r.drop = rows_to_drop(&self.drawn, self.wanted.len());
                r.drawn_version = Some(self.rows_version);
            }
        } else if screen == Screen::About {
            match self.recentre {
                Some(start) => {
                    let rest: usize = if total > start {
                        total - start
                    } else {
                        0
                    };
                    let len: usize = if self.budget < rest {
                        self.budget
                    } else {
                        rest
                    };
                    r.window = ContentWindow { start, len };
                    r.redraw_window = true;
                },
                None => {},
            }
        }
        r
    }
}

/// Whether a list's drawn rows are kept behind what is on screen: on the list itself, on a screen
/// that returns to it, and while a copy of it fades out.
pub fn keeps_list_rows(screen: Screen, copy_holds_rows: bool) -> (r: bool)
    ensures
        r == (copy_holds_rows || over_list(screen)),
{
    copy_holds_rows || match screen {
        Screen::Collections => true,
        Screen::RenameCollection => true,
        Screen::RemoveCollection => true,
        Screen::SettingsPage => true,
        Screen::RenameProfile => true,
        Screen::DeleteProfile => true,
        Screen::HdrCalibration => true,
        Screen::ResetHdrCalibration => true,
        Screen::About => true,
        _ => false,
    }
}

/// The scrolling lists, and the screens that return to one.
pub open spec fn over_list(screen: Screen) -> bool {
    match screen {
        Screen::Collections => true,
        Screen::RenameCollection => true,
        Screen::RemoveCollection => true,
        Screen::SettingsPage => true,
        Screen::RenameProfile => true,
        Screen::DeleteProfile => true,
        Screen::HdrCalibration => true,
        Screen::ResetHdrCalibration => true,
        Screen::About => true,
        _ => false,
    }
}

impl App {
    fn shelves_shell(&self) -> (r: ShellKey)
        requires
            self@.shelves() < usize::MAX,
        ensures
            r@ == self@.shelves_shell(),
    {
        let card: Option<String> = match self.collections_heading() {
            Some(t) => Some(t.to_owned()),
            None => None,
        };
        ShellKey::Shelves { held: self.collections_target_held(), card, rows: self.collections_row_count() }
    }

    fn speed_shell(&self) -> (r: ShellKey)
        ensures
            r@ == (ShellKeyV::SpeedTest {
                name: self@.screens.speed_test_name,
                phase: test_phase(self@.screens.speed_test),
                failure: test_failure(self@.screens.speed_test),
            }),
    {
        let none = String::new();
        assert(none@ =~= Seq::empty());
        let (phase, failure): (Option<TestPhase>, String) = match &self.screens.speed_test {
            Some(SpeedTestState::Connecting) => (Some(TestPhase::Connecting), none),
            Some(SpeedTestState::Measuring { partial }) => (Some(TestPhase::Measuring(*partial)), none),
            Some(SpeedTestState::Done { outcome, confirmed }) => (
                Some(TestPhase::Done(*outcome, *confirmed)),
                none,
            ),
            Some(SpeedTestState::Failed(e)) => (Some(TestPhase::Failed), e.clone()),
            None => (None, none),
        };
        ShellKey::SpeedTest { name: self.screens.speed_test_name.clone(), phase, failure }
    }

    fn dialog_name(&self) -> (r: String)
        ensures
            r@ == self@.dialog_host(),
    {
        match self.host_menu_host_name() {
            Some(name) => name,
            None => {
                let none = String::new();
                assert(none@ =~= Seq::empty());
                none
            },
        }
    }

    fn scope_name(&self) -> (r: Option<String>)
        ensures
            text_of(r) == self@.scope_name(),
    {
        match self.scope_profile() {
            Some(i) => Some(self.profiles[i].name.clone()),
            None => None,
        }
    }

    /// What the open card's shell is drawn from.
    pub fn modal_shell_key(&self) -> (r: Option<ShellKey>)
        requires
            self@.shelves() < usize::MAX,
        ensures
            shell_key_of(r) == self@.modal_shell_key(),
    {
        match self.nav.screen {
            Screen::Collections => Some(self.shelves_shell()),
            Screen::Wake => match &self.screens.wake {
                Some(w) => {
                    assert(w@.mac.len() == w.mac.len());
                    Some(ShellKey::Wake { name: w.name.clone(), no_address: w.mac.len() == 0 })
                },
                None => None,
            },
            Screen::Pairing => {
                let status: Option<String> = match &self.screens.pairing_status {
                    Some(s) => Some(s.clone()),
                    None => None,
                };
                Some(
                    ShellKey::Pairing { digits: self.screens.pin_digits, status, busy: self.screens.pairing_busy },
                )
            },
            Screen::ForgetHost => Some(ShellKey::Forget(self.dialog_name())),
            Screen::HostMenu => Some(
                ShellKey::HostMenu {
                    name: self.host_menu_title(),
                    address: self.host_menu_subtitle(),
                    rows: self.host_menu_actions().len(),
                    power: self.screens.host_menu_power,
                },
            ),
            Screen::HostPower => {
                let (auto, exit, access) = self.host_power_view();
                Some(ShellKey::HostPower { name: self.dialog_name(), auto, exit, access })
            },
            Screen::SpeedTest => Some(self.speed_shell()),
            Screen::HdrCalibration => match self.screens.hdr {
                Some(h) => Some(
                    ShellKey::Luminance {
                        step: h.step,
                        display: h.display,
                        stalled: !h.playing || h.seen_stalled,
                    },
                ),
                None => None,
            },
            Screen::RemoveCollection => match self.removed_collection() {
                Some((name, games)) => Some(ShellKey::Remove { name, games }),
                None => None,
            },
            Screen::DeleteProfile => {
                let none = String::new();
                assert(none@ =~= Seq::empty());
                let name: String = match self.scope_name() {
                    Some(name) => name,
                    None => none,
                };
                Some(ShellKey::Delete(name))
            },
            Screen::SettingsPage => Some(
                ShellKey::Settings { page: self.screens.settings_page.page, profile: self.scope_name() },
            ),
            Screen::PickProfile => Some(
                ShellKey::Pick { about: self.pick_profile_subtitle(), choices: self.pick_profile_rows() },
            ),
            Screen::Home => None,
            Screen::AddHost => None,
            Screen::EditHost => None,
            Screen::RenameCollection => None,
            Screen::RenameProfile => None,
            screen => Some(ShellKey::Fixed(screen)),
        }
    }

    /// What the open card's shell is drawn from, with the hover of its close mark.
    pub fn modal_shell(&self) -> (r: Option<Shell>)
        requires
            self@.shelves() < usize::MAX,
        ensures
            shell_of(r) == self@.modal_shell(),
    {
        match self.modal_shell_key() {
            Some(key) => Some(Shell { hover_close: self.flags.has(Flag::HoverClose), key }),
            None => None,
        }
    }

    fn setting_focus(&self) -> (r: FocusKey)
        ensures
            r@ == self@.setting_focus(),
    {
        let overrides: Option<SettingsOverlay> = match self.scope_profile() {
            Some(i) => Some(self.profiles[i].overrides),
            None => None,
        };
        FocusKey::Setting {
            row: self.nav.cursor(Screen::SettingsPage),
            page: self.screens.settings_page.page,
            settings: self.settings,
            overrides,
            pad: self.detected_gamepad_type,
            level: self.log_level,
            rooted: self.hosts.rooted,
        }
    }

    fn choice_focus(&self) -> (r: Option<FocusKey>)
        ensures
            focus_key_of(r) == self@.choice_focus(),
    {
        let row: usize = self.nav.cursor(Screen::PickProfile);
        let mut rows = self.pick_profile_rows();
        if row < rows.len() {
            assert(views(rows@)[row as int] == rows@[row as int]@);
            Some(FocusKey::Choice { row, choice: rows.swap_remove(row) })
        } else {
            None
        }
    }

    fn shelf_focus(&self) -> (r: FocusKey)
        ensures
            r@ == self@.shelf_focus(),
    {
        let row: usize = self.nav.cursor(Screen::Collections);
        let blank = String::new();
        assert(blank@ =~= Seq::empty());
        let (name, holding): (String, bool) = match self.selected_known_host() {
            Some(i) => {
                let h = &self.hosts.known[i];
                assert(self@.hosts.known[i as int] == h@);
                let name: String = if row < h.collections.len() {
                    assert(h@.collections[row as int] == h.collections@[row as int]@);
                    h.collections[row].name.clone()
                } else {
                    blank
                };
                let holding: bool = match &self.screens.collections.target {
                    Some(id) => match h.collection_of(id.as_str()) {
                        Some(c) => c == row,
                        None => match h.library_index() {
                            Some(c) => c == row,
                            None => false,
                        },
                    },
                    None => false,
                };
                (name, holding)
            },
            None => (blank, false),
        };
        FocusKey::Shelf {
            row,
            name,
            holding,
            button: self.screens.row_button,
            held: self.screens.collections.dragging.is_some(),
        }
    }

    fn host_row_focus(&self) -> (r: Option<FocusKey>)
        ensures
            focus_key_of(r) == self@.host_row_focus(),
    {
        let row: usize = self.nav.cursor(Screen::HostMenu);
        let actions = self.host_menu_actions();
        if row < actions.len() {
            Some(
                FocusKey::HostRow {
                    row,
                    action: actions[row],
                    paired: self.host_menu_paired(),
                    button: self.screens.row_button,
                    power: self.screens.host_menu_power,
                },
            )
        } else {
            None
        }
    }

    fn apply_focus(&self) -> (r: Option<FocusKey>)
        ensures
            focus_key_of(r) == self@.apply_focus(),
    {
        let at: usize = self.nav.cursor(Screen::SpeedTest);
        match &self.screens.speed_test {
            Some(SpeedTestState::Done { outcome, .. }) => Some(
                FocusKey::Apply(at, crate::speedtest::recommended_kbps(outcome)),
            ),
            Some(SpeedTestState::Failed(_)) => Some(FocusKey::Apply(at, None)),
            _ => None,
        }
    }

    /// What the open card's focused widget is drawn from.
    pub fn modal_focus_key(&self) -> (r: Option<FocusKey>)
        requires
            self.screens.pin_digit_index < 4,
        ensures
            focus_key_of(r) == self@.modal_focus_key(),
    {
        match self.nav.screen {
            Screen::Collections => Some(self.shelf_focus()),
            Screen::Wake => match &self.screens.wake {
                Some(w) => Some(FocusKey::Answer(Screen::Wake, w.focused)),
                None => None,
            },
            Screen::Pairing => match self.screens.pairing_focus {
                PairingFocus::Pin => {
                    let at: usize = self.screens.pin_digit_index;
                    Some(FocusKey::Digit(at, self.screens.pin_digits[at]))
                },
                PairingFocus::RequestAccess => Some(FocusKey::RequestAccess),
            },
            Screen::HostMenu => self.host_row_focus(),
            Screen::HostPower => {
                let (auto, exit, access) = self.host_power_view();
                Some(FocusKey::PowerRow { row: self.nav.cursor(Screen::HostPower), auto, exit, access })
            },
            Screen::SpeedTest => self.apply_focus(),
            Screen::HdrCalibration => match self.screens.hdr {
                Some(h) => Some(
                    FocusKey::Slider {
                        row: self.nav.cursor(Screen::HdrCalibration),
                        step: h.step,
                        display: h.display,
                        stalled: !h.playing || h.seen_stalled,
                        button: self.screens.row_button,
                    },
                ),
                None => None,
            },
            Screen::SettingsPage => Some(self.setting_focus()),
            Screen::PickProfile => self.choice_focus(),
            Screen::Home => None,
            Screen::AddHost => None,
            Screen::EditHost => None,
            Screen::RenameCollection => None,
            Screen::RenameProfile => None,
            Screen::About => None,
            screen => Some(FocusKey::Answer(screen, self.nav.cursor(screen))),
        }
    }

    fn shell_stale(&self, drawn: &Option<Shell>, has_shell: bool, content_dirty: bool) -> (r: bool)
        requires
            self@.shelves() < usize::MAX,
        ensures
            r == self@.shell_stale(shell_of(*drawn), has_shell, content_dirty),
    {
        match self.modal_shell() {
            Some(k) => {
                let fresh: bool = match drawn {
                    Some(d) => d.same(&k),
                    None => false,
                };
                !has_shell || !fresh
            },
            None => content_dirty || !has_shell,
        }
    }

    fn focus_step(&self, drawn: &Option<FocusKey>) -> (r: FocusStep)
        requires
            self.screens.pin_digit_index < 4,
        ensures
            r == self@.focus_step(focus_key_of(*drawn)),
    {
        match self.modal_focus_key() {
            Some(k) => {
                let fresh: bool = match drawn {
                    Some(d) => d.same(&k),
                    None => false,
                };
                if self.switch_anim.is_some() || !fresh {
                    FocusStep::Redraw
                } else {
                    FocusStep::Keep
                }
            },
            None => FocusStep::Drop,
        }
    }

    /// Decides what a frame redraws of the open modal. `shell` and `focus` are what the two pieces
    /// were last drawn from; `has_shell` says that a shell is there; `content_dirty` that something
    /// changed since the last frame.
    pub fn modal_plan(
        &self,
        shell: &Option<Shell>,
        focus: &Option<FocusKey>,
        has_shell: bool,
        content_dirty: bool,
        screen_changed: bool,
    ) -> (r: ModalPlan)
        requires
            self@.shelves() < usize::MAX,
            self.screens.pin_digit_index < 4,
        ensures
            r == self@.modal_plan(
                shell_of(*shell),
                focus_key_of(*focus),
                has_shell,
                content_dirty,
                screen_changed,
            ),
    {
        let defer: bool = self.switch_anim.is_some() && has_shell && !screen_changed;
        let stale: bool = self.shell_stale(shell, has_shell, content_dirty);
        let redraw_shell: bool = self.nav.screen != Screen::Home && !defer && (screen_changed || stale);
        ModalPlan { defer, redraw_shell, focus: self.focus_step(focus) }
    }
}

/// The sidebar row that has focus, and whether its actions button has it.
#[derive(Clone, Copy, PartialEq, Eq, Structural, Debug)]
pub struct SidebarKey {
    pub row: usize,
    pub button: bool,
}

/// What a frame redraws of the sidebar: the strip without focus, and the focused row over it.
#[derive(Clone, Copy, PartialEq, Eq, Structural, Debug)]
pub struct SidebarPlan {
    pub redraw_strip: bool,
    pub redraw_row: bool,
}

impl AppV {
    pub open spec fn sidebar_key(self) -> Option<SidebarKey> {
        match self.home_focus {
            HomeFocus::Sidebar(row) => Some(SidebarKey { row, button: false }),
            HomeFocus::SidebarMenu(row) => Some(SidebarKey { row, button: true }),
            HomeFocus::Grid(_) => None,
        }
    }

    pub open spec fn sidebar_plan(self, drawn: Option<SidebarKey>, stale: bool, has_strip: bool) -> SidebarPlan {
        let strip = stale || !has_strip;
        SidebarPlan {
            redraw_strip: strip,
            redraw_row: match self.sidebar_key() {
                Some(k) => strip || drawn != Some(k),
                None => false,
            },
        }
    }

    pub open spec fn status_step(self, drawn: Option<Seq<char>>) -> FocusStep {
        match self.home_status {
            Some(line) => if drawn == Some(line) {
                FocusStep::Keep
            } else {
                FocusStep::Redraw
            },
            None => FocusStep::Drop,
        }
    }
}

/// A focused row is never left from an older strip: where the strip is drawn anew, so is the row.
/// A focus that only moves redraws the row alone.
pub proof fn law_row_follows_its_strip(app: AppV, drawn: Option<SidebarKey>, stale: bool, has_strip: bool)
    requires
        app.sidebar_key() is Some,
    ensures
        app.sidebar_plan(drawn, stale, has_strip).redraw_strip ==> app.sidebar_plan(
            drawn,
            stale,
            has_strip,
        ).redraw_row,
        drawn != app.sidebar_key() ==> app.sidebar_plan(drawn, false, true) == (SidebarPlan {
            redraw_strip: false,
            redraw_row: true,
        }),
        drawn == app.sidebar_key() ==> app.sidebar_plan(drawn, false, true) == (SidebarPlan {
            redraw_strip: false,
            redraw_row: false,
        }),
{
}

impl App {
    /// The sidebar row that has focus, if one has.
    pub fn sidebar_key(&self) -> (r: Option<SidebarKey>)
        ensures
            r == self@.sidebar_key(),
    {
        match self.home_focus {
            HomeFocus::Sidebar(row) => Some(SidebarKey { row, button: false }),
            HomeFocus::SidebarMenu(row) => Some(SidebarKey { row, button: true }),
            HomeFocus::Grid(_) => None,
        }
    }

    /// Decides what a frame redraws of the sidebar. `drawn` is the row the focused row's tile was
    /// last drawn for; `stale` says that the hosts or the palette changed since the strip was drawn.
    pub fn sidebar_plan(&self, drawn: Option<SidebarKey>, stale: bool, has_strip: bool) -> (r: SidebarPlan)
        ensures
            r == self@.sidebar_plan(drawn, stale, has_strip),
    {
        let strip: bool = stale || !has_strip;
        let redraw_row: bool = match (self.sidebar_key(), drawn) {
            (Some(k), Some(d)) => strip || d != k,
            (Some(_), None) => true,
            (None, _) => false,
        };
        SidebarPlan { redraw_strip: strip, redraw_row }
    }

    /// Whether the launching game's backdrop is to be put on screen; `pending` says that one is
    /// here and not up yet. None is while no launch has started, however many cards are passed.
    pub fn hero_due(&self, pending: bool) -> (r: bool)
        ensures
            r == (self@.launch_anim is Some && pending),
    {
        self.launch_anim.is_some() && pending
    }

    /// Decides what a frame does with the status line; `drawn` is the line it was last drawn from.
    pub fn status_step(&self, drawn: &Option<String>) -> (r: FocusStep)
        ensures
            r == self@.status_step(text_of(*drawn)),
    {
        match &self.home_status {
            Some(line) => if is_text(drawn, line.as_str()) {
                FocusStep::Keep
            } else {
                FocusStep::Redraw
            },
            None => FocusStep::Drop,
        }
    }
}

} // verus!
