//! The list cards: which rows each shows, and how a row is drawn.
use vstd::prelude::*;
use crate::app::{App, AppV};
use crate::collections::shelf_buttons;
use crate::hostmenu::{action_label, HostAction};
use crate::menu::exit_action_label;
use crate::model::{CollectionV, ExitAction, MenuEvent, Screen};
use crate::profilepick::PickRowV;
use crate::cards::{is_list, list_card_screen};
use crate::seqs::views;
use crate::slots::{HdrStep, RowButton};
use crate::text::{literal_of, same_text, text_of};

verus! {

/// What a row of a menu is.
#[derive(Clone, Copy, PartialEq, Eq, Structural, Debug)]
pub enum RowKind {
    Toggle,
    Dropdown,
    Action,
}

/// The mark at a row's leading edge.
#[derive(Clone, Copy, PartialEq, Eq, Structural, Debug)]
pub enum RowIcon {
    Tv,
    Lock,
    Signal,
    Power,
    Settings,
    Play,
    Wrench,
    Pin,
    Edit,
    Delete,
    Close,
    Plus,
}

impl RowIcon {
    /// The name of the icon in the drawing kit's table, `None` where the kit alone says it.
    pub open spec fn named(self) -> Option<Seq<char>> {
        match self {
            RowIcon::Power => Some("power"@),
            RowIcon::Delete => Some("trash-2"@),
            _ => None,
        }
    }

    /// The name of the icon in the drawing kit's table, `None` where the kit alone says it.
    pub fn name(self) -> (r: Option<&'static str>)
        ensures
            literal_of(r) == self.named(),
    {
        match self {
            RowIcon::Power => Some("power"),
            RowIcon::Delete => Some("trash-2"),
            _ => None,
        }
    }
}

/// A row as a screen describes it.
pub struct FocusRow {
    pub kind: RowKind,
    pub icon: RowIcon,
    pub label: String,
    /// "On" or "Off" on a toggle, the pick on a dropdown, a hint on an action.
    pub value: String,
    /// What stands small under the label.
    pub note: Option<String>,
    pub locked: bool,
    pub danger: bool,
    pub marked: bool,
}

pub struct FocusRowV {
    pub kind: RowKind,
    pub icon: RowIcon,
    pub label: Seq<char>,
    pub value: Seq<char>,
    pub note: Option<Seq<char>>,
    pub locked: bool,
    pub danger: bool,
    pub marked: bool,
}

impl View for FocusRow {
    type V = FocusRowV;

    open spec fn view(&self) -> FocusRowV {
        FocusRowV {
            kind: self.kind,
            icon: self.icon,
            label: self.label@,
            value: self.value@,
            note: text_of(self.note),
            locked: self.locked,
            danger: self.danger,
            marked: self.marked,
        }
    }
}

/// How a row is drawn.
#[derive(Clone, Copy, PartialEq, Eq, Structural, Debug)]
pub enum Control {
    Toggle(bool),
    /// A value to step through.
    Value,
    Action,
    /// An action with a dim hint at its right.
    Hint,
    Slider,
}

/// A row as it is drawn.
pub struct ListRow {
    pub control: Control,
    pub icon: Option<RowIcon>,
    pub label: String,
    pub value: Option<String>,
    pub note: Option<String>,
    pub enabled: bool,
    /// Left and Right step its value.
    pub adjustable: bool,
    pub danger: bool,
    pub marked: bool,
    /// The row can be picked up; `true` while it is held or its handle has focus.
    pub handle: Option<bool>,
    /// How many buttons it carries at its right, and which of them has focus.
    pub buttons: usize,
    pub lit: Option<usize>,
}

/// A [`ListRow`] as a value.
pub struct ListRowV {
    pub control: Control,
    pub icon: Option<RowIcon>,
    pub label: Seq<char>,
    pub value: Option<Seq<char>>,
    pub note: Option<Seq<char>>,
    pub enabled: bool,
    pub adjustable: bool,
    pub danger: bool,
    pub marked: bool,
    pub handle: Option<bool>,
    pub buttons: usize,
    pub lit: Option<usize>,
}

impl View for ListRow {
    type V = ListRowV;

    open spec fn view(&self) -> ListRowV {
        ListRowV {
            control: self.control,
            icon: self.icon,
            label: self.label@,
            value: text_of(self.value),
            note: text_of(self.note),
            enabled: self.enabled,
            adjustable: self.adjustable,
            danger: self.danger,
            marked: self.marked,
            handle: self.handle,
            buttons: self.buttons,
            lit: self.lit,
        }
    }
}

/// How a described row is drawn: a toggle is a switch, a dropdown a stepped pick, an action with
/// a hint keeps the hint at its right.
pub open spec fn drawn(row: FocusRowV) -> ListRowV {
    ListRowV {
        control: match row.kind {
            RowKind::Toggle => Control::Toggle(row.value == "On"@),
            RowKind::Dropdown => Control::Value,
            RowKind::Action => if row.value.len() == 0 {
                Control::Action
            } else {
                Control::Hint
            },
        },
        icon: Some(row.icon),
        label: row.label,
        value: match row.kind {
            RowKind::Toggle => None,
            RowKind::Dropdown => Some(row.value),
            RowKind::Action => if row.value.len() == 0 {
                None
            } else {
                Some(row.value)
            },
        },
        note: row.note,
        enabled: !row.locked,
        adjustable: !row.locked && row.kind != RowKind::Action,
        danger: row.danger,
        marked: row.marked,
        handle: None,
        buttons: 0,
        lit: None,
    }
}

/// Translates a described row into the one that is drawn.
pub fn row_spec(row: &FocusRow) -> (r: ListRow)
    ensures
        r@ == drawn(row@),
{
    let (control, value): (Control, Option<String>) = match row.kind {
        RowKind::Toggle => (Control::Toggle(same_text(row.value.as_str(), "On")), None),
        RowKind::Dropdown => (Control::Value, Some(row.value.clone())),
        RowKind::Action => if row.value.as_str().unicode_len() == 0 {
            (Control::Action, None)
        } else {
            (Control::Hint, Some(row.value.clone()))
        },
    };
    ListRow {
        control,
        icon: Some(row.icon),
        label: row.label.clone(),
        value,
        note: row.note.clone(),
        enabled: !row.locked,
        adjustable: !row.locked && row.kind != RowKind::Action,
        danger: row.danger,
        marked: row.marked,
        handle: None,
        buttons: 0,
        lit: None,
    }
}

/// A row that only carries a mark and a label.
pub open spec fn action_row(icon: RowIcon, label: Seq<char>) -> FocusRowV {
    FocusRowV {
        kind: RowKind::Action,
        icon,
        label,
        value: Seq::empty(),
        note: None,
        locked: false,
        danger: false,
        marked: false,
    }
}

fn plain_row(icon: RowIcon, label: &str) -> (r: FocusRow)
    ensures
        r@ == action_row(icon, label@),
{
    let value = String::new();
    assert(value@ =~= Seq::empty());
    FocusRow {
        kind: RowKind::Action,
        icon,
        label: label.to_owned(),
        value,
        note: None,
        locked: false,
        danger: false,
        marked: false,
    }
}

/// The mark of a host action.
pub open spec fn icon_of(action: HostAction) -> RowIcon {
    match action {
        HostAction::Connect => RowIcon::Tv,
        HostAction::Pair => RowIcon::Lock,
        HostAction::SpeedTest => RowIcon::Signal,
        HostAction::Power => RowIcon::Power,
        HostAction::PowerSettings => RowIcon::Settings,
        HostAction::ConnectWith => RowIcon::Play,
        HostAction::DefaultProfile => RowIcon::Wrench,
        HostAction::Pin => RowIcon::Pin,
        HostAction::Edit => RowIcon::Edit,
        HostAction::Forget => RowIcon::Delete,
    }
}

pub fn action_icon(action: HostAction) -> (r: RowIcon)
    ensures
        r == icon_of(action),
{
    match action {
        HostAction::Connect => RowIcon::Tv,
        HostAction::Pair => RowIcon::Lock,
        HostAction::SpeedTest => RowIcon::Signal,
        HostAction::Power => RowIcon::Power,
        HostAction::PowerSettings => RowIcon::Settings,
        HostAction::ConnectWith => RowIcon::Play,
        HostAction::DefaultProfile => RowIcon::Wrench,
        HostAction::Pin => RowIcon::Pin,
        HostAction::Edit => RowIcon::Edit,
        HostAction::Forget => RowIcon::Delete,
    }
}

pub open spec fn host_row(action: HostAction, power: Option<ExitAction>, paired: bool) -> FocusRowV {
    FocusRowV {
        value: if action == HostAction::Connect && !paired {
            "pairs first"@
        } else {
            Seq::empty()
        },
        danger: action == HostAction::Forget,
        ..action_row(icon_of(action), action_label(action, power))
    }
}

pub open spec fn exit_name(action: ExitAction) -> Seq<char> {
    match action {
        ExitAction::Nothing => "None"@,
        ExitAction::Sleep => "Sleep"@,
        ExitAction::Shutdown => "Shut down"@,
    }
}

/// The row that wakes the host on its own, and the row of its exit behaviour, fixed until the host
/// has said what this pairing may do.
pub open spec fn power_rows(auto: bool, exit: ExitAction, unlocked: bool) -> Seq<FocusRowV> {
    seq![
        FocusRowV {
            kind: RowKind::Toggle,
            value: if auto {
                "On"@
            } else {
                "Off"@
            },
            ..action_row(RowIcon::Power, "Wake automatically"@)
        },
        FocusRowV {
            kind: RowKind::Dropdown,
            value: exit_name(exit),
            locked: !unlocked,
            ..action_row(RowIcon::Power, "App exit behaviour"@)
        },
    ]
}

/// A collection's row: the one that holds the card is marked, each can be picked up, and its
/// buttons light where the cursor is.
pub open spec fn shelf_row(
    c: CollectionV,
    marked: bool,
    at: usize,
    cursor: usize,
    dragging: Option<usize>,
    lit: Option<RowButton>,
) -> ListRowV {
    ListRowV {
        icon: None,
        handle: Some(dragging == Some(at) || (at == cursor && lit == Some(RowButton::Leading))),
        buttons: shelf_buttons(c.dynamic).len() as usize,
        lit: if at == cursor {
            match lit {
                Some(RowButton::Trailing(i)) => Some(i),
                _ => None,
            }
        } else {
            None
        },
        ..drawn(FocusRowV { marked, ..action_row(RowIcon::Edit, c.name) })
    }
}

pub open spec fn pick_row(row: PickRowV) -> ListRowV {
    drawn(
        FocusRowV {
            marked: row.marked,
            ..match row.name {
                Some(n) => action_row(RowIcon::Wrench, n),
                None => action_row(RowIcon::Close, "None"@),
            }
        },
    )
}

/// What a list card is headed with.
pub enum Heading {
    /// A host's name over its address and pairing state.
    Host { name: String, address: String },
    /// A host's power settings.
    Power(String),
    /// The collections; `card` is the card being moved, unless a row is held.
    Shelves { held: bool, card: Option<String> },
    Profiles { title: &'static str, line: Option<String> },
    /// A luminance being measured; `stalled` where the pattern does not show.
    Luminance { step: HdrStep, stalled: bool },
}

pub enum HeadingV {
    Host { name: Seq<char>, address: Seq<char> },
    Power(Seq<char>),
    Shelves { held: bool, card: Option<Seq<char>> },
    Profiles { title: Seq<char>, line: Option<Seq<char>> },
    Luminance { step: HdrStep, stalled: bool },
}

impl View for Heading {
    type V = HeadingV;

    open spec fn view(&self) -> HeadingV {
        match self {
            Heading::Host { name, address } => HeadingV::Host { name: name@, address: address@ },
            Heading::Power(name) => HeadingV::Power(name@),
            Heading::Shelves { held, card } => HeadingV::Shelves { held: *held, card: text_of(*card) },
            Heading::Profiles { title, line } => HeadingV::Profiles { title: title@, line: text_of(*line) },
            Heading::Luminance { step, stalled } => HeadingV::Luminance { step: *step, stalled: *stalled },
        }
    }
}

pub struct ListCard {
    pub heading: Heading,
    pub rows: Vec<ListRow>,
}

pub struct ListCardV {
    pub heading: HeadingV,
    pub rows: Seq<ListRowV>,
}

impl View for ListCard {
    type V = ListCardV;

    open spec fn view(&self) -> ListCardV {
        ListCardV { heading: self.heading@, rows: views(self.rows@) }
    }
}

pub open spec fn card_of(c: Option<ListCard>) -> Option<ListCardV> {
    match c {
        Some(c) => Some(c@),
        None => None,
    }
}

impl AppV {
    pub open spec fn host_menu_card(self) -> ListCardV {
        let actions = self.host_menu_actions();
        ListCardV {
            heading: HeadingV::Host { name: self.host_menu_title(), address: self.host_menu_subtitle() },
            rows: Seq::new(
                actions.len(),
                |i: int| drawn(host_row(actions[i], self.screens.host_menu_power, self.host_menu_paired())),
            ),
        }
    }

    pub open spec fn host_power_card(self) -> ListCardV {
        let rows = power_rows(
            self.host_wol_auto(),
            self.host_power_exit_action(),
            self.power_access().is_unlocked(),
        );
        ListCardV {
            heading: HeadingV::Power(self.dialog_host()),
            rows: Seq::new(rows.len(), |i: int| drawn(rows[i])),
        }
    }

    /// Whether the row at `at` is the one that holds the card being moved.
    pub open spec fn holds_target(self, at: usize) -> bool {
        match (self.screens.collections.target, self.selected_known_host()) {
            (Some(id), Some(h)) => match h.collection_of(id) {
                Some(c) => c == at,
                None => h.library_index() matches Some(c) && c == at,
            },
            _ => false,
        }
    }

    pub open spec fn shelf_rows(self, shelves: Seq<CollectionV>, n: int) -> Seq<ListRowV>
        decreases n,
    {
        if n <= 0 {
            Seq::empty()
        } else {
            self.shelf_rows(shelves, n - 1).push(
                shelf_row(
                    shelves[n - 1],
                    self.holds_target((n - 1) as usize),
                    (n - 1) as usize,
                    self.nav.cursor(Screen::Collections),
                    self.screens.collections.dragging,
                    self.screens.row_button,
                ),
            )
        }
    }

    /// The collections that a card can go to; nothing is offered where no card is being moved.
    pub open spec fn shelves_card(self) -> Option<ListCardV> {
        match (self.selected_known_host(), self.screens.collections.target) {
            (Some(h), Some(id)) => Some(
                ListCardV {
                    heading: HeadingV::Shelves {
                        held: self.collection_of_card(id) is Some,
                        card: if self.screens.collections.dragging is Some {
                            None
                        } else {
                            Some(self.screens.collections.title)
                        },
                    },
                    rows: self.shelf_rows(h.collections, h.collections.len() as int).push(
                        drawn(action_row(RowIcon::Plus, "Add collection"@)),
                    ),
                },
            ),
            _ => None,
        }
    }

    pub open spec fn profiles_card(self) -> Option<ListCardV> {
        match self.screens.profile_pick {
            Some(pick) => {
                let rows = self.pick_profile_rows();
                Some(
                    ListCardV {
                        heading: HeadingV::Profiles {
                            title: pick.heading(),
                            line: self.pick_profile_subtitle(),
                        },
                        rows: Seq::new(rows.len(), |i: int| pick_row(rows[i])),
                    },
                )
            },
            None => None,
        }
    }

    /// The calibration card: one slider, with the button that finishes the step. `value` is the
    /// luminance in words.
    pub open spec fn luminance_card(self, value: Seq<char>) -> Option<ListCardV> {
        match self.screens.hdr {
            Some(h) => Some(
                ListCardV {
                    heading: HeadingV::Luminance { step: h.step, stalled: !h.playing || h.seen_stalled },
                    rows: seq![
                        ListRowV {
                            control: Control::Slider,
                            icon: None,
                            value: Some(value),
                            adjustable: true,
                            buttons: 1,
                            lit: match self.screens.row_button {
                                Some(RowButton::Trailing(i)) => Some(i),
                                _ => None,
                            },
                            ..drawn(action_row(RowIcon::Edit, Seq::empty()))
                        },
                    ],
                },
            ),
            None => None,
        }
    }

    /// The card a list screen shows.
    pub open spec fn list_card(self, screen: Screen, value: Seq<char>) -> Option<ListCardV> {
        match screen {
            Screen::HostMenu => Some(self.host_menu_card()),
            Screen::HostPower => Some(self.host_power_card()),
            Screen::Collections => self.shelves_card(),
            Screen::PickProfile => self.profiles_card(),
            Screen::HdrCalibration => self.luminance_card(value),
            _ => None,
        }
    }

    /// Whether a list shows how it took an event: the recoil at an end, the dip of a press, the
    /// slip of a value.
    pub open spec fn list_reacts(self, ev: MenuEvent) -> bool {
        &&& ev != MenuEvent::Back
        &&& ev != MenuEvent::Secondary
        &&& list_card_screen(self.nav.screen) || (self.nav.screen == Screen::SettingsPage
            && !self.screens.settings_page.column)
    }
}

/// A card draws as many rows as the list has to move through, so that the cursor is always on one
/// that shows.
pub proof fn law_every_row_is_drawn(app: AppV, value: Seq<char>)
    ensures
        app.nav.screen == Screen::HostMenu ==> app.host_menu_card().rows.len() == app.list_modal_row_count(),
        app.nav.screen == Screen::HostPower ==> app.host_power_card().rows.len() == app.list_modal_row_count(),
        app.nav.screen == Screen::Collections && app.shelves_card() is Some ==> app.shelves_card()->0.rows.len()
            == app.collections_row_count(),
        app.nav.screen == Screen::PickProfile && app.profiles_card() is Some ==> app.profiles_card()->0.rows.len()
            == app.pick_profile_row_count(),
        app.nav.screen == Screen::HdrCalibration && app.luminance_card(value) is Some ==> app.luminance_card(
            value,
        )->0.rows.len() == app.list_modal_row_count(),
{
    match app.selected_known_host() {
        Some(h) => {
            lemma_shelf_rows(app, h.collections, h.collections.len() as int);
        },
        None => {},
    }
    match app.screens.profile_pick {
        Some(pick) => {
            crate::profilepick::law_pick_rows_counted(app);
        },
        None => {},
    }
}

proof fn lemma_shelf_rows(app: AppV, shelves: Seq<CollectionV>, n: int)
    requires
        0 <= n <= shelves.len(),
    ensures
        app.shelf_rows(shelves, n).len() == n,
    decreases n,
{
    if n > 0 {
        lemma_shelf_rows(app, shelves, n - 1);
    }
}

impl App {
    fn host_menu_card(&self) -> (r: ListCard)
        ensures
            r@ == self@.host_menu_card(),
    {
        let described = self.host_menu_rows();
        let ghost actions = self@.host_menu_actions();
        let mut rows: Vec<ListRow> = Vec::new();
        let mut i: usize = 0;
        while i < described.len()
            invariant
                i <= described.len(),
                described.len() == actions.len(),
                rows.len() == i,
                forall|k: int|
                    0 <= k < described.len() ==> (#[trigger] described[k]).action == actions[k]
                        && described[k].label@ == action_label(actions[k], self@.screens.host_menu_power)
                        && described[k].danger == (actions[k] == HostAction::Forget) && (match described[k].value {
                        Some(v) => actions[k] == HostAction::Connect && !self@.host_menu_paired() && v@
                            == "pairs first"@,
                        None => actions[k] != HostAction::Connect || self@.host_menu_paired(),
                    }),
                forall|k: int|
                    0 <= k < i ==> (#[trigger] rows@[k])@ == drawn(
                        host_row(actions[k], self@.screens.host_menu_power, self@.host_menu_paired()),
                    ),
            decreases described.len() - i,
        {
            let d = &described[i];
            let mut row = plain_row(action_icon(d.action), d.label);
            match d.value {
                Some(v) => {
                    row.value = v.to_owned();
                },
                None => {},
            }
            row.danger = d.danger;
            assert(row@ == host_row(actions[i as int], self@.screens.host_menu_power, self@.host_menu_paired()));
            rows.push(row_spec(&row));
            i = i + 1;
        }
        assert(views(rows@) =~= self@.host_menu_card().rows);
        ListCard {
            heading: Heading::Host { name: self.host_menu_title(), address: self.host_menu_subtitle() },
            rows,
        }
    }

    fn host_power_card(&self) -> (r: ListCard)
        ensures
            r@ == self@.host_power_card(),
    {
        let (auto, exit, access) = self.host_power_view();
        let mut wake = plain_row(RowIcon::Power, "Wake automatically");
        wake.kind = RowKind::Toggle;
        wake.value = if auto {
            "On".to_owned()
        } else {
            "Off".to_owned()
        };
        let mut leave = plain_row(RowIcon::Power, "App exit behaviour");
        leave.kind = RowKind::Dropdown;
        leave.value = exit_action_label(exit).to_owned();
        leave.locked = !access.unlocked();
        let mut rows: Vec<ListRow> = Vec::new();
        rows.push(row_spec(&wake));
        rows.push(row_spec(&leave));
        assert(views(rows@) =~= self@.host_power_card().rows);
        let name = match self.host_menu_host_name() {
            Some(name) => name,
            None => {
                let none = String::new();
                assert(none@ =~= Seq::empty());
                none
            },
        };
        ListCard { heading: Heading::Power(name), rows }
    }

    fn shelves_card(&self) -> (r: Option<ListCard>)
        ensures
            card_of(r) == self@.shelves_card(),
    {
        let i: usize = match self.selected_known_host() {
            Some(i) => i,
            None => {
                return None;
            },
        };
        let shelves = &self.hosts.known[i].collections;
        let ghost all = self@.hosts.known[i as int].collections;
        proof {
            assert(self@.hosts.known[i as int] == self.hosts.known@[i as int]@);
            assert(all.len() == shelves.len());
        }
        let cursor: usize = self.nav.cursor(Screen::Collections);
        let dragging: Option<usize> = self.screens.collections.dragging;
        let holding: Option<usize> = match &self.screens.collections.target {
            Some(id) => match self.hosts.known[i].collection_of(id.as_str()) {
                Some(c) => Some(c),
                None => self.hosts.known[i].library_index(),
            },
            None => {
                return None;
            },
        };
        let trailing: Option<usize> = match self.screens.row_button {
            Some(b) => b.trailing(),
            None => None,
        };
        let leading: bool = match self.screens.row_button {
            Some(RowButton::Leading) => true,
            _ => false,
        };
        let mut rows: Vec<ListRow> = Vec::new();
        let mut k: usize = 0;
        assert(views(rows@) =~= Seq::empty());
        while k < shelves.len()
            invariant
                k <= shelves.len(),
                all.len() == shelves.len(),
                forall|j: int| 0 <= j < shelves.len() ==> all[j] == (#[trigger] shelves@[j])@,
                cursor == self@.nav.cursor(Screen::Collections),
                dragging == self@.screens.collections.dragging,
                forall|at: usize| self@.holds_target(at) == (holding == Some(at)),
                leading == (self@.screens.row_button == Some(RowButton::Leading)),
                trailing == (match self@.screens.row_button {
                    Some(RowButton::Trailing(i)) => Some(i),
                    _ => None,
                }),
                views(rows@) == self@.shelf_rows(all, k as int),
            decreases shelves.len() - k,
        {
            assert(all[k as int] == shelves@[k as int]@);
            let mut row = plain_row(RowIcon::Edit, shelves[k].name.as_str());
            row.marked = match holding {
                Some(at) => at == k,
                None => false,
            };
            let mut drawn_row = row_spec(&row);
            let held: bool = match dragging {
                Some(at) => at == k,
                None => false,
            };
            drawn_row.icon = None;
            drawn_row.handle = Some(held || (k == cursor && leading));
            drawn_row.buttons = if shelves[k].dynamic {
                1
            } else {
                2
            };
            drawn_row.lit = if k == cursor {
                trailing
            } else {
                None
            };
            let ghost rv = drawn_row@;
            let ghost before = rows@;
            assert(rv == shelf_row(
                all[k as int],
                self@.holds_target(k),
                k,
                cursor,
                dragging,
                self@.screens.row_button,
            ));
            rows.push(drawn_row);
            assert(views(rows@) =~= views(before).push(rv));
            k = k + 1;
        }
        let add_row = row_spec(&plain_row(RowIcon::Plus, "Add collection"));
        let ghost av = add_row@;
        let ghost before = rows@;
        rows.push(add_row);
        assert(views(rows@) =~= views(before).push(av));
        let card: Option<String> = match self.collections_heading() {
            Some(t) => Some(t.to_owned()),
            None => None,
        };
        Some(ListCard { heading: Heading::Shelves { held: self.collections_target_held(), card }, rows })
    }

    fn profiles_card(&self) -> (r: Option<ListCard>)
        ensures
            card_of(r) == self@.profiles_card(),
    {
        let title: &'static str = match &self.screens.profile_pick {
            Some(pick) => pick.title(),
            None => {
                return None;
            },
        };
        let picks = self.pick_profile_rows();
        let ghost all = self@.pick_profile_rows();
        assert(all.len() == picks.len());
        let mut rows: Vec<ListRow> = Vec::new();
        let mut i: usize = 0;
        while i < picks.len()
            invariant
                i <= picks.len(),
                all == views(picks@),
                rows.len() == i,
                forall|k: int| 0 <= k < i ==> (#[trigger] rows@[k])@ == pick_row(all[k]),
            decreases picks.len() - i,
        {
            assert(all[i as int] == picks@[i as int]@);
            let mut row = match &picks[i].name {
                Some(n) => plain_row(RowIcon::Wrench, n.as_str()),
                None => plain_row(RowIcon::Close, "None"),
            };
            row.marked = picks[i].marked;
            rows.push(row_spec(&row));
            i = i + 1;
        }
        assert(views(rows@) =~= self@.profiles_card()->0.rows);
        Some(ListCard { heading: Heading::Profiles { title, line: self.pick_profile_subtitle() }, rows })
    }

    fn luminance_card(&self, value: &str) -> (r: Option<ListCard>)
        ensures
            card_of(r) == self@.luminance_card(value@),
    {
        match self.screens.hdr {
            Some(h) => {
                let mut row = row_spec(&plain_row(RowIcon::Edit, ""));
                proof {
                    reveal_strlit("");
                    assert(""@ =~= Seq::empty());
                }
                row.control = Control::Slider;
                row.icon = None;
                row.adjustable = true;
                row.value = Some(value.to_owned());
                row.buttons = 1;
                row.lit = match self.screens.row_button {
                    Some(b) => b.trailing(),
                    None => None,
                };
                let ghost rv = row@;
                let mut rows: Vec<ListRow> = Vec::new();
                rows.push(row);
                assert(views(rows@) =~= seq![rv]);
                Some(
                    ListCard {
                        heading: Heading::Luminance { step: h.step, stalled: !h.playing || h.seen_stalled },
                        rows,
                    },
                )
            },
            None => None,
        }
    }

    /// The card a list screen shows, `None` on any other screen. `value` is the luminance being
    /// measured, in words.
    pub fn list_card(&self, screen: Screen, value: &str) -> (r: Option<ListCard>)
        ensures
            card_of(r) == self@.list_card(screen, value@),
    {
        match screen {
            Screen::HostMenu => Some(self.host_menu_card()),
            Screen::HostPower => Some(self.host_power_card()),
            Screen::Collections => self.shelves_card(),
            Screen::PickProfile => self.profiles_card(),
            Screen::HdrCalibration => self.luminance_card(value),
            _ => None,
        }
    }

    /// Whether a list shows how it took an event.
    pub fn list_reacts(&self, ev: MenuEvent) -> (r: bool)
        ensures
            r == self@.list_reacts(ev),
    {
        if ev == MenuEvent::Back || ev == MenuEvent::Secondary {
            return false;
        }
        is_list(self.nav.screen) || (self.nav.screen == Screen::SettingsPage && !self.screens.settings_page.column)
    }
}

} // verus!
