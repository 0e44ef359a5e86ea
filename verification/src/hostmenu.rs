//! The actions menu of one host: what it offers, and what each row does.
use vstd::prelude::*;
use crate::app::{App, AppV};
use crate::hosts::{online_of, EntryV, HostEntry};
use crate::model::{ExitAction, MenuEvent, Screen, Target, TargetV};
use crate::slots::{Effect, EffectV, ProfilePick, ProfilePickV, ScreensV};
use crate::text::{copy_texts, decimal, decimal_text, join3};

verus! {

/// One action on a host.
#[derive(Clone, Copy, PartialEq, Eq, Structural, Debug)]
pub enum HostAction {
    Connect,
    Pair,
    SpeedTest,
    /// Wake the host, or put it down the way its exit behaviour says.
    Power,
    /// This host's power settings.
    PowerSettings,
    /// Stream the desktop once with a picked profile.
    ConnectWith,
    /// The profile a title with no binding streams with.
    DefaultProfile,
    /// Which profiles are cards under this host in the sidebar.
    Pin,
    Edit,
    Forget,
}

/// The most actions one menu offers.
pub const MAX_HOST_ACTIONS: usize = 10;

/// One row as it is drawn.
pub struct HostMenuRow {
    pub action: HostAction,
    pub label: &'static str,
    /// A hint in the value column.
    pub value: Option<&'static str>,
    /// Whether the row destroys saved state.
    pub danger: bool,
}

/// What the power row is called: a host that is down can only be woken, and one that is up is put
/// down.
pub open spec fn power_label(power: Option<ExitAction>) -> Seq<char> {
    match power {
        None => "Wake host"@,
        Some(ExitAction::Sleep) => "Put to sleep"@,
        Some(_) => "Shut down"@,
    }
}

pub fn power_row_label(power: Option<ExitAction>) -> (r: &'static str)
    ensures
        r@ == power_label(power),
{
    match power {
        None => "Wake host",
        Some(ExitAction::Sleep) => "Put to sleep",
        Some(_) => "Shut down",
    }
}

pub open spec fn action_label(action: HostAction, power: Option<ExitAction>) -> Seq<char> {
    match action {
        HostAction::Connect => "Connect"@,
        HostAction::Pair => "Pair with PIN"@,
        HostAction::SpeedTest => "Test network speed"@,
        HostAction::Power => power_label(power),
        HostAction::PowerSettings => "Power settings"@,
        HostAction::ConnectWith => "Connect with…"@,
        HostAction::DefaultProfile => "Default profile…"@,
        HostAction::Pin => "Pin to sidebar…"@,
        HostAction::Edit => "Edit address"@,
        HostAction::Forget => "Forget host"@,
    }
}

/// One action's row. Pairing is the only thing besides the power row's name that a row varies on.
pub fn host_menu_row(action: HostAction, paired: bool, power: Option<ExitAction>) -> (r: HostMenuRow)
    ensures
        r.action == action,
        r.label@ == action_label(action, power),
        r.danger == (action == HostAction::Forget),
        match r.value {
            Some(v) => action == HostAction::Connect && !paired && v@ == "pairs first"@,
            None => action != HostAction::Connect || paired,
        },
{
    let label: &'static str = match action {
        HostAction::Connect => "Connect",
        HostAction::Pair => "Pair with PIN",
        HostAction::SpeedTest => "Test network speed",
        HostAction::Power => power_row_label(power),
        HostAction::PowerSettings => "Power settings",
        HostAction::ConnectWith => "Connect with…",
        HostAction::DefaultProfile => "Default profile…",
        HostAction::Pin => "Pin to sidebar…",
        HostAction::Edit => "Edit address",
        HostAction::Forget => "Forget host",
    };
    let value: Option<&'static str> = if action == HostAction::Connect && !paired {
        Some("pairs first")
    } else {
        None
    };
    HostMenuRow { action, label, value, danger: action == HostAction::Forget }
}

/// The actions one host's menu offers, in display order: measuring needs a pairing, so does the
/// power row, which also needs an address to wake or a host that is up; the rest needs a saved
/// host, and the profile rows a catalog too.
pub open spec fn offered(e: EntryV, power: Option<ExitAction>, profiles: bool) -> Seq<HostAction> {
    let saved = e is Known;
    let paired = e.is_paired();
    let base = seq![HostAction::Connect, HostAction::Pair];
    let measured = if paired {
        base.push(HostAction::SpeedTest)
    } else {
        base
    };
    let powered = if paired && (e.mac().len() > 0 || power is Some) {
        measured.push(HostAction::Power)
    } else {
        measured
    };
    let set = if saved {
        powered.push(HostAction::PowerSettings)
    } else {
        powered
    };
    let profiled = if saved && paired && profiles {
        set.push(HostAction::ConnectWith).push(HostAction::DefaultProfile).push(HostAction::Pin)
    } else {
        set
    };
    if saved {
        profiled.push(HostAction::Edit).push(HostAction::Forget)
    } else {
        profiled
    }
}

/// No menu is longer than there are actions, and each begins with connecting and pairing. Only a saved
/// host can be forgotten, and only a paired one tested or put down.
pub proof fn law_offered(e: EntryV, power: Option<ExitAction>, profiles: bool)
    ensures
        2 <= offered(e, power, profiles).len() <= MAX_HOST_ACTIONS,
        offered(e, power, profiles)[0] == HostAction::Connect,
        offered(e, power, profiles)[1] == HostAction::Pair,
        offered(e, power, profiles).contains(HostAction::Forget) ==> e is Known,
        offered(e, power, profiles).contains(HostAction::SpeedTest) ==> e.is_paired(),
        offered(e, power, profiles).contains(HostAction::Power) ==> e.is_paired(),
{
}

impl AppV {
    pub open spec fn host_menu_paired(self) -> bool {
        self.host_menu_entry() matches Some(e) && e.is_paired()
    }

    /// What the power row does: nothing known of the host, or the host away, wakes; a host that is
    /// up is put down, by shutting it down where it has no preference.
    pub open spec fn resolve_power_row(self) -> Option<ExitAction> {
        match self.host_menu_entry() {
            Some(e) => if online_of(self.hosts.reachable, e.target()) == Some(true) {
                match self.hosts.host_at(e.target()) {
                    Some(h) => Some(
                        if h.exit_action == ExitAction::Sleep {
                            ExitAction::Sleep
                        } else {
                            ExitAction::Shutdown
                        },
                    ),
                    None => None,
                }
            } else {
                None
            },
            None => None,
        }
    }

    pub open spec fn latch_host_menu_power(self) -> AppV {
        AppV { screens: ScreensV { host_menu_power: self.resolve_power_row(), ..self.screens }, ..self }
    }

    pub open spec fn open_host_menu(self, idx: usize) -> AppV {
        AppV {
            screens: ScreensV { host_menu_index: Some(idx), row_button: None, ..self.screens },
            ..self
        }.latch_host_menu_power().enter(Screen::HostMenu, 0)
    }

    pub open spec fn host_menu_actions(self) -> Seq<HostAction> {
        match self.host_menu_entry() {
            Some(e) => offered(e, self.screens.host_menu_power, self.profiles.len() > 0),
            None => Seq::empty(),
        }
    }

    pub open spec fn leave_host_menu(self) -> AppV {
        AppV { screens: ScreensV { host_menu_index: None, ..self.screens }, ..self }
    }

    /// The power row pressed: what it said when it was drawn, whatever has been learned since.
    pub open spec fn confirm_power_row(self, idx: usize, now: u64) -> AppV {
        if idx < self.hosts.entries.len() {
            let e = self.hosts.entries[idx as int];
            let closed = self.leave_host_menu().show(Screen::Home);
            match self.screens.host_menu_power {
                None => closed.start_wake(e.target(), e.mac(), "Waking "@ + e.name() + "…"@, now),
                Some(action) => closed.start_power_action(e.target(), action, e.name(), now),
            }
        } else {
            self
        }
    }

    pub open spec fn open_forget_host(self) -> AppV {
        self.enter(Screen::ForgetHost, 1)
    }

    pub open spec fn run_host_action(self, action: HostAction, idx: usize, now: u64) -> AppV {
        let at = self.hosts.entries[idx as int].target();
        match action {
            HostAction::Connect => self.leave_host_menu().show(Screen::Home).confirm_sidebar_host(idx, now),
            HostAction::Pair => self.leave_host_menu().effect(EffectV::OpenPairing(idx)),
            HostAction::SpeedTest => self.open_speed_test(idx),
            HostAction::Power => self.confirm_power_row(idx, now),
            HostAction::PowerSettings => self.open_host_power(),
            HostAction::ConnectWith => self.open_pick_profile(ProfilePickV::ConnectWith(at)),
            HostAction::DefaultProfile => self.open_pick_profile(ProfilePickV::HostDefault(at)),
            HostAction::Pin => self.open_pick_profile(ProfilePickV::Pin(at)),
            HostAction::Edit => self.open_edit_host(idx),
            HostAction::Forget => self.open_forget_host(),
        }
    }

    pub open spec fn confirm_host_menu_row(self, now: u64) -> AppV {
        let row = self.nav.cursor(Screen::HostMenu);
        if row < self.host_menu_actions().len() {
            self.run_host_action(
                self.host_menu_actions()[row as int],
                self.screens.host_menu_index->0,
                now,
            )
        } else {
            self
        }
    }

    #[verifier::opaque]
    pub open spec fn handle_host_menu_event(self, ev: MenuEvent, now: u64) -> AppV {
        match self.list_nav(self.host_menu_actions().len(), ev, now) {
            Some(moved) => moved,
            None => match ev {
                MenuEvent::Confirm => self.confirm_host_menu_row(now),
                MenuEvent::Back => self.leave_host_menu().show(Screen::Home),
                _ => self,
            },
        }
    }

    pub open spec fn host_menu_title(self) -> Seq<char> {
        match self.host_menu_entry() {
            Some(e) => e.name(),
            None => Seq::empty(),
        }
    }

    /// The address and the pairing state.
    pub open spec fn host_menu_subtitle(self) -> Seq<char> {
        match self.host_menu_entry() {
            Some(e) => e.host() + ":"@ + decimal(e.port() as nat) + " · "@ + if e.is_paired() {
                "paired"@
            } else {
                "not paired"@
            },
            None => Seq::empty(),
        }
    }

    /// One event on the forget dialog.
    #[verifier::opaque]
    pub open spec fn handle_forget_event(self, ev: MenuEvent, now: u64) -> AppV {
        match self.confirm_nav(ev, now) {
            Some(moved) => moved,
            None => match ev {
                MenuEvent::Confirm => if self.nav.cursor(Screen::ForgetHost) == 0 {
                    let closed = self.leave_host_menu().show(Screen::Home);
                    match self.screens.host_menu_index {
                        Some(idx) => if idx < self.hosts.entries.len() {
                            closed.forget_host(idx, now)
                        } else {
                            closed
                        },
                        None => closed,
                    }
                } else {
                    self.show(Screen::HostMenu)
                },
                MenuEvent::Back => self.show(Screen::HostMenu),
                MenuEvent::Secondary => self.show(Screen::HostMenu),
                _ => self,
            },
        }
    }
}

/// The power row does what it was drawn as: an announce that comes in between, and whatever else
/// is learned of any host, changes neither the row nor what a press on it asks for; one drawn to wake
/// a host sends nothing but the packet that wakes it.
pub proof fn law_power_row_latched(app: AppV, at: TargetV, online: bool, idx: usize, now: u64)
    requires
        idx < app.hosts.entries.len(),
    ensures
        app.note_reachable(at, online).host_menu_actions() == app.host_menu_actions(),
        app.note_reachable(at, online).confirm_power_row(idx, now).effects == app.confirm_power_row(idx, now).effects,
        app.screens.host_menu_power is None ==> forall|e: EffectV| #[trigger]
            app.note_reachable(at, online).confirm_power_row(idx, now).effects.contains(e) && !app.effects.contains(e)
                ==> e is WakePacket,
{
    let noted = app.note_reachable(at, online);
    let e = app.hosts.entries[idx as int];
    let after = noted.confirm_power_row(idx, now);
    if app.screens.host_menu_power is None {
        assert forall|x: EffectV| #[trigger]
            after.effects.contains(x) && !app.effects.contains(x) implies x is WakePacket by {
            let k = choose|k: int| 0 <= k < after.effects.len() && after.effects[k] == x;
            if k < app.effects.len() {
                assert(app.effects[k] == x);
                assert(app.effects.contains(x));
            }
        }
    }
}

/// A host whose reachability is not known is taken to be away: it is offered to be woken, never to
/// be shut down.
pub proof fn law_unknown_host_is_woken(app: AppV, idx: usize)
    requires
        idx < app.hosts.entries.len(),
        online_of(app.hosts.reachable, app.hosts.entries[idx as int].target()) is None,
    ensures
        app.open_host_menu(idx).screens.host_menu_power is None,
{
}

impl App {
    fn resolve_power_row(&self) -> (r: Option<ExitAction>)
        ensures
            r == self@.resolve_power_row(),
    {
        match self.host_menu_entry() {
            Some(e) => match self.entry_online(e) {
                Some(true) => match self.known_host(e.host(), e.port()) {
                    Some(i) => match self.hosts.known[i].exit_action {
                        ExitAction::Sleep => Some(ExitAction::Sleep),
                        _ => Some(ExitAction::Shutdown),
                    },
                    None => None,
                },
                _ => None,
            },
            None => None,
        }
    }

    /// What the power row offers right now, as it was fixed when the menu opened.
    pub fn host_menu_power_row(&self) -> (r: Option<ExitAction>)
        ensures
            r == self@.screens.host_menu_power,
    {
        self.screens.host_menu_power
    }

    /// Fixes what the power row offers.
    pub fn latch_host_menu_power(&mut self)
        ensures
            final(self)@ == old(self)@.latch_host_menu_power(),
            final(self).wf() == old(self).wf(),
    {
        let power = self.resolve_power_row();
        self.screens.host_menu_power = power;
    }

    /// Opens the menu of sidebar row `idx`.
    pub fn open_host_menu(&mut self, idx: usize)
        ensures
            final(self)@ == old(self)@.open_host_menu(idx),
            final(self).wf() == old(self).wf(),
    {
        self.screens.host_menu_index = Some(idx);
        self.screens.row_button = None;
        self.latch_host_menu_power();
        self.nav.enter(Screen::HostMenu, 0);
    }

    /// Whether the menu's host is paired.
    pub fn host_menu_paired(&self) -> (r: bool)
        ensures
            r == self@.host_menu_paired(),
    {
        match self.host_menu_entry() {
            Some(e) => e.is_paired(),
            None => false,
        }
    }

    /// The actions offered.
    pub fn host_menu_actions(&self) -> (r: Vec<HostAction>)
        ensures
            r@ == self@.host_menu_actions(),
    {
        let mut actions: Vec<HostAction> = Vec::new();
        let e: &HostEntry = match self.host_menu_entry() {
            Some(e) => e,
            None => {
                return actions;
            },
        };
        let power = self.screens.host_menu_power;
        let saved: bool = match e {
            HostEntry::Known(_) => true,
            _ => false,
        };
        let paired: bool = e.is_paired();
        actions.push(HostAction::Connect);
        actions.push(HostAction::Pair);
        assert(actions@ =~= seq![HostAction::Connect, HostAction::Pair]);
        if paired {
            actions.push(HostAction::SpeedTest);
        }
        if paired && (e.mac().len() > 0 || power.is_some()) {
            actions.push(HostAction::Power);
        }
        if saved {
            actions.push(HostAction::PowerSettings);
        }
        if saved && paired && self.profiles.len() > 0 {
            actions.push(HostAction::ConnectWith);
            actions.push(HostAction::DefaultProfile);
            actions.push(HostAction::Pin);
        }
        if saved {
            actions.push(HostAction::Edit);
            actions.push(HostAction::Forget);
        }
        actions
    }

    /// The rows as they are drawn.
    pub fn host_menu_rows(&self) -> (r: Vec<HostMenuRow>)
        ensures
            r.len() == self@.host_menu_actions().len(),
            forall|i: int|
                0 <= i < r.len() ==> (#[trigger] r[i]).action == self@.host_menu_actions()[i] && r[i].label@
                    == action_label(r[i].action, self@.screens.host_menu_power) && r[i].danger == (r[i].action
                    == HostAction::Forget) && (match r[i].value {
                    Some(v) => r[i].action == HostAction::Connect && !self@.host_menu_paired() && v@
                        == "pairs first"@,
                    None => r[i].action != HostAction::Connect || self@.host_menu_paired(),
                }),
    {
        let paired: bool = self.host_menu_paired();
        let power = self.host_menu_power_row();
        let actions = self.host_menu_actions();
        let mut rows: Vec<HostMenuRow> = Vec::new();
        let mut i: usize = 0;
        while i < actions.len()
            invariant
                i <= actions.len(),
                rows.len() == i,
                forall|k: int|
                    0 <= k < i ==> (#[trigger] rows[k]).action == actions@[k] && rows[k].label@ == action_label(
                        rows[k].action,
                        power,
                    ) && rows[k].danger == (rows[k].action == HostAction::Forget) && (match rows[k].value {
                        Some(v) => rows[k].action == HostAction::Connect && !paired && v@ == "pairs first"@,
                        None => rows[k].action != HostAction::Connect || paired,
                    }),
            decreases actions.len() - i,
        {
            rows.push(host_menu_row(actions[i], paired, power));
            i = i + 1;
        }
        rows
    }

    /// The menu's title: the host's name.
    pub fn host_menu_title(&self) -> (r: String)
        ensures
            r@ == self@.host_menu_title(),
    {
        match self.host_menu_entry() {
            Some(e) => e.name().to_owned(),
            None => String::new(),
        }
    }

    /// The menu's subtitle: the address and the pairing state.
    pub fn host_menu_subtitle(&self) -> (r: String)
        ensures
            r@ == self@.host_menu_subtitle(),
    {
        match self.host_menu_entry() {
            Some(e) => {
                let port = decimal_text(e.port() as u128);
                let at = join3(e.host(), ":", port.as_str());
                join3(
                    at.as_str(),
                    " · ",
                    if e.is_paired() {
                        "paired"
                    } else {
                        "not paired"
                    },
                )
            },
            None => String::new(),
        }
    }

    /// Handles one event on the menu.
    pub fn handle_host_menu_event(&mut self, ev: MenuEvent, now: u64)
        ensures
            final(self)@ == old(self)@.handle_host_menu_event(ev, now),
            final(self).wf() == old(self).wf(),
    {
        proof {
            reveal(AppV::handle_host_menu_event);
        }
        let rows: usize = self.host_menu_actions().len();
        if self.list_nav_event(rows, ev, now) {
            return;
        }
        match ev {
            MenuEvent::Confirm => {
                self.confirm_host_menu_row(now);
            },
            MenuEvent::Back => {
                self.screens.host_menu_index = None;
                self.nav.screen = Screen::Home;
            },
            _ => {},
        }
    }

    fn confirm_power_row(&mut self, idx: usize, now: u64)
        ensures
            final(self)@ == old(self)@.confirm_power_row(idx, now),
            final(self).wf() == old(self).wf(),
    {
        if idx >= self.hosts.entries.len() {
            return;
        }
        let power = self.screens.host_menu_power;
        let e = &self.hosts.entries[idx];
        assert(self@.hosts.entries[idx as int] == e@);
        let at = e.target();
        let mac = copy_texts(e.mac());
        let name = e.name().to_owned();
        self.screens.host_menu_index = None;
        self.nav.screen = Screen::Home;
        match power {
            None => {
                let reason = join3("Waking ", name.as_str(), "…");
                self.start_wake(at.host, at.port, mac, reason, now);
            },
            Some(action) => {
                self.start_power_action(at.host.as_str(), at.port, action, name.as_str(), now);
            },
        }
    }

    fn run_host_action(&mut self, action: HostAction, idx: usize, now: u64)
        requires
            idx < old(self).hosts.entries.len(),
        ensures
            final(self)@ == old(self)@.run_host_action(action, idx, now),
            final(self).wf() == old(self).wf(),
    {
        assert(self@.hosts.entries[idx as int] == self.hosts.entries@[idx as int]@);
        match action {
            HostAction::Connect => {
                self.screens.host_menu_index = None;
                self.nav.screen = Screen::Home;
                self.confirm_sidebar_host(idx, now);
            },
            // Also for a host that is paired: pairing again is how a changed certificate is
            // recovered from.
            HostAction::Pair => {
                self.screens.host_menu_index = None;
                self.ask(Effect::OpenPairing(idx));
            },
            HostAction::SpeedTest => {
                self.open_speed_test(idx);
            },
            HostAction::Power => {
                self.confirm_power_row(idx, now);
            },
            HostAction::PowerSettings => {
                self.open_host_power();
            },
            HostAction::ConnectWith => {
                let at: Target = self.hosts.entries[idx].target();
                self.open_pick_profile(ProfilePick::ConnectWith(at));
            },
            HostAction::DefaultProfile => {
                let at: Target = self.hosts.entries[idx].target();
                self.open_pick_profile(ProfilePick::HostDefault(at));
            },
            HostAction::Pin => {
                let at: Target = self.hosts.entries[idx].target();
                self.open_pick_profile(ProfilePick::Pin(at));
            },
            HostAction::Edit => {
                self.open_edit_host(idx);
            },
            HostAction::Forget => {
                self.nav.enter(Screen::ForgetHost, 1);
            },
        }
    }

    /// Runs the focused row's action.
    pub fn confirm_host_menu_row(&mut self, now: u64)
        ensures
            final(self)@ == old(self)@.confirm_host_menu_row(now),
            final(self).wf() == old(self).wf(),
    {
        let actions = self.host_menu_actions();
        let row: usize = self.nav.cursor(Screen::HostMenu);
        if row >= actions.len() {
            return;
        }
        match self.screens.host_menu_index {
            Some(idx) => {
                self.run_host_action(actions[row], idx, now);
            },
            None => {},
        }
    }

    /// Handles one event on the forget dialog.
    pub fn handle_forget_event(&mut self, ev: MenuEvent, now: u64)
        ensures
            final(self)@ == old(self)@.handle_forget_event(ev, now),
            final(self).wf() == old(self).wf(),
    {
        proof {
            reveal(AppV::handle_forget_event);
        }
        if self.confirm_nav_event(ev, now) {
            return;
        }
        match ev {
            MenuEvent::Confirm => {
                if self.nav.cursor(Screen::ForgetHost) == 0 {
                    let at: Option<usize> = self.screens.host_menu_index;
                    self.screens.host_menu_index = None;
                    self.nav.screen = Screen::Home;
                    match at {
                        Some(idx) => {
                            if idx < self.hosts.entries.len() {
                                self.forget_host(idx, now);
                            }
                        },
                        None => {},
                    }
                } else {
                    self.nav.screen = Screen::HostMenu;
                }
            },
            MenuEvent::Back => {
                self.nav.screen = Screen::HostMenu;
            },
            MenuEvent::Secondary => {
                self.nav.screen = Screen::HostMenu;
            },
            _ => {},
        }
    }

    /// The name of the host whichever host dialog is acting on.
    pub fn host_menu_host_name(&self) -> (r: Option<String>)
        ensures
            match (r, self@.host_menu_entry()) {
                (Some(n), Some(e)) => n@ == e.name(),
                (None, None) => true,
                _ => false,
            },
    {
        match self.host_menu_entry() {
            Some(e) => Some(e.name().to_owned()),
            None => None,
        }
    }
}

} // verus!
