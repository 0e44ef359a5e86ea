//! The menu as it comes up, from what was saved.
use vstd::prelude::*;
use crate::app::{App, AppV};
use crate::flags::{put, Flag, Flags};
use crate::grid::{GridState, GridV};
use crate::hosts::{known_entries, known_rows, HostsState, HostsV};
use crate::library::{Library, LibraryV};
use crate::model::{
    host_views, profile_views, target_of, HomeFocus, HostV, KnownHost, LogLevelOverride, PairingFocus, ProfileV, Screen,
    Settings, StreamProfile, Target, TargetV,
};
use crate::nav::{Nav, NavV};
use crate::recents::{RecentV, Recents};
use crate::seqs::{find_by, first_pos, views};
use crate::slots::{
    no_collections, CollectionsState, Effect, EffectV, Jobs, JobsV, Page, Scope, ScopeV, ScreenSlots, ScreensV,
    SettingsPageState, SettingsPageV,
};
use crate::text::{same_text, texts};

verus! {

/// What was saved, and what this build and its marks are.
pub struct Loaded {
    pub settings: Settings,
    pub known_hosts: Vec<KnownHost>,
    pub selected_host: Option<Target>,
    pub profiles: Vec<StreamProfile>,
    pub recents: Recents,
    /// The level that the logger has in force.
    pub log_level: LogLevelOverride,
    /// The document was written by another version of the app.
    pub new_build: bool,
    /// The OS chains that have a mark of their own.
    pub marked_os: Vec<String>,
}

/// A [`Loaded`] as a value.
pub struct LoadedV {
    pub settings: Settings,
    pub known_hosts: Seq<HostV>,
    pub selected_host: Option<TargetV>,
    pub profiles: Seq<ProfileV>,
    pub recents: Seq<RecentV>,
    pub log_level: LogLevelOverride,
    pub new_build: bool,
    pub marked_os: Seq<Seq<char>>,
}

impl View for Loaded {
    type V = LoadedV;

    open spec fn view(&self) -> LoadedV {
        LoadedV {
            settings: self.settings,
            known_hosts: host_views(self.known_hosts@),
            selected_host: target_of(self.selected_host),
            profiles: profile_views(self.profiles@),
            recents: self.recents@,
            log_level: self.log_level,
            new_build: self.new_build,
            marked_os: texts(self.marked_os@),
        }
    }
}

/// No screen has anything of its own yet.
pub open spec fn no_slots() -> ScreensV {
    ScreensV {
        host_menu_index: None,
        row_button: None,
        host_menu_power: None,
        hdr: None,
        speed_test: None,
        speed_test_name: Seq::empty(),
        add_host: Seq::empty(),
        settings_page: SettingsPageV { page: Page::General, scope: ScopeV::Global, column: false },
        profile_name: Seq::empty(),
        profile_pick: None,
        about_scroll: 0,
        collections: no_collections(),
        power_rights: None,
        wake: None,
        pin_digits: seq![0u8, 0u8, 0u8, 0u8],
        pin_digit_index: 0,
        pairing_focus: PairingFocus::Pin,
        pairing_status: None,
        pairing_busy: false,
        pairing_entry: 0,
    }
}

fn empty_slots() -> (r: ScreenSlots)
    ensures
        r@ == no_slots(),
{
    let r = ScreenSlots {
        host_menu_index: None,
        row_button: None,
        host_menu_power: None,
        hdr: None,
        speed_test: None,
        speed_test_name: String::new(),
        add_host: String::new(),
        settings_page: SettingsPageState { page: Page::General, scope: Scope::Global, column: false },
        profile_name: String::new(),
        profile_pick: None,
        about_scroll: 0,
        collections: CollectionsState::new(),
        power_rights: None,
        wake: None,
        pin_digits: [0, 0, 0, 0],
        pin_digit_index: 0,
        pairing_focus: PairingFocus::Pin,
        pairing_status: None,
        pairing_busy: false,
        pairing_entry: 0,
    };
    assert(r@.pin_digits =~= seq![0u8, 0u8, 0u8, 0u8]);
    r
}

/// The grid before anything was drawn: stale, and shown, since nothing is waited for until a host
/// is picked.
pub open spec fn no_grid() -> GridV {
    GridV {
        arrivals: Map::empty(),
        kept: (0, 0),
        card_pop_until: None,
        card_size: (0, 0),
        dirty: true,
        cards_dirty: Seq::empty(),
        scroll: 0,
        scroll_target: 0,
        focus_last: 0,
        revealed: true,
    }
}

/// Whether a saved host is at an address, and paired.
pub open spec fn paired_at(at: TargetV) -> spec_fn(HostV) -> bool {
    |h: HostV| h.addr == at.host && h.port == at.port && h.is_paired()
}

/// The menu with nothing selected.
pub open spec fn blank(l: LoadedV) -> AppV {
    AppV {
        nav: NavV { screen: Screen::Home, last_screen: Screen::Home, cursors: Seq::new(20, |i: int| 0usize) },
        jobs: JobsV { out: Set::empty(), power_access: None, power_action: None },
        library: LibraryV {
            selected_host: None,
            games: Seq::empty(),
            groups: Seq::empty(),
            art: Set::empty(),
            running: Set::empty(),
            running_last: None,
        },
        hosts: HostsV {
            known: l.known_hosts,
            entries: known_rows(l.known_hosts, l.profiles, l.known_hosts.len() as int),
            reachable: Seq::empty(),
            reach_last: None,
            powered_down: None,
            rooted: None,
        },
        settings: l.settings,
        flags: put(Set::empty(), Flag::IntroHintOwed, l.new_build),
        screens: no_slots(),
        grid: no_grid(),
        focus_anim: None,
        modal_focus_anim: None,
        switch_anim: None,
        home_focus: HomeFocus::Sidebar(0),
        home_status: None,
        home_status_shown_at: None,
        library_status_due: None,
        toast: None,
        launch_ready: None,
        launch_anim: None,
        launch_anim_idx: None,
        card_menu: None,
        recents: l.recents,
        detected_gamepad_type: None,
        log_level: l.log_level,
        profiles: l.profiles,
        last_tick: None,
        marked_os: l.marked_os,
        effects: seq![EffectV::ReconcileCaches],
    }
}

impl AppV {
    /// The host that was selected last, if it is still saved and paired.
    pub open spec fn restore_host(self, last: Option<TargetV>, now: u64) -> AppV {
        match last {
            Some(at) => match first_pos(self.hosts.known, paired_at(at)) {
                Some(i) => self.select_host(at, self.hosts.known[i].mgmt_port, now),
                None => self,
            },
            None => self,
        }
    }

    pub open spec fn restore_overlay(self) -> AppV {
        if self.settings.show_logs {
            self.effect(EffectV::LogOverlay(true))
        } else {
            self
        }
    }
}

/// The menu as it comes up.
pub open spec fn started(l: LoadedV, now: u64) -> AppV {
    blank(l).restore_host(l.selected_host, now).restore_overlay()
}

/// The document as it was loaded is the document as it would be written, save for a selection that
/// could not be restored.
pub proof fn law_startup_loses_nothing(l: LoadedV, now: u64)
    ensures
        started(l, now).persisted().settings == l.settings,
        started(l, now).persisted().known_hosts == l.known_hosts,
        started(l, now).persisted().profiles == l.profiles,
        started(l, now).persisted().selected_host is None || started(l, now).persisted().selected_host
            == l.selected_host,
        started(l, now).recents == l.recents,
{
}

/// A host that was forgotten or unpaired meanwhile is not selected again.
pub proof fn law_only_paired_host_restored(l: LoadedV, now: u64)
    ensures
        started(l, now).library.selected_host matches Some(at) ==> exists|i: int|
            0 <= i < l.known_hosts.len() && (#[trigger] l.known_hosts[i]).addr == at.host && l.known_hosts[i].port
                == at.port && l.known_hosts[i].is_paired(),
{
    match l.selected_host {
        Some(at) => {
            crate::seqs::lemma_first_from(l.known_hosts, paired_at(at), 0);
            match first_pos(l.known_hosts, paired_at(at)) {
                Some(i) => {
                    assert(paired_at(at)(l.known_hosts[i]));
                },
                None => {},
            }
        },
        None => {},
    }
}

impl App {
    fn blank(l: Loaded) -> (r: App)
        ensures
            r@ == blank(l@),
            r.wf(),
    {
        let entries = known_entries(&l.known_hosts, &l.profiles);
        let mut flags = Flags::new();
        flags.set(Flag::IntroHintOwed, l.new_build);
        let mut hosts = HostsState::new();
        assert(hosts@.known.len() == 0);
        hosts.known = l.known_hosts;
        hosts.entries = entries;
        let mut effects: Vec<Effect> = Vec::new();
        effects.push(Effect::ReconcileCaches);
        assert(views(effects@) =~= seq![EffectV::ReconcileCaches]);
        assert(host_views(l.known_hosts@).len() == l.known_hosts@.len());
        App {
            nav: Nav::new(),
            jobs: Jobs::new(),
            library: Library::new(),
            hosts,
            settings: l.settings,
            flags,
            screens: empty_slots(),
            grid: GridState::default(),
            focus_anim: None,
            modal_focus_anim: None,
            switch_anim: None,
            home_focus: HomeFocus::Sidebar(0),
            home_status: None,
            home_status_shown_at: None,
            library_status_due: None,
            toast: None,
            launch_ready: None,
            launch_anim: None,
            launch_anim_idx: None,
            card_menu: None,
            recents: l.recents,
            detected_gamepad_type: None,
            log_level: l.log_level,
            profiles: l.profiles,
            last_tick: None,
            marked_os: l.marked_os,
            effects,
        }
    }

    fn restore_host(&mut self, last: Option<Target>, now: u64)
        ensures
            final(self)@ == old(self)@.restore_host(target_of(last), now),
            final(self).wf() == old(self).wf(),
    {
        let at: Target = match last {
            Some(at) => at,
            None => {
                return;
            },
        };
        let ghost p = paired_at(at@);
        let paired = |h: &KnownHost| -> (b: bool)
            ensures
                b == p(h@),
            {
                same_text(h.addr.as_str(), at.host.as_str()) && h.port == at.port && h.is_paired()
            };
        let found = find_by(&self.hosts.known, paired, Ghost(p));
        match found {
            Some(i) => {
                assert(self@.hosts.known[i as int] == self.hosts.known@[i as int]@);
                let mgmt_port: Option<u16> = self.hosts.known[i].mgmt_port;
                self.select_host(at.host, at.port, mgmt_port, now);
            },
            None => {},
        }
    }

    /// The menu as it comes up: what was saved, on the host that was selected last where that is
    /// still saved and paired.
    pub fn new(mut loaded: Loaded, now: u64) -> (r: App)
        ensures
            r@ == started(loaded@, now),
            r.wf(),
    {
        let ghost all = loaded@;
        let last: Option<Target> = loaded.selected_host.take();
        let ghost rest = loaded@;
        let mut app = App::blank(loaded);
        assert(blank(rest) == blank(all));
        app.restore_host(last, now);
        if app.settings.show_logs {
            app.ask(Effect::LogOverlay(true));
        }
        app
    }
}

} // verus!
