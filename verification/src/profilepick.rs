//! The list of profiles, opened for four purposes: a host's default, a one-off connection, a
//! title's binding, and the host's pinned cards. What a pick does is the purpose's.
use vstd::prelude::*;
use crate::app::{App, AppV};
use crate::hosts::{find_profile, profile_pos};
use crate::model::{host_views, HostV, KnownHost, MenuEvent, ProfileV, Screen, TargetV};
use crate::slots::{ProfilePick, ProfilePickV, ScreensV};
use crate::text::{find_text, has_text, is_text, join3, text_of, texts};

verus! {

/// One row of the list.
pub struct PickRow {
    /// The profile's name, `None` for the row that picks none.
    pub name: Option<String>,
    /// The current choice, or one of the pinned ones.
    pub marked: bool,
}

pub struct PickRowV {
    pub name: Option<Seq<char>>,
    pub marked: bool,
}

impl View for PickRow {
    type V = PickRowV;

    open spec fn view(&self) -> PickRowV {
        PickRowV { name: text_of(self.name), marked: self.marked }
    }
}

/// A list with `id` taken out where it is in, and put last where it is not.
pub open spec fn toggled(pins: Seq<Seq<char>>, id: Seq<char>) -> Seq<Seq<char>> {
    match pins.index_of_first(id) {
        Some(i) => pins.remove(i),
        None => pins.push(id),
    }
}

/// Pinning twice is as not pinning at all, for a profile that is pinned at most once.
pub proof fn law_toggle_undone(pins: Seq<Seq<char>>, id: Seq<char>)
    requires
        !pins.contains(id),
    ensures
        toggled(toggled(pins, id), id) == pins,
        toggled(pins, id).contains(id),
{
    pins.index_of_first_ensures(id);
    let on = pins.push(id);
    assert(on[pins.len() as int] == id);
    assert(on.contains(id));
    on.index_of_first_ensures(id);
    let i = on.index_of_first(id)->0;
    if i < pins.len() {
        assert(pins[i] == id);
        assert(pins.contains(id));
    }
    assert(on.remove(pins.len() as int) =~= pins);
}

impl HostV {
    pub open spec fn toggle_pin(self, id: Seq<char>) -> HostV {
        HostV { pinned_profiles: toggled(self.pinned_profiles, id), ..self }
    }
}

impl KnownHost {
    /// Pins a profile under the host, or takes it off.
    pub fn toggle_pin(&mut self, id: String)
        ensures
            final(self)@ == old(self)@.toggle_pin(id@),
    {
        let ghost before = self.pinned_profiles@;
        let ghost v = id@;
        proof {
            texts(before).index_of_first_ensures(v);
        }
        match find_text(&self.pinned_profiles, id.as_str()) {
            Some(i) => {
                self.pinned_profiles.remove(i);
                assert(texts(self.pinned_profiles@) =~= texts(before).remove(i as int));
            },
            None => {
                self.pinned_profiles.push(id);
                assert(texts(self.pinned_profiles@) =~= texts(before).push(v));
            },
        }
    }
}

impl ProfilePickV {
    /// How many rows lead the profiles.
    pub open spec fn lead(self) -> nat {
        if self.has_none() {
            1
        } else {
            0
        }
    }
}

/// The rows of the first `n` profiles.
pub open spec fn profile_rows(
    profiles: Seq<ProfileV>,
    current: Option<Seq<char>>,
    pinned: Seq<Seq<char>>,
    n: int,
) -> Seq<PickRowV>
    decreases n,
{
    if n <= 0 {
        Seq::empty()
    } else {
        let p = profiles[n - 1];
        profile_rows(profiles, current, pinned, n - 1).push(
            PickRowV { name: Some(p.name), marked: current == Some(p.id) || pinned.contains(p.id) },
        )
    }
}

impl AppV {
    /// The profile that the purpose points at now.
    pub open spec fn pick_current(self, pick: ProfilePickV) -> Option<Seq<char>> {
        match pick {
            ProfilePickV::HostDefault(at) => match self.hosts.host_at(at) {
                Some(h) => h.profile_id,
                None => None,
            },
            ProfilePickV::BindGame { pin_id, title } => match self.selected_known_host() {
                Some(h) => h.game_profile(pin_id),
                None => None,
            },
            _ => None,
        }
    }

    /// The row the list opens on: the current choice's.
    pub open spec fn pick_row(self, pick: ProfilePickV) -> usize {
        match self.pick_current(pick) {
            Some(id) => match profile_pos(self.profiles, id) {
                Some(i) => crate::app::index_sum(i as nat, pick.lead()),
                None => 0,
            },
            None => 0,
        }
    }

    pub open spec fn open_pick_profile(self, pick: ProfilePickV) -> AppV {
        if self.profiles.len() == 0 && !pick.has_none() {
            self
        } else {
            AppV { screens: ScreensV { profile_pick: Some(pick), ..self.screens }, ..self }.enter(
                Screen::PickProfile,
                self.pick_row(pick),
            )
        }
    }

    /// How many rows the list has.
    pub open spec fn pick_profile_row_count(self) -> nat {
        match self.screens.profile_pick {
            Some(pick) => pick.lead() + self.profiles.len(),
            None => 0,
        }
    }

    /// The list: an optional "None", then every profile, the current choice marked.
    pub open spec fn pick_profile_rows(self) -> Seq<PickRowV> {
        match self.screens.profile_pick {
            Some(pick) => {
                let current = self.pick_current(pick);
                let pinned = match pick {
                    ProfilePickV::Pin(at) => match self.hosts.host_at(at) {
                        Some(h) => h.pinned_profiles,
                        None => Seq::empty(),
                    },
                    _ => Seq::empty(),
                };
                let rows = profile_rows(self.profiles, current, pinned, self.profiles.len() as int);
                if pick.has_none() {
                    seq![PickRowV { name: None, marked: current is None }] + rows
                } else {
                    rows
                }
            },
            None => Seq::empty(),
        }
    }

    pub open spec fn pick_profile_subtitle(self) -> Option<Seq<char>> {
        match self.screens.profile_pick {
            Some(ProfilePickV::ConnectWith(at)) => Some(
                "Stream "@ + self.name_of(at) + "'s desktop with these settings once."@,
            ),
            Some(ProfilePickV::HostDefault(at)) => Some(
                "What "@ + self.name_of(at) + " streams with when a title has no profile of its own."@,
            ),
            Some(ProfilePickV::BindGame { pin_id, title }) => Some("The settings "@ + title + " streams with."@),
            Some(ProfilePickV::Pin(at)) => Some(
                "Each pinned profile is a card under "@ + self.name_of(at) + " in the host list."@,
            ),
            None => None,
        }
    }

    pub open spec fn with_pick(self, pick: Option<ProfilePickV>) -> AppV {
        AppV { screens: ScreensV { profile_pick: pick, ..self.screens }, ..self }
    }

    /// The list closed: back to the card it was raised from, or to the host menu.
    pub open spec fn close_pick_profile(self) -> AppV {
        let gone = self.with_pick(None);
        match self.screens.profile_pick {
            None => gone.close_card_menu().show(Screen::Home),
            Some(ProfilePickV::BindGame { .. }) => gone.close_card_menu().show(Screen::Home),
            Some(_) => gone.show(Screen::HostMenu),
        }
    }

    /// What a row picks: `None` for a row that is not there, `Some(None)` for "None".
    pub open spec fn picked_at(self, pick: ProfilePickV, row: usize) -> Option<Option<Seq<char>>> {
        if pick.has_none() && row == 0 {
            Some(None)
        } else if row - pick.lead() < self.profiles.len() {
            Some(Some(self.profiles[row - pick.lead()].id))
        } else {
            None
        }
    }

    pub open spec fn set_default_profile(self, at: TargetV, profile: Option<Seq<char>>) -> AppV {
        match crate::hosts::host_pos(self.hosts.known, at.host, at.port) {
            Some(i) => self.with_known(i, HostV { profile_id: profile, ..self.hosts.known[i] }),
            None => self,
        }
    }

    pub open spec fn toggle_pin(self, at: TargetV, profile: Option<Seq<char>>) -> AppV {
        match (crate::hosts::host_pos(self.hosts.known, at.host, at.port), profile) {
            (Some(i), Some(id)) => self.with_known(i, self.hosts.known[i].toggle_pin(id)),
            _ => self,
        }
    }

    /// What picking a profile, or none, does.
    pub open spec fn choose_profile(self, pick: ProfilePickV, chosen: Option<Seq<char>>, now: u64) -> AppV {
        match pick {
            ProfilePickV::HostDefault(at) => self.set_default_profile(at, chosen).persist().close_pick_profile(),
            ProfilePickV::BindGame { pin_id, title } => self.bind_selected(
                pin_id,
                chosen,
            ).persist().close_pick_profile(),
            ProfilePickV::Pin(at) => self.toggle_pin(at, chosen).persist().rebuild_entries(),
            ProfilePickV::ConnectWith(at) => AppV {
                screens: ScreensV { profile_pick: None, host_menu_index: None, ..self.screens },
                ..self
            }.show(Screen::Home).connect_desktop_with(at, chosen, now),
        }
    }

    pub open spec fn confirm_pick_profile(self, now: u64) -> AppV {
        match self.screens.profile_pick {
            Some(pick) => match self.picked_at(pick, self.nav.cursor(Screen::PickProfile)) {
                Some(chosen) => self.choose_profile(pick, chosen, now),
                None => self,
            },
            None => self,
        }
    }

    #[verifier::opaque]
    pub open spec fn handle_pick_profile_event(self, ev: MenuEvent, now: u64) -> AppV {
        match self.list_nav(self.pick_profile_row_count(), ev, now) {
            Some(moved) => moved,
            None => match ev {
                MenuEvent::Confirm => self.confirm_pick_profile(now),
                MenuEvent::Back => self.close_pick_profile(),
                MenuEvent::Secondary => self.close_pick_profile(),
                _ => self,
            },
        }
    }
}

/// The list never opens with nothing in it.
pub proof fn law_pick_never_empty(app: AppV, pick: ProfilePickV)
    requires
        app.nav.screen != Screen::PickProfile,
        app.open_pick_profile(pick).nav.screen == Screen::PickProfile,
    ensures
        app.open_pick_profile(pick).pick_profile_row_count() >= 1,
{
}

/// The rows that are drawn are the rows that are stepped through.
pub proof fn law_pick_rows_counted(app: AppV)
    ensures
        app.pick_profile_rows().len() == app.pick_profile_row_count(),
{
    match app.screens.profile_pick {
        Some(pick) => {
            let current = app.pick_current(pick);
            let pinned = match pick {
                ProfilePickV::Pin(at) => match app.hosts.host_at(at) {
                    Some(h) => h.pinned_profiles,
                    None => Seq::empty(),
                },
                _ => Seq::empty(),
            };
            lemma_profile_rows_len(app.profiles, current, pinned, app.profiles.len() as int);
        },
        None => {},
    }
}

proof fn lemma_profile_rows_len(
    profiles: Seq<ProfileV>,
    current: Option<Seq<char>>,
    pinned: Seq<Seq<char>>,
    n: int,
)
    requires
        n >= 0,
    ensures
        profile_rows(profiles, current, pinned, n).len() == n,
    decreases n,
{
    if n > 0 {
        lemma_profile_rows_len(profiles, current, pinned, n - 1);
    }
}

impl App {
    fn pick_current(&self, pick: &ProfilePick) -> (r: Option<String>)
        ensures
            text_of(r) == self@.pick_current(pick@),
    {
        match pick {
            ProfilePick::HostDefault(at) => match self.known_host(at.host.as_str(), at.port) {
                Some(i) => match &self.hosts.known[i].profile_id {
                    Some(id) => Some(id.clone()),
                    None => None,
                },
                None => None,
            },
            ProfilePick::BindGame { pin_id, .. } => match self.selected_known_host() {
                Some(i) => self.hosts.known[i].game_profile(pin_id.as_str()),
                None => None,
            },
            _ => None,
        }
    }

    /// Raises the list on the current choice. With no profile and no "None" there is nothing to
    /// pick, and it stays down.
    pub fn open_pick_profile(&mut self, pick: ProfilePick)
        ensures
            final(self)@ == old(self)@.open_pick_profile(pick@),
            final(self).wf() == old(self).wf(),
    {
        let none: bool = pick.has_none();
        if self.profiles.len() == 0 && !none {
            return;
        }
        let lead: usize = if none {
            1
        } else {
            0
        };
        let cursor: usize = match self.pick_current(&pick) {
            Some(id) => match find_profile(&self.profiles, id.as_str()) {
                Some(i) => crate::app::add_index(i, lead),
                None => 0,
            },
            None => 0,
        };
        self.screens.profile_pick = Some(pick);
        self.nav.enter(Screen::PickProfile, cursor);
    }

    /// How many rows the list has.
    pub fn pick_profile_row_count(&self) -> (r: usize)
        requires
            self.profiles.len() < usize::MAX,
        ensures
            r == self@.pick_profile_row_count(),
    {
        match &self.screens.profile_pick {
            Some(pick) => {
                if pick.has_none() {
                    self.profiles.len() + 1
                } else {
                    self.profiles.len()
                }
            },
            None => 0,
        }
    }

    /// The line under the list's title.
    pub fn pick_profile_subtitle(&self) -> (r: Option<String>)
        ensures
            text_of(r) == self@.pick_profile_subtitle(),
    {
        match &self.screens.profile_pick {
            Some(ProfilePick::ConnectWith(at)) => {
                let name = self.name_of(at.host.as_str(), at.port);
                Some(join3("Stream ", name.as_str(), "'s desktop with these settings once."))
            },
            Some(ProfilePick::HostDefault(at)) => {
                let name = self.name_of(at.host.as_str(), at.port);
                Some(join3("What ", name.as_str(), " streams with when a title has no profile of its own."))
            },
            Some(ProfilePick::BindGame { title, .. }) => Some(
                join3("The settings ", title.as_str(), " streams with."),
            ),
            Some(ProfilePick::Pin(at)) => {
                let name = self.name_of(at.host.as_str(), at.port);
                Some(join3("Each pinned profile is a card under ", name.as_str(), " in the host list."))
            },
            None => None,
        }
    }

    /// The list's rows.
    pub fn pick_profile_rows(&self) -> (r: Vec<PickRow>)
        ensures
            crate::seqs::views(r@) == self@.pick_profile_rows(),
    {
        let mut rows: Vec<PickRow> = Vec::new();
        let pick: &ProfilePick = match &self.screens.profile_pick {
            Some(pick) => pick,
            None => {
                assert(crate::seqs::views(rows@) =~= Seq::empty());
                return rows;
            },
        };
        let current = self.pick_current(pick);
        let mut pinned: Vec<String> = Vec::new();
        assert(texts(pinned@) =~= Seq::empty());
        match pick {
            ProfilePick::Pin(at) => match self.known_host(at.host.as_str(), at.port) {
                Some(i) => {
                    pinned = crate::text::copy_texts(&self.hosts.known[i].pinned_profiles);
                },
                None => {},
            },
            _ => {},
        }
        if pick.has_none() {
            rows.push(PickRow { name: None, marked: current.is_none() });
        }
        let ghost lead = crate::seqs::views(rows@);
        let ghost cur = text_of(current);
        let ghost pins = texts(pinned@);
        let ghost all = self@.profiles;
        assert(lead =~= (if pick@.has_none() {
            seq![PickRowV { name: None, marked: cur is None }]
        } else {
            Seq::empty()
        }));
        let mut i: usize = 0;
        while i < self.profiles.len()
            invariant
                i <= self.profiles.len(),
                all == crate::model::profile_views(self.profiles@),
                cur == text_of(current),
                pins == texts(pinned@),
                crate::seqs::views(rows@) == lead + profile_rows(all, cur, pins, i as int),
            decreases self.profiles.len() - i,
        {
            let p = &self.profiles[i];
            assert(all[i as int] == self.profiles@[i as int]@);
            let marked: bool = is_text(&current, p.id.as_str()) || has_text(&pinned, p.id.as_str());
            let row = PickRow { name: Some(p.name.clone()), marked };
            let ghost before = rows@;
            let ghost v = row@;
            rows.push(row);
            assert(crate::seqs::views(rows@) =~= crate::seqs::views(before).push(v));
            assert(crate::seqs::views(rows@) =~= lead + profile_rows(all, cur, pins, i + 1));
            i = i + 1;
        }
        assert(crate::seqs::views(rows@) =~= self@.pick_profile_rows());
        rows
    }

    fn close_pick_profile(&mut self)
        ensures
            final(self)@ == old(self)@.close_pick_profile(),
            final(self).wf() == old(self).wf(),
    {
        let to_menu: bool = match &self.screens.profile_pick {
            None => false,
            Some(ProfilePick::BindGame { .. }) => false,
            Some(_) => true,
        };
        self.screens.profile_pick = None;
        if to_menu {
            self.nav.screen = Screen::HostMenu;
        } else {
            self.close_card_menu();
            self.nav.screen = Screen::Home;
        }
    }

    fn set_default_profile(&mut self, host: &str, port: u16, profile: Option<String>)
        ensures
            final(self)@ == old(self)@.set_default_profile(TargetV { host: host@, port }, text_of(profile)),
            final(self).wf() == old(self).wf(),
    {
        match self.known_host(host, port) {
            Some(i) => {
                let ghost before = self.hosts.known@;
                let ghost v = text_of(profile);
                self.hosts.known[i].profile_id = profile;
                assert(host_views(self.hosts.known@) =~= host_views(before).update(
                    i as int,
                    HostV { profile_id: v, ..before[i as int]@ },
                ));
            },
            None => {},
        }
    }

    fn toggle_pin(&mut self, host: &str, port: u16, profile: Option<String>)
        ensures
            final(self)@ == old(self)@.toggle_pin(TargetV { host: host@, port }, text_of(profile)),
            final(self).wf() == old(self).wf(),
    {
        match (self.known_host(host, port), profile) {
            (Some(i), Some(id)) => {
                let ghost before = self.hosts.known@;
                let ghost v = id@;
                self.hosts.known[i].toggle_pin(id);
                assert(host_views(self.hosts.known@) =~= host_views(before).update(
                    i as int,
                    before[i as int]@.toggle_pin(v),
                ));
            },
            _ => {},
        }
    }

    fn choose_profile(&mut self, pick: ProfilePick, chosen: Option<String>, now: u64)
        ensures
            final(self)@ == old(self)@.choose_profile(pick@, text_of(chosen), now),
            final(self).wf() == old(self).wf(),
    {
        match pick {
            ProfilePick::HostDefault(at) => {
                self.set_default_profile(at.host.as_str(), at.port, chosen);
                self.persist();
                self.close_pick_profile();
            },
            ProfilePick::BindGame { pin_id, .. } => {
                self.bind_selected(pin_id.as_str(), chosen);
                self.persist();
                self.close_pick_profile();
            },
            ProfilePick::Pin(at) => {
                // Stays up: pinning is a toggle, and the marks show the set.
                self.toggle_pin(at.host.as_str(), at.port, chosen);
                self.persist();
                self.refresh_entries();
            },
            ProfilePick::ConnectWith(at) => {
                self.screens.profile_pick = None;
                self.screens.host_menu_index = None;
                self.nav.screen = Screen::Home;
                self.connect_desktop_with(at.host.as_str(), at.port, chosen, now);
            },
        }
    }

    fn confirm_pick_profile(&mut self, now: u64)
        ensures
            final(self)@ == old(self)@.confirm_pick_profile(now),
            final(self).wf() == old(self).wf(),
    {
        let pick: ProfilePick = match &self.screens.profile_pick {
            Some(pick) => pick.clone(),
            None => {
                return;
            },
        };
        let row: usize = self.nav.cursor(Screen::PickProfile);
        let none: bool = pick.has_none();
        if none && row == 0 {
            self.choose_profile(pick, None, now);
            return;
        }
        let at: usize = if none {
            row - 1
        } else {
            row
        };
        if at < self.profiles.len() {
            assert(self@.profiles[at as int] == self.profiles@[at as int]@);
            let chosen: Option<String> = Some(self.profiles[at].id.clone());
            self.choose_profile(pick, chosen, now);
        }
    }

    /// Handles one event on the list.
    pub fn handle_pick_profile_event(&mut self, ev: MenuEvent, now: u64)
        requires
            old(self).profiles.len() < usize::MAX,
        ensures
            final(self)@ == old(self)@.handle_pick_profile_event(ev, now),
            final(self).wf() == old(self).wf(),
    {
        proof {
            reveal(AppV::handle_pick_profile_event);
        }
        let rows: usize = self.pick_profile_row_count();
        if self.list_nav_event(rows, ev, now) {
            return;
        }
        match ev {
            MenuEvent::Confirm => {
                self.confirm_pick_profile(now);
            },
            MenuEvent::Back => {
                self.close_pick_profile();
            },
            MenuEvent::Secondary => {
                self.close_pick_profile();
            },
            _ => {},
        }
    }
}

} // verus!
