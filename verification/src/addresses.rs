//! Adding a host by its address, and changing the address of a saved one.
use vstd::prelude::*;
use crate::app::{App, AppV};
use crate::hosts::{entry_pos, find_entry, find_host, host_is_not, host_pos, EntryV, HostEntry, HostsState, HostsV};
use crate::model::{
    binding_views, collection_views, host_views, is_target, ExitAction, HomeFocus, HostV, KnownHost, MenuEvent, Screen,
    Target, TargetV,
};
use crate::library::LibraryV;
use crate::seqs::keep;
use crate::slots::{Effect, EffectV, ScreensV};
use crate::text::{decimal, decimal_text, erase, erased, join3, texts};

verus! {

/// The port a bare address means.
pub const FIXED_HOST_PORT: u16 = 9777;

/// What a host added by hand is called: its address, with the port where that is not the usual
/// one, so that two ports of one address stay tellable apart.
pub open spec fn typed_name(host: Seq<char>, port: u16) -> Seq<char> {
    if port == FIXED_HOST_PORT {
        host
    } else {
        host + ":"@ + decimal(port as nat)
    }
}

/// Two ports of one address get different names.
pub proof fn law_typed_names_differ(host: Seq<char>, a: u16, b: u16)
    requires
        a != b,
    ensures
        typed_name(host, a) != typed_name(host, b),
{
    let (x, y) = (typed_name(host, a), typed_name(host, b));
    if x == y {
        reveal_strlit(":");
        let k = host.len() as int + 1;
        if a == FIXED_HOST_PORT {
            assert(y.len() >= k);
        } else if b == FIXED_HOST_PORT {
            assert(x.len() >= k);
        } else {
            assert(x.subrange(k, x.len() as int) =~= decimal(a as nat));
            assert(y.subrange(k, y.len() as int) =~= decimal(b as nat));
            crate::text::lemma_decimal_injective(a as nat, b as nat);
        }
    }
}

/// A host that is known by its address alone.
pub open spec fn bare_host(host: Seq<char>, port: u16) -> HostV {
    HostV {
        name: typed_name(host, port),
        addr: host,
        port,
        mgmt_port: None,
        mac: Seq::empty(),
        os: Seq::empty(),
        pin: None,
        wol_auto: false,
        exit_action: ExitAction::Nothing,
        profile_id: None,
        pinned_profiles: Seq::empty(),
        game_profiles: Seq::empty(),
        collections: Seq::empty(),
    }
}

fn make_bare_host(host: String, port: u16) -> (r: KnownHost)
    ensures
        r@ == bare_host(host@, port),
{
    let name: String = if port == FIXED_HOST_PORT {
        host.clone()
    } else {
        join3(host.as_str(), ":", decimal_text(port as u128).as_str())
    };
    let r = KnownHost {
        name,
        addr: host,
        port,
        mgmt_port: None,
        mac: Vec::new(),
        os: String::new(),
        pin: None,
        wol_auto: false,
        exit_action: ExitAction::Nothing,
        profile_id: None,
        pinned_profiles: Vec::new(),
        game_profiles: Vec::new(),
        collections: Vec::new(),
    };
    assert(texts(r.mac@) =~= Seq::empty());
    assert(texts(r.pinned_profiles@) =~= Seq::empty());
    assert(binding_views(r.game_profiles@) =~= Seq::empty());
    assert(collection_views(r.collections@) =~= Seq::empty());
    r
}

impl HostsV {
    /// A host saved, unless one is saved at its address: that one's record is kept as it is.
    ///
    /// What is settled is that adding a paired host again neither unpairs it nor touches its
    /// settings. That the older record is kept whole is a choice made here: a host edited onto the
    /// address of another saved one is merged into that one, and its own name and pairing go.
    pub open spec fn upsert(self, h: HostV) -> HostsV {
        match host_pos(self.known, h.addr, h.port) {
            Some(_) => self,
            None => HostsV { known: self.known.push(h), ..self },
        }
    }
}

impl HostsState {
    /// Saves a host, unless one is saved at its address: that one's record is kept whole, which is a
    /// choice made here.
    pub fn upsert(&mut self, host: KnownHost)
        ensures
            final(self)@ == old(self)@.upsert(host@),
    {
        if find_host(&self.known, host.addr.as_str(), host.port).is_some() {
            return;
        }
        let ghost before = self.known@;
        let ghost v = host@;
        self.known.push(host);
        assert(host_views(self.known@) =~= host_views(before).push(v));
    }
}

impl AppV {
    pub open spec fn with_address(self, typed: Seq<char>) -> AppV {
        AppV { screens: ScreensV { add_host: typed, ..self.screens }, ..self }
    }

    pub open spec fn upserted(self, h: HostV) -> AppV {
        AppV { hosts: self.hosts.upsert(h), ..self }
    }

    /// Focus on the row of an endpoint, on the first row where it has none.
    pub open spec fn focus_endpoint(self, at: TargetV, now: u64) -> AppV {
        self.set_home_focus(
            HomeFocus::Sidebar(
                match entry_pos(self.hosts.entries, at.host, at.port) {
                    Some(i) => i as usize,
                    None => 0,
                },
            ),
            now,
        )
    }

    /// A typed address added, once it is complete.
    pub open spec fn confirm_add_host(self, typed: Option<TargetV>, now: u64) -> AppV {
        match typed {
            Some(at) => self.upserted(bare_host(at.host, at.port)).persist().rebuild_entries().focus_endpoint(
                at,
                now,
            ).show(Screen::Home),
            None => self,
        }
    }

    #[verifier::opaque]
    pub open spec fn handle_add_host_event(self, ev: MenuEvent, typed: Option<TargetV>, now: u64) -> AppV {
        match ev {
            MenuEvent::Left => self.with_address(erased(self.screens.add_host)),
            MenuEvent::Right => self.effect(EffectV::AdvanceAddress),
            MenuEvent::Confirm => self.confirm_add_host(typed, now),
            MenuEvent::Back => self.show(Screen::Home),
            _ => self,
        }
    }

    pub open spec fn open_add_host(self) -> AppV {
        self.with_address(Seq::empty()).show(Screen::AddHost)
    }

    /// The address form opened on a saved host, filled with what it has. How that reads is a choice
    /// made here: as the name of a host added by hand, with the port where it is not the usual one.
    pub open spec fn open_edit_host(self, idx: usize) -> AppV {
        if idx < self.hosts.entries.len() {
            match self.hosts.entries[idx as int] {
                EntryV::Known(h) => self.with_address(typed_name(h.addr, h.port)).enter(Screen::EditHost, 0),
                _ => self,
            }
        } else {
            self
        }
    }

    pub open spec fn close_edit_host(self) -> AppV {
        self.latch_host_menu_power().show(Screen::HostMenu)
    }

    /// A host's record at another address: its name, its pairing and everything else kept.
    pub open spec fn readdressed(self, was: HostV, at: TargetV) -> AppV {
        AppV {
            hosts: HostsV {
                known: keep(self.hosts.known, host_is_not(was.addr, was.port)),
                ..self.hosts
            }.upsert(HostV { addr: at.host, port: at.port, ..was }),
            ..self
        }.effect(EffectV::ReconcileCaches).persist().rebuild_entries()
    }

    pub open spec fn reselect(self, was: TargetV, at: TargetV) -> AppV {
        if self.library.selected_host == Some(was) {
            AppV { library: LibraryV { selected_host: Some(at), ..self.library }, ..self }
        } else {
            self
        }
    }

    /// The focus and the menu carried to the host's new row.
    pub open spec fn follow_host(self, at: TargetV, now: u64) -> AppV {
        match entry_pos(self.hosts.entries, at.host, at.port) {
            Some(row) => {
                let focused = self.set_home_focus(HomeFocus::Sidebar(row as usize), now);
                AppV { screens: ScreensV { host_menu_index: Some(row as usize), ..focused.screens }, ..focused }
            },
            None => self,
        }
    }

    /// A typed address written over a saved host's.
    pub open spec fn confirm_edit_host(self, typed: Option<TargetV>, now: u64) -> AppV {
        match (typed, self.host_menu_entry()) {
            (Some(at), Some(EntryV::Known(was))) => {
                let old_at = TargetV { host: was.addr, port: was.port };
                if at == old_at {
                    self.close_edit_host()
                } else {
                    self.readdressed(was, at).reselect(old_at, at).follow_host(at, now).dirty_grid().close_edit_host()
                }
            },
            _ => self,
        }
    }

    #[verifier::opaque]
    pub open spec fn handle_edit_host_event(self, ev: MenuEvent, typed: Option<TargetV>, now: u64) -> AppV {
        match ev {
            MenuEvent::Left => self.with_address(erased(self.screens.add_host)),
            MenuEvent::Right => self.effect(EffectV::AdvanceAddress),
            MenuEvent::Confirm => self.confirm_edit_host(typed, now),
            MenuEvent::Back => self.close_edit_host(),
            _ => self,
        }
    }
}

/// Adding a host that is saved already neither unpairs it nor touches its settings.
pub proof fn law_adding_again_keeps_record(hosts: HostsV, h: HostV)
    requires
        host_pos(hosts.known, h.addr, h.port) is Some,
    ensures
        hosts.upsert(h) == hosts,
{
}

/// A host that was not saved is saved by adding it.
pub proof fn law_added_host_is_saved(hosts: HostsV, h: HostV)
    ensures
        host_pos(hosts.upsert(h).known, h.addr, h.port) is Some,
{
    let p = crate::hosts::host_is(h.addr, h.port);
    let after = hosts.upsert(h).known;
    crate::seqs::lemma_first_from(after, p, 0);
    if host_pos(hosts.known, h.addr, h.port) is None {
        assert(p(after[hosts.known.len() as int]));
    }
}

/// A host keeps its pairing, its name and its shelves through a change of address, where no other
/// host is saved at the new one.
pub proof fn law_readdressed_host_keeps_identity(app: AppV, was: HostV, at: TargetV)
    requires
        host_pos(app.hosts.known, at.host, at.port) is None,
    ensures
        app.readdressed(was, at).hosts.host_at(at) == Some(HostV { addr: at.host, port: at.port, ..was }),
{
    let p = crate::hosts::host_is(at.host, at.port);
    let kept = keep(app.hosts.known, host_is_not(was.addr, was.port));
    crate::seqs::lemma_first_from(app.hosts.known, p, 0);
    crate::seqs::lemma_keep(app.hosts.known, host_is_not(was.addr, was.port));
    crate::seqs::lemma_first_from(kept, p, 0);
    match crate::seqs::first_pos(kept, p) {
        Some(i) => {
            assert(kept.contains(kept[i]));
            assert(app.hosts.known.contains(kept[i]));
            let j = choose|j: int| 0 <= j < app.hosts.known.len() && app.hosts.known[j] == kept[i];
            assert(p(app.hosts.known[j]));
        },
        None => {},
    }
    let h = HostV { addr: at.host, port: at.port, ..was };
    let after = kept.push(h);
    assert forall|j: int| 0 <= j < kept.len() implies !p(#[trigger] after[j]) by {
        assert(after[j] == kept[j]);
    }
    assert(p(after[kept.len() as int]));
    crate::seqs::lemma_first_is(after, p, kept.len() as int);
    assert(app.readdressed(was, at).hosts.known == after);
}

impl App {
    /// Opens the form for a new host.
    pub fn open_add_host(&mut self)
        ensures
            final(self)@ == old(self)@.open_add_host(),
            final(self).wf() == old(self).wf(),
    {
        self.screens.add_host = String::new();
        self.nav.screen = Screen::AddHost;
    }

    /// Replaces what is typed in the address form.
    pub fn set_address(&mut self, typed: String)
        ensures
            final(self)@ == old(self)@.with_address(typed@),
            final(self).wf() == old(self).wf(),
    {
        self.screens.add_host = typed;
    }

    /// Adds the typed address, `None` while it is not complete.
    pub fn confirm_add_host(&mut self, typed: Option<Target>, now: u64)
        ensures
            final(self)@ == old(self)@.confirm_add_host(crate::model::target_of(typed), now),
            final(self).wf() == old(self).wf(),
    {
        let at: Target = match typed {
            Some(at) => at,
            None => {
                return;
            },
        };
        self.hosts.upsert(make_bare_host(at.host.clone(), at.port));
        self.persist();
        self.rebuild_entries();
        let row: usize = match find_entry(&self.hosts.entries, at.host.as_str(), at.port) {
            Some(i) => i,
            None => 0,
        };
        self.set_home_focus(HomeFocus::Sidebar(row), now);
        self.nav.screen = Screen::Home;
    }

    /// Handles one event on the form for a new host. Left and Right stand in for erasing and for
    /// the next field.
    pub fn handle_add_host_event(&mut self, ev: MenuEvent, typed: Option<Target>, now: u64)
        ensures
            final(self)@ == old(self)@.handle_add_host_event(ev, crate::model::target_of(typed), now),
            final(self).wf() == old(self).wf(),
    {
        proof {
            reveal(AppV::handle_add_host_event);
        }
        match ev {
            MenuEvent::Left => {
                erase(&mut self.screens.add_host);
            },
            MenuEvent::Right => {
                self.ask(Effect::AdvanceAddress);
            },
            MenuEvent::Confirm => {
                self.confirm_add_host(typed, now);
            },
            MenuEvent::Back => {
                self.nav.screen = Screen::Home;
            },
            _ => {},
        }
    }

    /// Opens the form on a saved host's address. Nothing for a row that is not a saved host.
    pub fn open_edit_host(&mut self, idx: usize)
        ensures
            final(self)@ == old(self)@.open_edit_host(idx),
            final(self).wf() == old(self).wf(),
    {
        if idx >= self.hosts.entries.len() {
            return;
        }
        assert(self@.hosts.entries[idx as int] == self.hosts.entries@[idx as int]@);
        let typed: String = match &self.hosts.entries[idx] {
            HostEntry::Known(h) => {
                if h.port == FIXED_HOST_PORT {
                    h.addr.clone()
                } else {
                    join3(h.addr.as_str(), ":", decimal_text(h.port as u128).as_str())
                }
            },
            _ => {
                return;
            },
        };
        self.screens.add_host = typed;
        self.nav.enter(Screen::EditHost, 0);
    }

    fn close_edit_host(&mut self)
        ensures
            final(self)@ == old(self)@.close_edit_host(),
            final(self).wf() == old(self).wf(),
    {
        self.latch_host_menu_power();
        self.nav.screen = Screen::HostMenu;
    }

    fn readdress(&mut self, was: &KnownHost, at: &Target)
        ensures
            final(self)@ == old(self)@.readdressed(was@, at@),
            final(self).wf() == old(self).wf(),
    {
        let mut moved = was.clone();
        moved.addr = at.host.clone();
        moved.port = at.port;
        assert(moved@ == (HostV { addr: at.host@, port: at.port, ..was@ }));
        self.hosts.drop_known(was.addr.as_str(), was.port);
        self.hosts.upsert(moved);
        // The address is the key of the cached art, so the old one's is orphaned.
        self.ask(Effect::ReconcileCaches);
        self.persist();
        self.rebuild_entries();
    }

    fn follow_host(&mut self, at: &Target, now: u64)
        ensures
            final(self)@ == old(self)@.follow_host(at@, now),
            final(self).wf() == old(self).wf(),
    {
        match find_entry(&self.hosts.entries, at.host.as_str(), at.port) {
            Some(row) => {
                self.set_home_focus(HomeFocus::Sidebar(row), now);
                self.screens.host_menu_index = Some(row);
            },
            None => {},
        }
    }

    /// Writes the typed address over the saved host's, keeping its identity.
    pub fn confirm_edit_host(&mut self, typed: Option<Target>, now: u64)
        ensures
            final(self)@ == old(self)@.confirm_edit_host(crate::model::target_of(typed), now),
            final(self).wf() == old(self).wf(),
    {
        let at: Target = match typed {
            Some(at) => at,
            None => {
                return;
            },
        };
        let was: KnownHost = match self.host_menu_entry() {
            Some(HostEntry::Known(h)) => h.clone(),
            _ => {
                return;
            },
        };
        if at.host == was.addr && at.port == was.port {
            self.close_edit_host();
            return;
        }
        self.readdress(&was, &at);
        if is_target(&self.library.selected_host, &was.addr, was.port) {
            self.library.selected_host = Some(at.clone());
        }
        self.follow_host(&at, now);
        self.grid.dirty = true;
        self.close_edit_host();
    }

    /// Handles one event on a saved host's address form.
    pub fn handle_edit_host_event(&mut self, ev: MenuEvent, typed: Option<Target>, now: u64)
        ensures
            final(self)@ == old(self)@.handle_edit_host_event(ev, crate::model::target_of(typed), now),
            final(self).wf() == old(self).wf(),
    {
        proof {
            reveal(AppV::handle_edit_host_event);
        }
        match ev {
            MenuEvent::Left => {
                erase(&mut self.screens.add_host);
            },
            MenuEvent::Right => {
                self.ask(Effect::AdvanceAddress);
            },
            MenuEvent::Confirm => {
                self.confirm_edit_host(typed, now);
            },
            MenuEvent::Back => {
                self.close_edit_host();
            },
            _ => {},
        }
    }
}

} // verus!
