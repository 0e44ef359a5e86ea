//! The settings profiles: making, naming, copying and deleting one, and the one a title streams
//! with.
use vstd::prelude::*;
use crate::app::{add_index, index_sum, App, AppV};
use crate::flags::{put, Job};
use crate::hosts::{find_profile, profile_is, profile_pos, HostsV};
use crate::knownhost::MAX_COLLECTION_NAME;
use crate::model::{
    binding_views, host_views, profile_views, Binding, BindingV, HostV, KnownHost, MenuEvent, ProfileV, Screen,
    SettingsOverlay, StreamProfile,
};
use crate::seqs::{keep, lemma_first_from, lemma_keep, retain_by};
use crate::slots::{Page, Scope, ScopeV, ScreensV, SettingsPageV};
use crate::text::{
    decimal, decimal_text, erase, erased, is_text, join2, join3, lemma_decimal_injective, same_text, text_of, trim,
    trimmed, type_char, typed,
};

verus! {

/// Said of a profile without a name.
pub const NEEDS_A_NAME: &'static str = "A profile needs a name";

/// Said of a name that another profile has.
pub const NAME_TAKEN: &'static str = "Another profile has that name";

/// Nothing overridden.
pub open spec fn no_overrides() -> SettingsOverlay {
    SettingsOverlay {
        width: None,
        height: None,
        match_window: None,
        refresh_hz: None,
        bitrate_kbps: None,
        codec: None,
        hdr_enabled: None,
        audio_channels: None,
        mouse_mode: None,
        invert_scroll: None,
        gamepad: None,
        stats_verbosity: None,
    }
}

pub fn empty_overlay() -> (r: SettingsOverlay)
    ensures
        r == no_overrides(),
{
    SettingsOverlay {
        width: None,
        height: None,
        match_window: None,
        refresh_hz: None,
        bitrate_kbps: None,
        codec: None,
        hdr_enabled: None,
        audio_channels: None,
        mouse_mode: None,
        invert_scroll: None,
        gamepad: None,
        stats_verbosity: None,
    }
}

/// Whether a profile of the catalog has this name.
pub open spec fn name_taken(catalog: Seq<ProfileV>, name: Seq<char>) -> bool {
    exists|i: int| 0 <= i < catalog.len() && (#[trigger] catalog[i]).name == name
}

/// A name with a counter behind it.
pub open spec fn numbered(wanted: Seq<char>, n: nat) -> Seq<char> {
    wanted + " "@ + decimal(n)
}

/// Whether `n` is the first counter, from 2 on, that makes a free name.
pub open spec fn first_free(catalog: Seq<ProfileV>, wanted: Seq<char>, n: nat) -> bool {
    &&& n >= 2
    &&& !name_taken(catalog, numbered(wanted, n))
    &&& forall|m: nat| 2 <= m < n ==> name_taken(catalog, #[trigger] numbered(wanted, m))
}

/// A name that is not in the catalog: the wanted one, or that with the first counter that is free.
pub open spec fn unique_name(catalog: Seq<ProfileV>, wanted: Seq<char>) -> Seq<char> {
    if name_taken(catalog, wanted) {
        numbered(wanted, choose|n: nat| first_free(catalog, wanted, n))
    } else {
        wanted
    }
}

proof fn lemma_first_free_unique(catalog: Seq<ProfileV>, wanted: Seq<char>, a: nat, b: nat)
    requires
        first_free(catalog, wanted, a),
        first_free(catalog, wanted, b),
    ensures
        a == b,
{
    if a < b {
        assert(name_taken(catalog, numbered(wanted, a)));
    }
    if b < a {
        assert(name_taken(catalog, numbered(wanted, b)));
    }
}

proof fn lemma_numbered_injective(wanted: Seq<char>, a: nat, b: nat)
    requires
        numbered(wanted, a) == numbered(wanted, b),
    ensures
        a == b,
{
    let k = (wanted + " "@).len() as int;
    let (x, y) = (numbered(wanted, a), numbered(wanted, b));
    assert(x.subrange(k, x.len() as int) =~= decimal(a));
    assert(y.subrange(k, y.len() as int) =~= decimal(b));
    lemma_decimal_injective(a, b);
}

/// The names numbered from 2 up to `2 + n`.
spec fn numbers(wanted: Seq<char>, n: nat) -> Set<Seq<char>>
    decreases n,
{
    if n == 0 {
        Set::empty()
    } else {
        numbers(wanted, (n - 1) as nat).insert(numbered(wanted, n + 1))
    }
}

proof fn lemma_numbers(wanted: Seq<char>, n: nat)
    ensures
        numbers(wanted, n).finite(),
        numbers(wanted, n).len() == n,
        forall|x: Seq<char>| #[trigger]
            numbers(wanted, n).contains(x) ==> exists|m: nat| 2 <= m < n + 2 && x == #[trigger] numbered(wanted, m),
    decreases n,
{
    if n > 0 {
        let p = (n - 1) as nat;
        lemma_numbers(wanted, p);
        let last = numbered(wanted, n + 1);
        if numbers(wanted, p).contains(last) {
            let m = choose|m: nat| 2 <= m < p + 2 && last == #[trigger] numbered(wanted, m);
            lemma_numbered_injective(wanted, m, n + 1);
        }
        assert forall|x: Seq<char>| #[trigger] numbers(wanted, n).contains(x) implies exists|m: nat|
            2 <= m < n + 2 && x == #[trigger] numbered(wanted, m) by {
            if x == last {
                assert(x == numbered(wanted, n + 1));
            } else {
                assert(numbers(wanted, p).contains(x));
            }
        }
    }
}

/// A catalog cannot have taken more counters than it has profiles.
proof fn lemma_counters_run_out(catalog: Seq<ProfileV>, wanted: Seq<char>, n: nat)
    requires
        forall|m: nat| 2 <= m < n + 2 ==> name_taken(catalog, #[trigger] numbered(wanted, m)),
    ensures
        n <= catalog.len(),
{
    lemma_numbers(wanted, n);
    let names = catalog.map_values(|p: ProfileV| p.name);
    names.lemma_cardinality_of_set();
    assert(numbers(wanted, n).subset_of(names.to_set())) by {
        assert forall|x: Seq<char>| numbers(wanted, n).contains(x) implies names.to_set().contains(x) by {
            let m = choose|m: nat| 2 <= m < n + 2 && x == #[trigger] numbered(wanted, m);
            assert(name_taken(catalog, numbered(wanted, m)));
            let i = choose|i: int| 0 <= i < catalog.len() && (#[trigger] catalog[i]).name == x;
            assert(names[i] == x);
            assert(names.contains(x));
        }
    }
    assert(names.to_set().finite());
    vstd::set_lib::lemma_len_subset(numbers(wanted, n), names.to_set());
}

proof fn lemma_some_counter_is_free(catalog: Seq<ProfileV>, wanted: Seq<char>, n: nat)
    requires
        n >= 2,
        forall|m: nat| 2 <= m < n ==> name_taken(catalog, #[trigger] numbered(wanted, m)),
    ensures
        exists|k: nat| first_free(catalog, wanted, k),
    decreases catalog.len() + 3 - n,
{
    if name_taken(catalog, numbered(wanted, n)) {
        assert forall|m: nat| 2 <= m < n + 1 implies name_taken(catalog, #[trigger] numbered(wanted, m)) by {
            if m == n {
            }
        }
        assert forall|m: nat| 2 <= m < (n - 1) as nat + 2 implies name_taken(catalog, #[trigger] numbered(wanted, m)) by {
        }
        lemma_counters_run_out(catalog, wanted, (n - 1) as nat);
        lemma_some_counter_is_free(catalog, wanted, n + 1);
    } else {
        assert(first_free(catalog, wanted, n));
    }
}

/// The name a profile gets is one that no other has.
pub proof fn law_unique_name_is_free(catalog: Seq<ProfileV>, wanted: Seq<char>)
    ensures
        !name_taken(catalog, unique_name(catalog, wanted)),
{
    if name_taken(catalog, wanted) {
        lemma_some_counter_is_free(catalog, wanted, 2);
        assert(first_free(catalog, wanted, choose|n: nat| first_free(catalog, wanted, n)));
    }
}

fn is_taken(catalog: &Vec<StreamProfile>, name: &str) -> (r: bool)
    ensures
        r == name_taken(profile_views(catalog@), name@),
{
    let mut i: usize = 0;
    while i < catalog.len()
        invariant
            i <= catalog.len(),
            forall|k: int| 0 <= k < i ==> (#[trigger] profile_views(catalog@)[k]).name != name@,
        decreases catalog.len() - i,
    {
        assert(profile_views(catalog@)[i as int] == catalog@[i as int]@);
        if same_text(catalog[i].name.as_str(), name) {
            return true;
        }
        i = i + 1;
    }
    false
}

fn numbered_text(wanted: &str, n: u128) -> (r: String)
    ensures
        r@ == numbered(wanted@, n as nat),
{
    join3(wanted, " ", decimal_text(n).as_str())
}

/// A name that is not yet in the catalog: the wanted one, or that with a counter.
pub fn free_name(catalog: &Vec<StreamProfile>, wanted: &str) -> (r: String)
    ensures
        r@ == unique_name(profile_views(catalog@), wanted@),
{
    if !is_taken(catalog, wanted) {
        return wanted.to_owned();
    }
    let ghost all = profile_views(catalog@);
    let mut n: u128 = 2;
    let mut name = numbered_text(wanted, n);
    while is_taken(catalog, name.as_str())
        invariant
            all == profile_views(catalog@),
            2 <= n <= catalog.len() + 2,
            name@ == numbered(wanted@, n as nat),
            forall|m: nat| 2 <= m < n ==> name_taken(all, #[trigger] numbered(wanted@, m)),
        decreases catalog.len() + 2 - n,
    {
        proof {
            assert forall|m: nat| 2 <= m < (n - 1) as nat + 2 implies name_taken(
                all,
                #[trigger] numbered(wanted@, m),
            ) by {
                if m == n as nat {
                }
            }
            lemma_counters_run_out(all, wanted@, (n - 1) as nat);
        }
        n = n + 1;
        name = numbered_text(wanted, n);
    }
    proof {
        assert(first_free(all, wanted@, n as nat));
        let k = choose|k: nat| first_free(all, wanted@, k);
        lemma_first_free_unique(all, wanted@, k, n as nat);
    }
    name
}

/// Whether a binding names another profile.
pub open spec fn binds_elsewhere(id: Seq<char>) -> spec_fn(BindingV) -> bool {
    |b: BindingV| b.profile != id
}

pub open spec fn profile_is_not(id: Seq<char>) -> spec_fn(ProfileV) -> bool {
    |p: ProfileV| p.id != id
}

impl HostV {
    /// A host whose default and bindings no longer name a profile.
    pub open spec fn drop_profile(self, id: Seq<char>) -> HostV {
        HostV {
            profile_id: if self.profile_id == Some(id) {
                None
            } else {
                self.profile_id
            },
            game_profiles: keep(self.game_profiles, binds_elsewhere(id)),
            ..self
        }
    }
}

impl KnownHost {
    /// Lets go of a profile wherever the host names it.
    pub fn drop_profile(&mut self, id: &str)
        ensures
            final(self)@ == old(self)@.drop_profile(id@),
    {
        if is_text(&self.profile_id, id) {
            self.profile_id = None;
        }
        let ghost p = binds_elsewhere(id@);
        let stays = |b: &Binding| -> (r: bool)
            ensures
                r == p(b@),
        { !same_text(b.profile.as_str(), id) };
        retain_by(&mut self.game_profiles, stays, Ghost(p));
    }
}

/// How many of the first `n` hosts have this profile for their default.
pub open spec fn default_uses(known: Seq<HostV>, id: Seq<char>, n: int) -> nat
    decreases n,
{
    if n <= 0 {
        0
    } else {
        default_uses(known, id, n - 1) + if known[n - 1].profile_id == Some(id) {
            1nat
        } else {
            0
        }
    }
}

/// How many of the first `n` bindings name this profile.
pub open spec fn bound_uses(bindings: Seq<BindingV>, id: Seq<char>, n: int) -> nat
    decreases n,
{
    if n <= 0 {
        0
    } else {
        bound_uses(bindings, id, n - 1) + if bindings[n - 1].profile == id {
            1nat
        } else {
            0
        }
    }
}

/// How many titles of the first `n` hosts are bound to this profile.
pub open spec fn title_uses(known: Seq<HostV>, id: Seq<char>, n: int) -> nat
    decreases n,
{
    if n <= 0 {
        0
    } else {
        title_uses(known, id, n - 1) + bound_uses(
            known[n - 1].game_profiles,
            id,
            known[n - 1].game_profiles.len() as int,
        )
    }
}

/// The hosts without a profile that is gone.
pub open spec fn without_profile(known: Seq<HostV>, id: Seq<char>) -> Seq<HostV> {
    known.map_values(|h: HostV| h.drop_profile(id))
}

impl AppV {
    pub open spec fn with_scope(self, scope: ScopeV) -> AppV {
        AppV {
            screens: ScreensV {
                settings_page: SettingsPageV { scope, ..self.screens.settings_page },
                ..self.screens
            },
            ..self
        }
    }

    /// The settings page up, its page column focused. The Display page owes the root probe.
    pub open spec fn open_settings_page(self) -> AppV {
        let up = AppV {
            screens: ScreensV {
                settings_page: SettingsPageV { column: true, ..self.screens.settings_page },
                ..self.screens
            },
            ..self
        }.enter(Screen::SettingsPage, 0);
        if self.screens.settings_page.page == Page::Display {
            up.owe_root_probe()
        } else {
            up
        }
    }

    /// The root probe owed, unless its verdict is in or on its way.
    pub open spec fn owe_root_probe(self) -> AppV {
        AppV {
            jobs: crate::slots::JobsV {
                out: put(
                    self.jobs.out,
                    Job::RootProbeOwed,
                    self.hosts.rooted is None && !self.jobs.has(Job::Rooted),
                ),
                ..self.jobs
            },
            ..self
        }
    }

    /// The position of the profile in scope.
    pub open spec fn scope_pos(self) -> Option<int> {
        match self.screens.settings_page.scope {
            ScopeV::Global => None,
            ScopeV::Profile(id) => profile_pos(self.profiles, id),
        }
    }

    pub open spec fn with_profile(self, p: ProfileV) -> AppV {
        AppV { profiles: self.profiles.push(p), ..self }
    }

    /// A new profile, with nothing overridden.
    pub open spec fn made(self, id: Seq<char>, wanted: Seq<char>) -> AppV {
        self.with_profile(
            ProfileV { id, name: unique_name(self.profiles, wanted), overrides: no_overrides() },
        )
    }

    /// A new profile under a placeholder name, opened to be named.
    pub open spec fn new_profile(self, id: Seq<char>) -> AppV {
        self.made(id, "New profile"@).persist().with_scope(ScopeV::Profile(id)).open_rename_profile()
    }

    pub open spec fn open_rename_profile(self) -> AppV {
        match self.screens.settings_page.scope {
            ScopeV::Global => self,
            ScopeV::Profile(id) => AppV {
                screens: ScreensV {
                    profile_name: match profile_pos(self.profiles, id) {
                        Some(i) => self.profiles[i].name,
                        None => Seq::empty(),
                    },
                    ..self.screens
                },
                ..self
            }.show(Screen::RenameProfile),
        }
    }

    /// The profile a title is bound to, where it is still in the catalog.
    pub open spec fn bound_profile(self, pin_id: Seq<char>) -> Option<Seq<char>> {
        match self.selected_known_host() {
            Some(h) => match h.game_profile(pin_id) {
                Some(id) => if profile_pos(self.profiles, id) is Some {
                    Some(id)
                } else {
                    None
                },
                None => None,
            },
            None => None,
        }
    }

    pub open spec fn bind_selected(self, pin_id: Seq<char>, profile: Option<Seq<char>>) -> AppV {
        match self.selected_pos() {
            Some(i) => self.with_known(i, self.hosts.known[i].bind_game_profile(pin_id, profile)),
            None => self,
        }
    }

    /// A title's own profile in scope, made under the title's name where it has none.
    pub open spec fn open_game_profile(self, pin_id: Seq<char>, title: Seq<char>, fresh: Seq<char>) -> AppV {
        if self.library.selected_host is None {
            self
        } else {
            match self.bound_profile(pin_id) {
                Some(id) => self.edit_profile(id),
                None => self.made(fresh, title).bind_selected(pin_id, Some(fresh)).persist().edit_profile(fresh),
            }
        }
    }

    pub open spec fn edit_profile(self, id: Seq<char>) -> AppV {
        AppV {
            screens: ScreensV {
                settings_page: SettingsPageV {
                    scope: ScopeV::Profile(id),
                    page: Page::Display,
                    ..self.screens.settings_page
                },
                ..self.screens
            },
            ..self
        }.open_settings_page()
    }

    /// Why a name is refused to the profile in scope.
    pub open spec fn profile_name_refusal(self, name: Seq<char>) -> Option<Seq<char>> {
        if name.len() == 0 {
            Some(NEEDS_A_NAME@)
        } else {
            match self.screens.settings_page.scope {
                ScopeV::Global => None,
                ScopeV::Profile(id) => if exists|i: int|
                    0 <= i < self.profiles.len() && (#[trigger] self.profiles[i]).id != id && self.profiles[i].name
                        == name {
                    Some(NAME_TAKEN@)
                } else {
                    None
                },
            }
        }
    }

    /// Why the typed name is refused.
    pub open spec fn profile_name_hint(self) -> Option<Seq<char>> {
        self.profile_name_refusal(trimmed(self.screens.profile_name))
    }

    pub open spec fn rename_scope(self, name: Seq<char>) -> AppV {
        match self.scope_pos() {
            Some(i) => AppV {
                profiles: self.profiles.update(i, ProfileV { name, ..self.profiles[i] }),
                ..self
            }.persist(),
            None => self,
        }
    }

    /// The profile in scope renamed, and the form closed, unless the name is refused.
    pub open spec fn rename_profile(self, name: Seq<char>) -> AppV {
        if self.profile_name_refusal(name) is Some {
            self
        } else {
            self.rename_scope(name).show(Screen::SettingsPage)
        }
    }

    pub open spec fn confirm_rename_profile(self) -> AppV {
        self.rename_profile(trimmed(self.screens.profile_name))
    }

    pub open spec fn with_profile_name(self, name: Seq<char>) -> AppV {
        AppV { screens: ScreensV { profile_name: name, ..self.screens }, ..self }
    }

    #[verifier::opaque]
    pub open spec fn handle_rename_profile_event(self, ev: MenuEvent) -> AppV {
        match ev {
            MenuEvent::Left => self.with_profile_name(erased(self.screens.profile_name)),
            MenuEvent::Confirm => self.confirm_rename_profile(),
            MenuEvent::Back => self.show(Screen::SettingsPage),
            MenuEvent::Secondary => self.show(Screen::SettingsPage),
            _ => self,
        }
    }

    /// A copy of the profile in scope, put in scope itself.
    pub open spec fn duplicate_profile(self, fresh: Seq<char>) -> AppV {
        match self.scope_pos() {
            Some(i) => {
                let source = self.profiles[i];
                self.with_profile(
                    ProfileV {
                        id: fresh,
                        name: unique_name(self.profiles, source.name + " copy"@),
                        overrides: source.overrides,
                    },
                ).persist().with_scope(ScopeV::Profile(fresh))
            },
            None => self,
        }
    }

    /// How many hosts and titles name the profile in scope.
    pub open spec fn profile_use_counts(self) -> (nat, nat) {
        match self.screens.settings_page.scope {
            ScopeV::Global => (0, 0),
            ScopeV::Profile(id) => (
                default_uses(self.hosts.known, id, self.hosts.known.len() as int),
                title_uses(self.hosts.known, id, self.hosts.known.len() as int),
            ),
        }
    }

    pub open spec fn open_delete_profile(self) -> AppV {
        match self.screens.settings_page.scope {
            ScopeV::Profile(_) => self.enter(Screen::DeleteProfile, 1),
            ScopeV::Global => self,
        }
    }

    /// The profile in scope gone, and every binding that named it.
    pub open spec fn delete_profile(self) -> AppV {
        match self.screens.settings_page.scope {
            ScopeV::Profile(id) => AppV {
                profiles: keep(self.profiles, profile_is_not(id)),
                hosts: HostsV { known: without_profile(self.hosts.known, id), ..self.hosts },
                ..self
            }.with_scope(ScopeV::Global).persist(),
            ScopeV::Global => self,
        }
    }

    #[verifier::opaque]
    pub open spec fn handle_delete_profile_event(self, ev: MenuEvent, now: u64) -> AppV {
        match self.confirm_nav(ev, now) {
            Some(moved) => moved,
            None => match ev {
                MenuEvent::Confirm => if self.nav.cursor(Screen::DeleteProfile) == 0 {
                    self.delete_profile().show(Screen::SettingsPage)
                } else {
                    self.show(Screen::SettingsPage)
                },
                MenuEvent::Back => self.show(Screen::SettingsPage),
                MenuEvent::Secondary => self.show(Screen::SettingsPage),
                _ => self,
            },
        }
    }
}

proof fn lemma_no_uses(known: Seq<HostV>, id: Seq<char>, n: int)
    requires
        0 <= n <= known.len(),
    ensures
        default_uses(without_profile(known, id), id, n) == 0,
        title_uses(without_profile(known, id), id, n) == 0,
    decreases n,
{
    if n > 0 {
        lemma_no_uses(known, id, n - 1);
        let h = without_profile(known, id)[n - 1];
        lemma_keep(known[n - 1].game_profiles, binds_elsewhere(id));
        lemma_none_bound(h.game_profiles, id, h.game_profiles.len() as int);
    }
}

proof fn lemma_none_bound(bindings: Seq<BindingV>, id: Seq<char>, n: int)
    requires
        0 <= n <= bindings.len(),
        forall|i: int| 0 <= i < bindings.len() ==> (#[trigger] bindings[i]).profile != id,
    ensures
        bound_uses(bindings, id, n) == 0,
    decreases n,
{
    if n > 0 {
        lemma_none_bound(bindings, id, n - 1);
    }
}

/// Deleting a profile leaves nothing that names it: no profile of the catalog, no host's default
/// and no title's binding; and the scope falls back to the global document.
pub proof fn law_deleted_profile_is_gone(app: AppV, id: Seq<char>)
    requires
        app.screens.settings_page.scope == ScopeV::Profile(id),
    ensures
        ({
            let after = app.delete_profile();
            &&& profile_pos(after.profiles, id) is None
            &&& default_uses(after.hosts.known, id, after.hosts.known.len() as int) == 0
            &&& title_uses(after.hosts.known, id, after.hosts.known.len() as int) == 0
            &&& after.screens.settings_page.scope == ScopeV::Global
        }),
{
    lemma_no_uses(app.hosts.known, id, app.hosts.known.len() as int);
    lemma_keep(app.profiles, profile_is_not(id));
    let left = keep(app.profiles, profile_is_not(id));
    lemma_first_from(left, profile_is(id), 0);
}

/// A title's settings open the profile it is bound to, and once made it stays that title's: a
/// second visit makes no other.
pub proof fn law_game_profile_made_once(
    app: AppV,
    pin_id: Seq<char>,
    title: Seq<char>,
    fresh: Seq<char>,
    again: Seq<char>,
)
    requires
        app.selected_known_host() is Some,
        profile_pos(app.profiles, fresh) is None,
    ensures
        app.open_game_profile(pin_id, title, fresh).bound_profile(pin_id) matches Some(id)
            && app.open_game_profile(pin_id, title, fresh).screens.settings_page.scope == ScopeV::Profile(id),
        ({
            let made = app.open_game_profile(pin_id, title, fresh);
            made.open_game_profile(pin_id, title, again).profiles == made.profiles
        }),
{
    match app.bound_profile(pin_id) {
        Some(id) => {},
        None => {
            let i = app.selected_pos()->0;
            let at = app.library.selected_host->0;
            let h = app.hosts.known[i];
            let made = app.made(fresh, title);
            let bound = made.bind_selected(pin_id, Some(fresh));
            lemma_first_from(app.hosts.known, crate::hosts::host_is(at.host, at.port), 0);
            assert(made.selected_pos() == Some(i));
            assert(bound.hosts.known == app.hosts.known.update(i, h.bind_game_profile(pin_id, Some(fresh))));
            crate::seqs::lemma_first_is(bound.hosts.known, crate::hosts::host_is(at.host, at.port), i);
            crate::knownhost::lemma_bound_profile(h, pin_id, fresh);
            lemma_first_from(app.profiles, profile_is(fresh), 0);
            let k = app.profiles.len() as int;
            assert(profile_is(fresh)(made.profiles[k]));
            crate::seqs::lemma_first_is(made.profiles, profile_is(fresh), k);
        },
    }
}

impl App {
    /// Opens the settings page: its column takes focus first.
    pub fn open_settings_page(&mut self)
        ensures
            final(self)@ == old(self)@.open_settings_page(),
            final(self).wf() == old(self).wf(),
    {
        self.screens.settings_page.column = true;
        self.nav.enter(Screen::SettingsPage, 0);
        if self.screens.settings_page.page == Page::Display {
            self.owe_root_probe();
        }
    }

    pub(crate) fn owe_root_probe(&mut self)
        ensures
            final(self)@ == old(self)@.owe_root_probe(),
            final(self).wf() == old(self).wf(),
    {
        let owed: bool = self.hosts.rooted.is_none() && !self.jobs.has(Job::Rooted);
        self.jobs.out.set(Job::RootProbeOwed, owed);
    }

    /// The position of the profile in scope, `None` in the global scope and where it is gone.
    pub fn scope_profile(&self) -> (r: Option<usize>)
        ensures
            match (r, self@.scope_pos()) {
                (Some(k), Some(i)) => k == i && k < self.profiles.len() && self@.profiles[i]
                    == self.profiles[k as int]@,
                (None, None) => true,
                _ => false,
            },
    {
        match &self.screens.settings_page.scope {
            Scope::Global => None,
            Scope::Profile(id) => find_profile(&self.profiles, id.as_str()),
        }
    }

    fn add_profile(&mut self, profile: StreamProfile)
        ensures
            final(self)@ == old(self)@.with_profile(profile@),
            final(self).wf() == old(self).wf(),
    {
        self.profiles.push(profile);
        assert(profile_views(self.profiles@) =~= profile_views(old(self).profiles@).push(profile@));
    }

    fn make_profile(&mut self, id: String, wanted: &str)
        ensures
            final(self)@ == old(self)@.made(id@, wanted@),
            final(self).wf() == old(self).wf(),
    {
        let name = free_name(&self.profiles, wanted);
        self.add_profile(StreamProfile { id, name, overrides: empty_overlay() });
    }

    /// Makes an empty profile under a placeholder name and opens it to be named. `fresh` is the id
    /// it gets.
    pub fn new_profile(&mut self, fresh: String)
        ensures
            final(self)@ == old(self)@.new_profile(fresh@),
            final(self).wf() == old(self).wf(),
    {
        let id = fresh.clone();
        self.make_profile(fresh, "New profile");
        self.persist();
        self.screens.settings_page.scope = Scope::Profile(id);
        self.open_rename_profile();
    }

    /// Opens the profile a title is bound to, making it first under the title's own name.
    pub fn open_game_profile(&mut self, pin_id: &str, title: &str, fresh: String)
        ensures
            final(self)@ == old(self)@.open_game_profile(pin_id@, title@, fresh@),
            final(self).wf() == old(self).wf(),
    {
        if self.library.selected_host.is_none() {
            return;
        }
        let id: String = match self.bound_profile(pin_id) {
            Some(id) => id,
            None => {
                let id = fresh.clone();
                self.make_profile(fresh, title);
                let bound: Option<String> = Some(id.clone());
                self.bind_selected(pin_id, bound);
                self.persist();
                id
            },
        };
        self.screens.settings_page.scope = Scope::Profile(id);
        self.screens.settings_page.page = Page::Display;
        self.open_settings_page();
    }

    fn bound_profile(&self, pin_id: &str) -> (r: Option<String>)
        ensures
            text_of(r) == self@.bound_profile(pin_id@),
    {
        match self.selected_known_host() {
            Some(i) => match self.hosts.known[i].game_profile(pin_id) {
                Some(id) => {
                    if find_profile(&self.profiles, id.as_str()).is_some() {
                        Some(id)
                    } else {
                        None
                    }
                },
                None => None,
            },
            None => None,
        }
    }

    /// Whether a title of the selected host is bound to a profile that still exists.
    pub fn game_is_bound(&self, pin_id: &str) -> (r: bool)
        ensures
            r == (self@.bound_profile(pin_id@) is Some),
    {
        self.bound_profile(pin_id).is_some()
    }

    pub(crate) fn bind_selected(&mut self, pin_id: &str, profile: Option<String>)
        ensures
            final(self)@ == old(self)@.bind_selected(pin_id@, text_of(profile)),
            final(self).wf() == old(self).wf(),
    {
        match self.selected_known_host() {
            Some(i) => {
                let ghost before = self.hosts.known@;
                let ghost bound = text_of(profile);
                self.hosts.known[i].bind_game_profile(pin_id, profile);
                assert(host_views(self.hosts.known@) =~= host_views(before).update(
                    i as int,
                    before[i as int]@.bind_game_profile(pin_id@, bound),
                ));
            },
            None => {},
        }
    }

    /// Opens the name form on the profile in scope.
    pub fn open_rename_profile(&mut self)
        ensures
            final(self)@ == old(self)@.open_rename_profile(),
            final(self).wf() == old(self).wf(),
    {
        let name: String = match &self.screens.settings_page.scope {
            Scope::Global => {
                return;
            },
            Scope::Profile(id) => match find_profile(&self.profiles, id.as_str()) {
                Some(i) => self.profiles[i].name.clone(),
                None => String::new(),
            },
        };
        self.screens.profile_name = name;
        self.nav.screen = Screen::RenameProfile;
    }

    /// Handles one event on the name form. Left erases: the remote has no delete key.
    pub fn handle_rename_profile_event(&mut self, ev: MenuEvent)
        ensures
            final(self)@ == old(self)@.handle_rename_profile_event(ev),
            final(self).wf() == old(self).wf(),
    {
        proof {
            reveal(AppV::handle_rename_profile_event);
        }
        match ev {
            MenuEvent::Left => {
                erase(&mut self.screens.profile_name);
            },
            MenuEvent::Confirm => {
                self.confirm_rename_profile();
            },
            MenuEvent::Back => {
                self.nav.screen = Screen::SettingsPage;
            },
            MenuEvent::Secondary => {
                self.nav.screen = Screen::SettingsPage;
            },
            _ => {},
        }
    }

    /// Types one character of the name.
    pub fn enter_profile_name_char(&mut self, c: char)
        ensures
            final(self)@ == old(self)@.with_profile_name(
                typed(old(self)@.screens.profile_name, c, MAX_COLLECTION_NAME),
            ),
            final(self).wf() == old(self).wf(),
    {
        type_char(&mut self.screens.profile_name, c, MAX_COLLECTION_NAME);
    }

    /// Why a trimmed name is refused to the profile in scope, `None` where it is fine.
    pub fn profile_name_refusal(&self, name: &str) -> (r: Option<&'static str>)
        ensures
            match (r, self@.profile_name_refusal(name@)) {
                (Some(a), Some(b)) => a@ == b,
                (None, None) => true,
                _ => false,
            },
    {
        if name.unicode_len() == 0 {
            return Some(NEEDS_A_NAME);
        }
        match &self.screens.settings_page.scope {
            Scope::Global => None,
            Scope::Profile(id) => {
                let ghost all = self@.profiles;
                let mut i: usize = 0;
                while i < self.profiles.len()
                    invariant
                        i <= self.profiles.len(),
                        all == profile_views(self.profiles@),
                        name@.len() > 0,
                        self@.screens.settings_page.scope == ScopeV::Profile(id@),
                        forall|k: int| 0 <= k < i ==> (#[trigger] all[k]).id == id@ || all[k].name != name@,
                    decreases self.profiles.len() - i,
                {
                    assert(all[i as int] == self.profiles@[i as int]@);
                    if !(self.profiles[i].id == *id) && same_text(self.profiles[i].name.as_str(), name) {
                        assert(self@.profiles[i as int].id != id@ && self@.profiles[i as int].name == name@);
                        return Some(NAME_TAKEN);
                    }
                    i = i + 1;
                }
                None
            },
        }
    }

    /// Why the typed name is refused, `None` while it is fine.
    pub fn profile_name_hint(&self) -> (r: Option<&'static str>)
        ensures
            match (r, self@.profile_name_hint()) {
                (Some(a), Some(b)) => a@ == b,
                (None, None) => true,
                _ => false,
            },
    {
        let name = trim(self.screens.profile_name.as_str());
        self.profile_name_refusal(name.as_str())
    }

    fn rename_scope(&mut self, name: String)
        ensures
            final(self)@ == old(self)@.rename_scope(name@),
            final(self).wf() == old(self).wf(),
    {
        match self.scope_profile() {
            Some(i) => {
                let ghost before = self.profiles@;
                let ghost n = name@;
                self.profiles[i].name = name;
                assert(profile_views(self.profiles@) =~= profile_views(before).update(
                    i as int,
                    ProfileV { name: n, ..before[i as int]@ },
                ));
                self.persist();
            },
            None => {},
        }
    }

    fn confirm_rename_profile(&mut self)
        ensures
            final(self)@ == old(self)@.confirm_rename_profile(),
            final(self).wf() == old(self).wf(),
    {
        let name = trim(self.screens.profile_name.as_str());
        self.rename_profile(name);
    }

    /// Renames the profile in scope to a trimmed name and closes the form, unless the name is
    /// refused.
    pub fn rename_profile(&mut self, name: String)
        ensures
            final(self)@ == old(self)@.rename_profile(name@),
            final(self).wf() == old(self).wf(),
    {
        if self.profile_name_refusal(name.as_str()).is_some() {
            return;
        }
        self.rename_scope(name);
        self.nav.screen = Screen::SettingsPage;
    }

    /// Copies the profile in scope under a free name. `fresh` is the id the copy gets.
    pub fn duplicate_profile(&mut self, fresh: String)
        ensures
            final(self)@ == old(self)@.duplicate_profile(fresh@),
            final(self).wf() == old(self).wf(),
    {
        match self.scope_profile() {
            Some(i) => {
                let wanted = join2(self.profiles[i].name.as_str(), " copy");
                let name = free_name(&self.profiles, wanted.as_str());
                let overrides = self.profiles[i].overrides;
                let id = fresh.clone();
                self.add_profile(StreamProfile { id: fresh, name, overrides });
                self.persist();
                self.screens.settings_page.scope = Scope::Profile(id);
            },
            None => {},
        }
    }

    /// Raises the delete dialog, focused on Cancel.
    pub fn open_delete_profile(&mut self)
        ensures
            final(self)@ == old(self)@.open_delete_profile(),
            final(self).wf() == old(self).wf(),
    {
        match &self.screens.settings_page.scope {
            Scope::Profile(_) => {
                self.nav.enter(Screen::DeleteProfile, 1);
            },
            Scope::Global => {},
        }
    }

    /// Handles one event on the delete dialog.
    pub fn handle_delete_profile_event(&mut self, ev: MenuEvent, now: u64)
        ensures
            final(self)@ == old(self)@.handle_delete_profile_event(ev, now),
            final(self).wf() == old(self).wf(),
    {
        proof {
            reveal(AppV::handle_delete_profile_event);
        }
        if self.confirm_nav_event(ev, now) {
            return;
        }
        match ev {
            MenuEvent::Confirm => {
                if self.nav.cursor(Screen::DeleteProfile) == 0 {
                    self.delete_profile();
                }
                self.nav.screen = Screen::SettingsPage;
            },
            MenuEvent::Back => {
                self.nav.screen = Screen::SettingsPage;
            },
            MenuEvent::Secondary => {
                self.nav.screen = Screen::SettingsPage;
            },
            _ => {},
        }
    }

    fn delete_profile(&mut self)
        ensures
            final(self)@ == old(self)@.delete_profile(),
            final(self).wf() == old(self).wf(),
    {
        let id: String = match &self.screens.settings_page.scope {
            Scope::Global => {
                return;
            },
            Scope::Profile(id) => id.clone(),
        };
        drop_from_catalog(&mut self.profiles, id.as_str());
        drop_from_hosts(&mut self.hosts.known, id.as_str());
        self.screens.settings_page.scope = Scope::Global;
        self.persist();
    }
}

fn drop_from_catalog(profiles: &mut Vec<StreamProfile>, id: &str)
    ensures
        profile_views(final(profiles)@) == keep(profile_views(old(profiles)@), profile_is_not(id@)),
{
    let ghost p = profile_is_not(id@);
    let stays = |x: &StreamProfile| -> (r: bool)
        ensures
            r == p(x@),
    { !same_text(x.id.as_str(), id) };
    retain_by(profiles, stays, Ghost(p));
}

fn drop_from_hosts(known: &mut Vec<KnownHost>, id: &str)
    ensures
        host_views(final(known)@) == without_profile(host_views(old(known)@), id@),
{
    let ghost all = host_views(known@);
    let n: usize = known.len();
    let mut i: usize = 0;
    while i < n
        invariant
            n == known.len(),
            all.len() == n,
            i <= n,
            forall|k: int| 0 <= k < i ==> (#[trigger] known@[k])@ == all[k].drop_profile(id@),
            forall|k: int| i <= k < n ==> (#[trigger] known@[k])@ == all[k],
        decreases n - i,
    {
        let ghost before = known@;
        known[i].drop_profile(id);
        assert(known@ =~= before.update(i as int, known@[i as int]));
        i = i + 1;
    }
    assert(host_views(known@) =~= without_profile(all, id@));
}

/// How many of a host's titles are bound to a profile, as far as an index goes.
fn count_bound(bindings: &Vec<Binding>, id: &str) -> (r: usize)
    ensures
        r == bound_uses(binding_views(bindings@), id@, bindings.len() as int),
{
    let ghost all = binding_views(bindings@);
    let mut count: usize = 0;
    let mut i: usize = 0;
    while i < bindings.len()
        invariant
            i <= bindings.len(),
            all == binding_views(bindings@),
            count <= i,
            count == bound_uses(all, id@, i as int),
        decreases bindings.len() - i,
    {
        assert(all[i as int] == bindings@[i as int]@);
        if same_text(bindings[i].profile.as_str(), id) {
            count = count + 1;
        }
        i = i + 1;
    }
    count
}

impl App {
    /// How many host defaults and how many title bindings name the profile in scope: what
    /// deleting it makes fall back to the default settings.
    pub fn profile_use_counts(&self) -> (r: (usize, usize))
        ensures
            r.0 == self@.profile_use_counts().0,
            r.1 == index_sum(self@.profile_use_counts().1, 0),
    {
        match &self.screens.settings_page.scope {
            Scope::Global => (0, 0),
            Scope::Profile(id) => {
                let ghost all = self@.hosts.known;
                let mut hosts: usize = 0;
                let mut titles: usize = 0;
                let mut i: usize = 0;
                while i < self.hosts.known.len()
                    invariant
                        i <= self.hosts.known.len(),
                        all == host_views(self.hosts.known@),
                        hosts <= i,
                        hosts == default_uses(all, id@, i as int),
                        titles == index_sum(title_uses(all, id@, i as int), 0),
                    decreases self.hosts.known.len() - i,
                {
                    let h = &self.hosts.known[i];
                    assert(all[i as int] == self.hosts.known@[i as int]@);
                    if is_text(&h.profile_id, id.as_str()) {
                        hosts = hosts + 1;
                    }
                    let here: usize = count_bound(&h.game_profiles, id.as_str());
                    titles = add_index(titles, here);
                    i = i + 1;
                }
                (hosts, titles)
            },
        }
    }
}

} // verus!
