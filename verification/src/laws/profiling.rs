//! Profiles: making, naming, copying, deleting and binding them, and what is edited under each.
use vstd::prelude::*;
use crate::app::AppV;
use crate::hosts::profile_pos;
use crate::knownhost::{binds, binds_other};
use crate::laws::launching::idle;
use crate::laws::{
    document, law_profile_is_found, law_saved_host_is_found, law_selected_host_is_found, profile_at, saved_at,
    selected_at,
};
use crate::model::{BindingV, HostV, MenuEvent, ProfileV, Screen, SettingsOverlay};
use crate::profiles::{binds_elsewhere, law_unique_name_is_free, profile_is_not};
use crate::seqs::{keep, lemma_first_from, lemma_first_is, lemma_keep};
use crate::slots::{EffectV, Page, ProfilePickV, ScopeV};

verus! {

/// What is edited is the profile at `i`.
pub open spec fn edits(app: AppV, i: int) -> bool {
    app.screens.settings_page.scope is Profile && profile_at(app.profiles, i, app.screens.settings_page.scope->Profile_0)
}

proof fn lemma_edits(app: AppV, i: int)
    requires
        edits(app, i),
    ensures
        app.scope_pos() == Some(i),
{
    law_profile_is_found(app.profiles, i, app.screens.settings_page.scope->Profile_0);
}

/// A copy overrides what its source overrides, setting by setting, under an id and a name of its own. It
/// stands after the others, none of which changes, and it is what is edited then; it is written.
pub proof fn law_copy_is_a_copy(app: AppV, i: int, fresh: Seq<char>)
    requires
        edits(app, i),
    ensures
        ({
            let after = app.duplicate_profile(fresh);
            let n = app.profiles.len() as int;
            let copy = after.profiles[n];
            let source = app.profiles[i].overrides;
            &&& after.profiles.len() == n + 1
            &&& forall|j: int| 0 <= j < n ==> #[trigger] after.profiles[j] == app.profiles[j]
            &&& copy.id == fresh
            &&& copy.overrides.width == source.width
            &&& copy.overrides.height == source.height
            &&& copy.overrides.match_window == source.match_window
            &&& copy.overrides.refresh_hz == source.refresh_hz
            &&& copy.overrides.bitrate_kbps == source.bitrate_kbps
            &&& copy.overrides.codec == source.codec
            &&& copy.overrides.hdr_enabled == source.hdr_enabled
            &&& copy.overrides.audio_channels == source.audio_channels
            &&& copy.overrides.mouse_mode == source.mouse_mode
            &&& copy.overrides.invert_scroll == source.invert_scroll
            &&& copy.overrides.gamepad == source.gamepad
            &&& copy.overrides.stats_verbosity == source.stats_verbosity
            &&& forall|j: int| 0 <= j < n ==> (#[trigger] app.profiles[j]).name != copy.name
            &&& (forall|j: int| 0 <= j < n ==> (#[trigger] app.profiles[j]).name != app.profiles[i].name + " copy"@)
                ==> copy.name == app.profiles[i].name + " copy"@
            &&& after.screens.settings_page.scope == ScopeV::Profile(fresh)
            &&& (forall|j: int| 0 <= j < n ==> (#[trigger] app.profiles[j]).id != fresh) ==> edits(after, n)
            &&& after.effects == app.effects.push(EffectV::Save(document(after)))
            &&& after.settings == app.settings
            &&& after.hosts == app.hosts
            &&& after.nav == app.nav
        }),
{
    lemma_edits(app, i);
    law_unique_name_is_free(app.profiles, app.profiles[i].name + " copy"@);
    let after = app.duplicate_profile(fresh);
    let n = app.profiles.len() as int;
    assert forall|j: int| 0 <= j < n implies (#[trigger] app.profiles[j]).name != after.profiles[n].name by {}
}

/// Nothing is copied where no profile is edited.
pub proof fn law_nothing_to_copy(app: AppV, fresh: Seq<char>)
    requires
        app.screens.settings_page.scope is Global,
    ensures
        app.duplicate_profile(fresh) == app,
{
}

/// A new profile overrides nothing and has a name of its own. It stands after the others, it is what is
/// edited, and its name comes up to be changed.
pub proof fn law_new_profile_is_blank(app: AppV, fresh: Seq<char>)
    requires
        forall|j: int| 0 <= j < app.profiles.len() ==> (#[trigger] app.profiles[j]).id != fresh,
    ensures
        ({
            let after = app.new_profile(fresh);
            let n = app.profiles.len() as int;
            let made = after.profiles[n];
            &&& after.profiles.len() == n + 1
            &&& forall|j: int| 0 <= j < n ==> #[trigger] after.profiles[j] == app.profiles[j]
            &&& made.id == fresh
            &&& made.overrides == (SettingsOverlay {
                width: None,
                height: None,
                match_window: None,
                refresh_hz: None,
                bitrate_kbps: None,
                codec: None,
                hdr_enabled: None,
                audio_channels: None,
                mouse_mode: None,
                invert_scroll: None,
                gamepad: None,
                stats_verbosity: None,
            })
            &&& forall|j: int| 0 <= j < n ==> (#[trigger] app.profiles[j]).name != made.name
            &&& (forall|j: int| 0 <= j < n ==> (#[trigger] app.profiles[j]).name != "New profile"@) ==> made.name
                == "New profile"@
            &&& edits(after, n)
            &&& after.nav.screen == Screen::RenameProfile
            &&& after.screens.profile_name == made.name
            &&& after.effects == app.effects.push(EffectV::Save(document(after)))
        }),
{
    law_unique_name_is_free(app.profiles, "New profile"@);
    let after = app.new_profile(fresh);
    let n = app.profiles.len() as int;
    assert(profile_at(after.profiles, n, fresh));
    law_profile_is_found(after.profiles, n, fresh);
    assert forall|j: int| 0 <= j < n implies (#[trigger] app.profiles[j]).name != after.profiles[n].name by {}
}

/// A profile takes the name that was typed, without blanks around it, where no other profile has it; its id
/// and what it overrides stay, and so does every other profile. An empty name, or one that is taken, is
/// refused, and the form stays.
pub proof fn law_profile_is_renamed(app: AppV, i: int, name: Seq<char>)
    requires
        edits(app, i),
        crate::text::trimmed(app.screens.profile_name) == name,
    ensures
        ({
            let id = app.screens.settings_page.scope->Profile_0;
            let after = app.handle_rename_profile_event(MenuEvent::Confirm);
            let free = name.len() > 0 && forall|j: int|
                0 <= j < app.profiles.len() && (#[trigger] app.profiles[j]).id != id ==> app.profiles[j].name != name;
            &&& free ==> {
                &&& after.profiles.len() == app.profiles.len()
                &&& after.profiles[i].name == name
                &&& after.profiles[i].id == app.profiles[i].id
                &&& after.profiles[i].overrides == app.profiles[i].overrides
                &&& forall|j: int| 0 <= j < app.profiles.len() && j != i ==> #[trigger] after.profiles[j] == app.profiles[j]
                &&& after.nav.screen == Screen::SettingsPage
                &&& after.effects == app.effects.push(EffectV::Save(document(after)))
            }
            &&& !free ==> after == app
            &&& app.handle_rename_profile_event(MenuEvent::Back).profiles == app.profiles
            &&& app.handle_rename_profile_event(MenuEvent::Back).nav.screen == Screen::SettingsPage
        }),
{
    reveal(AppV::handle_rename_profile_event);
    lemma_edits(app, i);
    let id = app.screens.settings_page.scope->Profile_0;
    let free = name.len() > 0 && forall|j: int|
        0 <= j < app.profiles.len() && (#[trigger] app.profiles[j]).id != id ==> app.profiles[j].name != name;
    if !free && name.len() > 0 {
        let j = choose|j: int|
            0 <= j < app.profiles.len() && (#[trigger] app.profiles[j]).id != id && app.profiles[j].name == name;
        assert(app.profiles[j].id != id && app.profiles[j].name == name);
        assert(app.profile_name_refusal(name) is Some);
    }
}

/// What stays of a list when some are taken out keeps its order.
proof fn lemma_keep_in_order<A>(s: Seq<A>, p: spec_fn(A) -> bool, a: int, b: int)
    requires
        0 <= a < b < keep(s, p).len(),
    ensures
        exists|x: int, y: int|
            0 <= x < y < s.len() && #[trigger] s[x] == keep(s, p)[a] && #[trigger] s[y] == keep(s, p)[b],
    decreases s.len(),
{
    let d = s.drop_last();
    let rest = keep(d, p);
    if b < rest.len() {
        lemma_keep_in_order(d, p, a, b);
        let (x, y) = choose|x: int, y: int|
            0 <= x < y < d.len() && #[trigger] d[x] == rest[a] && #[trigger] d[y] == rest[b];
        assert(s[x] == keep(s, p)[a] && s[y] == keep(s, p)[b]);
    } else {
        lemma_keep(d, p);
        assert(rest[a] == keep(s, p)[a]);
        assert(rest.contains(rest[a]));
        let x = choose|x: int| 0 <= x < d.len() && d[x] == rest[a];
        assert(s[x] == keep(s, p)[a] && s[s.len() - 1] == keep(s, p)[b]);
    }
}

/// Deleting a profile takes it away, with every host's and every game's use of it, once it is confirmed;
/// every other profile, default and binding stays.
pub proof fn law_profile_is_deleted(app: AppV, id: Seq<char>, p: ProfileV, k: int, b: BindingV, now: u64)
    requires
        app.screens.settings_page.scope == ScopeV::Profile(id),
        0 <= k < app.hosts.known.len(),
    ensures
        ({
            let sure = app.nav.cursor(Screen::DeleteProfile) == 0;
            let after = app.handle_delete_profile_event(MenuEvent::Confirm, now);
            let was = app.hosts.known[k];
            &&& after.nav.screen == Screen::SettingsPage
            &&& sure ==> {
                let h = after.hosts.known[k];
                &&& after.profiles.contains(p) <==> app.profiles.contains(p) && p.id != id
                &&& after.hosts.known.len() == app.hosts.known.len()
                &&& h.profile_id == (if was.profile_id == Some(id) {
                    None
                } else {
                    was.profile_id
                })
                &&& h.game_profiles.contains(b) <==> was.game_profiles.contains(b) && b.profile != id
                &&& h == (HostV { profile_id: h.profile_id, game_profiles: h.game_profiles, ..was })
                &&& after.screens.settings_page.scope == ScopeV::Global
                &&& after.effects == app.effects.push(EffectV::Save(document(after)))
            }
            &&& !sure ==> after.profiles == app.profiles && after.hosts == app.hosts && after.effects == app.effects
            &&& app.handle_delete_profile_event(MenuEvent::Back, now).profiles == app.profiles
            &&& app.handle_delete_profile_event(MenuEvent::Back, now).hosts == app.hosts
        }),
{
    reveal(AppV::handle_delete_profile_event);
    lemma_keep(app.profiles, profile_is_not(id));
    lemma_keep(app.hosts.known[k].game_profiles, binds_elsewhere(id));
    assert(keep(app.profiles, profile_is_not(id)).contains(p) <==> app.profiles.contains(p) && profile_is_not(id)(p));
    assert(keep(app.hosts.known[k].game_profiles, binds_elsewhere(id)).contains(b)
        <==> app.hosts.known[k].game_profiles.contains(b) && binds_elsewhere(id)(b));
}

/// The profiles that stay keep their order.
pub proof fn law_profiles_keep_their_order(app: AppV, id: Seq<char>, a: int, b: int)
    requires
        app.screens.settings_page.scope == ScopeV::Profile(id),
        0 <= a < b < app.delete_profile().profiles.len(),
    ensures
        exists|x: int, y: int|
            0 <= x < y < app.profiles.len() && #[trigger] app.profiles[x] == app.delete_profile().profiles[a]
                && #[trigger] app.profiles[y] == app.delete_profile().profiles[b],
{
    lemma_keep_in_order(app.profiles, profile_is_not(id), a, b);
}

/// A binding is read back, and no other game's is touched.
pub proof fn law_binding_read_back(h: HostV, id: Seq<char>, profile: Option<Seq<char>>, other: Seq<char>)
    ensures
        h.bind_game_profile(id, profile).game_profile(id) == profile,
        other != id ==> h.bind_game_profile(id, profile).game_profile(other) == h.game_profile(other),
        h.bind_game_profile(id, profile) == (HostV {
            game_profiles: h.bind_game_profile(id, profile).game_profiles,
            ..h
        }),
{
    let others = keep(h.game_profiles, binds_other(id));
    lemma_keep(h.game_profiles, binds_other(id));
    let bound = h.bind_game_profile(id, profile).game_profiles;
    match profile {
        Some(p) => {
            assert(binds(id)(bound[others.len() as int]));
            assert forall|j: int| 0 <= j < others.len() implies !binds(id)(#[trigger] bound[j]) by {
                assert(bound[j] == others[j]);
                assert(binds_other(id)(others[j]));
            }
            lemma_first_is(bound, binds(id), others.len() as int);
        },
        None => {
            lemma_first_from(bound, binds(id), 0);
            match h.bind_game_profile(id, profile).game_profile(id) {
                Some(_) => {
                    let j = crate::seqs::first_pos(bound, binds(id))->0;
                    assert(binds_other(id)(others[j]));
                },
                None => {},
            }
        },
    }
    if other != id {
        lemma_first_kept(h.game_profiles, id, other);
        match profile {
            Some(p) => {
                lemma_first_pushed(others, BindingV { game: id, profile: p }, other);
                lemma_first_from(others, binds(other), 0);
                assert(bound == others.push(BindingV { game: id, profile: p }));
            },
            None => {},
        }
    }
}

/// The first binding of one game stays first when another game's are taken out.
proof fn lemma_first_kept(s: Seq<BindingV>, id: Seq<char>, other: Seq<char>)
    requires
        other != id,
    ensures
        match crate::seqs::first_pos(s, binds(other)) {
            Some(i) => crate::seqs::first_pos(keep(s, binds_other(id)), binds(other)) matches Some(j) && keep(
                s,
                binds_other(id),
            )[j] == s[i],
            None => crate::seqs::first_pos(keep(s, binds_other(id)), binds(other)) is None,
        },
    decreases s.len(),
{
    let k = keep(s, binds_other(id));
    lemma_first_from(s, binds(other), 0);
    lemma_first_from(k, binds(other), 0);
    if s.len() > 0 {
        let d = s.drop_last();
        let kd = keep(d, binds_other(id));
        lemma_first_kept(d, id, other);
        lemma_first_from(d, binds(other), 0);
        lemma_first_from(kd, binds(other), 0);
        match crate::seqs::first_pos(d, binds(other)) {
            Some(i) => {
                assert forall|j: int| 0 <= j < i implies !binds(other)(#[trigger] s[j]) by {
                    assert(s[j] == d[j]);
                }
                assert(binds(other)(s[i]));
                lemma_first_is(s, binds(other), i);
                let j = crate::seqs::first_pos(kd, binds(other))->0;
                assert forall|m: int| 0 <= m < j implies !binds(other)(#[trigger] k[m]) by {
                    assert(k[m] == kd[m]);
                }
                assert(k[j] == kd[j]);
                assert(binds(other)(k[j]));
                lemma_first_is(k, binds(other), j);
            },
            None => {
                let n = s.len() - 1;
                assert forall|j: int| 0 <= j < n implies !binds(other)(#[trigger] s[j]) by {
                    assert(s[j] == d[j]);
                }
                assert forall|m: int| 0 <= m < kd.len() implies !binds(other)(#[trigger] k[m]) by {
                    assert(k[m] == kd[m]);
                }
                if binds(other)(s[n]) {
                    lemma_first_is(s, binds(other), n);
                    assert(k[kd.len() as int] == s[n]);
                    lemma_first_is(k, binds(other), kd.len() as int);
                } else {
                    match crate::seqs::first_pos(k, binds(other)) {
                        Some(m) => {
                            if m < kd.len() {
                                assert(k[m] == kd[m]);
                            } else {
                                assert(k[m] == s[n]);
                            }
                        },
                        None => {},
                    }
                    match crate::seqs::first_pos(s, binds(other)) {
                        Some(m) => {
                            assert(m < n ==> s[m] == d[m]);
                        },
                        None => {},
                    }
                }
            },
        }
    }
}

/// One more binding behind the others is none of another game's.
proof fn lemma_first_pushed(s: Seq<BindingV>, b: BindingV, other: Seq<char>)
    requires
        b.game != other,
    ensures
        crate::seqs::first_pos(s.push(b), binds(other)) == crate::seqs::first_pos(s, binds(other)),
{
    let t = s.push(b);
    lemma_first_from(s, binds(other), 0);
    lemma_first_from(t, binds(other), 0);
    match crate::seqs::first_pos(s, binds(other)) {
        Some(i) => {
            assert forall|j: int| 0 <= j < i implies !binds(other)(#[trigger] t[j]) by {
                assert(t[j] == s[j]);
            }
            assert(t[i] == s[i]);
            lemma_first_is(t, binds(other), i);
        },
        None => {
            match crate::seqs::first_pos(t, binds(other)) {
                Some(i) => {
                    assert(i < s.len() ==> t[i] == s[i]);
                },
                None => {},
            }
        },
    }
}

/// A title's settings open the profile it is bound to. Where it has none, one is made for it: blank, with a
/// name of its own, and bound to that title alone.
pub proof fn law_title_gets_its_profile(
    app: AppV,
    i: int,
    pin_id: Seq<char>,
    title: Seq<char>,
    fresh: Seq<char>,
    other: Seq<char>,
)
    requires
        selected_at(app, i),
        profile_pos(app.profiles, fresh) is None,
        other != pin_id,
    ensures
        ({
            let after = app.open_game_profile(pin_id, title, fresh);
            let n = app.profiles.len() as int;
            let bound = app.hosts.known[i].game_profile(pin_id);
            let tied = bound is Some && profile_pos(app.profiles, bound->0) is Some;
            &&& after.nav.screen == Screen::SettingsPage
            &&& after.screens.settings_page.page == Page::Display
            &&& tied ==> after.screens.settings_page.scope == ScopeV::Profile(bound->0) && after.profiles == app.profiles
                && after.hosts == app.hosts && after.effects == app.effects
            &&& !tied ==> {
                &&& after.screens.settings_page.scope == ScopeV::Profile(fresh)
                &&& after.profiles.len() == n + 1
                &&& after.profiles[n].id == fresh
                &&& after.profiles[n].overrides.bitrate_kbps is None && after.profiles[n].overrides.codec is None
                    && after.profiles[n].overrides.width is None && after.profiles[n].overrides.hdr_enabled is None
                &&& forall|j: int| 0 <= j < n ==> (#[trigger] app.profiles[j]).name != after.profiles[n].name
                &&& (forall|j: int| 0 <= j < n ==> (#[trigger] app.profiles[j]).name != title) ==> after.profiles[n].name
                    == title
                &&& forall|j: int| 0 <= j < n ==> #[trigger] after.profiles[j] == app.profiles[j]
                &&& after.hosts.known[i].game_profile(pin_id) == Some(fresh)
                &&& after.hosts.known[i].game_profile(other) == app.hosts.known[i].game_profile(other)
                &&& after.effects == app.effects.push(EffectV::Save(document(after)))
            }
        }),
{
    law_selected_host_is_found(app, i);
    law_unique_name_is_free(app.profiles, title);
    law_binding_read_back(app.hosts.known[i], pin_id, Some(fresh), other);
    let after = app.open_game_profile(pin_id, title, fresh);
    let n = app.profiles.len() as int;
    if app.bound_profile(pin_id) is None {
        assert forall|j: int| 0 <= j < n implies (#[trigger] app.profiles[j]).name != after.profiles[n].name by {}
    }
}

/// Which profile a row of the picker stands for: where none may be chosen, the first row is that, and the
/// profiles follow in their order.
pub proof fn law_pick_row_is_its_profile(app: AppV, pick: ProfilePickV, row: usize)
    ensures
        ({
            let none = pick is HostDefault || pick is BindGame;
            let lead = if none {
                1int
            } else {
                0
            };
            &&& none && row == 0 ==> app.picked_at(pick, row) == Some(None::<Seq<char>>)
            &&& lead <= row < app.profiles.len() + lead ==> app.picked_at(pick, row) == Some(
                Some(app.profiles[row - lead].id),
            )
            &&& row >= app.profiles.len() + lead ==> app.picked_at(pick, row) is None
        }),
{
}

/// Confirming a row of the picker gives the host, the title or the card that row's profile; nothing else
/// takes it, and it is written.
pub proof fn law_pick_is_given(app: AppV, pick: ProfilePickV, chosen: Option<Seq<char>>, i: int, other: Seq<char>, now: u64)
    requires
        app.screens.profile_pick == Some(pick),
        app.picked_at(pick, app.nav.cursor(Screen::PickProfile)) == Some(chosen),
        match pick {
            ProfilePickV::HostDefault(at) => saved_at(app.hosts.known, i, at),
            ProfilePickV::ConnectWith(at) => saved_at(app.hosts.known, i, at),
            ProfilePickV::Pin(at) => saved_at(app.hosts.known, i, at),
            ProfilePickV::BindGame { .. } => selected_at(app, i),
        },
    ensures
        ({
            let was = app.hosts.known[i];
            let after = app.handle_pick_profile_event(MenuEvent::Confirm, now);
            let h = after.hosts.known[i];
            &&& after.hosts.known.len() == app.hosts.known.len()
            &&& forall|j: int|
                0 <= j < app.hosts.known.len() && j != i ==> #[trigger] after.hosts.known[j] == app.hosts.known[j]
            &&& after.profiles == app.profiles
            &&& pick is HostDefault ==> h == (HostV { profile_id: chosen, ..was }) && after.nav.screen
                == Screen::HostMenu && after.screens.profile_pick is None && after.effects[app.effects.len() as int]
                == EffectV::Save(document(after))
            &&& pick is BindGame ==> h.game_profile(pick->pin_id) == chosen && (other != pick->pin_id
                ==> h.game_profile(other) == was.game_profile(other)) && h == (HostV {
                game_profiles: h.game_profiles,
                ..was
            }) && after.nav.screen == Screen::Home && after.screens.profile_pick is None && after.effects[app.effects.len() as int] == EffectV::Save(document(after))
            &&& (pick is Pin && chosen is Some) ==> (was.pinned_profiles.no_duplicates() ==> (
            h.pinned_profiles.contains(chosen->0) <==> !was.pinned_profiles.contains(chosen->0)))
                && h == (HostV { pinned_profiles: h.pinned_profiles, ..was }) && after.nav == app.nav && after.effects
                == app.effects.push(EffectV::Save(document(after)))
            &&& (pick is ConnectWith && idle(app) && was.pin is Some) ==> after.nav.screen == Screen::Home
                && after.screens.profile_pick is None && after.launch_ready is Some && after.launch_ready->0.profile
                == chosen && after.launch_ready->0.host == was.addr && after.launch_ready->0.port == was.port
                && after.launch_ready->0.launch is None && after.launch_ready->0.fingerprint == was.pin->0
        }),
{
    reveal(AppV::handle_pick_profile_event);
    let was = app.hosts.known[i];
    match pick {
        ProfilePickV::HostDefault(at) => {
            law_saved_host_is_found(app.hosts.known, i, at);
        },
        ProfilePickV::ConnectWith(at) => {
            law_saved_host_is_found(app.hosts.known, i, at);
        },
        ProfilePickV::Pin(at) => {
            law_saved_host_is_found(app.hosts.known, i, at);
            match chosen {
                Some(id) => {
                    if was.pinned_profiles.no_duplicates() {
                        law_pin_is_toggled(was, id, other);
                    }
                },
                None => {},
            }
        },
        ProfilePickV::BindGame { pin_id, title } => {
            law_selected_host_is_found(app, i);
            law_binding_read_back(was, pin_id, chosen, other);
        },
    }
}

/// A profile is pinned or not, and choosing it in the picker changes that and no other pin.
pub proof fn law_pin_is_toggled(h: HostV, id: Seq<char>, other: Seq<char>)
    requires
        h.pinned_profiles.no_duplicates(),
    ensures
        h.toggle_pin(id).pinned_profiles.contains(id) <==> !h.pinned_profiles.contains(id),
        other != id ==> (h.toggle_pin(id).pinned_profiles.contains(other) <==> h.pinned_profiles.contains(other)),
        h.toggle_pin(id).pinned_profiles.no_duplicates(),
{
    let pins = h.pinned_profiles;
    let t = h.toggle_pin(id).pinned_profiles;
    pins.index_of_first_ensures(id);
    if pins.contains(id) {
        let k = pins.index_of_first(id)->0;
        assert(t == pins.remove(k));
        if t.contains(id) {
            let p = choose|p: int| 0 <= p < t.len() && t[p] == id;
            assert(pins[if p < k {
                p
            } else {
                p + 1
            }] == id);
        }
        if pins.contains(other) && other != id {
            let p = choose|p: int| 0 <= p < pins.len() && pins[p] == other;
            assert(t[if p < k {
                p
            } else {
                p - 1
            }] == other);
        }
        if t.contains(other) {
            let p = choose|p: int| 0 <= p < t.len() && t[p] == other;
            assert(pins[if p < k {
                p
            } else {
                p + 1
            }] == other);
        }
    } else {
        assert(t == pins.push(id));
        assert(t[pins.len() as int] == id);
        if pins.contains(other) {
            let p = choose|p: int| 0 <= p < pins.len() && pins[p] == other;
            assert(t[p] == other);
        }
        if t.contains(other) && other != id {
            let p = choose|p: int| 0 <= p < t.len() && t[p] == other;
            assert(pins[p] == other);
        }
    }
}

} // verus!
