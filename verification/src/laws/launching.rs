//! Picking a host, its library coming in, and launching from it.
use vstd::prelude::*;
use crate::app::{AppV, DueLineV};
use crate::flags::{Flag, Job};
use crate::home::GamesLoadedV;
use crate::hosts::{law_record_read_back, online_of};
use crate::knownhost::{among, shelf_keep};
use crate::laws::{asked, document, law_saved_host_is_found, saved_at, unsaved};
use crate::library::{ids_of, laid, law_each_game_placed_once, law_every_game_placed, play_times, LibraryV};
use crate::model::{CollectionV, ConnectV, GameV, HomeFocus, HostV, LibraryError, Screen, TargetV};
use crate::recents::{RecentV, still_listed};
use crate::scroll::GridShape;
use crate::seqs::{keep, lemma_keep};
use crate::slots::{EffectV, EndpointV};

verus! {

/// Nothing is being launched.
pub open spec fn idle(app: AppV) -> bool {
    app.launch_ready is None && app.launch_anim is None
}

/// Picking a host selects it, writes the choice, empties what was shown of another and asks for its
/// library, at the port given and with its pairing. The line that says so comes up later.
pub proof fn law_picking_a_host(app: AppV, i: int, at: TargetV, mgmt_port: Option<u16>, now: u64)
    requires
        saved_at(app.hosts.known, i, at),
    ensures
        ({
            let h = app.hosts.known[i];
            let after = app.select_host(at, mgmt_port, now);
            &&& after.library.selected_host == Some(at)
            &&& after.library.games.len() == 0
            &&& after.library.groups.len() == 0
            &&& after.library.art =~= Set::empty()
            &&& after.library.running =~= Set::empty()
            &&& after.library.running_last is None
            &&& after.jobs.out.contains(Job::Games)
            &&& !after.jobs.out.contains(Job::Art)
            &&& after.effects == app.effects.push(EffectV::Save(document(after))).push(
                EffectV::FetchGames(EndpointV { at, mgmt_port, pin: h.pin }),
            )
            &&& after.library_status_due == Some(DueLineV { from: now, line: "Loading library from "@ + h.name + "…"@ })
            &&& after.home_status is None
            &&& after.grid.scroll == 0 && after.grid.scroll_target == 0 && after.grid.focus_last == 0
                && after.grid.dirty
            &&& after.hosts.powered_down == if app.hosts.powered_down == Some(at) {
                None
            } else {
                app.hosts.powered_down
            }
            &&& after.hosts.known == app.hosts.known
            &&& after.profiles == app.profiles
            &&& after.settings == app.settings
            &&& after.nav == app.nav
            &&& after.screens == app.screens
            &&& after.launch_ready == app.launch_ready
        }),
{
    law_saved_host_is_found(app.hosts.known, i, at);
}

/// Letting go of the selected host leaves nothing of it: no host, no games, nothing under way for it, and
/// the focus on the first row.
pub proof fn law_letting_go(app: AppV, now: u64)
    ensures
        ({
            let after = app.clear_selected_host(now);
            &&& after.library.selected_host is None
            &&& after.library.games.len() == 0
            &&& after.library.groups.len() == 0
            &&& after.library.running =~= Set::empty()
            &&& !after.jobs.out.contains(Job::Games)
            &&& !after.jobs.out.contains(Job::Art)
            &&& !after.jobs.out.contains(Job::Running)
            &&& after.home_focus == HomeFocus::Sidebar(0)
            &&& after.home_status is None
            &&& after.library_status_due is None
            &&& after.grid.dirty
            &&& after.hosts == app.hosts
            &&& after.effects == app.effects
        }),
{
}

/// A profile pinned under a host launches that host's desktop with that profile, and with no other.
pub proof fn law_pinned_row_launches_its_profile(app: AppV, idx: usize, i: int, now: u64)
    requires
        idx < app.hosts.entries.len(),
        app.hosts.entries[idx as int] is Pinned,
        saved_at(
            app.hosts.known,
            i,
            (TargetV {
                host: app.hosts.entries[idx as int]->Pinned_host.addr,
                port: app.hosts.entries[idx as int]->Pinned_host.port,
            }),
        ),
        app.hosts.known[i].pin is Some,
        idle(app),
    ensures
        ({
            let row = app.hosts.entries[idx as int];
            let at = TargetV { host: row->Pinned_host.addr, port: row->Pinned_host.port };
            let after = app.confirm_sidebar_host(idx, now);
            let t = after.launch_ready->0;
            &&& after.launch_ready is Some
            &&& t.host == row->Pinned_host.addr
            &&& t.port == row->Pinned_host.port
            &&& t.launch is None
            &&& t.profile == Some(row->profile_id)
            &&& t.fingerprint == app.hosts.known[i].pin->0
            &&& after.library.selected_host == Some(at)
            &&& after.launch_anim_idx is None
            &&& after.effects.last() == EffectV::ArmHero(None)
            &&& after.home_status is None
            &&& app.library.selected_host == Some(at) ==> after.library == app.library && after.effects
                == app.effects.push(EffectV::ArmHero(None))
            &&& app.library.selected_host != Some(at) ==> after.jobs.out.contains(Job::Games) && asked(
                app,
                after,
                EffectV::FetchGames(
                    EndpointV { at, mgmt_port: app.hosts.known[i].mgmt_port, pin: app.hosts.known[i].pin },
                ),
            )
        }),
{
    let row = app.hosts.entries[idx as int];
    let at = TargetV { host: row->Pinned_host.addr, port: row->Pinned_host.port };
    law_saved_host_is_found(app.hosts.known, i, at);
    let after = app.confirm_sidebar_host(idx, now);
    if app.library.selected_host != Some(at) {
        assert(after.effects[(app.effects.len() + 1) as int] == EffectV::FetchGames(
            EndpointV { at, mgmt_port: app.hosts.known[i].mgmt_port, pin: app.hosts.known[i].pin },
        ));
    }
}

/// Two pinned rows launch apart where their profiles are.
pub proof fn law_pinned_rows_launch_apart(app: AppV, a: usize, b: usize, i: int, j: int, now: u64)
    requires
        a < app.hosts.entries.len(),
        b < app.hosts.entries.len(),
        app.hosts.entries[a as int] is Pinned,
        app.hosts.entries[b as int] is Pinned,
        saved_at(
            app.hosts.known,
            i,
            (TargetV {
                host: app.hosts.entries[a as int]->Pinned_host.addr,
                port: app.hosts.entries[a as int]->Pinned_host.port,
            }),
        ),
        saved_at(
            app.hosts.known,
            j,
            (TargetV {
                host: app.hosts.entries[b as int]->Pinned_host.addr,
                port: app.hosts.entries[b as int]->Pinned_host.port,
            }),
        ),
        app.hosts.known[i].pin is Some,
        app.hosts.known[j].pin is Some,
        app.hosts.entries[a as int]->profile_id != app.hosts.entries[b as int]->profile_id,
        idle(app),
    ensures
        app.confirm_sidebar_host(a, now).launch_ready->0.profile != app.confirm_sidebar_host(
            b,
            now,
        ).launch_ready->0.profile,
{
    law_pinned_row_launches_its_profile(app, a, i, now);
    law_pinned_row_launches_its_profile(app, b, j, now);
}

/// A paired host's row selects it and launches nothing; a host that is not paired is paired first, by its
/// own row.
pub proof fn law_host_row(app: AppV, idx: usize, now: u64)
    requires
        idx < app.hosts.entries.len(),
        !(app.hosts.entries[idx as int] is Pinned),
    ensures
        ({
            let after = app.confirm_sidebar_host(idx, now);
            let row = app.hosts.entries[idx as int];
            &&& after.launch_ready == app.launch_ready
            &&& (row is Known && row->Known_0.pin is Some) ==> {
                let h = row->Known_0;
                let at = TargetV { host: h.addr, port: h.port };
                &&& after.library.selected_host == Some(at)
                &&& after.jobs.out.contains(Job::Games)
                &&& after.effects.last() is FetchGames
                &&& after.effects.last()->FetchGames_0.at == at
                &&& after.effects.last()->FetchGames_0.mgmt_port == h.mgmt_port
                &&& after.effects[app.effects.len() as int] == EffectV::Save(document(after))
            }
            &&& !(row is Known && row->Known_0.pin is Some) ==> after == (AppV {
                effects: app.effects.push(EffectV::OpenPairing(idx)),
                ..app
            })
        }),
{
}

/// A card launches its own game, on the selected host and with its pairing, under whatever profile the
/// game is bound to; the desktop's card launches the host's desktop.
pub proof fn law_card_launches_its_game(
    app: AppV,
    i: int,
    idx: usize,
    s: GridShape,
    card: GameV,
    in_hand: bool,
    now: u64,
)
    requires
        idle(app),
        app.library.selected_host is Some,
        saved_at(app.hosts.known, i, app.library.selected_host->0),
        app.hosts.known[i].pin is Some,
        app.library.card_at(s.columns as nat, idx as nat) == Some(card),
    ensures
        ({
            let after = app.confirm_grid_card(idx, s, in_hand, now);
            let id = if card.id == "__desktop__"@ {
                None
            } else {
                Some(card.id)
            };
            &&& after.launch_ready == Some(
                ConnectV {
                    host: app.library.selected_host->0.host,
                    port: app.library.selected_host->0.port,
                    fingerprint: app.hosts.known[i].pin->0,
                    launch: id,
                    profile: None,
                },
            )
            &&& after.launch_anim_idx == Some(idx)
            &&& after.effects.len() > app.effects.len()
            &&& after.effects[app.effects.len() as int] == EffectV::ArmHero(id)
            &&& after.effects.len() <= app.effects.len() + 2
            &&& after.effects.len() == app.effects.len() + 2 ==> !in_hand && id is Some && app.jobs.out.contains(
                Job::Art,
            ) && after.effects.last() == EffectV::AwaitHero(card.id)
            &&& after.home_status is None
            &&& after.library == app.library
            &&& after.hosts == app.hosts
        }),
{
    law_saved_host_is_found(app.hosts.known, i, app.library.selected_host->0);
}

/// A backdrop that is still coming is waited for: one that the listing names, that is not in hand, while
/// artwork is still being fetched.
pub proof fn law_backdrop_is_awaited(app: AppV, id: Seq<char>, p: int, in_hand: bool)
    requires
        0 <= p < app.library.games.len(),
        app.library.games[p].id == id,
        forall|j: int| 0 <= j < p ==> (#[trigger] app.library.games[j]).id != id,
    ensures
        ({
            let named = app.library.games[p].art.hero is Some || app.library.games[p].art.header is Some;
            let after = app.arm_hero(Some(id), in_hand);
            after.effects == if !in_hand && app.jobs.out.contains(Job::Art) && named {
                app.effects.push(EffectV::ArmHero(Some(id))).push(EffectV::AwaitHero(id))
            } else {
                app.effects.push(EffectV::ArmHero(Some(id)))
            }
        }),
{
    let ids = ids_of(app.library.games);
    ids.index_of_first_ensures(id);
    assert(ids[p] == id);
    assert(ids.contains(id));
    let q = ids.index_of_first(id)->0;
    assert(app.library.games[q].id == id);
    if q < p {
        assert(app.library.games[q].id != id);
    }
}

/// One launch at a time, and none on a host that is not paired, is not saved or of a card that is not
/// there.
pub proof fn law_no_launch(
    app: AppV,
    at: TargetV,
    idx: usize,
    s: GridShape,
    in_hand: bool,
    profile: Option<Seq<char>>,
    now: u64,
)
    ensures
        !idle(app) ==> app.confirm_grid_card(idx, s, in_hand, now) == app,
        !idle(app) ==> app.connect_desktop_with(at, profile, now) == app,
        unsaved(app.hosts.known, at) ==> app.connect_desktop_with(at, profile, now) == app,
        forall|i: int| #[trigger]
            saved_at(app.hosts.known, i, at) && app.hosts.known[i].pin is None ==> app.connect_desktop_with(
                at,
                profile,
                now,
            ) == app && (app.library.selected_host == Some(at) ==> app.confirm_grid_card(idx, s, in_hand, now) == app),
        app.library.selected_host is None ==> app.confirm_grid_card(idx, s, in_hand, now) == app,
        app.library.card_at(s.columns as nat, idx as nat) is None ==> app.confirm_grid_card(idx, s, in_hand, now)
            == app,
{
    law_saved_host_is_found(app.hosts.known, 0, at);
    assert forall|i: int| #[trigger]
        saved_at(app.hosts.known, i, at) && app.hosts.known[i].pin is None implies app.connect_desktop_with(
        at,
        profile,
        now,
    ) == app && (app.library.selected_host == Some(at) ==> app.confirm_grid_card(idx, s, in_hand, now) == app) by {
        law_saved_host_is_found(app.hosts.known, i, at);
    }
}

/// The shelves show every game there is: there are none, or one of them is the Library, which names none
/// of its own.
pub open spec fn shows_all(cols: Seq<CollectionV>) -> bool {
    cols.len() == 0 || ((exists|k: int| 0 <= k < cols.len() && (#[trigger] cols[k]).dynamic) && forall|k: int|
        0 <= k < cols.len() && (#[trigger] cols[k]).dynamic ==> cols[k].games.len() == 0)
}

/// Laying the games out loses none of them.
proof fn lemma_laid_out(lib: LibraryV, h: HostV, recents: Seq<RecentV>, x: int)
    requires
        0 <= x < lib.games.len(),
        shows_all(h.collections),
    ensures
        lib.regroup(h, recents).games.contains(lib.games[x]),
{
    let cols = h.collections;
    if cols.len() > 0 {
        let ids = ids_of(lib.games);
        let times = play_times(lib.games, h.addr, h.port, recents);
        let k = choose|k: int| 0 <= k < cols.len() && (#[trigger] cols[k]).dynamic;
        law_every_game_placed(ids, cols, times, k, x);
        let order = laid(ids, cols, times, cols.len() as int);
        let j = choose|j: int| 0 <= j < order.len() && order[j] == x;
        assert(lib.regroup(h, recents).games[j] == lib.games[x]);
    } else {
        assert(lib.regroup(h, recents).games[x] == lib.games[x]);
    }
}

/// Every game of a listing, and the desktop, is in it when it is put in order.
proof fn lemma_listed(lib: LibraryV, games: Seq<GameV>, x: int)
    requires
        0 <= x <= games.len(),
    ensures
        lib.load_games(games).games.len() == games.len() + 1,
        lib.load_games(games).games.contains(games.push(crate::library::desktop_card())[x]),
{
    let all = games.push(crate::library::desktop_card());
    let order = crate::sorting::key_order(crate::library::title_keys(all));
    crate::sorting::law_key_order(crate::library::title_keys(all));
    assert(order.contains(x));
    let j = choose|j: int| 0 <= j < order.len() && order[j] == x;
    assert(lib.load_games(games).games[j] == all[x]);
}

/// A library that came in is shown whole: every game the host listed is there, by its id and its title, and
/// so is the desktop. The host is on, its artwork is asked for, and the fetch is over.
pub proof fn law_library_comes_in_whole(app: AppV, i: int, loaded: GamesLoadedV, games: Seq<GameV>, x: int, now: u64)
    requires
        app.jobs.out.contains(Job::Games),
        loaded.result == Ok::<Seq<GameV>, (LibraryError, Seq<char>)>(games),
        app.library.selected_host == Some(loaded.at),
        saved_at(app.hosts.known, i, loaded.at),
        shows_all(app.hosts.known[i].collections),
        0 <= x < games.len(),
    ensures
        ({
            let after = app.drain_games(loaded, now);
            &&& !after.jobs.out.contains(Job::Games)
            &&& after.jobs.out.contains(Job::Art)
            &&& online_of(after.hosts.reachable, loaded.at) == Some(true)
            &&& asked(
                app,
                after,
                EffectV::StartArt(
                    EndpointV { at: loaded.at, mgmt_port: Some(loaded.mgmt_port), pin: app.hosts.known[i].pin },
                    app.grid.card_size,
                ),
            )
            &&& after.library.selected_host == Some(loaded.at)
            &&& after.grid.dirty
            &&& exists|p: int|
                0 <= p < after.library.games.len() && (#[trigger] after.library.games[p]).id == games[x].id
                    && after.library.games[p].title == games[x].title && after.library.games[p].art == games[x].art
            &&& exists|p: int|
                0 <= p < after.library.games.len() && (#[trigger] after.library.games[p]).id == "__desktop__"@
        }),
{
    let at = loaded.at;
    law_saved_host_is_found(app.hosts.known, i, at);
    law_record_read_back(app.hosts.reachable, at, true, at);
    let noted = AppV { jobs: app.jobs.stop(Job::Games), ..app }.note_api_result(at, loaded.error());
    let started = noted.start_art(at, loaded.mgmt_port).with_games(games).land_focus(now).settle_status(now);
    let pruned = started.prune_stale_game_prefs();
    let after = app.drain_games(loaded, now);
    assert(after.effects[app.effects.len() as int] == started.effects[app.effects.len() as int]);
    assert(pruned.library == started.library);
    lemma_keep_addresses(started, i, at);
    law_saved_host_is_found(pruned.hosts.known, i, at);
    let h = pruned.hosts.known[i];
    let lib = pruned.library.set_desktop_icon(crate::app::os_mark(h.os, pruned.marked_os));
    let all = games.push(crate::library::desktop_card());
    assert(after.library == lib.regroup(h, pruned.recents));
    lemma_listed(app.library, games, x);
    lemma_listed(app.library, games, games.len() as int);
    let listed = pruned.library.games;
    assert(listed == app.library.load_games(games).games);
    let p = choose|p: int| 0 <= p < listed.len() && listed[p] == all[x];
    let d = choose|d: int| 0 <= d < listed.len() && listed[d] == all[games.len() as int];
    ids_of(listed).index_of_first_ensures("__desktop__"@);
    assert(lib.games.len() == listed.len());
    assert(lib.games[p].id == games[x].id && lib.games[p].title == games[x].title && lib.games[p].art
        == games[x].art);
    assert(lib.games[d].id == "__desktop__"@);
    lemma_laid_out(lib, h, pruned.recents, p);
    lemma_laid_out(lib, h, pruned.recents, d);
    let q = choose|q: int| 0 <= q < after.library.games.len() && after.library.games[q] == lib.games[p];
    let e = choose|q: int| 0 <= q < after.library.games.len() && after.library.games[q] == lib.games[d];
    assert(after.library.games[q].id == games[x].id);
    assert(after.library.games[e].id == "__desktop__"@);
}

/// Dropping what a host no longer lists leaves its place on record, and its shelves what they are.
proof fn lemma_keep_addresses(app: AppV, i: int, at: TargetV)
    requires
        app.library.selected_host == Some(at),
        saved_at(app.hosts.known, i, at),
    ensures
        saved_at(app.prune_stale_game_prefs().hosts.known, i, at),
        shows_all(app.hosts.known[i].collections) ==> shows_all(
            app.prune_stale_game_prefs().hosts.known[i].collections,
        ),
{
    law_saved_host_is_found(app.hosts.known, i, at);
    let known = app.prune_stale_game_prefs().hosts.known;
    let h = app.hosts.known[i];
    let live = ids_of(app.library.games);
    let cols = h.prune_games(live).collections;
    assert forall|k: int| 0 <= k < cols.len() implies (#[trigger] cols[k]).games.len() <= h.collections[k].games.len()
        && cols[k].dynamic == h.collections[k].dynamic by {
        lemma_keep(h.collections[k].games, among(live));
    }
    if shows_all(h.collections) && cols.len() > 0 {
        let k = choose|k: int| 0 <= k < h.collections.len() && (#[trigger] h.collections[k]).dynamic;
        assert(cols[k].dynamic);
        assert(shows_all(cols));
    }
}

/// What a host no longer lists leaves its shelves and its bindings, and nothing else does: each shelf keeps
/// its name, its kind and every game that is still listed.
pub proof fn law_only_unlisted_games_leave(app: AppV, i: int, at: TargetV, k: int, id: Seq<char>)
    requires
        app.library.selected_host == Some(at),
        saved_at(app.hosts.known, i, at),
        0 <= k < app.hosts.known[i].collections.len(),
    ensures
        ({
            let was = app.hosts.known[i];
            let h = app.prune_stale_game_prefs().hosts.known[i];
            let listed = exists|p: int| 0 <= p < app.library.games.len() && (#[trigger] app.library.games[p]).id == id;
            &&& h.collections.len() == was.collections.len()
            &&& h.collections[k].name == was.collections[k].name
            &&& h.collections[k].dynamic == was.collections[k].dynamic
            &&& h.collections[k].games.contains(id) <==> was.collections[k].games.contains(id) && listed
            &&& forall|b: crate::model::BindingV| #[trigger]
                h.game_profiles.contains(b) && b.game == id <==> was.game_profiles.contains(b) && b.game == id && listed
            &&& h == (HostV { collections: h.collections, game_profiles: h.game_profiles, ..was })
        }),
{
    law_saved_host_is_found(app.hosts.known, i, at);
    let was = app.hosts.known[i];
    let live = ids_of(app.library.games);
    lemma_keep(was.collections[k].games, among(live));
    lemma_keep(was.game_profiles, crate::knownhost::binds_among(live));
    let listed = exists|p: int| 0 <= p < app.library.games.len() && (#[trigger] app.library.games[p]).id == id;
    assert(live.contains(id) <==> listed) by {
        if live.contains(id) {
            let p = choose|p: int| 0 <= p < live.len() && live[p] == id;
            assert(app.library.games[p].id == id);
        }
        if listed {
            let p = choose|p: int| 0 <= p < app.library.games.len() && (#[trigger] app.library.games[p]).id == id;
            assert(live[p] == id);
        }
    }
    let h = app.prune_stale_game_prefs().hosts.known[i];
    let pruned = was.prune_games(live);
    assert(h == pruned);
    assert(pruned.collections[k] == shelf_keep(was.collections[k], among(live)));
    assert forall|b: crate::model::BindingV| #[trigger] h.game_profiles.contains(b) && b.game == id
        <==> was.game_profiles.contains(b) && b.game == id && listed by {
        assert(h.game_profiles.contains(b) <==> keep(
            was.game_profiles,
            crate::knownhost::binds_among(live),
        ).contains(b));
    }
}

/// Plays are forgotten of the games that their host no longer lists, and of no others.
pub proof fn law_only_unlisted_plays_are_forgotten(app: AppV, i: int, at: TargetV, r: RecentV)
    requires
        app.library.selected_host == Some(at),
        saved_at(app.hosts.known, i, at),
    ensures
        app.prune_recents().recents.contains(r) <==> app.recents.contains(r) && !(r.host == at.host && r.port == at.port
            && forall|p: int| 0 <= p < app.library.games.len() ==> (#[trigger] app.library.games[p]).id != r.id),
        app.prune_recents().recents != app.recents ==> app.prune_recents().effects == app.effects.push(
            EffectV::SaveRecents,
        ),
        app.prune_recents().recents == app.recents ==> app.prune_recents() == app,
{
    law_saved_host_is_found(app.hosts.known, i, at);
    let live = ids_of(app.library.games);
    lemma_keep(app.recents, still_listed(at.host, at.port, live));
    assert(live.contains(r.id) <==> exists|p: int|
        0 <= p < app.library.games.len() && (#[trigger] app.library.games[p]).id == r.id) by {
        if live.contains(r.id) {
            let p = choose|p: int| 0 <= p < live.len() && live[p] == r.id;
            assert(app.library.games[p].id == r.id);
        }
        if exists|p: int| 0 <= p < app.library.games.len() && (#[trigger] app.library.games[p]).id == r.id {
            let p = choose|p: int| 0 <= p < app.library.games.len() && (#[trigger] app.library.games[p]).id == r.id;
            assert(live[p] == r.id);
        }
    }
    assert(keep(app.recents, still_listed(at.host, at.port, live)).contains(r) <==> app.recents.contains(r)
        && still_listed(at.host, at.port, live)(r));
}

/// Silence in place of a library is a host to be woken, by the addresses on record for it; any other
/// refusal leaves the desktop alone to be launched and says why.
pub proof fn law_library_refused(
    app: AppV,
    i: int,
    loaded: GamesLoadedV,
    e: LibraryError,
    reason: Seq<char>,
    now: u64,
)
    requires
        app.jobs.out.contains(Job::Games),
        loaded.result == Err::<Seq<GameV>, (LibraryError, Seq<char>)>((e, reason)),
        app.library.selected_host == Some(loaded.at),
        saved_at(app.hosts.known, i, loaded.at),
    ensures
        ({
            let h = app.hosts.known[i];
            let after = app.drain_games(loaded, now);
            &&& !after.jobs.out.contains(Job::Games)
            &&& after.library.selected_host == app.library.selected_host
            &&& after.hosts.known == app.hosts.known
            &&& online_of(after.hosts.reachable, loaded.at) == Some(!(e is Unreachable))
            &&& e is Unreachable ==> {
                &&& after.screens.wake is Some
                &&& after.screens.wake->0.host == loaded.at.host
                &&& after.screens.wake->0.port == loaded.at.port
                &&& after.screens.wake->0.mac == h.mac
                &&& after.screens.wake->0.reason == reason
                &&& after.library == app.library
                &&& (h.wol_auto && h.mac.len() > 0 && app.hosts.powered_down != Some(loaded.at)) ==> after.effects
                    == app.effects.push(EffectV::WakePacket(h.mac, h.addr, h.name))
                &&& !(h.wol_auto && h.mac.len() > 0 && app.hosts.powered_down != Some(loaded.at)) ==> after.nav.screen
                    == Screen::Wake && after.effects == app.effects
            }
            &&& !(e is Unreachable) ==> {
                &&& after.screens == app.screens
                &&& after.nav == app.nav
                &&& after.home_status == Some(reason)
                &&& after.effects == app.effects
                &&& after.library.games.len() <= 1
                &&& shows_all(h.collections) ==> after.library.games.len() == 1
                &&& after.library.games.len() == 1 ==> after.library.games[0].id == "__desktop__"@
            }
        }),
{
    let at = loaded.at;
    law_saved_host_is_found(app.hosts.known, i, at);
    law_record_read_back(app.hosts.reachable, at, !(e is Unreachable), at);
    if !(e is Unreachable) {
        let none = Seq::<GameV>::empty();
        let h = app.hosts.known[i];
        lemma_listed(app.library, none, 0);
        let listed = app.library.load_games(none);
        assert(listed.games[0].id == "__desktop__"@);
        let lib = listed.set_desktop_icon(crate::app::os_mark(h.os, app.marked_os));
        ids_of(listed.games).index_of_first_ensures("__desktop__"@);
        assert(lib.games.len() == 1);
        assert(lib.games[0].id == "__desktop__"@);
        let after = app.drain_games(loaded, now);
        assert(after.library == lib.regroup(h, app.recents));
        let cols = h.collections;
        let ids = ids_of(lib.games);
        let times = play_times(lib.games, h.addr, h.port, app.recents);
        if cols.len() > 0 {
            law_each_game_placed_once(ids, cols, times);
            let order = laid(ids, cols, times, cols.len() as int);
            crate::library::lemma_distinct_below(order, 1);
            if shows_all(cols) {
                lemma_laid_out(lib, h, app.recents, 0);
            }
            if order.len() == 1 {
                assert(0 <= order[0] < ids.len());
                assert(after.library.games[0] == lib.games[order[0]]);
            }
        }
    }
}

/// An answer that nothing is waiting for changes nothing.
pub proof fn law_stale_library_is_dropped(app: AppV, loaded: GamesLoadedV, now: u64)
    requires
        !app.jobs.out.contains(Job::Games),
    ensures
        app.drain_games(loaded, now) == app,
{
}

/// A library that lands under the focused row takes the focus into its grid; where the focus is elsewhere
/// it stays.
pub proof fn law_focus_follows_the_library(app: AppV, row: usize, now: u64)
    requires
        app.library.selected_host is Some,
        row < app.hosts.entries.len(),
        app.hosts.entries[row as int].host() == app.library.selected_host->0.host,
        app.hosts.entries[row as int].port() == app.library.selected_host->0.port,
        forall|j: int|
            0 <= j < row ==> !((#[trigger] app.hosts.entries[j]).host() == app.library.selected_host->0.host
                && app.hosts.entries[j].port() == app.library.selected_host->0.port),
    ensures
        app.home_focus == HomeFocus::Sidebar(row) ==> app.land_focus(now).home_focus == HomeFocus::Grid(0),
        app.home_focus != HomeFocus::Sidebar(row) ==> app.land_focus(now) == app,
{
    let at = app.library.selected_host->0;
    crate::seqs::lemma_first_is(app.hosts.entries, crate::hosts::entry_is(at.host, at.port), row as int);
}

/// A line that must not be lost outlives a library's coming in; any other goes. The hint that is owed is
/// shown once.
pub proof fn law_status_settles(app: AppV, now: u64)
    ensures
        ({
            let after = app.settle_status(now);
            &&& app.flags.contains(Flag::IntroHintOwed) ==> after.home_status == Some(crate::home::INTRO_HINT@)
                && !after.flags.contains(Flag::IntroHintOwed)
            &&& !app.flags.contains(Flag::IntroHintOwed) ==> after.home_status == (if app.flags.contains(
                Flag::StickyStatus,
            ) {
                app.home_status
            } else {
                None
            })
            &&& after.settle_status(now).home_status == if app.flags.contains(Flag::IntroHintOwed) {
                None
            } else {
                after.home_status
            }
        }),
{
}

/// The desktop's card carries the mark of its host's system, and no other card changes.
pub proof fn law_desktop_carries_its_mark(lib: LibraryV, icon: Option<Seq<char>>, d: int)
    requires
        0 <= d < lib.games.len(),
        lib.games[d].id == "__desktop__"@,
        forall|j: int| 0 <= j < d ==> (#[trigger] lib.games[j]).id != "__desktop__"@,
    ensures
        lib.set_desktop_icon(icon).games.len() == lib.games.len(),
        lib.set_desktop_icon(icon).games[d] == (GameV { icon, ..lib.games[d] }),
        forall|j: int|
            0 <= j < lib.games.len() && j != d ==> #[trigger] lib.set_desktop_icon(icon).games[j] == lib.games[j],
        lib.set_desktop_icon(icon).groups == lib.groups,
{
    let ids = ids_of(lib.games);
    ids.index_of_first_ensures("__desktop__"@);
    assert(ids[d] == "__desktop__"@);
    assert(ids.contains("__desktop__"@));
    let q = ids.index_of_first("__desktop__"@)->0;
    assert(lib.games[q].id == "__desktop__"@);
    assert(q >= d);
}

/// Scrolling goes as far as it is told to, between the top and the end of the grid.
pub proof fn law_grid_scrolls(app: AppV, dy: i32, s: GridShape)
    requires
        app.library.selected_host is Some,
    ensures
        ({
            let max = app.max_grid_scroll(s);
            let after = app.scroll_grid_by(dy, s);
            let to = app.grid.scroll_target + dy;
            &&& 0 <= max <= i32::MAX
            &&& 0 <= after.grid.scroll_target <= max
            &&& 0 <= to <= max ==> after.grid.scroll_target == to
            &&& to < 0 ==> after.grid.scroll_target == 0
            &&& to > max ==> after.grid.scroll_target == max
            &&& after.library == app.library
        }),
{
}

/// A card that takes the focus is brought into view, as far as the grid can scroll.
pub proof fn law_focused_card_comes_into_view(app: AppV, idx: usize, s: GridShape)
    requires
        s.card_h >= 0,
        s.card_h + 2 * crate::scroll::FOCUS_MARGIN <= s.bottom - s.top,
    ensures
        ({
            let top = crate::scroll::card_top(app.library.groups, s, idx as nat);
            let to = app.ensure_grid_visible(idx, s).grid.scroll_target;
            &&& 0 <= to <= app.max_grid_scroll(s)
            &&& to < app.max_grid_scroll(s) ==> top + s.card_h + crate::scroll::FOCUS_MARGIN - to <= s.bottom
            &&& to > 0 ==> s.top <= top - crate::scroll::FOCUS_MARGIN - to
        }),
{
}

} // verus!
