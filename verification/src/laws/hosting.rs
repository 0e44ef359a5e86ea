//! Hosts: their rows and menus, their power, their addresses, and what is measured of them.
use vstd::prelude::*;
use crate::app::AppV;
use crate::flags::{Flag, Job};
use crate::hosts::{
    host_is, host_is_not, host_pos, known_rows, law_record_read_back, online_of, pin_cards, profile_pos, EntryV,
};
use crate::hostmenu::{offered, HostAction};
use crate::laws::{
    asked, document, law_profile_is_found, law_saved_host_is_found, lemma_asked_last, profile_at, saved_at, unsaved,
};
use crate::menu::PowerRights;
use crate::model::{ExitAction, HomeFocus, HostV, LibraryError, MenuEvent, ProfileV, Screen, Settings, TargetV};
use crate::recents::{elsewhere, RecentV};
use crate::seqs::{keep, lemma_first_from, lemma_keep};
use crate::slots::{EffectV, EndpointV, ExitPlanV, PowerJobV, ProbeFailure, ProbeVerdict, ProfilePickV, SpeedV};
use crate::speedtest::SpeedMsgV;

verus! {

// ------------------------------------------------------------------------------ rows --

/// A host's pinned profiles have a card each, in the order they were pinned.
proof fn lemma_pin_cards(h: HostV, profiles: Seq<ProfileV>, n: int, p: int, q: int)
    requires
        0 <= n <= h.pinned_profiles.len(),
    ensures
        (0 <= p < n && profile_at(profiles, q, h.pinned_profiles[p])) ==> pin_cards(h, profiles, n).contains(
            EntryV::Pinned {
                host: h,
                profile_id: h.pinned_profiles[p],
                label: h.name + " · "@ + profiles[q].name,
            },
        ),
        forall|r: int|
            0 <= r < pin_cards(h, profiles, n).len() ==> (#[trigger] pin_cards(h, profiles, n)[r]) is Pinned && pin_cards(
                h,
                profiles,
                n,
            )[r]->Pinned_host == h && h.pinned_profiles.contains(pin_cards(h, profiles, n)[r]->profile_id) && profile_pos(
                profiles,
                pin_cards(h, profiles, n)[r]->profile_id,
            ) is Some,
    decreases n,
{
    if n > 0 {
        lemma_pin_cards(h, profiles, n - 1, p, q);
        let rest = pin_cards(h, profiles, n - 1);
        let all = pin_cards(h, profiles, n);
        let id = h.pinned_profiles[n - 1];
        assert(h.pinned_profiles.contains(id));
        if 0 <= p < n && profile_at(profiles, q, h.pinned_profiles[p]) {
            let card = EntryV::Pinned {
                host: h,
                profile_id: h.pinned_profiles[p],
                label: h.name + " · "@ + profiles[q].name,
            };
            law_profile_is_found(profiles, q, h.pinned_profiles[p]);
            if p < n - 1 {
                let r = choose|r: int| 0 <= r < rest.len() && rest[r] == card;
                assert(all[r] == card);
            } else {
                assert(all[rest.len() as int] == card);
            }
        }
        assert forall|r: int| 0 <= r < all.len() implies (#[trigger] all[r]) is Pinned && all[r]->Pinned_host == h
            && h.pinned_profiles.contains(all[r]->profile_id) && profile_pos(profiles, all[r]->profile_id) is Some by {
            if r < rest.len() {
                assert(all[r] == rest[r]);
            }
        }
    }
}

/// Every saved host has its row, and under it a card for each pinned profile that there still is, named
/// after both. There are no other rows.
pub proof fn law_sidebar_rows(known: Seq<HostV>, profiles: Seq<ProfileV>, n: int, k: int, p: int, q: int)
    requires
        0 <= k < n <= known.len(),
    ensures
        known_rows(known, profiles, n).contains(EntryV::Known(known[k])),
        (0 <= p < known[k].pinned_profiles.len() && profile_at(profiles, q, known[k].pinned_profiles[p])) ==> known_rows(
            known,
            profiles,
            n,
        ).contains(
            EntryV::Pinned {
                host: known[k],
                profile_id: known[k].pinned_profiles[p],
                label: known[k].name + " · "@ + profiles[q].name,
            },
        ),
        forall|r: int|
            0 <= r < known_rows(known, profiles, n).len() ==> match #[trigger] known_rows(known, profiles, n)[r] {
                EntryV::Known(h) => known.contains(h),
                EntryV::Pinned { host, profile_id, .. } => known.contains(host) && host.pinned_profiles.contains(
                    profile_id,
                ) && profile_pos(profiles, profile_id) is Some,
                EntryV::Discovered(_) => false,
            },
    decreases n,
{
    let h = known[n - 1];
    let before = known_rows(known, profiles, n - 1);
    let cards = pin_cards(h, profiles, h.pinned_profiles.len() as int);
    let all = known_rows(known, profiles, n);
    assert(all == before.push(EntryV::Known(h)) + cards);
    assert(known.contains(h));
    lemma_pin_cards(h, profiles, h.pinned_profiles.len() as int, p, q);
    if n - 1 > 0 {
        law_sidebar_rows(
            known,
            profiles,
            n - 1,
            if k < n - 1 {
                k
            } else {
                0
            },
            p,
            q,
        );
    }
    let wanted = EntryV::Pinned {
        host: known[k],
        profile_id: known[k].pinned_profiles[p],
        label: known[k].name + " · "@ + profiles[q].name,
    };
    if k < n - 1 {
        let r = choose|r: int| 0 <= r < before.len() && before[r] == EntryV::Known(known[k]);
        assert(all[r] == EntryV::Known(known[k]));
        if 0 <= p < known[k].pinned_profiles.len() && profile_at(profiles, q, known[k].pinned_profiles[p]) {
            let s = choose|s: int| 0 <= s < before.len() && before[s] == wanted;
            assert(all[s] == wanted);
        }
    } else {
        assert(all[before.len() as int] == EntryV::Known(h));
        if 0 <= p < known[k].pinned_profiles.len() && profile_at(profiles, q, known[k].pinned_profiles[p]) {
            let s = choose|s: int| 0 <= s < cards.len() && cards[s] == wanted;
            assert(all[before.len() + 1 + s] == wanted);
        }
    }
    assert forall|r: int| 0 <= r < all.len() implies match #[trigger] all[r] {
        EntryV::Known(g) => known.contains(g),
        EntryV::Pinned { host, profile_id, .. } => known.contains(host) && host.pinned_profiles.contains(profile_id)
            && profile_pos(profiles, profile_id) is Some,
        EntryV::Discovered(_) => false,
    } by {
        if r < before.len() {
            assert(all[r] == before[r]);
        } else if r > before.len() {
            assert(all[r] == cards[r - before.len() - 1]);
        }
    }
}

/// What is a row's own: its host's address and port, whether it is paired, and what it is called.
pub proof fn law_row_is_its_host(e: EntryV)
    ensures
        e.target() == match e {
            EntryV::Known(h) => TargetV { host: h.addr, port: h.port },
            EntryV::Discovered(f) => TargetV { host: f.addr, port: f.port },
            EntryV::Pinned { host, .. } => TargetV { host: host.addr, port: host.port },
        },
        e.is_paired() <==> (e matches EntryV::Known(h) && h.pin is Some) || (e is Pinned && e->Pinned_host.pin is Some),
        e.name() == match e {
            EntryV::Known(h) => h.name,
            EntryV::Discovered(f) => f.name,
            EntryV::Pinned { label, .. } => label,
        },
        e.mac() == match e {
            EntryV::Known(h) => h.mac,
            EntryV::Discovered(f) => f.mac,
            EntryV::Pinned { host, .. } => host.mac,
        },
        e.has_menu() <==> !(e is Pinned),
{
}

// ------------------------------------------------------------------------------ menu --

/// What a host's menu offers, and to which hosts.
pub proof fn law_menu_offers(e: EntryV, power: Option<ExitAction>, profiles: bool)
    ensures
        ({
            let o = offered(e, power, profiles);
            let saved = e is Known;
            let paired = e.is_paired();
            &&& o.contains(HostAction::Connect)
            &&& o.contains(HostAction::Pair)
            &&& o.contains(HostAction::SpeedTest) <==> paired
            &&& o.contains(HostAction::Power) <==> paired && (e.mac().len() > 0 || power is Some)
            &&& o.contains(HostAction::PowerSettings) <==> saved
            &&& o.contains(HostAction::ConnectWith) <==> saved && paired && profiles
            &&& o.contains(HostAction::DefaultProfile) <==> saved && paired && profiles
            &&& o.contains(HostAction::Pin) <==> saved && paired && profiles
            &&& o.contains(HostAction::Edit) <==> saved
            &&& o.contains(HostAction::Forget) <==> saved
            &&& o.no_duplicates()
        }),
{
    let base = seq![HostAction::Connect, HostAction::Pair];
    let o = offered(e, power, profiles);
    assert(o[0] == HostAction::Connect);
    assert(o[1] == HostAction::Pair);
    let t = if e.is_paired() {
        1int
    } else {
        0
    };
    let w = if e.is_paired() && (e.mac().len() > 0 || power is Some) {
        1int
    } else {
        0
    };
    let s = if e is Known {
        1int
    } else {
        0
    };
    let c = if e is Known && e.is_paired() && profiles {
        3int
    } else {
        0
    };
    if t == 1 {
        assert(o[2] == HostAction::SpeedTest);
    }
    if w == 1 {
        assert(o[2 + t] == HostAction::Power);
    }
    if s == 1 {
        assert(o[2 + t + w] == HostAction::PowerSettings);
        assert(o[2 + t + w + s + c] == HostAction::Edit);
        assert(o[2 + t + w + s + c + 1] == HostAction::Forget);
    }
    if c == 3 {
        assert(o[2 + t + w + s] == HostAction::ConnectWith);
        assert(o[2 + t + w + s + 1] == HostAction::DefaultProfile);
        assert(o[2 + t + w + s + 2] == HostAction::Pin);
    }
}

/// A host's menu opens on its first row, over that host.
pub proof fn law_menu_opens(app: AppV, idx: usize)
    requires
        app.nav.cursors.len() == 20,
    ensures
        app.open_host_menu(idx).nav.screen == Screen::HostMenu,
        app.open_host_menu(idx).nav.cursor(Screen::HostMenu) == 0,
        app.open_host_menu(idx).screens.host_menu_index == Some(idx),
        app.open_host_menu(idx).hosts == app.hosts,
        app.open_host_menu(idx).effects == app.effects,
{
}

/// The power row of a host that is on puts it down the way it is put down on leaving, or shuts it down; that
/// of a host that is off wakes it.
pub proof fn law_power_row(app: AppV, idx: usize, i: int)
    requires
        idx < app.hosts.entries.len(),
        saved_at(app.hosts.known, i, app.hosts.entries[idx as int].target()),
    ensures
        ({
            let at = app.hosts.entries[idx as int].target();
            let row = app.open_host_menu(idx).screens.host_menu_power;
            row == if online_of(app.hosts.reachable, at) == Some(true) {
                Some(
                    if app.hosts.known[i].exit_action == ExitAction::Sleep {
                        ExitAction::Sleep
                    } else {
                        ExitAction::Shutdown
                    },
                )
            } else {
                None
            }
        }),
{
    law_saved_host_is_found(app.hosts.known, i, app.hosts.entries[idx as int].target());
}

/// A row of a host's menu does what it says, to that host.
pub proof fn law_menu_row_acts(app: AppV, idx: usize, row: usize, now: u64)
    requires
        app.screens.host_menu_index == Some(idx),
        idx < app.hosts.entries.len(),
        app.nav.cursor(Screen::HostMenu) == row,
        app.nav.screen == Screen::HostMenu,
        app.nav.cursors.len() == 20,
        row < app.host_menu_actions().len(),
    ensures
        ({
            let action = app.host_menu_actions()[row as int];
            let at = app.hosts.entries[idx as int].target();
            let after = app.handle_host_menu_event(MenuEvent::Confirm, now);
            &&& action is Connect ==> after.nav.screen == Screen::Home && after.screens.host_menu_index is None && (
            app.hosts.entries[idx as int] matches EntryV::Known(h) && h.pin is Some ==> after.library.selected_host
                == Some(at))
            &&& action is Pair ==> after.effects == app.effects.push(EffectV::OpenPairing(idx))
                && after.screens.host_menu_index is None
            &&& action is SpeedTest ==> after.nav.screen == Screen::SpeedTest && after.effects.last() is StartSpeedTest
                && after.effects.last()->StartSpeedTest_0 == at
            &&& action is PowerSettings ==> after.nav.screen == Screen::HostPower && after.hosts == app.hosts
            &&& action is ConnectWith && app.profiles.len() > 0 ==> after.nav.screen == Screen::PickProfile
                && after.screens.profile_pick == Some(ProfilePickV::ConnectWith(at))
            &&& action is DefaultProfile ==> after.nav.screen == Screen::PickProfile && after.screens.profile_pick
                == Some(ProfilePickV::HostDefault(at))
            &&& action is Pin && app.profiles.len() > 0 ==> after.nav.screen == Screen::PickProfile
                && after.screens.profile_pick == Some(ProfilePickV::Pin(at))
            &&& action is Edit && app.hosts.entries[idx as int] is Known ==> after.nav.screen == Screen::EditHost
                && after.hosts == app.hosts
            &&& action is Forget ==> after.nav.screen == Screen::ForgetHost && after.nav.cursor(Screen::ForgetHost) == 1
                && after.hosts == app.hosts && after.effects == app.effects
            &&& app.handle_host_menu_event(MenuEvent::Back, now).nav.screen == Screen::Home
            &&& app.handle_host_menu_event(MenuEvent::Back, now).screens.host_menu_index is None
            &&& app.handle_host_menu_event(MenuEvent::Back, now).effects == app.effects
        }),
{
    reveal(AppV::handle_host_menu_event);
}

/// The power row wakes a host that was drawn as off, by its own addresses, and puts down one that was drawn
/// as on, the way it was drawn.
pub proof fn law_power_row_acts(app: AppV, idx: usize, i: int, now: u64)
    requires
        idx < app.hosts.entries.len(),
        saved_at(app.hosts.known, i, app.hosts.entries[idx as int].target()),
        app.hosts.known[i].pin is Some,
    ensures
        ({
            let e = app.hosts.entries[idx as int];
            let h = app.hosts.known[i];
            let after = app.confirm_power_row(idx, now);
            &&& after.screens.host_menu_index is None
            &&& app.screens.host_menu_power is None ==> {
                &&& after.screens.wake is Some
                &&& after.screens.wake->0.host == e.target().host
                &&& after.screens.wake->0.port == e.target().port
                &&& after.screens.wake->0.mac == e.mac()
                &&& after.screens.wake->0.reason == "Waking "@ + e.name() + "…"@
            }
            &&& (app.screens.host_menu_power matches Some(a) && a != ExitAction::Nothing) ==> {
                let action = app.screens.host_menu_power->0;
                &&& after.nav.screen == Screen::Home
                &&& after.effects == app.effects.push(
                    EffectV::PowerAction(
                        ExitPlanV { addr: h.addr, mgmt_port: h.mgmt_port, pin: h.pin->0, action },
                    ),
                ).push(EffectV::TellPending(action, e.name()))
                &&& after.jobs.power_action == Some(PowerJobV { at: e.target(), action })
                &&& after.hosts.powered_down == Some(e.target())
            }
        }),
{
    law_saved_host_is_found(app.hosts.known, i, app.hosts.entries[idx as int].target());
}

// ----------------------------------------------------------------------------- power --

/// Putting a host down asks that host for that action, with its pairing. It is let go of where it was the
/// selected one, and known to be off; another host that is selected stays selected.
pub proof fn law_host_is_put_down(app: AppV, i: int, at: TargetV, action: ExitAction, name: Seq<char>, other: TargetV, now: u64)
    requires
        saved_at(app.hosts.known, i, at),
        app.hosts.known[i].pin is Some,
        action != ExitAction::Nothing,
    ensures
        ({
            let h = app.hosts.known[i];
            let after = app.start_power_action(at, action, name, now);
            &&& after.effects == app.effects.push(
                EffectV::PowerAction(ExitPlanV { addr: h.addr, mgmt_port: h.mgmt_port, pin: h.pin->0, action }),
            ).push(EffectV::TellPending(action, name))
            &&& after.jobs.power_action == Some(PowerJobV { at, action })
            &&& after.hosts.powered_down == Some(at)
            &&& online_of(after.hosts.reachable, at) == Some(false)
            &&& other != at ==> online_of(after.hosts.reachable, other) == online_of(app.hosts.reachable, other)
            &&& app.library.selected_host == Some(at) ==> after.library.selected_host is None
                && after.library.games.len() == 0
            &&& app.library.selected_host != Some(at) ==> after.library == app.library
            &&& after.hosts.known == app.hosts.known
        }),
{
    law_saved_host_is_found(app.hosts.known, i, at);
    law_record_read_back(app.hosts.reachable, at, false, other);
    law_record_read_back(app.hosts.reachable, at, false, at);
}

/// Nothing is asked of a host that is not paired, or where there is nothing to do.
pub proof fn law_no_power_action(app: AppV, i: int, at: TargetV, action: ExitAction, name: Seq<char>, now: u64)
    requires
        saved_at(app.hosts.known, i, at),
        app.hosts.known[i].pin is None || action == ExitAction::Nothing,
    ensures
        app.start_power_action(at, action, name, now) == app,
{
    law_saved_host_is_found(app.hosts.known, i, at);
}

/// The outcome is told, and stays told. A host that went down stays down; one that refused can be woken
/// again, and is on unless it was silent.
pub proof fn law_power_outcome(app: AppV, error: Option<LibraryError>, line: Seq<char>, now: u64)
    requires
        app.jobs.power_action is Some,
    ensures
        ({
            let at = app.jobs.power_action->0.at;
            let after = app.drain_power_action(error, line, now);
            &&& after.jobs.power_action is None
            &&& after.home_status == Some(line)
            &&& after.flags.contains(Flag::StickyStatus)
            &&& error is None ==> after.hosts == app.hosts
            &&& error is Some ==> after.hosts.powered_down != Some(at) && online_of(after.hosts.reachable, at) == Some(
                !(error->0 is Unreachable),
            )
            &&& (error is Some && app.hosts.powered_down != Some(at)) ==> after.hosts.powered_down
                == app.hosts.powered_down
            &&& after.hosts.known == app.hosts.known
            &&& after.effects == app.effects
        }),
{
    match error {
        Some(e) => {
            let at = app.jobs.power_action->0.at;
            law_record_read_back(app.hosts.reachable, at, !(e is Unreachable), at);
        },
        None => {},
    }
}

/// On leaving, the selected host is put down as it is set to be, where it is paired and on.
pub proof fn law_leaving_puts_the_host_down(app: AppV, i: int)
    requires
        app.library.selected_host is Some,
        saved_at(app.hosts.known, i, app.library.selected_host->0),
    ensures
        ({
            let h = app.hosts.known[i];
            let goes = h.pin is Some && h.exit_action != ExitAction::Nothing && online_of(
                app.hosts.reachable,
                app.library.selected_host->0,
            ) == Some(true);
            &&& goes ==> app.exit_plan() == Some(
                ExitPlanV { addr: h.addr, mgmt_port: h.mgmt_port, pin: h.pin->0, action: h.exit_action },
            )
            &&& !goes ==> app.exit_plan() is None
        }),
{
    law_saved_host_is_found(app.hosts.known, i, app.library.selected_host->0);
}

/// Opening a host's power settings asks it what may be done, where it is paired.
pub proof fn law_rights_are_asked(app: AppV, idx: usize, i: int)
    requires
        app.screens.host_menu_index == Some(idx),
        idx < app.hosts.entries.len(),
        saved_at(app.hosts.known, i, app.hosts.entries[idx as int].target()),
        app.nav.cursors.len() == 20,
    ensures
        ({
            let h = app.hosts.known[i];
            let after = app.open_host_power();
            &&& after.nav.screen == Screen::HostPower
            &&& after.nav.cursor(Screen::HostPower) == 0
            &&& after.screens.power_rights is None
            &&& h.pin is Some ==> after.jobs.power_access == Some(app.hosts.entries[idx as int].target())
                && after.effects == app.effects.push(
                EffectV::ProbePower(
                    ExitPlanV { addr: h.addr, mgmt_port: h.mgmt_port, pin: h.pin->0, action: ExitAction::Sleep },
                ),
            )
            &&& h.pin is None ==> after.jobs.power_access is None && after.effects == app.effects
        }),
{
    law_saved_host_is_found(app.hosts.known, i, app.hosts.entries[idx as int].target());
}

/// What a host answers of its power is what its screen shows, and an answer shows that it is on.
pub proof fn law_rights_answered(app: AppV, at: TargetV, answer: Result<PowerRights, LibraryError>)
    requires
        app.jobs.power_access == Some(at),
        app.host_power_target() == Some(at),
    ensures
        ({
            let after = app.drain_power_access(answer);
            &&& after.jobs.power_access is None
            &&& after.screens.power_rights == Some(
                match answer {
                    Ok(rights) => ProbeVerdict::Rights(rights),
                    Err(LibraryError::Http(404)) => ProbeVerdict::Failure(ProbeFailure::Unsupported),
                    Err(_) => ProbeVerdict::Failure(ProbeFailure::Unreachable),
                },
            )
            &&& answer is Ok ==> online_of(after.hosts.reachable, at) == Some(true)
            &&& after.screens.power_rights == Some(ProbeVerdict::Failure(ProbeFailure::Unreachable)) ==> after.hosts
                == app.hosts
        }),
{
    law_record_read_back(app.hosts.reachable, at, true, at);
}

/// The first row of a host's power settings turns over whether it is woken without asking, for that host
/// alone; twice turns it back.
pub proof fn law_waking_unasked_turns_over(app: AppV, idx: usize, i: int, now: u64)
    requires
        app.screens.host_menu_index == Some(idx),
        idx < app.hosts.entries.len(),
        saved_at(app.hosts.known, i, app.hosts.entries[idx as int].target()),
        app.nav.cursor(Screen::HostPower) == 0,
    ensures
        ({
            let after = app.handle_host_power_event(MenuEvent::Confirm, now);
            &&& after.hosts.known[i] == (HostV { wol_auto: !app.hosts.known[i].wol_auto, ..app.hosts.known[i] })
            &&& after.hosts.known.len() == app.hosts.known.len()
            &&& forall|j: int|
                0 <= j < app.hosts.known.len() && j != i ==> #[trigger] after.hosts.known[j] == app.hosts.known[j]
            &&& after.effects == app.effects.push(EffectV::Save(document(after)))
        }),
{
    reveal(AppV::handle_host_power_event);
    law_saved_host_is_found(app.hosts.known, i, app.hosts.entries[idx as int].target());
}

/// The second row goes round nothing, sleeping and shutting down, for that host alone, where the host lets
/// anything be done.
pub proof fn law_exit_action_goes_round(app: AppV, idx: usize, i: int, now: u64)
    requires
        app.screens.host_menu_index == Some(idx),
        idx < app.hosts.entries.len(),
        saved_at(app.hosts.known, i, app.hosts.entries[idx as int].target()),
        app.nav.cursor(Screen::HostPower) == 1,
    ensures
        ({
            let was = app.hosts.known[i];
            let on = app.handle_host_power_event(MenuEvent::Right, now);
            let back = app.handle_host_power_event(MenuEvent::Left, now);
            let open = was.pin is Some && (app.screens.power_rights matches Some(ProbeVerdict::Rights(r)) && (r.sleep
                || r.shutdown));
            &&& open ==> on.hosts.known[i] == (HostV {
                exit_action: match was.exit_action {
                    ExitAction::Nothing => ExitAction::Sleep,
                    ExitAction::Sleep => ExitAction::Shutdown,
                    ExitAction::Shutdown => ExitAction::Nothing,
                },
                ..was
            }) && on.effects == app.effects.push(EffectV::Save(document(on)))
            &&& open ==> back.hosts.known[i] == (HostV {
                exit_action: match was.exit_action {
                    ExitAction::Nothing => ExitAction::Shutdown,
                    ExitAction::Sleep => ExitAction::Nothing,
                    ExitAction::Shutdown => ExitAction::Sleep,
                },
                ..was
            })
            &&& !open ==> on == app && back == app
            &&& forall|j: int|
                0 <= j < app.hosts.known.len() && j != i ==> #[trigger] on.hosts.known[j] == app.hosts.known[j]
        }),
{
    reveal(AppV::handle_host_power_event);
    law_saved_host_is_found(app.hosts.known, i, app.hosts.entries[idx as int].target());
}

// -------------------------------------------------------------------------- on record --

/// Forgetting a host, once it is confirmed, takes that host off the record, and no other; its plays go with
/// it, and no others. Where it was selected, nothing is then. What is left is written.
pub proof fn law_host_is_forgotten(app: AppV, idx: usize, h: HostV, other: HostV, r: RecentV, now: u64)
    requires
        app.screens.host_menu_index == Some(idx),
        idx < app.hosts.entries.len(),
        app.hosts.entries[idx as int] == EntryV::Known(h),
    ensures
        ({
            let at = TargetV { host: h.addr, port: h.port };
            let sure = app.nav.cursor(Screen::ForgetHost) == 0;
            let after = app.handle_forget_event(MenuEvent::Confirm, now);
            &&& sure ==> {
                &&& after.hosts.known.contains(other) <==> app.hosts.known.contains(other) && !(other.addr == h.addr
                    && other.port == h.port)
                &&& after.recents.contains(r) <==> app.recents.contains(r) && !(r.host == h.addr && r.port == h.port)
                &&& app.library.selected_host == Some(at) ==> after.library.selected_host is None
                    && after.library.games.len() == 0
                &&& app.library.selected_host != Some(at) ==> after.library == app.library
                &&& asked(app, after, EffectV::Save(document(after)))
                &&& after.nav.screen == Screen::Home
                &&& after.screens.host_menu_index is None
            }
            &&& !sure ==> after.hosts == app.hosts && after.recents == app.recents && after.effects == app.effects
                && after.nav.screen == Screen::HostMenu
            &&& app.handle_forget_event(MenuEvent::Back, now).hosts == app.hosts
        }),
{
    reveal(AppV::handle_forget_event);
    let at = TargetV { host: h.addr, port: h.port };
    lemma_keep(app.hosts.known, host_is_not(at.host, at.port));
    lemma_keep(app.recents, elsewhere(at.host, at.port));
    let after = app.handle_forget_event(MenuEvent::Confirm, now);
    assert(keep(app.hosts.known, host_is_not(at.host, at.port)).contains(other) <==> app.hosts.known.contains(other)
        && host_is_not(at.host, at.port)(other));
    assert(keep(app.recents, elsewhere(at.host, at.port)).contains(r) <==> app.recents.contains(r) && elsewhere(
        at.host,
        at.port,
    )(r));
    if app.nav.cursor(Screen::ForgetHost) == 0 {
        lemma_asked_last(app, after, EffectV::Save(document(after)));
    }
}

/// A host that is added stands on record at the address that was typed, under that address as its name,
/// unpaired; where one stands there already it stays as it is. Its row has the focus.
pub proof fn law_host_is_added(app: AppV, at: TargetV, now: u64)
    ensures
        ({
            let after = app.handle_add_host_event(MenuEvent::Confirm, Some(at), now);
            &&& after.nav.screen == Screen::Home
            &&& asked(app, after, EffectV::Save(document(after)))
            &&& unsaved(app.hosts.known, at) ==> {
                let n = app.hosts.known.len() as int;
                let h = after.hosts.known[n];
                &&& after.hosts.known.len() == n + 1
                &&& forall|j: int| 0 <= j < n ==> #[trigger] after.hosts.known[j] == app.hosts.known[j]
                &&& h.addr == at.host
                &&& h.port == at.port
                &&& h.pin is None
                &&& h.mac.len() == 0
                &&& !h.wol_auto
                &&& h.exit_action == ExitAction::Nothing
                &&& h.collections.len() == 0
                &&& h.mgmt_port is None
            }
            &&& !unsaved(app.hosts.known, at) ==> after.hosts.known == app.hosts.known
            &&& app.handle_add_host_event(MenuEvent::Confirm, None, now) == app
            &&& app.handle_add_host_event(MenuEvent::Back, Some(at), now).hosts == app.hosts
        }),
{
    reveal(AppV::handle_add_host_event);
    law_saved_host_is_found(app.hosts.known, 0, at);
    let after = app.handle_add_host_event(MenuEvent::Confirm, Some(at), now);
    lemma_asked_last(app, after, EffectV::Save(document(after)));
}

/// A host whose address is changed is on record at the new one, where no other is, with everything else that
/// was on record for it, and no longer at the old one; it stays selected where it was. The same address
/// changes nothing, and neither does one that cannot be read.
pub proof fn law_address_is_changed(app: AppV, idx: usize, was: HostV, at: TargetV, other: HostV, now: u64)
    requires
        app.screens.host_menu_index == Some(idx),
        idx < app.hosts.entries.len(),
        app.hosts.entries[idx as int] == EntryV::Known(was),
        unsaved(app.hosts.known, at),
        !(was.addr == at.host && was.port == at.port),
    ensures
        ({
            let old_at = TargetV { host: was.addr, port: was.port };
            let after = app.handle_edit_host_event(MenuEvent::Confirm, Some(at), now);
            &&& after.hosts.known.contains(HostV { addr: at.host, port: at.port, ..was })
            &&& unsaved(after.hosts.known, old_at)
            &&& !(other.addr == was.addr && other.port == was.port) && app.hosts.known.contains(other)
                ==> after.hosts.known.contains(other)
            &&& after.library.selected_host == if app.library.selected_host == Some(old_at) {
                Some(at)
            } else {
                app.library.selected_host
            }
            &&& after.nav.screen == Screen::HostMenu
            &&& after.effects.len() > app.effects.len()
            &&& after.effects.last() is Save
            &&& after.effects.last()->Save_0.known_hosts == after.hosts.known
            &&& app.handle_edit_host_event(MenuEvent::Confirm, Some(old_at), now).hosts == app.hosts
            &&& app.handle_edit_host_event(MenuEvent::Confirm, None, now) == app
            &&& app.handle_edit_host_event(MenuEvent::Back, Some(at), now).hosts == app.hosts
        }),
{
    reveal(AppV::handle_edit_host_event);
    let old_at = TargetV { host: was.addr, port: was.port };
    let kept = keep(app.hosts.known, host_is_not(was.addr, was.port));
    lemma_keep(app.hosts.known, host_is_not(was.addr, was.port));
    let moved = HostV { addr: at.host, port: at.port, ..was };
    assert(unsaved(kept, at)) by {
        assert forall|j: int| 0 <= j < kept.len() implies !((#[trigger] kept[j]).addr == at.host && kept[j].port
            == at.port) by {
            assert(kept.contains(kept[j]));
            let k = choose|k: int| 0 <= k < app.hosts.known.len() && app.hosts.known[k] == kept[j];
            assert(!(app.hosts.known[k].addr == at.host && app.hosts.known[k].port == at.port));
        }
    }
    law_saved_host_is_found(kept, 0, at);
    let after = app.handle_edit_host_event(MenuEvent::Confirm, Some(at), now);
    let known = after.hosts.known;
    assert(known == kept.push(moved));
    assert(known[kept.len() as int] == moved);
    assert forall|j: int| 0 <= j < known.len() implies !((#[trigger] known[j]).addr == old_at.host && known[j].port
        == old_at.port) by {
        if j < kept.len() {
            assert(host_is_not(was.addr, was.port)(kept[j]));
        }
    }
    if !(other.addr == was.addr && other.port == was.port) && app.hosts.known.contains(other) {
        assert(host_is_not(was.addr, was.port)(other));
        assert(kept.contains(other));
        let k = choose|k: int| 0 <= k < kept.len() && kept[k] == other;
        assert(known[k] == other);
    }
}

// --------------------------------------------------------------------------- measured --

/// A speed test is run against the host it was opened on, with its pairing.
pub proof fn law_speed_test_starts(app: AppV, idx: usize, i: int)
    requires
        idx < app.hosts.entries.len(),
        saved_at(app.hosts.known, i, app.hosts.entries[idx as int].target()),
        app.nav.cursors.len() == 20,
    ensures
        ({
            let e = app.hosts.entries[idx as int];
            let after = app.open_speed_test(idx);
            &&& after.nav.screen == Screen::SpeedTest
            &&& after.nav.cursor(Screen::SpeedTest) == 0
            &&& after.screens.speed_test == Some(SpeedV::Connecting)
            &&& after.screens.speed_test_name == e.name()
            &&& after.jobs.out.contains(Job::SpeedTest)
            &&& after.effects == app.effects.push(EffectV::StartSpeedTest(e.target(), app.hosts.known[i].pin))
            &&& after.settings == app.settings
        }),
{
    law_saved_host_is_found(app.hosts.known, i, app.hosts.entries[idx as int].target());
}

/// What a test says is what its screen shows; a test that ended, well or badly, is over.
pub proof fn law_speed_test_is_shown(app: AppV, m: SpeedMsgV)
    ensures
        ({
            let after = app.speed_msg(m);
            &&& m matches SpeedMsgV::Progress(p) ==> after.screens.speed_test == Some(
                SpeedV::Measuring { partial: Some(p) },
            ) && after.jobs == app.jobs
            &&& m matches SpeedMsgV::Done { outcome, confirmed } ==> after.screens.speed_test == Some(
                SpeedV::Done { outcome, confirmed },
            ) && !after.jobs.out.contains(Job::SpeedTest)
            &&& m matches SpeedMsgV::Failed(e) ==> after.screens.speed_test == Some(SpeedV::Failed(e))
                && !after.jobs.out.contains(Job::SpeedTest)
            &&& after.settings == app.settings
            &&& after.effects == app.effects
        }),
{
}

/// Applying a test sets the global bitrate to seven tenths of what was measured, in whole megabits and
/// within what can be set, and writes it. A test that measured too little, or failed, is run again.
pub proof fn law_speed_test_is_applied(app: AppV, now: u64)
    requires
        app.screens.speed_test is Some,
        app.nav.cursor(Screen::SpeedTest) == 0,
        app.nav.screen == Screen::SpeedTest,
    ensures
        ({
            let after = app.handle_speed_test_event(MenuEvent::Confirm, now);
            let test = app.screens.speed_test->0;
            &&& (test is Done && crate::speedtest::recommended(test->outcome.throughput_kbps as int) is Some) ==> {
                let kbps = crate::speedtest::recommended(test->outcome.throughput_kbps as int)->0;
                &&& after.settings == (Settings { bitrate_kbps: kbps as u32, ..app.settings })
                &&& after.effects == app.effects.push(EffectV::Save(document(after)))
                &&& after.nav.screen == Screen::HostMenu
                &&& after.screens.speed_test is None
                &&& after.profiles == app.profiles
            }
            &&& (test is Failed && app.screens.host_menu_index is Some && app.screens.host_menu_index->0
                < app.hosts.entries.len()) ==> {
                &&& after.settings == app.settings
                &&& after.screens.speed_test == Some(SpeedV::Connecting)
                &&& after.effects.last() is StartSpeedTest
                &&& after.effects.last()->StartSpeedTest_0
                    == app.hosts.entries[app.screens.host_menu_index->0 as int].target()
            }
            &&& app.handle_speed_test_event(MenuEvent::Back, now).settings == app.settings
            &&& app.handle_speed_test_event(MenuEvent::Back, now).nav.screen == Screen::HostMenu
        }),
{
    reveal(AppV::handle_speed_test_event);
}

/// How much of what was measured is recommended.
pub proof fn law_recommended_share(throughput: u32)
    ensures
        throughput < 2_000 <==> crate::speedtest::recommended(throughput as int) is None,
        crate::speedtest::recommended(throughput as int) matches Some(kbps) ==> {
            &&& kbps % 1000 == 0
            &&& 5_000 <= kbps <= 200_000
            &&& (5_000 < kbps) ==> kbps * 10 <= throughput * 7
            &&& (kbps < 200_000) ==> throughput * 7 < (kbps + 1000) * 10 + 70
        },
{
}

/// Logs go to the host they were offered to, with its pairing, and to no other; what became of them is told.
pub proof fn law_logs_go_to_the_host(app: AppV, idx: usize, i: int, now: u64)
    requires
        idx < app.hosts.entries.len(),
        saved_at(app.hosts.known, i, app.hosts.entries[idx as int].target()),
    ensures
        ({
            let h = app.hosts.known[i];
            let after = app.send_logs_to_host(idx, now);
            &&& after.nav.screen == Screen::Home
            &&& after.screens.host_menu_index is None
            &&& h.pin is Some ==> {
                &&& after.effects == app.effects.push(
                    EffectV::SendLogs(
                        EndpointV {
                            at: TargetV { host: h.addr, port: h.port },
                            mgmt_port: h.mgmt_port,
                            pin: h.pin,
                        },
                        h.name,
                    ),
                )
                &&& after.jobs.out.contains(Job::SendLogs)
                &&& after.home_status == Some("Sending logs to "@ + h.name + "…"@)
            }
            &&& h.pin is None ==> after.effects == app.effects && after.jobs == app.jobs
        }),
{
    law_saved_host_is_found(app.hosts.known, i, app.hosts.entries[idx as int].target());
}

/// What became of the logs is said once, while it is waited for.
pub proof fn law_logs_outcome(app: AppV, line: Option<Seq<char>>, now: u64)
    ensures
        app.jobs.out.contains(Job::SendLogs) ==> ({
            let after = app.drain_send_logs(line, now);
            &&& !after.jobs.out.contains(Job::SendLogs)
            &&& line is Some ==> after.home_status == line
            &&& line is None ==> after.home_status == app.home_status
        }),
        !app.jobs.out.contains(Job::SendLogs) ==> app.drain_send_logs(line, now) == app,
{
}

/// The form that changes an address opens on the address it has; the one that adds a host opens empty.
pub proof fn law_address_forms_open(app: AppV, idx: usize, h: HostV)
    requires
        idx < app.hosts.entries.len(),
        app.hosts.entries[idx as int] == EntryV::Known(h),
    ensures
        app.open_edit_host(idx).nav.screen == Screen::EditHost,
        h.port == 9777 ==> app.open_edit_host(idx).screens.add_host == h.addr,
        h.port != 9777 ==> app.open_edit_host(idx).screens.add_host == h.addr + ":"@
            + crate::text::decimal(h.port as nat),
        app.open_edit_host(idx).hosts == app.hosts,
        app.open_add_host().nav.screen == Screen::AddHost,
        app.open_add_host().screens.add_host.len() == 0,
{
}

/// A host that was added has the focus, on its own row.
pub proof fn law_added_host_has_the_focus(app: AppV, at: TargetV, now: u64)
    ensures
        ({
            let after = app.confirm_add_host(Some(at), now);
            &&& after.home_focus is Sidebar
            &&& after.hosts.entries.len() <= usize::MAX ==> after.home_focus->Sidebar_0 < after.hosts.entries.len()
                && after.hosts.entries[after.home_focus->Sidebar_0 as int].target() == at
        }),
{
    let added = app.upserted(crate::addresses::bare_host(at.host, at.port)).persist().rebuild_entries();
    crate::addresses::law_added_host_is_saved(app.hosts, crate::addresses::bare_host(at.host, at.port));
    let known = added.hosts.known;
    let entries = added.hosts.entries;
    lemma_first_from(known, host_is(at.host, at.port), 0);
    let k = host_pos(known, at.host, at.port)->0;
    assert(host_is(at.host, at.port)(known[k]));
    law_sidebar_rows(known, added.profiles, known.len() as int, k, 0, 0);
    let here = crate::hosts::entry_is(at.host, at.port);
    lemma_first_from(entries, here, 0);
    let r = choose|r: int| 0 <= r < entries.len() && entries[r] == EntryV::Known(known[k]);
    assert(here(entries[r]));
    let f = crate::hosts::entry_pos(entries, at.host, at.port)->0;
    assert(here(entries[f]));
    let after = app.confirm_add_host(Some(at), now);
    assert(after.hosts.entries == entries);
    assert(after.home_focus == HomeFocus::Sidebar(f as usize));
}

/// A host's menu says where the host is and whether it is paired.
pub proof fn law_host_menu_says_where(app: AppV, idx: usize)
    requires
        app.screens.host_menu_index == Some(idx),
        idx < app.hosts.entries.len(),
    ensures
        app.host_menu_title() == app.hosts.entries[idx as int].name(),
        app.host_menu_subtitle() == app.hosts.entries[idx as int].target().host + ":"@ + crate::text::decimal(
            app.hosts.entries[idx as int].target().port as nat,
        ) + " · "@ + (if app.hosts.entries[idx as int].is_paired() {
            "paired"@
        } else {
            "not paired"@
        }),
{
}

/// What a run of a test's messages comes to: the first that ends it, or the last that came.
pub proof fn law_speed_messages_are_taken(app: AppV, msgs: Seq<SpeedMsgV>, i: int, k: int)
    requires
        app.jobs.out.contains(Job::SpeedTest),
        0 <= i <= k < msgs.len(),
        forall|j: int| i <= j < k ==> (#[trigger] msgs[j]) is Progress,
        !(msgs[k] is Progress) || k == msgs.len() - 1,
    ensures
        app.drain_speed_test(msgs, i).screens.speed_test == Some(
            match msgs[k] {
                SpeedMsgV::Progress(p) => SpeedV::Measuring { partial: Some(p) },
                SpeedMsgV::Done { outcome, confirmed } => SpeedV::Done { outcome, confirmed },
                SpeedMsgV::Failed(e) => SpeedV::Failed(e),
            },
        ),
        app.drain_speed_test(msgs, i).jobs.out.contains(Job::SpeedTest) <==> msgs[k] is Progress,
        app.drain_speed_test(msgs, i).settings == app.settings,
    decreases msgs.len() - i,
{
    let next = app.speed_msg(msgs[i]);
    if i < k {
        assert(msgs[i] is Progress);
        law_speed_messages_are_taken(next, msgs, i + 1, k);
    } else {
        assert(next.drain_speed_test(msgs, i + 1) == next);
    }
}

/// What is said of an upload.
pub proof fn law_upload_is_told(name: Seq<char>, refusal: Seq<char>)
    ensures
        crate::sendlogs::upload_line(name, None, refusal) == "Logs sent to "@ + name
            + " — download them from its web console's Logs page"@,
        crate::sendlogs::upload_line(name, Some(LibraryError::NotPaired), refusal) == name
            + " refused the logs — pair with it again."@,
        crate::sendlogs::upload_line(name, Some(LibraryError::Unreachable), refusal) == name + ": "@ + refusal,
{
}

} // verus!
