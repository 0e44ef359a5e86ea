//! Where keys lead: Home, the way back from every screen, starting up, and what comes in between frames.
use vstd::prelude::*;
use crate::app::{AppV, DueLineV};
use crate::dispatch::ContextV;
use crate::flags::{Flag, Job};
use crate::frame::ArtV;
use crate::home::GamesLoadedV;
use crate::hosts::entry_is;
use crate::jobs::{HostJobsV, LibraryJobsV, PowerDoneV, RunningV};
use crate::laws::{document, law_saved_host_is_found};
use crate::model::{FoundV, HomeFocus, LibraryError, MenuEvent, Screen};
use crate::seqs::{lemma_first_from, lemma_first_is};
use crate::slots::{EffectV, EndpointV, ScopeV};
use crate::startup::{started, LoadedV};

verus! {

// ------------------------------------------------------------------------------ Home --

/// What a press on Home does: a host's row confirms that host, the row below the hosts adds one, the one
/// below that opens the settings, a row's menu button opens that host's menu, and a card launches.
pub proof fn law_press_on_home(app: AppV, c: ContextV, i: usize, now: u64)
    requires
        app.nav.screen == Screen::Home,
        app.card_menu is None,
        app.nav.cursors.len() == 20,
    ensures
        ({
            let after = app.handle_menu_event(MenuEvent::Confirm, c, now);
            let n = app.hosts.entries.len();
            &&& (app.home_focus == HomeFocus::Sidebar(i) && i < n) ==> after == app.confirm_sidebar_host(i, now)
            &&& (app.home_focus == HomeFocus::Sidebar(i) && i == n) ==> after.nav.screen == Screen::AddHost
                && after.screens.add_host.len() == 0 && after.hosts == app.hosts && after.effects == app.effects
            &&& (app.home_focus == HomeFocus::Sidebar(i) && i > n) ==> after.nav.screen == Screen::SettingsPage
                && after.settings == app.settings && after.effects == app.effects
            &&& app.home_focus == HomeFocus::SidebarMenu(i) ==> after.nav.screen == Screen::HostMenu
                && after.screens.host_menu_index == Some(i) && after.effects == app.effects
            &&& app.home_focus == HomeFocus::Grid(i) ==> after == app.confirm_grid_card(i, c.shape, c.in_hand, now)
        }),
{
    reveal(AppV::handle_home_event);
    reveal(AppV::confirm_home);
    reveal(AppV::confirm_sidebar);
}

/// A direction on Home moves the focus to the place it leads to, and nowhere where it leads nowhere; a card
/// that takes the focus is remembered. Nothing is launched, selected or written.
pub proof fn law_direction_on_home(app: AppV, c: ContextV, ev: MenuEvent, now: u64)
    requires
        app.nav.screen == Screen::Home,
        app.card_menu is None,
        ev == MenuEvent::Up || ev == MenuEvent::Down || ev == MenuEvent::Left || ev == MenuEvent::Right,
    ensures
        ({
            let after = app.handle_menu_event(ev, c, now);
            &&& after.home_focus == if c.next is Some {
                c.next->0
            } else {
                app.home_focus
            }
            &&& (c.next matches Some(HomeFocus::Grid(k)) && app.home_focus != HomeFocus::Grid(k)) ==> after.grid.focus_last
                == c.next->0->Grid_0
            &&& after.nav == app.nav
            &&& after.hosts == app.hosts
            &&& after.library == app.library
            &&& after.effects == app.effects
            &&& after.launch_ready == app.launch_ready
        }),
{
    reveal(AppV::handle_home_event);
    reveal(AppV::navigate_home);
}

/// Secondary on a saved host's row forgets that host; anywhere else on Home it does nothing.
pub proof fn law_secondary_on_home(app: AppV, c: ContextV, i: usize, now: u64)
    requires
        app.nav.screen == Screen::Home,
        app.card_menu is None,
    ensures
        ({
            let after = app.handle_menu_event(MenuEvent::Secondary, c, now);
            &&& (app.home_focus == HomeFocus::Sidebar(i) && i < app.hosts.entries.len()) ==> after == app.forget_host(
                i,
                now,
            )
            &&& (app.home_focus == HomeFocus::Sidebar(i) && i >= app.hosts.entries.len()) ==> after == app
            &&& !(app.home_focus is Sidebar) ==> after == app
        }),
{
    reveal(AppV::handle_home_event);
    reveal(AppV::forget_focused);
}

/// Back on Home goes from the grid to the selected host's row, from a row's menu button to its row, and
/// stays on a row; with a card's menu up it puts that away first.
pub proof fn law_back_on_home_goes_to_the_host(app: AppV, c: ContextV, row: usize, now: u64)
    requires
        app.nav.screen == Screen::Home,
        app.library.selected_host is Some,
        row < app.hosts.entries.len(),
        app.hosts.entries[row as int].target() == app.library.selected_host->0,
        forall|j: int| 0 <= j < row ==> (#[trigger] app.hosts.entries[j]).target() != app.library.selected_host->0,
    ensures
        ({
            let after = app.back(c, now);
            &&& app.card_menu is Some ==> after.card_menu is None && after.home_focus == app.home_focus
            &&& (app.card_menu is None && app.home_focus is Grid) ==> after.home_focus == HomeFocus::Sidebar(row)
            &&& (app.card_menu is None && app.home_focus is SidebarMenu) ==> after.home_focus == HomeFocus::Sidebar(
                app.home_focus->SidebarMenu_0,
            )
            &&& (app.card_menu is None && app.home_focus is Sidebar) ==> after == app
            &&& after.library == app.library
            &&& after.hosts == app.hosts
        }),
{
    reveal(AppV::back_home);
    let at = app.library.selected_host->0;
    let here = entry_is(at.host, at.port);
    assert(here(app.hosts.entries[row as int]));
    assert forall|j: int| 0 <= j < row implies !here(#[trigger] app.hosts.entries[j]) by {
        assert(app.hosts.entries[j].target() != at);
    }
    lemma_first_is(app.hosts.entries, here, row as int);
}

/// A focus that moves is where it was sent, and the moment is kept for its animation.
pub proof fn law_focus_moves(app: AppV, focus: HomeFocus, now: u64)
    ensures
        app.set_home_focus(focus, now).home_focus == focus,
        focus is Grid && app.home_focus != focus ==> app.set_home_focus(focus, now).grid.focus_last == focus->Grid_0
            && app.set_home_focus(focus, now).focus_anim == Some(now),
        app.home_focus == focus ==> app.set_home_focus(focus, now) == app,
        app.set_home_focus(focus, now).effects == app.effects,
        app.set_home_focus(focus, now).library == app.library,
{
}

// -------------------------------------------------------------------------- the way back --

/// Nothing on record changed, and nothing was asked for.
pub open spec fn unchanged(app: AppV, after: AppV) -> bool {
    &&& after.hosts == app.hosts
    &&& after.settings == app.settings
    &&& after.profiles == app.profiles
    &&& after.library == app.library
    &&& after.effects == app.effects
}

proof fn lemma_back_from_add_host(app: AppV, c: ContextV, now: u64)
    requires
        app.nav.screen == Screen::AddHost,
    ensures
        app.back(c, now).nav.screen == Screen::Home,
        unchanged(app, app.back(c, now)),
{
    reveal(AppV::host_screen_event);
    reveal(AppV::handle_add_host_event);
}

proof fn lemma_back_from_edit_host(app: AppV, c: ContextV, now: u64)
    requires
        app.nav.screen == Screen::EditHost,
    ensures
        app.back(c, now).nav.screen == Screen::HostMenu,
        unchanged(app, app.back(c, now)),
{
    reveal(AppV::host_screen_event);
    reveal(AppV::handle_edit_host_event);
}

proof fn lemma_back_from_host_menu(app: AppV, c: ContextV, now: u64)
    requires
        app.nav.screen == Screen::HostMenu,
    ensures
        app.back(c, now).nav.screen == Screen::Home,
        unchanged(app, app.back(c, now)),
{
    reveal(AppV::host_screen_event);
    reveal(AppV::handle_host_menu_event);
}

proof fn lemma_back_from_host_power(app: AppV, c: ContextV, now: u64)
    requires
        app.nav.screen == Screen::HostPower,
    ensures
        app.back(c, now).nav.screen == Screen::HostMenu,
        unchanged(app, app.back(c, now)),
{
    reveal(AppV::host_screen_event);
    reveal(AppV::handle_host_power_event);
}

proof fn lemma_back_from_forget_host(app: AppV, c: ContextV, now: u64)
    requires
        app.nav.screen == Screen::ForgetHost,
    ensures
        app.back(c, now).nav.screen == Screen::HostMenu,
        unchanged(app, app.back(c, now)),
{
    reveal(AppV::host_screen_event);
    reveal(AppV::handle_forget_event);
}

proof fn lemma_back_from_speed_test(app: AppV, c: ContextV, now: u64)
    requires
        app.nav.screen == Screen::SpeedTest,
    ensures
        app.back(c, now).nav.screen == Screen::HostMenu,
        unchanged(app, app.back(c, now)),
{
    reveal(AppV::host_screen_event);
    reveal(AppV::handle_speed_test_event);
}

proof fn lemma_back_from_wake(app: AppV, c: ContextV, now: u64)
    requires
        app.nav.screen == Screen::Wake,
    ensures
        app.screens.wake is Some ==> app.back(c, now).nav.screen == Screen::Home,
        unchanged(app, app.back(c, now)),
{
    reveal(AppV::host_screen_event);
    reveal(AppV::handle_wake_event);
}

proof fn lemma_back_from_rename_profile(app: AppV, c: ContextV, now: u64)
    requires
        app.nav.screen == Screen::RenameProfile,
    ensures
        app.back(c, now).nav.screen == Screen::SettingsPage,
        unchanged(app, app.back(c, now)),
{
    reveal(AppV::settings_screen_event);
    reveal(AppV::handle_rename_profile_event);
}

proof fn lemma_back_from_delete_profile(app: AppV, c: ContextV, now: u64)
    requires
        app.nav.screen == Screen::DeleteProfile,
    ensures
        app.back(c, now).nav.screen == Screen::SettingsPage,
        unchanged(app, app.back(c, now)),
{
    reveal(AppV::settings_screen_event);
    reveal(AppV::handle_delete_profile_event);
}

proof fn lemma_back_from_hdr_calibration(app: AppV, c: ContextV, now: u64)
    requires
        app.nav.screen == Screen::HdrCalibration,
    ensures
        app.back(c, now).nav.screen == Screen::SettingsPage,
        unchanged(app, app.back(c, now)),
{
    reveal(AppV::settings_screen_event);
    reveal(AppV::handle_hdr_calibration_event);
}

proof fn lemma_back_from_reset_hdr_calibration(app: AppV, c: ContextV, now: u64)
    requires
        app.nav.screen == Screen::ResetHdrCalibration,
    ensures
        app.back(c, now).nav.screen == Screen::SettingsPage,
        unchanged(app, app.back(c, now)),
{
    reveal(AppV::settings_screen_event);
    reveal(AppV::handle_reset_hdr_event);
}

proof fn lemma_back_from_about(app: AppV, c: ContextV, now: u64)
    requires
        app.nav.screen == Screen::About,
    ensures
        app.back(c, now).nav.screen == Screen::SettingsPage,
        unchanged(app, app.back(c, now)),
{
    reveal(AppV::settings_screen_event);
    reveal(AppV::handle_about_event);
}

proof fn lemma_back_from_settings_page(app: AppV, c: ContextV, now: u64)
    requires
        app.nav.screen == Screen::SettingsPage,
    ensures
        app.screens.settings_page.column ==> app.back(c, now).nav.screen == Screen::Home,
        !app.screens.settings_page.column ==> app.back(c, now).nav.screen == Screen::SettingsPage && app.back(
            c,
            now,
        ).screens.settings_page.column,
        unchanged(app, app.back(c, now)),
{
    reveal(AppV::settings_screen_event);
    reveal(AppV::handle_settings_page_event);
}

proof fn lemma_back_from_pick_profile(app: AppV, c: ContextV, now: u64)
    requires
        app.nav.screen == Screen::PickProfile,
        app.screens.profile_pick is Some,
    ensures
        app.back(c, now).nav.screen == if app.screens.profile_pick->0 is BindGame {
            Screen::Home
        } else {
            Screen::HostMenu
        },
        app.back(c, now).hosts == app.hosts,
        app.back(c, now).screens.profile_pick is None,
{
    reveal(AppV::settings_screen_event);
    reveal(AppV::handle_pick_profile_event);
}

/// Where Back leads from each screen of a host's.
pub proof fn law_back_from_host_screens(app: AppV, c: ContextV, now: u64)
    ensures
        ({
            let after = app.back(c, now);
            let left = app.nav.screen;
            &&& left == Screen::AddHost ==> after.nav.screen == Screen::Home
            &&& left == Screen::EditHost ==> after.nav.screen == Screen::HostMenu
            &&& left == Screen::HostMenu ==> after.nav.screen == Screen::Home
            &&& left == Screen::HostPower ==> after.nav.screen == Screen::HostMenu
            &&& left == Screen::ForgetHost ==> after.nav.screen == Screen::HostMenu
            &&& left == Screen::SpeedTest ==> after.nav.screen == Screen::HostMenu
            &&& (left == Screen::Wake && app.screens.wake is Some) ==> after.nav.screen == Screen::Home
            &&& (left == Screen::AddHost || left == Screen::EditHost || left == Screen::HostMenu || left
                == Screen::HostPower || left == Screen::ForgetHost || left == Screen::SpeedTest || left == Screen::Wake)
                ==> unchanged(app, after)
        }),
{
    match app.nav.screen {
        Screen::AddHost => lemma_back_from_add_host(app, c, now),
        Screen::EditHost => lemma_back_from_edit_host(app, c, now),
        Screen::HostMenu => lemma_back_from_host_menu(app, c, now),
        Screen::HostPower => lemma_back_from_host_power(app, c, now),
        Screen::ForgetHost => lemma_back_from_forget_host(app, c, now),
        Screen::SpeedTest => lemma_back_from_speed_test(app, c, now),
        Screen::Wake => lemma_back_from_wake(app, c, now),
        _ => {},
    }
}

/// Where Back leads from the shelves.
pub proof fn law_back_from_shelves(app: AppV, c: ContextV, now: u64)
    requires
        app.nav.screen == Screen::Collections,
    ensures
        app.screens.collections.dragging is None ==> app.back(c, now).nav.screen == Screen::Home && app.back(
            c,
            now,
        ).hosts == app.hosts,
        app.screens.collections.dragging is Some ==> app.back(c, now).nav.screen == Screen::Collections && app.back(
            c,
            now,
        ).hosts == app.hosts,
{
    assert(app.back(c, now) == app.handle_collections_event(MenuEvent::Back, c.shape, now)) by {
        reveal(AppV::shelf_screen_event);
    }
    reveal(AppV::handle_collections_event);
}

/// Where Back leads from a shelf's name, and from the question whether to remove it.
pub proof fn law_back_from_a_shelf(app: AppV, c: ContextV, now: u64)
    requires
        app.nav.screen == Screen::RenameCollection || app.nav.screen == Screen::RemoveCollection,
    ensures
        app.back(c, now).nav.screen == Screen::Collections,
        app.back(c, now).hosts == app.hosts,
        app.back(c, now).effects == app.effects,
{
    if app.nav.screen == Screen::RenameCollection {
        assert(app.back(c, now) == app.handle_name_collection_event(MenuEvent::Back, c.shape, now)) by {
            reveal(AppV::shelf_screen_event);
        }
        reveal(AppV::handle_name_collection_event);
    } else {
        assert(app.back(c, now) == app.handle_remove_collection_event(MenuEvent::Back, now)) by {
            reveal(AppV::shelf_screen_event);
        }
        reveal(AppV::handle_remove_collection_event);
    }
}

/// Where Back leads from the settings, and that it changes none.
pub proof fn law_back_from_settings(app: AppV, c: ContextV, now: u64)
    ensures
        ({
            let after = app.back(c, now);
            let left = app.nav.screen;
            let settings = left == Screen::SettingsPage || left == Screen::RenameProfile || left == Screen::DeleteProfile
                || left == Screen::HdrCalibration || left == Screen::ResetHdrCalibration || left == Screen::About;
            &&& (left == Screen::SettingsPage && app.screens.settings_page.column) ==> after.nav.screen == Screen::Home
            &&& (left == Screen::SettingsPage && !app.screens.settings_page.column) ==> after.nav.screen
                == Screen::SettingsPage && after.screens.settings_page.column
            &&& (settings && left != Screen::SettingsPage) ==> after.nav.screen == Screen::SettingsPage
            &&& settings ==> unchanged(app, after)
            &&& (left == Screen::PickProfile && app.screens.profile_pick is Some && !(app.screens.profile_pick->0 is BindGame))
                ==> after.nav.screen == Screen::HostMenu && after.hosts == app.hosts && after.screens.profile_pick is None
            &&& (left == Screen::PickProfile && app.screens.profile_pick is Some && app.screens.profile_pick->0 is BindGame)
                ==> after.nav.screen == Screen::Home && after.hosts == app.hosts && after.screens.profile_pick is None
        }),
{
    match app.nav.screen {
        Screen::SettingsPage => lemma_back_from_settings_page(app, c, now),
        Screen::RenameProfile => lemma_back_from_rename_profile(app, c, now),
        Screen::DeleteProfile => lemma_back_from_delete_profile(app, c, now),
        Screen::HdrCalibration => lemma_back_from_hdr_calibration(app, c, now),
        Screen::ResetHdrCalibration => lemma_back_from_reset_hdr_calibration(app, c, now),
        Screen::About => lemma_back_from_about(app, c, now),
        Screen::PickProfile => {
            if app.screens.profile_pick is Some {
                lemma_back_from_pick_profile(app, c, now);
            }
        },
        _ => {},
    }
}

/// A question of two answers turns from one to the other, either way.
pub proof fn law_two_answers(app: AppV, ev: MenuEvent, now: u64)
    requires
        ev == MenuEvent::Left || ev == MenuEvent::Right,
        app.nav.cursors.len() == 20,
        app.nav.cursor(app.nav.screen) <= 1,
    ensures
        ({
            let after = app.confirm_nav(ev, now);
            &&& after is Some
            &&& after->0.nav.cursor(app.nav.screen) == 1 - app.nav.cursor(app.nav.screen)
            &&& after->0.nav.screen == app.nav.screen
            &&& after->0.hosts == app.hosts
            &&& after->0.effects == app.effects
        }),
{
}

/// Up and Down in a list go to the row before and the row after, round its ends.
pub proof fn law_list_goes_round(app: AppV, len: nat, now: u64)
    requires
        2 <= len <= usize::MAX,
        app.nav.cursors.len() == 20,
        app.nav.cursor(app.nav.screen) < len,
    ensures
        ({
            let at = app.nav.cursor(app.nav.screen);
            let down = app.list_nav(len, MenuEvent::Down, now);
            let up = app.list_nav(len, MenuEvent::Up, now);
            &&& down is Some && up is Some
            &&& down->0.nav.cursor(app.nav.screen) == (if at + 1 == len {
                0int
            } else {
                at + 1
            })
            &&& up->0.nav.cursor(app.nav.screen) == (if at == 0 {
                len - 1
            } else {
                at - 1
            })
            &&& down->0.screens.row_button is None
            &&& app.list_nav(len, MenuEvent::Confirm, now) is None
            &&& app.list_nav(len, MenuEvent::Back, now) is None
        }),
{
}

// ---------------------------------------------------------------------------- start up --

/// A menu starts on Home, with everything that was stored and nothing under way but the library of the host
/// that was selected, where it is still paired. The overlay is up where it was on.
pub proof fn law_starting_up(l: LoadedV, i: int, now: u64)
    requires
        l.selected_host is Some,
        0 <= i < l.known_hosts.len(),
        l.known_hosts[i].addr == l.selected_host->0.host,
        l.known_hosts[i].port == l.selected_host->0.port,
        l.known_hosts[i].pin is Some,
        forall|j: int|
            0 <= j < i ==> !((#[trigger] l.known_hosts[j]).addr == l.selected_host->0.host && l.known_hosts[j].port
                == l.selected_host->0.port),
    ensures
        ({
            let app = started(l, now);
            let at = l.selected_host->0;
            let fetch = EffectV::FetchGames(
                EndpointV { at, mgmt_port: l.known_hosts[i].mgmt_port, pin: l.known_hosts[i].pin },
            );
            &&& app.nav.screen == Screen::Home
            &&& app.home_focus == HomeFocus::Sidebar(0)
            &&& app.library.selected_host == Some(at)
            &&& app.jobs.out.contains(Job::Games)
            &&& app.hosts.known == l.known_hosts
            &&& app.profiles == l.profiles
            &&& app.settings == l.settings
            &&& app.recents == l.recents
            &&& app.log_level == l.log_level
            &&& app.screens.settings_page.scope == ScopeV::Global
            &&& app.launch_ready is None
            &&& app.flags.contains(Flag::IntroHintOwed) <==> l.new_build
            &&& app.effects[0] == EffectV::ReconcileCaches
            &&& app.effects[2] == fetch
            &&& l.settings.show_logs ==> app.effects.len() == 4 && app.effects.last() == EffectV::LogOverlay(true)
            &&& !l.settings.show_logs ==> app.effects.len() == 3
        }),
{
    let at = l.selected_host->0;
    lemma_first_is(l.known_hosts, crate::startup::paired_at(at), i);
    law_saved_host_is_found(l.known_hosts, i, at);
}

/// Where no paired host was selected, a menu starts with none.
pub proof fn law_starting_with_no_host(l: LoadedV, now: u64)
    requires
        l.selected_host is Some ==> forall|j: int|
            0 <= j < l.known_hosts.len() ==> !((#[trigger] l.known_hosts[j]).addr == l.selected_host->0.host
                && l.known_hosts[j].port == l.selected_host->0.port && l.known_hosts[j].pin is Some),
    ensures
        ({
            let app = started(l, now);
            &&& app.nav.screen == Screen::Home
            &&& app.library.selected_host is None
            &&& !app.jobs.out.contains(Job::Games)
            &&& app.hosts.known == l.known_hosts
            &&& app.profiles == l.profiles
            &&& app.settings == l.settings
            &&& app.effects == if l.settings.show_logs {
                seq![EffectV::ReconcileCaches, EffectV::LogOverlay(true)]
            } else {
                seq![EffectV::ReconcileCaches]
            }
        }),
{
    match l.selected_host {
        Some(at) => {
            lemma_first_from(l.known_hosts, crate::startup::paired_at(at), 0);
            match crate::seqs::first_pos(l.known_hosts, crate::startup::paired_at(at)) {
                Some(i) => {
                    assert(crate::startup::paired_at(at)(l.known_hosts[i]));
                },
                None => {},
            }
        },
        None => {},
    }
}

// ------------------------------------------------------------------------ between frames --

/// A library that came in is taken, whatever else did not.
pub proof fn law_library_is_taken(app: AppV, g: GamesLoadedV, now: u64)
    requires
        !app.jobs.out.contains(Job::RootProbeOwed),
    ensures
        ({
            let (after, drawn) = app.drain_library_jobs(
                LibraryJobsV { found: Seq::empty(), art: Seq::empty(), games: Some(g), running: None },
                false,
                now,
            );
            &&& after == app.drain_games(g, now)
            &&& drawn <==> app.jobs.out.contains(Job::Games)
        }),
{
    reveal(AppV::take_found);
    reveal(AppV::take_arts);
    reveal(AppV::take_games);
    reveal(AppV::take_running);
}

/// Announcements, artwork and what runs are taken too, each as it would be alone.
pub proof fn law_news_is_taken(app: AppV, found: Seq<FoundV>, art: Seq<ArtV>, r: RunningV, now: u64)
    requires
        !app.jobs.out.contains(Job::RootProbeOwed),
    ensures
        app.drain_library_jobs(
            LibraryJobsV { found, art: Seq::empty(), games: None, running: None },
            false,
            now,
        ).0 == app.drain_discovery(found, now).0,
        app.drain_library_jobs(
            LibraryJobsV { found: Seq::empty(), art, games: None, running: None },
            false,
            now,
        ).0 == app.drain_art(art),
        app.drain_library_jobs(
            LibraryJobsV { found: Seq::empty(), art: Seq::empty(), games: None, running: Some(r) },
            false,
            now,
        ).0 == app.drain_running(r.at, r.ids),
{
    reveal(AppV::take_found);
    reveal(AppV::take_arts);
    reveal(AppV::take_games);
    reveal(AppV::take_running);
    lemma_no_art(app);
    let heard = app.drain_discovery(found, now).0;
    lemma_no_art(heard);
}

proof fn lemma_no_art(app: AppV)
    ensures
        app.drain_art(Seq::empty()) == app,
{
}

/// What a host's work came to is taken, each as it would be alone, where no sweep is due.
pub proof fn law_host_work_is_taken(
    app: AppV,
    a: HostJobsV,
    rooted: bool,
    rights: Result<crate::menu::PowerRights, LibraryError>,
    power: PowerDoneV,
    line: Option<Seq<char>>,
    now: u64,
)
    requires
        app.hosts.entries.len() == 0,
        a.speed.len() == 0,
        a.reach.len() == 0,
        !a.swept,
        a.rooted is None && a.rights is None && a.power is None && a.logs is None,
    ensures
        app.drain_host_jobs(HostJobsV { rooted: Some(rooted), ..a }, now).0 == app.drain_rooted(rooted),
        app.drain_host_jobs(HostJobsV { rights: Some(rights), ..a }, now).0 == app.drain_power_access(rights),
        app.drain_host_jobs(HostJobsV { power: Some(power), ..a }, now).0 == app.drain_power_action(
            power.error,
            power.line,
            now,
        ),
        app.drain_host_jobs(HostJobsV { logs: Some(line), ..a }, now).0 == app.drain_send_logs(line, now),
{
    reveal(AppV::take_rooted);
    reveal(AppV::take_rights);
    reveal(AppV::take_power);
    reveal(AppV::take_speed);
    reveal(AppV::take_logs);
    reveal(AppV::take_reach);
}

/// A line that waits comes up after a second, where what it speaks of is still under way, and is kept back
/// until then.
pub proof fn law_waiting_line_comes_up(app: AppV, line: DueLineV, now: u64)
    requires
        app.library_status_due == Some(line),
        app.jobs.out.contains(Job::Games),
    ensures
        line.from + 1_000 <= now ==> app.raise_due_line(now).home_status == Some(line.line)
            && app.raise_due_line(now).library_status_due is None && app.raise_due_line(now).home_status_shown_at
            == Some(now),
        line.from + 1_000 > now ==> app.raise_due_line(now) == app,
{
}

/// A cover that came in is held, and its card is drawn again; a backdrop that was not taken is let go of.
pub proof fn law_art_is_taken(app: AppV, id: Seq<char>, accepted: bool)
    ensures
        app.take_art(ArtV::Card(id)).library.art.contains(id),
        forall|other: Seq<char>|
            other != id ==> (#[trigger] app.take_art(ArtV::Card(id)).library.art.contains(other)
                <==> app.library.art.contains(other)),
        app.take_art(ArtV::Card(id)).grid.cards_dirty == app.grid.cards_dirty.push(id),
        app.take_art(ArtV::Card(id)).effects == app.effects,
        app.take_art(ArtV::Hero { game_id: id, accepted }).effects == if accepted {
            app.effects
        } else {
            app.effects.push(EffectV::ForgetHero(id))
        },
{
}

/// A line that is shown is the line that was given, from then on; one that waits is not shown yet.
pub proof fn law_status_is_what_was_said(app: AppV, line: Seq<char>, sticky: bool, now: u64)
    ensures
        app.set_home_status(Some(line), sticky, now).home_status == Some(line),
        app.set_home_status(Some(line), sticky, now).home_status_shown_at == Some(now),
        app.set_home_status(Some(line), sticky, now).flags.contains(Flag::StickyStatus) <==> sticky,
        app.set_home_status(Some(line), sticky, now).library_status_due is None,
        app.set_home_status(None, sticky, now).home_status is None,
        app.set_home_status_delayed(line, now).home_status is None,
        app.set_home_status_delayed(line, now).library_status_due == Some(DueLineV { from: now, line }),
        app.set_home_status(Some(line), sticky, now).effects == app.effects,
{
}

/// What is written is what there is: the settings, the hosts, the selected one and the profiles.
pub proof fn law_written_is_what_there_is(app: AppV)
    ensures
        app.persist().effects == app.effects.push(EffectV::Save(document(app))),
        app.persist() == (AppV { effects: app.persist().effects, ..app }),
{
}

/// All the covers that came in are held, and what was held before still is.
pub proof fn law_all_art_is_taken(app: AppV, loaded: Seq<ArtV>, n: int, k: int, id: Seq<char>)
    requires
        0 <= n <= loaded.len(),
    ensures
        0 <= k < n && loaded[k] == ArtV::Card(id) ==> app.take_all_art(loaded, n).library.art.contains(id),
        app.library.art.contains(id) ==> app.take_all_art(loaded, n).library.art.contains(id),
        app.take_all_art(loaded, n).library.games == app.library.games,
        app.take_all_art(loaded, n).hosts == app.hosts,
    decreases n,
{
    if n > 0 {
        law_all_art_is_taken(app, loaded, n - 1, k, id);
    }
}

} // verus!
