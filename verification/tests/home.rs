//! Home: the host list, the library on screen, and launching from it.
use punktfunk_webos::app::{os_icon_token, sidebar_row, App, HOME_STATUS_LIFETIME, LIBRARY_STATUS_DELAY};
use punktfunk_webos::flags::{Flag, Job};
use punktfunk_webos::grid::SectionMetrics;
use punktfunk_webos::home::{GamesLoaded, GROUP_GRID, GROUP_SIDEBAR};
use punktfunk_webos::model::{
    Artwork, AudioRoutePref, CodecPref, Collection, DiscoveredHost, ExitAction, GameEntry, GamepadType, HdrDisplay,
    HomeFocus, KnownHost, LibraryError, LogLevelOverride, Screen, Settings, Target, DESKTOP_PIN_ID,
};
use punktfunk_webos::recents::{Recent, Recents};
use punktfunk_webos::reach::{api_error_is_offline, REACH_INTERVAL, RUNNING_INTERVAL};
use punktfunk_webos::hosts::Reach;
use punktfunk_webos::scroll::{GridShape, FOCUS_MARGIN};
use punktfunk_webos::slots::Effect;
use punktfunk_webos::startup::Loaded;

fn shape() -> GridShape {
    GridShape {
        columns: 4,
        metrics: SectionMetrics { heading_h: 40, gap: 20 },
        pitch: 300,
        card_h: 280,
        top: 100,
        bottom: 1000,
    }
}

fn settings() -> Settings {
    Settings {
        bitrate_kbps: 20_000,
        hdr_enabled: true,
        codec: CodecPref::Automatic,
        audio_route: AudioRoutePref::Software,
        gamepad_type: GamepadType::Auto,
        gamepad_ui: true,
        game_mode: false,
        show_logs: false,
        log_level: LogLevelOverride::Info,
        hdr_display: HdrDisplay { peak_nits: 800, frame_avg_nits: 400, black_code: 64 },
        hdr_calibrated: false,
    }
}

fn host(name: &str, addr: &str) -> KnownHost {
    KnownHost {
        name: name.to_string(),
        addr: addr.to_string(),
        port: 9777,
        mgmt_port: Some(47990),
        mac: vec!["aa:bb:cc:dd:ee:ff".to_string()],
        os: "linux".to_string(),
        pin: Some([7; 32]),
        wol_auto: false,
        exit_action: ExitAction::Nothing,
        profile_id: None,
        pinned_profiles: Vec::new(),
        game_profiles: Vec::new(),
        collections: vec![
            Collection { name: "Favourites".to_string(), dynamic: false, games: Vec::new() },
            Collection { name: "Library".to_string(), dynamic: true, games: Vec::new() },
        ],
    }
}

fn target(addr: &str) -> Target {
    Target { host: addr.to_string(), port: 9777 }
}

fn game(id: &str, title: &str) -> GameEntry {
    GameEntry {
        id: id.to_string(),
        title: title.to_string(),
        art: Artwork { portrait: None, header: None, hero: None },
        icon: None,
    }
}

fn app_of(hosts: Vec<KnownHost>, selected: Option<&str>) -> App {
    let mut app = App::new(
        Loaded {
            settings: settings(),
            known_hosts: hosts,
            selected_host: selected.map(target),
            profiles: Vec::new(),
            recents: Recents { entries: Vec::new() },
            log_level: LogLevelOverride::Info,
            new_build: false,
            marked_os: vec!["linux".to_string()],
        },
        1_000,
    );
    app.take_effects();
    app
}

/// Two paired hosts, the first one selected and its library listed.
fn app() -> App {
    let mut app = app_of(vec![host("Alpha", "10.0.0.2"), host("Beta", "10.0.0.3")], Some("10.0.0.2"));
    app.drain_games(
        GamesLoaded {
            at: target("10.0.0.2"),
            mgmt_port: 47990,
            result: Ok(vec![game("p", "Portal"), game("h", "Half-Life"), game("d", "Doom"), game("q", "Quake")]),
        },
        1_100,
    );
    app.take_effects();
    app
}

fn ids(app: &App) -> Vec<&str> {
    app.library.games.iter().map(|g| g.id.as_str()).collect()
}

#[test]
fn the_menu_comes_up_on_the_last_host() {
    let mut app = App::new(
        Loaded {
            settings: settings(),
            known_hosts: vec![host("Alpha", "10.0.0.2")],
            selected_host: Some(target("10.0.0.2")),
            profiles: Vec::new(),
            recents: Recents { entries: Vec::new() },
            log_level: LogLevelOverride::Info,
            new_build: true,
            marked_os: Vec::new(),
        },
        1_000,
    );
    assert!(app.library_fetch_in_flight());
    assert!(app.flags.has(Flag::IntroHintOwed));
    let effects = app.take_effects();
    assert!(matches!(effects[0], Effect::ReconcileCaches));
    assert!(matches!(&effects[1], Effect::Save(p) if p.known_hosts.len() == 1));
    assert!(
        matches!(&effects[2], Effect::FetchGames(e) if e.at.host == "10.0.0.2" && e.mgmt_port == Some(47990) && e.pin == Some([7; 32]))
    );
    assert_eq!(effects.len(), 3);
    assert!(app.take_effects().is_empty());
}

#[test]
fn an_unpaired_host_is_not_restored() {
    let mut h = host("Alpha", "10.0.0.2");
    h.pin = None;
    let app = app_of(vec![h], Some("10.0.0.2"));
    assert!(app.library.selected_host.is_none());
    assert!(!app.library_fetch_in_flight());
    let app = app_of(vec![host("Alpha", "10.0.0.2")], Some("10.0.0.9"));
    assert!(app.library.selected_host.is_none());
}

#[test]
fn a_listing_is_laid_out_over_the_shelves() {
    let app = app();
    assert_eq!(ids(&app), vec![DESKTOP_PIN_ID, "d", "h", "p", "q"]);
    assert_eq!(app.library.groups.len(), 1);
    assert_eq!(app.grid_len(shape()), 5);
    assert_eq!(app.library.games[0].icon.as_deref(), Some("os/linux"));
    assert_eq!(app.grid_card_at(3, shape()).map(|g| g.title.as_str()), Some("Portal"));
    assert!(app.is_grid_card(4, shape()) && !app.is_grid_card(5, shape()));
    assert_eq!(app.grid_idx_for_pin_id("q", shape()), Some(4));
    assert_eq!(app.pin_id_at_grid_idx(1, shape()), Some("d"));
    assert!(app.grid_fits(shape()));
}

#[test]
fn os_marks_keep_the_chain_whole() {
    assert_eq!(os_icon_token("linux/arch", true).as_deref(), Some("os/linux/arch"));
    assert_eq!(os_icon_token("linux", false), None);
}

#[test]
fn a_stale_listing_is_not_waited_for() {
    let mut app = app();
    let again = GamesLoaded { at: target("10.0.0.2"), mgmt_port: 47990, result: Ok(Vec::new()) };
    assert!(!app.drain_games(again, 1_200));
    assert_eq!(app.library.games.len(), 5);
}

#[test]
fn a_refused_listing_says_why() {
    let mut app = app_of(vec![host("Alpha", "10.0.0.2")], Some("10.0.0.2"));
    let refused = GamesLoaded {
        at: target("10.0.0.2"),
        mgmt_port: 47990,
        result: Err((LibraryError::NotPaired, "Pair with it again.".to_string())),
    };
    assert!(app.drain_games(refused, 1_200));
    assert_eq!(app.home_status.as_deref(), Some("Pair with it again."));
    assert!(app.screens.wake.is_none());
    assert_eq!(app.hosts.online("10.0.0.2", 9777), Some(true));
}

#[test]
fn a_silent_host_is_asked_about() {
    let mut app = app_of(vec![host("Alpha", "10.0.0.2")], Some("10.0.0.2"));
    let silent = GamesLoaded {
        at: target("10.0.0.2"),
        mgmt_port: 47990,
        result: Err((LibraryError::Unreachable, "Alpha did not answer.".to_string())),
    };
    app.drain_games(silent, 1_200);
    assert!(app.screens.wake.is_some());
    assert_eq!(app.nav.screen, Screen::Wake);
    assert_eq!(app.hosts.online("10.0.0.2", 9777), Some(false));
    assert!(api_error_is_offline(&LibraryError::Unreachable));
    assert!(!api_error_is_offline(&LibraryError::Http(500)));
}

#[test]
fn a_library_line_comes_up_late() {
    let mut app = app_of(vec![host("Alpha", "10.0.0.2")], None);
    app.set_home_status(Some("old".to_string()), false, 900);
    app.select_host("10.0.0.2".to_string(), 9777, Some(47990), 1_000);
    assert_eq!(app.home_status, None);
    let due = app.library_status_due.as_ref().unwrap();
    assert_eq!((due.from, due.line.as_str()), (1_000, "Loading library from Alpha…"));
    assert!(LIBRARY_STATUS_DELAY < HOME_STATUS_LIFETIME);
}

#[test]
fn a_launch_is_taken_once() {
    let mut app = app();
    app.confirm_grid_card(3, shape(), true, 2_000);
    let effects = app.take_effects();
    assert!(matches!(&effects[..], [Effect::ArmHero(Some(id))] if id == "p"));
    let t = app.take_ready_launch().unwrap();
    assert_eq!((t.host.as_str(), t.port, t.fingerprint), ("10.0.0.2", 9777, [7; 32]));
    assert_eq!(t.launch.as_deref(), Some("p"));
    assert_eq!(t.profile, None);
    assert!(app.take_ready_launch().is_none());
}

#[test]
fn the_desktop_launches_no_game() {
    let mut app = app();
    app.confirm_grid_card(0, shape(), true, 2_000);
    assert_eq!(app.take_ready_launch().unwrap().launch, None);
    app.confirm_grid_card(7, shape(), true, 2_000);
    assert!(app.take_ready_launch().is_none());
}

#[test]
fn a_game_streams_with_its_bound_profile() {
    let mut app = app();
    app.connect_desktop_with("10.0.0.3", 9777, Some("p1".to_string()), 2_000);
    assert_eq!(app.library.selected_host.as_ref().unwrap().host, "10.0.0.3");
    let t = app.take_ready_launch().unwrap();
    assert_eq!((t.host.as_str(), t.profile.as_deref()), ("10.0.0.3", Some("p1")));
}

#[test]
fn a_confirmed_host_is_selected_or_paired() {
    let mut unpaired = host("Gamma", "10.0.0.4");
    unpaired.pin = None;
    let mut app = app_of(vec![host("Alpha", "10.0.0.2"), unpaired], None);
    app.confirm_sidebar_host(1, 2_000);
    assert!(matches!(&app.take_effects()[..], [Effect::OpenPairing(1)]));
    app.confirm_sidebar_host(0, 2_000);
    assert_eq!(app.library.selected_host.as_ref().unwrap().host, "10.0.0.2");
    assert_eq!(app.sidebar_index_of_selected_host(), Some(0));
    assert_eq!(app.sidebar_index_for_selected(), 0);
}

#[test]
fn a_forgotten_host_leaves_nothing() {
    let mut app = app();
    app.recents.entries.push(Recent { host: "10.0.0.2".to_string(), port: 9777, id: "p".to_string(), at: 5 });
    app.forget_host(0, 2_000);
    assert!(app.library.selected_host.is_none());
    assert!(app.library.games.is_empty());
    assert_eq!(app.hosts.known.len(), 1);
    assert_eq!(app.hosts.entries.len(), 1);
    assert!(app.recents.entries.is_empty());
    let effects = app.take_effects();
    assert!(effects.iter().any(|e| matches!(e, Effect::SaveRecents)));
    assert!(effects.iter().any(|e| matches!(e, Effect::Save(p) if p.known_hosts.len() == 1 && p.selected_host.is_none())));
}

#[test]
fn a_card_moved_to_a_shelf_keeps_focus() {
    let mut app = app();
    app.set_home_focus(HomeFocus::Grid(3), 2_000);
    assert_eq!(app.focused_pin_id(shape()).as_deref(), Some("p"));
    assert!(app.move_card("p", Some(0), shape(), 2_000));
    assert_eq!(app.collection_of_card("p"), Some(0));
    assert!(app.card_is_held("p"));
    assert_eq!(ids(&app), vec!["p", DESKTOP_PIN_ID, "d", "h", "q"]);
    assert_eq!(app.home_focus, HomeFocus::Grid(0));
    assert!(!app.move_card("p", Some(0), shape(), 2_100));
    app.move_focused_card(None, shape(), 2_200);
    assert_eq!(app.collection_of_card("p"), None);
    // A card that was never played joins the Library where it stood in the listing.
    assert_eq!(ids(&app), vec!["p", DESKTOP_PIN_ID, "d", "h", "q"]);
    assert_eq!(app.home_focus, HomeFocus::Grid(0));
}

#[test]
fn stale_titles_leave_the_shelves_on_a_new_listing() {
    let mut app = app();
    app.hosts.known[0].collections[0].games = vec!["p".to_string(), "gone".to_string()];
    app.prune_stale_game_prefs();
    assert_eq!(app.hosts.known[0].collections[0].games, vec!["p"]);
    assert!(matches!(&app.take_effects()[..], [Effect::Save(_)]));
    app.prune_stale_game_prefs();
    assert!(app.take_effects().is_empty());
}

#[test]
fn the_grid_scrolls_just_far_enough() {
    let mut app = app();
    app.ensure_grid_visible(0, shape());
    assert_eq!(app.grid.scroll_target, 0);
    let mut tight = shape();
    tight.bottom = 500;
    let max = app.max_grid_scroll(tight);
    app.ensure_grid_visible(4, tight);
    assert!(app.grid.scroll_target > 0 && app.grid.scroll_target <= max);
    assert!(app.scroll_grid_by(-10_000, tight));
    assert_eq!(app.grid.scroll_target, 0);
    assert!(!app.scroll_grid_by(-1, tight));
    assert!(FOCUS_MARGIN > 0);
}

#[test]
fn focus_has_two_groups() {
    let app = app();
    let (sidebar, grid) = app.focus_groups();
    assert_eq!((sidebar.group, grid.group), (GROUP_SIDEBAR, GROUP_GRID));
    assert_eq!(grid.first, HomeFocus::Grid(0));
    let map = app.home_focus_map(shape(), 0, 5);
    assert!(map.contains(&HomeFocus::Grid(4)) && map.contains(&HomeFocus::SidebarMenu(0)));
    assert_eq!(map.iter().filter(|f| matches!(f, HomeFocus::Sidebar(_))).count(), app.sidebar_len());
    assert_eq!(sidebar_row(HomeFocus::SidebarMenu(2)), Some(2));
    assert_eq!(sidebar_row(HomeFocus::Grid(2)), None);
}

#[test]
fn discovery_adds_hosts_after_the_saved_ones() {
    let mut app = app_of(vec![host("Alpha", "10.0.0.2")], None);
    app.set_home_focus(HomeFocus::Sidebar(1), 1_000);
    let found = |name: &str, addr: &str| DiscoveredHost {
        name: name.to_string(),
        addr: addr.to_string(),
        port: 9777,
        mgmt_port: None,
        mac: Vec::new(),
        os: String::new(),
    };
    assert!(app.drain_discovery(vec![found("Alpha", "10.0.0.2"), found("Gamma", "10.0.0.4")], 2_000));
    assert_eq!(app.hosts.entries.len(), 2);
    assert_eq!(app.hosts.entries[1].name(), "Gamma");
    assert!(app.hosts.host_listed("10.0.0.4", 9777));
    // The focus was on "Add host" and still is.
    assert_eq!(app.home_focus, HomeFocus::Sidebar(2));
    assert!(!app.drain_discovery(Vec::new(), 2_000));
    assert_eq!(app.sidebar_len(), 4);
}

#[test]
fn only_the_selected_host_is_put_down_on_exit() {
    let mut app = app();
    app.hosts.known[0].exit_action = ExitAction::Sleep;
    app.hosts.known[1].exit_action = ExitAction::Shutdown;
    app.note_reachable("10.0.0.2", 9777, true);
    let plan = app.exit_plan().unwrap();
    assert_eq!((plan.addr.as_str(), plan.action, plan.pin), ("10.0.0.2", ExitAction::Sleep, [7; 32]));
    app.note_reachable("10.0.0.2", 9777, false);
    assert!(app.exit_plan().is_none());
    assert!(App::power_plan(&app.hosts.known[0], ExitAction::Nothing).is_none());
}

#[test]
fn reachability_is_swept_in_turns() {
    let mut app = app();
    app.tick_reachability(5_000);
    assert!(app.take_effects().iter().any(|e| matches!(e, Effect::SweepReach(t) if t.len() == 2)));
    app.tick_reachability(5_001);
    assert!(app.take_effects().is_empty());
    assert!(app.drain_reachability(vec![Reach { at: target("10.0.0.3"), online: true }], true));
    assert_eq!(app.entry_online(&app.hosts.entries[1]), Some(true));
    app.tick_reachability(5_000 + REACH_INTERVAL - 1);
    assert!(app.take_effects().is_empty());
    app.tick_reachability(5_000 + REACH_INTERVAL);
    assert_eq!(app.take_effects().len(), 1);
}

#[test]
fn running_games_are_asked_for_in_turns() {
    let mut app = app();
    app.note_reachable("10.0.0.2", 9777, true);
    app.tick_running(5_000);
    assert!(matches!(&app.take_effects()[..], [Effect::AskRunning(e)] if e.at.host == "10.0.0.2"));
    assert!(app.jobs.has(Job::Running));
    assert!(app.drain_running(target("10.0.0.2"), vec!["p".to_string()]));
    assert_eq!(app.library.running, vec!["p"]);
    app.tick_running(5_000 + RUNNING_INTERVAL - 1);
    assert!(app.take_effects().is_empty());
    app.tick_running(5_000 + RUNNING_INTERVAL);
    assert_eq!(app.take_effects().len(), 1);
    assert!(!app.drain_running(target("10.0.0.2"), vec!["p".to_string()]));
}

#[test]
fn the_overlay_message_shows_once() {
    let mut app = app();
    app.toast("hello".to_string());
    assert_eq!(app.take_toast().as_deref(), Some("hello"));
    assert_eq!(app.take_toast(), None);
    app.set_gamepad_type(Some(GamepadType::Xbox));
    assert_eq!(app.detected_gamepad_type, Some(GamepadType::Xbox));
    app.set_keyboard_shown(true);
    assert!(app.flags.has(Flag::KeyboardShown));
}

#[test]
fn a_host_that_is_back_is_selected() {
    let mut app = app_of(vec![host("Alpha", "10.0.0.2")], None);
    app.start_wake("10.0.0.2".to_string(), 9777, vec!["aa".to_string()], "no answer".to_string(), 1_000);
    assert_eq!(app.nav.screen, Screen::Wake);
    app.wake_succeeded("10.0.0.2".to_string(), 9777, Some(47990), 3_000);
    assert_eq!(app.nav.screen, Screen::Home);
    assert!(app.screens.wake.is_none());
    assert_eq!(app.library_status_due.as_ref().unwrap().line, "Alpha is back online — loading its library…");
    app.clear_selected_host(3_100);
    assert!(app.library.selected_host.is_none() && !app.library_fetch_in_flight());
}
