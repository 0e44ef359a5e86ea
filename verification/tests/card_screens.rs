//! The screens over the grid and the settings: card menu, collections, profiles, calibration.
use punktfunk_webos::app::App;
use punktfunk_webos::cardmenu::CardMenuRow;
use punktfunk_webos::collections::NameRefusal;
use punktfunk_webos::dispatch::EventContext;
use punktfunk_webos::flags::{Flag, Job};
use punktfunk_webos::grid::SectionMetrics;
use punktfunk_webos::hdr::measure;
use punktfunk_webos::home::GamesLoaded;
use punktfunk_webos::hostmenu::HostAction;
use punktfunk_webos::model::{
    Artwork, AudioRoutePref, CodecPref, Collection, ExitAction, GameEntry, GamepadType, HdrDisplay, HomeFocus,
    KnownHost, LogLevelOverride, MenuEvent, Screen, Settings, StreamProfile, Target, VideoCaps,
};
use punktfunk_webos::pagespecs::{pad_name, PageContext, SpecKind};
use punktfunk_webos::pointer::{Click, Hit, Pointer};
use punktfunk_webos::profiles::{empty_overlay, NAME_TAKEN, NEEDS_A_NAME};
use punktfunk_webos::recents::Recents;
use punktfunk_webos::rows::{is_confirm, is_list_modal, next_button, over_video};
use punktfunk_webos::scroll::GridShape;
use punktfunk_webos::settingspage::{Adjusted, PageRow};
use punktfunk_webos::slots::{Effect, HdrStep, KitRow, Page, ProfilePick, RowButton, Scope};
use punktfunk_webos::startup::Loaded;

fn shape() -> GridShape {
    GridShape {
        columns: 4,
        metrics: SectionMetrics { heading_h: 40, gap: 20 },
        pitch: 300,
        card_h: 280,
        top: 100,
        bottom: 1000,
    }
}

fn settings() -> Settings {
    Settings {
        bitrate_kbps: 20_000,
        hdr_enabled: true,
        codec: CodecPref::Automatic,
        audio_route: AudioRoutePref::Software,
        gamepad_type: GamepadType::Auto,
        gamepad_ui: true,
        game_mode: false,
        show_logs: false,
        log_level: LogLevelOverride::Info,
        hdr_display: HdrDisplay { peak_nits: 800, frame_avg_nits: 400, black_code: 64 },
        hdr_calibrated: false,
    }
}

fn host(name: &str, addr: &str) -> KnownHost {
    KnownHost {
        name: name.to_string(),
        addr: addr.to_string(),
        port: 9777,
        mgmt_port: Some(47990),
        mac: vec!["aa:bb:cc:dd:ee:ff".to_string()],
        os: "linux".to_string(),
        pin: Some([7; 32]),
        wol_auto: false,
        exit_action: ExitAction::Nothing,
        profile_id: None,
        pinned_profiles: Vec::new(),
        game_profiles: Vec::new(),
        collections: vec![
            Collection { name: "Favourites".to_string(), dynamic: false, games: Vec::new() },
            Collection { name: "Library".to_string(), dynamic: true, games: Vec::new() },
        ],
    }
}

fn target(addr: &str) -> Target {
    Target { host: addr.to_string(), port: 9777 }
}

fn game(id: &str, title: &str) -> GameEntry {
    GameEntry {
        id: id.to_string(),
        title: title.to_string(),
        art: Artwork { portrait: None, header: None, hero: None },
        icon: None,
    }
}

fn app_of(hosts: Vec<KnownHost>, selected: Option<&str>) -> App {
    let mut app = App::new(
        Loaded {
            settings: settings(),
            known_hosts: hosts,
            selected_host: selected.map(target),
            profiles: Vec::new(),
            recents: Recents { entries: Vec::new() },
            log_level: LogLevelOverride::Info,
            new_build: false,
            marked_os: vec!["linux".to_string()],
        },
        1_000,
    );
    app.take_effects();
    app
}

/// Two paired hosts, the first one selected and its library listed.
fn app() -> App {
    let mut app = app_of(vec![host("Alpha", "10.0.0.2"), host("Beta", "10.0.0.3")], Some("10.0.0.2"));
    app.drain_games(
        GamesLoaded {
            at: target("10.0.0.2"),
            mgmt_port: 47990,
            result: Ok(vec![game("p", "Portal"), game("h", "Half-Life"), game("d", "Doom"), game("q", "Quake")]),
        },
        1_100,
    );
    app.take_effects();
    app
}

fn profile(id: &str, name: &str) -> StreamProfile {
    StreamProfile { id: id.to_string(), name: name.to_string(), overrides: empty_overlay() }
}

fn context(fresh: &str) -> EventContext {
    EventContext {
        shape: shape(),
        next: None,
        in_hand: true,
        kit: vec![KitRow::Bitrate, KitRow::Hdr, KitRow::Codec],
        hdr: true,
        stops: (700, 900),
        default_display: HdrDisplay { peak_nits: 1000, frame_avg_nits: 500, black_code: 64 },
        fresh: fresh.to_string(),
        typed: None,
        about_total: 100,
        about_visible: 10,
    }
}

/// The card menu open on Portal, which stands on the first shelf beside Doom.
fn held_card() -> App {
    let mut app = app();
    app.hosts.known[0].collections[0].games = vec!["p".to_string(), "d".to_string()];
    app.regroup_games();
    app.set_home_focus(HomeFocus::Grid(0), 2_000);
    app.open_card_menu(shape(), 2_000);
    app
}

#[test]
fn the_card_menu_offers_what_applies() {
    let mut app = held_card();
    let menu = app.card_menu.as_ref().unwrap();
    assert_eq!((menu.pin_id.as_str(), menu.title.as_str(), menu.idx), ("p", "Portal", 0));
    assert_eq!(app.card_menu_row_kinds("p"), vec![CardMenuRow::MoveTo, CardMenuRow::Remove, CardMenuRow::Settings]);
    assert_eq!(app.card_menu_row_kinds("h"), vec![CardMenuRow::MoveTo, CardMenuRow::Settings]);
    app.profiles.push(profile("p1", "Couch"));
    assert_eq!(app.card_menu_row_kinds("h"), vec![CardMenuRow::MoveTo, CardMenuRow::Profile, CardMenuRow::Settings]);
    app.close_card_menu();
    assert!(app.card_menu.is_none());
    assert!(app.take_effects().is_empty());
}

#[test]
fn a_reorder_is_saved_once_when_it_is_fixed() {
    let mut app = held_card();
    app.take_effects();
    assert!(app.handle_card_menu_event(MenuEvent::Right, "f".to_string(), shape(), 2_100));
    assert_eq!(app.hosts.known[0].collections[0].games, vec!["d", "p"]);
    assert_eq!(app.home_focus, HomeFocus::Grid(1));
    assert!(app.card_menu_reordering());
    assert!(app.take_effects().is_empty());
    app.handle_card_menu_event(MenuEvent::Confirm, "f".to_string(), shape(), 2_200);
    assert!(matches!(&app.take_effects()[..], [Effect::Save(_)]));
    assert!(!app.card_menu_reordering());
    app.close_card_menu();
    assert!(app.take_effects().is_empty());
}

#[test]
fn a_card_at_the_end_of_its_shelf_recoils() {
    let mut app = held_card();
    app.handle_card_menu_event(MenuEvent::Left, "f".to_string(), shape(), 2_100);
    assert!(app.flags.has(Flag::PressArmed));
    assert_eq!(app.hosts.known[0].collections[0].games, vec!["p", "d"]);
}

#[test]
fn a_card_taken_off_its_shelf_returns_to_the_library() {
    let mut app = held_card();
    app.handle_card_menu_event(MenuEvent::Down, "f".to_string(), shape(), 2_100);
    assert_eq!(app.card_menu.as_ref().unwrap().focused, 1);
    app.handle_card_menu_event(MenuEvent::Confirm, "f".to_string(), shape(), 2_200);
    assert!(app.card_menu.is_none());
    assert_eq!(app.collection_of_card("p"), None);
    assert_eq!(app.hosts.known[0].collections[0].games, vec!["d"]);
}

#[test]
fn the_card_menu_settles() {
    let mut app = held_card();
    let menu = app.card_menu.as_mut().unwrap();
    assert!(menu.tick(200, 150, 2_100));
    assert!(menu.tick(200, 150, 2_200));
    assert!(menu.risen);
    assert!(!menu.tick(200, 150, 2_201));
    menu.focus(1, 2_300);
    assert!(menu.tick(200, 150, 2_400));
    assert!(menu.tick(200, 150, 2_450));
    assert!(!menu.tick(200, 150, 2_451));
    menu.rise_again(3_000);
    assert!(menu.tick(200, 150, 3_100));
}

#[test]
fn a_games_own_settings_make_one_profile() {
    let mut app = held_card();
    app.open_game_profile("p", "Portal", "f1".to_string());
    assert_eq!((app.profiles.len(), app.profiles[0].name.as_str()), (1, "Portal"));
    assert!(app.game_is_bound("p") && !app.game_is_bound("d"));
    assert!(matches!(&app.screens.settings_page.scope, Scope::Profile(id) if id == "f1"));
    assert_eq!(app.screens.settings_page.page, Page::Display);
    app.open_game_profile("p", "Portal", "f2".to_string());
    assert_eq!(app.profiles.len(), 1);
}

#[test]
fn a_card_goes_to_the_confirmed_shelf() {
    let mut app = held_card();
    app.open_collections("p", "Portal");
    assert_eq!(app.nav.cursor(Screen::Collections), 0);
    assert_eq!(app.collections_row_count(), 3);
    assert_eq!(app.collections_heading(), Some("Portal"));
    assert!(app.collections_target_held());
    app.handle_collections_event(MenuEvent::Down, shape(), 2_100);
    app.handle_collections_event(MenuEvent::Confirm, shape(), 2_200);
    assert_eq!(app.nav.screen, Screen::Home);
    assert_eq!(app.collection_of_card("p"), None);
    assert_eq!(app.take_toast().as_deref(), Some("Portal added to Library"));
}

#[test]
fn a_dragged_shelf_is_saved_once() {
    let mut app = held_card();
    app.open_collections("p", "Portal");
    app.take_effects();
    app.handle_collections_event(MenuEvent::Left, shape(), 2_000);
    assert_eq!(app.screens.row_button, Some(RowButton::Leading));
    app.handle_collections_event(MenuEvent::Confirm, shape(), 2_000);
    assert_eq!(app.screens.collections.dragging, Some(0));
    assert_eq!(app.collections_heading(), None);
    app.handle_collections_event(MenuEvent::Down, shape(), 2_100);
    assert_eq!(app.hosts.known[0].collections[1].name, "Favourites");
    assert!(app.take_effects().is_empty());
    app.handle_collections_event(MenuEvent::Down, shape(), 2_100);
    assert!(app.flags.has(Flag::PressArmed));
    app.handle_collections_event(MenuEvent::Confirm, shape(), 2_200);
    assert!(matches!(&app.take_effects()[..], [Effect::Save(_)]));
    assert_eq!(app.screens.collections.dragging, None);
    app.close_collections(2_300);
    assert!(app.take_effects().is_empty());
}

#[test]
fn a_new_shelf_takes_the_card() {
    let mut app = held_card();
    app.open_collections("h", "Half-Life");
    app.open_name_collection(None);
    assert_eq!(app.collection_name_hint(), Some(NameRefusal::Empty));
    app.confirm_collection_name(shape(), 2_000);
    assert_eq!(app.nav.screen, Screen::RenameCollection);
    for c in "Library".chars() {
        app.enter_collection_name_char(c);
    }
    assert_eq!(app.collection_name_hint(), Some(NameRefusal::Taken));
    app.enter_collection_name_char('2');
    assert_eq!(app.collection_name_hint(), None);
    app.handle_name_collection_event(MenuEvent::Confirm, shape(), 2_100);
    assert_eq!(app.nav.screen, Screen::Home);
    assert_eq!(app.hosts.known[0].collections[2].name, "Library2");
    assert_eq!(app.hosts.known[0].collections[2].games, vec!["h"]);
    assert_eq!(app.take_toast().as_deref(), Some("Half-Life added to Library2"));
}

#[test]
fn a_shelf_name_stops_at_its_limit() {
    let mut app = held_card();
    app.open_collections("h", "Half-Life");
    app.open_name_collection(Some(0));
    assert_eq!(app.screens.collections.name, "Favourites");
    for _ in 0..60 {
        app.enter_collection_name_char('x');
    }
    assert_eq!(app.screens.collections.name.chars().count(), 32);
    app.handle_name_collection_event(MenuEvent::Left, shape(), 2_000);
    assert_eq!(app.screens.collections.name.chars().count(), 31);
}

#[test]
fn removing_a_shelf_opens_on_cancel() {
    let mut app = held_card();
    app.open_collections("p", "Portal");
    app.open_remove_collection(0);
    assert_eq!(app.removed_collection(), Some(("Favourites".to_string(), 2)));
    app.handle_remove_collection_event(MenuEvent::Confirm, 2_000);
    assert_eq!((app.nav.screen, app.hosts.known[0].collections.len()), (Screen::Collections, 2));
    app.open_remove_collection(0);
    app.handle_remove_collection_event(MenuEvent::Left, 2_000);
    app.handle_remove_collection_event(MenuEvent::Confirm, 2_000);
    assert_eq!((app.nav.screen, app.hosts.known[0].collections.len()), (Screen::Collections, 1));
    assert_eq!(app.library.groups.len(), 1);
}

#[test]
fn a_profile_needs_a_free_name() {
    let mut app = app();
    app.profiles = vec![profile("a", "Couch")];
    app.new_profile("b".to_string());
    assert_eq!((app.nav.screen, app.screens.profile_name.as_str()), (Screen::RenameProfile, "New profile"));
    for _ in 0.."New profile".len() {
        app.handle_rename_profile_event(MenuEvent::Left);
    }
    assert_eq!(app.profile_name_hint(), Some(NEEDS_A_NAME));
    for c in "Couch ".chars() {
        app.enter_profile_name_char(c);
    }
    assert_eq!(app.profile_name_hint(), Some(NAME_TAKEN));
    app.handle_rename_profile_event(MenuEvent::Confirm);
    assert_eq!(app.nav.screen, Screen::RenameProfile);
    app.enter_profile_name_char('2');
    app.handle_rename_profile_event(MenuEvent::Confirm);
    assert_eq!((app.nav.screen, app.profiles[1].name.as_str()), (Screen::SettingsPage, "Couch 2"));
    app.duplicate_profile("c".to_string());
    assert_eq!(app.profiles[2].name, "Couch 2 copy");
    assert_eq!(app.scope_profile(), Some(2));
}

#[test]
fn a_deleted_profile_is_gone_everywhere() {
    let mut app = app();
    app.profiles = vec![profile("a", "Couch"), profile("b", "Desk")];
    app.hosts.known[0].profile_id = Some("a".to_string());
    app.hosts.known[1].pinned_profiles = vec!["a".to_string(), "b".to_string()];
    app.hosts.known[0].bind_game_profile("p", Some("a".to_string()));
    app.screens.settings_page.scope = Scope::Profile("a".to_string());
    assert_eq!(app.profile_use_counts(), (1, 1));
    app.open_delete_profile();
    app.handle_delete_profile_event(MenuEvent::Confirm, 2_000);
    assert_eq!(app.profiles.len(), 2);
    app.open_delete_profile();
    app.handle_delete_profile_event(MenuEvent::Left, 2_000);
    app.handle_delete_profile_event(MenuEvent::Confirm, 2_000);
    assert_eq!(app.profiles.len(), 1);
    assert_eq!(app.hosts.known[0].profile_id, None);
    app.rebuild_entries();
    assert_eq!(app.hosts.entries.len(), 3);
    assert_eq!(app.hosts.entries[2].name(), "Beta · Desk");
    assert_eq!(app.hosts.known[0].game_profile("p"), None);
    assert!(matches!(app.screens.settings_page.scope, Scope::Global));
}

#[test]
fn a_hosts_default_profile_is_picked() {
    let mut app = app();
    app.open_host_menu(0);
    app.open_pick_profile(ProfilePick::Pin(target("10.0.0.2")));
    assert_eq!(app.nav.screen, Screen::HostMenu);
    app.profiles = vec![profile("a", "Couch"), profile("b", "Desk")];
    app.open_pick_profile(ProfilePick::HostDefault(target("10.0.0.2")));
    assert_eq!(app.pick_profile_row_count(), 3);
    let rows = app.pick_profile_rows();
    assert!(rows[0].marked && rows[0].name.is_none() && !rows[1].marked);
    assert_eq!(
        app.pick_profile_subtitle().as_deref(),
        Some("What Alpha streams with when a title has no profile of its own.")
    );
    app.handle_pick_profile_event(MenuEvent::Up, 2_000);
    app.handle_pick_profile_event(MenuEvent::Confirm, 2_000);
    assert_eq!(app.hosts.known[0].profile_id.as_deref(), Some("b"));
    assert_eq!(app.nav.screen, Screen::HostMenu);
    app.open_pick_profile(ProfilePick::HostDefault(target("10.0.0.2")));
    assert_eq!(app.nav.cursor(Screen::PickProfile), 2);
}

#[test]
fn a_pin_is_toggled_and_undone() {
    let mut app = app();
    app.profiles = vec![profile("a", "Couch")];
    app.open_host_menu(0);
    app.open_pick_profile(ProfilePick::Pin(target("10.0.0.2")));
    assert!(!ProfilePick::Pin(target("10.0.0.2")).has_none());
    app.handle_pick_profile_event(MenuEvent::Confirm, 2_000);
    assert_eq!(app.hosts.entries.len(), 3);
    assert!(app.pick_profile_rows()[0].marked);
    app.handle_pick_profile_event(MenuEvent::Confirm, 2_000);
    assert_eq!(app.hosts.entries.len(), 2);
    assert!(app.hosts.known[0].pinned_profiles.is_empty());
}

#[test]
fn a_desktop_is_streamed_with_a_picked_profile() {
    let mut app = app();
    app.profiles = vec![profile("a", "Couch")];
    app.open_host_menu(1);
    app.open_pick_profile(ProfilePick::ConnectWith(target("10.0.0.3")));
    app.handle_pick_profile_event(MenuEvent::Confirm, 2_000);
    let t = app.take_ready_launch().unwrap();
    assert_eq!((t.host.as_str(), t.launch, t.profile.as_deref()), ("10.0.0.3", None, Some("a")));
    assert_eq!(app.nav.screen, Screen::Home);
}

#[test]
fn a_game_is_bound_to_a_profile() {
    let mut app = held_card();
    app.profiles = vec![profile("a", "Couch")];
    app.open_pick_profile(ProfilePick::BindGame { pin_id: "p".to_string(), title: "Portal".to_string() });
    assert_eq!(app.pick_profile_subtitle().as_deref(), Some("The settings Portal streams with."));
    app.handle_pick_profile_event(MenuEvent::Down, 2_000);
    app.handle_pick_profile_event(MenuEvent::Confirm, 2_000);
    assert_eq!(app.hosts.known[0].game_profile("p").as_deref(), Some("a"));
    assert!(app.card_menu.is_none());
    app.confirm_grid_card(0, shape(), true, 2_100);
    assert_eq!(app.take_ready_launch().unwrap().launch.as_deref(), Some("p"));
}

#[test]
fn the_average_stays_below_the_peak() {
    let d = HdrDisplay { peak_nits: 800, frame_avg_nits: 400, black_code: 64 };
    assert_eq!(measure(d, HdrStep::Peak, 300), HdrDisplay { peak_nits: 300, frame_avg_nits: 300, black_code: 64 });
    assert_eq!(measure(d, HdrStep::FrameAverage, 900).frame_avg_nits, 800);
    assert_eq!(measure(d, HdrStep::Black, 70).black_code, 70);
}

#[test]
fn only_the_last_step_of_a_calibration_saves() {
    let mut app = app();
    app.open_hdr_calibration();
    assert!(matches!(&app.take_effects()[..], [Effect::StartPattern(HdrStep::Peak, _)]));
    assert!(app.tick_hdr_pattern(true, false));
    assert!(app.hdr_pattern_presenting());
    app.handle_hdr_calibration_event(MenuEvent::Right, (700, 900), 2_000);
    assert!(matches!(&app.take_effects()[..], [Effect::ShowPattern(HdrStep::Peak, d)] if d.peak_nits == 900));
    app.handle_hdr_calibration_event(MenuEvent::Confirm, (700, 900), 2_000);
    assert_eq!(app.screens.hdr.unwrap().step, HdrStep::FrameAverage);
    app.set_hdr_value(500);
    app.handle_hdr_calibration_event(MenuEvent::Confirm, (700, 900), 2_000);
    app.take_effects();
    app.handle_hdr_calibration_event(MenuEvent::Confirm, (700, 900), 2_000);
    assert_eq!(app.nav.screen, Screen::SettingsPage);
    assert!(app.settings.hdr_calibrated);
    assert_eq!(app.settings.hdr_display, HdrDisplay { peak_nits: 900, frame_avg_nits: 500, black_code: 64 });
    assert!(matches!(&app.take_effects()[..], [Effect::Save(_)]));
}

#[test]
fn a_cancelled_calibration_stores_nothing() {
    let mut app = app();
    app.open_hdr_calibration();
    app.set_hdr_value(900);
    app.take_effects();
    app.hdr_pattern_failed();
    app.handle_hdr_calibration_event(MenuEvent::Back, (700, 900), 2_000);
    assert_eq!(app.settings, settings());
    assert!(app.take_effects().is_empty());
    assert!(app.screens.hdr.is_none());
}

#[test]
fn a_calibration_is_cleared_on_request() {
    let mut app = app();
    app.settings.hdr_calibrated = true;
    app.open_reset_hdr_calibration();
    app.handle_reset_hdr_event(MenuEvent::Left, settings().hdr_display, 2_000);
    let back = HdrDisplay { peak_nits: 1000, frame_avg_nits: 500, black_code: 64 };
    app.handle_reset_hdr_event(MenuEvent::Confirm, back, 2_000);
    assert_eq!((app.settings.hdr_calibrated, app.settings.hdr_display), (false, back));
    assert_eq!(app.nav.screen, Screen::SettingsPage);
}

#[test]
fn the_licences_scroll_inside_the_document() {
    let mut app = app();
    app.open_about();
    assert!(app.scroll_about_lines(5, 100, 10));
    assert!(!app.scroll_about_lines(0, 100, 10));
    app.handle_about_event(MenuEvent::Right, 100, 10);
    assert_eq!(app.screens.about_scroll, 13);
    assert!(app.scroll_about_lines(i64::MAX, 100, 10));
    assert_eq!(app.screens.about_scroll, 90);
    app.handle_about_event(MenuEvent::Up, 100, 10);
    assert_eq!(app.screens.about_scroll, 89);
    assert!(app.scroll_about_lines(i64::MIN, 100, 10));
    assert_eq!(app.screens.about_scroll, 0);
    app.handle_about_event(MenuEvent::Back, 100, 10);
    assert_eq!(app.nav.screen, Screen::SettingsPage);
}

#[test]
fn the_settings_page_is_left_from_its_column() {
    let mut app = app();
    app.open_settings_page();
    let kit = vec![KitRow::Bitrate];
    assert!(app.screens.settings_page.column);
    app.handle_settings_page_event(MenuEvent::Down, &kit, true, String::new(), 2_000);
    assert_eq!(app.screens.settings_page.page, Page::Display);
    assert!(app.jobs.has(Job::RootProbeOwed));
    app.tick_root_probe(true);
    assert!(app.take_effects().is_empty());
    app.tick_root_probe(false);
    assert!(matches!(&app.take_effects()[..], [Effect::ProbeRoot]));
    app.handle_settings_page_event(MenuEvent::Confirm, &kit, true, String::new(), 2_000);
    assert!(!app.screens.settings_page.column);
    app.handle_settings_page_event(MenuEvent::Right, &kit, true, String::new(), 2_000);
    assert!(matches!(&app.take_effects()[..], [Effect::AdjustRow(KitRow::Bitrate, 1, false)]));
    app.handle_settings_page_event(MenuEvent::Back, &kit, true, String::new(), 2_000);
    assert_eq!(app.nav.screen, Screen::SettingsPage);
    app.handle_settings_page_event(MenuEvent::Back, &kit, true, String::new(), 2_000);
    assert_eq!(app.nav.screen, Screen::Home);
}

#[test]
fn game_mode_needs_a_rooted_tv() {
    let mut app = app();
    app.open_settings_page();
    app.show_page(Page::Display, 2_000);
    app.screens.settings_page.column = false;
    let kit = vec![KitRow::Bitrate];
    let rows = app.settings_page_rows(&kit);
    let at = rows.iter().position(|l| l.row == PageRow::GameMode).unwrap();
    app.nav.set_cursor(Screen::SettingsPage, at);
    app.handle_settings_page_event(MenuEvent::Confirm, &kit, true, String::new(), 2_000);
    assert!(!app.settings.game_mode);
    app.tick_root_probe(false);
    assert!(app.drain_rooted(true));
    app.handle_settings_page_event(MenuEvent::Confirm, &kit, true, String::new(), 2_000);
    assert!(app.settings.game_mode);
    assert!(!app.drain_rooted(false));
    assert!(app.settings.game_mode);
}

#[test]
fn the_scope_goes_round_the_profiles() {
    let mut app = app();
    app.profiles = vec![profile("a", "Couch")];
    app.open_settings_page();
    app.screens.settings_page.column = false;
    assert_eq!(app.scope_label(), "Default settings");
    let kit = vec![KitRow::Bitrate];
    app.handle_settings_page_event(MenuEvent::Right, &kit, true, "f".to_string(), 2_000);
    assert_eq!(app.scope_profile(), Some(0));
    assert_eq!(app.scope_label(), "Couch");
    app.handle_settings_page_event(MenuEvent::Left, &kit, true, "f".to_string(), 2_000);
    assert_eq!(app.scope_profile(), None);
    app.handle_settings_page_event(MenuEvent::Left, &kit, true, "f".to_string(), 2_000);
    assert_eq!((app.profiles.len(), app.nav.screen), (2, Screen::RenameProfile));
}

#[test]
fn a_changed_row_is_kept_where_it_was_edited() {
    let mut app = app();
    let mut louder = settings();
    louder.bitrate_kbps = 50_000;
    app.row_adjusted(Adjusted::Document(louder));
    assert_eq!(app.settings.bitrate_kbps, 50_000);
    app.profiles = vec![profile("a", "Couch")];
    app.screens.settings_page.scope = Scope::Profile("a".to_string());
    let mut o = empty_overlay();
    o.bitrate_kbps = Some(10_000);
    app.row_adjusted(Adjusted::Overlay(o));
    assert_eq!(app.profiles[0].overrides.bitrate_kbps, Some(10_000));
    app.row_adjusted(Adjusted::Document(settings()));
    assert_eq!(app.settings.bitrate_kbps, 50_000);
}

#[test]
fn the_display_page_says_what_is_locked() {
    let mut app = app();
    app.screens.settings_page.page = Page::Display;
    app.settings.codec = CodecPref::H264;
    let ctx = PageContext {
        kit: vec![KitRow::Bitrate, KitRow::Codec, KitRow::Hdr],
        caps: VideoCaps { hdr: true, codec_prefs: 3, max_channels: 6 },
        shell_built: true,
        webos_major: Some(6),
        hid_bound: false,
        host_ready: true,
        version: "1.0".to_string(),
    };
    let specs = app.settings_page_specs(&ctx);
    assert_eq!(specs.len(), app.settings_page_rows(&ctx.kit).len());
    assert_eq!(specs[0].kind, SpecKind::Shared(KitRow::Bitrate));
    assert!(app.tv_lock(KitRow::Hdr, ctx.caps, true, Some(6)).is_some());
    assert!(app.tv_lock(KitRow::Bitrate, ctx.caps, true, Some(6)).is_none());
    let game_mode = specs.iter().find(|s| s.label == "Game mode").unwrap();
    assert_eq!(game_mode.kind, SpecKind::Toggle(false));
    assert!(game_mode.lock.is_some());
    assert_ne!(pad_name(GamepadType::Xbox), pad_name(GamepadType::DualSense));
    app.set_gamepad_type(Some(GamepadType::DualSense));
    assert!(app.dualsense_limited(false) != app.dualsense_limited(true));
}

#[test]
fn an_event_reaches_the_screen_that_is_up() {
    let mut app = app();
    assert!(app.handle_menu_event(MenuEvent::Confirm, context("f"), 2_000));
    assert_eq!(app.library.selected_host.as_ref().unwrap().host, "10.0.0.2");
    app.home_focus = HomeFocus::SidebarMenu(1);
    app.handle_menu_event(MenuEvent::Confirm, context("f"), 2_000);
    assert_eq!((app.nav.screen, app.screens.host_menu_index), (Screen::HostMenu, Some(1)));
    assert_eq!(app.row_count(&Vec::new()), app.host_menu_actions().len());
    assert!(app.navigates_rows(&Vec::new()));
    app.handle_menu_event(MenuEvent::Down, context("f"), 2_000);
    assert_eq!(app.row_focus(), (1, None));
    app.back(context("f"), 2_000);
    assert_eq!(app.nav.screen, Screen::Home);
    app.home_focus = HomeFocus::Sidebar(2);
    app.handle_menu_event(MenuEvent::Confirm, context("f"), 2_000);
    assert_eq!(app.nav.screen, Screen::AddHost);
    app.set_address("10".to_string());
    assert!(app.erase_text_entry(false));
    assert_eq!(app.screens.add_host, "1");
}

#[test]
fn back_on_home_goes_to_the_hosts() {
    let mut app = held_card();
    app.back_home(2_000);
    assert!(app.card_menu.is_none());
    app.back_home(2_000);
    assert_eq!(app.home_focus, HomeFocus::Sidebar(0));
    app.home_focus = HomeFocus::SidebarMenu(1);
    app.back_home(2_000);
    assert_eq!(app.home_focus, HomeFocus::Sidebar(1));
    app.back_home(2_000);
    assert_eq!(app.home_focus, HomeFocus::Sidebar(1));
}

#[test]
fn screens_fall_in_families() {
    assert!(is_confirm(Screen::ForgetHost) && !is_confirm(Screen::HostMenu));
    assert!(is_list_modal(Screen::HostMenu) && !is_list_modal(Screen::ForgetHost));
    assert!(over_video(Screen::HdrCalibration) && !over_video(Screen::Home));
    assert_eq!(next_button(None, true, false, 1), Some(Some(RowButton::Trailing(0))));
    assert_eq!(next_button(Some(RowButton::Trailing(0)), false, false, 1), Some(None));
    assert_eq!(next_button(None, false, false, 1), None);
}

#[test]
fn a_trimmed_name_is_judged_by_itself() {
    let mut app = app();
    app.profiles = vec![profile("a", "Couch"), profile("b", "Desk")];
    app.screens.settings_page.scope = Scope::Profile("b".to_string());
    assert_eq!(app.profile_name_refusal(""), Some(NEEDS_A_NAME));
    assert_eq!(app.profile_name_refusal("Couch"), Some(NAME_TAKEN));
    assert_eq!(app.profile_name_refusal("Desk"), None);
    app.rename_profile("Couch".to_string());
    assert_eq!(app.profiles[1].name, "Desk");
    app.rename_profile("Bed".to_string());
    assert_eq!((app.nav.screen, app.profiles[1].name.as_str()), (Screen::SettingsPage, "Bed"));
}

#[test]
fn a_shelf_takes_a_trimmed_name() {
    let mut app = held_card();
    app.open_collections("h", "Half-Life");
    app.open_name_collection(Some(0));
    assert_eq!(app.collection_name_refusal(""), Some(NameRefusal::Empty));
    assert_eq!(app.collection_name_refusal("Library"), Some(NameRefusal::Taken));
    assert_eq!(app.collection_name_refusal("Best"), None);
    app.name_collection("Library", shape(), 2_000);
    assert_eq!(app.hosts.known[0].collections[0].name, "Favourites");
    app.name_collection("Best", shape(), 2_000);
    assert_eq!(app.hosts.known[0].collections[0].name, "Best");
}

#[test]
fn a_step_off_the_last_button_goes_nowhere() {
    let mut app = held_card();
    app.open_collections("h", "Half-Life");
    app.nav.set_cursor(Screen::Collections, 0);
    let (leading, trailing) = app.row_buttons(0);
    assert!(leading && trailing > 0);
    for _ in 0..trailing {
        assert!(app.step_row_button(true));
    }
    assert!(!app.step_row_button(true));
    assert_eq!(app.screens.row_button, Some(RowButton::Trailing(trailing - 1)));
    assert_eq!(app.row_buttons(9), (false, 0));
}

#[test]
fn the_log_level_steps_from_the_one_in_force() {
    let mut app = app();
    app.open_settings_page();
    app.show_page(Page::About, 2_000);
    let row = app.settings_page_rows(&context("n").kit).iter().position(|l| l.row == PageRow::LogLevel).unwrap();
    app.screens.settings_page.column = false;
    app.nav.set_cursor(Screen::SettingsPage, row);
    // Saved as Info, but Error is in force: the step goes around to Debug.
    app.set_log_level(LogLevelOverride::Error);
    app.take_effects();
    app.handle_menu_event(MenuEvent::Right, context("n"), 2_000);
    assert_eq!((app.log_level, app.settings.log_level), (LogLevelOverride::Debug, LogLevelOverride::Debug));
    assert!(matches!(&app.take_effects()[0], Effect::LogLevel(LogLevelOverride::Debug)));
}

fn over(hit: Hit, close: Option<bool>) -> Pointer {
    Pointer { hit, close, on_track: false, luminance: 0, bitrate: 0 }
}

#[test]
fn a_click_acts_as_the_key_does() {
    let mut app = app();
    // Spent on empty space.
    assert_eq!(app.click(over(Hit::Nothing, None), context("n"), 2_000), Click::Spent);
    assert_eq!(app.nav.screen, Screen::Home);
    assert_eq!(app.click(over(Hit::MenuButton(0), None), context("n"), 2_000), Click::Spent);
    assert_eq!(app.nav.screen, Screen::HostMenu);
    // A row that is pressed is confirmed.
    let row = app.host_menu_actions().iter().position(|a| *a == HostAction::Forget).unwrap();
    assert_eq!(app.click(over(Hit::Row(row, None), Some(false)), context("n"), 2_000), Click::Press);
    assert_eq!(app.nav.screen, Screen::ForgetHost);
    // The close mark is Back.
    assert_eq!(app.click(over(Hit::Nothing, Some(true)), context("n"), 2_000), Click::Back);
    assert_eq!(app.nav.screen, Screen::HostMenu);
}
