//! The grid's arithmetic, the shelves, the host list and the small rules of the menu.
use punktfunk_webos::grid::{
    div_ceil, position_of, Arrivals, Entrance, GridLayout, GridState, Group, SectionMetrics, CARD_POP,
};
use punktfunk_webos::home::{MOST_COLUMNS, MOST_SHELVES};
use punktfunk_webos::hosts::{find_entry, find_host, find_profile, known_entries, HostsState};
use punktfunk_webos::library::Library;
use punktfunk_webos::menu::{
    audio_channel_options, audio_route_label, channel_options_up_to, cycle_index, exit_action_at, exit_action_caption,
    exit_action_current_index, exit_action_label, list_nav, lock_caption, log_level_at, log_level_dropdown_current_index,
    log_level_label, nav_dir, row_lock, Dir, PowerAccess, PowerRights, RowLock, SettingsRow, EXIT_ACTIONS, LOG_LEVELS,
};
use punktfunk_webos::model::{
    Artwork, AudioRoutePref, Binding, CodecPref, Collection, DiscoveredHost, ExitAction, GameEntry, GamepadType,
    HdrDisplay, KnownHost, LogLevelOverride, MenuEvent, Screen, Settings, SettingsOverlay, StreamProfile, VideoCaps,
    DESKTOP_PIN_ID,
};
use punktfunk_webos::nav::Nav;
use punktfunk_webos::profiles::{empty_overlay, free_name};
use punktfunk_webos::recents::{Recent, Recents};
use punktfunk_webos::scroll::scrolled;

fn metrics() -> SectionMetrics {
    SectionMetrics { heading_h: 40, gap: 20 }
}

fn group(name: &str, len: usize, games_start: usize) -> Group {
    Group { name: name.to_string(), len, games_start }
}

fn game(id: &str, title: &str) -> GameEntry {
    GameEntry {
        id: id.to_string(),
        title: title.to_string(),
        art: Artwork { portrait: None, header: None, hero: None },
        icon: None,
    }
}

fn shelf(name: &str, dynamic: bool, games: &[&str]) -> Collection {
    Collection { name: name.to_string(), dynamic, games: games.iter().map(|g| g.to_string()).collect() }
}

fn host(name: &str, addr: &str) -> KnownHost {
    KnownHost {
        name: name.to_string(),
        addr: addr.to_string(),
        port: 9777,
        mgmt_port: None,
        mac: Vec::new(),
        os: String::new(),
        pin: None,
        wol_auto: false,
        exit_action: ExitAction::Nothing,
        profile_id: None,
        pinned_profiles: Vec::new(),
        game_profiles: Vec::new(),
        collections: vec![shelf("Favourites", false, &[]), shelf("Library", true, &[])],
    }
}

fn profile(id: &str, name: &str) -> StreamProfile {
    StreamProfile { id: id.to_string(), name: name.to_string(), overrides: empty_overlay() }
}

fn settings() -> Settings {
    Settings {
        bitrate_kbps: 20_000,
        hdr_enabled: true,
        codec: CodecPref::Automatic,
        audio_route: AudioRoutePref::Software,
        gamepad_type: GamepadType::Auto,
        gamepad_ui: true,
        game_mode: false,
        show_logs: false,
        log_level: LogLevelOverride::Info,
        hdr_display: HdrDisplay { peak_nits: 800, frame_avg_nits: 400, black_code: 64 },
        hdr_calibrated: false,
    }
}

fn caps() -> VideoCaps {
    VideoCaps { hdr: true, codec_prefs: 3, max_channels: 6 }
}

fn games() -> Vec<GameEntry> {
    vec![game("a", "A"), game("b", "B"), game("c", "C"), game("d", "D"), game("e", "E"), game("f", "F")]
}

#[test]
fn sections_take_whole_rows() {
    let groups = vec![group("One", 5, 0), group("Two", 1, 5)];
    let l = GridLayout::new(&groups, 4, metrics());
    assert_eq!(l.columns(), 4);
    assert_eq!(l.rows(), 3);
    let placed = l.placed();
    assert_eq!((placed[0].first_idx, placed[0].first_row, placed[0].rows), (0, 0, 2));
    assert_eq!((placed[1].first_idx, placed[1].first_row, placed[1].rows), (8, 2, 1));
    assert_eq!(placed[1].slots(), 8..9);
    assert_eq!(placed[0].rows_range(), 0..2);
    assert_eq!(l.len(), 9);
    assert_eq!(l.headings().iter().map(|(slot, g)| (*slot, g.name.as_str())).collect::<Vec<_>>(), vec![(0, "One"), (8, "Two")]);
}

#[test]
fn a_grid_has_at_least_one_column() {
    let mut lib = Library::new();
    lib.games = vec![game("a", "A"), game("b", "B")];
    lib.groups = vec![group("Library", 2, 0)];
    assert_eq!(lib.grid_len(0, metrics()), 2);
    assert_eq!(lib.pin_id_at(1, 0, metrics()), Some("b"));
    assert_eq!(lib.layout(0, metrics()).rows(), 2);
}

#[test]
fn the_padding_of_a_row_holds_no_card() {
    let groups = vec![group("One", 5, 0), group("Two", 1, 5)];
    let games = games();
    let l = GridLayout::new(&groups, 4, metrics());
    assert_eq!(l.pin_id_at(&games, 4), Some("e"));
    assert!(l.card_at(&games, 5).is_none());
    assert!(l.card_at(&games, 7).is_none());
    assert_eq!(l.card_at(&games, 8).map(|g| g.title.as_str()), Some("F"));
    assert!(l.card_at(&games, 9).is_none());
}

#[test]
fn a_card_is_found_again_in_its_slot() {
    let groups = vec![group("One", 5, 0), group("Two", 1, 5)];
    let games = games();
    let l = GridLayout::new(&groups, 4, metrics());
    for idx in [0, 1, 2, 3, 4, 8] {
        let id = l.pin_id_at(&games, idx).unwrap().to_string();
        assert_eq!(l.idx_for_pin_id(&games, &id), Some(idx));
    }
    assert_eq!(l.idx_for_pin_id(&games, "gone"), None);
    assert_eq!(position_of(&games, "c"), Some(2));
    assert_eq!(position_of(&games, "gone"), None);
}

#[test]
fn rows_carry_the_headings_above_them() {
    let groups = vec![group("One", 5, 0), group("Two", 1, 5)];
    let l = GridLayout::new(&groups, 4, metrics());
    assert_eq!(l.row_offset_at(0), 40);
    assert_eq!(l.row_offset_at(1), 40);
    assert_eq!(l.row_offset_at(2), 100);
    assert_eq!(l.row_offset(8), 100);
    assert_eq!(l.total_extra(), 100);
    assert_eq!(l.row_bands(), vec![(0..2, 40), (2..3, 100)]);
}

#[test]
fn rows_are_rounded_up() {
    assert_eq!(div_ceil(0, 4), 0);
    assert_eq!(div_ceil(4, 4), 1);
    assert_eq!(div_ceil(5, 4), 2);
    assert!(MOST_COLUMNS > 100 && MOST_SHELVES > 100);
}

#[test]
fn a_card_enters_once() {
    let mut a = Arrivals::new();
    assert!(a.note("x"));
    assert!(!a.note("x"));
    assert_eq!(a.pop("x"), None);
    assert!(a.arm("x", Entrance::pop(100)));
    assert_eq!(a.pop("x"), Some(Entrance { start: 100 }));
    assert_eq!(a.pop("x").unwrap().end(), 100 + CARD_POP);
    assert!(!a.arm("y", Entrance::pop(100)));
    a.release("x");
    assert!(a.note("x"));
    assert_eq!(a.ids(), vec!["x"]);
    a.clear();
    assert!(a.ids().is_empty());
}

#[test]
fn the_listing_is_alphabetical_whatever_its_case() {
    let mut lib = Library::new();
    lib.load_games(vec![game("z", "zelda"), game("u", "ÜBER"), game("p", "Portal"), game("q", "portal")]);
    let ids: Vec<&str> = lib.games.iter().map(|g| g.id.as_str()).collect();
    assert_eq!(ids[0], DESKTOP_PIN_ID);
    assert_eq!(&ids[1..], &["p", "q", "z", "u"]);
    assert_eq!(lib.games.len(), 5);
}

#[test]
fn games_follow_their_keys() {
    let mut lib = Library::new();
    let keys: Vec<Vec<char>> = ["b", "a", "b"].iter().map(|k| k.chars().collect()).collect();
    lib.load_sorted(vec![game("x", "1"), game("y", "2"), game("z", "3")], &keys);
    let ids: Vec<&str> = lib.games.iter().map(|g| g.id.as_str()).collect();
    assert_eq!(ids, vec!["y", "x", "z"]);
}

#[test]
fn the_desktop_wears_its_hosts_mark() {
    let mut lib = Library::new();
    lib.load_games(vec![game("p", "Portal"), game("a", "Alien")]);
    lib.set_desktop_icon(Some("linux".to_string()));
    assert_eq!(lib.games[1].id, DESKTOP_PIN_ID);
    assert_eq!(lib.games[1].icon.as_deref(), Some("linux"));
    assert_eq!(lib.games[0].icon, None);
}

#[test]
fn every_game_has_one_place() {
    let mut lib = Library::new();
    lib.load_games(vec![game("p", "Portal"), game("h", "Half-Life"), game("d", "Doom")]);
    let mut h = host("Alpha", "10.0.0.2");
    h.collections = vec![shelf("Favourites", false, &["p", "gone"]), shelf("Library", true, &[]), shelf("Couch", false, &["p", "d"])];
    lib.regroup(&h, &Recents { entries: Vec::new() });
    let names: Vec<(&str, usize)> = lib.groups.iter().map(|g| (g.name.as_str(), g.len)).collect();
    assert_eq!(names, vec![("Favourites", 1), ("Library", 2), ("Couch", 1)]);
    let ids: Vec<&str> = lib.games.iter().map(|g| g.id.as_str()).collect();
    assert_eq!(ids, vec!["p", DESKTOP_PIN_ID, "h", "d"]);
    assert_eq!(lib.grid_len(4, metrics()), 9);
    assert_eq!(lib.pin_id_at(8, 4, metrics()), Some("d"));
    assert_eq!(lib.idx_for_pin_id("h", 4, metrics()), Some(5));
}

#[test]
fn what_was_played_last_leads_the_library() {
    let mut lib = Library::new();
    lib.load_games(vec![game("p", "Portal"), game("h", "Half-Life"), game("d", "Doom")]);
    let h = host("Alpha", "10.0.0.2");
    let recents = Recents {
        entries: vec![
            Recent { host: "10.0.0.2".to_string(), port: 9777, id: "p".to_string(), at: 50 },
            Recent { host: "10.0.0.2".to_string(), port: 9777, id: "h".to_string(), at: 90 },
            Recent { host: "10.0.0.9".to_string(), port: 9777, id: "d".to_string(), at: 99 },
        ],
    };
    lib.regroup(&h, &recents);
    let ids: Vec<&str> = lib.games.iter().map(|g| g.id.as_str()).collect();
    assert_eq!(ids, vec!["h", "p", DESKTOP_PIN_ID, "d"]);
}

#[test]
fn laying_out_twice_changes_nothing() {
    let mut lib = Library::new();
    lib.load_games(vec![game("p", "Portal"), game("h", "Half-Life"), game("d", "Doom"), game("q", "Quake")]);
    let mut h = host("Alpha", "10.0.0.2");
    h.collections = vec![shelf("Favourites", false, &["q", "gone", "p"]), shelf("Library", true, &[]), shelf("Couch", false, &["p", "d"])];
    let recents = Recents {
        entries: vec![Recent { host: "10.0.0.2".to_string(), port: 9777, id: "h".to_string(), at: 90 }],
    };
    lib.regroup(&h, &recents);
    let seen = |lib: &Library| {
        let ids: Vec<String> = lib.games.iter().map(|g| g.id.clone()).collect();
        let groups: Vec<(String, usize)> = lib.groups.iter().map(|g| (g.name.clone(), g.len)).collect();
        (ids, groups)
    };
    let once = seen(&lib);
    assert_eq!(once.0, vec!["q", "p", "h", DESKTOP_PIN_ID, "d"]);
    lib.regroup(&h, &recents);
    assert_eq!(seen(&lib), once);
}

#[test]
fn arrivals_run_until_the_latest_of_them() {
    let mut grid = GridState::default();
    assert!(grid.arrivals.note("a") && grid.arrivals.note("b"));
    grid.arm_card_pop("gone", 9_000);
    assert!(!grid.card_pops_running(0));
    grid.arm_card_pop("b", 2_000);
    grid.arm_card_pop("a", 1_000);
    assert!(grid.card_pops_running(2_000 + CARD_POP - 1));
    assert!(!grid.card_pops_running(2_000 + CARD_POP));
    grid.arm_card_pop("b", 500);
    assert!(grid.card_pops_running(2_000 + CARD_POP - 1));
}

#[test]
fn two_cards_swapped_twice_are_back() {
    let mut lib = Library::new();
    lib.load_games(vec![game("p", "Portal"), game("h", "Half-Life")]);
    lib.swap_games("p", "h");
    assert_eq!(lib.games.iter().map(|g| g.id.as_str()).collect::<Vec<_>>(), vec![DESKTOP_PIN_ID, "p", "h"]);
    lib.swap_games("p", "h");
    assert_eq!(lib.games.iter().map(|g| g.id.as_str()).collect::<Vec<_>>(), vec![DESKTOP_PIN_ID, "h", "p"]);
    lib.swap_games("p", "gone");
    assert_eq!(lib.games.len(), 3);
    lib.clear_groups();
    assert!(lib.groups.is_empty());
    lib.clear();
    assert!(lib.games.is_empty());
}

#[test]
fn recents_forget_a_host_and_stale_titles() {
    let entry = |host: &str, id: &str, at: u64| Recent { host: host.to_string(), port: 9777, id: id.to_string(), at };
    let mut r = Recents { entries: vec![entry("a", "x", 5), entry("a", "y", 6), entry("b", "x", 7)] };
    assert_eq!(r.when("a", 9777, "x"), 5);
    assert_eq!(r.when("a", 1, "x"), 0);
    assert!(r.prune("a", 9777, &vec!["y".to_string()]));
    assert!(!r.prune("a", 9777, &vec!["y".to_string()]));
    assert_eq!(r.when("a", 9777, "x"), 0);
    assert_eq!(r.when("b", 9777, "x"), 7);
    assert!(r.forget_host("b", 9777));
    assert!(!r.forget_host("b", 9777));
    assert_eq!(r.entries.len(), 1);
}

#[test]
fn a_card_moves_between_shelves() {
    let mut h = host("Alpha", "10.0.0.2");
    assert_eq!(h.library_index(), Some(1));
    assert_eq!(h.collection_of("x"), None);
    h.move_to("x", Some(0));
    assert_eq!(h.collection_of("x"), Some(0));
    h.move_to("y", Some(0));
    assert_eq!(h.collection_neighbour("x", true).as_deref(), Some("y"));
    assert_eq!(h.collection_neighbour("x", false), None);
    assert!(h.swap_within_collection("x", true));
    assert_eq!(h.collections[0].games, vec!["y", "x"]);
    assert!(h.swap_within_collection("x", false));
    assert_eq!(h.collections[0].games, vec!["x", "y"]);
    assert!(!h.swap_within_collection("x", false));
    h.move_to("x", None);
    assert_eq!(h.collection_of("x"), None);
    assert_eq!(h.collections[0].games, vec!["y"]);
}

#[test]
fn a_shelf_is_named_once() {
    let mut h = host("Alpha", "10.0.0.2");
    assert!(!h.can_name(None, ""));
    assert!(!h.can_name(None, "Favourites"));
    assert!(h.can_name(Some(0), "Favourites"));
    assert!(h.can_name(None, "Couch"));
    let at = h.add_collection("Couch").unwrap();
    assert_eq!(h.collections[at].name, "Couch");
    assert!(!h.collections[at].dynamic);
    assert_eq!(h.add_collection("Couch"), None);
    h.rename_collection(at, "Sofa");
    assert_eq!(h.collections[at].name, "Sofa");
    assert!(!h.remove_collection(h.library_index().unwrap()));
    assert!(h.remove_collection(at));
    assert!(!h.remove_collection(at));
    assert_eq!(h.collections.len(), 2);
    h.reorder_collection(0, 1);
    assert_eq!(h.library_index(), Some(0));
}

#[test]
fn gone_games_leave_the_shelves() {
    let mut h = host("Alpha", "10.0.0.2");
    h.collections[0].games = vec!["x".to_string(), "y".to_string()];
    h.bind_game_profile("x", Some("p1".to_string()));
    assert_eq!(h.game_profile("x").as_deref(), Some("p1"));
    assert_eq!(h.game_profile("y"), None);
    assert!(h.prune_games(&vec!["y".to_string()]));
    assert_eq!(h.collections[0].games, vec!["y"]);
    assert_eq!(h.game_profile("x"), None);
    assert!(!h.prune_games(&vec!["y".to_string()]));
    h.bind_game_profile("y", Some("p1".to_string()));
    h.bind_game_profile("y", Some("p2".to_string()));
    assert_eq!(h.game_profiles.len(), 1);
    h.bind_game_profile("y", None);
    assert!(h.game_profiles.is_empty());
    let b = Binding { game: "g".to_string(), profile: "p".to_string() };
    assert_eq!(b.clone().game, "g");
}

#[test]
fn a_host_learns_from_its_announcement() {
    let mut h = host("Alpha", "10.0.0.2");
    let found = DiscoveredHost {
        name: "alpha".to_string(),
        addr: "10.0.0.2".to_string(),
        port: 9777,
        mgmt_port: Some(47990),
        mac: vec!["aa:bb".to_string()],
        os: "linux".to_string(),
    };
    assert_eq!(h.learn(&found), (true, true));
    assert_eq!(h.mac, vec!["aa:bb"]);
    assert_eq!(h.os, "linux");
    assert_eq!(h.name, "Alpha");
    assert_eq!(h.learn(&found), (false, false));
    assert!(!h.is_paired());
    h.pin = Some([7; 32]);
    assert!(h.is_paired());
    assert_eq!(h.fingerprint(), Some([7; 32]));
}

#[test]
fn pinned_profiles_are_rows_under_their_host() {
    let mut h = host("Alpha", "10.0.0.2");
    h.pinned_profiles = vec!["p2".to_string(), "gone".to_string()];
    let known = vec![h, host("Beta", "10.0.0.3")];
    let profiles = vec![profile("p1", "Quality"), profile("p2", "Couch")];
    let entries = known_entries(&known, &profiles);
    assert_eq!(entries.len(), 3);
    assert!(entries[0].has_menu() && !entries[1].has_menu());
    assert!(entries[1].name().contains("Couch"));
    assert_eq!(entries[1].host(), "10.0.0.2");
    assert_eq!(entries[2].name(), "Beta");
    assert_eq!(find_entry(&entries, "10.0.0.3", 9777), Some(2));
    assert_eq!(find_host(&known, "10.0.0.3", 9777), Some(1));
    assert_eq!(find_host(&known, "10.0.0.3", 1), None);
    assert_eq!(find_profile(&profiles, "p2"), Some(1));
}

#[test]
fn a_recorded_state_is_read_back() {
    let mut s = HostsState::new();
    assert_eq!(s.online("10.0.0.2", 9777), None);
    assert!(s.note_reachable("10.0.0.2", 9777, true));
    assert!(!s.note_reachable("10.0.0.2", 9777, true));
    assert!(s.note_reachable("10.0.0.3", 9777, false));
    assert_eq!(s.online("10.0.0.2", 9777), Some(true));
    assert!(s.note_reachable("10.0.0.2", 9777, false));
    assert_eq!(s.online("10.0.0.2", 9777), Some(false));
    assert_eq!(s.online("10.0.0.3", 9777), Some(false));
    s.known = vec![host("Alpha", "10.0.0.2"), host("Beta", "10.0.0.3")];
    s.drop_known("10.0.0.2", 9777);
    assert_eq!(find_host(&s.known, "10.0.0.2", 9777), None);
    assert_eq!(s.known.len(), 1);
    assert!(s.host_listed("10.0.0.3", 9777));
    assert!(!s.host_listed("10.0.0.2", 9777));
}

#[test]
fn cursors_are_kept_per_screen() {
    let mut n = Nav::new();
    n.enter(Screen::HostMenu, 3);
    n.enter(Screen::Collections, 1);
    assert_eq!((n.cursor(Screen::HostMenu), n.cursor(Screen::Collections)), (3, 1));
    n.set_cursor(Screen::Collections, 2);
    n.resume(Screen::HostMenu);
    assert_eq!(n.screen, Screen::HostMenu);
    assert_eq!((n.cursor(Screen::HostMenu), n.cursor(Screen::Collections)), (3, 2));
}

#[test]
fn a_list_leads_on_from_its_ends() {
    let mut at = 0;
    assert_eq!(nav_dir(MenuEvent::Up), Some(Dir::Up));
    assert_eq!(nav_dir(MenuEvent::Confirm), None);
    assert!(list_nav(&mut at, 3, Some(Dir::Down)));
    assert_eq!(at, 1);
    assert!(list_nav(&mut at, 3, Some(Dir::Up)));
    assert!(list_nav(&mut at, 3, Some(Dir::Up)));
    assert_eq!(at, 2);
    assert!(list_nav(&mut at, 3, Some(Dir::Down)));
    assert_eq!(at, 0);
    assert!(!list_nav(&mut at, 3, Some(Dir::Left)));
    assert!(!list_nav(&mut at, 3, None));
    assert!(!list_nav(&mut at, 1, Some(Dir::Down)));
    assert_eq!(at, 0);
}

#[test]
fn a_pick_goes_round_and_back() {
    assert_eq!(cycle_index(2, 3, true), 0);
    assert_eq!(cycle_index(0, 3, false), 2);
    assert_eq!(cycle_index(cycle_index(1, 3, true), 3, false), 1);
}

#[test]
fn exit_actions_are_listed_and_labelled() {
    assert_eq!(exit_action_at(0), Some(ExitAction::Nothing));
    assert_eq!(exit_action_at(EXIT_ACTIONS), None);
    for i in 0..EXIT_ACTIONS {
        assert_eq!(exit_action_current_index(exit_action_at(i).unwrap()), i);
    }
    assert_eq!(exit_action_label(ExitAction::Shutdown), "Shut down");
    assert_ne!(exit_action_caption(ExitAction::Sleep), exit_action_caption(ExitAction::Shutdown));
}

#[test]
fn power_rights_say_what_is_allowed() {
    let r = PowerRights { sleep: true, shutdown: false };
    assert!(r.any() && r.allows(ExitAction::Sleep) && !r.allows(ExitAction::Shutdown));
    assert!(!PowerRights { sleep: false, shutdown: false }.any());
    assert!(PowerAccess::Rights(r).allows(ExitAction::Sleep));
    assert!(PowerAccess::Rights(r).unlocked());
    assert!(!PowerAccess::Unknown.unlocked());
    assert!(!PowerAccess::Rights(r).allows(ExitAction::Shutdown));
    // With no answer the row is locked, and every pick reads as allowed.
    assert!(PowerAccess::Unreachable.allows(ExitAction::Sleep));
    assert!(PowerAccess::NotPaired.allows(ExitAction::Shutdown));
}

#[test]
fn rows_say_why_they_are_locked() {
    let s = settings();
    assert_eq!(row_lock(SettingsRow::Hdr, &s, caps(), true, Some(GamepadType::Xbox)), None);
    let mut h264 = s;
    h264.codec = CodecPref::H264;
    assert_eq!(row_lock(SettingsRow::Hdr, &h264, caps(), true, None), Some(RowLock::HdrNeedsHevc));
    let poor = VideoCaps { hdr: false, codec_prefs: 1, max_channels: 2 };
    assert_eq!(row_lock(SettingsRow::Hdr, &s, poor, true, None), Some(RowLock::NoHdr));
    assert_eq!(row_lock(SettingsRow::Codec, &s, poor, true, None), Some(RowLock::OneCodec));
    assert_eq!(row_lock(SettingsRow::Audio, &s, poor, true, None), Some(RowLock::StereoOnly));
    let mut routed = s;
    routed.audio_route = AudioRoutePref::NdlOpus;
    assert_eq!(row_lock(SettingsRow::Audio, &routed, caps(), true, None), Some(RowLock::RouteStereoOnly));
    assert_eq!(row_lock(SettingsRow::Gamepad, &s, caps(), true, None), Some(RowLock::NoGamepad));
    assert_eq!(row_lock(SettingsRow::GamepadUi, &s, caps(), false, None), Some(RowLock::NoShell));
    let mut off = s;
    off.gamepad_ui = false;
    assert_eq!(row_lock(SettingsRow::GamepadUiMode, &off, caps(), true, None), Some(RowLock::ConsoleOff));
    assert!(!lock_caption(RowLock::NoHdr, Some(6)).is_empty());
}

#[test]
fn log_levels_are_picked_by_index() {
    for i in 0..LOG_LEVELS {
        assert_eq!(log_level_dropdown_current_index(log_level_at(i)), i);
    }
    assert_eq!(log_level_label(LogLevelOverride::Debug), "Debug");
}

#[test]
fn channels_go_up_to_the_ceiling() {
    let counts: Vec<u8> = channel_options_up_to(6).iter().map(|o| o.0).collect();
    assert_eq!(counts, vec![2, 6]);
    assert_eq!(channel_options_up_to(8).len(), 3);
    assert_eq!(channel_options_up_to(1).len(), 0);
    assert_eq!(audio_channel_options(&settings(), caps()).len(), 2);
    assert_ne!(audio_route_label(AudioRoutePref::Software), audio_route_label(AudioRoutePref::NdlOpus));
}

#[test]
fn a_profile_name_is_made_free() {
    let catalog = vec![profile("1", "Portal"), profile("2", "Portal 2")];
    assert_eq!(free_name(&catalog, "Doom"), "Doom");
    assert_eq!(free_name(&catalog, "Portal"), "Portal 3");
    assert_eq!(free_name(&catalog, "portal"), "portal");
}

#[test]
fn scrolling_stays_in_the_grid() {
    assert_eq!(scrolled(10, -40, 500), 0);
    assert_eq!(scrolled(480, 40, 500), 500);
    assert_eq!(scrolled(100, 40, 500), 140);
}

#[test]
fn an_empty_overlay_pins_nothing() {
    let o: SettingsOverlay = empty_overlay();
    assert_eq!(o.width, None);
    assert_eq!(o.bitrate_kbps, None);
}
