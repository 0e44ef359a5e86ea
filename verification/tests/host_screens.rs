//! The host's screens: its menu, power, wake, speed test and address.
use punktfunk_webos::addresses::FIXED_HOST_PORT;
use punktfunk_webos::app::App;
use punktfunk_webos::flags::Job;
use punktfunk_webos::grid::SectionMetrics;
use punktfunk_webos::home::GamesLoaded;
use punktfunk_webos::hostmenu::{host_menu_row, power_row_label, HostAction};
use punktfunk_webos::hostpower::probe_verdict;
use punktfunk_webos::jobs::{power_reply, rights_reply, rooted_reply, PowerDone, Reply};
use punktfunk_webos::menu::{PowerAccess, PowerRights};
use punktfunk_webos::model::{
    Artwork, AudioRoutePref, CodecPref, Collection, ExitAction, GameEntry, GamepadType, HdrDisplay, HomeFocus,
    KnownHost, LibraryError, LogLevelOverride, MenuEvent, Screen, Settings, StreamProfile, Target,
};
use punktfunk_webos::profiles::empty_overlay;
use punktfunk_webos::recents::Recents;
use punktfunk_webos::scroll::GridShape;
use punktfunk_webos::slots::{Effect, ProbeFailure, ProbeOutcome, ProbeVerdict, SpeedTestState};
use punktfunk_webos::speedtest::SpeedTestMsg;
use punktfunk_webos::startup::Loaded;
use punktfunk_webos::wake::{WAKE_PROBE_INTERVAL, WAKE_RETRY_INTERVAL, WAKE_UNSENT};

fn shape() -> GridShape {
    GridShape {
        columns: 4,
        metrics: SectionMetrics { heading_h: 40, gap: 20 },
        pitch: 300,
        card_h: 280,
        top: 100,
        bottom: 1000,
    }
}

fn settings() -> Settings {
    Settings {
        bitrate_kbps: 20_000,
        hdr_enabled: true,
        codec: CodecPref::Automatic,
        audio_route: AudioRoutePref::Software,
        gamepad_type: GamepadType::Auto,
        gamepad_ui: true,
        game_mode: false,
        show_logs: false,
        log_level: LogLevelOverride::Info,
        hdr_display: HdrDisplay { peak_nits: 800, frame_avg_nits: 400, black_code: 64 },
        hdr_calibrated: false,
    }
}

fn host(name: &str, addr: &str) -> KnownHost {
    KnownHost {
        name: name.to_string(),
        addr: addr.to_string(),
        port: 9777,
        mgmt_port: Some(47990),
        mac: vec!["aa:bb:cc:dd:ee:ff".to_string()],
        os: "linux".to_string(),
        pin: Some([7; 32]),
        wol_auto: false,
        exit_action: ExitAction::Nothing,
        profile_id: None,
        pinned_profiles: Vec::new(),
        game_profiles: Vec::new(),
        collections: vec![
            Collection { name: "Favourites".to_string(), dynamic: false, games: Vec::new() },
            Collection { name: "Library".to_string(), dynamic: true, games: Vec::new() },
        ],
    }
}

fn target(addr: &str) -> Target {
    Target { host: addr.to_string(), port: 9777 }
}

fn game(id: &str, title: &str) -> GameEntry {
    GameEntry {
        id: id.to_string(),
        title: title.to_string(),
        art: Artwork { portrait: None, header: None, hero: None },
        icon: None,
    }
}

fn app_of(hosts: Vec<KnownHost>, selected: Option<&str>) -> App {
    let mut app = App::new(
        Loaded {
            settings: settings(),
            known_hosts: hosts,
            selected_host: selected.map(target),
            profiles: Vec::new(),
            recents: Recents { entries: Vec::new() },
            log_level: LogLevelOverride::Info,
            new_build: false,
            marked_os: vec!["linux".to_string()],
        },
        1_000,
    );
    app.take_effects();
    app
}

/// Two paired hosts, the first one selected and its library listed.
fn app() -> App {
    let mut app = app_of(vec![host("Alpha", "10.0.0.2"), host("Beta", "10.0.0.3")], Some("10.0.0.2"));
    app.drain_games(
        GamesLoaded {
            at: target("10.0.0.2"),
            mgmt_port: 47990,
            result: Ok(vec![game("p", "Portal"), game("h", "Half-Life"), game("d", "Doom"), game("q", "Quake")]),
        },
        1_100,
    );
    app.take_effects();
    app
}

#[test]
fn a_job_that_died_is_settled() {
    assert_eq!(rooted_reply(Reply::Waiting), None);
    assert_eq!(rooted_reply(Reply::Came(true)), Some(true));
    assert_eq!(rooted_reply(Reply::Gone), Some(false));
    let rights = PowerRights { sleep: true, shutdown: false };
    assert!(rights_reply(Reply::Waiting).is_none());
    assert_eq!(rights_reply(Reply::Came(Ok(rights))), Some(Ok(rights)));
    assert_eq!(rights_reply(Reply::Gone), Some(Err(LibraryError::Unreachable)));
    let done = PowerDone { error: None, line: "Asked.".to_string() };
    assert!(power_reply(Reply::Waiting, "No answer.".to_string()).is_none());
    assert_eq!(power_reply(Reply::Came(done), "No answer.".to_string()).unwrap().line, "Asked.");
    let died = power_reply(Reply::Gone, "No answer.".to_string()).unwrap();
    assert_eq!((died.error, died.line.as_str()), (Some(LibraryError::Unreachable), "No answer."));
}

#[test]
fn a_paired_hosts_menu_offers_everything() {
    let mut app = app();
    app.open_host_menu(0);
    assert_eq!(
        app.host_menu_actions(),
        vec![
            HostAction::Connect,
            HostAction::Pair,
            HostAction::SpeedTest,
            HostAction::Power,
            HostAction::PowerSettings,
            HostAction::Edit,
            HostAction::Forget,
        ]
    );
    assert_eq!(app.host_menu_title(), "Alpha");
    assert_eq!(app.host_menu_subtitle(), "10.0.0.2:9777 · paired");
    assert_eq!(app.host_menu_host_name().as_deref(), Some("Alpha"));
    app.profiles.push(StreamProfile { id: "p1".to_string(), name: "Couch".to_string(), overrides: empty_overlay() });
    assert_eq!(app.host_menu_actions().len(), 10);
}

#[test]
fn an_unpaired_hosts_menu_says_that_connecting_pairs() {
    let mut h = host("Gamma", "10.0.0.4");
    h.pin = None;
    let mut app = app_of(vec![h], None);
    app.open_host_menu(0);
    assert!(!app.host_menu_paired());
    let rows = app.host_menu_rows();
    assert_eq!(rows[0].value, Some("pairs first"));
    assert_eq!(rows.len(), 5);
    assert!(rows[4].danger && rows[4].action == HostAction::Forget);
    assert_eq!(host_menu_row(HostAction::Connect, true, None).value, None);
}

#[test]
fn the_power_row_is_latched_when_the_menu_opens() {
    let mut app = app();
    app.open_host_menu(1);
    assert_eq!(app.screens.host_menu_power, None);
    assert_eq!(power_row_label(None), "Wake host");
    assert_eq!(power_row_label(Some(ExitAction::Sleep)), "Put to sleep");
    assert_eq!(power_row_label(Some(ExitAction::Shutdown)), "Shut down");
    app.note_reachable("10.0.0.3", 9777, true);
    assert_eq!(app.screens.host_menu_power, None);
    app.latch_host_menu_power();
    assert_eq!(app.host_menu_power_row(), Some(ExitAction::Shutdown));
}

#[test]
fn a_host_is_put_to_sleep_and_given_back_on_refusal() {
    let mut app = app();
    app.hosts.known[0].exit_action = ExitAction::Sleep;
    app.note_reachable("10.0.0.2", 9777, true);
    app.open_host_menu(0);
    app.nav.set_cursor(Screen::HostMenu, 3);
    app.handle_host_menu_event(MenuEvent::Confirm, 2_000);
    assert!(app.library.selected_host.is_none());
    assert_eq!(app.hosts.powered_down.as_ref().unwrap().host, "10.0.0.2");
    assert_eq!(app.hosts.online("10.0.0.2", 9777), Some(false));
    let effects = app.take_effects();
    assert!(matches!(&effects[0], Effect::PowerAction(p) if p.action == ExitAction::Sleep && p.addr == "10.0.0.2"));
    assert!(matches!(&effects[1], Effect::TellPending(ExitAction::Sleep, name) if name == "Alpha"));
    assert!(app.drain_power_action(Some(LibraryError::Http(403)), "Not allowed.".to_string(), 2_100));
    assert!(app.hosts.powered_down.is_none());
    assert_eq!(app.hosts.online("10.0.0.2", 9777), Some(true));
    assert_eq!(app.home_status.as_deref(), Some("Not allowed."));
    assert!(!app.drain_power_action(None, "late".to_string(), 2_200));
}

#[test]
fn a_powered_down_host_is_not_woken_by_itself() {
    let mut app = app();
    app.hosts.known[0].wol_auto = true;
    app.hosts.powered_down = Some(target("10.0.0.2"));
    app.start_wake("10.0.0.2".to_string(), 9777, vec!["aa".to_string()], "no answer".to_string(), 2_000);
    assert!(app.take_effects().is_empty());
    assert_eq!(app.nav.screen, Screen::Wake);
    app.wake_succeeded("10.0.0.2".to_string(), 9777, None, 2_100);
    assert!(app.hosts.powered_down.is_none());
}

#[test]
fn a_probe_that_fails_says_how() {
    assert_eq!(
        probe_verdict(Ok(PowerRights { sleep: true, shutdown: true })),
        ProbeVerdict::Rights(PowerRights { sleep: true, shutdown: true })
    );
    assert_eq!(probe_verdict(Err(LibraryError::Http(404))), ProbeVerdict::Failure(ProbeFailure::Unsupported));
    assert_eq!(probe_verdict(Err(LibraryError::Http(500))), ProbeVerdict::Failure(ProbeFailure::Unreachable));
    assert_eq!(probe_verdict(Err(LibraryError::Unreachable)), ProbeVerdict::Failure(ProbeFailure::Unreachable));
}

#[test]
fn power_settings_unlock_with_the_hosts_answer() {
    let mut app = app();
    app.open_host_menu(0);
    app.open_host_power();
    assert!(matches!(&app.take_effects()[..], [Effect::ProbePower(p)] if p.addr == "10.0.0.2"));
    assert_eq!(app.power_access(), PowerAccess::Unknown);
    app.nav.set_cursor(Screen::HostPower, 1);
    app.handle_host_power_event(MenuEvent::Right, 2_000);
    assert_eq!(app.host_power_exit_action(), ExitAction::Nothing);
    assert!(app.drain_power_access(Ok(PowerRights { sleep: true, shutdown: false })));
    assert_eq!(app.host_power_view(), (false, ExitAction::Nothing, PowerAccess::Rights(PowerRights { sleep: true, shutdown: false })));
    app.handle_host_power_event(MenuEvent::Right, 2_000);
    assert_ne!(app.host_power_exit_action(), ExitAction::Nothing);
    app.handle_host_power_event(MenuEvent::Left, 2_000);
    assert_eq!(app.host_power_exit_action(), ExitAction::Nothing);
    app.nav.set_cursor(Screen::HostPower, 0);
    app.handle_host_power_event(MenuEvent::Confirm, 2_100);
    assert!(app.hosts.known[0].wol_auto);
    assert_eq!(app.switch_anim.unwrap().was_on, false);
    app.handle_host_power_event(MenuEvent::Back, 2_200);
    assert_eq!(app.nav.screen, Screen::HostMenu);
}

#[test]
fn an_answer_for_another_host_is_not_shown() {
    let mut app = app();
    app.open_host_menu(0);
    app.open_host_power();
    app.screens.host_menu_index = Some(1);
    assert!(app.drain_power_access(Ok(PowerRights { sleep: true, shutdown: true })));
    assert_eq!(app.power_access(), PowerAccess::Unknown);
    assert_eq!(app.hosts.online("10.0.0.2", 9777), Some(true));
    assert!(!app.drain_power_access(Err(LibraryError::Unreachable)));
}

#[test]
fn a_prompted_wake_sends_and_waits() {
    let mut app = app();
    app.start_wake("10.0.0.2".to_string(), 9777, vec!["aa".to_string()], "Alpha did not answer.".to_string(), 1_000);
    app.handle_wake_event(MenuEvent::Right, 1_100);
    assert_eq!(app.screens.wake.as_ref().unwrap().focused, 1);
    app.handle_wake_event(MenuEvent::Left, 1_200);
    app.handle_wake_event(MenuEvent::Confirm, 1_300);
    assert!(matches!(&app.take_effects()[..], [Effect::WakePacket(mac, _, name)] if mac.len() == 1 && name == "Alpha"));
    app.wake_packet(true, 1_400);
    assert_eq!(app.nav.screen, Screen::Home);
    assert!(app.wake_wait_in_flight());
    assert_eq!(
        app.home_status.as_deref(),
        Some("Wake signal sent to Alpha — waiting for it to come back online…")
    );
    assert!(!app.grid.revealed);
}

#[test]
fn a_wake_is_resent_and_the_host_probed() {
    let mut app = app();
    app.hosts.known[0].wol_auto = true;
    app.start_wake("10.0.0.2".to_string(), 9777, vec!["aa".to_string()], "no answer".to_string(), 1_000);
    assert!(matches!(&app.take_effects()[..], [Effect::WakePacket(..)]));
    assert_ne!(app.nav.screen, Screen::Wake);
    app.wake_packet(true, 1_000);
    assert_eq!(app.screens.wake.as_ref().unwrap().home_status(), app.home_status.clone().unwrap());
    app.tick_wake(None, 1_000 + WAKE_PROBE_INTERVAL - 1);
    assert!(app.take_effects().is_empty());
    app.tick_wake(None, 1_000 + WAKE_PROBE_INTERVAL);
    assert!(matches!(&app.take_effects()[..], [Effect::ProbeGames(_)]));
    app.tick_wake(Some((target("10.0.0.2"), Some(LibraryError::Unreachable))), 12_000);
    assert!(app.take_effects().is_empty());
    app.tick_wake(None, 1_000 + WAKE_RETRY_INTERVAL);
    let effects = app.take_effects();
    assert!(effects.iter().any(|e| matches!(e, Effect::WakePacket(..))));
    app.wake_packet(true, 61_500);
    assert_eq!(app.nav.screen, Screen::Wake);
    assert_eq!(
        app.home_status.as_deref(),
        Some("Wake signal re-sent to Alpha (2 attempts) — still waiting for it to come back online…")
    );
    assert!(app.tick_wake(Some((target("10.0.0.2"), None)), 62_000));
    assert!(app.screens.wake.is_none());
    assert_eq!(app.nav.screen, Screen::Home);
}

#[test]
fn an_unsent_wake_is_dropped_with_its_prompt() {
    let mut app = app();
    app.start_wake("10.0.0.2".to_string(), 9777, vec!["aa".to_string()], "no answer".to_string(), 1_000);
    app.handle_wake_event(MenuEvent::Confirm, 1_300);
    app.take_effects();
    app.wake_packet(false, 1_400);
    assert_eq!(app.screens.wake.as_ref().unwrap().reason, WAKE_UNSENT);
    app.handle_wake_event(MenuEvent::Back, 1_500);
    assert!(app.screens.wake.is_none());
    assert_eq!(app.home_status.as_deref(), Some(WAKE_UNSENT));
}

#[test]
fn a_host_without_an_address_gets_no_packet() {
    let mut app = app();
    app.start_wake("10.0.0.2".to_string(), 9777, Vec::new(), "no answer".to_string(), 1_000);
    app.handle_wake_event(MenuEvent::Confirm, 1_300);
    assert!(app.take_effects().is_empty());
    assert_eq!(app.nav.screen, Screen::Wake);
}

#[test]
fn a_speed_test_is_measured_and_applied() {
    let mut app = app();
    app.open_host_menu(0);
    app.open_speed_test(0);
    assert!(matches!(&app.take_effects()[..], [Effect::StartSpeedTest(t, Some(_))] if t.host == "10.0.0.2"));
    let at = |kbps: u32| ProbeOutcome { throughput_kbps: kbps, recv_bytes: 1, elapsed_ms: 1 };
    assert!(app.drain_speed_test(vec![SpeedTestMsg::Progress(at(50_000))]));
    assert!(matches!(app.screens.speed_test, Some(SpeedTestState::Measuring { partial: Some(_) })));
    app.handle_speed_test_event(MenuEvent::Confirm, 2_000);
    assert_eq!(app.settings.bitrate_kbps, 20_000);
    assert!(app.drain_speed_test(vec![SpeedTestMsg::Done { outcome: at(100_000), confirmed: true }]));
    assert!(!app.jobs.has(Job::SpeedTest));
    app.handle_speed_test_event(MenuEvent::Confirm, 2_100);
    assert_eq!(app.settings.bitrate_kbps, 70_000);
    assert!(matches!(&app.take_effects()[..], [Effect::Save(p)] if p.settings.bitrate_kbps == 70_000));
    assert_eq!(app.nav.screen, Screen::HostMenu);
    assert!(!app.drain_speed_test(vec![SpeedTestMsg::Progress(at(1))]));
    assert!(app.screens.speed_test.is_none());
}

#[test]
fn a_failed_speed_test_is_tried_again() {
    let mut app = app();
    app.open_host_menu(0);
    app.open_speed_test(0);
    app.take_effects();
    assert!(app.drain_speed_test(vec![SpeedTestMsg::Failed("refused".to_string())]));
    app.handle_speed_test_event(MenuEvent::Confirm, 2_000);
    assert!(matches!(&app.take_effects()[..], [Effect::StartSpeedTest(..)]));
    app.close_speed_test();
    assert!(!app.jobs.has(Job::SpeedTest));
}

#[test]
fn a_typed_host_is_saved_and_focused() {
    let mut app = app();
    app.open_add_host();
    app.set_address("10.0.0.77".to_string());
    app.handle_add_host_event(MenuEvent::Left, None, 2_000);
    assert_eq!(app.screens.add_host, "10.0.0.7");
    app.handle_add_host_event(MenuEvent::Confirm, None, 2_000);
    assert_eq!(app.nav.screen, Screen::AddHost);
    app.confirm_add_host(Some(Target { host: "10.0.0.7".to_string(), port: 1234 }), 2_000);
    assert_eq!(app.hosts.known[2].name, "10.0.0.7:1234");
    assert_eq!(app.home_focus, HomeFocus::Sidebar(2));
    assert_eq!(app.nav.screen, Screen::Home);
    app.confirm_add_host(Some(Target { host: "10.0.0.2".to_string(), port: FIXED_HOST_PORT }), 2_000);
    assert_eq!(app.hosts.known.len(), 3);
    assert_eq!(app.hosts.known[0].name, "Alpha");
    assert_eq!(app.home_focus, HomeFocus::Sidebar(0));
}

#[test]
fn a_host_keeps_its_record_under_a_new_address() {
    let mut app = app();
    app.open_host_menu(0);
    app.open_edit_host(0);
    assert_eq!(app.screens.add_host, "10.0.0.2");
    app.handle_edit_host_event(MenuEvent::Confirm, Some(Target { host: "10.0.0.20".to_string(), port: 9777 }), 2_000);
    let h = app.hosts.known.iter().find(|h| h.addr == "10.0.0.20").unwrap();
    assert_eq!((h.name.as_str(), h.pin), ("Alpha", Some([7; 32])));
    assert_eq!(app.library.selected_host.as_ref().unwrap().host, "10.0.0.20");
    assert_eq!(app.hosts.known.len(), 2);
    assert_eq!(app.nav.screen, Screen::HostMenu);
    assert_eq!(app.host_menu_title(), "Alpha");
    assert!(app.take_effects().iter().any(|e| matches!(e, Effect::ReconcileCaches)));
}

#[test]
fn forgetting_asks_first() {
    let mut app = app();
    app.open_host_menu(1);
    app.nav.set_cursor(Screen::HostMenu, 6);
    app.confirm_host_menu_row(2_000);
    assert_eq!(app.nav.screen, Screen::ForgetHost);
    app.handle_forget_event(MenuEvent::Confirm, 2_000);
    assert_eq!((app.nav.screen, app.hosts.known.len()), (Screen::HostMenu, 2));
    app.confirm_host_menu_row(2_000);
    app.handle_forget_event(MenuEvent::Left, 2_000);
    app.handle_forget_event(MenuEvent::Confirm, 2_000);
    assert_eq!((app.nav.screen, app.hosts.known.len()), (Screen::Home, 1));
}

#[test]
fn logs_go_to_a_paired_host() {
    let mut app = app();
    app.open_host_menu(0);
    app.send_logs_to_host(0, 2_000);
    assert!(matches!(&app.take_effects()[..], [Effect::SendLogs(e, name)] if e.at.host == "10.0.0.2" && name == "Alpha"));
    assert_eq!(app.home_status.as_deref(), Some("Sending logs to Alpha…"));
    assert!(app.drain_send_logs(Some("Logs sent.".to_string()), 2_100));
    assert_eq!(app.home_status.as_deref(), Some("Logs sent."));
    assert!(!app.drain_send_logs(Some("again".to_string()), 2_200));
}
