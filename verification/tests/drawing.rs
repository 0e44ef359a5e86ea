//! What is on screen: frames, the card window, cards and dialogs, the pointer, and what is redrawn.
use punktfunk_webos::app::{App, HOME_STATUS_LIFETIME, LIBRARY_STATUS_DELAY};
use punktfunk_webos::cardmenu::CardMenuRow;
use punktfunk_webos::cards::{
    is_list, ported, title_of, ActLabel, Body, CardKind, FormHint, FormKind, Mark, Message, Title, Tone,
};
use punktfunk_webos::drawcache::{CoverCache, CoverKey, CurrentPalette, ShaderCache};
use punktfunk_webos::flags::{Flag, Job};
use punktfunk_webos::frame::{ArtLoaded, Motions, Pace};
use punktfunk_webos::grid::SectionMetrics;
use punktfunk_webos::gridprep::{RevealStep, Window};
use punktfunk_webos::home::GamesLoaded;
use punktfunk_webos::homeview::{
    card_mark, face_of, poster_of, status_lines, CardMark, HomeBody, Poster, SidebarMark, Slots, PAIR_BUTTON_CAPTION, PAIR_PIN_CAPTION,
    PAIR_SUBTITLE, PAIR_TITLE, REQUEST_LABEL,
};
use punktfunk_webos::jobs::{HostJobs, LibraryJobs, Running};
use punktfunk_webos::listcards::{action_icon, Control, Heading, RowIcon};
use punktfunk_webos::hostmenu::HostAction;
use punktfunk_webos::model::{
    Artwork, AudioRoutePref, CodecPref, Collection, ExitAction, GameEntry, GamepadType, HdrDisplay, HomeFocus,
    KnownHost, LogLevelOverride, MenuEvent, PairingFocus, Screen, Settings, StreamProfile, Target, DESKTOP_PIN_ID,
};
use punktfunk_webos::pointer::{on_track, Click, Hit, HoverChange, Pointer, Rect, RowStack};
use punktfunk_webos::profiles::{empty_overlay, NEEDS_A_NAME};
use punktfunk_webos::recents::Recents;
use punktfunk_webos::scroll::GridShape;
use punktfunk_webos::settingspage::PageRow;
use punktfunk_webos::slots::{Effect, KitRow, Page, ProbeOutcome, ProfilePick, RowButton, Scope, SpeedTestState};
use punktfunk_webos::speedtest::SpeedTestMsg;
use punktfunk_webos::startup::Loaded;
use punktfunk_webos::tiles::{
    is_scroll_list, keeps_list_rows, rows_to_draw, rows_to_drop, snapshot_closing_modal, ContentWindow, FocusStep,
    IndicatorKey, ScrollContext, SidebarKey, SidebarPlan, SnapshotStep,
};

fn shape() -> GridShape {
    GridShape {
        columns: 4,
        metrics: SectionMetrics { heading_h: 40, gap: 20 },
        pitch: 300,
        card_h: 280,
        top: 100,
        bottom: 1000,
    }
}

fn settings() -> Settings {
    Settings {
        bitrate_kbps: 20_000,
        hdr_enabled: true,
        codec: CodecPref::Automatic,
        audio_route: AudioRoutePref::Software,
        gamepad_type: GamepadType::Auto,
        gamepad_ui: true,
        game_mode: false,
        show_logs: false,
        log_level: LogLevelOverride::Info,
        hdr_display: HdrDisplay { peak_nits: 800, frame_avg_nits: 400, black_code: 64 },
        hdr_calibrated: false,
    }
}

fn host(name: &str, addr: &str) -> KnownHost {
    KnownHost {
        name: name.to_string(),
        addr: addr.to_string(),
        port: 9777,
        mgmt_port: Some(47990),
        mac: vec!["aa:bb:cc:dd:ee:ff".to_string()],
        os: "linux".to_string(),
        pin: Some([7; 32]),
        wol_auto: false,
        exit_action: ExitAction::Nothing,
        profile_id: None,
        pinned_profiles: Vec::new(),
        game_profiles: Vec::new(),
        collections: vec![
            Collection { name: "Favourites".to_string(), dynamic: false, games: Vec::new() },
            Collection { name: "Library".to_string(), dynamic: true, games: Vec::new() },
        ],
    }
}

fn target(addr: &str) -> Target {
    Target { host: addr.to_string(), port: 9777 }
}

fn game(id: &str, title: &str) -> GameEntry {
    GameEntry {
        id: id.to_string(),
        title: title.to_string(),
        art: Artwork { portrait: None, header: None, hero: None },
        icon: None,
    }
}

fn app_of(hosts: Vec<KnownHost>, selected: Option<&str>) -> App {
    let mut app = App::new(
        Loaded {
            settings: settings(),
            known_hosts: hosts,
            selected_host: selected.map(target),
            profiles: Vec::new(),
            recents: Recents { entries: Vec::new() },
            log_level: LogLevelOverride::Info,
            new_build: false,
            marked_os: vec!["linux".to_string()],
        },
        1_000,
    );
    app.take_effects();
    app
}

/// Two paired hosts, the first one selected and its library listed.
fn app() -> App {
    let mut app = app_of(vec![host("Alpha", "10.0.0.2"), host("Beta", "10.0.0.3")], Some("10.0.0.2"));
    app.drain_games(
        GamesLoaded {
            at: target("10.0.0.2"),
            mgmt_port: 47990,
            result: Ok(vec![game("p", "Portal"), game("h", "Half-Life"), game("d", "Doom"), game("q", "Quake")]),
        },
        1_100,
    );
    app.take_effects();
    app
}

fn pace() -> Pace {
    Pace { card_focus_pop: 200, focus_pop: 150, launch_fade: 400, card_menu_rise: 250, overlay_fade: 300 }
}

fn still() -> Motions {
    Motions {
        scroll: 0,
        scrolling: false,
        fading: false,
        hero_showing: false,
        dissolving: false,
        easing: false,
        mark_entering: false,
    }
}

fn at(hit: Hit) -> Pointer {
    Pointer { hit, close: None, on_track: false, luminance: 0, bitrate: 0 }
}

#[test]
fn an_idle_menu_owes_no_frame() {
    let mut app = app();
    app.set_home_status(None, false, 2_000);
    app.focus_anim = None;
    assert!(!app.tick_animations(still(), pace(), 3_000));
    app.set_home_focus(HomeFocus::Grid(1), 3_000);
    assert!(app.tick_animations(still(), pace(), 3_199));
    // The frame on which a clock runs out is still owed.
    assert!(app.tick_animations(still(), pace(), 3_200));
    assert!(!app.tick_animations(still(), pace(), 3_201));
    let mut moving = still();
    moving.scrolling = true;
    moving.scroll = 12;
    assert!(app.tick_animations(moving, pace(), 3_300));
    assert_eq!(app.grid.scroll, 12);
}

#[test]
fn a_status_line_fades_after_its_time() {
    let mut app = app();
    app.focus_anim = None;
    app.set_home_status(Some("hello".to_string()), false, 2_000);
    assert!(!app.tick_animations(still(), pace(), 2_000 + HOME_STATUS_LIFETIME - 1));
    assert!(app.tick_animations(still(), pace(), 2_000 + HOME_STATUS_LIFETIME));
    assert!(app.home_status.is_some());
    app.tick_animations(still(), pace(), 2_000 + HOME_STATUS_LIFETIME + 300);
    assert_eq!(app.home_status, None);
}

#[test]
fn a_late_line_is_dropped_once_the_library_is_here() {
    let mut app = app_of(vec![host("Alpha", "10.0.0.2")], Some("10.0.0.2"));
    app.tick_animations(still(), pace(), 1_000 + LIBRARY_STATUS_DELAY - 1);
    assert_eq!(app.home_status, None);
    app.tick_animations(still(), pace(), 1_000 + LIBRARY_STATUS_DELAY);
    assert_eq!(app.home_status.as_deref(), Some("Loading library from Alpha…"));
    let mut done = app_of(vec![host("Alpha", "10.0.0.2")], Some("10.0.0.2"));
    done.jobs.stop(Job::Games);
    done.tick_animations(still(), pace(), 9_000);
    assert_eq!(done.home_status, None);
    assert!(done.library_status_due.is_none());
}

#[test]
fn a_left_modal_fades_out() {
    let mut app = app();
    app.open_host_menu(0);
    let turn = app.advance_frame((240, 360));
    assert!(turn.changed && turn.closing.is_none() && turn.opening == Some(Screen::HostMenu) && !turn.crossing);
    assert_eq!(app.grid.card_size, (240, 360));
    assert!(!app.advance_frame((240, 360)).changed);
    app.open_speed_test(0);
    let turn = app.advance_frame((240, 360));
    assert!(turn.crossing && turn.closing == Some(Screen::HostMenu) && turn.opening == Some(Screen::SpeedTest));
    assert_eq!(app.tick_step(16, 5_000), 16);
    assert_eq!(app.tick_step(16, 5_020), 20);
}

#[test]
fn screens_are_ticked_together() {
    let mut app = app();
    app.open_hdr_calibration();
    app.take_effects();
    assert!(app.tick_screens(None, true, false, 2_000));
    assert!(app.screens.hdr.unwrap().seen_presenting);
    assert!(app.over_video_layers(false) && app.video_underlay(false));
    app.nav.resume(Screen::Home);
    assert!(!app.over_video_layers(false) && app.over_video_layers(true));
}

#[test]
fn art_is_taken_while_it_is_waited_for() {
    let mut app = app();
    assert!(app.jobs.has(Job::Art));
    assert!(app.drain_art(vec![
        ArtLoaded::Card("p".to_string()),
        ArtLoaded::Hero { game_id: "d".to_string(), accepted: false },
        ArtLoaded::Hero { game_id: "h".to_string(), accepted: true },
    ]));
    assert_eq!(app.library.art, vec!["p"]);
    assert_eq!(app.grid.cards_dirty, vec!["p"]);
    assert!(matches!(&app.take_effects()[..], [Effect::ForgetHero(id)] if id == "d"));
    assert!(!app.drain_art(Vec::new()));
    app.jobs.stop(Job::Art);
    assert!(!app.drain_art(vec![ArtLoaded::Card("q".to_string())]));
    assert_eq!(app.library.art, vec!["p"]);
}

#[test]
fn the_window_of_cards_is_built_and_kept() {
    let mut app = app();
    app.grid.dirty = false;
    app.grid.revealed = true;
    app.library.art = vec!["p".to_string()];
    app.build_card_window(Window { from: 0, to: 4 }, &Vec::new(), shape(), 2_000);
    let effects = app.take_effects();
    assert_eq!(effects.iter().filter(|e| matches!(e, Effect::RequestArt(_))).count(), 4);
    assert!(matches!(&effects[..], [.., Effect::BuildCover(id)] if id == "p"));
    assert_eq!(app.grid.arrivals.ids().len(), 4);
    assert!(app.grid.card_pops_running(2_100) && !app.grid.card_pops_running(2_300));
    app.evict_cards_outside(Window { from: 0, to: 2 }, shape());
    assert_eq!(app.grid.arrivals.ids().len(), 2);
    assert!(app.library.art.is_empty());
    assert_eq!(app.take_effects().iter().filter(|e| matches!(e, Effect::DropCover(_))).count(), 2);
    app.evict_cards_outside(Window { from: 0, to: 2 }, shape());
    assert!(app.take_effects().is_empty());
}

#[test]
fn a_stale_grid_starts_over() {
    let mut app = app();
    app.grid.dirty = true;
    app.release_stale_cards();
    assert!(!app.grid.dirty && !app.grid.revealed);
    assert!(matches!(&app.take_effects()[..], [Effect::StaleCovers]));
    app.grid.cards_dirty = vec!["p".to_string()];
    app.release_stale_cards();
    assert!(matches!(&app.take_effects()[..], [Effect::StaleCover(id)] if id == "p"));
    assert!(app.grid.cards_dirty.is_empty());
}

#[test]
fn the_grid_waits_for_its_art() {
    let mut app = app();
    app.grid.revealed = false;
    let page = Window { from: 0, to: 5 };
    assert_eq!(app.reveal_step(page, shape()), Some(RevealStep { fetching: false, art_pending: false }));
    app.library.games[3].art.portrait = Some("cover".to_string());
    assert_eq!(app.reveal_step(page, shape()), Some(RevealStep { fetching: false, art_pending: true }));
    app.library.art = vec!["p".to_string()];
    assert_eq!(app.reveal_step(page, shape()), Some(RevealStep { fetching: false, art_pending: false }));
    app.set_revealed(true);
    assert_eq!(app.reveal_step(page, shape()), None);
}

#[test]
fn a_frozen_grid_prepares_nothing() {
    let mut app = app();
    app.grid.dirty = false;
    app.grid.revealed = true;
    app.open_host_menu(0);
    assert!(app.grid_window_frozen());
    let w = Window { from: 0, to: 5 };
    assert_eq!(app.prepare_grid(w, w, w, &Vec::new(), shape(), 2_000), None);
    assert!(app.take_effects().is_empty());
    app.nav.resume(Screen::Home);
    app.set_home_focus(HomeFocus::Grid(3), 2_000);
    app.prefetch_focused_hero(shape());
    assert!(matches!(&app.take_effects()[..], [Effect::WantHero(id)] if id == "p"));
}

#[test]
fn dialogs_are_titled() {
    assert_eq!(title_of(Screen::ResetHdrCalibration), Some(Title::ClearHdr));
    assert_eq!(title_of(Screen::SpeedTest), Some(Title::SpeedTest));
    assert_eq!(title_of(Screen::Wake), Some(Title::Words("Wake this host?")));
    assert_eq!(title_of(Screen::Pairing), None);
    assert_eq!(title_of(Screen::Home), None);
    assert_eq!(Message::Unreachable.title(), Title::Words("Host unreachable"));
    assert_eq!(Message::SpeedTest { failed: true }.title(), Title::SpeedTest);
}

#[test]
fn buttons_and_cards_say_what_they_do() {
    let said: Vec<_> = [
        ActLabel::Forget,
        ActLabel::Remove,
        ActLabel::Clear,
        ActLabel::Delete,
        ActLabel::Send,
        ActLabel::WakeHost,
        ActLabel::Apply(Some(1)),
    ]
    .iter()
    .map(|l| l.words())
    .collect();
    assert_eq!(
        said,
        vec![
            Some("Forget"),
            Some("Remove"),
            Some("Clear"),
            Some("Delete"),
            Some("Send"),
            Some("Wake host"),
            None
        ]
    );
    let rows: Vec<_> = [CardMenuRow::MoveTo, CardMenuRow::Remove, CardMenuRow::Profile, CardMenuRow::Settings]
        .iter()
        .map(|r| (r.icon(), r.label()))
        .collect();
    assert_eq!(
        rows,
        vec![
            ("pin", None),
            ("trash-2", Some("Remove")),
            ("wrench", Some("Profile")),
            ("settings", Some("Settings"))
        ]
    );
    assert_eq!((PAIR_TITLE, REQUEST_LABEL), ("Pair with host", "Request access"));
    assert_eq!(PAIR_SUBTITLE, "Two ways to pair with this host — either one works.");
    assert_eq!(PAIR_BUTTON_CAPTION, "Then approve this TV on the host.");
    assert_eq!(PAIR_PIN_CAPTION, "Enter the PIN shown on the host.");
    assert_eq!(HomeBody::NoHost.line(), Some("No host selected — pick one from the list, or add one."));
    assert_eq!(HomeBody::Grid.line(), None);
}

#[test]
fn what_came_in_is_applied_in_one_tick() {
    let mut app = app();
    let quiet = || LibraryJobs { found: Vec::new(), art: Vec::new(), games: None, running: None };
    assert!(!app.drain_library_jobs(quiet(), false, 2_000));
    app.tick_running(2_000);
    let running = Running { at: target("10.0.0.2"), ids: vec!["p".to_string()] };
    assert!(app.drain_library_jobs(LibraryJobs { running: Some(running), ..quiet() }, false, 2_000));
    let none = || HostJobs {
        rooted: None,
        rights: None,
        power: None,
        speed: Vec::new(),
        logs: None,
        reach: Vec::new(),
        swept: false,
    };
    assert!(!app.drain_host_jobs(none(), 2_100));
    assert!(!app.drain_host_jobs(HostJobs { rooted: Some(true), ..none() }, 2_100));
    assert_eq!(app.hosts.rooted, None);
    app.open_settings_page();
    app.show_page(Page::Display, 2_200);
    app.drain_library_jobs(quiet(), false, 2_300);
    assert!(app.drain_host_jobs(HostJobs { rooted: Some(true), ..none() }, 2_400));
    assert_eq!(app.hosts.rooted, Some(true));
}

#[test]
fn losses_are_asked_about_in_red() {
    let mut app = app();
    app.open_host_menu(0);
    let c = app.confirm_for(Screen::ForgetHost).unwrap();
    assert!(matches!(&c.body, Body::ForgetHost(name) if name == "Alpha"));
    assert_eq!((c.mark, c.label, c.tone, c.cancel), (Mark::Delete, ActLabel::Forget, Tone::Danger, "Cancel"));
    app.start_wake("10.0.0.2".to_string(), 9777, vec!["aa".to_string()], "no answer".to_string(), 2_000);
    let c = app.confirm_for(Screen::Wake).unwrap();
    assert_eq!((c.label, c.tone), (ActLabel::WakeHost, Tone::Primary));
    app.screens.wake.as_mut().unwrap().mac.clear();
    assert!(app.confirm_for(Screen::Wake).is_none());
    assert_eq!(app.message_card(Screen::Wake), Some(Message::Unreachable));
    assert!(app.confirm_for(Screen::Home).is_none());
}

#[test]
fn a_finished_test_offers_its_bitrate() {
    let mut app = app();
    app.open_host_menu(0);
    app.open_speed_test(0);
    assert!(app.confirm_for(Screen::SpeedTest).is_none());
    assert_eq!(app.message_card(Screen::SpeedTest), Some(Message::SpeedTest { failed: false }));
    assert_eq!(app.card_kind(Screen::SpeedTest, false), CardKind::Message);
    let outcome = ProbeOutcome { throughput_kbps: 100_000, recv_bytes: 1, elapsed_ms: 1 };
    app.drain_speed_test(vec![SpeedTestMsg::Done { outcome, confirmed: true }]);
    let c = app.confirm_for(Screen::SpeedTest).unwrap();
    assert_eq!((c.label, c.cancel, c.failed), (ActLabel::Apply(Some(70_000)), "Close", false));
    assert_eq!(app.card_kind(Screen::SpeedTest, false), CardKind::Dialog);
    app.screens.speed_test = Some(SpeedTestState::Failed("x".to_string()));
    assert!(app.confirm_for(Screen::SpeedTest).unwrap().failed);
}

#[test]
fn a_form_shows_what_is_typed() {
    let mut app = app();
    assert!(app.text_form().is_none());
    app.open_add_host();
    app.set_address("10.0".to_string());
    let f = app.text_form().unwrap();
    assert!(matches!(f.kind, FormKind::AddHost) && f.typed == "10.0" && f.hint.is_none());
    assert_eq!(app.card_kind(Screen::AddHost, false), CardKind::Form);
    app.new_profile("a".to_string());
    app.screens.profile_name.clear();
    assert!(matches!(app.text_form().unwrap().hint, Some(FormHint::Profile(w)) if w == NEEDS_A_NAME));
    assert!(matches!(app.screens.settings_page.scope, Scope::Profile(_)));
    assert_eq!(app.card_kind(Screen::About, false), CardKind::Document);
    assert_eq!(app.card_kind(Screen::HostMenu, true), CardKind::Rows);
    assert_eq!(app.card_kind(Screen::HostMenu, false), CardKind::Nothing);
    assert!(ported(Screen::About) && !ported(Screen::Home));
    assert!(is_list(Screen::HostPower) && !is_list(Screen::About));
}

#[test]
fn list_cards_draw_every_row() {
    let mut app = app();
    app.open_host_menu(0);
    let card = app.list_card(Screen::HostMenu, "").unwrap();
    assert_eq!(card.rows.len(), app.list_modal_row_count());
    assert!(matches!(&card.heading, Heading::Host { name, address } if name == "Alpha" && address == "10.0.0.2:9777 · paired"));
    assert_eq!(card.rows[0].icon, Some(RowIcon::Tv));
    assert_eq!(action_icon(HostAction::Forget), RowIcon::Delete);
    assert!(card.rows[6].danger);
    app.open_host_power();
    let card = app.list_card(Screen::HostPower, "").unwrap();
    assert_eq!(card.rows[0].control, Control::Toggle(false));
    assert_eq!(card.rows[1].value.as_deref(), Some("None"));
    assert!(!card.rows[1].enabled && !card.rows[1].adjustable);
    app.open_collections("p", "Portal");
    let card = app.list_card(Screen::Collections, "").unwrap();
    assert_eq!(card.rows.len(), 3);
    assert!(card.rows[1].marked && !card.rows[0].marked);
    assert_eq!((card.rows[0].buttons, card.rows[1].buttons), (2, 1));
    assert_eq!((card.rows[0].handle, card.rows[2].handle), (Some(false), None));
    app.open_hdr_calibration();
    let card = app.list_card(Screen::HdrCalibration, "800 nits").unwrap();
    assert_eq!((card.rows[0].control, card.rows[0].value.as_deref()), (Control::Slider, Some("800 nits")));
    assert!(app.list_card(Screen::Home, "").is_none());
    assert!(app.list_reacts(MenuEvent::Left) && !app.list_reacts(MenuEvent::Back));
}

#[test]
fn a_point_is_in_one_row() {
    let content = Rect { x: 100, y: 200, w: 400, h: 300 };
    assert!(content.contains_point(100, 200) && !content.contains_point(500, 200));
    assert_eq!((content.right(), content.bottom()), (500, 500));
    let stack = RowStack { content, rows: 5, stride: 70, row_h: 60, scroll: 0 };
    assert_eq!(stack.row_at(150, 200), Some(0));
    assert_eq!(stack.row_at(150, 262), None);
    assert_eq!(stack.row_at(150, 275), Some(1));
    assert_eq!(stack.row_at(50, 275), None);
    let scrolled = RowStack { scroll: 70, ..stack };
    assert_eq!(scrolled.row_at(150, 200), Some(1));
    let track = Rect { x: 200, y: 230, w: 200, h: 4 };
    let row = Rect { x: 100, y: 200, w: 400, h: 60 };
    assert!(on_track(250, 210, track, row));
    assert!(!on_track(150, 210, track, row) && !on_track(250, 270, track, row));
}

#[test]
fn hovering_focuses_what_is_under_the_pointer() {
    let mut app = app();
    assert!(app.handle_mouse_motion(at(Hit::Slot(3)), shape(), 2_000));
    assert_eq!(app.home_focus, HomeFocus::Grid(3));
    assert!(!app.handle_mouse_motion(at(Hit::Slot(3)), shape(), 2_100));
    assert!(!app.handle_mouse_motion(at(Hit::Slot(7)), shape(), 2_100));
    assert_eq!(app.home_focus, HomeFocus::Grid(3));
    let change = app.hover_focus_at(Hit::MenuButton(1), shape(), 2_200);
    assert_eq!(change, HoverChange { any: true, row: true });
    assert_eq!(app.home_focus, HomeFocus::SidebarMenu(1));
    assert_eq!(HoverChange::split(false, true), HoverChange { any: true, row: false });
    assert_eq!(HoverChange::row(true), HoverChange { any: true, row: true });
}

#[test]
fn clicking_presses_what_is_under_the_pointer() {
    let mut app = app();
    assert_eq!(app.handle_mouse_click(at(Hit::Slot(3)), &Vec::new(), shape(), 2_000), Click::Press);
    assert_eq!(app.handle_mouse_click(at(Hit::Nothing), &Vec::new(), shape(), 2_000), Click::Spent);
    assert_eq!(app.handle_mouse_click(at(Hit::MenuButton(0)), &Vec::new(), shape(), 2_000), Click::Spent);
    assert_eq!(app.nav.screen, Screen::HostMenu);
    assert_eq!(app.handle_mouse_click(at(Hit::Row(2, None)), &Vec::new(), shape(), 2_000), Click::Press);
    assert_eq!(app.nav.cursor(Screen::HostMenu), 2);
    let close = Pointer { hit: Hit::Nothing, close: Some(true), on_track: false, luminance: 0, bitrate: 0 };
    assert_eq!(app.handle_mouse_click(close, &Vec::new(), shape(), 2_000), Click::Back);
    assert!(app.flags.has(Flag::HoverClose));
    assert!(app.set_hover_close(false) && !app.set_hover_close(false));
}

#[test]
fn a_slider_is_dragged_until_it_is_let_go() {
    let mut app = app();
    app.open_hdr_calibration();
    let track = Pointer { hit: Hit::Row(0, None), close: None, on_track: true, luminance: 600, bitrate: 0 };
    assert_eq!(app.handle_mouse_click(track, &Vec::new(), shape(), 2_000), Click::Spent);
    assert_eq!(app.screens.hdr.unwrap().display.peak_nits, 600);
    let away = Pointer { hit: Hit::Nothing, close: None, on_track: false, luminance: 650, bitrate: 0 };
    assert!(app.handle_mouse_motion(away, shape(), 2_000));
    assert_eq!(app.screens.hdr.unwrap().display.peak_nits, 650);
    app.end_slider_drag();
    assert!(!app.handle_mouse_motion(away, shape(), 2_000));
    assert_eq!(
        app.handle_mouse_click(at(Hit::Row(0, Some(RowButton::Trailing(0)))), &Vec::new(), shape(), 2_000),
        Click::Press
    );
}

fn bitrate_page(app: &mut App) -> (Vec<KitRow>, usize) {
    app.open_settings_page();
    app.show_page(Page::Display, 2_000);
    let kit = vec![KitRow::Resolution, KitRow::Refresh, KitRow::Bitrate, KitRow::Codec];
    let rows = app.settings_page_rows(&kit);
    let at = rows.iter().position(|l| l.row == PageRow::Kit(KitRow::Bitrate)).unwrap();
    (kit, at)
}

#[test]
fn the_bitrate_is_dragged_along_its_track() {
    let mut app = app();
    let (kit, row) = bitrate_page(&mut app);
    let over = |row, on_track, bitrate| Pointer {
        hit: Hit::Row(row, None),
        close: Some(false),
        on_track,
        luminance: 0,
        bitrate,
    };
    app.take_effects();
    // Beside the track the row is confirmed, and nothing is set.
    assert_eq!(app.handle_mouse_click(over(row, false, 90_000), &kit, shape(), 2_000), Click::Press);
    assert_eq!(app.settings.bitrate_kbps, 20_000);
    // On another row's track nothing is set either.
    assert_eq!(app.handle_mouse_click(over(0, true, 90_000), &kit, shape(), 2_000), Click::Press);
    assert_eq!(app.settings.bitrate_kbps, 20_000);
    assert!(app.take_effects().is_empty());
    assert_eq!(app.handle_mouse_click(over(row, true, 30_000), &kit, shape(), 2_000), Click::Spent);
    assert_eq!(app.settings.bitrate_kbps, 30_000);
    assert!(app.on_bitrate_row(&kit) && app.flags.has(Flag::SliderDrag));
    assert_eq!(app.take_effects().len(), 1);
    // The same value again is no change, and the drag goes on wherever the pointer is.
    assert!(app.handle_mouse_motion(Pointer { bitrate: 30_000, ..at(Hit::Nothing) }, shape(), 2_100));
    assert!(app.take_effects().is_empty());
    assert!(app.handle_mouse_motion(Pointer { bitrate: 45_000, ..at(Hit::Row(0, None)) }, shape(), 2_100));
    assert_eq!(app.settings.bitrate_kbps, 45_000);
    assert!(app.on_bitrate_row(&kit));
    app.end_slider_drag();
    app.handle_mouse_motion(Pointer { bitrate: 50_000, ..at(Hit::Nothing) }, shape(), 2_200);
    assert_eq!(app.settings.bitrate_kbps, 45_000);
}

#[test]
fn a_dragged_bitrate_is_pinned_by_the_profile_in_scope() {
    let mut app = app();
    app.profiles = vec![StreamProfile { id: "a".to_string(), name: "A".to_string(), overrides: empty_overlay() }];
    let (kit, row) = bitrate_page(&mut app);
    app.screens.settings_page.scope = Scope::Profile("a".to_string());
    let row_here = app.settings_page_rows(&kit).iter().position(|l| l.row == PageRow::Kit(KitRow::Bitrate));
    let press = Pointer { on_track: true, bitrate: 60_000, ..at(Hit::Row(row_here.unwrap_or(row), None)) };
    assert_eq!(app.handle_mouse_click(press, &kit, shape(), 2_000), Click::Spent);
    assert_eq!(app.profiles[0].overrides.bitrate_kbps, Some(60_000));
    assert_eq!(app.settings.bitrate_kbps, 20_000);
    app.screens.settings_page.scope = Scope::Profile("gone".to_string());
    app.set_bitrate(70_000);
    assert_eq!((app.profiles[0].overrides.bitrate_kbps, app.settings.bitrate_kbps), (Some(60_000), 20_000));
}

#[test]
fn a_click_on_the_settings_keeps_the_rows_button() {
    let mut app = app();
    let (kit, _) = bitrate_page(&mut app);
    app.nav.set_cursor(Screen::SettingsPage, 1);
    app.screens.row_button = Some(RowButton::Trailing(0));
    assert_eq!(app.handle_mouse_click(at(Hit::Nothing), &kit, shape(), 2_000), Click::Press);
    assert_eq!(app.screens.row_button, Some(RowButton::Trailing(0)));
    assert_eq!(app.nav.cursor(Screen::SettingsPage), 1);
    // Every other list lets it go.
    app.open_host_menu(0);
    app.screens.row_button = Some(RowButton::Trailing(0));
    assert_eq!(app.handle_mouse_click(at(Hit::Nothing), &kit, shape(), 2_000), Click::Press);
    assert_eq!(app.screens.row_button, None);
}

#[test]
fn answers_and_pairing_follow_the_pointer() {
    let mut app = app();
    app.open_host_menu(0);
    app.nav.enter(Screen::ForgetHost, 1);
    assert!(app.handle_mouse_motion(at(Hit::Answer(0)), shape(), 2_000));
    assert_eq!(app.nav.cursor(Screen::ForgetHost), 0);
    assert!(app.set_confirm_focused(1));
    app.nav.enter(Screen::Pairing, 0);
    assert_eq!(app.handle_mouse_click(at(Hit::RequestAccess), &Vec::new(), shape(), 2_000), Click::Press);
    assert_eq!(app.screens.pairing_focus, PairingFocus::RequestAccess);
    let view = app.pair_view();
    assert!(view.request_focused && view.lit.is_none());
    app.screens.pairing_focus = PairingFocus::Pin;
    assert_eq!(app.pair_view().lit, Some(0));
}

#[test]
fn one_sidebar_row_is_focused() {
    let mut app = app();
    app.note_reachable("10.0.0.3", 9777, false);
    app.set_home_focus(HomeFocus::SidebarMenu(1), 2_000);
    let rows = app.sidebar_rows();
    assert_eq!(rows.len(), 4);
    assert_eq!(rows.iter().filter(|r| r.focused).count(), 1);
    assert!(rows[1].button_lit && rows[0].selected && !rows[1].selected);
    assert_eq!(rows[1].online, Some(false));
    assert_eq!((rows[2].mark, rows[2].label.as_str()), (SidebarMark::Plus, "Add host"));
    assert_eq!((rows[3].mark, rows[3].label.as_str()), (SidebarMark::Settings, "Settings"));
}

#[test]
fn the_rest_of_a_shelf_dims_around_a_moved_card() {
    let mut app = app();
    app.hosts.known[0].collections[0].games = vec!["p".to_string(), "d".to_string()];
    app.regroup_games();
    app.library.running = vec!["h".to_string()];
    app.set_home_focus(HomeFocus::Grid(0), 2_000);
    app.open_card_menu(shape(), 2_000);
    let strip = app.card_strip("p");
    assert!(strip.panel && strip.rows[0].focused && strip.rows[0].kind == CardMenuRow::MoveTo);
    assert!(!app.card_strip("d").panel);
    assert_eq!(app.reordering_slots(shape()), None);
    app.swap_card_in_collection(true, shape(), 2_100);
    assert!(!app.card_strip("p").panel);
    assert_eq!(app.reordering_slots(shape()), Some(Slots { from: 0, to: 2 }));
    let cards = app.grid_cards(0, 7, shape());
    // Slot 1 holds the focused card, slots 2 and 3 are padding.
    assert_eq!(cards.iter().map(|c| c.idx).collect::<Vec<_>>(), vec![0, 4, 5, 6]);
    assert!(cards[0].dimmed && !cards[1].dimmed);
    assert_eq!(app.pin_id_at_grid_idx(4, shape()), Some(DESKTOP_PIN_ID));
    assert!(cards[2].running && !cards[3].running);
}

#[test]
fn an_icon_token_names_its_table() {
    assert!(matches!(card_mark("os/linux-arch"), CardMark::Os(c) if c == "linux-arch"));
    assert!(matches!(card_mark("steam"), CardMark::Launcher(n) if n == "steam"));
    assert!(matches!(card_mark("os"), CardMark::Launcher(n) if n == "os"));
    assert_eq!(poster_of(true, true, true, true), Poster::Cover);
    assert_eq!(poster_of(false, true, true, true), Poster::Mark);
    assert_eq!(poster_of(false, true, false, true), Poster::Icon);
    assert_eq!(poster_of(false, false, true, true), Poster::Title);
}

#[test]
fn home_gives_way_to_the_video() {
    let mut app = app_of(vec![host("Alpha", "10.0.0.2")], None);
    assert_eq!(app.home_body(false, 400, 2_000), HomeBody::NoHost);
    app.select_host("10.0.0.2".to_string(), 9777, None, 2_000);
    app.grid.revealed = false;
    assert_eq!(app.home_body(false, 400, 2_000), HomeBody::Spinner);
    app.grid.revealed = true;
    assert_eq!(app.home_body(false, 400, 2_000), HomeBody::Grid);
    assert_eq!(app.home_body(true, 400, 2_000), HomeBody::Hidden);
    app.launch_anim = Some(2_000);
    assert_eq!(app.home_body(false, 400, 2_399), HomeBody::Grid);
    assert_eq!(app.home_body(false, 400, 2_400), HomeBody::Hidden);
}

#[test]
fn a_title_keeps_its_face() {
    assert_eq!(face_of(&b"Portal".to_vec()), 5);
    assert_eq!(face_of(&Vec::new()), 5);
    assert_eq!(face_of(&b"Half-Life 2".to_vec()), 3);
    assert_eq!(face_of(&"Ünïcode — title that is rather long".as_bytes().to_vec()), 0);
}

#[test]
fn a_modal_is_redrawn_for_what_it_shows() {
    let mut app = app();
    app.open_host_menu(0);
    let plan = app.modal_plan(&None, &None, false, false, true);
    assert!(plan.redraw_shell && !plan.defer && plan.focus == FocusStep::Redraw);
    let shell = app.modal_shell();
    let focus = app.modal_focus_key();
    let plan = app.modal_plan(&shell, &focus, true, false, false);
    assert!(!plan.redraw_shell && plan.focus == FocusStep::Keep);
    app.handle_host_menu_event(MenuEvent::Down, 2_000);
    let plan = app.modal_plan(&shell, &focus, true, false, false);
    assert!(!plan.redraw_shell && plan.focus == FocusStep::Redraw);
    assert!(app.modal_shell().unwrap().same(&shell.unwrap()));
    assert!(!app.modal_focus_key().unwrap().same(&focus.unwrap()));
}

#[test]
fn a_hovered_close_mark_redraws_the_card() {
    let mut app = app();
    app.open_host_menu(0);
    let shell = app.modal_shell();
    app.set_hover_close(true);
    assert!(app.modal_plan(&shell, &None, true, false, false).redraw_shell);
    assert!(app.modal_shell_key().unwrap().same(&shell.unwrap().key));
}

#[test]
fn a_changed_value_redraws_what_shows_it() {
    let mut app = app();
    app.open_settings_page();
    let (shell, focus) = (app.modal_shell(), app.modal_focus_key());
    app.settings.hdr_enabled = false;
    let plan = app.modal_plan(&shell, &focus, true, false, false);
    assert!(!plan.redraw_shell && plan.focus == FocusStep::Redraw);
    app.show_page(Page::Audio, 2_000);
    assert!(app.modal_plan(&shell, &focus, true, false, false).redraw_shell);

    app.profiles = vec![StreamProfile { id: "a".to_string(), name: "Couch".to_string(), overrides: empty_overlay() }];
    app.open_pick_profile(ProfilePick::Pin(target("10.0.0.2")));
    let (shell, focus) = (app.modal_shell(), app.modal_focus_key());
    app.handle_pick_profile_event(MenuEvent::Confirm, 2_100);
    let plan = app.modal_plan(&shell, &focus, true, false, false);
    assert!(plan.redraw_shell && plan.focus == FocusStep::Redraw);
}

#[test]
fn a_backdrop_waits_for_its_launch() {
    let mut app = app();
    assert!(!app.hero_due(true));
    app.launch_anim = Some(2_000);
    assert!(app.hero_due(true) && !app.hero_due(false));
}

#[test]
fn a_moving_switch_defers_the_card() {
    let mut app = app();
    app.open_host_menu(0);
    app.open_host_power();
    let shell = app.modal_shell();
    let focus = app.modal_focus_key();
    app.handle_host_power_event(MenuEvent::Confirm, 2_000);
    let plan = app.modal_plan(&shell, &focus, true, false, false);
    assert!(plan.defer && !plan.redraw_shell);
    app.switch_anim = None;
    assert!(app.modal_plan(&shell, &focus, true, false, false).redraw_shell);
    app.nav.resume(Screen::Home);
    let plan = app.modal_plan(&shell, &focus, true, true, true);
    assert!(!plan.redraw_shell && plan.focus == FocusStep::Drop);
}

#[test]
fn a_refreshed_cover_is_built_in_the_same_pass() {
    let mut app = app();
    app.grid.dirty = false;
    app.grid.revealed = true;
    let w = Window { from: 0, to: 5 };
    let all = || vec!["p".to_string(), "h".to_string(), "d".to_string()];
    app.library.art = all();
    app.grid.kept = 0..5;
    app.open_host_menu(0);
    app.grid.cards_dirty = vec!["p".to_string()];
    app.take_effects();
    assert!(!app.grid_window_frozen());
    assert_eq!(app.prepare_grid(w, w, w, &all(), shape(), 2_000), None);
    let effects = app.take_effects();
    assert!(matches!(&effects[0], Effect::StaleCover(id) if id == "p"));
    let built: Vec<&str> =
        effects.iter().filter_map(|e| if let Effect::BuildCover(id) = e { Some(id.as_str()) } else { None }).collect();
    assert_eq!(built, vec!["p"]);
    assert!(app.grid_window_frozen());
    // A change of the library builds every cover whose art is in hand.
    app.grid.dirty = true;
    app.prepare_grid(w, w, w, &all(), shape(), 2_100);
    let effects = app.take_effects();
    assert!(matches!(&effects[0], Effect::StaleCovers));
    assert_eq!(effects.iter().filter(|e| matches!(e, Effect::BuildCover(_))).count(), 3);
}

fn scroll_context() -> ScrollContext {
    ScrollContext {
        content: Some((3, 2, 1, 400)),
        indicator: None,
        drawn: vec![Some(1), None, Some(3), Some(4)],
        wanted: vec![1, 2, 9],
        rows_version: 7,
        drawn_version: Some(6),
        window: ContentWindow { start: 5, len: 6 },
        recentre: None,
        budget: 100,
    }
}

#[test]
fn a_list_draws_what_changed_of_it() {
    let mut c = scroll_context();
    let plan = c.plan(Screen::SettingsPage, false);
    assert_eq!((plan.draw, plan.drop), (vec![1, 2], vec![3]));
    assert_eq!((plan.drawn_version, plan.window), (Some(7), ContentWindow { start: 0, len: 3 }));
    let key = IndicatorKey { screen: Screen::SettingsPage, total: 3, visible: 2, scroll: 1, height: 400 };
    assert_eq!(plan.indicator, Some(key));
    // The same version with every row drawn costs nothing, even with a spare row left.
    c.indicator = Some(key);
    c.drawn[1] = Some(2);
    c.drawn_version = Some(7);
    assert!(c.rows_current());
    let plan = c.plan(Screen::SettingsPage, false);
    assert!(plan.draw.is_empty() && plan.drop.is_empty() && plan.indicator.is_none() && !plan.redraw_window);
    assert_eq!(plan.window, ContentWindow { start: 0, len: 3 });
    // A missing row is drawn though the version is the same.
    c.drawn[1] = None;
    assert_eq!(c.plan(Screen::SettingsPage, false).draw, vec![1, 2]);
    // More rows than slots are never current.
    c.drawn = vec![Some(1), Some(2)];
    assert!(!c.rows_current());
    assert!(c.plan(Screen::SettingsPage, false).draw.is_empty());
}

#[test]
fn the_documents_window_follows_the_scroll() {
    let mut c = scroll_context();
    c.content = Some((1_000, 20, 500, 400));
    assert_eq!(c.plan(Screen::About, false).window, ContentWindow { start: 5, len: 6 });
    c.recentre = Some(460);
    let plan = c.plan(Screen::About, false);
    assert!(plan.redraw_window && plan.draw.is_empty() && plan.drop.is_empty());
    assert_eq!(plan.window, ContentWindow { start: 460, len: 100 });
    c.recentre = Some(950);
    assert_eq!(c.plan(Screen::About, false).window, ContentWindow { start: 950, len: 50 });
    c.recentre = Some(2_000);
    assert_eq!(c.plan(Screen::About, false).window, ContentWindow { start: 2_000, len: 0 });
    c.content = None;
    let plan = c.plan(Screen::About, false);
    assert!(!plan.redraw_window && plan.indicator.is_none());
}

#[test]
fn a_list_that_is_left_lets_its_rows_go() {
    let mut c = scroll_context();
    c.content = None;
    assert_eq!(c.plan(Screen::Home, false).drop, vec![0, 2, 3]);
    assert!(c.plan(Screen::Home, true).drop.is_empty());
    assert!(c.plan(Screen::HdrCalibration, false).drop.is_empty());
}

#[test]
fn a_status_takes_two_lines_at_most() {
    let lines = |n: usize| (0..n).map(|i| format!("line {i}")).collect::<Vec<String>>();
    assert_eq!(status_lines(lines(3)), vec!["line 0", "line 1"]);
    assert_eq!(status_lines(lines(1)), vec!["line 0"]);
    assert!(status_lines(Vec::new()).is_empty());
}

#[test]
fn only_stale_rows_are_drawn() {
    let drawn = vec![Some(1), None, Some(3), Some(4)];
    assert_eq!(rows_to_draw(&drawn, &vec![1, 2, 9]), vec![1, 2]);
    assert_eq!(rows_to_drop(&drawn, 2), vec![2, 3]);
    assert!(keeps_list_rows(Screen::RenameCollection, false) && keeps_list_rows(Screen::HdrCalibration, false));
    assert!(is_scroll_list(Screen::SettingsPage) && !is_scroll_list(Screen::HostMenu));
    assert!(!keeps_list_rows(Screen::Home, false) && keeps_list_rows(Screen::Home, true));
    assert_eq!(snapshot_closing_modal(None, true, false, true), SnapshotStep::Drop);
    assert_eq!(snapshot_closing_modal(None, false, false, true), SnapshotStep::Keep);
    assert_eq!(
        snapshot_closing_modal(Some(Screen::Collections), false, true, true),
        SnapshotStep::Take { rows: true }
    );
    assert_eq!(
        snapshot_closing_modal(Some(Screen::ForgetHost), false, true, true),
        SnapshotStep::Take { rows: false }
    );
    assert_eq!(
        snapshot_closing_modal(Some(Screen::HostMenu), false, true, true),
        SnapshotStep::Take { rows: false }
    );
    assert_eq!(snapshot_closing_modal(Some(Screen::ForgetHost), false, true, false), SnapshotStep::Keep);
}

#[test]
fn the_sidebar_is_redrawn_for_its_focus() {
    let mut app = app();
    app.set_home_focus(HomeFocus::Sidebar(1), 2_000);
    let key = app.sidebar_key();
    assert_eq!(key, Some(SidebarKey { row: 1, button: false }));
    assert_eq!(app.sidebar_plan(None, false, true), SidebarPlan { redraw_strip: false, redraw_row: true });
    assert_eq!(app.sidebar_plan(key, false, true), SidebarPlan { redraw_strip: false, redraw_row: false });
    assert_eq!(app.sidebar_plan(key, true, true), SidebarPlan { redraw_strip: true, redraw_row: true });
    app.set_home_focus(HomeFocus::SidebarMenu(1), 2_000);
    assert_eq!(app.sidebar_plan(key, false, true), SidebarPlan { redraw_strip: false, redraw_row: true });
    app.set_home_focus(HomeFocus::Grid(0), 2_000);
    assert_eq!(app.sidebar_plan(key, false, false), SidebarPlan { redraw_strip: true, redraw_row: false });
    app.set_home_status(Some("hello".to_string()), false, 2_000);
    assert_eq!(app.status_step(&None), FocusStep::Redraw);
    assert_eq!(app.status_step(&Some("hello".to_string())), FocusStep::Keep);
    app.set_home_status(None, false, 2_000);
    assert_eq!(app.status_step(&Some("hello".to_string())), FocusStep::Drop);
}

#[test]
fn the_shader_used_longest_ago_goes_first() {
    let mut cache = ShaderCache::new();
    for key in [1, 2, 3, 4] {
        assert!(cache.request(key));
    }
    assert_eq!(cache.slots, vec![Some(4), Some(3), Some(2), Some(1)]);
    assert!(!cache.request(2));
    assert_eq!(cache.slots, vec![Some(2), Some(4), Some(3), Some(1)]);
    assert!(cache.request(5));
    assert_eq!(cache.slots, vec![Some(5), Some(2), Some(4), Some(3)]);
    cache.not_built();
    assert!(cache.request(5));
    cache.release();
    assert_eq!(cache.slots, vec![None; 4]);
}

#[test]
fn four_cards_share_the_shaders() {
    let mut cache = ShaderCache::new();
    cache.request(9);
    for key in [1, 2, 3] {
        cache.request(key);
    }
    assert!(!cache.request(9));
}

#[test]
fn one_blurred_cover_is_kept() {
    let mut cover = CoverCache::new();
    let key = CoverKey { image: 7, sigma: 28 };
    assert!(cover.wants_blur(key));
    cover.blurred(key, true);
    assert!(!cover.wants_blur(key) && cover.wants_blur(CoverKey { image: 7, sigma: 29 }));
    cover.blurred(CoverKey { image: 8, sigma: 28 }, false);
    assert_eq!(cover.held, None);
    cover.blurred(key, true);
    cover.clear_cover();
    assert!(cover.wants_blur(key));
}

#[test]
fn the_palette_is_the_one_last_named() {
    let mut palette = CurrentPalette::new();
    assert_eq!(palette.current_palette(), "");
    palette.set_current_palette("violet");
    palette.set_current_palette("violet");
    assert_eq!(palette.current_palette(), "violet");
    palette.set_current_palette("amber");
    assert_eq!(palette.current_palette(), "amber");
}
