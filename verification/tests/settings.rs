//! The settings page, the speed test's recommendation, and what a row is drawn as.
use punktfunk_webos::home::INTRO_HINT;
use punktfunk_webos::homeview::{face_of, raw_row_bytes, RawFormat, RunningPulse, FACES, PULSE_MILLIS, PULSE_STEPS};
use punktfunk_webos::listcards::{row_spec, Control, FocusRow, RowIcon, RowKind};
use punktfunk_webos::model::MenuEvent;
use punktfunk_webos::profiles::empty_overlay;
use punktfunk_webos::settingspage::{
    gate_rows, overridden, page_at, page_rows, settings_nav, NavStep, PageRow, RowStep, PAGES,
};
use punktfunk_webos::slots::{KitRow, Page, ProbeOutcome};
use punktfunk_webos::speedtest::{recommended_kbps, BITRATE_MAX_KBPS, BITRATE_MIN_KBPS};

/// Column first: OK or Right enters the rows, Back leaves. On the rows Left and Right
/// step, Back climbs to the column, never out.
#[test]
fn back_climbs_one_level_and_only_the_column_leaves() {
    assert_eq!(settings_nav(true, MenuEvent::Back), NavStep::Leave);
    assert_eq!(settings_nav(true, MenuEvent::Confirm), NavStep::EnterRows);
    assert_eq!(settings_nav(true, MenuEvent::Right), NavStep::EnterRows);
    assert_eq!(settings_nav(true, MenuEvent::Left), NavStep::Ignore);
    assert_eq!(settings_nav(true, MenuEvent::Up), NavStep::Page(-1));
    assert_eq!(settings_nav(false, MenuEvent::Back), NavStep::ToColumn);
    assert_eq!(settings_nav(false, MenuEvent::Left), NavStep::Row(RowStep::Step(-1)));
    assert_eq!(settings_nav(false, MenuEvent::Right), NavStep::Row(RowStep::Step(1)));
    assert_eq!(settings_nav(false, MenuEvent::Confirm), NavStep::Row(RowStep::Activate));
}

#[test]
fn the_secondary_key_clears_a_row() {
    assert_eq!(settings_nav(false, MenuEvent::Secondary), NavStep::Row(RowStep::Clear));
    assert_eq!(settings_nav(true, MenuEvent::Down), NavStep::Page(1));
}

/// 70 % of the goodput in whole Mbps, inside the slider's range; nothing under 2 Mbps.
#[test]
fn the_recommendation_is_seventy_percent_clamped_to_the_slider() {
    let at = |kbps: u32| recommended_kbps(&ProbeOutcome { throughput_kbps: kbps, recv_bytes: 0, elapsed_ms: 0 });
    assert_eq!(at(1_999), None);
    assert_eq!(at(100_000), Some(70_000));
    assert_eq!(at(245_000), Some(171_000), "the G5's Wi-Fi ceiling");
    assert_eq!(at(400_000), Some(BITRATE_MAX_KBPS));
    assert_eq!(at(3_000), Some(BITRATE_MIN_KBPS));
}

#[test]
fn the_recommendation_never_overflows() {
    let top = ProbeOutcome { throughput_kbps: u32::MAX, recv_bytes: u64::MAX, elapsed_ms: 1 };
    assert_eq!(recommended_kbps(&top), Some(BITRATE_MAX_KBPS));
}

fn focus_row(kind: RowKind, icon: RowIcon, label: &str, value: &str) -> FocusRow {
    FocusRow {
        kind,
        icon,
        label: label.to_string(),
        value: value.to_string(),
        note: None,
        locked: false,
        danger: false,
        marked: false,
    }
}

#[test]
fn rows_translate_into_the_kits_controls() {
    let toggle = row_spec(&focus_row(RowKind::Toggle, RowIcon::Power, "Wake automatically", "On"));
    assert_eq!(toggle.control, Control::Toggle(true));
    assert_eq!(toggle.icon.and_then(RowIcon::name), Some("power"));
    let mut locked = focus_row(RowKind::Dropdown, RowIcon::Power, "App exit behaviour", "Sleep");
    locked.locked = true;
    let pick = row_spec(&locked);
    assert_eq!(pick.control, Control::Value);
    assert!(!pick.enabled && !pick.adjustable);
    assert_eq!(pick.value.as_deref(), Some("Sleep"));
    let mut row = focus_row(RowKind::Action, RowIcon::Delete, "Forget host", "");
    row.danger = true;
    let forget = row_spec(&row);
    assert!(forget.danger && forget.value.is_none());
    assert_eq!(forget.icon.and_then(RowIcon::name), Some("trash-2"));
}

#[test]
fn icons_are_named_as_in_the_kit() {
    assert_eq!(RowIcon::Power.name(), Some("power"));
    assert_eq!(RowIcon::Delete.name(), Some("trash-2"));
    assert_eq!(RowIcon::Tv.name(), None);
}

#[test]
fn a_hint_stays_at_the_right_of_an_action() {
    let mut row = focus_row(RowKind::Action, RowIcon::Tv, "Connect", "pairs first");
    row.note = Some("needs a PIN".to_string());
    row.marked = true;
    let spec = row_spec(&row);
    assert_eq!(spec.control, Control::Hint);
    assert_eq!(spec.value.as_deref(), Some("pairs first"));
    assert_eq!(spec.note.as_deref(), Some("needs a PIN"));
    assert!(spec.marked && spec.enabled && !spec.adjustable);
    let off = row_spec(&focus_row(RowKind::Toggle, RowIcon::Power, "Wake automatically", "Off"));
    assert_eq!(off.control, Control::Toggle(false));
}

#[test]
fn coverless_posters_pick_a_face_per_title() {
    let a = face_of(&"Portal".as_bytes().to_vec());
    let b = face_of(&"Portal".as_bytes().to_vec());
    assert_eq!(a, b);
    assert!(a < FACES);
    assert!(raw_row_bytes(3, 4, RawFormat::Rgba8888, 48).is_some());
    assert!(raw_row_bytes(2, 2, RawFormat::Rgb565, 8).is_some());
    assert!(raw_row_bytes(2, 2, RawFormat::Rgb565, 7).is_none());
}

#[test]
fn a_picture_has_just_its_pixels() {
    assert_eq!(raw_row_bytes(3, 4, RawFormat::Rgba8888, 48), Some(12));
    assert_eq!(raw_row_bytes(3, 4, RawFormat::Rgba8888, 49), None);
    assert_eq!(raw_row_bytes(u32::MAX, u32::MAX, RawFormat::Rgba8888, 48), None);
    assert_eq!(RawFormat::Rgb565.bytes_per_pixel(), 2);
}

#[test]
fn a_running_card_pulses_in_steps() {
    let mut p = RunningPulse::new();
    assert!(p.tick(1_000, true));
    assert!(!p.tick(1_000 + PULSE_MILLIS / PULSE_STEPS - 1, true));
    assert!(p.tick(1_000 + PULSE_MILLIS / PULSE_STEPS, true));
    assert_eq!(p.step, Some(1));
    assert!(!p.tick(2_000, false));
    assert_eq!(p, RunningPulse::new());
}

#[test]
fn pages_are_six_and_named() {
    assert_eq!(PAGES, 6);
    for i in 0..PAGES {
        assert_eq!(page_at(i).index(), i);
        assert!(!page_at(i).label().is_empty() && !page_at(i).icon().is_empty());
    }
    assert_eq!(page_at(0), Page::General);
}

#[test]
fn a_profile_page_offers_less() {
    let whole = page_rows(Page::Display, false);
    let profile = page_rows(Page::Display, true);
    assert!(whole.len() >= profile.len());
    assert!(whole.iter().any(|l| l.row == PageRow::GameMode));
    assert!(!profile.iter().any(|l| l.row == PageRow::GameMode));
    let general = page_rows(Page::General, true);
    assert!(general.iter().any(|l| l.row == PageRow::Delete));
}

#[test]
fn rows_that_do_not_apply_are_gated() {
    let all = page_rows(Page::Display, false);
    let shown = gate_rows(&all, &vec![KitRow::Bitrate], false);
    assert!(shown.iter().any(|l| l.row == PageRow::Kit(KitRow::Bitrate)));
    assert!(!shown.iter().any(|l| l.row == PageRow::Kit(KitRow::Codec)));
    assert!(!shown.iter().any(|l| l.row == PageRow::ResetHdr));
    let calibrated = gate_rows(&all, &vec![KitRow::Bitrate], true);
    assert!(calibrated.iter().any(|l| l.row == PageRow::ResetHdr));
}

#[test]
fn clearing_unpins_only_its_row() {
    let mut o = empty_overlay();
    o.bitrate_kbps = Some(30_000);
    o.width = Some(1920);
    o.height = Some(1080);
    assert!(overridden(&o, KitRow::Bitrate) && overridden(&o, KitRow::Resolution));
    assert!(o.clear(KitRow::Bitrate));
    assert!(!o.clear(KitRow::Bitrate));
    assert!(!overridden(&o, KitRow::Bitrate) && overridden(&o, KitRow::Resolution));
    assert!(o.clear(KitRow::Resolution));
    assert_eq!((o.width, o.height), (None, None));
}

#[test]
fn the_hint_speaks_of_holding_ok() {
    assert!(INTRO_HINT.contains("hold OK"));
}
