//! Settings: whose they are, what each row changes, and the display's calibration.
use vstd::prelude::*;
use crate::app::AppV;
use crate::flags::Job;
use crate::laws::profiling::edits;
use crate::laws::{document, law_profile_is_found};
use crate::model::{HdrDisplay, LogLevelOverride, MenuEvent, ProfileV, Screen, Settings, SettingsOverlay};
use crate::settingspage::{pins, Adjusted, PageRow};
use crate::slots::{EffectV, HdrCalibrationState, HdrStep, KitRow, Page, ScopeV};

verus! {

proof fn lemma_edited(app: AppV, i: int)
    requires
        edits(app, i),
    ensures
        app.scope_pos() == Some(i),
{
    law_profile_is_found(app.profiles, i, app.screens.settings_page.scope->Profile_0);
}

/// Stepping the scope goes from the global settings through the profiles in their order, and back; beyond
/// the last, either way round, a profile is made.
pub proof fn law_scope_goes_round(app: AppV, i: int, fresh: Seq<char>)
    requires
        app.screens.settings_page.scope is Global || edits(app, i),
    ensures
        ({
            let n = app.profiles.len() as int;
            let at = if app.screens.settings_page.scope is Global {
                0
            } else {
                i + 1
            };
            let on = app.step_scope(true, fresh);
            let back = app.step_scope(false, fresh);
            &&& at < n ==> on.screens.settings_page.scope == ScopeV::Profile(app.profiles[at].id) && on.profiles
                == app.profiles && on.effects == app.effects
            &&& at == n ==> on.profiles.len() == n + 1 && on.screens.settings_page.scope == ScopeV::Profile(fresh)
                && on.nav.screen == Screen::RenameProfile
            &&& at > 1 ==> back.screens.settings_page.scope == ScopeV::Profile(app.profiles[at - 2].id)
                && back.profiles == app.profiles && back.effects == app.effects
            &&& at == 1 ==> back.screens.settings_page.scope == ScopeV::Global && back.profiles == app.profiles
                && back.effects == app.effects
            &&& at == 0 ==> back.profiles.len() == n + 1 && back.screens.settings_page.scope == ScopeV::Profile(fresh)
            &&& on.settings == app.settings && back.settings == app.settings
        }),
{
    if app.screens.settings_page.scope is Profile {
        lemma_edited(app, i);
    }
    let n = app.profiles.len() + 2;
    let at = app.scope_index() as int;
    assert(0 <= at < n - 1);
    vstd::arithmetic::div_mod::lemma_small_mod((at + 1) as nat, n as nat);
    if at == 0 {
        vstd::arithmetic::div_mod::lemma_small_mod((n - 1) as nat, n as nat);
    } else {
        vstd::arithmetic::div_mod::lemma_mod_add_multiples_vanish(at - 1, n as int);
        vstd::arithmetic::div_mod::lemma_small_mod((at - 1) as nat, n as nat);
        assert((at + n - 1) % (n as int) == at - 1);
    }
}

/// The log level goes round Debug, Info, Warn and Error; the one chosen is in force, told to the log and
/// written.
pub proof fn law_log_levels_go_round(app: AppV)
    ensures
        ({
            let after = app.step_log_level(true);
            &&& after.log_level == match app.log_level {
                LogLevelOverride::Debug => LogLevelOverride::Info,
                LogLevelOverride::Info => LogLevelOverride::Warn,
                LogLevelOverride::Warn => LogLevelOverride::Error,
                LogLevelOverride::Error => LogLevelOverride::Debug,
            }
            &&& after.settings == (Settings { log_level: after.log_level, ..app.settings })
            &&& after.effects == app.effects.push(EffectV::LogLevel(after.log_level)).push(
                EffectV::Save(document(after)),
            )
        }),
{
}

/// Game mode turns over on a TV that is rooted, and is written; on any other it stays.
pub proof fn law_game_mode_turns_over(app: AppV)
    ensures
        app.hosts.rooted == Some(true) ==> ({
            let after = app.toggle_game_mode();
            &&& after.settings == (Settings { game_mode: !app.settings.game_mode, ..app.settings })
            &&& after.effects == app.effects.push(EffectV::Save(document(after)))
            &&& after.toggle_game_mode().settings == app.settings
        }),
        app.hosts.rooted != Some(true) ==> app.toggle_game_mode() == app,
{
}

/// The log overlay turns over: what is shown is what is set, and it is written.
pub proof fn law_log_overlay_turns_over(app: AppV)
    ensures
        ({
            let after = app.toggle_show_logs();
            &&& after.settings == (Settings { show_logs: !app.settings.show_logs, ..app.settings })
            &&& after.effects == app.effects.push(EffectV::LogOverlay(!app.settings.show_logs)).push(
                EffectV::Save(document(after)),
            )
            &&& after.toggle_show_logs().settings == app.settings
        }),
{
}

/// A setting that was changed is changed where it is edited: in the global settings, or in the one profile
/// in scope; it is written, and nothing else changes.
pub proof fn law_setting_lands_in_its_scope(app: AppV, i: int, settings: Settings, overrides: SettingsOverlay)
    ensures
        app.screens.settings_page.scope is Global ==> ({
            let after = app.row_adjusted(Adjusted::Document(settings));
            &&& after.settings == settings
            &&& after.profiles == app.profiles
            &&& after.effects == app.effects.push(EffectV::Save(document(after)))
            &&& app.row_adjusted(Adjusted::Overlay(overrides)) == app
        }),
        edits(app, i) ==> ({
            let after = app.row_adjusted(Adjusted::Overlay(overrides));
            &&& after.settings == app.settings
            &&& after.profiles.len() == app.profiles.len()
            &&& after.profiles[i] == (ProfileV { overrides, ..app.profiles[i] })
            &&& forall|j: int| 0 <= j < app.profiles.len() && j != i ==> #[trigger] after.profiles[j] == app.profiles[j]
            &&& after.effects == app.effects.push(EffectV::Save(document(after)))
            &&& app.row_adjusted(Adjusted::Document(settings)) == app
        }),
{
    if edits(app, i) {
        lemma_edited(app, i);
    }
}

/// Clearing a row takes the profile's own value of it away and leaves its other values; the change is
/// written. A row that the profile does not set stays as it is, and the global settings have none to clear.
pub proof fn law_override_is_cleared(app: AppV, i: int, row: KitRow)
    ensures
        edits(app, i) ==> ({
            let was = app.profiles[i].overrides;
            let after = app.clear_override(PageRow::Kit(row));
            let o = after.profiles[i].overrides;
            &&& !pins(o, row)
            &&& pins(was, row) ==> after.effects == app.effects.push(EffectV::Save(document(after)))
            &&& !pins(was, row) ==> after == app
            &&& o.width == (if row == KitRow::Resolution {
                None
            } else {
                was.width
            })
            &&& o.height == (if row == KitRow::Resolution {
                None
            } else {
                was.height
            })
            &&& o.match_window == (if row == KitRow::Resolution {
                None
            } else {
                was.match_window
            })
            &&& o.refresh_hz == (if row == KitRow::Refresh {
                None
            } else {
                was.refresh_hz
            })
            &&& o.bitrate_kbps == (if row == KitRow::Bitrate {
                None
            } else {
                was.bitrate_kbps
            })
            &&& o.codec == (if row == KitRow::Codec {
                None
            } else {
                was.codec
            })
            &&& o.hdr_enabled == (if row == KitRow::Hdr {
                None
            } else {
                was.hdr_enabled
            })
            &&& o.audio_channels == (if row == KitRow::Audio {
                None
            } else {
                was.audio_channels
            })
            &&& o.mouse_mode == (if row == KitRow::Mouse {
                None
            } else {
                was.mouse_mode
            })
            &&& o.invert_scroll == (if row == KitRow::InvertScroll {
                None
            } else {
                was.invert_scroll
            })
            &&& o.gamepad == (if row == KitRow::PadType {
                None
            } else {
                was.gamepad
            })
            &&& o.stats_verbosity == (if row == KitRow::Stats {
                None
            } else {
                was.stats_verbosity
            })
            &&& after.profiles.len() == app.profiles.len()
            &&& after.profiles[i].id == app.profiles[i].id && after.profiles[i].name == app.profiles[i].name
            &&& forall|j: int| 0 <= j < app.profiles.len() && j != i ==> #[trigger] after.profiles[j] == app.profiles[j]
            &&& after.settings == app.settings
        }),
        app.screens.settings_page.scope is Global ==> app.clear_override(PageRow::Kit(row)) == app,
{
    if edits(app, i) {
        lemma_edited(app, i);
        crate::settingspage::law_clear_unpins_only_its_row(app.profiles[i].overrides, row, row);
    }
}

/// A bitrate that is set is the bitrate of what is edited, written once; setting it again writes nothing.
pub proof fn law_bitrate_lands_in_its_scope(app: AppV, i: int, kbps: u32)
    ensures
        app.screens.settings_page.scope is Global ==> ({
            let after = app.set_bitrate(kbps);
            &&& after.settings == (Settings { bitrate_kbps: kbps, ..app.settings })
            &&& after.profiles == app.profiles
            &&& app.settings.bitrate_kbps != kbps ==> after.effects == app.effects.push(EffectV::Save(document(after)))
            &&& app.settings.bitrate_kbps == kbps ==> after == app
        }),
        edits(app, i) ==> ({
            let after = app.set_bitrate(kbps);
            &&& after.settings == app.settings
            &&& after.profiles[i].overrides == (SettingsOverlay {
                bitrate_kbps: Some(kbps),
                ..app.profiles[i].overrides
            })
            &&& forall|j: int| 0 <= j < app.profiles.len() && j != i ==> #[trigger] after.profiles[j] == app.profiles[j]
            &&& app.profiles[i].overrides.bitrate_kbps != Some(kbps) ==> after.effects == app.effects.push(
                EffectV::Save(document(after)),
            )
            &&& app.profiles[i].overrides.bitrate_kbps == Some(kbps) ==> after == app
        }),
{
    reveal(AppV::set_bitrate);
    if edits(app, i) {
        lemma_edited(app, i);
    }
}

/// What each row does when it is pressed.
pub proof fn law_pressed_row(app: AppV, row: PageRow, hdr: bool, fresh: Seq<char>)
    requires
        app.nav.cursors.len() == 20,
    ensures
        ({
            let after = app.activate_row(row, hdr, fresh);
            &&& row is Kit ==> after.effects == app.effects.push(EffectV::AdjustRow(row->Kit_0, 1, true))
                && after.settings == app.settings && after.profiles == app.profiles
            &&& row is CalibrateHdr ==> (after.nav.screen == Screen::HdrCalibration && after.screens.hdr is Some
                <==> (app.settings.hdr_enabled && hdr) || (app.nav.screen == Screen::HdrCalibration && app.screens.hdr
                is Some))
            &&& row is SendLogs ==> after.effects == app.effects.push(EffectV::OfferLogs)
            &&& row is ResetHdr ==> after.nav.screen == Screen::ResetHdrCalibration && after.nav.cursor(
                Screen::ResetHdrCalibration,
            ) == 1 && after.settings == app.settings && after.effects == app.effects
            &&& row is Licences ==> after.nav.screen == Screen::About && after.screens.about_scroll == 0
            &&& (row is Rename && app.screens.settings_page.scope is Profile) ==> after.nav.screen
                == Screen::RenameProfile && after.profiles == app.profiles
            &&& (row is Delete && app.screens.settings_page.scope is Profile) ==> after.nav.screen
                == Screen::DeleteProfile && after.nav.cursor(Screen::DeleteProfile) == 1 && after.profiles
                == app.profiles && after.effects == app.effects
            &&& row is ShowLogs ==> after.settings.show_logs == !app.settings.show_logs
            &&& (row is GameMode && app.hosts.rooted == Some(true)) ==> after.settings.game_mode
                == !app.settings.game_mode
            &&& row is LogLevel ==> after.log_level != app.log_level
            &&& (row is Pad || row is Version) ==> after == app
        }),
{
}

/// The form that names a profile opens on the name it has.
pub proof fn law_rename_opens_on_the_name(app: AppV, i: int)
    requires
        edits(app, i),
    ensures
        app.open_rename_profile().nav.screen == Screen::RenameProfile,
        app.open_rename_profile().screens.profile_name == app.profiles[i].name,
        app.open_rename_profile().profiles == app.profiles,
{
    lemma_edited(app, i);
}

/// Left and Right on a row of settings ask for one step of that row, down or up, that does not wrap; Secondary
/// clears the row; Confirm presses it. The row is the one under the cursor.
pub proof fn law_keys_go_to_the_row(
    app: AppV,
    kit: Seq<KitRow>,
    hdr: bool,
    fresh: Seq<char>,
    now: u64,
)
    requires
        !app.screens.settings_page.column,
        app.nav.cursor(Screen::SettingsPage) < app.settings_page_rows(kit).len(),
    ensures
        ({
            let row = app.settings_page_rows(kit)[app.nav.cursor(Screen::SettingsPage) as int].row;
            &&& row is Kit ==> app.handle_settings_page_event(MenuEvent::Left, kit, hdr, fresh, now).effects
                == app.effects.push(EffectV::AdjustRow(row->Kit_0, -1i32, false))
            &&& row is Kit ==> app.handle_settings_page_event(MenuEvent::Right, kit, hdr, fresh, now).effects
                == app.effects.push(EffectV::AdjustRow(row->Kit_0, 1, false))
            &&& app.handle_settings_page_event(MenuEvent::Confirm, kit, hdr, fresh, now) == app.activate_row(
                row,
                hdr,
                fresh,
            )
            &&& app.handle_settings_page_event(MenuEvent::Secondary, kit, hdr, fresh, now) == app.clear_override(row)
            &&& app.handle_settings_page_event(MenuEvent::Back, kit, hdr, fresh, now).screens.settings_page.column
        }),
{
    let row = app.settings_page_rows(kit)[app.nav.cursor(Screen::SettingsPage) as int].row;
    assert(app.handle_settings_page_event(MenuEvent::Left, kit, hdr, fresh, now) == app.step_row(
        row,
        -1i32,
        false,
        fresh,
    )) by {
        reveal(AppV::handle_settings_page_event);
    }
    assert(app.handle_settings_page_event(MenuEvent::Right, kit, hdr, fresh, now) == app.step_row(row, 1, false, fresh))
        by {
        reveal(AppV::handle_settings_page_event);
    }
    assert(app.handle_settings_page_event(MenuEvent::Confirm, kit, hdr, fresh, now) == app.activate_row(
        row,
        hdr,
        fresh,
    )) by {
        reveal(AppV::handle_settings_page_event);
    }
    assert(app.handle_settings_page_event(MenuEvent::Secondary, kit, hdr, fresh, now) == app.clear_override(row)) by {
        reveal(AppV::handle_settings_page_event);
    }
    assert(app.handle_settings_page_event(MenuEvent::Back, kit, hdr, fresh, now) == app.with_column(true)) by {
        reveal(AppV::handle_settings_page_event);
    }
}

/// Down on the column of pages turns to the page after, as far as there is one, and to its first row.
pub proof fn law_page_after(app: AppV, kit: Seq<KitRow>, hdr: bool, fresh: Seq<char>, now: u64)
    requires
        app.screens.settings_page.column,
        app.nav.cursors.len() == 20,
    ensures
        ({
            let page = app.screens.settings_page.page;
            let down = app.handle_settings_page_event(MenuEvent::Down, kit, hdr, fresh, now);
            &&& down.screens.settings_page.page == match page {
                Page::General => Page::Display,
                Page::Display => Page::Input,
                Page::Input => Page::Audio,
                Page::Audio => Page::Controllers,
                Page::Controllers => Page::About,
                Page::About => Page::About,
            }
            &&& down.screens.settings_page.page != page ==> down.nav.cursor(Screen::SettingsPage) == 0
            &&& down.settings == app.settings
            &&& down.screens.settings_page.scope == app.screens.settings_page.scope
        }),
{
    assert(app.handle_settings_page_event(MenuEvent::Down, kit, hdr, fresh, now) == app.show_page(
        app.turned_page(1),
        now,
    )) by {
        reveal(AppV::handle_settings_page_event);
    }
}

/// Up turns to the page before, as far as there is one, and to its first row.
pub proof fn law_page_before(app: AppV, kit: Seq<KitRow>, hdr: bool, fresh: Seq<char>, now: u64)
    requires
        app.screens.settings_page.column,
        app.nav.cursors.len() == 20,
    ensures
        ({
            let page = app.screens.settings_page.page;
            let up = app.handle_settings_page_event(MenuEvent::Up, kit, hdr, fresh, now);
            &&& up.screens.settings_page.page == match page {
                Page::General => Page::General,
                Page::Display => Page::General,
                Page::Input => Page::Display,
                Page::Audio => Page::Input,
                Page::Controllers => Page::Audio,
                Page::About => Page::Controllers,
            }
            &&& up.screens.settings_page.page != page ==> up.nav.cursor(Screen::SettingsPage) == 0
            &&& up.settings == app.settings
            &&& up.screens.settings_page.scope == app.screens.settings_page.scope
        }),
{
    assert(app.handle_settings_page_event(MenuEvent::Up, kit, hdr, fresh, now) == app.show_page(
        app.turned_page(-1i32),
        now,
    )) by {
        reveal(AppV::handle_settings_page_event);
    }
}

/// Right and Confirm go from the column into the page's rows, and Back leaves the settings.
pub proof fn law_column_leads_in_and_out(
    app: AppV,
    ev: MenuEvent,
    kit: Seq<KitRow>,
    hdr: bool,
    fresh: Seq<char>,
    now: u64,
)
    requires
        app.screens.settings_page.column,
    ensures
        (ev == MenuEvent::Right || ev == MenuEvent::Confirm) ==> !app.handle_settings_page_event(
            ev,
            kit,
            hdr,
            fresh,
            now,
        ).screens.settings_page.column && app.handle_settings_page_event(ev, kit, hdr, fresh, now).nav == app.nav,
        ev == MenuEvent::Back ==> app.handle_settings_page_event(ev, kit, hdr, fresh, now).nav.screen == Screen::Home,
        (ev == MenuEvent::Right || ev == MenuEvent::Confirm || ev == MenuEvent::Back)
            ==> app.handle_settings_page_event(ev, kit, hdr, fresh, now).settings == app.settings,
{
    if ev == MenuEvent::Right || ev == MenuEvent::Confirm || ev == MenuEvent::Back {
        reveal(AppV::handle_settings_page_event);
    }
}

/// Whether the TV is rooted is asked once, on the display's page; the answer stays, and game mode goes off
/// where it is no.
pub proof fn law_root_is_asked_once(app: AppV, animating: bool, rooted: bool)
    ensures
        ({
            let asks = app.jobs.out.contains(Job::RootProbeOwed) && app.nav.screen == Screen::SettingsPage
                && app.screens.settings_page.page == Page::Display && !animating && app.hosts.rooted is None
                && !app.jobs.out.contains(Job::Rooted);
            let after = app.tick_root_probe(animating);
            &&& asks ==> after.effects == app.effects.push(EffectV::ProbeRoot) && after.jobs.out.contains(Job::Rooted)
                && !after.jobs.out.contains(Job::RootProbeOwed)
            &&& !asks ==> after.effects == app.effects
        }),
        app.jobs.out.contains(Job::Rooted) ==> ({
            let after = app.drain_rooted(rooted);
            &&& after.hosts.rooted == Some(rooted)
            &&& !after.jobs.out.contains(Job::Rooted)
            &&& after.settings == (Settings { game_mode: app.settings.game_mode && rooted, ..app.settings })
            &&& after.settings != app.settings ==> after.effects == app.effects.push(EffectV::Save(document(after)))
            &&& after.settings == app.settings ==> after.effects == app.effects
        }),
        !app.jobs.out.contains(Job::Rooted) ==> app.drain_rooted(rooted) == app,
{
}

/// Opening the settings puts the cursor in the column of pages, on the page that was left.
pub proof fn law_settings_open(app: AppV)
    requires
        app.nav.cursors.len() == 20,
    ensures
        app.open_settings_page().nav.screen == Screen::SettingsPage,
        app.open_settings_page().nav.cursor(Screen::SettingsPage) == 0,
        app.open_settings_page().screens.settings_page.column,
        app.open_settings_page().screens.settings_page.page == app.screens.settings_page.page,
        app.open_settings_page().screens.settings_page.scope == app.screens.settings_page.scope,
        app.open_settings_page().settings == app.settings,
        app.open_settings_page().effects == app.effects,
{
}

/// Calibrating starts at the peak from what is stored, with the pattern on the screen.
pub proof fn law_calibration_starts(app: AppV)
    requires
        app.nav.cursors.len() == 20,
    ensures
        ({
            let after = app.open_hdr_calibration();
            &&& after.nav.screen == Screen::HdrCalibration
            &&& after.screens.hdr is Some
            &&& after.screens.hdr->0.step == HdrStep::Peak
            &&& after.screens.hdr->0.display == app.settings.hdr_display
            &&& after.screens.hdr->0.playing
            &&& after.effects == app.effects.push(EffectV::StartPattern(HdrStep::Peak, app.settings.hdr_display))
            &&& after.settings == app.settings
        }),
{
}

/// What is set while calibrating is the value of the step that is on: no other value moves, but the average,
/// which is never above the peak. The pattern follows each change.
pub proof fn law_calibrated_value(app: AppV, value: u16, stops: (u16, u16), now: u64)
    requires
        app.screens.hdr is Some,
    ensures
        ({
            let h = app.screens.hdr->0;
            let after = app.set_hdr_value(value);
            let d = after.screens.hdr->0.display;
            &&& after.screens.hdr is Some
            &&& after.screens.hdr->0.step == h.step
            &&& h.step == HdrStep::Peak ==> d.peak_nits == value && d.black_code == h.display.black_code
                && d.frame_avg_nits == (if h.display.frame_avg_nits < value {
                h.display.frame_avg_nits
            } else {
                value
            })
            &&& h.step == HdrStep::FrameAverage ==> d.peak_nits == h.display.peak_nits && d.black_code
                == h.display.black_code && d.frame_avg_nits == (if value < h.display.peak_nits {
                value
            } else {
                h.display.peak_nits
            })
            &&& h.step == HdrStep::Black ==> d.black_code == value && d.peak_nits == h.display.peak_nits
                && d.frame_avg_nits == h.display.frame_avg_nits
            &&& (h.playing && d != h.display) ==> after.effects == app.effects.push(EffectV::ShowPattern(h.step, d))
            &&& !(h.playing && d != h.display) ==> after.effects == app.effects
            &&& after.settings == app.settings
            &&& app.handle_hdr_calibration_event(MenuEvent::Left, stops, now) == app.set_hdr_value(stops.0)
            &&& app.handle_hdr_calibration_event(MenuEvent::Right, stops, now) == app.set_hdr_value(stops.1)
        }),
{
    reveal(AppV::handle_hdr_calibration_event);
}

/// Confirming goes from the peak to the average and to black, each with its pattern, and after black stores
/// all that was measured.
pub proof fn law_calibration_goes_on(app: AppV, stops: (u16, u16), now: u64)
    requires
        app.screens.hdr is Some,
    ensures
        ({
            let h = app.screens.hdr->0;
            let after = app.handle_hdr_calibration_event(MenuEvent::Confirm, stops, now);
            let next = if h.step == HdrStep::Peak {
                HdrStep::FrameAverage
            } else {
                HdrStep::Black
            };
            &&& h.step != HdrStep::Black ==> {
                &&& after.screens.hdr == Some(HdrCalibrationState { step: next, ..h })
                &&& h.playing ==> after.effects == app.effects.push(EffectV::ShowPattern(next, h.display))
                &&& after.settings == app.settings
                &&& after.nav == app.nav
            }
            &&& h.step == HdrStep::Black ==> {
                &&& after.settings == (Settings { hdr_display: h.display, hdr_calibrated: true, ..app.settings })
                &&& after.screens.hdr is None
                &&& after.nav.screen == Screen::SettingsPage
                &&& after.effects == app.effects.push(EffectV::Save(document(after)))
            }
        }),
{
    reveal(AppV::handle_hdr_calibration_event);
}

/// Resetting the calibration, once it is confirmed, stores the display's own values and marks it as not
/// calibrated.
pub proof fn law_calibration_is_reset(app: AppV, default: HdrDisplay, now: u64)
    ensures
        ({
            let after = app.handle_reset_hdr_event(MenuEvent::Confirm, default, now);
            &&& after.nav.screen == Screen::SettingsPage
            &&& app.nav.cursor(Screen::ResetHdrCalibration) == 0 ==> after.settings == (Settings {
                hdr_display: default,
                hdr_calibrated: false,
                ..app.settings
            }) && after.effects == app.effects.push(EffectV::Save(document(after)))
            &&& app.nav.cursor(Screen::ResetHdrCalibration) != 0 ==> after.settings == app.settings && after.effects
                == app.effects
            &&& app.handle_reset_hdr_event(MenuEvent::Back, default, now).settings == app.settings
        }),
{
    reveal(AppV::handle_reset_hdr_event);
}

} // verus!
