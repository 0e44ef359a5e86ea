//! The pointer: what it rests on has the focus, and a click does what a press there would.
use vstd::prelude::*;
use crate::app::AppV;
use crate::dispatch::ContextV;
use crate::flags::{Flag, Job};
use crate::laws::profiling::edits;
use crate::model::{HomeFocus, Screen, TargetV};
use crate::pointer::{row_screen, Click, Hit, Pointer};
use crate::rows::{confirms, lists};
use crate::scroll::GridShape;
use crate::slots::{HdrStep, KitRow, RowButton};

verus! {

/// On Home the pointer takes the focus to the row, the row's button or the card that it is on, and leaves it
/// where it is on none. With a card's menu up it goes only along that menu. Nothing else moves.
pub proof fn law_pointer_on_home(app: AppV, p: Pointer, s: GridShape, now: u64)
    requires
        app.nav.screen == Screen::Home,
        !app.flags.contains(Flag::SliderDrag),
    ensures
        ({
            let (after, moved) = app.handle_mouse_motion(p, s, now);
            &&& app.card_menu is None ==> after.home_focus == match p.hit {
                Hit::SidebarRow(i) => HomeFocus::Sidebar(i),
                Hit::MenuButton(i) => HomeFocus::SidebarMenu(i),
                Hit::Slot(i) => if app.library.card_at(s.columns as nat, i as nat) is Some {
                    HomeFocus::Grid(i)
                } else {
                    app.home_focus
                },
                _ => app.home_focus,
            }
            &&& app.card_menu is None ==> after.card_menu is None
            &&& (app.card_menu is Some && p.hit is CardMenuRow) ==> after.card_menu is Some && after.card_menu->0.focused
                == p.hit->CardMenuRow_0 && after.card_menu->0.pin_id == app.card_menu->0.pin_id && after.home_focus
                == app.home_focus
            &&& (app.card_menu is Some && !(p.hit is CardMenuRow)) ==> after.card_menu == app.card_menu
                && after.home_focus == app.home_focus
            &&& (app.card_menu is None && after.home_focus != app.home_focus) ==> moved
            &&& (after.home_focus == app.home_focus && after.card_menu == app.card_menu && p.close is None) ==> !moved
            &&& after.nav == app.nav
            &&& after.hosts == app.hosts
            &&& after.library == app.library
            &&& after.effects == app.effects
        }),
{
    reveal(AppV::handle_mouse_motion);
    reveal(AppV::hover_home);
}

/// In a list the pointer takes the cursor to the row that it is on, and to the button of it.
pub proof fn law_pointer_on_a_row(app: AppV, p: Pointer, row: usize, button: Option<RowButton>, s: GridShape, now: u64)
    requires
        row_screen(app.nav.screen),
        p.hit == Hit::Row(row, button),
        !app.flags.contains(Flag::SliderDrag),
        app.screens.collections.dragging is None,
        app.nav.cursors.len() == 20,
    ensures
        ({
            let (after, moved) = app.handle_mouse_motion(p, s, now);
            &&& after.nav.cursor(app.nav.screen) == row
            &&& after.nav.screen == app.nav.screen
            &&& after.screens.row_button == button
            &&& (app.nav.cursor(app.nav.screen) != row || app.screens.row_button != button) ==> moved
            &&& app.nav.cursor(app.nav.screen) != row ==> after.modal_focus_anim == Some(now)
            &&& after.settings == app.settings
            &&& after.hosts == app.hosts
            &&& after.effects == app.effects
        }),
{
    reveal(AppV::handle_mouse_motion);
    reveal(AppV::hover_row);
}

/// On a question the pointer takes the focus to the answer that it is on.
pub proof fn law_pointer_on_an_answer(app: AppV, p: Pointer, i: usize, s: GridShape, now: u64)
    requires
        confirms(app.nav.screen),
        app.confirm_for(app.nav.screen) is Some,
        p.hit == Hit::Answer(i),
        !app.flags.contains(Flag::SliderDrag),
        app.nav.cursors.len() == 20,
    ensures
        ({
            let (after, moved) = app.handle_mouse_motion(p, s, now);
            &&& app.nav.screen == Screen::Wake ==> after.screens.wake is Some && after.screens.wake->0.focused == i
                && after.screens.wake->0.host == app.screens.wake->0.host
            &&& app.nav.screen != Screen::Wake ==> after.nav.cursor(app.nav.screen) == i
            &&& after.nav.screen == app.nav.screen
            &&& after.hosts == app.hosts
            &&& after.effects == app.effects
        }),
{
    reveal(AppV::handle_mouse_motion);
    reveal(AppV::hover_answer);
}

/// Whether the pointer is on the close mark is kept, and lost when it leaves.
pub proof fn law_close_mark_is_lit(app: AppV, p: Pointer, s: GridShape, now: u64)
    requires
        !app.flags.contains(Flag::SliderDrag),
    ensures
        app.handle_mouse_motion(p, s, now).0.flags.contains(Flag::HoverClose) <==> p.close == Some(true),
{
    reveal(AppV::handle_mouse_motion);
}

/// While a slider is held, the pointer sets what the slider sets and nothing else; the focus stays.
pub proof fn law_held_slider_follows(app: AppV, i: int, p: Pointer, s: GridShape, now: u64)
    requires
        app.flags.contains(Flag::SliderDrag),
        app.nav.screen != Screen::HdrCalibration,
        app.screens.settings_page.scope is Global || edits(app, i),
    ensures
        ({
            let (after, moved) = app.handle_mouse_motion(p, s, now);
            &&& moved
            &&& app.screens.settings_page.scope is Global ==> after.settings.bitrate_kbps == p.bitrate
            &&& edits(app, i) ==> after.profiles[i].overrides.bitrate_kbps == Some(p.bitrate)
            &&& after.nav == app.nav
            &&& after.home_focus == app.home_focus
        }),
{
    reveal(AppV::handle_mouse_motion);
    reveal(AppV::drag_slider);
    reveal(AppV::set_bitrate);
    if edits(app, i) {
        crate::laws::law_profile_is_found(app.profiles, i, app.screens.settings_page.scope->Profile_0);
    }
}

/// While the calibration's slider is held, the pointer sets the step's value.
pub proof fn law_held_calibration_follows(app: AppV, p: Pointer, s: GridShape, now: u64)
    requires
        app.flags.contains(Flag::SliderDrag),
        app.nav.screen == Screen::HdrCalibration,
        app.screens.hdr is Some,
    ensures
        ({
            let d = app.handle_mouse_motion(p, s, now).0.screens.hdr->0.display;
            &&& app.screens.hdr->0.step == HdrStep::Peak ==> d.peak_nits == p.luminance
            &&& app.screens.hdr->0.step == HdrStep::Black ==> d.black_code == p.luminance
        }),
{
    reveal(AppV::handle_mouse_motion);
    reveal(AppV::drag_slider);
}

/// A click on a paired host's row selects that host.
pub proof fn law_click_on_a_host(app: AppV, p: Pointer, c: ContextV, i: usize, now: u64)
    requires
        app.nav.screen == Screen::Home,
        app.card_menu is None,
        !app.flags.contains(Flag::SliderDrag),
        p.hit == Hit::SidebarRow(i),
        p.close is None,
        i < app.hosts.entries.len(),
        app.hosts.entries[i as int] is Known,
        app.hosts.entries[i as int]->Known_0.pin is Some,
    ensures
        ({
            let h = app.hosts.entries[i as int]->Known_0;
            let after = app.click(p, c, now);
            &&& after.home_focus == HomeFocus::Sidebar(i)
            &&& after.library.selected_host == Some(TargetV { host: h.addr, port: h.port })
            &&& after.jobs.out.contains(Job::Games)
            &&& after.effects.last() is FetchGames
        }),
{
    reveal(AppV::handle_mouse_motion);
    reveal(AppV::hover_home);
    reveal(AppV::click_home);
    reveal(AppV::handle_home_event);
    reveal(AppV::confirm_home);
    reveal(AppV::confirm_sidebar);
}

/// A click on a row's button opens that host's menu; one on nothing does nothing.
pub proof fn law_click_on_a_menu_button(app: AppV, p: Pointer, c: ContextV, i: usize, now: u64)
    requires
        app.nav.screen == Screen::Home,
        app.card_menu is None,
        !app.flags.contains(Flag::SliderDrag),
        p.close is None,
    ensures
        p.hit == Hit::MenuButton(i) ==> ({
            let after = app.click(p, c, now);
            &&& after.nav.screen == Screen::HostMenu
            &&& after.screens.host_menu_index == Some(i)
            &&& after.home_focus == HomeFocus::SidebarMenu(i)
            &&& after.effects == app.effects
        }),
        p.hit == Hit::Nothing ==> ({
            let after = app.click(p, c, now);
            after.home_focus == app.home_focus && after.nav == app.nav && after.effects == app.effects && after.library
                == app.library
        }),
{
    reveal(AppV::handle_mouse_motion);
    reveal(AppV::hover_home);
    reveal(AppV::click_home);
}

/// A click on a card does what a press on it does: it launches that card.
pub proof fn law_click_on_a_card(app: AppV, p: Pointer, c: ContextV, i: usize, now: u64)
    requires
        app.nav.screen == Screen::Home,
        app.card_menu is None,
        !app.flags.contains(Flag::SliderDrag),
        p.hit == Hit::Slot(i),
        p.close is None,
        app.library.card_at(c.shape.columns as nat, i as nat) is Some,
        app.grid_launch(i, c.shape) is Some,
    ensures
        app.click(p, c, now).launch_ready == app.grid_launch(i, c.shape),
        app.click(p, c, now).home_focus == HomeFocus::Grid(i),
{
    reveal(AppV::handle_mouse_motion);
    reveal(AppV::hover_home);
    reveal(AppV::click_home);
    reveal(AppV::handle_home_event);
    reveal(AppV::confirm_home);
}

/// A click on the close mark goes back, whatever is under it.
pub proof fn law_click_on_the_close_mark(app: AppV, p: Pointer, kit: Seq<KitRow>, s: GridShape, now: u64)
    requires
        !app.flags.contains(Flag::SliderDrag),
        p.close == Some(true),
    ensures
        app.handle_mouse_click(p, kit, s, now).1 == Click::Back,
{
    reveal(AppV::handle_mouse_motion);
}

/// A click in a list presses the row that it is on.
pub proof fn law_click_on_a_row(app: AppV, p: Pointer, row: usize, button: Option<RowButton>, kit: Seq<KitRow>, s: GridShape, now: u64)
    requires
        lists(app.nav.screen),
        app.nav.screen != Screen::HdrCalibration,
        p.hit == Hit::Row(row, button),
        p.close != Some(true),
        !app.flags.contains(Flag::SliderDrag),
        app.nav.cursors.len() == 20,
    ensures
        ({
            let (after, click) = app.handle_mouse_click(p, kit, s, now);
            &&& click == Click::Press
            &&& after.nav.cursor(app.nav.screen) == row
            &&& after.screens.row_button == button
            &&& after.nav.screen == app.nav.screen
        }),
{
    reveal(AppV::handle_mouse_motion);
    reveal(AppV::hover_row);
    reveal(AppV::click_row);
}

/// A click on the track of the bitrate's slider takes hold of it and sets it there; beside the track it
/// presses the row.
pub proof fn law_click_on_the_bitrate(app: AppV, p: Pointer, row: usize, kit: Seq<KitRow>, s: GridShape, now: u64)
    requires
        app.nav.screen == Screen::SettingsPage,
        p.hit is Row,
        p.hit->Row_0 == row,
        !app.flags.contains(Flag::SliderDrag),
        app.screens.settings_page.scope is Global,
        app.nav.cursors.len() == 20,
    ensures
        ({
            let (after, click) = app.click_screen(p, kit, s, now);
            let rows = app.settings_page_rows(kit);
            let slides = p.on_track && row < rows.len() && rows[row as int].row == crate::settingspage::PageRow::Kit(
                KitRow::Bitrate,
            );
            &&& after.nav.cursor(Screen::SettingsPage) == row
            &&& slides ==> click == Click::Spent && after.settings.bitrate_kbps == p.bitrate && after.flags.contains(
                Flag::SliderDrag,
            )
            &&& !slides ==> click == Click::Press && after.settings == app.settings && !after.flags.contains(
                Flag::SliderDrag,
            )
        }),
{
    let placed = app.with_row(row);
    assert(placed.settings_page_rows(kit) == app.settings_page_rows(kit));
    assert(app.click_screen(p, kit, s, now) == if p.on_track && placed.on_bitrate_row(kit) {
        (placed.grab_slider(p), Click::Spent)
    } else {
        (placed, Click::Press)
    }) by {
        reveal(AppV::click_settings);
    }
    assert(placed.grab_slider(p).settings.bitrate_kbps == p.bitrate && placed.grab_slider(p).nav == placed.nav
        && placed.grab_slider(p).flags.contains(Flag::SliderDrag)) by {
        reveal(AppV::drag_slider);
        reveal(AppV::set_bitrate);
    }
}

} // verus!
