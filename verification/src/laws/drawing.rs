//! Drawing only what changed, and all that did.
use vstd::prelude::*;
use crate::app::AppV;
use crate::drawcache::used;
use crate::flags::Flag;
use crate::model::Screen;
use crate::slots::EffectV;
use crate::tiles::{snapshot_step, spare_rows, test_phase, FocusKeyV, FocusStep, ShellV, SnapshotStep};

verus! {

/// Two states of one card that are drawn alike show the same: whatever a card shows of a host, a test, a
/// calibration, a question or the settings is part of what it is drawn by.
pub proof fn law_cards_drawn_alike_show_the_same(a: AppV, b: AppV)
    requires
        a.nav.screen == b.nav.screen,
        a.modal_shell() is Some,
        a.modal_shell() == b.modal_shell(),
    ensures
        a.flags.contains(Flag::HoverClose) == b.flags.contains(Flag::HoverClose),
        a.nav.screen == Screen::Wake ==> a.screens.wake->0.name == b.screens.wake->0.name && (a.screens.wake->0.mac.len()
            == 0 <==> b.screens.wake->0.mac.len() == 0),
        a.nav.screen == Screen::Pairing ==> a.screens.pin_digits == b.screens.pin_digits && a.screens.pairing_status
            == b.screens.pairing_status && a.screens.pairing_busy == b.screens.pairing_busy,
        a.nav.screen == Screen::HostMenu ==> a.host_menu_title() == b.host_menu_title() && a.host_menu_subtitle()
            == b.host_menu_subtitle() && a.screens.host_menu_power == b.screens.host_menu_power
            && a.host_menu_actions().len() == b.host_menu_actions().len(),
        a.nav.screen == Screen::HostPower ==> a.host_wol_auto() == b.host_wol_auto() && a.host_power_exit_action()
            == b.host_power_exit_action() && a.power_access() == b.power_access(),
        a.nav.screen == Screen::SpeedTest ==> a.screens.speed_test_name == b.screens.speed_test_name && test_phase(
            a.screens.speed_test,
        ) == test_phase(b.screens.speed_test),
        a.nav.screen == Screen::HdrCalibration ==> a.screens.hdr->0.step == b.screens.hdr->0.step
            && a.screens.hdr->0.display == b.screens.hdr->0.display,
        a.nav.screen == Screen::Collections ==> a.collections_row_count() == b.collections_row_count() && (
        a.screens.collections.dragging is Some <==> b.screens.collections.dragging is Some),
        a.nav.screen == Screen::SettingsPage ==> a.screens.settings_page.page == b.screens.settings_page.page
            && a.scope_name() == b.scope_name(),
        a.nav.screen == Screen::PickProfile ==> a.pick_profile_rows() == b.pick_profile_rows(),
        a.nav.screen == Screen::ForgetHost ==> a.dialog_host() == b.dialog_host(),
        a.nav.screen == Screen::DeleteProfile ==> (a.scope_name() is Some && b.scope_name() is Some ==> a.scope_name()
            == b.scope_name()),
{
}

/// Two focused rows that are drawn alike are the same row, with the same button lit and the same thing set.
pub proof fn law_rows_drawn_alike_are_the_same(a: AppV, b: AppV)
    requires
        a.nav.screen == b.nav.screen,
        a.modal_focus_key() is Some,
        a.modal_focus_key() == b.modal_focus_key(),
    ensures
        a.nav.screen == Screen::Collections ==> a.nav.cursor(Screen::Collections) == b.nav.cursor(Screen::Collections)
            && a.screens.row_button == b.screens.row_button && (a.screens.collections.dragging is Some
            <==> b.screens.collections.dragging is Some),
        a.nav.screen == Screen::Wake ==> a.screens.wake->0.focused == b.screens.wake->0.focused,
        a.nav.screen == Screen::HostMenu ==> a.nav.cursor(Screen::HostMenu) == b.nav.cursor(Screen::HostMenu)
            && a.host_menu_actions()[a.nav.cursor(Screen::HostMenu) as int] == b.host_menu_actions()[b.nav.cursor(
            Screen::HostMenu,
        ) as int] && a.screens.host_menu_power == b.screens.host_menu_power,
        a.nav.screen == Screen::HostPower ==> a.nav.cursor(Screen::HostPower) == b.nav.cursor(Screen::HostPower)
            && a.host_wol_auto() == b.host_wol_auto() && a.host_power_exit_action() == b.host_power_exit_action(),
        a.nav.screen == Screen::SpeedTest ==> a.nav.cursor(Screen::SpeedTest) == b.nav.cursor(Screen::SpeedTest),
        a.nav.screen == Screen::HdrCalibration ==> a.screens.hdr->0.step == b.screens.hdr->0.step
            && a.screens.hdr->0.display == b.screens.hdr->0.display && a.screens.row_button == b.screens.row_button,
        a.nav.screen == Screen::SettingsPage ==> a.nav.cursor(Screen::SettingsPage) == b.nav.cursor(
            Screen::SettingsPage,
        ) && a.screens.settings_page.page == b.screens.settings_page.page && a.settings == b.settings && a.log_level
            == b.log_level && a.hosts.rooted == b.hosts.rooted && a.detected_gamepad_type == b.detected_gamepad_type,
        a.nav.screen == Screen::PickProfile ==> a.nav.cursor(Screen::PickProfile) == b.nav.cursor(Screen::PickProfile),
        (a.nav.screen == Screen::ForgetHost || a.nav.screen == Screen::RemoveCollection || a.nav.screen
            == Screen::DeleteProfile || a.nav.screen == Screen::ResetHdrCalibration || a.nav.screen == Screen::SendLogs)
            ==> a.nav.cursor(a.nav.screen) == b.nav.cursor(b.nav.screen),
{
}

/// When a card and its focused row are drawn again: when what they are drawn by changed, and never else, but
/// that a switch in motion holds the card back.
pub proof fn law_card_is_drawn_again(
    app: AppV,
    shell: Option<ShellV>,
    focus: Option<FocusKeyV>,
    has_shell: bool,
    content_dirty: bool,
)
    requires
        app.nav.screen != Screen::Home,
        app.switch_anim is None,
        app.modal_shell() is Some,
    ensures
        app.modal_plan(shell, focus, has_shell, content_dirty, false).redraw_shell <==> !has_shell || shell
            != app.modal_shell(),
        app.modal_focus_key() is None ==> app.modal_plan(shell, focus, has_shell, content_dirty, false).focus
            == FocusStep::Drop,
        app.modal_focus_key() is Some && focus == app.modal_focus_key() ==> app.modal_plan(
            shell,
            focus,
            has_shell,
            content_dirty,
            false,
        ).focus == FocusStep::Keep,
        app.modal_focus_key() is Some && focus != app.modal_focus_key() ==> app.modal_plan(
            shell,
            focus,
            has_shell,
            content_dirty,
            false,
        ).focus == FocusStep::Redraw,
{
}

/// Nothing of a card is drawn on Home.
pub proof fn law_no_card_on_home(
    app: AppV,
    shell: Option<ShellV>,
    focus: Option<FocusKeyV>,
    has_shell: bool,
    content_dirty: bool,
    screen_changed: bool,
)
    requires
        app.nav.screen == Screen::Home,
    ensures
        !app.modal_plan(shell, focus, has_shell, content_dirty, screen_changed).redraw_shell,
        app.modal_plan(shell, focus, has_shell, content_dirty, screen_changed).focus == FocusStep::Drop,
        app.modal_shell() is None,
{
}

/// A line is drawn when it is another, kept when it is the same, and dropped when there is none.
pub proof fn law_status_is_drawn(app: AppV, drawn: Option<Seq<char>>)
    ensures
        app.home_status is None ==> app.status_step(drawn) == FocusStep::Drop,
        app.home_status is Some && drawn == app.home_status ==> app.status_step(drawn) == FocusStep::Keep,
        app.home_status is Some && drawn != app.home_status ==> app.status_step(drawn) == FocusStep::Redraw,
{
}

/// The rows beyond the list that are still held are the ones let go of.
pub proof fn law_spare_rows(drawn: Seq<Option<u64>>, from: int, n: int)
    requires
        0 <= n <= drawn.len() <= usize::MAX,
    ensures
        forall|i: usize|
            #[trigger] spare_rows(drawn, from, n).contains(i) <==> from <= i < n && drawn[i as int] is Some,
    decreases n,
{
    if n > 0 {
        law_spare_rows(drawn, from, n - 1);
        let before = spare_rows(drawn, from, n - 1);
        let all = spare_rows(drawn, from, n);
        assert forall|i: usize| #[trigger] all.contains(i) <==> from <= i < n && drawn[i as int] is Some by {
            assert(before.contains(i) <==> from <= i < n - 1 && drawn[i as int] is Some);
            if before.contains(i) {
                let k = choose|k: int| 0 <= k < before.len() && before[k] == i;
                assert(all[k] == i);
            }
            if all.contains(i) {
                let k = choose|k: int| 0 <= k < all.len() && all[k] == i;
                if k < before.len() {
                    assert(before[k] == i);
                }
            }
            if i == n - 1 && from <= i && drawn[i as int] is Some {
                assert(all[before.len() as int] == i);
            }
        }
    }
}

/// A card that closes is copied as it was when it was left, with its rows where it has any, and the copy is
/// let go of when it has closed.
pub proof fn law_closing_card_is_copied(closing: Option<Screen>, had_copy: bool, screen_changed: bool, has_shell: bool)
    ensures
        closing is None && had_copy ==> snapshot_step(closing, had_copy, screen_changed, has_shell) == SnapshotStep::Drop,
        closing is None && !had_copy ==> snapshot_step(closing, had_copy, screen_changed, has_shell)
            == SnapshotStep::Keep,
        closing is Some && screen_changed && has_shell ==> snapshot_step(closing, had_copy, screen_changed, has_shell)
            == (SnapshotStep::Take {
            rows: closing->0 == Screen::SettingsPage || closing->0 == Screen::Collections,
        }),
        closing is Some && !(screen_changed && has_shell) ==> snapshot_step(
            closing,
            had_copy,
            screen_changed,
            has_shell,
        ) == SnapshotStep::Keep,
{
}

/// What was used last is kept first, and what was used longest ago is what goes.
pub proof fn law_least_used_goes(slots: Seq<Option<u64>>, key: u64, other: u64)
    requires
        slots.len() > 0,
    ensures
        used(slots, key)[0] == Some(key),
        used(slots, key).len() == slots.len(),
        !slots.contains(Some(key)) ==> (forall|j: int|
            0 < j < slots.len() ==> #[trigger] used(slots, key)[j] == slots[j - 1]),
{
    slots.index_of_first_ensures(Some(key));
}

/// Every cover that is out of date is told so; when all are, that is told once, and the grid starts over.
pub proof fn law_stale_covers_are_told(app: AppV, k: int)
    requires
        0 <= k < app.grid.cards_dirty.len(),
    ensures
        app.grid.dirty ==> app.release_stale_cards().effects == app.effects.push(EffectV::StaleCovers)
            && !app.release_stale_cards().grid.revealed && !app.release_stale_cards().grid.dirty,
        !app.grid.dirty ==> app.release_stale_cards().effects[app.effects.len() + k] == EffectV::StaleCover(
            app.grid.cards_dirty[k],
        ) && app.release_stale_cards().effects.len() == app.effects.len() + app.grid.cards_dirty.len()
            && app.release_stale_cards().grid.revealed == app.grid.revealed,
        app.release_stale_cards().grid.cards_dirty.len() == 0,
        app.release_stale_cards().library == app.library,
{
    if !app.grid.dirty {
        let fresh = AppV { grid: crate::grid::GridV { cards_dirty: Seq::empty(), ..app.grid }, ..app };
        lemma_drop_covers(fresh, app.grid.cards_dirty, app.grid.cards_dirty.len() as int, k);
    }
}

proof fn lemma_drop_covers(app: AppV, ids: Seq<Seq<char>>, n: int, k: int)
    requires
        0 <= k < n <= ids.len(),
    ensures
        app.drop_covers(ids, n).effects.len() == app.effects.len() + n,
        app.drop_covers(ids, n).effects[app.effects.len() + k] == EffectV::StaleCover(ids[k]),
        app.drop_covers(ids, n) == (AppV { effects: app.drop_covers(ids, n).effects, ..app }),
    decreases n,
{
    if n > 1 {
        lemma_drop_covers(
            app,
            ids,
            n - 1,
            if k < n - 1 {
                k
            } else {
                0
            },
        );
    } else {
        assert(app.drop_covers(ids, 0) == app);
    }
}

/// A card that leaves the window is let go of: what is held of it, and its place among those that came in.
pub proof fn law_card_is_let_go(app: AppV, id: Seq<char>, other: Seq<char>)
    ensures
        app.let_go(id).effects == app.effects.push(EffectV::DropCover(id)),
        !app.let_go(id).library.art.contains(id),
        !app.let_go(id).grid.arrivals.dom().contains(id),
        other != id ==> (app.let_go(id).library.art.contains(other) <==> app.library.art.contains(other)),
        other != id ==> (app.let_go(id).grid.arrivals.dom().contains(other) <==> app.grid.arrivals.dom().contains(
            other,
        )),
        app.let_go(id).library.games == app.library.games,
{
}

} // verus!
