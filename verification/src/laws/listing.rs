//! Lists: what can have the focus, what each list shows, and which of its rows can be changed.
use vstd::prelude::*;
use crate::app::AppV;
use crate::home::sidebar_items;
use crate::hostmenu::HostAction;
use crate::hosts::EntryV;
use crate::knownhost::holds_card;
use crate::laws::profiling::edits;
use crate::laws::{law_profile_is_found, law_saved_host_is_found, law_selected_host_is_found, saved_at, selected_at};
use crate::library::LibraryV;
use crate::listcards::{Control, HeadingV};
use crate::menu::{locked_by, SettingsRow};
use crate::model::{
    AudioRoutePref, CodecPref, CollectionV, ExitAction, GamepadType, HomeFocus, Screen, Settings, VideoCaps,
};
use crate::pagespecs::{PageContext, SpecKind};
use crate::profilepick::profile_rows;
use crate::rows::step_button;
use crate::seqs::{lemma_first_from, lemma_first_is};
use crate::settingspage::{pins, row_shown, shown_rows, PageLineV, PageRow};
use crate::slots::{KitRow, ProbeVerdict, ProfilePickV, RowButton};

verus! {

/// Every row of the sidebar can have the focus, and so can the button of every row that has one; nothing
/// else in it can.
pub proof fn law_sidebar_can_have_the_focus(entries: Seq<EntryV>, n: int)
    requires
        0 <= n <= usize::MAX,
    ensures
        ({
            let items = sidebar_items(entries, n);
            &&& forall|k: usize| k < n ==> #[trigger] items.contains(HomeFocus::Sidebar(k))
            &&& forall|k: usize|
                k < n && k < entries.len() && !(entries[k as int] is Pinned) ==> #[trigger] items.contains(
                    HomeFocus::SidebarMenu(k),
                )
            &&& forall|j: int|
                0 <= j < items.len() ==> match #[trigger] items[j] {
                    HomeFocus::Sidebar(k) => k < n,
                    HomeFocus::SidebarMenu(k) => k < n && k < entries.len() && !(entries[k as int] is Pinned),
                    HomeFocus::Grid(_) => false,
                }
        }),
    decreases n,
{
    if n > 0 {
        law_sidebar_can_have_the_focus(entries, n - 1);
        let rest = sidebar_items(entries, n - 1);
        let items = sidebar_items(entries, n);
        assert(items.last() == HomeFocus::Sidebar((n - 1) as usize));
        assert forall|k: usize| k < n implies #[trigger] items.contains(HomeFocus::Sidebar(k)) by {
            if k < n - 1 {
                assert(rest.contains(HomeFocus::Sidebar(k)));
                let j = choose|j: int| 0 <= j < rest.len() && rest[j] == HomeFocus::Sidebar(k);
                assert(items[j] == rest[j]);
            } else {
                assert(items[items.len() - 1] == HomeFocus::Sidebar(k));
            }
        }
        assert forall|k: usize| k < n && k < entries.len() && !(entries[k as int] is Pinned) implies #[trigger] items.contains(
            HomeFocus::SidebarMenu(k),
        ) by {
            if k < n - 1 {
                assert(rest.contains(HomeFocus::SidebarMenu(k)));
                let j = choose|j: int| 0 <= j < rest.len() && rest[j] == HomeFocus::SidebarMenu(k);
                assert(items[j] == rest[j]);
            } else {
                assert(items[rest.len() as int] == HomeFocus::SidebarMenu(k));
            }
        }
        assert forall|j: int| 0 <= j < items.len() implies match #[trigger] items[j] {
            HomeFocus::Sidebar(k) => k < n,
            HomeFocus::SidebarMenu(k) => k < n && k < entries.len() && !(entries[k as int] is Pinned),
            HomeFocus::Grid(_) => false,
        } by {
            if j < rest.len() {
                assert(items[j] == rest[j]);
            }
        }
    }
}

/// Every slot that holds a card can have the focus, and no hole can.
pub proof fn law_cards_can_have_the_focus(lib: LibraryV, columns: nat, from: int, to: int)
    requires
        0 <= from <= to <= usize::MAX,
    ensures
        ({
            let items = lib.card_items(columns, from, to);
            &&& forall|i: usize|
                from <= i < to ==> (#[trigger] items.contains(HomeFocus::Grid(i)) <==> lib.card_at(columns, i as nat) is Some)
            &&& forall|j: int|
                0 <= j < items.len() ==> (#[trigger] items[j]) is Grid && from <= items[j]->Grid_0 < to
        }),
    decreases to - from,
{
    if from < to {
        law_cards_can_have_the_focus(lib, columns, from, to - 1);
        let rest = lib.card_items(columns, from, to - 1);
        let items = lib.card_items(columns, from, to);
        assert forall|i: usize| from <= i < to implies (#[trigger] items.contains(HomeFocus::Grid(i))
            <==> lib.card_at(columns, i as nat) is Some) by {
            let f = HomeFocus::Grid(i);
            if i < to - 1 {
                if rest.contains(f) {
                    let j = choose|j: int| 0 <= j < rest.len() && rest[j] == f;
                    assert(items[j] == f);
                }
                if items.contains(f) {
                    let j = choose|j: int| 0 <= j < items.len() && items[j] == f;
                    assert(j < rest.len());
                    assert(rest[j] == f);
                }
                assert(rest.contains(f) <==> lib.card_at(columns, i as nat) is Some);
            } else {
                if items.contains(f) {
                    let j = choose|j: int| 0 <= j < items.len() && items[j] == f;
                    if j < rest.len() {
                        assert(rest[j] == f);
                        assert(rest[j]->Grid_0 < to - 1);
                    }
                }
                if lib.card_at(columns, i as nat) is Some {
                    assert(items[rest.len() as int] == f);
                }
            }
        }
        assert forall|j: int| 0 <= j < items.len() implies (#[trigger] items[j]) is Grid && from <= items[j]->Grid_0
            < to by {
            if j < rest.len() {
                assert(items[j] == rest[j]);
            }
        }
    }
}

/// The buttons of a row are stepped through one by one, from the handle before it to the last behind it, and
/// no further.
pub proof fn law_row_buttons(leading: bool, trailing: nat, i: usize)
    requires
        trailing <= usize::MAX,
    ensures
        step_button(None, true, leading, trailing) == (if trailing > 0 {
            Some(Some(RowButton::Trailing(0)))
        } else {
            None
        }),
        step_button(None, false, leading, trailing) == (if leading {
            Some(Some(RowButton::Leading))
        } else {
            None
        }),
        step_button(Some(RowButton::Leading), true, leading, trailing) == Some(None::<RowButton>),
        step_button(Some(RowButton::Leading), false, leading, trailing) is None,
        i + 1 < trailing ==> step_button(Some(RowButton::Trailing(i)), true, leading, trailing) == Some(
            Some(RowButton::Trailing((i + 1) as usize)),
        ),
        i + 1 >= trailing ==> step_button(Some(RowButton::Trailing(i)), true, leading, trailing) is None,
        i > 0 ==> step_button(Some(RowButton::Trailing(i)), false, leading, trailing) == Some(
            Some(RowButton::Trailing((i - 1) as usize)),
        ),
        step_button(Some(RowButton::Trailing(0)), false, leading, trailing) == Some(None::<RowButton>),
{
}

// ------------------------------------------------------------------------------- lists --

/// A host's menu lists what it offers, by name, and marks what loses something; connecting says where it
/// pairs first.
pub proof fn law_host_menu_lists(app: AppV, idx: usize, r: int)
    requires
        app.screens.host_menu_index == Some(idx),
        idx < app.hosts.entries.len(),
        0 <= r < app.host_menu_actions().len(),
    ensures
        ({
            let card = app.host_menu_card();
            let action = app.host_menu_actions()[r];
            &&& card.rows.len() == app.host_menu_actions().len()
            &&& card.heading is Host
            &&& card.heading->Host_name == app.hosts.entries[idx as int].name()
            &&& card.rows[r].enabled
            &&& card.rows[r].danger <==> action == HostAction::Forget
            &&& action == HostAction::Connect ==> card.rows[r].label == "Connect"@
            &&& action == HostAction::Pair ==> card.rows[r].label == "Pair with PIN"@
            &&& action == HostAction::SpeedTest ==> card.rows[r].label == "Test network speed"@
            &&& action == HostAction::PowerSettings ==> card.rows[r].label == "Power settings"@
            &&& action == HostAction::ConnectWith ==> card.rows[r].label == "Connect with…"@
            &&& action == HostAction::DefaultProfile ==> card.rows[r].label == "Default profile…"@
            &&& action == HostAction::Pin ==> card.rows[r].label == "Pin to sidebar…"@
            &&& action == HostAction::Edit ==> card.rows[r].label == "Edit address"@
            &&& action == HostAction::Forget ==> card.rows[r].label == "Forget host"@
            &&& action == HostAction::Power ==> card.rows[r].label == match app.screens.host_menu_power {
                None => "Wake host"@,
                Some(ExitAction::Sleep) => "Put to sleep"@,
                Some(_) => "Shut down"@,
            }
        }),
{
}

/// A host's power settings show what is set for it, and lock what the host does not let be done.
pub proof fn law_power_settings_list(app: AppV, idx: usize, i: int)
    requires
        app.screens.host_menu_index == Some(idx),
        idx < app.hosts.entries.len(),
        saved_at(app.hosts.known, i, app.hosts.entries[idx as int].target()),
    ensures
        ({
            let h = app.hosts.known[i];
            let card = app.host_power_card();
            let open = h.pin is Some && (app.screens.power_rights matches Some(ProbeVerdict::Rights(r)) && (r.sleep
                || r.shutdown));
            &&& card.rows.len() == 2
            &&& card.heading == HeadingV::Power(app.hosts.entries[idx as int].name())
            &&& card.rows[0].label == "Wake automatically"@
            &&& card.rows[0].control == Control::Toggle(h.wol_auto)
            &&& card.rows[1].label == "App exit behaviour"@
            &&& card.rows[1].value == Some(
                match h.exit_action {
                    ExitAction::Nothing => "None"@,
                    ExitAction::Sleep => "Sleep"@,
                    ExitAction::Shutdown => "Shut down"@,
                },
            )
            &&& card.rows[1].enabled <==> open
        }),
{
    law_saved_host_is_found(app.hosts.known, i, app.hosts.entries[idx as int].target());
    reveal_strlit("On");
    reveal_strlit("Off");
    assert("On"@.len() == 2 && "Off"@.len() == 3);
}

/// What a run of shelves is listed as.
proof fn lemma_shelf_rows(app: AppV, shelves: Seq<CollectionV>, n: int, k: int)
    requires
        0 <= k < n <= shelves.len(),
    ensures
        app.shelf_rows(shelves, n).len() == n,
        app.shelf_rows(shelves, n)[k].label == shelves[k].name,
        app.shelf_rows(shelves, n)[k].marked == app.holds_target(k as usize),
        app.shelf_rows(shelves, n)[k].buttons == (if shelves[k].dynamic {
            1int
        } else {
            2
        }),
    decreases n,
{
    if n > 1 {
        lemma_shelf_rows(
            app,
            shelves,
            n - 1,
            if k < n - 1 {
                k
            } else {
                0
            },
        );
    } else {
        assert(app.shelf_rows(shelves, 0).len() == 0);
    }
}

/// The shelves are listed by name in their order, with the one that holds the card marked; the last row adds
/// one.
pub proof fn law_shelves_list(app: AppV, i: int, k: int, id: Seq<char>)
    requires
        selected_at(app, i),
        app.screens.collections.target == Some(id),
        0 <= k < app.hosts.known[i].collections.len() <= usize::MAX,
    ensures
        app.shelves_card() matches Some(card) && {
            let cols = app.hosts.known[i].collections;
            &&& card.rows.len() == cols.len() + 1
            &&& card.rows[k].label == cols[k].name
            &&& (!cols[k].dynamic && cols[k].games.contains(id) && forall|j: int|
                0 <= j < k ==> (#[trigger] cols[j]).dynamic || !cols[j].games.contains(id)) ==> card.rows[k].marked
            &&& (!cols[k].dynamic && !cols[k].games.contains(id)) ==> !card.rows[k].marked
            &&& card.rows.last().label == "Add collection"@
            &&& !card.rows.last().marked
        },
{
    law_selected_host_is_found(app, i);
    let cols = app.hosts.known[i].collections;
    lemma_shelf_rows(app, cols, cols.len() as int, k);
    lemma_first_from(cols, holds_card(id), 0);
    lemma_first_from(cols, crate::knownhost::is_library(), 0);
    if !cols[k].dynamic && cols[k].games.contains(id) && (forall|j: int|
        0 <= j < k ==> (#[trigger] cols[j]).dynamic || !cols[j].games.contains(id)) {
        lemma_first_is(cols, holds_card(id), k);
    }
}

/// What a run of profiles is listed as.
proof fn lemma_profile_rows(app: AppV, current: Option<Seq<char>>, pinned: Seq<Seq<char>>, n: int, k: int)
    requires
        0 <= k < n <= app.profiles.len(),
    ensures
        profile_rows(app.profiles, current, pinned, n).len() == n,
        profile_rows(app.profiles, current, pinned, n)[k].name == Some(app.profiles[k].name),
        profile_rows(app.profiles, current, pinned, n)[k].marked == (current == Some(app.profiles[k].id)
            || pinned.contains(app.profiles[k].id)),
    decreases n,
{
    if n > 1 {
        lemma_profile_rows(
            app,
            current,
            pinned,
            n - 1,
            if k < n - 1 {
                k
            } else {
                0
            },
        );
    } else {
        assert(profile_rows(app.profiles, current, pinned, 0).len() == 0);
    }
}

/// The picker lists the profiles by name in their order, below None where none may be chosen, and marks what
/// is chosen now: a host's default, or each profile that is pinned under it.
pub proof fn law_profiles_list(app: AppV, i: int, k: int, pick: ProfilePickV)
    requires
        app.screens.profile_pick == Some(pick),
        0 <= k < app.profiles.len(),
        pick matches ProfilePickV::HostDefault(at) ==> saved_at(app.hosts.known, i, at),
        pick matches ProfilePickV::Pin(at) ==> saved_at(app.hosts.known, i, at),
    ensures
        app.profiles_card() matches Some(card) && {
            let lead = if pick is HostDefault || pick is BindGame {
                1int
            } else {
                0
            };
            &&& card.rows.len() == app.profiles.len() + lead
            &&& card.rows[k + lead].label == app.profiles[k].name
            &&& lead == 1 ==> card.rows[0].label == "None"@
            &&& pick is HostDefault ==> (card.rows[k + lead].marked <==> app.hosts.known[i].profile_id == Some(
                app.profiles[k].id,
            ))
            &&& pick is HostDefault ==> (card.rows[0].marked <==> app.hosts.known[i].profile_id is None)
            &&& pick is Pin ==> (card.rows[k].marked <==> app.hosts.known[i].pinned_profiles.contains(
                app.profiles[k].id,
            ))
            &&& pick is ConnectWith ==> !card.rows[k].marked
        },
{
    match pick {
        ProfilePickV::HostDefault(at) => {
            law_saved_host_is_found(app.hosts.known, i, at);
        },
        ProfilePickV::Pin(at) => {
            law_saved_host_is_found(app.hosts.known, i, at);
        },
        _ => {},
    }
    let current = app.pick_current(pick);
    let pinned = match pick {
        ProfilePickV::Pin(at) => match app.hosts.host_at(at) {
            Some(h) => h.pinned_profiles,
            None => Seq::empty(),
        },
        _ => Seq::empty(),
    };
    lemma_profile_rows(app, current, pinned, app.profiles.len() as int, k);
}

/// The picker opens on what is chosen now.
pub proof fn law_pick_opens_on_the_choice(app: AppV, i: int, at: crate::model::TargetV, k: int)
    requires
        saved_at(app.hosts.known, i, at),
        app.hosts.known[i].profile_id is Some,
        crate::laws::profile_at(app.profiles, k, app.hosts.known[i].profile_id->0),
        app.profiles.len() < usize::MAX,
        app.nav.cursors.len() == 20,
    ensures
        ({
            let after = app.open_pick_profile(ProfilePickV::HostDefault(at));
            &&& after.nav.screen == Screen::PickProfile
            &&& after.nav.cursor(Screen::PickProfile) == k + 1
            &&& after.screens.profile_pick == Some(ProfilePickV::HostDefault(at))
            &&& after.hosts == app.hosts
        }),
{
    law_saved_host_is_found(app.hosts.known, i, at);
    law_profile_is_found(app.profiles, k, app.hosts.known[i].profile_id->0);
}

// ---------------------------------------------------------------------------- settings --

/// Every row of a page that applies is shown.
pub proof fn law_applying_rows_are_shown(rows: Seq<PageLineV>, kit: Seq<KitRow>, calibrated: bool, n: int, k: int)
    requires
        0 <= k < n <= rows.len(),
        row_shown(rows[k].row, kit, calibrated),
    ensures
        exists|j: int|
            0 <= j < shown_rows(rows, kit, calibrated, n).len() && (#[trigger] shown_rows(rows, kit, calibrated, n)[j]).row
                == rows[k].row,
    decreases n,
{
    let before = shown_rows(rows, kit, calibrated, n - 1);
    let all = shown_rows(rows, kit, calibrated, n);
    if k < n - 1 {
        law_applying_rows_are_shown(rows, kit, calibrated, n - 1, k);
        let j = choose|j: int| 0 <= j < before.len() && (#[trigger] before[j]).row == rows[k].row;
        assert(all[j] == before[j]);
    } else {
        assert(all[before.len() as int].row == rows[k].row);
    }
}

/// A row shows what is set: the switches their settings, the choices what is chosen, and a dot by each
/// setting that the profile in scope has of its own.
pub proof fn law_rows_show_what_is_set(app: AppV, i: int, row: KitRow, ctx: PageContext)
    requires
        edits(app, i),
    ensures
        app.row_spec(PageRow::Kit(row), ctx).dot <==> pins(app.profiles[i].overrides, row),
        app.row_spec(PageRow::Kit(row), ctx).kind == SpecKind::Shared(row),
        app.row_spec(PageRow::Editing, ctx).value == app.profiles[i].name,
        app.row_spec(PageRow::ShowLogs, ctx).kind == SpecKind::Toggle(app.settings.show_logs),
        app.row_spec(PageRow::GameMode, ctx).kind == SpecKind::Toggle(app.settings.game_mode),
        app.row_spec(PageRow::GameMode, ctx).lock is None <==> app.hosts.rooted == Some(true),
        app.row_spec(PageRow::CalibrateHdr, ctx).lock is None <==> app.settings.hdr_enabled && ctx.caps.hdr,
        app.row_spec(PageRow::ResetHdr, ctx).danger,
        app.row_spec(PageRow::Version, ctx).value == ctx.version@,
{
    law_profile_is_found(app.profiles, i, app.screens.settings_page.scope->Profile_0);
}

/// The global settings show no dots, and say that they are what is edited.
pub proof fn law_global_rows_have_no_dots(app: AppV, row: KitRow, ctx: PageContext)
    requires
        app.screens.settings_page.scope is Global,
    ensures
        !app.row_spec(PageRow::Kit(row), ctx).dot,
        app.row_spec(PageRow::Editing, ctx).value == "Default settings"@,
{
}

/// What locks a row, and that nothing else does.
pub proof fn law_locks(settings: Settings, caps: VideoCaps, shell_built: bool, detected: Option<GamepadType>)
    ensures
        locked_by(SettingsRow::Hdr, settings, caps, shell_built, detected) is None <==> caps.hdr && settings.codec
            != CodecPref::H264,
        locked_by(SettingsRow::Codec, settings, caps, shell_built, detected) is None <==> caps.codec_prefs >= 2,
        locked_by(SettingsRow::Audio, settings, caps, shell_built, detected) is None <==> caps.max_channels >= 6
            && settings.audio_route == AudioRoutePref::Software,
        locked_by(SettingsRow::Gamepad, settings, caps, shell_built, detected) is None <==> detected is Some,
        locked_by(SettingsRow::GamepadUi, settings, caps, shell_built, detected) is None <==> shell_built,
        locked_by(SettingsRow::GamepadUiMode, settings, caps, shell_built, detected) is None <==> shell_built
            && settings.gamepad_ui,
{
}

} // verus!
