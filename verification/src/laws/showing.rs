//! What is shown: the sidebar, the grid, the questions and the forms.
use vstd::prelude::*;
use crate::app::AppV;
use crate::cards::{ActLabel, BodyV, FormKindV, Mark, Tone};
use crate::flags::Job;
use crate::gridprep::{card_ready, Window};
use crate::homeview::{HomeBody, SidebarMark};
use crate::hosts::{entry_is, online_of};
use crate::laws::{law_selected_host_is_found, selected_at};
use crate::model::{GameV, HomeFocus, Screen};
use crate::scroll::GridShape;
use crate::seqs::lemma_first_is;
use crate::slots::EffectV;

verus! {

// --------------------------------------------------------------------------- the sidebar --

/// A host's row says what the host is called, whether it is on, whether it is paired, and whether it has the
/// focus; below the hosts stand a row to add one and a row for the settings.
pub proof fn law_sidebar_shows_its_hosts(app: AppV, i: int)
    requires
        0 <= i < app.hosts.entries.len() <= usize::MAX - 2,
    ensures
        ({
            let rows = app.sidebar_rows();
            let n = app.hosts.entries.len() as int;
            let e = app.hosts.entries[i];
            &&& rows.len() == n + 2
            &&& rows[i].label == e.name()
            &&& rows[i].has_menu == !(e is Pinned)
            &&& !(e is Pinned) ==> rows[i].online == online_of(app.hosts.reachable, e.target())
            &&& e is Pinned ==> rows[i].online is None && rows[i].mark == SidebarMark::Pin
            &&& (!(e is Pinned) && e.is_paired()) ==> rows[i].mark == SidebarMark::Screen
            &&& (!(e is Pinned) && !e.is_paired()) ==> rows[i].mark == SidebarMark::Lock
            &&& rows[i].focused <==> app.home_focus == HomeFocus::Sidebar(i as usize) || app.home_focus
                == HomeFocus::SidebarMenu(i as usize)
            &&& rows[i].button_lit <==> app.home_focus == HomeFocus::SidebarMenu(i as usize) && !(e is Pinned)
            &&& rows[n].label == "Add host"@
            &&& rows[n].mark == SidebarMark::Plus
            &&& rows[n + 1].label == "Settings"@
            &&& rows[n + 1].mark == SidebarMark::Settings
            &&& rows[n].focused <==> app.home_focus == HomeFocus::Sidebar(n as usize) || app.home_focus
                == HomeFocus::SidebarMenu(n as usize)
            &&& !rows[n].selected && !rows[n + 1].selected
        }),
{
}

/// The row that is marked as the selected host's is that host's first row, and no other.
pub proof fn law_selected_row(app: AppV, row: int, i: int)
    requires
        app.library.selected_host is Some,
        0 <= row < app.hosts.entries.len(),
        app.hosts.entries[row].target() == app.library.selected_host->0,
        forall|j: int| 0 <= j < row ==> (#[trigger] app.hosts.entries[j]).target() != app.library.selected_host->0,
        0 <= i < app.hosts.entries.len(),
    ensures
        app.sidebar_rows()[i].selected <==> i == row,
{
    let at = app.library.selected_host->0;
    let here = entry_is(at.host, at.port);
    assert(here(app.hosts.entries[row]));
    assert forall|j: int| 0 <= j < row implies !here(#[trigger] app.hosts.entries[j]) by {
        assert(app.hosts.entries[j].target() != at);
    }
    lemma_first_is(app.hosts.entries, here, row);
}

// ------------------------------------------------------------------------------ the grid --

/// What Home shows beside the sidebar: that there is no host, that its library is on its way, or its grid.
pub proof fn law_home_body(app: AppV, dissolving: bool, launch_fade: u64, now: u64)
    ensures
        ({
            let hidden = dissolving || app.nav.screen == Screen::HdrCalibration || (app.launch_anim is Some
                && app.launch_anim->0 + launch_fade <= now) || (app.launch_anim is Some && launch_fade == 0);
            let body = app.home_body(dissolving, launch_fade, now);
            &&& hidden ==> body == HomeBody::Hidden
            &&& !hidden && app.library.selected_host is None ==> body == HomeBody::NoHost
            &&& !hidden && app.library.selected_host is Some && !app.grid.revealed ==> body == HomeBody::Spinner
            &&& !hidden && app.library.selected_host is Some && app.grid.revealed ==> body == HomeBody::Grid
        }),
{
}

/// Every slot in the window that holds a card is drawn once, in its order, but for the one with the focus,
/// which is drawn over them; a card whose game runs says so.
pub proof fn law_cards_are_drawn(app: AppV, from: int, to: int, s: GridShape)
    requires
        0 <= from <= to <= usize::MAX,
    ensures
        ({
            let cards = app.grid_cards(from, to, s);
            &&& forall|k: int|
                0 <= k < cards.len() ==> from <= (#[trigger] cards[k]).idx < to && app.library.card_at(
                    s.columns as nat,
                    cards[k].idx as nat,
                ) is Some && app.focused_slot(s) != Some(cards[k].idx) && cards[k].running
                    == app.library.running.contains(
                    app.library.card_at(s.columns as nat, cards[k].idx as nat)->0.id,
                )
            &&& forall|i: nat|
                from <= i < to && (#[trigger] app.library.card_at(s.columns as nat, i)) is Some && app.focused_slot(s)
                    != Some(i as usize) ==> exists|k: int| 0 <= k < cards.len() && (#[trigger] cards[k]).idx == i
            &&& forall|a: int, b: int|
                0 <= a < b < cards.len() ==> (#[trigger] cards[a]).idx < (#[trigger] cards[b]).idx
        }),
    decreases to - from,
{
    if from < to {
        law_cards_are_drawn(app, from, to - 1, s);
        let before = app.grid_cards(from, to - 1, s);
        let cards = app.grid_cards(from, to, s);
        let i = (to - 1) as usize;
        assert forall|k: int| 0 <= k < cards.len() implies from <= (#[trigger] cards[k]).idx < to && app.library.card_at(
            s.columns as nat,
            cards[k].idx as nat,
        ) is Some && app.focused_slot(s) != Some(cards[k].idx) && cards[k].running == app.library.running.contains(
            app.library.card_at(s.columns as nat, cards[k].idx as nat)->0.id,
        ) by {
            if k < before.len() {
                assert(cards[k] == before[k]);
            }
        }
        assert forall|j: nat|
            from <= j < to && (#[trigger] app.library.card_at(s.columns as nat, j)) is Some && app.focused_slot(s)
                != Some(j as usize) implies exists|k: int| 0 <= k < cards.len() && (#[trigger] cards[k]).idx == j by {
            if j < to - 1 {
                let k = choose|k: int| 0 <= k < before.len() && (#[trigger] before[k]).idx == j;
                assert(cards[k] == before[k]);
            } else {
                assert(cards[before.len() as int].idx == j);
            }
        }
        assert forall|a: int, b: int| 0 <= a < b < cards.len() implies (#[trigger] cards[a]).idx < (
        #[trigger] cards[b]).idx by {
            assert(cards[a] == before[a]);
            if b < before.len() {
                assert(cards[b] == before[b]);
            }
        }
    }
}

/// A card in the window has its artwork asked for while artwork comes in, and is built from it once it is
/// there; a card that was built stands.
pub proof fn law_card_is_built(app: AppV, id: Seq<char>, covers: Seq<Seq<char>>, now: u64)
    ensures
        ({
            let after = app.build_card(id, covers, now);
            let asks = if app.jobs.out.contains(Job::Art) {
                app.effects.push(EffectV::RequestArt(id))
            } else {
                app.effects
            };
            &&& (app.library.art.contains(id) && !covers.contains(id)) ==> after.effects == asks.push(
                EffectV::BuildCover(id),
            )
            &&& !(app.library.art.contains(id) && !covers.contains(id)) ==> after.effects == asks
            &&& after.grid.arrivals.dom().contains(id)
            &&& after.library == app.library
        }),
{
    crate::gridprep::law_only_new_cards_pop(app.grid, id, now);
}

/// A card is ready to be shown when its artwork is there, or when it has none to wait for.
pub proof fn law_card_is_ready(game: GameV, art: Set<Seq<char>>)
    ensures
        card_ready(game, art) <==> art.contains(game.id) || !(game.art.portrait is Some || game.art.header is Some),
{
}

/// The grid comes up once its library is there, no wait for a host goes on, and every card on its first page
/// is ready.
pub proof fn law_grid_waits_for_its_page(app: AppV, page: Window, s: GridShape)
    requires
        !app.grid.revealed,
    ensures
        app.reveal_step(page, s) matches Some(step) && {
            &&& step.fetching <==> app.jobs.out.contains(Job::Games) || (app.nav.screen != Screen::Wake
                && app.screens.wake is Some && app.screens.wake->0.sent && app.screens.wake->0.silent)
            &&& step.art_pending <==> exists|i: int|
                page.from <= i < page.to && #[trigger] app.slot_pending(i, s)
        },
        forall|i: int| #[trigger]
            app.slot_pending(i, s) <==> app.library.card_at(s.columns as nat, i as nat) is Some && !card_ready(
                app.library.card_at(s.columns as nat, i as nat)->0,
                app.library.art,
            ),
{
}

/// The focused card's backdrop is wanted while the grid is up.
pub proof fn law_focused_backdrop_is_wanted(app: AppV, idx: usize, s: GridShape, card: GameV)
    requires
        app.home_focus == HomeFocus::Grid(idx),
        app.library.card_at(s.columns as nat, idx as nat) == Some(card),
    ensures
        app.grid.revealed ==> app.prefetch_focused_hero(s).effects == app.effects.push(EffectV::WantHero(card.id)),
        !app.grid.revealed ==> app.prefetch_focused_hero(s) == app,
{
}

// ------------------------------------------------------------------------- the questions --

/// Each question names what it is about and what its first answer does.
pub proof fn law_questions(app: AppV, i: int, at: usize)
    requires
        selected_at(app, i),
    ensures
        app.confirm_for(Screen::ForgetHost) matches Some(c) && c.label == ActLabel::Forget && c.mark == Mark::Delete
            && c.tone == Tone::Danger && c.cancel == "Cancel"@ && (app.screens.host_menu_index matches Some(idx) && idx
            < app.hosts.entries.len() ==> c.body == BodyV::ForgetHost(
            app.hosts.entries[app.screens.host_menu_index->0 as int].name(),
        )),
        (app.screens.collections.removing == Some(at) && at < app.hosts.known[i].collections.len()
            && app.hosts.known[i].collections[at as int].games.len() <= usize::MAX) ==> (app.confirm_for(
            Screen::RemoveCollection,
        ) matches Some(c) && c.label == ActLabel::Remove && c.tone == Tone::Danger && c.body
            == BodyV::RemoveCollection {
            name: app.hosts.known[i].collections[at as int].name,
            games: app.hosts.known[i].collections[at as int].games.len() as usize,
        }),
        app.confirm_for(Screen::ResetHdrCalibration) matches Some(c) && c.label == ActLabel::Clear && c.body
            == BodyV::ClearHdr && c.tone == Tone::Danger,
        app.confirm_for(Screen::DeleteProfile) matches Some(c) && c.label == ActLabel::Delete && c.tone == Tone::Danger
            && c.body is DeleteProfile,
        app.confirm_for(Screen::SendLogs) matches Some(c) && c.label == ActLabel::Send && c.body == BodyV::SendLogs,
{
    law_selected_host_is_found(app, i);
}

/// The wake prompt asks about the host that is being woken, where there is an address to wake it by; where
/// there is none, a message says so.
pub proof fn law_wake_question(app: AppV)
    requires
        app.screens.wake is Some,
    ensures
        app.screens.wake->0.mac.len() > 0 ==> (app.confirm_for(Screen::Wake) matches Some(c) && c.label
            == ActLabel::WakeHost && c.tone == Tone::Primary && c.body == BodyV::Wake {
            name: app.screens.wake->0.name,
            reason: app.screens.wake->0.reason,
            sent: app.screens.wake->0.sent,
            attempts: app.screens.wake->0.attempts,
        }),
        app.screens.wake->0.mac.len() == 0 ==> app.confirm_for(Screen::Wake) is None && app.message_card(Screen::Wake)
            is Some,
{
}

/// A finished speed test offers the bitrate that it recommends; one that runs asks nothing.
pub proof fn law_speed_test_question(app: AppV)
    requires
        app.screens.speed_test is Some,
    ensures
        ({
            let test = app.screens.speed_test->0;
            &&& (test is Connecting || test is Measuring) ==> app.confirm_for(Screen::SpeedTest) is None
            &&& test is Failed ==> (app.confirm_for(Screen::SpeedTest) matches Some(c) && c.failed && c.label
                == ActLabel::Apply(None) && c.cancel == "Close"@)
            &&& test is Done ==> (app.confirm_for(Screen::SpeedTest) matches Some(c) && !c.failed && c.body
                == BodyV::SpeedTest(app.screens.speed_test_name) && c.label == ActLabel::Apply(
                match crate::speedtest::recommended(test->outcome.throughput_kbps as int) {
                    Some(kbps) => Some(kbps as u32),
                    None => None,
                },
            ))
        }),
{
}

/// Each form says what it is for and shows why a name is not taken.
pub proof fn law_forms(app: AppV)
    ensures
        app.nav.screen == Screen::AddHost ==> (app.text_form() matches Some(f) && f.kind == FormKindV::AddHost && f.hint
            is None && f.typed == app.screens.add_host),
        app.nav.screen == Screen::EditHost ==> (app.text_form() matches Some(f) && f.kind is EditHost && f.typed
            == app.screens.add_host),
        app.nav.screen == Screen::RenameProfile ==> (app.text_form() matches Some(f) && f.kind
            == FormKindV::RenameProfile && f.typed == app.screens.profile_name && (f.hint is Some
            <==> app.profile_name_hint() is Some)),
        app.nav.screen == Screen::RenameCollection ==> (app.text_form() matches Some(f) && f.kind is Collection
            && f.typed == app.screens.collections.name && (f.hint is Some <==> app.collection_name_hint() is Some)),
        (app.nav.screen != Screen::AddHost && app.nav.screen != Screen::EditHost && app.nav.screen
            != Screen::RenameProfile && app.nav.screen != Screen::RenameCollection) ==> app.text_form() is None,
{
}

} // verus!
