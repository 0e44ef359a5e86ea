//! Which screen answers a key: Home's own events, Back, an erase, and the hand-over to the open
//! modal.
use vstd::prelude::*;
use crate::app::{App, AppV};
use crate::home::time_fits;
use crate::menu::{dir_of, nav_dir, POWER_ROW_COUNT};
use crate::model::{target_of, HdrDisplay, HomeFocus, MenuEvent, Screen, Target, TargetV};
use crate::pointer::{lemma_click_keeps, Click, Pointer};
use crate::scroll::GridShape;
use crate::slots::{CollectionsV, KitRow, ScreensV};
use crate::text::{erase, erased};

verus! {

/// How many rows the calibration card has.
pub const HDR_ROW_COUNT: usize = 1;

/// What an event needs to know beside the menu's own state.
pub struct EventContext {
    /// The grid as it is drawn.
    pub shape: GridShape,
    /// Where a directional event leads on Home.
    pub next: Option<HomeFocus>,
    /// The focused card's backdrop is on this TV already.
    pub in_hand: bool,
    /// The settings rows of every front end that apply here.
    pub kit: Vec<KitRow>,
    /// This set shows HDR.
    pub hdr: bool,
    /// The luminances one notch below and above the one being measured.
    pub stops: (u16, u16),
    /// The luminances of an uncalibrated set.
    pub default_display: HdrDisplay,
    /// The id that a profile made by this event gets.
    pub fresh: String,
    /// The address typed into the open form, if it is one.
    pub typed: Option<Target>,
    /// The About document's lines, and how many of them show.
    pub about_total: usize,
    pub about_visible: usize,
}

/// An [`EventContext`] as a value.
pub struct ContextV {
    pub shape: GridShape,
    pub next: Option<HomeFocus>,
    pub in_hand: bool,
    pub kit: Seq<KitRow>,
    pub hdr: bool,
    pub stops: (u16, u16),
    pub default_display: HdrDisplay,
    pub fresh: Seq<char>,
    pub typed: Option<TargetV>,
    pub about_total: usize,
    pub about_visible: usize,
}

impl View for EventContext {
    type V = ContextV;

    open spec fn view(&self) -> ContextV {
        ContextV {
            shape: self.shape,
            next: self.next,
            in_hand: self.in_hand,
            kit: self.kit@,
            hdr: self.hdr,
            stops: self.stops,
            default_display: self.default_display,
            fresh: self.fresh@,
            typed: target_of(self.typed),
            about_total: self.about_total,
            about_visible: self.about_visible,
        }
    }
}

/// Whether a screen is answered here. The PIN form and the log dialog belong to the outer loop,
/// which runs the ceremony and the upload behind them.
pub open spec fn answers(screen: Screen) -> bool {
    screen != Screen::Pairing && screen != Screen::SendLogs
}

impl AppV {
    /// Focus moved to where a directional event leads, the grid scrolled to show a card.
    #[verifier::opaque]
    pub open spec fn navigate_home(self, next: Option<HomeFocus>, s: GridShape, now: u64) -> AppV {
        match next {
            Some(focus) => {
                let moved = self.set_home_focus(focus, now);
                match focus {
                    HomeFocus::Grid(idx) => moved.ensure_grid_visible(idx, s),
                    _ => moved,
                }
            },
            None => self,
        }
    }

    /// A sidebar row confirmed: a host, the row that adds one, or the settings.
    #[verifier::opaque]
    pub open spec fn confirm_sidebar(self, i: usize, now: u64) -> AppV {
        if i < self.hosts.entries.len() {
            self.confirm_sidebar_host(i, now)
        } else if i == self.hosts.entries.len() {
            self.open_add_host()
        } else {
            self.open_settings_page()
        }
    }

    #[verifier::opaque]
    pub open spec fn confirm_home(self, s: GridShape, in_hand: bool, now: u64) -> AppV {
        match self.home_focus {
            HomeFocus::Sidebar(i) => self.confirm_sidebar(i, now),
            HomeFocus::SidebarMenu(i) => self.open_host_menu(i),
            HomeFocus::Grid(i) => self.confirm_grid_card(i, s, in_hand, now),
        }
    }

    /// The focused host row forgotten.
    #[verifier::opaque]
    pub open spec fn forget_focused(self, now: u64) -> AppV {
        match self.home_focus {
            HomeFocus::Sidebar(i) => if i < self.hosts.entries.len() {
                self.forget_host(i, now)
            } else {
                self
            },
            _ => self,
        }
    }

    /// One event on Home. A held card's submenu owns every key while it is up.
    #[verifier::opaque]
    pub open spec fn handle_home_event(self, ev: MenuEvent, c: ContextV, now: u64) -> AppV {
        if self.card_menu is Some {
            self.handle_card_menu_event(ev, c.fresh, c.shape, now)
        } else if dir_of(ev) is Some {
            self.navigate_home(c.next, c.shape, now)
        } else {
            match ev {
                MenuEvent::Confirm => self.confirm_home(c.shape, c.in_hand, now),
                MenuEvent::Secondary => self.forget_focused(now),
                _ => self,
            }
        }
    }

    /// Back on Home: out of a card's submenu, out of the grid, off a row's button.
    #[verifier::opaque]
    pub open spec fn back_home(self, now: u64) -> AppV {
        if self.card_menu is Some {
            self.close_card_menu()
        } else {
            match self.home_focus {
                HomeFocus::Grid(_) => self.set_home_focus(
                    HomeFocus::Sidebar(self.sidebar_index_for_selected()),
                    now,
                ),
                HomeFocus::SidebarMenu(i) => self.set_home_focus(HomeFocus::Sidebar(i), now),
                HomeFocus::Sidebar(_) => self,
            }
        }
    }

    /// One event on a screen about hosts.
    #[verifier::opaque]
    pub open spec fn host_screen_event(self, ev: MenuEvent, c: ContextV, now: u64) -> AppV {
        match self.nav.screen {
            Screen::AddHost => self.handle_add_host_event(ev, c.typed, now),
            Screen::EditHost => self.handle_edit_host_event(ev, c.typed, now),
            Screen::HostMenu => self.handle_host_menu_event(ev, now),
            Screen::HostPower => self.handle_host_power_event(ev, now),
            Screen::ForgetHost => self.handle_forget_event(ev, now),
            Screen::Wake => self.handle_wake_event(ev, now),
            Screen::SpeedTest => self.handle_speed_test_event(ev, now),
            _ => self,
        }
    }

    /// One event on a screen about collections.
    #[verifier::opaque]
    pub open spec fn shelf_screen_event(self, ev: MenuEvent, c: ContextV, now: u64) -> AppV {
        match self.nav.screen {
            Screen::Collections => self.handle_collections_event(ev, c.shape, now),
            Screen::RenameCollection => self.handle_name_collection_event(ev, c.shape, now),
            Screen::RemoveCollection => self.handle_remove_collection_event(ev, now),
            _ => self,
        }
    }

    /// One event on a screen about settings.
    #[verifier::opaque]
    pub open spec fn settings_screen_event(self, ev: MenuEvent, c: ContextV, now: u64) -> AppV {
        match self.nav.screen {
            Screen::SettingsPage => self.handle_settings_page_event(ev, c.kit, c.hdr, c.fresh, now),
            Screen::RenameProfile => self.handle_rename_profile_event(ev),
            Screen::DeleteProfile => self.handle_delete_profile_event(ev, now),
            Screen::PickProfile => self.handle_pick_profile_event(ev, now),
            Screen::HdrCalibration => self.handle_hdr_calibration_event(ev, c.stops, now),
            Screen::ResetHdrCalibration => self.handle_reset_hdr_event(ev, c.default_display, now),
            Screen::About => self.handle_about_event(ev, c.about_total, c.about_visible),
            _ => self,
        }
    }

    /// One event on whichever screen is up.
    pub open spec fn handle_menu_event(self, ev: MenuEvent, c: ContextV, now: u64) -> AppV {
        match self.nav.screen {
            Screen::Home => self.handle_home_event(ev, c, now),
            Screen::Collections => self.shelf_screen_event(ev, c, now),
            Screen::RenameCollection => self.shelf_screen_event(ev, c, now),
            Screen::RemoveCollection => self.shelf_screen_event(ev, c, now),
            Screen::SettingsPage => self.settings_screen_event(ev, c, now),
            Screen::RenameProfile => self.settings_screen_event(ev, c, now),
            Screen::DeleteProfile => self.settings_screen_event(ev, c, now),
            Screen::PickProfile => self.settings_screen_event(ev, c, now),
            Screen::HdrCalibration => self.settings_screen_event(ev, c, now),
            Screen::ResetHdrCalibration => self.settings_screen_event(ev, c, now),
            Screen::About => self.settings_screen_event(ev, c, now),
            Screen::Pairing => self,
            Screen::SendLogs => self,
            _ => self.host_screen_event(ev, c, now),
        }
    }

    /// What Back means on whichever screen is up.
    pub open spec fn back(self, c: ContextV, now: u64) -> AppV {
        if self.nav.screen == Screen::Home {
            self.back_home(now)
        } else {
            self.handle_menu_event(MenuEvent::Back, c, now)
        }
    }

    /// A click carried through: one on the close mark is Back, and one that presses confirms what has
    /// focus now.
    pub open spec fn click(self, p: Pointer, c: ContextV, now: u64) -> AppV {
        let (placed, click) = self.handle_mouse_click(p, c.kit, c.shape, now);
        match click {
            Click::Spent => placed,
            Click::Back => placed.back(c, now),
            Click::Press => placed.handle_menu_event(MenuEvent::Confirm, c, now),
        }
    }

    /// The text being typed on whichever screen is up.
    pub open spec fn typed_text(self) -> Option<Seq<char>> {
        match self.nav.screen {
            Screen::AddHost => Some(self.screens.add_host),
            Screen::EditHost => Some(self.screens.add_host),
            Screen::RenameCollection => Some(self.screens.collections.name),
            Screen::RenameProfile => Some(self.screens.profile_name),
            _ => None,
        }
    }

    /// One character erased from the text being typed.
    pub open spec fn erase_text_entry(self) -> AppV {
        match self.nav.screen {
            Screen::AddHost => AppV {
                screens: ScreensV { add_host: erased(self.screens.add_host), ..self.screens },
                ..self
            },
            Screen::EditHost => AppV {
                screens: ScreensV { add_host: erased(self.screens.add_host), ..self.screens },
                ..self
            },
            Screen::RenameCollection => AppV {
                screens: ScreensV {
                    collections: CollectionsV {
                        name: erased(self.screens.collections.name),
                        ..self.screens.collections
                    },
                    ..self.screens
                },
                ..self
            },
            Screen::RenameProfile => AppV {
                screens: ScreensV { profile_name: erased(self.screens.profile_name), ..self.screens },
                ..self
            },
            _ => self,
        }
    }

    /// How many rows the open list card has.
    pub open spec fn list_modal_row_count(self) -> nat {
        match self.nav.screen {
            Screen::HostMenu => self.host_menu_actions().len(),
            Screen::HostPower => POWER_ROW_COUNT as nat,
            Screen::PickProfile => self.pick_profile_row_count(),
            Screen::HdrCalibration => HDR_ROW_COUNT as nat,
            _ => 0,
        }
    }

    /// How many rows the open row list has.
    pub open spec fn row_count(self, kit: Seq<KitRow>) -> nat {
        match self.nav.screen {
            Screen::SettingsPage => self.settings_page_rows(kit).len(),
            Screen::Collections => self.collections_row_count(),
            _ => self.list_modal_row_count(),
        }
    }

    pub open spec fn navigates_rows(self, kit: Seq<KitRow>) -> bool {
        self.card_menu is Some || self.row_count(kit) > 0
    }

    pub open spec fn card_menu_focus(self) -> Option<usize> {
        match self.card_menu {
            Some(m) => Some(m.focused),
            None => None,
        }
    }
}

/// Back never leaves Home, and never leaves focus in the grid or on a row's button.
pub proof fn law_back_on_home(app: AppV, c: ContextV, now: u64)
    requires
        app.nav.screen == Screen::Home,
    ensures
        app.back(c, now).nav == app.nav,
        app.back(c, now).card_menu is None,
        app.card_menu is None ==> app.back(c, now).home_focus is Sidebar,
{
    reveal(AppV::back_home);
}

/// While a held card's submenu is up it takes every key, and Home itself none.
pub proof fn law_submenu_owns_the_keys(app: AppV, ev: MenuEvent, c: ContextV, now: u64)
    requires
        app.nav.screen == Screen::Home,
        app.card_menu is Some,
    ensures
        app.handle_menu_event(ev, c, now) == app.handle_card_menu_event(ev, c.fresh, c.shape, now),
{
    reveal(AppV::handle_home_event);
}

/// An erase takes the last character and nothing else; on an empty field it changes nothing.
pub proof fn law_erase(app: AppV)
    ensures
        match (app.typed_text(), app.erase_text_entry().typed_text()) {
            (Some(was), Some(is)) => is == erased(was) && (was.len() > 0 ==> is == was.drop_last()) && (was.len() == 0
                ==> is == was),
            (None, None) => app.erase_text_entry() == app,
            _ => false,
        },
        app.erase_text_entry().nav == app.nav,
{
}

impl App {
    /// Moves Home's focus to where a directional event leads.
    pub fn navigate_home(&mut self, next: Option<HomeFocus>, s: GridShape, now: u64)
        requires
            old(self)@.grid_fits(s),
        ensures
            final(self)@ == old(self)@.navigate_home(next, s, now),
            final(self).wf() == old(self).wf(),
    {
        proof {
            reveal(AppV::navigate_home);
        }
        match next {
            Some(focus) => {
                self.set_home_focus(focus, now);
                match focus {
                    HomeFocus::Grid(idx) => {
                        self.ensure_grid_visible(idx, s);
                    },
                    _ => {},
                }
            },
            None => {},
        }
    }

    fn confirm_sidebar(&mut self, i: usize, now: u64)
        ensures
            final(self)@ == old(self)@.confirm_sidebar(i, now),
            final(self).wf() == old(self).wf(),
    {
        proof {
            reveal(AppV::confirm_sidebar);
        }
        if i < self.hosts.entries.len() {
            self.confirm_sidebar_host(i, now);
        } else if i == self.hosts.entries.len() {
            self.open_add_host();
        } else {
            self.open_settings_page();
        }
    }

    fn confirm_home(&mut self, s: GridShape, in_hand: bool, now: u64)
        requires
            old(self)@.grid_fits(s),
        ensures
            final(self)@ == old(self)@.confirm_home(s, in_hand, now),
            final(self).wf() == old(self).wf(),
    {
        proof {
            reveal(AppV::confirm_home);
        }
        match self.home_focus {
            HomeFocus::Sidebar(i) => {
                self.confirm_sidebar(i, now);
            },
            HomeFocus::SidebarMenu(i) => {
                self.open_host_menu(i);
            },
            HomeFocus::Grid(i) => {
                self.confirm_grid_card(i, s, in_hand, now);
            },
        }
    }

    fn forget_focused(&mut self, now: u64)
        ensures
            final(self)@ == old(self)@.forget_focused(now),
            final(self).wf() == old(self).wf(),
    {
        proof {
            reveal(AppV::forget_focused);
        }
        match self.home_focus {
            HomeFocus::Sidebar(i) => {
                if i < self.hosts.entries.len() {
                    self.forget_host(i, now);
                }
            },
            _ => {},
        }
    }

    /// Handles one event on Home, the sidebar and the grid.
    pub fn handle_home_event(&mut self, ev: MenuEvent, c: EventContext, now: u64)
        requires
            old(self).wf(),
            old(self)@.grid_fits(c.shape),
            time_fits(now),
        ensures
            final(self)@ == old(self)@.handle_home_event(ev, c@, now),
            final(self).wf(),
    {
        proof {
            reveal(AppV::handle_home_event);
        }
        if self.card_menu.is_some() {
            self.handle_card_menu_event(ev, c.fresh, c.shape, now);
            return;
        }
        if nav_dir(ev).is_some() {
            self.navigate_home(c.next, c.shape, now);
            return;
        }
        match ev {
            MenuEvent::Confirm => {
                self.confirm_home(c.shape, c.in_hand, now);
            },
            MenuEvent::Secondary => {
                self.forget_focused(now);
            },
            _ => {},
        }
    }

    /// Back on Home. From the sidebar itself it does nothing, which the outer loop turns into the
    /// quit dialog.
    pub fn back_home(&mut self, now: u64)
        ensures
            final(self)@ == old(self)@.back_home(now),
            final(self).wf() == old(self).wf(),
    {
        proof {
            reveal(AppV::back_home);
        }
        if self.card_menu.is_some() {
            self.close_card_menu();
            return;
        }
        match self.home_focus {
            HomeFocus::Grid(_) => {
                let at: usize = self.sidebar_index_for_selected();
                self.set_home_focus(HomeFocus::Sidebar(at), now);
            },
            HomeFocus::SidebarMenu(i) => {
                self.set_home_focus(HomeFocus::Sidebar(i), now);
            },
            HomeFocus::Sidebar(_) => {},
        }
    }

    fn host_screen_event(&mut self, ev: MenuEvent, c: EventContext, now: u64)
        ensures
            final(self)@ == old(self)@.host_screen_event(ev, c@, now),
            final(self).wf() == old(self).wf(),
    {
        proof {
            reveal(AppV::host_screen_event);
        }
        match self.nav.screen {
            Screen::AddHost => {
                self.handle_add_host_event(ev, c.typed, now);
            },
            Screen::EditHost => {
                self.handle_edit_host_event(ev, c.typed, now);
            },
            Screen::HostMenu => {
                self.handle_host_menu_event(ev, now);
            },
            Screen::HostPower => {
                self.handle_host_power_event(ev, now);
            },
            Screen::ForgetHost => {
                self.handle_forget_event(ev, now);
            },
            Screen::Wake => {
                self.handle_wake_event(ev, now);
            },
            Screen::SpeedTest => {
                self.handle_speed_test_event(ev, now);
            },
            _ => {},
        }
    }

    fn shelf_screen_event(&mut self, ev: MenuEvent, c: EventContext, now: u64)
        requires
            old(self).wf(),
            old(self)@.grid_room(c.shape),
            old(self)@.shelves() < usize::MAX,
            time_fits(now),
        ensures
            final(self)@ == old(self)@.shelf_screen_event(ev, c@, now),
            final(self).wf(),
    {
        proof {
            reveal(AppV::shelf_screen_event);
        }
        match self.nav.screen {
            Screen::Collections => {
                self.handle_collections_event(ev, c.shape, now);
            },
            Screen::RenameCollection => {
                self.handle_name_collection_event(ev, c.shape, now);
            },
            Screen::RemoveCollection => {
                self.handle_remove_collection_event(ev, now);
            },
            _ => {},
        }
    }

    fn settings_screen_event(&mut self, ev: MenuEvent, c: EventContext, now: u64)
        requires
            old(self).profiles.len() <= usize::MAX - 2,
            c.about_visible <= i64::MAX,
        ensures
            final(self)@ == old(self)@.settings_screen_event(ev, c@, now),
            final(self).wf() == old(self).wf(),
    {
        proof {
            reveal(AppV::settings_screen_event);
        }
        match self.nav.screen {
            Screen::SettingsPage => {
                self.handle_settings_page_event(ev, &c.kit, c.hdr, c.fresh, now);
            },
            Screen::RenameProfile => {
                self.handle_rename_profile_event(ev);
            },
            Screen::DeleteProfile => {
                self.handle_delete_profile_event(ev, now);
            },
            Screen::PickProfile => {
                self.handle_pick_profile_event(ev, now);
            },
            Screen::HdrCalibration => {
                self.handle_hdr_calibration_event(ev, c.stops, now);
            },
            Screen::ResetHdrCalibration => {
                self.handle_reset_hdr_event(ev, c.default_display, now);
            },
            Screen::About => {
                self.handle_about_event(ev, c.about_total, c.about_visible);
            },
            _ => {},
        }
    }

    /// Handles one event on whichever screen is up. `false` on the two screens that the outer loop
    /// answers itself.
    pub fn handle_menu_event(&mut self, ev: MenuEvent, c: EventContext, now: u64) -> (r: bool)
        requires
            old(self).wf(),
            old(self)@.grid_room(c.shape),
            old(self)@.shelves() < usize::MAX,
            old(self).profiles.len() <= usize::MAX - 2,
            c.about_visible <= i64::MAX,
            time_fits(now),
        ensures
            final(self)@ == old(self)@.handle_menu_event(ev, c@, now),
            r == answers(old(self)@.nav.screen),
            final(self).wf(),
    {
        match self.nav.screen {
            Screen::Home => {
                self.handle_home_event(ev, c, now);
            },
            Screen::Collections => {
                self.shelf_screen_event(ev, c, now);
            },
            Screen::RenameCollection => {
                self.shelf_screen_event(ev, c, now);
            },
            Screen::RemoveCollection => {
                self.shelf_screen_event(ev, c, now);
            },
            Screen::SettingsPage => {
                self.settings_screen_event(ev, c, now);
            },
            Screen::RenameProfile => {
                self.settings_screen_event(ev, c, now);
            },
            Screen::DeleteProfile => {
                self.settings_screen_event(ev, c, now);
            },
            Screen::PickProfile => {
                self.settings_screen_event(ev, c, now);
            },
            Screen::HdrCalibration => {
                self.settings_screen_event(ev, c, now);
            },
            Screen::ResetHdrCalibration => {
                self.settings_screen_event(ev, c, now);
            },
            Screen::About => {
                self.settings_screen_event(ev, c, now);
            },
            Screen::Pairing => {
                return false;
            },
            Screen::SendLogs => {
                return false;
            },
            _ => {
                self.host_screen_event(ev, c, now);
            },
        }
        true
    }

    /// Applies Back to whichever screen is up: one definition of what it means, for the key and
    /// for a click on a modal's close mark. `false` on the two screens that the outer loop answers
    /// itself.
    pub fn back(&mut self, c: EventContext, now: u64) -> (r: bool)
        requires
            old(self).wf(),
            old(self)@.grid_room(c.shape),
            old(self)@.shelves() < usize::MAX,
            old(self).profiles.len() <= usize::MAX - 2,
            c.about_visible <= i64::MAX,
            time_fits(now),
        ensures
            final(self)@ == old(self)@.back(c@, now),
            r == answers(old(self)@.nav.screen),
            final(self).wf(),
    {
        if self.nav.screen == Screen::Home {
            self.back_home(now);
            return true;
        }
        self.handle_menu_event(MenuEvent::Back, c, now)
    }

    /// Takes a click and carries it through, so that a click and a press of the key act alike. `c`
    /// speaks of what the click lands on. Reports what the click came to.
    pub fn click(&mut self, p: Pointer, c: EventContext, now: u64) -> (r: Click)
        requires
            old(self).wf(),
            old(self)@.grid_room(c.shape),
            old(self)@.shelves() < usize::MAX,
            old(self).profiles.len() <= usize::MAX - 2,
            c.about_visible <= i64::MAX,
            time_fits(now),
        ensures
            final(self)@ == old(self)@.click(p, c@, now),
            r == old(self)@.handle_mouse_click(p, c@.kit, c.shape, now).1,
            final(self).wf(),
    {
        proof {
            lemma_click_keeps(self@, p, c@.kit, c.shape, now);
        }
        let ghost was = self@;
        let click: Click = self.handle_mouse_click(p, &c.kit, c.shape, now);
        assert(was.profiles.len() == old(self).profiles.len());
        assert(self@.profiles.len() == self.profiles.len());
        match click {
            Click::Spent => {},
            Click::Back => {
                self.back(c, now);
            },
            Click::Press => {
                self.handle_menu_event(MenuEvent::Confirm, c, now);
            },
        }
        click
    }

    /// Erases one character from the text being typed, reporting whether the key was spent on it:
    /// an erase on an empty field keeps its meaning as Back. `pin_erased` says what the PIN form,
    /// where it is up, did with the key.
    pub fn erase_text_entry(&mut self, pin_erased: bool) -> (r: bool)
        ensures
            final(self)@ == old(self)@.erase_text_entry(),
            r == (match old(self)@.typed_text() {
                Some(text) => text.len() > 0,
                None => old(self)@.nav.screen == Screen::Pairing && pin_erased,
            }),
            final(self).wf() == old(self).wf(),
    {
        match self.nav.screen {
            Screen::AddHost => erase(&mut self.screens.add_host),
            Screen::EditHost => erase(&mut self.screens.add_host),
            Screen::RenameCollection => erase(&mut self.screens.collections.name),
            Screen::RenameProfile => erase(&mut self.screens.profile_name),
            Screen::Pairing => pin_erased,
            _ => false,
        }
    }

    /// How many rows the open list card has: the count without the labels.
    pub fn list_modal_row_count(&self) -> (r: usize)
        requires
            self.profiles.len() < usize::MAX,
        ensures
            r == self@.list_modal_row_count(),
    {
        match self.nav.screen {
            Screen::HostMenu => self.host_menu_actions().len(),
            Screen::HostPower => POWER_ROW_COUNT,
            Screen::PickProfile => self.pick_profile_row_count(),
            Screen::HdrCalibration => HDR_ROW_COUNT,
            _ => 0,
        }
    }

    /// How many rows the open row list has, whichever kind of list it is.
    pub fn row_count(&self, kit: &Vec<KitRow>) -> (r: usize)
        requires
            self.profiles.len() < usize::MAX,
            self@.shelves() < usize::MAX,
        ensures
            r == self@.row_count(kit@),
    {
        match self.nav.screen {
            Screen::SettingsPage => {
                let rows = self.settings_page_rows(kit);
                assert(crate::seqs::views(rows@).len() == rows@.len());
                rows.len()
            },
            Screen::Collections => self.collections_row_count(),
            _ => self.list_modal_row_count(),
        }
    }

    /// Whether what is on screen navigates by row: a list, or a held card's submenu.
    pub fn navigates_rows(&self, kit: &Vec<KitRow>) -> (r: bool)
        requires
            self.profiles.len() < usize::MAX,
            self@.shelves() < usize::MAX,
        ensures
            r == self@.navigates_rows(kit@),
    {
        self.card_menu.is_some() || self.row_count(kit) > 0
    }

    /// Where row focus is, on the open list and on a held card's submenu.
    pub fn row_focus(&self) -> (r: (usize, Option<usize>))
        ensures
            r == (self@.nav.at(), self@.card_menu_focus()),
    {
        (
            self.nav.cursor(self.nav.screen),
            match &self.card_menu {
                Some(m) => Some(m.focused),
                None => None,
            },
        )
    }
}

} // verus!
