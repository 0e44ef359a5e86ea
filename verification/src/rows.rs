//! What the list screens and the dialogs share: stepping between rows, between a row's buttons
//! and between two answers; and which screen belongs to which family.
use vstd::prelude::*;
use crate::app::{App, AppV, SwitchAnim};
use crate::menu::{dir_of, list_nav, list_step, nav_dir};
use crate::model::{MenuEvent, Screen};
use crate::slots::{RowButton, ScreensV};

verus! {

/// Whether a screen is a two-button dialog.
pub open spec fn confirms(screen: Screen) -> bool {
    ||| screen == Screen::Wake
    ||| screen == Screen::ForgetHost
    ||| screen == Screen::SendLogs
    ||| screen == Screen::SpeedTest
    ||| screen == Screen::RemoveCollection
    ||| screen == Screen::ResetHdrCalibration
    ||| screen == Screen::DeleteProfile
}

/// Whether a screen is a plain list: a card holding one row per line.
pub open spec fn lists(screen: Screen) -> bool {
    ||| screen == Screen::HostMenu
    ||| screen == Screen::HostPower
    ||| screen == Screen::PickProfile
    ||| screen == Screen::HdrCalibration
}

/// Every arm is written out: a new screen has to say which family it joins.
pub fn is_confirm(screen: Screen) -> (r: bool)
    ensures
        r == confirms(screen),
{
    match screen {
        Screen::Wake => true,
        Screen::ForgetHost => true,
        Screen::SendLogs => true,
        Screen::SpeedTest => true,
        Screen::RemoveCollection => true,
        Screen::ResetHdrCalibration => true,
        Screen::DeleteProfile => true,
        Screen::Home => false,
        Screen::Pairing => false,
        Screen::AddHost => false,
        Screen::HostMenu => false,
        Screen::EditHost => false,
        Screen::About => false,
        Screen::HostPower => false,
        Screen::HdrCalibration => false,
        Screen::Collections => false,
        Screen::RenameCollection => false,
        Screen::SettingsPage => false,
        Screen::PickProfile => false,
        Screen::RenameProfile => false,
    }
}

pub fn is_list_modal(screen: Screen) -> (r: bool)
    ensures
        r == lists(screen),
{
    match screen {
        Screen::HostMenu => true,
        Screen::HostPower => true,
        Screen::PickProfile => true,
        Screen::HdrCalibration => true,
        Screen::Home => false,
        Screen::Pairing => false,
        Screen::AddHost => false,
        Screen::Wake => false,
        Screen::ForgetHost => false,
        Screen::EditHost => false,
        Screen::About => false,
        Screen::SpeedTest => false,
        Screen::SendLogs => false,
        Screen::Collections => false,
        Screen::RenameCollection => false,
        Screen::RemoveCollection => false,
        Screen::ResetHdrCalibration => false,
        Screen::SettingsPage => false,
        Screen::RenameProfile => false,
        Screen::DeleteProfile => false,
    }
}

/// Whether a screen draws over the video plane instead of over the menu.
pub fn over_video(screen: Screen) -> (r: bool)
    ensures
        r == (screen == Screen::HdrCalibration),
{
    screen == Screen::HdrCalibration
}

/// No screen is both a dialog and a list.
pub proof fn law_families_disjoint(screen: Screen)
    ensures
        !(confirms(screen) && lists(screen)),
        !confirms(Screen::Home) && !lists(Screen::Home),
{
}

/// Where a row's focus goes along its buttons: `None` when there is nowhere left to step. The row
/// itself sits between the leading button and the trailing ones.
pub open spec fn step_button(
    current: Option<RowButton>,
    forward: bool,
    leading: bool,
    trailing: nat,
) -> Option<Option<RowButton>> {
    match current {
        None => if forward {
            if trailing > 0 {
                Some(Some(RowButton::Trailing(0)))
            } else {
                None
            }
        } else if leading {
            Some(Some(RowButton::Leading))
        } else {
            None
        },
        Some(RowButton::Leading) => if forward {
            Some(None)
        } else {
            None
        },
        Some(RowButton::Trailing(i)) => if forward {
            if i + 1 < trailing {
                Some(Some(RowButton::Trailing((i + 1) as usize)))
            } else {
                None
            }
        } else if i == 0 {
            Some(None)
        } else {
            Some(Some(RowButton::Trailing((i - 1) as usize)))
        },
    }
}

/// A step that went somewhere is undone by a step the other way, for a button the row has.
pub proof fn law_step_button_undone(
    current: Option<RowButton>,
    forward: bool,
    leading: bool,
    trailing: nat,
)
    requires
        current matches Some(RowButton::Trailing(i)) ==> i < trailing,
        current == Some(RowButton::Leading) ==> leading,
        trailing <= usize::MAX,
        step_button(current, forward, leading, trailing) is Some,
    ensures
        step_button(step_button(current, forward, leading, trailing)->0, !forward, leading, trailing) == Some(current),
{
}

pub fn next_button(current: Option<RowButton>, forward: bool, leading: bool, trailing: usize) -> (r: Option<
    Option<RowButton>,
>)
    ensures
        r == step_button(current, forward, leading, trailing as nat),
{
    match current {
        None => {
            if forward && trailing > 0 {
                Some(Some(RowButton::Trailing(0)))
            } else if !forward && leading {
                Some(Some(RowButton::Leading))
            } else {
                None
            }
        },
        Some(RowButton::Leading) => {
            if forward {
                Some(None)
            } else {
                None
            }
        },
        Some(RowButton::Trailing(i)) => {
            if forward {
                if i < trailing && i + 1 < trailing {
                    Some(Some(RowButton::Trailing(i + 1)))
                } else {
                    None
                }
            } else if i == 0 {
                Some(None)
            } else {
                Some(Some(RowButton::Trailing(i - 1)))
            }
        },
    }
}

/// The other of two answers.
pub open spec fn other_answer(at: usize) -> usize {
    if at == 0 {
        1
    } else {
        0
    }
}

impl AppV {
    /// The cursor of the screen that is up.
    pub open spec fn row(self) -> usize {
        self.nav.cursor(self.nav.screen)
    }

    pub open spec fn with_row(self, at: usize) -> AppV {
        AppV { nav: self.nav.set_cursor(self.nav.screen, at), ..self }
    }

    pub open spec fn with_button(self, button: Option<RowButton>) -> AppV {
        AppV { screens: ScreensV { row_button: button, ..self.screens }, ..self }
    }

    pub open spec fn refocus(self, now: u64) -> AppV {
        AppV { modal_focus_anim: Some(now), ..self }
    }

    /// The cursor moved in a list of `len` rows, `None` where the event is not a step. A button
    /// belongs to the row it is on, so leaving that row leaves it.
    pub open spec fn list_nav(self, len: nat, ev: MenuEvent, now: u64) -> Option<AppV> {
        match list_step(self.row(), len, dir_of(ev)) {
            Some(at) => Some(self.with_row(at).with_button(None).refocus(now)),
            None => None,
        }
    }

    /// The two answers of a dialog traded, `None` where the event does not trade them.
    pub open spec fn confirm_nav(self, ev: MenuEvent, now: u64) -> Option<AppV> {
        if ev == MenuEvent::Left || ev == MenuEvent::Right {
            Some(self.with_row(other_answer(self.row())).refocus(now))
        } else {
            None
        }
    }

    pub open spec fn arm_switch_anim(self, from: bool, now: u64) -> AppV {
        AppV { switch_anim: Some(SwitchAnim { from: now, was_on: from, row: self.row() }), ..self }
    }
}

impl App {
    /// The nav half of a list screen: moves the cursor and arms the focus pop, reporting whether
    /// the event was spent doing so.
    pub fn list_nav_event(&mut self, len: usize, ev: MenuEvent, now: u64) -> (r: bool)
        ensures
            match old(self)@.list_nav(len as nat, ev, now) {
                Some(moved) => r && final(self)@ == moved,
                None => !r && final(self)@ == old(self)@,
            },
            final(self).wf() == old(self).wf(),
    {
        let key = self.nav.screen;
        let mut at: usize = self.nav.cursor(key);
        if !list_nav(&mut at, len, nav_dir(ev)) {
            return false;
        }
        self.nav.set_cursor(key, at);
        self.screens.row_button = None;
        self.modal_focus_anim = Some(now);
        true
    }

    /// The nav half of a dialog: Left and Right trade its two answers.
    pub fn confirm_nav_event(&mut self, ev: MenuEvent, now: u64) -> (r: bool)
        ensures
            match old(self)@.confirm_nav(ev, now) {
                Some(moved) => r && final(self)@ == moved,
                None => !r && final(self)@ == old(self)@,
            },
            final(self).wf() == old(self).wf(),
    {
        let trades: bool = match ev {
            MenuEvent::Left => true,
            MenuEvent::Right => true,
            _ => false,
        };
        if !trades {
            return false;
        }
        let key = self.nav.screen;
        let at: usize = if self.nav.cursor(key) == 0 {
            1
        } else {
            0
        };
        self.nav.set_cursor(key, at);
        self.modal_focus_anim = Some(now);
        true
    }

    /// Starts the focused row's switch from the value it is leaving, so that the knob slides.
    pub fn arm_switch_anim(&mut self, from: bool, now: u64)
        ensures
            final(self)@ == old(self)@.arm_switch_anim(from, now),
            final(self).wf() == old(self).wf(),
    {
        let row: usize = self.nav.cursor(self.nav.screen);
        self.switch_anim = Some(SwitchAnim { from: now, was_on: from, row });
    }

    /// Steps focus along a row's buttons, `false` when there is nowhere left to step.
    pub(crate) fn step_among(&mut self, forward: bool, leading: bool, trailing: usize) -> (r: bool)
        ensures
            match step_button(old(self)@.screens.row_button, forward, leading, trailing as nat) {
                Some(next) => r && final(self)@ == old(self)@.with_button(next),
                None => !r && final(self)@ == old(self)@,
            },
            final(self).wf() == old(self).wf(),
    {
        match next_button(self.screens.row_button, forward, leading, trailing) {
            Some(next) => {
                self.screens.row_button = next;
                true
            },
            None => false,
        }
    }
}

} // verus!
