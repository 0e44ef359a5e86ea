//! HDR calibration: three measurements against patterns on the video plane, held aside until they
//! are saved together.
use vstd::prelude::*;
use crate::app::{App, AppV};
use crate::model::{HdrDisplay, MenuEvent, Screen, Settings};
use crate::slots::{Effect, EffectV, HdrCalibrationState, HdrStep, ScreensV};

verus! {

pub open spec fn lower(a: u16, b: u16) -> u16 {
    if a < b {
        a
    } else {
        b
    }
}

/// The volume with the value that a step measures set. A full field can never outrun a small
/// window: lowering the peak drags the frame average down with it.
pub open spec fn measured(d: HdrDisplay, step: HdrStep, value: u16) -> HdrDisplay {
    match step {
        HdrStep::Peak => HdrDisplay { peak_nits: value, frame_avg_nits: lower(d.frame_avg_nits, value), ..d },
        HdrStep::FrameAverage => HdrDisplay { frame_avg_nits: lower(value, d.peak_nits), ..d },
        HdrStep::Black => HdrDisplay { black_code: value, ..d },
    }
}

/// The frame average never exceeds the peak once it does not, and after either of them is measured
/// it does not.
pub proof fn law_average_below_peak(d: HdrDisplay, step: HdrStep, value: u16)
    requires
        step == HdrStep::Black ==> d.frame_avg_nits <= d.peak_nits,
    ensures
        measured(d, step, value).frame_avg_nits <= measured(d, step, value).peak_nits,
{
}

pub fn measure(d: HdrDisplay, step: HdrStep, value: u16) -> (r: HdrDisplay)
    ensures
        r == measured(d, step, value),
{
    let mut r = d;
    match step {
        HdrStep::Peak => {
            r.peak_nits = value;
            if value < r.frame_avg_nits {
                r.frame_avg_nits = value;
            }
        },
        HdrStep::FrameAverage => {
            r.frame_avg_nits = if value < d.peak_nits {
                value
            } else {
                d.peak_nits
            };
        },
        HdrStep::Black => {
            r.black_code = value;
        },
    }
    r
}

impl AppV {
    pub open spec fn with_hdr(self, h: Option<HdrCalibrationState>) -> AppV {
        AppV { screens: ScreensV { hdr: h, ..self.screens }, ..self }
    }

    /// The calibration opened on what is stored, and its pattern started.
    pub open spec fn open_hdr_calibration(self) -> AppV {
        self.with_hdr(
            Some(
                HdrCalibrationState {
                    step: HdrStep::Peak,
                    display: self.settings.hdr_display,
                    playing: true,
                    seen_presenting: false,
                    seen_stalled: false,
                },
            ),
        ).with_button(None).effect(EffectV::StartPattern(HdrStep::Peak, self.settings.hdr_display)).enter(
            Screen::HdrCalibration,
            0,
        )
    }

    /// The pattern fed again, where it plays at all.
    pub open spec fn refresh_hdr_pattern(self) -> AppV {
        match self.screens.hdr {
            Some(h) => if h.playing {
                self.effect(EffectV::ShowPattern(h.step, h.display))
            } else {
                self
            },
            None => self,
        }
    }

    /// The current step's value set. An unchanged picture is not fed again.
    pub open spec fn set_hdr_value(self, value: u16) -> AppV {
        match self.screens.hdr {
            Some(h) => {
                let display = measured(h.display, h.step, value);
                let set = self.with_hdr(Some(HdrCalibrationState { display, ..h }));
                if display == h.display {
                    set
                } else {
                    set.refresh_hdr_pattern()
                }
            },
            None => self,
        }
    }

    pub open spec fn close_hdr_calibration(self, commit: bool) -> AppV {
        let gone = self.with_button(None).with_hdr(None);
        match self.screens.hdr {
            Some(h) => if commit {
                AppV {
                    settings: Settings { hdr_display: h.display, hdr_calibrated: true, ..gone.settings },
                    ..gone
                }.persist().show(Screen::SettingsPage)
            } else {
                gone.show(Screen::SettingsPage)
            },
            None => gone.show(Screen::SettingsPage),
        }
    }

    /// The next measurement, or all of them saved after the last.
    pub open spec fn advance_hdr_step(self) -> AppV {
        match self.screens.hdr {
            Some(h) => match h.step.following() {
                Some(next) => self.with_hdr(Some(HdrCalibrationState { step: next, ..h })).with_button(
                    None,
                ).refresh_hdr_pattern(),
                None => self.close_hdr_calibration(true),
            },
            None => self,
        }
    }

    /// One event. Left and Right are the measurement, so the tick is reached with Down and left
    /// with Up. `stops` are the values of the slider's neighbouring stops.
    #[verifier::opaque]
    pub open spec fn handle_hdr_calibration_event(self, ev: MenuEvent, stops: (u16, u16), now: u64) -> AppV {
        if ev == MenuEvent::Back {
            self.close_hdr_calibration(false)
        } else {
            match self.list_nav(1, ev, now) {
                Some(moved) => moved,
                None => match ev {
                    MenuEvent::Left => self.set_hdr_value(stops.0),
                    MenuEvent::Right => self.set_hdr_value(stops.1),
                    MenuEvent::Down => self.step_hdr_button(true),
                    MenuEvent::Up => self.step_hdr_button(false),
                    MenuEvent::Confirm => self.advance_hdr_step(),
                    _ => self,
                },
            }
        }
    }

    pub open spec fn step_hdr_button(self, forward: bool) -> AppV {
        match crate::rows::step_button(self.screens.row_button, forward, false, 1) {
            Some(next) => self.with_button(next),
            None => self,
        }
    }

    /// The panel volume back to a default. The numbers go with the flag: nothing says measured of
    /// a volume that is not.
    pub open spec fn clear_hdr_calibration(self, default: HdrDisplay) -> AppV {
        AppV {
            settings: Settings { hdr_display: default, hdr_calibrated: false, ..self.settings },
            ..self.with_button(None)
        }.persist()
    }

    #[verifier::opaque]
    pub open spec fn handle_reset_hdr_event(self, ev: MenuEvent, default: HdrDisplay, now: u64) -> AppV {
        match self.confirm_nav(ev, now) {
            Some(moved) => moved,
            None => match ev {
                MenuEvent::Confirm => if self.nav.cursor(Screen::ResetHdrCalibration) == 0 {
                    self.clear_hdr_calibration(default).show(Screen::SettingsPage)
                } else {
                    self.show(Screen::SettingsPage)
                },
                MenuEvent::Back => self.show(Screen::SettingsPage),
                MenuEvent::Secondary => self.show(Screen::SettingsPage),
                _ => self,
            },
        }
    }

    /// What the pattern feed did on its own, noted.
    pub open spec fn tick_hdr_pattern(self, presenting: bool, stalled: bool) -> AppV {
        match self.screens.hdr {
            Some(h) => self.with_hdr(
                Some(
                    HdrCalibrationState {
                        seen_presenting: h.playing && presenting,
                        seen_stalled: h.playing && stalled,
                        ..h
                    },
                ),
            ),
            None => self,
        }
    }
}

/// Nothing measured is stored before the last step is confirmed: backing out leaves the settings
/// as they were, whatever was moved.
pub proof fn law_cancelled_calibration_stores_nothing(app: AppV, value: u16, stops: (u16, u16), now: u64)
    ensures
        app.set_hdr_value(value).handle_hdr_calibration_event(MenuEvent::Back, stops, now).settings == app.settings,
        app.set_hdr_value(value).settings == app.settings,
        app.handle_hdr_calibration_event(MenuEvent::Back, stops, now).screens.hdr is None,
{
    reveal(AppV::handle_hdr_calibration_event);
}

/// Confirming a step that is not the last stores nothing, and the calibration goes on.
pub proof fn law_only_last_step_saves(app: AppV)
    requires
        app.screens.hdr matches Some(h) && h.step != HdrStep::Black,
    ensures
        app.advance_hdr_step().settings == app.settings,
        app.advance_hdr_step().screens.hdr is Some,
{
}

impl App {
    /// Opens the calibration and starts its pattern.
    pub fn open_hdr_calibration(&mut self)
        ensures
            final(self)@ == old(self)@.open_hdr_calibration(),
            final(self).wf() == old(self).wf(),
    {
        let display = self.settings.hdr_display;
        self.screens.hdr = Some(
            HdrCalibrationState {
                step: HdrStep::Peak,
                display,
                playing: true,
                seen_presenting: false,
                seen_stalled: false,
            },
        );
        self.screens.row_button = None;
        self.ask(Effect::StartPattern(HdrStep::Peak, display));
        self.nav.enter(Screen::HdrCalibration, 0);
    }

    /// Notes that the pattern could not be started. The sliders and what they store still work.
    pub fn hdr_pattern_failed(&mut self)
        ensures
            final(self)@ == (match old(self)@.screens.hdr {
                Some(h) => old(self)@.with_hdr(Some(HdrCalibrationState { playing: false, ..h })),
                None => old(self)@,
            }),
            final(self).wf() == old(self).wf(),
    {
        match self.screens.hdr {
            Some(h) => {
                self.screens.hdr = Some(HdrCalibrationState { playing: false, ..h });
            },
            None => {},
        }
    }

    fn refresh_hdr_pattern(&mut self)
        ensures
            final(self)@ == old(self)@.refresh_hdr_pattern(),
            final(self).wf() == old(self).wf(),
    {
        match self.screens.hdr {
            Some(h) => {
                if h.playing {
                    self.ask(Effect::ShowPattern(h.step, h.display));
                }
            },
            None => {},
        }
    }

    /// Sets the current step's value, which the slider's stops keep in range.
    pub fn set_hdr_value(&mut self, value: u16)
        ensures
            final(self)@ == old(self)@.set_hdr_value(value),
            final(self).wf() == old(self).wf(),
    {
        match self.screens.hdr {
            Some(h) => {
                let display = measure(h.display, h.step, value);
                self.screens.hdr = Some(HdrCalibrationState { display, ..h });
                if display != h.display {
                    self.refresh_hdr_pattern();
                }
            },
            None => {},
        }
    }

    fn advance_hdr_step(&mut self)
        ensures
            final(self)@ == old(self)@.advance_hdr_step(),
            final(self).wf() == old(self).wf(),
    {
        match self.screens.hdr {
            Some(h) => match h.step.next() {
                Some(next) => {
                    self.screens.hdr = Some(HdrCalibrationState { step: next, ..h });
                    // Back to the slider: leaving focus on the tick would step past the next
                    // measurement.
                    self.screens.row_button = None;
                    self.refresh_hdr_pattern();
                },
                None => {
                    self.close_hdr_calibration(true);
                },
            },
            None => {},
        }
    }

    /// Leaves the calibration. `commit` stores the measured volume.
    pub fn close_hdr_calibration(&mut self, commit: bool)
        ensures
            final(self)@ == old(self)@.close_hdr_calibration(commit),
            final(self).wf() == old(self).wf(),
    {
        self.screens.row_button = None;
        match self.screens.hdr.take() {
            Some(h) => {
                if commit {
                    self.settings.hdr_display = h.display;
                    self.settings.hdr_calibrated = true;
                    self.persist();
                }
            },
            None => {},
        }
        self.nav.screen = Screen::SettingsPage;
    }

    /// Handles one event on the calibration.
    pub fn handle_hdr_calibration_event(&mut self, ev: MenuEvent, stops: (u16, u16), now: u64)
        ensures
            final(self)@ == old(self)@.handle_hdr_calibration_event(ev, stops, now),
            final(self).wf() == old(self).wf(),
    {
        proof {
            reveal(AppV::handle_hdr_calibration_event);
        }
        match ev {
            MenuEvent::Back => {
                self.close_hdr_calibration(false);
                return;
            },
            _ => {},
        }
        if self.list_nav_event(1, ev, now) {
            return;
        }
        match ev {
            MenuEvent::Left => {
                self.set_hdr_value(stops.0);
            },
            MenuEvent::Right => {
                self.set_hdr_value(stops.1);
            },
            MenuEvent::Down => {
                self.step_among(true, false, 1);
            },
            MenuEvent::Up => {
                self.step_among(false, false, 1);
            },
            MenuEvent::Confirm => {
                self.advance_hdr_step();
            },
            _ => {},
        }
    }

    /// Raises the reset dialog, focused on Cancel.
    pub fn open_reset_hdr_calibration(&mut self)
        ensures
            final(self)@ == old(self)@.enter(Screen::ResetHdrCalibration, 1),
            final(self).wf() == old(self).wf(),
    {
        self.nav.enter(Screen::ResetHdrCalibration, 1);
    }

    fn clear_hdr_calibration(&mut self, default: HdrDisplay)
        ensures
            final(self)@ == old(self)@.clear_hdr_calibration(default),
            final(self).wf() == old(self).wf(),
    {
        self.settings.hdr_display = default;
        self.settings.hdr_calibrated = false;
        self.screens.row_button = None;
        self.persist();
    }

    /// Handles one event on the reset dialog. `default` is the volume the app ships with.
    pub fn handle_reset_hdr_event(&mut self, ev: MenuEvent, default: HdrDisplay, now: u64)
        ensures
            final(self)@ == old(self)@.handle_reset_hdr_event(ev, default, now),
            final(self).wf() == old(self).wf(),
    {
        proof {
            reveal(AppV::handle_reset_hdr_event);
        }
        if self.confirm_nav_event(ev, now) {
            return;
        }
        match ev {
            MenuEvent::Confirm => {
                if self.nav.cursor(Screen::ResetHdrCalibration) == 0 {
                    self.clear_hdr_calibration(default);
                }
                self.nav.screen = Screen::SettingsPage;
            },
            MenuEvent::Back => {
                self.nav.screen = Screen::SettingsPage;
            },
            MenuEvent::Secondary => {
                self.nav.screen = Screen::SettingsPage;
            },
            _ => {},
        }
    }

    /// Picks up what the pattern feed did on its own: it began to show, or gave up. Reports
    /// whether that is news.
    pub fn tick_hdr_pattern(&mut self, presenting: bool, stalled: bool) -> (r: bool)
        ensures
            final(self)@ == old(self)@.tick_hdr_pattern(presenting, stalled),
            r == (old(self)@.screens.hdr != final(self)@.screens.hdr),
            final(self).wf() == old(self).wf(),
    {
        match self.screens.hdr {
            Some(h) => {
                let shows: bool = h.playing && presenting;
                let gave_up: bool = h.playing && stalled;
                self.screens.hdr = Some(
                    HdrCalibrationState { seen_presenting: shows, seen_stalled: gave_up, ..h },
                );
                shows != h.seen_presenting || gave_up != h.seen_stalled
            },
            None => false,
        }
    }

    /// Whether the video plane shows the pattern, as the feed last said.
    pub fn hdr_pattern_presenting(&self) -> (r: bool)
        ensures
            r == (self@.screens.hdr matches Some(h) && h.playing && h.seen_presenting),
    {
        match self.screens.hdr {
            Some(h) => h.playing && h.seen_presenting,
            None => false,
        }
    }

    /// Whether only what belongs over the video plane is drawn: while a launch's backdrop
    /// dissolves, and on a screen that measures that plane.
    pub fn over_video_layers(&self, dissolving: bool) -> (r: bool)
        ensures
            r == (dissolving || self@.nav.screen == Screen::HdrCalibration),
    {
        dissolving || crate::rows::over_video(self.nav.screen)
    }

    /// Whether the frame is punched through to the video plane: the same, but only once there is a
    /// picture behind the hole.
    pub fn video_underlay(&self, dissolving: bool) -> (r: bool)
        ensures
            r == (dissolving || (self@.nav.screen == Screen::HdrCalibration && (self@.screens.hdr matches Some(h)
                && h.playing && h.seen_presenting))),
    {
        dissolving || (crate::rows::over_video(self.nav.screen) && self.hdr_pattern_presenting())
    }
}

} // verus!
