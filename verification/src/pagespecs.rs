//! What each row of the settings page says: its label and value, why it is fixed, what it warns of.
use vstd::prelude::*;
use crate::app::{App, AppV};
use crate::menu::{locked_by, lock_caption, lock_text, log_level_label, level_name, row_lock, SettingsRow};
use crate::model::{GamepadType, VideoCaps};
use crate::seqs::views;
use crate::settingspage::{overridden, pins, PageLine, PageLineV, PageRow};
use crate::slots::KitRow;
use crate::text::{text_of, literal_of};

verus! {

pub const DUALSENSE_NOTE: &'static str = "DualSense is only partly supported on this webOS release";

/// How a row is drawn and pressed.
#[derive(Clone, Copy, PartialEq, Eq, Structural, Debug)]
pub enum SpecKind {
    /// A shared row: its label, value and kind are the same on every front end.
    Shared(KitRow),
    /// A value out of a list.
    Choice,
    Toggle(bool),
    /// A value that is only shown.
    Field,
    Action,
}

/// A row of the settings page as it is drawn.
pub struct PageSpec {
    pub kind: SpecKind,
    pub header: Option<&'static str>,
    pub label: String,
    pub value: String,
    /// A line below the label.
    pub note: Option<String>,
    /// Why the row is fixed.
    pub lock: Option<String>,
    /// The profile in scope overrides this row.
    pub dot: bool,
    pub danger: bool,
}

/// A [`PageSpec`] as a value.
pub struct PageSpecV {
    pub kind: SpecKind,
    pub header: Option<Seq<char>>,
    pub label: Seq<char>,
    pub value: Seq<char>,
    pub note: Option<Seq<char>>,
    pub lock: Option<Seq<char>>,
    pub dot: bool,
    pub danger: bool,
}

impl View for PageSpec {
    type V = PageSpecV;

    open spec fn view(&self) -> PageSpecV {
        PageSpecV {
            kind: self.kind,
            header: literal_of(self.header),
            label: self.label@,
            value: self.value@,
            note: text_of(self.note),
            lock: text_of(self.lock),
            dot: self.dot,
            danger: self.danger,
        }
    }
}

/// What the rows need to know of the set and the build.
pub struct PageContext {
    /// The shared rows that apply here.
    pub kit: Vec<KitRow>,
    pub caps: VideoCaps,
    /// The build has the controller shell.
    pub shell_built: bool,
    pub webos_major: Option<u32>,
    /// The kernel drives a PlayStation pad itself.
    pub hid_bound: bool,
    /// The selected host can take the logs.
    pub host_ready: bool,
    pub version: String,
}

pub open spec fn bare_spec(kind: SpecKind, label: Seq<char>, value: Seq<char>) -> PageSpecV {
    PageSpecV { kind, header: None, label, value, note: None, lock: None, dot: false, danger: false }
}

fn spec_of(kind: SpecKind, label: &str, value: &str) -> (r: PageSpec)
    ensures
        r@ == bare_spec(kind, label@, value@),
{
    PageSpec {
        kind,
        header: None,
        label: label.to_owned(),
        value: value.to_owned(),
        note: None,
        lock: None,
        dot: false,
        danger: false,
    }
}

pub open spec fn pad_text(kind: GamepadType) -> Seq<char> {
    match kind {
        GamepadType::Auto => "Auto"@,
        GamepadType::Xbox => "Xbox"@,
        GamepadType::DualShock => "DualShock"@,
        GamepadType::DualSense => "DualSense"@,
    }
}

/// A controller's name.
pub fn pad_name(kind: GamepadType) -> (r: &'static str)
    ensures
        r@ == pad_text(kind),
{
    match kind {
        GamepadType::Auto => "Auto",
        GamepadType::Xbox => "Xbox",
        GamepadType::DualShock => "DualShock",
        GamepadType::DualSense => "DualSense",
    }
}

/// The rows that this set may fix.
pub open spec fn gated_row(row: KitRow) -> Option<SettingsRow> {
    match row {
        KitRow::Hdr => Some(SettingsRow::Hdr),
        KitRow::Codec => Some(SettingsRow::Codec),
        KitRow::Audio => Some(SettingsRow::Audio),
        KitRow::PadType => Some(SettingsRow::Gamepad),
        KitRow::GamepadUi => Some(SettingsRow::GamepadUi),
        KitRow::GamepadUiMode => Some(SettingsRow::GamepadUiMode),
        _ => None,
    }
}

fn lock_row(row: KitRow) -> (r: Option<SettingsRow>)
    ensures
        r == gated_row(row),
{
    match row {
        KitRow::Hdr => Some(SettingsRow::Hdr),
        KitRow::Codec => Some(SettingsRow::Codec),
        KitRow::Audio => Some(SettingsRow::Audio),
        KitRow::PadType => Some(SettingsRow::Gamepad),
        KitRow::GamepadUi => Some(SettingsRow::GamepadUi),
        KitRow::GamepadUiMode => Some(SettingsRow::GamepadUiMode),
        _ => None,
    }
}

impl AppV {
    /// The set's own reason why a shared row is fixed.
    pub open spec fn tv_lock(
        self,
        row: KitRow,
        caps: VideoCaps,
        shell_built: bool,
        webos_major: Option<u32>,
    ) -> Option<Seq<char>> {
        match gated_row(row) {
            Some(gate) => match locked_by(gate, self.settings, caps, shell_built, self.detected_gamepad_type) {
                Some(lock) => Some(lock_text(lock, webos_major)),
                None => None,
            },
            None => None,
        }
    }

    /// The pad in play: the one picked, or under `Auto` the one attached.
    pub open spec fn effective_pad(self) -> GamepadType {
        if self.settings.gamepad_type == GamepadType::Auto {
            match self.detected_gamepad_type {
                Some(kind) => kind,
                None => GamepadType::Auto,
            }
        } else {
            self.settings.gamepad_type
        }
    }

    pub open spec fn dualsense_limited(self, hid_bound: bool) -> bool {
        self.effective_pad() == GamepadType::DualSense && !hid_bound
    }

    pub open spec fn scope_label(self) -> Seq<char> {
        match self.scope_pos() {
            Some(i) => self.profiles[i].name,
            None => "Default settings"@,
        }
    }

    pub open spec fn kit_spec(self, row: KitRow, ctx: PageContext) -> PageSpecV {
        let lock = self.tv_lock(row, ctx.caps, ctx.shell_built, ctx.webos_major);
        PageSpecV {
            lock,
            note: if lock is None && row == KitRow::PadType && self.dualsense_limited(ctx.hid_bound) {
                Some(DUALSENSE_NOTE@)
            } else {
                None
            },
            dot: match self.scope_pos() {
                Some(i) => pins(self.profiles[i].overrides, row),
                None => false,
            },
            ..bare_spec(SpecKind::Shared(row), ""@, ""@)
        }
    }

    pub open spec fn game_mode_spec(self) -> PageSpecV {
        PageSpecV {
            note: Some("Asks the TV to switch its picture mode for the stream"@),
            lock: match self.hosts.rooted {
                Some(true) => None,
                Some(false) => Some("Needs a rooted TV"@),
                None => Some("Checking whether this TV is rooted…"@),
            },
            ..bare_spec(SpecKind::Toggle(self.settings.game_mode), "Game mode"@, ""@)
        }
    }

    pub open spec fn calibrate_spec(self, hdr: bool) -> PageSpecV {
        PageSpecV {
            lock: if self.settings.hdr_enabled && hdr {
                None
            } else {
                Some("Turn HDR on to calibrate"@)
            },
            ..bare_spec(SpecKind::Action, "Calibrate HDR…"@, ""@)
        }
    }

    pub open spec fn pad_spec(self) -> PageSpecV {
        match self.detected_gamepad_type {
            Some(kind) => bare_spec(SpecKind::Field, pad_text(kind), "Connected"@),
            None => PageSpecV {
                note: Some("Connect one to your TV"@),
                ..bare_spec(SpecKind::Field, "No controller detected"@, ""@)
            },
        }
    }

    /// What one row says, without its header.
    pub open spec fn row_spec(self, row: PageRow, ctx: PageContext) -> PageSpecV {
        match row {
            PageRow::Kit(id) => self.kit_spec(id, ctx),
            PageRow::Editing => bare_spec(SpecKind::Choice, "Editing"@, self.scope_label()),
            PageRow::GameMode => self.game_mode_spec(),
            PageRow::CalibrateHdr => self.calibrate_spec(ctx.caps.hdr),
            PageRow::ResetHdr => PageSpecV {
                danger: true,
                ..bare_spec(SpecKind::Action, "Clear HDR calibration…"@, ""@)
            },
            PageRow::Pad => self.pad_spec(),
            PageRow::Version => bare_spec(SpecKind::Field, "Punktfunk"@, ctx.version@),
            PageRow::LogLevel => bare_spec(SpecKind::Choice, "Log level"@, level_name(self.log_level)),
            PageRow::ShowLogs => bare_spec(SpecKind::Toggle(self.settings.show_logs), "Show logs"@, ""@),
            PageRow::SendLogs => bare_spec(
                SpecKind::Action,
                if ctx.host_ready {
                    "Send logs to the host"@
                } else {
                    "Send logs to developer…"@
                },
                ""@,
            ),
            PageRow::Licences => bare_spec(SpecKind::Action, "Open-source licences"@, ""@),
            PageRow::Rename => bare_spec(SpecKind::Action, "Rename…"@, ""@),
            PageRow::Duplicate => bare_spec(SpecKind::Action, "Duplicate"@, ""@),
            PageRow::Delete => bare_spec(SpecKind::Action, "Delete…"@, ""@),
        }
    }

    pub open spec fn line_spec(self, line: PageLineV, ctx: PageContext) -> PageSpecV {
        PageSpecV { header: line.header, ..self.row_spec(line.row, ctx) }
    }

    /// The open page's rows as they are drawn.
    pub open spec fn settings_page_specs(self, ctx: PageContext) -> Seq<PageSpecV> {
        let rows = self.settings_page_rows(ctx.kit@);
        Seq::new(rows.len(), |i: int| self.line_spec(rows[i], ctx))
    }
}

/// The calibration row is offered exactly where a press on it opens the calibration.
pub proof fn law_locked_calibration_does_not_open(app: AppV, hdr: bool, fresh: Seq<char>)
    ensures
        app.calibrate_spec(hdr).lock is Some ==> app.activate_row(PageRow::CalibrateHdr, hdr, fresh) == app,
        app.calibrate_spec(hdr).lock is None ==> app.activate_row(PageRow::CalibrateHdr, hdr, fresh)
            == app.open_hdr_calibration(),
{
}

/// A press on the game-mode row changes something exactly where the row is not fixed.
pub proof fn law_locked_game_mode_does_not_toggle(app: AppV)
    ensures
        app.game_mode_spec().lock is Some ==> app.toggle_game_mode() == app,
        app.game_mode_spec().lock is None ==> app.toggle_game_mode().settings.game_mode == !app.settings.game_mode,
{
}

impl App {
    /// The set's own reason why a shared row is fixed.
    pub fn tv_lock(
        &self,
        row: KitRow,
        caps: VideoCaps,
        shell_built: bool,
        webos_major: Option<u32>,
    ) -> (r: Option<String>)
        ensures
            text_of(r) == self@.tv_lock(row, caps, shell_built, webos_major),
    {
        match lock_row(row) {
            Some(gate) => match row_lock(gate, &self.settings, caps, shell_built, self.detected_gamepad_type) {
                Some(lock) => Some(lock_caption(lock, webos_major)),
                None => None,
            },
            None => None,
        }
    }

    /// Whether the pad in play is a DualSense that this set only partly supports.
    pub fn dualsense_limited(&self, hid_bound: bool) -> (r: bool)
        ensures
            r == self@.dualsense_limited(hid_bound),
    {
        let effective = if self.settings.gamepad_type == GamepadType::Auto {
            match self.detected_gamepad_type {
                Some(kind) => kind,
                None => GamepadType::Auto,
            }
        } else {
            self.settings.gamepad_type
        };
        effective == GamepadType::DualSense && !hid_bound
    }

    /// What the Editing row reads.
    pub fn scope_label(&self) -> (r: String)
        ensures
            r@ == self@.scope_label(),
    {
        match self.scope_profile() {
            Some(i) => self.profiles[i].name.clone(),
            None => "Default settings".to_owned(),
        }
    }

    fn kit_spec(&self, row: KitRow, ctx: &PageContext) -> (r: PageSpec)
        ensures
            r@ == self@.kit_spec(row, *ctx),
    {
        let lock = self.tv_lock(row, ctx.caps, ctx.shell_built, ctx.webos_major);
        let note = if lock.is_none() && row == KitRow::PadType && self.dualsense_limited(ctx.hid_bound) {
            Some(DUALSENSE_NOTE.to_owned())
        } else {
            None
        };
        let dot: bool = match self.scope_profile() {
            Some(i) => overridden(&self.profiles[i].overrides, row),
            None => false,
        };
        PageSpec {
            kind: SpecKind::Shared(row),
            header: None,
            label: "".to_owned(),
            value: "".to_owned(),
            note,
            lock,
            dot,
            danger: false,
        }
    }

    fn game_mode_spec(&self) -> (r: PageSpec)
        ensures
            r@ == self@.game_mode_spec(),
    {
        let mut spec = spec_of(SpecKind::Toggle(self.settings.game_mode), "Game mode", "");
        spec.note = Some("Asks the TV to switch its picture mode for the stream".to_owned());
        spec.lock = match self.hosts.rooted {
            Some(true) => None,
            Some(false) => Some("Needs a rooted TV".to_owned()),
            None => Some("Checking whether this TV is rooted…".to_owned()),
        };
        spec
    }

    fn calibrate_spec(&self, hdr: bool) -> (r: PageSpec)
        ensures
            r@ == self@.calibrate_spec(hdr),
    {
        let mut spec = spec_of(SpecKind::Action, "Calibrate HDR…", "");
        if !self.settings.hdr_enabled || !hdr {
            spec.lock = Some("Turn HDR on to calibrate".to_owned());
        }
        spec
    }

    fn pad_spec(&self) -> (r: PageSpec)
        ensures
            r@ == self@.pad_spec(),
    {
        match self.detected_gamepad_type {
            Some(kind) => spec_of(SpecKind::Field, pad_name(kind), "Connected"),
            None => {
                let mut spec = spec_of(SpecKind::Field, "No controller detected", "");
                spec.note = Some("Connect one to your TV".to_owned());
                spec
            },
        }
    }

    fn row_spec(&self, row: PageRow, ctx: &PageContext) -> (r: PageSpec)
        ensures
            r@ == self@.row_spec(row, *ctx),
    {
        match row {
            PageRow::Kit(id) => self.kit_spec(id, ctx),
            PageRow::Editing => spec_of(SpecKind::Choice, "Editing", self.scope_label().as_str()),
            PageRow::GameMode => self.game_mode_spec(),
            PageRow::CalibrateHdr => self.calibrate_spec(ctx.caps.hdr),
            PageRow::ResetHdr => {
                let mut spec = spec_of(SpecKind::Action, "Clear HDR calibration…", "");
                spec.danger = true;
                spec
            },
            PageRow::Pad => self.pad_spec(),
            PageRow::Version => spec_of(SpecKind::Field, "Punktfunk", ctx.version.as_str()),
            PageRow::LogLevel => spec_of(SpecKind::Choice, "Log level", log_level_label(self.log_level)),
            PageRow::ShowLogs => spec_of(SpecKind::Toggle(self.settings.show_logs), "Show logs", ""),
            PageRow::SendLogs => if ctx.host_ready {
                spec_of(SpecKind::Action, "Send logs to the host", "")
            } else {
                spec_of(SpecKind::Action, "Send logs to developer…", "")
            },
            PageRow::Licences => spec_of(SpecKind::Action, "Open-source licences", ""),
            PageRow::Rename => spec_of(SpecKind::Action, "Rename…", ""),
            PageRow::Duplicate => spec_of(SpecKind::Action, "Duplicate", ""),
            PageRow::Delete => spec_of(SpecKind::Action, "Delete…", ""),
        }
    }

    /// The open page's rows as they are drawn.
    pub fn settings_page_specs(&self, ctx: &PageContext) -> (r: Vec<PageSpec>)
        ensures
            views(r@) == self@.settings_page_specs(*ctx),
    {
        let rows: Vec<PageLine> = self.settings_page_rows(&ctx.kit);
        let ghost all = views(rows@);
        let mut out: Vec<PageSpec> = Vec::new();
        let mut i: usize = 0;
        while i < rows.len()
            invariant
                i <= rows.len(),
                all == views(rows@),
                out.len() == i,
                forall|k: int| 0 <= k < i ==> (#[trigger] out@[k])@ == self@.line_spec(all[k], *ctx),
            decreases rows.len() - i,
        {
            assert(all[i as int] == rows@[i as int]@);
            let mut spec = self.row_spec(rows[i].row, ctx);
            spec.header = rows[i].header;
            assert(spec@ == self@.line_spec(all[i as int], *ctx));
            out.push(spec);
            i = i + 1;
        }
        assert(views(out@) =~= self@.settings_page_specs(*ctx));
        out
    }
}

} // verus!
