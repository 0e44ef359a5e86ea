//! What each modal's card says: the confirm dialogs, the cards with nothing to press, the text
//! forms, and which of them a screen shows.
use vstd::prelude::*;
use crate::app::{index_sum, App, AppV};
use crate::collections::NameRefusal;
use crate::model::Screen;
use crate::rows::{confirms, is_confirm};
use crate::slots::{ScreensV, SpeedTestState, WakeV};
use crate::speedtest::recommended_kbps;
use crate::text::{text_of, literal_of};

verus! {

/// What a button means, which is what colours it.
#[derive(Clone, Copy, PartialEq, Eq, Structural, Debug)]
pub enum Tone {
    /// A loss.
    Danger,
    /// What the dialog exists to do.
    Primary,
    Plain,
}

/// A button's mark.
#[derive(Clone, Copy, PartialEq, Eq, Structural, Debug)]
pub enum Mark {
    Delete,
    Send,
    Power,
    Signal,
}

/// What the acting button says.
#[derive(Clone, Copy, PartialEq, Eq, Structural, Debug)]
pub enum ActLabel {
    Forget,
    Remove,
    Clear,
    Delete,
    Send,
    WakeHost,
    /// Write the measured bitrate, or nothing where none was measured.
    Apply(Option<u32>),
}

impl ActLabel {
    /// The words on the button, `None` where they tell what was measured.
    pub open spec fn says(self) -> Option<Seq<char>> {
        match self {
            ActLabel::Forget => Some("Forget"@),
            ActLabel::Remove => Some("Remove"@),
            ActLabel::Clear => Some("Clear"@),
            ActLabel::Delete => Some("Delete"@),
            ActLabel::Send => Some("Send"@),
            ActLabel::WakeHost => Some("Wake host"@),
            ActLabel::Apply(_) => None,
        }
    }

    /// The words on the button, `None` where they tell what was measured.
    pub fn words(self) -> (r: Option<&'static str>)
        ensures
            literal_of(r) == self.says(),
    {
        match self {
            ActLabel::Forget => Some("Forget"),
            ActLabel::Remove => Some("Remove"),
            ActLabel::Clear => Some("Clear"),
            ActLabel::Delete => Some("Delete"),
            ActLabel::Send => Some("Send"),
            ActLabel::WakeHost => Some("Wake host"),
            ActLabel::Apply(_) => None,
        }
    }
}

/// What a dialog's body speaks of.
pub enum Body {
    ForgetHost(String),
    RemoveCollection { name: String, games: usize },
    ClearHdr,
    /// How many hosts and how many titles fall back to the default settings.
    DeleteProfile { hosts: usize, titles: usize },
    SendLogs,
    Wake { name: String, reason: String, sent: bool, attempts: u32 },
    SpeedTest(String),
}

pub enum BodyV {
    ForgetHost(Seq<char>),
    RemoveCollection { name: Seq<char>, games: usize },
    ClearHdr,
    DeleteProfile { hosts: usize, titles: usize },
    SendLogs,
    Wake { name: Seq<char>, reason: Seq<char>, sent: bool, attempts: u32 },
    SpeedTest(Seq<char>),
}

impl View for Body {
    type V = BodyV;

    open spec fn view(&self) -> BodyV {
        match self {
            Body::ForgetHost(name) => BodyV::ForgetHost(name@),
            Body::RemoveCollection { name, games } => BodyV::RemoveCollection { name: name@, games: *games },
            Body::ClearHdr => BodyV::ClearHdr,
            Body::DeleteProfile { hosts, titles } => BodyV::DeleteProfile { hosts: *hosts, titles: *titles },
            Body::SendLogs => BodyV::SendLogs,
            Body::Wake { name, reason, sent, attempts } => BodyV::Wake {
                name: name@,
                reason: reason@,
                sent: *sent,
                attempts: *attempts,
            },
            Body::SpeedTest(name) => BodyV::SpeedTest(name@),
        }
    }
}

/// An open confirm dialog: its body, its acting button and the word on the other one.
pub struct Confirm {
    pub body: Body,
    pub mark: Mark,
    pub label: ActLabel,
    pub tone: Tone,
    pub cancel: &'static str,
    /// The body reads as an error.
    pub failed: bool,
}

pub struct ConfirmV {
    pub body: BodyV,
    pub mark: Mark,
    pub label: ActLabel,
    pub tone: Tone,
    pub cancel: Seq<char>,
    pub failed: bool,
}

impl View for Confirm {
    type V = ConfirmV;

    open spec fn view(&self) -> ConfirmV {
        ConfirmV {
            body: self.body@,
            mark: self.mark,
            label: self.label,
            tone: self.tone,
            cancel: self.cancel@,
            failed: self.failed,
        }
    }
}

pub open spec fn confirm_of(c: Option<Confirm>) -> Option<ConfirmV> {
    match c {
        Some(c) => Some(c@),
        None => None,
    }
}

/// A dialog that can be cancelled.
pub open spec fn asking(body: BodyV, mark: Mark, label: ActLabel, tone: Tone) -> ConfirmV {
    ConfirmV { body, mark, label, tone, cancel: "Cancel"@, failed: false }
}

fn ask_confirm(body: Body, mark: Mark, label: ActLabel, tone: Tone) -> (r: Confirm)
    ensures
        r@ == asking(body@, mark, label, tone),
{
    Confirm { body, mark, label, tone, cancel: "Cancel", failed: false }
}

pub open spec fn wake_body(w: WakeV) -> BodyV {
    BodyV::Wake { name: w.name, reason: w.reason, sent: w.sent, attempts: w.attempts }
}

/// A card with nothing to press but its close mark.
#[derive(Clone, Copy, PartialEq, Eq, Structural, Debug)]
pub enum Message {
    /// A host that no packet can wake, for want of an address on record.
    Unreachable,
    /// A speed test under way; `failed` reads as an error.
    SpeedTest { failed: bool },
}

/// A text form's purpose.
pub enum FormKind {
    AddHost,
    EditHost(String),
    RenameProfile,
    /// `renaming` is the name the collection has, `None` for a new one.
    Collection { renaming: Option<String>, card: String },
}

pub enum FormKindV {
    AddHost,
    EditHost(Seq<char>),
    RenameProfile,
    Collection { renaming: Option<Seq<char>>, card: Seq<char> },
}

impl View for FormKind {
    type V = FormKindV;

    open spec fn view(&self) -> FormKindV {
        match self {
            FormKind::AddHost => FormKindV::AddHost,
            FormKind::EditHost(name) => FormKindV::EditHost(name@),
            FormKind::RenameProfile => FormKindV::RenameProfile,
            FormKind::Collection { renaming, card } => FormKindV::Collection {
                renaming: text_of(*renaming),
                card: card@,
            },
        }
    }
}

/// Why what is typed is refused.
pub enum FormHint {
    Profile(&'static str),
    Collection(NameRefusal),
}

pub enum FormHintV {
    Profile(Seq<char>),
    Collection(NameRefusal),
}

pub open spec fn hint_of(h: Option<FormHint>) -> Option<FormHintV> {
    match h {
        Some(FormHint::Profile(w)) => Some(FormHintV::Profile(w@)),
        Some(FormHint::Collection(n)) => Some(FormHintV::Collection(n)),
        None => None,
    }
}

/// The open text form: what it is for, what is typed, and why that is refused.
pub struct Form {
    pub kind: FormKind,
    pub typed: String,
    pub hint: Option<FormHint>,
}

pub struct FormV {
    pub kind: FormKindV,
    pub typed: Seq<char>,
    pub hint: Option<FormHintV>,
}

impl View for Form {
    type V = FormV;

    open spec fn view(&self) -> FormV {
        FormV { kind: self.kind@, typed: self.typed@, hint: hint_of(self.hint) }
    }
}

pub open spec fn form_of(f: Option<Form>) -> Option<FormV> {
    match f {
        Some(f) => Some(f@),
        None => None,
    }
}

/// The title of the dialog that wakes a host.
pub const WAKE_TITLE: &'static str = "Wake this host?";

/// The title of the card for a host that no packet can wake.
pub const UNREACHABLE_TITLE: &'static str = "Host unreachable";

/// The title a card wears: its words, or which of the screens' own titles it is.
#[derive(Clone, Copy, PartialEq, Eq, Debug)]
pub enum Title {
    Words(&'static str),
    ForgetHost,
    SendLogs,
    RemoveCollection,
    ClearHdr,
    DeleteProfile,
    SpeedTest,
}

/// A [`Title`] as a value.
pub enum TitleV {
    Words(Seq<char>),
    ForgetHost,
    SendLogs,
    RemoveCollection,
    ClearHdr,
    DeleteProfile,
    SpeedTest,
}

impl View for Title {
    type V = TitleV;

    open spec fn view(&self) -> TitleV {
        match self {
            Title::Words(words) => TitleV::Words(words@),
            Title::ForgetHost => TitleV::ForgetHost,
            Title::SendLogs => TitleV::SendLogs,
            Title::RemoveCollection => TitleV::RemoveCollection,
            Title::ClearHdr => TitleV::ClearHdr,
            Title::DeleteProfile => TitleV::DeleteProfile,
            Title::SpeedTest => TitleV::SpeedTest,
        }
    }
}

pub open spec fn dialog_title(screen: Screen) -> Option<TitleV> {
    match screen {
        Screen::ForgetHost => Some(TitleV::ForgetHost),
        Screen::SendLogs => Some(TitleV::SendLogs),
        Screen::RemoveCollection => Some(TitleV::RemoveCollection),
        Screen::ResetHdrCalibration => Some(TitleV::ClearHdr),
        Screen::DeleteProfile => Some(TitleV::DeleteProfile),
        Screen::Wake => Some(TitleV::Words(WAKE_TITLE@)),
        Screen::SpeedTest => Some(TitleV::SpeedTest),
        _ => None,
    }
}

/// The title a screen's dialog wears, `None` for a screen that is no dialog.
pub fn title_of(screen: Screen) -> (r: Option<Title>)
    ensures
        (match r {
            Some(title) => Some(title@),
            None => None,
        }) == dialog_title(screen),
{
    match screen {
        Screen::ForgetHost => Some(Title::ForgetHost),
        Screen::SendLogs => Some(Title::SendLogs),
        Screen::RemoveCollection => Some(Title::RemoveCollection),
        Screen::ResetHdrCalibration => Some(Title::ClearHdr),
        Screen::DeleteProfile => Some(Title::DeleteProfile),
        Screen::Wake => Some(Title::Words(WAKE_TITLE)),
        Screen::SpeedTest => Some(Title::SpeedTest),
        _ => None,
    }
}

impl Message {
    /// The title the card wears.
    pub open spec fn titled(self) -> TitleV {
        match self {
            Message::Unreachable => TitleV::Words(UNREACHABLE_TITLE@),
            Message::SpeedTest { .. } => TitleV::SpeedTest,
        }
    }

    /// The title the card wears.
    pub fn title(self) -> (r: Title)
        ensures
            r@ == self.titled(),
    {
        match self {
            Message::Unreachable => Title::Words(UNREACHABLE_TITLE),
            Message::SpeedTest { .. } => Title::SpeedTest,
        }
    }
}

/// Every dialog has a title, and no other screen has one; two dialogs never share one.
pub proof fn law_dialogs_are_titled(screen: Screen, other: Screen)
    ensures
        dialog_title(screen) is Some <==> confirms(screen),
        dialog_title(screen) is Some && dialog_title(screen) == dialog_title(other) ==> screen == other,
{
}

/// Which screens draw a card.
pub open spec fn draws_card(screen: Screen) -> bool {
    screen != Screen::Home
}

pub fn ported(screen: Screen) -> (r: bool)
    ensures
        r == draws_card(screen),
{
    match screen {
        Screen::Home => false,
        _ => true,
    }
}

/// The cards that are a list of rows.
pub open spec fn list_card_screen(screen: Screen) -> bool {
    match screen {
        Screen::HostMenu => true,
        Screen::HostPower => true,
        Screen::Collections => true,
        Screen::HdrCalibration => true,
        Screen::PickProfile => true,
        _ => false,
    }
}

pub fn is_list(screen: Screen) -> (r: bool)
    ensures
        r == list_card_screen(screen),
{
    match screen {
        Screen::HostMenu => true,
        Screen::HostPower => true,
        Screen::Collections => true,
        Screen::HdrCalibration => true,
        Screen::PickProfile => true,
        _ => false,
    }
}

pub open spec fn text_form_screen(screen: Screen) -> bool {
    match screen {
        Screen::AddHost => true,
        Screen::EditHost => true,
        Screen::RenameCollection => true,
        Screen::RenameProfile => true,
        _ => false,
    }
}

fn is_text_form(screen: Screen) -> (r: bool)
    ensures
        r == text_form_screen(screen),
{
    match screen {
        Screen::AddHost => true,
        Screen::EditHost => true,
        Screen::RenameCollection => true,
        Screen::RenameProfile => true,
        _ => false,
    }
}

/// The one card a screen shows.
#[derive(Clone, Copy, PartialEq, Eq, Structural, Debug)]
pub enum CardKind {
    /// A text form.
    Form,
    /// The pairing card.
    Pairing,
    /// The About document.
    Document,
    /// The settings page.
    Settings,
    /// A list of rows.
    Rows,
    /// A confirm dialog.
    Dialog,
    /// A card with nothing to press.
    Message,
    Nothing,
}

/// No two kinds of screen overlap: one that is a list is no dialog and no form.
pub proof fn law_card_families_disjoint(screen: Screen)
    ensures
        !(list_card_screen(screen) && confirms(screen)),
        !(list_card_screen(screen) && text_form_screen(screen)),
        !(confirms(screen) && text_form_screen(screen)),
        list_card_screen(screen) || confirms(screen) || text_form_screen(screen) ==> draws_card(screen),
{
}

impl AppV {
    /// The name of the host that the host dialogs act on.
    pub open spec fn dialog_host(self) -> Seq<char> {
        match self.host_menu_entry() {
            Some(e) => e.name(),
            None => Seq::empty(),
        }
    }

    pub open spec fn confirm_remove(self) -> Option<ConfirmV> {
        match (self.screens.collections.removing, self.selected_known_host()) {
            (Some(at), Some(h)) => if at < h.collections.len() {
                Some(
                    asking(
                        BodyV::RemoveCollection {
                            name: h.collections[at as int].name,
                            games: h.collections[at as int].games.len() as usize,
                        },
                        Mark::Delete,
                        ActLabel::Remove,
                        Tone::Danger,
                    ),
                )
            } else {
                None
            },
            _ => None,
        }
    }

    pub open spec fn confirm_delete(self) -> ConfirmV {
        let (hosts, titles) = self.profile_use_counts();
        asking(
            BodyV::DeleteProfile { hosts: hosts as usize, titles: index_sum(titles, 0) },
            Mark::Delete,
            ActLabel::Delete,
            Tone::Danger,
        )
    }

    /// A host that no packet could wake has nothing to confirm.
    pub open spec fn confirm_wake(self) -> Option<ConfirmV> {
        match self.screens.wake {
            Some(w) => if w.mac.len() == 0 {
                None
            } else {
                Some(asking(wake_body(w), Mark::Power, ActLabel::WakeHost, Tone::Primary))
            },
            None => None,
        }
    }

    /// A test still running has nothing to confirm; one that has run cannot be called off, so that
    /// the other button closes it.
    pub open spec fn confirm_speed_test(self) -> Option<ConfirmV> {
        match self.screens.speed_test {
            Some(s) => if s.finished() {
                Some(
                    ConfirmV {
                        body: BodyV::SpeedTest(self.screens.speed_test_name),
                        mark: Mark::Signal,
                        label: ActLabel::Apply(
                            match s.recommendation() {
                                Some(kbps) => Some(kbps as u32),
                                None => None,
                            },
                        ),
                        tone: Tone::Primary,
                        cancel: "Close"@,
                        failed: s is Failed,
                    },
                )
            } else {
                None
            },
            None => None,
        }
    }

    /// The confirm dialog a screen shows.
    pub open spec fn confirm_for(self, screen: Screen) -> Option<ConfirmV> {
        match screen {
            Screen::ForgetHost => Some(
                asking(BodyV::ForgetHost(self.dialog_host()), Mark::Delete, ActLabel::Forget, Tone::Danger),
            ),
            Screen::RemoveCollection => self.confirm_remove(),
            Screen::ResetHdrCalibration => Some(
                asking(BodyV::ClearHdr, Mark::Delete, ActLabel::Clear, Tone::Danger),
            ),
            Screen::DeleteProfile => Some(self.confirm_delete()),
            Screen::SendLogs => Some(asking(BodyV::SendLogs, Mark::Send, ActLabel::Send, Tone::Danger)),
            Screen::Wake => self.confirm_wake(),
            Screen::SpeedTest => self.confirm_speed_test(),
            _ => None,
        }
    }

    /// The card a screen shows while it has nothing to confirm.
    pub open spec fn message_card(self, screen: Screen) -> Option<Message> {
        match screen {
            Screen::Wake => if self.screens.wake is Some {
                Some(Message::Unreachable)
            } else {
                None
            },
            Screen::SpeedTest => Some(
                Message::SpeedTest { failed: self.screens.speed_test matches Some(s) && s is Failed },
            ),
            _ => None,
        }
    }

    /// The name of the collection that the form renames.
    pub open spec fn renamed_collection(self) -> Option<Seq<char>> {
        match (self.screens.collections.renaming, self.selected_known_host()) {
            (Some(at), Some(h)) => if at < h.collections.len() {
                Some(h.collections[at as int].name)
            } else {
                None
            },
            _ => None,
        }
    }

    /// The open text form.
    pub open spec fn text_form(self) -> Option<FormV> {
        match self.nav.screen {
            Screen::AddHost => Some(FormV { kind: FormKindV::AddHost, typed: self.screens.add_host, hint: None }),
            Screen::EditHost => Some(
                FormV { kind: FormKindV::EditHost(self.dialog_host()), typed: self.screens.add_host, hint: None },
            ),
            Screen::RenameProfile => Some(
                FormV {
                    kind: FormKindV::RenameProfile,
                    typed: self.screens.profile_name,
                    hint: match self.profile_name_hint() {
                        Some(w) => Some(FormHintV::Profile(w)),
                        None => None,
                    },
                },
            ),
            Screen::RenameCollection => Some(
                FormV {
                    kind: FormKindV::Collection {
                        renaming: self.renamed_collection(),
                        card: self.screens.collections.title,
                    },
                    typed: self.screens.collections.name,
                    hint: match self.collection_name_hint() {
                        Some(n) => Some(FormHintV::Collection(n)),
                        None => None,
                    },
                },
            ),
            _ => None,
        }
    }

    /// The dialog's focus put on a button.
    pub open spec fn with_confirm_focused(self, index: usize) -> AppV {
        if self.nav.screen == Screen::Wake {
            match self.screens.wake {
                Some(w) => AppV {
                    screens: ScreensV { wake: Some(WakeV { focused: index, ..w }), ..self.screens },
                    ..self
                },
                None => self,
            }
        } else if confirms(self.nav.screen) {
            self.with_row(index)
        } else {
            self
        }
    }

    /// The button that the open dialog's focus is on.
    pub open spec fn confirm_focused(self) -> Option<usize> {
        if self.nav.screen == Screen::Wake {
            match self.screens.wake {
                Some(w) => Some(w.focused),
                None => None,
            }
        } else if confirms(self.nav.screen) {
            Some(self.row())
        } else {
            None
        }
    }

    /// Which card a screen shows; `rows` says that its list has something to show.
    pub open spec fn card_kind(self, screen: Screen, rows: bool) -> CardKind {
        if text_form_screen(screen) {
            if self.text_form() is Some {
                CardKind::Form
            } else {
                CardKind::Nothing
            }
        } else if screen == Screen::Pairing {
            CardKind::Pairing
        } else if screen == Screen::About {
            CardKind::Document
        } else if screen == Screen::SettingsPage {
            CardKind::Settings
        } else if list_card_screen(screen) {
            if rows {
                CardKind::Rows
            } else {
                CardKind::Nothing
            }
        } else if self.confirm_for(screen) is Some {
            CardKind::Dialog
        } else if self.message_card(screen) is Some {
            CardKind::Message
        } else {
            CardKind::Nothing
        }
    }
}

/// A dialog's answer that destroys saved state is drawn as a loss, and its other answer is Cancel, or
/// Close where there is nothing left to call off. Only a dialog's screen asks, or explains.
pub proof fn law_losses_are_marked(app: AppV, screen: Screen)
    ensures
        app.confirm_for(screen) matches Some(c) ==> (c.label == ActLabel::Forget || c.label == ActLabel::Remove
            || c.label == ActLabel::Clear || c.label == ActLabel::Delete ==> c.tone == Tone::Danger),
        app.confirm_for(screen) matches Some(c) ==> c.cancel == "Cancel"@ || c.cancel == "Close"@,
        app.confirm_for(screen) is Some ==> confirms(screen),
        app.message_card(screen) is Some ==> confirms(screen),
{
}

/// The form that is up shows what an erase or a key would change.
pub proof fn law_form_shows_what_is_typed(app: AppV)
    ensures
        match (app.text_form(), app.typed_text()) {
            (Some(f), Some(t)) => f.typed == t,
            (None, None) => true,
            _ => false,
        },
{
}

impl App {
    fn dialog_host(&self) -> (r: String)
        ensures
            r@ == self@.dialog_host(),
    {
        match self.host_menu_host_name() {
            Some(name) => name,
            None => {
                let none = String::new();
                assert(none@ =~= Seq::empty());
                none
            },
        }
    }

    fn confirm_remove(&self) -> (r: Option<Confirm>)
        ensures
            confirm_of(r) == self@.confirm_remove(),
    {
        match self.removed_collection() {
            Some((name, games)) => Some(
                ask_confirm(Body::RemoveCollection { name, games }, Mark::Delete, ActLabel::Remove, Tone::Danger),
            ),
            None => None,
        }
    }

    fn confirm_delete(&self) -> (r: Confirm)
        ensures
            r@ == self@.confirm_delete(),
    {
        let (hosts, titles): (usize, usize) = self.profile_use_counts();
        ask_confirm(Body::DeleteProfile { hosts, titles }, Mark::Delete, ActLabel::Delete, Tone::Danger)
    }

    fn confirm_wake(&self) -> (r: Option<Confirm>)
        ensures
            confirm_of(r) == self@.confirm_wake(),
    {
        match &self.screens.wake {
            Some(w) => if w.mac.len() == 0 {
                assert(w@.mac.len() == 0);
                None
            } else {
                assert(w@.mac.len() == w.mac.len());
                Some(
                    ask_confirm(
                        Body::Wake {
                            name: w.name.clone(),
                            reason: w.reason.clone(),
                            sent: w.sent,
                            attempts: w.attempts,
                        },
                        Mark::Power,
                        ActLabel::WakeHost,
                        Tone::Primary,
                    ),
                )
            },
            None => None,
        }
    }

    fn confirm_speed_test(&self) -> (r: Option<Confirm>)
        ensures
            confirm_of(r) == self@.confirm_speed_test(),
    {
        let (kbps, failed): (Option<u32>, bool) = match &self.screens.speed_test {
            Some(SpeedTestState::Done { outcome, .. }) => (recommended_kbps(outcome), false),
            Some(SpeedTestState::Failed(_)) => (None, true),
            _ => {
                return None;
            },
        };
        Some(
            Confirm {
                body: Body::SpeedTest(self.screens.speed_test_name.clone()),
                mark: Mark::Signal,
                label: ActLabel::Apply(kbps),
                tone: Tone::Primary,
                cancel: "Close",
                failed,
            },
        )
    }

    /// The confirm dialog a screen shows, whether it is the one that is up or one fading out.
    pub fn confirm_for(&self, screen: Screen) -> (r: Option<Confirm>)
        ensures
            confirm_of(r) == self@.confirm_for(screen),
    {
        match screen {
            Screen::ForgetHost => Some(
                ask_confirm(Body::ForgetHost(self.dialog_host()), Mark::Delete, ActLabel::Forget, Tone::Danger),
            ),
            Screen::RemoveCollection => self.confirm_remove(),
            Screen::ResetHdrCalibration => Some(
                ask_confirm(Body::ClearHdr, Mark::Delete, ActLabel::Clear, Tone::Danger),
            ),
            Screen::DeleteProfile => Some(self.confirm_delete()),
            Screen::SendLogs => Some(ask_confirm(Body::SendLogs, Mark::Send, ActLabel::Send, Tone::Danger)),
            Screen::Wake => self.confirm_wake(),
            Screen::SpeedTest => self.confirm_speed_test(),
            _ => None,
        }
    }

    /// The card a screen shows while it has nothing to confirm.
    pub fn message_card(&self, screen: Screen) -> (r: Option<Message>)
        ensures
            r == self@.message_card(screen),
    {
        match screen {
            Screen::Wake => if self.screens.wake.is_some() {
                Some(Message::Unreachable)
            } else {
                None
            },
            Screen::SpeedTest => {
                let failed: bool = match &self.screens.speed_test {
                    Some(SpeedTestState::Failed(_)) => true,
                    _ => false,
                };
                Some(Message::SpeedTest { failed })
            },
            _ => None,
        }
    }

    fn renamed_collection(&self) -> (r: Option<String>)
        ensures
            text_of(r) == self@.renamed_collection(),
    {
        match (self.screens.collections.renaming, self.selected_known_host()) {
            (Some(at), Some(i)) => {
                let h = &self.hosts.known[i];
                assert(self@.hosts.known[i as int] == h@);
                if at < h.collections.len() {
                    assert(h@.collections[at as int] == h.collections@[at as int]@);
                    Some(h.collections[at].name.clone())
                } else {
                    None
                }
            },
            _ => None,
        }
    }

    /// The open text form, `None` on a screen that types into nothing.
    pub fn text_form(&self) -> (r: Option<Form>)
        ensures
            form_of(r) == self@.text_form(),
    {
        match self.nav.screen {
            Screen::AddHost => Some(
                Form { kind: FormKind::AddHost, typed: self.screens.add_host.clone(), hint: None },
            ),
            Screen::EditHost => Some(
                Form {
                    kind: FormKind::EditHost(self.dialog_host()),
                    typed: self.screens.add_host.clone(),
                    hint: None,
                },
            ),
            Screen::RenameProfile => {
                let hint = match self.profile_name_hint() {
                    Some(w) => Some(FormHint::Profile(w)),
                    None => None,
                };
                Some(Form { kind: FormKind::RenameProfile, typed: self.screens.profile_name.clone(), hint })
            },
            Screen::RenameCollection => {
                let hint = match self.collection_name_hint() {
                    Some(n) => Some(FormHint::Collection(n)),
                    None => None,
                };
                let kind = FormKind::Collection {
                    renaming: self.renamed_collection(),
                    card: self.screens.collections.title.clone(),
                };
                Some(Form { kind, typed: self.screens.collections.name.clone(), hint })
            },
            _ => None,
        }
    }

    /// Puts the open dialog's focus on a button. Reports whether it moved.
    pub fn set_confirm_focused(&mut self, index: usize) -> (r: bool)
        ensures
            final(self)@ == old(self)@.with_confirm_focused(index),
            r == (old(self)@.confirm_focused() matches Some(at) && at != index),
            final(self).wf() == old(self).wf(),
    {
        let screen: Screen = self.nav.screen;
        if screen == Screen::Wake {
            match self.screens.wake.take() {
                Some(mut w) => {
                    let changed: bool = w.focused != index;
                    w.focused = index;
                    self.screens.wake = Some(w);
                    changed
                },
                None => false,
            }
        } else if is_confirm(screen) {
            let changed: bool = self.nav.cursor(screen) != index;
            self.nav.set_cursor(screen, index);
            changed
        } else {
            false
        }
    }

    /// Which card a screen shows; `rows` says that its list has something to show.
    pub fn card_kind(&self, screen: Screen, rows: bool) -> (r: CardKind)
        ensures
            r == self@.card_kind(screen, rows),
    {
        if is_text_form(screen) {
            return if self.text_form().is_some() {
                CardKind::Form
            } else {
                CardKind::Nothing
            };
        }
        if screen == Screen::Pairing {
            return CardKind::Pairing;
        }
        if screen == Screen::About {
            return CardKind::Document;
        }
        if screen == Screen::SettingsPage {
            return CardKind::Settings;
        }
        if is_list(screen) {
            return if rows {
                CardKind::Rows
            } else {
                CardKind::Nothing
            };
        }
        if self.confirm_for(screen).is_some() {
            CardKind::Dialog
        } else if self.message_card(screen).is_some() {
            CardKind::Message
        } else {
            CardKind::Nothing
        }
    }
}

} // verus!
