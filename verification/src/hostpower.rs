//! A host's power: what this pairing may do with it, putting it down, and its two settings.
use vstd::prelude::*;
use crate::app::{App, AppV};
use crate::hosts::{EntryV, HostEntry, HostsV};
use crate::menu::{
    cycle_index, cycled, exit_action_at, exit_action_current_index, exit_actions, exit_index, PowerAccess, PowerRights,
    EXIT_ACTIONS, POWER_ROW_AUTO, POWER_ROW_COUNT, POWER_ROW_EXIT,
};
use crate::model::{
    host_views, is_target, target_of, ExitAction, HostV, LibraryError, MenuEvent, Screen, Target, TargetV,
};
use crate::reach::{api_error_is_offline, is_silence};
use crate::slots::{Effect, EffectV, JobsV, PowerJob, PowerJobV, ProbeFailure, ProbeVerdict, ScreensV};
use crate::text::join2;

verus! {

/// What a probe's answer says of this pairing's rights. A host without the route answered, and
/// there is no grant to widen.
pub open spec fn verdict(answer: Result<PowerRights, LibraryError>) -> ProbeVerdict {
    match answer {
        Ok(rights) => ProbeVerdict::Rights(rights),
        Err(LibraryError::Http(code)) => if code == 404 {
            ProbeVerdict::Failure(ProbeFailure::Unsupported)
        } else {
            ProbeVerdict::Failure(ProbeFailure::Unreachable)
        },
        Err(_) => ProbeVerdict::Failure(ProbeFailure::Unreachable),
    }
}

pub fn probe_verdict(answer: Result<PowerRights, LibraryError>) -> (r: ProbeVerdict)
    ensures
        r == verdict(answer),
{
    match answer {
        Ok(rights) => ProbeVerdict::Rights(rights),
        Err(LibraryError::Http(code)) => {
            if code == 404 {
                ProbeVerdict::Failure(ProbeFailure::Unsupported)
            } else {
                ProbeVerdict::Failure(ProbeFailure::Unreachable)
            }
        },
        Err(_) => ProbeVerdict::Failure(ProbeFailure::Unreachable),
    }
}

impl AppV {
    /// The row the host menu, and everything reached from it, is acting on.
    pub open spec fn host_menu_entry(self) -> Option<EntryV> {
        match self.screens.host_menu_index {
            Some(i) => if i < self.hosts.entries.len() {
                Some(self.hosts.entries[i as int])
            } else {
                None
            },
            None => None,
        }
    }

    pub open spec fn host_power_target(self) -> Option<TargetV> {
        match self.host_menu_entry() {
            Some(e) => Some(e.target()),
            None => None,
        }
    }

    pub open spec fn host_power_pos(self) -> Option<int> {
        match self.host_power_target() {
            Some(t) => crate::hosts::host_pos(self.hosts.known, t.host, t.port),
            None => None,
        }
    }

    /// The saved record of that host.
    pub open spec fn host_power_host(self) -> Option<HostV> {
        match self.host_power_pos() {
            Some(i) => Some(self.hosts.known[i]),
            None => None,
        }
    }

    /// The host asked what this pairing may do, where there is a pairing to ask with.
    pub open spec fn start_power_probe(self) -> AppV {
        match self.host_power_host() {
            Some(h) => match AppV::power_plan(h, ExitAction::Sleep) {
                Some(plan) => AppV {
                    jobs: JobsV { power_access: self.host_power_target(), ..self.jobs },
                    ..self
                }.effect(EffectV::ProbePower(plan)),
                None => self,
            },
            None => self,
        }
    }

    /// A host's power settings opened. The rights are asked for anew on every visit.
    pub open spec fn open_host_power(self) -> AppV {
        AppV {
            screens: ScreensV { power_rights: None, ..self.screens },
            jobs: JobsV { power_access: None, ..self.jobs },
            ..self
        }.start_power_probe().enter(Screen::HostPower, 0)
    }

    /// A host the user has just put down, let go of: not selected, known to be away, and marked so
    /// that nothing brings it back.
    pub open spec fn leave_powered_down(self, at: TargetV, now: u64) -> AppV {
        let left = self.deselect(at, now).note_reachable(at, false);
        AppV { hosts: HostsV { powered_down: Some(at), ..left.hosts }, ..left }
    }

    /// A power action sent to a host that is up.
    pub open spec fn start_power_action(self, at: TargetV, action: ExitAction, name: Seq<char>, now: u64) -> AppV {
        match self.hosts.host_at(at) {
            Some(h) => match AppV::power_plan(h, action) {
                Some(plan) => AppV {
                    jobs: JobsV { power_action: Some(PowerJobV { at, action }), ..self.jobs },
                    ..self
                }.effect(EffectV::PowerAction(plan)).leave_powered_down(at, now).effect(
                    EffectV::TellPending(action, name),
                ),
                None => self,
            },
            None => self,
        }
    }

    pub open spec fn lift_power_down(self, at: TargetV) -> AppV {
        if self.hosts.powered_down == Some(at) {
            AppV { hosts: HostsV { powered_down: None, ..self.hosts }, ..self }
        } else {
            self
        }
    }

    /// A power action's outcome reported. A refusal gives the host back: nothing is going down, so
    /// nothing holds off waking it.
    pub open spec fn drain_power_action(self, error: Option<LibraryError>, line: Seq<char>, now: u64) -> AppV {
        match self.jobs.power_action {
            Some(job) => {
                let done = AppV { jobs: JobsV { power_action: None, ..self.jobs }, ..self };
                match error {
                    None => done.set_home_status(Some(line), true, now),
                    Some(e) => done.lift_power_down(job.at).note_reachable(job.at, !is_silence(e)).set_home_status(
                        Some(line),
                        true,
                        now,
                    ),
                }
            },
            None => self,
        }
    }

    /// The verdict on this pairing's rights. Only the host that was asked may claim it.
    pub open spec fn drain_power_access(self, answer: Result<PowerRights, LibraryError>) -> AppV {
        match self.jobs.power_access {
            Some(at) => {
                let v = verdict(answer);
                let done = AppV { jobs: JobsV { power_access: None, ..self.jobs }, ..self };
                let noted = if v == ProbeVerdict::Failure(ProbeFailure::Unreachable) {
                    done
                } else {
                    done.note_reachable(at, true)
                };
                if noted.host_power_target() == Some(at) {
                    AppV { screens: ScreensV { power_rights: Some(v), ..noted.screens }, ..noted }
                } else {
                    noted
                }
            },
            None => self,
        }
    }

    /// What is known of this pairing's rights.
    pub open spec fn power_access(self) -> PowerAccess {
        match self.host_power_host() {
            Some(h) => if h.is_paired() {
                match self.screens.power_rights {
                    None => PowerAccess::Unknown,
                    Some(ProbeVerdict::Failure(ProbeFailure::Unsupported)) => PowerAccess::Unsupported,
                    Some(ProbeVerdict::Failure(ProbeFailure::Unreachable)) => PowerAccess::Unreachable,
                    Some(ProbeVerdict::Rights(rights)) => PowerAccess::Rights(rights),
                }
            } else {
                PowerAccess::NotPaired
            },
            None => PowerAccess::NotPaired,
        }
    }

    pub open spec fn host_wol_auto(self) -> bool {
        self.host_power_host() matches Some(h) && h.wol_auto
    }

    pub open spec fn host_power_exit_action(self) -> ExitAction {
        match self.host_power_host() {
            Some(h) => h.exit_action,
            None => ExitAction::Nothing,
        }
    }

    /// Automatic waking flipped. A host that was only discovered has no record to flip it in.
    pub open spec fn toggle_wol_auto(self, now: u64) -> AppV {
        match self.host_power_pos() {
            Some(i) => self.with_known(
                i,
                HostV { wol_auto: !self.host_wol_auto(), ..self.hosts.known[i] },
            ).persist().arm_switch_anim(self.host_wol_auto(), now),
            None => self,
        }
    }

    pub open spec fn apply_exit_action(self, index: usize) -> AppV {
        match self.host_power_pos() {
            Some(i) => if index < exit_actions().len() {
                self.with_known(
                    i,
                    HostV { exit_action: exit_actions()[index as int], ..self.hosts.known[i] },
                ).persist()
            } else {
                self
            },
            None => self,
        }
    }

    /// One event on a host's power settings.
    #[verifier::opaque]
    pub open spec fn handle_host_power_event(self, ev: MenuEvent, now: u64) -> AppV {
        match self.list_nav(POWER_ROW_COUNT as nat, ev, now) {
            Some(moved) => moved,
            None => match ev {
                MenuEvent::Back => self.latch_host_menu_power().show(Screen::HostMenu),
                MenuEvent::Secondary => self,
                MenuEvent::Up => self,
                MenuEvent::Down => self,
                _ => {
                    let row = self.nav.cursor(Screen::HostPower);
                    if row == POWER_ROW_AUTO {
                        self.toggle_wol_auto(now)
                    } else if row == POWER_ROW_EXIT && self.power_access().is_unlocked() {
                        self.apply_exit_action(
                            cycled(
                                exit_index(self.host_power_exit_action()) as int,
                                EXIT_ACTIONS as int,
                                ev != MenuEvent::Left,
                            ) as usize,
                        )
                    } else {
                        self
                    }
                },
            },
        }
    }
}

/// Putting a host down lets go of it: it is not the selected host, it is known to be away, and
/// nothing wakes it without asking.
pub proof fn law_put_down(app: AppV, at: TargetV, action: ExitAction, name: Seq<char>, now: u64)
    requires
        app.hosts.host_at(at) matches Some(h) && h.is_paired(),
        action != ExitAction::Nothing,
    ensures
        ({
            let after = app.start_power_action(at, action, name, now);
            &&& after.hosts.powered_down == Some(at)
            &&& after.library.selected_host != Some(at)
            &&& crate::hosts::online_of(after.hosts.reachable, at) == Some(false)
            &&& forall|mac: Seq<Seq<char>>| !#[trigger] after.wakes_by_itself(at, mac)
        }),
{
    let left = app.start_power_action(at, action, name, now);
    crate::hosts::law_record_read_back(app.hosts.reachable, at, false, at);
}

/// A refused action leaves nothing held off: the host can be woken again.
pub proof fn law_refusal_gives_host_back(app: AppV, e: LibraryError, line: Seq<char>, now: u64)
    requires
        app.jobs.power_action is Some,
    ensures
        app.drain_power_action(Some(e), line, now).hosts.powered_down != Some(app.jobs.power_action->0.at),
        app.drain_power_action(Some(e), line, now).jobs.power_action is None,
{
}

/// An answer about one host never unlocks another's settings.
pub proof fn law_rights_stay_with_their_host(app: AppV, answer: Result<PowerRights, LibraryError>)
    requires
        app.jobs.power_access is Some,
        app.host_power_target() != app.jobs.power_access,
    ensures
        app.drain_power_access(answer).screens.power_rights == app.screens.power_rights,
{
}

/// Every visit asks anew: what an earlier host said is never shown for this one.
pub proof fn law_rights_asked_anew(app: AppV)
    ensures
        app.open_host_power().screens.power_rights is None,
{
}

impl App {
    /// The row the host menu is acting on.
    pub fn host_menu_entry(&self) -> (r: Option<&HostEntry>)
        ensures
            match (r, self@.host_menu_entry()) {
                (Some(e), Some(v)) => e@ == v,
                (None, None) => true,
                _ => false,
            },
    {
        match self.screens.host_menu_index {
            Some(i) => {
                if i < self.hosts.entries.len() {
                    assert(self@.hosts.entries[i as int] == self.hosts.entries@[i as int]@);
                    Some(&self.hosts.entries[i])
                } else {
                    None
                }
            },
            None => None,
        }
    }

    fn host_power_target(&self) -> (r: Option<Target>)
        ensures
            target_of(r) == self@.host_power_target(),
    {
        match self.host_menu_entry() {
            Some(e) => Some(e.target()),
            None => None,
        }
    }

    /// The position of the saved record of the host this screen is acting on, `None` for a host
    /// that was only discovered.
    pub fn host_power_host(&self) -> (r: Option<usize>)
        ensures
            match (r, self@.host_power_pos()) {
                (Some(k), Some(i)) => k == i && k < self.hosts.known.len() && self@.hosts.known[i]
                    == self.hosts.known[k as int]@,
                (None, None) => true,
                _ => false,
            },
    {
        match self.host_power_target() {
            Some(t) => self.known_host(t.host.as_str(), t.port),
            None => None,
        }
    }

    fn start_power_probe(&mut self)
        ensures
            final(self)@ == old(self)@.start_power_probe(),
            final(self).wf() == old(self).wf(),
    {
        match self.host_power_host() {
            Some(i) => {
                // Any action names the same lane; nothing is sent but the question.
                match App::power_plan(&self.hosts.known[i], ExitAction::Sleep) {
                    Some(plan) => {
                        let at = self.host_power_target();
                        self.jobs.power_access = at;
                        self.ask(Effect::ProbePower(plan));
                    },
                    None => {},
                }
            },
            None => {},
        }
    }

    /// Opens the power settings of the host menu's host.
    pub fn open_host_power(&mut self)
        ensures
            final(self)@ == old(self)@.open_host_power(),
            final(self).wf() == old(self).wf(),
    {
        self.screens.power_rights = None;
        self.jobs.power_access = None;
        self.start_power_probe();
        self.nav.enter(Screen::HostPower, 0);
    }

    fn leave_powered_down(&mut self, at: &Target, now: u64)
        ensures
            final(self)@ == old(self)@.leave_powered_down(at@, now),
            final(self).wf() == old(self).wf(),
    {
        if is_target(&self.library.selected_host, &at.host, at.port) {
            self.clear_selected_host(now);
        }
        // Its dot goes out now rather than at the next sweep.
        self.note_reachable(at.host.as_str(), at.port, false);
        self.hosts.powered_down = Some(at.clone());
    }

    /// Sends one power action to a host that is up, and lets go of the host.
    pub fn start_power_action(&mut self, host: &str, port: u16, action: ExitAction, name: &str, now: u64)
        ensures
            final(self)@ == old(self)@.start_power_action(TargetV { host: host@, port }, action, name@, now),
            final(self).wf() == old(self).wf(),
    {
        let plan = match self.known_host(host, port) {
            Some(i) => match App::power_plan(&self.hosts.known[i], action) {
                Some(plan) => plan,
                None => {
                    return;
                },
            },
            None => {
                return;
            },
        };
        let at = Target { host: host.to_owned(), port };
        self.jobs.power_action = Some(PowerJob { at: at.clone(), action });
        self.ask(Effect::PowerAction(plan));
        self.leave_powered_down(&at, now);
        self.ask(Effect::TellPending(action, name.to_owned()));
    }

    /// Says that a power action could not even be started.
    pub fn power_action_unsent(&mut self, name: &str, now: u64)
        ensures
            final(self)@ == old(self)@.set_home_status(Some("Couldn't reach "@ + name@), true, now),
            final(self).wf() == old(self).wf(),
    {
        self.set_home_status(Some(join2("Couldn't reach ", name)), true, now);
    }

    /// Reports a finished power action: `error` is why it was refused, `line` how to say what came
    /// of it. Reports whether one was out.
    pub fn drain_power_action(&mut self, error: Option<LibraryError>, line: String, now: u64) -> (r: bool)
        ensures
            final(self)@ == old(self)@.drain_power_action(error, line@, now),
            r == (old(self)@.jobs.power_action is Some),
            final(self).wf() == old(self).wf(),
    {
        let job: PowerJob = match self.jobs.power_action.take() {
            Some(job) => job,
            None => {
                return false;
            },
        };
        match error {
            None => {
                self.set_home_status(Some(line), true, now);
            },
            Some(e) => {
                if is_target(&self.hosts.powered_down, &job.at.host, job.at.port) {
                    self.hosts.powered_down = None;
                }
                // A refusal is the host answering; only silence is not.
                let online: bool = !api_error_is_offline(&e);
                self.note_reachable(job.at.host.as_str(), job.at.port, online);
                self.set_home_status(Some(line), true, now);
            },
        }
        true
    }

    /// Takes the verdict on this pairing's rights. Reports whether one was out.
    pub fn drain_power_access(&mut self, answer: Result<PowerRights, LibraryError>) -> (r: bool)
        ensures
            final(self)@ == old(self)@.drain_power_access(answer),
            r == (old(self)@.jobs.power_access is Some),
            final(self).wf() == old(self).wf(),
    {
        let at: Target = match self.jobs.power_access.take() {
            Some(at) => at,
            None => {
                return false;
            },
        };
        let v: ProbeVerdict = probe_verdict(answer);
        let silent: bool = match v {
            ProbeVerdict::Failure(ProbeFailure::Unreachable) => true,
            _ => false,
        };
        if !silent {
            self.note_reachable(at.host.as_str(), at.port, true);
        }
        let asked = self.host_power_target();
        if is_target(&asked, &at.host, at.port) {
            self.screens.power_rights = Some(v);
        }
        true
    }

    /// What is known of this pairing's rights.
    pub fn power_access(&self) -> (r: PowerAccess)
        ensures
            r == self@.power_access(),
    {
        match self.host_power_host() {
            Some(i) => {
                if !self.hosts.known[i].is_paired() {
                    return PowerAccess::NotPaired;
                }
                match self.screens.power_rights {
                    None => PowerAccess::Unknown,
                    Some(ProbeVerdict::Failure(ProbeFailure::Unsupported)) => PowerAccess::Unsupported,
                    Some(ProbeVerdict::Failure(ProbeFailure::Unreachable)) => PowerAccess::Unreachable,
                    Some(ProbeVerdict::Rights(rights)) => PowerAccess::Rights(rights),
                }
            },
            None => PowerAccess::NotPaired,
        }
    }

    /// This host's exit behaviour, none for a host without a record.
    pub fn host_power_exit_action(&self) -> (r: ExitAction)
        ensures
            r == self@.host_power_exit_action(),
    {
        match self.host_power_host() {
            Some(i) => self.hosts.known[i].exit_action,
            None => ExitAction::Nothing,
        }
    }

    /// Everything the card draws: automatic waking, the exit behaviour, and the rights.
    pub fn host_power_view(&self) -> (r: (bool, ExitAction, PowerAccess))
        ensures
            r == (self@.host_wol_auto(), self@.host_power_exit_action(), self@.power_access()),
    {
        let auto: bool = match self.host_power_host() {
            Some(i) => self.hosts.known[i].wol_auto,
            None => false,
        };
        (auto, self.host_power_exit_action(), self.power_access())
    }

    fn toggle_wol_auto(&mut self, now: u64)
        ensures
            final(self)@ == old(self)@.toggle_wol_auto(now),
            final(self).wf() == old(self).wf(),
    {
        match self.host_power_host() {
            Some(i) => {
                let ghost before = self.hosts.known@;
                let from: bool = self.hosts.known[i].wol_auto;
                self.hosts.known[i].wol_auto = !from;
                assert(host_views(self.hosts.known@) =~= host_views(before).update(
                    i as int,
                    HostV { wol_auto: !from, ..before[i as int]@ },
                ));
                self.persist();
                self.arm_switch_anim(from, now);
            },
            None => {},
        }
    }

    fn apply_exit_action(&mut self, index: usize)
        ensures
            final(self)@ == old(self)@.apply_exit_action(index),
            final(self).wf() == old(self).wf(),
    {
        match (self.host_power_host(), exit_action_at(index)) {
            (Some(i), Some(action)) => {
                let ghost before = self.hosts.known@;
                self.hosts.known[i].exit_action = action;
                assert(host_views(self.hosts.known@) =~= host_views(before).update(
                    i as int,
                    HostV { exit_action: action, ..before[i as int]@ },
                ));
                self.persist();
            },
            _ => {},
        }
    }

    /// Handles one event on a host's power settings. A locked row rejects the press; a pick steps,
    /// forward on Confirm and Right, back on Left.
    pub fn handle_host_power_event(&mut self, ev: MenuEvent, now: u64)
        ensures
            final(self)@ == old(self)@.handle_host_power_event(ev, now),
            final(self).wf() == old(self).wf(),
    {
        proof {
            reveal(AppV::handle_host_power_event);
        }
        if self.list_nav_event(POWER_ROW_COUNT, ev, now) {
            return;
        }
        match ev {
            MenuEvent::Back => {
                // The exit behaviour may have changed, and the menu's power row is named after it.
                self.latch_host_menu_power();
                self.nav.screen = Screen::HostMenu;
                return;
            },
            MenuEvent::Secondary => {
                return;
            },
            MenuEvent::Up => {
                return;
            },
            MenuEvent::Down => {
                return;
            },
            _ => {},
        }
        let row: usize = self.nav.cursor(Screen::HostPower);
        if row == POWER_ROW_AUTO {
            self.toggle_wol_auto(now);
        } else if row == POWER_ROW_EXIT && self.power_access().unlocked() {
            let current: usize = exit_action_current_index(self.host_power_exit_action());
            let forward: bool = ev != MenuEvent::Left;
            self.apply_exit_action(cycle_index(current, EXIT_ACTIONS, forward));
        }
    }
}

} // verus!
