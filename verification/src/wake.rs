//! Waking a host that does not answer: the prompt, the silent wait, its resends and its probes.
use vstd::prelude::*;
use crate::app::{elapsed, since, App, AppV};
use crate::grid::GridV;
use crate::model::{LibraryError, MenuEvent, Screen, Target, TargetV};
use crate::slots::{Effect, EffectV, ScreensV, WakeSend, WakeState, WakeV};
use crate::text::{copy_texts, decimal, decimal_text, join3, texts};

verus! {

/// How long a sent packet waits before it is sent again, in milliseconds. Also how long a silent
/// wait lasts before the prompt shows.
pub const WAKE_RETRY_INTERVAL: u64 = 60_000;

/// How often a waking host is asked whether it is back.
pub const WAKE_PROBE_INTERVAL: u64 = 10_000;

/// Said where no packet went out.
pub const WAKE_UNSENT: &'static str =
    "Couldn't send the wake signal — no usable MAC address or network interface.";

/// A count one higher, as far as it goes.
pub open spec fn one_more(n: u32) -> u32 {
    if n < u32::MAX {
        (n + 1) as u32
    } else {
        n
    }
}

impl WakeV {
    /// A packet attempted at `now`. Only one that went out counts as sent.
    pub open spec fn attempted(self, sent: bool, now: u64) -> WakeV {
        if sent {
            WakeV {
                sent: true,
                attempts: one_more(self.attempts),
                since: match self.since {
                    Some(t) => Some(t),
                    None => Some(now),
                },
                last_attempt: Some(now),
                ..self
            }
        } else {
            WakeV { reason: WAKE_UNSENT@, last_attempt: Some(now), ..self }
        }
    }

    /// The status line of a wake that runs without its prompt.
    pub open spec fn home_status(self) -> Seq<char> {
        if self.attempts == 0 {
            self.reason
        } else if self.attempts == 1 {
            "Wake signal sent to "@ + self.name + " — waiting for it to come back online…"@
        } else {
            "Wake signal re-sent to "@ + self.name + " ("@ + decimal(self.attempts as nat)
                + " attempts) — still waiting for it to come back online…"@
        }
    }

    /// A packet goes again only after one went out, and only when the wait is over.
    pub open spec fn retry_due(self, now: u64) -> bool {
        &&& self.mac.len() > 0
        &&& self.sent
        &&& self.sending is None
        &&& self.last_attempt matches Some(t) && since(t, now) >= WAKE_RETRY_INTERVAL
    }

    pub open spec fn probe_due(self, now: u64) -> bool {
        &&& !self.probing
        &&& self.last_probe matches Some(t) && since(t, now) >= WAKE_PROBE_INTERVAL
    }

    /// A packet being sent.
    pub open spec fn sends(self, why: WakeSend) -> WakeV {
        WakeV { sending: Some(why), ..self }
    }

    pub open spec fn packet(self) -> EffectV {
        EffectV::WakePacket(self.mac, self.host, self.name)
    }

    pub open spec fn target(self) -> TargetV {
        TargetV { host: self.host, port: self.port }
    }
}

impl WakeState {
    /// Records a packet's outcome.
    pub fn attempted(&mut self, sent: bool, now: u64)
        ensures
            final(self)@ == old(self)@.attempted(sent, now),
    {
        if sent {
            self.sent = true;
            if self.attempts < u32::MAX {
                self.attempts = self.attempts + 1;
            }
            if self.since.is_none() {
                self.since = Some(now);
            }
        } else {
            self.reason = WAKE_UNSENT.to_owned();
        }
        self.last_attempt = Some(now);
    }

    /// The status line of a wake that runs without its prompt. It stands alone, with no title
    /// over it.
    pub fn home_status(&self) -> (r: String)
        ensures
            r@ == self@.home_status(),
    {
        if self.attempts == 0 {
            self.reason.clone()
        } else if self.attempts == 1 {
            join3(
                "Wake signal sent to ",
                self.name.as_str(),
                " — waiting for it to come back online…",
            )
        } else {
            let to = join3("Wake signal re-sent to ", self.name.as_str(), " (");
            let count = decimal_text(self.attempts as u128);
            join3(
                to.as_str(),
                count.as_str(),
                " attempts) — still waiting for it to come back online…",
            )
        }
    }

    pub fn packet(&self) -> (r: Effect)
        ensures
            r@ == self@.packet(),
    {
        Effect::WakePacket(copy_texts(&self.mac), self.host.clone(), self.name.clone())
    }

    pub fn retry_due(&self, now: u64) -> (r: bool)
        ensures
            r == self@.retry_due(now),
    {
        assert(texts(self.mac@).len() == self.mac@.len());
        let waited: bool = match self.last_attempt {
            Some(t) => elapsed(t, now) >= WAKE_RETRY_INTERVAL,
            None => false,
        };
        self.mac.len() > 0 && self.sent && self.sending.is_none() && waited
    }

    pub fn probe_due(&self, now: u64) -> (r: bool)
        ensures
            r == self@.probe_due(now),
    {
        let waited: bool = match self.last_probe {
            Some(t) => elapsed(t, now) >= WAKE_PROBE_INTERVAL,
            None => false,
        };
        !self.probing && waited
    }
}

impl AppV {
    pub open spec fn with_wake(self, wake: Option<WakeV>) -> AppV {
        AppV { screens: ScreensV { wake, ..self.screens }, ..self }
    }

    /// Whether a host that does not answer is woken without asking: it is set so, there is an
    /// address to wake, and the user did not just put it down.
    pub open spec fn wakes_by_itself(self, at: TargetV, mac: Seq<Seq<char>>) -> bool {
        &&& self.hosts.host_at(at) matches Some(h) && h.wol_auto
        &&& mac.len() > 0
        &&& self.hosts.powered_down != Some(at)
    }

    /// The wake flow at its start.
    pub open spec fn fresh_wake(self, at: TargetV, mac: Seq<Seq<char>>, reason: Seq<char>, now: u64) -> WakeV {
        WakeV {
            host: at.host,
            port: at.port,
            name: self.name_of(at),
            mac,
            reason,
            focused: 0,
            sent: false,
            attempts: 0,
            since: None,
            last_attempt: None,
            silent: self.wakes_by_itself(at, mac),
            last_probe: Some(now),
            probing: false,
            sending: None,
        }
    }

    /// The wake flow entered: the packet goes out silently, or the prompt comes up.
    pub open spec fn start_wake(self, at: TargetV, mac: Seq<Seq<char>>, reason: Seq<char>, now: u64) -> AppV {
        let wake = self.fresh_wake(at, mac, reason, now);
        if self.wakes_by_itself(at, mac) {
            self.with_wake(Some(wake.sends(WakeSend::Auto))).effect(wake.packet())
        } else {
            self.show(Screen::Wake).with_wake(Some(wake))
        }
    }

    /// The prompt closed. A wake that was sent runs on; one that was not is dropped, and leaves
    /// its reason behind.
    pub open spec fn close_wake(self, keep_waiting: bool, now: u64) -> AppV {
        match self.screens.wake {
            Some(w) => if w.sent {
                let on = WakeV { silent: keep_waiting, ..w };
                self.show(Screen::Home).with_wake(Some(on)).set_home_status(Some(on.home_status()), false, now)
            } else {
                self.show(Screen::Home).with_wake(None).set_home_status(Some(w.reason), false, now)
            },
            None => self.show(Screen::Home).set_home_status(None, false, now),
        }
    }

    /// What a packet was sent for carried on; `tried` is the wait after it.
    pub open spec fn carry_on(self, tried: WakeV, why: WakeSend, now: u64) -> AppV {
        match why {
            WakeSend::Auto => self.with_wake(Some(tried)).set_home_status(Some(tried.home_status()), false, now),
            WakeSend::Retry { reveal } => {
                let loud = WakeV { silent: false, ..tried };
                let shown = if reveal {
                    self.show(Screen::Wake)
                } else {
                    self
                };
                shown.with_wake(Some(loud)).set_home_status(Some(loud.home_status()), false, now)
            },
            WakeSend::Prompt => if tried.sent {
                let waiting = self.with_wake(Some(tried)).close_wake(true, now);
                AppV { grid: GridV { revealed: false, ..waiting.grid }, ..waiting }
            } else {
                self.with_wake(Some(tried))
            },
        }
    }

    /// A packet's outcome, and what it was sent for carried on.
    pub open spec fn wake_packet(self, sent: bool, now: u64) -> AppV {
        match self.screens.wake {
            Some(w) => match w.sending {
                Some(why) => self.carry_on(WakeV { sending: None, ..w }.attempted(sent, now), why, now),
                None => self,
            },
            None => self,
        }
    }

    /// A waking host's answer to the last probe.
    pub open spec fn probed(self, at: TargetV, error: Option<LibraryError>, now: u64) -> AppV {
        let noted = self.with_wake(
            Some(WakeV { probing: false, ..self.screens.wake->0 }),
        ).note_api_result(at, error);
        match error {
            None => noted.wake_succeeded(at, noted.endpoint(at).mgmt_port, now),
            Some(_) => noted.with_wake(Some(WakeV { last_probe: Some(now), ..noted.screens.wake->0 })),
        }
    }

    /// A packet sent again if it is due.
    pub open spec fn wake_resend(self, now: u64) -> AppV {
        match self.screens.wake {
            Some(w) => if w.retry_due(now) {
                self.with_wake(Some(w.sends(WakeSend::Retry { reveal: w.silent }))).effect(w.packet())
            } else {
                self
            },
            None => self,
        }
    }

    /// The host asked again whether it is back, if that is due.
    pub open spec fn wake_ask(self, now: u64) -> AppV {
        match self.screens.wake {
            Some(w) => if w.probe_due(now) {
                self.with_wake(Some(WakeV { probing: true, last_probe: Some(now), ..w })).effect(
                    EffectV::ProbeGames(self.endpoint(w.target())),
                )
            } else {
                self
            },
            None => self,
        }
    }

    /// Whether a probe's answer is taken: one was out.
    pub open spec fn takes_probe(self) -> bool {
        self.screens.wake matches Some(w) && w.probing
    }

    /// A wake in flight, one tick on.
    pub open spec fn tick_wake(self, probed: Option<(TargetV, Option<LibraryError>)>, now: u64) -> AppV {
        match probed {
            Some((at, error)) => if self.takes_probe() {
                match error {
                    None => self.probed(at, error, now),
                    Some(_) => self.probed(at, error, now).wake_resend(now).wake_ask(now),
                }
            } else {
                self.wake_resend(now).wake_ask(now)
            },
            None => self.wake_resend(now).wake_ask(now),
        }
    }

    /// One event on the wake prompt.
    #[verifier::opaque]
    pub open spec fn handle_wake_event(self, ev: MenuEvent, now: u64) -> AppV {
        match self.screens.wake {
            Some(w) => if ev == MenuEvent::Back {
                self.close_wake(false, now)
            } else if w.mac.len() == 0 || ev == MenuEvent::Secondary {
                self
            } else if ev == MenuEvent::Confirm {
                if w.focused == 0 {
                    self.with_wake(Some(w.sends(WakeSend::Prompt))).effect(w.packet())
                } else {
                    self.close_wake(false, now)
                }
            } else {
                AppV {
                    modal_focus_anim: Some(now),
                    ..self.with_wake(
                        Some(
                            WakeV {
                                focused: if w.focused == 0 {
                                    1
                                } else {
                                    0
                                },
                                ..w
                            },
                        ),
                    )
                }
            },
            None => self,
        }
    }
}

/// A host that the user just put down is never woken without asking, whatever its setting says:
/// the prompt comes up and no packet goes out.
pub proof fn law_powered_down_never_woken(
    app: AppV,
    at: TargetV,
    mac: Seq<Seq<char>>,
    reason: Seq<char>,
    now: u64,
)
    requires
        app.hosts.powered_down == Some(at),
    ensures
        app.start_wake(at, mac, reason, now).effects == app.effects,
        app.start_wake(at, mac, reason, now).nav.screen == Screen::Wake,
{
}

/// Without an address to wake nothing is sent: not as the wait starts, not on any key, and not again
/// later.
pub proof fn law_no_address_no_packet(
    app: AppV,
    at: TargetV,
    reason: Seq<char>,
    ev: MenuEvent,
    now: u64,
    later: u64,
)
    ensures
        ({
            let started = app.start_wake(at, Seq::empty(), reason, now);
            &&& started.effects == app.effects
            &&& started.handle_wake_event(ev, later).effects == app.effects
            &&& started.wake_resend(later).effects == app.effects
        }),
{
    reveal(AppV::handle_wake_event);
}

/// A packet is sent again only after one went out.
pub proof fn law_resend_only_after_sent(app: AppV, now: u64)
    requires
        app.wake_resend(now).effects != app.effects,
    ensures
        app.screens.wake matches Some(w) && w.sent && w.attempted(true, now).attempts >= 1,
{
}

/// A silent wait comes up by itself once: after a resend that brought the prompt up, the next one
/// does not, however late it comes.
pub proof fn law_prompt_comes_up_once(app: AppV, sent: bool, now: u64, later: u64)
    requires
        app.screens.wake matches Some(w) && w.sending == Some(WakeSend::Retry { reveal: true }),
    ensures
        app.wake_packet(sent, now).nav.screen == Screen::Wake,
        app.wake_packet(sent, now).wake_resend(later).screens.wake matches Some(w) && w.sending != Some(
            WakeSend::Retry { reveal: true },
        ),
{
}

/// Backing out of a wake that was never sent drops it and leaves its reason on Home.
pub proof fn law_unsent_wake_is_dropped(app: AppV, now: u64)
    requires
        app.screens.wake matches Some(w) && !w.sent,
    ensures
        app.handle_wake_event(MenuEvent::Back, now).screens.wake is None,
        app.handle_wake_event(MenuEvent::Back, now).home_status == Some(app.screens.wake->0.reason),
        app.handle_wake_event(MenuEvent::Back, now).nav.screen == Screen::Home,
{
    reveal(AppV::handle_wake_event);
}

impl App {
    /// Enters the wake flow. With automatic waking off the prompt shows at once; with it on the
    /// packet goes out silently and the prompt shows only after [`WAKE_RETRY_INTERVAL`].
    pub fn start_wake(&mut self, host: String, port: u16, mac: Vec<String>, reason: String, now: u64)
        ensures
            final(self)@ == old(self)@.start_wake(TargetV { host: host@, port }, texts(mac@), reason@, now),
            final(self).wf() == old(self).wf(),
    {
        assert(texts(mac@).len() == mac@.len());
        let by_setting: bool = match self.known_host(host.as_str(), port) {
            Some(i) => self.hosts.known[i].wol_auto,
            None => false,
        };
        let put_down: bool = crate::model::is_target(&self.hosts.powered_down, &host, port);
        // Without an address to wake there is nothing to send: the prompt explains instead. A
        // host the user just put down is away because they asked for that.
        let auto: bool = by_setting && mac.len() > 0 && !put_down;
        let name = self.name_of(host.as_str(), port);
        let mut wake = WakeState {
            host,
            port,
            name,
            mac,
            reason,
            focused: 0,
            sent: false,
            attempts: 0,
            since: None,
            last_attempt: None,
            silent: auto,
            last_probe: Some(now),
            probing: false,
            sending: None,
        };
        if auto {
            let packet = wake.packet();
            wake.sending = Some(WakeSend::Auto);
            self.screens.wake = Some(wake);
            self.ask(packet);
        } else {
            self.nav.screen = Screen::Wake;
            self.screens.wake = Some(wake);
        }
    }

    /// Takes a packet's outcome, and carries on what it was sent for. A packet that did not go
    /// out is never reported as sent: the prompt stays up with the reason.
    pub fn wake_packet(&mut self, sent: bool, now: u64)
        ensures
            final(self)@ == old(self)@.wake_packet(sent, now),
            final(self).wf() == old(self).wf(),
    {
        let mut wake = match self.screens.wake.take() {
            Some(w) => w,
            None => {
                return;
            },
        };
        let why = match wake.sending {
            Some(why) => why,
            None => {
                self.screens.wake = Some(wake);
                return;
            },
        };
        wake.sending = None;
        wake.attempted(sent, now);
        let ghost tried = wake@;
        assert(self@.carry_on(tried, why, now) == old(self)@.carry_on(tried, why, now));
        self.carry_on(wake, why, now);
    }

    fn carry_on(&mut self, wake: WakeState, why: WakeSend, now: u64)
        ensures
            final(self)@ == old(self)@.carry_on(wake@, why, now),
            final(self).wf() == old(self).wf(),
    {
        let mut wake = wake;
        match why {
            WakeSend::Auto => {
                let line = wake.home_status();
                self.screens.wake = Some(wake);
                self.set_home_status(Some(line), false, now);
            },
            WakeSend::Retry { reveal } => {
                wake.silent = false;
                let line = wake.home_status();
                self.screens.wake = Some(wake);
                if reveal {
                    self.nav.screen = Screen::Wake;
                }
                self.set_home_status(Some(line), false, now);
            },
            WakeSend::Prompt => {
                let went: bool = wake.sent;
                self.screens.wake = Some(wake);
                // The wait goes to the grid's spinner; the prompt comes back up if the host is
                // still away when the next packet goes.
                if went {
                    self.close_wake(true, now);
                    self.grid.revealed = false;
                }
            },
        }
    }

    /// Closes the prompt. `keep_waiting` lets it come back by itself.
    fn close_wake(&mut self, keep_waiting: bool, now: u64)
        ensures
            final(self)@ == old(self)@.close_wake(keep_waiting, now),
            final(self).wf() == old(self).wf(),
    {
        self.nav.screen = Screen::Home;
        match self.screens.wake.take() {
            Some(mut wake) => {
                if wake.sent {
                    wake.silent = keep_waiting;
                    let line = wake.home_status();
                    self.screens.wake = Some(wake);
                    self.set_home_status(Some(line), false, now);
                } else {
                    self.set_home_status(Some(wake.reason), false, now);
                }
            },
            None => {
                self.set_home_status(None, false, now);
            },
        }
    }

    /// Takes a probe's answer. Reports whether the host is back.
    fn probed(&mut self, at: Target, error: Option<LibraryError>, now: u64) -> (r: bool)
        requires
            old(self)@.takes_probe(),
        ensures
            final(self)@ == old(self)@.probed(at@, error, now),
            r == (error is None),
            final(self).wf() == old(self).wf(),
    {
        match self.screens.wake.take() {
            Some(mut wake) => {
                wake.probing = false;
                let back: bool = error.is_none();
                if !back {
                    wake.last_probe = Some(now);
                }
                self.screens.wake = Some(wake);
                self.note_api_result(at.host.as_str(), at.port, error);
                if back {
                    let known = self.endpoint(at.host.as_str(), at.port);
                    self.wake_succeeded(at.host, at.port, known.mgmt_port, now);
                }
                back
            },
            None => false,
        }
    }

    fn wake_resend(&mut self, now: u64) -> (r: bool)
        ensures
            final(self)@ == old(self)@.wake_resend(now),
            r == (old(self)@.screens.wake matches Some(w) && w.retry_due(now)),
            final(self).wf() == old(self).wf(),
    {
        match self.screens.wake.take() {
            Some(mut wake) => {
                if !wake.retry_due(now) {
                    self.screens.wake = Some(wake);
                    return false;
                }
                let packet = wake.packet();
                wake.sending = Some(WakeSend::Retry { reveal: wake.silent });
                self.screens.wake = Some(wake);
                self.ask(packet);
                true
            },
            None => false,
        }
    }

    fn wake_ask(&mut self, now: u64)
        ensures
            final(self)@ == old(self)@.wake_ask(now),
            final(self).wf() == old(self).wf(),
    {
        match self.screens.wake.take() {
            Some(mut wake) => {
                if !wake.probe_due(now) {
                    self.screens.wake = Some(wake);
                    return;
                }
                let known = self.endpoint(wake.host.as_str(), wake.port);
                wake.probing = true;
                wake.last_probe = Some(now);
                self.screens.wake = Some(wake);
                self.ask(Effect::ProbeGames(known));
            },
            None => {},
        }
    }

    /// Advances a wake in flight: takes the last probe's answer, sends the packet again when it
    /// is due, and asks again whether the host is back. Runs whether the prompt shows or not.
    /// Reports whether anything on screen may have changed.
    pub fn tick_wake(&mut self, probed: Option<(Target, Option<LibraryError>)>, now: u64) -> (r: bool)
        ensures
            final(self)@ == old(self)@.tick_wake(
                match probed {
                    Some((at, error)) => Some((at@, error)),
                    None => None,
                },
                now,
            ),
            r == ((probed is Some && old(self)@.takes_probe()) || (old(self)@.screens.wake matches Some(w)
                && w.retry_due(now))),
            final(self).wf() == old(self).wf(),
    {
        let out: bool = match &self.screens.wake {
            Some(w) => w.probing,
            None => false,
        };
        let mut changed: bool = false;
        match probed {
            Some((at, error)) => {
                if out {
                    changed = true;
                    if self.probed(at, error, now) {
                        return true;
                    }
                }
            },
            None => {},
        }
        let resent: bool = self.wake_resend(now);
        self.wake_ask(now);
        changed || resent
    }

    /// Handles one event on the prompt. With no address to wake only Back does anything.
    pub fn handle_wake_event(&mut self, ev: MenuEvent, now: u64)
        ensures
            final(self)@ == old(self)@.handle_wake_event(ev, now),
            final(self).wf() == old(self).wf(),
    {
        proof {
            reveal(AppV::handle_wake_event);
        }
        let (can_wake, focused): (bool, usize) = match &self.screens.wake {
            Some(w) => {
                assert(texts(w.mac@).len() == w.mac@.len());
                (w.mac.len() > 0, w.focused)
            },
            None => {
                return;
            },
        };
        match ev {
            MenuEvent::Back => {
                self.close_wake(false, now);
            },
            MenuEvent::Secondary => {},
            MenuEvent::Confirm => {
                if can_wake {
                    if focused == 0 {
                        self.wake_now();
                    } else {
                        self.close_wake(false, now);
                    }
                }
            },
            _ => {
                if can_wake {
                    self.wake_focus(now);
                }
            },
        }
    }

    fn wake_now(&mut self)
        requires
            old(self)@.screens.wake is Some,
        ensures
            final(self)@ == old(self)@.with_wake(Some(old(self)@.screens.wake->0.sends(WakeSend::Prompt))).effect(
                old(self)@.screens.wake->0.packet(),
            ),
            final(self).wf() == old(self).wf(),
    {
        match self.screens.wake.take() {
            Some(mut wake) => {
                let packet = wake.packet();
                wake.sending = Some(WakeSend::Prompt);
                self.screens.wake = Some(wake);
                self.ask(packet);
            },
            None => {},
        }
    }

    fn wake_focus(&mut self, now: u64)
        requires
            old(self)@.screens.wake is Some,
        ensures
            final(self)@ == (AppV {
                modal_focus_anim: Some(now),
                ..old(self)@.with_wake(
                    Some(
                        WakeV {
                            focused: if old(self)@.screens.wake->0.focused == 0 {
                                1
                            } else {
                                0
                            },
                            ..old(self)@.screens.wake->0
                        },
                    ),
                )
            }),
            final(self).wf() == old(self).wf(),
    {
        match self.screens.wake.take() {
            Some(mut wake) => {
                wake.focused = if wake.focused == 0 {
                    1
                } else {
                    0
                };
                self.screens.wake = Some(wake);
                self.modal_focus_anim = Some(now);
            },
            None => {},
        }
    }
}

} // verus!
