//! Waking a host, from the first packet to its library.
use vstd::prelude::*;
use crate::app::{AppV, DueLineV};
use crate::flags::Job;
use crate::hosts::{law_record_read_back, online_of};
use crate::laws::{document, law_saved_host_is_found, saved_at, unsaved};
use crate::model::{LibraryError, MenuEvent, Screen, TargetV};
use crate::slots::{EffectV, EndpointV, WakeSend, WakeV};

verus! {

/// A host that was being woken and answers is the selected host: its library is asked for, at the
/// port and with the pairing on record for it, and the choice is written. The wait is over and its
/// prompt is gone, the host is known to be on, and nothing holds off a later wake.
pub proof fn law_answered_wake_selects_its_host(app: AppV, at: TargetV, now: u64)
    requires
        app.screens.wake is Some,
        app.screens.wake->0.probing,
    ensures
        ({
            let after = app.tick_wake(Some((at, None)), now);
            let asked = after.effects.last()->FetchGames_0;
            &&& after.library.selected_host == Some(at)
            &&& after.jobs.out.contains(Job::Games)
            &&& !after.jobs.out.contains(Job::Art)
            &&& after.effects.len() == app.effects.len() + 2
            &&& after.effects.last() is FetchGames
            &&& asked.at == at
            &&& forall|i: int| #[trigger]
                saved_at(app.hosts.known, i, at) ==> asked.mgmt_port == app.hosts.known[i].mgmt_port && asked.pin
                    == app.hosts.known[i].pin
            &&& unsaved(app.hosts.known, at) ==> asked.mgmt_port is None && asked.pin is None
            &&& after.effects[app.effects.len() as int] == EffectV::Save(document(after))
            &&& after.hosts.known == app.hosts.known
            &&& after.screens.wake is None
            &&& after.nav.screen == if app.nav.screen == Screen::Wake {
                Screen::Home
            } else {
                app.nav.screen
            }
            &&& after.hosts.powered_down != Some(at)
            &&& online_of(after.hosts.reachable, at) == Some(true)
            &&& after.library_status_due == Some(
                DueLineV { from: now, line: app.screens.wake->0.name + " is back online — loading its library…"@ },
            )
            &&& after.home_status is None
        }),
{
    law_record_read_back(app.hosts.reachable, at, true, at);
    let after = app.tick_wake(Some((at, None)), now);
    assert forall|i: int| #[trigger] saved_at(app.hosts.known, i, at) implies after.effects.last()->FetchGames_0.mgmt_port
        == app.hosts.known[i].mgmt_port && after.effects.last()->FetchGames_0.pin == app.hosts.known[i].pin by {
        law_saved_host_is_found(app.hosts.known, i, at);
    }
    law_saved_host_is_found(app.hosts.known, 0, at);
}

/// A host that does not answer goes on being waited for, the same packet, the same attempts: nothing is
/// selected. It is known to be off only where there was silence.
pub proof fn law_unanswered_wake_goes_on(app: AppV, at: TargetV, e: LibraryError, now: u64)
    requires
        app.screens.wake is Some,
        app.screens.wake->0.probing,
    ensures
        ({
            let w = app.screens.wake->0;
            let after = app.probed(at, Some(e), now);
            &&& after.screens.wake == Some(WakeV { probing: false, last_probe: Some(now), ..w })
            &&& after.library == app.library
            &&& after.jobs == app.jobs
            &&& after.nav == app.nav
            &&& after.effects == app.effects
            &&& online_of(after.hosts.reachable, at) == Some(!(e is Unreachable))
        }),
{
    law_record_read_back(app.hosts.reachable, at, !(e is Unreachable), at);
}

/// A host that may be woken without asking, and was not put down from here, gets its packet at once and
/// in silence. For any other the prompt goes up, on the button that sends, and nothing is sent.
pub proof fn law_wake_asks_first(
    app: AppV,
    at: TargetV,
    i: int,
    mac: Seq<Seq<char>>,
    reason: Seq<char>,
    now: u64,
)
    requires
        saved_at(app.hosts.known, i, at),
    ensures
        ({
            let h = app.hosts.known[i];
            let after = app.start_wake(at, mac, reason, now);
            let w = after.screens.wake->0;
            &&& after.screens.wake is Some
            &&& w.host == at.host
            &&& w.port == at.port
            &&& w.name == h.name
            &&& w.mac == mac
            &&& w.reason == reason
            &&& w.attempts == 0
            &&& !w.sent
            &&& !w.probing
            &&& w.last_probe == Some(now)
            &&& if h.wol_auto && mac.len() > 0 && app.hosts.powered_down != Some(at) {
                &&& after.effects == app.effects.push(EffectV::WakePacket(mac, at.host, h.name))
                &&& after.nav == app.nav
                &&& w.silent
                &&& w.sending == Some(WakeSend::Auto)
            } else {
                &&& after.effects == app.effects
                &&& after.nav.screen == Screen::Wake
                &&& w.focused == 0
                &&& !w.silent
                &&& w.sending is None
            }
        }),
{
    law_saved_host_is_found(app.hosts.known, i, at);
}

/// A host that is not on record is never woken without asking.
pub proof fn law_stranger_is_never_woken_unasked(
    app: AppV,
    at: TargetV,
    mac: Seq<Seq<char>>,
    reason: Seq<char>,
    now: u64,
)
    requires
        unsaved(app.hosts.known, at),
    ensures
        app.start_wake(at, mac, reason, now).effects == app.effects,
        app.start_wake(at, mac, reason, now).nav.screen == Screen::Wake,
        app.start_wake(at, mac, reason, now).screens.wake matches Some(w) && w.host == at.host && w.port == at.port
            && w.name == at.host && w.mac == mac && w.reason == reason && w.focused == 0 && !w.silent,
{
    law_saved_host_is_found(app.hosts.known, 0, at);
}

/// The prompt's first button sends the packet to the host it asks about; its second, and Back, send
/// nothing and leave the prompt. A wait that has sent nothing ends there and says why it began; one that
/// has sent goes on, no longer in silence.
pub proof fn law_wake_prompt(app: AppV, ev: MenuEvent, now: u64)
    requires
        app.screens.wake is Some,
    ensures
        ({
            let w = app.screens.wake->0;
            let after = app.handle_wake_event(ev, now);
            let left = ev == MenuEvent::Back || (ev == MenuEvent::Confirm && w.mac.len() > 0 && w.focused != 0);
            &&& (ev == MenuEvent::Confirm && w.mac.len() > 0 && w.focused == 0) ==> {
                &&& after.effects == app.effects.push(EffectV::WakePacket(w.mac, w.host, w.name))
                &&& after.screens.wake == Some(WakeV { sending: Some(WakeSend::Prompt), ..w })
                &&& after.nav == app.nav
            }
            &&& left ==> {
                &&& after.effects == app.effects
                &&& after.nav.screen == Screen::Home
                &&& !w.sent ==> after.screens.wake is None && after.home_status == Some(w.reason)
                &&& w.sent ==> after.screens.wake == Some(WakeV { silent: false, ..w })
            }
            &&& (ev == MenuEvent::Left || ev == MenuEvent::Right || ev == MenuEvent::Up || ev == MenuEvent::Down) ==> {
                &&& after.effects == app.effects
                &&& after.nav == app.nav
                &&& after.screens.wake matches Some(v) && if w.mac.len() == 0 {
                    v == w
                } else {
                    v == (WakeV { focused: v.focused, ..w }) && (v.focused == 0 <==> w.focused != 0) && v.focused <= 1
                }
            }
        }),
{
    reveal(AppV::handle_wake_event);
}

/// A packet that went out is counted, timed and told of; the first one starts the wait. Sent from the
/// prompt it leaves the prompt and waits on Home in silence, with the grid taken in again.
pub proof fn law_sent_packet(app: AppV, now: u64)
    requires
        app.screens.wake is Some,
        app.screens.wake->0.sending is Some,
        app.screens.wake->0.attempts < u32::MAX,
    ensures
        ({
            let w = app.screens.wake->0;
            let after = app.wake_packet(true, now);
            let v = after.screens.wake->0;
            &&& after.screens.wake is Some
            &&& v.sent
            &&& v.attempts == w.attempts + 1
            &&& v.last_attempt == Some(now)
            &&& v.since == (if w.since is Some {
                w.since
            } else {
                Some(now)
            })
            &&& v.sending is None
            &&& v.host == w.host && v.port == w.port && v.name == w.name && v.mac == w.mac && v.reason == w.reason
            &&& v.probing == w.probing && v.last_probe == w.last_probe
            &&& after.effects == app.effects
            &&& after.home_status is Some
            &&& w.attempts == 0 ==> after.home_status == Some(
                "Wake signal sent to "@ + w.name + " — waiting for it to come back online…"@,
            )
            &&& w.sending->0 is Prompt ==> after.nav.screen == Screen::Home && v.silent && !after.grid.revealed
            &&& w.sending->0 is Auto ==> after.nav == app.nav && v.silent == w.silent
            &&& w.sending->0 is Retry ==> !v.silent && after.nav.screen == if w.sending->0->reveal {
                Screen::Wake
            } else {
                app.nav.screen
            }
        }),
{
}

/// A packet that could not go out is no attempt: nothing is counted, the wait has not begun, and the
/// reason says so.
pub proof fn law_unsent_packet(app: AppV, now: u64)
    requires
        app.screens.wake is Some,
        app.screens.wake->0.sending is Some,
    ensures
        ({
            let w = app.screens.wake->0;
            let after = app.wake_packet(false, now);
            let v = after.screens.wake->0;
            &&& after.screens.wake is Some
            &&& v.sent == w.sent
            &&& v.attempts == w.attempts
            &&& v.since == w.since
            &&& v.last_attempt == Some(now)
            &&& v.sending is None
            &&& v.host == w.host && v.port == w.port && v.mac == w.mac && v.name == w.name
            &&& v.reason
                == "Couldn't send the wake signal — no usable MAC address or network interface."@
            &&& after.effects == app.effects
            &&& (w.sending->0 is Prompt && !w.sent) ==> after.nav == app.nav
        }),
{
}

/// A packet is sent again, to the same host, when a minute has gone by since the last one, and not
/// before; never while one is on its way, nor where none was sent yet.
pub proof fn law_resend(app: AppV, now: u64)
    requires
        app.screens.wake is Some,
    ensures
        ({
            let w = app.screens.wake->0;
            let after = app.wake_resend(now);
            let due = w.sent && w.mac.len() > 0 && w.sending is None && w.last_attempt is Some && w.last_attempt->0
                + 60_000 <= now;
            &&& due ==> after.effects == app.effects.push(EffectV::WakePacket(w.mac, w.host, w.name))
            &&& due ==> after.screens.wake == Some(WakeV { sending: Some(WakeSend::Retry { reveal: w.silent }), ..w })
            &&& !due ==> after == app
        }),
{
}

/// A host being woken is asked whether it is back every ten seconds, one question at a time, with the
/// pairing on record for it.
pub proof fn law_waking_host_is_asked(app: AppV, i: int, now: u64)
    requires
        app.screens.wake is Some,
        saved_at(
            app.hosts.known,
            i,
            TargetV { host: app.screens.wake->0.host, port: app.screens.wake->0.port },
        ),
    ensures
        ({
            let w = app.screens.wake->0;
            let h = app.hosts.known[i];
            let after = app.wake_ask(now);
            let due = !w.probing && w.last_probe is Some && w.last_probe->0 + 10_000 <= now;
            &&& due ==> after.effects == app.effects.push(
                EffectV::ProbeGames(
                    EndpointV {
                        at: TargetV { host: w.host, port: w.port },
                        mgmt_port: h.mgmt_port,
                        pin: h.pin,
                    },
                ),
            )
            &&& due ==> after.screens.wake == Some(WakeV { probing: true, last_probe: Some(now), ..w })
            &&& !due ==> after == app
        }),
{
    law_saved_host_is_found(
        app.hosts.known,
        i,
        TargetV { host: app.screens.wake->0.host, port: app.screens.wake->0.port },
    );
}

/// While nothing has come back, a tick does what is due and no more: a packet that is due is sent, a
/// question that is due is asked, and where neither is, nothing happens.
pub proof fn law_wake_tick(app: AppV, now: u64)
    requires
        app.screens.wake is Some,
    ensures
        ({
            let w = app.screens.wake->0;
            let after = app.tick_wake(None, now);
            let send = w.sent && w.mac.len() > 0 && w.sending is None && w.last_attempt is Some && w.last_attempt->0
                + 60_000 <= now;
            let ask = !w.probing && w.last_probe is Some && w.last_probe->0 + 10_000 <= now;
            &&& send ==> crate::laws::asked(app, after, EffectV::WakePacket(w.mac, w.host, w.name))
            &&& ask ==> after.effects.last() is ProbeGames && after.effects.last()->ProbeGames_0.at == (TargetV {
                host: w.host,
                port: w.port,
            }) && after.screens.wake->0.probing
            &&& after.effects.len() == app.effects.len() + (if send {
                1int
            } else {
                0
            }) + (if ask {
                1int
            } else {
                0
            })
            &&& after.library == app.library
            &&& after.nav == app.nav
        }),
{
    let after = app.tick_wake(None, now);
    let w = app.screens.wake->0;
    if w.retry_due(now) {
        assert(after.effects[app.effects.len() as int] == EffectV::WakePacket(w.mac, w.host, w.name));
    }
}

} // verus!
