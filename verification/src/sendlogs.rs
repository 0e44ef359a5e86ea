//! Sending the session's log to a paired host: which part of it goes, and what is said of it.
use vstd::prelude::*;
use crate::app::{App, AppV};
use crate::flags::Job;
use crate::model::{LibraryError, Screen, TargetV};
use crate::slots::{Effect, EffectV};
use crate::text::{join2, join3, text_of, trim, trimmed};

verus! {

/// How much of the log's end travels.
pub const MAX_LOG_BYTES: u64 = 983_040;

/// Said where there is nothing to send.
pub const NO_LOGS: &'static str = "No logs to send yet.";

/// What the bundle is posted as.
pub const CONTENT_TYPE: &'static str = "text/plain; charset=utf-8";

/// Put before a log whose beginning was cut.
pub const TRUNCATED: &'static str = "… older log lines truncated …\n";

/// `String::from_utf8_lossy` of some bytes.
pub uninterp spec fn utf8_lossy(bytes: Seq<u8>) -> Seq<char>;

/// `String::from_utf8_lossy`: the text is a function of the bytes alone, named [`utf8_lossy`].
#[verifier::external_body]
pub(crate) fn lossy_text(bytes: &[u8]) -> (r: String)
    ensures
        r@ == utf8_lossy(bytes@),
{
    String::from_utf8_lossy(bytes).into_owned()
}

/// The first position after a newline, the beginning where there is none.
pub open spec fn after_newline(bytes: Seq<u8>) -> int {
    match bytes.index_of_first(10u8) {
        Some(i) => i + 1,
        None => 0,
    }
}

/// Where a tail starts to be readable: behind its partial first line, if its beginning was cut.
pub open spec fn tail_start(bytes: Seq<u8>, truncated: bool) -> int {
    if truncated {
        after_newline(bytes)
    } else {
        0
    }
}

/// A decoded tail as it is sent, nothing where it says nothing.
pub open spec fn framed(text: Seq<char>, truncated: bool) -> Option<Seq<char>> {
    if trimmed(text).len() == 0 {
        None
    } else if truncated {
        Some(TRUNCATED@ + text)
    } else {
        Some(text)
    }
}

/// The part of the log that goes: its last bytes, from the first whole line on.
pub open spec fn log_tail(bytes: Seq<u8>, truncated: bool) -> Option<Seq<char>> {
    framed(utf8_lossy(bytes.subrange(tail_start(bytes, truncated), bytes.len() as int)), truncated)
}

/// A cut tail starts on a whole line: what stands before it is a newline, and nothing before that.
pub proof fn law_tail_starts_on_a_line(bytes: Seq<u8>)
    requires
        bytes.contains(10u8),
    ensures
        0 < tail_start(bytes, true) <= bytes.len(),
        bytes[tail_start(bytes, true) - 1] == 10u8,
        forall|k: int| 0 <= k < tail_start(bytes, true) - 1 ==> bytes[k] != 10u8,
        tail_start(bytes, false) == 0,
{
    bytes.index_of_first_ensures(10u8);
}

/// Whether only the log's end is read.
pub fn is_truncated(len: u64) -> (r: bool)
    ensures
        r == (len > MAX_LOG_BYTES),
{
    len > MAX_LOG_BYTES
}

/// Frames a decoded tail, `None` where it says nothing.
pub fn frame(text: String, truncated: bool) -> (r: Option<String>)
    ensures
        text_of(r) == framed(text@, truncated),
{
    if trim(text.as_str()).as_str().is_empty() {
        return None;
    }
    if truncated {
        Some(join2(TRUNCATED, text.as_str()))
    } else {
        Some(text)
    }
}

/// The readable tail of what was read of the log; `truncated` says that its beginning was cut. A
/// cut may fall inside a character, so the text is decoded as far as it goes.
pub fn readable_tail(bytes: &Vec<u8>, truncated: bool) -> (r: Option<String>)
    ensures
        text_of(r) == log_tail(bytes@, truncated),
{
    let n: usize = bytes.len();
    let mut from: usize = 0;
    proof {
        bytes@.index_of_first_ensures(10u8);
    }
    if truncated {
        let mut i: usize = 0;
        while i < n && bytes[i] != 10
            invariant
                n == bytes.len(),
                i <= n,
                forall|k: int| 0 <= k < i ==> bytes@[k] != 10u8,
            decreases n - i,
        {
            i = i + 1;
        }
        if i < n {
            from = i + 1;
            proof {
                assert(bytes@.contains(bytes@[i as int]));
                let j = bytes@.index_of_first(10u8)->0;
                if j < i {
                    assert(bytes@[j] != 10u8);
                }
            }
        } else {
            assert(!bytes@.contains(10u8));
        }
    }
    assert(from == tail_start(bytes@, truncated));
    let text = lossy_text(vstd::slice::slice_subrange(bytes.as_slice(), from, n));
    frame(text, truncated)
}

/// The bundle that is posted.
pub fn log_bundle(version: &str, arch: &str, log: &str) -> (r: String)
    ensures
        r@ == "punktfunk-webos "@ + version@ + " (webos "@ + arch@ + ") — client log bundle\n"@ + log@,
{
    let head = join3("punktfunk-webos ", version, " (webos ");
    let head = join3(head.as_str(), arch, ") — client log bundle\n");
    join2(head.as_str(), log)
}

/// The route the bundle is posted to.
pub fn log_url(base: &str) -> (r: String)
    ensures
        r@ == base@ + "/api/v1/client-logs"@,
{
    join2(base, "/api/v1/client-logs")
}

/// What is said of an upload.
pub open spec fn upload_line(name: Seq<char>, error: Option<LibraryError>, refusal: Seq<char>) -> Seq<char> {
    match error {
        None => "Logs sent to "@ + name + " — download them from its web console's Logs page"@,
        Some(LibraryError::Http(413)) => "Log file too large to send (1 MB limit)."@,
        Some(LibraryError::NotPaired) => name + " refused the logs — pair with it again."@,
        Some(_) => name + ": "@ + refusal,
    }
}

/// What is said of an upload to the host `name`; `refusal` is how its error reads.
pub fn upload_status(name: &str, error: Option<LibraryError>, refusal: &str) -> (r: String)
    ensures
        r@ == upload_line(name@, error, refusal@),
{
    match error {
        None => join3("Logs sent to ", name, " — download them from its web console's Logs page"),
        Some(LibraryError::Http(413)) => "Log file too large to send (1 MB limit).".to_owned(),
        Some(LibraryError::NotPaired) => join2(name, " refused the logs — pair with it again."),
        Some(_) => join3(name, ": ", refusal),
    }
}

/// What is said where there was no way to send.
pub fn no_agent_status(name: &str, reason: &str) -> (r: String)
    ensures
        r@ == "Couldn't send logs to "@ + name@ + " — "@ + reason@,
{
    let to = join3("Couldn't send logs to ", name, " — ");
    join2(to.as_str(), reason)
}

/// What is said where the log could not be read.
pub fn unread_status(reason: &str) -> (r: String)
    ensures
        r@ == "Couldn't read the log file: "@ + reason@,
{
    join2("Couldn't read the log file: ", reason)
}

impl AppV {
    /// The log sent to a sidebar row's host, where that is saved and paired. The menu closes
    /// either way.
    pub open spec fn send_logs_to_host(self, idx: usize, now: u64) -> AppV {
        let closed = self.leave_host_menu().show(Screen::Home);
        if idx < self.hosts.entries.len() {
            match self.hosts.host_at(self.hosts.entries[idx as int].target()) {
                Some(h) => if h.is_paired() {
                    let told = closed.set_home_status(Some("Sending logs to "@ + h.name + "…"@), false, now);
                    AppV { jobs: told.jobs.start(Job::SendLogs), ..told }.effect(
                        EffectV::SendLogs(
                            self.endpoint(TargetV { host: h.addr, port: h.port }),
                            h.name,
                        ),
                    )
                } else {
                    closed
                },
                None => closed,
            }
        } else {
            closed
        }
    }

    /// An upload's outcome, `None` where nothing will ever say.
    pub open spec fn drain_send_logs(self, line: Option<Seq<char>>, now: u64) -> AppV {
        if self.jobs.has(Job::SendLogs) {
            let done = AppV { jobs: self.jobs.stop(Job::SendLogs), ..self };
            match line {
                Some(l) => done.set_home_status(Some(l), false, now),
                None => done,
            }
        } else {
            self
        }
    }
}

impl App {
    /// Closes the host menu and sends the log to sidebar row `idx`.
    pub fn send_logs_to_host(&mut self, idx: usize, now: u64)
        ensures
            final(self)@ == old(self)@.send_logs_to_host(idx, now),
            final(self).wf() == old(self).wf(),
    {
        let mut found: Option<usize> = None;
        if idx < self.hosts.entries.len() {
            assert(self@.hosts.entries[idx as int] == self.hosts.entries@[idx as int]@);
            let at = self.hosts.entries[idx].target();
            found = self.known_host(at.host.as_str(), at.port);
        }
        self.screens.host_menu_index = None;
        self.nav.screen = Screen::Home;
        match found {
            Some(i) => {
                if self.hosts.known[i].is_paired() {
                    let name = self.hosts.known[i].name.clone();
                    let to = self.endpoint(self.hosts.known[i].addr.as_str(), self.hosts.known[i].port);
                    self.set_home_status(Some(join3("Sending logs to ", name.as_str(), "…")), false, now);
                    self.jobs.start(Job::SendLogs);
                    self.ask(Effect::SendLogs(to, name));
                }
            },
            None => {},
        }
    }

    /// Takes an upload's outcome. Reports whether a line went up.
    pub fn drain_send_logs(&mut self, line: Option<String>, now: u64) -> (r: bool)
        ensures
            final(self)@ == old(self)@.drain_send_logs(text_of(line), now),
            r == (old(self)@.jobs.has(Job::SendLogs) && line is Some),
            final(self).wf() == old(self).wf(),
    {
        if !self.jobs.has(Job::SendLogs) {
            return false;
        }
        self.jobs.stop(Job::SendLogs);
        match line {
            Some(l) => {
                self.set_home_status(Some(l), false, now);
                true
            },
            None => false,
        }
    }
}

} // verus!
