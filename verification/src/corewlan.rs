//! The CoreWLAN join on macOS: as the logged-in user, with no admin prompt.
//! This module decides; the application makes the CoreWLAN calls and reports
//! what they returned.
use vstd::prelude::*;

use crate::request::opt_view;
use crate::text::{decimal, push_decimal, push_str, to_string};

verus! {

/// Maximum number of associate attempts before giving up on CoreWLAN.
/// `associateToNetwork` can report success before the link is actually up; a
/// second associate is what reliably connects, so the join retries.
pub const COREWLAN_MAX_ATTEMPTS: u32 = 3;

/// How long, in milliseconds, to wait for the interface to report the
/// target SSID after an associate call returns.
pub const COREWLAN_VERIFY_TIMEOUT_MILLIS: u64 = 2500;

/// Pause between two reads of the current SSID while verifying, in
/// milliseconds.
pub const COREWLAN_VERIFY_INTERVAL_MILLIS: u64 = 300;

/// How many scans look for the network before giving up.
pub const COREWLAN_MAX_SCANS: u32 = 2;

/// Why a CoreWLAN join did not succeed, which decides whether the
/// `networksetup` fallback is worth trying.
#[derive(Debug)]
pub enum CoreWlanError {
    /// CoreWLAN could not attempt or finish the join (no interface, network not
    /// visible — often missing Location permission — or the link never came
    /// up). The fallback may still succeed.
    Unavailable(String),
    /// The network rejected the join (e.g. wrong password). The fallback would
    /// only repeat the same failure, slowly.
    Rejected(String),
}

/// A CoreWLAN error: `true` for a rejection, with its message.
pub open spec fn wlan_error_view(e: CoreWlanError) -> (bool, Seq<char>) {
    match e {
        CoreWlanError::Unavailable(m) => (false, m@),
        CoreWlanError::Rejected(m) => (true, m@),
    }
}

/// Where a CoreWLAN join stands.
#[derive(Clone, Copy, PartialEq, Eq, Structural)]
pub enum CoreWlanStage {
    /// Waiting for the default Wi-Fi interface.
    FindingInterface,
    /// Waiting for a scan for the network.
    Scanning,
    /// Waiting for an associate call.
    Associating,
    /// Reading the current SSID until it is the network or time runs out.
    Verifying,
    /// The join has its result.
    Finished,
}

/// What the default Wi-Fi interface reports.
pub struct InterfaceInfo {
    /// Its BSD name, where it has one.
    pub name: Option<String>,
    /// The SSID it is associated with, where it can say.
    pub current_ssid: Option<String>,
}

/// What the application reports back to a CoreWLAN join.
pub enum CoreWlanEvent {
    /// The default Wi-Fi interface, if there is one.
    Interface(Option<InterfaceInfo>),
    /// A scan: whether it found the network, or its error message.
    Scanned(Result<bool, String>),
    /// An associate call: its error message if it failed.
    Associated(Result<(), String>),
    /// The current SSID, and whether the verification deadline had passed
    /// when it was read.
    Polled(Option<String>, bool),
}

/// What a CoreWLAN join asks the application to do next.
pub enum CoreWlanAction {
    /// Find the default Wi-Fi interface.
    FindInterface,
    /// Report `announce` if any, then scan for the network.
    Scan { announce: Option<String> },
    /// Report `progress`, then associate with the network found, with the
    /// password if there is one.
    Associate { progress: String },
    /// Read the current SSID, after a pause when `pause_first`; the deadline
    /// starts with the first read after an associate.
    Poll { pause_first: bool },
    /// The join is over: the interface name, or why not.
    Finish(Result<String, CoreWlanError>),
}

/// A CoreWLAN join under way.
pub struct CoreWlanSession {
    ssid: String,
    has_password: bool,
    interface_name: String,
    last_error: String,
    scans: u32,
    attempt: u32,
    errors: u32,
    stage: CoreWlanStage,
}

/// The state of a CoreWLAN join: the network, whether a password was given,
/// the interface name, the last scan error, the scans made, the associate
/// attempt, the associate calls that failed, and where the join stands.
pub struct CoreWlanView {
    pub ssid: Seq<char>,
    pub has_password: bool,
    pub interface_name: Seq<char>,
    pub last_error: Seq<char>,
    pub scans: nat,
    pub attempt: nat,
    pub errors: nat,
    pub stage: CoreWlanStage,
}

pub enum CoreWlanEventView {
    Interface(Option<(Option<Seq<char>>, Option<Seq<char>>)>),
    Scanned(Result<bool, Seq<char>>),
    Associated(Result<(), Seq<char>>),
    Polled(Option<Seq<char>>, bool),
}

pub enum CoreWlanActionView {
    FindInterface,
    Scan { announce: Option<Seq<char>> },
    Associate { progress: Seq<char> },
    Poll { pause_first: bool },
    Finish(Result<Seq<char>, (bool, Seq<char>)>),
}

impl View for CoreWlanSession {
    type V = CoreWlanView;

    closed spec fn view(&self) -> CoreWlanView {
        CoreWlanView {
            ssid: self.ssid@,
            has_password: self.has_password,
            interface_name: self.interface_name@,
            last_error: self.last_error@,
            scans: self.scans as nat,
            attempt: self.attempt as nat,
            errors: self.errors as nat,
            stage: self.stage,
        }
    }
}

impl View for CoreWlanEvent {
    type V = CoreWlanEventView;

    open spec fn view(&self) -> CoreWlanEventView {
        match self {
            CoreWlanEvent::Interface(i) => CoreWlanEventView::Interface(
                match i {
                    Some(info) => Some((opt_view(info.name), opt_view(info.current_ssid))),
                    None => None,
                },
            ),
            CoreWlanEvent::Scanned(r) => CoreWlanEventView::Scanned(
                match r {
                    Ok(b) => Ok(*b),
                    Err(m) => Err(m@),
                },
            ),
            CoreWlanEvent::Associated(r) => CoreWlanEventView::Associated(
                match r {
                    Ok(_) => Ok(()),
                    Err(m) => Err(m@),
                },
            ),
            CoreWlanEvent::Polled(s, expired) => CoreWlanEventView::Polled(opt_view(*s), *expired),
        }
    }
}

impl View for CoreWlanAction {
    type V = CoreWlanActionView;

    open spec fn view(&self) -> CoreWlanActionView {
        match self {
            CoreWlanAction::FindInterface => CoreWlanActionView::FindInterface,
            CoreWlanAction::Scan { announce } => CoreWlanActionView::Scan {
                announce: opt_view(*announce),
            },
            CoreWlanAction::Associate { progress } => CoreWlanActionView::Associate {
                progress: progress@,
            },
            CoreWlanAction::Poll { pause_first } => CoreWlanActionView::Poll {
                pause_first: *pause_first,
            },
            CoreWlanAction::Finish(r) => CoreWlanActionView::Finish(
                match r {
                    Ok(name) => Ok(name@),
                    Err(e) => Err(wlan_error_view(*e)),
                },
            ),
        }
    }
}

/// The event answers what the join is waiting on.
pub open spec fn wlan_accepts(stage: CoreWlanStage, e: CoreWlanEventView) -> bool {
    match e {
        CoreWlanEventView::Interface(_) => stage == CoreWlanStage::FindingInterface,
        CoreWlanEventView::Scanned(_) => stage == CoreWlanStage::Scanning,
        CoreWlanEventView::Associated(_) => stage == CoreWlanStage::Associating,
        CoreWlanEventView::Polled(_, _) => stage == CoreWlanStage::Verifying,
    }
}

/// The counters stay in their bounds: at most two scans are made, at most
/// three associate attempts, and a join still under way has seen at most
/// one failed associate call.
pub open spec fn wlan_wf(s: CoreWlanView) -> bool {
    &&& s.scans < COREWLAN_MAX_SCANS
    &&& s.attempt <= COREWLAN_MAX_ATTEMPTS
    &&& s.errors <= 1
    &&& (s.stage == CoreWlanStage::Associating || s.stage == CoreWlanStage::Verifying) ==> 1
        <= s.attempt
}

/// The progress line before associate attempt `attempt`.
pub open spec fn attempt_progress(ssid: Seq<char>, attempt: nat) -> Seq<char> {
    if attempt == 1 {
        "Connecting to '"@ + ssid + "'..."@
    } else {
        "Connecting to '"@ + ssid + "' (attempt "@ + decimal(attempt) + " of "@ + decimal(
            COREWLAN_MAX_ATTEMPTS as nat,
        ) + ")..."@
    }
}

/// The error after an associate call fails for good.
pub open spec fn rejected_message(ssid: Seq<char>, error: Seq<char>, has_password: bool) -> Seq<
    char,
> {
    "Could not join '"@ + ssid + "': "@ + error + "."@ + (if has_password {
        " Check that the password is correct."@
    } else {
        seq![]
    })
}

/// The error when no attempt brought the link up.
pub open spec fn not_up_message(ssid: Seq<char>) -> Seq<char> {
    "Associated with '"@ + ssid + "' but the connection did not come up."@
}

/// The start of a CoreWLAN join: find the interface.
pub open spec fn wlan_start(ssid: Seq<char>, has_password: bool) -> (CoreWlanView, CoreWlanActionView) {
    (
        CoreWlanView {
            ssid,
            has_password,
            interface_name: "Wi-Fi"@,
            last_error: seq![],
            scans: 0,
            attempt: 0,
            errors: 0,
            stage: CoreWlanStage::FindingInterface,
        },
        CoreWlanActionView::FindInterface,
    )
}

/// One step of a CoreWLAN join.
///
/// - No interface: unavailable. Already on the network: done, with the
///   interface name ("Wi-Fi" when it has none).
/// - The network is scanned for, twice at most; the last scan error, or
///   "not found in range", is reported when both miss.
/// - A failed associate call is retried once, as the next attempt: it may be
///   transient. A second failed call is a rejection by the network (the
///   fallback would not help). A first failure on the last attempt ends the
///   attempts: the join is unavailable.
/// - After an associate call the current SSID is read until it is the
///   network (success) or the deadline passes; then the next attempt
///   starts, and after the third the join is unavailable.
pub open spec fn wlan_step(s: CoreWlanView, e: CoreWlanEventView) -> (CoreWlanView, CoreWlanActionView) {
    let ssid = s.ssid;
    match e {
        CoreWlanEventView::Interface(i) => match i {
            None => (
                CoreWlanView { stage: CoreWlanStage::Finished, ..s },
                CoreWlanActionView::Finish(Err((false, "No Wi-Fi interface available."@))),
            ),
            Some(info) => {
                let name = match info.0 {
                    Some(n) => n,
                    None => "Wi-Fi"@,
                };
                if info.1 == Some(ssid) {
                    (
                        CoreWlanView { stage: CoreWlanStage::Finished, interface_name: name, ..s },
                        CoreWlanActionView::Finish(Ok(name)),
                    )
                } else {
                    (
                        CoreWlanView {
                            stage: CoreWlanStage::Scanning,
                            interface_name: name,
                            last_error: "Network '"@ + ssid + "' was not found in range."@,
                            scans: 0,
                            ..s
                        },
                        CoreWlanActionView::Scan {
                            announce: Some("Looking for '"@ + ssid + "'..."@),
                        },
                    )
                }
            },
        },
        CoreWlanEventView::Scanned(r) => {
            if r == Ok::<bool, Seq<char>>(true) {
                (
                    CoreWlanView { stage: CoreWlanStage::Associating, attempt: 1, ..s },
                    CoreWlanActionView::Associate { progress: attempt_progress(ssid, 1) },
                )
            } else {
                let last_error = match r {
                    Err(m) => m,
                    Ok(_) => s.last_error,
                };
                if s.scans + 1 < COREWLAN_MAX_SCANS {
                    (
                        CoreWlanView { scans: s.scans + 1, last_error, ..s },
                        CoreWlanActionView::Scan { announce: None },
                    )
                } else {
                    (
                        CoreWlanView { stage: CoreWlanStage::Finished, last_error, ..s },
                        CoreWlanActionView::Finish(Err((false, last_error))),
                    )
                }
            }
        },
        CoreWlanEventView::Associated(r) => match r {
            Err(m) => if s.errors >= 1 {
                (
                    CoreWlanView { stage: CoreWlanStage::Finished, ..s },
                    CoreWlanActionView::Finish(
                        Err((true, rejected_message(ssid, m, s.has_password))),
                    ),
                )
            } else if s.attempt < COREWLAN_MAX_ATTEMPTS {
                (
                    CoreWlanView { attempt: s.attempt + 1, errors: 1, ..s },
                    CoreWlanActionView::Associate {
                        progress: attempt_progress(ssid, (s.attempt + 1) as nat),
                    },
                )
            } else {
                (
                    CoreWlanView { stage: CoreWlanStage::Finished, errors: 1, ..s },
                    CoreWlanActionView::Finish(Err((false, not_up_message(ssid)))),
                )
            },
            Ok(_) => (
                CoreWlanView { stage: CoreWlanStage::Verifying, ..s },
                CoreWlanActionView::Poll { pause_first: false },
            ),
        },
        CoreWlanEventView::Polled(current, expired) => {
            if current == Some(ssid) {
                (
                    CoreWlanView { stage: CoreWlanStage::Finished, ..s },
                    CoreWlanActionView::Finish(Ok(s.interface_name)),
                )
            } else if !expired {
                (s, CoreWlanActionView::Poll { pause_first: true })
            } else if s.attempt < COREWLAN_MAX_ATTEMPTS {
                (
                    CoreWlanView {
                        stage: CoreWlanStage::Associating,
                        attempt: s.attempt + 1,
                        ..s
                    },
                    CoreWlanActionView::Associate {
                        progress: attempt_progress(ssid, (s.attempt + 1) as nat),
                    },
                )
            } else {
                (
                    CoreWlanView { stage: CoreWlanStage::Finished, ..s },
                    CoreWlanActionView::Finish(Err((false, not_up_message(ssid)))),
                )
            }
        },
    }
}

/// Whether two optional strings hold the same text.
fn same_ssid(current: &Option<String>, ssid: &String) -> (r: bool)
    ensures
        r == (opt_view(*current) == Some(ssid@)),
{
    match current {
        Some(c) => *c == *ssid,
        None => false,
    }
}

/// The progress line before associate attempt `attempt`.
fn attempt_progress_text(ssid: &str, attempt: u32) -> (r: String)
    requires
        1 <= attempt,
    ensures
        r@ == attempt_progress(ssid@, attempt as nat),
{
    let mut r = to_string("Connecting to '");
    push_str(&mut r, ssid);
    if attempt == 1 {
        push_str(&mut r, "'...");
    } else {
        push_str(&mut r, "' (attempt ");
        push_decimal(&mut r, attempt as u64);
        push_str(&mut r, " of ");
        push_decimal(&mut r, COREWLAN_MAX_ATTEMPTS as u64);
        push_str(&mut r, ")...");
    }
    r
}

/// Join a network via CoreWLAN as the logged-in user — no admin prompt.
/// Requires Location Services permission for the scan. Returns the join
/// under way and the first thing to do; the application then feeds each
/// outcome to `CoreWlanSession::step`, and the join ends with the interface
/// name or a `CoreWlanError`.
pub fn join_via_corewlan(ssid: &str, password: Option<&str>) -> (r: (CoreWlanSession, CoreWlanAction))
    ensures
        (r.0@, r.1@) == wlan_start(ssid@, password is Some),
        wlan_wf(r.0@),
{
    (
        CoreWlanSession {
            ssid: to_string(ssid),
            has_password: password.is_some(),
            interface_name: to_string("Wi-Fi"),
            last_error: String::new(),
            scans: 0,
            attempt: 0,
            errors: 0,
            stage: CoreWlanStage::FindingInterface,
        },
        CoreWlanAction::FindInterface,
    )
}

impl CoreWlanSession {
    /// The error when no attempt brought the link up.
    fn not_up_text(&self) -> (r: String)
        ensures
            r@ == not_up_message(self@.ssid),
    {
        let mut message = to_string("Associated with '");
        push_str(&mut message, self.ssid.as_str());
        push_str(&mut message, "' but the connection did not come up.");
        message
    }

    /// Whether `event` answers what the join is waiting on.
    pub fn accepts(&self, event: &CoreWlanEvent) -> (r: bool)
        ensures
            r == wlan_accepts(self@.stage, event@),
    {
        match event {
            CoreWlanEvent::Interface(_) => self.stage == CoreWlanStage::FindingInterface,
            CoreWlanEvent::Scanned(_) => self.stage == CoreWlanStage::Scanning,
            CoreWlanEvent::Associated(_) => self.stage == CoreWlanStage::Associating,
            CoreWlanEvent::Polled(_, _) => self.stage == CoreWlanStage::Verifying,
        }
    }

    /// Takes what the application reports and says what to do next.
    pub fn step(&mut self, event: CoreWlanEvent) -> (action: CoreWlanAction)
        requires
            wlan_wf(old(self)@),
            wlan_accepts(old(self)@.stage, event@),
        ensures
            (final(self)@, action@) == wlan_step(old(self)@, event@),
            wlan_wf(final(self)@),
    {
        match event {
            CoreWlanEvent::Interface(i) => match i {
                None => {
                    self.stage = CoreWlanStage::Finished;
                    CoreWlanAction::Finish(
                        Err(CoreWlanError::Unavailable(to_string("No Wi-Fi interface available."))),
                    )
                },
                Some(info) => {
                    let name = match info.name {
                        Some(n) => n,
                        None => to_string("Wi-Fi"),
                    };
                    let here = same_ssid(&info.current_ssid, &self.ssid);
                    self.interface_name = name;
                    if here {
                        self.stage = CoreWlanStage::Finished;
                        CoreWlanAction::Finish(Ok(self.interface_name.clone()))
                    } else {
                        let mut last_error = to_string("Network '");
                        push_str(&mut last_error, self.ssid.as_str());
                        push_str(&mut last_error, "' was not found in range.");
                        let mut progress = to_string("Looking for '");
                        push_str(&mut progress, self.ssid.as_str());
                        push_str(&mut progress, "'...");
                        self.last_error = last_error;
                        self.scans = 0;
                        self.stage = CoreWlanStage::Scanning;
                        CoreWlanAction::Scan { announce: Some(progress) }
                    }
                },
            },
            CoreWlanEvent::Scanned(r) => {
                let found = match &r {
                    Ok(b) => *b,
                    Err(_) => false,
                };
                if found {
                    self.attempt = 1;
                    self.stage = CoreWlanStage::Associating;
                    return CoreWlanAction::Associate {
                        progress: attempt_progress_text(self.ssid.as_str(), 1),
                    };
                }
                match r {
                    Err(m) => {
                        self.last_error = m;
                    },
                    Ok(_) => {},
                }
                if self.scans + 1 < COREWLAN_MAX_SCANS {
                    self.scans = self.scans + 1;
                    CoreWlanAction::Scan { announce: None }
                } else {
                    self.stage = CoreWlanStage::Finished;
                    CoreWlanAction::Finish(
                        Err(CoreWlanError::Unavailable(self.last_error.clone())),
                    )
                }
            },
            CoreWlanEvent::Associated(r) => match r {
                Err(m) => {
                    if self.errors == 0 {
                        // One retry covers a transient failure.
                        self.errors = 1;
                        if self.attempt < COREWLAN_MAX_ATTEMPTS {
                            self.attempt = self.attempt + 1;
                            CoreWlanAction::Associate {
                                progress: attempt_progress_text(self.ssid.as_str(), self.attempt),
                            }
                        } else {
                            self.stage = CoreWlanStage::Finished;
                            CoreWlanAction::Finish(
                                Err(CoreWlanError::Unavailable(self.not_up_text())),
                            )
                        }
                    } else {
                        // A second error is almost always the network
                        // refusing the join (a wrong password).
                        let mut message = to_string("Could not join '");
                        push_str(&mut message, self.ssid.as_str());
                        push_str(&mut message, "': ");
                        push_str(&mut message, m.as_str());
                        push_str(&mut message, ".");
                        if self.has_password {
                            push_str(&mut message, " Check that the password is correct.");
                        }
                        assert(message@ =~= rejected_message(self@.ssid, m@, self@.has_password));
                        self.stage = CoreWlanStage::Finished;
                        CoreWlanAction::Finish(Err(CoreWlanError::Rejected(message)))
                    }
                },
                Ok(_) => {
                    self.stage = CoreWlanStage::Verifying;
                    CoreWlanAction::Poll { pause_first: false }
                },
            },
            CoreWlanEvent::Polled(current, expired) => {
                if same_ssid(&current, &self.ssid) {
                    self.stage = CoreWlanStage::Finished;
                    CoreWlanAction::Finish(Ok(self.interface_name.clone()))
                } else if !expired {
                    CoreWlanAction::Poll { pause_first: true }
                } else if self.attempt < COREWLAN_MAX_ATTEMPTS {
                    self.attempt = self.attempt + 1;
                    self.stage = CoreWlanStage::Associating;
                    CoreWlanAction::Associate {
                        progress: attempt_progress_text(self.ssid.as_str(), self.attempt),
                    }
                } else {
                    self.stage = CoreWlanStage::Finished;
                    CoreWlanAction::Finish(Err(CoreWlanError::Unavailable(self.not_up_text())))
                }
            },
        }
    }
}

} // verus!

verus! {

/// Each associate the join asks for is the next attempt, counting from one,
/// and never past `COREWLAN_MAX_ATTEMPTS`; each further scan is counted and
/// never reaches `COREWLAN_MAX_SCANS`. So a join associates at most three
/// times and scans at most twice.
pub proof fn law_attempts_and_scans_are_bounded(s: CoreWlanView, e: CoreWlanEventView)
    requires
        wlan_wf(s),
        wlan_accepts(s.stage, e),
    ensures
        wlan_wf(wlan_step(s, e).0),
        wlan_step(s, e).1 is Associate ==> {
            let n = wlan_step(s, e).0.attempt;
            &&& 1 <= n <= COREWLAN_MAX_ATTEMPTS
            &&& (n == 1 || n == s.attempt + 1)
        },
        wlan_step(s, e).1 is Scan ==> wlan_step(s, e).0.scans < COREWLAN_MAX_SCANS,
{
}

/// A failed associate call is retried once and never taken for a
/// rejection by itself; the second failed call ends the join as a rejection
/// by the network.
pub proof fn law_only_a_repeated_associate_error_is_a_rejection(s: CoreWlanView, error: Seq<char>)
    requires
        wlan_wf(s),
        s.stage == CoreWlanStage::Associating,
    ensures
        s.errors == 0 ==> !(wlan_step(s, CoreWlanEventView::Associated(Err(error))).1 matches
            CoreWlanActionView::Finish(Err((true, _)))),
        s.errors == 1 ==> wlan_step(s, CoreWlanEventView::Associated(Err(error))).1
            == CoreWlanActionView::Finish(
            Err((true, rejected_message(s.ssid, error, s.has_password))),
        ),
{
}

} // verus!

verus! {

/// A scan that finds the network leads to the first associate attempt,
/// whichever of the two scans it is; the scans end the join only after one
/// that did not find the network.
pub proof fn law_a_found_network_is_joined(s: CoreWlanView, r: Result<bool, Seq<char>>)
    requires
        wlan_wf(s),
        s.stage == CoreWlanStage::Scanning,
    ensures
        (wlan_step(s, CoreWlanEventView::Scanned(Ok(true))).1 == CoreWlanActionView::Associate {
            progress: "Connecting to '"@ + s.ssid + "'..."@,
        }),
        wlan_step(s, CoreWlanEventView::Scanned(Ok(true))).0.stage == CoreWlanStage::Associating,
        wlan_step(s, CoreWlanEventView::Scanned(Ok(true))).0.attempt == 1,
        (wlan_step(s, CoreWlanEventView::Scanned(r)).1 is Finish) ==> (r matches Ok(found)
            ==> !found),
{
}

/// From the start: once the interface is found away from the network
/// (`s1`), the join announces the search and scans; a first miss (`s2`) is
/// scanned again, a hit on that second scan is joined, and a second miss
/// reports the network as not in range.
pub proof fn law_the_scan_is_retried_once(
    ssid: Seq<char>,
    has_password: bool,
    name: Option<Seq<char>>,
    current: Option<Seq<char>>,
    s1: CoreWlanView,
    s2: CoreWlanView,
)
    requires
        current != Some(ssid),
        s1 == wlan_step(
            wlan_start(ssid, has_password).0,
            CoreWlanEventView::Interface(Some((name, current))),
        ).0,
        s2 == wlan_step(s1, CoreWlanEventView::Scanned(Ok(false))).0,
    ensures
        (wlan_step(
            wlan_start(ssid, has_password).0,
            CoreWlanEventView::Interface(Some((name, current))),
        ).1 == CoreWlanActionView::Scan { announce: Some("Looking for '"@ + ssid + "'..."@) }),
        (wlan_step(s1, CoreWlanEventView::Scanned(Ok(false))).1 == CoreWlanActionView::Scan {
            announce: None,
        }),
        (wlan_step(s2, CoreWlanEventView::Scanned(Ok(true))).1 == CoreWlanActionView::Associate {
            progress: "Connecting to '"@ + ssid + "'..."@,
        }),
        wlan_step(s2, CoreWlanEventView::Scanned(Ok(false))).1 == CoreWlanActionView::Finish(
            Err((false, "Network '"@ + ssid + "' was not found in range."@)),
        ),
{
}

/// A join already on the network ends at once with the interface's name
/// ("Wi-Fi" when it has none).
pub proof fn law_already_connected_succeeds(
    ssid: Seq<char>,
    has_password: bool,
    name: Option<Seq<char>>,
)
    ensures
        wlan_step(
            wlan_start(ssid, has_password).0,
            CoreWlanEventView::Interface(Some((name, Some(ssid)))),
        ).1 == CoreWlanActionView::Finish(Ok(if name is Some { name->0 } else { "Wi-Fi"@ })),
{
}

/// Reading the network's SSID while verifying ends the join with success on
/// the interface found, whether or not the deadline has passed.
pub proof fn law_a_confirmed_ssid_succeeds(s: CoreWlanView, expired: bool)
    requires
        s.stage == CoreWlanStage::Verifying,
    ensures
        wlan_step(s, CoreWlanEventView::Polled(Some(s.ssid), expired)).1
            == CoreWlanActionView::Finish(Ok(s.interface_name)),
{
}

} // verus!

verus! {

/// Without a Wi-Fi interface the join is unavailable at once.
pub proof fn law_no_interface_is_unavailable(ssid: Seq<char>, has_password: bool)
    ensures
        wlan_step(wlan_start(ssid, has_password).0, CoreWlanEventView::Interface(None)).1
            == CoreWlanActionView::Finish(Err((false, "No Wi-Fi interface available."@))),
{
}

/// After an associate call succeeds the SSID is read at once; while it is
/// not the network and time is left, it is read again after a pause; when
/// time runs out a later attempt starts, numbered in its progress line,
/// or after the third the join is unavailable.
pub proof fn law_verifying_after_an_associate(
    s: CoreWlanView,
    current: Option<Seq<char>>,
)
    requires
        wlan_wf(s),
        current != Some(s.ssid),
    ensures
        s.stage == CoreWlanStage::Associating ==> (wlan_step(
            s,
            CoreWlanEventView::Associated(Ok(())),
        ).1 == CoreWlanActionView::Poll { pause_first: false }),
        s.stage == CoreWlanStage::Verifying ==> (wlan_step(
            s,
            CoreWlanEventView::Polled(current, false),
        ).1 == CoreWlanActionView::Poll { pause_first: true }),
        s.stage == CoreWlanStage::Verifying && s.attempt == 1 ==> (wlan_step(
            s,
            CoreWlanEventView::Polled(current, true),
        ).1 == CoreWlanActionView::Associate {
            progress: "Connecting to '"@ + s.ssid + "' (attempt 2 of 3)..."@,
        }),
        s.stage == CoreWlanStage::Verifying && s.attempt == 2 ==> (wlan_step(
            s,
            CoreWlanEventView::Polled(current, true),
        ).1 == CoreWlanActionView::Associate {
            progress: "Connecting to '"@ + s.ssid + "' (attempt 3 of 3)..."@,
        }),
        s.stage == CoreWlanStage::Verifying && s.attempt == 3 ==> wlan_step(
            s,
            CoreWlanEventView::Polled(current, true),
        ).1 == CoreWlanActionView::Finish(
            Err((false, "Associated with '"@ + s.ssid + "' but the connection did not come up."@)),
        ),
{
    reveal_strlit("2");
    reveal_strlit("3");
    assert(decimal(2) =~= "2"@);
    assert(decimal(3) =~= "3"@);
    assert("Connecting to '"@ + s.ssid + "' (attempt "@ + "2"@ + " of "@ + "3"@ + ")..."@
        =~= "Connecting to '"@ + s.ssid + "' (attempt 2 of 3)..."@) by {
        reveal_strlit("Connecting to '");
        reveal_strlit("' (attempt ");
        reveal_strlit(" of ");
        reveal_strlit(")...");
        reveal_strlit("' (attempt 2 of 3)...");
    }
    assert("Connecting to '"@ + s.ssid + "' (attempt "@ + "3"@ + " of "@ + "3"@ + ")..."@
        =~= "Connecting to '"@ + s.ssid + "' (attempt 3 of 3)..."@) by {
        reveal_strlit("Connecting to '");
        reveal_strlit("' (attempt ");
        reveal_strlit(" of ");
        reveal_strlit(")...");
        reveal_strlit("' (attempt 3 of 3)...");
    }
}

/// The rejection message names the network and the error and, when a
/// password was given, hints at it.
pub proof fn law_rejection_message(s: CoreWlanView, error: Seq<char>)
    requires
        wlan_wf(s),
        s.stage == CoreWlanStage::Associating,
        s.errors == 1,
    ensures
        wlan_step(s, CoreWlanEventView::Associated(Err(error))).1 == CoreWlanActionView::Finish(
            Err(
                (
                    true,
                    "Could not join '"@ + s.ssid + "': "@ + error + "."@ + (if s.has_password {
                        " Check that the password is correct."@
                    } else {
                        seq![]
                    }),
                ),
            ),
        ),
{
}

} // verus!
