//! Windows join via `netsh wlan`: save a per-user WLAN profile for the network,
//! then connect with it. This module holds what `netsh` is told and what its
//! answers mean; the application runs the commands.
use vstd::prelude::*;

use crate::profile::{profile_text, profile_xml, security_settings, ProfileSecurity};
use crate::request::{ErrorResponse, Joined};
use crate::text::{
    chars_of, contains, contains_vec, eq_str, find_char, find_first, lemma_no_first_no_char, lines,
    lower, lowercase, push_str, slice_vec, split_lines, string_of, to_string, trim, trim_range,
    views,
};

verus! {

/// The views of a sequence of strings.
pub open spec fn strings_view(v: Seq<String>) -> Seq<Seq<char>> {
    v.map_values(|s: String| s@)
}

pub struct InterfaceStatus {
    /// Name of the first interface, e.g. "Wi-Fi".
    pub interface: String,
    /// SSIDs of every connected interface.
    pub ssids: Vec<String>,
}

impl View for InterfaceStatus {
    type V = (Seq<char>, Seq<Seq<char>>);

    open spec fn view(&self) -> Self::V {
        (self.interface@, strings_view(self.ssids@))
    }
}

/// The name and SSIDs read so far, after one more `Key : Value` line: the
/// key and value are split at the first `':'` and trimmed; the first "Name"
/// gives the interface, every non-empty "SSID" is kept.
pub open spec fn interface_line(
    acc: (Option<Seq<char>>, Seq<Seq<char>>),
    line: Seq<char>,
) -> (Option<Seq<char>>, Seq<Seq<char>>) {
    match find_first(line, ':') {
        None => acc,
        Some(i) => {
            let key = trim(line.subrange(0, i));
            let value = trim(line.subrange(i + 1, line.len() as int));
            if key == "Name"@ && acc.0 is None {
                (Some(value), acc.1)
            } else if key == "SSID"@ && value.len() > 0 {
                (acc.0, acc.1.push(value))
            } else {
                acc
            }
        },
    }
}

/// The name and SSIDs read from the lines, in order.
pub open spec fn interface_lines(ls: Seq<Seq<char>>) -> (Option<Seq<char>>, Seq<Seq<char>>)
    decreases ls.len(),
{
    if ls.len() == 0 {
        (None, seq![])
    } else {
        interface_line(interface_lines(ls.drop_last()), ls.last())
    }
}

/// What `netsh wlan show interfaces` reports: the first interface's name
/// ("Wi-Fi" when none is named) and the SSIDs of the connected interfaces.
pub open spec fn parsed_interfaces(output: Seq<char>) -> (Seq<char>, Seq<Seq<char>>) {
    let (name, ssids) = interface_lines(lines(output));
    (
        match name {
            Some(n) => n,
            None => "Wi-Fi"@,
        },
        ssids,
    )
}

/// Parse `netsh wlan show interfaces`. Lines are `Key : Value`; keys never
/// contain ':' but values (MAC addresses) do, so split on the first one.
/// "SSID" is not localized, unlike most other keys.
pub fn parse_interfaces(output: &str) -> (r: InterfaceStatus)
    ensures
        r@ == parsed_interfaces(output@),
{
    let v = chars_of(output);
    let ls = split_lines(&v);
    let mut interface: Option<String> = None;
    let mut ssids: Vec<String> = Vec::new();
    let mut k: usize = 0;
    while k < ls.len()
        invariant
            0 <= k <= ls@.len(),
            views(ls@) == lines(v@),
            interface_lines(views(ls@).take(k as int)) == (
                match interface {
                    Some(n) => Some(n@),
                    None => None,
                },
                strings_view(ssids@),
            ),
        decreases ls@.len() - k,
    {
        let line = &ls[k];
        assert(views(ls@).take(k + 1).drop_last() =~= views(ls@).take(k as int));
        assert(views(ls@).take(k + 1).last() == line@);
        match find_char(line, ':') {
            None => {},
            Some(i) => {
                let (a, b) = trim_range(line, 0, i);
                let n = line.len();
                let (c, d) = trim_range(line, i + 1, n);
                let key = slice_vec(line, a, b);
                if eq_str(&key, "Name") && interface.is_none() {
                    interface = Some(string_of(line, c, d));
                } else if eq_str(&key, "SSID") && c < d {
                    let value = string_of(line, c, d);
                    ssids.push(value);
                    assert(strings_view(ssids@) =~= interface_lines(
                        views(ls@).take(k as int),
                    ).1.push(line@.subrange(c as int, d as int)));
                }
            },
        }
        k += 1;
    }
    assert(views(ls@).take(ls@.len() as int) =~= views(ls@));
    let interface = match interface {
        Some(n) => n,
        None => to_string("Wi-Fi"),
    };
    InterfaceStatus { interface, ssids }
}

/// netsh's own notice that it needs Location access: a line of prose (one
/// without `':'`, unlike the `Key : Value` lines of a report, whose values
/// such as SSIDs may hold any word) that mentions location, in any ASCII
/// case.
pub open spec fn is_location_notice(line: Seq<char>) -> bool {
    find_first(line, ':') is None && contains(lower(line), "location"@)
}

/// netsh withholds the Wi-Fi state: one of its lines is the Location notice.
pub open spec fn withholds_state(output: Seq<char>) -> bool {
    exists|k: int| 0 <= k < lines(output).len() && is_location_notice(#[trigger] lines(output)[k])
}

/// What the status query means: nothing when `netsh` failed or refused to
/// report the state for want of Location access (Windows 11 24H2+), else
/// the parsed report.
pub open spec fn status_of(output: Result<Seq<char>, Seq<char>>) -> Option<
    (Seq<char>, Seq<Seq<char>>),
> {
    match output {
        Err(_) => None,
        Ok(o) => if withholds_state(o) {
            None
        } else {
            Some(parsed_interfaces(o))
        },
    }
}

/// Whether one of the lines is netsh's Location notice.
fn has_location_notice(output: &str) -> (r: bool)
    ensures
        r == withholds_state(output@),
{
    let v = chars_of(output);
    let ls = split_lines(&v);
    let needle = chars_of("location");
    let mut k: usize = 0;
    while k < ls.len()
        invariant
            0 <= k <= ls@.len(),
            views(ls@) == lines(v@),
            v@ == output@,
            needle@ == "location"@,
            forall|j: int| 0 <= j < k ==> !is_location_notice(#[trigger] views(ls@)[j]),
        decreases ls@.len() - k,
    {
        let line = &ls[k];
        assert(views(ls@)[k as int] == line@);
        if find_char(line, ':').is_none() && contains_vec(&lowercase(line), &needle) {
            return true;
        }
        k += 1;
    }
    assert forall|j: int| 0 <= j < lines(output@).len() implies !is_location_notice(
        #[trigger] lines(output@)[j],
    ) by {
        assert(views(ls@)[j] == lines(output@)[j]);
    }
    false
}

/// Current Wi-Fi state from the answer to `netsh wlan show interfaces`, or
/// `None` when netsh refuses to report it (e.g. no Location access on
/// Windows 11 24H2+).
pub fn interface_status(output: &Result<String, String>) -> (r: Option<InterfaceStatus>)
    ensures
        match r {
            Some(s) => status_of(result_view(output)) == Some(s@),
            None => status_of(result_view(output)) is None,
        },
{
    match output {
        Err(_) => None,
        Ok(o) => {
            if has_location_notice(o.as_str()) {
                None
            } else {
                Some(parse_interfaces(o.as_str()))
            }
        },
    }
}

/// The view of a result of strings.
pub open spec fn result_view(r: &Result<String, String>) -> Result<Seq<char>, Seq<char>> {
    match r {
        Ok(s) => Ok(s@),
        Err(e) => Err(e@),
    }
}

/// What a finished `netsh` run means: its trimmed standard output when it
/// succeeded; else the trimmed standard output, or the trimmed standard
/// error where the output is empty, or a fixed message where both are.
pub open spec fn netsh_result(success: bool, stdout: Seq<char>, stderr: Seq<char>) -> Result<
    Seq<char>,
    Seq<char>,
> {
    if success {
        Ok(trim(stdout))
    } else {
        let details = if trim(stdout).len() > 0 {
            trim(stdout)
        } else {
            trim(stderr)
        };
        if details.len() == 0 {
            Err("netsh failed without an error message."@)
        } else {
            Err(details)
        }
    }
}

/// The result of a `netsh` run, from its exit status and its output read as
/// text.
pub fn netsh_output(success: bool, stdout: &str, stderr: &str) -> (r: Result<String, String>)
    ensures
        result_view(&r) == netsh_result(success, stdout@, stderr@),
{
    let out = chars_of(stdout);
    let (a, b) = trim_range(&out, 0, out.len());
    assert(out@.subrange(0, out@.len() as int) =~= out@);
    if success {
        return Ok(string_of(&out, a, b));
    }
    if a < b {
        return Err(string_of(&out, a, b));
    }
    let err = chars_of(stderr);
    let (c, d) = trim_range(&err, 0, err.len());
    assert(err@.subrange(0, err@.len() as int) =~= err@);
    if c < d {
        Err(string_of(&err, c, d))
    } else {
        Err(to_string("netsh failed without an error message."))
    }
}

} // verus!

verus! {

/// Upper bound on a single netsh invocation, in seconds.
pub const NETSH_TIMEOUT_SECS: u64 = 20;

/// How long to wait, in milliseconds, for the interface to report the
/// target SSID after `netsh wlan connect` accepts the request.
pub const CONNECT_TIMEOUT_MILLIS: u64 = 15000;

/// Pause between two status queries while waiting, in milliseconds.
pub const CONNECT_POLL_INTERVAL_MILLIS: u64 = 500;

/// Keeps each netsh call from flashing a console window.
pub const CREATE_NO_WINDOW: u32 = 0x0800_0000;

/// A finished join. `verified` is false when Windows accepted the connect
/// request but would not report the current SSID (Windows 11 24H2+ hides it
/// from apps without Location access).
pub struct NetshJoin {
    pub interface: String,
    pub verified: bool,
}

impl View for NetshJoin {
    type V = (Seq<char>, bool);

    open spec fn view(&self) -> Self::V {
        (self.interface@, self.verified)
    }
}

/// Where a netsh join stands.
#[derive(Clone, Copy, PartialEq, Eq, Structural)]
pub enum NetshStage {
    /// Waiting for the current Wi-Fi state.
    QueryingStatus,
    /// Waiting for `netsh wlan add profile` to import the profile.
    AddingProfile,
    /// Waiting for `netsh wlan connect`.
    Connecting,
    /// Polling the state until the network shows up or time runs out.
    Waiting,
    /// The join has its result.
    Finished,
}

/// What the application reports back to a netsh join.
pub enum NetshEvent {
    /// The Wi-Fi state, as `interface_status` reads it.
    Status(Option<InterfaceStatus>),
    /// The result of importing the profile.
    ProfileAdded(Result<(), String>),
    /// The result of `netsh wlan connect`.
    ConnectDone(Result<String, String>),
    /// The Wi-Fi state while waiting, and whether the wait's deadline had
    /// passed when it was read.
    Polled(Option<InterfaceStatus>, bool),
}

/// What a netsh join asks the application to do next.
pub enum NetshAction {
    /// Read the Wi-Fi state with `netsh wlan show interfaces`.
    QueryStatus,
    /// Report `progress`, then import `xml` as a profile for the current user.
    AddProfile { progress: String, xml: String },
    /// Report `progress`, then run `netsh` with `args`.
    Connect { progress: String, args: Vec<String> },
    /// Read the Wi-Fi state again, after a pause when `pause_first`.
    Poll { pause_first: bool },
    /// The join is over; remove the saved profile first when
    /// `delete_profile`, so Windows does not keep retrying it.
    Finish { delete_profile: bool, result: Result<NetshJoin, String> },
}

/// A netsh join under way.
pub struct NetshSession {
    ssid: String,
    security: String,
    password: Option<String>,
    hidden: bool,
    key_given: bool,
    stage: NetshStage,
}

/// The state of a netsh join: the network, its normalized security type,
/// the password, whether it is hidden, whether the profile carries a key,
/// and where the join stands.
pub struct NetshSessionView {
    pub ssid: Seq<char>,
    pub security: Seq<char>,
    pub password: Option<Seq<char>>,
    pub hidden: bool,
    pub key_given: bool,
    pub stage: NetshStage,
}

pub enum NetshEventView {
    Status(Option<(Seq<char>, Seq<Seq<char>>)>),
    ProfileAdded(Result<(), Seq<char>>),
    ConnectDone(Result<Seq<char>, Seq<char>>),
    Polled(Option<(Seq<char>, Seq<Seq<char>>)>, bool),
}

pub enum NetshActionView {
    QueryStatus,
    AddProfile { progress: Seq<char>, xml: Seq<char> },
    Connect { progress: Seq<char>, args: Seq<Seq<char>> },
    Poll { pause_first: bool },
    Finish { delete_profile: bool, result: Result<(Seq<char>, bool), Seq<char>> },
}

pub open spec fn status_view(s: Option<InterfaceStatus>) -> Option<(Seq<char>, Seq<Seq<char>>)> {
    match s {
        Some(st) => Some(st@),
        None => None,
    }
}

impl View for NetshSession {
    type V = NetshSessionView;

    closed spec fn view(&self) -> NetshSessionView {
        NetshSessionView {
            ssid: self.ssid@,
            security: self.security@,
            password: match self.password {
                Some(p) => Some(p@),
                None => None,
            },
            hidden: self.hidden,
            key_given: self.key_given,
            stage: self.stage,
        }
    }
}

impl View for NetshEvent {
    type V = NetshEventView;

    open spec fn view(&self) -> NetshEventView {
        match self {
            NetshEvent::Status(s) => NetshEventView::Status(status_view(*s)),
            NetshEvent::ProfileAdded(r) => NetshEventView::ProfileAdded(
                match r {
                    Ok(_) => Ok(()),
                    Err(e) => Err(e@),
                },
            ),
            NetshEvent::ConnectDone(r) => NetshEventView::ConnectDone(result_view(r)),
            NetshEvent::Polled(s, expired) => NetshEventView::Polled(status_view(*s), *expired),
        }
    }
}

impl View for NetshAction {
    type V = NetshActionView;

    open spec fn view(&self) -> NetshActionView {
        match self {
            NetshAction::QueryStatus => NetshActionView::QueryStatus,
            NetshAction::AddProfile { progress, xml } => NetshActionView::AddProfile {
                progress: progress@,
                xml: xml@,
            },
            NetshAction::Connect { progress, args } => NetshActionView::Connect {
                progress: progress@,
                args: strings_view(args@),
            },
            NetshAction::Poll { pause_first } => NetshActionView::Poll { pause_first: *pause_first },
            NetshAction::Finish { delete_profile, result } => NetshActionView::Finish {
                delete_profile: *delete_profile,
                result: match result {
                    Ok(j) => Ok(j@),
                    Err(e) => Err(e@),
                },
            },
        }
    }
}

/// The event answers the action the join is waiting on.
pub open spec fn netsh_accepts(stage: NetshStage, e: NetshEventView) -> bool {
    match e {
        NetshEventView::Status(_) => stage == NetshStage::QueryingStatus,
        NetshEventView::ProfileAdded(_) => stage == NetshStage::AddingProfile,
        NetshEventView::ConnectDone(_) => stage == NetshStage::Connecting,
        NetshEventView::Polled(_, _) => stage == NetshStage::Waiting,
    }
}

/// The reported state shows `ssid` connected.
pub open spec fn shows_ssid(status: (Seq<char>, Seq<Seq<char>>), ssid: Seq<char>) -> bool {
    status.1.contains(ssid)
}

/// The arguments of `netsh` that connect with the profile of `ssid`.
pub open spec fn connect_arg_list(ssid: Seq<char>) -> Seq<Seq<char>> {
    seq!["wlan"@, "connect"@, "name="@ + ssid]
}

/// The arguments of `netsh` that delete the profile of `ssid`.
pub open spec fn delete_arg_list(ssid: Seq<char>) -> Seq<Seq<char>> {
    seq!["wlan"@, "delete"@, "profile"@, "name="@ + ssid]
}

/// The refusal of a network name `netsh` cannot be given.
pub open spec fn quote_message() -> Seq<char> {
    "Network names containing '\"' are not supported on Windows."@
}

/// How a netsh join begins: names holding `'"'` are refused, any other
/// join first reads the Wi-Fi state.
pub open spec fn netsh_start(
    ssid: Seq<char>,
    security: Seq<char>,
    password: Option<Seq<char>>,
    hidden: bool,
) -> (NetshSessionView, NetshActionView) {
    if ssid.contains('"') {
        (
            NetshSessionView {
                ssid,
                security,
                password,
                hidden,
                key_given: false,
                stage: NetshStage::Finished,
            },
            NetshActionView::Finish { delete_profile: false, result: Err(quote_message()) },
        )
    } else {
        (
            NetshSessionView {
                ssid,
                security,
                password,
                hidden,
                key_given: false,
                stage: NetshStage::QueryingStatus,
            },
            NetshActionView::QueryStatus,
        )
    }
}

/// One step of a netsh join: the next state and what to do, given what the
/// application reported.
///
/// - Already on the network: done, verified.
/// - Otherwise the profile is saved (a key is needed for "wpa" and "wep"),
///   then connected with; a failed connect removes the profile again.
/// - Then the state is polled: no state at all means Windows would not say
///   (unverified success); the network showing up means success; time
///   running out removes the profile and fails, hinting at the password when
///   there was one.
pub open spec fn netsh_step(s: NetshSessionView, e: NetshEventView) -> (
    NetshSessionView,
    NetshActionView,
) {
    let ssid = s.ssid;
    match e {
        NetshEventView::Status(st) => {
            if st is Some && shows_ssid(st->0, ssid) {
                let found = st->0;
                (
                    NetshSessionView { stage: NetshStage::Finished, ..s },
                    NetshActionView::Finish {
                        delete_profile: false,
                        result: Ok((found.0, true)),
                    },
                )
            } else {
                let settings = security_settings(s.security);
                if settings.2 is Some && s.password is None {
                    (
                        NetshSessionView { stage: NetshStage::Finished, ..s },
                        NetshActionView::Finish {
                            delete_profile: false,
                            result: Err("Password is required for secured networks."@),
                        },
                    )
                } else {
                    let key = if settings.2 is Some {
                        s.password
                    } else {
                        None
                    };
                    (
                        NetshSessionView {
                            stage: NetshStage::AddingProfile,
                            key_given: key is Some,
                            ..s
                        },
                        NetshActionView::AddProfile {
                            progress: "Saving the Wi-Fi profile for '"@ + ssid + "'..."@,
                            xml: profile_text(ssid, settings, key, s.hidden),
                        },
                    )
                }
            }
        },
        NetshEventView::ProfileAdded(r) => match r {
            Err(m) => (
                NetshSessionView { stage: NetshStage::Finished, ..s },
                NetshActionView::Finish { delete_profile: false, result: Err(m) },
            ),
            Ok(_) => (
                NetshSessionView { stage: NetshStage::Connecting, ..s },
                NetshActionView::Connect {
                    progress: "Connecting to '"@ + ssid + "'..."@,
                    args: connect_arg_list(ssid),
                },
            ),
        },
        NetshEventView::ConnectDone(r) => match r {
            Err(m) => (
                NetshSessionView { stage: NetshStage::Finished, ..s },
                NetshActionView::Finish { delete_profile: true, result: Err(m) },
            ),
            Ok(_) => (
                NetshSessionView { stage: NetshStage::Waiting, ..s },
                NetshActionView::Poll { pause_first: false },
            ),
        },
        NetshEventView::Polled(st, expired) => match st {
            None => (
                NetshSessionView { stage: NetshStage::Finished, ..s },
                NetshActionView::Finish { delete_profile: false, result: Ok(("Wi-Fi"@, false)) },
            ),
            Some(status) => if shows_ssid(status, ssid) {
                (
                    NetshSessionView { stage: NetshStage::Finished, ..s },
                    NetshActionView::Finish { delete_profile: false, result: Ok((status.0, true)) },
                )
            } else if expired {
                (
                    NetshSessionView { stage: NetshStage::Finished, ..s },
                    NetshActionView::Finish {
                        delete_profile: true,
                        result: Err(
                            "Could not join '"@ + ssid + "'."@ + (if s.key_given {
                                " Check that the password is correct."@
                            } else {
                                seq![]
                            }),
                        ),
                    },
                )
            } else {
                (s, NetshActionView::Poll { pause_first: true })
            },
        },
    }
}

/// Whether `ssid` is among the connected SSIDs.
fn lists_ssid(status: &InterfaceStatus, ssid: &String) -> (r: bool)
    ensures
        r == shows_ssid(status@, ssid@),
{
    let mut i: usize = 0;
    while i < status.ssids.len()
        invariant
            0 <= i <= status.ssids@.len(),
            forall|j: int| 0 <= j < i ==> status.ssids@[j]@ != ssid@,
        decreases status.ssids@.len() - i,
    {
        if status.ssids[i] == *ssid {
            assert(strings_view(status.ssids@)[i as int] == ssid@);
            return true;
        }
        i += 1;
    }
    assert forall|j: int| 0 <= j < strings_view(status.ssids@).len() implies strings_view(
        status.ssids@,
    )[j] != ssid@ by {}
    false
}

/// A copy of an optional string.
fn clone_opt(o: &Option<String>) -> (r: Option<String>)
    ensures
        r == *o,
{
    match o {
        Some(s) => Some(s.clone()),
        None => None,
    }
}

/// The arguments of `netsh` that connect with the profile of `ssid`.
pub fn connect_args(ssid: &str) -> (r: Vec<String>)
    ensures
        strings_view(r@) == connect_arg_list(ssid@),
{
    let mut name = to_string("name=");
    push_str(&mut name, ssid);
    let mut r: Vec<String> = Vec::new();
    r.push(to_string("wlan"));
    r.push(to_string("connect"));
    r.push(name);
    assert(strings_view(r@) =~= connect_arg_list(ssid@));
    r
}

/// The arguments of `netsh` that delete the profile of `ssid`.
pub fn delete_profile_args(ssid: &str) -> (r: Vec<String>)
    ensures
        strings_view(r@) == delete_arg_list(ssid@),
{
    let mut name = to_string("name=");
    push_str(&mut name, ssid);
    let mut r: Vec<String> = Vec::new();
    r.push(to_string("wlan"));
    r.push(to_string("delete"));
    r.push(to_string("profile"));
    r.push(name);
    assert(strings_view(r@) =~= delete_arg_list(ssid@));
    r
}

/// The arguments of `netsh` that read the Wi-Fi state.
pub fn show_interfaces_args() -> (r: Vec<String>)
    ensures
        strings_view(r@) == seq!["wlan"@, "show"@, "interfaces"@],
{
    let mut r: Vec<String> = Vec::new();
    r.push(to_string("wlan"));
    r.push(to_string("show"));
    r.push(to_string("interfaces"));
    assert(strings_view(r@) =~= seq!["wlan"@, "show"@, "interfaces"@]);
    r
}

/// The arguments of `netsh` that import the profile saved at `path` for the
/// current user.
pub fn add_profile_args(path: &str) -> (r: Vec<String>)
    ensures
        strings_view(r@) == seq!["wlan"@, "add"@, "profile"@, "filename="@ + path@, "user=current"@],
{
    let mut file = to_string("filename=");
    push_str(&mut file, path);
    let mut r: Vec<String> = Vec::new();
    r.push(to_string("wlan"));
    r.push(to_string("add"));
    r.push(to_string("profile"));
    r.push(file);
    r.push(to_string("user=current"));
    assert(strings_view(r@) =~= seq![
        "wlan"@,
        "add"@,
        "profile"@,
        "filename="@ + path@,
        "user=current"@,
    ]);
    r
}

/// Join `ssid` by saving a WLAN profile for the current user and connecting
/// with it. `security` is one of the normalized values "wpa", "wep",
/// "nopass". Returns the join under way and the first thing to do; the
/// application then feeds each outcome to `NetshSession::step`.
pub fn join_via_netsh(ssid: &str, security: &str, password: Option<&str>, hidden: bool) -> (r: (
    NetshSession,
    NetshAction,
))
    ensures
        (r.0@, r.1@) == netsh_start(
            ssid@,
            security@,
            match password {
                Some(p) => Some(p@),
                None => None,
            },
            hidden,
        ),
{
    let s = chars_of(ssid);
    let has_quote = find_char(&s, '"');
    let session_password: Option<String> = match password {
        Some(p) => Some(to_string(p)),
        None => None,
    };
    let mut session = NetshSession {
        ssid: to_string(ssid),
        security: to_string(security),
        password: session_password,
        hidden,
        key_given: false,
        stage: NetshStage::QueryingStatus,
    };
    match has_quote {
        Some(i) => {
            assert(s@[i as int] == '"');
            session.stage = NetshStage::Finished;
            let message = to_string("Network names containing '\"' are not supported on Windows.");
            (session, NetshAction::Finish { delete_profile: false, result: Err(message) })
        },
        None => {
            proof {
                lemma_no_first_no_char(s@, '"');
            }
            (session, NetshAction::QueryStatus)
        },
    }
}

impl NetshSession {
    /// Whether `event` answers what the join is waiting on.
    pub fn accepts(&self, event: &NetshEvent) -> (r: bool)
        ensures
            r == netsh_accepts(self@.stage, event@),
    {
        match event {
            NetshEvent::Status(_) => self.stage == NetshStage::QueryingStatus,
            NetshEvent::ProfileAdded(_) => self.stage == NetshStage::AddingProfile,
            NetshEvent::ConnectDone(_) => self.stage == NetshStage::Connecting,
            NetshEvent::Polled(_, _) => self.stage == NetshStage::Waiting,
        }
    }

    /// Takes what the application reports and says what to do next.
    pub fn step(&mut self, event: NetshEvent) -> (action: NetshAction)
        requires
            netsh_accepts(old(self)@.stage, event@),
        ensures
            (final(self)@, action@) == netsh_step(old(self)@, event@),
    {
        let ghost ev = event@;
        match event {
            NetshEvent::Status(st) => {
                let already = match &st {
                    Some(status) => lists_ssid(status, &self.ssid),
                    None => false,
                };
                if already {
                    let status = st.unwrap();
                    self.stage = NetshStage::Finished;
                    return NetshAction::Finish {
                        delete_profile: false,
                        result: Ok(NetshJoin { interface: status.interface, verified: true }),
                    };
                }
                let security = ProfileSecurity::from_normalized(self.security.as_str());
                if security.needs_key() && self.password.is_none() {
                    self.stage = NetshStage::Finished;
                    return NetshAction::Finish {
                        delete_profile: false,
                        result: Err(to_string("Password is required for secured networks.")),
                    };
                }
                let key: Option<String> = if security.needs_key() {
                    clone_opt(&self.password)
                } else {
                    None
                };
                let key_str: Option<&str> = match &key {
                    Some(k) => Some(k.as_str()),
                    None => None,
                };
                let xml = profile_xml(self.ssid.as_str(), &security, key_str, self.hidden);
                let mut progress = to_string("Saving the Wi-Fi profile for '");
                push_str(&mut progress, self.ssid.as_str());
                push_str(&mut progress, "'...");
                self.key_given = key.is_some();
                self.stage = NetshStage::AddingProfile;
                NetshAction::AddProfile { progress, xml }
            },
            NetshEvent::ProfileAdded(r) => match r {
                Err(m) => {
                    self.stage = NetshStage::Finished;
                    NetshAction::Finish { delete_profile: false, result: Err(m) }
                },
                Ok(_) => {
                    let mut progress = to_string("Connecting to '");
                    push_str(&mut progress, self.ssid.as_str());
                    push_str(&mut progress, "'...");
                    self.stage = NetshStage::Connecting;
                    NetshAction::Connect { progress, args: connect_args(self.ssid.as_str()) }
                },
            },
            NetshEvent::ConnectDone(r) => match r {
                Err(m) => {
                    self.stage = NetshStage::Finished;
                    NetshAction::Finish { delete_profile: true, result: Err(m) }
                },
                Ok(_) => {
                    self.stage = NetshStage::Waiting;
                    NetshAction::Poll { pause_first: false }
                },
            },
            NetshEvent::Polled(st, expired) => match st {
                None => {
                    self.stage = NetshStage::Finished;
                    NetshAction::Finish {
                        delete_profile: false,
                        result: Ok(NetshJoin { interface: to_string("Wi-Fi"), verified: false }),
                    }
                },
                Some(status) => {
                    if lists_ssid(&status, &self.ssid) {
                        self.stage = NetshStage::Finished;
                        NetshAction::Finish {
                            delete_profile: false,
                            result: Ok(NetshJoin { interface: status.interface, verified: true }),
                        }
                    } else if expired {
                        let mut message = to_string("Could not join '");
                        push_str(&mut message, self.ssid.as_str());
                        push_str(&mut message, "'.");
                        if self.key_given {
                            push_str(&mut message, " Check that the password is correct.");
                        }
                        assert(message@ =~= "Could not join '"@ + self@.ssid + "'."@ + (
                        if self@.key_given {
                            " Check that the password is correct."@
                        } else {
                            seq![]
                        }));
                        self.stage = NetshStage::Finished;
                        NetshAction::Finish { delete_profile: true, result: Err(message) }
                    } else {
                        NetshAction::Poll { pause_first: true }
                    }
                },
            },
        }
    }
}

/// The platform join on Windows: the netsh join's result, as the request
/// handler reports it.
pub fn join_platform(joined: Result<NetshJoin, String>) -> (r: Result<Joined, ErrorResponse>)
    ensures
        match joined {
            Ok(j) => r matches Ok(x) && x.interface@ == j.interface@ && x.method@ == "netsh"@
                && x.verified == j.verified,
            Err(m) => r matches Err(e) && e.message@ == m@,
        },
{
    match joined {
        Ok(j) => Ok(Joined { interface: j.interface, method: "netsh", verified: j.verified }),
        Err(message) => Err(ErrorResponse { message }),
    }
}

} // verus!

verus! {

/// A netsh join that fails after its profile was saved removes the profile,
/// so Windows does not keep retrying it; no other finish removes one.
pub proof fn law_failed_join_removes_its_profile(s: NetshSessionView, e: NetshEventView)
    requires
        netsh_accepts(s.stage, e),
        (netsh_step(s, e).1 is Finish),
    ensures
        netsh_step(s, e).1->delete_profile <==> ((s.stage == NetshStage::Connecting || s.stage
            == NetshStage::Waiting) && netsh_step(s, e).1->Finish_result is Err),
{
}

/// Network names holding `'"'` are refused before `netsh` is run.
pub proof fn law_quoted_names_are_refused(
    ssid: Seq<char>,
    security: Seq<char>,
    password: Option<Seq<char>>,
    hidden: bool,
)
    requires
        ssid.contains('"'),
    ensures
        (netsh_start(ssid, security, password, hidden).1 == NetshActionView::Finish {
            delete_profile: false,
            result: Err(quote_message()),
        }),
{
}

} // verus!

verus! {

/// Only names holding `'"'` are refused at the start; any other name goes on
/// to read the Wi-Fi state.
pub proof fn law_unquoted_names_are_not_refused(
    ssid: Seq<char>,
    security: Seq<char>,
    password: Option<Seq<char>>,
    hidden: bool,
)
    requires
        !ssid.contains('"'),
    ensures
        netsh_start(ssid, security, password, hidden).1 == NetshActionView::QueryStatus,
        netsh_start(ssid, security, password, hidden).0.stage == NetshStage::QueryingStatus,
{
}

/// For a secured network ("wpa" or "wep") with a password, away from the
/// network, the profile saved carries that password as its key, under the
/// type's settings, and the join remembers that a key was given.
pub proof fn law_the_profile_key_is_the_password(
    s: NetshSessionView,
    status: Option<(Seq<char>, Seq<Seq<char>>)>,
    password: Seq<char>,
)
    requires
        s.stage == NetshStage::QueryingStatus,
        s.security == "wpa"@ || s.security == "wep"@,
        s.password == Some(password),
        !(status is Some && shows_ssid(status->0, s.ssid)),
    ensures
        (netsh_step(s, NetshEventView::Status(status)).1 == NetshActionView::AddProfile {
            progress: "Saving the Wi-Fi profile for '"@ + s.ssid + "'..."@,
            xml: profile_text(s.ssid, security_settings(s.security), Some(password), s.hidden),
        }),
        security_settings(s.security).2 is Some,
        netsh_step(s, NetshEventView::Status(status)).0.key_given,
{
}

/// An open network ("nopass" or any type but "wpa" and "wep") gets an open
/// profile without a key, whatever password came with it.
pub proof fn law_open_profiles_carry_no_key(
    s: NetshSessionView,
    status: Option<(Seq<char>, Seq<Seq<char>>)>,
)
    requires
        s.stage == NetshStage::QueryingStatus,
        s.security != "wpa"@ && s.security != "wep"@,
        !(status is Some && shows_ssid(status->0, s.ssid)),
    ensures
        (netsh_step(s, NetshEventView::Status(status)).1 == NetshActionView::AddProfile {
            progress: "Saving the Wi-Fi profile for '"@ + s.ssid + "'..."@,
            xml: profile_text(s.ssid, ("open"@, "none"@, None), None, s.hidden),
        }),
        !netsh_step(s, NetshEventView::Status(status)).0.key_given,
{
}

/// Already on the network: the join ends at once, verified, on the
/// reporting interface, and removes nothing.
pub proof fn law_already_connected_succeeds(
    s: NetshSessionView,
    status: (Seq<char>, Seq<Seq<char>>),
)
    requires
        s.stage == NetshStage::QueryingStatus,
        status.1.contains(s.ssid),
    ensures
        (netsh_step(s, NetshEventView::Status(Some(status))).1 == NetshActionView::Finish {
            delete_profile: false,
            result: Ok((status.0, true)),
        }),
{
}

/// While waiting: the network showing up is a verified success on the
/// reporting interface; no state at all is an unverified success on
/// "Wi-Fi"; neither removes the profile.
pub proof fn law_waiting_outcomes(
    s: NetshSessionView,
    status: (Seq<char>, Seq<Seq<char>>),
    expired: bool,
)
    requires
        s.stage == NetshStage::Waiting,
    ensures
        status.1.contains(s.ssid) ==> (netsh_step(s, NetshEventView::Polled(Some(status), expired)).1
            == NetshActionView::Finish { delete_profile: false, result: Ok((status.0, true)) }),
        (netsh_step(s, NetshEventView::Polled(None, expired)).1 == NetshActionView::Finish {
            delete_profile: false,
            result: Ok(("Wi-Fi"@, false)),
        }),
{
}

} // verus!

verus! {

/// After the profile is saved the join connects with it by name; after the
/// connect is accepted it reads the state at once, then after pauses while
/// the network is not shown and time is left; when time runs out the
/// profile is removed and the join fails, hinting at the password when one
/// was saved.
pub proof fn law_connect_and_wait(
    s: NetshSessionView,
    status: (Seq<char>, Seq<Seq<char>>),
    out: Seq<char>,
)
    requires
        !status.1.contains(s.ssid),
    ensures
        s.stage == NetshStage::AddingProfile ==> (netsh_step(
            s,
            NetshEventView::ProfileAdded(Ok(())),
        ).1 == NetshActionView::Connect {
            progress: "Connecting to '"@ + s.ssid + "'..."@,
            args: seq!["wlan"@, "connect"@, "name="@ + s.ssid],
        }),
        s.stage == NetshStage::Connecting ==> (netsh_step(s, NetshEventView::ConnectDone(Ok(out))).1
            == NetshActionView::Poll { pause_first: false }),
        s.stage == NetshStage::Waiting ==> (netsh_step(
            s,
            NetshEventView::Polled(Some(status), false),
        ).1 == NetshActionView::Poll { pause_first: true }),
        s.stage == NetshStage::Waiting && s.key_given ==> (netsh_step(
            s,
            NetshEventView::Polled(Some(status), true),
        ).1 == NetshActionView::Finish {
            delete_profile: true,
            result: Err(
                "Could not join '"@ + s.ssid + "'."@ + " Check that the password is correct."@,
            ),
        }),
        s.stage == NetshStage::Waiting && !s.key_given ==> (netsh_step(
            s,
            NetshEventView::Polled(Some(status), true),
        ).1 == NetshActionView::Finish {
            delete_profile: true,
            result: Err("Could not join '"@ + s.ssid + "'."@),
        }),
{
    assert("Could not join '"@ + s.ssid + "'."@ + seq![] =~= "Could not join '"@ + s.ssid
        + "'."@);
}

/// A secured network ("wpa" or "wep") without a password is refused before
/// any profile is saved.
pub proof fn law_secured_networks_need_a_password(
    s: NetshSessionView,
    status: Option<(Seq<char>, Seq<Seq<char>>)>,
)
    requires
        s.stage == NetshStage::QueryingStatus,
        s.security == "wpa"@ || s.security == "wep"@,
        s.password is None,
        !(status is Some && shows_ssid(status->0, s.ssid)),
    ensures
        (netsh_step(s, NetshEventView::Status(status)).1 == NetshActionView::Finish {
            delete_profile: false,
            result: Err("Password is required for secured networks."@),
        }),
{
}

} // verus!
