//! The platform join on macOS: CoreWLAN first, then the `networksetup`
//! fallback when CoreWLAN could not do the join (but not when the network
//! refused it). The application performs each step.
use vstd::prelude::*;

use crate::corewlan::{wlan_error_view, CoreWlanError};
use crate::request::{ensure_not_flag, flag_message, looks_like_flag, ErrorResponse, Joined};
use crate::text::{push_str, to_string};

verus! {

/// Where a macOS join stands.
#[derive(Clone, Copy, PartialEq, Eq, Structural)]
pub enum MacStage {
    /// Waiting to learn whether Location access is refused.
    CheckingLocation,
    /// Waiting for the CoreWLAN join.
    JoiningCoreWlan,
    /// Waiting for the `networksetup` join.
    JoiningNetworksetup,
    /// Waiting for the SSID the default interface reports.
    Confirming,
    /// The join has its result.
    Finished,
}

/// What the application reports back to a macOS join.
pub enum MacEvent {
    /// Whether Location Services access is denied or restricted.
    LocationDenied(bool),
    /// The result of the CoreWLAN join.
    CoreWlanDone(Result<String, CoreWlanError>),
    /// The result of the `networksetup` join: the interface, or the error.
    NetworksetupDone(Result<String, String>),
    /// The SSID of the default interface, if CoreWLAN can read it.
    CurrentSsid(Option<String>),
}

/// What a macOS join asks the application to do next.
pub enum MacAction {
    /// Ask whether Location access is refused.
    CheckLocation,
    /// Join with CoreWLAN.
    JoinCoreWlan,
    /// Report `progress`, then join with `networksetup`.
    JoinNetworksetup { progress: String },
    /// Read the SSID of the default interface.
    ReadCurrentSsid,
    /// The join is over.
    Finish(Result<Joined, ErrorResponse>),
}

/// A macOS join under way.
pub struct MacJoin {
    ssid: String,
    password: Option<String>,
    interface: String,
    stage: MacStage,
}

/// The state of a macOS join: the network, the password, the interface
/// that `networksetup` used, and where the join stands.
pub struct MacJoinView {
    pub ssid: Seq<char>,
    pub password: Option<Seq<char>>,
    pub interface: Seq<char>,
    pub stage: MacStage,
}

pub enum MacEventView {
    LocationDenied(bool),
    CoreWlanDone(Result<Seq<char>, (bool, Seq<char>)>),
    NetworksetupDone(Result<Seq<char>, Seq<char>>),
    CurrentSsid(Option<Seq<char>>),
}

pub enum MacActionView {
    CheckLocation,
    JoinCoreWlan,
    JoinNetworksetup { progress: Seq<char> },
    ReadCurrentSsid,
    /// The interface, the method and whether it was verified; or the error.
    Finish(Result<(Seq<char>, Seq<char>, bool), Seq<char>>),
}

impl View for MacJoin {
    type V = MacJoinView;

    closed spec fn view(&self) -> MacJoinView {
        MacJoinView {
            ssid: self.ssid@,
            password: match self.password {
                Some(p) => Some(p@),
                None => None,
            },
            interface: self.interface@,
            stage: self.stage,
        }
    }
}

impl View for MacEvent {
    type V = MacEventView;

    open spec fn view(&self) -> MacEventView {
        match self {
            MacEvent::LocationDenied(d) => MacEventView::LocationDenied(*d),
            MacEvent::CoreWlanDone(r) => MacEventView::CoreWlanDone(
                match r {
                    Ok(i) => Ok(i@),
                    Err(e) => Err(wlan_error_view(*e)),
                },
            ),
            MacEvent::NetworksetupDone(r) => MacEventView::NetworksetupDone(
                match r {
                    Ok(i) => Ok(i@),
                    Err(e) => Err(e@),
                },
            ),
            MacEvent::CurrentSsid(s) => MacEventView::CurrentSsid(
                match s {
                    Some(c) => Some(c@),
                    None => None,
                },
            ),
        }
    }
}

impl View for MacAction {
    type V = MacActionView;

    open spec fn view(&self) -> MacActionView {
        match self {
            MacAction::CheckLocation => MacActionView::CheckLocation,
            MacAction::JoinCoreWlan => MacActionView::JoinCoreWlan,
            MacAction::JoinNetworksetup { progress } => MacActionView::JoinNetworksetup {
                progress: progress@,
            },
            MacAction::ReadCurrentSsid => MacActionView::ReadCurrentSsid,
            MacAction::Finish(r) => MacActionView::Finish(
                match r {
                    Ok(j) => Ok((j.interface@, j.method@, j.verified)),
                    Err(e) => Err(e.message@),
                },
            ),
        }
    }
}

/// The event answers what the join is waiting on.
pub open spec fn mac_accepts(stage: MacStage, e: MacEventView) -> bool {
    match e {
        MacEventView::LocationDenied(_) => stage == MacStage::CheckingLocation,
        MacEventView::CoreWlanDone(_) => stage == MacStage::JoiningCoreWlan,
        MacEventView::NetworksetupDone(_) => stage == MacStage::JoiningNetworksetup,
        MacEventView::CurrentSsid(_) => stage == MacStage::Confirming,
    }
}

/// The start of a macOS join: learn whether Location access is refused.
pub open spec fn mac_start(ssid: Seq<char>, password: Option<Seq<char>>) -> (MacJoinView, MacActionView) {
    (
        MacJoinView { ssid, password, interface: seq![], stage: MacStage::CheckingLocation },
        MacActionView::CheckLocation,
    )
}

/// What follows when CoreWLAN could not do the join: the fallback, unless
/// the SSID or the password begins with `'-'`, which `networksetup` would
/// read as a flag.
pub open spec fn mac_fallback(s: MacJoinView) -> (MacJoinView, MacActionView) {
    if looks_like_flag(s.ssid) {
        (
            MacJoinView { stage: MacStage::Finished, ..s },
            MacActionView::Finish(Err(flag_message("SSID"@))),
        )
    } else if s.password is Some && looks_like_flag(s.password->0) {
        (
            MacJoinView { stage: MacStage::Finished, ..s },
            MacActionView::Finish(Err(flag_message("Password"@))),
        )
    } else {
        (
            MacJoinView { stage: MacStage::JoiningNetworksetup, ..s },
            MacActionView::JoinNetworksetup { progress: "Trying the system fallback..."@ },
        )
    }
}

/// One step of a macOS join.
///
/// - With Location access refused, CoreWLAN cannot scan: straight to the
///   fallback. Otherwise CoreWLAN joins.
/// - A CoreWLAN success is final; a rejection by the network is final too
///   (the fallback would only repeat it); any other failure goes to the
///   fallback.
/// - After a `networksetup` success the current SSID is read: only a
///   different SSID is conclusive (without Location access it reads as
///   nothing), and it fails the join.
pub open spec fn mac_step(s: MacJoinView, e: MacEventView) -> (MacJoinView, MacActionView) {
    match e {
        MacEventView::LocationDenied(denied) => if denied {
            mac_fallback(s)
        } else {
            (MacJoinView { stage: MacStage::JoiningCoreWlan, ..s }, MacActionView::JoinCoreWlan)
        },
        MacEventView::CoreWlanDone(r) => match r {
            Ok(interface) => (
                MacJoinView { stage: MacStage::Finished, ..s },
                MacActionView::Finish(Ok((interface, "corewlan"@, true))),
            ),
            Err(err) => if err.0 {
                (MacJoinView { stage: MacStage::Finished, ..s }, MacActionView::Finish(Err(err.1)))
            } else {
                mac_fallback(s)
            },
        },
        MacEventView::NetworksetupDone(r) => match r {
            Err(m) => (MacJoinView { stage: MacStage::Finished, ..s }, MacActionView::Finish(Err(m))),
            Ok(interface) => (
                MacJoinView { stage: MacStage::Confirming, interface, ..s },
                MacActionView::ReadCurrentSsid,
            ),
        },
        MacEventView::CurrentSsid(current) => match current {
            Some(c) => if c != s.ssid {
                (
                    MacJoinView { stage: MacStage::Finished, ..s },
                    MacActionView::Finish(
                        Err(
                            "Could not join '"@ + s.ssid + "'; still connected to '"@ + c
                                + "'."@,
                        ),
                    ),
                )
            } else {
                (
                    MacJoinView { stage: MacStage::Finished, ..s },
                    MacActionView::Finish(Ok((s.interface, "networksetup"@, true))),
                )
            },
            None => (
                MacJoinView { stage: MacStage::Finished, ..s },
                MacActionView::Finish(Ok((s.interface, "networksetup"@, true))),
            ),
        },
    }
}

/// Starts the macOS join of `ssid`. Whether the network is hidden does not
/// matter here (CoreWLAN's scan by name finds hidden networks too), and the
/// security type only matters to the `networksetup` arguments. The
/// application feeds each outcome to `MacJoin::step`.
pub fn join_platform(ssid: &str, password: Option<&str>) -> (r: (MacJoin, MacAction))
    ensures
        (r.0@, r.1@) == mac_start(
            ssid@,
            match password {
                Some(p) => Some(p@),
                None => None,
            },
        ),
{
    let password: Option<String> = match password {
        Some(p) => Some(to_string(p)),
        None => None,
    };
    (
        MacJoin {
            ssid: to_string(ssid),
            password,
            interface: String::new(),
            stage: MacStage::CheckingLocation,
        },
        MacAction::CheckLocation,
    )
}

impl MacJoin {
    /// Whether `event` answers what the join is waiting on.
    pub fn accepts(&self, event: &MacEvent) -> (r: bool)
        ensures
            r == mac_accepts(self@.stage, event@),
    {
        match event {
            MacEvent::LocationDenied(_) => self.stage == MacStage::CheckingLocation,
            MacEvent::CoreWlanDone(_) => self.stage == MacStage::JoiningCoreWlan,
            MacEvent::NetworksetupDone(_) => self.stage == MacStage::JoiningNetworksetup,
            MacEvent::CurrentSsid(_) => self.stage == MacStage::Confirming,
        }
    }

    /// The fallback, unless the SSID or password would be read as a flag.
    fn fallback(&mut self) -> (action: MacAction)
        ensures
            (final(self)@, action@) == mac_fallback(old(self)@),
    {
        match ensure_not_flag(self.ssid.as_str(), "SSID") {
            Err(e) => {
                self.stage = MacStage::Finished;
                return MacAction::Finish(Err(e));
            },
            Ok(_) => {},
        }
        let checked = match &self.password {
            Some(p) => ensure_not_flag(p.as_str(), "Password"),
            None => Ok(()),
        };
        match checked {
            Err(e) => {
                self.stage = MacStage::Finished;
                MacAction::Finish(Err(e))
            },
            Ok(_) => {
                self.stage = MacStage::JoiningNetworksetup;
                MacAction::JoinNetworksetup { progress: to_string("Trying the system fallback...") }
            },
        }
    }

    /// Takes what the application reports and says what to do next.
    pub fn step(&mut self, event: MacEvent) -> (action: MacAction)
        requires
            mac_accepts(old(self)@.stage, event@),
        ensures
            (final(self)@, action@) == mac_step(old(self)@, event@),
    {
        match event {
            MacEvent::LocationDenied(denied) => {
                if denied {
                    self.fallback()
                } else {
                    self.stage = MacStage::JoiningCoreWlan;
                    MacAction::JoinCoreWlan
                }
            },
            MacEvent::CoreWlanDone(r) => match r {
                Ok(interface) => {
                    self.stage = MacStage::Finished;
                    MacAction::Finish(Ok(Joined { interface, method: "corewlan", verified: true }))
                },
                Err(CoreWlanError::Rejected(message)) => {
                    self.stage = MacStage::Finished;
                    MacAction::Finish(Err(ErrorResponse { message }))
                },
                Err(CoreWlanError::Unavailable(_)) => self.fallback(),
            },
            MacEvent::NetworksetupDone(r) => match r {
                Err(message) => {
                    self.stage = MacStage::Finished;
                    MacAction::Finish(Err(ErrorResponse { message }))
                },
                Ok(interface) => {
                    self.interface = interface;
                    self.stage = MacStage::Confirming;
                    MacAction::ReadCurrentSsid
                },
            },
            MacEvent::CurrentSsid(current) => {
                self.stage = MacStage::Finished;
                match current {
                    Some(c) => {
                        if c != self.ssid {
                            let mut message = to_string("Could not join '");
                            push_str(&mut message, self.ssid.as_str());
                            push_str(&mut message, "'; still connected to '");
                            push_str(&mut message, c.as_str());
                            push_str(&mut message, "'.");
                            return MacAction::Finish(Err(ErrorResponse { message }));
                        }
                    },
                    None => {},
                }
                MacAction::Finish(
                    Ok(
                        Joined {
                            interface: self.interface.clone(),
                            method: "networksetup",
                            verified: true,
                        },
                    ),
                )
            },
        }
    }
}

} // verus!

verus! {

/// `networksetup` is never asked to join with an SSID or a password that
/// begins with `'-'`, which it would read as a flag.
pub proof fn law_fallback_never_gets_a_flag(s: MacJoinView, e: MacEventView)
    requires
        mac_accepts(s.stage, e),
        (mac_step(s, e).1 is JoinNetworksetup),
    ensures
        !looks_like_flag(s.ssid),
        s.password is Some ==> !looks_like_flag(s.password->0),
{
}

/// A join the network itself refused ends there, with the network's
/// message: the fallback is not tried.
pub proof fn law_rejection_is_final(s: MacJoinView, message: Seq<char>)
    requires
        s.stage == MacStage::JoiningCoreWlan,
    ensures
        mac_step(s, MacEventView::CoreWlanDone(Err((true, message)))).1 == MacActionView::Finish(
            Err(message),
        ),
        mac_step(s, MacEventView::CoreWlanDone(Err((true, message)))).0.stage
            == MacStage::Finished,
{
}

/// After `networksetup` reported success, the join fails only when the
/// interface reports another SSID; an unreadable SSID is no evidence.
pub proof fn law_only_a_mismatch_fails_the_fallback(s: MacJoinView, current: Option<Seq<char>>)
    requires
        s.stage == MacStage::Confirming,
    ensures
        (mac_step(s, MacEventView::CurrentSsid(current)).1 matches MacActionView::Finish(Err(_)))
            <==> (current is Some && current->0 != s.ssid),
{
}

} // verus!

verus! {

/// The Location Services authorization of the app, as CoreLocation reports
/// it.
#[derive(Clone, Copy, Debug, PartialEq, Eq, Structural)]
pub enum LocationAuthorization {
    NotDetermined,
    Restricted,
    Denied,
    AuthorizedAlways,
    AuthorizedWhenInUse,
    /// A status this app does not know.
    Unknown,
}

impl LocationAuthorization {
    /// The status for CoreLocation's `CLAuthorizationStatus` code: 0 not
    /// determined, 1 restricted, 2 denied, 3 always, 4 when in use.
    pub fn from_code(code: i32) -> (r: Self)
        ensures
            r == (if code == 0 {
                LocationAuthorization::NotDetermined
            } else if code == 1 {
                LocationAuthorization::Restricted
            } else if code == 2 {
                LocationAuthorization::Denied
            } else if code == 3 {
                LocationAuthorization::AuthorizedAlways
            } else if code == 4 {
                LocationAuthorization::AuthorizedWhenInUse
            } else {
                LocationAuthorization::Unknown
            }),
    {
        if code == 0 {
            LocationAuthorization::NotDetermined
        } else if code == 1 {
            LocationAuthorization::Restricted
        } else if code == 2 {
            LocationAuthorization::Denied
        } else if code == 3 {
            LocationAuthorization::AuthorizedAlways
        } else if code == 4 {
            LocationAuthorization::AuthorizedWhenInUse
        } else {
            LocationAuthorization::Unknown
        }
    }
}

/// Whether Location Services access has been refused. CoreWLAN needs it both to
/// scan and to read the current SSID, so when it is refused the CoreWLAN path
/// can only waste time.
pub fn location_denied(status: LocationAuthorization) -> (r: bool)
    ensures
        r == (status == LocationAuthorization::Denied || status
            == LocationAuthorization::Restricted),
{
    status == LocationAuthorization::Denied || status == LocationAuthorization::Restricted
}

} // verus!

verus! {

/// After `networksetup` succeeded, a current SSID that is the network, or
/// one that cannot be read, ends the join as a verified success through
/// `networksetup` on the interface it used.
pub proof fn law_a_confirmed_fallback_is_verified(s: MacJoinView, current: Option<Seq<char>>)
    requires
        s.stage == MacStage::Confirming,
        current == Some(s.ssid) || current is None,
    ensures
        mac_step(s, MacEventView::CurrentSsid(current)).1 == MacActionView::Finish(
            Ok((s.interface, "networksetup"@, true)),
        ),
{
}

/// A CoreWLAN success is the join's result: verified, through "corewlan",
/// on the interface CoreWLAN reported.
pub proof fn law_corewlan_success_is_final(s: MacJoinView, interface: Seq<char>)
    requires
        s.stage == MacStage::JoiningCoreWlan,
    ensures
        mac_step(s, MacEventView::CoreWlanDone(Ok(interface))).1 == MacActionView::Finish(
            Ok((interface, "corewlan"@, true)),
        ),
{
}

/// From the start, with Location access refused and no flag-like value:
/// the fallback runs (`s1`); after its success on `interface` (`s2`) the
/// interface reporting the network ends the join as a verified
/// `networksetup` success on that interface.
pub proof fn law_fallback_path_end_to_end(
    ssid: Seq<char>,
    password: Option<Seq<char>>,
    interface: Seq<char>,
    s1: MacJoinView,
    s2: MacJoinView,
)
    requires
        !looks_like_flag(ssid),
        password is Some ==> !looks_like_flag(password->0),
        s1 == mac_step(mac_start(ssid, password).0, MacEventView::LocationDenied(true)).0,
        s2 == mac_step(s1, MacEventView::NetworksetupDone(Ok(interface))).0,
    ensures
        (mac_step(mac_start(ssid, password).0, MacEventView::LocationDenied(true)).1
            == MacActionView::JoinNetworksetup { progress: "Trying the system fallback..."@ }),
        mac_step(s1, MacEventView::NetworksetupDone(Ok(interface))).1
            == MacActionView::ReadCurrentSsid,
        mac_step(s2, MacEventView::CurrentSsid(Some(ssid))).1 == MacActionView::Finish(
            Ok((interface, "networksetup"@, true)),
        ),
{
}

} // verus!

verus! {

/// With Location access granted the join tries CoreWLAN first; a failed
/// `networksetup` join ends with its own error; a different current SSID
/// ends the join naming both networks.
pub proof fn law_mac_join_outcomes(s: MacJoinView, error: Seq<char>, other: Seq<char>)
    ensures
        s.stage == MacStage::CheckingLocation ==> mac_step(s, MacEventView::LocationDenied(false)).1
            == MacActionView::JoinCoreWlan,
        s.stage == MacStage::JoiningNetworksetup ==> mac_step(
            s,
            MacEventView::NetworksetupDone(Err(error)),
        ).1 == MacActionView::Finish(Err(error)),
        s.stage == MacStage::Confirming && other != s.ssid ==> mac_step(
            s,
            MacEventView::CurrentSsid(Some(other)),
        ).1 == MacActionView::Finish(
            Err("Could not join '"@ + s.ssid + "'; still connected to '"@ + other + "'."@),
        ),
{
}

/// When CoreWLAN cannot join, an SSID that begins with `'-'` ends the join
/// with the flag refusal for the SSID, and otherwise a password that does
/// ends it with the refusal for the password.
pub proof fn law_flag_like_values_end_the_join(s: MacJoinView, error: Seq<char>)
    requires
        s.stage == MacStage::JoiningCoreWlan,
    ensures
        looks_like_flag(s.ssid) ==> mac_step(s, MacEventView::CoreWlanDone(Err((false, error)))).1
            == MacActionView::Finish(
            Err(
                "Could not join with CoreWLAN, and the fallback cannot use a "@ + "SSID"@
                    + " starting with '-'."@,
            ),
        ),
        !looks_like_flag(s.ssid) && s.password is Some && looks_like_flag(s.password->0)
            ==> mac_step(s, MacEventView::CoreWlanDone(Err((false, error)))).1
            == MacActionView::Finish(
            Err(
                "Could not join with CoreWLAN, and the fallback cannot use a "@ + "Password"@
                    + " starting with '-'."@,
            ),
        ),
{
}

} // verus!
