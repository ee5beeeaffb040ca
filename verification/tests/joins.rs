use wilens::corewlan::{
    join_via_corewlan, CoreWlanAction, CoreWlanError, CoreWlanEvent, InterfaceInfo,
};
use wilens::mac_join::{
    join_platform as mac_join_platform, location_denied, LocationAuthorization, MacAction,
    MacEvent,
};
use wilens::netsh::{
    add_profile_args, connect_args, delete_profile_args, join_platform as netsh_join_platform,
    join_via_netsh, show_interfaces_args, InterfaceStatus, NetshAction, NetshEvent, NetshJoin,
};
use wilens::process::{read_failure, spawn_failure, wait_decision, WaitDecision};

fn status(interface: &str, ssids: &[&str]) -> InterfaceStatus {
    InterfaceStatus {
        interface: interface.to_string(),
        ssids: ssids.iter().map(|s| s.to_string()).collect(),
    }
}

#[test]
fn netsh_refuses_quoted_names() {
    let (_, action) = join_via_netsh("a\"b", "wpa", Some("pw"), false);
    match action {
        NetshAction::Finish { delete_profile, result } => {
            assert!(!delete_profile);
            assert_eq!(
                result.err().unwrap(),
                "Network names containing '\"' are not supported on Windows."
            );
        }
        _ => panic!("expected a refusal"),
    }
}

#[test]
fn netsh_already_connected() {
    let (mut s, action) = join_via_netsh("Cafe", "wpa", Some("pw"), false);
    assert!(matches!(action, NetshAction::QueryStatus));
    match s.step(NetshEvent::Status(Some(status("Wi-Fi 3", &["Other", "Cafe"])))) {
        NetshAction::Finish { delete_profile, result: Ok(j) } => {
            assert!(!delete_profile);
            assert_eq!(j.interface, "Wi-Fi 3");
            assert!(j.verified);
        }
        _ => panic!("expected success"),
    }
}

#[test]
fn netsh_secured_network_needs_a_password() {
    let (mut s, _) = join_via_netsh("Cafe", "wep", None, false);
    match s.step(NetshEvent::Status(None)) {
        NetshAction::Finish { delete_profile, result } => {
            assert!(!delete_profile);
            assert_eq!(result.err().unwrap(), "Password is required for secured networks.");
        }
        _ => panic!("expected a refusal"),
    }
}

#[test]
fn netsh_full_join_with_timeout_removes_profile() {
    let (mut s, _) = join_via_netsh("Cafe", "wpa", Some("pw"), true);
    let a = s.step(NetshEvent::Status(Some(status("Wi-Fi", &["Other"]))));
    match a {
        NetshAction::AddProfile { progress, xml } => {
            assert_eq!(progress, "Saving the Wi-Fi profile for 'Cafe'...");
            assert!(xml.contains("<keyMaterial>pw</keyMaterial>"));
            assert!(xml.contains("<nonBroadcast>true</nonBroadcast>"));
        }
        _ => panic!("expected AddProfile"),
    }
    match s.step(NetshEvent::ProfileAdded(Ok(()))) {
        NetshAction::Connect { progress, args } => {
            assert_eq!(progress, "Connecting to 'Cafe'...");
            assert_eq!(args, vec!["wlan", "connect", "name=Cafe"]);
        }
        _ => panic!("expected Connect"),
    }
    assert!(matches!(
        s.step(NetshEvent::ConnectDone(Ok(String::new()))),
        NetshAction::Poll { pause_first: false }
    ));
    assert!(matches!(
        s.step(NetshEvent::Polled(Some(status("Wi-Fi", &[])), false)),
        NetshAction::Poll { pause_first: true }
    ));
    match s.step(NetshEvent::Polled(Some(status("Wi-Fi", &[])), true)) {
        NetshAction::Finish { delete_profile, result } => {
            assert!(delete_profile);
            assert_eq!(
                result.err().unwrap(),
                "Could not join 'Cafe'. Check that the password is correct."
            );
        }
        _ => panic!("expected a failure"),
    }
}

#[test]
fn netsh_open_network_paths() {
    let (mut s, _) = join_via_netsh("Guest", "nopass", Some("unused"), false);
    match s.step(NetshEvent::Status(None)) {
        NetshAction::AddProfile { xml, .. } => assert!(!xml.contains("sharedKey")),
        _ => panic!("expected AddProfile"),
    }
    s.step(NetshEvent::ProfileAdded(Ok(())));
    s.step(NetshEvent::ConnectDone(Ok(String::new())));
    match s.step(NetshEvent::Polled(Some(status("Wi-Fi", &[])), true)) {
        NetshAction::Finish { delete_profile, result } => {
            assert!(delete_profile);
            assert_eq!(result.err().unwrap(), "Could not join 'Guest'.");
        }
        _ => panic!("expected a failure"),
    }

    let (mut s, _) = join_via_netsh("Guest", "nopass", None, false);
    s.step(NetshEvent::Status(None));
    s.step(NetshEvent::ProfileAdded(Ok(())));
    s.step(NetshEvent::ConnectDone(Ok(String::new())));
    match s.step(NetshEvent::Polled(None, false)) {
        NetshAction::Finish { delete_profile, result: Ok(j) } => {
            assert!(!delete_profile);
            assert_eq!(j.interface, "Wi-Fi");
            assert!(!j.verified);
        }
        _ => panic!("expected an unverified success"),
    }
}

#[test]
fn netsh_failures_before_and_after_saving_the_profile() {
    let (mut s, _) = join_via_netsh("Cafe", "wpa", Some("pw"), false);
    s.step(NetshEvent::Status(None));
    match s.step(NetshEvent::ProfileAdded(Err("bad profile".to_string()))) {
        NetshAction::Finish { delete_profile, result } => {
            assert!(!delete_profile);
            assert_eq!(result.err().unwrap(), "bad profile");
        }
        _ => panic!("expected a failure"),
    }

    let (mut s, _) = join_via_netsh("Cafe", "wpa", Some("pw"), false);
    s.step(NetshEvent::Status(None));
    s.step(NetshEvent::ProfileAdded(Ok(())));
    match s.step(NetshEvent::ConnectDone(Err("no such network".to_string()))) {
        NetshAction::Finish { delete_profile, result } => {
            assert!(delete_profile);
            assert_eq!(result.err().unwrap(), "no such network");
        }
        _ => panic!("expected a failure"),
    }

    let (mut s, _) = join_via_netsh("Cafe", "wpa", Some("pw"), false);
    s.step(NetshEvent::Status(None));
    s.step(NetshEvent::ProfileAdded(Ok(())));
    s.step(NetshEvent::ConnectDone(Ok(String::new())));
    match s.step(NetshEvent::Polled(Some(status("Wi-Fi 2", &["Cafe"])), true)) {
        NetshAction::Finish { delete_profile, result: Ok(j) } => {
            assert!(!delete_profile);
            assert_eq!(j.interface, "Wi-Fi 2");
            assert!(j.verified);
        }
        _ => panic!("expected success"),
    }
}

#[test]
fn netsh_command_arguments() {
    assert_eq!(connect_args("My Net"), vec!["wlan", "connect", "name=My Net"]);
    assert_eq!(delete_profile_args("X"), vec!["wlan", "delete", "profile", "name=X"]);
    assert_eq!(show_interfaces_args(), vec!["wlan", "show", "interfaces"]);
    assert_eq!(
        add_profile_args("C:\\t\\p.xml"),
        vec!["wlan", "add", "profile", "filename=C:\\t\\p.xml", "user=current"]
    );
}

#[test]
fn windows_platform_join_reports_netsh() {
    let j = netsh_join_platform(Ok(NetshJoin { interface: "Wi-Fi".to_string(), verified: false }))
        .ok()
        .unwrap();
    assert_eq!(j.method, "netsh");
    assert!(!j.verified);
    assert_eq!(netsh_join_platform(Err("x".to_string())).err().unwrap().message, "x");
}

fn info(name: Option<&str>, current: Option<&str>) -> Option<InterfaceInfo> {
    Some(InterfaceInfo {
        name: name.map(|s| s.to_string()),
        current_ssid: current.map(|s| s.to_string()),
    })
}

#[test]
fn corewlan_without_interface_is_unavailable() {
    let (mut s, a) = join_via_corewlan("Cafe", None);
    assert!(matches!(a, CoreWlanAction::FindInterface));
    match s.step(CoreWlanEvent::Interface(None)) {
        CoreWlanAction::Finish(Err(CoreWlanError::Unavailable(m))) => {
            assert_eq!(m, "No Wi-Fi interface available.")
        }
        _ => panic!("expected unavailable"),
    }
}

#[test]
fn corewlan_already_connected_names_the_interface() {
    let (mut s, _) = join_via_corewlan("Cafe", None);
    match s.step(CoreWlanEvent::Interface(info(None, Some("Cafe")))) {
        CoreWlanAction::Finish(Ok(name)) => assert_eq!(name, "Wi-Fi"),
        _ => panic!("expected success"),
    }
}

#[test]
fn corewlan_scans_twice_then_gives_the_last_error() {
    let (mut s, _) = join_via_corewlan("Cafe", None);
    match s.step(CoreWlanEvent::Interface(info(Some("en0"), None))) {
        CoreWlanAction::Scan { announce } => {
            assert_eq!(announce, Some("Looking for 'Cafe'...".to_string()))
        }
        _ => panic!("expected a scan"),
    }
    match s.step(CoreWlanEvent::Scanned(Err("busy".to_string()))) {
        CoreWlanAction::Scan { announce } => assert_eq!(announce, None),
        _ => panic!("expected a second scan"),
    }
    match s.step(CoreWlanEvent::Scanned(Ok(false))) {
        CoreWlanAction::Finish(Err(CoreWlanError::Unavailable(m))) => assert_eq!(m, "busy"),
        _ => panic!("expected unavailable"),
    }

    let (mut s, _) = join_via_corewlan("Cafe", None);
    s.step(CoreWlanEvent::Interface(info(Some("en0"), None)));
    s.step(CoreWlanEvent::Scanned(Ok(false)));
    match s.step(CoreWlanEvent::Scanned(Ok(false))) {
        CoreWlanAction::Finish(Err(CoreWlanError::Unavailable(m))) => {
            assert_eq!(m, "Network 'Cafe' was not found in range.")
        }
        _ => panic!("expected unavailable"),
    }
}

#[test]
fn corewlan_second_associate_error_is_a_rejection() {
    let (mut s, _) = join_via_corewlan("Cafe", Some("pw"));
    s.step(CoreWlanEvent::Interface(info(Some("en0"), None)));
    match s.step(CoreWlanEvent::Scanned(Ok(true))) {
        CoreWlanAction::Associate { progress } => assert_eq!(progress, "Connecting to 'Cafe'..."),
        _ => panic!("expected an associate"),
    }
    match s.step(CoreWlanEvent::Associated(Err("busy".to_string()))) {
        CoreWlanAction::Associate { progress } => {
            assert_eq!(progress, "Connecting to 'Cafe' (attempt 2 of 3)...")
        }
        _ => panic!("expected a retry"),
    }
    match s.step(CoreWlanEvent::Associated(Err("wrong key".to_string()))) {
        CoreWlanAction::Finish(Err(CoreWlanError::Rejected(m))) => assert_eq!(
            m,
            "Could not join 'Cafe': wrong key. Check that the password is correct."
        ),
        _ => panic!("expected a rejection"),
    }
}

#[test]
fn corewlan_retries_until_the_link_comes_up_or_three_attempts() {
    let (mut s, _) = join_via_corewlan("Cafe", None);
    s.step(CoreWlanEvent::Interface(info(Some("en0"), Some("Other"))));
    s.step(CoreWlanEvent::Scanned(Ok(true)));
    for attempt in 1..=3 {
        assert!(matches!(
            s.step(CoreWlanEvent::Associated(Ok(()))),
            CoreWlanAction::Poll { pause_first: false }
        ));
        assert!(matches!(
            s.step(CoreWlanEvent::Polled(Some("Other".to_string()), false)),
            CoreWlanAction::Poll { pause_first: true }
        ));
        let a = s.step(CoreWlanEvent::Polled(None, true));
        if attempt < 3 {
            match a {
                CoreWlanAction::Associate { progress } => assert_eq!(
                    progress,
                    format!("Connecting to 'Cafe' (attempt {} of 3)...", attempt + 1)
                ),
                _ => panic!("expected another attempt"),
            }
        } else {
            match a {
                CoreWlanAction::Finish(Err(CoreWlanError::Unavailable(m))) => assert_eq!(
                    m,
                    "Associated with 'Cafe' but the connection did not come up."
                ),
                _ => panic!("expected unavailable"),
            }
        }
    }

    let (mut s, _) = join_via_corewlan("Cafe", None);
    s.step(CoreWlanEvent::Interface(info(Some("en0"), None)));
    s.step(CoreWlanEvent::Scanned(Ok(true)));
    s.step(CoreWlanEvent::Associated(Ok(())));
    match s.step(CoreWlanEvent::Polled(Some("Cafe".to_string()), true)) {
        CoreWlanAction::Finish(Ok(name)) => assert_eq!(name, "en0"),
        _ => panic!("expected success"),
    }
}

#[test]
fn mac_join_prefers_corewlan() {
    let (mut m, a) = mac_join_platform("Cafe", Some("pw"));
    assert!(matches!(a, MacAction::CheckLocation));
    assert!(matches!(m.step(MacEvent::LocationDenied(false)), MacAction::JoinCoreWlan));
    match m.step(MacEvent::CoreWlanDone(Ok("en0".to_string()))) {
        MacAction::Finish(Ok(j)) => {
            assert_eq!(j.interface, "en0");
            assert_eq!(j.method, "corewlan");
            assert!(j.verified);
        }
        _ => panic!("expected success"),
    }
}

#[test]
fn mac_join_rejection_does_not_fall_back() {
    let (mut m, _) = mac_join_platform("Cafe", Some("pw"));
    m.step(MacEvent::LocationDenied(false));
    match m.step(MacEvent::CoreWlanDone(Err(CoreWlanError::Rejected("nope".to_string())))) {
        MacAction::Finish(Err(e)) => assert_eq!(e.message, "nope"),
        _ => panic!("expected the rejection"),
    }
}

#[test]
fn mac_join_fallback_and_confirmation() {
    let (mut m, _) = mac_join_platform("Cafe", None);
    match m.step(MacEvent::LocationDenied(true)) {
        MacAction::JoinNetworksetup { progress } => {
            assert_eq!(progress, "Trying the system fallback...")
        }
        _ => panic!("expected the fallback"),
    }
    assert!(matches!(
        m.step(MacEvent::NetworksetupDone(Ok("en0".to_string()))),
        MacAction::ReadCurrentSsid
    ));
    match m.step(MacEvent::CurrentSsid(Some("Elsewhere".to_string()))) {
        MacAction::Finish(Err(e)) => assert_eq!(
            e.message,
            "Could not join 'Cafe'; still connected to 'Elsewhere'."
        ),
        _ => panic!("expected a mismatch"),
    }

    let (mut m, _) = mac_join_platform("Cafe", None);
    m.step(MacEvent::LocationDenied(false));
    m.step(MacEvent::CoreWlanDone(Err(CoreWlanError::Unavailable("x".to_string()))));
    m.step(MacEvent::NetworksetupDone(Ok("en1".to_string())));
    match m.step(MacEvent::CurrentSsid(None)) {
        MacAction::Finish(Ok(j)) => {
            assert_eq!(j.interface, "en1");
            assert_eq!(j.method, "networksetup");
        }
        _ => panic!("expected success"),
    }

    let (mut m, _) = mac_join_platform("Cafe", None);
    m.step(MacEvent::LocationDenied(true));
    match m.step(MacEvent::NetworksetupDone(Err("Failed to join".to_string()))) {
        MacAction::Finish(Err(e)) => assert_eq!(e.message, "Failed to join"),
        _ => panic!("expected the failure"),
    }
}

#[test]
fn mac_fallback_refuses_flag_like_values() {
    let (mut m, _) = mac_join_platform("-setairportpower", None);
    match m.step(MacEvent::LocationDenied(true)) {
        MacAction::Finish(Err(e)) => assert_eq!(
            e.message,
            "Could not join with CoreWLAN, and the fallback cannot use a SSID starting with '-'."
        ),
        _ => panic!("expected a refusal"),
    }
    let (mut m, _) = mac_join_platform("Cafe", Some("-pw"));
    m.step(MacEvent::LocationDenied(false));
    match m.step(MacEvent::CoreWlanDone(Err(CoreWlanError::Unavailable("x".to_string())))) {
        MacAction::Finish(Err(e)) => assert_eq!(
            e.message,
            "Could not join with CoreWLAN, and the fallback cannot use a Password starting with '-'."
        ),
        _ => panic!("expected a refusal"),
    }
}

#[test]
fn location_denial() {
    assert!(location_denied(LocationAuthorization::Denied));
    assert!(location_denied(LocationAuthorization::Restricted));
    assert!(!location_denied(LocationAuthorization::NotDetermined));
    assert!(!location_denied(LocationAuthorization::AuthorizedWhenInUse));
    assert!(!location_denied(LocationAuthorization::AuthorizedAlways));
}

#[test]
fn process_wait_decisions() {
    assert!(matches!(wait_decision("netsh", 20, Ok(true), true), WaitDecision::Collect));
    assert!(matches!(wait_decision("netsh", 20, Ok(false), false), WaitDecision::Pause));
    match wait_decision("netsh", 120, Ok(false), true) {
        WaitDecision::TimedOut(m) => assert_eq!(m, "netsh did not finish within 120 seconds."),
        _ => panic!("expected a timeout"),
    }
    match wait_decision("networksetup", 30, Err("bad fd".to_string()), false) {
        WaitDecision::Failed(m) => assert_eq!(m, "Failed to wait for networksetup: bad fd"),
        _ => panic!("expected a failure"),
    }
    assert_eq!(spawn_failure("netsh", "not found"), "Failed to run netsh: not found");
    assert_eq!(read_failure("netsh", "eof"), "Failed to read netsh output: eof");
}

#[test]
fn corewlan_single_associate_error_after_a_link_that_did_not_come_up_is_retried() {
    let (mut s, _) = join_via_corewlan("Cafe", Some("pw"));
    s.step(CoreWlanEvent::Interface(info(Some("en0"), None)));
    s.step(CoreWlanEvent::Scanned(Ok(true)));
    s.step(CoreWlanEvent::Associated(Ok(())));
    match s.step(CoreWlanEvent::Polled(None, true)) {
        CoreWlanAction::Associate { progress } => {
            assert_eq!(progress, "Connecting to 'Cafe' (attempt 2 of 3)...")
        }
        _ => panic!("expected attempt 2"),
    }
    match s.step(CoreWlanEvent::Associated(Err("busy".to_string()))) {
        CoreWlanAction::Associate { progress } => {
            assert_eq!(progress, "Connecting to 'Cafe' (attempt 3 of 3)...")
        }
        _ => panic!("a first error must be retried"),
    }
    match s.step(CoreWlanEvent::Associated(Err("wrong key".to_string()))) {
        CoreWlanAction::Finish(Err(CoreWlanError::Rejected(m))) => assert_eq!(
            m,
            "Could not join 'Cafe': wrong key. Check that the password is correct."
        ),
        _ => panic!("expected a rejection"),
    }
}

#[test]
fn corewlan_first_associate_error_on_the_last_attempt_is_not_a_rejection() {
    let (mut s, _) = join_via_corewlan("Cafe", None);
    s.step(CoreWlanEvent::Interface(info(Some("en0"), None)));
    s.step(CoreWlanEvent::Scanned(Ok(true)));
    for _ in 0..2 {
        s.step(CoreWlanEvent::Associated(Ok(())));
        s.step(CoreWlanEvent::Polled(None, true));
    }
    match s.step(CoreWlanEvent::Associated(Err("busy".to_string()))) {
        CoreWlanAction::Finish(Err(CoreWlanError::Unavailable(m))) => assert_eq!(
            m,
            "Associated with 'Cafe' but the connection did not come up."
        ),
        _ => panic!("expected unavailable"),
    }
}
