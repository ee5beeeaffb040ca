use wilens::request::{
    ensure_not_flag, finish_join, ErrorResponse, join_platform_unsupported, join_response, normalize_security,
    sanitize_optional, sanitize_required, validate_join_request, JoinWifiRequest, Joined,
};

#[test]
fn sanitize_required_accepts_a_normal_value() {
    assert_eq!(sanitize_required("MyWifi", "SSID").unwrap(), "MyWifi");
}

#[test]
fn sanitize_required_rejects_empty_and_whitespace() {
    assert!(sanitize_required("", "SSID").is_err());
    assert!(sanitize_required("   ", "SSID").is_err());
}

#[test]
fn sanitize_required_rejects_control_characters() {
    assert!(sanitize_required("My\nWifi", "SSID").is_err());
    assert!(sanitize_required("My\0Wifi", "SSID").is_err());
    assert!(sanitize_required("My\rWifi", "SSID").is_err());
}

#[test]
fn sanitize_required_accepts_leading_dash() {
    // Valid for CoreWLAN; only the networksetup fallback refuses it.
    assert_eq!(sanitize_required("-pass", "Password").unwrap(), "-pass");
}

#[test]
fn ensure_not_flag_rejects_leading_dash() {
    assert!(ensure_not_flag("-setairportpower", "SSID").is_err());
    assert!(ensure_not_flag("MyWifi", "SSID").is_ok());
}

#[test]
fn sanitize_optional_maps_present_and_absent_values() {
    assert_eq!(
        sanitize_optional(Some("pw"), "Password").unwrap(),
        Some("pw".to_string())
    );
    assert_eq!(sanitize_optional(Some(""), "Password").unwrap(), None);
    assert_eq!(sanitize_optional(None, "Password").unwrap(), None);
}

#[test]
fn normalize_security_accepts_supported_types() {
    assert_eq!(normalize_security("WPA").unwrap(), "wpa");
    assert_eq!(normalize_security("wep").unwrap(), "wep");
    assert_eq!(normalize_security(" nopass ").unwrap(), "nopass");
}

#[test]
fn normalize_security_rejects_unsupported_types() {
    assert!(normalize_security("wpa3-enterprise").is_err());
    assert!(normalize_security("").is_err());
}

#[test]
fn required_value_error_messages_name_the_field() {
    assert_eq!(sanitize_required(" \t ", "SSID").unwrap_err().message, "SSID is required.");
    assert_eq!(
        sanitize_required("a\rb", "Password").unwrap_err().message,
        "Password contains invalid control characters."
    );
    // Unicode whitespace counts as blank, as `str::trim` says.
    assert!(sanitize_required("\u{3000}\u{a0}", "SSID").is_err());
    // Surrounding blanks are kept in an accepted value.
    assert_eq!(sanitize_required(" Cafe ", "SSID").unwrap(), " Cafe ");
}

#[test]
fn optional_value_is_held_to_the_required_rules() {
    assert_eq!(
        sanitize_optional(Some("  "), "Password").unwrap_err().message,
        "Password is required."
    );
}

#[test]
fn flag_error_message() {
    assert_eq!(
        ensure_not_flag("-x", "Password").unwrap_err().message,
        "Could not join with CoreWLAN, and the fallback cannot use a Password starting with '-'."
    );
    assert!(ensure_not_flag("", "SSID").is_ok());
    assert!(ensure_not_flag("a-b", "SSID").is_ok());
}

#[test]
fn normalize_security_is_idempotent_and_quotes_the_refused_value() {
    let once = normalize_security("\tNoPass\n").unwrap();
    assert_eq!(once, "nopass");
    assert_eq!(normalize_security(&once).unwrap(), once);
    assert_eq!(
        normalize_security(" WPA3 ").unwrap_err().message,
        "Unsupported security type ' WPA3 '."
    );
}

fn request(ssid: &str, security: &str, password: Option<&str>) -> JoinWifiRequest {
    JoinWifiRequest {
        ssid: ssid.to_string(),
        password: password.map(|p| p.to_string()),
        security: security.to_string(),
        hidden: true,
    }
}

#[test]
fn validation_checks_ssid_then_security_then_password() {
    let v = validate_join_request(&request("Cafe", " WEP", Some("k"))).unwrap();
    assert_eq!(v.ssid, "Cafe");
    assert_eq!(v.security, "wep");
    assert_eq!(v.password, Some("k".to_string()));
    assert!(v.hidden);

    let empty = validate_join_request(&request("Cafe", "nopass", Some(""))).unwrap();
    assert_eq!(empty.password, None);

    assert_eq!(
        validate_join_request(&request("", "bogus", Some("\n"))).unwrap_err().message,
        "SSID is required."
    );
    assert_eq!(
        validate_join_request(&request("Cafe", "bogus", Some("\n"))).unwrap_err().message,
        "Unsupported security type 'bogus'."
    );
    assert_eq!(
        validate_join_request(&request("Cafe", "wpa", Some("\n"))).unwrap_err().message,
        "Password is required."
    );
    assert_eq!(
        validate_join_request(&request("Cafe", "wpa", Some("a\nb"))).unwrap_err().message,
        "Password contains invalid control characters."
    );
}

#[test]
fn join_response_wording() {
    let ok = join_response(
        "Cafe",
        Joined { interface: "en0".to_string(), method: "corewlan", verified: true },
    );
    assert_eq!(ok.interface, "en0");
    assert_eq!(ok.method, "corewlan");
    assert_eq!(ok.message, "Joined 'Cafe' successfully.");

    let unsure = join_response(
        "Cafe",
        Joined { interface: "Wi-Fi".to_string(), method: "netsh", verified: false },
    );
    assert_eq!(
        unsure.message,
        "Asked the system to join 'Cafe', but it could not confirm the connection. Check the Wi-Fi icon to be sure."
    );
}

#[test]
fn other_platforms_are_refused() {
    assert_eq!(
        join_platform_unsupported().err().unwrap().message,
        "Joining Wi-Fi is not supported on this platform yet."
    );
}

#[test]
fn every_control_character_is_refused() {
    assert!(sanitize_required("My\tWifi", "SSID").is_err());
    assert!(sanitize_required("My\u{1b}Wifi", "SSID").is_err());
    assert!(sanitize_required("My\u{7f}Wifi", "SSID").is_err());
    assert_eq!(
        sanitize_required("My\u{85}Wifi", "SSID").unwrap_err().message,
        "SSID contains invalid control characters."
    );
    // Just past the control ranges.
    assert!(sanitize_required("My\u{a0}Wifi", "SSID").is_ok());
    assert!(sanitize_required("Caf\u{e9} ~", "SSID").is_ok());
}

#[test]
fn finishing_a_join_answers_and_logs_without_the_password() {
    let (answer, line) = finish_join(
        "Cafe",
        Ok(Joined { interface: "en0".to_string(), method: "corewlan", verified: true }),
    );
    let answer = answer.unwrap();
    assert_eq!(answer.message, "Joined 'Cafe' successfully.");
    assert_eq!(answer.method, "corewlan");
    assert_eq!(line.unwrap(), "Joined 'Cafe' via corewlan on en0 (verified: true)");

    let (answer, line) = finish_join("Cafe", Err(ErrorResponse { message: "nope".to_string() }));
    assert_eq!(answer.err().unwrap().message, "nope");
    assert!(line.is_none());

    let a = validate_join_request(&request("Cafe", "wpa", Some("secret-1"))).unwrap();
    let b = validate_join_request(&request("Cafe", "wpa", Some("secret-2"))).unwrap();
    assert_eq!((a.ssid.clone(), a.security.clone()), (b.ssid.clone(), b.security.clone()));
}
