use wilens::netsh::{interface_status, netsh_output, parse_interfaces};
use wilens::profile::{profile_xml, xml_escape, ProfileSecurity};

#[test]
fn wpa_profile_has_passphrase_and_hex_ssid() {
    let xml = profile_xml(
        "Cafe",
        &ProfileSecurity::from_normalized("wpa"),
        Some("pw12345678"),
        false,
    );
    assert!(xml.contains("<hex>43616665</hex>"));
    assert!(xml.contains("<authentication>WPA2PSK</authentication>"));
    assert!(xml.contains("<keyType>passPhrase</keyType>"));
    assert!(xml.contains("<keyMaterial>pw12345678</keyMaterial>"));
    assert!(xml.contains("<nonBroadcast>false</nonBroadcast>"));
}

#[test]
fn open_profile_has_no_shared_key() {
    let xml = profile_xml(
        "Guest",
        &ProfileSecurity::from_normalized("nopass"),
        None,
        true,
    );
    assert!(xml.contains("<encryption>none</encryption>"));
    assert!(!xml.contains("sharedKey"));
    assert!(xml.contains("<nonBroadcast>true</nonBroadcast>"));
}

#[test]
fn wep_profile_uses_network_key() {
    let xml = profile_xml(
        "Old",
        &ProfileSecurity::from_normalized("wep"),
        Some("abcde"),
        false,
    );
    assert!(xml.contains("<encryption>WEP</encryption>"));
    assert!(xml.contains("<keyType>networkKey</keyType>"));
}

#[test]
fn profile_escapes_xml_in_ssid_and_key() {
    let xml = profile_xml(
        "A&B <Home>",
        &ProfileSecurity::from_normalized("wpa"),
        Some("p\"w'<&>"),
        false,
    );
    assert!(xml.contains("<name>A&amp;B &lt;Home&gt;</name>"));
    assert!(xml.contains("<keyMaterial>p&quot;w&apos;&lt;&amp;&gt;</keyMaterial>"));
}

#[test]
fn xml_escape_leaves_plain_text_alone() {
    assert_eq!(xml_escape("My Wifi 5G"), "My Wifi 5G");
}

#[test]
fn parses_connected_interface() {
    let status = parse_interfaces(
        "There is 1 interface on the system:\r\n\r\n    Name                   : Wi-Fi\r\n    Physical address       : aa:bb:cc:dd:ee:ff\r\n    State                  : connected\r\n    SSID                   : Cafe: Upstairs\r\n    BSSID                  : 11:22:33:44:55:66\r\n",
    );
    assert_eq!(status.interface, "Wi-Fi");
    assert_eq!(status.ssids, vec!["Cafe: Upstairs".to_string()]);
}

#[test]
fn parses_disconnected_interface() {
    let status = parse_interfaces(
        "There is 1 interface on the system:\r\n\r\n    Name                   : Wi-Fi 2\r\n    State                  : disconnected\r\n",
    );
    assert_eq!(status.interface, "Wi-Fi 2");
    assert!(status.ssids.is_empty());
}

const FULL_PROFILE: &str = "<?xml version=\"1.0\"?>
<WLANProfile xmlns=\"http://www.microsoft.com/networking/WLAN/profile/v1\">
    <name>Caf\u{e9}</name>
    <SSIDConfig>
        <SSID>
            <hex>436166C3A9</hex>
            <name>Caf\u{e9}</name>
        </SSID>
        <nonBroadcast>false</nonBroadcast>
    </SSIDConfig>
    <connectionType>ESS</connectionType>
    <connectionMode>auto</connectionMode>
    <MSM>
        <security>
            <authEncryption>
                <authentication>WPA2PSK</authentication>
                <encryption>AES</encryption>
                <useOneX>false</useOneX>
            </authEncryption>
            <sharedKey>
                <keyType>passPhrase</keyType>
                <protected>false</protected>
                <keyMaterial>secret</keyMaterial>
            </sharedKey>
        </security>
    </MSM>
</WLANProfile>
";

#[test]
fn whole_profile_document_with_non_ascii_name() {
    let xml = profile_xml(
        "Caf\u{e9}",
        &ProfileSecurity::from_normalized("wpa"),
        Some("secret"),
        false,
    );
    assert_eq!(xml, FULL_PROFILE);
}

#[test]
fn secured_profile_without_key_has_no_shared_key() {
    let sec = ProfileSecurity::from_normalized("wep");
    assert!(sec.needs_key());
    let xml = profile_xml("Old", &sec, None, false);
    assert!(!xml.contains("sharedKey"));
    assert!(xml.contains("<authentication>open</authentication>"));
    assert!(!ProfileSecurity::from_normalized("anything").needs_key());
}

#[test]
fn escaped_text_has_no_delimiters() {
    let e = xml_escape("<a href=\"x\">'&'</a>");
    assert_eq!(e, "&lt;a href=&quot;x&quot;&gt;&apos;&amp;&apos;&lt;/a&gt;");
    assert!(!e.contains('<') && !e.contains('>') && !e.contains('"') && !e.contains('\''));
}

#[test]
fn first_name_wins_and_empty_ssids_are_skipped() {
    let status = parse_interfaces(
        "Name : First\nSSID :   \nName : Second\nno colon here\n SSID : Home:5G \r\nSSID:Office",
    );
    assert_eq!(status.interface, "First");
    assert_eq!(status.ssids, vec!["Home:5G".to_string(), "Office".to_string()]);
    assert_eq!(parse_interfaces("").interface, "Wi-Fi");
}

#[test]
fn status_is_hidden_when_location_is_mentioned_or_netsh_fails() {
    assert!(interface_status(&Err("boom".to_string())).is_none());
    assert!(interface_status(&Ok(
        "Network shell commands need LOCATION permission to access WLAN information.\r\nms-settings:privacy-location\r\n".to_string()
    ))
    .is_none());
    // A network whose name mentions location is reported like any other.
    let named = interface_status(&Ok(
        "    Name : Wi-Fi\r\n    SSID : Location Cafe\r\n    Profile : My location\r\n".to_string(),
    ))
    .unwrap();
    assert_eq!(named.ssids, vec!["Location Cafe".to_string()]);
    let st = interface_status(&Ok("    Name : Wi-Fi\n    SSID : Cafe\n".to_string())).unwrap();
    assert_eq!(st.interface, "Wi-Fi");
    assert_eq!(st.ssids, vec!["Cafe".to_string()]);
}

#[test]
fn netsh_output_prefers_stdout_then_stderr() {
    assert_eq!(netsh_output(true, "  done \n", "ignored").unwrap(), "done");
    assert_eq!(netsh_output(false, " out ", "err").unwrap_err(), "out");
    assert_eq!(netsh_output(false, " \n", " err ").unwrap_err(), "err");
    assert_eq!(
        netsh_output(false, "", "").unwrap_err(),
        "netsh failed without an error message."
    );
}

#[test]
fn different_texts_escape_differently() {
    assert_ne!(xml_escape("&"), xml_escape("&amp;"));
    assert_eq!(xml_escape("&amp;"), "&amp;amp;");
    assert_ne!(xml_escape("<"), xml_escape("&lt;"));
}

#[test]
fn profiles_keep_their_markup_whatever_the_ssid_and_key() {
    let count = |s: &str, c: char| s.chars().filter(|&x| x == c).count();
    let sec = ProfileSecurity::from_normalized("wpa");
    let a = profile_xml("Plain", &sec, Some("key"), false);
    let b = profile_xml("<x>&<y>", &sec, Some("</keyMaterial><z>"), false);
    assert_eq!(count(&a, '<'), count(&b, '<'));
    assert_eq!(count(&a, '>'), count(&b, '>'));
}
