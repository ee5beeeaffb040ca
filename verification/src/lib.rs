//! Joining a Wi-Fi network from a scanned QR code: the checks on the request,
//! the WLAN profile and command-line texts, the parsers of system tool
//! output, and the decisions of each platform's join, as state machines that
//! the application drives.
pub mod corewlan;
pub mod mac_join;
pub mod netsh;
pub mod networksetup;
pub mod process;
pub mod profile;
pub mod request;
pub mod text;
