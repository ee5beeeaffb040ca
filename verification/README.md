# wilens

The logic of WiLens, a desktop app that joins the Wi-Fi network of a scanned
QR code, as a Verus-verified library.

- `src/request.rs` — checking the join request (SSID, security type,
  password) and wording the answer.
- `src/mac_join.rs`, `src/corewlan.rs` — the macOS join: CoreWLAN first, the
  `networksetup` fallback when CoreWLAN cannot do it; each a state machine
  whose steps are proved against a spec function.
- `src/networksetup.rs` — `networksetup` arguments, its hardware-port
  listing and what its output means.
- `src/netsh.rs`, `src/profile.rs` — the Windows join through `netsh wlan`:
  the WLAN profile document, the parser of `netsh wlan show interfaces`, and
  the join as a state machine.
- `src/process.rs` — running a tool under a time limit.
- `src/text.rs` — `str` operations (trim, lines, ASCII lower-case, search)
  over `Seq<char>`.

`app/` is the Tauri shell: the command handler, the CoreWLAN, CoreLocation
and process calls, and the loops that feed their results to the state
machines.
