//! The legacy macOS join through `/usr/sbin/networksetup`: its arguments and
//! what its output means. The application runs the command.
use vstd::prelude::*;

use crate::netsh::strings_view;
use crate::text::{
    chars_of, contains, contains_vec, eq_str, lines, lower, lowercase, slice_vec, split_lines,
    starts_with, starts_with_vec, string_of, to_string, trim, trim_range, views,
};

verus! {

/// Upper bound on a `networksetup` invocation, in seconds, so a wedged
/// process cannot leave the join hanging forever.
pub const NETWORKSETUP_TIMEOUT_SECS: u64 = 30;

/// The path of the tool.
pub fn networksetup_path() -> (r: &'static str)
    ensures
        r@ == "/usr/sbin/networksetup"@,
{
    "/usr/sbin/networksetup"
}

/// The flag that lists the hardware ports.
pub fn list_ports_flag() -> (r: &'static str)
    ensures
        r@ == "-listallhardwareports"@,
{
    "-listallhardwareports"
}

/// The error when the hardware ports could not be listed.
pub fn inspect_failure(error: &str) -> (r: String)
    ensures
        r@ == "Failed to inspect hardware ports: "@ + error@,
{
    let mut m = to_string("Failed to inspect hardware ports: ");
    crate::text::push_str(&mut m, error);
    m
}

#[derive(Debug)]
pub struct HardwarePort {
    pub port: String,
    pub device: String,
}

impl View for HardwarePort {
    type V = (Seq<char>, Seq<char>);

    open spec fn view(&self) -> Self::V {
        (self.port@, self.device@)
    }
}

/// The views of a sequence of hardware ports.
pub open spec fn ports_view(v: Seq<HardwarePort>) -> Seq<(Seq<char>, Seq<char>)> {
    v.map_values(|p: HardwarePort| p@)
}

/// The ports read so far and the port name and device of the block still
/// open, after one more line: a blank line closes the block (keeping it when
/// both a name and a device were read), "Hardware Port: " and "Device: "
/// lines give the name and the device.
pub open spec fn port_line(
    acc: (Seq<(Seq<char>, Seq<char>)>, Option<Seq<char>>, Option<Seq<char>>),
    line: Seq<char>,
) -> (Seq<(Seq<char>, Seq<char>)>, Option<Seq<char>>, Option<Seq<char>>) {
    let t = trim(line);
    if t.len() == 0 {
        (
            match (acc.1, acc.2) {
                (Some(p), Some(d)) => acc.0.push((p, d)),
                _ => acc.0,
            },
            None,
            None,
        )
    } else if starts_with(t, "Hardware Port: "@) {
        (acc.0, Some(trim(t.skip("Hardware Port: "@.len() as int))), acc.2)
    } else if starts_with(t, "Device: "@) {
        (acc.0, acc.1, Some(trim(t.skip("Device: "@.len() as int))))
    } else {
        acc
    }
}

/// The state after reading the lines in order.
pub open spec fn port_lines(ls: Seq<Seq<char>>) -> (
    Seq<(Seq<char>, Seq<char>)>,
    Option<Seq<char>>,
    Option<Seq<char>>,
)
    decreases ls.len(),
{
    if ls.len() == 0 {
        (seq![], None, None)
    } else {
        port_line(port_lines(ls.drop_last()), ls.last())
    }
}

/// The (port, device) pairs that `networksetup -listallhardwareports`
/// lists, the last block closing at the end of the output.
pub open spec fn parsed_ports(output: Seq<char>) -> Seq<(Seq<char>, Seq<char>)> {
    let (ports, p, d) = port_lines(lines(output));
    match (p, d) {
        (Some(p), Some(d)) => ports.push((p, d)),
        _ => ports,
    }
}

/// Reads the text after `prefix` in `t`, trimmed, when `t` begins with it.
fn value_after(t: &Vec<char>, prefix: &str) -> (r: Option<String>)
    ensures
        match r {
            Some(v) => starts_with(t@, prefix@) && v@ == trim(t@.skip(prefix@.len() as int)),
            None => !starts_with(t@, prefix@),
        },
{
    let p = chars_of(prefix);
    if starts_with_vec(t, &p) {
        let (a, b) = trim_range(t, p.len(), t.len());
        assert(t@.subrange(p@.len() as int, t@.len() as int) =~= t@.skip(p@.len() as int));
        Some(string_of(t, a, b))
    } else {
        None
    }
}

pub fn parse_hardware_ports(output: &str) -> (r: Vec<HardwarePort>)
    ensures
        ports_view(r@) == parsed_ports(output@),
{
    let v = chars_of(output);
    let ls = split_lines(&v);
    let mut ports: Vec<HardwarePort> = Vec::new();
    let mut current_port: Option<String> = None;
    let mut current_device: Option<String> = None;
    let mut k: usize = 0;
    while k < ls.len()
        invariant
            0 <= k <= ls@.len(),
            views(ls@) == lines(v@),
            port_lines(views(ls@).take(k as int)) == (
                ports_view(ports@),
                match current_port {
                    Some(n) => Some(n@),
                    None => None,
                },
                match current_device {
                    Some(n) => Some(n@),
                    None => None,
                },
            ),
        decreases ls@.len() - k,
    {
        let line = &ls[k];
        assert(views(ls@).take(k + 1).drop_last() =~= views(ls@).take(k as int));
        assert(views(ls@).take(k + 1).last() == line@);
        let (a, b) = trim_range(line, 0, line.len());
        assert(line@.subrange(0, line@.len() as int) =~= line@);
        let trimmed = slice_vec(line, a, b);
        if a == b {
            let port = current_port.take();
            let device = current_device.take();
            match (port, device) {
                (Some(port), Some(device)) => {
                    ports.push(HardwarePort { port, device });
                    assert(ports_view(ports@) =~= port_lines(views(ls@).take(k + 1)).0);
                },
                _ => {},
            }
        } else {
            match value_after(&trimmed, "Hardware Port: ") {
                Some(port) => {
                    current_port = Some(port);
                },
                None => {
                    match value_after(&trimmed, "Device: ") {
                        Some(device) => {
                            current_device = Some(device);
                        },
                        None => {},
                    }
                },
            }
        }
        k += 1;
    }
    assert(views(ls@).take(ls@.len() as int) =~= views(ls@));
    match (current_port, current_device) {
        (Some(port), Some(device)) => {
            ports.push(HardwarePort { port, device });
            assert(ports_view(ports@) =~= parsed_ports(output@));
        },
        _ => {},
    }
    ports
}

/// The output talks of a failure: it holds "could not", "failed" or
/// "error", in any ASCII case.
pub open spec fn failure_text(output: Seq<char>) -> bool {
    let l = lower(output);
    contains(l, "could not"@) || contains(l, "failed"@) || contains(l, "error"@)
}

fn reports_failure_chars(output: &Vec<char>) -> (r: bool)
    ensures
        r == failure_text(output@),
{
    let l = lowercase(output);
    contains_vec(&l, &chars_of("could not")) || contains_vec(&l, &chars_of("failed"))
        || contains_vec(&l, &chars_of("error"))
}

/// Whether `networksetup` output reports a failure, which it does in text
/// even when it exits with status 0.
pub fn reports_failure(output: &str) -> (r: bool)
    ensures
        r == failure_text(output@),
{
    reports_failure_chars(&chars_of(output))
}

/// A port that is the Wi-Fi one: its name holds "Wi-Fi" or "AirPort".
pub open spec fn is_wifi_port(port: Seq<char>) -> bool {
    contains(port, "Wi-Fi"@) || contains(port, "AirPort"@)
}

/// The device of the first Wi-Fi port.
pub open spec fn first_wifi_device(ports: Seq<(Seq<char>, Seq<char>)>) -> Option<Seq<char>>
    decreases ports.len(),
{
    if ports.len() == 0 {
        None
    } else if is_wifi_port(ports[0].0) {
        Some(ports[0].1)
    } else {
        first_wifi_device(ports.drop_first())
    }
}

/// The view of a result of strings.
pub open spec fn string_result(r: Result<String, String>) -> Result<Seq<char>, Seq<char>> {
    match r {
        Ok(s) => Ok(s@),
        Err(e) => Err(e@),
    }
}

/// What `networksetup -listallhardwareports` tells of the Wi-Fi interface:
/// the trimmed error output when it failed, else the device of the first
/// Wi-Fi port, or a fixed message when there is none.
pub open spec fn wifi_interface_result(success: bool, stdout: Seq<char>, stderr: Seq<char>) -> Result<
    Seq<char>,
    Seq<char>,
> {
    if !success {
        Err(trim(stderr))
    } else {
        match first_wifi_device(parsed_ports(stdout)) {
            Some(d) => Ok(d),
            None => Err("Unable to find the Wi-Fi interface on this Mac."@),
        }
    }
}

/// The Wi-Fi device named by a run of `networksetup -listallhardwareports`.
pub fn wifi_interface_from_listing(success: bool, stdout: &str, stderr: &str) -> (r: Result<
    String,
    String,
>)
    ensures
        string_result(r) == wifi_interface_result(success, stdout@, stderr@),
{
    if !success {
        let e = chars_of(stderr);
        let (a, b) = trim_range(&e, 0, e.len());
        assert(e@.subrange(0, e@.len() as int) =~= e@);
        return Err(string_of(&e, a, b));
    }
    let ports = parse_hardware_ports(stdout);
    let mut k: usize = 0;
    let ghost all = ports_view(ports@);
    assert(all.skip(0) =~= all);
    while k < ports.len()
        invariant
            0 <= k <= ports@.len(),
            all == ports_view(ports@),
            all == parsed_ports(stdout@),
            success,
            first_wifi_device(all) == first_wifi_device(all.skip(k as int)),
        decreases ports@.len() - k,
    {
        let p = chars_of(ports[k].port.as_str());
        assert(all.skip(k as int)[0] == ports@[k as int]@);
        assert(all.skip(k as int).drop_first() =~= all.skip(k + 1));
        if contains_vec(&p, &chars_of("Wi-Fi")) || contains_vec(&p, &chars_of("AirPort")) {
            assert(is_wifi_port(all.skip(k as int)[0].0));
            assert(first_wifi_device(all.skip(k as int)) == Some(ports@[k as int].device@));
            return Ok(to_string(ports[k].device.as_str()));
        }
        k += 1;
    }
    Err(to_string("Unable to find the Wi-Fi interface on this Mac."))
}

/// The arguments of `networksetup -setairportnetwork`, with the password
/// last for any security type but "nopass".
pub open spec fn networksetup_arg_list(
    interface: Seq<char>,
    ssid: Seq<char>,
    security: Seq<char>,
    password: Option<Seq<char>>,
) -> Result<Seq<Seq<char>>, Seq<char>> {
    if security == "nopass"@ {
        Ok(seq!["-setairportnetwork"@, interface, ssid])
    } else {
        match password {
            Some(p) => Ok(seq!["-setairportnetwork"@, interface, ssid, p]),
            None => Err("Password is required for secured networks."@),
        }
    }
}

/// The arguments that join `ssid` through `networksetup`.
pub fn networksetup_args(
    interface: &str,
    ssid: &str,
    security: &str,
    password: Option<&str>,
) -> (r: Result<Vec<String>, String>)
    ensures
        match r {
            Ok(a) => networksetup_arg_list(
                interface@,
                ssid@,
                security@,
                match password {
                    Some(p) => Some(p@),
                    None => None,
                },
            ) == Ok::<Seq<Seq<char>>, Seq<char>>(strings_view(a@)),
            Err(e) => networksetup_arg_list(
                interface@,
                ssid@,
                security@,
                match password {
                    Some(p) => Some(p@),
                    None => None,
                },
            ) == Err::<Seq<Seq<char>>, Seq<char>>(e@),
        },
{
    let mut args: Vec<String> = Vec::new();
    args.push(to_string("-setairportnetwork"));
    args.push(to_string(interface));
    args.push(to_string(ssid));
    if !eq_str(&chars_of(security), "nopass") {
        match password {
            Some(p) => {
                args.push(to_string(p));
            },
            None => {
                return Err(to_string("Password is required for secured networks."));
            },
        }
    }
    assert(strings_view(args@) =~= networksetup_arg_list(
        interface@,
        ssid@,
        security@,
        match password {
            Some(p) => Some(p@),
            None => None,
        },
    )->Ok_0);
    Ok(args)
}

/// What a finished `networksetup -setairportnetwork` run means. It exits 0
/// even when the join fails, so its text is read too: the details are the
/// trimmed error output, or the trimmed output where that is empty.
pub open spec fn join_result(
    interface: Seq<char>,
    success: bool,
    stdout: Seq<char>,
    stderr: Seq<char>,
) -> Result<Seq<char>, Seq<char>> {
    let details = if trim(stderr).len() > 0 {
        trim(stderr)
    } else {
        trim(stdout)
    };
    if !success || failure_text(details) {
        if details.len() == 0 {
            Err("networksetup failed without an error message."@)
        } else {
            Err(details)
        }
    } else {
        Ok(interface)
    }
}

/// The result of a `networksetup -setairportnetwork` run on `interface`.
pub fn networksetup_outcome(interface: String, success: bool, stdout: &str, stderr: &str) -> (r:
    Result<String, String>)
    ensures
        string_result(r) == join_result(interface@, success, stdout@, stderr@),
{
    let e = chars_of(stderr);
    let (a, b) = trim_range(&e, 0, e.len());
    assert(e@.subrange(0, e@.len() as int) =~= e@);
    let o = chars_of(stdout);
    let (c, d) = trim_range(&o, 0, o.len());
    assert(o@.subrange(0, o@.len() as int) =~= o@);
    let details = if a < b {
        slice_vec(&e, a, b)
    } else {
        slice_vec(&o, c, d)
    };
    assert(details@ == (if trim(stderr@).len() > 0 {
        trim(stderr@)
    } else {
        trim(stdout@)
    }));
    assert(details@.subrange(0, details@.len() as int) =~= details@);
    if !success || reports_failure_chars(&details) {
        if details.len() == 0 {
            Err(to_string("networksetup failed without an error message."))
        } else {
            Err(string_of(&details, 0, details.len()))
        }
    } else {
        Ok(interface)
    }
}

} // verus!
