//! Checking a join request before anything touches the system, and wording
//! the answer once the system has joined.
use vstd::prelude::*;

use crate::profile::bool_text;
use crate::text::{
    chars_of, eq_str, has_control, is_control, lower, lowercase, push_range, push_str, to_string,
    trim, trim_range,
};

verus! {

/// The error the frontend is given.
#[derive(Debug)]
pub struct ErrorResponse {
    pub message: String,
}

/// A request to join a network, as the frontend sends it.
pub struct JoinWifiRequest {
    pub ssid: String,
    pub password: Option<String>,
    pub security: String,
    pub hidden: bool,
}

/// The answer to a successful join.
pub struct JoinWifiResponse {
    pub interface: String,
    pub message: String,
    pub method: String,
}

/// Outcome of a platform join.
pub struct Joined {
    pub interface: String,
    pub method: &'static str,
    /// False when the OS accepted the join but could not confirm the
    /// connection came up.
    pub verified: bool,
}

/// A request whose fields passed the checks.
#[derive(Debug)]
pub struct ValidJoin {
    pub ssid: String,
    pub security: String,
    pub password: Option<String>,
    pub hidden: bool,
}

/// The view of an optional string.
pub open spec fn opt_view(o: Option<String>) -> Option<Seq<char>> {
    match o {
        Some(s) => Some(s@),
        None => None,
    }
}

/// The view of an optional string slice.
pub open spec fn opt_str_view(o: Option<&str>) -> Option<Seq<char>> {
    match o {
        Some(s) => Some(s@),
        None => None,
    }
}

/// Why a required value is refused, if it is: it is blank, or it holds a
/// control character (QR data is untrusted).
pub open spec fn required_error(value: Seq<char>, label: Seq<char>) -> Option<Seq<char>> {
    if trim(value).len() == 0 {
        Some(label + " is required."@)
    } else if exists|i: int| 0 <= i < value.len() && is_control(#[trigger] value[i]) {
        Some(label + " contains invalid control characters."@)
    } else {
        None
    }
}

/// Why an optional value is refused, if it is: an absent or empty value is
/// fine, any other is held to `required_error`.
pub open spec fn optional_error(value: Option<Seq<char>>, label: Seq<char>) -> Option<Seq<char>> {
    match value {
        Some(raw) => if raw.len() > 0 {
            required_error(raw, label)
        } else {
            None
        },
        None => None,
    }
}

/// What an optional value becomes once accepted: an empty value counts as
/// absent.
pub open spec fn optional_value(value: Option<Seq<char>>) -> Option<Seq<char>> {
    match value {
        Some(raw) => if raw.len() > 0 {
            Some(raw)
        } else {
            None
        },
        None => None,
    }
}

/// A security type after trimming and ASCII lower-casing.
pub open spec fn normalized_security(value: Seq<char>) -> Seq<char> {
    lower(trim(value))
}

/// The security types the app can join.
pub open spec fn is_supported_security(n: Seq<char>) -> bool {
    n == "wpa"@ || n == "wep"@ || n == "nopass"@
}

/// The refusal of an unsupported security type.
pub open spec fn unsupported_security_message(value: Seq<char>) -> Seq<char> {
    "Unsupported security type '"@ + value + "'."@
}

/// The refusal of a value that a command line would read as a flag.
pub open spec fn flag_message(label: Seq<char>) -> Seq<char> {
    "Could not join with CoreWLAN, and the fallback cannot use a "@ + label
        + " starting with '-'."@
}

/// `value` begins with `'-'`.
pub open spec fn looks_like_flag(value: Seq<char>) -> bool {
    value.len() > 0 && value[0] == '-'
}

/// Accepts a value that is not blank and holds no control character, and
/// hands it back unchanged.
pub fn sanitize_required(value: &str, label: &str) -> (r: Result<String, ErrorResponse>)
    ensures
        match r {
            Ok(s) => required_error(value@, label@) is None && s@ == value@,
            Err(e) => required_error(value@, label@) == Some(e.message@),
        },
{
    let v = chars_of(value);
    let (a, b) = trim_range(&v, 0, v.len());
    assert(v@.subrange(0, v@.len() as int) =~= v@);
    if a == b {
        assert(v@.subrange(a as int, b as int).len() == 0);
        let mut message = to_string(label);
        push_str(&mut message, " is required.");
        return Err(ErrorResponse { message });
    }
    if has_control(&v) {
        let mut message = to_string(label);
        push_str(&mut message, " contains invalid control characters.");
        return Err(ErrorResponse { message });
    }
    Ok(to_string(value))
}

/// Refuses a value that begins with `'-'`: the command-line fallback would
/// read it as a flag.
pub fn ensure_not_flag(value: &str, label: &str) -> (r: Result<(), ErrorResponse>)
    ensures
        match r {
            Ok(_) => !looks_like_flag(value@),
            Err(e) => looks_like_flag(value@) && e.message@ == flag_message(label@),
        },
{
    let v = chars_of(value);
    if v.len() > 0 && v[0] == '-' {
        let mut message = to_string("Could not join with CoreWLAN, and the fallback cannot use a ");
        push_str(&mut message, label);
        push_str(&mut message, " starting with '-'.");
        return Err(ErrorResponse { message });
    }
    Ok(())
}

/// Accepts an absent or empty value as absent, and holds any other value to
/// `sanitize_required`.
pub fn sanitize_optional(value: Option<&str>, label: &str) -> (r: Result<
    Option<String>,
    ErrorResponse,
>)
    ensures
        match r {
            Ok(s) => optional_error(opt_str_view(value), label@) is None && opt_view(s)
                == optional_value(opt_str_view(value)),
            Err(e) => optional_error(opt_str_view(value), label@) == Some(e.message@),
        },
{
    match value {
        Some(raw) => {
            if !raw.is_empty() {
                match sanitize_required(raw, label) {
                    Ok(s) => Ok(Some(s)),
                    Err(e) => Err(e),
                }
            } else {
                Ok(None)
            }
        },
        None => Ok(None),
    }
}

/// Trims and lower-cases a security type, and accepts it if it is "wpa",
/// "wep" or "nopass".
pub fn normalize_security(value: &str) -> (r: Result<String, ErrorResponse>)
    ensures
        match r {
            Ok(s) => is_supported_security(normalized_security(value@)) && s@
                == normalized_security(value@),
            Err(e) => !is_supported_security(normalized_security(value@)) && e.message@
                == unsupported_security_message(value@),
        },
{
    let v = chars_of(value);
    let (a, b) = trim_range(&v, 0, v.len());
    assert(v@.subrange(0, v@.len() as int) =~= v@);
    let mut t: Vec<char> = Vec::new();
    let mut i: usize = a;
    while i < b
        invariant
            a <= i <= b <= v@.len(),
            t@ == v@.subrange(a as int, i as int),
        decreases b - i,
    {
        t.push(v[i]);
        i += 1;
    }
    let n = lowercase(&t);
    if eq_str(&n, "wpa") || eq_str(&n, "wep") || eq_str(&n, "nopass") {
        let mut s = String::new();
        push_range(&mut s, &n, 0, n.len());
        assert(s@ =~= n@);
        Ok(s)
    } else {
        let mut message = to_string("Unsupported security type '");
        push_str(&mut message, value);
        push_str(&mut message, "'.");
        Err(ErrorResponse { message })
    }
}

/// The first refusal of a request, checking the SSID, then the security
/// type, then the password.
pub open spec fn request_error(
    ssid: Seq<char>,
    security: Seq<char>,
    password: Option<Seq<char>>,
) -> Option<Seq<char>> {
    if required_error(ssid, "SSID"@) is Some {
        required_error(ssid, "SSID"@)
    } else if !is_supported_security(normalized_security(security)) {
        Some(unsupported_security_message(security))
    } else {
        optional_error(password, "Password"@)
    }
}

/// Checks a request's SSID, security type and password, in that order, and
/// hands back the accepted values.
pub fn validate_join_request(request: &JoinWifiRequest) -> (r: Result<ValidJoin, ErrorResponse>)
    ensures
        match r {
            Ok(v) => {
                &&& request_error(request.ssid@, request.security@, opt_view(request.password))
                    is None
                &&& v.ssid@ == request.ssid@
                &&& v.security@ == normalized_security(request.security@)
                &&& opt_view(v.password) == optional_value(opt_view(request.password))
                &&& v.hidden == request.hidden
            },
            Err(e) => request_error(request.ssid@, request.security@, opt_view(request.password))
                == Some(e.message@),
        },
{
    let ssid = match sanitize_required(request.ssid.as_str(), "SSID") {
        Ok(s) => s,
        Err(e) => return Err(e),
    };
    let security = match normalize_security(request.security.as_str()) {
        Ok(s) => s,
        Err(e) => return Err(e),
    };
    let pw: Option<&str> = match &request.password {
        Some(p) => Some(p.as_str()),
        None => None,
    };
    let password = match sanitize_optional(pw, "Password") {
        Ok(p) => p,
        Err(e) => return Err(e),
    };
    Ok(ValidJoin { ssid, security, password, hidden: request.hidden })
}

/// The message shown after a join.
pub open spec fn join_message(ssid: Seq<char>, verified: bool) -> Seq<char> {
    if verified {
        "Joined '"@ + ssid + "' successfully."@
    } else {
        "Asked the system to join '"@ + ssid
            + "', but it could not confirm the connection. Check the Wi-Fi icon to be sure."@
    }
}

/// The answer the frontend gets after joining `ssid`.
pub fn join_response(ssid: &str, joined: Joined) -> (r: JoinWifiResponse)
    ensures
        r.interface@ == joined.interface@,
        r.method@ == joined.method@,
        r.message@ == join_message(ssid@, joined.verified),
{
    let mut message = String::new();
    if joined.verified {
        push_str(&mut message, "Joined '");
        push_str(&mut message, ssid);
        push_str(&mut message, "' successfully.");
    } else {
        push_str(&mut message, "Asked the system to join '");
        push_str(&mut message, ssid);
        push_str(
            &mut message,
            "', but it could not confirm the connection. Check the Wi-Fi icon to be sure.",
        );
    }
    assert(message@ =~= join_message(ssid@, joined.verified));
    JoinWifiResponse { interface: joined.interface, message, method: to_string(joined.method) }
}

/// The log line of a successful join: the network, the method, the
/// interface and whether the join was confirmed.
pub open spec fn join_log_text(ssid: Seq<char>, joined: (Seq<char>, Seq<char>, bool)) -> Seq<char> {
    "Joined '"@ + ssid + "' via "@ + joined.1 + " on "@ + joined.0 + " (verified: "@
        + bool_text(joined.2) + ")"@
}

/// How a join ends, from the network's name and the platform's outcome: the
/// answer (the response, or the platform's error as it is) and, for a
/// success, the log line.
pub open spec fn join_outcome(
    ssid: Seq<char>,
    outcome: Result<(Seq<char>, Seq<char>, bool), Seq<char>>,
) -> Result<((Seq<char>, Seq<char>, Seq<char>), Seq<char>), Seq<char>> {
    match outcome {
        Ok(j) => Ok(((j.0, join_message(ssid, j.2), j.1), join_log_text(ssid, j))),
        Err(m) => Err(m),
    }
}

/// The view of a platform outcome: interface, method and verification; or
/// the error message.
pub open spec fn outcome_view(o: Result<Joined, ErrorResponse>) -> Result<
    (Seq<char>, Seq<char>, bool),
    Seq<char>,
> {
    match o {
        Ok(j) => Ok((j.interface@, j.method@, j.verified)),
        Err(e) => Err(e.message@),
    }
}

/// Ends a join of `ssid`: the answer for the frontend and, after a success,
/// the line to log. Neither takes the password.
pub fn finish_join(ssid: &str, outcome: Result<Joined, ErrorResponse>) -> (r: (
    Result<JoinWifiResponse, ErrorResponse>,
    Option<String>,
))
    ensures
        match join_outcome(ssid@, outcome_view(outcome)) {
            Ok((response, line)) => {
                &&& r.0 matches Ok(resp) && (resp.interface@, resp.message@, resp.method@)
                    == response
                &&& r.1 matches Some(l) && l@ == line
            },
            Err(m) => {
                &&& r.0 matches Err(e) && e.message@ == m
                &&& r.1 is None
            },
        },
{
    match outcome {
        Ok(joined) => {
            let mut line = to_string("Joined '");
            push_str(&mut line, ssid);
            push_str(&mut line, "' via ");
            push_str(&mut line, joined.method);
            push_str(&mut line, " on ");
            push_str(&mut line, joined.interface.as_str());
            push_str(&mut line, " (verified: ");
            if joined.verified {
                push_str(&mut line, "true");
            } else {
                push_str(&mut line, "false");
            }
            push_str(&mut line, ")");
            assert(line@ =~= join_log_text(
                ssid@,
                (joined.interface@, joined.method@, joined.verified),
            ));
            (Ok(join_response(ssid, joined)), Some(line))
        },
        Err(e) => (Err(e), None),
    }
}

/// The refusal on a platform the app cannot join networks on.
pub fn join_platform_unsupported() -> (r: Result<Joined, ErrorResponse>)
    ensures
        r matches Err(e) && e.message@ == "Joining Wi-Fi is not supported on this platform yet."@,
{
    Err(ErrorResponse { message: to_string("Joining Wi-Fi is not supported on this platform yet.") })
}

} // verus!

verus! {

/// A supported security type is already trimmed and lower-case.
proof fn lemma_supported_is_normal(n: Seq<char>)
    requires
        is_supported_security(n),
    ensures
        normalized_security(n) == n,
{
    reveal_strlit("wpa");
    reveal_strlit("wep");
    reveal_strlit("nopass");
    assert(!crate::text::is_ws(n[0]));
    assert(!crate::text::is_ws(n.last()));
    assert(crate::text::trim_start(n) == n);
    assert(crate::text::trim_end(n) == n);
    assert(lower(n) =~= n);
}

/// Normalizing a security type twice gives what normalizing once gave: an
/// accepted type is accepted again, unchanged.
pub proof fn law_normalize_security_idempotent(value: Seq<char>)
    requires
        is_supported_security(normalized_security(value)),
    ensures
        normalized_security(normalized_security(value)) == normalized_security(value),
        is_supported_security(normalized_security(normalized_security(value))),
{
    lemma_supported_is_normal(normalized_security(value));
}

/// How a request ends, given the platform's outcome once it is accepted:
/// the first refusal of its fields, or the answer and log line of
/// `join_outcome` for the accepted name.
pub open spec fn request_outcome(
    ssid: Seq<char>,
    security: Seq<char>,
    password: Option<Seq<char>>,
    outcome: Result<(Seq<char>, Seq<char>, bool), Seq<char>>,
) -> Result<((Seq<char>, Seq<char>, Seq<char>), Seq<char>), Seq<char>> {
    match request_error(ssid, security, password) {
        Some(m) => Err(m),
        None => join_outcome(ssid, outcome),
    }
}

/// A request's password reaches neither the answer nor the log line: it only
/// decides whether the request is accepted. Two accepted requests that
/// differ only in their passwords, with the same platform outcome, end
/// alike.
pub proof fn law_password_never_reaches_the_answer(
    ssid: Seq<char>,
    security: Seq<char>,
    password1: Option<Seq<char>>,
    password2: Option<Seq<char>>,
    outcome: Result<(Seq<char>, Seq<char>, bool), Seq<char>>,
)
    requires
        request_error(ssid, security, password1) is None,
        request_error(ssid, security, password2) is None,
    ensures
        request_outcome(ssid, security, password1, outcome) == request_outcome(
            ssid,
            security,
            password2,
            outcome,
        ),
{
}

} // verus!

verus! {

proof fn lemma_all_blank_trims_to_nothing(s: Seq<char>)
    requires
        forall|i: int| 0 <= i < s.len() ==> crate::text::is_ws(#[trigger] s[i]),
    ensures
        trim(s).len() == 0,
    decreases s.len(),
{
    if s.len() > 0 {
        assert forall|i: int| 0 <= i < s.drop_first().len() implies crate::text::is_ws(
            #[trigger] s.drop_first()[i],
        ) by {
            assert(s.drop_first()[i] == s[i + 1]);
        }
        lemma_all_blank_trims_to_nothing(s.drop_first());
        assert(crate::text::trim_start(s) == crate::text::trim_start(s.drop_first()));
    } else {
        assert(crate::text::trim_start(s) == s);
    }
}

proof fn lemma_trim_start_keeps_text(s: Seq<char>, k: int)
    requires
        0 <= k < s.len(),
        !crate::text::is_ws(s[k]),
    ensures
        exists|j: int|
            0 <= j < crate::text::trim_start(s).len() && !crate::text::is_ws(
                #[trigger] crate::text::trim_start(s)[j],
            ),
    decreases s.len(),
{
    if crate::text::is_ws(s[0]) {
        assert(k > 0);
        assert(s.drop_first()[k - 1] == s[k]);
        lemma_trim_start_keeps_text(s.drop_first(), k - 1);
        assert(crate::text::trim_start(s) == crate::text::trim_start(s.drop_first()));
    } else {
        assert(crate::text::trim_start(s) == s);
        assert(!crate::text::is_ws(crate::text::trim_start(s)[k]));
    }
}

proof fn lemma_trim_end_keeps_text(s: Seq<char>, k: int)
    requires
        0 <= k < s.len(),
        !crate::text::is_ws(s[k]),
    ensures
        crate::text::trim_end(s).len() > 0,
    decreases s.len(),
{
    if crate::text::is_ws(s.last()) {
        assert(k < s.len() - 1);
        assert(s.drop_last()[k] == s[k]);
        lemma_trim_end_keeps_text(s.drop_last(), k);
    }
}

/// Text with something but whitespace in it is not blank.
proof fn lemma_text_is_not_blank(s: Seq<char>, k: int)
    requires
        0 <= k < s.len(),
        !crate::text::is_ws(s[k]),
    ensures
        trim(s).len() > 0,
{
    lemma_trim_start_keeps_text(s, k);
    let t = crate::text::trim_start(s);
    let j = choose|j: int| 0 <= j < t.len() && !crate::text::is_ws(#[trigger] t[j]);
    lemma_trim_end_keeps_text(t, j);
}

/// A value made of whitespace only (or of nothing) is refused as missing,
/// naming the field.
pub proof fn law_blank_values_are_required(value: Seq<char>, label: Seq<char>)
    requires
        forall|i: int| 0 <= i < value.len() ==> crate::text::is_ws(#[trigger] value[i]),
    ensures
        required_error(value, label) == Some(label + " is required."@),
{
    lemma_all_blank_trims_to_nothing(value);
}

/// A value that is not blank and holds a control character (U+0000 to
/// U+001F, U+007F to U+009F) anywhere is refused for it, naming the field.
pub proof fn law_control_characters_are_refused(
    value: Seq<char>,
    label: Seq<char>,
    k: int,
    i: int,
)
    requires
        0 <= k < value.len(),
        !crate::text::is_ws(value[k]),
        0 <= i < value.len(),
        value[i] <= '\u{1f}' || ('\u{7f}' <= value[i] && value[i] <= '\u{9f}'),
    ensures
        required_error(value, label) == Some(label + " contains invalid control characters."@),
{
    lemma_text_is_not_blank(value, k);
    assert(is_control(value[i]));
}

/// A value that is not blank and holds no control character is accepted.
pub proof fn law_clean_values_are_accepted(value: Seq<char>, label: Seq<char>, k: int)
    requires
        0 <= k < value.len(),
        !crate::text::is_ws(value[k]),
        forall|i: int|
            0 <= i < value.len() ==> !(#[trigger] value[i] <= '\u{1f}' || ('\u{7f}' <= value[i]
                && value[i] <= '\u{9f}')),
    ensures
        required_error(value, label) is None,
{
    lemma_text_is_not_blank(value, k);
}

} // verus!
