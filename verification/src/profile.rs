//! The WLAN profile XML document that `netsh wlan add profile` imports.
use vstd::prelude::*;
use vstd::utf8::encode_utf8;

use crate::text::{chars_of, eq_str, push_str, to_string};

verus! {

/// WLAN profile security settings for one of the normalized QR security types.
pub struct ProfileSecurity {
    authentication: &'static str,
    encryption: &'static str,
    /// `None` for open networks, which carry no key.
    key_type: Option<&'static str>,
}

impl View for ProfileSecurity {
    /// The authentication, the encryption and the key type, if any.
    type V = (Seq<char>, Seq<char>, Option<Seq<char>>);

    closed spec fn view(&self) -> Self::V {
        (
            self.authentication@,
            self.encryption@,
            match self.key_type {
                Some(k) => Some(k@),
                None => None,
            },
        )
    }
}

/// The settings for a normalized security type: WPA2-Personal for "wpa",
/// WEP for "wep", and an open network for anything else.
pub open spec fn security_settings(security: Seq<char>) -> (Seq<char>, Seq<char>, Option<Seq<char>>) {
    if security == "wpa"@ {
        ("WPA2PSK"@, "AES"@, Some("passPhrase"@))
    } else if security == "wep"@ {
        ("open"@, "WEP"@, Some("networkKey"@))
    } else {
        ("open"@, "none"@, None)
    }
}

impl ProfileSecurity {
    pub fn from_normalized(security: &str) -> (r: Self)
        ensures
            r@ == security_settings(security@),
    {
        let s = chars_of(security);
        // WPA2-Personal also connects to WPA2/WPA3 transition networks.
        // WPA3-only networks need a WPA3SAE profile, which older Windows
        // releases reject, so they are not supported yet.
        if eq_str(&s, "wpa") {
            ProfileSecurity {
                authentication: "WPA2PSK",
                encryption: "AES",
                key_type: Some("passPhrase"),
            }
        } else if eq_str(&s, "wep") {
            ProfileSecurity {
                authentication: "open",
                encryption: "WEP",
                key_type: Some("networkKey"),
            }
        } else {
            ProfileSecurity { authentication: "open", encryption: "none", key_type: None }
        }
    }

    /// Whether the profile carries a key, which then must be given.
    pub fn needs_key(&self) -> (r: bool)
        ensures
            r == (self@.2 is Some),
    {
        self.key_type.is_some()
    }
}

/// One character as XML text: `& < > " '` become entity references.
pub open spec fn escape_char(c: char) -> Seq<char> {
    if c == '&' {
        "&amp;"@
    } else if c == '<' {
        "&lt;"@
    } else if c == '>' {
        "&gt;"@
    } else if c == '"' {
        "&quot;"@
    } else if c == '\'' {
        "&apos;"@
    } else {
        seq![c]
    }
}

/// `s` as XML text, character by character.
pub open spec fn escaped(s: Seq<char>) -> Seq<char>
    decreases s.len(),
{
    if s.len() == 0 {
        seq![]
    } else {
        escaped(s.drop_last()) + escape_char(s.last())
    }
}

/// An upper-case hexadecimal digit for `n < 16`.
pub open spec fn hex_digit(n: u8) -> char {
    if n < 10 {
        ((48 + n) as u8) as char
    } else {
        ((55 + n) as u8) as char
    }
}

/// The bytes as upper-case hexadecimal, two digits a byte.
pub open spec fn hex_upper(b: Seq<u8>) -> Seq<char>
    decreases b.len(),
{
    if b.len() == 0 {
        seq![]
    } else {
        hex_upper(b.drop_last()) + seq![hex_digit(b.last() / 16), hex_digit(b.last() % 16)]
    }
}

/// `true` or `false`.
pub open spec fn bool_text(b: bool) -> Seq<char> {
    if b {
        "true"@
    } else {
        "false"@
    }
}

/// The `<sharedKey>` element around a key type and an escaped key.
pub open spec fn key_layout(key_type: Seq<char>, escaped_key: Seq<char>) -> Seq<char> {
    "\n            <sharedKey>\n                <keyType>"@ + key_type
        + "</keyType>\n                <protected>false</protected>\n                <keyMaterial>"@
        + escaped_key + "</keyMaterial>\n            </sharedKey>"@
}

/// The `<sharedKey>` element, present when the security has a key type and
/// a key is given.
pub open spec fn shared_key_xml(key_type: Option<Seq<char>>, key: Option<Seq<char>>) -> Seq<char> {
    match (key_type, key) {
        (Some(kt), Some(k)) => key_layout(kt, escaped(k)),
        _ => seq![],
    }
}

/// The profile document around its variable parts: the escaped name, the
/// hexadecimal SSID, the hidden flag, the authentication, the encryption
/// and the shared-key element.
pub open spec fn profile_layout(
    name: Seq<char>,
    hex: Seq<char>,
    hidden: Seq<char>,
    authentication: Seq<char>,
    encryption: Seq<char>,
    shared_key: Seq<char>,
) -> Seq<char> {
    "<?xml version=\"1.0\"?>\n<WLANProfile xmlns=\"http://www.microsoft.com/networking/WLAN/profile/v1\">\n    <name>"@
        + name + "</name>\n    <SSIDConfig>\n        <SSID>\n            <hex>"@ + hex
        + "</hex>\n            <name>"@ + name
        + "</name>\n        </SSID>\n        <nonBroadcast>"@ + hidden
        + "</nonBroadcast>\n    </SSIDConfig>\n    <connectionType>ESS</connectionType>\n    <connectionMode>auto</connectionMode>\n    <MSM>\n        <security>\n            <authEncryption>\n                <authentication>"@
        + authentication + "</authentication>\n                <encryption>"@ + encryption
        + "</encryption>\n                <useOneX>false</useOneX>\n            </authEncryption>"@
        + shared_key + "\n        </security>\n    </MSM>\n</WLANProfile>\n"@
}

/// The WLAN profile document for `ssid`: its name escaped for XML, its
/// UTF-8 bytes in hexadecimal, whether it is hidden, the security settings
/// and, where there is a key type and a key, the key.
pub open spec fn profile_text(
    ssid: Seq<char>,
    security: (Seq<char>, Seq<char>, Option<Seq<char>>),
    key: Option<Seq<char>>,
    hidden: bool,
) -> Seq<char> {
    profile_layout(
        escaped(ssid),
        hex_upper(encode_utf8(ssid)),
        bool_text(hidden),
        security.0,
        security.1,
        shared_key_xml(security.2, key),
    )
}

/// `value` as XML text.
pub fn xml_escape(value: &str) -> (r: String)
    ensures
        r@ == escaped(value@),
{
    let v = chars_of(value);
    let mut out = String::new();
    let mut i: usize = 0;
    while i < v.len()
        invariant
            0 <= i <= v@.len(),
            out@ == escaped(v@.take(i as int)),
        decreases v@.len() - i,
    {
        let c = v[i];
        let ghost before = out@;
        if c == '&' {
            push_str(&mut out, "&amp;");
        } else if c == '<' {
            push_str(&mut out, "&lt;");
        } else if c == '>' {
            push_str(&mut out, "&gt;");
        } else if c == '"' {
            push_str(&mut out, "&quot;");
        } else if c == '\'' {
            push_str(&mut out, "&apos;");
        } else {
            out.push(c);
        }
        assert(out@ == before + escape_char(c));
        assert(v@.take(i + 1).drop_last() =~= v@.take(i as int));
        i += 1;
    }
    assert(v@.take(v@.len() as int) =~= v@);
    out
}

/// An upper-case hexadecimal digit.
fn hex_digit_char(n: u8) -> (c: char)
    requires
        n < 16,
    ensures
        c == hex_digit(n),
{
    if n < 10 {
        (48 + n) as char
    } else {
        (55 + n) as char
    }
}

/// Appends the bytes of `s` in upper-case hexadecimal.
fn push_hex(out: &mut String, s: &str)
    ensures
        final(out)@ == old(out)@ + hex_upper(encode_utf8(s@)),
{
    let bytes = s.as_bytes();
    let mut i: usize = 0;
    while i < bytes.len()
        invariant
            0 <= i <= bytes@.len(),
            bytes@ == encode_utf8(s@),
            out@ == old(out)@ + hex_upper(bytes@.take(i as int)),
        decreases bytes@.len() - i,
    {
        let b = bytes[i];
        out.push(hex_digit_char(b / 16));
        out.push(hex_digit_char(b % 16));
        assert(bytes@.take(i + 1).drop_last() =~= bytes@.take(i as int));
        i += 1;
    }
    assert(bytes@.take(bytes@.len() as int) =~= bytes@);
}

/// Build a WLAN profile XML document. The SSID is also given as hex so
/// non-ASCII names match the broadcast bytes exactly.
pub fn profile_xml(ssid: &str, security: &ProfileSecurity, key: Option<&str>, hidden: bool) -> (r:
    String)
    ensures
        r@ == profile_text(
            ssid@,
            security@,
            match key {
                Some(k) => Some(k@),
                None => None,
            },
            hidden,
        ),
{
    let name = xml_escape(ssid);
    let mut out = to_string(
        "<?xml version=\"1.0\"?>\n<WLANProfile xmlns=\"http://www.microsoft.com/networking/WLAN/profile/v1\">\n    <name>",
    );
    push_str(&mut out, name.as_str());
    push_str(&mut out, "</name>\n    <SSIDConfig>\n        <SSID>\n            <hex>");
    push_hex(&mut out, ssid);
    push_str(&mut out, "</hex>\n            <name>");
    push_str(&mut out, name.as_str());
    push_str(&mut out, "</name>\n        </SSID>\n        <nonBroadcast>");
    if hidden {
        push_str(&mut out, "true");
    } else {
        push_str(&mut out, "false");
    }
    push_str(
        &mut out,
        "</nonBroadcast>\n    </SSIDConfig>\n    <connectionType>ESS</connectionType>\n    <connectionMode>auto</connectionMode>\n    <MSM>\n        <security>\n            <authEncryption>\n                <authentication>",
    );
    push_str(&mut out, security.authentication);
    push_str(&mut out, "</authentication>\n                <encryption>");
    push_str(&mut out, security.encryption);
    push_str(
        &mut out,
        "</encryption>\n                <useOneX>false</useOneX>\n            </authEncryption>",
    );
    let ghost before_key = out@;
    match (security.key_type, key) {
        (Some(key_type), Some(k)) => {
            push_str(&mut out, "\n            <sharedKey>\n                <keyType>");
            push_str(&mut out, key_type);
            push_str(
                &mut out,
                "</keyType>\n                <protected>false</protected>\n                <keyMaterial>",
            );
            let escaped_key = xml_escape(k);
            push_str(&mut out, escaped_key.as_str());
            push_str(&mut out, "</keyMaterial>\n            </sharedKey>");
        },
        _ => {},
    }
    push_str(&mut out, "\n        </security>\n    </MSM>\n</WLANProfile>\n");
    assert(out@ =~= profile_text(
        ssid@,
        security@,
        match key {
            Some(k) => Some(k@),
            None => None,
        },
        hidden,
    ));
    out
}

} // verus!

verus! {

/// A character that XML text must not hold as it is.
pub open spec fn is_markup(c: char) -> bool {
    c == '&' || c == '<' || c == '>' || c == '"' || c == '\''
}

/// Text without markup characters is left as it is.
pub proof fn law_escape_leaves_plain_text(s: Seq<char>)
    requires
        forall|i: int| 0 <= i < s.len() ==> !is_markup(#[trigger] s[i]),
    ensures
        escaped(s) == s,
    decreases s.len(),
{
    if s.len() > 0 {
        assert forall|i: int| 0 <= i < s.drop_last().len() implies !is_markup(
            #[trigger] s.drop_last()[i],
        ) by {
            assert(s.drop_last()[i] == s[i]);
        }
        law_escape_leaves_plain_text(s.drop_last());
        assert(!is_markup(s[s.len() - 1]));
        assert(s.drop_last().push(s.last()) =~= s);
    }
}

/// Escaped text holds no `<`, `>`, `"` or `'`: it cannot end the element it
/// stands in, nor an attribute.
pub proof fn law_escaped_text_has_no_delimiters(s: Seq<char>)
    ensures
        forall|i: int|
            0 <= i < escaped(s).len() ==> {
                let c = #[trigger] escaped(s)[i];
                c != '<' && c != '>' && c != '"' && c != '\''
            },
    decreases s.len(),
{
    reveal_strlit("&amp;");
    reveal_strlit("&lt;");
    reveal_strlit("&gt;");
    reveal_strlit("&quot;");
    reveal_strlit("&apos;");
    if s.len() > 0 {
        law_escaped_text_has_no_delimiters(s.drop_last());
        let a = escaped(s.drop_last());
        let b = escape_char(s.last());
        assert forall|i: int| 0 <= i < (a + b).len() implies {
            let c = #[trigger] (a + b)[i];
            c != '<' && c != '>' && c != '"' && c != '\''
        } by {
            if i >= a.len() {
                assert((a + b)[i] == b[i - a.len()]);
            } else {
                assert((a + b)[i] == a[i]);
            }
        }
    }
}

} // verus!

verus! {

/// Distinct digits for distinct values below 16.
proof fn lemma_hex_digit_injective(a: u8, b: u8)
    requires
        a < 16,
        b < 16,
        hex_digit(a) == hex_digit(b),
    ensures
        a == b,
{
    assert(hex_digit(a) as u32 == (if a < 10 { 48 + a } else { 55 + a }));
    assert(hex_digit(b) as u32 == (if b < 10 { 48 + b } else { 55 + b }));
}

/// The hexadecimal form has two digits a byte, high half first.
proof fn lemma_hex_digits(b: Seq<u8>)
    ensures
        hex_upper(b).len() == 2 * b.len(),
        forall|i: int|
            0 <= i < b.len() ==> hex_upper(b)[2 * i] == hex_digit(#[trigger] b[i] / 16)
                && hex_upper(b)[2 * i + 1] == hex_digit(b[i] % 16),
    decreases b.len(),
{
    if b.len() > 0 {
        lemma_hex_digits(b.drop_last());
        assert forall|i: int| 0 <= i < b.len() implies hex_upper(b)[2 * i] == hex_digit(
            #[trigger] b[i] / 16,
        ) && hex_upper(b)[2 * i + 1] == hex_digit(b[i] % 16) by {
            if i < b.len() - 1 {
                assert(b.drop_last()[i] == b[i]);
            }
        }
    }
}

/// The hexadecimal form names the bytes exactly: two byte strings with the
/// same form are the same, so the profile's `<hex>` matches the broadcast
/// SSID bytes and no others.
pub proof fn law_hex_names_the_bytes(a: Seq<u8>, b: Seq<u8>)
    requires
        hex_upper(a) == hex_upper(b),
    ensures
        a == b,
{
    lemma_hex_digits(a);
    lemma_hex_digits(b);
    assert forall|i: int| 0 <= i < a.len() implies a[i] == b[i] by {
        assert(hex_upper(a)[2 * i] == hex_upper(b)[2 * i]);
        assert(hex_upper(a)[2 * i + 1] == hex_upper(b)[2 * i + 1]);
        lemma_hex_digit_injective(a[i] / 16, b[i] / 16);
        lemma_hex_digit_injective(a[i] % 16, b[i] % 16);
    }
    assert(a =~= b);
}

} // verus!

verus! {

/// Escaping a concatenation escapes each part.
proof fn lemma_escaped_concat(a: Seq<char>, b: Seq<char>)
    ensures
        escaped(a + b) == escaped(a) + escaped(b),
    decreases b.len(),
{
    if b.len() == 0 {
        assert(a + b =~= a);
        assert(escaped(a) + escaped(b) =~= escaped(a));
    } else {
        lemma_escaped_concat(a, b.drop_last());
        assert((a + b).drop_last() =~= a + b.drop_last());
        assert((a + b).last() == b.last());
        assert(escaped(a) + escaped(b) =~= escaped(a) + escaped(b.drop_last()) + escape_char(
            b.last(),
        ));
    }
}

/// Escaped text begins with the escaped first character.
proof fn lemma_escaped_front(s: Seq<char>)
    requires
        s.len() > 0,
    ensures
        escaped(s) == escape_char(s[0]) + escaped(s.drop_first()),
{
    let head = seq![s[0]];
    lemma_escaped_concat(head, s.drop_first());
    assert(head + s.drop_first() =~= s);
    assert(head.drop_last() =~= Seq::<char>::empty());
    assert(escaped(head) == escaped(head.drop_last()) + escape_char(s[0]));
    assert(escaped(head) =~= escape_char(s[0]));
}

/// Escaping never shortens text.
proof fn lemma_escaped_len(s: Seq<char>)
    ensures
        escaped(s).len() >= s.len(),
    decreases s.len(),
{
    reveal_strlit("&amp;");
    reveal_strlit("&lt;");
    reveal_strlit("&gt;");
    reveal_strlit("&quot;");
    reveal_strlit("&apos;");
    if s.len() > 0 {
        lemma_escaped_len(s.drop_last());
        assert(escape_char(s.last()).len() >= 1);
    }
}

/// Two escaped characters that begin the same text are the same character:
/// no escape is a prefix of another.
proof fn lemma_escape_char_prefix(c: char, d: char, x: Seq<char>, y: Seq<char>)
    requires
        escape_char(c) + x == escape_char(d) + y,
    ensures
        c == d,
{
    reveal_strlit("&amp;");
    reveal_strlit("&lt;");
    reveal_strlit("&gt;");
    reveal_strlit("&quot;");
    reveal_strlit("&apos;");
    let l = escape_char(c) + x;
    let r = escape_char(d) + y;
    assert(l[0] == r[0]);
    if is_markup(c) && is_markup(d) {
        assert(l[1] == r[1]);
        assert(l[2] == r[2]);
    }
}

/// Escaping loses nothing: different texts give different XML text, so the
/// profile's `<name>` and `<keyMaterial>` read back as what was given.
pub proof fn law_escape_is_injective(a: Seq<char>, b: Seq<char>)
    requires
        escaped(a) == escaped(b),
    ensures
        a == b,
    decreases a.len(),
{
    lemma_escaped_len(a);
    lemma_escaped_len(b);
    if a.len() == 0 {
        if b.len() > 0 {
            lemma_escaped_front(b);
            reveal_strlit("&amp;");
            reveal_strlit("&lt;");
            reveal_strlit("&gt;");
            reveal_strlit("&quot;");
            reveal_strlit("&apos;");
            assert(escape_char(b[0]).len() >= 1);
        }
        assert(a =~= b);
    } else {
        if b.len() == 0 {
            lemma_escaped_front(a);
            reveal_strlit("&amp;");
            reveal_strlit("&lt;");
            reveal_strlit("&gt;");
            reveal_strlit("&quot;");
            reveal_strlit("&apos;");
            assert(escape_char(a[0]).len() >= 1);
        }
        lemma_escaped_front(a);
        lemma_escaped_front(b);
        lemma_escape_char_prefix(a[0], b[0], escaped(a.drop_first()), escaped(b.drop_first()));
        let n = escape_char(a[0]).len() as int;
        assert(escaped(a.drop_first()) =~= escaped(a).skip(n));
        assert(escaped(b.drop_first()) =~= escaped(b).skip(n));
        law_escape_is_injective(a.drop_first(), b.drop_first());
        assert(a =~= seq![a[0]] + a.drop_first());
        assert(b =~= seq![b[0]] + b.drop_first());
    }
}

} // verus!

verus! {

/// How many times `c` occurs in `s`.
pub open spec fn count_of(s: Seq<char>, c: char) -> nat
    decreases s.len(),
{
    if s.len() == 0 {
        0
    } else {
        count_of(s.drop_last(), c) + (if s.last() == c {
            1nat
        } else {
            0nat
        })
    }
}

proof fn lemma_count_concat(a: Seq<char>, b: Seq<char>, c: char)
    ensures
        count_of(a + b, c) == count_of(a, c) + count_of(b, c),
    decreases b.len(),
{
    if b.len() == 0 {
        assert(a + b =~= a);
    } else {
        lemma_count_concat(a, b.drop_last(), c);
        assert((a + b).drop_last() =~= a + b.drop_last());
    }
}

proof fn lemma_count_absent(s: Seq<char>, c: char)
    requires
        forall|i: int| 0 <= i < s.len() ==> #[trigger] s[i] != c,
    ensures
        count_of(s, c) == 0,
    decreases s.len(),
{
    if s.len() > 0 {
        assert forall|i: int| 0 <= i < s.drop_last().len() implies #[trigger] s.drop_last()[i]
            != c by {
            assert(s.drop_last()[i] == s[i]);
        }
        lemma_count_absent(s.drop_last(), c);
    }
}

/// A markup bracket.
pub open spec fn is_bracket(c: char) -> bool {
    c == '<' || c == '>'
}

/// Hexadecimal text holds no bracket.
proof fn lemma_hex_has_no_brackets(b: Seq<u8>, c: char)
    requires
        is_bracket(c),
    ensures
        count_of(hex_upper(b), c) == 0,
{
    lemma_hex_digits(b);
    let h = hex_upper(b);
    assert forall|j: int| 0 <= j < h.len() implies #[trigger] h[j] != c by {
        let i = j / 2;
        assert(0 <= i < b.len());
        let n: u8 = if j % 2 == 0 {
            b[i] / 16
        } else {
            b[i] % 16
        };
        assert(h[j] == hex_digit(n));
        assert(hex_digit(n) as u32 == (if n < 10 { 48 + n } else { 55 + n }));
    }
    lemma_count_absent(h, c);
}

/// Escaped text holds no bracket.
proof fn lemma_escaped_has_no_brackets(s: Seq<char>, c: char)
    requires
        is_bracket(c),
    ensures
        count_of(escaped(s), c) == 0,
{
    law_escaped_text_has_no_delimiters(s);
    assert forall|i: int| 0 <= i < escaped(s).len() implies #[trigger] escaped(s)[i] != c by {}
    lemma_count_absent(escaped(s), c);
}

/// The brackets of a profile are those of its fixed text and of the parts
/// other than the name and hexadecimal SSID.
proof fn lemma_layout_count(
    name: Seq<char>,
    hex: Seq<char>,
    hidden: Seq<char>,
    authentication: Seq<char>,
    encryption: Seq<char>,
    shared_key: Seq<char>,
    c: char,
)
    requires
        count_of(name, c) == 0,
        count_of(hex, c) == 0,
    ensures
        count_of(profile_layout(name, hex, hidden, authentication, encryption, shared_key), c)
            == count_of(
            profile_layout(seq![], seq![], hidden, authentication, encryption, shared_key),
            c,
        ),
{
    let p0 = "<?xml version=\"1.0\"?>\n<WLANProfile xmlns=\"http://www.microsoft.com/networking/WLAN/profile/v1\">\n    <name>"@;
    let p1 = "</name>\n    <SSIDConfig>\n        <SSID>\n            <hex>"@;
    let p2 = "</hex>\n            <name>"@;
    let p3 = "</name>\n        </SSID>\n        <nonBroadcast>"@;
    let p4 = "</nonBroadcast>\n    </SSIDConfig>\n    <connectionType>ESS</connectionType>\n    <connectionMode>auto</connectionMode>\n    <MSM>\n        <security>\n            <authEncryption>\n                <authentication>"@;
    let p5 = "</authentication>\n                <encryption>"@;
    let p6 = "</encryption>\n                <useOneX>false</useOneX>\n            </authEncryption>"@;
    let p7 = "\n        </security>\n    </MSM>\n</WLANProfile>\n"@;
    let e: Seq<char> = seq![];
    // The same fold over the pieces, once with the given name and hex and
    // once with empty ones.
    let a1 = p0 + name;
    let b1 = p0 + e;
    lemma_count_concat(p0, name, c);
    lemma_count_concat(p0, e, c);
    let a2 = a1 + p1;
    let b2 = b1 + p1;
    lemma_count_concat(a1, p1, c);
    lemma_count_concat(b1, p1, c);
    let a3 = a2 + hex;
    let b3 = b2 + e;
    lemma_count_concat(a2, hex, c);
    lemma_count_concat(b2, e, c);
    let a4 = a3 + p2;
    let b4 = b3 + p2;
    lemma_count_concat(a3, p2, c);
    lemma_count_concat(b3, p2, c);
    let a5 = a4 + name;
    let b5 = b4 + e;
    lemma_count_concat(a4, name, c);
    lemma_count_concat(b4, e, c);
    let a6 = a5 + p3;
    let b6 = b5 + p3;
    lemma_count_concat(a5, p3, c);
    lemma_count_concat(b5, p3, c);
    let a7 = a6 + hidden;
    let b7 = b6 + hidden;
    lemma_count_concat(a6, hidden, c);
    lemma_count_concat(b6, hidden, c);
    let a8 = a7 + p4;
    let b8 = b7 + p4;
    lemma_count_concat(a7, p4, c);
    lemma_count_concat(b7, p4, c);
    let a9 = a8 + authentication;
    let b9 = b8 + authentication;
    lemma_count_concat(a8, authentication, c);
    lemma_count_concat(b8, authentication, c);
    let a10 = a9 + p5;
    let b10 = b9 + p5;
    lemma_count_concat(a9, p5, c);
    lemma_count_concat(b9, p5, c);
    let a11 = a10 + encryption;
    let b11 = b10 + encryption;
    lemma_count_concat(a10, encryption, c);
    lemma_count_concat(b10, encryption, c);
    let a12 = a11 + p6;
    let b12 = b11 + p6;
    lemma_count_concat(a11, p6, c);
    lemma_count_concat(b11, p6, c);
    let a13 = a12 + shared_key;
    let b13 = b12 + shared_key;
    lemma_count_concat(a12, shared_key, c);
    lemma_count_concat(b12, shared_key, c);
    lemma_count_concat(a13, p7, c);
    lemma_count_concat(b13, p7, c);
    assert(count_of(e, c) == 0);
}

/// The brackets of a shared-key element do not depend on the key.
proof fn lemma_shared_key_count(
    key_type: Option<Seq<char>>,
    k1: Option<Seq<char>>,
    k2: Option<Seq<char>>,
    c: char,
)
    requires
        is_bracket(c),
        k1 is Some == k2 is Some,
    ensures
        count_of(shared_key_xml(key_type, k1), c) == count_of(shared_key_xml(key_type, k2), c),
{
    if key_type is Some && k1 is Some {
        let kt = key_type->0;
        let q0 = "\n            <sharedKey>\n                <keyType>"@;
        let q1 = "</keyType>\n                <protected>false</protected>\n                <keyMaterial>"@;
        let q2 = "</keyMaterial>\n            </sharedKey>"@;
        let e1 = escaped(k1->0);
        let e2 = escaped(k2->0);
        lemma_escaped_has_no_brackets(k1->0, c);
        lemma_escaped_has_no_brackets(k2->0, c);
        lemma_count_concat(q0, kt, c);
        lemma_count_concat(q0 + kt, q1, c);
        lemma_count_concat(q0 + kt + q1, e1, c);
        lemma_count_concat(q0 + kt + q1, e2, c);
        lemma_count_concat(q0 + kt + q1 + e1, q2, c);
        lemma_count_concat(q0 + kt + q1 + e2, q2, c);
    }
}

/// The SSID and the key cannot open, close or add an element: two profiles
/// with the same security settings, hidden flag and presence of a key hold
/// as many `<` and as many `>`, whatever the SSID and key texts.
pub proof fn law_markup_does_not_depend_on_ssid_or_key(
    ssid1: Seq<char>,
    ssid2: Seq<char>,
    security: (Seq<char>, Seq<char>, Option<Seq<char>>),
    key1: Option<Seq<char>>,
    key2: Option<Seq<char>>,
    hidden: bool,
    c: char,
)
    requires
        is_bracket(c),
        key1 is Some == key2 is Some,
    ensures
        count_of(profile_text(ssid1, security, key1, hidden), c) == count_of(
            profile_text(ssid2, security, key2, hidden),
            c,
        ),
{
    lemma_escaped_has_no_brackets(ssid1, c);
    lemma_escaped_has_no_brackets(ssid2, c);
    lemma_hex_has_no_brackets(encode_utf8(ssid1), c);
    lemma_hex_has_no_brackets(encode_utf8(ssid2), c);
    lemma_shared_key_count(security.2, key1, key2, c);
    let sk1 = shared_key_xml(security.2, key1);
    let sk2 = shared_key_xml(security.2, key2);
    lemma_layout_count(
        escaped(ssid1),
        hex_upper(encode_utf8(ssid1)),
        bool_text(hidden),
        security.0,
        security.1,
        sk1,
        c,
    );
    lemma_layout_count(
        escaped(ssid2),
        hex_upper(encode_utf8(ssid2)),
        bool_text(hidden),
        security.0,
        security.1,
        sk2,
        c,
    );
    lemma_layout_count(seq![], seq![], bool_text(hidden), security.0, security.1, sk1, c);
    // With empty name and hex, the two layouts differ only in the shared key,
    // whose brackets are equal in number.
    lemma_layout_tail(bool_text(hidden), security.0, security.1, sk1, sk2, c);
}

/// Two layouts with empty name and hex whose shared-key parts hold as many
/// `c` hold as many `c`.
proof fn lemma_layout_tail(
    hidden: Seq<char>,
    authentication: Seq<char>,
    encryption: Seq<char>,
    sk1: Seq<char>,
    sk2: Seq<char>,
    c: char,
)
    requires
        count_of(sk1, c) == count_of(sk2, c),
    ensures
        count_of(profile_layout(seq![], seq![], hidden, authentication, encryption, sk1), c)
            == count_of(profile_layout(seq![], seq![], hidden, authentication, encryption, sk2), c),
{
    let e: Seq<char> = seq![];
    let pre = "<?xml version=\"1.0\"?>\n<WLANProfile xmlns=\"http://www.microsoft.com/networking/WLAN/profile/v1\">\n    <name>"@
        + e + "</name>\n    <SSIDConfig>\n        <SSID>\n            <hex>"@ + e
        + "</hex>\n            <name>"@ + e + "</name>\n        </SSID>\n        <nonBroadcast>"@
        + hidden
        + "</nonBroadcast>\n    </SSIDConfig>\n    <connectionType>ESS</connectionType>\n    <connectionMode>auto</connectionMode>\n    <MSM>\n        <security>\n            <authEncryption>\n                <authentication>"@
        + authentication + "</authentication>\n                <encryption>"@ + encryption
        + "</encryption>\n                <useOneX>false</useOneX>\n            </authEncryption>"@;
    let tail = "\n        </security>\n    </MSM>\n</WLANProfile>\n"@;
    lemma_count_concat(pre, sk1, c);
    lemma_count_concat(pre, sk2, c);
    lemma_count_concat(pre + sk1, tail, c);
    lemma_count_concat(pre + sk2, tail, c);
}

} // verus!

verus! {

/// The security settings: "wpa" is WPA2-Personal with a passphrase, "wep"
/// is open authentication with WEP and a network key, and every other type
/// (such as "nopass") is an open network with no encryption and no key.
pub proof fn law_security_settings(security: Seq<char>)
    ensures
        security == "wpa"@ ==> security_settings(security) == ("WPA2PSK"@, "AES"@, Some(
            "passPhrase"@,
        )),
        security == "wep"@ ==> security_settings(security) == ("open"@, "WEP"@, Some(
            "networkKey"@,
        )),
        security != "wpa"@ && security != "wep"@ ==> security_settings(security) == (
            "open"@,
            "none"@,
            None::<Seq<char>>,
        ),
{
    reveal_strlit("wpa");
    reveal_strlit("wep");
    assert("wpa"@[1] != "wep"@[1]);
}

} // verus!
