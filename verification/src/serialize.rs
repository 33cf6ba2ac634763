use vstd::prelude::*;
use vstd::string::StrSliceExecFns;

use crate::model::{BidApp, BidDevice, BidRequest, BidSite, BidUser};

verus! {

/// The character for one hexadecimal digit (lower case).
pub open spec fn hex_char(d: u8) -> char {
    if d < 10 {
        ((48 + d) as u8) as char
    } else {
        ((87 + d) as u8) as char
    }
}

/// The escape sequence a character contributes to a JSON string literal:
/// quote and backslash are escaped, control characters become `\u00XX`,
/// everything else stands for itself.
pub open spec fn esc_char(c: char) -> Seq<char> {
    if c == '"' {
        seq!['\\', '"']
    } else if c == '\\' {
        seq!['\\', '\\']
    } else if (c as u32) < 32 {
        seq!['\\', 'u', '0', '0', hex_char(((c as u32) / 16) as u8), hex_char(
            ((c as u32) % 16) as u8,
        )]
    } else {
        seq![c]
    }
}

/// The body of a JSON string literal: every character escaped as needed.
pub open spec fn escape(s: Seq<char>) -> Seq<char>
    decreases s.len(),
{
    if s.len() == 0 {
        Seq::<char>::empty()
    } else {
        escape(s.drop_last()) + esc_char(s.last())
    }
}

/// A JSON string literal: the escaped body between double quotes.
pub open spec fn quoted(s: Seq<char>) -> Seq<char> {
    seq!['"'] + escape(s) + seq!['"']
}

/// The character for one decimal digit.
pub open spec fn dec_digit(d: u8) -> char {
    ((48 + d) as u8) as char
}

/// The decimal numeral of a natural number, most significant digit first.
pub open spec fn dec_nat(n: nat) -> Seq<char>
    decreases n,
{
    if n < 10 {
        seq![dec_digit(n as u8)]
    } else {
        dec_nat(n / 10) + seq![dec_digit((n % 10) as u8)]
    }
}

/// The decimal numeral of an integer, with a leading minus sign if negative.
pub open spec fn dec_int(n: int) -> Seq<char> {
    if n < 0 {
        seq!['-'] + dec_nat((-n) as nat)
    } else {
        dec_nat(n as nat)
    }
}

/// An optional string-valued member: `prefix` (comma, key and colon)
/// followed by the quoted value when present, nothing when absent.
pub open spec fn opt_str_member(prefix: Seq<char>, o: Option<String>) -> Seq<char> {
    match o {
        Some(s) => prefix + quoted(s@),
        None => Seq::<char>::empty(),
    }
}

/// Canonical encoding of a site: `domain` first, then the optional `id`.
pub open spec fn json_site(s: BidSite) -> Seq<char> {
    "{\"domain\":"@ + quoted(s.domain@) + opt_str_member(",\"id\":"@, s.id) + "}"@
}

/// Canonical encoding of an app.
pub open spec fn json_app(a: BidApp) -> Seq<char> {
    "{\"bundle\":"@ + quoted(a.bundle@) + "}"@
}

/// Canonical encoding of a device: the always-present `lmt` flag first,
/// then the optional members in a fixed order.
pub open spec fn json_device(d: BidDevice) -> Seq<char> {
    "{\"lmt\":"@ + dec_int(d.lmt as int) + opt_str_member(",\"ip\":"@, d.ip) + opt_str_member(
        ",\"os\":"@,
        d.os,
    ) + opt_str_member(",\"ua\":"@, d.ua) + "}"@
}

/// Canonical encoding of a user.
pub open spec fn json_user(u: BidUser) -> Seq<char> {
    "{\"id\":"@ + quoted(u.id@) + "}"@
}

/// The `site` member of the encoding, empty when the site is absent.
pub open spec fn seg_site(r: BidRequest) -> Seq<char> {
    match r.site {
        Some(s) => ",\"site\":"@ + json_site(s),
        None => Seq::<char>::empty(),
    }
}

/// The `app` member of the encoding, empty when the app is absent.
pub open spec fn seg_app(r: BidRequest) -> Seq<char> {
    match r.app {
        Some(a) => ",\"app\":"@ + json_app(a),
        None => Seq::<char>::empty(),
    }
}

/// The `device` member of the encoding, empty when the device is absent.
pub open spec fn seg_device(r: BidRequest) -> Seq<char> {
    match r.device {
        Some(d) => ",\"device\":"@ + json_device(d),
        None => Seq::<char>::empty(),
    }
}

/// The `user` member of the encoding, empty when the user is absent.
pub open spec fn seg_user(r: BidRequest) -> Seq<char> {
    match r.user {
        Some(u) => ",\"user\":"@ + json_user(u),
        None => Seq::<char>::empty(),
    }
}

/// Canonical JSON encoding of a bid request: members in a fixed order,
/// absent optional entities omitted entirely (never `null`), so that the
/// absent-vs-empty distinction survives serialization.
pub open spec fn json_request(r: BidRequest) -> Seq<char> {
    "{\"id\":"@ + quoted(r.id@) + seg_site(r) + seg_app(r) + seg_device(r) + seg_user(r) + "}"@
}

/// Appends every character of `s` to `out`.
fn push_chars(out: &mut Vec<char>, s: &str)
    ensures
        final(out)@ == old(out)@ + s@,
{
    let n = s.unicode_len();
    let mut i: usize = 0;
    while i < n
        invariant
            n == s@.len(),
            i <= n,
            out@ == old(out)@ + s@.subrange(0, i as int),
        decreases n - i,
    {
        out.push(s.get_char(i));
        proof {
            assert(s@.subrange(0, i as int).push(s@[i as int]) =~= s@.subrange(0, i + 1 as int));
        }
        i += 1;
    }
    proof {
        assert(s@.subrange(0, n as int) =~= s@);
    }
}

/// The character for one hexadecimal digit (lower case).
fn hex_char_exec(d: u8) -> (c: char)
    requires
        d < 16,
    ensures
        c == hex_char(d),
{
    if d < 10 {
        (48 + d) as char
    } else {
        (87 + d) as char
    }
}

/// Appends the JSON string literal for `s` to `out`.
fn push_quoted(out: &mut Vec<char>, s: &str)
    ensures
        final(out)@ == old(out)@ + quoted(s@),
{
    out.push('"');
    let n = s.unicode_len();
    let mut i: usize = 0;
    while i < n
        invariant
            n == s@.len(),
            i <= n,
            out@ == old(out)@ + seq!['"'] + escape(s@.subrange(0, i as int)),
        decreases n - i,
    {
        let c = s.get_char(i);
        if c == '"' {
            out.push('\\');
            out.push('"');
        } else if c == '\\' {
            out.push('\\');
            out.push('\\');
        } else if (c as u32) < 32 {
            out.push('\\');
            out.push('u');
            out.push('0');
            out.push('0');
            let v = c as u32;
            out.push(hex_char_exec((v / 16) as u8));
            out.push(hex_char_exec((v % 16) as u8));
        } else {
            out.push(c);
        }
        proof {
            let pre = s@.subrange(0, i as int);
            let pre1 = s@.subrange(0, i + 1 as int);
            assert(out@ =~= old(out)@ + seq!['"'] + escape(pre) + esc_char(s@[i as int]));
            assert(pre1.drop_last() =~= pre);
            assert(escape(pre1) == escape(pre) + esc_char(s@[i as int]));
        }
        i += 1;
    }
    out.push('"');
    proof {
        assert(s@.subrange(0, n as int) =~= s@);
        assert(out@ =~= old(out)@ + quoted(s@));
    }
}

/// The character for one decimal digit.
fn dec_digit_exec(d: u8) -> (c: char)
    requires
        d < 10,
    ensures
        c == dec_digit(d),
{
    (48 + d) as char
}

/// Appends the decimal numeral of `n` to `out`.
fn push_u32(out: &mut Vec<char>, n: u32)
    ensures
        final(out)@ == old(out)@ + dec_nat(n as nat),
    decreases n,
{
    if n < 10 {
        out.push(dec_digit_exec(n as u8));
    } else {
        push_u32(out, n / 10);
        out.push(dec_digit_exec((n % 10) as u8));
        proof {
            assert(out@ =~= old(out)@ + dec_nat(n as nat));
        }
    }
}

/// Appends the decimal numeral of `n` to `out`, with a sign if negative.
fn push_i32(out: &mut Vec<char>, n: i32)
    ensures
        final(out)@ == old(out)@ + dec_int(n as int),
{
    if n < 0 {
        out.push('-');
        let m: u32 = (-(n as i64)) as u32;
        push_u32(out, m);
        proof {
            assert(out@ =~= old(out)@ + dec_int(n as int));
        }
    } else {
        push_u32(out, n as u32);
    }
}

/// Appends an optional string-valued member to `out`.
fn push_opt_member(out: &mut Vec<char>, prefix: &str, o: &Option<String>)
    ensures
        final(out)@ == old(out)@ + opt_str_member(prefix@, *o),
{
    match o {
        Some(s) => {
            push_chars(out, prefix);
            push_quoted(out, s.as_str());
            proof {
                assert(out@ =~= old(out)@ + opt_str_member(prefix@, *o));
            }
        },
        None => {
            proof {
                assert(out@ =~= old(out)@ + opt_str_member(prefix@, *o));
            }
        },
    }
}

/// Appends the canonical encoding of a site to `out`.
fn push_site(out: &mut Vec<char>, s: &BidSite)
    ensures
        final(out)@ == old(out)@ + json_site(*s),
{
    push_chars(out, "{\"domain\":");
    push_quoted(out, s.domain.as_str());
    push_opt_member(out, ",\"id\":", &s.id);
    push_chars(out, "}");
    proof {
        assert(out@ =~= old(out)@ + json_site(*s));
    }
}

/// Appends the canonical encoding of an app to `out`.
fn push_app(out: &mut Vec<char>, a: &BidApp)
    ensures
        final(out)@ == old(out)@ + json_app(*a),
{
    push_chars(out, "{\"bundle\":");
    push_quoted(out, a.bundle.as_str());
    push_chars(out, "}");
    proof {
        assert(out@ =~= old(out)@ + json_app(*a));
    }
}

/// Appends the canonical encoding of a device to `out`.
fn push_device(out: &mut Vec<char>, d: &BidDevice)
    ensures
        final(out)@ == old(out)@ + json_device(*d),
{
    push_chars(out, "{\"lmt\":");
    push_i32(out, d.lmt);
    push_opt_member(out, ",\"ip\":", &d.ip);
    push_opt_member(out, ",\"os\":", &d.os);
    push_opt_member(out, ",\"ua\":", &d.ua);
    push_chars(out, "}");
    proof {
        assert(out@ =~= old(out)@ + json_device(*d));
    }
}

/// Appends the canonical encoding of a user to `out`.
fn push_user(out: &mut Vec<char>, u: &BidUser)
    ensures
        final(out)@ == old(out)@ + json_user(*u),
{
    push_chars(out, "{\"id\":");
    push_quoted(out, u.id.as_str());
    push_chars(out, "}");
    proof {
        assert(out@ =~= old(out)@ + json_user(*u));
    }
}

/// Stage 3, first half: serializes an accepted request to its canonical
/// JSON payload. Total: every request has an encoding, so serialization
/// of an admitted request cannot fail.
pub fn encode_request(r: &BidRequest) -> (payload: Vec<char>)
    ensures
        payload@ == json_request(*r),
{
    let ghost p0 = "{\"id\":"@ + quoted(r.id@);
    let ghost p1 = p0 + seg_site(*r);
    let ghost p2 = p1 + seg_app(*r);
    let ghost p3 = p2 + seg_device(*r);
    let ghost p4 = p3 + seg_user(*r);
    let mut out: Vec<char> = Vec::new();
    push_chars(&mut out, "{\"id\":");
    push_quoted(&mut out, r.id.as_str());
    proof {
        assert(out@ =~= p0);
    }
    match &r.site {
        Some(s) => {
            push_chars(&mut out, ",\"site\":");
            push_site(&mut out, s);
            proof {
                assert(out@ =~= p1);
            }
        },
        None => {
            proof {
                assert(out@ =~= p1);
            }
        },
    }
    match &r.app {
        Some(a) => {
            push_chars(&mut out, ",\"app\":");
            push_app(&mut out, a);
            proof {
                assert(out@ =~= p2);
            }
        },
        None => {
            proof {
                assert(out@ =~= p2);
            }
        },
    }
    match &r.device {
        Some(d) => {
            push_chars(&mut out, ",\"device\":");
            push_device(&mut out, d);
            proof {
                assert(out@ =~= p3);
            }
        },
        None => {
            proof {
                assert(out@ =~= p3);
            }
        },
    }
    match &r.user {
        Some(u) => {
            push_chars(&mut out, ",\"user\":");
            push_user(&mut out, u);
            proof {
                assert(out@ =~= p4);
            }
        },
        None => {
            proof {
                assert(out@ =~= p4);
            }
        },
    }
    push_chars(&mut out, "}");
    proof {
        assert(out@ =~= p4 + "}"@);
        assert(json_request(*r) == p4 + "}"@);
    }
    out
}

} // verus!
