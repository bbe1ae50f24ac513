//! The wire format of the live event stream: each domain event travels
//! as a JSON envelope `{"type": ..., "data": ...}`. The rendering is
//! specified character by character, escaping included.

use crate::events::AppEvent;
use crate::fields::{digit_char, push_char, User, UserV};
use vstd::prelude::*;
use vstd::string::StrSliceExecFns;

verus! {

/// The hexadecimal digit character for `d` (0 through 15), lower case.
pub open spec fn hex_digit(d: int) -> char {
    if d < 10 {
        digit_char(d)
    } else {
        ((97 + d - 10) as u8) as char
    }
}

/// How one character reads inside a JSON string: quote and backslash are
/// escaped, the common control characters get their short escapes, the
/// remaining control characters a `\u00..` escape, and everything else
/// stands as itself.
pub open spec fn escape_char(c: char) -> Seq<char> {
    if c == '"' {
        seq!['\\', '"']
    } else if c == '\\' {
        seq!['\\', '\\']
    } else if c == '\n' {
        seq!['\\', 'n']
    } else if c == '\r' {
        seq!['\\', 'r']
    } else if c == '\t' {
        seq!['\\', 't']
    } else if (c as int) < 32 {
        seq!['\\', 'u', '0', '0', hex_digit(c as int / 16), hex_digit(c as int % 16)]
    } else {
        seq![c]
    }
}

/// A character sequence, escaped for a JSON string.
pub open spec fn escape_seq(s: Seq<char>) -> Seq<char>
    decreases s.len(),
{
    if s.len() == 0 {
        Seq::empty()
    } else {
        escape_seq(s.drop_last()) + escape_char(s.last())
    }
}

/// A JSON string: the escaped characters between quotes.
pub open spec fn json_string(s: Seq<char>) -> Seq<char> {
    seq!['"'] + escape_seq(s) + seq!['"']
}

/// The decimal rendering of a nonnegative number.
pub open spec fn dec_rep(n: int) -> Seq<char>
    decreases n,
{
    if n <= 9 {
        seq![digit_char(n)]
    } else {
        dec_rep(n / 10).push(digit_char(n % 10))
    }
}

/// The decimal rendering of a number, sign included.
pub open spec fn int_rep(n: int) -> Seq<char> {
    if n < 0 {
        seq!['-'] + dec_rep(-n)
    } else {
        dec_rep(n)
    }
}

/// How a user record reads on the wire.
pub open spec fn json_of_user(u: UserV) -> Seq<char> {
    "{\"username\":"@ + json_string(u.username) + ",\"inviteCode\":"@ + json_string(u.invite_code)
        + ",\"referredBy\":"@ + (match u.referred_by {
        Some(r) => json_string(r),
        None => "null"@,
    }) + ",\"referrals\":"@ + int_rep(u.referrals) + "}"@
}

/// How a domain event reads on the wire: the tagged envelope.
pub open spec fn json_of_event(e: crate::events::AppEventV) -> Seq<char> {
    match e {
        crate::events::AppEventV::NewLogin(u) => "{\"type\":\"NewLogin\",\"data\":"@
            + json_of_user(u) + "}"@,
        crate::events::AppEventV::NewRegister(u) => "{\"type\":\"NewRegister\",\"data\":"@
            + json_of_user(u) + "}"@,
        crate::events::AppEventV::NewReferral(r) => "{\"type\":\"NewReferral\",\"data\":{\"referrer\":"@
            + json_string(r.referrer) + ",\"referred_user\":"@ + json_string(r.referred_user)
            + "}}"@,
    }
}

/// The hexadecimal digit character for `d`, lower case.
fn hex_digit_exec(d: u32) -> (c: char)
    requires
        d < 16,
    ensures
        c == hex_digit(d as int),
{
    if d < 10 {
        (48 + d as u8) as char
    } else {
        (97 + (d - 10) as u8) as char
    }
}

/// Appends one character in its JSON-escaped form.
fn append_escaped_char(out: &mut String, c: char)
    ensures
        final(out)@ == old(out)@ + escape_char(c),
{
    if c == '"' {
        push_char(out, '\\');
        push_char(out, '"');
    } else if c == '\\' {
        push_char(out, '\\');
        push_char(out, '\\');
    } else if c == '\n' {
        push_char(out, '\\');
        push_char(out, 'n');
    } else if c == '\r' {
        push_char(out, '\\');
        push_char(out, 'r');
    } else if c == '\t' {
        push_char(out, '\\');
        push_char(out, 't');
    } else if (c as u32) < 32 {
        push_char(out, '\\');
        push_char(out, 'u');
        push_char(out, '0');
        push_char(out, '0');
        push_char(out, hex_digit_exec((c as u32) / 16));
        push_char(out, hex_digit_exec((c as u32) % 16));
    } else {
        push_char(out, c);
    }
    proof {
        assert(out@ =~= old(out)@ + escape_char(c));
    }
}

/// Appends `s` as a JSON string, quotes and escapes included.
fn append_json_string(out: &mut String, s: &str)
    ensures
        final(out)@ == old(out)@ + json_string(s@),
{
    push_char(out, '"');
    let n = s.unicode_len();
    let mut i: usize = 0;
    proof {
        assert(escape_seq(s@.take(0)) =~= Seq::<char>::empty());
    }
    while i < n
        invariant
            n == s@.len(),
            i <= n,
            out@ == old(out)@ + seq!['"'] + escape_seq(s@.take(i as int)),
        decreases n - i,
    {
        let c = s.get_char(i);
        proof {
            assert(s@.take(i + 1).drop_last() =~= s@.take(i as int));
            assert(s@.take(i + 1).last() == s@[i as int]);
        }
        append_escaped_char(out, c);
        proof {
            assert(out@ =~= old(out)@ + seq!['"'] + escape_seq(s@.take(i + 1)));
        }
        i += 1;
    }
    push_char(out, '"');
    proof {
        assert(s@.take(n as int) =~= s@);
        assert(out@ =~= old(out)@ + json_string(s@));
    }
}

/// Appends the decimal rendering of a nonnegative number.
fn append_u64_dec(out: &mut String, n: u64)
    ensures
        final(out)@ == old(out)@ + dec_rep(n as int),
    decreases n,
{
    if n <= 9 {
        push_char(out, (48 + n as u8) as char);
    } else {
        append_u64_dec(out, n / 10);
        push_char(out, (48 + (n % 10) as u8) as char);
    }
}

/// Appends the decimal rendering of a number, sign included.
fn append_i64_dec(out: &mut String, n: i64)
    ensures
        final(out)@ == old(out)@ + int_rep(n as int),
{
    if n < 0 {
        push_char(out, '-');
        let magnitude: u64 = ((-(n + 1)) as u64) + 1;
        append_u64_dec(out, magnitude);
        proof {
            assert(out@ =~= old(out)@ + int_rep(n as int));
        }
    } else {
        append_u64_dec(out, n as u64);
    }
}

/// Appends a user record as it reads on the wire.
fn append_user_json(out: &mut String, user: &User)
    ensures
        final(out)@ == old(out)@ + json_of_user(user@),
{
    out.append("{\"username\":");
    append_json_string(out, user.username.as_str());
    out.append(",\"inviteCode\":");
    append_json_string(out, user.invite_code.as_str());
    out.append(",\"referredBy\":");
    match &user.referred_by {
        Some(r) => append_json_string(out, r.as_str()),
        None => out.append("null"),
    }
    out.append(",\"referrals\":");
    append_i64_dec(out, user.referrals);
    out.append("}");
    proof {
        assert(out@ =~= old(out)@ + json_of_user(user@));
    }
}

/// Renders a domain event as the JSON envelope the live stream sends.
pub fn event_to_json(event: &AppEvent) -> (r: String)
    ensures
        r@ == json_of_event(event@),
{
    let mut out = String::new();
    match event {
        AppEvent::NewLogin(u) => {
            out.append("{\"type\":\"NewLogin\",\"data\":");
            append_user_json(&mut out, u);
            out.append("}");
        },
        AppEvent::NewRegister(u) => {
            out.append("{\"type\":\"NewRegister\",\"data\":");
            append_user_json(&mut out, u);
            out.append("}");
        },
        AppEvent::NewReferral(e) => {
            out.append("{\"type\":\"NewReferral\",\"data\":{\"referrer\":");
            append_json_string(&mut out, e.referrer.as_str());
            out.append(",\"referred_user\":");
            append_json_string(&mut out, e.referred_user.as_str());
            out.append("}}");
        },
    }
    proof {
        assert(out@ =~= json_of_event(event@));
    }
    out
}

} // verus!
