//! The JSON documents handed to the alert script when the address record
//! changes or an error occurs.
use vstd::prelude::*;
use crate::text::{opt_string_view, push_char};

verus! {

/// The lower-case hexadecimal digit of `n`.
pub open spec fn hex_digit(n: u32) -> char {
    "0123456789abcdef"@[n as int]
}

/// The JSON escape of one character: quote, backslash and control
/// characters are escaped, everything else stands for itself.
pub open spec fn escape_char(c: char) -> Seq<char> {
    if c == '"' {
        seq!['\\', '"']
    } else if c == '\\' {
        seq!['\\', '\\']
    } else if c == '\n' {
        seq!['\\', 'n']
    } else if c == '\r' {
        seq!['\\', 'r']
    } else if c == '\t' {
        seq!['\\', 't']
    } else if (c as u32) < 0x20 {
        seq!['\\', 'u', '0', '0', hex_digit((c as u32) / 16), hex_digit((c as u32) % 16)]
    } else {
        seq![c]
    }
}

/// The JSON escape of a string's content.
pub open spec fn json_escape(s: Seq<char>) -> Seq<char>
    decreases s.len(),
{
    if s.len() == 0 {
        Seq::empty()
    } else {
        json_escape(s.drop_last()) + escape_char(s.last())
    }
}

/// A JSON string literal holding `s`.
pub open spec fn json_string(s: Seq<char>) -> Seq<char> {
    seq!['"'] + json_escape(s) + seq!['"']
}

/// Escaping leaves text without quotes, backslashes or control characters
/// as it is, and never lets a bare quote through: every quote in the
/// escaped text follows a backslash.
pub proof fn law_json_escape(s: Seq<char>)
    ensures
        (forall|i: int|
            0 <= i < s.len() ==> #[trigger] s[i] != '"' && s[i] != '\\' && (s[i] as u32) >= 0x20)
            ==> json_escape(s) == s,
        forall|i: int|
            0 <= i < json_escape(s).len() && #[trigger] json_escape(s)[i] == '"' ==> i > 0
                && json_escape(s)[i - 1] == '\\',
    decreases s.len(),
{
    reveal_strlit("0123456789abcdef");
    if s.len() > 0 {
        let init = s.drop_last();
        law_json_escape(init);
        let e = json_escape(init);
        let c = s.last();
        let tail = escape_char(c);
        assert(json_escape(s) == e + tail);
        assert forall|i: int| 0 <= i < tail.len() && #[trigger] tail[i] == '"' implies i > 0
            && tail[i - 1] == '\\' by {
            if (c as u32) < 0x20 && c != '\n' && c != '\r' && c != '\t' {
                assert((c as u32) / 16 < 16 && (c as u32) % 16 < 16);
            }
        }
        assert forall|i: int|
            0 <= i < json_escape(s).len() && #[trigger] json_escape(s)[i] == '"' implies i > 0
                && json_escape(s)[i - 1] == '\\' by {
            if i >= e.len() {
                assert(json_escape(s)[i] == tail[i - e.len()]);
                if i - e.len() > 0 {
                    assert(json_escape(s)[i - 1] == tail[i - e.len() - 1]);
                }
            } else {
                assert(json_escape(s)[i] == e[i]);
                assert(json_escape(s)[i - 1] == e[i - 1]);
            }
        }
        if forall|i: int|
            0 <= i < s.len() ==> #[trigger] s[i] != '"' && s[i] != '\\' && (s[i] as u32) >= 0x20 {
            assert forall|i: int|
                0 <= i < init.len() implies #[trigger] init[i] != '"' && init[i] != '\\' && (init[i] as u32)
                >= 0x20 by {
                assert(init[i] == s[i]);
            }
            assert(s[s.len() - 1] == c);
            assert(json_escape(s) =~= s);
        }
    } else {
        assert(json_escape(s) =~= s);
    }
}

/// Appends the JSON escape of `c` to `out`.
fn push_escaped(out: &mut String, c: char)
    ensures
        final(out)@ == old(out)@ + escape_char(c),
{
    if c == '"' {
        out.append("\\\"");
        proof { reveal_strlit("\\\""); }
    } else if c == '\\' {
        out.append("\\\\");
        proof { reveal_strlit("\\\\"); }
    } else if c == '\n' {
        out.append("\\n");
        proof { reveal_strlit("\\n"); }
    } else if c == '\r' {
        out.append("\\r");
        proof { reveal_strlit("\\r"); }
    } else if c == '\t' {
        out.append("\\t");
        proof { reveal_strlit("\\t"); }
    } else if (c as u32) < 0x20 {
        let digits = "0123456789abcdef";
        proof { reveal_strlit("0123456789abcdef"); reveal_strlit("\\u00"); }
        out.append("\\u00");
        let code = c as u32;
        push_char(out, digits.get_char((code / 16) as usize));
        push_char(out, digits.get_char((code % 16) as usize));
    } else {
        push_char(out, c);
    }
}

/// Appends `s` as a JSON string literal to `out`.
fn push_json_string(out: &mut String, s: &str)
    ensures
        final(out)@ == old(out)@ + json_string(s@),
{
    let ghost start = out@;
    push_char(out, '"');
    let n = s.unicode_len();
    let mut i: usize = 0;
    while i < n
        invariant
            n == s@.len(),
            i <= n,
            out@ == start + seq!['"'] + json_escape(s@.take(i as int)),
        decreases n - i,
    {
        let c = s.get_char(i);
        push_escaped(out, c);
        assert(s@.take(i as int + 1).drop_last() == s@.take(i as int));
        assert(s@.take(i as int + 1).last() == c);
        i = i + 1;
    }
    assert(s@.take(n as int) == s@);
    push_char(out, '"');
}

/// The document for a new address record: `{ "type": "ip-new", "dns": ..., "new": ... }`.
pub open spec fn ip_new_alert_spec(dns_name: Seq<char>, new_ip: Seq<char>) -> Seq<char> {
    "{ \"type\": \"ip-new\", \"dns\": "@ + json_string(dns_name) + ", \"new\": "@ + json_string(new_ip) + " }"@
}

/// The document for a changed address: `{ "type": "ip-change", "dns": ..., "old": ..., "new": ... }`.
pub open spec fn ip_change_alert_spec(dns_name: Seq<char>, old_ip: Seq<char>, new_ip: Seq<char>) -> Seq<char> {
    "{ \"type\": \"ip-change\", \"dns\": "@ + json_string(dns_name) + ", \"old\": "@ + json_string(old_ip)
        + ", \"new\": "@ + json_string(new_ip) + " }"@
}

/// The document for an error: `{ "type": "error", "msg": ... }`.
pub open spec fn error_alert_spec(msg: Seq<char>) -> Seq<char> {
    "{ \"type\": \"error\", \"msg\": "@ + json_string(msg) + " }"@
}

/// The document for writing `new_ip` to the record `dns_name`, which held
/// `old_ip` (if anything).
pub open spec fn address_alert_spec(dns_name: Seq<char>, old_ip: Option<Seq<char>>, new_ip: Seq<char>) -> Seq<char> {
    match old_ip {
        Some(old) => ip_change_alert_spec(dns_name, old, new_ip),
        None => ip_new_alert_spec(dns_name, new_ip),
    }
}

/// Text with no quote, backslash or control character goes into a JSON
/// document unchanged.
pub open spec fn plain_text(s: Seq<char>) -> bool {
    forall|i: int| 0 <= i < s.len() ==> #[trigger] s[i] != '"' && s[i] != '\\' && (s[i] as u32) >= 0x20
}

/// The documents have the shapes the alert script expects; for plain text
/// (names and addresses) the values appear verbatim between quotes.
pub proof fn law_alert_documents(dns: Seq<char>, old: Seq<char>, new: Seq<char>, msg: Seq<char>)
    requires
        plain_text(dns),
        plain_text(old),
        plain_text(new),
        plain_text(msg),
    ensures
        address_alert_spec(dns, None, new) == "{ \"type\": \"ip-new\", \"dns\": \""@ + dns
            + "\", \"new\": \""@ + new + "\" }"@,
        address_alert_spec(dns, Some(old), new) == "{ \"type\": \"ip-change\", \"dns\": \""@ + dns
            + "\", \"old\": \""@ + old + "\", \"new\": \""@ + new + "\" }"@,
        error_alert_spec(msg) == "{ \"type\": \"error\", \"msg\": \""@ + msg + "\" }"@,
{
    law_json_escape(dns);
    law_json_escape(old);
    law_json_escape(new);
    law_json_escape(msg);
    reveal_strlit("{ \"type\": \"ip-new\", \"dns\": ");
    reveal_strlit("{ \"type\": \"ip-new\", \"dns\": \"");
    reveal_strlit(", \"new\": ");
    reveal_strlit("\", \"new\": \"");
    reveal_strlit(" }");
    reveal_strlit("\" }");
    reveal_strlit("{ \"type\": \"ip-change\", \"dns\": ");
    reveal_strlit("{ \"type\": \"ip-change\", \"dns\": \"");
    reveal_strlit(", \"old\": ");
    reveal_strlit("\", \"old\": \"");
    reveal_strlit("{ \"type\": \"error\", \"msg\": ");
    reveal_strlit("{ \"type\": \"error\", \"msg\": \"");
    assert(address_alert_spec(dns, None, new) =~= "{ \"type\": \"ip-new\", \"dns\": \""@ + dns
        + "\", \"new\": \""@ + new + "\" }"@);
    assert(address_alert_spec(dns, Some(old), new) =~= "{ \"type\": \"ip-change\", \"dns\": \""@ + dns
        + "\", \"old\": \""@ + old + "\", \"new\": \""@ + new + "\" }"@);
    assert(error_alert_spec(msg) =~= "{ \"type\": \"error\", \"msg\": \""@ + msg + "\" }"@);
}

/// Builds the alert for an address record write.
pub fn address_alert(dns_name: &str, old_ip: &Option<String>, new_ip: &str) -> (r: String)
    ensures
        r@ == address_alert_spec(dns_name@, opt_string_view(*old_ip), new_ip@),
{
    match old_ip {
        Some(old) => {
            let mut r = "{ \"type\": \"ip-change\", \"dns\": ".to_owned();
            push_json_string(&mut r, dns_name);
            r.append(", \"old\": ");
            push_json_string(&mut r, old.as_str());
            r.append(", \"new\": ");
            push_json_string(&mut r, new_ip);
            r.append(" }");
            r
        },
        None => {
            let mut r = "{ \"type\": \"ip-new\", \"dns\": ".to_owned();
            push_json_string(&mut r, dns_name);
            r.append(", \"new\": ");
            push_json_string(&mut r, new_ip);
            r.append(" }");
            r
        },
    }
}

/// Builds the alert for an error.
pub fn error_alert(msg: &str) -> (r: String)
    ensures
        r@ == error_alert_spec(msg@),
{
    let mut r = "{ \"type\": \"error\", \"msg\": ".to_owned();
    push_json_string(&mut r, msg);
    r.append(" }");
    r
}

} // verus!
