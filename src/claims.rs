//! The claims carried in a token, and their JSON form.

use vstd::prelude::*;
use crate::json::{Json, member};

verus! {

/// The claims signed into a token: its subject and its expiry time, in
/// seconds since the Unix epoch.
#[derive(Debug)]
pub struct Claims {
    pub sub: String,
    pub exp: u64,
}

/// The claims as plain values.
pub ghost struct ClaimsView {
    pub sub: Seq<char>,
    pub exp: u64,
}

impl View for Claims {
    type V = ClaimsView;

    open spec fn view(&self) -> ClaimsView {
        ClaimsView { sub: self.sub@, exp: self.exp }
    }
}

/// A hexadecimal digit, as serde_json writes it (lower case).
pub open spec fn hex_digit(d: nat) -> char {
    if d < 10 {
        (d + 48) as char
    } else {
        (d + 87) as char
    }
}

/// How serde_json writes one character inside a JSON string: `"` and `\`
/// behind a backslash, the controls backspace, tab, line feed, form feed and
/// carriage return as `\b \t \n \f \r`, the other characters below U+0020 as
/// `\u00XX`, and every other character as itself.
pub open spec fn json_escape(c: char) -> Seq<char> {
    if c == '"' {
        seq!['\\', '"']
    } else if c == '\\' {
        seq!['\\', '\\']
    } else if c == '\u{8}' {
        seq!['\\', 'b']
    } else if c == '\t' {
        seq!['\\', 't']
    } else if c == '\n' {
        seq!['\\', 'n']
    } else if c == '\u{c}' {
        seq!['\\', 'f']
    } else if c == '\r' {
        seq!['\\', 'r']
    } else if (c as u32) < 0x20 {
        seq!['\\', 'u', '0', '0', hex_digit((c as u32) as nat / 16), hex_digit((c as u32) as nat % 16)]
    } else {
        seq![c]
    }
}

/// The characters of `s`, each escaped.
pub open spec fn json_escaped(s: Seq<char>) -> Seq<char>
    decreases s.len(),
{
    if s.len() == 0 {
        Seq::empty()
    } else {
        json_escaped(s.drop_last()) + json_escape(s.last())
    }
}

/// The JSON string literal for `s`: its escaped characters between quotes.
pub open spec fn json_quoted(s: Seq<char>) -> Seq<char> {
    seq!['"'] + json_escaped(s) + seq!['"']
}

/// Relies on serde_json's `Display` for `Value::String`, which writes the
/// string as a quoted and escaped JSON literal.
#[verifier::external_body]
fn quote_json(s: &str) -> (r: String)
    ensures
        r@ == json_quoted(s@),
{
    serde_json::Value::String(s.to_string()).to_string()
}

/// The character of a decimal digit.
pub open spec fn digit_char(d: nat) -> char {
    (d + 48) as char
}

/// The decimal text of `n`, without leading zeros.
pub open spec fn decimal(n: nat) -> Seq<char>
    decreases n,
{
    if n < 10 {
        seq![digit_char(n)]
    } else {
        decimal(n / 10) + seq![digit_char(n % 10)]
    }
}

/// Appends the decimal text of `n` to `out`.
pub fn push_decimal(out: &mut String, n: u64)
    ensures
        final(out)@ == old(out)@ + decimal(n as nat),
    decreases n,
{
    if n >= 10 {
        push_decimal(out, n / 10);
    }
    let d = (n % 10) as usize;
    let digits = "0123456789";
    proof {
        reveal_strlit("0123456789");
    }
    let one = digits.substring_char(d, d + 1);
    assert(one@ =~= seq![digit_char(d as nat)]);
    out.append(one);
    assert(final(out)@ =~= old(out)@ + decimal(n as nat));
}

/// The JSON text of claims with subject `sub` and expiry `exp`, members in
/// the order subject, expiry.
pub open spec fn claims_text(c: ClaimsView) -> Seq<char> {
    "{\"sub\":"@ + json_quoted(c.sub) + ",\"exp\":"@ + decimal(c.exp as nat) + "}"@
}

/// Whether `s` holds no line feed.
pub open spec fn single_line(s: Seq<char>) -> bool {
    forall|i: int| 0 <= i < s.len() ==> s[i] != '\n'
}

/// Joining two texts without a line feed gives a text without one.
pub proof fn lemma_join_single_line(a: Seq<char>, b: Seq<char>)
    requires
        single_line(a),
        single_line(b),
    ensures
        single_line(a + b),
{
    assert forall|i: int| 0 <= i < (a + b).len() implies (a + b)[i] != '\n' by {
        if i >= a.len() {
            assert((a + b)[i] == b[i - a.len()]);
        }
    }
}

proof fn lemma_escape_single_line(c: char)
    ensures
        single_line(json_escape(c)),
{
    if (c as u32) < 0x20 && c != '"' && c != '\\' && c != '\u{8}' && c != '\t' && c != '\n'
        && c != '\u{c}' && c != '\r' {
        assert((c as u32) as nat / 16 < 16);
        assert((c as u32) as nat % 16 < 16);
    }
}

proof fn lemma_escaped_single_line(s: Seq<char>)
    ensures
        single_line(json_escaped(s)),
    decreases s.len(),
{
    if s.len() > 0 {
        lemma_escaped_single_line(s.drop_last());
        lemma_escape_single_line(s.last());
        lemma_join_single_line(json_escaped(s.drop_last()), json_escape(s.last()));
    }
}

proof fn lemma_decimal_single_line(n: nat)
    ensures
        single_line(decimal(n)),
    decreases n,
{
    if n >= 10 {
        lemma_decimal_single_line(n / 10);
        lemma_join_single_line(decimal(n / 10), seq![digit_char(n % 10)]);
    }
}

/// The JSON text of claims never holds a line feed, whatever the subject
/// holds: serde_json escapes it.
pub proof fn lemma_claims_text_single_line(c: ClaimsView)
    ensures
        single_line(claims_text(c)),
{
    reveal_strlit("{\"sub\":");
    reveal_strlit(",\"exp\":");
    reveal_strlit("}");
    lemma_escaped_single_line(c.sub);
    lemma_decimal_single_line(c.exp as nat);
    let t1 = "{\"sub\":"@ + json_quoted(c.sub);
    let t2 = t1 + ",\"exp\":"@;
    let t3 = t2 + decimal(c.exp as nat);
    lemma_join_single_line(seq!['"'], json_escaped(c.sub));
    lemma_join_single_line(seq!['"'] + json_escaped(c.sub), seq!['"']);
    lemma_join_single_line("{\"sub\":"@, json_quoted(c.sub));
    lemma_join_single_line(t1, ",\"exp\":"@);
    lemma_join_single_line(t2, decimal(c.exp as nat));
    lemma_join_single_line(t3, "}"@);
}

/// Writes `c` as JSON text.
pub fn encode_claims(c: &Claims) -> (r: String)
    ensures
        r@ == claims_text(c@),
{
    let mut out = String::from_str("{\"sub\":");
    let q = quote_json(c.sub.as_str());
    out.append(q.as_str());
    out.append(",\"exp\":");
    push_decimal(&mut out, c.exp);
    out.append("}");
    assert(out@ =~= claims_text(c@));
    out
}

/// The claims that a JSON value decodes to, if any: an object with a string
/// member `sub` and a member `exp` that is a whole number within `u64`, other
/// members being ignored; or an array of exactly those two values in that
/// order.
pub open spec fn claims_of(j: Json) -> Option<ClaimsView> {
    match j {
        Json::Object(_) => match (member(j, "sub"@), member(j, "exp"@)) {
            (Some(Json::Str(s)), Some(Json::Unsigned(e))) => Some(ClaimsView { sub: s@, exp: e }),
            _ => None,
        },
        Json::Array(items) => if items@.len() == 2 {
            match (items@[0], items@[1]) {
                (Json::Str(s), Json::Unsigned(e)) => Some(ClaimsView { sub: s@, exp: e }),
                _ => None,
            }
        } else {
            None
        },
        _ => None,
    }
}

/// Decodes claims from a JSON value.
pub fn decode_claims(j: &Json) -> (r: Option<Claims>)
    ensures
        match r {
            Some(c) => claims_of(*j) == Some(c@),
            None => claims_of(*j) is None,
        },
{
    match j {
        Json::Object(_) => {
            let sub = crate::json::get_member(j, "sub");
            let exp = crate::json::get_member(j, "exp");
            match (sub, exp) {
                (Some(Json::Str(s)), Some(Json::Unsigned(e))) => Some(Claims { sub: s.clone(), exp: *e }),
                _ => None,
            }
        },
        Json::Array(items) => {
            if items.len() == 2 {
                match (&items[0], &items[1]) {
                    (Json::Str(s), Json::Unsigned(e)) => Some(Claims { sub: s.clone(), exp: *e }),
                    _ => None,
                }
            } else {
                None
            }
        },
        _ => None,
    }
}

} // verus!
