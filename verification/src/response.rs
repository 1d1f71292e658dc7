//! The response builder: every outcome of a request becomes exactly one
//! response here. Success is `200` with the filter output as the body;
//! every failure is a JSON body of the fixed shape
//! `{"is_error":true,"message":"..."}` under the status its stage maps to.
//! The `Content-Type` of every response is `application/json`.

use vstd::prelude::*;
use vstd::string::StrSliceExecFns;
use vstd::string::StringExecFns;

verus! {

/// One HTTP header as the gateway sees it: a name and a value.
#[derive(Debug)]
pub struct Header {
    pub name: String,
    pub value: String,
}

/// Ghost image of a `Header`.
pub ghost struct HeaderV {
    pub name: Seq<char>,
    pub value: Seq<char>,
}

impl View for Header {
    type V = HeaderV;

    open spec fn view(&self) -> HeaderV {
        HeaderV { name: self.name@, value: self.value@ }
    }
}

/// The view of a whole header list.
pub open spec fn headers_view(hs: Seq<Header>) -> Seq<HeaderV> {
    Seq::new(hs.len(), |i: int| hs[i]@)
}

/// The response the gateway hands back to the serving layer: a status, the
/// headers to set besides `Content-Type` (which is always
/// `application/json`), and the body.
pub struct GatewayResponse {
    pub status: u16,
    pub headers: Vec<Header>,
    pub body: String,
}

/// How one character appears inside a JSON string literal: quote, backslash
/// and the common control characters are escaped; any other control
/// character is replaced by a space so that the body stays well-formed JSON;
/// everything else stands as it is.
pub open spec fn escape_char(c: char) -> Seq<char> {
    if c == '"' {
        seq!['\\', '"']
    } else if c == '\\' {
        seq!['\\', '\\']
    } else if c == '\n' {
        seq!['\\', 'n']
    } else if c == '\r' {
        seq!['\\', 'r']
    } else if c == '\t' {
        seq!['\\', 't']
    } else if (c as u32) < 32 {
        seq![' ']
    } else {
        seq![c]
    }
}

/// A string as it appears inside a JSON string literal: each character
/// escaped in turn.
pub open spec fn json_escape(s: Seq<char>) -> Seq<char>
    decreases s.len(),
{
    if s.len() == 0 {
        Seq::empty()
    } else {
        json_escape(s.drop_last()) + escape_char(s.last())
    }
}

/// The error body for a message: the fixed JSON shape every failing request
/// answers with.
pub open spec fn error_json(msg: Seq<char>) -> Seq<char> {
    "{\"is_error\":true,\"message\":\""@ + json_escape(msg) + "\"}"@
}

/// Relies on String::push: appends exactly one character to the string.
#[verifier::external_body]
fn push_char(s: &mut String, c: char)
    ensures
        final(s)@ == old(s)@.push(c),
{
    s.push(c);
}

/// Escapes a message for inclusion in a JSON string literal.
pub fn json_escape_str(s: &str) -> (r: String)
    ensures
        r@ == json_escape(s@),
{
    let n = s.unicode_len();
    let mut out = String::new();
    let mut k: usize = 0;
    while k < n
        invariant
            n == s@.len(),
            k <= n,
            out@ == json_escape(s@.take(k as int)),
        decreases n - k,
    {
        let c = s.get_char(k);
        proof {
            assert(s@.take(k as int + 1).drop_last() =~= s@.take(k as int));
            assert(s@.take(k as int + 1).last() == s@[k as int]);
        }
        if c == '"' {
            push_char(&mut out, '\\');
            push_char(&mut out, '"');
        } else if c == '\\' {
            push_char(&mut out, '\\');
            push_char(&mut out, '\\');
        } else if c == '\n' {
            push_char(&mut out, '\\');
            push_char(&mut out, 'n');
        } else if c == '\r' {
            push_char(&mut out, '\\');
            push_char(&mut out, 'r');
        } else if c == '\t' {
            push_char(&mut out, '\\');
            push_char(&mut out, 't');
        } else if (c as u32) < 32 {
            push_char(&mut out, ' ');
        } else {
            push_char(&mut out, c);
        }
        k += 1;
    }
    proof {
        assert(s@.take(n as int) =~= s@);
    }
    out
}

/// Builds the error body for a message.
pub fn error_body(message: &str) -> (r: String)
    ensures
        r@ == error_json(message@),
{
    let mut out: String = "{\"is_error\":true,\"message\":\"".to_owned();
    let escaped = json_escape_str(message);
    out.append(escaped.as_str());
    out.append("\"}");
    out
}

/// The digit character for one decimal digit.
pub open spec fn digit_char(d: nat) -> char {
    if d == 0 {
        '0'
    } else if d == 1 {
        '1'
    } else if d == 2 {
        '2'
    } else if d == 3 {
        '3'
    } else if d == 4 {
        '4'
    } else if d == 5 {
        '5'
    } else if d == 6 {
        '6'
    } else if d == 7 {
        '7'
    } else if d == 8 {
        '8'
    } else {
        '9'
    }
}

/// A number written in decimal, most significant digit first, without
/// leading zeroes (zero itself is written `0`).
pub open spec fn decimal_digits(n: nat) -> Seq<char>
    decreases n,
{
    if n < 10 {
        seq![digit_char(n)]
    } else {
        decimal_digits(n / 10).push(digit_char(n % 10))
    }
}

fn digit_char_exec(d: u16) -> (r: char)
    requires
        d < 10,
    ensures
        r == digit_char(d as nat),
{
    if d == 0 {
        '0'
    } else if d == 1 {
        '1'
    } else if d == 2 {
        '2'
    } else if d == 3 {
        '3'
    } else if d == 4 {
        '4'
    } else if d == 5 {
        '5'
    } else if d == 6 {
        '6'
    } else if d == 7 {
        '7'
    } else if d == 8 {
        '8'
    } else {
        '9'
    }
}

/// Writes a number in decimal.
pub fn u16_decimal(n: u16) -> (r: String)
    ensures
        r@ == decimal_digits(n as nat),
    decreases n,
{
    if n < 10 {
        let mut s = String::new();
        push_char(&mut s, digit_char_exec(n));
        s
    } else {
        let mut s = u16_decimal(n / 10);
        push_char(&mut s, digit_char_exec(n % 10));
        s
    }
}

/// Lower-cases one ASCII letter, given as its code point; leaves everything
/// else alone.
pub open spec fn lower_code(c: u32) -> u32 {
    if 65 <= c <= 90 {
        (c + 32) as u32
    } else {
        c
    }
}

/// Two characters are equal up to ASCII case.
pub open spec fn eq_ascii_nocase(a: char, b: char) -> bool {
    lower_code(a as u32) == lower_code(b as u32)
}

/// A header name is the `Content-Type` name, in any ASCII casing.
pub open spec fn is_content_type(name: Seq<char>) -> bool {
    &&& name.len() == "content-type"@.len()
    &&& forall|i: int|
        0 <= i < name.len() ==> eq_ascii_nocase(name[i], "content-type"@[i])
}

/// The upstream headers that a success response forwards: all of them, in
/// order and with duplicates kept, except any `Content-Type` header, which
/// the gateway always overrides.
pub open spec fn forwarded_headers(hs: Seq<HeaderV>) -> Seq<HeaderV>
    decreases hs.len(),
{
    if hs.len() == 0 {
        Seq::empty()
    } else if is_content_type(hs.last().name) {
        forwarded_headers(hs.drop_last())
    } else {
        forwarded_headers(hs.drop_last()).push(hs.last())
    }
}

fn lower_code_exec(c: u32) -> (r: u32)
    ensures
        r == lower_code(c),
{
    if 65 <= c && c <= 90 {
        c + 32
    } else {
        c
    }
}

fn eq_ascii_nocase_exec(a: char, b: char) -> (r: bool)
    ensures
        r == eq_ascii_nocase(a, b),
{
    lower_code_exec(a as u32) == lower_code_exec(b as u32)
}

/// Decides whether a header name is `Content-Type`, up to ASCII case.
pub fn name_is_content_type(name: &str) -> (r: bool)
    ensures
        r == is_content_type(name@),
{
    let ct: &str = "content-type";
    proof {
        reveal_strlit("content-type");
    }
    let n = name.unicode_len();
    if n != 12 {
        return false;
    }
    let mut k: usize = 0;
    while k < 12
        invariant
            n == name@.len(),
            n == 12,
            ct@ == "content-type"@,
            ct@.len() == 12,
            k <= 12,
            forall|i: int| 0 <= i < k ==> eq_ascii_nocase(name@[i], ct@[i]),
        decreases 12 - k,
    {
        let a = name.get_char(k);
        let b = ct.get_char(k);
        if !eq_ascii_nocase_exec(a, b) {
            return false;
        }
        k += 1;
    }
    true
}

/// Builds the success response: status `200`, the filter output as the
/// body, and the given upstream headers forwarded in order, minus any
/// `Content-Type` among them.
pub fn success_response(upstream_headers: &Vec<Header>, body: String) -> (r: GatewayResponse)
    ensures
        r.status == 200,
        r.body@ == body@,
        headers_view(r.headers@) =~= forwarded_headers(headers_view(upstream_headers@)),
{
    let mut kept: Vec<Header> = Vec::new();
    let n = upstream_headers.len();
    let mut k: usize = 0;
    while k < n
        invariant
            n == upstream_headers@.len(),
            k <= n,
            headers_view(kept@) =~= forwarded_headers(
                headers_view(upstream_headers@.take(k as int)),
            ),
        decreases n - k,
    {
        let ghost prefix = headers_view(upstream_headers@.take(k as int));
        let ghost next = headers_view(upstream_headers@.take(k as int + 1));
        proof {
            assert(next.drop_last() =~= prefix);
            assert(next.last() == upstream_headers@[k as int]@);
        }
        let h = &upstream_headers[k];
        if !name_is_content_type(h.name.as_str()) {
            let copied = Header { name: h.name.clone(), value: h.value.clone() };
            kept.push(copied);
            proof {
                assert(headers_view(kept@) =~= forwarded_headers(next));
            }
        }
        k += 1;
    }
    proof {
        assert(upstream_headers@.take(n as int) =~= upstream_headers@);
    }
    GatewayResponse { status: 200, headers: kept, body }
}

/// Builds the response for a failing request: the given status, no headers
/// besides `Content-Type`, and the error body for the message.
pub fn error_response(status: u16, message: &str) -> (r: GatewayResponse)
    ensures
        r.status == status,
        r.body@ == error_json(message@),
        r.headers@.len() == 0,
{
    GatewayResponse { status, headers: Vec::new(), body: error_body(message) }
}

} // verus!
