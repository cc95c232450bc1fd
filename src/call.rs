//! Call identifiers, outbound method calls, and their wire encoding.
use vstd::prelude::*;
use crate::json::{is_json_text, json_string_text, json_text_valid, quote_json_string};

verus! {

/// The tag that pairs a method call with its eventual response.
#[derive(Clone, Copy, Debug, PartialEq, Eq, Structural)]
pub struct CallId(pub usize);

impl CallId {
    pub fn new(id: usize) -> (r: CallId)
        ensures
            r.0 == id,
    {
        CallId(id)
    }

    pub fn value(&self) -> (r: usize)
        ensures
            r == self.0,
    {
        self.0
    }
}

/// One outbound remote call. `params` holds the parameters as JSON text.
#[derive(Clone, Debug, PartialEq, Eq)]
pub struct MethodCall {
    pub id: CallId,
    pub method: String,
    pub session_id: Option<String>,
    pub params: String,
}

/// Why a call could not be written to the wire.
#[derive(Clone, Copy, Debug, PartialEq, Eq, Structural)]
pub enum EncodeError {
    /// The parameters are not one JSON document.
    InvalidParams,
}

/// The character of a decimal digit.
pub open spec fn digit_char(d: nat) -> char {
    if d == 0 { '0' }
    else if d == 1 { '1' }
    else if d == 2 { '2' }
    else if d == 3 { '3' }
    else if d == 4 { '4' }
    else if d == 5 { '5' }
    else if d == 6 { '6' }
    else if d == 7 { '7' }
    else if d == 8 { '8' }
    else { '9' }
}

/// The decimal digits of `n`, most significant first, without leading zeros.
pub open spec fn decimal(n: nat) -> Seq<char>
    decreases n,
{
    if n < 10 {
        seq![digit_char(n)]
    } else {
        decimal(n / 10) + seq![digit_char(n % 10)]
    }
}

/// The session member of a call's frame: absent when the call has no session.
pub open spec fn session_member(session_id: Option<String>) -> Seq<char> {
    match session_id {
        Some(s) => ",\"sessionId\":"@ + json_string_text(s@),
        None => Seq::empty(),
    }
}

/// The frame that carries a call:
/// `{"id":<id>,"method":<method>[,"sessionId":<session>],"params":<params>}`.
pub open spec fn frame_of(c: MethodCall) -> Seq<char> {
    "{\"id\":"@ + decimal(c.id.0 as nat) + ",\"method\":"@ + json_string_text(c.method@)
        + session_member(c.session_id) + ",\"params\":"@ + c.params@ + "}"@
}

fn digit_str(d: usize) -> (r: &'static str)
    requires
        d < 10,
    ensures
        r@ == seq![digit_char(d as nat)],
{
    proof {
        reveal_strlit("0");
        reveal_strlit("1");
        reveal_strlit("2");
        reveal_strlit("3");
        reveal_strlit("4");
        reveal_strlit("5");
        reveal_strlit("6");
        reveal_strlit("7");
        reveal_strlit("8");
        reveal_strlit("9");
    }
    if d == 0 { "0" }
    else if d == 1 { "1" }
    else if d == 2 { "2" }
    else if d == 3 { "3" }
    else if d == 4 { "4" }
    else if d == 5 { "5" }
    else if d == 6 { "6" }
    else if d == 7 { "7" }
    else if d == 8 { "8" }
    else { "9" }
}

/// Appends the decimal digits of `n`.
fn push_decimal(out: &mut String, n: usize)
    ensures
        final(out)@ == old(out)@ + decimal(n as nat),
    decreases n,
{
    if n >= 10 {
        push_decimal(out, n / 10);
    }
    let ghost mid = out@;
    out.append(digit_str(n % 10));
    assert(out@ == old(out)@ + decimal(n as nat)) by {
        if n >= 10 {
            assert(decimal(n as nat) == decimal((n / 10) as nat) + seq![digit_char((n % 10) as nat)]);
        }
    }
}

/// The decimal text of an integer.
pub fn decimal_text(n: usize) -> (r: String)
    ensures
        r@ == decimal(n as nat),
{
    let mut s = String::new();
    push_decimal(&mut s, n);
    s
}

/// Writes a call as its wire frame; fails when its parameters are not JSON.
pub fn encode_call(c: &MethodCall) -> (r: Result<String, EncodeError>)
    ensures
        r is Err <==> !json_text_valid(c.params@),
        r is Err ==> r == Err::<String, EncodeError>(EncodeError::InvalidParams),
        r is Ok ==> r->Ok_0@ == frame_of(*c),
{
    if !is_json_text(c.params.as_str()) {
        return Err(EncodeError::InvalidParams);
    }
    let mut out = String::new();
    out.append("{\"id\":");
    push_decimal(&mut out, c.id.0);
    out.append(",\"method\":");
    let m = quote_json_string(c.method.as_str());
    out.append(m.as_str());
    match &c.session_id {
        Some(s) => {
            out.append(",\"sessionId\":");
            let q = quote_json_string(s.as_str());
            out.append(q.as_str());
        },
        None => {},
    }
    out.append(",\"params\":");
    out.append(c.params.as_str());
    out.append("}");
    assert(out@ =~= frame_of(*c));
    Ok(out)
}

} // verus!
