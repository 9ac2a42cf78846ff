use crate::dispatch::DispatchError;
use vstd::prelude::*;
use vstd::string::StringExecFns;

verus! {

/// The character of a decimal digit.
pub open spec fn digit_char(d: nat) -> char {
    if d == 0 {
        '0'
    } else if d == 1 {
        '1'
    } else if d == 2 {
        '2'
    } else if d == 3 {
        '3'
    } else if d == 4 {
        '4'
    } else if d == 5 {
        '5'
    } else if d == 6 {
        '6'
    } else if d == 7 {
        '7'
    } else if d == 8 {
        '8'
    } else {
        '9'
    }
}

/// The decimal digits of `n`, without leading zeros.
pub open spec fn decimal(n: nat) -> Seq<char>
    decreases n,
{
    if n < 10 {
        seq![digit_char(n)]
    } else {
        decimal(n / 10).push(digit_char(n % 10))
    }
}

/// A lowercase hex digit.
pub open spec fn hex_digit(d: nat) -> char {
    if d < 10 {
        digit_char(d)
    } else if d == 10 {
        'a'
    } else if d == 11 {
        'b'
    } else if d == 12 {
        'c'
    } else if d == 13 {
        'd'
    } else if d == 14 {
        'e'
    } else {
        'f'
    }
}

/// How JSON writes one character inside a string literal.
pub open spec fn json_escape(c: char) -> Seq<char> {
    if c == '"' {
        seq!['\\', '"']
    } else if c == '\\' {
        seq!['\\', '\\']
    } else if c == '\u{8}' {
        seq!['\\', 'b']
    } else if c == '\t' {
        seq!['\\', 't']
    } else if c == '\n' {
        seq!['\\', 'n']
    } else if c == '\u{c}' {
        seq!['\\', 'f']
    } else if c == '\r' {
        seq!['\\', 'r']
    } else if (c as u32) < 32 {
        seq!['\\', 'u', '0', '0', hex_digit((c as u32 / 16) as nat), hex_digit((c as u32 % 16) as nat)]
    } else {
        seq![c]
    }
}

/// A string as a JSON string literal.
pub open spec fn json_text(s: Seq<char>) -> Seq<char> {
    seq!['"'] + s.map_values(|c: char| json_escape(c)).flatten() + seq!['"']
}

/// What Rust's `Debug` formatting makes of a string: quoted, with escapes.
pub uninterp spec fn debug_text_of(s: Seq<char>) -> Seq<char>;

/// Relies on serde_json::to_string_pretty: a string serializes to its JSON
/// string literal; writing it to memory does not fail.
#[verifier::external_body]
fn json_quoted(s: &str) -> (r: String)
    ensures
        r@ == json_text(s@),
{
    serde_json::to_string_pretty(s).unwrap_or_default()
}

/// Relies on the `Debug` formatting of `str`, which depends on the characters alone.
#[verifier::external_body]
fn debug_quoted(s: &str) -> (r: String)
    ensures
        r@ == debug_text_of(s@),
{
    format!("{:?}", s)
}

/// The text of one decimal digit.
fn digit_text(d: u16) -> (r: &'static str)
    requires
        d < 10,
    ensures
        r@ == seq![digit_char(d as nat)],
{
    proof {
        reveal_strlit("0");
        reveal_strlit("1");
        reveal_strlit("2");
        reveal_strlit("3");
        reveal_strlit("4");
        reveal_strlit("5");
        reveal_strlit("6");
        reveal_strlit("7");
        reveal_strlit("8");
        reveal_strlit("9");
    }
    if d == 0 {
        "0"
    } else if d == 1 {
        "1"
    } else if d == 2 {
        "2"
    } else if d == 3 {
        "3"
    } else if d == 4 {
        "4"
    } else if d == 5 {
        "5"
    } else if d == 6 {
        "6"
    } else if d == 7 {
        "7"
    } else if d == 8 {
        "8"
    } else {
        "9"
    }
}

/// A status code in decimal.
pub fn decimal_text(n: u16) -> (r: String)
    ensures
        r@ == decimal(n as nat),
    decreases n,
{
    let last = digit_text(n % 10);
    if n < 10 {
        last.to_owned()
    } else {
        let mut s = decimal_text(n / 10);
        s.append(last);
        s
    }
}

/// The text shown for a completed call: its status, then the body as the
/// display quotes it.
pub open spec fn status_report(status: u16, shown_body: Seq<char>) -> Seq<char> {
    "Status "@ + decimal(status as nat) + " \nResponse: "@ + shown_body
}

/// Writes the report of a completed call, given the body already quoted
/// for display.
pub fn status_text(status: u16, shown_body: &str) -> (r: String)
    ensures
        r@ == status_report(status, shown_body@),
{
    let mut s = "Status ".to_owned();
    let d = decimal_text(status);
    s.append(d.as_str());
    s.append(" \nResponse: ");
    s.append(shown_body);
    s
}

/// How a completed call's body is shown: as a JSON string literal, written
/// out with `Debug` escapes.
pub open spec fn shown_body(body: Seq<char>) -> Seq<char> {
    debug_text_of(json_text(body))
}

/// The text of each error.
pub open spec fn error_message(e: DispatchError) -> Seq<char> {
    match e {
        DispatchError::MalformedHeader(m) => m@,
        DispatchError::Transport(m) => m@,
    }
}

impl DispatchError {
    /// The error's text.
    pub fn message(&self) -> (r: String)
        ensures
            r@ == error_message(*self),
    {
        match self {
            DispatchError::MalformedHeader(m) => m.clone(),
            DispatchError::Transport(m) => m.clone(),
        }
    }
}

/// The text the response area shows for the outcome of one dispatch.
pub open spec fn outcome_report(outcome: Result<(u16, String), DispatchError>) -> Seq<char> {
    match outcome {
        Ok((status, body)) => status_report(status, shown_body(body@)),
        Err(e) => "Error: "@ + error_message(e),
    }
}

/// Writes the text for the outcome of one dispatch. Any status, 404 or 500
/// included, is a completed call; only a failure to send is an error.
pub fn response_text(outcome: &Result<(u16, String), DispatchError>) -> (r: String)
    ensures
        r@ == outcome_report(*outcome),
        r@.len() > 0,
{
    proof {
        reveal_strlit("Status ");
        reveal_strlit("Error: ");
    }
    match outcome {
        Ok((status, body)) => {
            let quoted = json_quoted(body.as_str());
            let shown = debug_quoted(quoted.as_str());
            status_text(*status, shown.as_str())
        },
        Err(e) => {
            let mut s = "Error: ".to_owned();
            let m = e.message();
            s.append(m.as_str());
            s
        },
    }
}

/// Any status, 2xx or not, is reported as a completed call: the text starts
/// with the status in decimal and is never an error report.
pub proof fn lemma_any_status_is_a_completed_call(status: u16, body: String)
    ensures
        outcome_report(Ok((status, body))) == status_report(status, shown_body(body@)),
        outcome_report(Ok((status, body))).subrange(0, 7 + decimal(status as nat).len() as int)
            == "Status "@ + decimal(status as nat),
        forall|m: Seq<char>| outcome_report(Ok((status, body))) != "Error: "@ + m,
{
    reveal_strlit("Status ");
    reveal_strlit("Error: ");
    let r = outcome_report(Ok((status, body)));
    let head = "Status "@ + decimal(status as nat);
    assert(r == head + (" \nResponse: "@ + shown_body(body@)));
    assert(r.subrange(0, head.len() as int) =~= head);
    assert forall|m: Seq<char>| r != "Error: "@ + m by {
        assert(r[0] == 'S');
        assert(("Error: "@ + m)[0] == 'E');
    }
}

} // verus!
