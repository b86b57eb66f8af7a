use vstd::prelude::*;

verus! {

/// Everything that can go wrong while serving a request.
#[derive(Debug, PartialEq, Eq)]
pub enum GatewayError {
    /// The backend could not be reached at all; holds the transport error's text.
    BackendUnreachable(String),
    /// The backend answered, but with a status outside 200..=299.
    BackendStatus { status: u16, body: String },
    /// The queue had no room for the request.
    QueueFull,
    /// The scheduler went away while holding the request.
    SchedulerGone,
}

/// The HTTP status a client is shown for an error.
pub open spec fn status_of(e: GatewayError) -> u16 {
    match e {
        GatewayError::BackendUnreachable(_) => 502,
        GatewayError::BackendStatus { .. } => 502,
        GatewayError::QueueFull => 429,
        GatewayError::SchedulerGone => 500,
    }
}

/// The short machine-readable code a client is shown for an error.
pub open spec fn code_of(e: GatewayError) -> Seq<char> {
    match e {
        GatewayError::BackendUnreachable(_) => "backend_unreachable"@,
        GatewayError::BackendStatus { .. } => "backend_error"@,
        GatewayError::QueueFull => "429_queue_full"@,
        GatewayError::SchedulerGone => "scheduler_gone"@,
    }
}

/// The character of a decimal digit.
pub open spec fn digit_char(d: nat) -> char {
    if d == 0 { '0' } else if d == 1 { '1' } else if d == 2 { '2' } else if d == 3 { '3' }
    else if d == 4 { '4' } else if d == 5 { '5' } else if d == 6 { '6' } else if d == 7 { '7' }
    else if d == 8 { '8' } else { '9' }
}

/// The decimal notation of a natural number, without leading zeros.
pub open spec fn decimal(n: nat) -> Seq<char>
    decreases n,
{
    if n < 10 {
        seq![digit_char(n)]
    } else {
        decimal(n / 10).push(digit_char(n % 10))
    }
}

/// The reason phrase that the http crate registers for a status code, if any.
pub uninterp spec fn http_reason_phrase(code: u16) -> Option<Seq<char>>;

/// How a status code is written out: its number, a space, and its reason
/// phrase, or `<unknown status code>` where none is registered.
pub open spec fn status_line_of(code: u16) -> Seq<char> {
    let reason = if 100 <= code <= 999 && http_reason_phrase(code) is Some {
        http_reason_phrase(code)->0
    } else {
        "<unknown status code>"@
    };
    decimal(code as nat) + " "@ + reason
}

/// The human-readable message a client is shown for an error.
pub open spec fn message_of(e: GatewayError) -> Seq<char> {
    match e {
        GatewayError::BackendUnreachable(cause) => "Could not reach backend: "@ + cause@,
        GatewayError::BackendStatus { status, body } => "backend returned "@ + status_line_of(status)
            + ": "@ + body@,
        GatewayError::QueueFull => "Queue full, try again"@,
        GatewayError::SchedulerGone => "Scheduler crashed or shut down"@,
    }
}

/// Calls `StatusCode::from_u16` and then `StatusCode::canonical_reason` of the
/// http crate (re-exported by axum). Claims that the phrase returned is the one
/// the crate registers for the code, which `http_reason_phrase` names; the
/// table itself is not restated. `from_u16` accepts every code in 100..=999,
/// which `requires` keeps to, so its error arm is never taken.
#[verifier::external_body]
fn canonical_reason(code: u16) -> (r: Option<&'static str>)
    requires
        100 <= code <= 999,
    ensures
        r is Some <==> http_reason_phrase(code) is Some,
        r is Some ==> r->0@ == http_reason_phrase(code)->0,
{
    match axum::http::StatusCode::from_u16(code) {
        Ok(status) => status.canonical_reason(),
        Err(_) => None,
    }
}

fn digit_str(d: u16) -> (r: &'static str)
    requires
        d < 10,
    ensures
        r@ == seq![digit_char(d as nat)],
{
    proof {
        reveal_strlit("0");
        reveal_strlit("1");
        reveal_strlit("2");
        reveal_strlit("3");
        reveal_strlit("4");
        reveal_strlit("5");
        reveal_strlit("6");
        reveal_strlit("7");
        reveal_strlit("8");
        reveal_strlit("9");
    }
    if d == 0 { "0" } else if d == 1 { "1" } else if d == 2 { "2" } else if d == 3 { "3" }
    else if d == 4 { "4" } else if d == 5 { "5" } else if d == 6 { "6" } else if d == 7 { "7" }
    else if d == 8 { "8" } else { "9" }
}

/// Writes a number in decimal.
pub fn decimal_string(n: u16) -> (r: String)
    ensures
        r@ == decimal(n as nat),
    decreases n,
{
    if n < 10 {
        String::from_str(digit_str(n))
    } else {
        let mut s = decimal_string(n / 10);
        s.append(digit_str(n % 10));
        s
    }
}

/// Writes a status code as the http crate displays it, e.g. `502 Bad Gateway`.
pub fn status_line(code: u16) -> (r: String)
    ensures
        r@ == status_line_of(code),
{
    let mut s = decimal_string(code);
    s.append(" ");
    if 100 <= code && code <= 999 {
        match canonical_reason(code) {
            Some(reason) => {
                s.append(reason);
                return s;
            },
            None => {},
        }
    }
    s.append("<unknown status code>");
    s
}

/// What each error shows the client: backend failures are 502 Bad Gateway,
/// a full queue 429 Too Many Requests, a vanished scheduler 500; and each
/// kind of error has its own code.
pub proof fn lemma_error_replies(cause: String, status: u16, body: String)
    ensures
        status_of(GatewayError::BackendUnreachable(cause)) == 502,
        code_of(GatewayError::BackendUnreachable(cause)) == "backend_unreachable"@,
        status_of(GatewayError::BackendStatus { status, body }) == 502,
        code_of(GatewayError::BackendStatus { status, body }) == "backend_error"@,
        status_of(GatewayError::QueueFull) == 429,
        code_of(GatewayError::QueueFull) == "429_queue_full"@,
        status_of(GatewayError::SchedulerGone) == 500,
        code_of(GatewayError::SchedulerGone) == "scheduler_gone"@,
        message_of(GatewayError::BackendUnreachable(cause)) == "Could not reach backend: "@ + cause@,
        message_of(GatewayError::BackendStatus { status, body }) == "backend returned "@
            + status_line_of(status) + ": "@ + body@,
        message_of(GatewayError::QueueFull) == "Queue full, try again"@,
        message_of(GatewayError::SchedulerGone) == "Scheduler crashed or shut down"@,
{
}

/// A digit is written as the character that many places after `0`.
pub proof fn lemma_digit_char(d: nat)
    requires
        d < 10,
    ensures
        digit_char(d) as nat == '0' as nat + d,
{
}

/// Decimal notation: a single digit for numbers below ten, and otherwise the
/// notation of the number without its last digit, followed by that digit.
pub proof fn lemma_decimal_digits(n: nat)
    ensures
        n < 10 ==> decimal(n) == seq![digit_char(n)],
        decimal(n).len() >= 1,
        decimal(n).last() == digit_char(n % 10),
        n >= 10 ==> decimal(n) == decimal(n / 10).push(digit_char(n % 10)),
    decreases n,
{
    if n >= 10 {
        lemma_decimal_digits(n / 10);
    }
}

/// A status line is the code in decimal, a space, and the registered reason
/// phrase, or `<unknown status code>` where the code has none.
pub proof fn lemma_status_line(code: u16)
    ensures
        100 <= code <= 999 && http_reason_phrase(code) is Some ==> status_line_of(code)
            == decimal(code as nat) + " "@ + http_reason_phrase(code)->0,
        !(100 <= code <= 999 && http_reason_phrase(code) is Some) ==> status_line_of(code)
            == decimal(code as nat) + " "@ + "<unknown status code>"@,
{
}

impl GatewayError {
    /// The status code we show the client and the short code in the body.
    pub fn parts(&self) -> (r: (u16, &'static str))
        ensures
            r.0 == status_of(*self),
            r.1@ == code_of(*self),
            (*self is BackendUnreachable || *self is BackendStatus) ==> r.0 == 502,
            *self is QueueFull ==> r.0 == 429 && r.1@ == "429_queue_full"@,
            *self is SchedulerGone ==> r.0 == 500 && r.1@ == "scheduler_gone"@,
            *self is BackendUnreachable ==> r.1@ == "backend_unreachable"@,
            *self is BackendStatus ==> r.1@ == "backend_error"@,
    {
        match self {
            GatewayError::BackendUnreachable(_) => (502, "backend_unreachable"),
            GatewayError::BackendStatus { .. } => (502, "backend_error"),
            GatewayError::QueueFull => (429, "429_queue_full"),
            GatewayError::SchedulerGone => (500, "scheduler_gone"),
        }
    }

    /// The human-readable message, as the error displays itself.
    pub fn message(&self) -> (r: String)
        ensures
            r@ == message_of(*self),
    {
        match self {
            GatewayError::BackendUnreachable(cause) => {
                let mut s = String::from_str("Could not reach backend: ");
                s.append(cause.as_str());
                s
            },
            GatewayError::BackendStatus { status, body } => {
                let mut s = String::from_str("backend returned ");
                let line = status_line(*status);
                s.append(line.as_str());
                s.append(": ");
                s.append(body.as_str());
                s
            },
            GatewayError::QueueFull => String::from_str("Queue full, try again"),
            GatewayError::SchedulerGone => String::from_str("Scheduler crashed or shut down"),
        }
    }
}

} // verus!
