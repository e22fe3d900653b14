//! What goes over the wire: the addresses that are requested, and how a
//! response is told apart into a page, a rate-limit signal or a failure.

use crate::model::System;
use std::time::Duration;
use vstd::prelude::*;
use vstd::string::*;

verus! {

/// How many systems one page holds at most.
pub const PAGE_SIZE: u64 = 20;

/// The status of a response that carries what was asked for.
pub const STATUS_OK: u16 = 200;

/// The status by which the service rejects a credential.
pub const STATUS_UNAUTHORIZED: u16 = 401;

/// The status by which the service refuses access with the credential given.
pub const STATUS_FORBIDDEN: u16 = 403;

/// The status by which the service asks the client to slow down.
pub const STATUS_TOO_MANY_REQUESTS: u16 = 429;

/// The decimal digit for a value below ten.
pub open spec fn digit(d: int) -> char {
    if d == 0 {
        '0'
    } else if d == 1 {
        '1'
    } else if d == 2 {
        '2'
    } else if d == 3 {
        '3'
    } else if d == 4 {
        '4'
    } else if d == 5 {
        '5'
    } else if d == 6 {
        '6'
    } else if d == 7 {
        '7'
    } else if d == 8 {
        '8'
    } else {
        '9'
    }
}

/// A number written in base ten, most significant digit first, without
/// leading zeros.
pub open spec fn decimal(n: nat) -> Seq<char>
    decreases n,
{
    if n < 10 {
        seq![digit(n as int)]
    } else {
        decimal(n / 10).push(digit((n % 10) as int))
    }
}

/// The address of the agent resource.
pub open spec fn agent_address() -> Seq<char> {
    "https://api.spacetraders.io/v2/my/agent"@
}

/// The address of one page of the system list.
pub open spec fn page_address(page: nat) -> Seq<char> {
    "https://api.spacetraders.io/v2/systems?limit="@ + decimal(PAGE_SIZE as nat) + "&page="@
        + decimal(page)
}

fn digit_text(d: u64) -> (text: &'static str)
    requires
        d < 10,
    ensures
        text@ == seq![digit(d as int)],
{
    proof {
        reveal_strlit("0");
        reveal_strlit("1");
        reveal_strlit("2");
        reveal_strlit("3");
        reveal_strlit("4");
        reveal_strlit("5");
        reveal_strlit("6");
        reveal_strlit("7");
        reveal_strlit("8");
        reveal_strlit("9");
    }
    let text = if d == 0 {
        "0"
    } else if d == 1 {
        "1"
    } else if d == 2 {
        "2"
    } else if d == 3 {
        "3"
    } else if d == 4 {
        "4"
    } else if d == 5 {
        "5"
    } else if d == 6 {
        "6"
    } else if d == 7 {
        "7"
    } else if d == 8 {
        "8"
    } else {
        "9"
    };
    assert(text@ =~= seq![digit(d as int)]);
    text
}

/// Appends a number in base ten to a text.
pub fn append_decimal(text: &mut String, n: u64)
    ensures
        final(text)@ == old(text)@ + decimal(n as nat),
    decreases n,
{
    if n >= 10 {
        append_decimal(text, n / 10);
    }
    text.append(digit_text(n % 10));
    assert(text@ =~= old(text)@ + decimal(n as nat));
}

/// The address from which the agent is read.
pub fn agent_url() -> (url: String)
    ensures
        url@ == agent_address(),
{
    String::from_str("https://api.spacetraders.io/v2/my/agent")
}

/// The address from which a page of the system list is read.
pub fn page_url(page: u64) -> (url: String)
    ensures
        url@ == page_address(page as nat),
{
    let mut url = String::from_str("https://api.spacetraders.io/v2/systems?limit=");
    append_decimal(&mut url, PAGE_SIZE);
    url.append("&page=");
    append_decimal(&mut url, page);
    url
}

/// Why a request for a page has failed for good.
#[derive(Debug, Clone, Copy, PartialEq, Eq, Structural)]
pub enum FailureKind {
    /// The request could not be sent, or the response could not be read.
    Transport,
    /// The response does not have the shape that was expected.
    Decode,
    /// The service rejected the credential.
    Auth,
}

/// Which content the body of a response is expected to hold.
#[derive(Debug, Clone, Copy, PartialEq, Eq, Structural)]
pub enum Shape {
    /// A slice of systems together with the total count.
    Systems,
    /// The time to wait before asking again.
    RetryAfter,
    /// Nothing of use.
    Nothing,
}

/// What the body of a response was decoded into.
#[derive(Debug)]
pub enum Body {
    /// A slice of systems, in the order of the service, and the total count.
    Systems { data: Vec<System>, total: i32 },
    /// The time that the service asks the client to wait.
    RetryAfter { wait: Duration },
    /// The body could not be decoded into the expected shape.
    Unreadable,
}

/// The answer to the request for one page, as the download sees it.
#[derive(Debug)]
pub enum Reply {
    /// The page, with the total count that came with it.
    Page { data: Vec<System>, total: i32 },
    /// The service asks to wait that long and then to send the same request
    /// again.
    RateLimited { wait: Duration },
    /// The request failed, and must not be sent again.
    Failed { kind: FailureKind },
}

/// The shape that the body of a response with the given status should have.
pub open spec fn shape_for(status: u16) -> Shape {
    if status == STATUS_OK {
        Shape::Systems
    } else if status == STATUS_TOO_MANY_REQUESTS {
        Shape::RetryAfter
    } else {
        Shape::Nothing
    }
}

/// How a response is told apart. Only a response with the rate-limit status
/// and a readable waiting time is a rate-limit signal; only a response with
/// the success status and a readable page is a page. Everything else is a
/// failure: of the credential where the status says so, of decoding
/// otherwise.
pub open spec fn classify_spec(status: u16, body: Body) -> Reply {
    if status == STATUS_TOO_MANY_REQUESTS {
        match body {
            Body::RetryAfter { wait } => Reply::RateLimited { wait },
            _ => Reply::Failed { kind: FailureKind::Decode },
        }
    } else if status == STATUS_UNAUTHORIZED || status == STATUS_FORBIDDEN {
        Reply::Failed { kind: FailureKind::Auth }
    } else if status == STATUS_OK {
        match body {
            Body::Systems { data, total } => Reply::Page { data, total },
            _ => Reply::Failed { kind: FailureKind::Decode },
        }
    } else {
        Reply::Failed { kind: FailureKind::Decode }
    }
}

/// Says which shape to decode the body of a response into.
pub fn expected_shape(status: u16) -> (shape: Shape)
    ensures
        shape == shape_for(status),
{
    if status == STATUS_OK {
        Shape::Systems
    } else if status == STATUS_TOO_MANY_REQUESTS {
        Shape::RetryAfter
    } else {
        Shape::Nothing
    }
}

/// Tells a response apart from its status and its decoded body.
pub fn classify(status: u16, body: Body) -> (reply: Reply)
    ensures
        reply == classify_spec(status, body),
{
    if status == STATUS_TOO_MANY_REQUESTS {
        match body {
            Body::RetryAfter { wait } => Reply::RateLimited { wait },
            _ => Reply::Failed { kind: FailureKind::Decode },
        }
    } else if status == STATUS_UNAUTHORIZED || status == STATUS_FORBIDDEN {
        Reply::Failed { kind: FailureKind::Auth }
    } else if status == STATUS_OK {
        match body {
            Body::Systems { data, total } => Reply::Page { data, total },
            _ => Reply::Failed { kind: FailureKind::Decode },
        }
    } else {
        Reply::Failed { kind: FailureKind::Decode }
    }
}

/// A response is a rate-limit signal or a page only if its body has the
/// shape that its status calls for; with the success status absent, no
/// response is a page, and without the rate-limit status none is retried.
pub proof fn law_classification(status: u16, body: Body)
    ensures
        classify_spec(status, body) is Page <==> status == STATUS_OK && body is Systems,
        classify_spec(status, body) is RateLimited <==> status == STATUS_TOO_MANY_REQUESTS
            && body is RetryAfter,
        classify_spec(status, body) is Page ==> shape_for(status) == Shape::Systems,
        classify_spec(status, body) is RateLimited ==> shape_for(status) == Shape::RetryAfter,
        status != STATUS_OK && status != STATUS_TOO_MANY_REQUESTS ==> classify_spec(
            status,
            body,
        ) is Failed,
{
}

} // verus!
