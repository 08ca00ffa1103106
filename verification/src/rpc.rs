use vstd::prelude::*;
use vstd::utf8::*;

use crate::fib::{checked_fibonacci, fib_fits_i64, spec_fib};
use crate::text::{
    body_i64, body_text, body_u64, decimal, decode_text, i64_body, lemma_decode_encoded,
    lemma_parse_decimal, parse_i64, parse_u64, signed_decimal, trim, u64_body,
};

verus! {

/// What the Fibonacci server does with one delivery.
#[derive(Debug)]
pub enum ServerAction {
    /// Drop the delivery: no acknowledgement and no reply.
    Ignore,
    /// Acknowledge the delivery, then publish `body` to the queue `reply_to`
    /// under `correlation_id`.
    Reply { reply_to: String, correlation_id: String, body: Vec<u8> },
    /// The requested number has no Fibonacci number that fits in `i64` (it is
    /// negative, or too large): the server cannot answer and stops.
    Unanswerable,
}

/// The mathematical content of a `ServerAction`.
pub enum ServerActionView {
    Ignore,
    Reply { reply_to: Seq<char>, correlation_id: Seq<char>, body: Seq<u8> },
    Unanswerable,
}

impl View for ServerAction {
    type V = ServerActionView;

    open spec fn view(&self) -> ServerActionView {
        match self {
            ServerAction::Ignore => ServerActionView::Ignore,
            ServerAction::Reply { reply_to, correlation_id, body } => ServerActionView::Reply {
                reply_to: reply_to@,
                correlation_id: correlation_id@,
                body: body@,
            },
            ServerAction::Unanswerable => ServerActionView::Unanswerable,
        }
    }
}

/// The text of an optional string property.
pub open spec fn opt_text(o: Option<String>) -> Option<Seq<char>> {
    match o {
        Some(s) => Some(s@),
        None => None,
    }
}

/// The number that a request body asks for: its UTF-8 text, trimmed, parsed as `i64`.
pub open spec fn requested_number(body: Seq<u8>) -> Option<i64> {
    match decode_text(body) {
        Some(s) => parse_i64(trim(s)),
        None => None,
    }
}

/// The server's decision for a delivery with the given body and the `reply_to` and
/// `correlation_id` properties: ignore it unless the body is a number and both
/// properties are present; then reply with the decimal text of the number's
/// Fibonacci number, to `reply_to`, under the same correlation id.
pub open spec fn server_decision(
    body: Seq<u8>,
    reply_to: Option<Seq<char>>,
    correlation_id: Option<Seq<char>>,
) -> ServerActionView {
    match requested_number(body) {
        None => ServerActionView::Ignore,
        Some(n) => match (reply_to, correlation_id) {
            (Some(r), Some(c)) => if fib_fits_i64(n as int) {
                ServerActionView::Reply {
                    reply_to: r,
                    correlation_id: c,
                    body: encode_utf8(signed_decimal(spec_fib(n as nat) as int)),
                }
            } else {
                ServerActionView::Unanswerable
            },
            _ => ServerActionView::Ignore,
        },
    }
}

/// Decides what the Fibonacci server does with a delivery, from its body and its
/// `reply_to` and `correlation_id` properties.
pub fn parse_delivery(body: &[u8], reply_to: Option<String>, correlation_id: Option<String>) -> (r:
    ServerAction)
    ensures
        r@ == server_decision(body@, opt_text(reply_to), opt_text(correlation_id)),
{
    let num = match body_i64(body) {
        Some(n) => n,
        None => return ServerAction::Ignore,
    };
    let reply_to = match reply_to {
        Some(r) => r,
        None => return ServerAction::Ignore,
    };
    let correlation_id = match correlation_id {
        Some(c) => c,
        None => return ServerAction::Ignore,
    };
    match checked_fibonacci(num) {
        Some(fib) => ServerAction::Reply { reply_to, correlation_id, body: i64_body(fib) },
        None => ServerAction::Unanswerable,
    }
}

/// A lowercase hexadecimal digit.
pub open spec fn is_lower_hex(c: char) -> bool {
    ('0' <= c <= '9') || ('a' <= c <= 'f')
}

/// The hyphenated lowercase text of a random (version 4, RFC 4122 variant) UUID:
/// 36 characters, hyphens at positions 8, 13, 18 and 23, lowercase hex digits
/// elsewhere, `4` at position 14, and one of `8`, `9`, `a`, `b` at position 19.
pub open spec fn is_uuid_v4_text(s: Seq<char>) -> bool {
    &&& s.len() == 36
    &&& forall|i: int|
        0 <= i < 36 ==> if i == 8 || i == 13 || i == 18 || i == 23 {
            #[trigger] s[i] == '-'
        } else {
            is_lower_hex(s[i])
        }
    &&& s[14] == '4'
    &&& (s[19] == '8' || s[19] == '9' || s[19] == 'a' || s[19] == 'b')
}

/// Wraps `uuid::Uuid::new_v4` followed by `to_string`: a fresh random UUID in its
/// hyphenated lowercase text. Which UUID comes out rests on the random number
/// generator, so only its form is stated.
#[verifier::external_body]
fn random_uuid_text() -> (r: String)
    ensures
        is_uuid_v4_text(r@),
{
    uuid::Uuid::new_v4().to_string()
}

/// A request of the Fibonacci client: the correlation id that its reply must carry,
/// and the message body.
#[derive(Debug)]
pub struct RpcRequest {
    pub correlation_id: String,
    pub body: Vec<u8>,
}

/// Builds the request for the Fibonacci number of `num`: a fresh random UUID as the
/// correlation id, and the decimal text of `num` as the body.
pub fn new_request(num: u64) -> (r: RpcRequest)
    ensures
        is_uuid_v4_text(r.correlation_id@),
        r.body@ == encode_utf8(decimal(num as nat)),
{
    let correlation_id = random_uuid_text();
    RpcRequest { correlation_id, body: u64_body(num) }
}

/// What the Fibonacci client receives after publishing a request.
#[derive(Debug)]
pub enum ReplyEvent {
    /// No message came in time.
    TimedOut,
    /// A delivery, with its `correlation_id` property and its body.
    Delivery { correlation_id: Option<String>, body: Vec<u8> },
    /// Some other consumer message (such as a cancellation).
    Other,
}

/// The mathematical content of a `ReplyEvent`.
pub enum ReplyEventView {
    TimedOut,
    Delivery { correlation_id: Option<Seq<char>>, body: Seq<u8> },
    Other,
}

impl View for ReplyEvent {
    type V = ReplyEventView;

    open spec fn view(&self) -> ReplyEventView {
        match self {
            ReplyEvent::TimedOut => ReplyEventView::TimedOut,
            ReplyEvent::Delivery { correlation_id, body } => ReplyEventView::Delivery {
                correlation_id: opt_text(*correlation_id),
                body: body@,
            },
            ReplyEvent::Other => ReplyEventView::Other,
        }
    }
}

/// How the Fibonacci client ends a call.
#[derive(Debug, Clone, Copy, PartialEq, Eq, Structural)]
pub enum ReplyOutcome {
    /// The answer: acknowledge the delivery and return it.
    Value(u64),
    /// No reply in time: report it and exit with status 1.
    TimedOut,
    /// A delivery without a correlation id: report it and exit with status 1.
    MissingCorrelation,
    /// A delivery for another request: report it and exit with status 1.
    WrongCorrelation,
    /// The reply body is not UTF-8: the client fails before acknowledging it.
    InvalidUtf8,
    /// The reply body is not an unsigned number: the client fails after acknowledging it.
    InvalidNumber,
    /// Some other consumer message: report it and exit with status 1.
    Unexpected,
}

/// The client's reading of a reply event, for the request with correlation id `local`.
pub open spec fn reply_outcome(local: Seq<char>, event: ReplyEventView) -> ReplyOutcome {
    match event {
        ReplyEventView::TimedOut => ReplyOutcome::TimedOut,
        ReplyEventView::Other => ReplyOutcome::Unexpected,
        ReplyEventView::Delivery { correlation_id, body } => match correlation_id {
            None => ReplyOutcome::MissingCorrelation,
            Some(c) => if c != local {
                ReplyOutcome::WrongCorrelation
            } else {
                match decode_text(body) {
                    None => ReplyOutcome::InvalidUtf8,
                    Some(s) => match parse_u64(trim(s)) {
                        None => ReplyOutcome::InvalidNumber,
                        Some(v) => ReplyOutcome::Value(v),
                    },
                }
            },
        },
    }
}

/// Reads what came back for the request with correlation id `local_correlation_id`.
pub fn read_reply(local_correlation_id: &String, event: &ReplyEvent) -> (r: ReplyOutcome)
    ensures
        r == reply_outcome(local_correlation_id@, event@),
{
    match event {
        ReplyEvent::TimedOut => ReplyOutcome::TimedOut,
        ReplyEvent::Other => ReplyOutcome::Unexpected,
        ReplyEvent::Delivery { correlation_id, body } => match correlation_id {
            None => ReplyOutcome::MissingCorrelation,
            Some(c) => {
                if !c.eq(local_correlation_id) {
                    return ReplyOutcome::WrongCorrelation;
                }
                match body_text(body.as_slice()) {
                    None => ReplyOutcome::InvalidUtf8,
                    Some(_) => match body_u64(body.as_slice()) {
                        None => ReplyOutcome::InvalidNumber,
                        Some(v) => ReplyOutcome::Value(v),
                    },
                }
            },
        },
    }
}

/// Every reply of the server answers the request it was given: it goes to the
/// delivery's own `reply_to` queue under the delivery's own correlation id, the
/// body's UTF-8 text, trimmed, is a number `n` whose Fibonacci number fits in
/// `i64`, and the reply carries the decimal text of `fib(n)`, which the client
/// reads back as `fib(n)`.
pub proof fn lemma_reply_answers_request(
    body: Seq<u8>,
    reply_to: Option<Seq<char>>,
    correlation_id: Option<Seq<char>>,
)
    ensures
        server_decision(body, reply_to, correlation_id) matches ServerActionView::Reply {
            reply_to: r,
            correlation_id: c,
            body: out,
        } ==> {
            &&& reply_to == Some(r)
            &&& correlation_id == Some(c)
            &&& (match decode_text(body) {
                Some(s) => parse_i64(trim(s)),
                None => None::<i64>,
            }) matches Some(n)
            &&& 0 <= n
            &&& spec_fib(n as nat) <= i64::MAX
            &&& out == encode_utf8(decimal(spec_fib(n as nat)))
            &&& decode_text(out) == Some(decimal(spec_fib(n as nat)))
            &&& parse_u64(trim(decimal(spec_fib(n as nat)))) == Some(spec_fib(n as nat) as u64)
        },
{
    if let ServerActionView::Reply { reply_to: r, correlation_id: c, body: out } = server_decision(
        body,
        reply_to,
        correlation_id,
    ) {
        let n = requested_number(body)->0;
        let f = spec_fib(n as nat);
        lemma_decode_encoded(decimal(f));
        lemma_parse_decimal(f);
    }
}

/// A request that carries both properties and a number is always dealt with: it is
/// answered when the number's Fibonacci number fits in `i64`, and otherwise it is
/// unanswerable, never answered with some other number.
pub proof fn lemma_request_with_properties(body: Seq<u8>, r: Seq<char>, c: Seq<char>, n: i64)
    requires
        (match decode_text(body) {
            Some(s) => parse_i64(trim(s)),
            None => None::<i64>,
        }) == Some(n),
    ensures
        fib_fits_i64(n as int) ==> server_decision(body, Some(r), Some(c)) == (ServerActionView::Reply {
            reply_to: r,
            correlation_id: c,
            body: encode_utf8(decimal(spec_fib(n as nat))),
        }),
        !fib_fits_i64(n as int) ==> server_decision(body, Some(r), Some(c))
            == ServerActionView::Unanswerable,
{
}

/// The server drops a delivery exactly when its body is not a number (UTF-8 text
/// that trims to an `i64`) or a property is missing; it is unanswerable only for a
/// number whose Fibonacci number does not fit in `i64`.
pub proof fn lemma_ignored_requests(
    body: Seq<u8>,
    reply_to: Option<Seq<char>>,
    correlation_id: Option<Seq<char>>,
)
    ensures
        (server_decision(body, reply_to, correlation_id) == ServerActionView::Ignore) <==> (
        (match decode_text(body) {
            Some(s) => parse_i64(trim(s)),
            None => None::<i64>,
        }) is None || reply_to is None || correlation_id is None),
        server_decision(body, reply_to, correlation_id) == ServerActionView::Unanswerable ==> ((
        match decode_text(body) {
            Some(s) => parse_i64(trim(s)),
            None => None::<i64>,
        }) matches Some(n) && !fib_fits_i64(n as int)),
{
}

/// The server looks at a body only through the number it carries: two bodies whose
/// UTF-8 texts trim to the same `i64` (such as `10` and ` 10\n`), or that both carry
/// no number, are dealt with alike.
pub proof fn lemma_decision_by_number(
    b1: Seq<u8>,
    b2: Seq<u8>,
    reply_to: Option<Seq<char>>,
    correlation_id: Option<Seq<char>>,
)
    requires
        (match decode_text(b1) {
            Some(s) => parse_i64(trim(s)),
            None => None::<i64>,
        }) == (match decode_text(b2) {
            Some(s) => parse_i64(trim(s)),
            None => None::<i64>,
        }),
    ensures
        server_decision(b1, reply_to, correlation_id) == server_decision(
            b2,
            reply_to,
            correlation_id,
        ),
{
}

/// The client takes a number only from a delivery carrying its own correlation id,
/// and that number is what the delivery's UTF-8 text, trimmed, says; a delivery
/// with any other correlation id is refused as such.
pub proof fn lemma_reply_for_this_request(local: Seq<char>, event: ReplyEventView)
    ensures
        reply_outcome(local, event) matches ReplyOutcome::Value(v) ==> {
            &&& event matches ReplyEventView::Delivery { correlation_id: Some(c), body }
            &&& c == local
            &&& decode_text(body) matches Some(s)
            &&& parse_u64(trim(s)) == Some(v)
        },
        event matches ReplyEventView::Delivery { correlation_id: Some(c), body } ==> (c != local
            <==> reply_outcome(local, event) == ReplyOutcome::WrongCorrelation),
{
}

/// A request for `n` answered by the server reaches the client as the Fibonacci
/// number of `n`: the server replies to the given queue under the request's
/// correlation id with the decimal text of `fib(n)`, and the client reads that
/// reply as `fib(n)`. This holds wherever the server can answer: `n` fits in
/// `i64` and so does `fib(n)`.
pub proof fn lemma_rpc_round_trip(n: u64, reply_to: Seq<char>, correlation_id: Seq<char>)
    requires
        n <= i64::MAX,
        fib_fits_i64(n as int),
    ensures
        server_decision(encode_utf8(decimal(n as nat)), Some(reply_to), Some(correlation_id))
            == (ServerActionView::Reply {
            reply_to,
            correlation_id,
            body: encode_utf8(signed_decimal(spec_fib(n as nat) as int)),
        }),
        reply_outcome(
            correlation_id,
            ReplyEventView::Delivery {
                correlation_id: Some(correlation_id),
                body: encode_utf8(signed_decimal(spec_fib(n as nat) as int)),
            },
        ) == ReplyOutcome::Value(spec_fib(n as nat) as u64),
{
    lemma_decode_encoded(decimal(n as nat));
    lemma_parse_decimal(n as nat);
    let f = spec_fib(n as nat);
    lemma_decode_encoded(decimal(f));
    lemma_parse_decimal(f);
}

} // verus!
