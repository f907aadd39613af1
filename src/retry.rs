//! The retry policy for rate-limited requests. Each attempt's answer is handed to
//! `next_step`, which says whether to wait and send again or to stop; the caller
//! sends, waits and counts attempts.

use vstd::prelude::*;
use crate::text::{parse_u64, parsed_u64};
use crate::client::{answer_of, is_success, Answer};

verus! {

/// How many times a rate-limited request is sent again.
pub const MAX_RETRIES: u32 = 3;

/// The first wait when the server names none, in milliseconds.
pub const INITIAL_BACKOFF_MS: u64 = 500;

/// The status of a rate-limited answer.
pub const TOO_MANY_REQUESTS: u16 = 429;

/// How long to wait before the next attempt.
#[derive(Debug, Clone, Copy, PartialEq, Eq, Structural)]
pub enum Wait {
    /// As many seconds as the server's `retry-after` header says.
    Seconds(u64),
    /// A backoff in milliseconds.
    Millis(u64),
}

/// What follows an answer.
#[derive(Debug, Clone, Copy, PartialEq, Eq, Structural)]
pub enum Step {
    /// Wait, then build and send the request again.
    Retry(Wait),
    /// Take this answer as the call's result.
    Finish,
}

pub open spec fn pow2(n: nat) -> nat
    decreases n,
{
    if n == 0 {
        1
    } else {
        2 * pow2((n - 1) as nat)
    }
}

/// The backoff before the attempt after `attempt`: 500 ms, doubled each time.
pub open spec fn backoff_ms(attempt: nat) -> nat {
    (INITIAL_BACKOFF_MS * pow2(attempt)) as nat
}

/// The seconds that a `retry-after` header names, when it holds an integer.
pub open spec fn retry_after_of(header: Option<Seq<char>>) -> Option<u64> {
    match header {
        Some(h) => parsed_u64(h),
        None => None,
    }
}

/// The policy: a 429 answer is retried while fewer than `MAX_RETRIES` retries
/// were made, after the server's `retry-after` seconds or else the backoff;
/// every other answer ends the call.
pub open spec fn step_of(attempt: nat, status: u16, retry_after: Option<u64>) -> Step {
    if status == TOO_MANY_REQUESTS && attempt < MAX_RETRIES {
        match retry_after {
            Some(s) => Step::Retry(Wait::Seconds(s)),
            None => Step::Retry(Wait::Millis(backoff_ms(attempt) as u64)),
        }
    } else {
        Step::Finish
    }
}

/// The backoff after a rate-limited `attempt`, below `MAX_RETRIES`.
pub fn backoff(attempt: u32) -> (r: u64)
    requires
        attempt < MAX_RETRIES,
    ensures
        r as nat == backoff_ms(attempt as nat),
{
    let mut ms: u64 = INITIAL_BACKOFF_MS;
    let mut i: u32 = 0;
    while i < attempt
        invariant
            i <= attempt < MAX_RETRIES,
            ms as nat == backoff_ms(i as nat),
            ms <= INITIAL_BACKOFF_MS * 4,
        decreases attempt - i,
    {
        proof {
            reveal_with_fuel(pow2, 4);
        }
        assert(pow2((i + 1) as nat) == 2 * pow2(i as nat));
        assert(i == 0 || i == 1);
        ms = ms * 2;
        i = i + 1;
    }
    ms
}

/// Decides what follows the answer to attempt number `attempt` (0 for the first
/// send), given its status and its `retry-after` header, if it has one.
pub fn next_step(attempt: u32, status: u16, retry_after: Option<&str>) -> (r: Step)
    ensures
        r == step_of(
            attempt as nat,
            status,
            retry_after_of(
                match retry_after {
                    Some(h) => Some(h@),
                    None => None,
                },
            ),
        ),
        status != TOO_MANY_REQUESTS ==> r == Step::Finish,
        attempt >= MAX_RETRIES ==> r == Step::Finish,
        (status == TOO_MANY_REQUESTS && attempt < MAX_RETRIES && retry_after is Some
            && parsed_u64(retry_after->0@) is Some) ==> r == Step::Retry(
            Wait::Seconds(parsed_u64(retry_after->0@)->0),
        ),
{
    if status == TOO_MANY_REQUESTS && attempt < MAX_RETRIES {
        let secs = match retry_after {
            Some(h) => parse_u64(h),
            None => None,
        };
        match secs {
            Some(s) => Step::Retry(Wait::Seconds(s)),
            None => Step::Retry(Wait::Millis(backoff(attempt))),
        }
    } else {
        Step::Finish
    }
}

/// One answer of the server to an attempt.
pub struct Reply {
    pub status: u16,
    /// The `retry-after` header read as seconds, if it is one.
    pub retry_after: Option<u64>,
    pub body: Seq<u8>,
}

/// How many requests a call sends when the server gives `replies` in turn,
/// starting at attempt `attempt`.
pub open spec fn requests_sent(attempt: nat, replies: Seq<Reply>) -> nat
    decreases replies.len(),
{
    if replies.len() == 0 {
        0
    } else {
        match step_of(attempt, replies[0].status, replies[0].retry_after) {
            Step::Finish => 1,
            Step::Retry(_) => 1 + requests_sent(attempt + 1, replies.drop_first()),
        }
    }
}

/// How a call ends when the server gives `replies` in turn: by the last answer
/// it waited for.
pub open spec fn call_answer(replies: Seq<Reply>) -> Answer
    recommends
        requests_sent(0, replies) >= 1,
{
    let last = replies[requests_sent(0, replies) - 1];
    answer_of(last.status, last.body)
}

/// A rate-limited answer followed by a 2xx answer: two requests are sent, and
/// the call's result is the second answer's body.
pub proof fn law_retry_then_success(replies: Seq<Reply>)
    requires
        replies.len() >= 2,
        replies[0].status == TOO_MANY_REQUESTS,
        is_success(replies[1].status),
    ensures
        requests_sent(0, replies) == 2,
        call_answer(replies) == answer_of(replies[1].status, replies[1].body),
        crate::client::json_parses(replies[1].body) ==> call_answer(replies) == Answer::Success,
{
    let rest = replies.drop_first();
    assert(rest[0] == replies[1]);
    assert(requests_sent(1, rest) == 1);
}

/// Rate-limited on every attempt: `MAX_RETRIES + 1` requests are sent, and the
/// call ends in an error.
pub proof fn law_retries_exhausted(replies: Seq<Reply>)
    requires
        replies.len() >= MAX_RETRIES + 1,
        forall|i: int| 0 <= i < replies.len() ==> (#[trigger] replies[i]).status == TOO_MANY_REQUESTS,
    ensures
        requests_sent(0, replies) == MAX_RETRIES + 1,
        call_answer(replies) != Answer::Success,
{
    let r1 = replies.drop_first();
    let r2 = r1.drop_first();
    let r3 = r2.drop_first();
    assert(r1[0] == replies[1]);
    assert(r2[0] == replies[2]);
    assert(r3[0] == replies[3]);
    assert(requests_sent(3, r3) == 1);
    assert(requests_sent(2, r2) == 2);
    assert(requests_sent(1, r1) == 3);
    assert(requests_sent(0, replies) == 4);
}

/// The waits between attempts when the server names none: 500, 1000 and 2000 ms.
pub proof fn law_backoff_schedule()
    ensures
        backoff_ms(0) == 500,
        backoff_ms(1) == 1000,
        backoff_ms(2) == 2000,
{
    reveal_with_fuel(pow2, 3);
}

} // verus!
