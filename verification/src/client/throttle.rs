//! How an answer of the game server is read: what its status calls for,
//! how long a throttled call waits, and what its body comes to.

use crate::errors::ClientError;
use crate::fuel_message::{all_digits, is_digit};
use crate::shared::ErrorMessage;
use vstd::prelude::*;

verus! {

/// Whether an answer is the first to its call or the answer to the one retry.
#[derive(Debug, Clone, Copy, PartialEq, Eq, Structural)]
pub enum Attempt {
    First,
    Retry,
}

/// What the status of an answer calls for.
#[derive(Debug, Clone, Copy, PartialEq, Eq, Structural)]
pub enum Verdict {
    /// Read the body as the value that was asked for.
    Deliver,
    /// Wait for as many seconds as the header `retry-after` says, then send
    /// the same call once more.
    RetryAfterHeader,
    /// Wait for this many milliseconds, then send the same call once more.
    RetryAfter(u64),
    /// Read the body as an error envelope.
    ReadEnvelope,
    /// The server throttled the retry as well.
    TooManyRetries,
    /// The server failed on the retry as well.
    ServerError,
    Unauthorized,
    ServiceUnavailable,
}

/// The wait before a call is sent again after a server error.
pub const SERVER_ERROR_BACKOFF: u64 = 2_000;

/// What the status of an answer calls for: success delivers; a throttled or
/// failed call is sent again once; a refused token and a server in
/// maintenance are reported as such; every other status is read for the
/// server's error envelope.
pub open spec fn spec_execute_request(status: u16, attempt: Attempt) -> Verdict {
    if 200 <= status <= 299 {
        Verdict::Deliver
    } else if status == 429 {
        match attempt {
            Attempt::First => Verdict::RetryAfterHeader,
            Attempt::Retry => Verdict::TooManyRetries,
        }
    } else if status == 500 {
        match attempt {
            Attempt::First => Verdict::RetryAfter(SERVER_ERROR_BACKOFF),
            Attempt::Retry => Verdict::ServerError,
        }
    } else if status == 401 {
        Verdict::Unauthorized
    } else if status == 503 {
        Verdict::ServiceUnavailable
    } else {
        Verdict::ReadEnvelope
    }
}

/// Decides what the status of an answer calls for.
pub fn execute_request(status: u16, attempt: Attempt) -> (verdict: Verdict)
    ensures
        verdict == spec_execute_request(status, attempt),
{
    if 200 <= status && status <= 299 {
        Verdict::Deliver
    } else if status == 429 {
        match attempt {
            Attempt::First => Verdict::RetryAfterHeader,
            Attempt::Retry => Verdict::TooManyRetries,
        }
    } else if status == 500 {
        match attempt {
            Attempt::First => Verdict::RetryAfter(SERVER_ERROR_BACKOFF),
            Attempt::Retry => Verdict::ServerError,
        }
    } else if status == 401 {
        Verdict::Unauthorized
    } else if status == 503 {
        Verdict::ServiceUnavailable
    } else {
        Verdict::ReadEnvelope
    }
}

/// The verdict asks for the call to be sent again.
pub open spec fn is_retry(verdict: Verdict) -> bool {
    verdict is RetryAfterHeader || verdict is RetryAfter
}

/// No call is sent a third time: the answer to a retry never asks for
/// another.
pub proof fn lemma_one_retry(status: u16)
    ensures
        !is_retry(spec_execute_request(status, Attempt::Retry)),
{
}

/// What a body came to: the value that was asked for where it reads as one;
/// else the server's error where the body is an error envelope; else an
/// error that carries the text. A body that is read for the envelope alone
/// (`expected` is `false`) fails as a transport error where it is none.
pub open spec fn spec_parse_response<T>(
    expected: bool,
    parsed: Option<T>,
    envelope: Option<ErrorMessage>,
    text: String,
) -> Result<T, ClientError> {
    match (expected, parsed, envelope) {
        (true, Some(value), _) => Ok(value),
        (_, _, Some(error)) => Err(ClientError::ApiError(error)),
        (true, None, None) => Err(ClientError::JsonParse(text)),
        (false, _, None) => Err(ClientError::Http(text)),
    }
}

/// Settles what a body came to. `parsed` is the body read as the value that
/// was asked for, `envelope` the body read as an error envelope, `text` the
/// body itself; `expected` says whether the status was one of success.
pub fn parse_response<T>(
    expected: bool,
    parsed: Option<T>,
    envelope: Option<ErrorMessage>,
    text: String,
) -> (result: Result<T, ClientError>)
    ensures
        result == spec_parse_response(expected, parsed, envelope, text),
{
    if expected {
        match parsed {
            Some(value) => Ok(value),
            None => match envelope {
                Some(error) => Err(ClientError::ApiError(error)),
                None => Err(ClientError::JsonParse(text)),
            },
        }
    } else {
        match envelope {
            Some(error) => Err(ClientError::ApiError(error)),
            None => Err(ClientError::Http(text)),
        }
    }
}

/// The error that a verdict stands for where it ends the call in failure;
/// `text` tells of the failure where the error carries a text.
pub open spec fn spec_failure(verdict: Verdict, text: String) -> Option<ClientError> {
    match verdict {
        Verdict::TooManyRetries => Some(ClientError::TooManyRetries),
        Verdict::ServerError => Some(ClientError::Http(text)),
        Verdict::Unauthorized => Some(ClientError::Unauthorized),
        Verdict::ServiceUnavailable => Some(ClientError::ServiceUnavailable),
        _ => None,
    }
}

/// The error that a verdict stands for where it ends the call in failure.
pub fn failure(verdict: Verdict, text: String) -> (error: Option<ClientError>)
    ensures
        error == spec_failure(verdict, text),
{
    match verdict {
        Verdict::TooManyRetries => Some(ClientError::TooManyRetries),
        Verdict::ServerError => Some(ClientError::Http(text)),
        Verdict::Unauthorized => Some(ClientError::Unauthorized),
        Verdict::ServiceUnavailable => Some(ClientError::ServiceUnavailable),
        _ => None,
    }
}

/// The position of the decimal point in a text, or the length of the text
/// where it has none.
pub open spec fn point_position(text: Seq<char>) -> int
    decreases text.len(),
{
    if text.len() == 0 || text[0] == '.' {
        0
    } else {
        1 + point_position(text.drop_first())
    }
}

/// The digit that a character stands for.
pub open spec fn digit_value(c: char) -> int {
    c as int - '0' as int
}

/// The whole number that a run of digits denotes, as far as it stays below
/// `limit`; `limit` where it does not.
pub open spec fn capped_value(digits: Seq<char>, limit: int) -> int
    decreases digits.len(),
{
    if digits.len() == 0 {
        0
    } else {
        let so_far = capped_value(digits.drop_last(), limit);
        if so_far * 10 + digit_value(digits.last()) >= limit {
            limit
        } else {
            so_far * 10 + digit_value(digits.last())
        }
    }
}

/// Some digit of the run is not zero.
pub open spec fn any_nonzero(digits: Seq<char>) -> bool {
    exists|i: int| 0 <= i < digits.len() && #[trigger] digits[i] != '0'
}

/// The digit at a place of a fraction, zero where the fraction has fewer
/// places.
pub open spec fn place(fraction: Seq<char>, at: int) -> int {
    if 0 <= at < fraction.len() {
        digit_value(fraction[at])
    } else {
        0
    }
}

/// The thousandths that a fraction comes to, rounded up: its first three
/// places, and one more where places follow that are not all zero.
pub open spec fn fraction_millis(fraction: Seq<char>) -> int {
    place(fraction, 0) * 100 + place(fraction, 1) * 10 + place(fraction, 2) + if fraction.len() > 3
        && any_nonzero(fraction.skip(3)) {
        1int
    } else {
        0int
    }
}

/// The greatest wait that a `retry-after` header can ask for, in seconds.
pub const RETRY_AFTER_LIMIT: u64 = 1_000_000_000;

/// The wait that a `retry-after` header asks for, in milliseconds and
/// rounded up to the next whole one. The header gives seconds in decimal
/// digits, with or without a fraction behind a point; at least one digit
/// stands before the point. A header of another form, and one that asks for
/// a thousand million seconds or more, asks for nothing.
pub open spec fn spec_retry_after_millis(header: Seq<char>) -> Option<int> {
    let point = point_position(header);
    let whole = header.take(point);
    let fraction = if point < header.len() {
        header.skip(point + 1)
    } else {
        Seq::<char>::empty()
    };
    if whole.len() > 0 && all_digits(whole) && all_digits(fraction) && capped_value(
        whole,
        RETRY_AFTER_LIMIT as int,
    ) < RETRY_AFTER_LIMIT {
        Some(capped_value(whole, RETRY_AFTER_LIMIT as int) * 1000 + fraction_millis(fraction))
    } else {
        None
    }
}

proof fn lemma_point_position(text: Seq<char>, at: int)
    requires
        0 <= at <= text.len(),
        forall|i: int| 0 <= i < at ==> #[trigger] text[i] != '.',
        at < text.len() ==> text[at] == '.',
    ensures
        point_position(text) == at,
    decreases text.len(),
{
    if at > 0 {
        let rest = text.drop_first();
        assert(text[0] != '.');
        assert forall|i: int| 0 <= i < at - 1 implies #[trigger] rest[i] != '.' by {
            assert(rest[i] == text[i + 1]);
        }
        if at - 1 < rest.len() {
            assert(rest[at - 1] == text[at]);
        }
        lemma_point_position(rest, at - 1);
    }
}

/// Reads the wait that a `retry-after` header asks for.
pub fn retry_after_millis(header: &str) -> (wait: Option<u64>)
    ensures
        match wait {
            Some(millis) => spec_retry_after_millis(header@) == Some(millis as int),
            None => spec_retry_after_millis(header@) is None,
        },
{
    let len = header.unicode_len();
    let ghost text = header@;
    let mut seconds: u64 = 0;
    let mut i: usize = 0;
    // the whole seconds, up to the point
    loop
        invariant
            i <= len,
            len == text.len(),
            text == header@,
            forall|k: int| 0 <= k < i ==> #[trigger] text[k] != '.',
            all_digits(text.take(i as int)),
            seconds as int == capped_value(text.take(i as int), RETRY_AFTER_LIMIT as int),
            seconds <= RETRY_AFTER_LIMIT,
        ensures
            i <= len,
            forall|k: int| 0 <= k < i ==> #[trigger] text[k] != '.',
            i < len ==> text[i as int] == '.',
            all_digits(text.take(i as int)),
            seconds as int == capped_value(text.take(i as int), RETRY_AFTER_LIMIT as int),
            seconds <= RETRY_AFTER_LIMIT,
        decreases len - i,
    {
        if i >= len {
            break ;
        }
        let c = header.get_char(i);
        if c == '.' {
            break ;
        }
        if !('0' <= c && c <= '9') {
            proof {
                lemma_point_unknown(text, i as int);
            }
            return None;
        }
        proof {
            assert(text.take(i as int + 1).drop_last() =~= text.take(i as int));
            assert(text.take(i as int + 1).last() == c);
            assert forall|k: int| 0 <= k < i + 1 implies is_digit(
                #[trigger] text.take(i as int + 1)[k],
            ) by {
                if k < i {
                    assert(text.take(i as int)[k] == text[k]);
                }
            }
        }
        let digit: u64 = (c as u32 - '0' as u32) as u64;
        seconds = if seconds * 10 + digit >= RETRY_AFTER_LIMIT {
            RETRY_AFTER_LIMIT
        } else {
            seconds * 10 + digit
        };
        i = i + 1;
    }
    proof {
        lemma_point_position(text, i as int);
    }
    let point = i;
    if point == 0 || seconds >= RETRY_AFTER_LIMIT {
        return None;
    }
    if point == len {
        assert(fraction_millis(Seq::<char>::empty()) == 0);
        return Some(seconds * 1000);
    }
    let ghost fraction = text.skip(point as int + 1);
    let mut millis: u64 = 0;
    let mut sticky = false;
    let mut j: usize = point + 1;
    while j < len
        invariant
            point < j <= len,
            len == text.len(),
            text == header@,
            point_position(text) == point,
            fraction == text.skip(point as int + 1),
            all_digits(fraction.take(j - point - 1)),
            millis as int == place(fraction.take(j - point - 1), 0) * 100 + place(
                fraction.take(j - point - 1),
                1,
            ) * 10 + place(fraction.take(j - point - 1), 2),
            millis <= 999,
            sticky == (j - point - 1 > 3 && any_nonzero(fraction.take(j - point - 1).skip(3))),
        decreases len - j,
    {
        let c = header.get_char(j);
        let ghost at = j - point - 1;
        assert(fraction[at] == c);
        if !('0' <= c && c <= '9') {
            assert(!is_digit(fraction[at]));
            return None;
        }
        let digit: u64 = (c as u32 - '0' as u32) as u64;
        proof {
            let before = fraction.take(at);
            let after = fraction.take(at + 1);
            assert(after[at] == c);
            assert forall|k: int| 0 <= k < at + 1 implies is_digit(#[trigger] after[k]) by {
                if k < at {
                    assert(before[k] == fraction[k]);
                }
            }
            assert forall|k: int| 0 <= k < at implies place(after, k) == place(before, k) by {
                assert(after[k] == before[k]);
            }
            assert(forall|k: int| k > at ==> place(after, k) == 0);
            assert(forall|k: int| k >= at ==> place(before, k) == 0);
            if at >= 3 {
                if any_nonzero(before.skip(3)) {
                    let w = choose|w: int| 0 <= w < before.skip(3).len() && #[trigger] before.skip(3)[w] != '0';
                    assert(after.skip(3)[w] == before.skip(3)[w]);
                }
                if c != '0' {
                    assert(after.skip(3)[at - 3] == c);
                }
                if any_nonzero(after.skip(3)) {
                    let w = choose|w: int| 0 <= w < after.skip(3).len() && #[trigger] after.skip(3)[w] != '0';
                    if w < at - 3 {
                        assert(before.skip(3)[w] == after.skip(3)[w]);
                    } else {
                        assert(after.skip(3)[w] == c);
                    }
                }
            }
        }
        if j - point == 1 {
            millis = digit * 100;
        } else if j - point == 2 {
            millis = millis + digit * 10;
        } else if j - point == 3 {
            millis = millis + digit;
        } else if digit != 0 {
            sticky = true;
        }
        j = j + 1;
    }
    proof {
        assert(fraction.take(len - point - 1) =~= fraction);
    }
    let rounded: u64 = if sticky {
        millis + 1
    } else {
        millis
    };
    Some(seconds * 1000 + rounded)
}

/// A text whose part before the point holds something that is no digit asks
/// for nothing.
proof fn lemma_point_unknown(text: Seq<char>, at: int)
    requires
        0 <= at < text.len(),
        forall|k: int| 0 <= k < at ==> #[trigger] text[k] != '.',
        text[at] != '.',
        !is_digit(text[at]),
    ensures
        spec_retry_after_millis(text) is None,
{
    lemma_point_after(text, at + 1);
    let point = point_position(text);
    assert(text.take(point)[at] == text[at]);
}

/// The point does not stand before a place up to which there is none.
proof fn lemma_point_after(text: Seq<char>, upto: int)
    requires
        0 <= upto <= text.len(),
        forall|k: int| 0 <= k < upto ==> #[trigger] text[k] != '.',
    ensures
        upto <= point_position(text) <= text.len(),
    decreases text.len(),
{
    if text.len() > 0 && text[0] != '.' {
        let rest = text.drop_first();
        if upto > 0 {
            assert forall|k: int| 0 <= k < upto - 1 implies #[trigger] rest[k] != '.' by {
                assert(rest[k] == text[k + 1]);
            }
            lemma_point_after(rest, upto - 1);
        } else {
            lemma_point_after(rest, 0);
        }
    }
}

} // verus!
