//! The decisions of a download fetched in byte ranges: which range to ask
//! for, whether a reply is accepted, when to retry after a pause, and the
//! error that ends the download. The caller sends the requests, sleeps and
//! writes the bytes, and reports each reply here.

use crate::downloads::{next_range_end, range_end, retry_delay_millis, MAX_RANGE_ATTEMPTS, RANGE_SIZE};
use crate::text::{decimal, push_decimal, push_str};
use vstd::prelude::*;
use vstd::string::*;

verus! {

/// The HTTP status a ranged request must answer with.
pub const PARTIAL_CONTENT: u16 = 206;

/// How one request for the current range ended.
pub enum RangeReply {
    /// The response arrived: its status (number and display text) and how
    /// many bytes its body held.
    Received { status: u16, status_text: String, length: u64 },
    /// Sending the request failed, with the error's text.
    RequestFailed(String),
    /// Reading the body failed, with the error's text.
    ResponseFailed(String),
    /// No reply came in time.
    TimedOut,
}

/// What the caller does next.
pub enum RangeAction {
    /// Request bytes `start..=end`.
    Request { start: u64, end: u64 },
    /// Write the body just received, then call `written`.
    Write,
    /// Sleep this long, then request bytes `start..=end` again.
    Retry { delay_millis: u64, start: u64, end: u64 },
    /// Every byte is written: flush and finish.
    Finish,
    /// The download failed with this message.
    Fail(String),
}

/// A download in progress: the next byte to fetch, the size, and which
/// attempt at the current range is under way.
pub struct RangeDownload {
    pub start: u64,
    pub total: u64,
    pub attempt: u8,
}

/// The message of a reply that is not accepted, or `None` when it is.
pub open spec fn reply_error(reply: RangeReply, expected: u64) -> Option<Seq<char>> {
    match reply {
        RangeReply::Received { status, status_text, length } => if status != PARTIAL_CONTENT {
            Some("expected HTTP 206, received "@ + status_text@)
        } else if length != expected {
            Some("short response: received "@ + decimal(length as nat) + " bytes, expected "@ + decimal(expected as nat))
        } else {
            None
        },
        RangeReply::RequestFailed(e) => Some("request failed: "@ + e@),
        RangeReply::ResponseFailed(e) => Some("response failed: "@ + e@),
        RangeReply::TimedOut => Some("request timed out"@),
    }
}

/// The message a download ends with when a range failed every attempt.
pub open spec fn exhausted_message(start: u64, end: u64, last_error: Seq<char>) -> Seq<char> {
    "audio range "@ + decimal(start as nat) + "-"@ + decimal(end as nat) + " failed after "@ + decimal(
        MAX_RANGE_ATTEMPTS as nat,
    ) + " attempts: "@ + last_error
}

impl RangeDownload {
    /// A download under way: bytes remain, and the attempt is counted.
    pub open spec fn wf(&self) -> bool {
        &&& self.start < self.total
        &&& self.total + RANGE_SIZE <= u64::MAX
        &&& 1 <= self.attempt <= MAX_RANGE_ATTEMPTS
    }

    /// The last byte of the range under way.
    pub open spec fn current_end(&self) -> u64 {
        range_end(self.start, self.total)
    }

    /// Starts a download of `total` bytes with the first range's first
    /// attempt.
    pub fn new(total: u64) -> (res: (RangeDownload, RangeAction))
        requires
            total > 0,
            total + RANGE_SIZE <= u64::MAX,
        ensures
            res.0.wf(),
            res.0.start == 0 && res.0.total == total && res.0.attempt == 1,
            res.1 matches RangeAction::Request { start, end } && start == 0 && end == range_end(0, total),
    {
        let end = next_range_end(0, total);
        (RangeDownload { start: 0, total, attempt: 1 }, RangeAction::Request { start: 0, end })
    }

    /// Takes the reply to the current request. An accepted reply is
    /// written; a refused one is retried after `250 ms` times the attempt
    /// number, until the last attempt fails the download.
    pub fn reply(&mut self, reply: RangeReply) -> (action: RangeAction)
        requires
            old(self).wf(),
        ensures
            final(self).start == old(self).start,
            final(self).total == old(self).total,
            ({
                let end = old(self).current_end();
                let expected = (end - old(self).start + 1) as u64;
                match reply_error(reply, expected) {
                    None => action is Write && final(self).attempt == old(self).attempt,
                    Some(message) => if old(self).attempt < MAX_RANGE_ATTEMPTS {
                        &&& final(self).attempt == old(self).attempt + 1
                        &&& action matches RangeAction::Retry { delay_millis, start, end: e } && delay_millis == 250
                            * old(self).attempt && start == old(self).start && e == end
                    } else {
                        &&& final(self).attempt == old(self).attempt
                        &&& action matches RangeAction::Fail(m) && m@ == exhausted_message(old(self).start, end, message)
                    },
                }
            }),
            final(self).wf(),
    {
        let end = next_range_end(self.start, self.total);
        let expected = end - self.start + 1;
        let message = match reply {
            RangeReply::Received { status, status_text, length } => if status != PARTIAL_CONTENT {
                let mut m = String::from_str("expected HTTP 206, received ");
                push_str(&mut m, status_text.as_str());
                proof {
                    reveal_strlit("expected HTTP 206, received ");
                }
                Some(m)
            } else if length != expected {
                let mut m = String::from_str("short response: received ");
                push_decimal(&mut m, length);
                push_str(&mut m, " bytes, expected ");
                push_decimal(&mut m, expected);
                proof {
                    reveal_strlit("short response: received ");
                }
                Some(m)
            } else {
                None
            },
            RangeReply::RequestFailed(e) => {
                let mut m = String::from_str("request failed: ");
                push_str(&mut m, e.as_str());
                proof {
                    reveal_strlit("request failed: ");
                }
                Some(m)
            },
            RangeReply::ResponseFailed(e) => {
                let mut m = String::from_str("response failed: ");
                push_str(&mut m, e.as_str());
                proof {
                    reveal_strlit("response failed: ");
                }
                Some(m)
            },
            RangeReply::TimedOut => {
                proof {
                    reveal_strlit("request timed out");
                }
                Some(String::from_str("request timed out"))
            },
        };
        match message {
            None => RangeAction::Write,
            Some(last_error) => if self.attempt < MAX_RANGE_ATTEMPTS {
                let delay = retry_delay_millis(self.attempt);
                self.attempt = self.attempt + 1;
                RangeAction::Retry { delay_millis: delay, start: self.start, end }
            } else {
                let mut m = String::from_str("audio range ");
                push_decimal(&mut m, self.start);
                push_str(&mut m, "-");
                push_decimal(&mut m, end);
                push_str(&mut m, " failed after ");
                push_decimal(&mut m, MAX_RANGE_ATTEMPTS as u64);
                push_str(&mut m, " attempts: ");
                push_str(&mut m, last_error.as_str());
                proof {
                    reveal_strlit("audio range ");
                }
                RangeAction::Fail(m)
            },
        }
    }

    /// The accepted range is written: move past it, and either request the
    /// next range (first attempt) or finish after the last byte.
    pub fn written(&mut self) -> (action: RangeAction)
        requires
            old(self).wf(),
        ensures
            final(self).start == old(self).current_end() + 1,
            final(self).total == old(self).total,
            final(self).attempt == 1,
            final(self).start < final(self).total ==> (final(self).wf() && action == (RangeAction::Request {
                start: final(self).start,
                end: final(self).current_end(),
            })),
            final(self).start >= final(self).total ==> (final(self).start == final(self).total && action is Finish),
    {
        let end = next_range_end(self.start, self.total);
        self.start = end + 1;
        self.attempt = 1;
        if self.start < self.total {
            let next = next_range_end(self.start, self.total);
            RangeAction::Request { start: self.start, end: next }
        } else {
            RangeAction::Finish
        }
    }
}

} // verus!
