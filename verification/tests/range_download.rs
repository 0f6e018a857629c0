use kopuz::downloads::RANGE_SIZE;
use kopuz::range_download::{RangeAction, RangeDownload, RangeReply};

fn ok(length: u64) -> RangeReply {
    RangeReply::Received { status: 206, status_text: "206 Partial Content".to_string(), length }
}

#[test]
fn ranges_are_requested_in_turn_until_the_last_byte() {
    let total = RANGE_SIZE + 10;
    let (mut state, action) = RangeDownload::new(total);
    assert!(matches!(action, RangeAction::Request { start: 0, end } if end == RANGE_SIZE - 1));
    assert!(matches!(state.reply(ok(RANGE_SIZE)), RangeAction::Write));
    let next = state.written();
    assert!(matches!(next, RangeAction::Request { start, end } if start == RANGE_SIZE && end == total - 1));
    assert!(matches!(state.reply(ok(10)), RangeAction::Write));
    assert!(matches!(state.written(), RangeAction::Finish));
    assert_eq!(state.start, total);
}

#[test]
fn refused_replies_are_retried_with_a_growing_pause() {
    let (mut state, _) = RangeDownload::new(100);
    let first = state.reply(RangeReply::Received { status: 200, status_text: "200 OK".to_string(), length: 100 });
    assert!(matches!(first, RangeAction::Retry { delay_millis: 250, start: 0, end: 99 }));
    assert!(matches!(state.reply(ok(50)), RangeAction::Retry { delay_millis: 500, .. }));
    assert!(matches!(state.reply(RangeReply::TimedOut), RangeAction::Retry { delay_millis: 750, .. }));
    match state.reply(RangeReply::RequestFailed("connection reset".to_string())) {
        RangeAction::Fail(message) => {
            assert_eq!(message, "audio range 0-99 failed after 4 attempts: request failed: connection reset")
        }
        _ => panic!("the fourth failure ends the download"),
    }
}

#[test]
fn each_refusal_is_described() {
    let cases = vec![
        (
            RangeReply::Received { status: 404, status_text: "404 Not Found".to_string(), length: 0 },
            "expected HTTP 206, received 404 Not Found",
        ),
        (ok(7), "short response: received 7 bytes, expected 100"),
        (RangeReply::ResponseFailed("eof".to_string()), "response failed: eof"),
        (RangeReply::TimedOut, "request timed out"),
    ];
    for (reply, text) in cases {
        let (mut state, _) = RangeDownload::new(100);
        state.attempt = 4;
        match state.reply(reply) {
            RangeAction::Fail(message) => assert_eq!(message, format!("audio range 0-99 failed after 4 attempts: {text}")),
            _ => panic!("the last attempt fails"),
        }
    }
}

#[test]
fn a_success_after_a_retry_starts_the_next_range_afresh() {
    let (mut state, _) = RangeDownload::new(RANGE_SIZE * 2);
    assert!(matches!(state.reply(RangeReply::TimedOut), RangeAction::Retry { .. }));
    assert_eq!(state.attempt, 2);
    assert!(matches!(state.reply(ok(RANGE_SIZE)), RangeAction::Write));
    assert!(matches!(state.written(), RangeAction::Request { .. }));
    assert_eq!(state.attempt, 1);
}
