use shortsbot::redaction::{RedactionWatch, WatchAction, WatchEvent, WatchState};

const DELAY: u64 = 20;

#[test]
fn scenario_receipt_at_five_redacts_at_twenty_five() {
    let mut watch = RedactionWatch::new();
    assert_eq!(watch.current(), WatchState::AwaitingReceipt);
    for now in 1..5 {
        let action = watch.step(WatchEvent::ReceiptPoll { receipt_count: 0, now }, DELAY);
        assert_eq!(action, WatchAction::PollAgain);
        assert_eq!(watch.current(), WatchState::AwaitingReceipt);
    }
    let action = watch.step(WatchEvent::ReceiptPoll { receipt_count: 1, now: 5 }, DELAY);
    assert_eq!(action, WatchAction::Hold { secs: DELAY });
    assert_eq!(watch.current(), WatchState::Sleeping { since: 5 });
    let action = watch.step(WatchEvent::TimerFired { now: 25 }, DELAY);
    assert_eq!(action, WatchAction::Redact);
    assert_eq!(watch.current(), WatchState::Redacting);
    let action = watch.step(WatchEvent::RedactResult { success: true }, DELAY);
    assert_eq!(action, WatchAction::DrainAndFinish);
    assert_eq!(watch.current(), WatchState::Done);
}

#[test]
fn scenario_no_receipt_never_redacts() {
    let mut watch = RedactionWatch::new();
    for now in 1..200 {
        let action = watch.step(WatchEvent::ReceiptPoll { receipt_count: 0, now }, DELAY);
        assert_eq!(action, WatchAction::PollAgain);
        assert_eq!(watch.current(), WatchState::AwaitingReceipt);
    }
}

#[test]
fn delay_counts_from_receipt_not_from_arrival() {
    let mut watch = RedactionWatch::new();
    watch.step(WatchEvent::ReceiptPoll { receipt_count: 2, now: 5 }, DELAY);
    // Twenty seconds after the watch began, but only fifteen after the
    // receipt: the watch keeps sleeping and asks for the remaining hold.
    let action = watch.step(WatchEvent::TimerFired { now: 20 }, DELAY);
    assert_eq!(action, WatchAction::Hold { secs: 5 });
    assert_eq!(watch.current(), WatchState::Sleeping { since: 5 });
    let action = watch.step(WatchEvent::TimerFired { now: 25 }, DELAY);
    assert_eq!(action, WatchAction::Redact);
    assert_eq!(watch.current(), WatchState::Redacting);
}

#[test]
fn further_receipts_do_not_restart_the_delay() {
    let mut watch = RedactionWatch::new();
    watch.step(WatchEvent::ReceiptPoll { receipt_count: 1, now: 5 }, DELAY);
    let action = watch.step(WatchEvent::ReceiptPoll { receipt_count: 7, now: 10 }, DELAY);
    assert_eq!(action, WatchAction::Ignore);
    assert_eq!(watch.current(), WatchState::Sleeping { since: 5 });
}

#[test]
fn failed_redaction_abandons_the_watch() {
    let mut watch = RedactionWatch::new();
    watch.step(WatchEvent::ReceiptPoll { receipt_count: 1, now: 0 }, DELAY);
    watch.step(WatchEvent::TimerFired { now: 20 }, DELAY);
    let action = watch.step(WatchEvent::RedactResult { success: false }, DELAY);
    assert_eq!(action, WatchAction::Abandon);
    assert_eq!(watch.current(), WatchState::Done);
}

#[test]
fn stray_events_are_ignored() {
    let mut watch = RedactionWatch::new();
    let action = watch.step(WatchEvent::TimerFired { now: 3 }, DELAY);
    assert_eq!(action, WatchAction::Ignore);
    assert_eq!(watch.current(), WatchState::AwaitingReceipt);
    let action = watch.step(WatchEvent::RedactResult { success: true }, DELAY);
    assert_eq!(action, WatchAction::Ignore);
    assert_eq!(watch.current(), WatchState::AwaitingReceipt);
}
