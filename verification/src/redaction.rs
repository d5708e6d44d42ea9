//! The delayed-redaction watch: a state machine that waits for a read
//! receipt on a media event, holds for a fixed delay, then asks for the
//! event's redaction. The driving loop performs the waiting, polling and
//! network calls and reports their outcomes back as events.

use vstd::prelude::*;

verus! {

/// The phase of one redaction watch. A watch only moves forward.
#[derive(Clone, Copy, Debug, PartialEq, Eq, Structural)]
pub enum WatchState {
    /// Polling the read-receipt set until some reader appears.
    AwaitingReceipt,
    /// A receipt was observed at `since`; holding for the fixed delay.
    Sleeping { since: u64 },
    /// The delay has elapsed; the redaction command is under way.
    Redacting,
    /// The redaction finished, successfully or not; the watch is over.
    Done,
}

/// What the driving loop reports to the watch.
#[derive(Clone, Copy, Debug, PartialEq, Eq, Structural)]
pub enum WatchEvent {
    /// A poll of the read-receipt set at `now` observed `receipt_count`
    /// readers.
    ReceiptPoll { receipt_count: usize, now: u64 },
    /// The hold timer fired at `now`.
    TimerFired { now: u64 },
    /// The redaction command finished.
    RedactResult { success: bool },
}

/// What the watch asks the driving loop to do next.
#[derive(Clone, Copy, Debug, PartialEq, Eq, Structural)]
pub enum WatchAction {
    /// Poll the read-receipt set again after the poll interval.
    PollAgain,
    /// Sleep `secs` seconds, then report the timer.
    Hold { secs: u64 },
    /// Issue the redaction command and report its result.
    Redact,
    /// Drain the room's control channel, then drop the watch.
    DrainAndFinish,
    /// Drop the watch without further work.
    Abandon,
    /// The event does not concern the current phase; do nothing.
    Ignore,
}

/// How far along its lifecycle a watch is.
pub open spec fn rank(s: WatchState) -> int {
    match s {
        WatchState::AwaitingReceipt => 0,
        WatchState::Sleeping { .. } => 1,
        WatchState::Redacting => 2,
        WatchState::Done => 3,
    }
}

/// How long a watch sleeping since `since` must still hold at `now` to
/// complete a full delay of `delay_secs`.
pub open spec fn remaining_delay(since: u64, now: u64, delay_secs: u64) -> u64 {
    if now < since {
        delay_secs
    } else if now - since >= delay_secs {
        0
    } else {
        (delay_secs - (now - since)) as u64
    }
}

/// One transition of the watch: the next phase and the action it asks for.
/// A receipt moves an awaiting watch to sleeping; a timer that completes the
/// delay moves a sleeping watch to redacting; the redaction result ends the
/// watch. Every other pairing leaves the phase unchanged.
pub open spec fn spec_watch_step(s: WatchState, ev: WatchEvent, delay_secs: u64) -> (
    WatchState,
    WatchAction,
) {
    match (s, ev) {
        (WatchState::AwaitingReceipt, WatchEvent::ReceiptPoll { receipt_count, now }) => {
            if receipt_count > 0 {
                (WatchState::Sleeping { since: now }, WatchAction::Hold { secs: delay_secs })
            } else {
                (WatchState::AwaitingReceipt, WatchAction::PollAgain)
            }
        },
        (WatchState::Sleeping { since }, WatchEvent::TimerFired { now }) => {
            if now >= since && now - since >= delay_secs {
                (WatchState::Redacting, WatchAction::Redact)
            } else {
                (
                    WatchState::Sleeping { since },
                    WatchAction::Hold { secs: remaining_delay(since, now, delay_secs) },
                )
            }
        },
        (WatchState::Redacting, WatchEvent::RedactResult { success }) => {
            (
                WatchState::Done,
                if success {
                    WatchAction::DrainAndFinish
                } else {
                    WatchAction::Abandon
                },
            )
        },
        (state, _) => (state, WatchAction::Ignore),
    }
}

/// One redaction watch, created when a qualifying media event arrives.
pub struct RedactionWatch {
    state: WatchState,
}

impl View for RedactionWatch {
    type V = WatchState;

    closed spec fn view(&self) -> WatchState {
        self.state
    }
}

impl RedactionWatch {
    /// A fresh watch, awaiting the first read receipt.
    pub fn new() -> (r: RedactionWatch)
        ensures
            r@ == WatchState::AwaitingReceipt,
    {
        RedactionWatch { state: WatchState::AwaitingReceipt }
    }

    /// The watch's current phase.
    pub fn current(&self) -> (r: WatchState)
        ensures
            r == self@,
    {
        self.state
    }

    /// Feeds one event to the watch and returns the action the driving loop
    /// should take. The watch enters its sleeping phase only once a poll has
    /// observed at least one receipt, and it redacts only once the full
    /// delay has elapsed from that observation — not from the event's
    /// arrival; it never moves backward.
    pub fn step(&mut self, ev: WatchEvent, delay_secs: u64) -> (a: WatchAction)
        ensures
            (final(self)@, a) == spec_watch_step(old(self)@, ev, delay_secs),
            old(self)@ is AwaitingReceipt && final(self)@ is Sleeping ==> (ev matches
                WatchEvent::ReceiptPoll {
                receipt_count,
                now,
            } && receipt_count >= 1 && final(self)@->since == now),
            old(self)@ is Sleeping && final(self)@ is Redacting ==> (ev matches
                WatchEvent::TimerFired { now } && now >= old(self)@->since + delay_secs),
            rank(final(self)@) >= rank(old(self)@),
    {
        match (self.state, ev) {
            (WatchState::AwaitingReceipt, WatchEvent::ReceiptPoll { receipt_count, now }) => {
                if receipt_count > 0 {
                    self.state = WatchState::Sleeping { since: now };
                    WatchAction::Hold { secs: delay_secs }
                } else {
                    WatchAction::PollAgain
                }
            },
            (WatchState::Sleeping { since }, WatchEvent::TimerFired { now }) => {
                if now >= since && now - since >= delay_secs {
                    self.state = WatchState::Redacting;
                    WatchAction::Redact
                } else {
                    let secs: u64 = if now < since {
                        delay_secs
                    } else {
                        delay_secs - (now - since)
                    };
                    WatchAction::Hold { secs }
                }
            },
            (WatchState::Redacting, WatchEvent::RedactResult { success }) => {
                self.state = WatchState::Done;
                if success {
                    WatchAction::DrainAndFinish
                } else {
                    WatchAction::Abandon
                }
            },
            (_, _) => WatchAction::Ignore,
        }
    }
}

/// The watch phase after a whole sequence of events.
pub open spec fn run_watch(s0: WatchState, evs: Seq<WatchEvent>, delay_secs: u64) -> WatchState
    decreases evs.len(),
{
    if evs.len() == 0 {
        s0
    } else {
        spec_watch_step(run_watch(s0, evs.drop_last(), delay_secs), evs.last(), delay_secs).0
    }
}

/// Law: over any sequence of events, a watch only moves forward through its
/// lifecycle, never back.
pub proof fn lemma_watch_only_moves_forward(s0: WatchState, evs: Seq<WatchEvent>, delay_secs: u64)
    ensures
        rank(run_watch(s0, evs, delay_secs)) >= rank(s0),
    decreases evs.len(),
{
    if evs.len() > 0 {
        lemma_watch_only_moves_forward(s0, evs.drop_last(), delay_secs);
    }
}

/// Whether any poll in the sequence observed at least one receipt.
pub open spec fn some_receipt_observed(evs: Seq<WatchEvent>) -> bool {
    exists|i: int|
        0 <= i < evs.len() && (#[trigger] evs[i] matches WatchEvent::ReceiptPoll {
            receipt_count,
            ..
        } && receipt_count > 0)
}

/// Law: a watch that never observes a read receipt stays awaiting one
/// forever, whatever else the driving loop reports.
pub proof fn lemma_no_receipt_never_redacts(evs: Seq<WatchEvent>, delay_secs: u64)
    requires
        !some_receipt_observed(evs),
    ensures
        run_watch(WatchState::AwaitingReceipt, evs, delay_secs) == WatchState::AwaitingReceipt,
    decreases evs.len(),
{
    if evs.len() > 0 {
        let prefix = evs.drop_last();
        assert(!some_receipt_observed(prefix)) by {
            if some_receipt_observed(prefix) {
                let i = choose|i: int|
                    0 <= i < prefix.len() && (#[trigger] prefix[i] matches
                        WatchEvent::ReceiptPoll { receipt_count, .. } && receipt_count > 0);
                assert(evs[i] == prefix[i]);
            }
        }
        lemma_no_receipt_never_redacts(prefix, delay_secs);
        assert(match evs.last() {
            WatchEvent::ReceiptPoll { receipt_count, .. } => receipt_count == 0,
            _ => true,
        }) by {
            if evs.last() matches WatchEvent::ReceiptPoll { receipt_count, .. }
                && receipt_count > 0 {
                assert(evs[evs.len() - 1] == evs.last());
            }
        }
    }
}

/// Law: a watch that has moved past its initial phase — in particular one
/// that redacts — did so only after some poll observed a receipt.
pub proof fn lemma_redaction_needs_receipt(evs: Seq<WatchEvent>, delay_secs: u64)
    ensures
        run_watch(WatchState::AwaitingReceipt, evs, delay_secs)
            != WatchState::AwaitingReceipt ==> some_receipt_observed(evs),
{
    if !some_receipt_observed(evs) {
        lemma_no_receipt_never_redacts(evs, delay_secs);
    }
}

} // verus!
