//! The trigger and throttle engine: classifies an incoming text event,
//! updates the per-room state, and decides which outgoing action, if any,
//! the event draws.

use vstd::prelude::*;
use crate::patterns::{
    regex_capture, regex_capture_first, regex_compile_ok, regex_is_match, regex_match, regex_valid,
};
use crate::render::{render, render_ok, spec_render, templates_ok};
use crate::window::{
    count_recent, lemma_window_count_is_filter, recent_count, sorted, window_count,
};

verus! {

/// The configuration an engine is built from. Patterns, the command token
/// and the window length are fixed at construction time.
pub struct EngineConfig {
    /// Pattern that monitored content must match.
    pub trigger_pattern: String,
    /// Pattern whose first capture group is the reply link.
    pub reply_pattern: String,
    /// Literal command that echoes the cached reply link.
    pub command_token: String,
    /// Length of the trailing window, in seconds.
    pub window_secs: u64,
}

/// Why an engine could not be built.
#[derive(Clone, Copy, Debug, PartialEq, Eq, Structural)]
pub enum ConfigError {
    /// The monitored-content pattern does not compile.
    InvalidTriggerPattern,
    /// The reply-capture pattern does not compile.
    InvalidReplyPattern,
    /// A notification template does not render with the standard bindings.
    InvalidTemplate,
}

/// The mathematical value of an engine: its configuration.
pub struct EngineView {
    pub trigger_pattern: Seq<char>,
    pub reply_pattern: Seq<char>,
    pub command_token: Seq<char>,
    pub window_secs: u64,
}

/// The mathematical value of an engine configuration.
pub open spec fn config_view(config: EngineConfig) -> EngineView {
    EngineView {
        trigger_pattern: config.trigger_pattern@,
        reply_pattern: config.reply_pattern@,
        command_token: config.command_token@,
        window_secs: config.window_secs,
    }
}

/// The engine. Construction validates the configured patterns and the
/// built-in templates, so a value of this type always carries a working
/// configuration.
pub struct Engine {
    trigger_pattern: String,
    reply_pattern: String,
    command_token: String,
    window_secs: u64,
}

impl View for Engine {
    type V = EngineView;

    closed spec fn view(&self) -> EngineView {
        EngineView {
            trigger_pattern: self.trigger_pattern@,
            reply_pattern: self.reply_pattern@,
            command_token: self.command_token@,
            window_secs: self.window_secs,
        }
    }
}

/// The per-room mutable state the engine works on.
pub struct RoomTriggerState {
    last_trigger_time: Option<u64>,
    trigger_history: Vec<u64>,
    last_reply_link: Option<String>,
}

/// The mathematical value of a room's state.
pub struct StateView {
    /// Timestamp of the most recent trigger, absent before the first one.
    pub last_trigger_time: Option<u64>,
    /// Trigger timestamps in arrival order, oldest first.
    pub trigger_history: Seq<u64>,
    /// The most recently captured reply link.
    pub last_reply_link: Option<Seq<char>>,
}

impl View for RoomTriggerState {
    type V = StateView;

    closed spec fn view(&self) -> StateView {
        StateView {
            last_trigger_time: self.last_trigger_time,
            trigger_history: self.trigger_history@,
            last_reply_link: match self.last_reply_link {
                Some(link) => Some(link@),
                None => None,
            },
        }
    }
}

/// The state of a room that has seen no event.
pub open spec fn initial_state() -> StateView {
    StateView { last_trigger_time: None, trigger_history: Seq::empty(), last_reply_link: None }
}

/// Well-formedness of a room's state: the history is ordered, and the last
/// trigger time is exactly its most recent entry.
pub open spec fn state_wf(s: StateView) -> bool {
    &&& sorted(s.trigger_history)
    &&& match s.last_trigger_time {
        Some(t) => s.trigger_history.len() > 0 && s.trigger_history.last() == t,
        None => s.trigger_history.len() == 0,
    }
}

impl RoomTriggerState {
    /// Whether the state is well-formed.
    pub open spec fn wf(&self) -> bool {
        state_wf(self@)
    }

    /// A fresh room state: no trigger seen, no link cached.
    pub fn new() -> (r: RoomTriggerState)
        ensures
            r@ == initial_state(),
            r.wf(),
    {
        let r = RoomTriggerState {
            last_trigger_time: None,
            trigger_history: Vec::new(),
            last_reply_link: None,
        };
        proof {
            assert(r@ =~= initial_state());
        }
        r
    }

    /// The timestamp of the most recent trigger, if any.
    pub fn last_trigger_secs(&self) -> (r: Option<u64>)
        ensures
            r == self@.last_trigger_time,
    {
        self.last_trigger_time
    }

    /// How many triggers the history holds.
    pub fn history_len(&self) -> (r: usize)
        ensures
            r == self@.trigger_history.len(),
    {
        self.trigger_history.len()
    }
}

/// An incoming text event, as the engine sees it.
pub struct TextEventView {
    /// The plain message body.
    pub body: Seq<char>,
    /// The formatted message body, when the event carries one.
    pub formatted: Option<Seq<char>>,
    /// The event's timestamp, in seconds.
    pub timestamp: u64,
}

/// The mathematical value of an optional string slice.
pub open spec fn opt_str_view(s: Option<&str>) -> Option<Seq<char>> {
    match s {
        Some(t) => Some(t@),
        None => None,
    }
}

/// The event value the engine's contract speaks of.
pub open spec fn text_event_view(body: &str, formatted_body: Option<&str>, now_secs: u64) -> TextEventView {
    TextEventView { body: body@, formatted: opt_str_view(formatted_body), timestamp: now_secs }
}

/// The action an event draws.
#[derive(Debug)]
pub enum OutgoingAction {
    /// A plain-text message echoing the cached reply link.
    Reply { body: String },
    /// A rich-text (HTML-capable) notification.
    Notification { body: String },
}

/// The mathematical value of an outgoing action.
pub enum ActionView {
    Reply(Seq<char>),
    Notification(Seq<char>),
}

pub open spec fn action_view(a: OutgoingAction) -> ActionView {
    match a {
        OutgoingAction::Reply { body } => ActionView::Reply(body@),
        OutgoingAction::Notification { body } => ActionView::Notification(body@),
    }
}

pub open spec fn opt_action_view(r: Option<OutgoingAction>) -> Option<ActionView> {
    match r {
        Some(a) => Some(action_view(a)),
        None => None,
    }
}

/// The event's formatted body matches the reply-capture pattern. This check
/// takes precedence over every other one.
pub open spec fn is_reply_capture(eng: EngineView, ev: TextEventView) -> bool {
    &&& ev.formatted is Some
    &&& regex_capture(eng.reply_pattern, ev.formatted.unwrap()) is Some
}

/// The link such an event captures.
pub open spec fn captured_link(eng: EngineView, ev: TextEventView) -> Seq<char> {
    regex_capture(eng.reply_pattern, ev.formatted.unwrap()).unwrap()
}

/// The event is the echo command and a non-empty link is cached.
pub open spec fn is_reply_command(eng: EngineView, s: StateView, ev: TextEventView) -> bool {
    &&& !is_reply_capture(eng, ev)
    &&& ev.body == eng.command_token
    &&& s.last_reply_link is Some
    &&& s.last_reply_link.unwrap().len() > 0
}

/// The event's plain body matches the monitored-content pattern and no
/// earlier check claimed the event.
pub open spec fn is_trigger(eng: EngineView, s: StateView, ev: TextEventView) -> bool {
    &&& !is_reply_capture(eng, ev)
    &&& !is_reply_command(eng, s, ev)
    &&& regex_match(eng.trigger_pattern, ev.body)
}

/// The room state after the engine processes one event.
pub open spec fn step_state(eng: EngineView, s: StateView, ev: TextEventView) -> StateView {
    if is_reply_capture(eng, ev) {
        StateView { last_reply_link: Some(captured_link(eng, ev)), ..s }
    } else if is_trigger(eng, s, ev) {
        StateView {
            last_trigger_time: Some(ev.timestamp),
            trigger_history: s.trigger_history.push(ev.timestamp),
            ..s
        }
    } else {
        s
    }
}

/// The elapsed seconds a notification for this event reports.
pub open spec fn notification_elapsed(s: StateView, ev: TextEventView) -> nat {
    (ev.timestamp - s.last_trigger_time.unwrap()) as nat
}

/// The occurrence count a notification for this event reports: this trigger
/// plus those already within the trailing window.
pub open spec fn notification_count(eng: EngineView, s: StateView, ev: TextEventView) -> nat {
    window_count(s.trigger_history, ev.timestamp, eng.window_secs) + 1
}

/// Whether this is the first trigger within the trailing window.
pub open spec fn notification_first(eng: EngineView, s: StateView, ev: TextEventView) -> bool {
    window_count(s.trigger_history, ev.timestamp, eng.window_secs) == 0
}

/// The body of the notification this event draws.
pub open spec fn notification_body(eng: EngineView, s: StateView, ev: TextEventView) -> Seq<char> {
    spec_render(
        notification_elapsed(s, ev),
        notification_count(eng, s, ev),
        notification_first(eng, s, ev),
    )
}

/// Whether the notification for this event renders. Template failures are a
/// startup-time concern in practice, but rendering success can depend on the
/// bound values, so the action model carries the case.
pub open spec fn notification_renders(eng: EngineView, s: StateView, ev: TextEventView) -> bool {
    render_ok(
        notification_elapsed(s, ev),
        notification_count(eng, s, ev),
        notification_first(eng, s, ev),
    )
}

/// The action one event draws: a captured link draws none, the echo command
/// draws the cached link, a repeated trigger draws a notification if it
/// renders, and the first-ever trigger and unmatched events draw none.
pub open spec fn step_action(eng: EngineView, s: StateView, ev: TextEventView) -> Option<
    ActionView,
> {
    if is_reply_capture(eng, ev) {
        None
    } else if is_reply_command(eng, s, ev) {
        Some(ActionView::Reply(s.last_reply_link.unwrap()))
    } else if is_trigger(eng, s, ev) && s.last_trigger_time is Some && notification_renders(
        eng,
        s,
        ev,
    ) {
        Some(ActionView::Notification(notification_body(eng, s, ev)))
    } else {
        None
    }
}

impl Engine {
    #[verifier::type_invariant]
    closed spec fn engine_wf(self) -> bool {
        &&& regex_valid(self.trigger_pattern@)
        &&& regex_valid(self.reply_pattern@)
        &&& templates_ok()
    }

    /// Builds an engine, validating the configured patterns and the built-in
    /// templates. Each error names the first check that failed; validation is
    /// a startup-time concern and never recurs per message.
    pub fn new(config: EngineConfig) -> (r: Result<Engine, ConfigError>)
        ensures
            r is Ok <==> regex_valid(config.trigger_pattern@) && regex_valid(
                config.reply_pattern@,
            ) && templates_ok(),
            r is Ok ==> r.unwrap()@ == config_view(config),
            r == Err::<Engine, ConfigError>(ConfigError::InvalidTriggerPattern) <==> !regex_valid(
                config.trigger_pattern@,
            ),
            r == Err::<Engine, ConfigError>(ConfigError::InvalidReplyPattern) <==> regex_valid(
                config.trigger_pattern@,
            ) && !regex_valid(config.reply_pattern@),
            r == Err::<Engine, ConfigError>(ConfigError::InvalidTemplate) <==> regex_valid(
                config.trigger_pattern@,
            ) && regex_valid(config.reply_pattern@) && !templates_ok(),
    {
        if !regex_compile_ok(config.trigger_pattern.as_str()) {
            return Err(ConfigError::InvalidTriggerPattern);
        }
        if !regex_compile_ok(config.reply_pattern.as_str()) {
            return Err(ConfigError::InvalidReplyPattern);
        }
        if render(0, 1, true).is_none() {
            return Err(ConfigError::InvalidTemplate);
        }
        if render(0, 2, false).is_none() {
            return Err(ConfigError::InvalidTemplate);
        }
        Ok(
            Engine {
                trigger_pattern: config.trigger_pattern,
                reply_pattern: config.reply_pattern,
                command_token: config.command_token,
                window_secs: config.window_secs,
            },
        )
    }

    /// Classifies one incoming text event and updates the room state under
    /// the caller's exclusive access. The reply-capture check takes
    /// precedence over the echo command, which takes precedence over the
    /// monitored-content check; the first-ever trigger is recorded silently.
    pub fn on_text_event(
        &self,
        state: &mut RoomTriggerState,
        body: &str,
        formatted_body: Option<&str>,
        now_secs: u64,
    ) -> (r: Option<OutgoingAction>)
        requires
            old(state).wf(),
            old(state)@.last_trigger_time is Some ==> old(
                state,
            )@.last_trigger_time.unwrap() <= now_secs,
            old(state)@.trigger_history.len() < usize::MAX,
        ensures
            final(state)@ == step_state(self@, old(state)@, text_event_view(body, formatted_body, now_secs)),
            final(state).wf(),
            opt_action_view(r) == step_action(self@, old(state)@, text_event_view(body, formatted_body, now_secs)),
    {
        proof {
            use_type_invariant(self);
        }
        let ghost eng = self@;
        let ghost s0 = state@;
        let ghost ev = text_event_view(body, formatted_body, now_secs);
        if let Some(fb) = formatted_body {
            if let Some(link) = regex_capture_first(self.reply_pattern.as_str(), fb) {
                state.last_reply_link = Some(link);
                proof {
                    assert(state@ =~= step_state(eng, s0, ev));
                }
                return None;
            }
        }
        proof {
            assert(!is_reply_capture(eng, ev));
        }
        if body.to_owned() == self.command_token {
            if let Some(link) = &state.last_reply_link {
                if !link.as_str().is_empty() {
                    proof {
                        assert(is_reply_command(eng, s0, ev));
                    }
                    return Some(OutgoingAction::Reply { body: link.clone() });
                }
            }
        }
        proof {
            assert(!is_reply_command(eng, s0, ev));
        }
        if regex_is_match(self.trigger_pattern.as_str(), body) {
            proof {
                assert(is_trigger(eng, s0, ev));
                assert(forall|j: int|
                    0 <= j < s0.trigger_history.len() ==> #[trigger] s0.trigger_history[j]
                        <= now_secs);
                assert(sorted(s0.trigger_history.push(now_secs)));
            }
            match state.last_trigger_time {
                None => {
                    state.trigger_history.push(now_secs);
                    state.last_trigger_time = Some(now_secs);
                    proof {
                        assert(state@ =~= step_state(eng, s0, ev));
                    }
                    None
                },
                Some(last) => {
                    let count_before: usize = count_recent(
                        &state.trigger_history,
                        now_secs,
                        self.window_secs,
                    );
                    let elapsed: u64 = now_secs - last;
                    let occurrence_count: u64 = (count_before as u64) + 1;
                    let rendered = render(elapsed, occurrence_count, count_before == 0);
                    state.trigger_history.push(now_secs);
                    state.last_trigger_time = Some(now_secs);
                    proof {
                        assert(state@ =~= step_state(eng, s0, ev));
                    }
                    match rendered {
                        Some(notification) => Some(
                            OutgoingAction::Notification { body: notification },
                        ),
                        None => None,
                    }
                },
            }
        } else {
            None
        }
    }
}

/// The room state after the engine processes a whole sequence of events.
pub open spec fn run_state(eng: EngineView, s0: StateView, evs: Seq<TextEventView>) -> StateView
    decreases evs.len(),
{
    if evs.len() == 0 {
        s0
    } else {
        step_state(eng, run_state(eng, s0, evs.drop_last()), evs.last())
    }
}

/// The link captured most recently in the sequence, if any.
pub open spec fn last_capture(eng: EngineView, evs: Seq<TextEventView>) -> Option<Seq<char>>
    decreases evs.len(),
{
    if evs.len() == 0 {
        None
    } else if is_reply_capture(eng, evs.last()) {
        Some(captured_link(eng, evs.last()))
    } else {
        last_capture(eng, evs.drop_last())
    }
}

/// Law: after any sequence of events from a fresh room, the reply-link cache
/// holds exactly the most recently captured link.
pub proof fn lemma_reply_cache_holds_last_capture(eng: EngineView, evs: Seq<TextEventView>)
    ensures
        run_state(eng, initial_state(), evs).last_reply_link == last_capture(eng, evs),
    decreases evs.len(),
{
    if evs.len() > 0 {
        lemma_reply_cache_holds_last_capture(eng, evs.drop_last());
    }
}

/// Law: the echo command issued before any capture draws no action. The
/// command event must not itself be monitored content — a command token that
/// the monitored-content pattern matches would draw a trigger instead.
pub proof fn lemma_command_before_capture_draws_nothing(
    eng: EngineView,
    evs: Seq<TextEventView>,
    ev: TextEventView,
)
    requires
        last_capture(eng, evs) is None,
        !is_reply_capture(eng, ev),
        ev.body == eng.command_token,
        !regex_match(eng.trigger_pattern, ev.body),
    ensures
        step_action(eng, run_state(eng, initial_state(), evs), ev) is None,
{
    lemma_reply_cache_holds_last_capture(eng, evs);
}

/// The timestamps of a sequence of events, in arrival order.
pub open spec fn timestamps_of(evs: Seq<TextEventView>) -> Seq<u64> {
    evs.map_values(|e: TextEventView| e.timestamp)
}

/// Monitored-content events only: no formatted body, and a plain body that
/// the monitored-content pattern matches.
pub open spec fn all_plain_triggers(eng: EngineView, evs: Seq<TextEventView>) -> bool {
    forall|i: int|
        0 <= i < evs.len() ==> {
            &&& (#[trigger] evs[i]).formatted is None
            &&& regex_match(eng.trigger_pattern, evs[i].body)
        }
}

/// After a run of monitored-content events from a fresh room, the history is
/// exactly the events' timestamps, the last trigger time is the most recent
/// one, and no link is cached.
pub proof fn lemma_history_is_timestamps(eng: EngineView, evs: Seq<TextEventView>)
    requires
        all_plain_triggers(eng, evs),
    ensures
        run_state(eng, initial_state(), evs).trigger_history =~= timestamps_of(evs),
        run_state(eng, initial_state(), evs).last_reply_link is None,
        run_state(eng, initial_state(), evs).last_trigger_time == (if evs.len() == 0 {
            Option::<u64>::None
        } else {
            Some(evs.last().timestamp)
        }),
    decreases evs.len(),
{
    if evs.len() > 0 {
        let prefix = evs.drop_last();
        assert(all_plain_triggers(eng, prefix)) by {
            assert(forall|i: int| 0 <= i < prefix.len() ==> prefix[i] == evs[i]);
        }
        lemma_history_is_timestamps(eng, prefix);
        assert(timestamps_of(prefix) =~= timestamps_of(evs).drop_last());
    }
}

/// Law: in a run of monitored-content events with increasing timestamps from
/// a fresh room, the first event draws no action, and the k-th event draws a
/// notification whose occurrence count is one more than the number of
/// earlier events within the trailing window, and whose elapsed time is the
/// distance to the previous event.
pub proof fn lemma_occurrence_count(eng: EngineView, evs: Seq<TextEventView>, k: int)
    requires
        all_plain_triggers(eng, evs),
        forall|i: int, j: int|
            0 <= i < j < evs.len() ==> evs[i].timestamp < evs[j].timestamp,
        0 <= k < evs.len(),
    ensures
        k == 0 ==> step_action(eng, run_state(eng, initial_state(), evs.take(0)), evs[0])
            is None,
        k > 0 ==> {
            let s = run_state(eng, initial_state(), evs.take(k));
            let act = step_action(eng, s, evs[k]);
            &&& act == (if notification_renders(eng, s, evs[k]) {
                Some(ActionView::Notification(notification_body(eng, s, evs[k])))
            } else {
                Option::<ActionView>::None
            })
            &&& notification_count(eng, s, evs[k]) == 1 + recent_count(
                timestamps_of(evs.take(k)),
                evs[k].timestamp,
                eng.window_secs,
            )
            &&& notification_first(eng, s, evs[k]) <==> recent_count(
                timestamps_of(evs.take(k)),
                evs[k].timestamp,
                eng.window_secs,
            ) == 0
            &&& notification_elapsed(s, evs[k]) == evs[k].timestamp - evs[k - 1].timestamp
        },
{
    let pre = evs.take(k);
    assert(all_plain_triggers(eng, pre)) by {
        assert(forall|i: int| 0 <= i < pre.len() ==> pre[i] == evs[i]);
    }
    lemma_history_is_timestamps(eng, pre);
    let s = run_state(eng, initial_state(), pre);
    lemma_window_count_is_filter(s.trigger_history, evs[k].timestamp, eng.window_secs);
    if k > 0 {
        assert(pre.last() == evs[k - 1]);
        assert(recent_count(s.trigger_history, evs[k].timestamp, eng.window_secs) == recent_count(
            timestamps_of(pre),
            evs[k].timestamp,
            eng.window_secs,
        ));
    }
}

/// Law: a notification reports the first-today clause exactly when its
/// occurrence count is 1.
pub proof fn lemma_first_today_iff_count_one(eng: EngineView, s: StateView, ev: TextEventView)
    ensures
        notification_first(eng, s, ev) <==> notification_count(eng, s, ev) == 1,
{
}

} // verus!
