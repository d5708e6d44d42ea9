use shortsbot::engine::{ConfigError, Engine, EngineConfig, OutgoingAction, RoomTriggerState};

const FIRST_TODAY: &str = "This is the first time you've posted Shorts in the past day!";

fn standard_config() -> EngineConfig {
    EngineConfig {
        trigger_pattern: r"youtube\.com/shorts".to_string(),
        reply_pattern: "(https://matrix\\.to/#/.*?)(?:\\?|\")".to_string(),
        command_token: ".r".to_string(),
        window_secs: 86400,
    }
}

fn engine() -> Engine {
    Engine::new(standard_config()).unwrap()
}

fn notification_body(action: Option<OutgoingAction>) -> String {
    match action {
        Some(OutgoingAction::Notification { body }) => body,
        other => panic!("expected a notification, got {:?}", other),
    }
}

#[test]
fn first_trigger_is_recorded_silently() {
    let eng = engine();
    let mut state = RoomTriggerState::new();
    let action = eng.on_text_event(&mut state, "https://youtube.com/shorts/abc", None, 0);
    assert!(action.is_none());
    assert_eq!(state.last_trigger_secs(), Some(0));
    assert_eq!(state.history_len(), 1);
}

#[test]
fn scenario_second_trigger_after_100_seconds() {
    let eng = engine();
    let mut state = RoomTriggerState::new();
    assert!(eng.on_text_event(&mut state, "https://youtube.com/shorts/abc", None, 0).is_none());
    let action = eng.on_text_event(&mut state, "see https://youtube.com/shorts/def", None, 100);
    let body = notification_body(action);
    assert_eq!(
        body,
        "<del>100</del> 0 seconds without posting Shorts<br>You've posted Shorts 2 times in the past day!"
    );
    assert_eq!(state.last_trigger_secs(), Some(100));
    assert_eq!(state.history_len(), 2);
}

#[test]
fn scenario_count_resets_outside_trailing_window() {
    let eng = engine();
    let mut state = RoomTriggerState::new();
    for t in [0, 100, 200] {
        eng.on_text_event(&mut state, "https://youtube.com/shorts/x", None, t);
    }
    let action = eng.on_text_event(&mut state, "https://youtube.com/shorts/y", None, 90200);
    let body = notification_body(action);
    assert_eq!(
        body,
        format!("<del>90000</del> 0 seconds without posting Shorts<br>{}", FIRST_TODAY)
    );
}

#[test]
fn window_lower_edge_is_exclusive() {
    let eng = engine();
    let mut state = RoomTriggerState::new();
    eng.on_text_event(&mut state, "https://youtube.com/shorts/x", None, 0);
    // Exactly window_secs later the old trigger is outside the window.
    let body = notification_body(eng.on_text_event(
        &mut state,
        "https://youtube.com/shorts/y",
        None,
        86400,
    ));
    assert!(body.contains(FIRST_TODAY));
}

#[test]
fn window_keeps_trigger_one_second_inside() {
    let eng = engine();
    let mut state = RoomTriggerState::new();
    eng.on_text_event(&mut state, "https://youtube.com/shorts/x", None, 0);
    let body = notification_body(eng.on_text_event(
        &mut state,
        "https://youtube.com/shorts/y",
        None,
        86399,
    ));
    assert!(body.contains("You've posted Shorts 2 times in the past day!"));
}

#[test]
fn unmatched_event_draws_nothing_and_changes_nothing() {
    let eng = engine();
    let mut state = RoomTriggerState::new();
    let action = eng.on_text_event(&mut state, "hello there", None, 5);
    assert!(action.is_none());
    assert_eq!(state.last_trigger_secs(), None);
    assert_eq!(state.history_len(), 0);
}

#[test]
fn command_before_any_capture_draws_nothing() {
    let eng = engine();
    let mut state = RoomTriggerState::new();
    let action = eng.on_text_event(&mut state, ".r", None, 5);
    assert!(action.is_none());
}

#[test]
fn capture_then_command_echoes_link() {
    let eng = engine();
    let mut state = RoomTriggerState::new();
    let formatted = "<a href=\"https://matrix.to/#/!room:server/$event?via=server\">msg</a>";
    let action = eng.on_text_event(&mut state, "msg", Some(formatted), 1);
    assert!(action.is_none());
    let action = eng.on_text_event(&mut state, ".r", None, 2);
    match action {
        Some(OutgoingAction::Reply { body }) => {
            assert_eq!(body, "https://matrix.to/#/!room:server/$event");
        }
        other => panic!("expected a reply, got {:?}", other),
    }
    // The command does not disturb trigger state.
    assert_eq!(state.last_trigger_secs(), None);
    assert_eq!(state.history_len(), 0);
}

#[test]
fn cache_holds_most_recent_capture() {
    let eng = engine();
    let mut state = RoomTriggerState::new();
    let first = "<a href=\"https://matrix.to/#/!room:server/$one?via=server\">a</a>";
    let second = "<a href=\"https://matrix.to/#/!room:server/$two?via=server\">b</a>";
    eng.on_text_event(&mut state, "a", Some(first), 1);
    eng.on_text_event(&mut state, "b", Some(second), 2);
    let action = eng.on_text_event(&mut state, ".r", None, 3);
    match action {
        Some(OutgoingAction::Reply { body }) => {
            assert_eq!(body, "https://matrix.to/#/!room:server/$two");
        }
        other => panic!("expected a reply, got {:?}", other),
    }
}

#[test]
fn capture_takes_precedence_over_trigger() {
    let eng = engine();
    let mut state = RoomTriggerState::new();
    // The formatted body captures and the plain body is monitored content:
    // the capture wins, no action and no trigger recorded.
    let formatted = "<a href=\"https://matrix.to/#/!room:server/$e?via=s\">x</a>";
    let action = eng.on_text_event(
        &mut state,
        "https://youtube.com/shorts/abc",
        Some(formatted),
        7,
    );
    assert!(action.is_none());
    assert_eq!(state.last_trigger_secs(), None);
    assert_eq!(state.history_len(), 0);
}

#[test]
fn formatted_body_without_capture_still_triggers() {
    let eng = engine();
    let mut state = RoomTriggerState::new();
    let action = eng.on_text_event(
        &mut state,
        "https://youtube.com/shorts/abc",
        Some("<b>https://youtube.com/shorts/abc</b>"),
        7,
    );
    assert!(action.is_none());
    assert_eq!(state.last_trigger_secs(), Some(7));
}

#[test]
fn invalid_trigger_pattern_is_fatal_at_construction() {
    let mut config = standard_config();
    config.trigger_pattern = "(".to_string();
    assert_eq!(Engine::new(config).err(), Some(ConfigError::InvalidTriggerPattern));
}

#[test]
fn invalid_reply_pattern_is_fatal_at_construction() {
    let mut config = standard_config();
    config.reply_pattern = "[unclosed".to_string();
    assert_eq!(Engine::new(config).err(), Some(ConfigError::InvalidReplyPattern));
}
