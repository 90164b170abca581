use wolf_ui::docker::{significant_line, Percent, PullProgress, PullProgressState, PullStep, PullStream};
use wolf_ui::error::ApiError;
use wolf_ui::events::{
    without_carriage_return, event_kind, parse_event, CreateLobbyEvent, EventKind, EventPayload, EventStreamParser,
    JoinLobbyEvent, LineBuffer, StopLobbyEvent, WolfEvent,
};
use wolf_ui::model::{CmdRunner, Runner};

fn value(p: Percent) -> f64 {
    p.numerator() as f64 / p.denominator() as f64
}

/// Decodes an event the way the event listener does: known kinds parse their
/// JSON data, and a malformed payload becomes a decode error.
fn decode(frame_type: &str, data: &str) -> Option<Result<EventPayload, ApiError>> {
    match event_kind(frame_type) {
        EventKind::Other => None,
        EventKind::StopLobby => Some(
            serde_json::from_str::<serde_json::Value>(data)
                .map_err(|e| ApiError::from_event_decode(e.to_string()))
                .map(|v| {
                    EventPayload::StopLobby(StopLobbyEvent {
                        lobby_id: v["lobby_id"].as_str().unwrap_or_default().to_string(),
                        pin: None,
                    })
                }),
        ),
        _ => Some(Err(ApiError::from_event_decode("unsupported in this test".to_string()))),
    }
}

#[test]
fn parser_emits_and_resets_unknown_events_on_blank_lines() {
    let mut parser = EventStreamParser::new();

    assert!(parser.accept_line("event: wolf::unknown").is_none());
    assert!(parser.accept_line("data: ignored").is_none());

    let frame = parser
        .accept_line("")
        .expect("blank line should complete the event");
    let decoded = decode(&frame.event_type, &frame.data);
    let event = parse_event(frame.event_type, decoded).expect("unknown event should parse");

    assert_eq!(event, WolfEvent::Other("wolf::unknown".to_string()));

    parser.accept_line("event: second");
    let frame = parser
        .accept_line("")
        .expect("blank line should complete second event");
    let decoded = decode(&frame.event_type, &frame.data);
    let second = parse_event(frame.event_type, decoded).expect("second event should parse");

    assert_eq!(second, WolfEvent::Other("second".to_string()));
}

#[test]
fn parser_returns_decode_errors_for_malformed_known_events() {
    let mut parser = EventStreamParser::new();

    parser.accept_line("event: wolf::core::events::StopLobbyEvent");
    parser.accept_line("data: not-json");

    let frame = parser
        .accept_line("")
        .expect("blank line should complete the event");
    assert_eq!(frame.data, "not-json");
    let decoded = decode(&frame.event_type, &frame.data);
    let error = parse_event(frame.event_type, decoded).expect_err("malformed known event should fail");

    assert!(matches!(error, ApiError::EventDecode(_)));
}

#[test]
fn parser_maps_create_lobby_events_into_lobby_state() {
    let payload = CreateLobbyEvent {
        id: "lobby".to_string(),
        profile_id: "profile".to_string(),
        name: "Game".to_string(),
        icon_png_path: None,
        pin: None,
        multi_user: true,
        stop_when_everyone_leaves: true,
        runner: Runner::Cmd(CmdRunner { run_cmd: "game".to_string() }),
    };
    let event = parse_event(
        "wolf::core::events::CreateLobbyEvent".to_string(),
        Some(Ok(EventPayload::CreateLobby(payload))),
    )
    .expect("create lobby event should map into lobby state");

    match event {
        WolfEvent::LobbyCreated(lobby) => {
            assert_eq!(lobby.id, "lobby");
            assert_eq!(lobby.started_by_profile_id, "profile");
            assert!(lobby.connected_sessions.is_empty());
            assert!(!lobby.pin_required);
        }
        _ => panic!("expected lobby created event"),
    }
}

#[test]
fn blank_line_without_event_type_emits_nothing() {
    let mut parser = EventStreamParser::new();
    assert!(parser.accept_line("data: orphan").is_none());
    assert!(parser.accept_line("").is_none());
    assert!(parser.accept_line("event: next").is_none());
    assert!(parser.accept_line(": comment").is_none());
    assert!(parser.accept_line("data: a").is_none());
    assert!(parser.accept_line("data: b").is_none());
    let frame = parser.accept_line("").expect("event completes");
    assert_eq!(frame.event_type, "next");
    assert_eq!(frame.data, "ab");
}

#[test]
fn join_and_stop_payloads_become_lobby_changes() {
    let join = JoinLobbyEvent { lobby_id: "l1".to_string(), moonlight_session_id: "s1".to_string() };
    let event = parse_event(
        "wolf::core::events::JoinLobbyEvent".to_string(),
        Some(Ok(EventPayload::JoinLobby(join.clone()))),
    )
    .unwrap();
    assert_eq!(event, WolfEvent::LobbyJoined(join));

    let stop = StopLobbyEvent { lobby_id: "l2".to_string(), pin: Some(vec![1, 2]) };
    let event = parse_event(
        "wolf::core::events::StopLobbyEvent".to_string(),
        Some(Ok(EventPayload::StopLobby(stop))),
    )
    .unwrap();
    assert_eq!(event, WolfEvent::LobbyStopped("l2".to_string()));
}

#[test]
fn event_kinds_are_recognised_by_name() {
    assert_eq!(event_kind("wolf::core::events::CreateLobbyEvent"), EventKind::CreateLobby);
    assert_eq!(event_kind("wolf::core::events::JoinLobbyEvent"), EventKind::JoinLobby);
    assert_eq!(event_kind("wolf::core::events::LeaveLobbyEvent"), EventKind::LeaveLobby);
    assert_eq!(event_kind("wolf::core::events::StopLobbyEvent"), EventKind::StopLobby);
    assert_eq!(event_kind("wolf::core::events::Other"), EventKind::Other);
}

#[test]
fn line_buffer_keeps_partial_lines_until_their_line_feed() {
    let mut buffer = LineBuffer::new();
    assert!(buffer.push("event: a").is_empty());
    let lines = buffer.push("bc\ndata: x\n\npart");
    assert_eq!(lines, vec!["event: abc".to_string(), "data: x".to_string(), String::new()]);
    let lines = buffer.push("ial\n");
    assert_eq!(lines, vec!["partial".to_string()]);
}

#[test]
fn progress_does_not_decrease_when_layer_current_regresses() {
    let mut progress = PullProgressState::new();

    let first = progress.update_layer("layer-a".to_string(), 800, 1000);
    let second = progress.update_layer("layer-a".to_string(), 700, 1000);

    assert_eq!(first.map(value), Some(40.0));
    assert_eq!(second, first);
}

#[test]
fn progress_does_not_decrease_when_new_layer_changes_total() {
    let mut progress = PullProgressState::new();

    let first = progress.update_layer("layer-a".to_string(), 1000, 1000);
    let second = progress.update_layer("layer-b".to_string(), 10, 1000);

    assert_eq!(first.map(value), Some(50.0));
    assert_eq!(second.map(value), first.map(value));
}

#[test]
fn progress_never_reaches_complete_before_success_event() {
    let mut progress = PullProgressState::new();

    let value_now = progress.update_layer("layer-a".to_string(), 2000, 1000);

    assert_eq!(value_now.map(value), Some(99.0));
}

#[test]
fn progress_waits_for_a_meaningful_total() {
    let mut progress = PullProgressState::new();
    assert_eq!(progress.update_layer("layer-a".to_string(), 100, 500), None);
    let later = progress.update_layer("layer-b".to_string(), 0, 1000).unwrap();
    assert!(value(later) <= 99.0);
}

#[test]
fn progress_moves_to_unpacking_after_a_large_drop() {
    let mut progress = PullProgressState::new();
    let downloading = progress.update_layer("layer-a".to_string(), 1000, 1000).unwrap();
    assert_eq!(value(downloading), 50.0);
    let unpacking = progress.update_layer("layer-a".to_string(), 500, 1000).unwrap();
    assert_eq!(value(unpacking), 75.0);
}

#[test]
fn pull_stream_reports_success_and_download() {
    let mut stream = PullStream::new();
    let skipped = stream.accept(PullProgress {
        success: None,
        layer_id: None,
        current_progress: 0,
        total: 0,
    });
    assert_eq!(skipped, PullStep::Continue);
    let reported = stream.accept(PullProgress {
        success: None,
        layer_id: Some("layer".to_string()),
        current_progress: 600,
        total: 1000,
    });
    match reported {
        PullStep::Report(p) => assert_eq!(value(p), 30.0),
        other => panic!("expected a report, got {other:?}"),
    }
    let done = stream.accept(PullProgress {
        success: Some(true),
        layer_id: None,
        current_progress: 0,
        total: 0,
    });
    assert_eq!(done, PullStep::Finished(true));
}

#[test]
fn pull_stream_without_layers_downloaded_nothing() {
    let mut stream = PullStream::new();
    let done = stream.accept(PullProgress {
        success: Some(true),
        layer_id: None,
        current_progress: 0,
        total: 0,
    });
    assert_eq!(done, PullStep::Finished(false));
    assert_eq!(
        PullStream::ended_early(),
        ApiError::Status {
            status: 200,
            body: "Docker pull stream ended before Wolf reported success".to_string()
        }
    );
}

#[test]
fn significant_lines_are_trimmed() {
    assert_eq!(significant_line("  {\"a\":1}\r"), Some("{\"a\":1}".to_string()));
    assert_eq!(significant_line(" \t "), None);
}

#[test]
fn carriage_returns_are_dropped_from_line_ends() {
    assert_eq!(without_carriage_return("event: x\r"), "event: x");
    assert_eq!(without_carriage_return("data: y\r\r"), "data: y");
    assert_eq!(without_carriage_return("a\rb"), "a\rb");
    assert_eq!(without_carriage_return("\r"), "");
}

#[test]
fn progress_updates_are_checked_for_overflow_first() {
    let mut progress = PullProgressState::new();
    assert!(progress.fits(&"a".to_string(), 10, 1000));
    progress.update_layer("a".to_string(), i64::MAX, 1000);
    assert!(!progress.fits(&"b".to_string(), 1, 1000));
    assert!(!progress.fits(&"a".to_string(), 1, 1000));

    let stream = PullStream::new();
    let huge = PullProgress {
        success: None,
        layer_id: Some("a".to_string()),
        current_progress: 1,
        total: 1,
    };
    assert!(stream.fits(&huge));
    let done = PullProgress { success: Some(true), layer_id: None, current_progress: 0, total: 0 };
    assert!(stream.fits(&done));
}

#[test]
fn pull_stream_reports_never_fall_and_stay_below_complete() {
    let mut stream = PullStream::new();
    let mut last = 0.0;
    let steps = [("a", 400, 1000), ("b", 100, 1000), ("a", 100, 1000), ("b", 1000, 1000), ("a", 5000, 1000)];
    for (id, current, total) in steps {
        let event = PullProgress {
            success: None,
            layer_id: Some(id.to_string()),
            current_progress: current,
            total,
        };
        assert!(stream.fits(&event));
        if let PullStep::Report(p) = stream.accept(event) {
            let v = value(p);
            assert!(v >= last && v <= 99.0, "{v} after {last}");
            last = v;
        }
    }
    assert_eq!(last, 99.0);
}
