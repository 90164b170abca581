use wolf_ui::apps::AppAction;
use wolf_ui::dialogs::{
    action_label, app_dialog_step, error_message, lobby_action_label, lobby_dialog_step,
    lobby_error_message, lobby_pin_description, lobby_pin_submit_label, pin_description,
    pin_submit_label, pin_title, progress_message, shows_progress, success_message,
    AppDialogEffect, AppDialogEvent, AppDialogState, AppPinPrompt, LobbyAction, LobbyDialogEffect,
    LobbyDialogEvent, LobbyDialogState, LobbyPinPrompt,
};
use wolf_ui::pin::{digit_of_key, PinEntry, MAX_PIN_DIGITS};

#[test]
fn app_action_labels_and_prompts() {
    assert_eq!(action_label(AppAction::StartCoop), "Start Co-op");
    assert_eq!(action_label(AppAction::CheckUpdate), "Check for Update");
    assert_eq!(pin_title(AppAction::StartCoop), "Choose lobby PIN");
    assert_eq!(pin_title(AppAction::Start), "PIN required");
    assert_eq!(pin_description(AppAction::StartCoop), "Players need this PIN to join");
    assert_eq!(pin_description(AppAction::Stop), "Enter PIN");
    assert_eq!(pin_submit_label(AppAction::StartCoop), "Create");
    assert_eq!(pin_submit_label(AppAction::Connect), "Submit");
    assert_eq!(progress_message(AppAction::CheckUpdate), "Updating image");
    assert_eq!(progress_message(AppAction::Download), "Downloading image");
    assert_eq!(progress_message(AppAction::Start), "Working");
    assert!(shows_progress(AppAction::Download));
    assert!(!shows_progress(AppAction::Stop));
}

#[test]
fn app_action_outcome_messages() {
    assert_eq!(success_message(AppAction::CheckUpdate, true), Some("Image updated."));
    assert_eq!(success_message(AppAction::CheckUpdate, false), Some("Image is up to date."));
    assert_eq!(success_message(AppAction::Download, false), Some("Image downloaded."));
    assert_eq!(success_message(AppAction::Start, true), None);
    assert_eq!(error_message(AppAction::Stop, "request TIMED OUT"), "Stop timed out. Try again.");
    assert_eq!(
        error_message(AppAction::StartCoop, "Lobby or session not found"),
        "Lobby or session not found. Refresh and try again."
    );
    assert_eq!(
        error_message(AppAction::Connect, "Lobby or session not found"),
        "Connect failed. Try again."
    );
}

#[test]
fn lobby_messages() {
    assert_eq!(lobby_action_label(LobbyAction::Join), "Lobby join");
    assert_eq!(lobby_pin_description(LobbyAction::Stop), "Enter the lobby PIN to stop it");
    assert_eq!(lobby_pin_submit_label(LobbyAction::Join), "Join");
    assert_eq!(lobby_error_message(LobbyAction::Join, None), "Lobby join did not complete. Try again.");
    assert_eq!(lobby_error_message(LobbyAction::Stop, Some("invalid pin")), "Incorrect PIN. Try again.");
    assert_eq!(
        lobby_error_message(LobbyAction::Stop, Some("Request timed out")),
        "Lobby stop timed out. Try again."
    );
    assert_eq!(
        lobby_error_message(LobbyAction::Join, Some("LOBBY OR SESSION NOT FOUND")),
        "Lobby or session not found. Refresh and try again."
    );
    assert_eq!(lobby_error_message(LobbyAction::Join, Some("boom")), "Lobby join failed: boom");
}

#[test]
fn co_op_start_asks_about_a_pin_first() {
    let mut state = AppDialogState::new();
    assert_eq!(app_dialog_step(&mut state, AppDialogEvent::Chosen(AppAction::StartCoop)), AppDialogEffect::Nothing);
    assert_eq!(state.prompt, Some(AppPinPrompt::ProtectCoop));
    assert_eq!(app_dialog_step(&mut state, AppDialogEvent::ProtectAnswered(true)), AppDialogEffect::Nothing);
    assert_eq!(state.prompt, Some(AppPinPrompt::EnterPin(AppAction::StartCoop)));
    assert_eq!(app_dialog_step(&mut state, AppDialogEvent::PinCancelled), AppDialogEffect::Nothing);
    assert_eq!(state.prompt, Some(AppPinPrompt::ProtectCoop));
    app_dialog_step(&mut state, AppDialogEvent::ProtectAnswered(true));
    let effect = app_dialog_step(&mut state, AppDialogEvent::PinSubmitted(vec![1, 2, 3, 4]));
    assert_eq!(
        effect,
        AppDialogEffect::Run { action: AppAction::StartCoop, pin: Some(vec![1, 2, 3, 4]) }
    );
    assert_eq!(state.loading, Some(AppAction::StartCoop));
    assert_eq!(state.prompt, None);
}

#[test]
fn co_op_without_pin_runs_at_once() {
    let mut state = AppDialogState::new();
    app_dialog_step(&mut state, AppDialogEvent::Chosen(AppAction::StartCoop));
    assert_eq!(
        app_dialog_step(&mut state, AppDialogEvent::ProtectAnswered(false)),
        AppDialogEffect::Run { action: AppAction::StartCoop, pin: None }
    );
}

#[test]
fn app_dialog_runs_one_action_at_a_time_and_reports() {
    let mut state = AppDialogState::new();
    assert_eq!(
        app_dialog_step(&mut state, AppDialogEvent::Chosen(AppAction::CheckUpdate)),
        AppDialogEffect::Run { action: AppAction::CheckUpdate, pin: None }
    );
    assert_eq!(app_dialog_step(&mut state, AppDialogEvent::Chosen(AppAction::Start)), AppDialogEffect::Nothing);
    assert_eq!(app_dialog_step(&mut state, AppDialogEvent::CloseRequested), AppDialogEffect::Nothing);
    match app_dialog_step(&mut state, AppDialogEvent::Finished(Ok(true))) {
        AppDialogEffect::Close { toast: Some(note) } => {
            assert_eq!(note.message, "Image updated.");
            assert!(!note.error);
        }
        other => panic!("unexpected {other:?}"),
    }
    assert_eq!(state.loading, None);

    app_dialog_step(&mut state, AppDialogEvent::Chosen(AppAction::Start));
    match app_dialog_step(&mut state, AppDialogEvent::Finished(Err("Request timed out".to_string()))) {
        AppDialogEffect::Close { toast: Some(note) } => {
            assert_eq!(note.message, "Start timed out. Try again.");
            assert!(note.error);
        }
        other => panic!("unexpected {other:?}"),
    }
    app_dialog_step(&mut state, AppDialogEvent::Chosen(AppAction::Stop));
    assert_eq!(
        app_dialog_step(&mut state, AppDialogEvent::Finished(Ok(true))),
        AppDialogEffect::Close { toast: None }
    );
    assert_eq!(app_dialog_step(&mut state, AppDialogEvent::CloseRequested), AppDialogEffect::Close { toast: None });
}

#[test]
fn lobby_pin_is_asked_when_required() {
    let mut state = LobbyDialogState::new();
    assert_eq!(
        lobby_dialog_step(&mut state, LobbyDialogEvent::Chosen(LobbyAction::Join), true, &None),
        LobbyDialogEffect::Nothing
    );
    assert_eq!(state.prompt, Some(LobbyPinPrompt::LobbyPin(LobbyAction::Join)));
    assert_eq!(
        lobby_dialog_step(&mut state, LobbyDialogEvent::PinSubmitted(vec![4, 2]), true, &None),
        LobbyDialogEffect::Run { action: LobbyAction::Join, pin: Some(vec![4, 2]) }
    );
    assert_eq!(
        lobby_dialog_step(&mut state, LobbyDialogEvent::Finished(Ok(true)), true, &None),
        LobbyDialogEffect::Close { stopped: false, toast: None }
    );
}

#[test]
fn owner_pin_guards_stopping_a_lobby() {
    let owner = Some(vec![1, 2, 3]);
    let mut state = LobbyDialogState::new();
    lobby_dialog_step(&mut state, LobbyDialogEvent::Chosen(LobbyAction::Stop), false, &owner);
    assert_eq!(state.prompt, Some(LobbyPinPrompt::ProfilePin));
    match lobby_dialog_step(&mut state, LobbyDialogEvent::PinSubmitted(vec![9]), false, &owner) {
        LobbyDialogEffect::Notify(note) => {
            assert_eq!(note.message, "Incorrect PIN. Try again.");
            assert!(note.error);
        }
        other => panic!("unexpected {other:?}"),
    }
    assert_eq!(state.loading, None);
    lobby_dialog_step(&mut state, LobbyDialogEvent::Chosen(LobbyAction::Stop), false, &owner);
    assert_eq!(
        lobby_dialog_step(&mut state, LobbyDialogEvent::PinSubmitted(vec![1, 2, 3]), false, &owner),
        LobbyDialogEffect::Run { action: LobbyAction::Stop, pin: None }
    );
    match lobby_dialog_step(&mut state, LobbyDialogEvent::Finished(Ok(true)), false, &owner) {
        LobbyDialogEffect::Close { stopped: true, toast: Some(note) } => {
            assert_eq!(note.message, "Lobby stopped.");
        }
        other => panic!("unexpected {other:?}"),
    }
}

#[test]
fn lobby_failures_close_with_a_note() {
    let mut state = LobbyDialogState::new();
    assert_eq!(
        lobby_dialog_step(&mut state, LobbyDialogEvent::Chosen(LobbyAction::Join), false, &None),
        LobbyDialogEffect::Run { action: LobbyAction::Join, pin: None }
    );
    match lobby_dialog_step(&mut state, LobbyDialogEvent::Finished(Err(None)), false, &None) {
        LobbyDialogEffect::Close { stopped: false, toast: Some(note) } => {
            assert_eq!(note.message, "Lobby join did not complete. Try again.");
            assert!(note.error);
        }
        other => panic!("unexpected {other:?}"),
    }
}

#[test]
fn pin_entry_holds_at_most_eight_digits() {
    let mut pin = PinEntry::new();
    assert_eq!(pin.submit(), None);
    for d in 0..10 {
        pin.push_digit(d % 10);
    }
    assert_eq!(pin.len(), MAX_PIN_DIGITS);
    pin.pop();
    assert_eq!(pin.len(), 7);
    assert_eq!(pin.submit(), Some(vec![0, 1, 2, 3, 4, 5, 6]));
    pin.clear();
    assert!(pin.is_empty());
    pin.pop();
    assert!(pin.is_empty());
}

#[test]
fn only_single_digit_keys_type_a_digit() {
    assert_eq!(digit_of_key("7"), Some(7));
    assert_eq!(digit_of_key("0"), Some(0));
    assert_eq!(digit_of_key("a"), None);
    assert_eq!(digit_of_key("12"), None);
    assert_eq!(digit_of_key(""), None);
    assert_eq!(digit_of_key("٣"), None);
}
