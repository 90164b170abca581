use wolf_ui::gamepad::{
    active_direction, button_action, button_changed_action, classify_gamepad, dpad_action,
    gamepad_reconcile, gamepad_step, DirectionRepeat as PadRepeat, DirectionSource,
    DirectionalAction, GamepadAxis, GamepadButton, GamepadFamily, InputSource, PadEvent, PadState,
};
use wolf_ui::input::{is_direction_action, keyboard_action, DirectionState, Key, UiAction, UiCommand, UiHint};
use wolf_ui::provider::{handle_input_event, key_down, key_up, InputEvent};
use wolf_ui::repeat::{handle_keyboard_repeat_event, DirectionRepeat, KeyboardRepeatEvent};

#[test]
fn direction_change_fires_once_and_waits_before_repeating() {
    let mut repeat = DirectionRepeat::default();

    assert_eq!(repeat.update(Some(UiAction::Right), 0), Some(UiAction::Right));
    assert_eq!(repeat.update(Some(UiAction::Right), 0), None);
    assert_eq!(repeat.tick(0), None);
}

#[test]
fn clearing_direction_stops_repeats_until_new_direction() {
    let mut repeat = DirectionRepeat::default();

    assert_eq!(repeat.update(Some(UiAction::Down), 0), Some(UiAction::Down));
    assert_eq!(repeat.update(None, 0), None);
    assert_eq!(repeat.tick(0), None);
    assert_eq!(repeat.update(Some(UiAction::Up), 0), Some(UiAction::Up));
}

#[test]
fn held_direction_repeats_after_the_initial_delay_then_steadily() {
    let mut repeat = DirectionRepeat::default();
    assert_eq!(repeat.update(Some(UiAction::Left), 1000), Some(UiAction::Left));
    assert_eq!(repeat.tick(1499), None);
    assert_eq!(repeat.tick(1500), Some(UiAction::Left));
    assert_eq!(repeat.tick(1674), None);
    assert_eq!(repeat.tick(1675), Some(UiAction::Left));
    assert_eq!(repeat.update(None, 1700), None);
    assert_eq!(repeat.tick(5000), None);
}

#[test]
fn keyboard_repeat_follows_the_winning_held_arrow() {
    let mut directions = DirectionState::new();
    let mut repeat = DirectionRepeat::default();
    assert_eq!(
        handle_keyboard_repeat_event(KeyboardRepeatEvent::Pressed(UiAction::Up), &mut directions, &mut repeat, 0),
        Some(UiAction::Up)
    );
    assert_eq!(
        handle_keyboard_repeat_event(KeyboardRepeatEvent::Pressed(UiAction::Left), &mut directions, &mut repeat, 10),
        Some(UiAction::Left)
    );
    assert_eq!(
        handle_keyboard_repeat_event(KeyboardRepeatEvent::Released(UiAction::Left), &mut directions, &mut repeat, 20),
        Some(UiAction::Up)
    );
    assert_eq!(
        handle_keyboard_repeat_event(KeyboardRepeatEvent::Released(UiAction::Up), &mut directions, &mut repeat, 30),
        None
    );
    assert_eq!(directions.direction(), None);
}

#[test]
fn direction_priority_is_left_right_up_down() {
    let mut state = DirectionState::new();
    state.set(UiAction::Down, true);
    state.set(UiAction::Up, true);
    assert_eq!(state.direction(), Some(UiAction::Up));
    state.set(UiAction::Right, true);
    assert_eq!(state.direction(), Some(UiAction::Right));
    state.set(UiAction::Left, true);
    assert_eq!(state.direction(), Some(UiAction::Left));
    state.set(UiAction::Accept, false);
    assert_eq!(state.direction(), Some(UiAction::Left));
}

#[test]
fn keys_map_to_actions() {
    assert_eq!(keyboard_action(&Key::Enter), Some(UiAction::Accept));
    assert_eq!(keyboard_action(&Key::Character(" ".to_string())), Some(UiAction::Accept));
    assert_eq!(keyboard_action(&Key::Character("f".to_string())), Some(UiAction::Menu));
    assert_eq!(keyboard_action(&Key::Character("F".to_string())), Some(UiAction::Menu));
    assert_eq!(keyboard_action(&Key::Character("g".to_string())), None);
    assert_eq!(keyboard_action(&Key::Escape), Some(UiAction::Cancel));
    assert_eq!(keyboard_action(&Key::Backspace), Some(UiAction::Cancel));
    assert_eq!(keyboard_action(&Key::ArrowUp), Some(UiAction::Up));
    assert_eq!(keyboard_action(&Key::PageDown), Some(UiAction::PageDown));
    assert_eq!(keyboard_action(&Key::Other), None);
}

#[test]
fn actions_have_script_names_and_hints() {
    assert_eq!(UiAction::PageUp.as_js_action(), "page-up");
    assert_eq!(UiAction::Accept.as_js_action(), "accept");
    assert_eq!(UiHint::from(UiAction::Left), UiHint::Navigate);
    assert_eq!(UiHint::from(UiAction::Menu), UiHint::Menu);
    assert_eq!(UiHint::from(UiCommand::Cancel), UiHint::Cancel);
    assert!(is_direction_action(UiAction::Down));
    assert!(!is_direction_action(UiAction::PageDown));
}

#[test]
fn key_presses_are_kept_repeated_or_dispatched() {
    let accept = key_down(&Key::Enter, false);
    assert!(accept.keyboard_source && !accept.prevent_default);
    assert_eq!(accept.dispatch, None);

    let arrow = key_down(&Key::ArrowDown, false);
    assert!(arrow.prevent_default);
    assert_eq!(arrow.repeat, Some(KeyboardRepeatEvent::Pressed(UiAction::Down)));
    assert_eq!(key_down(&Key::ArrowDown, true).repeat, None);

    let cancel = key_down(&Key::Escape, false);
    assert_eq!(cancel.dispatch, Some(UiAction::Cancel));
    assert!(!key_down(&Key::Other, false).keyboard_source);

    assert_eq!(key_up(&Key::ArrowDown).repeat, Some(KeyboardRepeatEvent::Released(UiAction::Down)));
    assert_eq!(key_up(&Key::Escape).repeat, None);
}

#[test]
fn input_events_switch_source_and_recover_focus_for_gamepads() {
    let pad = InputSource::Gamepad(GamepadFamily::Xbox);
    let outcome = handle_input_event(
        InputSource::MouseKeyboard,
        InputEvent::Action { source: pad, action: UiAction::Accept },
    );
    assert_eq!(outcome.source, Some(pad));
    assert!(outcome.recover_focus);
    assert_eq!(outcome.dispatch, Some(UiAction::Accept));

    let same = handle_input_event(pad, InputEvent::SourceChanged(pad));
    assert_eq!(same.source, None);
    assert_eq!(same.dispatch, None);

    let keyboard = handle_input_event(pad, InputEvent::SourceChanged(InputSource::MouseKeyboard));
    assert_eq!(keyboard.source, Some(InputSource::MouseKeyboard));
    assert!(!keyboard.recover_focus);
}

#[test]
fn gamepads_are_classified_by_name() {
    assert_eq!(classify_gamepad("Sony DualSense Wireless Controller"), GamepadFamily::PlayStation);
    assert_eq!(classify_gamepad("PS4 Controller"), GamepadFamily::PlayStation);
    assert_eq!(classify_gamepad("Nintendo Switch Pro Controller"), GamepadFamily::Switch);
    assert_eq!(classify_gamepad("Joy-Con (L/R)"), GamepadFamily::Switch);
    assert_eq!(classify_gamepad("Microsoft X-Box 360 pad"), GamepadFamily::Xbox);
    assert_eq!(classify_gamepad("Xbox Wireless Controller"), GamepadFamily::Xbox);
    assert_eq!(classify_gamepad("8BitDo SN30"), GamepadFamily::Generic);
}

#[test]
fn face_buttons_swap_on_nintendo_pads() {
    assert_eq!(button_action(GamepadFamily::Xbox, GamepadButton::South), Some(UiAction::Accept));
    assert_eq!(button_action(GamepadFamily::Xbox, GamepadButton::East), Some(UiAction::Cancel));
    assert_eq!(button_action(GamepadFamily::Switch, GamepadButton::South), Some(UiAction::Cancel));
    assert_eq!(button_action(GamepadFamily::Switch, GamepadButton::East), Some(UiAction::Accept));
    assert_eq!(button_action(GamepadFamily::Generic, GamepadButton::Start), Some(UiAction::Menu));
    assert_eq!(button_action(GamepadFamily::Generic, GamepadButton::North), None);
    assert_eq!(button_changed_action(GamepadFamily::Xbox, GamepadButton::South, false), None);
    assert_eq!(
        button_changed_action(GamepadFamily::Xbox, GamepadButton::South, true),
        Some(UiAction::Accept)
    );
    assert_eq!(dpad_action(GamepadButton::DPadLeft), Some(UiAction::Left));
    assert_eq!(dpad_action(GamepadButton::South), None);
}

#[test]
fn dpad_wins_over_the_stick_and_repeats_faster() {
    let mut dpad = DirectionState::new();
    let stick_only = active_direction(&dpad, Some(UiAction::Up));
    assert_eq!(
        stick_only,
        Some(DirectionalAction { source: DirectionSource::Stick, action: UiAction::Up })
    );
    dpad.set(UiAction::Down, true);
    let both = active_direction(&dpad, Some(UiAction::Up)).unwrap();
    assert_eq!(both.source, DirectionSource::Dpad);
    assert_eq!(both.action(), UiAction::Down);
    assert_eq!(both.initial_delay(), 280);
    assert_eq!(both.repeat_delay(), 110);
    assert_eq!(stick_only.unwrap().initial_delay(), 480);
    assert_eq!(stick_only.unwrap().repeat_delay(), 220);

    let mut repeat = PadRepeat::default();
    assert_eq!(repeat.update(Some(both), 0), Some(UiAction::Down));
    assert_eq!(repeat.tick(279), None);
    assert_eq!(repeat.tick(280), Some(UiAction::Down));
    assert_eq!(repeat.tick(389), None);
    assert_eq!(repeat.tick(390), Some(UiAction::Down));
}

#[test]
fn gamepad_events_drive_actions_and_repeat() {
    let mut state = PadState::new();
    let family = GamepadFamily::PlayStation;
    assert_eq!(
        gamepad_step(&mut state, family, PadEvent::ButtonPressed(GamepadButton::South), 0),
        Some(UiAction::Accept)
    );
    assert_eq!(
        gamepad_step(&mut state, family, PadEvent::ButtonPressed(GamepadButton::DPadRight), 0),
        Some(UiAction::Right)
    );
    assert_eq!(
        gamepad_step(
            &mut state,
            family,
            PadEvent::AxisChanged { axis: GamepadAxis::LeftStickX, negative: false, positive: false, stick: Some(UiAction::Up) },
            5,
        ),
        None
    );
    assert_eq!(
        gamepad_step(&mut state, family, PadEvent::ButtonReleased(GamepadButton::DPadRight), 10),
        Some(UiAction::Up)
    );
    assert_eq!(
        gamepad_step(
            &mut state,
            family,
            PadEvent::AxisChanged { axis: GamepadAxis::DPadX, negative: true, positive: false, stick: Some(UiAction::Up) },
            20,
        ),
        Some(UiAction::Left)
    );
    assert_eq!(gamepad_step(&mut state, family, PadEvent::Disconnected, 30), None);
    assert_eq!(state.dpad.direction(), None);
    assert_eq!(state.stick, None);
    assert_eq!(state.repeat.tick(10_000), None);

    let mut held = DirectionState::new();
    held.set(UiAction::Up, true);
    assert_eq!(gamepad_reconcile(&mut state, held, None, 40), Some(UiAction::Up));
    assert_eq!(gamepad_reconcile(&mut state, held, None, 50), None);
}
