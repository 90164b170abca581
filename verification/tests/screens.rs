use wolf_ui::actions::{ActionHint, ActionRegistry};
use wolf_ui::apps::{AppAction, AppFilter, AppStatusKind, AppStatusTone};
use wolf_ui::client::{
    apps_of_profile, host_for_retry_scope, image_exists_from_status, is_success, request_url,
    response_error, session_by_client_id, should_retry,
};
use wolf_ui::error::ApiError;
use wolf_ui::flow::{
    begin_action, reply_fits_stage, step_action, FlowNext, FlowReply, FlowRequest, FlowStage,
};
use wolf_ui::gamepad::{GamepadFamily, InputSource};
use wolf_ui::images::{icon_data_url, image_source, is_absolute_url, ImageSource};
use wolf_ui::input::UiHint;
use wolf_ui::model::{
    App, AppListResponse, CmdRunner, DockerRunner, Lobby, Profile, ProfileListResponse, Runner,
    Session, SessionListResponse,
};
use wolf_ui::screens::{
    apps_content, card_badges, clamp_selection, lobby_autofocus, lobby_name, profile_card_label,
    profile_pin_accepts, profile_pin_description, profiles_content, shutdown_cancel_allowed,
    shutdown_confirm_label, AppsContent, ProfilesContent,
};
use wolf_ui::text::decimal_string;
use wolf_ui::toast::{toast_tone, ToastContext, ToastOptions, ToastVariant, DEFAULT_AUTO_HIDE};
use wolf_ui::ui::{
    action_status_busy, action_status_class, badge_tone, button_label, button_size_class,
    button_variant_class, clamp_progress, progress_fill_class, status_alert_role,
    status_badge_class, ActionStatusKind, BadgeVariant, ButtonSize, ButtonVariant,
    StatusAlertVariant,
};
use wolf_ui::apps::app_card_data;

fn docker_app(id: &str, title: &str, name: &str, image: &str) -> App {
    App {
        id: id.to_string(),
        title: title.to_string(),
        icon_png_path: None,
        render_node: "/dev/dri/renderD128".to_string(),
        runner: Runner::Docker(DockerRunner {
            name: name.to_string(),
            image: image.to_string(),
            mounts: Vec::new(),
            env: Vec::new(),
            devices: Vec::new(),
            ports: Vec::new(),
            base_create_json: None,
        }),
        support_hdr: false,
    }
}

fn lobby(id: &str, profile_id: &str, name: &str, runner: Runner, multi_user: bool) -> Lobby {
    Lobby {
        id: id.to_string(),
        name: name.to_string(),
        icon_png_path: None,
        multi_user,
        pin_required: false,
        runner,
        started_by_profile_id: profile_id.to_string(),
        stop_when_everyone_leaves: false,
        connected_sessions: Vec::new(),
    }
}

fn profile(id: &str, name: &str) -> Profile {
    Profile {
        id: id.to_string(),
        name: name.to_string(),
        icon_png_path: String::new(),
        pin: None,
        apps: Vec::new(),
    }
}

#[test]
fn toasts_get_rising_ids_and_dismiss_removes_one() {
    let mut toasts = ToastContext::new();
    toasts.show("first", None);
    toasts.show("second", Some(ToastOptions::error()));
    toasts.show("third", Some(ToastOptions::error().persistent()));
    let ids: Vec<u64> = toasts.messages().iter().map(|m| m.id).collect();
    assert_eq!(ids, vec![1, 2, 3]);
    assert_eq!(toasts.messages()[0].variant, ToastVariant::Info);
    assert_eq!(toasts.messages()[0].auto_hide, Some(DEFAULT_AUTO_HIDE));
    assert_eq!(toasts.messages()[1].variant, ToastVariant::Error);
    assert_eq!(toasts.messages()[2].auto_hide, None);

    toasts.dismiss(2);
    let left: Vec<&str> = toasts.messages().iter().map(|m| m.message.as_str()).collect();
    assert_eq!(left, vec!["first", "third"]);
    toasts.dismiss(42);
    assert_eq!(toasts.messages().len(), 2);
    toasts.show("fourth", None);
    assert_eq!(toasts.messages()[2].id, 4);
    assert_eq!(ToastOptions::default().auto_hide, Some(5000));
    assert_eq!(toast_tone(ToastVariant::Error), "border-destructive bg-destructive/30 text-destructive-foreground");
}

#[test]
fn registry_hands_out_fresh_ids_and_forgets_unregistered_ones() {
    let mut registry: ActionRegistry<u32> = ActionRegistry::new();
    let a = registry.register(10);
    let b = registry.register(20);
    assert_eq!(a, "action-1");
    assert_eq!(b, "action-2");
    assert_eq!(registry.call("action-1"), Some(10));
    assert_eq!(registry.call("action-2"), Some(20));
    registry.unregister(&a);
    assert_eq!(registry.call("action-1"), None);
    assert_eq!(registry.call("action-2"), Some(20));
    let c = registry.register(30);
    assert_eq!(c, "action-3");
    assert_eq!(registry.call("nothing"), None);

    let hint = ActionHint::new(UiHint::Accept, "Select");
    assert_eq!(hint.label, "Select");
    assert_eq!(hint.handler, None);
}

#[test]
fn decimal_numbers_have_no_leading_zeros() {
    assert_eq!(decimal_string(0), "0");
    assert_eq!(decimal_string(7), "7");
    assert_eq!(decimal_string(10), "10");
    assert_eq!(decimal_string(18446744073709551615), "18446744073709551615");
}

#[test]
fn footer_glyphs_follow_the_input_device() {
    assert_eq!(button_label(InputSource::MouseKeyboard, UiHint::Accept), "Enter");
    assert_eq!(button_label(InputSource::MouseKeyboard, UiHint::Navigate), "Arrows");
    assert_eq!(button_label(InputSource::Gamepad(GamepadFamily::Xbox), UiHint::PageUp), "LB");
    assert_eq!(button_label(InputSource::Gamepad(GamepadFamily::Generic), UiHint::Cancel), "B");
    assert_eq!(button_label(InputSource::Gamepad(GamepadFamily::PlayStation), UiHint::Accept), "Cross");
    assert_eq!(button_label(InputSource::Gamepad(GamepadFamily::PlayStation), UiHint::Menu), "Options");
    assert_eq!(button_label(InputSource::Gamepad(GamepadFamily::Switch), UiHint::Menu), "Plus");
    assert_eq!(button_label(InputSource::Gamepad(GamepadFamily::Switch), UiHint::PageDown), "R");
}

#[test]
fn progress_clamps_width() {
    assert_eq!(clamp_progress(200), 100);
    assert_eq!(clamp_progress(42), 42);
}

#[test]
fn progress_panel_clamps_labelled_value() {
    assert_eq!(clamp_progress(100), 100);
    assert_eq!(clamp_progress(255), 100);
    assert_eq!(progress_fill_class(wolf_ui::ui::ProgressTone::Warning), "bg-yellow-300");
}

#[test]
fn style_classes_follow_variants() {
    assert_eq!(button_variant_class(ButtonVariant::Default), "bg-primary text-primary-foreground hover:bg-primary/90");
    assert_eq!(button_size_class(ButtonSize::IconLg), "h-16 w-16 text-lg");
    assert_eq!(badge_tone(BadgeVariant::Success), "border-emerald-300/30 bg-emerald-300/10 text-emerald-100");
    assert_eq!(status_badge_class(AppStatusTone::Warning), "border-yellow-300/30 bg-yellow-300/10 text-yellow-200");
    assert_eq!(status_alert_role(StatusAlertVariant::Error), "alert");
    assert_eq!(action_status_class(ActionStatusKind::Progress), "border-yellow-300/30 bg-yellow-300/10 text-yellow-100");
    assert!(action_status_busy(ActionStatusKind::Loading));
    assert!(!action_status_busy(ActionStatusKind::Error));
}

#[test]
fn apps_screen_states_and_selection() {
    let unsuccessful = AppListResponse { success: false, apps: vec![] };
    assert!(matches!(
        apps_content("p", unsuccessful, &[], &[], &[], AppFilter::Default, 0),
        AppsContent::Unavailable
    ));
    let empty = AppListResponse { success: true, apps: vec![] };
    assert!(matches!(apps_content("p", empty, &[], &[], &[], AppFilter::Default, 0), AppsContent::Empty));
    let two = AppListResponse {
        success: true,
        apps: vec![docker_app("a", "A", "a", "i/a"), docker_app("b", "B", "b", "i/b")],
    };
    match apps_content("p", two, &[], &[], &[], AppFilter::Default, 9) {
        AppsContent::Cards { cards, selected } => {
            assert_eq!(cards.len(), 2);
            assert_eq!(selected, 1);
        }
        other => panic!("unexpected {other:?}"),
    }
    assert_eq!(clamp_selection(3, 5), 3);
    assert_eq!(clamp_selection(5, 5), 4);
    assert_eq!(clamp_selection(5, 0), 0);
}

#[test]
fn cards_show_runner_badges() {
    let card = app_card_data("p", docker_app("a", "A", "a", "i/a"), &[], &[("i/a".to_string(), false)], &[]);
    let badges = card_badges(&card);
    assert!(!badges.show_runner);
    assert!(badges.not_installed);
    assert!(!badges.playing);
    assert_eq!(card.status.kind, AppStatusKind::MissingImage);
}

#[test]
fn profiles_screen_states_and_lobby_names() {
    assert_eq!(profiles_content(false, 3, 0), ProfilesContent::Unavailable);
    assert_eq!(profiles_content(true, 0, 0), ProfilesContent::Empty);
    assert_eq!(profiles_content(true, 0, 1), ProfilesContent::Grid);
    assert!(lobby_autofocus(0, 0));
    assert!(!lobby_autofocus(1, 0));

    let profiles = vec![profile("p1", "James"), profile("p2", "Ann")];
    let runner = Runner::Cmd(CmdRunner { run_cmd: "x".to_string() });
    assert_eq!(lobby_name(&lobby("l", "p1", "Game", runner.clone(), true), &profiles), "James' lobby");
    assert_eq!(lobby_name(&lobby("l", "p2", "Game", runner.clone(), true), &profiles), "Ann's lobby");
    assert_eq!(lobby_name(&lobby("l", "p3", "Game", runner, true), &profiles), "Game");
}

#[test]
fn profile_pins_and_labels() {
    assert!(profile_pin_accepts(&Some(vec![1, 2]), &[1, 2]));
    assert!(!profile_pin_accepts(&Some(vec![1, 2]), &[2, 1]));
    assert!(!profile_pin_accepts(&None, &[1]));
    assert_eq!(profile_card_label("Ann", true), "Select Ann, PIN protected profile");
    assert_eq!(profile_card_label("Bo", false), "Select Bo, Open profile");
    assert_eq!(profile_pin_description("Ann"), "Enter the PIN for Ann");
    assert_eq!(shutdown_confirm_label(true), "Retry");
    assert_eq!(shutdown_confirm_label(false), "End session");
    assert!(shutdown_cancel_allowed(false));
    assert!(!shutdown_cancel_allowed(true));
}

#[test]
fn images_come_from_urls_or_wolf_icons() {
    assert_eq!(image_source("   "), ImageSource::Nothing);
    assert_eq!(image_source(" https://x/y.png "), ImageSource::Url("https://x/y.png".to_string()));
    assert_eq!(image_source("/icons/a.png"), ImageSource::WolfIcon("/icons/a.png".to_string()));
    assert!(is_absolute_url("http://a"));
    assert!(!is_absolute_url("ftp://a"));
    assert_eq!(icon_data_url(&[0, 1, 2]), "data:image/png;base64,AAEC");
    assert_eq!(icon_data_url(b"hi"), "data:image/png;base64,aGk=");
}

#[test]
fn client_decisions() {
    assert_eq!(request_url("http://wolf.local", "/api/v1/apps"), "http://wolf.local/api/v1/apps");
    assert!(is_success(204));
    assert!(!is_success(301));
    assert_eq!(image_exists_from_status(404), Some(false));
    assert_eq!(image_exists_from_status(200), Some(true));
    assert_eq!(image_exists_from_status(500), None);
    assert!(should_retry(true, None));
    assert!(should_retry(true, Some(503)));
    assert!(!should_retry(true, Some(404)));
    assert!(!should_retry(false, Some(503)));
    assert_eq!(host_for_retry_scope("http://wolf.local:8080/api"), "wolf.local");
    assert_eq!(host_for_retry_scope("not a url"), "");
    assert_eq!(
        response_error(400, "body".to_string(), Some("bad".to_string())),
        ApiError::Wolf { status: 400, message: "bad".to_string() }
    );
    assert_eq!(
        response_error(502, "gateway".to_string(), None),
        ApiError::Status { status: 502, body: "gateway".to_string() }
    );
    assert_eq!(ApiError::from_transfer(true, true, "x".to_string()), ApiError::Timeout);
    assert_eq!(ApiError::from_transfer(false, true, "x".to_string()), ApiError::Decode("x".to_string()));
    assert_eq!(ApiError::from_transfer(false, false, "x".to_string()), ApiError::Transport("x".to_string()));
}

#[test]
fn profile_apps_and_sessions_are_found_by_id() {
    let mut p = profile("p1", "A");
    p.apps = vec![docker_app("a", "A", "a", "i")];
    let response = ProfileListResponse { success: true, profiles: vec![profile("p0", "Z"), p] };
    let apps = apps_of_profile(response, "p1");
    assert!(apps.success);
    assert_eq!(apps.apps.len(), 1);
    let none = apps_of_profile(ProfileListResponse { success: true, profiles: vec![] }, "p1");
    assert!(none.apps.is_empty());

    let session = |id: Option<&str>, w: i64| Session {
        client_id: id.map(|s| s.to_string()),
        audio_channel_count: 2,
        video_width: w,
        video_height: 720,
        video_refresh_rate: 60,
        client_settings: None,
    };
    let sessions = SessionListResponse { sessions: vec![session(None, 1), session(Some("c"), 2), session(Some("c"), 3)] };
    assert_eq!(session_by_client_id(sessions, "c").map(|s| s.video_width), Some(2));
}

fn card(app: App) -> wolf_ui::apps::AppCardData {
    app_card_data("prof", app, &[], &[], &[])
}

#[test]
fn start_flow_reuses_a_running_lobby() {
    let app = docker_app("steam", "Steam", "steam", "img/steam");
    let (mut flow, step) = begin_action(
        AppAction::Start,
        "prof".to_string(),
        card(app.clone()),
        Ok("sess".to_string()),
        "caps".to_string(),
    );
    assert_eq!(step.status.as_ref().unwrap().message, "Starting lobby...");
    assert!(matches!(step.next, FlowNext::Request(FlowRequest::FindSession(ref s)) if s == "sess"));
    assert!(!reply_fits_stage(flow.stage, &FlowReply::Joined));
    let step = step_action(&mut flow, FlowReply::Session(None));
    assert!(matches!(step.next, FlowNext::Request(FlowRequest::ListLobbies)));
    assert_eq!(flow.session.video_width, 1920);
    let running = lobby("l-9", "prof", "Steam", app.runner.clone(), false);
    let step = step_action(&mut flow, FlowReply::Lobbies(vec![running]));
    assert_eq!(step.status.as_ref().unwrap().message, "Joining lobby...");
    match step.next {
        FlowNext::Request(FlowRequest::JoinLobby { lobby_id, session_id }) => {
            assert_eq!(lobby_id, "l-9");
            assert_eq!(session_id, "sess");
        }
        other => panic!("unexpected {other:?}"),
    }
    let step = step_action(&mut flow, FlowReply::Joined);
    assert_eq!(step.status.as_ref().unwrap().message, "Lobby joined.");
    assert!(matches!(step.next, FlowNext::Finished(Ok(true))));
    assert_eq!(flow.stage, FlowStage::Done);
}

#[test]
fn co_op_flow_creates_a_lobby_with_the_sessions_settings() {
    let app = docker_app("steam", "Steam", "steam-box", "img/steam");
    let (mut flow, step) =
        begin_action(AppAction::StartCoop, "prof".to_string(), card(app), Ok("s".to_string()), "caps".to_string());
    assert_eq!(step.status.unwrap().message, "Creating co-op lobby...");
    let found = Session {
        client_id: Some("s".to_string()),
        audio_channel_count: 6,
        video_width: 2560,
        video_height: 1440,
        video_refresh_rate: 120,
        client_settings: Some("{}".to_string()),
    };
    let step = step_action(&mut flow, FlowReply::Session(Some(found)));
    match step.next {
        FlowNext::Request(FlowRequest::CreateLobby(request)) => {
            assert!(request.multi_user);
            assert_eq!(request.profile_id, "prof");
            assert_eq!(request.name, "Steam");
            assert_eq!(request.audio_channel_count, 6);
            assert_eq!(request.video_settings.width, 2560);
            assert_eq!(request.video_settings.refresh_rate, 120);
            assert_eq!(request.video_settings.video_producer_buffer_caps, "caps");
            assert_eq!(request.runner_state_folder, "profile-data/prof/steam-box");
            assert_eq!(request.pin, None);
            assert!(!request.stop_when_everyone_leaves);
            assert_eq!(request.client_settings.as_deref(), Some("{}"));
        }
        other => panic!("unexpected {other:?}"),
    }
    let step = step_action(&mut flow, FlowReply::Created("new".to_string()));
    assert!(matches!(step.next, FlowNext::Request(FlowRequest::JoinLobby { ref lobby_id, .. }) if lobby_id == "new"));
    let step = step_action(&mut flow, FlowReply::Failed("Request timed out".to_string()));
    assert!(matches!(step.next, FlowNext::Finished(Err(ref e)) if e == "Request timed out"));
}

#[test]
fn connect_and_stop_need_a_running_lobby() {
    let app = docker_app("steam", "Steam", "steam", "img/steam");
    let (mut flow, step) =
        begin_action(AppAction::Connect, "prof".to_string(), card(app.clone()), Ok("s".to_string()), String::new());
    assert_eq!(step.status.unwrap().message, "Connecting...");
    let step = step_action(&mut flow, FlowReply::Lobbies(vec![]));
    assert!(matches!(step.next, FlowNext::Finished(Err(ref e)) if e == "No running lobby found for this app."));

    let (_, step) =
        begin_action(AppAction::Connect, "prof".to_string(), card(app.clone()), Err("WOLF_SESSION_ID is not set.".to_string()), String::new());
    assert!(matches!(step.next, FlowNext::Finished(Err(ref e)) if e == "WOLF_SESSION_ID is not set."));

    let (mut flow, step) =
        begin_action(AppAction::Stop, "prof".to_string(), card(app.clone()), Err("unused".to_string()), String::new());
    assert_eq!(step.status.unwrap().message, "Stopping...");
    let running = lobby("l-1", "prof", "Steam", app.runner.clone(), false);
    let step = step_action(&mut flow, FlowReply::Lobbies(vec![running]));
    assert!(matches!(step.next, FlowNext::Request(FlowRequest::StopLobby(ref id)) if id == "l-1"));
    let step = step_action(&mut flow, FlowReply::Stopped);
    assert_eq!(step.status.unwrap().message, "Stopped.");
}

#[test]
fn pull_flow_checks_the_image_afterwards() {
    let app = docker_app("steam", "Steam", "steam", "img/steam");
    let (mut flow, step) =
        begin_action(AppAction::CheckUpdate, "p".to_string(), card(app.clone()), Err(String::new()), String::new());
    let status = step.status.unwrap();
    assert_eq!(status.message, "Checking for image updates...");
    assert_eq!(status.progress, Some(0));
    assert!(matches!(step.next, FlowNext::Request(FlowRequest::PullImage(ref i)) if i == "img/steam"));
    let step = step_action(&mut flow, FlowReply::Pulled(false));
    assert!(matches!(step.next, FlowNext::Request(FlowRequest::CheckImage(ref i)) if i == "img/steam"));
    let step = step_action(&mut flow, FlowReply::ImageExists(true));
    let status = step.status.unwrap();
    assert_eq!(status.message, "Image already up to date.");
    assert_eq!(status.progress, Some(100));
    assert!(matches!(step.next, FlowNext::Finished(Ok(false))));

    let (mut flow, _) =
        begin_action(AppAction::Download, "p".to_string(), card(app), Err(String::new()), String::new());
    step_action(&mut flow, FlowReply::Pulled(true));
    let step = step_action(&mut flow, FlowReply::ImageExists(false));
    assert!(matches!(step.next, FlowNext::Finished(Err(ref e)) if e == "Wolf reported pull success, but the image is still missing."));

    let cmd = App { runner: Runner::Cmd(CmdRunner { run_cmd: "x".to_string() }), ..docker_app("c", "C", "c", "i") };
    let (_, step) = begin_action(AppAction::Download, "p".to_string(), card(cmd), Err(String::new()), String::new());
    assert!(step.status.is_none());
    assert!(matches!(step.next, FlowNext::Finished(Err(ref e)) if e == "This app has no Docker image."));
}
