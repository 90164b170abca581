use wolf_ui::apps::{
    app_actions, app_card_data, cover_path, cover_requests, filter_label, image_available,
    is_app_lobby, runner_matches, selected_app_data, sorted_apps, unique_images, AppAction,
    AppFilter, AppStatusKind, AppStatusTone,
};
use wolf_ui::lobbies::{apply_lobby_event, apply_wolf_event, multi_user_lobbies};
use wolf_ui::events::{JoinLobbyEvent, LeaveLobbyEvent, WolfEvent};
use wolf_ui::model::{App, CmdRunner, DockerRunner, Lobby, Runner};

fn docker_runner(name: &str, image: &str) -> Runner {
    Runner::Docker(DockerRunner {
        name: name.to_string(),
        image: image.to_string(),
        mounts: Vec::new(),
        env: Vec::new(),
        devices: Vec::new(),
        ports: Vec::new(),
        base_create_json: None,
    })
}

fn docker_app(id: &str, title: &str, name: &str, image: &str) -> App {
    App {
        id: id.to_string(),
        title: title.to_string(),
        icon_png_path: None,
        render_node: String::new(),
        runner: docker_runner(name, image),
        support_hdr: false,
    }
}

fn cmd_app(id: &str, title: &str, run_cmd: &str) -> App {
    App {
        id: id.to_string(),
        title: title.to_string(),
        icon_png_path: None,
        render_node: String::new(),
        runner: Runner::Cmd(CmdRunner { run_cmd: run_cmd.to_string() }),
        support_hdr: false,
    }
}

fn lobby(id: &str, profile_id: &str, name: &str, runner: Runner, multi_user: bool) -> Lobby {
    Lobby {
        id: id.to_string(),
        name: name.to_string(),
        icon_png_path: None,
        multi_user,
        pin_required: false,
        runner,
        started_by_profile_id: profile_id.to_string(),
        stop_when_everyone_leaves: false,
        connected_sessions: Vec::new(),
    }
}

#[test]
fn sorted_apps_marks_running_and_missing_image_states() {
    let apps = vec![
        docker_app("steam", "Steam", "steam", "ghcr.io/wolf/steam"),
        cmd_app("retroarch", "RetroArch", "retroarch"),
    ];
    let lobbies = vec![lobby("lobby-1", "profile-1", "Steam", docker_runner("steam", ""), false)];
    let images = vec![("ghcr.io/wolf/steam".to_string(), false)];
    let apps = sorted_apps("profile-1", apps, &lobbies, &images, &[], AppFilter::Default);

    assert!(matches!(apps[0].status.kind, AppStatusKind::Playing));
    assert!(matches!(apps[1].status.kind, AppStatusKind::Ready));
}

#[test]
fn unavailable_apps_only_offer_download_action() {
    let apps = vec![docker_app("steam", "Steam", "steam", "ghcr.io/wolf/steam")];
    let images = vec![("ghcr.io/wolf/steam".to_string(), false)];
    let app = selected_app_data("profile-1", &apps, &[], &images, &[], AppFilter::Default, 0)
        .expect("app is present");

    assert!(matches!(app.status.kind, AppStatusKind::MissingImage));
    assert_eq!(app_actions(&app), vec![AppAction::Download]);
}

#[test]
fn lobbies_match_by_profile_mode_and_runner_identity() {
    let app = docker_app("steam", "Steam Big Picture", "steam", "ghcr.io/wolf/steam");
    let lobby = lobby("lobby-1", "profile-1", "Different title", docker_runner("steam", ""), false);

    assert!(is_app_lobby("profile-1", &app, &lobby, false));
    assert!(!is_app_lobby("other-profile", &app, &lobby, false));
    assert!(!is_app_lobby("profile-1", &app, &lobby, true));
}

#[test]
fn runners_match_by_container_name_or_command() {
    assert!(runner_matches(&docker_runner("a", "x"), &docker_runner("a", "y")));
    assert!(!runner_matches(&docker_runner("a", "x"), &docker_runner("b", "x")));
    let cmd = Runner::Cmd(CmdRunner { run_cmd: "game".to_string() });
    assert!(runner_matches(&cmd, &Runner::Cmd(CmdRunner { run_cmd: "game".to_string() })));
    assert!(!runner_matches(&cmd, &docker_runner("game", "game")));
}

#[test]
fn available_filter_puts_ready_apps_first_in_order() {
    let apps = vec![
        docker_app("a", "Alpha", "a", "img/a"),
        docker_app("b", "Bravo", "b", "img/b"),
        docker_app("c", "Charlie", "c", "img/c"),
    ];
    let images = vec![("img/a".to_string(), false), ("img/c".to_string(), true)];
    let cards = sorted_apps("p", apps, &[], &images, &[], AppFilter::Available);
    let ids: Vec<&str> = cards.iter().map(|c| c.id.as_str()).collect();
    assert_eq!(ids, vec!["b", "c", "a"]);
    assert_eq!(cards[2].status.tone, AppStatusTone::Warning);
}

#[test]
fn alphabetical_filter_sorts_by_lowercased_title_stably() {
    let apps = vec![
        cmd_app("1", "zelda", "z"),
        cmd_app("2", "Alpha", "a"),
        cmd_app("3", "beta", "b"),
        cmd_app("4", "ALPHA", "a2"),
    ];
    let cards = sorted_apps("p", apps, &[], &[], &[], AppFilter::Alphabetical);
    let ids: Vec<&str> = cards.iter().map(|c| c.id.as_str()).collect();
    assert_eq!(ids, vec!["2", "4", "3", "1"]);
}

#[test]
fn card_data_carries_labels_cover_and_actions() {
    let mut app = docker_app("steam", "Steam", "steam", "img/steam");
    app.support_hdr = true;
    app.icon_png_path = Some("/icons/steam.png".to_string());
    let covers = vec![("steam".to_string(), "data:image/png;base64,AA==".to_string())];
    let card = app_card_data("p", app, &[], &[], &covers);
    assert_eq!(card.runner, "Docker");
    assert_eq!(card.status.label, "Ready");
    assert!(card.supports_hdr);
    assert_eq!(card.cover_src.as_deref(), Some("data:image/png;base64,AA=="));
    assert_eq!(
        app_actions(&card),
        vec![AppAction::Start, AppAction::StartCoop, AppAction::CheckUpdate]
    );
}

#[test]
fn playing_apps_offer_connect_stop_and_update() {
    let app = cmd_app("game", "Game", "run");
    let lobbies = vec![lobby("l", "p", "x", Runner::Cmd(CmdRunner { run_cmd: "run".to_string() }), false)];
    let card = app_card_data("p", app, &lobbies, &[], &[]);
    assert_eq!(card.status.kind, AppStatusKind::Playing);
    assert_eq!(card.runner, "Process");
    assert_eq!(
        app_actions(&card),
        vec![AppAction::Connect, AppAction::Stop, AppAction::CheckUpdate]
    );
}

#[test]
fn image_lookup_uses_the_last_entry_for_a_key() {
    let images = vec![("img".to_string(), false), ("img".to_string(), true)];
    assert_eq!(image_available(&images, "img"), Some(true));
    assert_eq!(image_available(&images, "other"), None);
}

#[test]
fn unique_images_lists_each_docker_image_once() {
    let apps = vec![
        docker_app("a", "A", "a", "img/x"),
        cmd_app("b", "B", "b"),
        docker_app("c", "C", "c", "img/y"),
        docker_app("d", "D", "d", "img/x"),
    ];
    assert_eq!(unique_images(&apps), vec!["img/x".to_string(), "img/y".to_string()]);
}

#[test]
fn cover_paths_skip_blank_icons() {
    let mut with_icon = cmd_app("a", "A", "a");
    with_icon.icon_png_path = Some("/i/a.png".to_string());
    let mut blank = cmd_app("b", "B", "b");
    blank.icon_png_path = Some("   ".to_string());
    assert_eq!(cover_path(&with_icon), Some("/i/a.png".to_string()));
    assert_eq!(cover_path(&blank), None);
    assert_eq!(
        cover_requests(&[with_icon, blank]),
        vec![("a".to_string(), "/i/a.png".to_string())]
    );
}

#[test]
fn filter_labels_name_each_order() {
    assert_eq!(filter_label(AppFilter::Default), "Default");
    assert_eq!(filter_label(AppFilter::Available), "Available");
    assert_eq!(filter_label(AppFilter::Alphabetical), "A-Z");
}

#[test]
fn apps_screen_follows_its_profiles_lobbies() {
    let runner = docker_runner("steam", "img");
    let mut lobbies = vec![lobby("old", "p", "x", runner.clone(), false)];
    apply_wolf_event(
        "p",
        WolfEvent::LobbyCreated(Box::new(lobby("old", "p", "new name", runner.clone(), false))),
        &mut lobbies,
    );
    assert_eq!(lobbies.len(), 1);
    assert_eq!(lobbies[0].name, "new name");
    apply_wolf_event(
        "p",
        WolfEvent::LobbyCreated(Box::new(lobby("other", "someone", "x", runner.clone(), false))),
        &mut lobbies,
    );
    assert_eq!(lobbies.len(), 1);
    apply_wolf_event("p", WolfEvent::LobbyStopped("old".to_string()), &mut lobbies);
    assert!(lobbies.is_empty());
}

#[test]
fn profiles_screen_tracks_sessions_of_co_op_lobbies() {
    let runner = docker_runner("steam", "img");
    let mut lobbies = multi_user_lobbies(vec![
        lobby("solo", "p", "x", runner.clone(), false),
        lobby("coop", "p", "y", runner.clone(), true),
    ]);
    assert_eq!(lobbies.len(), 1);
    let join = JoinLobbyEvent { lobby_id: "coop".to_string(), moonlight_session_id: "s1".to_string() };
    apply_lobby_event(WolfEvent::LobbyJoined(join.clone()), &mut lobbies);
    apply_lobby_event(WolfEvent::LobbyJoined(join), &mut lobbies);
    assert_eq!(lobbies[0].connected_sessions, vec!["s1".to_string()]);
    apply_lobby_event(
        WolfEvent::LobbyLeft(LeaveLobbyEvent {
            lobby_id: "coop".to_string(),
            moonlight_session_id: "s1".to_string(),
        }),
        &mut lobbies,
    );
    assert!(lobbies[0].connected_sessions.is_empty());
    apply_lobby_event(
        WolfEvent::LobbyCreated(Box::new(lobby("solo2", "p", "z", runner.clone(), false))),
        &mut lobbies,
    );
    assert_eq!(lobbies.len(), 1);
    apply_lobby_event(WolfEvent::LobbyStopped("coop".to_string()), &mut lobbies);
    assert!(lobbies.is_empty());
}
