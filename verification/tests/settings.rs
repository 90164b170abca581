use wolf_ui::model::{App, AppListResponse, CmdRunner, DockerRunner, Runner};
use wolf_ui::session::{fallback_session, session_id_from_env, WOLF_SESSION_ID_ENV};
use wolf_ui::settings::{
    app_summary, detection_error, env_flag, image_repository, image_version, is_wolf_ui_app,
    update_outcome, wolf_ui_image, WolfUiImageState,
};

fn docker_app(id: &str, title: &str, name: &str, image: &str) -> App {
    App {
        id: id.to_string(),
        title: title.to_string(),
        icon_png_path: None,
        render_node: String::new(),
        runner: Runner::Docker(DockerRunner {
            name: name.to_string(),
            image: image.to_string(),
            mounts: Vec::new(),
            env: Vec::new(),
            devices: Vec::new(),
            ports: Vec::new(),
            base_create_json: None,
        }),
        support_hdr: false,
    }
}

fn cmd_app(id: &str, title: &str) -> App {
    App {
        id: id.to_string(),
        title: title.to_string(),
        icon_png_path: None,
        render_node: String::new(),
        runner: Runner::Cmd(CmdRunner { run_cmd: String::new() }),
        support_hdr: false,
    }
}

#[test]
fn env_flag_uses_default_when_unset() {
    assert!(!env_flag(None, false));
    assert!(env_flag(None, true));
}

#[test]
fn env_flag_parses_truthy_values() {
    for value in ["1", "true", "TRUE", "Yes", "on"] {
        assert!(env_flag(Some(value), false), "{value} should be true");
    }
}

#[test]
fn env_flag_parses_other_values_as_false() {
    for value in ["0", "false", "off", ""] {
        assert!(!env_flag(Some(value), true), "{value} should be false");
    }
}

#[test]
fn detects_wolf_ui_from_title_runner_name_or_image() {
    assert!(is_wolf_ui_app(&docker_app(
        "launcher",
        "Wolf UI",
        "custom-name",
        "registry.local/custom:main"
    )));
    assert!(is_wolf_ui_app(&docker_app(
        "launcher",
        "Launcher",
        "Wolf-UI",
        "registry.local/custom:main"
    )));
    assert!(is_wolf_ui_app(&docker_app(
        "launcher",
        "Launcher",
        "custom-name",
        "ghcr.io/games-on-whales/wolf-ui:main"
    )));
    assert!(!is_wolf_ui_app(&docker_app(
        "steam",
        "Steam",
        "WolfSteam",
        "ghcr.io/games-on-whales/steam:edge"
    )));
    assert!(!is_wolf_ui_app(&cmd_app("wolf-ui-helper", "Wolf UI Helper")));
}

#[test]
fn extracts_tag_without_treating_registry_port_as_version() {
    assert_eq!(image_version("ghcr.io/games-on-whales/wolf-ui:main"), "main");
    assert_eq!(image_version("localhost:5000/wolf-ui"), "latest");
    assert_eq!(image_version("localhost:5000/wolf-ui:dev"), "dev");
}

#[test]
fn extracts_repository_without_treating_registry_port_as_tag() {
    assert_eq!(
        image_repository("ghcr.io/games-on-whales/wolf-ui:main"),
        "ghcr.io/games-on-whales/wolf-ui"
    );
    assert_eq!(image_repository("localhost:5000/wolf-ui"), "localhost:5000/wolf-ui");
    assert_eq!(image_repository("localhost:5000/wolf-ui:dev"), "localhost:5000/wolf-ui");
}

#[test]
fn image_without_tag_or_slash_is_latest() {
    assert_eq!(image_version("wolf-ui"), "latest");
    assert_eq!(image_repository("wolf-ui"), "wolf-ui");
    assert_eq!(image_version("wolf-ui:1.2"), "1.2");
    assert_eq!(image_repository("wolf-ui:1.2"), "wolf-ui");
}

#[test]
fn launcher_image_state_splits_its_image() {
    let state = WolfUiImageState::new("ghcr.io/x/wolf-ui:edge".to_string(), true);
    assert_eq!(state.source, "ghcr.io/x/wolf-ui:edge");
    assert_eq!(state.repository, "ghcr.io/x/wolf-ui");
    assert_eq!(state.version, "edge");
    assert!(state.installed);
}

#[test]
fn launcher_image_is_found_or_explained() {
    let unsuccessful = AppListResponse { success: false, apps: vec![] };
    assert_eq!(
        wolf_ui_image(&unsuccessful),
        Err("Wolf returned an unsuccessful apps response. Try again once the service is ready."
            .to_string())
    );
    let found = AppListResponse {
        success: true,
        apps: vec![
            docker_app("steam", "Steam", "steam", "img/steam"),
            docker_app("ui", "Launcher", "x", "ghcr.io/x/wolf-ui:main"),
        ],
    };
    assert_eq!(wolf_ui_image(&found), Ok("ghcr.io/x/wolf-ui:main".to_string()));
    let missing = AppListResponse {
        success: true,
        apps: vec![docker_app("steam", "Steam", "steam", "img/steam"), cmd_app("c", "Tool")],
    };
    assert_eq!(
        wolf_ui_image(&missing),
        Err("Update settings could not find the Wolf UI Docker app. Moonlight apps returned: Steam (img/steam), Tool (process).".to_string())
    );
}

#[test]
fn detection_error_reports_an_empty_app_list() {
    assert_eq!(
        detection_error(&[]),
        "Update settings could not find the Wolf UI Docker app because Wolf returned no Moonlight apps."
    );
    assert_eq!(app_summary(&cmd_app("c", "Tool")), "Tool (process)");
}

#[test]
fn update_outcome_requires_the_image_afterwards() {
    assert_eq!(update_outcome(true, true), Ok(true));
    assert_eq!(update_outcome(false, true), Ok(false));
    assert_eq!(
        update_outcome(true, false),
        Err("Wolf reported pull success, but the configured image is still missing.".to_string())
    );
}

#[test]
fn session_id_from_env_reads_wolf_session_id() {
    let session_id = session_id_from_env(|key: &str| {
        assert_eq!(key, WOLF_SESSION_ID_ENV);
        Some("moonlight-session-7".to_string())
    })
    .expect("session id is present");

    assert_eq!(session_id, "moonlight-session-7");
}

#[test]
fn session_id_from_env_rejects_empty_values() {
    let error = session_id_from_env(|_: &str| Some("   ".to_string()))
        .expect_err("blank session id is rejected");

    assert_eq!(error, "WOLF_SESSION_ID is not set.");
}

#[test]
fn session_id_from_env_rejects_missing_values() {
    let error = session_id_from_env(|_: &str| None).expect_err("missing session id is rejected");

    assert_eq!(error, "WOLF_SESSION_ID is not set.");
}

#[test]
fn fallback_session_is_stereo_full_hd_at_sixty_hertz() {
    let session = fallback_session();
    assert_eq!(session.client_id, None);
    assert_eq!(session.audio_channel_count, 2);
    assert_eq!((session.video_width, session.video_height), (1920, 1080));
    assert_eq!(session.video_refresh_rate, 60);
}
