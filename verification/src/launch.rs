//! Starting, joining, stopping and updating an app: the lobby to create or
//! reuse, and the messages shown while an action runs.

use vstd::prelude::*;

use crate::apps::{AppCardData, app_lobby, is_app_lobby};
use crate::model::{
    App, CreateLobbyRequest, Lobby, Runner, Session, VideoSettings, copy_opt_string, same_runner,
};
use crate::text::{concat, owned};

verus! {

/// The runner of a new lobby: the app's own runner.
pub fn create_lobby_runner(runner: &Runner) -> (r: Runner)
    ensures
        same_runner(r, *runner),
{
    runner.copy()
}

/// The folder a lobby keeps its state in: per profile, and per container
/// name for Docker apps or per app id for process apps.
pub open spec fn state_folder_of(profile_id: Seq<char>, app: App) -> Seq<char> {
    let runner_name = match app.runner {
        Runner::Docker(d) => d.name@,
        Runner::Cmd(_) => app.id@,
    };
    "profile-data/"@ + profile_id + "/"@ + runner_name
}

/// The request that creates a lobby for an app: named after the app, owned
/// by the profile, without a PIN, not stopped when everyone leaves, running
/// the app's runner on the app's render node, and with the session's audio
/// and video settings and client settings.
pub open spec fn lobby_request_for(
    r: CreateLobbyRequest,
    profile_id: Seq<char>,
    app: AppCardData,
    session: Session,
    multi_user: bool,
    video_producer_buffer_caps: Seq<char>,
) -> bool {
    &&& r.profile_id@ == profile_id
    &&& r.name == app.title
    &&& r.multi_user == multi_user
    &&& !r.stop_when_everyone_leaves
    &&& r.pin is None
    &&& r.icon_png_path == app.source.icon_png_path
    &&& r.runner_state_folder@ == state_folder_of(profile_id, app.source)
    &&& same_runner(r.runner, app.source.runner)
    &&& r.audio_channel_count == session.audio_channel_count
    &&& r.video_settings.width == session.video_width
    &&& r.video_settings.height == session.video_height
    &&& r.video_settings.refresh_rate == session.video_refresh_rate
    &&& r.video_settings.runner_render_node == app.source.render_node
    &&& r.video_settings.wayland_render_node == app.source.render_node
    &&& r.video_settings.video_producer_buffer_caps@ == video_producer_buffer_caps
    &&& r.client_settings == session.client_settings
}

pub fn build_lobby(
    profile_id: String,
    app: &AppCardData,
    session: &Session,
    multi_user: bool,
    video_producer_buffer_caps: String,
) -> (r: CreateLobbyRequest)
    ensures
        lobby_request_for(r, profile_id@, *app, *session, multi_user, video_producer_buffer_caps@),
{
    let runner_name = match &app.source.runner {
        Runner::Docker(d) => d.name.as_str(),
        Runner::Cmd(_) => app.source.id.as_str(),
    };
    let mut folder = concat("profile-data/", profile_id.as_str());
    folder.append("/");
    folder.append(runner_name);
    CreateLobbyRequest {
        audio_channel_count: session.audio_channel_count,
        icon_png_path: copy_opt_string(&app.source.icon_png_path),
        multi_user,
        name: app.title.clone(),
        pin: None,
        runner: create_lobby_runner(&app.source.runner),
        runner_state_folder: folder,
        stop_when_everyone_leaves: false,
        video_settings: VideoSettings {
            height: session.video_height,
            refresh_rate: session.video_refresh_rate,
            runner_render_node: app.source.render_node.clone(),
            video_producer_buffer_caps,
            wayland_render_node: app.source.render_node.clone(),
            width: session.video_width,
        },
        profile_id,
        client_settings: copy_opt_string(&session.client_settings),
    }
}

/// The first lobby that runs the app for the profile in the given mode.
pub open spec fn first_app_lobby(
    lobbies: Seq<Lobby>,
    profile_id: Seq<char>,
    app: App,
    multi_user: bool,
) -> Option<int> {
    if exists|i: int| 0 <= i < lobbies.len() && app_lobby(profile_id, app, lobbies[i], multi_user) {
        Some(
            choose|i: int|
                0 <= i < lobbies.len() && app_lobby(profile_id, app, lobbies[i], multi_user)
                    && forall|k: int|
                    0 <= k < i ==> !app_lobby(profile_id, app, lobbies[k], multi_user),
        )
    } else {
        None
    }
}

/// The lobby already running the app for the profile, if any.
pub fn running_lobby(lobbies: Vec<Lobby>, profile_id: &str, app: &App, multi_user: bool) -> (r:
    Option<Lobby>)
    ensures
        match first_app_lobby(lobbies@, profile_id@, *app, multi_user) {
            Some(i) => r == Some(lobbies@[i]),
            None => r is None,
        },
{
    let ghost all = lobbies@;
    let mut list = lobbies;
    let n: usize = list.len();
    let mut i: usize = 0;
    while i < n
        invariant
            i <= n,
            n == all.len(),
            list@ == all,
            all == lobbies@,
            forall|k: int| 0 <= k < i ==> !app_lobby(profile_id@, *app, all[k], multi_user),
        decreases n - i,
    {
        if is_app_lobby(profile_id, app, &list[i], multi_user) {
            proof {
                assert(app_lobby(profile_id@, *app, all[i as int], multi_user));
                let w = choose|j: int|
                    0 <= j < all.len() && app_lobby(profile_id@, *app, all[j], multi_user)
                        && forall|k: int| 0 <= k < j ==> !app_lobby(profile_id@, *app, all[k], multi_user);
                if w < i {
                    assert(false);
                }
                if w > i {
                    assert(!app_lobby(profile_id@, *app, all[i as int], multi_user));
                }
                assert(first_app_lobby(all, profile_id@, *app, multi_user) == Some(i as int));
            }
            let found = list.swap_remove(i);
            assert(found == all[i as int]);
            return Some(found);
        }
        i = i + 1;
    }
    None
}

/// The lobby a start joins instead of creating one: a co-op start always
/// creates a new lobby; a single-player start reuses the profile's running
/// single-player lobby of the app.
pub fn reusable_lobby_id(lobbies: Vec<Lobby>, profile_id: &str, app: &App, multi_user: bool) -> (r:
    Option<String>)
    ensures
        multi_user ==> r is None,
        !multi_user ==> match first_app_lobby(lobbies@, profile_id@, *app, false) {
            Some(i) => r == Some(lobbies@[i].id),
            None => r is None,
        },
{
    if multi_user {
        return None;
    }
    match running_lobby(lobbies, profile_id, app, false) {
        Some(lobby) => Some(lobby.id),
        None => None,
    }
}

/// The message while a start is underway.
pub fn start_message(multi_user: bool) -> (r: &'static str)
    ensures
        multi_user ==> r@ == "Creating co-op lobby..."@,
        !multi_user ==> r@ == "Starting lobby..."@,
{
    if multi_user {
        "Creating co-op lobby..."
    } else {
        "Starting lobby..."
    }
}

/// The message while an image is pulled.
pub fn pull_message(check_update: bool, finalizing: bool) -> (r: &'static str)
    ensures
        finalizing ==> r@ == "Finalizing image..."@,
        !finalizing && check_update ==> r@ == "Checking for image updates..."@,
        !finalizing && !check_update ==> r@ == "Downloading image..."@,
{
    if finalizing {
        "Finalizing image..."
    } else if check_update {
        "Checking for image updates..."
    } else {
        "Downloading image..."
    }
}

/// The message after a pull succeeded.
pub fn pull_done_message(downloaded: bool) -> (r: &'static str)
    ensures
        downloaded ==> r@ == "Image updated."@,
        !downloaded ==> r@ == "Image already up to date."@,
{
    if downloaded {
        "Image updated."
    } else {
        "Image already up to date."
    }
}

} // verus!
