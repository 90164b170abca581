//! The parts of Wolf's data model that the launcher reads and writes.

use vstd::prelude::*;

use crate::text::owned;

verus! {

/// A runner that starts a Docker container.
#[derive(Clone, Debug, PartialEq, Eq)]
pub struct DockerRunner {
    pub name: String,
    pub image: String,
    pub mounts: Vec<String>,
    pub env: Vec<String>,
    pub devices: Vec<String>,
    pub ports: Vec<String>,
    pub base_create_json: Option<String>,
}

/// A runner that starts a host process.
#[derive(Clone, Debug, PartialEq, Eq)]
pub struct CmdRunner {
    pub run_cmd: String,
}

/// How an app or lobby runs.
#[derive(Clone, Debug, PartialEq, Eq)]
pub enum Runner {
    Docker(DockerRunner),
    Cmd(CmdRunner),
}

/// A Moonlight app of a Wolf profile.
#[derive(Clone, Debug, PartialEq, Eq)]
pub struct App {
    pub id: String,
    pub title: String,
    pub icon_png_path: Option<String>,
    pub render_node: String,
    pub runner: Runner,
    pub support_hdr: bool,
}

/// A running Wolf lobby.
#[derive(Clone, Debug, PartialEq, Eq)]
pub struct Lobby {
    pub id: String,
    pub name: String,
    pub icon_png_path: Option<String>,
    pub multi_user: bool,
    pub pin_required: bool,
    pub runner: Runner,
    pub started_by_profile_id: String,
    pub stop_when_everyone_leaves: bool,
    pub connected_sessions: Vec<String>,
}

/// A Moonlight streaming session, with the stream settings a new lobby copies.
#[derive(Clone, Debug, PartialEq, Eq)]
pub struct Session {
    pub client_id: Option<String>,
    pub audio_channel_count: i64,
    pub video_width: i64,
    pub video_height: i64,
    pub video_refresh_rate: i64,
    /// The client's input settings as Wolf sent them (JSON), passed on to
    /// the lobbies the session creates.
    pub client_settings: Option<String>,
}

/// A Wolf profile and its apps.
#[derive(Clone, Debug, PartialEq, Eq)]
pub struct Profile {
    pub id: String,
    pub name: String,
    pub icon_png_path: String,
    pub pin: Option<Vec<i64>>,
    pub apps: Vec<App>,
}

#[derive(Clone, Debug, PartialEq, Eq)]
pub struct AppListResponse {
    pub success: bool,
    pub apps: Vec<App>,
}

#[derive(Clone, Debug, PartialEq, Eq)]
pub struct ProfileListResponse {
    pub success: bool,
    pub profiles: Vec<Profile>,
}

#[derive(Clone, Debug, PartialEq, Eq)]
pub struct SessionListResponse {
    pub sessions: Vec<Session>,
}

#[derive(Clone, Debug, PartialEq, Eq)]
pub struct LobbyListResponse {
    pub lobbies: Vec<Lobby>,
}

/// The video settings of a lobby to create.
#[derive(Clone, Debug, PartialEq, Eq)]
pub struct VideoSettings {
    pub width: i64,
    pub height: i64,
    pub refresh_rate: i64,
    pub runner_render_node: String,
    pub wayland_render_node: String,
    pub video_producer_buffer_caps: String,
}

/// A request to create a lobby.
#[derive(Clone, Debug, PartialEq, Eq)]
pub struct CreateLobbyRequest {
    pub profile_id: String,
    pub name: String,
    pub multi_user: bool,
    pub stop_when_everyone_leaves: bool,
    pub pin: Option<Vec<i64>>,
    pub icon_png_path: Option<String>,
    pub runner_state_folder: String,
    pub runner: Runner,
    pub audio_channel_count: i64,
    pub video_settings: VideoSettings,
    /// The creating client's input settings (JSON), when its session has them.
    pub client_settings: Option<String>,
}

/// A copy of a list of strings.
pub fn copy_strings(v: &Vec<String>) -> (r: Vec<String>)
    ensures
        r@ == v@,
{
    let mut r: Vec<String> = Vec::new();
    let mut i: usize = 0;
    while i < v.len()
        invariant
            i <= v@.len(),
            r@ == v@.subrange(0, i as int),
        decreases v@.len() - i,
    {
        r.push(v[i].clone());
        i = i + 1;
        assert(r@ =~= v@.subrange(0, i as int));
    }
    assert(v@.subrange(0, v@.len() as int) =~= v@);
    r
}

/// A copy of an optional string.
pub fn copy_opt_string(v: &Option<String>) -> (r: Option<String>)
    ensures
        r == *v,
{
    match v {
        Some(s) => Some(s.clone()),
        None => None,
    }
}

/// A copy of a list of numbers.
pub fn copy_ints(v: &Vec<i64>) -> (r: Vec<i64>)
    ensures
        r@ == v@,
{
    let mut r: Vec<i64> = Vec::new();
    let mut i: usize = 0;
    while i < v.len()
        invariant
            i <= v@.len(),
            r@ == v@.subrange(0, i as int),
        decreases v@.len() - i,
    {
        r.push(v[i]);
        i = i + 1;
        assert(r@ =~= v@.subrange(0, i as int));
    }
    assert(v@.subrange(0, v@.len() as int) =~= v@);
    r
}

impl DockerRunner {
    pub fn copy(&self) -> (r: Self)
        ensures
            r.name == self.name,
            r.image == self.image,
            r.mounts@ == self.mounts@,
            r.env@ == self.env@,
            r.devices@ == self.devices@,
            r.ports@ == self.ports@,
            r.base_create_json == self.base_create_json,
    {
        DockerRunner {
            name: self.name.clone(),
            image: self.image.clone(),
            mounts: copy_strings(&self.mounts),
            env: copy_strings(&self.env),
            devices: copy_strings(&self.devices),
            ports: copy_strings(&self.ports),
            base_create_json: copy_opt_string(&self.base_create_json),
        }
    }
}

/// Two runners that agree in every field.
pub open spec fn same_runner(a: Runner, b: Runner) -> bool {
    match (a, b) {
        (Runner::Docker(x), Runner::Docker(y)) => {
            &&& x.name == y.name
            &&& x.image == y.image
            &&& x.mounts@ == y.mounts@
            &&& x.env@ == y.env@
            &&& x.devices@ == y.devices@
            &&& x.ports@ == y.ports@
            &&& x.base_create_json == y.base_create_json
        },
        (Runner::Cmd(x), Runner::Cmd(y)) => x.run_cmd == y.run_cmd,
        _ => false,
    }
}

impl Runner {
    pub fn copy(&self) -> (r: Self)
        ensures
            same_runner(r, *self),
    {
        match self {
            Runner::Docker(d) => Runner::Docker(d.copy()),
            Runner::Cmd(c) => Runner::Cmd(CmdRunner { run_cmd: c.run_cmd.clone() }),
        }
    }
}

/// Two apps that agree in every field.
pub open spec fn same_app(a: App, b: App) -> bool {
    &&& a.id == b.id
    &&& a.title == b.title
    &&& a.icon_png_path == b.icon_png_path
    &&& a.render_node == b.render_node
    &&& same_runner(a.runner, b.runner)
    &&& a.support_hdr == b.support_hdr
}

impl App {
    pub fn copy(&self) -> (r: Self)
        ensures
            same_app(r, *self),
    {
        App {
            id: self.id.clone(),
            title: self.title.clone(),
            icon_png_path: copy_opt_string(&self.icon_png_path),
            render_node: self.render_node.clone(),
            runner: self.runner.copy(),
            support_hdr: self.support_hdr,
        }
    }
}

/// The Docker image an app runs, if it runs one.
pub open spec fn app_image(app: App) -> Option<String> {
    match app.runner {
        Runner::Docker(d) => Some(d.image),
        Runner::Cmd(_) => None,
    }
}

/// `docker_image`: the Docker image an app runs, or `None` for a process app.
pub fn docker_image(app: &App) -> (r: Option<String>)
    ensures
        r == app_image(*app),
{
    match &app.runner {
        Runner::Docker(d) => Some(d.image.clone()),
        Runner::Cmd(_) => None,
    }
}

/// A label for the kind of runner.
pub fn runner_label(runner: &Runner) -> (r: &'static str)
    ensures
        runner is Docker ==> r@ == "Docker"@,
        runner is Cmd ==> r@ == "Process"@,
{
    match runner {
        Runner::Docker(_) => "Docker",
        Runner::Cmd(_) => "Process",
    }
}

} // verus!
