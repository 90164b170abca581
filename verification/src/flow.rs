//! Running an app action against Wolf, one request at a time. The flow says
//! which request to make next and what status to show; the caller makes the
//! request and hands back Wolf's reply.

use vstd::prelude::*;

use crate::apps::{AppAction, AppCardData};
use crate::launch::{build_lobby, first_app_lobby, lobby_request_for, running_lobby};
use crate::model::{CreateLobbyRequest, Lobby, Session, app_image, docker_image};
use crate::session::{default_session, fallback_session};
use crate::text::owned;
use crate::ui::ActionStatusKind;

verus! {

/// Where the flow stands: which reply it waits for.
#[derive(Clone, Copy, Debug, PartialEq, Eq, Structural)]
pub enum FlowStage {
    AwaitSession,
    AwaitLobbies,
    AwaitCreated,
    AwaitJoined,
    AwaitStopped,
    AwaitPull,
    /// The pull is done; `downloaded` is whether a new image came.
    AwaitImageCheck(bool),
    Done,
}

/// An app action under way.
#[derive(Debug)]
pub struct ActionFlow {
    pub action: AppAction,
    pub profile_id: String,
    pub app: AppCardData,
    /// The Moonlight session to join lobbies with.
    pub session_id: String,
    /// The stream settings a new lobby copies.
    pub session: Session,
    /// The video buffer caps a new lobby is given.
    pub buffer_caps: String,
    /// The Docker image pulled by updates and downloads.
    pub image: String,
    pub stage: FlowStage,
}

/// A request to Wolf.
#[derive(Clone, Debug, PartialEq, Eq)]
pub enum FlowRequest {
    /// Look the session up by its client id.
    FindSession(String),
    ListLobbies,
    CreateLobby(CreateLobbyRequest),
    JoinLobby { lobby_id: String, session_id: String },
    StopLobby(String),
    PullImage(String),
    CheckImage(String),
}

/// Wolf's reply to the last request.
#[derive(Debug)]
pub enum FlowReply {
    /// The session, or `None` when Wolf does not know it.
    Session(Option<Session>),
    Lobbies(Vec<Lobby>),
    /// The id of the created lobby.
    Created(String),
    Joined,
    Stopped,
    /// Whether a new image was downloaded.
    Pulled(bool),
    ImageExists(bool),
    /// The request failed with this text.
    Failed(String),
}

/// The status to show for the app.
#[derive(Clone, Debug, PartialEq, Eq)]
pub struct FlowStatus {
    pub kind: ActionStatusKind,
    pub message: String,
    /// Percent done, for pulls.
    pub progress: Option<u8>,
}

#[derive(Debug)]
pub enum FlowNext {
    Request(FlowRequest),
    /// The action ended: whether an image was downloaded (or `true`), or the error.
    Finished(Result<bool, String>),
}

#[derive(Debug)]
pub struct FlowStep {
    pub status: Option<FlowStatus>,
    pub next: FlowNext,
}

pub open spec fn status_is(
    s: Option<FlowStatus>,
    kind: ActionStatusKind,
    message: Seq<char>,
    progress: Option<u8>,
) -> bool {
    s matches Some(st) && st.kind == kind && st.message@ == message && st.progress == progress
}

pub open spec fn fails_with(next: FlowNext, message: Seq<char>) -> bool {
    next matches FlowNext::Finished(Err(e)) && e@ == message
}

pub open spec fn requests_join(next: FlowNext, lobby_id: Seq<char>, session_id: Seq<char>) -> bool {
    next matches FlowNext::Request(FlowRequest::JoinLobby { lobby_id: l, session_id: s })
        && l@ == lobby_id && s@ == session_id
}

pub open spec fn requests_lobby(next: FlowNext, f: ActionFlow, multi_user: bool) -> bool {
    next matches FlowNext::Request(FlowRequest::CreateLobby(r)) && lobby_request_for(
        r,
        f.profile_id@,
        f.app,
        f.session,
        multi_user,
        f.buffer_caps@,
    )
}

pub open spec fn is_start(action: AppAction) -> bool {
    action == AppAction::Start || action == AppAction::StartCoop
}

pub open spec fn is_pull(action: AppAction) -> bool {
    action == AppAction::CheckUpdate || action == AppAction::Download
}

/// The reply answers what the flow waits for; a failure answers anything.
pub open spec fn reply_fits(stage: FlowStage, reply: FlowReply) -> bool {
    match reply {
        FlowReply::Failed(_) => !(stage is Done),
        FlowReply::Session(_) => stage is AwaitSession,
        FlowReply::Lobbies(_) => stage is AwaitLobbies,
        FlowReply::Created(_) => stage is AwaitCreated,
        FlowReply::Joined => stage is AwaitJoined,
        FlowReply::Stopped => stage is AwaitStopped,
        FlowReply::Pulled(_) => stage is AwaitPull,
        FlowReply::ImageExists(_) => stage is AwaitImageCheck,
    }
}

pub fn reply_fits_stage(stage: FlowStage, reply: &FlowReply) -> (r: bool)
    ensures
        r == reply_fits(stage, *reply),
{
    match reply {
        FlowReply::Failed(_) => !matches!(stage, FlowStage::Done),
        FlowReply::Session(_) => matches!(stage, FlowStage::AwaitSession),
        FlowReply::Lobbies(_) => matches!(stage, FlowStage::AwaitLobbies),
        FlowReply::Created(_) => matches!(stage, FlowStage::AwaitCreated),
        FlowReply::Joined => matches!(stage, FlowStage::AwaitJoined),
        FlowReply::Stopped => matches!(stage, FlowStage::AwaitStopped),
        FlowReply::Pulled(_) => matches!(stage, FlowStage::AwaitPull),
        FlowReply::ImageExists(_) => matches!(stage, FlowStage::AwaitImageCheck(_)),
    }
}

fn status(kind: ActionStatusKind, message: &str, progress: Option<u8>) -> (r: Option<FlowStatus>)
    ensures
        status_is(r, kind, message@, progress),
{
    Some(FlowStatus { kind, message: owned(message), progress })
}

fn fail(message: &str) -> (r: FlowNext)
    ensures
        fails_with(r, message@),
{
    FlowNext::Finished(Err(owned(message)))
}

/// Starts an action. Starts and connects need the session id (or fail
/// with the error found while reading it); a start first looks its session
/// up, a connect or stop first lists the lobbies, and an update or download
/// pulls the app's image, failing at once for an app without one.
pub fn begin_action(
    action: AppAction,
    profile_id: String,
    app: AppCardData,
    session_id: Result<String, String>,
    buffer_caps: String,
) -> (r: (ActionFlow, FlowStep))
    ensures
        r.0.action == action,
        r.0.profile_id == profile_id,
        r.0.app == app,
        r.0.buffer_caps == buffer_caps,
        r.0.session == default_session(),
        is_start(action) ==> {
            &&& status_is(
                r.1.status,
                ActionStatusKind::Loading,
                if action == AppAction::StartCoop {
                    "Creating co-op lobby..."@
                } else {
                    "Starting lobby..."@
                },
                None,
            )
            &&& match session_id {
                Err(e) => r.1.next == FlowNext::Finished(Err::<bool, String>(e)) && r.0.stage is Done,
                Ok(s) => r.0.session_id == s && r.0.stage is AwaitSession && (r.1.next matches FlowNext::Request(
                    FlowRequest::FindSession(q),
                ) && q@ == s@),
            }
        },
        action == AppAction::Connect ==> {
            &&& status_is(r.1.status, ActionStatusKind::Loading, "Connecting..."@, None)
            &&& match session_id {
                Err(e) => r.1.next == FlowNext::Finished(Err::<bool, String>(e)) && r.0.stage is Done,
                Ok(s) => r.0.session_id == s && r.0.stage is AwaitLobbies && r.1.next
                    == FlowNext::Request(FlowRequest::ListLobbies),
            }
        },
        action == AppAction::Stop ==> {
            &&& status_is(r.1.status, ActionStatusKind::Loading, "Stopping..."@, None)
            &&& r.0.stage is AwaitLobbies
            &&& r.1.next == FlowNext::Request(FlowRequest::ListLobbies)
        },
        is_pull(action) ==> match app_image(app.source) {
            None => r.1.status is None && fails_with(r.1.next, "This app has no Docker image."@)
                && r.0.stage is Done,
            Some(image) => {
                &&& status_is(
                    r.1.status,
                    ActionStatusKind::Progress,
                    if action == AppAction::CheckUpdate {
                        "Checking for image updates..."@
                    } else {
                        "Downloading image..."@
                    },
                    Some(0u8),
                )
                &&& r.0.image@ == image@
                &&& r.0.stage is AwaitPull
                &&& r.1.next matches FlowNext::Request(FlowRequest::PullImage(q)) && q@ == image@
            },
        },
{
    let image = docker_image(&app.source);
    let mut flow = ActionFlow {
        action,
        profile_id,
        app,
        session_id: String::new(),
        session: fallback_session(),
        buffer_caps,
        image: String::new(),
        stage: FlowStage::Done,
    };
    match action {
        AppAction::Start | AppAction::StartCoop => {
            let multi = match action {
                AppAction::StartCoop => true,
                _ => false,
            };
            let st = if multi {
                status(ActionStatusKind::Loading, "Creating co-op lobby...", None)
            } else {
                status(ActionStatusKind::Loading, "Starting lobby...", None)
            };
            match session_id {
                Err(e) => (flow, FlowStep { status: st, next: FlowNext::Finished(Err(e)) }),
                Ok(s) => {
                    let q = owned(s.as_str());
                    flow.session_id = s;
                    flow.stage = FlowStage::AwaitSession;
                    (flow, FlowStep { status: st, next: FlowNext::Request(FlowRequest::FindSession(q)) })
                },
            }
        },
        AppAction::Connect => {
            let st = status(ActionStatusKind::Loading, "Connecting...", None);
            match session_id {
                Err(e) => (flow, FlowStep { status: st, next: FlowNext::Finished(Err(e)) }),
                Ok(s) => {
                    flow.session_id = s;
                    flow.stage = FlowStage::AwaitLobbies;
                    (flow, FlowStep { status: st, next: FlowNext::Request(FlowRequest::ListLobbies) })
                },
            }
        },
        AppAction::Stop => {
            let st = status(ActionStatusKind::Loading, "Stopping...", None);
            flow.stage = FlowStage::AwaitLobbies;
            (flow, FlowStep { status: st, next: FlowNext::Request(FlowRequest::ListLobbies) })
        },
        AppAction::CheckUpdate | AppAction::Download => {
            match image {
                None => (
                    flow,
                    FlowStep { status: None, next: fail("This app has no Docker image.") },
                ),
                Some(img) => {
                    let st = match action {
                        AppAction::CheckUpdate => status(
                            ActionStatusKind::Progress,
                            "Checking for image updates...",
                            Some(0),
                        ),
                        _ => status(ActionStatusKind::Progress, "Downloading image...", Some(0)),
                    };
                    let q = owned(img.as_str());
                    flow.image = img;
                    flow.stage = FlowStage::AwaitPull;
                    (flow, FlowStep { status: st, next: FlowNext::Request(FlowRequest::PullImage(q)) })
                },
            }
        },
    }
}

/// The parts of a flow that no reply changes.
pub open spec fn same_job(a: ActionFlow, b: ActionFlow) -> bool {
    &&& a.action == b.action
    &&& a.profile_id == b.profile_id
    &&& a.app == b.app
    &&& a.session_id == b.session_id
    &&& a.buffer_caps == b.buffer_caps
    &&& a.image == b.image
}

/// What a reply leads to. A failure ends the action with its text. A found
/// session (or the default one) is kept; a co-op start then creates its
/// lobby and a start lists the lobbies. A start joins the profile's running
/// lobby of the app or creates one; a connect joins it and a stop stops it,
/// both failing when there is none. A created lobby is joined. A join or
/// stop ends in success. A pull is followed by a check that the image is
/// there, which ends the action.
pub open spec fn step_ok(f: ActionFlow, reply: FlowReply, g: ActionFlow, step: FlowStep) -> bool {
    let no_lobby = "No running lobby found for this app."@;
    &&& same_job(f, g)
    &&& match reply {
        FlowReply::Session(_) => true,
        _ => g.session == f.session,
    }
    &&& match reply {
        FlowReply::Failed(e) => step.status is None && step.next == FlowNext::Finished(
            Err::<bool, String>(e),
        ) && g.stage is Done,
        FlowReply::Session(found) => {
            &&& step.status is None
            &&& g.session == match found {
                Some(s) => s,
                None => default_session(),
            }
            &&& if f.action == AppAction::StartCoop {
                requests_lobby(step.next, g, true) && g.stage is AwaitCreated
            } else {
                step.next == FlowNext::Request(FlowRequest::ListLobbies) && g.stage is AwaitLobbies
            }
        },
        FlowReply::Lobbies(list) => match first_app_lobby(list@, f.profile_id@, f.app.source, false) {
            Some(i) => if f.action == AppAction::Stop {
                &&& step.status is None
                &&& step.next matches FlowNext::Request(FlowRequest::StopLobby(l)) && l@
                    == list@[i].id@
                &&& g.stage is AwaitStopped
            } else {
                &&& if f.action == AppAction::Connect {
                    step.status is None
                } else {
                    status_is(step.status, ActionStatusKind::Loading, "Joining lobby..."@, None)
                }
                &&& requests_join(step.next, list@[i].id@, f.session_id@)
                &&& g.stage is AwaitJoined
            },
            None => if f.action == AppAction::Stop || f.action == AppAction::Connect {
                step.status is None && fails_with(step.next, no_lobby) && g.stage is Done
            } else {
                step.status is None && requests_lobby(step.next, g, false) && g.stage is AwaitCreated
            },
        },
        FlowReply::Created(id) => {
            &&& status_is(step.status, ActionStatusKind::Loading, "Joining lobby..."@, None)
            &&& requests_join(step.next, id@, f.session_id@)
            &&& g.stage is AwaitJoined
        },
        FlowReply::Joined => {
            &&& status_is(
                step.status,
                ActionStatusKind::Success,
                if f.action == AppAction::Connect {
                    "Connected."@
                } else {
                    "Lobby joined."@
                },
                None,
            )
            &&& step.next == FlowNext::Finished(Ok::<bool, String>(true))
            &&& g.stage is Done
        },
        FlowReply::Stopped => {
            &&& status_is(step.status, ActionStatusKind::Success, "Stopped."@, None)
            &&& step.next == FlowNext::Finished(Ok::<bool, String>(true))
            &&& g.stage is Done
        },
        FlowReply::Pulled(downloaded) => {
            &&& step.status is None
            &&& step.next matches FlowNext::Request(FlowRequest::CheckImage(q)) && q@ == f.image@
            &&& g.stage == FlowStage::AwaitImageCheck(downloaded)
        },
        FlowReply::ImageExists(exists) => {
            let downloaded = f.stage->AwaitImageCheck_0;
            if exists {
                &&& status_is(
                    step.status,
                    ActionStatusKind::Success,
                    if downloaded {
                        "Image updated."@
                    } else {
                        "Image already up to date."@
                    },
                    Some(100u8),
                )
                &&& step.next == FlowNext::Finished(Ok::<bool, String>(downloaded))
                &&& g.stage is Done
            } else {
                &&& step.status is None
                &&& fails_with(
                    step.next,
                    "Wolf reported pull success, but the image is still missing."@,
                )
                &&& g.stage is Done
            }
        },
    }
}

fn join(flow: &mut ActionFlow, lobby_id: String) -> (r: FlowNext)
    ensures
        requests_join(r, lobby_id@, old(flow).session_id@),
        *final(flow) == (ActionFlow { stage: FlowStage::AwaitJoined, ..*old(flow) }),
{
    flow.stage = FlowStage::AwaitJoined;
    FlowNext::Request(
        FlowRequest::JoinLobby { lobby_id, session_id: owned(flow.session_id.as_str()) },
    )
}

fn create(flow: &mut ActionFlow, multi_user: bool) -> (r: FlowNext)
    ensures
        *final(flow) == (ActionFlow { stage: FlowStage::AwaitCreated, ..*old(flow) }),
        requests_lobby(r, *final(flow), multi_user),
{
    let request = build_lobby(
        owned(flow.profile_id.as_str()),
        &flow.app,
        &flow.session,
        multi_user,
        owned(flow.buffer_caps.as_str()),
    );
    flow.stage = FlowStage::AwaitCreated;
    FlowNext::Request(FlowRequest::CreateLobby(request))
}

/// Takes Wolf's reply to the last request.
pub fn step_action(flow: &mut ActionFlow, reply: FlowReply) -> (r: FlowStep)
    requires
        reply_fits(old(flow).stage, reply),
    ensures
        step_ok(*old(flow), reply, *final(flow), r),
{
    match reply {
        FlowReply::Failed(e) => {
            flow.stage = FlowStage::Done;
            FlowStep { status: None, next: FlowNext::Finished(Err(e)) }
        },
        FlowReply::Session(found) => {
            match found {
                Some(s) => flow.session = s,
                None => flow.session = fallback_session(),
            }
            match flow.action {
                AppAction::StartCoop => {
                    let next = create(flow, true);
                    FlowStep { status: None, next }
                },
                _ => {
                    flow.stage = FlowStage::AwaitLobbies;
                    FlowStep { status: None, next: FlowNext::Request(FlowRequest::ListLobbies) }
                },
            }
        },
        FlowReply::Lobbies(list) => {
            let ghost all = list@;
            let found = running_lobby(list, flow.profile_id.as_str(), &flow.app.source, false);
            match found {
                Some(lobby) => match flow.action {
                    AppAction::Stop => {
                        flow.stage = FlowStage::AwaitStopped;
                        FlowStep {
                            status: None,
                            next: FlowNext::Request(FlowRequest::StopLobby(lobby.id)),
                        }
                    },
                    AppAction::Connect => {
                        let next = join(flow, lobby.id);
                        FlowStep { status: None, next }
                    },
                    _ => {
                        let st = status(ActionStatusKind::Loading, "Joining lobby...", None);
                        let next = join(flow, lobby.id);
                        FlowStep { status: st, next }
                    },
                },
                None => match flow.action {
                    AppAction::Stop | AppAction::Connect => {
                        flow.stage = FlowStage::Done;
                        FlowStep { status: None, next: fail("No running lobby found for this app.") }
                    },
                    _ => {
                        let next = create(flow, false);
                        FlowStep { status: None, next }
                    },
                },
            }
        },
        FlowReply::Created(id) => {
            let st = status(ActionStatusKind::Loading, "Joining lobby...", None);
            let next = join(flow, id);
            FlowStep { status: st, next }
        },
        FlowReply::Joined => {
            let st = match flow.action {
                AppAction::Connect => status(ActionStatusKind::Success, "Connected.", None),
                _ => status(ActionStatusKind::Success, "Lobby joined.", None),
            };
            flow.stage = FlowStage::Done;
            FlowStep { status: st, next: FlowNext::Finished(Ok(true)) }
        },
        FlowReply::Stopped => {
            flow.stage = FlowStage::Done;
            FlowStep {
                status: status(ActionStatusKind::Success, "Stopped.", None),
                next: FlowNext::Finished(Ok(true)),
            }
        },
        FlowReply::Pulled(downloaded) => {
            flow.stage = FlowStage::AwaitImageCheck(downloaded);
            FlowStep {
                status: None,
                next: FlowNext::Request(FlowRequest::CheckImage(owned(flow.image.as_str()))),
            }
        },
        FlowReply::ImageExists(exists) => {
            let downloaded = match flow.stage {
                FlowStage::AwaitImageCheck(d) => d,
                _ => false,
            };
            flow.stage = FlowStage::Done;
            if !exists {
                return FlowStep {
                    status: None,
                    next: fail("Wolf reported pull success, but the image is still missing."),
                };
            }
            let st = if downloaded {
                status(ActionStatusKind::Success, "Image updated.", Some(100))
            } else {
                status(ActionStatusKind::Success, "Image already up to date.", Some(100))
            };
            FlowStep { status: st, next: FlowNext::Finished(Ok(downloaded)) }
        },
    }
}

} // verus!
