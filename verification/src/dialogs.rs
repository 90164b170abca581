//! The app and lobby action dialogs: their labels and messages, and the
//! decisions they take as the user picks actions, answers PIN prompts and
//! the requested work finishes. The caller shows the dialogs, runs the work
//! an effect asks for, and reports back.

use vstd::prelude::*;

use crate::apps::AppAction;
use crate::text::{concat, eq_ignore_case_seq, owned, str_eq_ignore_ascii_case};

verus! {

pub open spec fn action_label_text(action: AppAction) -> Seq<char> {
    match action {
        AppAction::Start => "Start"@,
        AppAction::Connect => "Connect"@,
        AppAction::StartCoop => "Start Co-op"@,
        AppAction::Stop => "Stop"@,
        AppAction::CheckUpdate => "Check for Update"@,
        AppAction::Download => "Download"@,
    }
}

pub fn action_label(action: AppAction) -> (r: &'static str)
    ensures
        r@ == action_label_text(action),
{
    match action {
        AppAction::Start => "Start",
        AppAction::Connect => "Connect",
        AppAction::StartCoop => "Start Co-op",
        AppAction::Stop => "Stop",
        AppAction::CheckUpdate => "Check for Update",
        AppAction::Download => "Download",
    }
}

/// The note shown after an action succeeded: updates and downloads report
/// on the image; other actions report nothing.
pub open spec fn success_text(action: AppAction, downloaded: bool) -> Option<Seq<char>> {
    match action {
        AppAction::CheckUpdate => if downloaded {
            Some("Image updated."@)
        } else {
            Some("Image is up to date."@)
        },
        AppAction::Download => Some("Image downloaded."@),
        _ => None,
    }
}

pub fn success_message(action: AppAction, downloaded: bool) -> (r: Option<&'static str>)
    ensures
        r matches Some(m) ==> success_text(action, downloaded) == Some(m@),
        r is None ==> success_text(action, downloaded) is None,
{
    match action {
        AppAction::CheckUpdate => if downloaded {
            Some("Image updated.")
        } else {
            Some("Image is up to date.")
        },
        AppAction::Download => Some("Image downloaded."),
        _ => None,
    }
}

/// The note shown after an action failed with `message`.
pub open spec fn error_text(action: AppAction, message: Seq<char>) -> Seq<char> {
    if eq_ignore_case_seq(message, "Request timed out"@) {
        action_label_text(action) + " timed out. Try again."@
    } else if action == AppAction::StartCoop && eq_ignore_case_seq(
        message,
        "Lobby or session not found"@,
    ) {
        "Lobby or session not found. Refresh and try again."@
    } else {
        action_label_text(action) + " failed. Try again."@
    }
}

pub fn error_message(action: AppAction, message: &str) -> (r: String)
    ensures
        r@ == error_text(action, message@),
{
    if str_eq_ignore_ascii_case(message, "Request timed out") {
        return concat(action_label(action), " timed out. Try again.");
    }
    let coop = match action {
        AppAction::StartCoop => true,
        _ => false,
    };
    if coop && str_eq_ignore_ascii_case(message, "Lobby or session not found") {
        return owned("Lobby or session not found. Refresh and try again.");
    }
    concat(action_label(action), " failed. Try again.")
}

pub fn pin_title(action: AppAction) -> (r: &'static str)
    ensures
        action == AppAction::StartCoop ==> r@ == "Choose lobby PIN"@,
        action != AppAction::StartCoop ==> r@ == "PIN required"@,
{
    match action {
        AppAction::StartCoop => "Choose lobby PIN",
        _ => "PIN required",
    }
}

pub fn pin_description(action: AppAction) -> (r: &'static str)
    ensures
        action == AppAction::StartCoop ==> r@ == "Players need this PIN to join"@,
        action != AppAction::StartCoop ==> r@ == "Enter PIN"@,
{
    match action {
        AppAction::StartCoop => "Players need this PIN to join",
        _ => "Enter PIN",
    }
}

pub fn pin_submit_label(action: AppAction) -> (r: &'static str)
    ensures
        action == AppAction::StartCoop ==> r@ == "Create"@,
        action != AppAction::StartCoop ==> r@ == "Submit"@,
{
    match action {
        AppAction::StartCoop => "Create",
        _ => "Submit",
    }
}

pub fn progress_message(action: AppAction) -> (r: &'static str)
    ensures
        action == AppAction::CheckUpdate ==> r@ == "Updating image"@,
        action == AppAction::Download ==> r@ == "Downloading image"@,
        action != AppAction::CheckUpdate && action != AppAction::Download ==> r@ == "Working"@,
{
    match action {
        AppAction::CheckUpdate => "Updating image",
        AppAction::Download => "Downloading image",
        _ => "Working",
    }
}

/// Updates and downloads report their progress.
pub open spec fn progress_shown(action: AppAction) -> bool {
    action == AppAction::CheckUpdate || action == AppAction::Download
}

pub fn shows_progress(action: AppAction) -> (r: bool)
    ensures
        r == progress_shown(action),
{
    match action {
        AppAction::CheckUpdate | AppAction::Download => true,
        _ => false,
    }
}

/// A note for the toast area.
#[derive(Clone, Debug, PartialEq, Eq)]
pub struct ToastNote {
    pub message: String,
    pub error: bool,
}

/// The PIN prompt the app dialog shows.
#[derive(Clone, Copy, Debug, PartialEq, Eq, Structural)]
pub enum AppPinPrompt {
    /// Ask whether a co-op lobby gets a PIN.
    ProtectCoop,
    /// Ask for the PIN that goes with the action.
    EnterPin(AppAction),
}

/// What the app dialog is doing.
#[derive(Clone, Copy, Debug, PartialEq, Eq, Structural)]
pub struct AppDialogState {
    pub loading: Option<AppAction>,
    pub prompt: Option<AppPinPrompt>,
}

/// What the user or the running work did.
#[derive(Debug, PartialEq, Eq)]
pub enum AppDialogEvent {
    Chosen(AppAction),
    ProtectAnswered(bool),
    ProtectCancelled,
    PinSubmitted(Vec<i64>),
    PinCancelled,
    CloseRequested,
    /// The work ended: whether an image was downloaded, or the error's text.
    Finished(Result<bool, String>),
}

/// What the caller is asked to do.
#[derive(Clone, Debug, PartialEq, Eq)]
pub enum AppDialogEffect {
    Nothing,
    Run { action: AppAction, pin: Option<Vec<i64>> },
    Close { toast: Option<ToastNote> },
}

impl AppDialogState {
    pub fn new() -> (s: AppDialogState)
        ensures
            s.loading is None,
            s.prompt is None,
    {
        AppDialogState { loading: None, prompt: None }
    }
}

/// The state after `event`: choosing co-op asks whether to protect it, and
/// declining runs it without a PIN; any other choice runs at once; a
/// submitted PIN runs the prompted action; cancelling a co-op PIN goes back
/// to the question; nothing starts while an action is loading.
pub open spec fn app_dialog_next(s: AppDialogState, event: AppDialogEvent) -> AppDialogState {
    let start = |action: AppAction, t: AppDialogState|
        if t.loading is Some {
            t
        } else {
            AppDialogState { loading: Some(action), ..t }
        };
    match event {
        AppDialogEvent::Chosen(action) => if s.loading is Some {
            s
        } else if action == AppAction::StartCoop {
            AppDialogState { prompt: Some(AppPinPrompt::ProtectCoop), ..s }
        } else {
            start(action, s)
        },
        AppDialogEvent::ProtectAnswered(protect) => if s.prompt == Some(AppPinPrompt::ProtectCoop) {
            if protect {
                AppDialogState {
                    prompt: Some(AppPinPrompt::EnterPin(AppAction::StartCoop)),
                    ..s
                }
            } else {
                start(AppAction::StartCoop, AppDialogState { prompt: None, ..s })
            }
        } else {
            s
        },
        AppDialogEvent::ProtectCancelled => if s.prompt == Some(AppPinPrompt::ProtectCoop) {
            AppDialogState { prompt: None, ..s }
        } else {
            s
        },
        AppDialogEvent::PinSubmitted(_) => match s.prompt {
            Some(AppPinPrompt::EnterPin(action)) => start(
                action,
                AppDialogState { prompt: None, ..s },
            ),
            _ => s,
        },
        AppDialogEvent::PinCancelled => match s.prompt {
            Some(AppPinPrompt::EnterPin(action)) => if action == AppAction::StartCoop {
                AppDialogState { prompt: Some(AppPinPrompt::ProtectCoop), ..s }
            } else {
                AppDialogState { prompt: None, ..s }
            },
            _ => s,
        },
        AppDialogEvent::CloseRequested => s,
        AppDialogEvent::Finished(_) => AppDialogState { loading: None, ..s },
    }
}

/// Whether `event` starts `action`, with `pin` when it carries one.
pub open spec fn app_dialog_starts(s: AppDialogState, event: AppDialogEvent) -> Option<
    AppAction,
> {
    if s.loading is Some {
        None
    } else {
        match event {
            AppDialogEvent::Chosen(action) => if action == AppAction::StartCoop {
                None
            } else {
                Some(action)
            },
            AppDialogEvent::ProtectAnswered(protect) => if s.prompt == Some(
                AppPinPrompt::ProtectCoop,
            ) && !protect {
                Some(AppAction::StartCoop)
            } else {
                None
            },
            AppDialogEvent::PinSubmitted(_) => match s.prompt {
                Some(AppPinPrompt::EnterPin(action)) => Some(action),
                _ => None,
            },
            _ => None,
        }
    }
}

/// The effect of `event`: a started action runs, with the submitted PIN
/// when there was one; a close request closes when nothing is loading; the
/// end of the work closes with the success or error note.
pub open spec fn app_dialog_effect_ok(
    s: AppDialogState,
    event: AppDialogEvent,
    effect: AppDialogEffect,
) -> bool {
    match app_dialog_starts(s, event) {
        Some(action) => effect == AppDialogEffect::Run {
            action,
            pin: match event {
                AppDialogEvent::PinSubmitted(pin) => Some(pin),
                _ => None,
            },
        },
        None => match event {
            AppDialogEvent::CloseRequested => if s.loading is None {
                effect == AppDialogEffect::Close { toast: None }
            } else {
                effect is Nothing
            },
            AppDialogEvent::Finished(result) => match s.loading {
                None => effect is Close && effect->toast is None,
                Some(action) => match result {
                    Ok(downloaded) => match success_text(action, downloaded) {
                        Some(text) => effect matches AppDialogEffect::Close { toast: Some(t) }
                            && t.message@ == text && !t.error,
                        None => effect == AppDialogEffect::Close { toast: None },
                    },
                    Err(message) => effect matches AppDialogEffect::Close { toast: Some(t) }
                        && t.message@ == error_text(action, message@) && t.error,
                },
            },
            _ => effect is Nothing,
        },
    }
}

fn start_app_action(
    state: &mut AppDialogState,
    action: AppAction,
    pin: Option<Vec<i64>>,
) -> (r: AppDialogEffect)
    ensures
        old(state).loading is Some ==> *final(state) == *old(state) && r is Nothing,
        old(state).loading is None ==> *final(state) == (AppDialogState {
            loading: Some(action),
            ..*old(state)
        }) && r == (AppDialogEffect::Run { action, pin }),
{
    if state.loading.is_some() {
        return AppDialogEffect::Nothing;
    }
    state.loading = Some(action);
    AppDialogEffect::Run { action, pin }
}

/// One step of the app dialog.
pub fn app_dialog_step(state: &mut AppDialogState, event: AppDialogEvent) -> (r: AppDialogEffect)
    ensures
        *final(state) == app_dialog_next(*old(state), event),
        app_dialog_effect_ok(*old(state), event, r),
{
    let protect_open = match state.prompt {
        Some(AppPinPrompt::ProtectCoop) => true,
        _ => false,
    };
    match event {
        AppDialogEvent::Chosen(action) => {
            if state.loading.is_some() {
                return AppDialogEffect::Nothing;
            }
            match action {
                AppAction::StartCoop => {
                    state.prompt = Some(AppPinPrompt::ProtectCoop);
                    AppDialogEffect::Nothing
                },
                _ => start_app_action(state, action, None),
            }
        },
        AppDialogEvent::ProtectAnswered(protect) => {
            if !protect_open {
                return AppDialogEffect::Nothing;
            }
            if protect {
                state.prompt = Some(AppPinPrompt::EnterPin(AppAction::StartCoop));
                AppDialogEffect::Nothing
            } else {
                state.prompt = None;
                start_app_action(state, AppAction::StartCoop, None)
            }
        },
        AppDialogEvent::ProtectCancelled => {
            if protect_open {
                state.prompt = None;
            }
            AppDialogEffect::Nothing
        },
        AppDialogEvent::PinSubmitted(pin) => match state.prompt {
            Some(AppPinPrompt::EnterPin(action)) => {
                state.prompt = None;
                start_app_action(state, action, Some(pin))
            },
            _ => AppDialogEffect::Nothing,
        },
        AppDialogEvent::PinCancelled => {
            match state.prompt {
                Some(AppPinPrompt::EnterPin(action)) => {
                    state.prompt = match action {
                        AppAction::StartCoop => Some(AppPinPrompt::ProtectCoop),
                        _ => None,
                    };
                },
                _ => {},
            }
            AppDialogEffect::Nothing
        },
        AppDialogEvent::CloseRequested => {
            if state.loading.is_none() {
                AppDialogEffect::Close { toast: None }
            } else {
                AppDialogEffect::Nothing
            }
        },
        AppDialogEvent::Finished(result) => {
            let loading = state.loading;
            state.loading = None;
            match loading {
                None => AppDialogEffect::Close { toast: None },
                Some(action) => match result {
                    Ok(downloaded) => match success_message(action, downloaded) {
                        Some(text) => AppDialogEffect::Close {
                            toast: Some(ToastNote { message: owned(text), error: false }),
                        },
                        None => AppDialogEffect::Close { toast: None },
                    },
                    Err(message) => AppDialogEffect::Close {
                        toast: Some(
                            ToastNote { message: error_message(action, message.as_str()), error: true },
                        ),
                    },
                },
            }
        },
    }
}


/// What the lobby dialog does with a lobby.
#[derive(Clone, Copy, Debug, PartialEq, Eq, Structural)]
pub enum LobbyAction {
    Join,
    Stop,
}

pub open spec fn lobby_action_label_text(action: LobbyAction) -> Seq<char> {
    match action {
        LobbyAction::Join => "Lobby join"@,
        LobbyAction::Stop => "Lobby stop"@,
    }
}

pub fn lobby_action_label(action: LobbyAction) -> (r: &'static str)
    ensures
        r@ == lobby_action_label_text(action),
{
    match action {
        LobbyAction::Join => "Lobby join",
        LobbyAction::Stop => "Lobby stop",
    }
}

pub fn lobby_pin_description(action: LobbyAction) -> (r: &'static str)
    ensures
        action == LobbyAction::Join ==> r@ == "Enter the lobby PIN to join"@,
        action == LobbyAction::Stop ==> r@ == "Enter the lobby PIN to stop it"@,
{
    match action {
        LobbyAction::Join => "Enter the lobby PIN to join",
        LobbyAction::Stop => "Enter the lobby PIN to stop it",
    }
}

pub fn lobby_pin_submit_label(action: LobbyAction) -> (r: &'static str)
    ensures
        action == LobbyAction::Join ==> r@ == "Join"@,
        action == LobbyAction::Stop ==> r@ == "Stop"@,
{
    match action {
        LobbyAction::Join => "Join",
        LobbyAction::Stop => "Stop",
    }
}

/// The note after a lobby action failed: with no error text it did not
/// complete; a wrong PIN, a timeout and a missing lobby get their own notes;
/// any other error is quoted.
pub open spec fn lobby_error_text(action: LobbyAction, error: Option<Seq<char>>) -> Seq<char> {
    match error {
        None => lobby_action_label_text(action) + " did not complete. Try again."@,
        Some(e) => if eq_ignore_case_seq(e, "Invalid PIN"@) {
            "Incorrect PIN. Try again."@
        } else if eq_ignore_case_seq(e, "Request timed out"@) {
            lobby_action_label_text(action) + " timed out. Try again."@
        } else if eq_ignore_case_seq(e, "Lobby or session not found"@) {
            "Lobby or session not found. Refresh and try again."@
        } else {
            lobby_action_label_text(action) + " failed: "@ + e
        },
    }
}

pub fn lobby_error_message(action: LobbyAction, error: Option<&str>) -> (r: String)
    ensures
        r@ == lobby_error_text(
            action,
            match error {
                Some(e) => Some(e@),
                None => None,
            },
        ),
{
    let e = match error {
        None => {
            return concat(lobby_action_label(action), " did not complete. Try again.");
        },
        Some(e) => e,
    };
    if str_eq_ignore_ascii_case(e, "Invalid PIN") {
        return owned("Incorrect PIN. Try again.");
    }
    if str_eq_ignore_ascii_case(e, "Request timed out") {
        return concat(lobby_action_label(action), " timed out. Try again.");
    }
    if str_eq_ignore_ascii_case(e, "Lobby or session not found") {
        return owned("Lobby or session not found. Refresh and try again.");
    }
    let mut r = concat(lobby_action_label(action), " failed: ");
    r.append(e);
    r
}

/// The PIN prompt the lobby dialog shows.
#[derive(Clone, Copy, Debug, PartialEq, Eq, Structural)]
pub enum LobbyPinPrompt {
    /// The lobby's own PIN, sent along with the action.
    LobbyPin(LobbyAction),
    /// The owner profile's PIN, checked here before stopping.
    ProfilePin,
}

#[derive(Clone, Copy, Debug, PartialEq, Eq, Structural)]
pub struct LobbyDialogState {
    pub loading: Option<LobbyAction>,
    pub prompt: Option<LobbyPinPrompt>,
}

impl LobbyDialogState {
    pub fn new() -> (s: LobbyDialogState)
        ensures
            s.loading is None,
            s.prompt is None,
    {
        LobbyDialogState { loading: None, prompt: None }
    }
}

#[derive(Debug, PartialEq, Eq)]
pub enum LobbyDialogEvent {
    Chosen(LobbyAction),
    PinSubmitted(Vec<i64>),
    PinCancelled,
    CloseRequested,
    /// The work ended: its result, or the error's text when there was one.
    Finished(Result<bool, Option<String>>),
}

#[derive(Clone, Debug, PartialEq, Eq)]
pub enum LobbyDialogEffect {
    Nothing,
    Run { action: LobbyAction, pin: Option<Vec<i64>> },
    /// Show a note and stay open.
    Notify(ToastNote),
    /// Close; `stopped` asks the caller to drop the lobby from its list.
    Close { stopped: bool, toast: Option<ToastNote> },
}

/// The lobby whose PIN is required asks for it; stopping a lobby whose owner
/// has a PIN asks for the owner's PIN; anything else runs at once.
pub open spec fn lobby_request(
    s: LobbyDialogState,
    action: LobbyAction,
    pin_required: bool,
    owner_has_pin: bool,
) -> LobbyDialogState {
    if pin_required {
        LobbyDialogState { prompt: Some(LobbyPinPrompt::LobbyPin(action)), ..s }
    } else if action == LobbyAction::Stop && owner_has_pin {
        LobbyDialogState { prompt: Some(LobbyPinPrompt::ProfilePin), ..s }
    } else if s.loading is Some {
        s
    } else {
        LobbyDialogState { loading: Some(action), ..s }
    }
}

pub open spec fn pin_matches(owner_pin: Option<Seq<i64>>, pin: Seq<i64>) -> bool {
    owner_pin == Some(pin)
}

/// The state after `event`.
pub open spec fn lobby_dialog_next(
    s: LobbyDialogState,
    event: LobbyDialogEvent,
    pin_required: bool,
    owner_pin: Option<Seq<i64>>,
) -> LobbyDialogState {
    let run = |action: LobbyAction, t: LobbyDialogState|
        if t.loading is Some {
            t
        } else {
            LobbyDialogState { loading: Some(action), ..t }
        };
    match event {
        LobbyDialogEvent::Chosen(action) => lobby_request(s, action, pin_required, owner_pin is Some),
        LobbyDialogEvent::PinSubmitted(pin) => match s.prompt {
            Some(LobbyPinPrompt::LobbyPin(action)) => run(
                action,
                LobbyDialogState { prompt: None, ..s },
            ),
            Some(LobbyPinPrompt::ProfilePin) => if pin_matches(owner_pin, pin@) {
                run(LobbyAction::Stop, LobbyDialogState { prompt: None, ..s })
            } else {
                LobbyDialogState { prompt: None, ..s }
            },
            None => s,
        },
        LobbyDialogEvent::PinCancelled => LobbyDialogState { prompt: None, ..s },
        LobbyDialogEvent::CloseRequested => s,
        LobbyDialogEvent::Finished(_) => LobbyDialogState { loading: None, ..s },
    }
}

/// The effect of `event`.
pub open spec fn lobby_dialog_effect_ok(
    s: LobbyDialogState,
    event: LobbyDialogEvent,
    pin_required: bool,
    owner_pin: Option<Seq<i64>>,
    effect: LobbyDialogEffect,
) -> bool {
    match event {
        LobbyDialogEvent::Chosen(action) => if !pin_required && !(action == LobbyAction::Stop
            && owner_pin is Some) && s.loading is None {
            effect == LobbyDialogEffect::Run { action, pin: None }
        } else {
            effect is Nothing
        },
        LobbyDialogEvent::PinSubmitted(pin) => match s.prompt {
            Some(LobbyPinPrompt::LobbyPin(action)) => if s.loading is None {
                effect == LobbyDialogEffect::Run { action, pin: Some(pin) }
            } else {
                effect is Nothing
            },
            Some(LobbyPinPrompt::ProfilePin) => if !pin_matches(owner_pin, pin@) {
                effect matches LobbyDialogEffect::Notify(t) && t.message@
                    == "Incorrect PIN. Try again."@ && t.error
            } else if s.loading is None {
                effect == LobbyDialogEffect::Run { action: LobbyAction::Stop, pin: None }
            } else {
                effect is Nothing
            },
            None => effect is Nothing,
        },
        LobbyDialogEvent::PinCancelled => effect is Nothing,
        LobbyDialogEvent::CloseRequested => if s.loading is None {
            effect == LobbyDialogEffect::Close { stopped: false, toast: None }
        } else {
            effect is Nothing
        },
        LobbyDialogEvent::Finished(result) => match s.loading {
            None => effect == LobbyDialogEffect::Close { stopped: false, toast: None },
            Some(action) => match result {
                Ok(_) => if action == LobbyAction::Stop {
                    effect matches LobbyDialogEffect::Close { stopped: true, toast: Some(t) }
                        && t.message@ == "Lobby stopped."@ && !t.error
                } else {
                    effect == LobbyDialogEffect::Close { stopped: false, toast: None }
                },
                Err(error) => effect matches LobbyDialogEffect::Close {
                    stopped: false,
                    toast: Some(t),
                } && t.error && t.message@ == lobby_error_text(
                    action,
                    match error {
                        Some(e) => Some(e@),
                        None => None,
                    },
                ),
            },
        },
    }
}

/// Two PINs are the same digits in the same order.
pub fn pins_equal(a: &[i64], b: &[i64]) -> (r: bool)
    ensures
        r == (a@ == b@),
{
    if a.len() != b.len() {
        return false;
    }
    let mut i: usize = 0;
    while i < a.len()
        invariant
            a@.len() == b@.len(),
            i <= a@.len(),
            forall|k: int| 0 <= k < i ==> a@[k] == b@[k],
        decreases a@.len() - i,
    {
        if a[i] != b[i] {
            return false;
        }
        i = i + 1;
    }
    assert(a@ =~= b@);
    true
}

fn run_lobby_action(
    state: &mut LobbyDialogState,
    action: LobbyAction,
    pin: Option<Vec<i64>>,
) -> (r: LobbyDialogEffect)
    ensures
        old(state).loading is Some ==> *final(state) == *old(state) && r is Nothing,
        old(state).loading is None ==> *final(state) == (LobbyDialogState {
            loading: Some(action),
            ..*old(state)
        }) && r == (LobbyDialogEffect::Run { action, pin }),
{
    if state.loading.is_some() {
        return LobbyDialogEffect::Nothing;
    }
    state.loading = Some(action);
    LobbyDialogEffect::Run { action, pin }
}

/// One step of the lobby dialog. `pin_required` is the lobby's flag and
/// `owner_pin` the PIN of the profile that started it.
pub fn lobby_dialog_step(
    state: &mut LobbyDialogState,
    event: LobbyDialogEvent,
    pin_required: bool,
    owner_pin: &Option<Vec<i64>>,
) -> (r: LobbyDialogEffect)
    ensures
        *final(state) == lobby_dialog_next(
            *old(state),
            event,
            pin_required,
            match owner_pin {
                Some(p) => Some(p@),
                None => None,
            },
        ),
        lobby_dialog_effect_ok(
            *old(state),
            event,
            pin_required,
            match owner_pin {
                Some(p) => Some(p@),
                None => None,
            },
            r,
        ),
{
    match event {
        LobbyDialogEvent::Chosen(action) => {
            if pin_required {
                state.prompt = Some(LobbyPinPrompt::LobbyPin(action));
                return LobbyDialogEffect::Nothing;
            }
            let stop = match action {
                LobbyAction::Stop => true,
                LobbyAction::Join => false,
            };
            if stop && owner_pin.is_some() {
                state.prompt = Some(LobbyPinPrompt::ProfilePin);
                return LobbyDialogEffect::Nothing;
            }
            run_lobby_action(state, action, None)
        },
        LobbyDialogEvent::PinSubmitted(pin) => match state.prompt {
            Some(LobbyPinPrompt::LobbyPin(action)) => {
                state.prompt = None;
                run_lobby_action(state, action, Some(pin))
            },
            Some(LobbyPinPrompt::ProfilePin) => {
                state.prompt = None;
                let matches = match owner_pin {
                    Some(p) => pins_equal(p.as_slice(), pin.as_slice()),
                    None => false,
                };
                if matches {
                    run_lobby_action(state, LobbyAction::Stop, None)
                } else {
                    LobbyDialogEffect::Notify(
                        ToastNote { message: owned("Incorrect PIN. Try again."), error: true },
                    )
                }
            },
            None => LobbyDialogEffect::Nothing,
        },
        LobbyDialogEvent::PinCancelled => {
            state.prompt = None;
            LobbyDialogEffect::Nothing
        },
        LobbyDialogEvent::CloseRequested => {
            if state.loading.is_none() {
                LobbyDialogEffect::Close { stopped: false, toast: None }
            } else {
                LobbyDialogEffect::Nothing
            }
        },
        LobbyDialogEvent::Finished(result) => {
            let loading = state.loading;
            state.loading = None;
            match loading {
                None => LobbyDialogEffect::Close { stopped: false, toast: None },
                Some(action) => match result {
                    Ok(_) => match action {
                        LobbyAction::Stop => LobbyDialogEffect::Close {
                            stopped: true,
                            toast: Some(ToastNote { message: owned("Lobby stopped."), error: false }),
                        },
                        LobbyAction::Join => LobbyDialogEffect::Close { stopped: false, toast: None },
                    },
                    Err(error) => {
                        let text = match &error {
                            Some(e) => lobby_error_message(action, Some(e.as_str())),
                            None => lobby_error_message(action, None),
                        };
                        LobbyDialogEffect::Close {
                            stopped: false,
                            toast: Some(ToastNote { message: text, error: true }),
                        }
                    },
                },
            }
        },
    }
}

/// While an app action is loading, no event but its end starts another one
/// or changes what is loading.
pub proof fn lemma_app_dialog_one_action_at_a_time(
    s: AppDialogState,
    event: AppDialogEvent,
    effect: AppDialogEffect,
)
    requires
        s.loading is Some,
        !(event is Finished),
        app_dialog_effect_ok(s, event, effect),
    ensures
        app_dialog_next(s, event).loading == s.loading,
        !(effect is Run),
{
}

/// While a lobby action is loading, no event but its end starts another one
/// or changes what is loading.
pub proof fn lemma_lobby_dialog_one_action_at_a_time(
    s: LobbyDialogState,
    event: LobbyDialogEvent,
    pin_required: bool,
    owner_pin: Option<Seq<i64>>,
    effect: LobbyDialogEffect,
)
    requires
        s.loading is Some,
        !(event is Finished),
        lobby_dialog_effect_ok(s, event, pin_required, owner_pin, effect),
    ensures
        lobby_dialog_next(s, event, pin_required, owner_pin).loading == s.loading,
        !(effect is Run),
{
}

/// A PIN that differs from the owner's never stops the lobby: the dialog
/// says the PIN is wrong and runs nothing.
pub proof fn lemma_wrong_owner_pin_never_stops(
    s: LobbyDialogState,
    pin: Vec<i64>,
    pin_required: bool,
    owner_pin: Option<Seq<i64>>,
    effect: LobbyDialogEffect,
)
    requires
        s.prompt == Some(LobbyPinPrompt::ProfilePin),
        owner_pin != Some(pin@),
        lobby_dialog_effect_ok(s, LobbyDialogEvent::PinSubmitted(pin), pin_required, owner_pin, effect),
    ensures
        effect is Notify,
        lobby_dialog_next(s, LobbyDialogEvent::PinSubmitted(pin), pin_required, owner_pin).loading
            == s.loading,
{
}

} // verus!
