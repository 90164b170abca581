//! What the profiles and apps screens show: which state a screen is in,
//! which card is selected, how a lobby is named, and the texts of cards and
//! of the session dialog.

use vstd::prelude::*;

use crate::dialogs::pins_equal;
use crate::apps::{AppCardData, AppFilter, AppStatusKind, arranged, cards_for, sorted_apps};
use crate::model::{AppListResponse, Lobby, Profile};
use crate::text::{chars_of, concat, ends_with, ends_with_seq, owned, str_eq};

verus! {

/// The selection kept within `len` cards: past the end it moves to the last
/// card (or 0 when there are none).
pub open spec fn clamped_selection(selected: usize, len: usize) -> usize {
    if selected < len {
        selected
    } else if len == 0 {
        0
    } else {
        (len - 1) as usize
    }
}

pub fn clamp_selection(selected: usize, len: usize) -> (r: usize)
    ensures
        r == clamped_selection(selected, len),
{
    if selected < len {
        selected
    } else if len == 0 {
        0
    } else {
        len - 1
    }
}

/// What the apps screen shows.
#[derive(Debug)]
pub enum AppsContent {
    /// Wolf answered without success.
    Unavailable,
    /// The profile has no apps.
    Empty,
    /// The cards in order, and the selected one.
    Cards { cards: Vec<AppCardData>, selected: usize },
}

/// The apps screen: unavailable when Wolf's answer was unsuccessful, empty
/// without apps, otherwise the arranged cards with the selection kept among
/// them.
pub fn apps_content(
    profile_id: &str,
    response: AppListResponse,
    lobbies: &[Lobby],
    images: &[(String, bool)],
    covers: &[(String, String)],
    filter: AppFilter,
    selected: usize,
) -> (r: AppsContent)
    ensures
        !response.success ==> r is Unavailable,
        response.success && response.apps@.len() == 0 ==> r is Empty,
        response.success && response.apps@.len() > 0 ==> (r matches AppsContent::Cards {
            cards,
            selected: s,
        } && s == clamped_selection(selected, cards.len()) && exists|all: Seq<AppCardData>|
            #[trigger] cards_for(all, profile_id@, response.apps@, lobbies@, images@, covers@)
                && cards@ == arranged(all, filter)),
{
    if !response.success {
        return AppsContent::Unavailable;
    }
    if response.apps.len() == 0 {
        return AppsContent::Empty;
    }
    let cards = sorted_apps(profile_id, response.apps, lobbies, images, covers, filter);
    let s = clamp_selection(selected, cards.len());
    AppsContent::Cards { cards, selected: s }
}

/// What a card says about its app.
#[derive(Clone, Copy, Debug, PartialEq, Eq, Structural)]
pub struct CardBadges {
    /// Show the runner's name (Docker apps leave it out).
    pub show_runner: bool,
    pub hdr: bool,
    pub not_installed: bool,
    pub playing: bool,
}

pub fn card_badges(card: &AppCardData) -> (r: CardBadges)
    ensures
        r.show_runner == (card.runner@ != "Docker"@),
        r.hdr == card.supports_hdr,
        r.not_installed == (card.status.kind == AppStatusKind::MissingImage),
        r.playing == (card.status.kind == AppStatusKind::Playing),
{
    CardBadges {
        show_runner: !str_eq(card.runner.as_str(), "Docker"),
        hdr: card.supports_hdr,
        not_installed: card.status.kind == AppStatusKind::MissingImage,
        playing: card.status.kind == AppStatusKind::Playing,
    }
}

/// What the profiles screen shows.
#[derive(Clone, Copy, Debug, PartialEq, Eq, Structural)]
pub enum ProfilesContent {
    Unavailable,
    Empty,
    Grid,
}

pub fn profiles_content(success: bool, profiles: usize, lobbies: usize) -> (r: ProfilesContent)
    ensures
        !success ==> r == ProfilesContent::Unavailable,
        success && profiles == 0 && lobbies == 0 ==> r == ProfilesContent::Empty,
        success && (profiles > 0 || lobbies > 0) ==> r == ProfilesContent::Grid,
{
    if !success {
        ProfilesContent::Unavailable
    } else if profiles == 0 && lobbies == 0 {
        ProfilesContent::Empty
    } else {
        ProfilesContent::Grid
    }
}

/// The first card takes the focus: the first profile, or the first lobby
/// when there are no profiles.
pub fn lobby_autofocus(profiles: usize, index: usize) -> (r: bool)
    ensures
        r == (profiles == 0 && index == 0),
{
    profiles == 0 && index == 0
}

/// The position of the first profile with id `id`.
pub open spec fn first_profile(profiles: Seq<Profile>, id: Seq<char>) -> Option<int> {
    if exists|i: int| 0 <= i < profiles.len() && profiles[i].id@ == id {
        Some(
            choose|i: int|
                0 <= i < profiles.len() && profiles[i].id@ == id && forall|k: int|
                    0 <= k < i ==> profiles[k].id@ != id,
        )
    } else {
        None
    }
}

/// A lobby is called after the profile that started it, with the English
/// possessive (`James' lobby`, `Ann's lobby`); without such a profile it
/// keeps its own name.
pub open spec fn lobby_name_text(lobby: Lobby, profiles: Seq<Profile>) -> Seq<char> {
    match first_profile(profiles, lobby.started_by_profile_id@) {
        Some(i) => {
            let creator = profiles[i].name@;
            if ends_with_seq(creator, "s"@) {
                creator + "' lobby"@
            } else {
                creator + "'s lobby"@
            }
        },
        None => lobby.name@,
    }
}

fn find_profile_index(profiles: &[Profile], id: &str) -> (r: Option<usize>)
    ensures
        r matches Some(i) ==> first_profile(profiles@, id@) == Some(i as int) && i < profiles@.len(),
        r is None ==> first_profile(profiles@, id@) is None,
{
    let n: usize = profiles.len();
    let mut i: usize = 0;
    while i < n
        invariant
            i <= n,
            n == profiles@.len(),
            forall|k: int| 0 <= k < i ==> profiles@[k].id@ != id@,
        decreases n - i,
    {
        if str_eq(profiles[i].id.as_str(), id) {
            proof {
                let w = choose|j: int|
                    0 <= j < profiles@.len() && profiles@[j].id@ == id@ && forall|k: int|
                        0 <= k < j ==> profiles@[k].id@ != id@;
                assert(profiles@[i as int].id@ == id@);
                if w < i {
                    assert(false);
                }
                if w > i {
                    assert(profiles@[i as int].id@ != id@);
                }
            }
            return Some(i);
        }
        i = i + 1;
    }
    None
}

pub fn lobby_name(lobby: &Lobby, profiles: &[Profile]) -> (r: String)
    ensures
        r@ == lobby_name_text(*lobby, profiles@),
{
    match find_profile_index(profiles, lobby.started_by_profile_id.as_str()) {
        Some(i) => {
            let creator = profiles[i].name.as_str();
            let chars = chars_of(creator);
            let s = chars_of("s");
            if ends_with(&chars, &s) {
                concat(creator, "' lobby")
            } else {
                concat(creator, "'s lobby")
            }
        },
        None => owned(lobby.name.as_str()),
    }
}

/// An entered PIN opens a profile exactly when the profile has that PIN.
pub fn profile_pin_accepts(pin: &Option<Vec<i64>>, entered: &[i64]) -> (r: bool)
    ensures
        r == (pin matches Some(p) && p@ == entered@),
{
    match pin {
        None => false,
        Some(p) => pins_equal(p.as_slice(), entered),
    }
}

/// The label read out for a profile card: `Select <name>, <status>`.
pub fn profile_card_label(name: &str, pin_locked: bool) -> (r: String)
    ensures
        r@ == "Select "@ + name@ + ", "@ + (if pin_locked {
            "PIN protected profile"@
        } else {
            "Open profile"@
        }),
{
    let mut r = concat("Select ", name);
    r.append(", ");
    if pin_locked {
        r.append("PIN protected profile");
    } else {
        r.append("Open profile");
    }
    r
}

/// The prompt for a profile's PIN.
pub fn profile_pin_description(name: &str) -> (r: String)
    ensures
        r@ == "Enter the PIN for "@ + name@,
{
    concat("Enter the PIN for ", name)
}

/// The confirm button of the end-session dialog offers a retry after a
/// failure.
pub fn shutdown_confirm_label(failed: bool) -> (r: &'static str)
    ensures
        failed ==> r@ == "Retry"@,
        !failed ==> r@ == "End session"@,
{
    if failed {
        "Retry"
    } else {
        "End session"
    }
}

/// The end-session dialog closes on cancel unless the request is pending.
pub fn shutdown_cancel_allowed(pending: bool) -> (r: bool)
    ensures
        r == !pending,
{
    !pending
}

} // verus!
