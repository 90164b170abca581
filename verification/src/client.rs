//! The decisions of the Wolf API client around each HTTP exchange: where a
//! request goes, which responses count as success, how a failed response
//! becomes an error, which failures are retried, and how list responses are
//! narrowed down.

use vstd::prelude::*;

use crate::error::ApiError;
use crate::model::{AppListResponse, ProfileListResponse, Session, SessionListResponse};
use crate::text::{concat, owned, str_eq};

verus! {

/// The URL of `path` on the Wolf API at `base_url`.
pub fn request_url(base_url: &str, path: &str) -> (r: String)
    ensures
        r@ == base_url@ + path@,
{
    concat(base_url, path)
}

/// A 2xx status.
pub open spec fn success_status(status: u16) -> bool {
    200 <= status <= 299
}

pub fn is_success(status: u16) -> (r: bool)
    ensures
        r == success_status(status),
{
    200 <= status && status <= 299
}

/// The error for a failed response. `wolf_message` is the `error` field of
/// the body when the body is Wolf's error envelope, and `None` when it is not.
pub fn response_error(status: u16, body: String, wolf_message: Option<String>) -> (r: ApiError)
    ensures
        wolf_message matches Some(m) ==> r == (ApiError::Wolf { status, message: m }),
        wolf_message is None ==> r == (ApiError::Status { status, body }),
{
    match wolf_message {
        Some(message) => ApiError::Wolf { status, message },
        None => ApiError::Status { status, body },
    }
}

/// The answer to "does this image exist?" from the status of Wolf's image
/// inspection: 404 means no, success means yes, and any other status is an
/// error (`None`).
pub fn image_exists_from_status(status: u16) -> (r: Option<bool>)
    ensures
        status == 404 ==> r == Some(false),
        status != 404 && success_status(status) ==> r == Some(true),
        status != 404 && !success_status(status) ==> r is None,
{
    if status == 404 {
        Some(false)
    } else if is_success(status) {
        Some(true)
    } else {
        None
    }
}

/// A 5xx status.
pub open spec fn server_error_status(status: u16) -> bool {
    500 <= status <= 599
}

/// Whether a finished attempt may be retried: only GET requests are retried,
/// after a server error or when no response arrived at all.
pub fn should_retry(is_get: bool, status: Option<u16>) -> (r: bool)
    ensures
        r == (is_get && match status {
            Some(s) => server_error_status(s),
            None => true,
        }),
{
    if !is_get {
        return false;
    }
    match status {
        Some(s) => 500 <= s && s <= 599,
        None => true,
    }
}

/// The host named by a URL, or `None` when it does not parse or has no host.
pub uninterp spec fn url_host(url: Seq<char>) -> Option<Seq<char>>;

/// The host of `url` by `reqwest::Url::parse` and `Url::host_str`: the
/// returned text is the host the URL parser finds, as a function of the
/// text alone.
#[verifier::external_body]
fn parse_url_host(url: &str) -> (r: Option<String>)
    ensures
        match r {
            Some(h) => url_host(url@) == Some(h@),
            None => url_host(url@) is None,
        },
{
    reqwest::Url::parse(url).ok().and_then(|u| u.host_str().map(|h| h.to_string()))
}

/// The host that retries are limited to: the base URL's host, or the empty
/// string when the base URL has none.
pub fn host_for_retry_scope(base_url: &str) -> (r: String)
    ensures
        r@ == match url_host(base_url@) {
            Some(h) => h,
            None => Seq::<char>::empty(),
        },
{
    match parse_url_host(base_url) {
        Some(h) => h,
        None => String::new(),
    }
}

/// The profile with the given id, if any.
pub open spec fn find_profile(profiles: Seq<crate::model::Profile>, id: Seq<char>) -> Option<int> {
    if exists|i: int| 0 <= i < profiles.len() && profiles[i].id@ == id {
        Some(
            choose|i: int|
                0 <= i < profiles.len() && profiles[i].id@ == id && forall|k: int|
                    0 <= k < i ==> profiles[k].id@ != id,
        )
    } else {
        None
    }
}

/// The apps of one profile: those of the first profile with the id, or none
/// when no profile has it. The success flag is the list's.
pub fn apps_of_profile(response: ProfileListResponse, profile_id: &str) -> (r: AppListResponse)
    ensures
        r.success == response.success,
        match find_profile(response.profiles@, profile_id@) {
            Some(i) => r.apps == response.profiles@[i].apps,
            None => r.apps@.len() == 0,
        },
{
    let ProfileListResponse { success, profiles } = response;
    let ghost ps = profiles@;
    let mut profiles = profiles;
    let n: usize = profiles.len();
    let mut i: usize = 0;
    while i < n
        invariant
            i <= n,
            n == ps.len(),
            profiles@ == ps,
            ps == response.profiles@,
            success == response.success,
            forall|k: int| 0 <= k < i ==> ps[k].id@ != profile_id@,
        decreases n - i,
    {
        if str_eq(profiles[i].id.as_str(), profile_id) {
            proof {
                let w = choose|j: int|
                    0 <= j < ps.len() && ps[j].id@ == profile_id@ && forall|k: int|
                        0 <= k < j ==> ps[k].id@ != profile_id@;
                assert(ps[i as int].id@ == profile_id@);
                if w < i {
                    assert(false);
                }
                if w > i {
                    assert(ps[i as int].id@ != profile_id@);
                }
            }
            let profile = profiles.swap_remove(i);
            return AppListResponse { success, apps: profile.apps };
        }
        i = i + 1;
    }
    AppListResponse { success, apps: Vec::new() }
}

/// The session belongs to the Moonlight client `client_id`.
pub open spec fn has_client_id(session: Session, client_id: Seq<char>) -> bool {
    session.client_id matches Some(c) && c@ == client_id
}

/// The session of a Moonlight client: the first session whose client id is
/// `client_id`.
pub open spec fn find_session(sessions: Seq<Session>, client_id: Seq<char>) -> Option<int> {
    if exists|i: int| 0 <= i < sessions.len() && has_client_id(sessions[i], client_id) {
        Some(
            choose|i: int|
                0 <= i < sessions.len() && has_client_id(sessions[i], client_id)
                    && forall|k: int|
                    0 <= k < i ==> !has_client_id(sessions[k], client_id),
        )
    } else {
        None
    }
}

pub fn session_by_client_id(response: SessionListResponse, client_id: &str) -> (r: Option<Session>)
    ensures
        match find_session(response.sessions@, client_id@) {
            Some(i) => r == Some(response.sessions@[i]),
            None => r is None,
        },
{
    let ghost ss = response.sessions@;
    let mut sessions = response.sessions;
    let n: usize = sessions.len();
    let mut i: usize = 0;
    while i < n
        invariant
            i <= n,
            n == ss.len(),
            sessions@ == ss,
            ss == response.sessions@,
            forall|k: int| 0 <= k < i ==> !has_client_id(ss[k], client_id@),
        decreases n - i,
    {
        let matched = match &sessions[i].client_id {
            Some(c) => str_eq(c.as_str(), client_id),
            None => false,
        };
        if matched {
            proof {
                assert(has_client_id(ss[i as int], client_id@));
                let w = choose|j: int|
                    0 <= j < ss.len() && has_client_id(ss[j], client_id@)
                        && forall|k: int|
                        0 <= k < j ==> !has_client_id(ss[k], client_id@);
                if w < i {
                    assert(false);
                }
                if w > i {
                    assert(!has_client_id(ss[i as int], client_id@));
                }
            }
            return Some(sessions.swap_remove(i));
        }
        i = i + 1;
    }
    None
}

} // verus!
