//! The Moonlight session this launcher runs in.

use vstd::prelude::*;

use crate::model::Session;
use crate::text::{owned, trim, trim_seq};

verus! {

pub const WOLF_SESSION_ID_ENV: &'static str = "WOLF_SESSION_ID";

/// The session id from the environment: the value of `WOLF_SESSION_ID` as
/// `get_env` reports it, unless it is missing or blank.
pub fn session_id_from_env<F: FnOnce(&str) -> Option<String>>(get_env: F) -> (r: Result<
    String,
    String,
>)
    requires
        get_env.requires((WOLF_SESSION_ID_ENV,)),
    ensures
        exists|v: Option<String>|
            get_env.ensures((WOLF_SESSION_ID_ENV,), v) && match v {
                Some(s) => if trim_seq(s@).len() > 0 {
                    r == Ok::<String, String>(s)
                } else {
                    r matches Err(e) && e@ == "WOLF_SESSION_ID is not set."@
                },
                None => r matches Err(e) && e@ == "WOLF_SESSION_ID is not set."@,
            },
{
    let value = get_env(WOLF_SESSION_ID_ENV);
    match value {
        Some(s) => {
            let t = trim(s.as_str());
            if t.as_str().is_empty() {
                Err(owned("WOLF_SESSION_ID is not set."))
            } else {
                Ok(s)
            }
        },
        None => Err(owned("WOLF_SESSION_ID is not set.")),
    }
}

/// The stream settings assumed when Wolf does not know the session: stereo
/// audio and 1920x1080 video at 60 Hz.
pub open spec fn default_session() -> Session {
    Session {
        client_id: None,
        audio_channel_count: 2,
        video_width: 1920,
        video_height: 1080,
        video_refresh_rate: 60,
        client_settings: None,
    }
}

pub fn fallback_session() -> (r: Session)
    ensures
        r == default_session(),
{
    Session {
        client_id: None,
        audio_channel_count: 2,
        video_width: 1920,
        video_height: 1080,
        video_refresh_rate: 60,
        client_settings: None,
    }
}

} // verus!
