//! Failures of Wolf API calls.

use vstd::prelude::*;

verus! {

/// Why a Wolf API call failed. Transport and decode failures carry the
/// underlying error's message; HTTP failures carry the status code.
#[derive(Clone, Debug, PartialEq, Eq)]
pub enum ApiError {
    Timeout,
    Transport(String),
    Status { status: u16, body: String },
    Wolf { status: u16, message: String },
    Decode(String),
    EventDecode(String),
}

impl ApiError {
    /// Maps a failed transfer to an error: a timeout, a body that could not be
    /// decoded, or any other transport failure, in that order.
    pub fn from_transfer(timed_out: bool, undecodable: bool, message: String) -> (r: ApiError)
        ensures
            timed_out ==> r == ApiError::Timeout,
            !timed_out && undecodable ==> r == ApiError::Decode(message),
            !timed_out && !undecodable ==> r == ApiError::Transport(message),
    {
        if timed_out {
            ApiError::Timeout
        } else if undecodable {
            ApiError::Decode(message)
        } else {
            ApiError::Transport(message)
        }
    }

    /// The error for an event payload that could not be decoded.
    pub fn from_event_decode(message: String) -> (r: ApiError)
        ensures
            r == ApiError::EventDecode(message),
    {
        ApiError::EventDecode(message)
    }
}

} // verus!
