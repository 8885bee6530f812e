//! Decisions of the application front: starting, and the messages to the
//! playback poller.
use vstd::prelude::*;
use vstd::string::StringExecFns;

verus! {

/// Commands to the playback poller.
#[derive(Clone, Copy, Debug, PartialEq, Eq, Structural)]
pub enum SpotifyControllerMessage {
    /// Start polling.
    Start,
    /// Stop polling.
    Stop,
    /// End command processing.
    Terminate,
    /// Stop polling if the playback is idle.
    Timeout,
}

/// The answer to a start request: a redirect to authorisation, or a text.
#[derive(Clone, Debug)]
pub enum StartResponses {
    Redirect(String),
    String(String),
}

/// The state of the music service's access token.
#[derive(Clone, Copy, Debug, PartialEq, Eq, Structural)]
pub enum TokenStatus {
    Missing,
    Valid,
    Expired,
}

/// What a start request does.
#[derive(Clone, Debug)]
pub struct StartPlan {
    /// Refresh the token first.
    pub refresh_token: bool,
    /// Start polling and the application loop.
    pub start_polling: bool,
    pub response: StartResponses,
}

/// Starting needs a token: with a valid one polling starts at once, with an
/// expired one after a refresh, and without one the caller is sent to
/// `authorize_url`.
pub fn plan_start(token: TokenStatus, authorize_url: String) -> (r: StartPlan)
    ensures
        r.refresh_token == (token == TokenStatus::Expired),
        r.start_polling == (token != TokenStatus::Missing),
        token == TokenStatus::Missing ==> (r.response is Redirect && r.response->Redirect_0
            == authorize_url),
        token == TokenStatus::Valid ==> (r.response is String && r.response->String_0@ == "start!"@),
        token == TokenStatus::Expired ==> (r.response is String && r.response->String_0@
            == "started with refreshed token!"@),
{
    match token {
        TokenStatus::Valid => StartPlan {
            refresh_token: false,
            start_polling: true,
            response: StartResponses::String(String::from_str("start!")),
        },
        TokenStatus::Expired => StartPlan {
            refresh_token: true,
            start_polling: true,
            response: StartResponses::String(String::from_str("started with refreshed token!")),
        },
        TokenStatus::Missing => StartPlan {
            refresh_token: false,
            start_polling: false,
            response: StartResponses::Redirect(authorize_url),
        },
    }
}

} // verus!
