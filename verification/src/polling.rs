//! When the app asks the service again what the user is watching.
use vstd::prelude::*;

use crate::settings::Settings;
use crate::watching::{spec_watching_url, watching_url};

verus! {

/// How long the app waits between two requests to the service, in milliseconds.
pub const POLL_INTERVAL_MS: u128 = 15000;

/// How often the app looks whether a request is due, in milliseconds.
pub const POLL_TICK_MS: u64 = 1000;

/// Whether a request is due, given the time since the last one (`None` when
/// that time could not be read, in which case a request is due).
pub open spec fn spec_should_poll(elapsed_ms: Option<u128>) -> bool {
    match elapsed_ms {
        Some(ms) => ms >= POLL_INTERVAL_MS,
        None => true,
    }
}

/// Decides whether a request is due.
pub fn should_poll(elapsed_ms: Option<u128>) -> (due: bool)
    ensures
        due == spec_should_poll(elapsed_ms),
        due <==> (elapsed_ms is None || elapsed_ms->0 >= 15000),
{
    match elapsed_ms {
        Some(ms) => ms >= POLL_INTERVAL_MS,
        None => true,
    }
}

/// Where to ask for a refresh: nowhere without a user id, else the user's
/// watching endpoint.
pub fn refresh_url(settings: &Settings) -> (url: Option<String>)
    ensures
        settings.user_id is None <==> url is None,
        settings.user_id matches Some(id) ==> (url matches Some(u) && u@ == spec_watching_url(id@)),
{
    match &settings.user_id {
        Some(id) => Some(watching_url(id.as_str())),
        None => None,
    }
}

/// A request stays due as time passes; the first look after start, which
/// counts a full interval since the last request, finds one due; and a look
/// less than an interval after a request does not.
pub proof fn law_poll_timing(earlier: u128, later: u128)
    requires
        earlier <= later,
    ensures
        spec_should_poll(Some(earlier)) ==> spec_should_poll(Some(later)),
        spec_should_poll(Some(POLL_INTERVAL_MS)),
        POLL_INTERVAL_MS == 15000,
        spec_should_poll(None),
        earlier < POLL_INTERVAL_MS ==> !spec_should_poll(Some(earlier)),
{
}

} // verus!
