//! What the watch-tracking service reports, and how it is asked.
use vstd::prelude::*;

use crate::decimal::{decimal_nat, push_decimal_u64};
use crate::settings::opt_view;

verus! {

/// Base of the per-user endpoints of the watch-tracking service.
pub const API_BASE_URL: &'static str = "https://o.jwd.gg/api/users";

/// Base of the service's episode pages.
pub const WATCH_URL_BASE: &'static str = "https://o.jwd.gg/watch";

/// What the service reports of the episode a user is watching: the fields
/// that decide the presence shown for it.
pub struct WatchingData {
    pub title: String,
    pub anime_id: String,
    pub episode_id: String,
    pub episode_number: i32,
    pub episode_title: String,
    pub image: String,
    pub start_timestamp: u64,
    pub end_timestamp: u64,
}

/// The endpoint that reports what `user_id` is watching.
pub open spec fn spec_watching_url(user_id: Seq<char>) -> Seq<char> {
    API_BASE_URL@ + "/"@ + user_id + "/watching"@
}

/// The page of an episode on the service.
pub open spec fn spec_watch_page_url(anime_id: Seq<char>, episode_id: Seq<char>) -> Seq<char> {
    WATCH_URL_BASE@ + "/"@ + anime_id + "/"@ + episode_id
}

/// Builds the endpoint that reports what `user_id` is watching.
pub fn watching_url(user_id: &str) -> (url: String)
    ensures
        url@ == spec_watching_url(user_id@),
        url@ == "https://o.jwd.gg/api/users/"@ + user_id@ + "/watching"@,
{
    proof {
        reveal_strlit("https://o.jwd.gg/api/users");
        reveal_strlit("/");
        reveal_strlit("https://o.jwd.gg/api/users/");
        assert("https://o.jwd.gg/api/users"@ + "/"@ =~= "https://o.jwd.gg/api/users/"@);
    }
    let mut url = String::from_str(API_BASE_URL);
    url.append("/");
    url.append(user_id);
    url.append("/watching");
    url
}

/// Builds the link to an episode's page.
pub fn watch_page_url(anime_id: &str, episode_id: &str) -> (url: String)
    ensures
        url@ == spec_watch_page_url(anime_id@, episode_id@),
        url@ == "https://o.jwd.gg/watch/"@ + anime_id@ + "/"@ + episode_id@,
{
    proof {
        reveal_strlit("https://o.jwd.gg/watch");
        reveal_strlit("/");
        reveal_strlit("https://o.jwd.gg/watch/");
        assert("https://o.jwd.gg/watch"@ + "/"@ =~= "https://o.jwd.gg/watch/"@);
    }
    let mut url = String::from_str(WATCH_URL_BASE);
    url.append("/");
    url.append(anime_id);
    url.append("/");
    url.append(episode_id);
    url
}

/// The reason phrase that the HTTP library knows for a status code, if any.
pub uninterp spec fn canonical_reason(code: u16) -> Option<Seq<char>>;

/// Looks up `reqwest::StatusCode::canonical_reason` for a status code in the
/// range that `StatusCode::from_u16` accepts. Claimed: the result is the
/// phrase named by `canonical_reason(code)`; nothing is claimed of the table.
#[verifier::external_body]
fn status_reason(code: u16) -> (reason: Option<String>)
    requires
        100 <= code <= 999,
    ensures
        opt_view(reason) == canonical_reason(code),
{
    reqwest::StatusCode::from_u16(code).unwrap().canonical_reason().map(str::to_string)
}

/// How a status code is printed: its number, a space, and its reason phrase
/// (or a placeholder for a code without one).
pub open spec fn status_display(code: u16) -> Seq<char> {
    decimal_nat(code as nat) + " "@ + match canonical_reason(code) {
        Some(reason) => reason,
        None => "<unknown status code>"@,
    }
}

/// Whether a status code reports success (the 2xx class).
pub open spec fn is_success(code: u16) -> bool {
    200 <= code < 300
}

/// The error reported for a reply whose status is not a success.
pub open spec fn status_error(code: u16) -> Seq<char> {
    "API request failed with status: "@ + status_display(code)
}

/// Accepts a reply of the service by its status code: `Ok` exactly for a
/// success status, otherwise the error that names the status.
pub fn check_status(code: u16) -> (r: Result<(), String>)
    requires
        100 <= code <= 999,
    ensures
        r is Ok <==> is_success(code),
        r is Ok <==> 200 <= code <= 299,
        r matches Err(e) ==> e@ == status_error(code),
{
    if 200 <= code && code < 300 {
        Ok(())
    } else {
        let mut msg = String::from_str("API request failed with status: ");
        push_decimal_u64(&mut msg, code as u64);
        msg.append(" ");
        match status_reason(code) {
            Some(reason) => msg.append(reason.as_str()),
            None => msg.append("<unknown status code>"),
        }
        Err(msg)
    }
}

/// A status counts as success exactly when it lies in the 2xx class: every
/// 1xx, 3xx, 4xx and 5xx status is refused, and the refusal names the status
/// by its number.
pub proof fn law_only_2xx_succeeds(code: u16)
    ensures
        is_success(code) <==> 200 <= code <= 299,
        500 <= code <= 599 ==> !is_success(code),
        400 <= code <= 499 ==> !is_success(code),
        ({
            let prefix = "API request failed with status: "@;
            let d = decimal_nat(code as nat);
            status_error(code).subrange(0, (prefix.len() + d.len() + 1) as int) == prefix + d
                + " "@
        }),
{
    let prefix = "API request failed with status: "@;
    let d = decimal_nat(code as nat);
    let rest = match canonical_reason(code) {
        Some(reason) => reason,
        None => "<unknown status code>"@,
    };
    reveal_strlit(" ");
    assert(status_error(code) =~= (prefix + d + " "@) + rest);
    assert(status_error(code).subrange(0, (prefix.len() + d.len() + 1) as int) =~= prefix + d
        + " "@);
}

/// Why asking the service failed before its status was seen, or after it,
/// with the underlying error's text.
pub enum FetchError {
    /// The request could not be sent or its reply not received.
    Send(String),
    /// The reply's body could not be decoded.
    Decode(String),
}

/// The message reported for a failed request to the service.
pub open spec fn spec_fetch_message(e: FetchError) -> Seq<char> {
    match e {
        FetchError::Send(d) => "Failed to fetch watching data: "@ + d@,
        FetchError::Decode(d) => "Failed to parse API response: "@ + d@,
    }
}

impl FetchError {
    /// The message reported for this error.
    pub fn message(&self) -> (m: String)
        ensures
            m@ == spec_fetch_message(*self),
            self matches FetchError::Send(d) ==> m@ == "Failed to fetch watching data: "@ + d@,
            self matches FetchError::Decode(d) ==> m@ == "Failed to parse API response: "@ + d@,
    {
        let (prefix, detail): (&str, &String) = match self {
            FetchError::Send(d) => ("Failed to fetch watching data: ", d),
            FetchError::Decode(d) => ("Failed to parse API response: ", d),
        };
        let mut m = String::from_str(prefix);
        m.append(detail.as_str());
        m
    }
}

} // verus!
