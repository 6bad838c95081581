//! What the Discord presence shows for what the user is watching.
use vstd::prelude::*;

use crate::decimal::{decimal_int, push_decimal_i64};
use crate::settings::{opt_view, Settings};
use crate::watching::{spec_watch_page_url, watch_page_url, WatchingData, WATCH_URL_BASE};

verus! {

/// The label of the button that links to the episode.
pub const WATCH_BUTTON_LABEL: &'static str = "Watch Now";

/// The kind of activity Discord shows ("Playing", "Watching", ...).
#[derive(PartialEq, Eq, Structural, Clone, Copy, Debug)]
pub enum ActivityKind {
    Playing,
    Listening,
    Watching,
    Competing,
}

/// The activity to show, in plain values: what is `None` is left out.
pub struct ActivityPlan {
    /// The kind of activity.
    pub kind: ActivityKind,
    /// The first line (the series title).
    pub details: Option<String>,
    /// The second line (the episode).
    pub state: Option<String>,
    /// Start and end of the episode, for the progress bar.
    pub timestamps: Option<(i64, i64)>,
    /// The large picture, and the text shown when hovering it.
    pub large_image: String,
    pub large_text: String,
    /// The one button: its label and where it leads.
    pub button_label: String,
    pub button_url: String,
}

/// What to do with the presence after the settings or the watching data changed.
pub enum PresenceUpdate {
    /// The presence is switched off: clear it, without connecting.
    Disabled,
    /// Nothing is being watched: connect if need be, then clear it.
    Idle,
    /// Connect if need be, then show this activity.
    Show(ActivityPlan),
}

/// The first line's text: the series title when it may be shown.
pub open spec fn details_text(settings: Settings, w: WatchingData) -> Seq<char> {
    if settings.show_anime_title {
        w.title@
    } else {
        Seq::empty()
    }
}

/// The second line's text: the episode number and title, as far as they may be shown.
pub open spec fn state_text(settings: Settings, w: WatchingData) -> Seq<char> {
    if settings.show_episode_number && settings.show_episode_title {
        "Episode "@ + decimal_int(w.episode_number as int) + ": "@ + w.episode_title@
    } else if settings.show_episode_number {
        "Episode "@ + decimal_int(w.episode_number as int)
    } else if settings.show_episode_title {
        w.episode_title@
    } else {
        Seq::empty()
    }
}

/// A line is left out when its text is empty.
pub open spec fn line(text: Seq<char>) -> Option<Seq<char>> {
    if text.len() == 0 {
        None
    } else {
        Some(text)
    }
}

/// The activity plan shows exactly what `settings` allow of `w`.
pub open spec fn plan_matches(p: ActivityPlan, settings: Settings, w: WatchingData) -> bool {
    &&& opt_view(p.details) == line(details_text(settings, w))
    &&& opt_view(p.state) == line(state_text(settings, w))
    &&& p.timestamps == (if settings.show_timestamp {
        Some((w.start_timestamp as i64, w.end_timestamp as i64))
    } else {
        None
    })
    &&& p.large_image@ == w.image@
    &&& p.large_text@ == w.title@
    &&& p.kind == ActivityKind::Watching
    &&& p.button_label@ == WATCH_BUTTON_LABEL@
    &&& p.button_url@ == spec_watch_page_url(w.anime_id@, w.episode_id@)
}

fn nonempty(s: String) -> (r: Option<String>)
    ensures
        opt_view(r) == line(s@),
{
    if s.as_str().is_empty() {
        None
    } else {
        Some(s)
    }
}

fn episode_label(n: i32) -> (s: String)
    ensures
        s@ == "Episode "@ + decimal_int(n as int),
{
    let mut s = String::from_str("Episode ");
    push_decimal_i64(&mut s, n as i64);
    s
}

/// Lays out the activity for `w` as `settings` allow.
pub fn plan_activity(settings: &Settings, w: &WatchingData) -> (p: ActivityPlan)
    ensures
        plan_matches(p, *settings, *w),
        p.timestamps is Some <==> settings.show_timestamp,
        settings.show_timestamp ==> p.timestamps == Some(
            (w.start_timestamp as i64, w.end_timestamp as i64),
        ),
        p.large_image@ == w.image@,
        p.large_text@ == w.title@,
        p.kind == ActivityKind::Watching,
{
    let details = if settings.show_anime_title {
        w.title.clone()
    } else {
        String::new()
    };
    let state = if settings.show_episode_number && settings.show_episode_title {
        let mut s = episode_label(w.episode_number);
        s.append(": ");
        s.append(w.episode_title.as_str());
        s
    } else if settings.show_episode_number {
        episode_label(w.episode_number)
    } else if settings.show_episode_title {
        w.episode_title.clone()
    } else {
        String::new()
    };
    let timestamps = if settings.show_timestamp {
        Some((w.start_timestamp as i64, w.end_timestamp as i64))
    } else {
        None
    };
    ActivityPlan {
        kind: ActivityKind::Watching,
        details: nonempty(details),
        state: nonempty(state),
        timestamps,
        large_image: w.image.clone(),
        large_text: w.title.clone(),
        button_label: String::from_str(WATCH_BUTTON_LABEL),
        button_url: watch_page_url(w.anime_id.as_str(), w.episode_id.as_str()),
    }
}

/// Decides the presence: cleared without connecting when switched off,
/// cleared when nothing is watched, and otherwise the activity for what is
/// watched.
pub fn plan_presence(settings: &Settings, watching: &Option<WatchingData>) -> (u: PresenceUpdate)
    ensures
        !settings.enabled ==> u is Disabled,
        settings.enabled && watching is None ==> u is Idle,
        settings.enabled && watching is Some ==> (u matches PresenceUpdate::Show(p) && plan_matches(
            p,
            *settings,
            watching->0,
        )),
{
    if !settings.enabled {
        return PresenceUpdate::Disabled;
    }
    match watching {
        Some(w) => PresenceUpdate::Show(plan_activity(settings, w)),
        None => PresenceUpdate::Idle,
    }
}

/// What the settings hide is never shown: no series title line without
/// its switch, no episode line with both episode switches off, no progress
/// bar without the timestamp switch; and with both episode switches on the
/// episode line is always there.
pub proof fn law_hidden_parts_stay_hidden(p: ActivityPlan, settings: Settings, w: WatchingData)
    requires
        plan_matches(p, settings, w),
    ensures
        !settings.show_anime_title ==> p.details is None,
        !settings.show_episode_number && !settings.show_episode_title ==> p.state is None,
        !settings.show_timestamp ==> p.timestamps is None,
        settings.show_episode_number ==> p.state is Some,
{
    if settings.show_episode_number {
        let n = decimal_int(w.episode_number as int);
        if settings.show_episode_title {
            assert(state_text(settings, w) == "Episode "@ + n + ": "@ + w.episode_title@);
            assert(state_text(settings, w).len() >= "Episode "@.len());
        } else {
            assert(state_text(settings, w).len() >= "Episode "@.len());
        }
        assert("Episode "@.len() > 0) by {
            reveal_strlit("Episode ");
        }
    }
}

/// The parts that no switch governs are always there and always the same:
/// the cover image is the episode's image, its hover text the series title,
/// the kind is Watching, and the button leads to the episode's page.
pub proof fn law_fixed_parts(p: ActivityPlan, settings: Settings, w: WatchingData)
    requires
        plan_matches(p, settings, w),
    ensures
        p.large_image@ == w.image@,
        p.large_text@ == w.title@,
        p.kind == ActivityKind::Watching,
        p.button_label@ == WATCH_BUTTON_LABEL@,
        p.button_url@ == WATCH_URL_BASE@ + "/"@ + w.anime_id@ + "/"@ + w.episode_id@,
{
}

/// The progress bar follows the timestamp switch alone: it is there exactly
/// when that switch is on, and then spans the episode's start and end.
pub proof fn law_timestamps_follow_their_switch(p: ActivityPlan, settings: Settings, w: WatchingData)
    requires
        plan_matches(p, settings, w),
    ensures
        p.timestamps is Some <==> settings.show_timestamp,
        settings.show_timestamp ==> p.timestamps == Some(
            (w.start_timestamp as i64, w.end_timestamp as i64),
        ),
{
}

/// Two plans for the same episode under any two settings agree on every part
/// whose switch agrees: the cover, hover text, kind and button always; the
/// progress bar when the timestamp switches agree; the first line when the
/// title switches agree; the second line when both episode switches agree.
pub proof fn law_parts_depend_only_on_their_switches(
    p1: ActivityPlan,
    s1: Settings,
    p2: ActivityPlan,
    s2: Settings,
    w: WatchingData,
)
    requires
        plan_matches(p1, s1, w),
        plan_matches(p2, s2, w),
    ensures
        p1.large_image@ == p2.large_image@,
        p1.large_text@ == p2.large_text@,
        p1.kind == p2.kind,
        p1.button_label@ == p2.button_label@,
        p1.button_url@ == p2.button_url@,
        s1.show_timestamp == s2.show_timestamp ==> p1.timestamps == p2.timestamps,
        s1.show_anime_title == s2.show_anime_title ==> opt_view(p1.details) == opt_view(p2.details),
        s1.show_episode_number == s2.show_episode_number && s1.show_episode_title
            == s2.show_episode_title ==> opt_view(p1.state) == opt_view(p2.state),
{
}

/// The first line is the series title when its switch is on and the title is
/// not empty, and is absent otherwise.
pub proof fn law_first_line(p: ActivityPlan, settings: Settings, w: WatchingData)
    requires
        plan_matches(p, settings, w),
    ensures
        opt_view(p.details) == (if settings.show_anime_title && w.title@.len() > 0 {
            Some(w.title@)
        } else {
            None
        }),
{
}

/// The second line: with the number switch on it starts with "Episode " and
/// the number, followed by ": " and the episode title when that switch is on
/// too; with only the title switch on it is the episode title (absent when
/// that is empty); with both off it is absent.
pub proof fn law_second_line(p: ActivityPlan, settings: Settings, w: WatchingData)
    requires
        plan_matches(p, settings, w),
    ensures
        settings.show_episode_number && settings.show_episode_title ==> opt_view(p.state) == Some(
            "Episode "@ + decimal_int(w.episode_number as int) + ": "@ + w.episode_title@,
        ),
        settings.show_episode_number && !settings.show_episode_title ==> opt_view(p.state)
            == Some("Episode "@ + decimal_int(w.episode_number as int)),
        !settings.show_episode_number && settings.show_episode_title ==> opt_view(p.state) == (
        if w.episode_title@.len() > 0 {
            Some(w.episode_title@)
        } else {
            None
        }),
        !settings.show_episode_number && !settings.show_episode_title ==> p.state is None,
{
    assert("Episode "@.len() > 0) by {
        reveal_strlit("Episode ");
    }
}

} // verus!
