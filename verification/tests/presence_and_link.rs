use watch_presence::polling::{refresh_url, should_poll, POLL_INTERVAL_MS};
use watch_presence::presence::{plan_activity, plan_presence, ActivityKind, PresenceUpdate};
use watch_presence::rpc_link::{AfterActivity, InitStep, RpcLink};
use watch_presence::settings::Settings;
use watch_presence::watching::WatchingData;

fn all_on() -> Settings {
    Settings::everything_shown(Some("u1".to_string()))
}

fn watching() -> WatchingData {
    WatchingData {
        title: "Frieren".to_string(),
        anime_id: "frieren".to_string(),
        episode_id: "e12".to_string(),
        episode_number: 12,
        episode_title: "A Real Hero".to_string(),
        image: "https://img.example/frieren.png".to_string(),
        start_timestamp: 1_700_000_000_000,
        end_timestamp: 1_700_001_440_000,
    }
}

#[test]
fn full_activity_when_everything_shown() {
    let p = plan_activity(&all_on(), &watching());
    assert_eq!(p.kind, ActivityKind::Watching);
    assert_eq!(p.details.as_deref(), Some("Frieren"));
    assert_eq!(p.state.as_deref(), Some("Episode 12: A Real Hero"));
    assert_eq!(p.timestamps, Some((1_700_000_000_000, 1_700_001_440_000)));
    assert_eq!(p.large_image, "https://img.example/frieren.png");
    assert_eq!(p.large_text, "Frieren");
    assert_eq!(p.button_label, "Watch Now");
    assert_eq!(p.button_url, "https://o.jwd.gg/watch/frieren/e12");
}

#[test]
fn episode_line_follows_switches() {
    let mut s = all_on();
    s.show_episode_title = false;
    assert_eq!(
        plan_activity(&s, &watching()).state.as_deref(),
        Some("Episode 12")
    );
    s.show_episode_title = true;
    s.show_episode_number = false;
    assert_eq!(
        plan_activity(&s, &watching()).state.as_deref(),
        Some("A Real Hero")
    );
    s.show_episode_title = false;
    assert_eq!(plan_activity(&s, &watching()).state, None);
}

#[test]
fn negative_episode_number_is_printed_with_sign() {
    let mut w = watching();
    w.episode_number = -3;
    let mut s = all_on();
    s.show_episode_title = false;
    assert_eq!(plan_activity(&s, &w).state.as_deref(), Some("Episode -3"));
}

#[test]
fn hidden_title_and_time() {
    let mut s = all_on();
    s.show_anime_title = false;
    s.show_timestamp = false;
    let p = plan_activity(&s, &watching());
    assert_eq!(p.details, None);
    assert_eq!(p.timestamps, None);
    // The picture's hover text is the title whatever the switches say.
    assert_eq!(p.large_text, "Frieren");
}

#[test]
fn empty_texts_are_left_out() {
    let mut w = watching();
    w.title = String::new();
    w.episode_title = String::new();
    let mut s = all_on();
    s.show_episode_number = false;
    let p = plan_activity(&s, &w);
    assert_eq!(p.details, None);
    assert_eq!(p.state, None);
}

#[test]
fn large_timestamps_wrap_as_signed() {
    let mut w = watching();
    w.start_timestamp = u64::MAX;
    w.end_timestamp = 1u64 << 63;
    let p = plan_activity(&all_on(), &w);
    assert_eq!(p.timestamps, Some((-1, i64::MIN)));
}

#[test]
fn presence_decision() {
    let mut s = all_on();
    assert!(matches!(plan_presence(&s, &None), PresenceUpdate::Idle));
    assert!(matches!(
        plan_presence(&s, &Some(watching())),
        PresenceUpdate::Show(_)
    ));
    s.enabled = false;
    assert!(matches!(
        plan_presence(&s, &Some(watching())),
        PresenceUpdate::Disabled
    ));
    assert!(matches!(plan_presence(&s, &None), PresenceUpdate::Disabled));
}

#[test]
fn link_connects_once() {
    let mut link = RpcLink::new();
    assert!(!link.should_clear());
    assert!(matches!(link.init_step(), InitStep::CreateClient));
    link.client_created();
    assert!(link.has_client());
    assert!(matches!(link.init_step(), InitStep::Connect));
    let r = link.connect_finished(Err("failed to find IPC socket".to_string()));
    assert_eq!(
        r.unwrap_err(),
        "Failed to connect to Discord RPC: failed to find IPC socket"
    );
    assert!(matches!(link.init_step(), InitStep::Connect));
    assert!(link.connect_finished(Ok(())).is_ok());
    assert!(link.is_connected());
    assert!(matches!(link.init_step(), InitStep::Ready));
    assert!(link.should_clear());
    assert!(link.should_close());
}

#[test]
fn link_close() {
    let mut link = RpcLink::new();
    link.client_created();
    link.connect_finished(Ok(())).unwrap();
    link.close_finished(false);
    assert!(link.is_connected());
    link.close_finished(true);
    assert!(!link.is_connected());
    assert!(!link.should_clear());
    assert!(!link.should_close());
    assert!(matches!(link.init_step(), InitStep::Connect));
}

#[test]
fn polling_schedule() {
    assert!(should_poll(None));
    assert!(should_poll(Some(POLL_INTERVAL_MS)));
    assert!(should_poll(Some(60_000)));
    assert!(!should_poll(Some(14_999)));
    assert!(!should_poll(Some(0)));
}

#[test]
fn refresh_needs_a_user() {
    let mut s = all_on();
    assert_eq!(
        refresh_url(&s).as_deref(),
        Some("https://o.jwd.gg/api/users/u1/watching")
    );
    s.user_id = None;
    assert_eq!(refresh_url(&s), None);
}

#[test]
fn failed_activity_asks_for_one_reconnect() {
    let mut link = RpcLink::new();
    link.client_created();
    link.connect_finished(Ok(())).unwrap();
    assert_eq!(link.activity_sent(true), AfterActivity::Done);
    assert_eq!(link.activity_sent(false), AfterActivity::Reconnect);
    assert!(link.reconnect_finished(false).is_ok());
    assert!(link.reconnect_finished(true).is_ok());
    // The link still counts as connected after a failed update.
    assert!(link.is_connected());
    assert!(matches!(link.init_step(), InitStep::Ready));
}

#[test]
fn activity_kind_is_watching_whatever_the_switches() {
    let mut s = all_on();
    s.show_anime_title = false;
    s.show_episode_number = false;
    s.show_episode_title = false;
    s.show_timestamp = false;
    assert_eq!(plan_activity(&s, &watching()).kind, ActivityKind::Watching);
}
