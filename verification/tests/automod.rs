use guildbot::twitch::{
    automod, enforcement_request, timeout_step, AutomodAction, AutomodEvent, AutomodMessage,
    AutomodState, Stage, AUTOMOD_GUILD_MESSAGE, REMOVAL_COLOUR, TIMEOUT_COLOUR,
};

fn flagged(log_channel: Option<&str>) -> AutomodMessage {
    AutomodMessage {
        message_id: 555,
        channel_id: 777,
        author_id: 999,
        author_name: "alice".to_string(),
        author_discriminator: 42,
        author_icon_url: "https://cdn/avatar.png".to_string(),
        log_channel: log_channel.map(|c| c.to_string()),
    }
}

fn step(m: &AutomodMessage, s: AutomodState, e: AutomodEvent) -> (AutomodState, AutomodAction) {
    automod(m, s, e)
}

fn to_direct_message(m: &AutomodMessage) -> AutomodState {
    let (s, a) = step(m, AutomodState::new(), AutomodEvent::Verdict { permitted: false });
    assert!(matches!(a, AutomodAction::GatherDetails));
    let (s, a) = step(
        m,
        s,
        AutomodEvent::Details { guild_name: "Lounge".to_string(), safe_content: "bad words".to_string() },
    );
    match a {
        AutomodAction::DirectMessage { text } => assert_eq!(
            text,
            "**Your message in Lounge (<#777>) was blocked by Automod. Please watch what you say next time.**\n```bad words```"
        ),
        _ => panic!("expected a direct message"),
    }
    assert_eq!(s.stage, Stage::DirectMessage);
    s
}

#[test]
fn request_fills_defaults() {
    let r = enforcement_request(123, "hello", "client", None, "token");
    assert_eq!(r.broadcaster_id, "51684790");
    assert_eq!(r.client_id, "client");
    assert_eq!(r.authorization, "Bearer token");
    assert_eq!(r.msg_id, "123");
    assert_eq!(r.user_id, "1");
    assert_eq!(r.msg_text, "hello");
    let r = enforcement_request(1, "", "c", Some("42"), "t");
    assert_eq!(r.broadcaster_id, "42");
}

#[test]
fn permitted_message_finishes_at_once() {
    let m = flagged(Some("1"));
    let (s, a) = step(&m, AutomodState::new(), AutomodEvent::Verdict { permitted: true });
    assert_eq!(s.stage, Stage::Done);
    assert!(matches!(a, AutomodAction::Finish { permitted: true }));
}

#[test]
fn repeat_offender_is_reported_and_timed_out() {
    let m = flagged(Some("123"));
    let s = to_direct_message(&m);
    let (s, a) = step(&m, s, AutomodEvent::DirectMessage { delivered: true });
    match a {
        AutomodAction::Report { channel, colour, title, description, footer, icon_url } => {
            assert_eq!(channel, 123);
            assert_eq!(colour, REMOVAL_COLOUR);
            assert_eq!(title, "User Message Removed");
            assert_eq!(description, "**Channel**: <#777>\n**Message ID**: 555\n```bad words```");
            assert_eq!(footer, "alice#42 - 999");
            assert_eq!(icon_url, "https://cdn/avatar.png");
        },
        _ => panic!("expected a report"),
    }
    let (s, a) = step(&m, s, AutomodEvent::Reported);
    assert!(matches!(a, AutomodAction::CountStrikes));
    let (s, a) = step(&m, s, AutomodEvent::Strikes { count: 2, now: 1_700_000_000 });
    assert!(matches!(a, AutomodAction::TimeOut { until: 1_700_604_800 }));
    let (s, a) = step(&m, s, AutomodEvent::TimedOut { applied: true });
    match a {
        AutomodAction::Report { channel, colour, title, description, .. } => {
            assert_eq!(channel, 123);
            assert_eq!(colour, TIMEOUT_COLOUR);
            assert_eq!(title, "User Timed Out");
            assert_eq!(description, "**3** automod infractions in **15 minutes**.\n**Cleared**: <t:1700604800:R>");
        },
        _ => panic!("expected a report"),
    }
    let (s, a) = step(&m, s, AutomodEvent::Reported);
    assert!(matches!(a, AutomodAction::Delete));
    let (s, a) = step(&m, s, AutomodEvent::Deleted);
    assert_eq!(s.stage, Stage::Done);
    assert!(matches!(a, AutomodAction::Finish { permitted: false }));
}

#[test]
fn unreachable_author_is_warned_in_guild() {
    let m = flagged(None);
    let s = to_direct_message(&m);
    let (s, a) = step(&m, s, AutomodEvent::DirectMessage { delivered: false });
    assert!(matches!(a, AutomodAction::CountStrikes));
    let (s, a) = step(&m, s, AutomodEvent::Strikes { count: 1, now: 0 });
    match a {
        AutomodAction::WarnInGuild { text, lifetime_ms } => {
            assert_eq!(text, AUTOMOD_GUILD_MESSAGE);
            assert_eq!(lifetime_ms, 15000);
        },
        _ => panic!("expected a warning"),
    }
    let (s, a) = step(&m, s, AutomodEvent::Warned);
    assert!(matches!(a, AutomodAction::Delete));
    let (s, a) = step(&m, s, AutomodEvent::Deleted);
    assert_eq!(s.stage, Stage::Done);
    assert!(matches!(a, AutomodAction::Finish { permitted: false }));
}

#[test]
fn failed_timeout_is_not_reported() {
    let m = flagged(Some("5"));
    let s = to_direct_message(&m);
    let (s, _) = step(&m, s, AutomodEvent::DirectMessage { delivered: true });
    let (s, _) = step(&m, s, AutomodEvent::Reported);
    let (s, _) = step(&m, s, AutomodEvent::Strikes { count: 7, now: 10 });
    let (s, a) = step(&m, s, AutomodEvent::TimedOut { applied: false });
    assert!(matches!(a, AutomodAction::Delete));
    assert_eq!(s.stage, Stage::Deletion);
}

#[test]
fn log_channel_must_be_an_id() {
    assert!(!flagged(Some("not a channel")).has_valid_log_channel());
    assert!(flagged(Some("123")).has_valid_log_channel());
    assert!(flagged(None).has_valid_log_channel());
}

#[test]
fn unrepresentable_timeout_halts() {
    let m = flagged(None);
    let s = to_direct_message(&m);
    let (s, _) = step(&m, s, AutomodEvent::DirectMessage { delivered: true });
    let (_, a) = step(&m, s, AutomodEvent::Strikes { count: 2, now: i64::MAX - 10 });
    assert!(matches!(a, AutomodAction::Halt));
    let (s, a) = timeout_step(AutomodState::new(), None);
    assert!(matches!(a, AutomodAction::Halt));
    assert_eq!(s.stage, Stage::Halted);
    let (s, a) = timeout_step(AutomodState::new(), Some(99));
    assert!(matches!(a, AutomodAction::TimeOut { until: 99 }));
    assert_eq!(s.timeout_until, 99);
}

#[test]
fn timeout_end_at_the_edge_of_chrono_range() {
    let m = flagged(None);
    let start = |now: i64| {
        let s = to_direct_message(&m);
        let (s, _) = step(&m, s, AutomodEvent::DirectMessage { delivered: true });
        step(&m, s, AutomodEvent::Strikes { count: 2, now }).1
    };
    let last = guildbot::twitch::LATEST_SECOND - 7 * 86400;
    assert!(matches!(start(last), AutomodAction::TimeOut { until } if until == guildbot::twitch::LATEST_SECOND));
    assert!(matches!(start(last + 1), AutomodAction::Halt));
}
