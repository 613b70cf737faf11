use guildbot::handler::{GuildCreateStep, Handler, MemberPager, MessageRoute};

#[test]
fn ready_shows_short_hash() {
    assert_eq!(Handler.ready("0123456789abcdef0123456789abcdef01234567\n"), "Version: 0123456");
    assert_eq!(Handler.ready("abcdefg"), "Version: abcdefg");
}

#[test]
fn message_routes() {
    assert_eq!(Handler.message(false, false), MessageRoute::Ignore);
    assert_eq!(Handler.message(false, true), MessageRoute::Ignore);
    assert_eq!(Handler.message(true, true), MessageRoute::LogOnly);
    assert_eq!(Handler.message(true, false), MessageRoute::Moderate);
}

#[test]
fn after_verdict_follows_it() {
    let a = Handler.after_verdict(true);
    assert!(a.store_permitted && a.check_mentions);
    let a = Handler.after_verdict(false);
    assert!(!a.store_permitted && !a.check_mentions);
}

#[test]
fn guild_create_steps() {
    assert_eq!(Handler.guild_create(true, None), GuildCreateStep::Store);
    assert_eq!(Handler.guild_create(false, None), GuildCreateStep::LookUp);
    assert_eq!(Handler.guild_create(false, Some(true)), GuildCreateStep::Store);
    assert_eq!(Handler.guild_create(false, Some(false)), GuildCreateStep::Skip);
}

#[test]
fn member_pages_follow_the_last_id() {
    let mut pager = MemberPager::new();
    assert_eq!(pager.next_page(), Some(0));
    assert!(pager.page_fetched(Some(&vec![5, 9, 12])));
    assert_eq!(pager.next_page(), Some(12));
    assert!(pager.page_fetched(Some(&vec![])));
    assert_eq!(pager.next_page(), None);
}

#[test]
fn member_paging_stops_on_failure() {
    let mut pager = MemberPager::new();
    assert!(!pager.page_fetched(None));
    assert_eq!(pager.next_page(), None);
}
