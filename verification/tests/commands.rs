use guildbot::commands::{help, json_listing, kill, limited_query, ping, shard_latency, sql};
use guildbot::mention::tim;

#[test]
fn help_says_go_to_bed() {
    assert_eq!(help(), "Go to bed");
}

#[test]
fn ping_reports_latency() {
    assert_eq!(ping(1000, 958), "42ms");
    assert_eq!(ping(0, 5), "-5ms");
}

#[test]
fn kill_depends_on_the_manager() {
    let k = kill(true);
    assert_eq!(k.reply, "Goodbye :(");
    assert!(k.shut_down);
    let k = kill(false);
    assert_eq!(k.reply, "There was a problem getting the shard manager");
    assert!(!k.shut_down);
}

#[test]
fn shard_latency_counts_from_one() {
    assert_eq!(shard_latency(0, Some(42)), "Shard 1 - 42ms");
    assert_eq!(shard_latency(3, Some(0)), "Shard 4 - 0ms");
    assert_eq!(shard_latency(0, None), "Too soon to measure.");
}

#[test]
fn json_listing_wraps_rows() {
    let rows = vec!["{\"id\":1}".to_string(), "{\"id\":2}".to_string()];
    assert_eq!(json_listing(&rows), "```json\n{\"id\":1}\n{\"id\":2}\n\n```");
    assert_eq!(json_listing(&vec![]), "```json\n\n```");
}

#[test]
fn sql_strips_code_fences() {
    assert_eq!(
        sql("```sql\nSELECT * FROM guilds\n```").unwrap(),
        "SELECT row_to_json(t, false)::TEXT FROM (SELECT * FROM guilds LIMIT 10) t"
    );
    assert_eq!(
        sql("```SELECT 1```").unwrap(),
        "SELECT row_to_json(t, false)::TEXT FROM (SELECT 1 LIMIT 10) t"
    );
    assert_eq!(
        sql("  SELECT name FROM roles ").unwrap(),
        "SELECT row_to_json(t, false)::TEXT FROM (SELECT name FROM roles LIMIT 10) t"
    );
}

#[test]
fn limited_query_trims() {
    assert_eq!(limited_query("\n SELECT 1 \n"), "SELECT row_to_json(t, false)::TEXT FROM (SELECT 1 LIMIT 10) t");
}

#[test]
fn tim_is_taunted() {
    assert_eq!(
        tim(&vec![1, 83281345949728768]).as_deref(),
        Some("Imagine pinging Tim... <:dead:890777799537885255>")
    );
    assert_eq!(tim(&vec![1, 2]), None);
    assert_eq!(tim(&vec![]), None);
}

#[test]
fn shutdown_announces_first() {
    let (replies, shut) = guildbot::commands::shutdown(true);
    assert_eq!(replies, vec!["Shutting down!".to_string()]);
    assert!(shut);
    let (replies, shut) = guildbot::commands::shutdown(false);
    assert_eq!(replies, vec!["Shutting down!".to_string(), "There was a problem getting the shard manager".to_string()]);
    assert!(!shut);
}
