use guildbot::graphql::{Guild, GuildLookup, GuildQueryError, QueryRoot, DISCORD_EPOCH_MS};

fn guild(id: i64, name: &str) -> Guild {
    Guild { id, name: name.to_string() }
}

#[test]
fn created_at_reads_the_snowflake() {
    assert_eq!(guild(0, "a").created_at(), DISCORD_EPOCH_MS);
    assert_eq!(guild(175928847299117063, "a").created_at(), 1462015105796);
    assert_eq!(guild(4194304, "a").created_at(), DISCORD_EPOCH_MS + 1);
    assert_eq!(guild(-1, "a").created_at(), DISCORD_EPOCH_MS - 1);
    assert_eq!(guild(i64::MAX, "a").created_at(), (i64::MAX >> 22) + 1420070400000);
    assert_eq!(guild(i64::MIN, "a").created_at(), (i64::MIN >> 22) + 1420070400000);
}

#[test]
fn created_at_is_monotonic_on_values() {
    let ids = [i64::MIN, -4194305, -1, 0, 4194303, 4194304, 175928847299117063, i64::MAX];
    for w in ids.windows(2) {
        assert!(guild(w[0], "").created_at() <= guild(w[1], "").created_at());
    }
}

#[test]
fn getters_return_the_fields() {
    let g = guild(42, "Lounge");
    assert_eq!(g.id(), 42);
    assert_eq!(g.name(), "Lounge");
}

#[test]
fn guild_query_answers_first_row() {
    let rows = vec![guild(1, "first"), guild(2, "second")];
    let r = QueryRoot.guild(GuildLookup::Rows(rows)).unwrap();
    assert_eq!(r.id, 1);
    assert_eq!(r.name, "first");
}

#[test]
fn guild_query_errors() {
    assert_eq!(QueryRoot.guild(GuildLookup::Rows(vec![])).err(), Some(GuildQueryError::NotFound));
    assert_eq!(QueryRoot.guild(GuildLookup::PoolUnavailable).err(), Some(GuildQueryError::PoolUnavailable));
    assert_eq!(QueryRoot.guild(GuildLookup::QueryFailed).err(), Some(GuildQueryError::QueryFailed));
    assert_eq!(GuildQueryError::PoolUnavailable.message(), "Fatal db pool error");
    assert_eq!(GuildQueryError::QueryFailed.message(), "Failed to fetch guild");
    assert_eq!(GuildQueryError::NotFound.message(), "Guild not found");
}
