//! The guild query served over GraphQL: what a stored guild row exposes,
//! and what the `guild(id)` query answers for each outcome of its lookup.

use vstd::prelude::*;

verus! {

/// The Discord epoch (2015-01-01T00:00:00Z) in Unix milliseconds.
pub const DISCORD_EPOCH_MS: i64 = 1420070400000;

/// The creation time, in Unix milliseconds, encoded in a Discord snowflake:
/// the bits above the low 22 count milliseconds since the Discord epoch.
pub open spec fn snowflake_created_at(id: int) -> int {
    id / 4194304 + DISCORD_EPOCH_MS
}

/// A stored guild as the GraphQL API shows it.
pub struct Guild {
    pub id: i64,
    pub name: String,
}

impl Guild {
    /// The guild's snowflake.
    pub fn id(&self) -> (r: i64)
        ensures
            r == self.id,
    {
        self.id
    }

    /// When the guild was created, in Unix milliseconds.
    pub fn created_at(&self) -> (r: i64)
        ensures
            r == snowflake_created_at(self.id as int),
    {
        let id = self.id;
        let shifted = id >> 22u32;
        assert(shifted * 4194304 <= id && id < shifted * 4194304 + 4194304) by (bit_vector)
            requires
                shifted == id >> 22u32,
        ;
        assert(-2199023255552 <= shifted < 2199023255552) by (bit_vector)
            requires
                shifted == id >> 22u32,
        ;
        assert(shifted as int == id as int / 4194304) by (nonlinear_arith)
            requires
                shifted * 4194304 <= id,
                id < shifted * 4194304 + 4194304,
        ;
        shifted + DISCORD_EPOCH_MS
    }

    /// The guild's name.
    pub fn name(&self) -> (r: &str)
        ensures
            r@ == self.name@,
    {
        self.name.as_str()
    }
}

/// Law: a later snowflake never encodes an earlier creation time.
pub proof fn created_at_is_monotonic(a: i64, b: i64)
    requires
        a <= b,
    ensures
        snowflake_created_at(a as int) <= snowflake_created_at(b as int),
{
    vstd::arithmetic::div_mod::lemma_div_is_ordered(a as int, b as int, 4194304);
}


/// The statement that looks a guild up by its id.
pub const GUILD_BY_ID_SQL: &'static str = "SELECT id, name FROM guilds WHERE id = $1";

/// The root of the GraphQL queries.
pub struct QueryRoot;

/// The root of the GraphQL mutations; it offers none.
pub struct MutationRoot;

/// The root of the GraphQL subscriptions; it offers none.
pub struct SubscriptionRoot;

/// What looking a guild up in the database came to.
pub enum GuildLookup {
    /// No connection could be taken from the pool.
    PoolUnavailable,
    /// The statement failed.
    QueryFailed,
    /// The rows the statement returned, in order.
    Rows(Vec<Guild>),
}

/// Why the `guild` query has no answer.
#[derive(PartialEq, Eq, Structural, Debug)]
pub enum GuildQueryError {
    PoolUnavailable,
    QueryFailed,
    NotFound,
}

impl GuildQueryError {
    /// The message the GraphQL error carries.
    pub fn message(&self) -> (r: String)
        ensures
            r@ == match self {
                GuildQueryError::PoolUnavailable => "Fatal db pool error"@,
                GuildQueryError::QueryFailed => "Failed to fetch guild"@,
                GuildQueryError::NotFound => "Guild not found"@,
            },
    {
        match self {
            GuildQueryError::PoolUnavailable => String::from_str("Fatal db pool error"),
            GuildQueryError::QueryFailed => String::from_str("Failed to fetch guild"),
            GuildQueryError::NotFound => String::from_str("Guild not found"),
        }
    }
}

impl QueryRoot {
    /// Answers the `guild(id)` query from the outcome of its lookup: the
    /// first row when there is one.
    pub fn guild(&self, lookup: GuildLookup) -> (r: Result<Guild, GuildQueryError>)
        ensures
            r == match lookup {
                GuildLookup::PoolUnavailable => Err(GuildQueryError::PoolUnavailable),
                GuildLookup::QueryFailed => Err(GuildQueryError::QueryFailed),
                GuildLookup::Rows(rows) => if rows.len() == 0 {
                    Err(GuildQueryError::NotFound)
                } else {
                    Ok(rows@[0])
                },
            },
    {
        match lookup {
            GuildLookup::PoolUnavailable => Err(GuildQueryError::PoolUnavailable),
            GuildLookup::QueryFailed => Err(GuildQueryError::QueryFailed),
            GuildLookup::Rows(mut rows) => {
                if rows.len() == 0 {
                    Err(GuildQueryError::NotFound)
                } else {
                    Ok(rows.remove(0))
                }
            },
        }
    }
}


/// Law: the creation time counts the whole milliseconds in the id's upper
/// bits: the id lies in the block of 2^22 ids that starts at that count.
pub proof fn created_at_brackets_id(id: i64)
    ensures
        (snowflake_created_at(id as int) - 1420070400000) * 4194304 <= id,
        id < (snowflake_created_at(id as int) - 1420070400000 + 1) * 4194304,
{
    vstd::arithmetic::div_mod::lemma_fundamental_div_mod(id as int, 4194304);
    vstd::arithmetic::div_mod::lemma_mod_bound(id as int, 4194304);
}

} // verus!
