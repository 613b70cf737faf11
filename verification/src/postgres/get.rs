//! Reads from the store: whether a guild is unknown yet, and how many
//! recent automod strikes an author has.

use vstd::prelude::*;

verus! {

/// Selects the stored row of a guild, if any.
pub const GUILD_EXISTS: &'static str = "SELECT 1 FROM guilds WHERE id = $1";

/// Counts an author's blocked messages of the last fifteen minutes in a guild.
pub const COUNT_STRIKES: &'static str = "SELECT COUNT(id) FROM messages WHERE author_id = $2 AND guild_id = $1 AND permitted IS FALSE AND created_at >= NOW() - INTERVAL '15 minutes'";

/// What looking for a stored guild came to.
pub enum StoredGuildLookup {
    /// The client's shared values hold no connection pool.
    PoolUnavailable,
    /// The statement returned this many rows.
    Rows(usize),
}

/// Whether the guild is missing from the store. Without a pool the
/// guild counts as known, so that nothing is stored for it.
pub fn is_new_guild(lookup: StoredGuildLookup) -> (r: bool)
    ensures
        r == match lookup {
            StoredGuildLookup::PoolUnavailable => false,
            StoredGuildLookup::Rows(n) => n == 0,
        },
{
    match lookup {
        StoredGuildLookup::PoolUnavailable => false,
        StoredGuildLookup::Rows(n) => n == 0,
    }
}

/// What counting an author's strikes came to.
pub enum StrikeLookup {
    /// The client's shared values hold no connection pool.
    PoolUnavailable,
    /// The statement failed.
    QueryFailed,
    /// The count in the first row, which may be NULL.
    Counted(Option<i64>),
}

/// The number of strikes: the count when there is one, zero otherwise.
pub fn strikes(lookup: StrikeLookup) -> (r: i64)
    ensures
        r == match lookup {
            StrikeLookup::Counted(Some(n)) => n,
            _ => 0,
        },
{
    match lookup {
        StrikeLookup::Counted(Some(n)) => n,
        _ => 0,
    }
}

} // verus!
