//! Keys of the rows removed when a role or a member leaves a guild.

use vstd::prelude::*;

use crate::postgres::{db_id, fits_column};

verus! {

/// Removes one role of one guild.
pub const DELETE_ROLE: &'static str = "DELETE FROM roles WHERE id = $1 AND guild_id = $2";

/// Removes one member of one guild.
pub const DELETE_MEMBER: &'static str = "DELETE FROM members WHERE id = $1 AND guild_id = $2";

/// The parameters of `DELETE_ROLE`: the role id, then the guild id.
pub fn role(guild_id: u64, role_id: u64) -> (r: (i64, i64))
    requires
        fits_column(role_id),
        fits_column(guild_id),
    ensures
        r == (role_id as i64, guild_id as i64),
{
    (db_id(role_id), db_id(guild_id))
}

/// The parameters of `DELETE_MEMBER`: the user id, then the guild id.
pub fn member(guild_id: u64, user_id: u64) -> (r: (i64, i64))
    requires
        fits_column(user_id),
        fits_column(guild_id),
    ensures
        r == (user_id as i64, guild_id as i64),
{
    (db_id(user_id), db_id(guild_id))
}

} // verus!
