//! What the bot keeps in PostgreSQL: the schema, and the rows and keys it
//! derives from Discord objects.

use vstd::prelude::*;

pub mod delete;
pub mod get;
pub mod store;

verus! {

/// The statements that create the tables the bot writes to.
pub const MIGRATIONS: &'static str = "CREATE TABLE IF NOT EXISTS public.guilds (
        id int8 NOT NULL,
        name text,
        owner_id int8,
        region varchar(32),
        splash varchar(255),
        banner varchar(255),
        icon varchar(255),
        features _varchar DEFAULT '{}'::character varying[],
        vanity varchar(255),
        description text,
        PRIMARY KEY (id)
      );

      CREATE TABLE IF NOT EXISTS public.members (
        id int8 NOT NULL,
        guild_id int8 NOT NULL,
        avatar varchar(255),
        bot bool,
        name varchar(255),
        discriminator int2,
        roles _int8 NOT NULL DEFAULT '{}'::bigint[],
        nick varchar(255),
        PRIMARY KEY (id,guild_id)
      );

      CREATE TABLE IF NOT EXISTS public.messages (
        id int8 NOT NULL,
        guild_id int8 NOT NULL,
        channel_id int8 NOT NULL,
        author_id int8 NOT NULL,
        content text NOT NULL,
        permitted bool NOT NULL,
        PRIMARY KEY (id,guild_id,channel_id)
      );

      CREATE TABLE IF NOT EXISTS public.roles (
        id int8 NOT NULL,
        colour varchar(6),
        hoist bool,
        mentionable bool,
        name varchar(255),
        permissions int8,
        position int2,
        guild_id int8 NOT NULL,
        PRIMARY KEY (id,guild_id)
      );

      ALTER TABLE public.members ADD FOREIGN KEY (guild_id) REFERENCES public.guilds(id);
      ALTER TABLE public.messages ADD FOREIGN KEY (guild_id) REFERENCES public.guilds(id);";

/// Whether a Discord id fits the signed 64-bit column that stores it.
pub open spec fn fits_column(id: u64) -> bool {
    id <= i64::MAX
}

/// Tests `fits_column`.
pub fn fits_i64(id: u64) -> (r: bool)
    ensures
        r == fits_column(id),
{
    id <= 9223372036854775807u64
}

/// A Discord id as the signed 64-bit value its column holds.
pub fn db_id(id: u64) -> (r: i64)
    requires
        fits_column(id),
    ensures
        r == id,
{
    id as i64
}

} // verus!
