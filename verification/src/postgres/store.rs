//! The rows the bot writes for messages, guilds, roles and members.

use vstd::prelude::*;

use crate::postgres::{db_id, fits_column, fits_i64};
use crate::text::{hex_upper, render_hex_padded, zero_padded};

verus! {

/// Stores one message with the automod verdict on it.
pub const INSERT_MESSAGE: &'static str = "INSERT INTO messages (id, guild_id, channel_id, author_id, content, permitted) VALUES ($1, $2, $3, $4, $5, $6)";

/// Stores one guild.
pub const INSERT_GUILD: &'static str = "
      INSERT INTO guilds
        (id, name, owner_id, region, splash, banner, icon, features, vanity, description)
      VALUES ($1, $2, $3, $4, $5, $6, $7, $8, $9, $10)
      ";

/// Stores one role, or updates it when it is stored already.
pub const UPSERT_ROLE: &'static str = "
        INSERT INTO roles
          (id, guild_id, name, colour, hoist, mentionable, permissions, position)
        VALUES ($1, $2, $3, $4, $5, $6, $7, $8)
        ON CONFLICT (id, guild_id) DO UPDATE SET
          name = EXCLUDED.name,
          colour = EXCLUDED.colour,
          hoist = EXCLUDED.hoist,
          mentionable = EXCLUDED.mentionable,
          permissions = EXCLUDED.permissions,
          position = EXCLUDED.position
        ";

/// Stores one member, or updates it when it is stored already.
pub const UPSERT_MEMBER: &'static str = "
    INSERT INTO members
      (id, guild_id, avatar, bot, name, nick, discriminator, roles)
    VALUES ($1, $2, $3, $4, $5, $6, $7, $8)
    ON CONFLICT (id, guild_id) DO UPDATE SET
      avatar = EXCLUDED.avatar, name = EXCLUDED.name, discriminator = EXCLUDED.discriminator, roles = EXCLUDED.roles, nick = EXCLUDED.nick";

/// A message as the store needs it.
pub struct MessageRecord {
    pub id: u64,
    /// Absent for direct messages.
    pub guild_id: Option<u64>,
    pub channel_id: u64,
    pub author_id: u64,
    pub content: String,
}

/// The parameters of `INSERT_MESSAGE`, in order.
pub struct MessageRow {
    pub id: i64,
    pub guild_id: i64,
    pub channel_id: i64,
    pub author_id: i64,
    pub content: String,
    pub permitted: bool,
}

impl MessageRecord {
    /// Whether every id that goes into the row fits its column. The ids
    /// past the guild are only read for a message of a guild.
    pub open spec fn storable(&self) -> bool {
        &&& fits_column(self.id)
        &&& self.guild_id matches Some(g) ==> {
            &&& fits_column(g)
            &&& fits_column(self.channel_id)
            &&& fits_column(self.author_id)
        }
    }

    /// Tests `storable`.
    pub fn is_storable(&self) -> (r: bool)
        ensures
            r == self.storable(),
    {
        fits_i64(self.id) && match self.guild_id {
            Some(g) => fits_i64(g) && fits_i64(self.channel_id) && fits_i64(self.author_id),
            None => true,
        }
    }
}

/// The row stored for a message; a message outside any guild is not stored.
pub fn message(msg: MessageRecord, permitted: bool) -> (r: Option<MessageRow>)
    requires
        msg.storable(),
    ensures
        r == match msg.guild_id {
            None => None,
            Some(g) => Some(
                MessageRow {
                    id: msg.id as i64,
                    guild_id: g as i64,
                    channel_id: msg.channel_id as i64,
                    author_id: msg.author_id as i64,
                    content: msg.content,
                    permitted,
                },
            ),
        },
{
    let id = db_id(msg.id);
    match msg.guild_id {
        None => None,
        Some(g) => Some(
            MessageRow {
                id,
                guild_id: db_id(g),
                channel_id: db_id(msg.channel_id),
                author_id: db_id(msg.author_id),
                content: msg.content,
                permitted,
            },
        ),
    }
}

/// A guild as the store needs it.
pub struct GuildRecord {
    pub id: u64,
    pub name: String,
    pub owner_id: u64,
    pub region: Option<String>,
    pub splash: Option<String>,
    pub banner: Option<String>,
    pub icon: Option<String>,
    pub features: Vec<String>,
    pub vanity_url_code: Option<String>,
    pub description: Option<String>,
}

/// The parameters of `INSERT_GUILD`, in order; the features go into an
/// array whose lower bound is `features_lower_bound`.
pub struct GuildRow {
    pub id: i64,
    pub name: String,
    pub owner_id: i64,
    pub region: Option<String>,
    pub splash: Option<String>,
    pub banner: Option<String>,
    pub icon: Option<String>,
    pub features: Vec<String>,
    pub features_lower_bound: i32,
    pub vanity_url_code: Option<String>,
    pub description: Option<String>,
}

impl GuildRecord {
    /// Whether both ids of the guild fit their columns.
    pub open spec fn storable(&self) -> bool {
        fits_column(self.id) && fits_column(self.owner_id)
    }

    /// Tests `storable`.
    pub fn is_storable(&self) -> (r: bool)
        ensures
            r == self.storable(),
    {
        fits_i64(self.id) && fits_i64(self.owner_id)
    }
}

/// Whether `row` is the row stored for `g`. The array of features takes
/// their count, cut to 32 bits, as its lower bound.
pub open spec fn is_guild_row(row: GuildRow, g: GuildRecord) -> bool {
    &&& row.id == g.id as i64
    &&& row.name == g.name
    &&& row.owner_id == g.owner_id as i64
    &&& row.region == g.region
    &&& row.splash == g.splash
    &&& row.banner == g.banner
    &&& row.icon == g.icon
    &&& row.features@ == g.features@
    &&& row.features_lower_bound == g.features@.len() as i32
    &&& row.vanity_url_code == g.vanity_url_code
    &&& row.description == g.description
}

/// The row stored for a guild that was updated.
pub fn part_guild(g: GuildRecord) -> (r: GuildRow)
    requires
        g.storable(),
    ensures
        is_guild_row(r, g),
{
    let lower = g.features.len() as i32;
    GuildRow {
        id: db_id(g.id),
        name: g.name,
        owner_id: db_id(g.owner_id),
        region: g.region,
        splash: g.splash,
        banner: g.banner,
        icon: g.icon,
        features: g.features,
        features_lower_bound: lower,
        vanity_url_code: g.vanity_url_code,
        description: g.description,
    }
}

/// A role as the store needs it.
pub struct RoleRecord {
    pub id: u64,
    pub name: String,
    pub colour: u32,
    pub hoist: bool,
    pub mentionable: bool,
    pub permissions: u64,
    pub position: i64,
}

/// The parameters of `UPSERT_ROLE`, in order.
pub struct RoleRow {
    pub id: i64,
    pub guild_id: i64,
    pub name: String,
    /// The colour as at least six upper-case hexadecimal digits.
    pub colour: String,
    pub hoist: bool,
    pub mentionable: bool,
    pub permissions: i64,
    pub position: i16,
}

impl RoleRecord {
    /// Whether the role's id, permission bits and position fit their columns.
    pub open spec fn storable(&self) -> bool {
        &&& fits_column(self.id)
        &&& fits_column(self.permissions)
        &&& i16::MIN <= self.position <= i16::MAX
    }

    /// Tests `storable`.
    pub fn is_storable(&self) -> (r: bool)
        ensures
            r == self.storable(),
    {
        fits_i64(self.id) && fits_i64(self.permissions) && -32768 <= self.position
            && self.position <= 32767
    }
}

/// Whether `row` is the row stored for role `role` of guild `guild_id`.
pub open spec fn is_role_row(row: RoleRow, guild_id: u64, role: RoleRecord) -> bool {
    &&& row.id == role.id as i64
    &&& row.guild_id == guild_id as i64
    &&& row.name == role.name
    &&& row.colour@ == zero_padded(hex_upper(role.colour as nat), 6)
    &&& row.hoist == role.hoist
    &&& row.mentionable == role.mentionable
    &&& row.permissions == role.permissions as i64
    &&& row.position == role.position as i16
}

/// The row stored for a role of a guild.
pub fn role(guild_id: u64, record: RoleRecord) -> (r: RoleRow)
    requires
        record.storable(),
        fits_column(guild_id),
    ensures
        is_role_row(r, guild_id, record),
{
    let colour = render_hex_padded(record.colour, 6);
    RoleRow {
        id: db_id(record.id),
        guild_id: db_id(guild_id),
        name: record.name,
        colour,
        hoist: record.hoist,
        mentionable: record.mentionable,
        permissions: db_id(record.permissions),
        position: record.position as i16,
    }
}

/// The rows stored for a guild the bot joined: the guild's own, then one
/// per role, in the order the roles come in.
pub fn guild(g: GuildRecord, roles: Vec<RoleRecord>) -> (r: (GuildRow, Vec<RoleRow>))
    requires
        g.storable(),
        forall|i: int| 0 <= i < roles.len() ==> (#[trigger] roles@[i]).storable(),
    ensures
        is_guild_row(r.0, g),
        r.1.len() == roles.len(),
        forall|i: int| 0 <= i < roles.len() ==> is_role_row(#[trigger] r.1@[i], g.id, roles@[i]),
{
    let guild_id = g.id;
    let row = part_guild(g);
    let ghost original = roles@;
    let mut roles = roles;
    let mut rows: Vec<RoleRow> = Vec::new();
    let mut done: Vec<RoleRow> = Vec::new();
    let n = roles.len();
    // Take the roles off the back, then restore their order.
    while roles.len() > 0
        invariant
            fits_column(guild_id),
            roles@ == original.take(roles.len() as int),
            roles.len() <= n,
            n == original.len(),
            forall|i: int| 0 <= i < original.len() ==> (#[trigger] original[i]).storable(),
            done.len() == n - roles.len(),
            forall|k: int|
                0 <= k < done.len() ==> is_role_row(
                    #[trigger] done@[k],
                    guild_id,
                    original[n - 1 - k],
                ),
        decreases roles.len(),
    {
        let r = roles.pop().unwrap();
        assert(r == original[roles.len() as int]);
        done.push(role(guild_id, r));
        assert(roles@ =~= original.take(roles.len() as int));
    }
    while done.len() > 0
        invariant
            rows.len() + done.len() == n,
            n == original.len(),
            forall|k: int|
                0 <= k < done.len() ==> is_role_row(
                    #[trigger] done@[k],
                    guild_id,
                    original[n - 1 - k],
                ),
            forall|k: int|
                0 <= k < rows.len() ==> is_role_row(#[trigger] rows@[k], guild_id, original[k]),
        decreases done.len(),
    {
        let r = done.pop().unwrap();
        rows.push(r);
    }
    (row, rows)
}

/// A guild member as the store needs it.
pub struct MemberRecord {
    pub user_id: u64,
    pub guild_id: u64,
    pub avatar: Option<String>,
    pub bot: bool,
    pub name: String,
    pub nick: Option<String>,
    pub discriminator: u16,
    pub roles: Vec<u64>,
}

/// The parameters of `UPSERT_MEMBER`, in order; the role ids go into an
/// array whose lower bound is `roles_lower_bound`.
pub struct MemberRow {
    pub id: i64,
    pub guild_id: i64,
    pub avatar: Option<String>,
    pub bot: bool,
    pub name: String,
    pub nick: Option<String>,
    pub discriminator: i16,
    pub roles: Vec<i64>,
    pub roles_lower_bound: i32,
}

impl MemberRecord {
    /// Whether the member's ids, discriminator and role ids fit their columns.
    pub open spec fn storable(&self) -> bool {
        &&& fits_column(self.user_id)
        &&& fits_column(self.guild_id)
        &&& self.discriminator <= i16::MAX
        &&& forall|i: int| 0 <= i < self.roles.len() ==> fits_column(#[trigger] self.roles@[i])
    }

    /// Tests `storable`.
    pub fn is_storable(&self) -> (r: bool)
        ensures
            r == self.storable(),
    {
        if !(fits_i64(self.user_id) && fits_i64(self.guild_id) && self.discriminator <= 32767) {
            return false;
        }
        let mut i: usize = 0;
        while i < self.roles.len()
            invariant
                i <= self.roles.len(),
                forall|k: int| 0 <= k < i ==> fits_column(#[trigger] self.roles@[k]),
            decreases self.roles.len() - i,
        {
            if !fits_i64(self.roles[i]) {
                return false;
            }
            i = i + 1;
        }
        true
    }
}

/// Whether `row` is the row stored for member `m`. The array of role ids
/// takes their count, cut to 32 bits, as its lower bound.
pub open spec fn is_member_row(row: MemberRow, m: MemberRecord) -> bool {
    &&& row.id == m.user_id as i64
    &&& row.guild_id == m.guild_id as i64
    &&& row.avatar == m.avatar
    &&& row.bot == m.bot
    &&& row.name == m.name
    &&& row.nick == m.nick
    &&& row.discriminator == m.discriminator as i16
    &&& row.roles@ == m.roles@.map_values(|r: u64| r as i64)
    &&& row.roles_lower_bound == m.roles@.len() as i32
}

fn member_row(m: MemberRecord) -> (r: MemberRow)
    requires
        m.storable(),
    ensures
        is_member_row(r, m),
{
    let n = m.roles.len();
    let mut roles: Vec<i64> = Vec::new();
    let mut i: usize = 0;
    while i < n
        invariant
            n == m.roles.len(),
            i <= n,
            forall|k: int| 0 <= k < n ==> fits_column(#[trigger] m.roles@[k]),
            roles@ == m.roles@.take(i as int).map_values(|r: u64| r as i64),
        decreases n - i,
    {
        roles.push(db_id(m.roles[i]));
        i = i + 1;
        assert(roles@ =~= m.roles@.take(i as int).map_values(|r: u64| r as i64));
    }
    assert(m.roles@.take(n as int) =~= m.roles@);
    MemberRow {
        id: db_id(m.user_id),
        guild_id: db_id(m.guild_id),
        avatar: m.avatar,
        bot: m.bot,
        name: m.name,
        nick: m.nick,
        discriminator: m.discriminator as i16,
        roles,
        roles_lower_bound: n as i32,
    }
}

/// The rows stored for a batch of members. They are written one at a time
/// from the end of the batch, so the rows come in reverse order.
pub fn members(batch: Vec<MemberRecord>) -> (r: Vec<MemberRow>)
    requires
        forall|i: int| 0 <= i < batch.len() ==> (#[trigger] batch@[i]).storable(),
    ensures
        r.len() == batch.len(),
        forall|k: int|
            0 <= k < r.len() ==> is_member_row(#[trigger] r@[k], batch@[batch.len() - 1 - k]),
{
    let ghost original = batch@;
    let n = batch.len();
    let mut members = batch;
    let mut rows: Vec<MemberRow> = Vec::new();
    while !members.is_empty()
        invariant
            members@ == original.take(members.len() as int),
            members.len() <= n,
            n == original.len(),
            forall|i: int| 0 <= i < original.len() ==> (#[trigger] original[i]).storable(),
            rows.len() == n - members.len(),
            forall|k: int|
                0 <= k < rows.len() ==> is_member_row(#[trigger] rows@[k], original[n - 1 - k]),
        decreases members.len(),
    {
        let member = members.pop().unwrap();
        assert(member == original[members.len() as int]);
        rows.push(member_row(member));
        assert(members@ =~= original.take(members.len() as int));
    }
    rows
}


/// Law: a message can be stored exactly when its id fits a signed 64-bit
/// column and, for a message of a guild, so do the guild, channel and
/// author ids.
pub proof fn message_storable_bounds(m: MessageRecord)
    ensures
        m.storable() <==> {
            &&& m.id <= 9223372036854775807
            &&& m.guild_id matches Some(g) ==> {
                &&& g <= 9223372036854775807
                &&& m.channel_id <= 9223372036854775807
                &&& m.author_id <= 9223372036854775807
            }
        },
{
}

/// Law: a guild can be stored exactly when its id and its owner's id fit a
/// signed 64-bit column.
pub proof fn guild_storable_bounds(g: GuildRecord)
    ensures
        g.storable() <==> g.id <= 9223372036854775807 && g.owner_id <= 9223372036854775807,
{
}

/// Law: a role can be stored exactly when its id and permission bits fit a
/// signed 64-bit column and its position fits a signed 16-bit one; any such
/// position is stored as it is, zero (the `@everyone` role) included.
pub proof fn role_storable_bounds(r: RoleRecord)
    ensures
        r.storable() <==> {
            &&& r.id <= 9223372036854775807
            &&& r.permissions <= 9223372036854775807
            &&& -32768 <= r.position <= 32767
        },
{
}

/// Law: a member can be stored exactly when the user and guild ids and every
/// role id fit a signed 64-bit column and the discriminator fits a signed
/// 16-bit one.
pub proof fn member_storable_bounds(m: MemberRecord)
    ensures
        m.storable() <==> {
            &&& m.user_id <= 9223372036854775807
            &&& m.guild_id <= 9223372036854775807
            &&& m.discriminator <= 32767
            &&& forall|i: int| 0 <= i < m.roles.len() ==> #[trigger] m.roles@[i] <= 9223372036854775807
        },
{
}


/// Law: a role's row carries the role id and the guild id as signed
/// integers, the name, hoist and mentionable flags as they are, the colour
/// as six or more upper-case hexadecimal digits, the permission bits as a
/// signed integer and the position as a signed 16-bit integer.
pub proof fn role_row_fields(row: RoleRow, guild_id: u64, record: RoleRecord)
    requires
        is_role_row(row, guild_id, record),
        record.storable(),
        fits_column(guild_id),
    ensures
        row.id as int == record.id as int,
        row.guild_id as int == guild_id as int,
        row.name == record.name,
        row.hoist == record.hoist,
        row.mentionable == record.mentionable,
        row.permissions as int == record.permissions as int,
        row.position as int == record.position as int,
        row.colour@ == zero_padded(hex_upper(record.colour as nat), 6),
{
}

/// Law: a guild's row carries both ids as signed integers, every text
/// field as it is, and the features in order with their count as the
/// array's lower bound.
pub proof fn guild_row_fields(row: GuildRow, g: GuildRecord)
    requires
        is_guild_row(row, g),
        g.storable(),
    ensures
        row.id as int == g.id as int,
        row.owner_id as int == g.owner_id as int,
        row.name == g.name,
        row.region == g.region,
        row.splash == g.splash,
        row.banner == g.banner,
        row.icon == g.icon,
        row.vanity_url_code == g.vanity_url_code,
        row.description == g.description,
        row.features@ == g.features@,
        g.features@.len() <= i32::MAX ==> row.features_lower_bound as int == g.features@.len(),
{
}

/// Law: a member's row carries the user and guild ids as signed integers,
/// the avatar, bot flag, name and nickname as they are, the discriminator as
/// a signed 16-bit integer, and every role id, in order, as a signed integer,
/// with their count as the array's lower bound.
pub proof fn member_row_fields(row: MemberRow, m: MemberRecord)
    requires
        is_member_row(row, m),
        m.storable(),
    ensures
        row.id as int == m.user_id as int,
        row.guild_id as int == m.guild_id as int,
        row.avatar == m.avatar,
        row.bot == m.bot,
        row.name == m.name,
        row.nick == m.nick,
        row.discriminator as int == m.discriminator as int,
        row.roles@.len() == m.roles@.len(),
        forall|i: int| 0 <= i < m.roles@.len() ==> row.roles@[i] as int == m.roles@[i] as int,
        m.roles@.len() <= i32::MAX ==> row.roles_lower_bound as int == m.roles@.len(),
{
}

} // verus!
