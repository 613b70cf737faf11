use guildbot::postgres::delete;
use guildbot::postgres::get::{is_new_guild, strikes, StoredGuildLookup, StrikeLookup};
use guildbot::postgres::store::{
    guild, members, message, part_guild, role, GuildRecord, MemberRecord, MessageRecord,
    RoleRecord,
};
use guildbot::postgres::{db_id, fits_i64};

fn guild_record(features: Vec<&str>) -> GuildRecord {
    GuildRecord {
        id: 10,
        name: "Lounge".to_string(),
        owner_id: 11,
        region: None,
        splash: Some("s".to_string()),
        banner: None,
        icon: Some("i".to_string()),
        features: features.into_iter().map(|f| f.to_string()).collect(),
        vanity_url_code: Some("lounge".to_string()),
        description: None,
    }
}

fn role_record(id: u64, colour: u32) -> RoleRecord {
    RoleRecord {
        id,
        name: format!("role{}", id),
        colour,
        hoist: true,
        mentionable: false,
        permissions: 8,
        position: 3,
    }
}

fn member_record(user_id: u64, roles: Vec<u64>) -> MemberRecord {
    MemberRecord {
        user_id,
        guild_id: 10,
        avatar: None,
        bot: false,
        name: format!("user{}", user_id),
        nick: Some("nick".to_string()),
        discriminator: 1234,
        roles,
    }
}

#[test]
fn ids_fit_signed_columns() {
    assert!(fits_i64(i64::MAX as u64));
    assert!(!fits_i64(i64::MAX as u64 + 1));
    assert_eq!(db_id(83281345949728768), 83281345949728768);
}

#[test]
fn message_outside_guild_is_not_stored() {
    let rec = MessageRecord { id: 1, guild_id: None, channel_id: u64::MAX, author_id: 3, content: "hi".to_string() };
    assert!(rec.is_storable());
    assert!(message(rec, true).is_none());
}

#[test]
fn message_row_carries_verdict() {
    let rec = MessageRecord { id: 1, guild_id: Some(2), channel_id: 3, author_id: 4, content: "hi".to_string() };
    let row = message(rec, false).unwrap();
    assert_eq!((row.id, row.guild_id, row.channel_id, row.author_id), (1, 2, 3, 4));
    assert_eq!(row.content, "hi");
    assert!(!row.permitted);
    let bad = MessageRecord { id: 1, guild_id: Some(2), channel_id: u64::MAX, author_id: 4, content: String::new() };
    assert!(!bad.is_storable());
}

#[test]
fn guild_row_keeps_fields() {
    let row = part_guild(guild_record(vec!["COMMUNITY", "NEWS"]));
    assert_eq!(row.id, 10);
    assert_eq!(row.owner_id, 11);
    assert_eq!(row.name, "Lounge");
    assert_eq!(row.features, vec!["COMMUNITY".to_string(), "NEWS".to_string()]);
    assert_eq!(row.features_lower_bound, 2);
    assert_eq!(row.vanity_url_code.as_deref(), Some("lounge"));
    assert_eq!(row.icon.as_deref(), Some("i"));
    assert!(row.description.is_none());
}

#[test]
fn role_row_writes_colour_in_hex() {
    let row = role(10, role_record(5, 0x1ABC9C));
    assert_eq!(row.colour, "1ABC9C");
    assert_eq!((row.id, row.guild_id, row.permissions, row.position), (5, 10, 8, 3));
    assert_eq!(role(10, role_record(6, 0xff)).colour, "0000FF");
    assert_eq!(role(10, role_record(6, 0)).colour, "000000");
    let mut high = role_record(7, 0);
    high.position = 40000;
    assert!(!high.is_storable());
}

#[test]
fn guild_rows_keep_role_order() {
    let (row, roles) = guild(guild_record(vec![]), vec![role_record(1, 0), role_record(2, 0), role_record(3, 0)]);
    assert_eq!(row.features_lower_bound, 0);
    let ids: Vec<i64> = roles.iter().map(|r| r.id).collect();
    assert_eq!(ids, vec![1, 2, 3]);
    assert!(roles.iter().all(|r| r.guild_id == 10));
}

#[test]
fn member_rows_come_in_reverse() {
    let rows = members(vec![member_record(1, vec![7, 8]), member_record(2, vec![]), member_record(3, vec![9])]);
    let ids: Vec<i64> = rows.iter().map(|r| r.id).collect();
    assert_eq!(ids, vec![3, 2, 1]);
    assert_eq!(rows[2].roles, vec![7, 8]);
    assert_eq!(rows[2].roles_lower_bound, 2);
    assert_eq!(rows[2].discriminator, 1234);
    assert_eq!(rows[2].nick.as_deref(), Some("nick"));
    assert_eq!(rows[1].roles_lower_bound, 0);
    assert!(members(vec![]).is_empty());
}

#[test]
fn member_storable_checks_every_field() {
    assert!(member_record(1, vec![1, 2]).is_storable());
    assert!(!member_record(1, vec![1, u64::MAX]).is_storable());
    let mut m = member_record(1, vec![]);
    m.discriminator = 40000;
    assert!(!m.is_storable());
}

#[test]
fn delete_keys_put_the_item_first() {
    assert_eq!(delete::role(10, 20), (20, 10));
    assert_eq!(delete::member(10, 30), (30, 10));
}

#[test]
fn new_guild_when_store_has_no_row() {
    assert!(is_new_guild(StoredGuildLookup::Rows(0)));
    assert!(!is_new_guild(StoredGuildLookup::Rows(1)));
    assert!(!is_new_guild(StoredGuildLookup::PoolUnavailable));
}

#[test]
fn strikes_default_to_zero() {
    assert_eq!(strikes(StrikeLookup::Counted(Some(3))), 3);
    assert_eq!(strikes(StrikeLookup::Counted(None)), 0);
    assert_eq!(strikes(StrikeLookup::QueryFailed), 0);
    assert_eq!(strikes(StrikeLookup::PoolUnavailable), 0);
}
