use mel::guild::{
    guild_key, guild_type_update_outcome, guild_type_value, is_normal_guild_type,
    prefix_update_outcome, registration_values, select_registered_guild, DbGuild, DbGuildType,
};

fn row(id: &str, prefix: &str) -> DbGuild {
    DbGuild {
        discord_id: id.to_string(),
        name: "Guild".to_string(),
        prefix: prefix.to_string(),
        guild_type: 0,
    }
}

#[test]
fn guild_key_is_decimal_id() {
    assert_eq!(guild_key(81384788765712384), "81384788765712384");
    let (id, name) = registration_values(42, "My Guild".to_string());
    assert_eq!(id, "42");
    assert_eq!(name, "My Guild");
}

#[test]
fn no_row_means_not_registered() {
    match select_registered_guild(Vec::new()) {
        Err(e) => assert_eq!(e, "[DB] Guild not registered."),
        Ok(_) => panic!("a guild without rows is not registered"),
    }
}

#[test]
fn last_row_is_the_guild() {
    let rows = vec![row("1", "a!"), row("2", "b!")];
    let g = select_registered_guild(rows).ok().unwrap();
    assert_eq!(g.discord_id, "2");
    assert_eq!(g.prefix, "b!");
}

#[test]
fn prefix_update_needs_exactly_one_row() {
    assert_eq!(prefix_update_outcome(99, 1), Ok("[DB] Guild prefix set (99)".to_string()));
    assert_eq!(prefix_update_outcome(99, 0), Err("[DB] Failed to update prefix in DB.".to_string()));
    assert_eq!(prefix_update_outcome(99, 2), Err("[DB] Failed to update prefix in DB.".to_string()));
}

#[test]
fn type_update_needs_exactly_one_row() {
    assert_eq!(guild_type_update_outcome(7, 1), Ok("[DB] Guild type updated (7)".to_string()));
    assert_eq!(guild_type_update_outcome(7, 0), Err("[DB] Failed to update typo in DB.".to_string()));
}

#[test]
fn guild_types_are_stored_as_numbers() {
    assert_eq!(guild_type_value(DbGuildType::Normal), "0");
    assert_eq!(guild_type_value(DbGuildType::Special), "1");
    assert_eq!(u32::from(DbGuildType::Special), 1);
    assert_eq!(DbGuildType::Normal.code(), 0);
    assert!(is_normal_guild_type(0));
    assert!(!is_normal_guild_type(1));
    assert_eq!(guild_type_value(DbGuildType::Special).parse::<u32>().unwrap(), DbGuildType::Special.code());
}

#[test]
fn guild_keys_read_back_and_differ() {
    let a = guild_key(81384788765712384);
    let b = guild_key(81384788765712385);
    assert_ne!(a, b);
    assert_eq!(mel::text::parse_u64(&a), Some(81384788765712384));
}
