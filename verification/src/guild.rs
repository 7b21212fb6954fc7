//! The guild records kept in the database, and how the outcome of each guild
//! query or update is judged.

use vstd::prelude::*;

use crate::text::{decimal, decimal_text, law_decimal_round_trip, parse_u64_spec, text_outcome};

verus! {

/// The kind of a guild. Special guilds may see commands that are hidden from
/// the help listing.
#[derive(Clone, Copy, Debug, PartialEq, Eq, Structural)]
pub enum DbGuildType {
    Normal,
    Special,
}

impl DbGuildType {
    /// The number under which a guild type is stored.
    pub open spec fn code_spec(self) -> u32 {
        match self {
            DbGuildType::Normal => 0,
            DbGuildType::Special => 1,
        }
    }

    /// The number under which this guild type is stored.
    pub fn code(&self) -> (r: u32)
        ensures
            r == self.code_spec(),
    {
        match self {
            DbGuildType::Normal => 0,
            DbGuildType::Special => 1,
        }
    }
}

impl From<DbGuildType> for u32 {
    fn from(t: DbGuildType) -> (r: u32) {
        t.code()
    }
}

impl vstd::std_specs::convert::FromSpecImpl<DbGuildType> for u32 {
    open spec fn obeys_from_spec() -> bool {
        true
    }

    open spec fn from_spec(t: DbGuildType) -> u32 {
        t.code_spec()
    }
}

/// One row of the `guilds` table.
pub struct DbGuild {
    pub discord_id: String,
    pub name: String,
    pub prefix: String,
    pub guild_type: u32,
}

/// What is known of the guild a message came from: the message came from no
/// guild, the guild's record could not be read, or its record.
pub enum GuildLookup {
    NotInGuild,
    Unregistered,
    Registered(DbGuild),
}

/// Whether a stored guild type is the normal one.
pub open spec fn is_normal_type(code: u32) -> bool {
    code == DbGuildType::Normal.code_spec()
}

/// Whether the stored guild type `code` is the normal one.
pub fn is_normal_guild_type(code: u32) -> (r: bool)
    ensures
        r == is_normal_type(code),
{
    code == DbGuildType::Normal.code()
}

/// The value under which a guild is keyed in the database: its id in decimal.
pub fn guild_key(guild_id: u64) -> (r: String)
    ensures
        r@ == decimal(guild_id as nat),
{
    decimal_text(guild_id)
}

/// The `discord_id` and `name` values with which a guild is registered.
pub fn registration_values(guild_id: u64, name: String) -> (r: (String, String))
    ensures
        r.0@ == decimal(guild_id as nat),
        r.1@ == name@,
{
    (guild_key(guild_id), name)
}

/// The `guild_type` value stored for a guild type: its number in decimal.
pub fn guild_type_value(t: DbGuildType) -> (r: String)
    ensures
        r@ == decimal(t.code_spec() as nat),
{
    decimal_text(u32::from(t) as u64)
}

/// The error given when a guild has no record.
pub open spec fn not_registered_message() -> Seq<char> {
    "[DB] Guild not registered."@
}

/// Picks the guild record out of the rows that the guild lookup returned: the
/// last row, or an error when there is none.
pub fn select_registered_guild(rows: Vec<DbGuild>) -> (r: Result<DbGuild, String>)
    ensures
        rows@.len() == 0 ==> (r matches Err(e) && e@ == not_registered_message()),
        rows@.len() > 0 ==> r == Ok::<DbGuild, String>(rows@.last()),
{
    let mut rows = rows;
    match rows.pop() {
        Some(guild) => Ok(guild),
        None => Err(String::from_str("[DB] Guild not registered.")),
    }
}

/// The line logged when a guild's prefix was updated.
pub open spec fn prefix_set_log(guild_id: u64) -> Seq<char> {
    "[DB] Guild prefix set ("@ + decimal(guild_id as nat) + ")"@
}

/// The error given when a prefix update did not change exactly one row.
pub open spec fn prefix_failed_message() -> Seq<char> {
    "[DB] Failed to update prefix in DB."@
}

/// The line logged when a guild's type was updated.
pub open spec fn type_set_log(guild_id: u64) -> Seq<char> {
    "[DB] Guild type updated ("@ + decimal(guild_id as nat) + ")"@
}

/// The error given when a type update did not change exactly one row.
pub open spec fn type_failed_message() -> Seq<char> {
    "[DB] Failed to update typo in DB."@
}

/// `"{head}{id})"`, the shape of both update log lines.
fn log_with_id(head: &str, guild_id: u64) -> (r: String)
    ensures
        r@ == head@ + decimal(guild_id as nat) + ")"@,
{
    let mut line = String::from_str(head);
    let key = guild_key(guild_id);
    line.append(key.as_str());
    line.append(")");
    line
}

/// Judges a prefix update: it succeeded, with the line to log, exactly when
/// one row was changed.
pub fn prefix_update_outcome(guild_id: u64, affected_rows: u64) -> (r: Result<String, String>)
    ensures
        text_outcome(r) == if affected_rows == 1 {
            Ok(prefix_set_log(guild_id))
        } else {
            Err(prefix_failed_message())
        },
{
    if affected_rows == 1 {
        Ok(log_with_id("[DB] Guild prefix set (", guild_id))
    } else {
        Err(String::from_str("[DB] Failed to update prefix in DB."))
    }
}

/// Judges a guild type update: it succeeded, with the line to log, exactly
/// when one row was changed.
pub fn guild_type_update_outcome(guild_id: u64, affected_rows: u64) -> (r: Result<String, String>)
    ensures
        text_outcome(r) == if affected_rows == 1 {
            Ok(type_set_log(guild_id))
        } else {
            Err(type_failed_message())
        },
{
    if affected_rows == 1 {
        Ok(log_with_id("[DB] Guild type updated (", guild_id))
    } else {
        Err(String::from_str("[DB] Failed to update typo in DB."))
    }
}


/// Different guilds are keyed by different values, and a guild's key reads
/// back as its id.
pub proof fn law_guild_keys_identify_guilds(a: u64, b: u64)
    ensures
        parse_u64_spec(decimal(a as nat)) == Some(a),
        a != b ==> decimal(a as nat) != decimal(b as nat),
{
    law_decimal_round_trip(a);
    law_decimal_round_trip(b);
}

/// The stored value of a guild type reads back as that type's number, and the
/// two guild types are stored under different numbers.
pub proof fn law_guild_type_value_reads_back(t: DbGuildType)
    ensures
        parse_u64_spec(decimal(t.code_spec() as nat)) == Some(t.code_spec() as u64),
        DbGuildType::Normal.code_spec() != DbGuildType::Special.code_spec(),
{
    law_decimal_round_trip(t.code_spec() as u64);
}

} // verus!
