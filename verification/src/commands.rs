//! The decisions of the command framework: which prefix the bot answers to,
//! who owns it, what happens before a command runs and which dispatch errors
//! are reported; and the voice command group.

use vstd::prelude::*;

use crate::guild::GuildLookup;
use crate::help::{CommandInfo, GroupInfo, help_prefix};
use crate::text::same_text;

verus! {

/// The prefix the bot answers to: a registered guild's own prefix, and the
/// default prefix everywhere else.
pub open spec fn answering_prefix(guild: GuildLookup, default_prefix: Seq<char>) -> Seq<char> {
    match guild {
        GuildLookup::Registered(g) => g.prefix@,
        _ => default_prefix,
    }
}

/// The prefix the bot answers to for a message from `guild`.
pub fn dynamic_prefix(guild: &GuildLookup, default_prefix: &String) -> (r: String)
    ensures
        r@ == answering_prefix(*guild, default_prefix@),
{
    match guild {
        GuildLookup::Registered(g) => g.prefix.clone(),
        _ => default_prefix.clone(),
    }
}

/// In a guild, the prefix that help pages show is the prefix the bot answers
/// to: the guild's own, or the default one where its record could not be read.
pub proof fn law_help_shows_answering_prefix(guild: GuildLookup, default_prefix: Seq<char>)
    requires
        !(guild is NotInGuild),
    ensures
        help_prefix(guild, default_prefix) == answering_prefix(guild, default_prefix),
{
}

/// The user id of the bot's owner.
pub const OWNER_ID: u64 = 683530527239962627;

/// The ids of the users who own the bot.
pub fn owner_ids() -> (r: Vec<u64>)
    ensures
        r@ == seq![OWNER_ID],
{
    let mut ids: Vec<u64> = Vec::new();
    ids.push(OWNER_ID);
    assert(ids@ =~= seq![OWNER_ID]);
    ids
}

/// What to do before a command runs.
#[derive(Clone, Copy, Debug, PartialEq, Eq, Structural)]
pub enum BeforeCommand {
    /// Run the command.
    Proceed,
    /// Start registering the guild in the background, and run the command.
    RegisterThenProceed,
    /// Register the guild, and run the command only if that succeeded.
    RegisterThenAwait,
}

/// The commands that must not run before their guild is registered.
pub open spec fn needs_registration(name: Seq<char>) -> bool {
    name == "prefix"@ || name == "mel"@
}

/// Only the commands `prefix` and `mel` wait for their guild's registration;
/// every other command name runs without waiting.
pub proof fn law_only_prefix_and_mel_wait(name: Seq<char>)
    ensures
        needs_registration(name) <==> (name == "prefix"@ || name == "mel"@),
        needs_registration("prefix"@),
        needs_registration("mel"@),
{
}

/// Decides what happens before the command `name` runs: outside a guild it
/// just runs; in a guild the guild is registered first, and `prefix` and
/// `mel` wait for that registration.
pub fn before_command_plan(in_guild: bool, name: &str) -> (r: BeforeCommand)
    ensures
        r == if !in_guild {
            BeforeCommand::Proceed
        } else if needs_registration(name@) {
            BeforeCommand::RegisterThenAwait
        } else {
            BeforeCommand::RegisterThenProceed
        },
{
    if !in_guild {
        BeforeCommand::Proceed
    } else if same_text(name, "prefix") || same_text(name, "mel") {
        BeforeCommand::RegisterThenAwait
    } else {
        BeforeCommand::RegisterThenProceed
    }
}

/// How a guild registration that was waited for ended.
#[derive(Clone, Copy, Debug, PartialEq, Eq, Structural)]
pub enum RegistrationOutcome {
    /// The registration ran and succeeded.
    Registered,
    /// The registration ran and failed, or the guild was not in the cache.
    Failed,
    /// The task that registered the guild did not finish.
    Aborted,
}

/// Whether a command that waited for its guild's registration may run.
pub fn registration_allows(outcome: RegistrationOutcome) -> (r: bool)
    ensures
        r == (outcome == RegistrationOutcome::Registered),
{
    match outcome {
        RegistrationOutcome::Registered => true,
        _ => false,
    }
}

/// The kinds of error with which the framework refuses to dispatch a command.
#[derive(Clone, Copy, Debug, PartialEq, Eq, Structural)]
pub enum DispatchFailure {
    LackingPermissions,
    Other,
}

/// Whether a dispatch error is reported to the user: only a lack of permissions is.
pub fn reports_dispatch_error(failure: DispatchFailure) -> (r: bool)
    ensures
        r == (failure == DispatchFailure::LackingPermissions),
{
    match failure {
        DispatchFailure::LackingPermissions => true,
        DispatchFailure::Other => false,
    }
}

/// The voice command group.
pub struct Voice;

/// The voice group as the help command sees it.
pub open spec fn voice_group_spec(g: GroupInfo) -> bool {
    &&& g.name@ == "Voice"@
    &&& g.description matches Some(d) && d@ == "Voice \u{1f3b6} - Music/Voice related commands"@
    &&& g.help_available
    &&& g.commands@.len() == 1
    &&& g.commands@[0].names@.len() == 1
    &&& g.commands@[0].names@[0]@ == "play"@
    &&& g.commands@[0].help_available
    &&& g.commands@[0].desc matches Some(d) && d@ == "Play a song :>"@
    &&& g.commands@[0].usage is None
    &&& g.commands@[0].examples@.len() == 0
}

impl Voice {
    /// The voice group: music and voice commands, of which `play` plays a song.
    pub fn group() -> (g: GroupInfo)
        ensures
            voice_group_spec(g),
    {
        let mut names: Vec<String> = Vec::new();
        names.push(String::from_str("play"));
        let play = CommandInfo {
            names,
            help_available: true,
            desc: Some(String::from_str("Play a song :>")),
            usage: None,
            examples: Vec::new(),
        };
        let mut commands: Vec<CommandInfo> = Vec::new();
        commands.push(play);
        GroupInfo {
            name: String::from_str("Voice"),
            description: Some(String::from_str("Voice \u{1f3b6} - Music/Voice related commands")),
            help_available: true,
            commands,
        }
    }
}

} // verus!
