use mel::apis::{get_lunardev_api, get_nekoslife_api, lunardev_neko_failure, lunardev_neko_url, ApiRegistry};
use mel::commands::{
    before_command_plan, dynamic_prefix, owner_ids, registration_allows, reports_dispatch_error,
    BeforeCommand, DispatchFailure, RegistrationOutcome,
};
use mel::embed::EmbedColor;
use mel::guild::{DbGuild, GuildLookup};
use mel::help::prefix_for_help;
use mel::reaction::{step_after_embed, step_after_lookup, step_after_reading, ParsedReply, ReactionLookup, ReplyStep};
use mel::report::{after_command, command_report, CommandFailure};

fn registered(prefix: &str) -> GuildLookup {
    GuildLookup::Registered(DbGuild {
        discord_id: "5".to_string(),
        name: "G".to_string(),
        prefix: prefix.to_string(),
        guild_type: 0,
    })
}

#[test]
fn bot_answers_guild_prefix() {
    let d = "f!".to_string();
    assert_eq!(dynamic_prefix(&registered("m!"), &d), "m!");
    assert_eq!(dynamic_prefix(&GuildLookup::Unregistered, &d), "f!");
    assert_eq!(dynamic_prefix(&GuildLookup::NotInGuild, &d), "f!");
}

#[test]
fn help_and_bot_agree_on_prefix_in_guilds() {
    let d = "f!".to_string();
    for g in [registered("m!"), GuildLookup::Unregistered] {
        assert_eq!(dynamic_prefix(&g, &d), prefix_for_help(&g, &d));
    }
    assert_ne!(dynamic_prefix(&GuildLookup::NotInGuild, &d), prefix_for_help(&GuildLookup::NotInGuild, &d));
}

#[test]
fn owner_is_fixed() {
    assert_eq!(owner_ids(), vec![683530527239962627]);
}

#[test]
fn before_command_decisions() {
    assert_eq!(before_command_plan(false, "prefix"), BeforeCommand::Proceed);
    assert_eq!(before_command_plan(true, "prefix"), BeforeCommand::RegisterThenAwait);
    assert_eq!(before_command_plan(true, "mel"), BeforeCommand::RegisterThenAwait);
    assert_eq!(before_command_plan(true, "help"), BeforeCommand::RegisterThenProceed);
    assert!(registration_allows(RegistrationOutcome::Registered));
    assert!(!registration_allows(RegistrationOutcome::Failed));
    assert!(!registration_allows(RegistrationOutcome::Aborted));
}

#[test]
fn only_permission_errors_are_reported() {
    assert!(reports_dispatch_error(DispatchFailure::LackingPermissions));
    assert!(!reports_dispatch_error(DispatchFailure::Other));
}

#[test]
fn processed_command_log() {
    let r = command_report("2024-01-02 [03:04:05]", "user#1", "ping", &None, "x");
    assert_eq!(
        r.log,
        "\nCommand Processed:\n????????? Time: 2024-01-02 [03:04:05]\n????????? User: user#1\n????????? Command: ping\n"
    );
    assert!(r.embed.is_none());
}

#[test]
fn errored_command_log_and_embed() {
    let failure = Some(CommandFailure { debug_text: "Oops".to_string(), display_text: "oops".to_string() });
    let r = command_report("D", "U", "ban", &failure, "<no>");
    assert_eq!(
        r.log,
        "\nCommand Errored:\n????????? Time: D\n????????? User: U\n????????? Command: ban\n????????? Error: Oops"
    );
    let e = r.embed.unwrap();
    assert_eq!(e.title.as_deref(), Some("Error!"));
    assert_eq!(
        e.description.as_deref(),
        Some("<no> Error running the command `ban`:\n```oops```\n> Please report this error to: `Fifi#2000`")
    );
    assert_eq!(e.color, Some(EmbedColor::Red));
}

#[test]
fn after_command_stamps_time() {
    let r = after_command("U", "ping", &None, "x");
    assert!(r.log.starts_with("\nCommand Processed:\n????????? Time: "));
    assert!(r.log.ends_with("\n????????? User: U\n????????? Command: ping\n"));
    let stamp = &r.log["\nCommand Processed:\n????????? Time: ".len()..];
    assert_eq!(stamp.as_bytes()[4], b'-');
    assert_eq!(stamp.as_bytes()[10], b' ');
}

#[test]
fn reaction_steps() {
    assert!(matches!(step_after_lookup(&ReactionLookup::NotInGuild), ReplyStep::Done));
    assert!(matches!(step_after_lookup(&ReactionLookup::NoReaction), ReplyStep::Done));
    assert!(matches!(step_after_lookup(&ReactionLookup::Found), ReplyStep::ReadReply));
    match step_after_lookup(&ReactionLookup::Failed("E".to_string())) {
        ReplyStep::Log(e) => assert_eq!(e, "E"),
        _ => panic!("a failed lookup is logged"),
    }
    match step_after_reading(&ParsedReply::Embed { plain_text: Some("hi".to_string()), fallback: "raw".to_string() }) {
        ReplyStep::SendEmbed { content } => assert_eq!(content.as_deref(), Some("hi")),
        _ => panic!("an embed reply is sent as an embed"),
    }
    match step_after_reading(&ParsedReply::Text("plain".to_string())) {
        ReplyStep::SendText(t) => assert_eq!(t, "plain"),
        _ => panic!("a text reply is sent as text"),
    }
    match step_after_embed(&"raw".to_string(), false) {
        ReplyStep::SendText(t) => assert_eq!(t, "raw"),
        _ => panic!("a refused embed falls back to text"),
    }
    assert!(matches!(step_after_embed(&"raw".to_string(), true), ReplyStep::Done));
}

#[test]
fn api_registry_and_urls() {
    let apis = ApiRegistry { nekoslife: 1u8, lunardev: "l" };
    assert_eq!(*get_nekoslife_api(&apis), 1);
    assert_eq!(*get_lunardev_api(&apis), "l");
    assert_eq!(lunardev_neko_url(), "https://lunardev.group/api//neko");
    assert_eq!(lunardev_neko_failure(), "[API-L.D] Failed to get neko image");
}
