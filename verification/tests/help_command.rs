use mel::commands::Voice;
use mel::embed::{EmbedColor, MessageEmbed};
use mel::guild::{DbGuild, DbGuildType, GuildLookup};
use mel::help::{help, help_reply, listing, prefix_for_help, CommandInfo, GroupInfo};

fn cmd(names: &[&str], shown: bool, desc: Option<&str>, usage: Option<&str>, examples: &[&str]) -> CommandInfo {
    CommandInfo {
        names: names.iter().map(|s| s.to_string()).collect(),
        help_available: shown,
        desc: desc.map(|s| s.to_string()),
        usage: usage.map(|s| s.to_string()),
        examples: examples.iter().map(|s| s.to_string()).collect(),
    }
}

fn group(name: &str, desc: Option<&str>, shown: bool, commands: Vec<CommandInfo>) -> GroupInfo {
    GroupInfo {
        name: name.to_string(),
        description: desc.map(|s| s.to_string()),
        help_available: shown,
        commands,
    }
}

fn groups() -> Vec<GroupInfo> {
    vec![
        group(
            "Util",
            Some("Util - tools"),
            true,
            vec![
                cmd(&["prefix", "setprefix"], true, Some("Change the prefix"), Some("prefix <new>"), &["prefix !", "prefix ?"]),
                cmd(&["ping"], true, None, None, &[]),
                cmd(&["secret"], false, Some("Hidden"), None, &["secret"]),
            ],
        ),
        group("Owner", None, false, vec![cmd(&["shutdown"], true, None, None, &[])]),
        group("Image", None, true, vec![cmd(&["neko"], true, Some("A neko"), None, &[])]),
    ]
}

fn registered(prefix: &str, t: DbGuildType) -> GuildLookup {
    GuildLookup::Registered(DbGuild {
        discord_id: "1".to_string(),
        name: "Guild".to_string(),
        prefix: prefix.to_string(),
        guild_type: t.code(),
    })
}

fn fields(e: &MessageEmbed) -> Vec<(String, String, bool)> {
    e.fields.iter().map(|f| (f.name.clone(), f.value.clone(), f.inline)).collect()
}

#[test]
fn listing_shows_shown_groups_and_commands() {
    let e = listing(&groups());
    assert_eq!(e.title.as_deref(), Some("Available Commands"));
    assert_eq!(e.description.as_deref(), Some("To get more info on a command, type `help {command}`"));
    assert_eq!(e.color, Some(EmbedColor::Purple));
    assert_eq!(
        fields(&e),
        vec![
            ("Util - tools".to_string(), " `prefix` `ping`".to_string(), false),
            ("Image".to_string(), " `neko`".to_string(), false),
        ]
    );
    assert!(e.image.is_none() && e.footer.is_none());
}

#[test]
fn listing_of_hidden_group_only_is_empty() {
    let e = listing(&vec![group("Owner", None, false, vec![cmd(&["shutdown"], true, None, None, &[])])]);
    assert!(e.fields.is_empty());
}

#[test]
fn no_argument_gives_listing() {
    let e = help_reply(&groups(), &None, &GuildLookup::NotInGuild, &"f!".to_string(), 0).unwrap();
    assert_eq!(e.title.as_deref(), Some("Available Commands"));
    assert_eq!(e.fields.len(), 2);
}

#[test]
fn help_about_help_uses_guild_prefix() {
    let g = registered("m?", DbGuildType::Normal);
    let e = help_reply(&groups(), &Some("help".to_string()), &g, &"f!".to_string(), 0).unwrap();
    assert_eq!(e.title.as_deref(), Some("More info for help"));
    assert_eq!(e.description.as_deref(), Some("The help command provides a list of all usable commands."));
    assert_eq!(
        fields(&e),
        vec![
            ("Use".to_string(), "`m?help <command>*`".to_string(), false),
            ("Examples".to_string(), "`m?help prefix`\n`m?help`".to_string(), false),
        ]
    );
}

#[test]
fn help_prefix_outside_guild_is_empty() {
    let e = help_reply(&groups(), &Some("help".to_string()), &GuildLookup::NotInGuild, &"f!".to_string(), 0).unwrap();
    assert_eq!(fields(&e)[0].1, "`help <command>*`");
    assert_eq!(prefix_for_help(&GuildLookup::Unregistered, &"f!".to_string()), "f!");
}

#[test]
fn unknown_command_is_not_found() {
    let e = help_reply(&groups(), &Some("dance".to_string()), &GuildLookup::Unregistered, &"f!".to_string(), 1).unwrap();
    assert_eq!(e.title.as_deref(), Some("[CMDS] Command not found"));
    assert!(e.description.is_none());
    assert!(e.fields.is_empty());
    assert_eq!(e.color, Some(EmbedColor::Purple));
}

#[test]
fn command_page_by_alias() {
    let e = help_reply(&groups(), &Some("setprefix".to_string()), &GuildLookup::Unregistered, &"f!".to_string(), 1).unwrap();
    assert_eq!(e.title.as_deref(), Some("More info for prefix"));
    assert_eq!(e.description.as_deref(), Some("Change the prefix"));
    assert_eq!(e.image.as_deref(), Some("https://i.imgur.com/AUpMkBP.jpg"));
    assert_eq!(e.footer.as_deref(), Some("<> is required, [] is optional"));
    assert_eq!(
        fields(&e),
        vec![
            ("Aliases".to_string(), "\n- setprefix".to_string(), false),
            ("Use".to_string(), "`f!prefix <new>`".to_string(), false),
            ("Examples".to_string(), "\n`f!prefix !`\n`f!prefix ?`".to_string(), false),
        ]
    );
}

#[test]
fn command_page_without_extras() {
    let e = help_reply(&groups(), &Some("ping".to_string()), &GuildLookup::NotInGuild, &"f!".to_string(), 0).unwrap();
    assert_eq!(e.title.as_deref(), Some("More info for ping"));
    assert!(e.description.is_none());
    assert_eq!(e.image.as_deref(), Some("https://i.imgur.com/vg0z9yT.jpg"));
    assert!(e.fields.is_empty());
}

#[test]
fn single_example_is_called_example() {
    let g = registered("f!", DbGuildType::Special);
    let e = help_reply(&groups(), &Some("secret".to_string()), &g, &"f!".to_string(), 0).unwrap();
    assert_eq!(fields(&e), vec![("Example".to_string(), "\n`f!secret`".to_string(), false)]);
}

#[test]
fn hidden_command_hidden_from_normal_and_unknown_guilds() {
    let d = "f!".to_string();
    let name = Some("secret".to_string());
    assert!(help_reply(&groups(), &name, &registered("f!", DbGuildType::Normal), &d, 0).is_none());
    assert!(help_reply(&groups(), &name, &GuildLookup::Unregistered, &d, 0).is_none());
    assert!(help_reply(&groups(), &name, &GuildLookup::NotInGuild, &d, 0).is_none());
    assert!(help_reply(&groups(), &name, &registered("f!", DbGuildType::Special), &d, 0).is_some());
}

#[test]
fn commands_of_hidden_groups_can_be_asked_for() {
    let e = help_reply(&groups(), &Some("shutdown".to_string()), &GuildLookup::NotInGuild, &"f!".to_string(), 0).unwrap();
    assert_eq!(e.title.as_deref(), Some("More info for shutdown"));
}

#[test]
fn last_command_with_a_name_wins() {
    let gs = vec![
        group("A", None, true, vec![cmd(&["x"], true, Some("first"), None, &[])]),
        group("B", None, true, vec![cmd(&["y", "x"], true, Some("second"), None, &[])]),
    ];
    let e = help_reply(&gs, &Some("x".to_string()), &GuildLookup::NotInGuild, &"".to_string(), 0).unwrap();
    assert_eq!(e.description.as_deref(), Some("second"));
}

#[test]
fn random_picture_is_one_of_two() {
    for _ in 0..20 {
        let e = help(&groups(), &Some("ping".to_string()), &GuildLookup::NotInGuild, &"f!".to_string()).unwrap();
        let image = e.image.unwrap();
        assert!(image == "https://i.imgur.com/vg0z9yT.jpg" || image == "https://i.imgur.com/AUpMkBP.jpg");
    }
}

#[test]
fn voice_group_lists_play() {
    let e = listing(&vec![Voice::group()]);
    assert_eq!(fields(&e), vec![("Voice \u{1f3b6} - Music/Voice related commands".to_string(), " `play`".to_string(), false)]);
    let page = help_reply(&vec![Voice::group()], &Some("play".to_string()), &GuildLookup::NotInGuild, &"f!".to_string(), 0).unwrap();
    assert_eq!(page.description.as_deref(), Some("Play a song :>"));
}
