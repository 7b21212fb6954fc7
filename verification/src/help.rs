//! The help command: the listing of all commands, and the page that describes
//! one command.

use rand::Rng;
use vstd::prelude::*;

use crate::guild::{GuildLookup, is_normal_guild_type, is_normal_type};
use crate::text::same_text;
use crate::embed::{
    EmbedColor, EmbedField, EmbedView, FieldView, MessageEmbed, block_field, copy_opt_text, opt_embed,
    field_views, opt_text, push_block_field,
};

verus! {

/// What the help command reads of one command.
pub struct CommandInfo {
    /// The command's name, then its aliases.
    pub names: Vec<String>,
    /// Whether the command is shown in help.
    pub help_available: bool,
    pub desc: Option<String>,
    pub usage: Option<String>,
    pub examples: Vec<String>,
}

/// What the help command reads of one command group.
pub struct GroupInfo {
    pub name: String,
    pub description: Option<String>,
    /// Whether the group is shown in help.
    pub help_available: bool,
    pub commands: Vec<CommandInfo>,
}

/// The text after a group's heading: `` `name` `` for each shown command.
pub open spec fn command_names_text(cmds: Seq<CommandInfo>) -> Seq<char>
    decreases cmds.len(),
{
    if cmds.len() == 0 {
        Seq::empty()
    } else {
        let c = cmds.last();
        command_names_text(cmds.drop_last()) + if c.help_available {
            " `"@ + c.names@[0]@ + "`"@
        } else {
            Seq::empty()
        }
    }
}

/// A group's heading in the listing: its description, else its name.
pub open spec fn group_heading(g: GroupInfo) -> Seq<char> {
    match g.description {
        Some(d) => d@,
        None => g.name@,
    }
}

/// One field for each shown group, in order.
pub open spec fn listing_fields(groups: Seq<GroupInfo>) -> Seq<FieldView>
    decreases groups.len(),
{
    if groups.len() == 0 {
        Seq::empty()
    } else {
        let g = groups.last();
        listing_fields(groups.drop_last()) + if g.help_available {
            seq![block_field(group_heading(g), command_names_text(g.commands@))]
        } else {
            Seq::empty()
        }
    }
}

/// The embed that lists all commands.
pub open spec fn listing_embed(groups: Seq<GroupInfo>) -> EmbedView {
    EmbedView {
        title: Some("Available Commands"@),
        description: Some("To get more info on a command, type `help {command}`"@),
        color: Some(EmbedColor::Purple),
        image: None,
        footer: None,
        fields: listing_fields(groups),
    }
}

/// Every command that the listing shows has a name.
pub open spec fn listing_ready(groups: Seq<GroupInfo>) -> bool {
    forall|i: int, j: int|
        0 <= i < groups.len() && groups[i].help_available && 0 <= j < groups[i].commands@.len()
            && (#[trigger] groups[i].commands@[j]).help_available ==> groups[i].commands@[j].names@.len()
            > 0
}

/// The names of the shown commands of a group, each as `` `name` ``.
fn command_names(cmds: &Vec<CommandInfo>) -> (r: String)
    requires
        forall|j: int|
            0 <= j < cmds@.len() && (#[trigger] cmds@[j]).help_available ==> cmds@[j].names@.len() > 0,
    ensures
        r@ == command_names_text(cmds@),
{
    let mut text = String::new();
    let n: usize = cmds.len();
    for j in 0..n
        invariant
            n == cmds@.len(),
            forall|j: int|
                0 <= j < cmds@.len() && (#[trigger] cmds@[j]).help_available ==> cmds@[j].names@.len()
                    > 0,
            text@ == command_names_text(cmds@.take(j as int)),
    {
        let c = &cmds[j];
        assert(cmds@.take(j + 1).drop_last() =~= cmds@.take(j as int));
        if c.help_available {
            text.append(" `");
            text.append(c.names[0].as_str());
            text.append("`");
        }
        assert(text@ =~= command_names_text(cmds@.take(j + 1)));
    }
    assert(cmds@.take(n as int) =~= cmds@);
    text
}

/// The embed that lists every shown group with its shown commands.
pub fn listing(groups: &Vec<GroupInfo>) -> (e: MessageEmbed)
    requires
        listing_ready(groups@),
    ensures
        e@ == listing_embed(groups@),
{
    let mut fields: Vec<EmbedField> = Vec::new();
    let n: usize = groups.len();
    for i in 0..n
        invariant
            n == groups@.len(),
            listing_ready(groups@),
            field_views(fields@) == listing_fields(groups@.take(i as int)),
    {
        let g = &groups[i];
        assert(groups@.take(i + 1).drop_last() =~= groups@.take(i as int));
        if g.help_available {
            let heading = match &g.description {
                Some(d) => d.clone(),
                None => g.name.clone(),
            };
            assert forall|j: int|
                0 <= j < g.commands@.len() && (#[trigger] g.commands@[j]).help_available implies g.commands@[j].names@.len()
                > 0 by {
                assert(groups@[i as int].commands@[j].help_available);
            }
            let names = command_names(&g.commands);
            push_block_field(&mut fields, heading, names);
        }
        assert(field_views(fields@) =~= listing_fields(groups@.take(i + 1)));
    }
    assert(groups@.take(n as int) =~= groups@);
    MessageEmbed {
        title: Some(String::from_str("Available Commands")),
        description: Some(String::from_str("To get more info on a command, type `help {command}`")),
        color: Some(EmbedColor::Purple),
        image: None,
        footer: None,
        fields,
    }
}


/// Whether one of a command's names is `name`.
pub open spec fn command_matches(c: CommandInfo, name: Seq<char>) -> bool {
    exists|k: int| 0 <= k < c.names@.len() && (#[trigger] c.names@[k])@ == name
}

/// The position of the last command of `cmds` that goes by `name`.
pub open spec fn last_in_group(cmds: Seq<CommandInfo>, name: Seq<char>) -> Option<int>
    decreases cmds.len(),
{
    if cmds.len() == 0 {
        None
    } else if command_matches(cmds.last(), name) {
        Some(cmds.len() - 1)
    } else {
        last_in_group(cmds.drop_last(), name)
    }
}

/// The group and position of the last command, over all groups in order,
/// that goes by `name`.
pub open spec fn last_match(groups: Seq<GroupInfo>, name: Seq<char>) -> Option<(int, int)>
    decreases groups.len(),
{
    if groups.len() == 0 {
        None
    } else {
        match last_in_group(groups.last().commands@, name) {
            Some(j) => Some(((groups.len() - 1) as int, j)),
            None => last_match(groups.drop_last(), name),
        }
    }
}

/// Whether one of the command's names is `name`.
fn goes_by(c: &CommandInfo, name: &String) -> (r: bool)
    ensures
        r == command_matches(*c, name@),
{
    let n: usize = c.names.len();
    for k in 0..n
        invariant
            n == c.names@.len(),
            forall|m: int| 0 <= m < k ==> (#[trigger] c.names@[m])@ != name@,
    {
        if c.names[k] == *name {
            return true;
        }
    }
    false
}

/// Finds the last command, over all groups in order, that goes by `name`.
pub fn find_command(groups: &Vec<GroupInfo>, name: &String) -> (r: Option<(usize, usize)>)
    ensures
        match r {
            Some((i, j)) => last_match(groups@, name@) == Some((i as int, j as int)),
            None => last_match(groups@, name@) is None,
        },
{
    let mut found: Option<(usize, usize)> = None;
    let n: usize = groups.len();
    for i in 0..n
        invariant
            n == groups@.len(),
            match found {
                Some((a, b)) => last_match(groups@.take(i as int), name@) == Some((a as int, b as int)),
                None => last_match(groups@.take(i as int), name@) is None,
            },
    {
        let cmds = &groups[i].commands;
        let m: usize = cmds.len();
        let mut inner: Option<usize> = None;
        for j in 0..m
            invariant
                m == cmds@.len(),
                match inner {
                    Some(b) => last_in_group(cmds@.take(j as int), name@) == Some(b as int),
                    None => last_in_group(cmds@.take(j as int), name@) is None,
                },
        {
            assert(cmds@.take(j + 1).drop_last() =~= cmds@.take(j as int));
            if goes_by(&cmds[j], name) {
                inner = Some(j);
            }
        }
        assert(cmds@.take(m as int) =~= cmds@);
        assert(groups@.take(i + 1).drop_last() =~= groups@.take(i as int));
        assert(groups@.take(i + 1).last() == groups@[i as int]);
        match inner {
            Some(b) => {
                found = Some((i, b));
            },
            None => {},
        }
    }
    assert(groups@.take(n as int) =~= groups@);
    found
}

/// The aliases of a command, each on a line of its own as `- alias`.
pub open spec fn alias_text(aliases: Seq<String>) -> Seq<char>
    decreases aliases.len(),
{
    if aliases.len() == 0 {
        Seq::empty()
    } else {
        alias_text(aliases.drop_last()) + "\n- "@ + aliases.last()@
    }
}

/// The examples of a command, each on a line of its own as `` `{prefix}example` ``.
pub open spec fn example_text(examples: Seq<String>, prefix: Seq<char>) -> Seq<char>
    decreases examples.len(),
{
    if examples.len() == 0 {
        Seq::empty()
    } else {
        example_text(examples.drop_last(), prefix) + "\n`"@ + prefix + examples.last()@ + "`"@
    }
}

/// The fields of a command's page: its aliases, its use and its examples,
/// each only where the command has them.
pub open spec fn command_page_fields(c: CommandInfo, prefix: Seq<char>) -> Seq<FieldView> {
    (if c.names@.len() > 1 {
        seq![block_field("Aliases"@, alias_text(c.names@.drop_first()))]
    } else {
        Seq::empty()
    }) + (match c.usage {
        Some(u) => seq![block_field("Use"@, "`"@ + prefix + u@ + "`"@)],
        None => Seq::empty(),
    }) + (if c.examples@.len() > 0 {
        seq![
            block_field(
                if c.examples@.len() > 1 {
                    "Examples"@
                } else {
                    "Example"@
                },
                example_text(c.examples@, prefix),
            ),
        ]
    } else {
        Seq::empty()
    })
}

/// The number of pictures a command page may show.
pub const HELP_IMAGE_COUNT: usize = 2;

/// The picture shown on a command page, by its number.
pub open spec fn help_image(index: int) -> Seq<char> {
    if index == 0 {
        "https://i.imgur.com/vg0z9yT.jpg"@
    } else {
        "https://i.imgur.com/AUpMkBP.jpg"@
    }
}

/// The page that describes one command.
pub open spec fn command_page(c: CommandInfo, prefix: Seq<char>, image_index: int) -> EmbedView {
    EmbedView {
        title: Some("More info for "@ + c.names@[0]@),
        description: opt_text(c.desc),
        color: Some(EmbedColor::Purple),
        image: Some(help_image(image_index)),
        footer: Some("<> is required, [] is optional"@),
        fields: command_page_fields(c, prefix),
    }
}

/// The page that describes the help command itself.
pub open spec fn help_about_help(prefix: Seq<char>) -> EmbedView {
    EmbedView {
        title: Some("More info for help"@),
        description: Some("The help command provides a list of all usable commands."@),
        color: Some(EmbedColor::Purple),
        image: None,
        footer: None,
        fields: seq![
            block_field("Use"@, "`"@ + prefix + "help <command>*`"@),
            block_field("Examples"@, "`"@ + prefix + "help prefix`\n`"@ + prefix + "help`"@),
        ],
    }
}

/// The answer when no command goes by the name asked for.
pub open spec fn not_found_embed() -> EmbedView {
    EmbedView {
        title: Some("[CMDS] Command not found"@),
        description: None,
        color: Some(EmbedColor::Purple),
        image: None,
        footer: None,
        fields: Seq::empty(),
    }
}

/// The prefix that help pages show: none outside a guild, the guild's own
/// prefix for a registered guild, the default prefix otherwise.
pub open spec fn help_prefix(guild: GuildLookup, default_prefix: Seq<char>) -> Seq<char> {
    match guild {
        GuildLookup::NotInGuild => Seq::empty(),
        GuildLookup::Unregistered => default_prefix,
        GuildLookup::Registered(g) => g.prefix@,
    }
}

/// Whether commands hidden from help may be described: only to a registered
/// guild whose type is not the normal one.
pub open spec fn may_see_hidden(guild: GuildLookup) -> bool {
    match guild {
        GuildLookup::Registered(g) => !is_normal_type(g.guild_type),
        _ => false,
    }
}

/// What the help command answers, with `None` where it sends nothing.
/// `request` is the first argument given to help, if any.
pub open spec fn help_answer(
    groups: Seq<GroupInfo>,
    request: Option<Seq<char>>,
    guild: GuildLookup,
    default_prefix: Seq<char>,
    image_index: int,
) -> Option<EmbedView> {
    match request {
        None => Some(listing_embed(groups)),
        Some(name) => {
            let prefix = help_prefix(guild, default_prefix);
            if name == "help"@ {
                Some(help_about_help(prefix))
            } else {
                match last_match(groups, name) {
                    None => Some(not_found_embed()),
                    Some((i, j)) => {
                        let c = groups[i].commands@[j];
                        if !c.help_available && !may_see_hidden(guild) {
                            None
                        } else {
                            Some(command_page(c, prefix, image_index))
                        }
                    },
                }
            }
        },
    }
}


/// A command found by name lies within its group and goes by that name.
pub proof fn lemma_last_in_group_valid(cmds: Seq<CommandInfo>, name: Seq<char>)
    ensures
        last_in_group(cmds, name) matches Some(j) ==> 0 <= j < cmds.len() && command_matches(
            cmds[j],
            name,
        ),
    decreases cmds.len(),
{
    if cmds.len() > 0 && !command_matches(cmds.last(), name) {
        lemma_last_in_group_valid(cmds.drop_last(), name);
    }
}

/// A command found by name over all groups lies within them and goes by that name.
pub proof fn lemma_last_match_valid(groups: Seq<GroupInfo>, name: Seq<char>)
    ensures
        last_match(groups, name) matches Some((i, j)) ==> 0 <= i < groups.len() && 0 <= j
            < groups[i].commands@.len() && command_matches(groups[i].commands@[j], name),
    decreases groups.len(),
{
    if groups.len() > 0 {
        lemma_last_in_group_valid(groups.last().commands@, name);
        if last_in_group(groups.last().commands@, name) is None {
            lemma_last_match_valid(groups.drop_last(), name);
        }
    }
}

/// The prefix that help pages show.
pub fn prefix_for_help(guild: &GuildLookup, default_prefix: &String) -> (r: String)
    ensures
        r@ == help_prefix(*guild, default_prefix@),
{
    match guild {
        GuildLookup::NotInGuild => String::new(),
        GuildLookup::Unregistered => default_prefix.clone(),
        GuildLookup::Registered(g) => g.prefix.clone(),
    }
}

/// Whether commands hidden from help may be described to this guild.
pub fn sees_hidden_commands(guild: &GuildLookup) -> (r: bool)
    ensures
        r == may_see_hidden(*guild),
{
    match guild {
        GuildLookup::Registered(g) => !is_normal_guild_type(g.guild_type),
        _ => false,
    }
}

/// The aliases of a command (all its names but the first), one per line.
fn alias_lines(names: &Vec<String>) -> (r: String)
    requires
        names@.len() > 0,
    ensures
        r@ == alias_text(names@.drop_first()),
{
    let mut text = String::new();
    let n: usize = names.len();
    assert(names@.subrange(1, 1) =~= Seq::<String>::empty());
    for k in 1..n
        invariant
            n == names@.len(),
            text@ == alias_text(names@.subrange(1, k as int)),
    {
        assert(names@.subrange(1, k + 1).drop_last() =~= names@.subrange(1, k as int));
        text.append("\n- ");
        text.append(names[k].as_str());
    }
    assert(names@.subrange(1, n as int) =~= names@.drop_first());
    text
}

/// The examples of a command, one per line, each after the prefix.
fn example_lines(examples: &Vec<String>, prefix: &String) -> (r: String)
    ensures
        r@ == example_text(examples@, prefix@),
{
    let mut text = String::new();
    let n: usize = examples.len();
    for k in 0..n
        invariant
            n == examples@.len(),
            text@ == example_text(examples@.take(k as int), prefix@),
    {
        assert(examples@.take(k + 1).drop_last() =~= examples@.take(k as int));
        text.append("\n`");
        text.append(prefix.as_str());
        text.append(examples[k].as_str());
        text.append("`");
    }
    assert(examples@.take(n as int) =~= examples@);
    text
}

/// `"{head}{middle}{tail}"`.
fn enclose(head: &str, middle: &str, tail: &str) -> (r: String)
    ensures
        r@ == head@ + middle@ + tail@,
{
    let mut text = String::from_str(head);
    text.append(middle);
    text.append(tail);
    text
}

/// The page that describes one command, showing picture number `image_index`.
pub fn command_page_embed(c: &CommandInfo, prefix: &String, image_index: usize) -> (e: MessageEmbed)
    requires
        c.names@.len() > 0,
        image_index < HELP_IMAGE_COUNT,
    ensures
        e@ == command_page(*c, prefix@, image_index as int),
{
    let mut fields: Vec<EmbedField> = Vec::new();
    if c.names.len() > 1 {
        push_block_field(&mut fields, String::from_str("Aliases"), alias_lines(&c.names));
    }
    let ghost after_aliases = field_views(fields@);
    match &c.usage {
        Some(u) => {
            let mut value = enclose("`", prefix.as_str(), u.as_str());
            value.append("`");
            push_block_field(&mut fields, String::from_str("Use"), value);
        },
        None => {},
    }
    let ghost after_use = field_views(fields@);
    if c.examples.len() > 0 {
        let name = if c.examples.len() > 1 {
            String::from_str("Examples")
        } else {
            String::from_str("Example")
        };
        push_block_field(&mut fields, name, example_lines(&c.examples, prefix));
    }
    assert(field_views(fields@) =~= command_page_fields(*c, prefix@));
    let image = if image_index == 0 {
        String::from_str("https://i.imgur.com/vg0z9yT.jpg")
    } else {
        String::from_str("https://i.imgur.com/AUpMkBP.jpg")
    };
    let mut title = String::from_str("More info for ");
    title.append(c.names[0].as_str());
    MessageEmbed {
        title: Some(title),
        description: copy_opt_text(&c.desc),
        color: Some(EmbedColor::Purple),
        image: Some(image),
        footer: Some(String::from_str("<> is required, [] is optional")),
        fields,
    }
}

/// The page that describes the help command itself.
fn help_about_help_embed(prefix: &String) -> (e: MessageEmbed)
    ensures
        e@ == help_about_help(prefix@),
{
    let mut fields: Vec<EmbedField> = Vec::new();
    push_block_field(
        &mut fields,
        String::from_str("Use"),
        enclose("`", prefix.as_str(), "help <command>*`"),
    );
    let mut examples = enclose("`", prefix.as_str(), "help prefix`\n`");
    examples.append(prefix.as_str());
    examples.append("help`");
    push_block_field(&mut fields, String::from_str("Examples"), examples);
    assert(field_views(fields@) =~= help_about_help(prefix@).fields);
    MessageEmbed {
        title: Some(String::from_str("More info for help")),
        description: Some(String::from_str("The help command provides a list of all usable commands.")),
        color: Some(EmbedColor::Purple),
        image: None,
        footer: None,
        fields,
    }
}

/// The answer when no command goes by the name asked for.
fn not_found() -> (e: MessageEmbed)
    ensures
        e@ == not_found_embed(),
{
    let fields: Vec<EmbedField> = Vec::new();
    assert(field_views(fields@) =~= Seq::<FieldView>::empty());
    MessageEmbed {
        title: Some(String::from_str("[CMDS] Command not found")),
        description: None,
        color: Some(EmbedColor::Purple),
        image: None,
        footer: None,
        fields,
    }
}


/// Answers the help command with picture number `image_index` for a command
/// page: the listing when no argument was given, the page about help, the
/// not-found answer, the page of the command asked for, or nothing where that
/// command is hidden from the guild asking.
pub fn help_reply(
    groups: &Vec<GroupInfo>,
    request: &Option<String>,
    guild: &GuildLookup,
    default_prefix: &String,
    image_index: usize,
) -> (r: Option<MessageEmbed>)
    requires
        request is None ==> listing_ready(groups@),
        image_index < HELP_IMAGE_COUNT,
    ensures
        opt_embed(r) == help_answer(
            groups@,
            opt_text(*request),
            *guild,
            default_prefix@,
            image_index as int,
        ),
{
    match request {
        None => Some(listing(groups)),
        Some(name) => {
            let prefix = prefix_for_help(guild, default_prefix);
            if same_text(name.as_str(), "help") {
                Some(help_about_help_embed(&prefix))
            } else {
                match find_command(groups, name) {
                    None => Some(not_found()),
                    Some((i, j)) => {
                        proof {
                            lemma_last_match_valid(groups@, name@);
                        }
                        let c = &groups[i].commands[j];
                        if !c.help_available && !sees_hidden_commands(guild) {
                            None
                        } else {
                            Some(command_page_embed(c, &prefix, image_index))
                        }
                    },
                }
            }
        },
    }
}

/// rand's thread-local generator.
#[verifier::external_type_specification]
#[verifier::external_body]
pub struct ExThreadRng(rand::rngs::ThreadRng);

/// rand's `thread_rng()`: the generator of the calling thread, seeded by the
/// system. Nothing is stated of it.
#[verifier::external_body]
fn thread_generator() -> rand::rngs::ThreadRng {
    rand::thread_rng()
}

/// rand's `Rng::gen_range(0..upper)`: a number below `upper`. rand documents
/// that it samples the half-open range and panics only on an empty one. Which
/// number comes out is left open.
#[verifier::external_body]
fn random_below(rng: &mut rand::rngs::ThreadRng, upper: usize) -> (r: usize)
    requires
        upper > 0,
    ensures
        r < upper,
{
    rng.gen_range(0..upper)
}

/// Answers the help command, showing a picture drawn at random on a command
/// page; otherwise as `help_reply`.
pub fn help(
    groups: &Vec<GroupInfo>,
    request: &Option<String>,
    guild: &GuildLookup,
    default_prefix: &String,
) -> (r: Option<MessageEmbed>)
    requires
        request is None ==> listing_ready(groups@),
    ensures
        exists|k: int|
            0 <= k < HELP_IMAGE_COUNT && opt_embed(r) == #[trigger] help_answer(
                groups@,
                opt_text(*request),
                *guild,
                default_prefix@,
                k,
            ),
{
    let mut rng = thread_generator();
    let image_index: usize = random_below(&mut rng, HELP_IMAGE_COUNT);
    let r = help_reply(groups, request, guild, default_prefix, image_index);
    assert(opt_embed(r) == help_answer(
        groups@,
        opt_text(*request),
        *guild,
        default_prefix@,
        image_index as int,
    ));
    r
}


/// A group hidden from help adds nothing to the listing, and a shown group adds
/// exactly its own field after those of the groups before it.
pub proof fn law_listing_follows_shown_groups(groups: Seq<GroupInfo>, g: GroupInfo)
    ensures
        !g.help_available ==> listing_embed(groups.push(g)) == listing_embed(groups),
        g.help_available ==> listing_embed(groups.push(g)).fields == listing_embed(groups).fields.push(
            block_field(group_heading(g), command_names_text(g.commands@)),
        ),
{
    assert(groups.push(g).drop_last() =~= groups);
    assert(listing_fields(groups) + Seq::<FieldView>::empty() =~= listing_fields(groups));
    assert(listing_fields(groups) + seq![block_field(group_heading(g), command_names_text(g.commands@))]
        =~= listing_fields(groups).push(block_field(group_heading(g), command_names_text(g.commands@))));
}

/// A command hidden from help is never described to a guild that is not
/// registered with a special type: asking for it gets no answer at all.
pub proof fn law_hidden_commands_stay_hidden(
    groups: Seq<GroupInfo>,
    name: Seq<char>,
    guild: GuildLookup,
    default_prefix: Seq<char>,
    image_index: int,
)
    requires
        name != "help"@,
        last_match(groups, name) matches Some((i, j)) && !groups[i].commands@[j].help_available,
        !may_see_hidden(guild),
    ensures
        help_answer(groups, Some(name), guild, default_prefix, image_index) is None,
{
}

/// Asking help for a name that no command goes by is answered with the
/// not-found embed, whatever guild asks.
pub proof fn law_unknown_command_not_found(
    groups: Seq<GroupInfo>,
    name: Seq<char>,
    guild: GuildLookup,
    default_prefix: Seq<char>,
    image_index: int,
)
    requires
        name != "help"@,
        forall|i: int, j: int|
            0 <= i < groups.len() && 0 <= j < groups[i].commands@.len() ==> !command_matches(
                #[trigger] groups[i].commands@[j],
                name,
            ),
    ensures
        help_answer(groups, Some(name), guild, default_prefix, image_index) == Some(not_found_embed()),
{
    lemma_last_match_valid(groups, name);
}


/// The listing text of a group's commands grows command by command: each shown
/// command adds `` `name` `` after everything before it, whatever came before,
/// and a hidden command adds nothing.
pub proof fn law_command_names_accumulate(cmds: Seq<CommandInfo>, c: CommandInfo)
    ensures
        command_names_text(Seq::empty()) == Seq::<char>::empty(),
        command_names_text(cmds.push(c)) == command_names_text(cmds) + if c.help_available {
            " `"@ + c.names@[0]@ + "`"@
        } else {
            Seq::<char>::empty()
        },
{
    assert(cmds.push(c).drop_last() =~= cmds);
}

/// The aliases text lists every alias in order: each adds a line `- alias`
/// after the ones before it.
pub proof fn law_aliases_accumulate(aliases: Seq<String>, a: String)
    ensures
        alias_text(Seq::empty()) == Seq::<char>::empty(),
        alias_text(aliases.push(a)) == alias_text(aliases) + "\n- "@ + a@,
{
    assert(aliases.push(a).drop_last() =~= aliases);
}

/// The examples text lists every example in order, each on its own line after
/// the prefix, between backticks.
pub proof fn law_examples_accumulate(examples: Seq<String>, e: String, prefix: Seq<char>)
    ensures
        example_text(Seq::empty(), prefix) == Seq::<char>::empty(),
        example_text(examples.push(e), prefix) == example_text(examples, prefix) + "\n`"@ + prefix
            + e@ + "`"@,
{
    assert(examples.push(e).drop_last() =~= examples);
}

/// The page of a command found by name, where the asking guild may see it,
/// shows the prefix that applies to that guild: its own prefix when it is
/// registered, the default prefix when its record could not be read, none
/// outside a guild. Its title names the command, its aliases field holds all
/// its other names, and its use field is the usage after that prefix.
pub proof fn law_page_uses_applicable_prefix(
    groups: Seq<GroupInfo>,
    name: Seq<char>,
    guild: GuildLookup,
    default_prefix: Seq<char>,
    image_index: int,
    i: int,
    j: int,
)
    requires
        name != "help"@,
        last_match(groups, name) == Some((i, j)),
        groups[i].commands@[j].help_available || may_see_hidden(guild),
    ensures
        ({
            let c = groups[i].commands@[j];
            let p = match guild {
                GuildLookup::NotInGuild => Seq::<char>::empty(),
                GuildLookup::Unregistered => default_prefix,
                GuildLookup::Registered(g) => g.prefix@,
            };
            let answer = help_answer(groups, Some(name), guild, default_prefix, image_index);
            &&& answer == Some(command_page(c, help_prefix(guild, default_prefix), image_index))
            &&& answer matches Some(page) && {
                &&& page.title == Some("More info for "@ + c.names@[0]@)
                &&& c.names@.len() > 1 ==> page.fields.contains(
                    block_field("Aliases"@, alias_text(c.names@.drop_first())),
                )
                &&& c.usage matches Some(u) ==> page.fields.contains(
                    block_field("Use"@, "`"@ + p + u@ + "`"@),
                )
                &&& c.examples@.len() > 0 ==> page.fields.last().value == example_text(
                    c.examples@,
                    p,
                )
            }
        }),
{
    let c = groups[i].commands@[j];
    let p = help_prefix(guild, default_prefix);
    let fields = command_page_fields(c, p);
    if c.names@.len() > 1 {
        assert(fields[0] == block_field("Aliases"@, alias_text(c.names@.drop_first())));
    }
    if c.usage is Some {
        let u = c.usage->0;
        let at: int = if c.names@.len() > 1 {
            1
        } else {
            0
        };
        assert(fields[at] == block_field("Use"@, "`"@ + p + u@ + "`"@));
    }
}

} // verus!
