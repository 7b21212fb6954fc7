//! What is logged and shown after a command ran.

use vstd::prelude::*;

use crate::clock::{ClockReading, LocalTime, local_now, time_text, time_text_spec};
use crate::embed::{EmbedColor, EmbedField, EmbedView, MessageEmbed, field_views, opt_embed};

verus! {

/// A failed command's error, as the application renders it: its pretty
/// debug form and its display form.
pub struct CommandFailure {
    pub debug_text: String,
    pub display_text: String,
}

/// What is logged after a command, and the embed sent back when it failed.
pub struct CommandReport {
    pub log: String,
    pub embed: Option<MessageEmbed>,
    /// The clock reading the log is stamped with, where it was read here.
    pub stamp: Option<ClockReading>,
}

/// The mark put before each line of a command log.
pub open spec fn log_divider() -> Seq<char> {
    "????????? "@
}

/// The time, user and command lines of a command log.
pub open spec fn log_lines(date: Seq<char>, user: Seq<char>, name: Seq<char>) -> Seq<char> {
    log_divider() + "Time: "@ + date + "\n"@ + log_divider() + "User: "@ + user + "\n"@
        + log_divider() + "Command: "@ + name
}

/// The log of a command that ran without error.
pub open spec fn processed_log(date: Seq<char>, user: Seq<char>, name: Seq<char>) -> Seq<char> {
    "\nCommand Processed:\n"@ + log_lines(date, user, name) + "\n"@
}

/// The log of a command that failed.
pub open spec fn errored_log(
    date: Seq<char>,
    user: Seq<char>,
    name: Seq<char>,
    error_debug: Seq<char>,
) -> Seq<char> {
    "\nCommand Errored:\n"@ + log_lines(date, user, name) + "\n"@ + log_divider() + "Error: "@
        + error_debug
}

/// The contact named in error embeds.
pub open spec fn report_contact() -> Seq<char> {
    "Fifi#2000"@
}

/// The embed sent back when a command failed.
pub open spec fn error_embed(tick_no: Seq<char>, name: Seq<char>, error_text: Seq<char>) -> EmbedView {
    EmbedView {
        title: Some("Error!"@),
        description: Some(
            tick_no + " Error running the command `"@ + name + "`:\n```"@ + error_text
                + "```\n> Please report this error to: `"@ + report_contact() + "`"@,
        ),
        color: Some(EmbedColor::Red),
        image: None,
        footer: None,
        fields: Seq::empty(),
    }
}

/// The report on a command, as texts.
pub open spec fn report_log(
    date: Seq<char>,
    user: Seq<char>,
    name: Seq<char>,
    failure: Option<CommandFailure>,
) -> Seq<char> {
    match failure {
        Some(f) => errored_log(date, user, name, f.debug_text@),
        None => processed_log(date, user, name),
    }
}

/// The embed of a report on a command, as text.
pub open spec fn report_embed(
    tick_no: Seq<char>,
    name: Seq<char>,
    failure: Option<CommandFailure>,
) -> Option<EmbedView> {
    match failure {
        Some(f) => Some(error_embed(tick_no, name, f.display_text@)),
        None => None,
    }
}

/// The lines with the time, the user and the command.
fn log_lines_text(date: &str, user: &str, name: &str) -> (r: String)
    ensures
        r@ == log_lines(date@, user@, name@),
{
    let mut t = String::from_str("????????? ");
    t.append("Time: ");
    t.append(date);
    t.append("\n");
    t.append("????????? ");
    t.append("User: ");
    t.append(user);
    t.append("\n");
    t.append("????????? ");
    t.append("Command: ");
    t.append(name);
    t
}

/// Reports on the command `name` run by `user` at `date`: a log, and an error
/// embed that marks it with `tick_no` when the command failed.
pub fn command_report(
    date: &str,
    user: &str,
    name: &str,
    failure: &Option<CommandFailure>,
    tick_no: &str,
) -> (r: CommandReport)
    ensures
        r.log@ == report_log(date@, user@, name@, *failure),
        opt_embed(r.embed) == report_embed(tick_no@, name@, *failure),
        r.stamp is None,
{
    match failure {
        Some(f) => {
            let mut log = String::from_str("\nCommand Errored:\n");
            let lines = log_lines_text(date, user, name);
            log.append(lines.as_str());
            log.append("\n");
            log.append("????????? ");
            log.append("Error: ");
            log.append(f.debug_text.as_str());
            let mut description = String::from_str(tick_no);
            description.append(" Error running the command `");
            description.append(name);
            description.append("`:\n```");
            description.append(f.display_text.as_str());
            description.append("```\n> Please report this error to: `");
            description.append("Fifi#2000");
            description.append("`");
            let fields: Vec<EmbedField> = Vec::new();
            assert(field_views(fields@) =~= Seq::empty());
            let embed = MessageEmbed {
                title: Some(String::from_str("Error!")),
                description: Some(description),
                color: Some(EmbedColor::Red),
                image: None,
                footer: None,
                fields,
            };
            CommandReport { log, embed: Some(embed), stamp: None }
        },
        None => {
            let mut log = String::from_str("\nCommand Processed:\n");
            let lines = log_lines_text(date, user, name);
            log.append(lines.as_str());
            log.append("\n");
            CommandReport { log, embed: None, stamp: None }
        },
    }
}

/// Reports on a command that just ran, stamped with the current local time
/// written as `YYYY-MM-DD [hh:mm:ss]`: the time read from the clock for this
/// report, which the report keeps as its stamp.
pub fn after_command(
    user: &str,
    name: &str,
    failure: &Option<CommandFailure>,
    tick_no: &str,
) -> (r: CommandReport)
    ensures
        exists|t: LocalTime|
            t.valid() && r.log@ == #[trigger] report_log(time_text_spec(t), user@, name@, *failure),
        opt_embed(r.embed) == report_embed(tick_no@, name@, *failure),
        r.stamp matches Some(c) && c@.valid() && r.log@ == report_log(
            time_text_spec(c@),
            user@,
            name@,
            *failure,
        ),
{
    let reading = local_now();
    let date = time_text(reading.time());
    let report = command_report(date.as_str(), user, name, failure, tick_no);
    assert(report.log@ == report_log(time_text_spec(reading@), user@, name@, *failure));
    CommandReport { log: report.log, embed: report.embed, stamp: Some(reading) }
}

} // verus!
