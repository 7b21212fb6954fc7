//! The custom reactions: how the bot answers an ordinary message whose text
//! a guild has tied to a reply.

use vstd::prelude::*;

use crate::embed::opt_text;

verus! {

/// What looking up a guild's custom reaction for a message gave.
pub enum ReactionLookup {
    /// The message came from no guild.
    NotInGuild,
    /// The guild has no reaction for this text.
    NoReaction,
    /// The lookup failed; its error in debug form.
    Failed(String),
    /// The guild has a reaction for this text.
    Found,
}

/// A reaction's reply, once read: an embed, with the text sent beside it and
/// the text sent instead should the embed be refused, or a plain text.
pub enum ParsedReply {
    Embed { plain_text: Option<String>, fallback: String },
    Text(String),
}

/// The next thing to do while answering a message.
pub enum ReplyStep {
    /// Read the reaction's reply.
    ReadReply,
    /// Send the reply's embed, with this text beside it.
    SendEmbed { content: Option<String> },
    /// Send this text.
    SendText(String),
    /// Log this error.
    Log(String),
    /// Nothing more is done.
    Done,
}

/// The text of an answer step, for contracts.
pub enum ReplyStepView {
    ReadReply,
    SendEmbed { content: Option<Seq<char>> },
    SendText(Seq<char>),
    Log(Seq<char>),
    Done,
}

impl View for ReplyStep {
    type V = ReplyStepView;

    open spec fn view(&self) -> ReplyStepView {
        match self {
            ReplyStep::ReadReply => ReplyStepView::ReadReply,
            ReplyStep::SendEmbed { content } => ReplyStepView::SendEmbed { content: opt_text(*content) },
            ReplyStep::SendText(t) => ReplyStepView::SendText(t@),
            ReplyStep::Log(e) => ReplyStepView::Log(e@),
            ReplyStep::Done => ReplyStepView::Done,
        }
    }
}

/// The step after a lookup: read the reply where a reaction was found, log a
/// failed lookup, and otherwise do nothing.
pub fn step_after_lookup(lookup: &ReactionLookup) -> (r: ReplyStep)
    ensures
        r@ == match *lookup {
            ReactionLookup::Found => ReplyStepView::ReadReply,
            ReactionLookup::Failed(e) => ReplyStepView::Log(e@),
            _ => ReplyStepView::Done,
        },
{
    match lookup {
        ReactionLookup::Found => ReplyStep::ReadReply,
        ReactionLookup::Failed(e) => ReplyStep::Log(e.clone()),
        _ => ReplyStep::Done,
    }
}

/// The step after the reply was read: send its embed or its text.
pub fn step_after_reading(reply: &ParsedReply) -> (r: ReplyStep)
    ensures
        r@ == match *reply {
            ParsedReply::Embed { plain_text, .. } => ReplyStepView::SendEmbed {
                content: opt_text(plain_text),
            },
            ParsedReply::Text(t) => ReplyStepView::SendText(t@),
        },
{
    match reply {
        ParsedReply::Embed { plain_text, .. } => ReplyStep::SendEmbed {
            content: match plain_text {
                Some(t) => Some(t.clone()),
                None => None,
            },
        },
        ParsedReply::Text(t) => ReplyStep::SendText(t.clone()),
    }
}

/// The step after the embed was sent, or refused: a refused embed is replaced
/// by the reply's fallback text; nothing follows a sent one.
pub fn step_after_embed(fallback: &String, sent: bool) -> (r: ReplyStep)
    ensures
        r@ == if sent {
            ReplyStepView::Done
        } else {
            ReplyStepView::SendText(fallback@)
        },
{
    if sent {
        ReplyStep::Done
    } else {
        ReplyStep::SendText(fallback.clone())
    }
}

} // verus!
