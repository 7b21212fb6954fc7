//! A plain description of a Discord embed: what the bot puts in the embeds it
//! sends, held as text so that contracts can speak of it.

use vstd::prelude::*;

verus! {

/// The colours the bot gives its embeds.
#[derive(Clone, Copy, Debug, PartialEq, Eq, Structural)]
pub enum EmbedColor {
    Purple,
    Red,
}

/// One field of an embed.
pub struct EmbedField {
    pub name: String,
    pub value: String,
    pub inline: bool,
}

/// The content of an embed, in the order the bot sets it.
pub struct MessageEmbed {
    pub title: Option<String>,
    pub description: Option<String>,
    pub color: Option<EmbedColor>,
    pub image: Option<String>,
    pub footer: Option<String>,
    pub fields: Vec<EmbedField>,
}

/// The text of one embed field.
#[verifier::ext_equal]
pub struct FieldView {
    pub name: Seq<char>,
    pub value: Seq<char>,
    pub inline: bool,
}

/// The text of an embed.
#[verifier::ext_equal]
pub struct EmbedView {
    pub title: Option<Seq<char>>,
    pub description: Option<Seq<char>>,
    pub color: Option<EmbedColor>,
    pub image: Option<Seq<char>>,
    pub footer: Option<Seq<char>>,
    pub fields: Seq<FieldView>,
}

/// The text of an optional string.
pub open spec fn opt_text(o: Option<String>) -> Option<Seq<char>> {
    match o {
        Some(s) => Some(s@),
        None => None,
    }
}

/// A field shown on a line of its own (not inline).
pub open spec fn block_field(name: Seq<char>, value: Seq<char>) -> FieldView {
    FieldView { name, value, inline: false }
}

impl View for EmbedField {
    type V = FieldView;

    open spec fn view(&self) -> FieldView {
        FieldView { name: self.name@, value: self.value@, inline: self.inline }
    }
}

/// The texts of a list of fields.
pub open spec fn field_views(fields: Seq<EmbedField>) -> Seq<FieldView> {
    fields.map_values(|f: EmbedField| f@)
}

impl View for MessageEmbed {
    type V = EmbedView;

    open spec fn view(&self) -> EmbedView {
        EmbedView {
            title: opt_text(self.title),
            description: opt_text(self.description),
            color: self.color,
            image: opt_text(self.image),
            footer: opt_text(self.footer),
            fields: field_views(self.fields@),
        }
    }
}

/// The text of an optional embed.
pub open spec fn opt_embed(o: Option<MessageEmbed>) -> Option<EmbedView> {
    match o {
        Some(e) => Some(e@),
        None => None,
    }
}

/// A copy of an optional string.
pub fn copy_opt_text(o: &Option<String>) -> (r: Option<String>)
    ensures
        opt_text(r) == opt_text(*o),
{
    match o {
        Some(s) => Some(s.clone()),
        None => None,
    }
}

/// Adds a non-inline field at the end of a list of fields.
pub fn push_block_field(fields: &mut Vec<EmbedField>, name: String, value: String)
    ensures
        field_views(final(fields)@) == field_views(old(fields)@).push(block_field(name@, value@)),
{
    let ghost before = fields@;
    fields.push(EmbedField { name, value, inline: false });
    assert(field_views(fields@) =~= field_views(before).push(block_field(name@, value@)));
}

} // verus!
