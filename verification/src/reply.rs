//! The messages the bot shows: embeds and the buttons under them, as plain values.
use vstd::prelude::*;

verus! {

/// The colours that the bot's embeds use.
#[derive(Clone, Copy, Debug, PartialEq, Eq, Structural)]
pub enum EmbedColour {
    Red,
    DarkGreen,
    Gold,
    Orange,
    LightGrey,
    DarkPurple,
}

/// One named field of an embed.
#[derive(Debug)]
pub struct EmbedField {
    pub name: String,
    pub value: String,
    pub inline: bool,
}

/// A rich message: title, description, fields and colour.
#[derive(Debug)]
pub struct Embed {
    pub title: String,
    pub description: String,
    pub fields: Vec<EmbedField>,
    pub colour: EmbedColour,
}

/// The model of an embed field.
pub struct FieldModel {
    pub name: Seq<char>,
    pub value: Seq<char>,
    pub inline: bool,
}

/// The model of an embed.
pub struct EmbedModel {
    pub title: Seq<char>,
    pub description: Seq<char>,
    pub fields: Seq<FieldModel>,
    pub colour: EmbedColour,
}

impl View for EmbedField {
    type V = FieldModel;

    open spec fn view(&self) -> FieldModel {
        FieldModel { name: self.name@, value: self.value@, inline: self.inline }
    }
}

impl View for Embed {
    type V = EmbedModel;

    open spec fn view(&self) -> EmbedModel {
        EmbedModel {
            title: self.title@,
            description: self.description@,
            fields: self.fields@.map_values(|f: EmbedField| f@),
            colour: self.colour,
        }
    }
}

/// An embed with no fields.
pub open spec fn plain_embed(title: Seq<char>, description: Seq<char>, colour: EmbedColour) -> EmbedModel {
    EmbedModel { title, description, fields: Seq::empty(), colour }
}

/// Builds an embed with no fields.
pub fn embed(title: &str, description: &str, colour: EmbedColour) -> (e: Embed)
    ensures
        e@ == plain_embed(title@, description@, colour),
{
    let e = Embed {
        title: String::from_str(title),
        description: String::from_str(description),
        fields: Vec::new(),
        colour,
    };
    assert(e@.fields =~= Seq::<FieldModel>::empty());
    e
}

/// Adds a field at the end of an embed.
pub fn add_field(e: &mut Embed, name: &str, value: &str, inline: bool)
    ensures
        final(e)@ == (EmbedModel {
            fields: old(e)@.fields.push(FieldModel { name: name@, value: value@, inline }),
            ..old(e)@
        }),
{
    e.fields.push(EmbedField { name: String::from_str(name), value: String::from_str(value), inline });
    assert(e@.fields =~= old(e)@.fields.push(FieldModel { name: name@, value: value@, inline }));
}

/// The embed shown to a user who has not linked a Minecraft account yet.
pub open spec fn not_registered_spec() -> EmbedModel {
    plain_embed(
        "Not Registered"@,
        "You need to link your Discord account to a Minecraft account before using this command.\n\nRun `/register_minecraft` to get started."@,
        EmbedColour::Red,
    )
}

/// Builds the standard "not registered" embed, for any command that needs a linked
/// Minecraft account.
pub fn not_registered_embed() -> (e: Embed)
    ensures
        e@ == not_registered_spec(),
{
    embed(
        "Not Registered",
        "You need to link your Discord account to a Minecraft account before using this command.\n\nRun `/register_minecraft` to get started.",
        EmbedColour::Red,
    )
}

} // verus!
