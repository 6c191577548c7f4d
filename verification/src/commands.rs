//! What the bot's commands answer, computed from plain values; sending it is left to the caller.

pub mod admin;
pub mod economy;
pub mod fun;
pub mod manager;

use vstd::prelude::*;

verus! {

/// The colour of every embed the bot sends.
pub const EMBED_COLOUR: u32 = 0xff0069;

/// A named field of an embed.
#[derive(Debug)]
pub struct EmbedField {
    pub name: String,
    pub value: String,
}

/// An embed: a title and its fields, in order (none of them inline).
#[derive(Debug)]
pub struct Embed {
    pub title: String,
    pub fields: Vec<EmbedField>,
}

/// The embed has exactly the given title and fields (names and values), in order.
pub open spec fn embed_is(embed: Embed, title: Seq<char>, fields: Seq<(Seq<char>, Seq<char>)>) -> bool {
    &&& embed.title@ == title
    &&& embed.fields@.len() == fields.len()
    &&& forall|i: int|
        0 <= i < fields.len() ==> (#[trigger] embed.fields@[i]).name@ == fields[i].0
            && embed.fields@[i].value@ == fields[i].1
}

/// An embed with one field.
pub fn embed_one(title: String, name: String, value: String) -> (embed: Embed)
    ensures
        embed_is(embed, title@, seq![(name@, value@)]),
{
    let mut fields = Vec::new();
    fields.push(EmbedField { name, value });
    Embed { title, fields }
}

/// An embed with two fields.
pub fn embed_two(title: String, first: (String, String), second: (String, String)) -> (embed: Embed)
    ensures
        embed_is(embed, title@, seq![(first.0@, first.1@), (second.0@, second.1@)]),
{
    let mut fields = Vec::new();
    fields.push(EmbedField { name: first.0, value: first.1 });
    fields.push(EmbedField { name: second.0, value: second.1 });
    Embed { title, fields }
}

} // verus!
