//! Replies of the `nhentai` command.

use vstd::prelude::*;
use crate::commands::{Embed, embed_is, embed_one, embed_two};
use crate::text::decimal;
use crate::utils::nhentai::{Gallery, gallery_link, tags_text};

verus! {

/// The embed sent where the channel is not marked NSFW.
pub fn nsfw_required_embed() -> (embed: Embed)
    ensures
        embed_is(
            embed,
            "Error~"@,
            seq![("Missing nsfw tag."@, "This command is only available in NSFW tagged channels."@)],
        ),
{
    embed_one(
        "Error~".to_string(),
        "Missing nsfw tag.".to_string(),
        "This command is only available in NSFW tagged channels.".to_string(),
    )
}

/// What `nhentai` does in a channel.
#[derive(Debug)]
pub enum NhentaiStep {
    /// The channel is not marked NSFW: answer with this embed and fetch nothing.
    Refuse(Embed),
    /// The channel is marked NSFW: fetch the gallery and present it.
    FetchGallery,
}

/// Decides what `nhentai` does in a channel that is, or is not, marked NSFW: galleries are
/// only fetched in NSFW channels; elsewhere the command answers with `nsfw_required_embed`.
pub fn nhentai_step(channel_is_nsfw: bool) -> (step: NhentaiStep)
    ensures
        channel_is_nsfw <==> step is FetchGallery,
        step matches NhentaiStep::Refuse(embed) ==> embed_is(
            embed,
            "Error~"@,
            seq![("Missing nsfw tag."@, "This command is only available in NSFW tagged channels."@)],
        ),
{
    if channel_is_nsfw {
        NhentaiStep::FetchGallery
    } else {
        NhentaiStep::Refuse(nsfw_required_embed())
    }
}

/// The embed that presents gallery `id`: its pretty title, a field with its link, and a
/// field with the listing of its plain tags.
pub fn gallery_embed(gallery: Gallery, id: i64) -> (embed: Embed)
    ensures
        embed_is(
            embed,
            gallery.title.pretty@,
            seq![
                ("Link"@, "https://nhentai.net/g/"@ + decimal(id as int)),
                ("Tags"@, tags_text(gallery.tags@)),
            ],
        ),
{
    let title = gallery.title.pretty.clone();
    let link = gallery_link(id);
    let tags = gallery.get_tags();
    embed_two(title, ("Link".to_string(), link), ("Tags".to_string(), tags))
}

} // verus!
