use nekkobot::text::{i64_text, u64_text};
use nekkobot::utils::nhentai::{gallery_api_url, gallery_link, Gallery, Image, Images, Tag, Title};

fn tag(tag_type: &str, name: &str) -> Tag {
    Tag {
        id: 1,
        tag_type: tag_type.to_string(),
        name: name.to_string(),
        url: format!("/tag/{}/", name),
        count: 10,
    }
}

fn image() -> Image {
    Image { t: "j".to_string(), w: 350, h: 500 }
}

fn gallery(tags: Vec<Tag>) -> Gallery {
    Gallery {
        id: 177013,
        media_id: "987560".to_string(),
        title: Title {
            english: "English title".to_string(),
            japanese: "Japanese title".to_string(),
            pretty: "Pretty Title".to_string(),
        },
        images: Images { pages: vec![image(), image()], cover: image(), thumbnail: image() },
        scanlator: String::new(),
        upload_date: 1476793729,
        tags,
        num_pages: 2,
        num_favorites: 100,
    }
}

#[test]
fn decimal_text_of_integers() {
    assert_eq!(i64_text(0), "0");
    assert_eq!(i64_text(7), "7");
    assert_eq!(i64_text(42), "42");
    assert_eq!(i64_text(-7), "-7");
    assert_eq!(i64_text(-120), "-120");
    assert_eq!(i64_text(i64::MAX), "9223372036854775807");
    assert_eq!(i64_text(i64::MIN), "-9223372036854775808");
    assert_eq!(u64_text(u64::MAX), "18446744073709551615");
    assert_eq!(u64_text(1000), "1000");
}

#[test]
fn tags_lists_only_plain_tags_in_order() {
    let g = gallery(vec![
        tag("tag", "romance"),
        tag("artist", "someone"),
        tag("language", "english"),
        tag("tag", "comedy"),
        tag("tag", "school"),
    ]);
    assert_eq!(g.get_tags(), "romance, comedy, school");
}

#[test]
fn tags_of_gallery_without_plain_tags_is_empty() {
    assert_eq!(gallery(vec![]).get_tags(), "");
    assert_eq!(gallery(vec![tag("artist", "a"), tag("group", "b")]).get_tags(), "");
}

#[test]
fn tags_single_plain_tag_has_no_separator() {
    assert_eq!(gallery(vec![tag("category", "doujinshi"), tag("tag", "solo")]).get_tags(), "solo");
}

#[test]
fn tags_listing_restarts_after_empty_name() {
    // An empty first name leaves the listing empty, so the next name starts it.
    assert_eq!(gallery(vec![tag("tag", ""), tag("tag", "b"), tag("tag", "c")]).get_tags(), "b, c");
}

#[test]
fn gallery_addresses() {
    assert_eq!(gallery_api_url(177013), "https://nhentai.net/api/gallery/177013");
    assert_eq!(gallery_link(228922), "https://nhentai.net/g/228922");
    assert_eq!(gallery_link(-1), "https://nhentai.net/g/-1");
}
