use nekkobot::commands::admin::banned_text;
use nekkobot::commands::economy::{
    balance_text, bought_text, cannot_afford_text, daily_embed, item_created_text, money_set_text,
    strip_quotes,
};
use nekkobot::commands::fun::{gallery_embed, nhentai_step, nsfw_required_embed, NhentaiStep};
use nekkobot::commands::manager::pool_state_text;
use nekkobot::commands::{Embed, EMBED_COLOUR};
use nekkobot::utils::nhentai::{Gallery, Image, Images, Tag, Title};

fn fields(e: &Embed) -> Vec<(String, String)> {
    e.fields.iter().map(|f| (f.name.clone(), f.value.clone())).collect()
}

#[test]
fn strip_quotes_removes_every_double_quote() {
    assert_eq!(strip_quotes("\"Cool Hat\""), "Cool Hat");
    assert_eq!(strip_quotes("no quotes"), "no quotes");
    assert_eq!(strip_quotes("\"\"\""), "");
    assert_eq!(strip_quotes("a\"b'c\"d"), "ab'cd");
    assert_eq!(strip_quotes("ünï\"cödé"), "ünïcödé");
    assert_eq!(strip_quotes(&strip_quotes("\"x\"")), "x");
}

#[test]
fn economy_replies() {
    assert_eq!(balance_text(120), "You currently have 120 nekkocoins");
    assert_eq!(balance_text(-5), "You currently have -5 nekkocoins");
    assert_eq!(
        bought_text("Cookie", 3, 30, 7),
        "Succesfully purchased Cookie x3 for 30$ - You now have 7"
    );
    assert_eq!(
        cannot_afford_text("Cookie", 3, 30),
        "You don't have enough money to purchase Cookie x3 for 30$"
    );
    assert_eq!(item_created_text("Cookie", 12), "Item Cookie created with id 12.");
    assert_eq!(
        money_set_text(123456789012345678, 4, 500),
        "User <@123456789012345678> (4) now has 500$"
    );
}

#[test]
fn other_replies() {
    assert_eq!(banned_text(31), "User banned successfully~, ban_id: 31");
    assert_eq!(pool_state_text(10, 9), "Connections: 10 Idle: 9");
    assert_eq!(EMBED_COLOUR, 0xff0069);
}

#[test]
fn daily_embeds() {
    let e = daily_embed(Ok(true), 70);
    assert_eq!(e.title, "Daily coins claimed!");
    assert_eq!(fields(&e), vec![("New Balance".to_string(), "70".to_string())]);
    let e = daily_embed(Err("2h 37m".to_string()), 70);
    assert_eq!(e.title, "Daily coins already claimed!");
    assert_eq!(
        fields(&e),
        vec![("You can claim your daily coins again in".to_string(), "2h 37m".to_string())]
    );
}

#[test]
fn gallery_embeds() {
    let img = || Image { t: "j".to_string(), w: 1, h: 1 };
    let g = Gallery {
        id: 5,
        media_id: "6".to_string(),
        title: Title { english: "E".to_string(), japanese: "J".to_string(), pretty: "Pretty".to_string() },
        images: Images { pages: vec![], cover: img(), thumbnail: img() },
        scanlator: String::new(),
        upload_date: 0,
        tags: vec![
            Tag { id: 1, tag_type: "tag".to_string(), name: "a".to_string(), url: String::new(), count: 1 },
            Tag { id: 2, tag_type: "artist".to_string(), name: "b".to_string(), url: String::new(), count: 1 },
            Tag { id: 3, tag_type: "tag".to_string(), name: "c".to_string(), url: String::new(), count: 1 },
        ],
        num_pages: 0,
        num_favorites: 0,
    };
    let e = gallery_embed(g, 5);
    assert_eq!(e.title, "Pretty");
    assert_eq!(
        fields(&e),
        vec![
            ("Link".to_string(), "https://nhentai.net/g/5".to_string()),
            ("Tags".to_string(), "a, c".to_string()),
        ]
    );
    let e = nsfw_required_embed();
    assert_eq!(e.title, "Error~");
    assert_eq!(
        fields(&e),
        vec![(
            "Missing nsfw tag.".to_string(),
            "This command is only available in NSFW tagged channels.".to_string()
        )]
    );
}

#[test]
fn nhentai_only_in_nsfw_channels() {
    assert!(matches!(nhentai_step(true), NhentaiStep::FetchGallery));
    match nhentai_step(false) {
        NhentaiStep::Refuse(e) => assert_eq!(e.title, "Error~"),
        other => panic!("unexpected {:?}", other),
    }
}
