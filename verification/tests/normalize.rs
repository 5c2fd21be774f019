use reddit_slideshow::data::{
    OEmbed, RedditGalleryEntry, RedditGalleryItem, RedditGalleryItemSource, RedditItem,
    RedditItemType, RedditListingItem, RedditListingItemData, RedditMedia, RedditMediaEmbed,
    RedditPreview, RedditPreviewImage, RedditPreviewImageItem, RedditPreviewImageItemNoVars,
    RedditPreviewVariantItem,
};
use reddit_slideshow::extract::{
    extract_gfycat_gif_url, extract_imgur_gifv_url, extract_src_from_inframe_html,
    frame_from_markup, frame_from_page, gallery_pictures, link_video, normalize_probed,
    preview_items, thumbnail_video, Probes,
};

fn payload(url: &str) -> RedditListingItemData {
    RedditListingItemData {
        media_metadata: None,
        preview: None,
        title: "A title".to_string(),
        permalink: "r/pics/comments/1/a_title/".to_string(),
        name: "t3_1".to_string(),
        url: url.to_string(),
        secure_media_embed: None,
        media: None,
    }
}

fn no_probes() -> Probes {
    Probes { link_token: None, thumbnail_token: None, frame_src: None }
}

fn image(url: &str, width: i32) -> RedditPreviewImage {
    RedditPreviewImage { url: url.to_string(), width, height: 1 }
}

fn plain(url: &str, width: i32) -> RedditPreviewImageItem {
    RedditPreviewImageItem { source: image(url, width), resolutions: vec![], variants: None }
}

fn gallery_entry(key: &str, url: &str, x: i32) -> RedditGalleryEntry {
    RedditGalleryEntry {
        key: key.to_string(),
        image: RedditGalleryItem {
            s: RedditGalleryItemSource { x, y: 1, u: url.to_string() },
            p: vec![RedditGalleryItemSource { x: x / 2, y: 1, u: format!("{}?small", url) }],
        },
    }
}

fn frame(content: Option<&str>, page: Option<&str>) -> RedditMediaEmbed {
    RedditMediaEmbed {
        scrolling: Some(false),
        width: Some(600),
        height: Some(338),
        content: content.map(|c| c.to_string()),
        media_domain_url: page.map(|p| p.to_string()),
    }
}

fn gfycat(thumbnail: &str) -> RedditMedia {
    RedditMedia {
        type_: Some("gfycat.com".to_string()),
        oembed: Some(OEmbed { thumbnail_url: Some(thumbnail.to_string()) }),
    }
}

fn item(kind: RedditItemType) -> RedditItem {
    RedditItem {
        title: "A title".to_string(),
        title_url: "https://www.reddit.com/r/pics/comments/1/a_title/".to_string(),
        item: kind,
    }
}

fn video(url: &str) -> RedditItem {
    item(RedditItemType::Video { mime: "video/mp4".to_string(), url: url.to_string() })
}

fn picture(url: &str, source_set: &str) -> RedditItem {
    item(RedditItemType::Picture { source_set: source_set.to_string(), url: url.to_string() })
}

fn entry(kind: &str, data: RedditListingItemData) -> RedditListingItem {
    RedditListingItem { kind: kind.to_string(), data: Some(data) }
}

#[test]
fn imgur_search_finds_the_name() {
    assert_eq!(extract_imgur_gifv_url("https://i.imgur.com/AbC123.gifv"), Some("AbC123".to_string()));
    assert_eq!(extract_imgur_gifv_url("http://imgur.com/a/b_c.gifv"), Some("b_c".to_string()));
}

#[test]
fn imgur_search_takes_any_character_for_the_dot() {
    assert_eq!(extract_imgur_gifv_url("https://i.imgur.com/nameXgifv"), Some("name".to_string()));
}

#[test]
fn imgur_search_declines() {
    assert_eq!(extract_imgur_gifv_url("https://i.imgur.com/AbC123.gif"), None);
    assert_eq!(extract_imgur_gifv_url("AbC123.gifv"), None);
    assert_eq!(extract_imgur_gifv_url(""), None);
}

#[test]
fn gfycat_search_finds_the_name() {
    assert_eq!(
        extract_gfycat_gif_url("https://thumbs.gfycat.com/HappyLittleCat-size_restricted.gif"),
        Some("HappyLittleCat".to_string())
    );
    assert_eq!(
        extract_gfycat_gif_url("http://thumbs.gfycat.com/Clip1-mobile.gif"),
        Some("Clip1".to_string())
    );
}

#[test]
fn gfycat_search_declines() {
    assert_eq!(extract_gfycat_gif_url("https://thumbs.gfycat.com/HappyLittleCat.gif"), None);
    assert_eq!(extract_gfycat_gif_url("https://thumbs.gfycat.com/Happy-small.gif?x=1"), None);
    assert_eq!(extract_gfycat_gif_url("x https://thumbs.gfycat.com/Happy-small.gif"), None);
    assert_eq!(extract_gfycat_gif_url("https://thumbsXgfycat.com/Happy-small.gif"), None);
    assert_eq!(extract_gfycat_gif_url("ftp://thumbs.gfycat.com/Happy-small.gif"), None);
}

#[test]
fn frame_search_finds_the_first_src() {
    assert_eq!(
        extract_src_from_inframe_html(
            "<iframe class=\"x\" src=\"https://e.com/v?a=1&amp;b=2\" width=\"600\"></iframe>"
        ),
        Some("https://e.com/v?a=1&amp;b=2".to_string())
    );
    assert_eq!(
        extract_src_from_inframe_html("<a src=\"one\"></a><b src=\"two\"></b>"),
        Some("one".to_string())
    );
    assert_eq!(extract_src_from_inframe_html("src=\"\""), Some("".to_string()));
}

#[test]
fn frame_search_declines() {
    assert_eq!(extract_src_from_inframe_html("<iframe width=\"600\"></iframe>"), None);
    assert_eq!(extract_src_from_inframe_html("src='single'"), None);
    assert_eq!(extract_src_from_inframe_html("src=\"unclosed"), None);
    assert_eq!(extract_src_from_inframe_html(""), None);
}

#[test]
fn probe_searches_only_the_texts_that_call_for_it() {
    let mut data = payload("https://i.imgur.com/AbC123.gifv");
    data.media = Some(gfycat("https://thumbs.gfycat.com/HappyLittleCat-size_restricted.gif"));
    data.secure_media_embed = Some(frame(Some("<iframe src=\"https://e.com/v\"></iframe>"), None));
    assert_eq!(
        data.probe(),
        Probes {
            link_token: Some("AbC123".to_string()),
            thumbnail_token: Some("HappyLittleCat".to_string()),
            frame_src: Some("https://e.com/v".to_string()),
        }
    );
}

#[test]
fn probe_skips_a_link_that_does_not_name_the_host() {
    assert_eq!(payload("https://example.com/AbC123.gifv").probe(), no_probes());
}

#[test]
fn probe_skips_a_link_that_does_not_end_in_gifv() {
    assert_eq!(payload("https://i.imgur.com/AbC123.gifv?x").probe(), no_probes());
}

#[test]
fn probe_skips_another_provider() {
    let mut data = payload("https://example.com/");
    let mut media = gfycat("https://thumbs.gfycat.com/HappyLittleCat-size_restricted.gif");
    media.type_ = Some("youtube.com".to_string());
    data.media = Some(media);
    assert_eq!(data.probe(), no_probes());
}

#[test]
fn probe_skips_a_frame_without_size() {
    let mut data = payload("https://example.com/");
    let mut embed = frame(Some("<iframe src=\"https://e.com/v\"></iframe>"), None);
    embed.height = None;
    data.secure_media_embed = Some(embed);
    assert_eq!(data.probe(), no_probes());
}

#[test]
fn other_kinds_give_no_items() {
    let mut data = payload("https://i.imgur.com/AbC123.gifv");
    data.media_metadata = Some(vec![gallery_entry("k", "https://g/1.jpg", 100)]);
    data.preview = Some(RedditPreview { images: vec![plain("https://p/1.jpg", 10)] });
    data.secure_media_embed = Some(frame(Some("<iframe src=\"https://e.com/v\"></iframe>"), Some("https://e.com/")));
    data.media = Some(gfycat("https://thumbs.gfycat.com/HappyLittleCat-size_restricted.gif"));
    for kind in ["t1", "t2", "t5", "", "T3", "t33", "more"] {
        assert_eq!(entry(kind, data.clone()).normalize(), Vec::<RedditItem>::new());
        assert_eq!(normalize_probed(kind, &data, &data.probe()), Vec::<RedditItem>::new());
    }
    assert_eq!(entry("t3", data).normalize().len(), 1);
}

#[test]
fn entry_without_payload_gives_no_items() {
    let empty = RedditListingItem { kind: "t3".to_string(), data: None };
    assert_eq!(empty.normalize(), Vec::<RedditItem>::new());
}

#[test]
fn entry_without_media_gives_no_items() {
    assert_eq!(entry("t3", payload("https://example.com/")).normalize(), Vec::<RedditItem>::new());
}

#[test]
fn normalizing_twice_gives_the_same_items() {
    let mut data = payload("https://example.com/");
    data.media_metadata = Some(vec![
        gallery_entry("a", "https://g/1.jpg?x=1&amp;y=2", 100),
        gallery_entry("b", "https://g/2.jpg", 200),
    ]);
    let e = entry("t3", data);
    let first = e.normalize();
    let second = e.normalize();
    assert_eq!(first.len(), 2);
    assert_eq!(first, second);
    assert_eq!(e.clone().normalize(), first);
}

#[test]
fn link_video_wins_over_a_gallery() {
    let mut data = payload("https://i.imgur.com/AbC123.gifv");
    data.media_metadata = Some(vec![gallery_entry("a", "https://g/1.jpg", 100)]);
    assert_eq!(
        entry("t3", data).normalize(),
        vec![video("https://i.imgur.com/AbC123.mp4")]
    );
}

#[test]
fn link_video_needs_host_and_ending() {
    let probes = Probes { link_token: Some("AbC123".to_string()), ..no_probes() };
    assert_eq!(
        link_video(&payload("https://i.imgur.com/AbC123.gifv"), &probes),
        Some(video("https://i.imgur.com/AbC123.mp4"))
    );
    assert_eq!(link_video(&payload("https://i.example.com/AbC123.gifv"), &probes), None);
    assert_eq!(link_video(&payload("https://i.imgur.com/AbC123.gif"), &probes), None);
    assert_eq!(link_video(&payload("https://i.imgur.com/AbC123.gifv"), &no_probes()), None);
}

#[test]
fn link_video_declines_an_empty_name() {
    let probes = Probes { link_token: Some(String::new()), ..no_probes() };
    assert_eq!(link_video(&payload("https://i.imgur.com/AbC123.gifv"), &probes), None);
}

#[test]
fn link_that_does_not_match_falls_through() {
    let mut data = payload("https://imgur.com/-.gifv");
    assert_eq!(data.probe(), no_probes());
    data.media_metadata = Some(vec![gallery_entry("a", "https://g/1.jpg", 100)]);
    let items = entry("t3", data).normalize();
    assert_eq!(items, vec![picture("https://g/1.jpg", "https://g/1.jpg?small 50w, https://g/1.jpg 100w")]);
}

#[test]
fn thumbnail_video_comes_second() {
    let mut data = payload("https://gfycat.com/happylittlecat");
    data.media = Some(gfycat("https://thumbs.gfycat.com/HappyLittleCat-size_restricted.gif"));
    data.secure_media_embed = Some(frame(Some("<iframe src=\"https://e.com/v\"></iframe>"), None));
    data.preview = Some(RedditPreview { images: vec![plain("https://p/1.jpg", 10)] });
    assert_eq!(
        entry("t3", data.clone()).normalize(),
        vec![video("https://giant.gfycat.com/HappyLittleCat.mp4")]
    );
    data.url = "https://i.imgur.com/AbC123.gifv".to_string();
    assert_eq!(entry("t3", data).normalize(), vec![video("https://i.imgur.com/AbC123.mp4")]);
}

#[test]
fn thumbnail_video_needs_the_provider() {
    let probes = Probes { thumbnail_token: Some("Clip".to_string()), ..no_probes() };
    let mut data = payload("https://example.com/");
    data.media = Some(gfycat("https://thumbs.gfycat.com/Clip-small.gif"));
    assert_eq!(thumbnail_video(&data, &probes), Some(video("https://giant.gfycat.com/Clip.mp4")));
    let mut other = data.clone();
    other.media = Some(RedditMedia { type_: Some("vimeo.com".to_string()), ..gfycat("x") });
    assert_eq!(thumbnail_video(&other, &probes), None);
    let mut bare = data.clone();
    bare.media = Some(RedditMedia { type_: Some("gfycat.com".to_string()), oembed: None });
    assert_eq!(thumbnail_video(&bare, &probes), None);
    let mut unnamed = data.clone();
    unnamed.media = Some(RedditMedia { type_: None, ..gfycat("x") });
    assert_eq!(thumbnail_video(&unnamed, &probes), None);
    let mut blank = data.clone();
    blank.media = Some(RedditMedia {
        type_: Some("gfycat.com".to_string()),
        oembed: Some(OEmbed { thumbnail_url: None }),
    });
    assert_eq!(thumbnail_video(&blank, &probes), None);
    assert_eq!(thumbnail_video(&data, &no_probes()), None);
}

#[test]
fn frame_markup_gives_an_embed() {
    let mut data = payload("https://example.com/");
    data.secure_media_embed = Some(frame(
        Some("<iframe src=\"https://e.com/v?a=1&amp;b=2\" width=\"600\"></iframe>"),
        Some("https://other.example/"),
    ));
    data.media_metadata = Some(vec![gallery_entry("a", "https://g/1.jpg", 100)]);
    assert_eq!(
        entry("t3", data).normalize(),
        vec![item(RedditItemType::Embed {
            url: "https://e.com/v?a=1&b=2".to_string(),
            scrolling: "no".to_string(),
            width: 600,
            height: 338,
        })]
    );
}

#[test]
fn frame_says_yes_where_it_scrolls() {
    let mut data = payload("https://example.com/");
    let mut embed = frame(Some("<iframe src=\"https://e.com/v\"></iframe>"), None);
    embed.scrolling = Some(true);
    data.secure_media_embed = Some(embed);
    let probes = data.probe();
    assert_eq!(
        frame_from_markup(&data, &probes),
        Some(item(RedditItemType::Embed {
            url: "https://e.com/v".to_string(),
            scrolling: "yes".to_string(),
            width: 600,
            height: 338,
        }))
    );
}

#[test]
fn frame_markup_needs_size_and_scrolling() {
    let probes = Probes { frame_src: Some("https://e.com/v".to_string()), ..no_probes() };
    let full = frame(Some("<iframe src=\"https://e.com/v\"></iframe>"), None);
    for missing in 0..4 {
        let mut embed = full.clone();
        match missing {
            0 => embed.scrolling = None,
            1 => embed.width = None,
            2 => embed.height = None,
            _ => embed.content = None,
        }
        let mut data = payload("https://example.com/");
        data.secure_media_embed = Some(embed);
        assert_eq!(frame_from_markup(&data, &probes), None);
    }
    let mut data = payload("https://example.com/");
    data.secure_media_embed = Some(full);
    assert!(frame_from_markup(&data, &probes).is_some());
    assert_eq!(frame_from_markup(&data, &no_probes()), None);
    assert_eq!(frame_from_markup(&payload("https://example.com/"), &probes), None);
}

#[test]
fn frame_page_is_used_where_the_markup_names_none() {
    let mut data = payload("https://example.com/");
    data.secure_media_embed = Some(frame(
        Some("<iframe width=\"600\"></iframe>"),
        Some("https://e.com/page?a=1&amp;b=2"),
    ));
    data.preview = Some(RedditPreview { images: vec![plain("https://p/1.jpg", 10)] });
    let expected = item(RedditItemType::Embed {
        url: "https://e.com/page?a=1&b=2".to_string(),
        scrolling: "no".to_string(),
        width: 600,
        height: 338,
    });
    assert_eq!(frame_from_page(&data), Some(expected.clone()));
    assert_eq!(entry("t3", data).normalize(), vec![expected]);
}

#[test]
fn frame_page_needs_size_and_scrolling() {
    for missing in 0..4 {
        let mut embed = frame(None, Some("https://e.com/page"));
        match missing {
            0 => embed.scrolling = None,
            1 => embed.width = None,
            2 => embed.height = None,
            _ => embed.media_domain_url = None,
        }
        let mut data = payload("https://example.com/");
        data.secure_media_embed = Some(embed);
        assert_eq!(frame_from_page(&data), None);
    }
    assert_eq!(frame_from_page(&payload("https://example.com/")), None);
}

#[test]
fn gallery_gives_one_picture_for_each_image_in_order() {
    let mut data = payload("https://example.com/");
    data.media_metadata = Some(vec![
        gallery_entry("z", "https://g/1.jpg?x=1&amp;y=2", 100),
        gallery_entry("a", "https://g/2.jpg", 200),
        gallery_entry("m", "https://g/3.jpg", 300),
    ]);
    data.preview = Some(RedditPreview { images: vec![plain("https://p/1.jpg", 10)] });
    let expected = vec![
        picture(
            "https://g/1.jpg?x=1&y=2",
            "https://g/1.jpg?x=1&y=2?small 50w, https://g/1.jpg?x=1&y=2 100w",
        ),
        picture("https://g/2.jpg", "https://g/2.jpg?small 100w, https://g/2.jpg 200w"),
        picture("https://g/3.jpg", "https://g/3.jpg?small 150w, https://g/3.jpg 300w"),
    ];
    assert_eq!(gallery_pictures(&data), Some(expected.clone()));
    assert_eq!(entry("t3", data).normalize(), expected);
}

#[test]
fn empty_gallery_falls_through_to_the_preview() {
    let mut data = payload("https://example.com/");
    data.media_metadata = Some(vec![]);
    data.preview = Some(RedditPreview { images: vec![plain("https://p/1.jpg", 10)] });
    assert_eq!(gallery_pictures(&data), None);
    assert_eq!(
        entry("t3", data).normalize(),
        vec![picture("https://p/1.jpg", "https://p/1.jpg 10w")]
    );
}

#[test]
fn preview_prefers_video_then_animation_then_the_image() {
    let still = RedditPreviewImageItemNoVars {
        source: image("https://p/anim.gif?a&amp;b", 20),
        resolutions: vec![image("https://p/anim-small.gif", 10)],
    };
    let moving = RedditPreviewImageItemNoVars {
        source: image("https://p/clip.mp4?a&amp;b", 30),
        resolutions: vec![],
    };
    let both = RedditPreviewImageItem {
        source: image("https://p/1.jpg", 40),
        resolutions: vec![],
        variants: Some(RedditPreviewVariantItem { gif: Some(still.clone()), mp4: Some(moving) }),
    };
    let animated = RedditPreviewImageItem {
        source: image("https://p/2.jpg", 40),
        resolutions: vec![],
        variants: Some(RedditPreviewVariantItem { gif: Some(still), mp4: None }),
    };
    let neither = RedditPreviewImageItem {
        source: image("https://p/3.jpg?a&amp;b", 40),
        resolutions: vec![image("https://p/3s.jpg", 4)],
        variants: Some(RedditPreviewVariantItem { gif: None, mp4: None }),
    };
    let mut data = payload("https://example.com/");
    data.preview = Some(RedditPreview {
        images: vec![both, animated, neither, plain("https://p/4.jpg", 7)],
    });
    let expected = vec![
        video("https://p/clip.mp4?a&b"),
        picture("https://p/anim.gif?a&b", "https://p/anim-small.gif 10w, https://p/anim.gif?a&b 20w"),
        picture("https://p/3.jpg?a&b", "https://p/3s.jpg 4w, https://p/3.jpg?a&b 40w"),
        picture("https://p/4.jpg", "https://p/4.jpg 7w"),
    ];
    assert_eq!(preview_items(&data), Some(expected.clone()));
    assert_eq!(entry("t3", data).normalize(), expected);
}

#[test]
fn empty_preview_gives_nothing() {
    let mut data = payload("https://example.com/");
    data.preview = Some(RedditPreview { images: vec![] });
    assert_eq!(preview_items(&data), None);
    assert_eq!(entry("t3", data).normalize(), Vec::<RedditItem>::new());
}

#[test]
fn every_address_is_decoded() {
    let raw = "https://x/y?a=1&amp;b=2";
    let decoded = "https://x/y?a=1&b=2";
    let mut gallery = payload("https://example.com/");
    gallery.media_metadata = Some(vec![RedditGalleryEntry {
        key: "k".to_string(),
        image: RedditGalleryItem {
            s: RedditGalleryItemSource { x: 2, y: 1, u: raw.to_string() },
            p: vec![RedditGalleryItemSource { x: 1, y: 1, u: raw.to_string() }],
        },
    }]);
    assert_eq!(
        entry("t3", gallery).normalize(),
        vec![picture(decoded, "https://x/y?a=1&b=2 1w, https://x/y?a=1&b=2 2w")]
    );
    let mut markup = payload("https://example.com/");
    markup.secure_media_embed =
        Some(frame(Some("<iframe src=\"https://x/y?a=1&amp;b=2\"></iframe>"), None));
    let mut page = payload("https://example.com/");
    page.secure_media_embed = Some(frame(None, Some(raw)));
    for data in [markup, page] {
        match &entry("t3", data).normalize()[0].item {
            RedditItemType::Embed { url, .. } => assert_eq!(url, decoded),
            other => panic!("{:?}", other),
        }
    }
    let mut preview = payload("https://example.com/");
    preview.preview = Some(RedditPreview {
        images: vec![RedditPreviewImageItem {
            source: image(raw, 2),
            resolutions: vec![],
            variants: Some(RedditPreviewVariantItem {
                gif: None,
                mp4: Some(RedditPreviewImageItemNoVars { source: image(raw, 2), resolutions: vec![] }),
            }),
        }],
    });
    assert_eq!(entry("t3", preview).normalize(), vec![video(decoded)]);
}

#[test]
fn title_link_is_the_permalink_under_the_site() {
    let mut data = payload("https://example.com/");
    data.title = "Étude &amp; more".to_string();
    data.permalink = "/r/a/comments/2/x/?q=1&amp;r=2".to_string();
    data.preview = Some(RedditPreview { images: vec![plain("https://p/1.jpg", 10)] });
    let items = entry("t3", data).normalize();
    assert_eq!(items.len(), 1);
    assert_eq!(items[0].title, "Étude &amp; more");
    assert_eq!(items[0].title_url, "https://www.reddit.com//r/a/comments/2/x/?q=1&amp;r=2");
}
