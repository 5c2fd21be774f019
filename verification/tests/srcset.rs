use reddit_slideshow::data::{
    RedditGalleryItem, RedditGalleryItemSource, RedditPreviewImage, RedditPreviewImageItem,
    RedditPreviewImageItemNoVars,
};

fn image(url: &str, width: i32) -> RedditPreviewImage {
    RedditPreviewImage { url: url.to_string(), width, height: width / 2 }
}

fn source(url: &str, x: i32) -> RedditGalleryItemSource {
    RedditGalleryItemSource { x, y: x / 2, u: url.to_string() }
}

#[test]
fn preview_image_value_is_address_and_width() {
    assert_eq!(image("https://x/a.jpg", 640).to_srcset_value(), "https://x/a.jpg 640w");
}

#[test]
fn preview_image_value_decodes_the_address() {
    assert_eq!(
        image("https://x/a.jpg?w=640&amp;s=abc", 640).to_srcset_value(),
        "https://x/a.jpg?w=640&s=abc 640w"
    );
}

#[test]
fn preview_image_value_keeps_a_negative_width() {
    assert_eq!(image("u", -3).to_srcset_value(), "u -3w");
    assert_eq!(image("u", 0).to_srcset_value(), "u 0w");
}

#[test]
fn gallery_source_value_uses_x_as_width() {
    let s = RedditGalleryItemSource { x: 1080, y: 720, u: "https://g/1.jpg?a=1&amp;b=2".to_string() };
    assert_eq!(s.to_srcset_value(), "https://g/1.jpg?a=1&b=2 1080w");
}

#[test]
fn source_set_lists_alternates_first_and_primary_last() {
    let item = RedditPreviewImageItem {
        source: image("url300", 300),
        resolutions: vec![image("url100", 100), image("url200", 200)],
        variants: None,
    };
    assert_eq!(item.get_srcset(), "url100 100w, url200 200w, url300 300w");
}

#[test]
fn source_set_of_variant_lists_alternates_first_and_primary_last() {
    let item = RedditPreviewImageItemNoVars {
        source: image("url300", 300),
        resolutions: vec![image("url100", 100), image("url200", 200)],
    };
    assert_eq!(item.get_srcset(), "url100 100w, url200 200w, url300 300w");
}

#[test]
fn source_set_of_gallery_lists_alternates_first_and_primary_last() {
    let item = RedditGalleryItem {
        s: source("url300", 300),
        p: vec![source("url100", 100), source("url200", 200)],
    };
    assert_eq!(item.get_srcset(), "url100 100w, url200 200w, url300 300w");
}

#[test]
fn source_set_without_alternates_is_the_primary_alone() {
    let item = RedditPreviewImageItem {
        source: image("only", 42),
        resolutions: vec![],
        variants: None,
    };
    assert_eq!(item.get_srcset(), "only 42w");
    let gallery = RedditGalleryItem { s: source("only", 42), p: vec![] };
    assert_eq!(gallery.get_srcset(), "only 42w");
}

#[test]
fn source_set_keeps_the_order_it_is_given() {
    let item = RedditPreviewImageItemNoVars {
        source: image("p", 10),
        resolutions: vec![image("c", 300), image("a", 100), image("b&amp;x", 200)],
    };
    assert_eq!(item.get_srcset(), "c 300w, a 100w, b&x 200w, p 10w");
}
