//! The strategies that turn one entry of a listing page into media items,
//! and the fixed order in which they are tried.

use vstd::prelude::*;
use crate::data::{
    FrameModel, ImageSetModel, ItemModel, MediaModel, PayloadModel, PreviewImageModel,
    RedditItem, RedditItemType, RedditListingItemData, RedditMediaEmbed, RedditPreviewImageItem,
    srcset,
};
use crate::pattern::{capture_first_group, first_group};
use crate::text::{contains, decode_amp, ends_with, find_in, has_suffix, same_text, to_chars, unescape_amp};

verus! {

/// The pattern of a link to a looping video on Imgur: a slash, a name, any
/// character, and `gifv`. Its first group is the name.
pub open spec fn link_pattern() -> Seq<char> {
    "/((\\w+|\\d+)).gifv"@
}

/// The pattern of the address of a thumbnail on Gfycat. Its first group is
/// the name of the clip.
pub open spec fn thumbnail_pattern() -> Seq<char> {
    "^https?://thumbs\\.gfycat\\.com/(\\w+|\\d+)-(?:\\w+|\\d+|_)\\.gif$"@
}

/// The pattern of the `src` attribute in the markup of a frame. Its first
/// group is the attribute's value.
pub open spec fn frame_pattern() -> Seq<char> {
    "src=\"([^\"]*)\""@
}

/// Searches a link for the name of a looping video.
pub fn extract_imgur_gifv_url(url: &str) -> (out: Option<String>)
    ensures
        out.deep_view() == first_group(link_pattern(), url@),
{
    capture_first_group("/((\\w+|\\d+)).gifv", url)
}

/// Searches the address of a thumbnail for the name of its clip.
pub fn extract_gfycat_gif_url(url: &str) -> (out: Option<String>)
    ensures
        out.deep_view() == first_group(thumbnail_pattern(), url@),
{
    capture_first_group("^https?://thumbs\\.gfycat\\.com/(\\w+|\\d+)-(?:\\w+|\\d+|_)\\.gif$", url)
}

/// Searches the markup of a frame for the value of its `src` attribute.
pub fn extract_src_from_inframe_html(content: &str) -> (out: Option<String>)
    ensures
        out.deep_view() == first_group(frame_pattern(), content@),
{
    capture_first_group("src=\"([^\"]*)\"", content)
}

/// What the three searches found in one entry. Each answer belongs to the
/// text that [`link_text`], [`thumbnail_text`] and [`frame_text`] pick from
/// the entry, and is `None` where they pick none.
#[derive(Clone, Debug, PartialEq, Eq)]
pub struct Probes {
    pub link_token: Option<String>,
    pub thumbnail_token: Option<String>,
    pub frame_src: Option<String>,
}

/// Model of [`Probes`].
pub struct ProbesModel {
    pub link_token: Option<Seq<char>>,
    pub thumbnail_token: Option<Seq<char>>,
    pub frame_src: Option<Seq<char>>,
}

impl DeepView for Probes {
    type V = ProbesModel;

    open spec fn deep_view(&self) -> ProbesModel {
        ProbesModel {
            link_token: self.link_token.deep_view(),
            thumbnail_token: self.thumbnail_token.deep_view(),
            frame_src: self.frame_src.deep_view(),
        }
    }
}

/// The link of an entry, where it points to a looping video on Imgur: it
/// names the host and ends in `.gifv`.
pub open spec fn link_text(d: PayloadModel) -> Option<Seq<char>> {
    if contains(d.url, "imgur"@) && ends_with(d.url, ".gifv"@) {
        Some(d.url)
    } else {
        None
    }
}

/// The address of the thumbnail of an entry whose media Gfycat provides.
pub open spec fn thumbnail_text(d: PayloadModel) -> Option<Seq<char>> {
    match d.hosted {
        Some(hosted) => if hosted.provider == Some("gfycat.com"@) {
            hosted.thumbnail
        } else {
            None
        },
        None => None,
    }
}

/// Whether a frame states its size and whether it scrolls.
pub open spec fn frame_is_sized(f: FrameModel) -> bool {
    f.scrolling is Some && f.width is Some && f.height is Some
}

/// The markup of the frame of an entry, where the frame is sized.
pub open spec fn frame_text(d: PayloadModel) -> Option<Seq<char>> {
    match d.frame {
        Some(frame) => if frame_is_sized(frame) {
            frame.content
        } else {
            None
        },
        None => None,
    }
}

/// The answer of a search for `pattern` in a text that may be absent.
pub open spec fn search(pattern: Seq<char>, text: Option<Seq<char>>) -> Option<Seq<char>> {
    match text {
        Some(text) => first_group(pattern, text),
        None => None,
    }
}

/// What the three searches find in an entry.
pub open spec fn probes_of(d: PayloadModel) -> ProbesModel {
    ProbesModel {
        link_token: search(link_pattern(), link_text(d)),
        thumbnail_token: search(thumbnail_pattern(), thumbnail_text(d)),
        frame_src: search(frame_pattern(), frame_text(d)),
    }
}

/// The address under which an entry is discussed.
pub open spec fn title_link(permalink: Seq<char>) -> Seq<char> {
    "https://www.reddit.com/"@ + permalink
}

/// The item of entry `d` that shows `media`.
pub open spec fn item_of(d: PayloadModel, media: MediaModel) -> ItemModel {
    ItemModel { title: d.title, title_url: title_link(d.permalink), item: media }
}

/// A video in the one format that is played.
pub open spec fn video(url: Seq<char>) -> MediaModel {
    MediaModel::Video { mime: "video/mp4"@, url }
}

/// A picture with its source set.
pub open spec fn picture(set: ImageSetModel) -> MediaModel {
    MediaModel::Picture { source_set: srcset(set), url: unescape_amp(set.source.url) }
}

/// The word that says whether a frame scrolls.
pub open spec fn scroll_word(scrolling: bool) -> Seq<char> {
    if scrolling {
        "yes"@
    } else {
        "no"@
    }
}

/// A sized frame that shows the page at `url`.
pub open spec fn framed(f: FrameModel, url: Seq<char>) -> MediaModel
    recommends
        frame_is_sized(f),
{
    MediaModel::Embed {
        url: unescape_amp(url),
        scrolling: scroll_word(f.scrolling->0),
        width: f.width->0,
        height: f.height->0,
    }
}

/// A token names a video only if it is not empty.
pub open spec fn usable_token(token: Option<Seq<char>>) -> bool {
    token is Some && token->0.len() > 0
}

/// First strategy: the link of the entry names a looping video on Imgur,
/// which serves the video under that name.
pub open spec fn from_link(d: PayloadModel, p: ProbesModel) -> Option<ItemModel> {
    if link_text(d) is Some && usable_token(p.link_token) {
        Some(item_of(d, video("https://i.imgur.com/"@ + p.link_token->0 + ".mp4"@)))
    } else {
        None
    }
}

/// Second strategy: the thumbnail of the entry names a clip on Gfycat, which
/// serves the clip under that name.
pub open spec fn from_thumbnail(d: PayloadModel, p: ProbesModel) -> Option<ItemModel> {
    if thumbnail_text(d) is Some && usable_token(p.thumbnail_token) {
        Some(item_of(d, video("https://giant.gfycat.com/"@ + p.thumbnail_token->0 + ".mp4"@)))
    } else {
        None
    }
}

/// Third strategy: the markup of a sized frame names the page it shows.
pub open spec fn from_frame_markup(d: PayloadModel, p: ProbesModel) -> Option<ItemModel> {
    if frame_text(d) is Some && p.frame_src is Some {
        Some(item_of(d, framed(d.frame->0, p.frame_src->0)))
    } else {
        None
    }
}

/// Fourth strategy: a sized frame gives the address of the page it shows.
pub open spec fn from_frame_page(d: PayloadModel) -> Option<ItemModel> {
    match d.frame {
        Some(frame) => if frame_is_sized(frame) && frame.media_domain_url is Some {
            Some(item_of(d, framed(frame, frame.media_domain_url->0)))
        } else {
            None
        },
        None => None,
    }
}

/// Fifth strategy: one picture for each image of a gallery that is not
/// empty, in the gallery's order.
pub open spec fn from_gallery(d: PayloadModel) -> Option<Seq<ItemModel>> {
    match d.gallery {
        Some(gallery) => if gallery.len() > 0 {
            Some(gallery.map_values(|set: ImageSetModel| item_of(d, picture(set))))
        } else {
            None
        },
        None => None,
    }
}

/// What shows one preview image: its video format if it has one, else its
/// animated format if it has one, else the image itself.
pub open spec fn preview_media(image: PreviewImageModel) -> MediaModel {
    match image.variants {
        Some(variants) => match variants.mp4 {
            Some(mp4) => video(unescape_amp(mp4.source.url)),
            None => match variants.gif {
                Some(gif) => picture(gif),
                None => picture(image.set),
            },
        },
        None => picture(image.set),
    }
}

/// Sixth strategy: one item for each image of a preview that is not empty,
/// in the preview's order.
pub open spec fn from_preview(d: PayloadModel) -> Option<Seq<ItemModel>> {
    match d.preview {
        Some(images) => if images.len() > 0 {
            Some(images.map_values(|image: PreviewImageModel| item_of(d, preview_media(image))))
        } else {
            None
        },
        None => None,
    }
}

/// The items of an entry that carries `d`: those of the first strategy that
/// applies, and none where none applies.
pub open spec fn payload_items(d: PayloadModel, p: ProbesModel) -> Seq<ItemModel> {
    if from_link(d, p) is Some {
        seq![from_link(d, p)->0]
    } else if from_thumbnail(d, p) is Some {
        seq![from_thumbnail(d, p)->0]
    } else if from_frame_markup(d, p) is Some {
        seq![from_frame_markup(d, p)->0]
    } else if from_frame_page(d) is Some {
        seq![from_frame_page(d)->0]
    } else if from_gallery(d) is Some {
        from_gallery(d)->0
    } else if from_preview(d) is Some {
        from_preview(d)->0
    } else {
        Seq::empty()
    }
}

/// The kind of the entries that are read for media.
pub open spec fn link_kind() -> Seq<char> {
    "t3"@
}

/// The items of an entry of kind `kind` that carries `d`, given what the
/// searches found: entries of another kind give none.
pub open spec fn items_given(kind: Seq<char>, d: PayloadModel, p: ProbesModel) -> Seq<ItemModel> {
    if kind == link_kind() {
        payload_items(d, p)
    } else {
        Seq::empty()
    }
}

fn link_candidate(data: &RedditListingItemData) -> (out: bool)
    ensures
        out == (link_text(data.deep_view()) is Some),
{
    let url = to_chars(data.url.as_str());
    let host = to_chars("imgur");
    let ending = to_chars(".gifv");
    find_in(&url, &host) && has_suffix(&url, &ending)
}

fn thumbnail_candidate(data: &RedditListingItemData) -> (out: Option<&String>)
    ensures
        out.deep_view() == thumbnail_text(data.deep_view()),
{
    match &data.media {
        Some(media) => match (&media.type_, &media.oembed) {
            (Some(provider), Some(oembed)) => match &oembed.thumbnail_url {
                Some(thumbnail) => if same_text(provider.as_str(), "gfycat.com") {
                    Some(thumbnail)
                } else {
                    None
                },
                None => None,
            },
            _ => None,
        },
        None => None,
    }
}

fn sized(frame: &RedditMediaEmbed) -> (out: bool)
    ensures
        out == frame_is_sized(frame.deep_view()),
{
    frame.scrolling.is_some() && frame.width.is_some() && frame.height.is_some()
}

fn frame_candidate(data: &RedditListingItemData) -> (out: Option<&String>)
    ensures
        out.deep_view() == frame_text(data.deep_view()),
{
    match &data.secure_media_embed {
        Some(frame) => if sized(frame) {
            match &frame.content {
                Some(content) => Some(content),
                None => None,
            }
        } else {
            None
        },
        None => None,
    }
}

impl RedditListingItemData {
    /// Runs the three searches on the texts of this entry that call for one.
    pub fn probe(&self) -> (out: Probes)
        ensures
            out.deep_view() == probes_of(self.deep_view()),
    {
        let link_token = if link_candidate(self) {
            extract_imgur_gifv_url(self.url.as_str())
        } else {
            None
        };
        let thumbnail_token = match thumbnail_candidate(self) {
            Some(thumbnail) => extract_gfycat_gif_url(thumbnail.as_str()),
            None => None,
        };
        let frame_src = match frame_candidate(self) {
            Some(content) => extract_src_from_inframe_html(content.as_str()),
            None => None,
        };
        Probes { link_token, thumbnail_token, frame_src }
    }
}

fn make_item(data: &RedditListingItemData, item: RedditItemType) -> (out: RedditItem)
    ensures
        out.deep_view() == item_of(data.deep_view(), item.deep_view()),
{
    let mut title_url = "https://www.reddit.com/".to_owned();
    title_url.append(data.permalink.as_str());
    RedditItem { title: data.title.clone(), title_url, item }
}

fn hosted_video(data: &RedditListingItemData, host: &str, token: &str) -> (out: RedditItem)
    ensures
        out.deep_view() == item_of(data.deep_view(), video(host@ + token@ + ".mp4"@)),
{
    let mut url = host.to_owned();
    url.append(token);
    url.append(".mp4");
    make_item(data, RedditItemType::Video { mime: "video/mp4".to_owned(), url })
}

fn usable(token: &Option<String>) -> (out: bool)
    ensures
        out == usable_token(token.deep_view()),
{
    match token {
        Some(token) => !token.as_str().is_empty(),
        None => false,
    }
}

/// First strategy: a looping video on Imgur.
pub fn link_video(data: &RedditListingItemData, probes: &Probes) -> (out: Option<RedditItem>)
    ensures
        out.deep_view() == from_link(data.deep_view(), probes.deep_view()),
{
    if link_candidate(data) && usable(&probes.link_token) {
        match &probes.link_token {
            Some(token) => Some(hosted_video(data, "https://i.imgur.com/", token.as_str())),
            None => None,
        }
    } else {
        None
    }
}

/// Second strategy: a clip on Gfycat.
pub fn thumbnail_video(data: &RedditListingItemData, probes: &Probes) -> (out: Option<
    RedditItem,
>)
    ensures
        out.deep_view() == from_thumbnail(data.deep_view(), probes.deep_view()),
{
    if thumbnail_candidate(data).is_some() && usable(&probes.thumbnail_token) {
        match &probes.thumbnail_token {
            Some(token) => Some(hosted_video(data, "https://giant.gfycat.com/", token.as_str())),
            None => None,
        }
    } else {
        None
    }
}

fn frame_item(data: &RedditListingItemData, frame: &RedditMediaEmbed, url: &str) -> (out:
    RedditItem)
    requires
        frame_is_sized(frame.deep_view()),
    ensures
        out.deep_view() == item_of(data.deep_view(), framed(frame.deep_view(), url@)),
{
    let scrolling = match frame.scrolling {
        Some(true) => "yes".to_owned(),
        _ => "no".to_owned(),
    };
    let width: i32 = match frame.width {
        Some(width) => width,
        None => 0,
    };
    let height: i32 = match frame.height {
        Some(height) => height,
        None => 0,
    };
    make_item(data, RedditItemType::Embed { url: decode_amp(url), scrolling, width, height })
}

/// Third strategy: the page that the markup of a sized frame names.
pub fn frame_from_markup(data: &RedditListingItemData, probes: &Probes) -> (out: Option<
    RedditItem,
>)
    ensures
        out.deep_view() == from_frame_markup(data.deep_view(), probes.deep_view()),
{
    if frame_candidate(data).is_none() {
        return None;
    }
    match (&data.secure_media_embed, &probes.frame_src) {
        (Some(frame), Some(src)) => Some(frame_item(data, frame, src.as_str())),
        _ => None,
    }
}

/// Fourth strategy: the page whose address a sized frame gives.
pub fn frame_from_page(data: &RedditListingItemData) -> (out: Option<RedditItem>)
    ensures
        out.deep_view() == from_frame_page(data.deep_view()),
{
    match &data.secure_media_embed {
        Some(frame) => if sized(frame) {
            match &frame.media_domain_url {
                Some(url) => Some(frame_item(data, frame, url.as_str())),
                None => None,
            }
        } else {
            None
        },
        None => None,
    }
}

/// Fifth strategy: the pictures of a gallery that is not empty.
pub fn gallery_pictures(data: &RedditListingItemData) -> (out: Option<Vec<RedditItem>>)
    ensures
        out.deep_view() == from_gallery(data.deep_view()),
{
    let gallery = match &data.media_metadata {
        Some(gallery) => gallery,
        None => {
            return None;
        },
    };
    if gallery.len() == 0 {
        return None;
    }
    let ghost d = data.deep_view();
    let ghost wanted = gallery.deep_view().map_values(|set: ImageSetModel| item_of(d, picture(set)));
    let mut items: Vec<RedditItem> = Vec::new();
    let mut i: usize = 0;
    while i < gallery.len()
        invariant
            i <= gallery.len(),
            d == data.deep_view(),
            wanted == gallery.deep_view().map_values(
                |set: ImageSetModel| item_of(d, picture(set)),
            ),
            items.deep_view() =~= wanted.take(i as int),
        decreases gallery.len() - i,
    {
        let image = &gallery[i].image;
        let item = make_item(
            data,
            RedditItemType::Picture {
                source_set: image.get_srcset(),
                url: decode_amp(image.s.u.as_str()),
            },
        );
        assert(item.deep_view() == wanted[i as int]) by {
            assert(gallery.deep_view()[i as int] == image.deep_view());
        }
        let ghost before = items.deep_view();
        items.push(item);
        assert(items.deep_view() =~= before.push(item.deep_view()));
        i += 1;
        assert(wanted.take(i as int) =~= wanted.take(i - 1).push(wanted[i - 1]));
    }
    assert(wanted.take(i as int) =~= wanted);
    Some(items)
}

fn preview_item(data: &RedditListingItemData, image: &RedditPreviewImageItem) -> (out: RedditItem)
    ensures
        out.deep_view() == item_of(data.deep_view(), preview_media(image.deep_view())),
{
    if let Some(variants) = &image.variants {
        if let Some(mp4) = &variants.mp4 {
            return make_item(
                data,
                RedditItemType::Video {
                    mime: "video/mp4".to_owned(),
                    url: decode_amp(mp4.source.url.as_str()),
                },
            );
        }
        if let Some(gif) = &variants.gif {
            return make_item(
                data,
                RedditItemType::Picture {
                    source_set: gif.get_srcset(),
                    url: decode_amp(gif.source.url.as_str()),
                },
            );
        }
    }
    make_item(
        data,
        RedditItemType::Picture {
            source_set: image.get_srcset(),
            url: decode_amp(image.source.url.as_str()),
        },
    )
}

/// Sixth strategy: one item for each image of a preview that is not empty.
pub fn preview_items(data: &RedditListingItemData) -> (out: Option<Vec<RedditItem>>)
    ensures
        out.deep_view() == from_preview(data.deep_view()),
{
    let images = match &data.preview {
        Some(preview) => &preview.images,
        None => {
            return None;
        },
    };
    if images.len() == 0 {
        return None;
    }
    let ghost d = data.deep_view();
    let ghost wanted = images.deep_view().map_values(
        |image: PreviewImageModel| item_of(d, preview_media(image)),
    );
    let mut items: Vec<RedditItem> = Vec::new();
    let mut i: usize = 0;
    while i < images.len()
        invariant
            i <= images.len(),
            d == data.deep_view(),
            wanted == images.deep_view().map_values(
                |image: PreviewImageModel| item_of(d, preview_media(image)),
            ),
            items.deep_view() =~= wanted.take(i as int),
        decreases images.len() - i,
    {
        let item = preview_item(data, &images[i]);
        assert(item.deep_view() == wanted[i as int]) by {
            assert(images.deep_view()[i as int] == images@[i as int].deep_view());
        }
        let ghost before = items.deep_view();
        items.push(item);
        assert(items.deep_view() =~= before.push(item.deep_view()));
        i += 1;
        assert(wanted.take(i as int) =~= wanted.take(i - 1).push(wanted[i - 1]));
    }
    assert(wanted.take(i as int) =~= wanted);
    Some(items)
}

fn single(item: RedditItem) -> (out: Vec<RedditItem>)
    ensures
        out.deep_view() == seq![item.deep_view()],
{
    let mut out: Vec<RedditItem> = Vec::new();
    out.push(item);
    assert(out.deep_view() =~= seq![item.deep_view()]);
    out
}

/// The items of an entry of kind `kind` that carries `data`, given what the
/// searches found in it.
pub fn normalize_probed(kind: &str, data: &RedditListingItemData, probes: &Probes) -> (out: Vec<
    RedditItem,
>)
    ensures
        out.deep_view() == items_given(kind@, data.deep_view(), probes.deep_view()),
{
    if !same_text(kind, "t3") {
        let none: Vec<RedditItem> = Vec::new();
        assert(none.deep_view() =~= Seq::<ItemModel>::empty());
        return none;
    }
    if let Some(item) = link_video(data, probes) {
        return single(item);
    }
    if let Some(item) = thumbnail_video(data, probes) {
        return single(item);
    }
    if let Some(item) = frame_from_markup(data, probes) {
        return single(item);
    }
    if let Some(item) = frame_from_page(data) {
        return single(item);
    }
    if let Some(items) = gallery_pictures(data) {
        return items;
    }
    if let Some(items) = preview_items(data) {
        return items;
    }
    let none: Vec<RedditItem> = Vec::new();
    assert(none.deep_view() =~= Seq::<ItemModel>::empty());
    none
}

/// An entry of another kind than the one that is read for media gives no
/// item, whatever it carries and whatever the searches found.
pub proof fn lemma_other_kind_gives_nothing(kind: Seq<char>, d: PayloadModel, p: ProbesModel)
    requires
        kind != link_kind(),
    ensures
        items_given(kind, d, p) == Seq::<ItemModel>::empty(),
{
}

/// An entry whose link names a looping video on Imgur gives that video
/// alone, whatever else it carries: not the pictures of its
/// gallery, nor anything of a later strategy.
pub proof fn lemma_link_beats_gallery(d: PayloadModel, p: ProbesModel)
    requires
        link_text(d) is Some,
        usable_token(p.link_token),
    ensures
        items_given(link_kind(), d, p) == seq![
            item_of(d, video("https://i.imgur.com/"@ + p.link_token->0 + ".mp4"@)),
        ],
{
}

/// The strategies are tried in their order and the first that applies
/// decides alone: a later one is heard only where every earlier one
/// declines.
pub proof fn lemma_first_strategy_decides(d: PayloadModel, p: ProbesModel)
    ensures
        from_link(d, p) is Some ==> payload_items(d, p) == seq![from_link(d, p)->0],
        from_link(d, p) is None && from_thumbnail(d, p) is Some ==> payload_items(d, p) == seq![
            from_thumbnail(d, p)->0,
        ],
        from_link(d, p) is None && from_thumbnail(d, p) is None && from_frame_markup(d, p) is Some
            ==> payload_items(d, p) == seq![from_frame_markup(d, p)->0],
        from_link(d, p) is None && from_thumbnail(d, p) is None && from_frame_markup(d, p) is None
            && from_frame_page(d) is Some ==> payload_items(d, p) == seq![from_frame_page(d)->0],
        from_link(d, p) is None && from_thumbnail(d, p) is None && from_frame_markup(d, p) is None
            && from_frame_page(d) is None && from_gallery(d) is Some ==> payload_items(d, p)
            == from_gallery(d)->0,
        from_link(d, p) is None && from_thumbnail(d, p) is None && from_frame_markup(d, p) is None
            && from_frame_page(d) is None && from_gallery(d) is None && from_preview(d) is Some
            ==> payload_items(d, p) == from_preview(d)->0,
        from_link(d, p) is None && from_thumbnail(d, p) is None && from_frame_markup(d, p) is None
            && from_frame_page(d) is None && from_gallery(d) is None && from_preview(d) is None
            ==> payload_items(d, p) == Seq::<ItemModel>::empty(),
{
}

} // verus!
