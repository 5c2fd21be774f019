//! The listing page as it arrives, the media items that come out of it, and
//! the mathematical model of each.

use vstd::prelude::*;
use crate::text::{decimal, decode_amp, join, joined, push_decimal, texts, unescape_amp};

verus! {

/// How a media item is shown.
#[derive(Clone, Debug, PartialEq, Eq)]
pub enum RedditItemType {
    Picture { source_set: String, url: String },
    Video { mime: String, url: String },
    Embed { url: String, scrolling: String, width: i32, height: i32 },
}

/// One displayable media item.
#[derive(Clone, Debug, PartialEq, Eq)]
pub struct RedditItem {
    pub title: String,
    pub title_url: String,
    pub item: RedditItemType,
}

/// Model of [`RedditItemType`].
pub enum MediaModel {
    Picture { source_set: Seq<char>, url: Seq<char> },
    Video { mime: Seq<char>, url: Seq<char> },
    Embed { url: Seq<char>, scrolling: Seq<char>, width: int, height: int },
}

/// Model of [`RedditItem`].
pub struct ItemModel {
    pub title: Seq<char>,
    pub title_url: Seq<char>,
    pub item: MediaModel,
}

impl DeepView for RedditItemType {
    type V = MediaModel;

    open spec fn deep_view(&self) -> MediaModel {
        match *self {
            RedditItemType::Picture { source_set, url } => MediaModel::Picture {
                source_set: source_set@,
                url: url@,
            },
            RedditItemType::Video { mime, url } => MediaModel::Video { mime: mime@, url: url@ },
            RedditItemType::Embed { url, scrolling, width, height } => MediaModel::Embed {
                url: url@,
                scrolling: scrolling@,
                width: width as int,
                height: height as int,
            },
        }
    }
}

impl DeepView for RedditItem {
    type V = ItemModel;

    open spec fn deep_view(&self) -> ItemModel {
        ItemModel {
            title: self.title@,
            title_url: self.title_url@,
            item: self.item.deep_view(),
        }
    }
}

/// One rendition of an image: where it is, and its size in pixels.
#[derive(Clone, Debug, PartialEq, Eq)]
pub struct RedditPreviewImage {
    pub url: String,
    pub width: i32,
    pub height: i32,
}

/// One rendition of a gallery image: its size in pixels, and where it is.
#[derive(Clone, Debug, PartialEq, Eq)]
pub struct RedditGalleryItemSource {
    pub x: i32,
    pub y: i32,
    pub u: String,
}

/// Model of one rendition, of a preview or of a gallery.
pub struct ImageModel {
    pub url: Seq<char>,
    pub width: int,
    pub height: int,
}

impl DeepView for RedditPreviewImage {
    type V = ImageModel;

    open spec fn deep_view(&self) -> ImageModel {
        ImageModel { url: self.url@, width: self.width as int, height: self.height as int }
    }
}

impl DeepView for RedditGalleryItemSource {
    type V = ImageModel;

    open spec fn deep_view(&self) -> ImageModel {
        ImageModel { url: self.u@, width: self.x as int, height: self.y as int }
    }
}

/// The entry of a source set for one rendition: its decoded address, a
/// space, and its width followed by `w`.
pub open spec fn srcset_value(image: ImageModel) -> Seq<char> {
    unescape_amp(image.url) + seq![' '] + decimal(image.width) + seq!['w']
}

fn srcset_entry(url: &str, width: i32) -> (out: String)
    ensures
        out@ == unescape_amp(url@) + seq![' '] + decimal(width as int) + seq!['w'],
{
    let mut out = decode_amp(url);
    out.push(' ');
    push_decimal(&mut out, width);
    out.push('w');
    out
}

impl RedditPreviewImage {
    /// The entry of a source set for this rendition.
    pub fn to_srcset_value(&self) -> (out: String)
        ensures
            out@ == srcset_value(self.deep_view()),
    {
        srcset_entry(self.url.as_str(), self.width)
    }
}

impl RedditGalleryItemSource {
    /// The entry of a source set for this rendition.
    pub fn to_srcset_value(&self) -> (out: String)
        ensures
            out@ == srcset_value(self.deep_view()),
    {
        srcset_entry(self.u.as_str(), self.x)
    }
}

/// Model of an image with its smaller renditions.
pub struct ImageSetModel {
    pub source: ImageModel,
    pub resolutions: Seq<ImageModel>,
}

/// The separator between the entries of a source set.
pub open spec fn srcset_separator() -> Seq<char> {
    seq![',', ' ']
}

/// The source set of an image: the entries of its smaller renditions in
/// their order, then the entry of the image itself, separated by a comma and
/// a space.
pub open spec fn srcset(set: ImageSetModel) -> Seq<char> {
    joined(
        set.resolutions.map_values(|image: ImageModel| srcset_value(image)).push(
            srcset_value(set.source),
        ),
        srcset_separator(),
    )
}

/// In a source set the image itself comes last, behind its smaller
/// renditions: the source set of an image without them is its own entry, and
/// that of any other is the entries of the renditions, a separator, and the
/// entry of the image.
pub proof fn lemma_srcset_ends_with_source(set: ImageSetModel)
    ensures
        set.resolutions.len() == 0 ==> srcset(set) == srcset_value(set.source),
        set.resolutions.len() > 0 ==> srcset(set) == joined(
            set.resolutions.map_values(|image: ImageModel| srcset_value(image)),
            srcset_separator(),
        ) + srcset_separator() + srcset_value(set.source),
{
    let values = set.resolutions.map_values(|image: ImageModel| srcset_value(image));
    assert(values.push(srcset_value(set.source)).drop_last() =~= values);
}

fn preview_srcset(source: &RedditPreviewImage, resolutions: &Vec<RedditPreviewImage>) -> (out:
    String)
    ensures
        out@ == srcset(
            ImageSetModel { source: source.deep_view(), resolutions: resolutions.deep_view() },
        ),
{
    let ghost values = resolutions.deep_view().map_values(|image: ImageModel| srcset_value(image));
    let mut sizes: Vec<String> = Vec::new();
    let mut i: usize = 0;
    while i < resolutions.len()
        invariant
            i <= resolutions.len(),
            values == resolutions.deep_view().map_values(|image: ImageModel| srcset_value(image)),
            sizes.len() == i,
            texts(sizes@) == values.take(i as int),
        decreases resolutions.len() - i,
    {
        let ghost before = sizes@;
        sizes.push(resolutions[i].to_srcset_value());
        proof {
            assert(resolutions.deep_view()[i as int] == resolutions@[i as int].deep_view());
            assert(values.len() == resolutions.len());
            assert(texts(before).len() == i);
            assert forall|j: int| 0 <= j <= i implies texts(sizes@)[j] == values.take(
                i + 1,
            )[j] by {
                if j < i {
                    assert(texts(before)[j] == values.take(i as int)[j]);
                    assert(sizes@[j] == before[j]);
                } else {
                    assert(values[j] == srcset_value(resolutions.deep_view()[j]));
                }
            }
            assert(texts(sizes@) =~= values.take(i + 1));
        }
        i += 1;
    }
    sizes.push(source.to_srcset_value());
    proof {
        reveal_strlit(", ");
        assert(", "@ =~= srcset_separator());
        assert(values.take(i as int) =~= values);
        assert(texts(sizes@) =~= values.push(srcset_value(source.deep_view())));
    }
    join(&sizes, ", ")
}

fn gallery_srcset(source: &RedditGalleryItemSource, resolutions: &Vec<RedditGalleryItemSource>) -> (out:
    String)
    ensures
        out@ == srcset(
            ImageSetModel { source: source.deep_view(), resolutions: resolutions.deep_view() },
        ),
{
    let ghost values = resolutions.deep_view().map_values(|image: ImageModel| srcset_value(image));
    let mut sizes: Vec<String> = Vec::new();
    let mut i: usize = 0;
    while i < resolutions.len()
        invariant
            i <= resolutions.len(),
            values == resolutions.deep_view().map_values(|image: ImageModel| srcset_value(image)),
            sizes.len() == i,
            texts(sizes@) == values.take(i as int),
        decreases resolutions.len() - i,
    {
        let ghost before = sizes@;
        sizes.push(resolutions[i].to_srcset_value());
        proof {
            assert(resolutions.deep_view()[i as int] == resolutions@[i as int].deep_view());
            assert(values.len() == resolutions.len());
            assert(texts(before).len() == i);
            assert forall|j: int| 0 <= j <= i implies texts(sizes@)[j] == values.take(
                i + 1,
            )[j] by {
                if j < i {
                    assert(texts(before)[j] == values.take(i as int)[j]);
                    assert(sizes@[j] == before[j]);
                } else {
                    assert(values[j] == srcset_value(resolutions.deep_view()[j]));
                }
            }
            assert(texts(sizes@) =~= values.take(i + 1));
        }
        i += 1;
    }
    sizes.push(source.to_srcset_value());
    proof {
        reveal_strlit(", ");
        assert(", "@ =~= srcset_separator());
        assert(values.take(i as int) =~= values);
        assert(texts(sizes@) =~= values.push(srcset_value(source.deep_view())));
    }
    join(&sizes, ", ")
}

/// A preview image in another format, with its smaller renditions.
#[derive(Clone, Debug, PartialEq, Eq)]
pub struct RedditPreviewImageItemNoVars {
    pub source: RedditPreviewImage,
    pub resolutions: Vec<RedditPreviewImage>,
}

impl DeepView for RedditPreviewImageItemNoVars {
    type V = ImageSetModel;

    open spec fn deep_view(&self) -> ImageSetModel {
        ImageSetModel {
            source: self.source.deep_view(),
            resolutions: self.resolutions.deep_view(),
        }
    }
}

impl RedditPreviewImageItemNoVars {
    /// The source set of this image.
    pub fn get_srcset(&self) -> (out: String)
        ensures
            out@ == srcset(self.deep_view()),
    {
        preview_srcset(&self.source, &self.resolutions)
    }
}

/// The other formats in which a preview image is offered.
#[derive(Clone, Debug, PartialEq, Eq)]
pub struct RedditPreviewVariantItem {
    pub gif: Option<RedditPreviewImageItemNoVars>,
    pub mp4: Option<RedditPreviewImageItemNoVars>,
}

/// Model of [`RedditPreviewVariantItem`].
pub struct VariantsModel {
    pub gif: Option<ImageSetModel>,
    pub mp4: Option<ImageSetModel>,
}

impl DeepView for RedditPreviewVariantItem {
    type V = VariantsModel;

    open spec fn deep_view(&self) -> VariantsModel {
        VariantsModel { gif: self.gif.deep_view(), mp4: self.mp4.deep_view() }
    }
}

/// A preview image with its smaller renditions and its other formats.
#[derive(Clone, Debug, PartialEq, Eq)]
pub struct RedditPreviewImageItem {
    pub source: RedditPreviewImage,
    pub resolutions: Vec<RedditPreviewImage>,
    pub variants: Option<RedditPreviewVariantItem>,
}

/// Model of [`RedditPreviewImageItem`].
pub struct PreviewImageModel {
    pub set: ImageSetModel,
    pub variants: Option<VariantsModel>,
}

impl DeepView for RedditPreviewImageItem {
    type V = PreviewImageModel;

    open spec fn deep_view(&self) -> PreviewImageModel {
        PreviewImageModel {
            set: ImageSetModel {
                source: self.source.deep_view(),
                resolutions: self.resolutions.deep_view(),
            },
            variants: self.variants.deep_view(),
        }
    }
}

impl RedditPreviewImageItem {
    /// The source set of the image in its own format.
    pub fn get_srcset(&self) -> (out: String)
        ensures
            out@ == srcset(self.deep_view().set),
    {
        preview_srcset(&self.source, &self.resolutions)
    }
}

/// A gallery image with its smaller renditions.
#[derive(Clone, Debug, PartialEq, Eq)]
pub struct RedditGalleryItem {
    pub s: RedditGalleryItemSource,
    pub p: Vec<RedditGalleryItemSource>,
}

impl DeepView for RedditGalleryItem {
    type V = ImageSetModel;

    open spec fn deep_view(&self) -> ImageSetModel {
        ImageSetModel { source: self.s.deep_view(), resolutions: self.p.deep_view() }
    }
}

impl RedditGalleryItem {
    /// The source set of this image.
    pub fn get_srcset(&self) -> (out: String)
        ensures
            out@ == srcset(self.deep_view()),
    {
        gallery_srcset(&self.s, &self.p)
    }
}

/// One image of a gallery, under the key that the page files it under.
#[derive(Clone, Debug, PartialEq, Eq)]
pub struct RedditGalleryEntry {
    pub key: String,
    pub image: RedditGalleryItem,
}

impl DeepView for RedditGalleryEntry {
    type V = ImageSetModel;

    open spec fn deep_view(&self) -> ImageSetModel {
        self.image.deep_view()
    }
}

/// The preview block of an entry.
#[derive(Clone, Debug, PartialEq, Eq)]
pub struct RedditPreview {
    pub images: Vec<RedditPreviewImageItem>,
}

/// The thumbnail that a media provider offers.
#[derive(Clone, Debug, PartialEq, Eq)]
pub struct OEmbed {
    pub thumbnail_url: Option<String>,
}

/// What an entry says of media hosted elsewhere.
#[derive(Clone, Debug, PartialEq, Eq)]
pub struct RedditMedia {
    pub type_: Option<String>,
    pub oembed: Option<OEmbed>,
}

/// Model of [`RedditMedia`]: the provider, and the address of its thumbnail.
pub struct HostedModel {
    pub provider: Option<Seq<char>>,
    pub thumbnail: Option<Seq<char>>,
}

impl DeepView for RedditMedia {
    type V = HostedModel;

    open spec fn deep_view(&self) -> HostedModel {
        HostedModel {
            provider: self.type_.deep_view(),
            thumbnail: match self.oembed {
                Some(oembed) => oembed.thumbnail_url.deep_view(),
                None => None,
            },
        }
    }
}

/// The frame in which an entry embeds a page from elsewhere: either the
/// markup of the frame or the address of the page, with the frame's size.
#[derive(Clone, Debug, PartialEq, Eq)]
pub struct RedditMediaEmbed {
    pub scrolling: Option<bool>,
    pub width: Option<i32>,
    pub height: Option<i32>,
    pub content: Option<String>,
    pub media_domain_url: Option<String>,
}

/// Model of [`RedditMediaEmbed`].
pub struct FrameModel {
    pub scrolling: Option<bool>,
    pub width: Option<int>,
    pub height: Option<int>,
    pub content: Option<Seq<char>>,
    pub media_domain_url: Option<Seq<char>>,
}

impl DeepView for RedditMediaEmbed {
    type V = FrameModel;

    open spec fn deep_view(&self) -> FrameModel {
        FrameModel {
            scrolling: self.scrolling,
            width: match self.width {
                Some(width) => Some(width as int),
                None => None,
            },
            height: match self.height {
                Some(height) => Some(height as int),
                None => None,
            },
            content: self.content.deep_view(),
            media_domain_url: self.media_domain_url.deep_view(),
        }
    }
}

/// What an entry of a listing page carries. The gallery holds its images in
/// the order in which they are to be shown.
#[derive(Clone, Debug, PartialEq, Eq)]
pub struct RedditListingItemData {
    pub media_metadata: Option<Vec<RedditGalleryEntry>>,
    pub preview: Option<RedditPreview>,
    pub title: String,
    pub permalink: String,
    pub name: String,
    pub url: String,
    pub secure_media_embed: Option<RedditMediaEmbed>,
    pub media: Option<RedditMedia>,
}

/// Model of [`RedditListingItemData`].
pub struct PayloadModel {
    pub gallery: Option<Seq<ImageSetModel>>,
    pub preview: Option<Seq<PreviewImageModel>>,
    pub title: Seq<char>,
    pub permalink: Seq<char>,
    pub name: Seq<char>,
    pub url: Seq<char>,
    pub frame: Option<FrameModel>,
    pub hosted: Option<HostedModel>,
}

impl DeepView for RedditListingItemData {
    type V = PayloadModel;

    open spec fn deep_view(&self) -> PayloadModel {
        PayloadModel {
            gallery: self.media_metadata.deep_view(),
            preview: match self.preview {
                Some(preview) => Some(preview.images.deep_view()),
                None => None,
            },
            title: self.title@,
            permalink: self.permalink@,
            name: self.name@,
            url: self.url@,
            frame: self.secure_media_embed.deep_view(),
            hosted: self.media.deep_view(),
        }
    }
}

/// One entry of a listing page: its kind and what it carries.
#[derive(Clone, Debug, PartialEq, Eq)]
pub struct RedditListingItem {
    pub kind: String,
    pub data: Option<RedditListingItemData>,
}

/// Model of [`RedditListingItem`].
pub struct EntryModel {
    pub kind: Seq<char>,
    pub data: Option<PayloadModel>,
}

impl DeepView for RedditListingItem {
    type V = EntryModel;

    open spec fn deep_view(&self) -> EntryModel {
        EntryModel { kind: self.kind@, data: self.data.deep_view() }
    }
}

/// The envelope of a listing page: its entries in order.
#[derive(Clone, Debug, PartialEq, Eq)]
pub struct RedditListingsData {
    pub children: Vec<RedditListingItem>,
}

/// A listing page. A page without envelope carries no data, which is not
/// the same as a page whose envelope is empty.
#[derive(Clone, Debug, PartialEq, Eq)]
pub struct RedditListings {
    pub data: Option<RedditListingsData>,
}

/// Model of [`RedditListings`]: the entries of the envelope, if there is one.
pub struct PageModel {
    pub entries: Option<Seq<EntryModel>>,
}

impl DeepView for RedditListings {
    type V = PageModel;

    open spec fn deep_view(&self) -> PageModel {
        PageModel {
            entries: match self.data {
                Some(data) => Some(data.children.deep_view()),
                None => None,
            },
        }
    }
}

} // verus!
