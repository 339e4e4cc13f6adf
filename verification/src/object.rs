//! What travels between servers: the object that stands for a post, the
//! marker that stands for a deleted one, and their views.

use vstd::prelude::*;
use crate::model::Timestamp;

verus! {

/// The flags of a post that the base vocabulary has no field for.
#[derive(Clone, Copy, Debug, PartialEq, Eq, Structural)]
pub struct PageExtension {
    pub comments_enabled: bool,
    pub sensitive: bool,
}

/// A picture attached to an object.
#[derive(Clone, Debug, PartialEq, Eq)]
pub struct Image {
    pub url: String,
}

/// What an `Image` holds.
pub ghost struct ImageView {
    pub url: Seq<char>,
}

impl View for Image {
    type V = ImageView;

    open spec fn view(&self) -> ImageView {
        ImageView { url: self.url@ }
    }
}

/// The nested object that describes what a post links to.
#[derive(Clone, Debug, PartialEq, Eq)]
pub struct Preview {
    pub url: Option<String>,
    pub name: Option<String>,
    pub summary: Option<String>,
    pub content: Option<String>,
}

/// What a `Preview` holds.
pub ghost struct PreviewView {
    pub url: Option<Seq<char>>,
    pub name: Option<Seq<char>>,
    pub summary: Option<Seq<char>>,
    pub content: Option<Seq<char>>,
}

impl View for Preview {
    type V = PreviewView;

    open spec fn view(&self) -> PreviewView {
        PreviewView {
            url: self.url.deep_view(),
            name: self.name.deep_view(),
            summary: self.summary.deep_view(),
            content: self.content.deep_view(),
        }
    }
}

/// The base fields of the object that stands for a post. A field that a
/// document does not carry is `None`.
#[derive(Clone, Debug, PartialEq, Eq)]
pub struct Page {
    pub id: Option<String>,
    pub to: Option<String>,
    pub attributed_to: Option<String>,
    pub published: Option<Timestamp>,
    pub updated: Option<Timestamp>,
    pub summary: Option<String>,
    pub content: Option<String>,
    pub url: Option<String>,
    pub image: Option<Image>,
    pub preview: Option<Preview>,
}

/// What a `Page` holds.
pub ghost struct PageView {
    pub id: Option<Seq<char>>,
    pub to: Option<Seq<char>>,
    pub attributed_to: Option<Seq<char>>,
    pub published: Option<Timestamp>,
    pub updated: Option<Timestamp>,
    pub summary: Option<Seq<char>>,
    pub content: Option<Seq<char>>,
    pub url: Option<Seq<char>>,
    pub image: Option<ImageView>,
    pub preview: Option<PreviewView>,
}

impl View for Page {
    type V = PageView;

    open spec fn view(&self) -> PageView {
        PageView {
            id: self.id.deep_view(),
            to: self.to.deep_view(),
            attributed_to: self.attributed_to.deep_view(),
            published: self.published,
            updated: self.updated,
            summary: self.summary.deep_view(),
            content: self.content.deep_view(),
            url: self.url.deep_view(),
            image: match self.image {
                Some(image) => Some(image@),
                None => None,
            },
            preview: match self.preview {
                Some(preview) => Some(preview@),
                None => None,
            },
        }
    }
}

/// The object that stands for a post: the base fields and the block of
/// flags. A document without the block is held with `ext_one` at `None`, and
/// is not the object of any post.
#[derive(Clone, Debug, PartialEq, Eq)]
pub struct PageExt {
    pub inner: Page,
    pub ext_one: Option<PageExtension>,
}

/// What a `PageExt` holds.
pub ghost struct PageExtView {
    pub inner: PageView,
    pub ext_one: Option<PageExtension>,
}

impl View for PageExt {
    type V = PageExtView;

    open spec fn view(&self) -> PageExtView {
        PageExtView { inner: self.inner@, ext_one: self.ext_one }
    }
}

/// The marker that is served in place of a deleted object.
#[derive(Clone, Debug, PartialEq, Eq)]
pub struct Tombstone {
    pub id: String,
    pub former_type: String,
    pub deleted: Timestamp,
}

/// What a `Tombstone` holds.
pub ghost struct TombstoneView {
    pub id: Seq<char>,
    pub former_type: Seq<char>,
    pub deleted: Timestamp,
}

impl View for Tombstone {
    type V = TombstoneView;

    open spec fn view(&self) -> TombstoneView {
        TombstoneView { id: self.id@, former_type: self.former_type@, deleted: self.deleted }
    }
}

} // verus!
