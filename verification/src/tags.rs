//! Tags of outgoing events: the article's addressable coordinate and the tag
//! list that a published article carries.

use vstd::prelude::*;

verus! {

/// Kind number of an addressable long-form article event.
pub const LONG_FORM_KIND: u64 = 30023;

/// Width and height given to an article's title image.
pub const IMAGE_DIMENSION: u64 = 200;

/// An addressable reference to a replaceable event: its kind, its author's
/// public key, and the application-chosen identifier. Referencing a coordinate
/// reaches every revision of the article, not just one event.
#[derive(Debug, PartialEq)]
pub struct Coordinate {
    pub kind: u64,
    pub public_key: String,
    pub identifier: String,
}

/// Mathematical value of a [`Coordinate`].
pub struct CoordinateView {
    pub kind: u64,
    pub public_key: Seq<char>,
    pub identifier: Seq<char>,
}

impl View for Coordinate {
    type V = CoordinateView;

    open spec fn view(&self) -> CoordinateView {
        CoordinateView {
            kind: self.kind,
            public_key: self.public_key@,
            identifier: self.identifier@,
        }
    }
}

/// One tag of an outgoing event.
#[derive(Debug, PartialEq)]
pub enum NoteTag {
    /// The application-chosen identifier of the article.
    Identifier(String),
    /// The article's title.
    Title(String),
    /// A hashtag carrying the article's summary.
    Hashtag(String),
    /// An image shown along with the title, with its dimensions.
    Image { url: String, width: u64, height: u64 },
    /// When the article was first published, in unix seconds.
    PublishedAt(u64),
    /// The article's addressable coordinate.
    Coordinate(Coordinate),
    /// A kind marker.
    Kind(u64),
    /// A reference to one event by its identifier.
    EventRef(String),
}

/// Mathematical value of a [`NoteTag`].
pub enum NoteTagView {
    Identifier(Seq<char>),
    Title(Seq<char>),
    Hashtag(Seq<char>),
    Image { url: Seq<char>, width: u64, height: u64 },
    PublishedAt(u64),
    Coordinate(CoordinateView),
    Kind(u64),
    EventRef(Seq<char>),
}

impl View for NoteTag {
    type V = NoteTagView;

    open spec fn view(&self) -> NoteTagView {
        match self {
            NoteTag::Identifier(s) => NoteTagView::Identifier(s@),
            NoteTag::Title(s) => NoteTagView::Title(s@),
            NoteTag::Hashtag(s) => NoteTagView::Hashtag(s@),
            NoteTag::Image { url, width, height } => NoteTagView::Image {
                url: url@,
                width: *width,
                height: *height,
            },
            NoteTag::PublishedAt(ts) => NoteTagView::PublishedAt(*ts),
            NoteTag::Coordinate(c) => NoteTagView::Coordinate(c@),
            NoteTag::Kind(k) => NoteTagView::Kind(*k),
            NoteTag::EventRef(s) => NoteTagView::EventRef(s@),
        }
    }
}

impl DeepView for NoteTag {
    type V = NoteTagView;

    open spec fn deep_view(&self) -> NoteTagView {
        self@
    }
}

/// What an article brings along besides its content: its identifier and the
/// optional title, summary, image, and first-publication time.
pub struct ArticleMeta {
    pub identifier: String,
    pub title: Option<String>,
    pub summary: Option<String>,
    pub image_url: Option<String>,
    pub published_at: Option<u64>,
}

/// Mathematical value of an [`ArticleMeta`].
pub struct ArticleMetaView {
    pub identifier: Seq<char>,
    pub title: Option<Seq<char>>,
    pub summary: Option<Seq<char>>,
    pub image_url: Option<Seq<char>>,
    pub published_at: Option<u64>,
}

impl View for ArticleMeta {
    type V = ArticleMetaView;

    open spec fn view(&self) -> ArticleMetaView {
        ArticleMetaView {
            identifier: self.identifier@,
            title: match self.title {
                Some(ref t) => Some(t@),
                None => None,
            },
            summary: match self.summary {
                Some(ref s) => Some(s@),
                None => None,
            },
            image_url: match self.image_url {
                Some(ref u) => Some(u@),
                None => None,
            },
            published_at: self.published_at,
        }
    }
}

/// The tag list of a published article: its identifier first; then title,
/// summary hashtag and image, each only when given; then the
/// first-publication time — the given one, or `now_ts` when none was given —
/// and last the article's own coordinate under the author's key.
pub open spec fn article_tags(
    meta: ArticleMetaView,
    author: Seq<char>,
    now_ts: u64,
) -> Seq<NoteTagView> {
    let base = seq![NoteTagView::Identifier(meta.identifier)];
    let with_title = match meta.title {
        Some(t) => base.push(NoteTagView::Title(t)),
        None => base,
    };
    let with_summary = match meta.summary {
        Some(s) => with_title.push(NoteTagView::Hashtag(s)),
        None => with_title,
    };
    let with_image = match meta.image_url {
        Some(u) => with_summary.push(
            NoteTagView::Image { url: u, width: IMAGE_DIMENSION, height: IMAGE_DIMENSION },
        ),
        None => with_summary,
    };
    let published = match meta.published_at {
        Some(ts) => ts,
        None => now_ts,
    };
    with_image.push(NoteTagView::PublishedAt(published)).push(
        NoteTagView::Coordinate(
            CoordinateView {
                kind: LONG_FORM_KIND,
                public_key: author,
                identifier: meta.identifier,
            },
        ),
    )
}

/// Builds the tag list an article is published with: exactly
/// [`article_tags`] of its metadata, its author, and the current time.
pub fn build_article_tags(meta: ArticleMeta, author: &String, now_ts: u64) -> (tags: Vec<NoteTag>)
    ensures
        tags.deep_view() == article_tags(meta@, author@, now_ts),
{
    let ghost m = meta@;
    let ArticleMeta { identifier, title, summary, image_url, published_at } = meta;
    let mut tags: Vec<NoteTag> = Vec::new();
    let coordinate_identifier = identifier.clone();
    tags.push(NoteTag::Identifier(identifier));
    if let Some(t) = title {
        tags.push(NoteTag::Title(t));
    }
    if let Some(s) = summary {
        tags.push(NoteTag::Hashtag(s));
    }
    if let Some(u) = image_url {
        tags.push(NoteTag::Image { url: u, width: IMAGE_DIMENSION, height: IMAGE_DIMENSION });
    }
    let published = match published_at {
        Some(ts) => ts,
        None => now_ts,
    };
    tags.push(NoteTag::PublishedAt(published));
    tags.push(
        NoteTag::Coordinate(
            Coordinate {
                kind: LONG_FORM_KIND,
                public_key: author.clone(),
                identifier: coordinate_identifier,
            },
        ),
    );
    proof {
        assert(tags.deep_view() =~= article_tags(m, author@, now_ts));
    }
    tags
}

} // verus!
