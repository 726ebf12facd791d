//! What a message holds, and the files it refers to.

use vstd::prelude::*;
use vstd::string::StringExecFns;

verus! {

/// The kind of file a reference points at.
#[derive(Clone, Copy, Debug, PartialEq, Eq, Structural)]
pub enum MediaKind {
    Photo,
    Video,
    Audio,
    Voice,
    Animation,
}

/// A handle on a file kept by the messaging service.
#[derive(Clone, Debug, PartialEq, Eq)]
pub struct MediaReference {
    pub file_id: String,
    pub kind: MediaKind,
}

/// A reference with its identifier as a sequence of characters.
pub struct MediaReferenceView {
    pub file_id: Seq<char>,
    pub kind: MediaKind,
}

impl View for MediaReference {
    type V = MediaReferenceView;

    open spec fn view(&self) -> MediaReferenceView {
        MediaReferenceView { file_id: self.file_id@, kind: self.kind }
    }
}

/// The content of a message. Each file is given by its identifier.
#[derive(Clone, Debug, PartialEq, Eq)]
pub enum Content {
    Text(String),
    /// One identifier for each resolution in which the photo is kept.
    Photo(Vec<String>),
    Video(String),
    Audio(String),
    Voice(String),
    Animation(String),
    /// Anything else.
    Other,
}

/// A content with its texts and identifiers as sequences of characters.
pub enum ContentView {
    Text(Seq<char>),
    Photo(Seq<Seq<char>>),
    Video(Seq<char>),
    Audio(Seq<char>),
    Voice(Seq<char>),
    Animation(Seq<char>),
    Other,
}

impl View for Content {
    type V = ContentView;

    open spec fn view(&self) -> ContentView {
        match self {
            Content::Text(text) => ContentView::Text(text@),
            Content::Photo(variants) => ContentView::Photo(variants.deep_view()),
            Content::Video(id) => ContentView::Video(id@),
            Content::Audio(id) => ContentView::Audio(id@),
            Content::Voice(id) => ContentView::Voice(id@),
            Content::Animation(id) => ContentView::Animation(id@),
            Content::Other => ContentView::Other,
        }
    }
}

/// The views of a list of references, in order.
pub open spec fn reference_views(references: Seq<MediaReference>) -> Seq<MediaReferenceView> {
    references.map_values(|r: MediaReference| r@)
}

/// The references a content yields: one for each variant of a photo, in order; one for a
/// video, an audio file, a voice note or an animation; none for text or anything else.
pub open spec fn extract_spec(content: ContentView) -> Seq<MediaReferenceView> {
    match content {
        ContentView::Text(_) => Seq::empty(),
        ContentView::Photo(variants) => variants.map_values(
            |id: Seq<char>| MediaReferenceView { file_id: id, kind: MediaKind::Photo },
        ),
        ContentView::Video(id) => seq![MediaReferenceView { file_id: id, kind: MediaKind::Video }],
        ContentView::Audio(id) => seq![MediaReferenceView { file_id: id, kind: MediaKind::Audio }],
        ContentView::Voice(id) => seq![MediaReferenceView { file_id: id, kind: MediaKind::Voice }],
        ContentView::Animation(id) => seq![
            MediaReferenceView { file_id: id, kind: MediaKind::Animation },
        ],
        ContentView::Other => Seq::empty(),
    }
}

/// The one reference to a file that is kept in one form only.
fn single(id: &String, kind: MediaKind) -> (references: Vec<MediaReference>)
    ensures
        reference_views(references@) == seq![MediaReferenceView { file_id: id@, kind }],
{
    let mut references: Vec<MediaReference> = Vec::new();
    references.push(MediaReference { file_id: id.clone(), kind });
    assert(reference_views(references@) =~= seq![MediaReferenceView { file_id: id@, kind }]);
    references
}

/// The media references of a message's content.
pub fn extract(content: &Content) -> (references: Vec<MediaReference>)
    ensures
        reference_views(references@) == extract_spec(content@),
{
    match content {
        Content::Photo(variants) => {
            let mut references: Vec<MediaReference> = Vec::new();
            let mut i: usize = 0;
            while i < variants.len()
                invariant
                    0 <= i <= variants.len(),
                    references.len() == i,
                    forall|j: int|
                        0 <= j < i ==> references@[j]@ == (MediaReferenceView {
                            file_id: variants@[j]@,
                            kind: MediaKind::Photo,
                        }),
                decreases variants.len() - i,
            {
                references.push(MediaReference { file_id: variants[i].clone(), kind: MediaKind::Photo });
                i += 1;
            }
            assert(reference_views(references@) =~= extract_spec(content@));
            references
        },
        Content::Video(id) => single(id, MediaKind::Video),
        Content::Audio(id) => single(id, MediaKind::Audio),
        Content::Voice(id) => single(id, MediaKind::Voice),
        Content::Animation(id) => single(id, MediaKind::Animation),
        Content::Text(_) => {
            let references: Vec<MediaReference> = Vec::new();
            assert(reference_views(references@) =~= Seq::empty());
            references
        },
        Content::Other => {
            let references: Vec<MediaReference> = Vec::new();
            assert(reference_views(references@) =~= Seq::empty());
            references
        },
    }
}

/// A photo kept in `n` resolutions yields `n` references, text and unknown content yield
/// none, and every other kind of file yields one.
pub proof fn law_extract_counts(content: ContentView)
    ensures
        extract_spec(content).len() == (match content {
            ContentView::Photo(variants) => variants.len(),
            ContentView::Text(_) => 0,
            ContentView::Other => 0,
            _ => 1,
        }),
        forall|i: int|
            0 <= i < extract_spec(content).len() ==> (#[trigger] extract_spec(content)[i]).kind == (match content {
                ContentView::Photo(_) => MediaKind::Photo,
                ContentView::Video(_) => MediaKind::Video,
                ContentView::Audio(_) => MediaKind::Audio,
                ContentView::Voice(_) => MediaKind::Voice,
                _ => MediaKind::Animation,
            }),
{
}

/// The address under which the messaging service serves a file: the service's file root, the
/// bot's token, a slash and the file's path.
pub open spec fn file_url_spec(token: Seq<char>, path: Seq<char>) -> Seq<char> {
    "https://api.telegram.org/file/bot"@ + token + "/"@ + path
}

/// The address from which the file at `path` can be fetched with the bot's `token`.
pub fn file_url(token: &str, path: &str) -> (url: String)
    ensures
        url@ == file_url_spec(token@, path@),
{
    let mut url = "https://api.telegram.org/file/bot".to_owned();
    url.append(token);
    url.append("/");
    url.append(path);
    url
}

} // verus!
