use vstd::prelude::*;

verus! {

/// Canonical page entity synchronized into the search index.
///
/// `id` is the index's unique key. `path` and `hash` always reflect the
/// destination values when a rename is in play: a page is never indexed
/// under a stale path or hash.
#[derive(Debug)]
pub struct WikiPage {
    pub id: u64,
    pub path: String,
    pub hash: String,
    pub title: String,
    pub description: String,
    pub is_private: bool,
    pub is_published: bool,
    pub content: String,
    pub content_type: String,
    pub created_at: String,
    pub updated_at: String,
    pub editor_key: String,
    pub locale_code: String,
    pub author_id: u64,
    pub creator_id: u64,
}

/// Mathematical model of a page: each text field as a sequence of characters.
#[verifier::ext_equal]
pub struct PageView {
    pub id: u64,
    pub path: Seq<char>,
    pub hash: Seq<char>,
    pub title: Seq<char>,
    pub description: Seq<char>,
    pub is_private: bool,
    pub is_published: bool,
    pub content: Seq<char>,
    pub content_type: Seq<char>,
    pub created_at: Seq<char>,
    pub updated_at: Seq<char>,
    pub editor_key: Seq<char>,
    pub locale_code: Seq<char>,
    pub author_id: u64,
    pub creator_id: u64,
}

impl View for WikiPage {
    type V = PageView;

    open spec fn view(&self) -> PageView {
        PageView {
            id: self.id,
            path: self.path@,
            hash: self.hash@,
            title: self.title@,
            description: self.description@,
            is_private: self.is_private,
            is_published: self.is_published,
            content: self.content@,
            content_type: self.content_type@,
            created_at: self.created_at@,
            updated_at: self.updated_at@,
            editor_key: self.editor_key@,
            locale_code: self.locale_code@,
            author_id: self.author_id,
            creator_id: self.creator_id,
        }
    }
}

impl PageView {
    /// A page may reach the index only when it is published and not private;
    /// no other field affects eligibility.
    pub open spec fn indexable(self) -> bool {
        self.is_published && !self.is_private
    }
}

impl WikiPage {
    /// Publication rule: decides whether this page may ever reach the index.
    pub fn is_indexable(&self) -> (r: bool)
        ensures
            r == self@.indexable(),
    {
        self.is_published && !self.is_private
    }

    /// Builds the canonical page for a renamed page: the destination path and
    /// hash replace the stale ones, and the migration-only fields are dropped.
    pub fn from(renamed: RenamedWikiPage) -> (r: WikiPage)
        ensures
            r@ == renamed@.to_page(),
    {
        WikiPage {
            id: renamed.id,
            path: renamed.destination_path,
            hash: renamed.destination_hash,
            title: renamed.title,
            description: renamed.description,
            is_private: renamed.is_private,
            is_published: renamed.is_published,
            content: renamed.content,
            content_type: renamed.content_type,
            created_at: renamed.created_at,
            updated_at: renamed.updated_at,
            editor_key: renamed.editor_key,
            locale_code: renamed.locale_code,
            author_id: renamed.author_id,
            creator_id: renamed.creator_id,
        }
    }
}

/// Wire-format variant emitted when the wiki signals a path or locale rename
/// alongside content changes. Exists only transiently during decoding.
#[derive(Debug)]
pub struct RenamedWikiPage {
    pub id: u64,
    pub path: String,
    pub hash: String,
    pub title: String,
    pub description: String,
    pub is_private: bool,
    pub is_published: bool,
    pub content: String,
    pub content_type: String,
    pub created_at: String,
    pub updated_at: String,
    pub editor_key: String,
    pub locale_code: String,
    pub author_id: u64,
    pub creator_id: u64,
    pub destination_path: String,
    pub destination_locale_code: String,
    pub destination_hash: String,
}

/// Mathematical model of a renamed page.
#[verifier::ext_equal]
pub struct RenamedPageView {
    pub id: u64,
    pub path: Seq<char>,
    pub hash: Seq<char>,
    pub title: Seq<char>,
    pub description: Seq<char>,
    pub is_private: bool,
    pub is_published: bool,
    pub content: Seq<char>,
    pub content_type: Seq<char>,
    pub created_at: Seq<char>,
    pub updated_at: Seq<char>,
    pub editor_key: Seq<char>,
    pub locale_code: Seq<char>,
    pub author_id: u64,
    pub creator_id: u64,
    pub destination_path: Seq<char>,
    pub destination_locale_code: Seq<char>,
    pub destination_hash: Seq<char>,
}

impl View for RenamedWikiPage {
    type V = RenamedPageView;

    open spec fn view(&self) -> RenamedPageView {
        RenamedPageView {
            id: self.id,
            path: self.path@,
            hash: self.hash@,
            title: self.title@,
            description: self.description@,
            is_private: self.is_private,
            is_published: self.is_published,
            content: self.content@,
            content_type: self.content_type@,
            created_at: self.created_at@,
            updated_at: self.updated_at@,
            editor_key: self.editor_key@,
            locale_code: self.locale_code@,
            author_id: self.author_id,
            creator_id: self.creator_id,
            destination_path: self.destination_path@,
            destination_locale_code: self.destination_locale_code@,
            destination_hash: self.destination_hash@,
        }
    }
}

impl RenamedPageView {
    /// Substitution rule: the canonical page equivalent of a renamed page.
    pub open spec fn to_page(self) -> PageView {
        PageView {
            id: self.id,
            path: self.destination_path,
            hash: self.destination_hash,
            title: self.title,
            description: self.description,
            is_private: self.is_private,
            is_published: self.is_published,
            content: self.content,
            content_type: self.content_type,
            created_at: self.created_at,
            updated_at: self.updated_at,
            editor_key: self.editor_key,
            locale_code: self.locale_code,
            author_id: self.author_id,
            creator_id: self.creator_id,
        }
    }
}

} // verus!
