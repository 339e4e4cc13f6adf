//! From a stored post to what other servers read: the object of a live
//! post, the tombstone of a deleted one.
//!
//! The post's author and community are read from storage by the caller; the
//! translation is handed what storage returned, `None` for a record that is
//! gone.

use vstd::prelude::*;
use crate::error::{outcome_view, ApubError};
use crate::model::{
    clone_text, thumbnail_full_url, view_of, Community, CommunityView, Post, PostView, Settings,
    SettingsView, Timestamp, User_, UserView,
};
use crate::object::{
    Image, ImageView, Page, PageExt, PageExtView, PageExtension, PageView, Preview, PreviewView,
    Tombstone, TombstoneView,
};
use crate::uri::{is_valid_uri, uri_parses};

verus! {

/// The link of a post as other servers see it: an empty text is no link.
pub open spec fn effective_url(url: Option<Seq<char>>) -> Option<Seq<char>> {
    match url {
        Some(u) => if u.len() > 0 {
            Some(u)
        } else {
            None
        },
        None => None,
    }
}

/// The nested object that describes the link `url` of `post`.
pub open spec fn preview_of(post: PostView, url: Seq<char>) -> PreviewView {
    PreviewView {
        url: Some(url),
        name: post.embed_title,
        summary: post.embed_description,
        content: post.embed_html,
    }
}

/// The object that stands for `post`, written by `creator` in `community`,
/// on the server configured by `settings`.
///
/// The community is the audience and the author the attribution. The title
/// goes into the summary and the body, if any, into the content. A link
/// that is not empty is the object's URL and brings a preview with the
/// embed fields that are set. A thumbnail becomes an image at its full URL.
/// The block of flags is always there: comments are enabled unless the post
/// is locked, and the object is sensitive where the post is.
pub open spec fn page_of(
    post: PostView,
    creator: UserView,
    community: CommunityView,
    settings: SettingsView,
) -> PageExtView {
    PageExtView {
        inner: PageView {
            id: Some(post.ap_id),
            to: Some(community.actor_id),
            attributed_to: Some(creator.actor_id),
            published: Some(post.published),
            updated: post.updated,
            summary: Some(post.name),
            content: post.body,
            url: effective_url(post.url),
            image: match post.thumbnail_url {
                Some(thumbnail) => Some(ImageView { url: thumbnail_full_url(settings, thumbnail) }),
                None => None,
            },
            preview: match effective_url(post.url) {
                Some(url) => Some(preview_of(post, url)),
                None => None,
            },
        },
        ext_one: Some(PageExtension { comments_enabled: !post.locked, sensitive: post.nsfw }),
    }
}

/// Whether the three identities that the object of `post` carries are URIs.
pub open spec fn identities_are_uris(post: PostView, creator: UserView, community: CommunityView) -> bool {
    &&& is_valid_uri(post.ap_id)
    &&& is_valid_uri(community.actor_id)
    &&& is_valid_uri(creator.actor_id)
}

/// Whether storage returned the author and the community of `post`: a
/// record of each, under the id by which the post names it.
pub open spec fn records_found(
    post: PostView,
    creator: Option<UserView>,
    community: Option<CommunityView>,
) -> bool {
    &&& creator is Some && creator.unwrap().id == post.creator_id
    &&& community is Some && community.unwrap().id == post.community_id
}

/// The verdict of the URL parser on the identities that the object of
/// `post` carries, `false` where storage returned no author or no
/// community.
pub open spec fn identities_verdict(
    post: PostView,
    creator: Option<UserView>,
    community: Option<CommunityView>,
) -> bool {
    creator is Some && community is Some && identities_are_uris(
        post,
        creator.unwrap(),
        community.unwrap(),
    )
}

/// What translating `post` returns, given what storage returned and the
/// verdict on the identities: `NotFound` where storage did not return the
/// author and the community that the post names, else `InvalidUri` where an
/// identity is no URI, else the object.
pub open spec fn to_apub_outcome(
    post: PostView,
    creator: Option<UserView>,
    community: Option<CommunityView>,
    settings: SettingsView,
    identities_valid: bool,
) -> Result<PageExtView, ApubError> {
    if !records_found(post, creator, community) {
        Err(ApubError::NotFound)
    } else if !identities_valid {
        Err(ApubError::InvalidUri)
    } else {
        Ok(page_of(post, creator.unwrap(), community.unwrap(), settings))
    }
}

/// What translating `post` returns, given what storage returned.
pub open spec fn to_apub_result(
    post: PostView,
    creator: Option<UserView>,
    community: Option<CommunityView>,
    settings: SettingsView,
) -> Result<PageExtView, ApubError> {
    to_apub_outcome(post, creator, community, settings, identities_verdict(post, creator, community))
}

/// The tombstone of the object `object_id`: deleted when the object was
/// last updated, or at `now` where it never was.
pub open spec fn tombstone_of(
    object_id: Seq<char>,
    updated: Option<Timestamp>,
    former_type: Seq<char>,
    now: Timestamp,
) -> TombstoneView {
    TombstoneView {
        id: object_id,
        former_type,
        deleted: match updated {
            Some(at) => at,
            None => now,
        },
    }
}

/// What building a tombstone returns, given the verdict on the object's id:
/// `NotDeleted` for an object that is not deleted, else `InvalidUri` where
/// the id is no URI, else the tombstone.
pub open spec fn tombstone_outcome(
    deleted: bool,
    object_id: Seq<char>,
    updated: Option<Timestamp>,
    former_type: Seq<char>,
    now: Timestamp,
    id_valid: bool,
) -> Result<TombstoneView, ApubError> {
    if !deleted {
        Err(ApubError::NotDeleted)
    } else if !id_valid {
        Err(ApubError::InvalidUri)
    } else {
        Ok(tombstone_of(object_id, updated, former_type, now))
    }
}

/// The type tag of the object that stands for a post.
pub open spec fn page_type() -> Seq<char> {
    "Page"@
}

/// Calls `to_string` on `activitystreams::object::kind::PageType`, the unit
/// type whose `Display` writes the tag `Page`.
#[verifier::external_body]
pub(crate) fn page_type_name() -> (name: String)
    ensures
        name@ == page_type(),
{
    activitystreams::object::kind::PageType.to_string()
}

/// Builds a tombstone, the verdict on the object's id being known.
pub fn tombstone_checked(
    deleted: bool,
    object_id: &str,
    updated: Option<Timestamp>,
    former_type: String,
    now: Timestamp,
    id_valid: bool,
) -> (outcome: Result<Tombstone, ApubError>)
    ensures
        outcome_view(outcome) == tombstone_outcome(
            deleted,
            object_id@,
            updated,
            former_type@,
            now,
            id_valid,
        ),
{
    if !deleted {
        return Err(ApubError::NotDeleted);
    }
    if !id_valid {
        return Err(ApubError::InvalidUri);
    }
    let at = match updated {
        Some(at) => at,
        None => now,
    };
    Ok(Tombstone { id: object_id.to_owned(), former_type, deleted: at })
}

/// Builds the tombstone of a deleted object. `now` is the time of the call,
/// used where the object was never updated.
pub fn create_tombstone(
    deleted: bool,
    object_id: &str,
    updated: Option<Timestamp>,
    former_type: String,
    now: Timestamp,
) -> (outcome: Result<Tombstone, ApubError>)
    ensures
        outcome_view(outcome) == tombstone_outcome(
            deleted,
            object_id@,
            updated,
            former_type@,
            now,
            is_valid_uri(object_id@),
        ),
{
    let id_valid = deleted && uri_parses(object_id);
    tombstone_checked(deleted, object_id, updated, former_type, now, id_valid)
}

impl Post {
    /// The link of the post, unless it is empty.
    pub fn link(&self) -> (url: Option<String>)
        ensures
            url.deep_view() == effective_url(self@.url),
    {
        match &self.url {
            Some(u) => if u.as_str().is_empty() {
                None
            } else {
                Some(u.clone())
            },
            None => None,
        }
    }

    /// Assembles the object that stands for the post.
    pub fn to_page(&self, creator: &User_, community: &Community, settings: &Settings) -> (page: PageExt)
        ensures
            page@ == page_of(self@, creator@, community@, settings@),
    {
        let preview = match self.link() {
            Some(u) => Some(
                Preview {
                    url: Some(u),
                    name: clone_text(&self.embed_title),
                    summary: clone_text(&self.embed_description),
                    content: clone_text(&self.embed_html),
                },
            ),
            None => None,
        };
        let image = match &self.thumbnail_url {
            Some(thumbnail) => Some(Image { url: settings.thumbnail_url(thumbnail.as_str()) }),
            None => None,
        };
        PageExt {
            inner: Page {
                id: Some(self.ap_id.clone()),
                to: Some(community.actor_id.clone()),
                attributed_to: Some(creator.actor_id.clone()),
                published: Some(self.published),
                updated: self.updated,
                summary: Some(self.name.clone()),
                content: clone_text(&self.body),
                url: self.link(),
                image,
                preview,
            },
            ext_one: Some(PageExtension { comments_enabled: !self.locked, sensitive: self.nsfw }),
        }
    }

    /// Translates the post, the verdict on its identities being known.
    pub fn to_apub_checked(
        &self,
        creator: Option<&User_>,
        community: Option<&Community>,
        settings: &Settings,
        identities_valid: bool,
    ) -> (outcome: Result<PageExt, ApubError>)
        ensures
            outcome_view(outcome) == to_apub_outcome(
                self@,
                view_of(creator),
                view_of(community),
                settings@,
                identities_valid,
            ),
    {
        let creator = match creator {
            Some(creator) => creator,
            None => {
                return Err(ApubError::NotFound);
            },
        };
        let community = match community {
            Some(community) => community,
            None => {
                return Err(ApubError::NotFound);
            },
        };
        if creator.id != self.creator_id || community.id != self.community_id {
            return Err(ApubError::NotFound);
        }
        if !identities_valid {
            return Err(ApubError::InvalidUri);
        }
        Ok(self.to_page(creator, community, settings))
    }

    /// Asks the URL parser about the identities that the object of the post
    /// carries. With a record missing the answer is `false`.
    pub fn identities_valid(&self, creator: Option<&User_>, community: Option<&Community>) -> (valid: bool)
        ensures
            valid == identities_verdict(self@, view_of(creator), view_of(community)),
    {
        match (creator, community) {
            (Some(creator), Some(community)) => {
                uri_parses(self.ap_id.as_str()) && uri_parses(community.actor_id.as_str())
                    && uri_parses(creator.actor_id.as_str())
            },
            _ => false,
        }
    }

    /// Turns the post into the object that is sent to other servers.
    /// `creator` and `community` are what storage returned for the post's
    /// author and community.
    pub fn to_apub(&self, creator: Option<&User_>, community: Option<&Community>, settings: &Settings) -> (outcome:
        Result<PageExt, ApubError>)
        ensures
            outcome_view(outcome) == to_apub_result(
                self@,
                view_of(creator),
                view_of(community),
                settings@,
            ),
    {
        let valid = self.identities_valid(creator, community);
        self.to_apub_checked(creator, community, settings, valid)
    }

    /// The tombstone of the post, which must be deleted. `now` is the time
    /// of the call.
    pub fn to_tombstone(&self, now: Timestamp) -> (outcome: Result<Tombstone, ApubError>)
        ensures
            outcome_view(outcome) == tombstone_outcome(
                self.deleted,
                self@.ap_id,
                self.updated,
                page_type(),
                now,
                is_valid_uri(self@.ap_id),
            ),
    {
        create_tombstone(self.deleted, self.ap_id.as_str(), self.updated, page_type_name(), now)
    }
}

/// A post with an empty link is translated as a post without a link: the
/// object has no URL and no preview, and is the object of the same post
/// with the link taken out.
pub proof fn lemma_empty_url_is_no_url(
    post: PostView,
    creator: Option<UserView>,
    community: Option<CommunityView>,
    settings: SettingsView,
)
    requires
        post.url == Some(Seq::<char>::empty()),
    ensures
        to_apub_result(post, creator, community, settings) == to_apub_result(
            PostView { url: None, ..post },
            creator,
            community,
            settings,
        ),
        to_apub_result(post, creator, community, settings) matches Ok(page) ==> page.inner.url
            is None && page.inner.preview is None,
{
}

} // verus!
