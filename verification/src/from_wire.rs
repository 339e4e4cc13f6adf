//! From a received object to the draft of a post.
//!
//! The author and the community of the object are actors of another
//! server. Resolving them is the caller's work; the translation is handed
//! what resolution returned, `None` where it failed.

use vstd::prelude::*;
use crate::error::{outcome_view, ApubError};
use crate::model::{
    clone_text, view_of, Community, CommunityView, Lookup, LookupView, PostForm, PostFormView, User_,
    UserView,
};
use crate::model::{PostView, SettingsView};
use crate::object::{PageExt, PageExtView, PageView};
use crate::to_wire::{effective_url, to_apub_result};
use crate::uri::{is_valid_uri, uri_parses};

verus! {

/// The URL parser's verdicts on the identities that an object carries.
#[derive(Clone, Copy, Debug, PartialEq, Eq, Structural)]
pub struct UriVerdicts {
    pub attributed_to: bool,
    pub to: bool,
    pub id: bool,
}

/// The verdict on a field that may be absent: an absent one is no URI.
pub open spec fn field_is_uri(field: Option<Seq<char>>) -> bool {
    match field {
        Some(text) => is_valid_uri(text),
        None => false,
    }
}

/// The verdicts on the identities of `page`.
pub open spec fn wire_verdicts(page: PageView) -> UriVerdicts {
    UriVerdicts {
        attributed_to: field_is_uri(page.attributed_to),
        to: field_is_uri(page.to),
        id: field_is_uri(page.id),
    }
}

/// The draft that a complete object turns into: the texts as they are, the
/// flags from the block, the ids of the resolved author and community, the
/// object's id as federation identity, and never local.
pub open spec fn form_of(page: PageExtView, creator: UserView, community: CommunityView) -> PostFormView
    recommends
        page.ext_one is Some,
        page.inner.id is Some,
        page.inner.summary is Some,
{
    PostFormView {
        name: page.inner.summary.unwrap(),
        url: page.inner.url,
        body: page.inner.content,
        creator_id: creator.id,
        community_id: community.id,
        removed: None,
        locked: Some(!page.ext_one.unwrap().comments_enabled),
        published: page.inner.published,
        updated: page.inner.updated,
        deleted: None,
        nsfw: page.ext_one.unwrap().sensitive,
        stickied: None,
        embed_title: match page.inner.preview {
            Some(preview) => preview.name,
            None => None,
        },
        embed_description: match page.inner.preview {
            Some(preview) => preview.summary,
            None => None,
        },
        embed_html: match page.inner.preview {
            Some(preview) => preview.content,
            None => None,
        },
        thumbnail_url: match page.inner.image {
            Some(image) => Some(image.url),
            None => None,
        },
        ap_id: page.inner.id.unwrap(),
        local: false,
    }
}

/// What the translation of a received object returns, given the verdicts on
/// its identities and what resolution returned. The checks are made in this
/// order, and the first that fails decides:
/// the block of flags is there (`MissingExtension`);
/// the author is named (`MissingField`), by a URI (`InvalidUri`), and was
/// resolved (`RemoteFetchFailed`);
/// the community is named, by a URI, and was resolved, likewise;
/// the object has an id and a title (`MissingField`), the id a URI
/// (`InvalidUri`).
pub open spec fn from_apub_outcome(
    page: PageExtView,
    creator: Option<UserView>,
    community: Option<CommunityView>,
    valid: UriVerdicts,
) -> Result<PostFormView, ApubError> {
    if page.ext_one is None {
        Err(ApubError::MissingExtension)
    } else if page.inner.attributed_to is None {
        Err(ApubError::MissingField)
    } else if !valid.attributed_to {
        Err(ApubError::InvalidUri)
    } else if creator is None {
        Err(ApubError::RemoteFetchFailed)
    } else if page.inner.to is None {
        Err(ApubError::MissingField)
    } else if !valid.to {
        Err(ApubError::InvalidUri)
    } else if community is None {
        Err(ApubError::RemoteFetchFailed)
    } else if page.inner.id is None || page.inner.summary is None {
        Err(ApubError::MissingField)
    } else if !valid.id {
        Err(ApubError::InvalidUri)
    } else {
        Ok(form_of(page, creator.unwrap(), community.unwrap()))
    }
}

/// Asks the URL parser about a field that may be absent.
fn field_parses(field: &Option<String>) -> (ok: bool)
    ensures
        ok == field_is_uri(field.deep_view()),
{
    match field {
        Some(text) => uri_parses(text.as_str()),
        None => false,
    }
}

impl PostForm {
    /// Asks the URL parser about each identity of `page`.
    pub fn verdicts(page: &PageExt) -> (valid: UriVerdicts)
        ensures
            valid == wire_verdicts(page@.inner),
    {
        UriVerdicts {
            attributed_to: field_parses(&page.inner.attributed_to),
            to: field_parses(&page.inner.to),
            id: field_parses(&page.inner.id),
        }
    }

    /// Translates a received object, the verdicts on its identities being
    /// known.
    pub fn from_apub_checked(
        page: &PageExt,
        creator: Option<&User_>,
        community: Option<&Community>,
        valid: UriVerdicts,
    ) -> (outcome: Result<PostForm, ApubError>)
        ensures
            outcome_view(outcome) == from_apub_outcome(
                page@,
                view_of(creator),
                view_of(community),
                valid,
            ),
    {
        let ext = match &page.ext_one {
            Some(ext) => ext,
            None => {
                return Err(ApubError::MissingExtension);
            },
        };
        if page.inner.attributed_to.is_none() {
            return Err(ApubError::MissingField);
        }
        if !valid.attributed_to {
            return Err(ApubError::InvalidUri);
        }
        let creator = match creator {
            Some(creator) => creator,
            None => {
                return Err(ApubError::RemoteFetchFailed);
            },
        };
        if page.inner.to.is_none() {
            return Err(ApubError::MissingField);
        }
        if !valid.to {
            return Err(ApubError::InvalidUri);
        }
        let community = match community {
            Some(community) => community,
            None => {
                return Err(ApubError::RemoteFetchFailed);
            },
        };
        let ap_id = match &page.inner.id {
            Some(id) => id.clone(),
            None => {
                return Err(ApubError::MissingField);
            },
        };
        let name = match &page.inner.summary {
            Some(summary) => summary.clone(),
            None => {
                return Err(ApubError::MissingField);
            },
        };
        if !valid.id {
            return Err(ApubError::InvalidUri);
        }
        let thumbnail_url = match &page.inner.image {
            Some(image) => Some(image.url.clone()),
            None => None,
        };
        let (embed_title, embed_description, embed_html) = match &page.inner.preview {
            Some(preview) => (
                clone_text(&preview.name),
                clone_text(&preview.summary),
                clone_text(&preview.content),
            ),
            None => (None, None, None),
        };
        Ok(
            PostForm {
                name,
                url: clone_text(&page.inner.url),
                body: clone_text(&page.inner.content),
                creator_id: creator.id,
                community_id: community.id,
                removed: None,
                locked: Some(!ext.comments_enabled),
                published: page.inner.published,
                updated: page.inner.updated,
                deleted: None,
                nsfw: ext.sensitive,
                stickied: None,
                embed_title,
                embed_description,
                embed_html,
                thumbnail_url,
                ap_id,
                local: false,
            },
        )
    }

    /// Translates an object received from another server into the draft of
    /// a post. `creator` and `community` are what resolving the object's
    /// author and audience returned, `None` where resolution failed.
    pub fn from_apub(page: &PageExt, creator: Option<&User_>, community: Option<&Community>) -> (outcome:
        Result<PostForm, ApubError>)
        ensures
            outcome_view(outcome) == from_apub_outcome(
                page@,
                view_of(creator),
                view_of(community),
                wire_verdicts(page@.inner),
            ),
            page@.ext_one is None ==> outcome == Err::<PostForm, ApubError>(ApubError::MissingExtension),
            outcome matches Ok(form) ==> !form.local && Some(form.ap_id@) == page@.inner.id,
    {
        let valid = PostForm::verdicts(page);
        PostForm::from_apub_checked(page, creator, community, valid)
    }
}

/// What the object of a post gives back when it is translated again, with
/// resolution returning the post's own author and community: a draft with
/// the post's title, body, flags, times and federation identity, with the
/// link that other servers see, with the embed fields where there is such a
/// link and without them where there is none, and never local.
pub proof fn lemma_round_trip_normalizes(
    post: PostView,
    creator: UserView,
    community: CommunityView,
    settings: SettingsView,
)
    requires
        to_apub_result(post, Some(creator), Some(community), settings) is Ok,
    ensures
        ({
            let page = to_apub_result(post, Some(creator), Some(community), settings).unwrap();
            let linked = effective_url(post.url) is Some;
            &&& from_apub_outcome(page, Some(creator), Some(community), wire_verdicts(page.inner))
                matches Ok(form)
            &&& form.name == post.name
            &&& form.body == post.body
            &&& form.url == effective_url(post.url)
            &&& form.embed_title == if linked { post.embed_title } else { None }
            &&& form.embed_description == if linked { post.embed_description } else { None }
            &&& form.embed_html == if linked { post.embed_html } else { None }
            &&& form.locked == Some(post.locked)
            &&& form.nsfw == post.nsfw
            &&& form.published == Some(post.published)
            &&& form.updated == post.updated
            &&& form.ap_id == post.ap_id
            &&& form.creator_id == post.creator_id
            &&& form.community_id == post.community_id
            &&& !form.local
        }),
{
}

/// Translating a post to its object and back, with resolution returning
/// the post's own author and community, gives a draft with the post's
/// title, body, link, embed fields and flags, that is not local and has the
/// post's federation identity. This holds of every post whose link, if it
/// has one, is not empty, and which has no embed fields without a link.
pub proof fn lemma_round_trip(
    post: PostView,
    creator: UserView,
    community: CommunityView,
    settings: SettingsView,
)
    requires
        to_apub_result(post, Some(creator), Some(community), settings) is Ok,
        post.url matches Some(url) ==> url.len() > 0,
        post.url is None ==> post.embed_title is None && post.embed_description is None
            && post.embed_html is None,
    ensures
        ({
            let page = to_apub_result(post, Some(creator), Some(community), settings).unwrap();
            &&& from_apub_outcome(page, Some(creator), Some(community), wire_verdicts(page.inner))
                matches Ok(form)
            &&& form.name == post.name
            &&& form.body == post.body
            &&& form.url == post.url
            &&& form.embed_title == post.embed_title
            &&& form.embed_description == post.embed_description
            &&& form.embed_html == post.embed_html
            &&& form.locked == Some(post.locked)
            &&& form.nsfw == post.nsfw
            &&& form.ap_id == post.ap_id
            &&& !form.local
        }),
{
    lemma_round_trip_normalizes(post, creator, community, settings);
}

/// Which actor the caller is to resolve next before an object can be
/// translated.
#[derive(Clone, Debug, PartialEq, Eq)]
pub enum Resolve {
    /// The author of the object, named by this URI.
    Creator { uri: String },
    /// The community of the object, named by this URI.
    Community { uri: String },
    /// Nothing more: the object can be translated with what is known.
    Nothing,
}

/// What a `Resolve` holds.
pub ghost enum ResolveView {
    Creator { uri: Seq<char> },
    Community { uri: Seq<char> },
    Nothing,
}

impl View for Resolve {
    type V = ResolveView;

    open spec fn view(&self) -> ResolveView {
        match self {
            Resolve::Creator { uri } => ResolveView::Creator { uri: uri@ },
            Resolve::Community { uri } => ResolveView::Community { uri: uri@ },
            Resolve::Nothing => ResolveView::Nothing,
        }
    }
}

/// Which actor is resolved next, given the verdicts on the identities of
/// `page` and what is known of its author and community.
///
/// The author is resolved first, once the object is seen to have the block
/// of flags and to name its author by a URI. The community is resolved
/// once the author is found and the object is seen to name its community
/// by a URI. Nothing is resolved after a check has failed.
pub open spec fn next_resolution(
    page: PageExtView,
    creator: LookupView<UserView>,
    community: LookupView<CommunityView>,
    valid: UriVerdicts,
) -> ResolveView {
    if page.ext_one is None || page.inner.attributed_to is None || !valid.attributed_to {
        ResolveView::Nothing
    } else if creator is Pending {
        ResolveView::Creator { uri: page.inner.attributed_to.unwrap() }
    } else if creator is Missing || page.inner.to is None || !valid.to {
        ResolveView::Nothing
    } else if community is Pending {
        ResolveView::Community { uri: page.inner.to.unwrap() }
    } else {
        ResolveView::Nothing
    }
}

impl PostForm {
    /// Says which actor is to be resolved next, the verdicts on the
    /// identities of `page` being known.
    pub fn resolve_next_checked(
        page: &PageExt,
        creator: &Lookup<User_>,
        community: &Lookup<Community>,
        valid: UriVerdicts,
    ) -> (next: Resolve)
        ensures
            next@ == next_resolution(page@, creator@, community@, valid),
    {
        if page.ext_one.is_none() || !valid.attributed_to {
            return Resolve::Nothing;
        }
        let creator_uri = match &page.inner.attributed_to {
            Some(uri) => uri,
            None => {
                return Resolve::Nothing;
            },
        };
        match creator {
            Lookup::Pending => {
                return Resolve::Creator { uri: creator_uri.clone() };
            },
            Lookup::Missing => {
                return Resolve::Nothing;
            },
            Lookup::Found(_) => {},
        }
        if !valid.to {
            return Resolve::Nothing;
        }
        let community_uri = match &page.inner.to {
            Some(uri) => uri,
            None => {
                return Resolve::Nothing;
            },
        };
        match community {
            Lookup::Pending => Resolve::Community { uri: community_uri.clone() },
            _ => Resolve::Nothing,
        }
    }

    /// Says which actor of `page` the caller is to resolve next. The caller
    /// resolves it, notes the answer in `creator` or `community`, and asks
    /// again, until nothing is left; then `from_apub` translates the object
    /// with what was found.
    pub fn resolve_next(page: &PageExt, creator: &Lookup<User_>, community: &Lookup<Community>) -> (next:
        Resolve)
        ensures
            next@ == next_resolution(page@, creator@, community@, wire_verdicts(page@.inner)),
    {
        let valid = PostForm::verdicts(page);
        PostForm::resolve_next_checked(page, creator, community, valid)
    }
}

/// Resolution ends after two answers at most, and what was not resolved
/// does not matter: once nothing is left to resolve, the translation with
/// what was found returns what it would return with any answer in place
/// of one that was never asked for.
pub proof fn lemma_unresolved_does_not_matter(
    page: PageExtView,
    creator: LookupView<UserView>,
    community: LookupView<CommunityView>,
    valid: UriVerdicts,
    late_creator: Option<UserView>,
    late_community: Option<CommunityView>,
)
    requires
        next_resolution(page, creator, community, valid) is Nothing,
    ensures
        from_apub_outcome(page, creator.found(), community.found(), valid) == from_apub_outcome(
            page,
            if creator is Pending {
                late_creator
            } else {
                creator.found()
            },
            if community is Pending {
                late_community
            } else {
                community.found()
            },
            valid,
        ),
{
}

/// Each answer brings resolution forward: the author is asked for only
/// while pending, the community only while pending and with the author
/// found, so that after the answer the same actor is not asked for again.
pub proof fn lemma_resolution_advances(
    page: PageExtView,
    creator: LookupView<UserView>,
    community: LookupView<CommunityView>,
    valid: UriVerdicts,
    answer_creator: Option<UserView>,
    answer_community: Option<CommunityView>,
)
    ensures
        next_resolution(page, creator, community, valid) is Creator ==> creator is Pending
            && !(next_resolution(page, LookupView::answered(answer_creator), community, valid)
            is Creator),
        next_resolution(page, creator, community, valid) is Community ==> creator is Found
            && community is Pending && next_resolution(
            page,
            creator,
            LookupView::answered(answer_community),
            valid,
        ) is Nothing,
{
}

} // verus!
