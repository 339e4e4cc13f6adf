//! Announcing what happened to a post.
//!
//! Each operation translates the post as it now is, wraps the object in the
//! activity that names the change, and prepares its delivery to the shared
//! inbox of the post's community. The change itself has been made before:
//! nothing here undoes it, whatever becomes of the delivery.

use vstd::prelude::*;
use crate::activity::{
    activity_id, activity_of, fresh_suffix, is_uuid_text, lemma_suffix_decides_id,
    skeleton_is_valid, skeleton_of, undo_of, Activity, ActivityKind, Envelope, EnvelopeView,
    Skeleton, Undo,
};
use crate::dispatch::{Dispatcher, DispatcherView};
use crate::error::{outcome_view, ApubError};
use crate::model::{view_of, Community, CommunityView, Post, PostView, Settings, SettingsView, User_, UserView};
use crate::object::{PageExt, PageExtView};
use crate::to_wire::{identities_verdict, to_apub_outcome};
use crate::uri::{is_valid_uri, uri_parses};

verus! {

/// What happened to a post.
#[derive(Clone, Copy, Debug, PartialEq, Eq, Structural)]
pub enum Mutation {
    Create,
    Update,
    Delete,
    UndoDelete,
    Remove,
    UndoRemove,
    Like,
    Dislike,
    UndoLike,
}

impl Mutation {
    /// The kind of the activity that names the change, or, for a change
    /// that takes another back, of the activity taken back.
    pub open spec fn spec_kind(self) -> ActivityKind {
        match self {
            Mutation::Create => ActivityKind::Create,
            Mutation::Update => ActivityKind::Update,
            Mutation::Delete | Mutation::UndoDelete => ActivityKind::Delete,
            Mutation::Remove | Mutation::UndoRemove => ActivityKind::Remove,
            Mutation::Like | Mutation::UndoLike => ActivityKind::Like,
            Mutation::Dislike => ActivityKind::Dislike,
        }
    }

    /// Whether the change takes another back.
    pub open spec fn spec_is_undo(self) -> bool {
        self == Mutation::UndoDelete || self == Mutation::UndoRemove || self == Mutation::UndoLike
    }

    /// The kind of the activity that names the change, or of the activity
    /// taken back.
    pub fn kind(&self) -> (kind: ActivityKind)
        ensures
            kind == self.spec_kind(),
    {
        match self {
            Mutation::Create => ActivityKind::Create,
            Mutation::Update => ActivityKind::Update,
            Mutation::Delete | Mutation::UndoDelete => ActivityKind::Delete,
            Mutation::Remove | Mutation::UndoRemove => ActivityKind::Remove,
            Mutation::Like | Mutation::UndoLike => ActivityKind::Like,
            Mutation::Dislike => ActivityKind::Dislike,
        }
    }

    /// Whether the change takes another back.
    pub fn is_undo(&self) -> (undo: bool)
        ensures
            undo == self.spec_is_undo(),
    {
        match self {
            Mutation::UndoDelete | Mutation::UndoRemove | Mutation::UndoLike => true,
            _ => false,
        }
    }
}

/// The envelope that announces `mutation` of the object `page`, whose
/// federation identity is `base`, done by `actor` and addressed to
/// `audience`.
///
/// The activity that names the change carries the object and an id minted
/// from `suffix`. A change that takes another back is announced by an undo
/// that carries that activity, with the same actor and audience and an id
/// of its own, minted from `undo_suffix` in the undo namespace.
pub open spec fn envelope_of(
    page: PageExtView,
    base: Seq<char>,
    actor: Seq<char>,
    audience: Seq<Seq<char>>,
    mutation: Mutation,
    suffix: Seq<char>,
    undo_suffix: Seq<char>,
) -> EnvelopeView {
    let kind = mutation.spec_kind();
    let activity = activity_of(skeleton_of(base, kind, false, audience, suffix), kind, actor, page);
    if mutation.spec_is_undo() {
        EnvelopeView::Undo(
            undo_of(skeleton_of(base, kind, true, audience, undo_suffix), actor, activity),
        )
    } else {
        EnvelopeView::Direct(activity)
    }
}

/// Whether the actor, the audience and the minted ids of the envelope are
/// URIs.
pub open spec fn envelope_is_valid(
    base: Seq<char>,
    actor: Seq<char>,
    audience: Seq<Seq<char>>,
    mutation: Mutation,
    suffix: Seq<char>,
    undo_suffix: Seq<char>,
) -> bool {
    let kind = mutation.spec_kind();
    &&& skeleton_is_valid(skeleton_of(base, kind, false, audience, suffix))
    &&& is_valid_uri(actor)
    &&& mutation.spec_is_undo() ==> skeleton_is_valid(
        skeleton_of(base, kind, true, audience, undo_suffix),
    )
}

/// The collection that activities about the posts of `community` address.
pub open spec fn audience_of(community: CommunityView) -> Seq<Seq<char>> {
    seq![community.followers_url]
}

/// The inboxes to which activities about the posts of `community` are
/// delivered.
pub open spec fn inboxes_of(community: CommunityView) -> Seq<Seq<char>> {
    seq![community.shared_inbox_url]
}

/// What announcing `mutation` of `post` returns, given the verdicts of the
/// URL parser: the error of the translation where it fails, else
/// `InvalidUri` where the envelope holds what is no URI, else the delivery
/// of the envelope to the shared inbox of the community, not yet begun.
pub open spec fn announcement(
    post: PostView,
    mutation: Mutation,
    actor: UserView,
    creator: Option<UserView>,
    community: Option<CommunityView>,
    settings: SettingsView,
    suffix: Seq<char>,
    undo_suffix: Seq<char>,
    identities_valid: bool,
    envelope_valid: bool,
) -> Result<DispatcherView, ApubError> {
    match to_apub_outcome(post, creator, community, settings, identities_valid) {
        Err(e) => Err(e),
        Ok(page) => if !envelope_valid {
            Err(ApubError::InvalidUri)
        } else {
            Ok(
                DispatcherView::start(
                    envelope_of(
                        page,
                        post.ap_id,
                        actor.actor_id,
                        audience_of(community.unwrap()),
                        mutation,
                        suffix,
                        undo_suffix,
                    ),
                    inboxes_of(community.unwrap()),
                ),
            )
        },
    }
}

/// What announcing `mutation` of `post` returns, the suffixes being drawn.
pub open spec fn announcement_result(
    post: PostView,
    mutation: Mutation,
    actor: UserView,
    creator: Option<UserView>,
    community: Option<CommunityView>,
    settings: SettingsView,
    suffix: Seq<char>,
    undo_suffix: Seq<char>,
) -> Result<DispatcherView, ApubError> {
    announcement(
        post,
        mutation,
        actor,
        creator,
        community,
        settings,
        suffix,
        undo_suffix,
        identities_verdict(post, creator, community),
        community is Some && envelope_is_valid(
            post.ap_id,
            actor.actor_id,
            audience_of(community.unwrap()),
            mutation,
            suffix,
            undo_suffix,
        ),
    )
}

/// What an announcement with freshly drawn suffixes returns: for some two
/// texts of the shape of a UUID, what `announcement_result` says of them.
pub open spec fn announced(
    outcome: Result<DispatcherView, ApubError>,
    post: PostView,
    mutation: Mutation,
    actor: UserView,
    creator: Option<UserView>,
    community: Option<CommunityView>,
    settings: SettingsView,
) -> bool {
    exists|suffix: Seq<char>, undo_suffix: Seq<char>|
        is_uuid_text(suffix) && is_uuid_text(undo_suffix) && outcome == #[trigger] announcement_result(
            post,
            mutation,
            actor,
            creator,
            community,
            settings,
            suffix,
            undo_suffix,
        )
}

impl Post {
    /// Wraps the object of the post in the envelope that announces
    /// `mutation`.
    pub fn envelope(
        &self,
        page: PageExt,
        mutation: Mutation,
        actor: &User_,
        audience: &Vec<String>,
        suffix: &str,
        undo_suffix: &str,
    ) -> (envelope: Envelope)
        ensures
            envelope@ == envelope_of(
                page@,
                self@.ap_id,
                actor@.actor_id,
                audience.deep_view(),
                mutation,
                suffix@,
                undo_suffix@,
            ),
    {
        let kind = mutation.kind();
        let base = self.ap_id.as_str();
        let activity = Activity::fill(
            Skeleton::build(base, kind, false, audience, suffix),
            kind,
            actor.actor_id.as_str(),
            page,
        );
        if mutation.is_undo() {
            Envelope::Undo(
                Undo::fill(
                    Skeleton::build(base, kind, true, audience, undo_suffix),
                    actor.actor_id.as_str(),
                    activity,
                ),
            )
        } else {
            Envelope::Direct(activity)
        }
    }

    /// Asks the URL parser about the actor, the audience and the ids of
    /// the envelope that announces `mutation`.
    pub fn envelope_valid(
        &self,
        mutation: Mutation,
        actor: &User_,
        audience: &Vec<String>,
        suffix: &str,
        undo_suffix: &str,
    ) -> (valid: bool)
        ensures
            valid == envelope_is_valid(
                self@.ap_id,
                actor@.actor_id,
                audience.deep_view(),
                mutation,
                suffix@,
                undo_suffix@,
            ),
    {
        let kind = mutation.kind();
        let base = self.ap_id.as_str();
        if !Skeleton::build(base, kind, false, audience, suffix).is_valid() {
            return false;
        }
        if !uri_parses(actor.actor_id.as_str()) {
            return false;
        }
        if mutation.is_undo() {
            Skeleton::build(base, kind, true, audience, undo_suffix).is_valid()
        } else {
            true
        }
    }

    /// Announces `mutation`, the suffixes and the verdicts of the URL
    /// parser being known.
    pub fn announce_checked(
        &self,
        mutation: Mutation,
        actor: &User_,
        creator: Option<&User_>,
        community: Option<&Community>,
        settings: &Settings,
        suffix: &str,
        undo_suffix: &str,
        identities_valid: bool,
        envelope_valid: bool,
    ) -> (outcome: Result<Dispatcher, ApubError>)
        ensures
            outcome_view(outcome) == announcement(
                self@,
                mutation,
                actor@,
                view_of(creator),
                view_of(community),
                settings@,
                suffix@,
                undo_suffix@,
                identities_valid,
                envelope_valid,
            ),
    {
        let page = match self.to_apub_checked(creator, community, settings, identities_valid) {
            Ok(page) => page,
            Err(e) => {
                return Err(e);
            },
        };
        let community = match community {
            Some(community) => community,
            None => {
                return Err(ApubError::NotFound);
            },
        };
        if !envelope_valid {
            return Err(ApubError::InvalidUri);
        }
        let mut audience: Vec<String> = Vec::new();
        audience.push(community.get_followers_url());
        let mut inboxes: Vec<String> = Vec::new();
        inboxes.push(community.get_shared_inbox_url());
        assert(audience.deep_view() =~= audience_of(community@));
        assert(inboxes.deep_view() =~= inboxes_of(community@));
        let envelope = self.envelope(page, mutation, actor, &audience, suffix, undo_suffix);
        Ok(Dispatcher::new(envelope, inboxes))
    }

    /// Announces `mutation`, the suffixes being known.
    pub fn announce_with(
        &self,
        mutation: Mutation,
        actor: &User_,
        creator: Option<&User_>,
        community: Option<&Community>,
        settings: &Settings,
        suffix: &str,
        undo_suffix: &str,
    ) -> (outcome: Result<Dispatcher, ApubError>)
        ensures
            outcome_view(outcome) == announcement_result(
                self@,
                mutation,
                actor@,
                view_of(creator),
                view_of(community),
                settings@,
                suffix@,
                undo_suffix@,
            ),
    {
        let identities_valid = self.identities_valid(creator, community);
        let envelope_valid = match community {
            Some(community) => {
                let mut audience: Vec<String> = Vec::new();
                audience.push(community.get_followers_url());
                assert(audience.deep_view() =~= audience_of(community@));
                self.envelope_valid(mutation, actor, &audience, suffix, undo_suffix)
            },
            None => false,
        };
        self.announce_checked(
            mutation,
            actor,
            creator,
            community,
            settings,
            suffix,
            undo_suffix,
            identities_valid,
            envelope_valid,
        )
    }

    /// Announces `mutation` of the post, done by `actor`. `creator` and
    /// `community` are what storage returned for the post's author and
    /// community. The ids of the envelope are minted from suffixes drawn
    /// for this call.
    pub fn announce(
        &self,
        mutation: Mutation,
        actor: &User_,
        creator: Option<&User_>,
        community: Option<&Community>,
        settings: &Settings,
    ) -> (outcome: Result<Dispatcher, ApubError>)
        ensures
            announced(
                outcome_view(outcome),
                self@,
                mutation,
                actor@,
                view_of(creator),
                view_of(community),
                settings@,
            ),
    {
        let suffix = fresh_suffix();
        let undo_suffix = if mutation.is_undo() {
            fresh_suffix()
        } else {
            suffix.clone()
        };
        self.announce_with(
            mutation,
            actor,
            creator,
            community,
            settings,
            suffix.as_str(),
            undo_suffix.as_str(),
        )
    }

    /// Tells the followers of the post's community that `creator` created the
    /// post. `author` and `community` are what storage returned for the post's
    /// author and community.
    pub fn send_create(
        &self,
        creator: &User_,
        author: Option<&User_>,
        community: Option<&Community>,
        settings: &Settings,
    ) -> (outcome: Result<Dispatcher, ApubError>)
        ensures
            announced(
                outcome_view(outcome),
                self@,
                Mutation::Create,
                creator@,
                view_of(author),
                view_of(community),
                settings@,
            ),
    {
        self.announce(Mutation::Create, creator, author, community, settings)
    }

    /// Tells the followers of the post's community that `creator` edited the
    /// post. `author` and `community` are what storage returned for the post's
    /// author and community.
    pub fn send_update(
        &self,
        creator: &User_,
        author: Option<&User_>,
        community: Option<&Community>,
        settings: &Settings,
    ) -> (outcome: Result<Dispatcher, ApubError>)
        ensures
            announced(
                outcome_view(outcome),
                self@,
                Mutation::Update,
                creator@,
                view_of(author),
                view_of(community),
                settings@,
            ),
    {
        self.announce(Mutation::Update, creator, author, community, settings)
    }

    /// Tells the followers of the post's community that `creator` deleted the
    /// post. `author` and `community` are what storage returned for the post's
    /// author and community.
    pub fn send_delete(
        &self,
        creator: &User_,
        author: Option<&User_>,
        community: Option<&Community>,
        settings: &Settings,
    ) -> (outcome: Result<Dispatcher, ApubError>)
        ensures
            announced(
                outcome_view(outcome),
                self@,
                Mutation::Delete,
                creator@,
                view_of(author),
                view_of(community),
                settings@,
            ),
    {
        self.announce(Mutation::Delete, creator, author, community, settings)
    }

    /// Tells the followers of the post's community that `creator` restored the
    /// post: the deletion is built as it would have been sent, and sent inside
    /// the undo. `author` and `community` are what storage returned for the
    /// post's author and community.
    pub fn send_undo_delete(
        &self,
        creator: &User_,
        author: Option<&User_>,
        community: Option<&Community>,
        settings: &Settings,
    ) -> (outcome: Result<Dispatcher, ApubError>)
        ensures
            announced(
                outcome_view(outcome),
                self@,
                Mutation::UndoDelete,
                creator@,
                view_of(author),
                view_of(community),
                settings@,
            ),
    {
        self.announce(Mutation::UndoDelete, creator, author, community, settings)
    }

    /// Tells the followers of the post's community that the moderator `mod_`
    /// removed the post. `author` and `community` are what storage returned for
    /// the post's author and community.
    pub fn send_remove(
        &self,
        mod_: &User_,
        author: Option<&User_>,
        community: Option<&Community>,
        settings: &Settings,
    ) -> (outcome: Result<Dispatcher, ApubError>)
        ensures
            announced(
                outcome_view(outcome),
                self@,
                Mutation::Remove,
                mod_@,
                view_of(author),
                view_of(community),
                settings@,
            ),
    {
        self.announce(Mutation::Remove, mod_, author, community, settings)
    }

    /// Tells the followers of the post's community that the moderator `mod_`
    /// took the removal of the post back: the removal is built as it would have
    /// been sent, and sent inside the undo. `author` and `community` are what
    /// storage returned for the post's author and community.
    pub fn send_undo_remove(
        &self,
        mod_: &User_,
        author: Option<&User_>,
        community: Option<&Community>,
        settings: &Settings,
    ) -> (outcome: Result<Dispatcher, ApubError>)
        ensures
            announced(
                outcome_view(outcome),
                self@,
                Mutation::UndoRemove,
                mod_@,
                view_of(author),
                view_of(community),
                settings@,
            ),
    {
        self.announce(Mutation::UndoRemove, mod_, author, community, settings)
    }

    /// Tells the followers of the post's community that `creator` voted the
    /// post up. `author` and `community` are what storage returned for the
    /// post's author and community.
    pub fn send_like(
        &self,
        creator: &User_,
        author: Option<&User_>,
        community: Option<&Community>,
        settings: &Settings,
    ) -> (outcome: Result<Dispatcher, ApubError>)
        ensures
            announced(
                outcome_view(outcome),
                self@,
                Mutation::Like,
                creator@,
                view_of(author),
                view_of(community),
                settings@,
            ),
    {
        self.announce(Mutation::Like, creator, author, community, settings)
    }

    /// Tells the followers of the post's community that `creator` voted the
    /// post down. `author` and `community` are what storage returned for the
    /// post's author and community.
    pub fn send_dislike(
        &self,
        creator: &User_,
        author: Option<&User_>,
        community: Option<&Community>,
        settings: &Settings,
    ) -> (outcome: Result<Dispatcher, ApubError>)
        ensures
            announced(
                outcome_view(outcome),
                self@,
                Mutation::Dislike,
                creator@,
                view_of(author),
                view_of(community),
                settings@,
            ),
    {
        self.announce(Mutation::Dislike, creator, author, community, settings)
    }

    /// Tells the followers of the post's community that `creator` withdrew a
    /// vote for the post: the vote is built as it would have been sent, and
    /// sent inside the undo. `author` and `community` are what storage returned
    /// for the post's author and community.
    pub fn send_undo_like(
        &self,
        creator: &User_,
        author: Option<&User_>,
        community: Option<&Community>,
        settings: &Settings,
    ) -> (outcome: Result<Dispatcher, ApubError>)
        ensures
            announced(
                outcome_view(outcome),
                self@,
                Mutation::UndoLike,
                creator@,
                view_of(author),
                view_of(community),
                settings@,
            ),
    {
        self.announce(Mutation::UndoLike, creator, author, community, settings)
    }
}

impl Mutation {
    /// The change that this one takes back, if it takes one back.
    pub open spec fn undone(self) -> Option<Mutation> {
        match self {
            Mutation::UndoDelete => Some(Mutation::Delete),
            Mutation::UndoRemove => Some(Mutation::Remove),
            Mutation::UndoLike => Some(Mutation::Like),
            _ => None,
        }
    }
}

/// The announcement of a change that takes another back is an undo, and
/// what the undo carries is the announcement of the change taken back, as
/// it would have been sent with the same suffix: of that kind, by the same
/// actor, about the same object, to the same audience. The undo itself has
/// that actor and audience too, and an id in the undo namespace.
pub proof fn lemma_undo_carries_the_undone(
    page: PageExtView,
    base: Seq<char>,
    actor: Seq<char>,
    audience: Seq<Seq<char>>,
    mutation: Mutation,
    suffix: Seq<char>,
    undo_suffix: Seq<char>,
)
    requires
        mutation.spec_is_undo(),
    ensures
        mutation.undone() matches Some(undone) && envelope_of(
            page,
            base,
            actor,
            audience,
            mutation,
            suffix,
            undo_suffix,
        ) matches EnvelopeView::Undo(undo) && {
            &&& EnvelopeView::Direct(undo.object) == envelope_of(
                page,
                base,
                actor,
                audience,
                undone,
                suffix,
                undo_suffix,
            )
            &&& undo.object.kind == undone.spec_kind()
            &&& undo.object.to == audience
            &&& undo.to == audience
            &&& undo.actor == actor
            &&& undo.id == activity_id(base, undone.spec_kind(), true, undo_suffix)
        },
{
}

/// Two announcements of one change to one post, made with suffixes that
/// differ, travel under ids that differ; and where they are undos, so do the
/// activities that they carry.
pub proof fn lemma_announcements_have_own_ids(
    page: PageExtView,
    base: Seq<char>,
    actor: Seq<char>,
    audience: Seq<Seq<char>>,
    mutation: Mutation,
    suffix: Seq<char>,
    undo_suffix: Seq<char>,
    other_suffix: Seq<char>,
    other_undo_suffix: Seq<char>,
)
    requires
        suffix != other_suffix,
        undo_suffix != other_undo_suffix,
    ensures
        envelope_of(page, base, actor, audience, mutation, suffix, undo_suffix).id() != envelope_of(
            page,
            base,
            actor,
            audience,
            mutation,
            other_suffix,
            other_undo_suffix,
        ).id(),
        envelope_of(page, base, actor, audience, mutation, suffix, undo_suffix) matches EnvelopeView::Undo(
            undo,
        ) ==> envelope_of(
            page,
            base,
            actor,
            audience,
            mutation,
            other_suffix,
            other_undo_suffix,
        ) matches EnvelopeView::Undo(other) && undo.object.id != other.object.id,
{
    let kind = mutation.spec_kind();
    lemma_suffix_decides_id(base, kind, false, suffix, other_suffix);
    lemma_suffix_decides_id(base, kind, true, undo_suffix, other_undo_suffix);
}

} // verus!
