//! The records that the surrounding application keeps: posts, the users who
//! write them, the communities that hold them, and this server's settings.
//! Each has a view in which texts are sequences of characters.

use vstd::prelude::*;
use vstd::string::StringExecFns;

verus! {

/// A moment, in microseconds since the Unix epoch.
#[derive(Clone, Copy, Debug, PartialEq, Eq, Structural)]
pub struct Timestamp {
    pub micros: i64,
}

/// A post as storage holds it.
#[derive(Clone, Debug, PartialEq, Eq)]
pub struct Post {
    pub id: i32,
    pub name: String,
    pub url: Option<String>,
    pub body: Option<String>,
    pub creator_id: i32,
    pub community_id: i32,
    pub removed: bool,
    pub locked: bool,
    pub published: Timestamp,
    pub updated: Option<Timestamp>,
    pub deleted: bool,
    pub nsfw: bool,
    pub stickied: bool,
    pub embed_title: Option<String>,
    pub embed_description: Option<String>,
    pub embed_html: Option<String>,
    pub thumbnail_url: Option<String>,
    pub ap_id: String,
    pub local: bool,
}

/// What a `Post` holds.
pub ghost struct PostView {
    pub id: i32,
    pub name: Seq<char>,
    pub url: Option<Seq<char>>,
    pub body: Option<Seq<char>>,
    pub creator_id: i32,
    pub community_id: i32,
    pub removed: bool,
    pub locked: bool,
    pub published: Timestamp,
    pub updated: Option<Timestamp>,
    pub deleted: bool,
    pub nsfw: bool,
    pub stickied: bool,
    pub embed_title: Option<Seq<char>>,
    pub embed_description: Option<Seq<char>>,
    pub embed_html: Option<Seq<char>>,
    pub thumbnail_url: Option<Seq<char>>,
    pub ap_id: Seq<char>,
    pub local: bool,
}

impl View for Post {
    type V = PostView;

    open spec fn view(&self) -> PostView {
        PostView {
            id: self.id,
            name: self.name@,
            url: self.url.deep_view(),
            body: self.body.deep_view(),
            creator_id: self.creator_id,
            community_id: self.community_id,
            removed: self.removed,
            locked: self.locked,
            published: self.published,
            updated: self.updated,
            deleted: self.deleted,
            nsfw: self.nsfw,
            stickied: self.stickied,
            embed_title: self.embed_title.deep_view(),
            embed_description: self.embed_description.deep_view(),
            embed_html: self.embed_html.deep_view(),
            thumbnail_url: self.thumbnail_url.deep_view(),
            ap_id: self.ap_id@,
            local: self.local,
        }
    }
}

/// A post that is about to be stored: what a received object turns into.
/// A flag that the object says nothing of is `None`.
#[derive(Clone, Debug, PartialEq, Eq)]
pub struct PostForm {
    pub name: String,
    pub url: Option<String>,
    pub body: Option<String>,
    pub creator_id: i32,
    pub community_id: i32,
    pub removed: Option<bool>,
    pub locked: Option<bool>,
    pub published: Option<Timestamp>,
    pub updated: Option<Timestamp>,
    pub deleted: Option<bool>,
    pub nsfw: bool,
    pub stickied: Option<bool>,
    pub embed_title: Option<String>,
    pub embed_description: Option<String>,
    pub embed_html: Option<String>,
    pub thumbnail_url: Option<String>,
    pub ap_id: String,
    pub local: bool,
}

/// What a `PostForm` holds.
pub ghost struct PostFormView {
    pub name: Seq<char>,
    pub url: Option<Seq<char>>,
    pub body: Option<Seq<char>>,
    pub creator_id: i32,
    pub community_id: i32,
    pub removed: Option<bool>,
    pub locked: Option<bool>,
    pub published: Option<Timestamp>,
    pub updated: Option<Timestamp>,
    pub deleted: Option<bool>,
    pub nsfw: bool,
    pub stickied: Option<bool>,
    pub embed_title: Option<Seq<char>>,
    pub embed_description: Option<Seq<char>>,
    pub embed_html: Option<Seq<char>>,
    pub thumbnail_url: Option<Seq<char>>,
    pub ap_id: Seq<char>,
    pub local: bool,
}

impl View for PostForm {
    type V = PostFormView;

    open spec fn view(&self) -> PostFormView {
        PostFormView {
            name: self.name@,
            url: self.url.deep_view(),
            body: self.body.deep_view(),
            creator_id: self.creator_id,
            community_id: self.community_id,
            removed: self.removed,
            locked: self.locked,
            published: self.published,
            updated: self.updated,
            deleted: self.deleted,
            nsfw: self.nsfw,
            stickied: self.stickied,
            embed_title: self.embed_title.deep_view(),
            embed_description: self.embed_description.deep_view(),
            embed_html: self.embed_html.deep_view(),
            thumbnail_url: self.thumbnail_url.deep_view(),
            ap_id: self.ap_id@,
            local: self.local,
        }
    }
}

/// A user, local or resolved from another server.
#[derive(Clone, Debug, PartialEq, Eq)]
pub struct User_ {
    pub id: i32,
    pub name: String,
    /// The user's federation identity.
    pub actor_id: String,
    pub local: bool,
}

/// What a `User_` holds.
pub ghost struct UserView {
    pub id: i32,
    pub name: Seq<char>,
    pub actor_id: Seq<char>,
    pub local: bool,
}

impl View for User_ {
    type V = UserView;

    open spec fn view(&self) -> UserView {
        UserView { id: self.id, name: self.name@, actor_id: self.actor_id@, local: self.local }
    }
}

/// A community, local or resolved from another server.
#[derive(Clone, Debug, PartialEq, Eq)]
pub struct Community {
    pub id: i32,
    pub name: String,
    /// The community's federation identity.
    pub actor_id: String,
    /// The collection of the community's followers.
    pub followers_url: String,
    /// The inbox that takes activities for the whole of the community's server.
    pub shared_inbox_url: String,
    pub local: bool,
}

/// What a `Community` holds.
pub ghost struct CommunityView {
    pub id: i32,
    pub name: Seq<char>,
    pub actor_id: Seq<char>,
    pub followers_url: Seq<char>,
    pub shared_inbox_url: Seq<char>,
    pub local: bool,
}

impl View for Community {
    type V = CommunityView;

    open spec fn view(&self) -> CommunityView {
        CommunityView {
            id: self.id,
            name: self.name@,
            actor_id: self.actor_id@,
            followers_url: self.followers_url@,
            shared_inbox_url: self.shared_inbox_url@,
            local: self.local,
        }
    }
}

impl Community {
    /// The collection that activities about the community's posts address.
    pub fn get_followers_url(&self) -> (url: String)
        ensures
            url@ == self@.followers_url,
    {
        self.followers_url.clone()
    }

    /// The inbox to which activities about the community's posts are
    /// delivered.
    pub fn get_shared_inbox_url(&self) -> (url: String)
        ensures
            url@ == self@.shared_inbox_url,
    {
        self.shared_inbox_url.clone()
    }
}

/// What this server is configured with, as far as federation reads it.
#[derive(Clone, Debug, PartialEq, Eq)]
pub struct Settings {
    pub hostname: String,
    pub tls_enabled: bool,
}

/// What a `Settings` holds.
pub ghost struct SettingsView {
    pub hostname: Seq<char>,
    pub tls_enabled: bool,
}

impl View for Settings {
    type V = SettingsView;

    open spec fn view(&self) -> SettingsView {
        SettingsView { hostname: self.hostname@, tls_enabled: self.tls_enabled }
    }
}

/// The scheme of this server's own URLs.
pub open spec fn protocol_string(tls_enabled: bool) -> Seq<char> {
    if tls_enabled {
        "https"@
    } else {
        "http"@
    }
}

/// Where this server serves the picture stored under `thumbnail`:
/// scheme, `://`, host, `/pictshare/` and the picture's name.
pub open spec fn thumbnail_full_url(settings: SettingsView, thumbnail: Seq<char>) -> Seq<char> {
    protocol_string(settings.tls_enabled) + "://"@ + settings.hostname + "/pictshare/"@ + thumbnail
}

impl Settings {
    /// `https` with TLS, `http` without.
    pub fn get_apub_protocol_string(&self) -> (scheme: &'static str)
        ensures
            scheme@ == protocol_string(self.tls_enabled),
    {
        if self.tls_enabled {
            "https"
        } else {
            "http"
        }
    }

    /// The full URL of a stored picture.
    pub fn thumbnail_url(&self, thumbnail: &str) -> (url: String)
        ensures
            url@ == thumbnail_full_url(self@, thumbnail@),
    {
        let mut url = String::from_str(self.get_apub_protocol_string());
        url.append("://");
        url.append(self.hostname.as_str());
        url.append("/pictshare/");
        url.append(thumbnail);
        url
    }
}

/// The view of a record that may be absent.
pub open spec fn view_of<T: View>(record: Option<&T>) -> Option<T::V> {
    match record {
        Some(r) => Some(r@),
        None => None,
    }
}

/// A copy of an optional text.
pub(crate) fn clone_text(text: &Option<String>) -> (copy: Option<String>)
    ensures
        copy.deep_view() == text.deep_view(),
{
    match text {
        Some(t) => Some(t.clone()),
        None => None,
    }
}

/// What is known of a record that the caller reads from storage or
/// resolves from another server.
#[derive(Clone, Debug, PartialEq, Eq)]
pub enum Lookup<T> {
    /// The caller has not asked yet.
    Pending,
    /// The caller asked, and there is no such record.
    Missing,
    /// The caller asked, and this is the record.
    Found(T),
}

/// What a `Lookup` holds.
pub ghost enum LookupView<V> {
    Pending,
    Missing,
    Found(V),
}

impl<T: View> View for Lookup<T> {
    type V = LookupView<T::V>;

    open spec fn view(&self) -> LookupView<T::V> {
        match self {
            Lookup::Pending => LookupView::Pending,
            Lookup::Missing => LookupView::Missing,
            Lookup::Found(record) => LookupView::Found(record@),
        }
    }
}

impl<V> LookupView<V> {
    /// The record, if it was found.
    pub open spec fn found(self) -> Option<V> {
        match self {
            LookupView::Found(record) => Some(record),
            _ => None,
        }
    }

    /// What is known once the caller was answered with `answer`.
    pub open spec fn answered(answer: Option<V>) -> LookupView<V> {
        match answer {
            Some(record) => LookupView::Found(record),
            None => LookupView::Missing,
        }
    }
}

impl<T: View> Lookup<T> {
    /// The record, if it was found.
    pub fn found(&self) -> (record: Option<&T>)
        ensures
            view_of(record) == self@.found(),
    {
        match self {
            Lookup::Found(record) => Some(record),
            _ => None,
        }
    }

    /// What is known once the caller was answered with `answer`.
    pub fn answered(answer: Option<T>) -> (lookup: Lookup<T>)
        ensures
            lookup@ == LookupView::answered(
                match answer {
                    Some(record) => Some(record@),
                    None => None,
                },
            ),
    {
        match answer {
            Some(record) => Lookup::Found(record),
            None => Lookup::Missing,
        }
    }
}

} // verus!
