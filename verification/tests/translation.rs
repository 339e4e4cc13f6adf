use apub_federation::error::ApubError;
use apub_federation::from_wire::{Resolve, UriVerdicts};
use apub_federation::model::{Community, Lookup, Post, PostForm, Settings, Timestamp, User_};
use apub_federation::object::{Image, Page, PageExt, PageExtension, Preview};
use apub_federation::to_wire::create_tombstone;
use apub_federation::uri::check_all;

fn sample_post() -> Post {
    Post {
        id: 7,
        name: "A title".to_string(),
        url: Some("https://example.org/article".to_string()),
        body: Some("Some text".to_string()),
        creator_id: 3,
        community_id: 5,
        removed: false,
        locked: true,
        published: Timestamp { micros: 1_600_000_000_000_000 },
        updated: Some(Timestamp { micros: 1_600_000_500_000_000 }),
        deleted: false,
        nsfw: true,
        stickied: false,
        embed_title: Some("Embed title".to_string()),
        embed_description: Some("Embed description".to_string()),
        embed_html: Some("<p>embed</p>".to_string()),
        thumbnail_url: Some("abc.jpg".to_string()),
        ap_id: "https://lemmy.example/post/7".to_string(),
        local: true,
    }
}

fn sample_creator() -> User_ {
    User_ {
        id: 3,
        name: "alice".to_string(),
        actor_id: "https://lemmy.example/u/alice".to_string(),
        local: true,
    }
}

fn sample_community() -> Community {
    Community {
        id: 5,
        name: "main".to_string(),
        actor_id: "https://lemmy.example/c/main".to_string(),
        followers_url: "https://lemmy.example/c/main/followers".to_string(),
        shared_inbox_url: "https://lemmy.example/inbox".to_string(),
        local: true,
    }
}

fn sample_settings() -> Settings {
    Settings { hostname: "lemmy.example".to_string(), tls_enabled: true }
}

fn translate(post: &Post) -> PageExt {
    post.to_apub(Some(&sample_creator()), Some(&sample_community()), &sample_settings()).unwrap()
}

#[test]
fn to_apub_fills_every_field() {
    let page = translate(&sample_post());
    let expected = PageExt {
        inner: Page {
            id: Some("https://lemmy.example/post/7".to_string()),
            to: Some("https://lemmy.example/c/main".to_string()),
            attributed_to: Some("https://lemmy.example/u/alice".to_string()),
            published: Some(Timestamp { micros: 1_600_000_000_000_000 }),
            updated: Some(Timestamp { micros: 1_600_000_500_000_000 }),
            summary: Some("A title".to_string()),
            content: Some("Some text".to_string()),
            url: Some("https://example.org/article".to_string()),
            image: Some(Image { url: "https://lemmy.example/pictshare/abc.jpg".to_string() }),
            preview: Some(Preview {
                url: Some("https://example.org/article".to_string()),
                name: Some("Embed title".to_string()),
                summary: Some("Embed description".to_string()),
                content: Some("<p>embed</p>".to_string()),
            }),
        },
        ext_one: Some(PageExtension { comments_enabled: false, sensitive: true }),
    };
    assert_eq!(page, expected);
}

#[test]
fn to_apub_of_a_bare_post() {
    let mut post = sample_post();
    post.url = None;
    post.body = None;
    post.updated = None;
    post.thumbnail_url = None;
    post.locked = false;
    post.nsfw = false;
    let page = translate(&post);
    assert_eq!(page.inner.url, None);
    assert_eq!(page.inner.preview, None);
    assert_eq!(page.inner.content, None);
    assert_eq!(page.inner.updated, None);
    assert_eq!(page.inner.image, None);
    assert_eq!(page.ext_one, Some(PageExtension { comments_enabled: true, sensitive: false }));
}

#[test]
fn preview_leaves_out_unset_embed_fields() {
    let mut post = sample_post();
    post.embed_description = None;
    post.embed_html = None;
    let page = translate(&post);
    assert_eq!(
        page.inner.preview,
        Some(Preview {
            url: Some("https://example.org/article".to_string()),
            name: Some("Embed title".to_string()),
            summary: None,
            content: None,
        })
    );
}

#[test]
fn thumbnail_url_without_tls() {
    let settings = Settings { hostname: "localhost:8536".to_string(), tls_enabled: false };
    assert_eq!(settings.get_apub_protocol_string(), "http");
    assert_eq!(settings.thumbnail_url("pic.png"), "http://localhost:8536/pictshare/pic.png");
    assert_eq!(sample_settings().get_apub_protocol_string(), "https");
}

#[test]
fn empty_url_is_translated_as_no_url() {
    let mut empty = sample_post();
    empty.url = Some(String::new());
    let mut none = sample_post();
    none.url = None;
    let page = translate(&empty);
    assert_eq!(page.inner.url, None);
    assert_eq!(page.inner.preview, None);
    assert_eq!(page, translate(&none));
    assert_eq!(empty.link(), None);
    assert_eq!(sample_post().link(), Some("https://example.org/article".to_string()));
}

#[test]
fn to_apub_without_creator_or_community() {
    let post = sample_post();
    let creator = sample_creator();
    let community = sample_community();
    let settings = sample_settings();
    assert_eq!(post.to_apub(None, Some(&community), &settings), Err(ApubError::NotFound));
    assert_eq!(post.to_apub(Some(&creator), None, &settings), Err(ApubError::NotFound));
    assert_eq!(post.to_apub(None, None, &settings), Err(ApubError::NotFound));
}

#[test]
fn to_apub_with_the_records_of_others() {
    let post = sample_post();
    let settings = sample_settings();
    let mut creator = sample_creator();
    creator.id = 4;
    assert_eq!(
        post.to_apub(Some(&creator), Some(&sample_community()), &settings),
        Err(ApubError::NotFound)
    );
    let mut community = sample_community();
    community.id = 6;
    assert_eq!(
        post.to_apub(Some(&sample_creator()), Some(&community), &settings),
        Err(ApubError::NotFound)
    );
}

#[test]
fn to_apub_rejects_malformed_identities() {
    let settings = sample_settings();
    let mut post = sample_post();
    post.ap_id = "not a uri".to_string();
    assert_eq!(
        post.to_apub(Some(&sample_creator()), Some(&sample_community()), &settings),
        Err(ApubError::InvalidUri)
    );
    let mut creator = sample_creator();
    creator.actor_id = "alice".to_string();
    assert_eq!(
        sample_post().to_apub(Some(&creator), Some(&sample_community()), &settings),
        Err(ApubError::InvalidUri)
    );
    let mut community = sample_community();
    community.actor_id = String::new();
    assert_eq!(
        sample_post().to_apub(Some(&sample_creator()), Some(&community), &settings),
        Err(ApubError::InvalidUri)
    );
}

#[test]
fn not_found_comes_before_invalid_uri() {
    let mut post = sample_post();
    post.ap_id = "not a uri".to_string();
    assert_eq!(post.to_apub(None, Some(&sample_community()), &sample_settings()), Err(ApubError::NotFound));
    assert!(!post.identities_valid(None, Some(&sample_community())));
    assert!(!post.identities_valid(Some(&sample_creator()), Some(&sample_community())));
    assert!(sample_post().identities_valid(Some(&sample_creator()), Some(&sample_community())));
}

#[test]
fn to_apub_checked_follows_the_verdict() {
    let post = sample_post();
    let creator = sample_creator();
    let community = sample_community();
    let settings = sample_settings();
    assert_eq!(
        post.to_apub_checked(Some(&creator), Some(&community), &settings, false),
        Err(ApubError::InvalidUri)
    );
    assert_eq!(
        post.to_apub_checked(Some(&creator), Some(&community), &settings, true),
        Ok(post.to_page(&creator, &community, &settings))
    );
    assert_eq!(post.to_apub_checked(None, Some(&community), &settings, true), Err(ApubError::NotFound));
}

#[test]
fn uri_checks_ask_the_parser() {
    assert!(check_all(&vec!["https://lemmy.example/post/7".to_string()]));
    assert!(check_all(&vec!["data:text/plain,x".to_string()]));
    assert!(!check_all(&vec!["lemmy.example/post/7".to_string()]));
    assert!(!check_all(&vec![String::new()]));
    assert!(!check_all(&vec!["https://".to_string()]));
    assert!(check_all(&vec![]));
    assert!(check_all(&vec!["https://a.example/x".to_string(), "https://b.example/y".to_string()]));
    assert!(!check_all(&vec!["https://a.example/x".to_string(), "nope".to_string()]));
    assert!(!check_all(&vec!["nope".to_string(), "https://a.example/x".to_string()]));
}

#[test]
fn round_trip_reproduces_the_post() {
    let post = sample_post();
    let creator = sample_creator();
    let community = sample_community();
    let page = translate(&post);
    let form = PostForm::from_apub(&page, Some(&creator), Some(&community)).unwrap();
    assert_eq!(form.name, post.name);
    assert_eq!(form.body, post.body);
    assert_eq!(form.url, post.url);
    assert_eq!(form.embed_title, post.embed_title);
    assert_eq!(form.embed_description, post.embed_description);
    assert_eq!(form.embed_html, post.embed_html);
    assert_eq!(form.locked, Some(post.locked));
    assert_eq!(form.nsfw, post.nsfw);
    assert_eq!(form.ap_id, post.ap_id);
    assert!(!form.local);
    assert_eq!(form.creator_id, post.creator_id);
    assert_eq!(form.community_id, post.community_id);
    assert_eq!(form.published, Some(post.published));
    assert_eq!(form.updated, post.updated);
    assert_eq!(form.removed, None);
    assert_eq!(form.deleted, None);
    assert_eq!(form.stickied, None);
    assert_eq!(form.thumbnail_url, Some("https://lemmy.example/pictshare/abc.jpg".to_string()));
}

#[test]
fn round_trip_of_a_post_with_an_empty_url() {
    let mut post = sample_post();
    post.url = Some(String::new());
    let page = translate(&post);
    let form = PostForm::from_apub(&page, Some(&sample_creator()), Some(&sample_community())).unwrap();
    assert_eq!(form.url, None);
    assert_eq!(form.embed_title, None);
    assert_eq!(form.embed_description, None);
    assert_eq!(form.embed_html, None);
    assert_eq!(form.name, post.name);
}

fn remote_page() -> PageExt {
    PageExt {
        inner: Page {
            id: Some("https://other.example/post/12".to_string()),
            to: Some("https://other.example/c/news".to_string()),
            attributed_to: Some("https://other.example/u/bob".to_string()),
            published: Some(Timestamp { micros: 10 }),
            updated: None,
            summary: Some("Remote title".to_string()),
            content: None,
            url: None,
            image: None,
            preview: None,
        },
        ext_one: Some(PageExtension { comments_enabled: true, sensitive: false }),
    }
}

fn remote_user() -> User_ {
    User_ { id: 40, name: "bob".to_string(), actor_id: "https://other.example/u/bob".to_string(), local: false }
}

fn remote_community() -> Community {
    Community {
        id: 41,
        name: "news".to_string(),
        actor_id: "https://other.example/c/news".to_string(),
        followers_url: "https://other.example/c/news/followers".to_string(),
        shared_inbox_url: "https://other.example/inbox".to_string(),
        local: false,
    }
}

#[test]
fn from_apub_of_a_minimal_object() {
    let form = PostForm::from_apub(&remote_page(), Some(&remote_user()), Some(&remote_community())).unwrap();
    let expected = PostForm {
        name: "Remote title".to_string(),
        url: None,
        body: None,
        creator_id: 40,
        community_id: 41,
        removed: None,
        locked: Some(false),
        published: Some(Timestamp { micros: 10 }),
        updated: None,
        deleted: None,
        nsfw: false,
        stickied: None,
        embed_title: None,
        embed_description: None,
        embed_html: None,
        thumbnail_url: None,
        ap_id: "https://other.example/post/12".to_string(),
        local: false,
    };
    assert_eq!(form, expected);
}

#[test]
fn from_apub_lifts_preview_and_image() {
    let mut page = remote_page();
    page.inner.url = Some("https://news.example/a".to_string());
    page.inner.content = Some("body".to_string());
    page.inner.image = Some(Image { url: "https://other.example/pictshare/t.jpg".to_string() });
    page.inner.preview = Some(Preview {
        url: Some("https://news.example/a".to_string()),
        name: Some("n".to_string()),
        summary: None,
        content: Some("c".to_string()),
    });
    page.ext_one = Some(PageExtension { comments_enabled: false, sensitive: true });
    let form = PostForm::from_apub(&page, Some(&remote_user()), Some(&remote_community())).unwrap();
    assert_eq!(form.url, Some("https://news.example/a".to_string()));
    assert_eq!(form.body, Some("body".to_string()));
    assert_eq!(form.thumbnail_url, Some("https://other.example/pictshare/t.jpg".to_string()));
    assert_eq!(form.embed_title, Some("n".to_string()));
    assert_eq!(form.embed_description, None);
    assert_eq!(form.embed_html, Some("c".to_string()));
    assert_eq!(form.locked, Some(true));
    assert!(form.nsfw);
}

#[test]
fn missing_extension_is_rejected() {
    let mut page = remote_page();
    page.ext_one = None;
    assert_eq!(
        PostForm::from_apub(&page, Some(&remote_user()), Some(&remote_community())),
        Err(ApubError::MissingExtension)
    );
    page.inner.attributed_to = None;
    page.inner.id = Some("no uri".to_string());
    assert_eq!(PostForm::from_apub(&page, None, None), Err(ApubError::MissingExtension));
}

#[test]
fn missing_fields_are_rejected() {
    let user = remote_user();
    let community = remote_community();
    let mut page = remote_page();
    page.inner.attributed_to = None;
    assert_eq!(PostForm::from_apub(&page, Some(&user), Some(&community)), Err(ApubError::MissingField));
    let mut page = remote_page();
    page.inner.to = None;
    assert_eq!(PostForm::from_apub(&page, Some(&user), Some(&community)), Err(ApubError::MissingField));
    let mut page = remote_page();
    page.inner.id = None;
    assert_eq!(PostForm::from_apub(&page, Some(&user), Some(&community)), Err(ApubError::MissingField));
    let mut page = remote_page();
    page.inner.summary = None;
    assert_eq!(PostForm::from_apub(&page, Some(&user), Some(&community)), Err(ApubError::MissingField));
}

#[test]
fn failed_resolution_is_reported() {
    let page = remote_page();
    assert_eq!(
        PostForm::from_apub(&page, None, Some(&remote_community())),
        Err(ApubError::RemoteFetchFailed)
    );
    assert_eq!(PostForm::from_apub(&page, Some(&remote_user()), None), Err(ApubError::RemoteFetchFailed));
}

#[test]
fn malformed_wire_identities_are_rejected() {
    let user = remote_user();
    let community = remote_community();
    let mut page = remote_page();
    page.inner.attributed_to = Some("bob".to_string());
    assert_eq!(PostForm::from_apub(&page, Some(&user), Some(&community)), Err(ApubError::InvalidUri));
    let mut page = remote_page();
    page.inner.to = Some("news".to_string());
    assert_eq!(PostForm::from_apub(&page, Some(&user), Some(&community)), Err(ApubError::InvalidUri));
    let mut page = remote_page();
    page.inner.id = Some("12".to_string());
    assert_eq!(PostForm::from_apub(&page, Some(&user), Some(&community)), Err(ApubError::InvalidUri));
}

#[test]
fn from_apub_checks_in_order() {
    let mut page = remote_page();
    page.inner.to = None;
    // the author is looked at before the community
    assert_eq!(PostForm::from_apub(&page, None, None), Err(ApubError::RemoteFetchFailed));
    page.inner.attributed_to = Some("bob".to_string());
    assert_eq!(PostForm::from_apub(&page, None, None), Err(ApubError::InvalidUri));
    let verdicts = PostForm::verdicts(&remote_page());
    assert_eq!(verdicts, UriVerdicts { attributed_to: true, to: true, id: true });
    assert_eq!(
        PostForm::verdicts(&page),
        UriVerdicts { attributed_to: false, to: false, id: true }
    );
    assert_eq!(
        PostForm::from_apub_checked(
            &remote_page(),
            Some(&remote_user()),
            Some(&remote_community()),
            UriVerdicts { attributed_to: true, to: true, id: false }
        ),
        Err(ApubError::InvalidUri)
    );
}

#[test]
fn tombstone_of_a_deleted_post() {
    let mut post = sample_post();
    post.deleted = true;
    let now = Timestamp { micros: 99 };
    let tombstone = post.to_tombstone(now).unwrap();
    assert_eq!(tombstone.id, "https://lemmy.example/post/7");
    assert_eq!(tombstone.former_type, "Page");
    assert_eq!(tombstone.deleted, Timestamp { micros: 1_600_000_500_000_000 });
    post.updated = None;
    let tombstone = post.to_tombstone(now).unwrap();
    assert_eq!(tombstone.deleted, now);
}

#[test]
fn tombstone_of_a_live_post_is_refused() {
    let post = sample_post();
    assert_eq!(post.to_tombstone(Timestamp { micros: 99 }), Err(ApubError::NotDeleted));
    assert_eq!(
        create_tombstone(false, "not a uri", None, "Page".to_string(), Timestamp { micros: 1 }),
        Err(ApubError::NotDeleted)
    );
}

#[test]
fn tombstone_with_a_malformed_id() {
    assert_eq!(
        create_tombstone(true, "not a uri", None, "Page".to_string(), Timestamp { micros: 1 }),
        Err(ApubError::InvalidUri)
    );
    let tombstone =
        create_tombstone(true, "https://a.example/comment/1", None, "Note".to_string(), Timestamp { micros: 1 })
            .unwrap();
    assert_eq!(tombstone.former_type, "Note");
    assert_eq!(tombstone.id, "https://a.example/comment/1");
    assert_eq!(tombstone.deleted, Timestamp { micros: 1 });
}

#[test]
fn error_messages() {
    assert_eq!(ApubError::NotFound.message(), "record not found");
    assert_eq!(ApubError::InvalidUri.message(), "invalid uri");
    assert_eq!(ApubError::MissingField.message(), "missing field");
    assert_eq!(ApubError::MissingExtension.message(), "missing extension");
    assert_eq!(ApubError::RemoteFetchFailed.message(), "remote fetch failed");
    assert_eq!(ApubError::DeliveryFailed.message(), "delivery failed");
    assert_eq!(ApubError::NotDeleted.message(), "entity is not deleted");
    assert_eq!(ApubError::InvalidId.message(), "invalid id");
}

#[test]
fn error_statuses() {
    assert_eq!(ApubError::NotFound.status(), 404);
    assert_eq!(ApubError::InvalidId.status(), 400);
    assert_eq!(ApubError::InvalidUri.status(), 500);
    assert_eq!(ApubError::MissingField.status(), 500);
    assert_eq!(ApubError::MissingExtension.status(), 500);
    assert_eq!(ApubError::RemoteFetchFailed.status(), 500);
    assert_eq!(ApubError::DeliveryFailed.status(), 500);
    assert_eq!(ApubError::NotDeleted.status(), 500);
}

#[test]
fn actors_are_resolved_one_after_the_other() {
    let page = remote_page();
    let mut creator: Lookup<User_> = Lookup::Pending;
    let mut community: Lookup<Community> = Lookup::Pending;
    assert_eq!(
        PostForm::resolve_next(&page, &creator, &community),
        Resolve::Creator { uri: "https://other.example/u/bob".to_string() }
    );
    creator = Lookup::answered(Some(remote_user()));
    assert_eq!(creator.found(), Some(&remote_user()));
    assert_eq!(
        PostForm::resolve_next(&page, &creator, &community),
        Resolve::Community { uri: "https://other.example/c/news".to_string() }
    );
    community = Lookup::answered(Some(remote_community()));
    assert_eq!(PostForm::resolve_next(&page, &creator, &community), Resolve::Nothing);
    let form = PostForm::from_apub(&page, creator.found(), community.found()).unwrap();
    assert_eq!(form.creator_id, 40);
    assert_eq!(form.community_id, 41);
}

#[test]
fn nothing_is_resolved_after_a_failed_check() {
    let pending_user: Lookup<User_> = Lookup::Pending;
    let pending_community: Lookup<Community> = Lookup::Pending;
    let mut page = remote_page();
    page.ext_one = None;
    assert_eq!(PostForm::resolve_next(&page, &pending_user, &pending_community), Resolve::Nothing);
    let mut page = remote_page();
    page.inner.attributed_to = None;
    assert_eq!(PostForm::resolve_next(&page, &pending_user, &pending_community), Resolve::Nothing);
    let mut page = remote_page();
    page.inner.attributed_to = Some("bob".to_string());
    assert_eq!(PostForm::resolve_next(&page, &pending_user, &pending_community), Resolve::Nothing);
    // an author that could not be resolved
    let page = remote_page();
    let failed: Lookup<User_> = Lookup::answered(None);
    assert_eq!(PostForm::resolve_next(&page, &failed, &pending_community), Resolve::Nothing);
    assert_eq!(
        PostForm::from_apub(&page, failed.found(), pending_community.found()),
        Err(ApubError::RemoteFetchFailed)
    );
    // a community that is not named, or not by a URI
    let found = Lookup::Found(remote_user());
    let mut page = remote_page();
    page.inner.to = None;
    assert_eq!(PostForm::resolve_next(&page, &found, &pending_community), Resolve::Nothing);
    page.inner.to = Some("news".to_string());
    assert_eq!(PostForm::resolve_next(&page, &found, &pending_community), Resolve::Nothing);
    assert_eq!(
        PostForm::resolve_next_checked(
            &remote_page(),
            &found,
            &pending_community,
            UriVerdicts { attributed_to: true, to: false, id: true }
        ),
        Resolve::Nothing
    );
}
