use apub_federation::error::ApubError;
use apub_federation::model::{Community, Lookup, Post, Settings, Timestamp, User_};
use apub_federation::request::{get_apub_post, get_apub_post_checked, ApubResponse, PostQuery, Read};

fn query(text: &str) -> PostQuery {
    PostQuery { post_id: text.to_string() }
}

fn post() -> Post {
    Post {
        id: 7,
        name: "A title".to_string(),
        url: None,
        body: None,
        creator_id: 3,
        community_id: 5,
        removed: false,
        locked: false,
        published: Timestamp { micros: 1 },
        updated: Some(Timestamp { micros: 2 }),
        deleted: false,
        nsfw: false,
        stickied: false,
        embed_title: None,
        embed_description: None,
        embed_html: None,
        thumbnail_url: None,
        ap_id: "https://lemmy.example/post/7".to_string(),
        local: true,
    }
}

fn alice() -> User_ {
    User_ { id: 3, name: "alice".to_string(), actor_id: "https://lemmy.example/u/alice".to_string(), local: true }
}

fn community() -> Community {
    Community {
        id: 5,
        name: "main".to_string(),
        actor_id: "https://lemmy.example/c/main".to_string(),
        followers_url: "https://lemmy.example/c/main/followers".to_string(),
        shared_inbox_url: "https://lemmy.example/inbox".to_string(),
        local: true,
    }
}

fn settings() -> Settings {
    Settings { hostname: "lemmy.example".to_string(), tls_enabled: true }
}

const NOW: Timestamp = Timestamp { micros: 1_000 };

#[test]
fn ids_are_read_as_decimal_numbers() {
    assert_eq!(query("7").id(), Some(7));
    assert_eq!(query("0").id(), Some(0));
    assert_eq!(query("+15").id(), Some(15));
    assert_eq!(query("-15").id(), Some(-15));
    assert_eq!(query("-0").id(), Some(0));
    assert_eq!(query("0000000000000000000042").id(), Some(42));
    assert_eq!(query("2147483647").id(), Some(i32::MAX));
    assert_eq!(query("-2147483648").id(), Some(i32::MIN));
}

#[test]
fn texts_that_write_no_id() {
    assert_eq!(query("").id(), None);
    assert_eq!(query("+").id(), None);
    assert_eq!(query("-").id(), None);
    assert_eq!(query("2147483648").id(), None);
    assert_eq!(query("-2147483649").id(), None);
    assert_eq!(query("99999999999999999999999999").id(), None);
    assert_eq!(query("12a").id(), None);
    assert_eq!(query("a12").id(), None);
    assert_eq!(query(" 12").id(), None);
    assert_eq!(query("1 2").id(), None);
    assert_eq!(query("--1").id(), None);
    assert_eq!(query("1-").id(), None);
    assert_eq!(query("٣").id(), None);
    assert_eq!(query("21474836480x").id(), None);
}

#[test]
fn ids_are_read_as_std_reads_them() {
    for text in ["5", "+5", "-5", "", "+", "-", "05", "2147483647", "2147483648", "-2147483648", "-2147483649", "5x", "x"] {
        assert_eq!(query(text).id(), text.parse::<i32>().ok());
    }
}

#[test]
fn a_live_post_is_answered_with_its_object() {
    let post = post();
    let response =
        get_apub_post(&query("7"), Some(&post), Some(&alice()), Some(&community()), &settings(), NOW).unwrap();
    assert_eq!(response.status(), 200);
    assert_eq!(
        response,
        ApubResponse::Object(post.to_apub(Some(&alice()), Some(&community()), &settings()).unwrap())
    );
}

#[test]
fn a_deleted_post_is_answered_with_its_tombstone() {
    let mut post = post();
    post.deleted = true;
    let response =
        get_apub_post(&query("7"), Some(&post), Some(&alice()), Some(&community()), &settings(), NOW).unwrap();
    assert_eq!(response.status(), 410);
    match &response {
        ApubResponse::Gone(tombstone) => {
            assert_eq!(tombstone.id, "https://lemmy.example/post/7");
            assert_eq!(tombstone.former_type, "Page");
            assert_eq!(tombstone.deleted, Timestamp { micros: 2 });
        }
        ApubResponse::Object(_) => panic!("the object of a deleted post"),
    }
    // the author and the community are not looked at
    let without = get_apub_post(&query("7"), Some(&post), None, None, &settings(), NOW).unwrap();
    assert_eq!(without, response);
    post.updated = None;
    let fresh = get_apub_post(&query("7"), Some(&post), None, None, &settings(), NOW).unwrap();
    assert_eq!(fresh, ApubResponse::Gone(post.to_tombstone(NOW).unwrap()));
    match fresh {
        ApubResponse::Gone(tombstone) => assert_eq!(tombstone.deleted, NOW),
        ApubResponse::Object(_) => panic!("the object of a deleted post"),
    }
}

#[test]
fn requests_that_find_nothing() {
    let post = post();
    assert_eq!(
        get_apub_post(&query("7"), None, None, None, &settings(), NOW),
        Err(ApubError::NotFound)
    );
    assert_eq!(
        get_apub_post(&query("8"), Some(&post), Some(&alice()), Some(&community()), &settings(), NOW),
        Err(ApubError::NotFound)
    );
    assert_eq!(
        get_apub_post(&query("7"), Some(&post), None, Some(&community()), &settings(), NOW),
        Err(ApubError::NotFound)
    );
    assert_eq!(
        get_apub_post(&query("seven"), Some(&post), Some(&alice()), Some(&community()), &settings(), NOW),
        Err(ApubError::InvalidId)
    );
}

#[test]
fn requests_for_posts_with_malformed_identities() {
    let mut post = post();
    post.ap_id = "post 7".to_string();
    assert_eq!(
        get_apub_post(&query("7"), Some(&post), Some(&alice()), Some(&community()), &settings(), NOW),
        Err(ApubError::InvalidUri)
    );
    post.deleted = true;
    assert_eq!(
        get_apub_post(&query("7"), Some(&post), Some(&alice()), Some(&community()), &settings(), NOW),
        Err(ApubError::InvalidUri)
    );
}

#[test]
fn the_checked_answer_follows_the_verdicts() {
    let post = post();
    let alice = alice();
    let community = community();
    let settings = settings();
    assert_eq!(
        get_apub_post_checked(Some(7), Some(&post), Some(&alice), Some(&community), &settings, NOW, false, true),
        Err(ApubError::InvalidUri)
    );
    assert_eq!(
        get_apub_post_checked(None, Some(&post), Some(&alice), Some(&community), &settings, NOW, true, true),
        Err(ApubError::InvalidId)
    );
    let mut deleted = post.clone();
    deleted.deleted = true;
    assert_eq!(
        get_apub_post_checked(Some(7), Some(&deleted), None, None, &settings, NOW, false, false),
        Err(ApubError::InvalidUri)
    );
    assert_eq!(
        get_apub_post_checked(Some(7), Some(&deleted), None, None, &settings, NOW, false, true)
            .unwrap()
            .status(),
        410
    );
}

#[test]
fn records_are_read_one_after_the_other() {
    let q = query("7");
    let pending_user: Lookup<User_> = Lookup::Pending;
    let pending_community: Lookup<Community> = Lookup::Pending;
    assert_eq!(q.read_next(&Lookup::Pending, &pending_user, &pending_community), Read::Post { id: 7 });
    let found = Lookup::Found(post());
    assert_eq!(q.read_next(&found, &pending_user, &pending_community), Read::Creator { id: 3 });
    let creator = Lookup::answered(Some(alice()));
    assert_eq!(q.read_next(&found, &creator, &pending_community), Read::Community { id: 5 });
    let community = Lookup::answered(Some(community()));
    assert_eq!(q.read_next(&found, &creator, &community), Read::Nothing);
    assert_eq!(
        get_apub_post(&q, found.found(), creator.found(), community.found(), &settings(), NOW)
            .unwrap()
            .status(),
        200
    );
}

#[test]
fn nothing_is_read_without_need() {
    let pending_user: Lookup<User_> = Lookup::Pending;
    let pending_community: Lookup<Community> = Lookup::Pending;
    // no id, no read
    assert_eq!(query("x").read_next(&Lookup::Pending, &pending_user, &pending_community), Read::Nothing);
    // no post, no further read
    assert_eq!(query("7").read_next(&Lookup::Missing, &pending_user, &pending_community), Read::Nothing);
    // a post with another id
    assert_eq!(
        query("8").read_next(&Lookup::Found(post()), &pending_user, &pending_community),
        Read::Nothing
    );
    // a deleted post
    let mut deleted = post();
    deleted.deleted = true;
    let deleted = Lookup::Found(deleted);
    assert_eq!(query("7").read_next(&deleted, &pending_user, &pending_community), Read::Nothing);
    assert_eq!(
        get_apub_post(&query("7"), deleted.found(), pending_user.found(), pending_community.found(), &settings(), NOW)
            .unwrap()
            .status(),
        410
    );
    // an author that is gone
    let missing: Lookup<User_> = Lookup::answered(None);
    assert_eq!(missing, Lookup::Missing);
    assert_eq!(query("7").read_next(&Lookup::Found(post()), &missing, &pending_community), Read::Nothing);
}
