//! Answering a request for the object of a post.
//!
//! The request names the post by the decimal text of its id. The answer is
//! the object of the post, or, once the post is deleted, its tombstone.

use vstd::prelude::*;
use vstd::string::StrSliceExecFns;
use crate::error::{outcome_view, ApubError};
use crate::model::{
    view_of, Community, CommunityView, Lookup, LookupView, Post, PostView, Settings, SettingsView,
    Timestamp, User_, UserView,
};
use crate::object::{PageExt, PageExtView, Tombstone, TombstoneView};
use crate::to_wire::{
    identities_verdict, page_type, page_type_name, to_apub_outcome, tombstone_checked, tombstone_of,
    tombstone_outcome,
};
use crate::uri::{is_valid_uri, uri_parses};

verus! {

/// Whether `c` is a decimal digit.
pub open spec fn is_digit(c: char) -> bool {
    '0' <= c && c <= '9'
}

/// The number that the decimal digit `c` stands for.
pub open spec fn digit_value(c: char) -> int {
    c as int - '0' as int
}

/// Whether `text` is made of decimal digits.
pub open spec fn all_digits(text: Seq<char>) -> bool {
    forall|i: int| 0 <= i < text.len() ==> is_digit(#[trigger] text[i])
}

/// The number that the decimal digits `digits` write.
pub open spec fn decimal_value(digits: Seq<char>) -> int
    decreases digits.len(),
{
    if digits.len() == 0 {
        0
    } else {
        decimal_value(digits.drop_last()) * 10 + digit_value(digits.last())
    }
}

/// The id that `text` writes: an optional sign, `+` or `-`, then one or more
/// decimal digits, the number being one that the id type holds.
pub open spec fn parse_id(text: Seq<char>) -> Option<i32> {
    let signed = text.len() > 0 && (text[0] == '-' || text[0] == '+');
    let digits = if signed {
        text.skip(1)
    } else {
        text
    };
    let value = if signed && text[0] == '-' {
        -decimal_value(digits)
    } else {
        decimal_value(digits)
    };
    if digits.len() > 0 && all_digits(digits) && i32::MIN <= value <= i32::MAX {
        Some(value as i32)
    } else {
        None
    }
}

/// Decimal digits write a natural number.
proof fn lemma_decimal_value_is_natural(digits: Seq<char>)
    requires
        all_digits(digits),
    ensures
        0 <= decimal_value(digits),
    decreases digits.len(),
{
    if digits.len() > 0 {
        assert(all_digits(digits.drop_last()));
        lemma_decimal_value_is_natural(digits.drop_last());
    }
}

/// The digits written so far never write more than all of them.
proof fn lemma_decimal_value_grows(digits: Seq<char>, k: int)
    requires
        all_digits(digits),
        0 <= k <= digits.len(),
    ensures
        0 <= decimal_value(digits.take(k)) <= decimal_value(digits),
    decreases digits.len() - k,
{
    assert(all_digits(digits.take(k)));
    lemma_decimal_value_is_natural(digits.take(k));
    if k == digits.len() {
        assert(digits.take(k) =~= digits);
    } else {
        // One digit more multiplies by ten and adds what is not negative.
        lemma_decimal_value_grows(digits, k + 1);
        assert(digits.take(k + 1).drop_last() =~= digits.take(k));
    }
}

/// The path parameters of a request for a post.
#[derive(Clone, Debug, PartialEq, Eq)]
pub struct PostQuery {
    pub post_id: String,
}

impl PostQuery {
    /// Reads the id of the post that the request names.
    pub fn id(&self) -> (id: Option<i32>)
        ensures
            id == parse_id(self.post_id@),
    {
        let text = self.post_id.as_str();
        let len = text.unicode_len();
        if len == 0 {
            return None;
        }
        let first = text.get_char(0);
        let negative = first == '-';
        let start: usize = if first == '-' || first == '+' {
            1
        } else {
            0
        };
        let ghost digits = if start == 1 {
            text@.skip(1)
        } else {
            text@
        };
        if start == len {
            return None;
        }
        let mut value: i64 = 0;
        let mut i: usize = start;
        while i < len
            invariant
                start <= i <= len,
                len == text@.len(),
                len > 0,
                text@ == self.post_id@,
                start <= 1,
                (start == 1) == (text@[0] == '-' || text@[0] == '+'),
                negative == (text@[0] == '-'),
                digits == if start == 1 {
                    text@.skip(1)
                } else {
                    text@
                },
                digits.len() == len - start,
                all_digits(digits.take(i - start)),
                value == decimal_value(digits.take(i - start)),
                0 <= value <= 2147483648,
            decreases len - i,
        {
            let c = text.get_char(i);
            if !(c >= '0' && c <= '9') {
                return None;
            }
            let ghost longer = digits.take(i - start + 1);
            assert(longer.drop_last() =~= digits.take(i - start));
            assert(all_digits(longer)) by {
                assert forall|j: int| 0 <= j < longer.len() implies is_digit(#[trigger] longer[j]) by {
                    if j < longer.len() - 1 {
                        assert(longer[j] == digits.take(i - start)[j]);
                    }
                }
            }
            let digit: i64 = (c as u32 - '0' as u32) as i64;
            value = value * 10 + digit;
            if value > 2147483648 {
                proof {
                    if all_digits(digits) {
                        lemma_decimal_value_grows(digits, i - start + 1);
                    }
                }
                return None;
            }
            i += 1;
        }
        assert(digits.take(i - start) =~= digits);
        if negative {
            Some((-value) as i32)
        } else if value <= 2147483647 {
            Some(value as i32)
        } else {
            None
        }
    }
}

/// What a request for a post is answered with.
#[derive(Clone, Debug, PartialEq, Eq)]
pub enum ApubResponse {
    /// The object of the post.
    Object(PageExt),
    /// The tombstone of the post, which is gone.
    Gone(Tombstone),
}

/// What an `ApubResponse` holds.
pub ghost enum ApubResponseView {
    Object(PageExtView),
    Gone(TombstoneView),
}

impl View for ApubResponse {
    type V = ApubResponseView;

    open spec fn view(&self) -> ApubResponseView {
        match self {
            ApubResponse::Object(page) => ApubResponseView::Object(page@),
            ApubResponse::Gone(tombstone) => ApubResponseView::Gone(tombstone@),
        }
    }
}

impl ApubResponse {
    /// The HTTP status that goes with the response.
    pub open spec fn spec_status(self) -> u16 {
        match self {
            ApubResponse::Object(_) => 200,
            ApubResponse::Gone(_) => 410,
        }
    }

    /// The HTTP status that goes with the response: 200 with an object,
    /// 410 with a tombstone.
    pub fn status(&self) -> (status: u16)
        ensures
            status == self.spec_status(),
    {
        match self {
            ApubResponse::Object(_) => 200,
            ApubResponse::Gone(_) => 410,
        }
    }
}

/// What a request is answered with, given what storage returned and the
/// verdicts of the URL parser.
///
/// A request whose text writes no id fails with `InvalidId`. Where storage
/// has no post, or handed one with another id, the answer is `NotFound`. A
/// deleted post is answered with its tombstone, whatever storage returned
/// for its author and community. Any other post is answered with its
/// object.
pub open spec fn answer(
    id: Option<i32>,
    post: Option<PostView>,
    creator: Option<UserView>,
    community: Option<CommunityView>,
    settings: SettingsView,
    now: Timestamp,
    identities_valid: bool,
    id_valid: bool,
) -> Result<ApubResponseView, ApubError> {
    if id is None {
        Err(ApubError::InvalidId)
    } else if post is None || post.unwrap().id != id.unwrap() {
        Err(ApubError::NotFound)
    } else if !post.unwrap().deleted {
        match to_apub_outcome(post.unwrap(), creator, community, settings, identities_valid) {
            Ok(page) => Ok(ApubResponseView::Object(page)),
            Err(e) => Err(e),
        }
    } else {
        match tombstone_outcome(
            true,
            post.unwrap().ap_id,
            post.unwrap().updated,
            page_type(),
            now,
            id_valid,
        ) {
            Ok(tombstone) => Ok(ApubResponseView::Gone(tombstone)),
            Err(e) => Err(e),
        }
    }
}

/// What a request is answered with, given what storage returned.
pub open spec fn answer_result(
    text: Seq<char>,
    post: Option<PostView>,
    creator: Option<UserView>,
    community: Option<CommunityView>,
    settings: SettingsView,
    now: Timestamp,
) -> Result<ApubResponseView, ApubError> {
    answer(
        parse_id(text),
        post,
        creator,
        community,
        settings,
        now,
        post is Some && identities_verdict(post.unwrap(), creator, community),
        post is Some && is_valid_uri(post.unwrap().ap_id),
    )
}

/// Answers a request, the id that it names and the verdicts of the URL
/// parser being known.
pub fn get_apub_post_checked(
    id: Option<i32>,
    post: Option<&Post>,
    creator: Option<&User_>,
    community: Option<&Community>,
    settings: &Settings,
    now: Timestamp,
    identities_valid: bool,
    id_valid: bool,
) -> (outcome: Result<ApubResponse, ApubError>)
    ensures
        outcome_view(outcome) == answer(
            id,
            view_of(post),
            view_of(creator),
            view_of(community),
            settings@,
            now,
            identities_valid,
            id_valid,
        ),
{
    let id = match id {
        Some(id) => id,
        None => {
            return Err(ApubError::InvalidId);
        },
    };
    let post = match post {
        Some(post) => post,
        None => {
            return Err(ApubError::NotFound);
        },
    };
    if post.id != id {
        return Err(ApubError::NotFound);
    }
    if !post.deleted {
        match post.to_apub_checked(creator, community, settings, identities_valid) {
            Ok(page) => Ok(ApubResponse::Object(page)),
            Err(e) => Err(e),
        }
    } else {
        match tombstone_checked(
            true,
            post.ap_id.as_str(),
            post.updated,
            page_type_name(),
            now,
            id_valid,
        ) {
            Ok(tombstone) => Ok(ApubResponse::Gone(tombstone)),
            Err(e) => Err(e),
        }
    }
}

/// Answers the request `info` for a post. `post` is what storage returned
/// for the id that the request names, `creator` and `community` what it
/// returned for the post's author and community, and `now` the time of the
/// call.
pub fn get_apub_post(
    info: &PostQuery,
    post: Option<&Post>,
    creator: Option<&User_>,
    community: Option<&Community>,
    settings: &Settings,
    now: Timestamp,
) -> (outcome: Result<ApubResponse, ApubError>)
    ensures
        outcome_view(outcome) == answer_result(
            info.post_id@,
            view_of(post),
            view_of(creator),
            view_of(community),
            settings@,
            now,
        ),
{
    let id = info.id();
    let (identities_valid, id_valid) = match post {
        Some(post) => (
            !post.deleted && post.identities_valid(creator, community),
            post.deleted && uri_parses(post.ap_id.as_str()),
        ),
        None => (false, false),
    };
    get_apub_post_checked(
        id,
        post,
        creator,
        community,
        settings,
        now,
        identities_valid,
        id_valid,
    )
}

/// A deleted post is never answered with its object. The answer is its
/// tombstone, dated at the post's last update, or at the time of the call
/// where it has none; and it is the same whatever storage returned for the
/// post's author and community.
pub proof fn lemma_deleted_post_is_gone(
    text: Seq<char>,
    post: PostView,
    creator: Option<UserView>,
    community: Option<CommunityView>,
    settings: SettingsView,
    now: Timestamp,
)
    requires
        post.deleted,
    ensures
        !(answer_result(text, Some(post), creator, community, settings, now) matches Ok(
            ApubResponseView::Object(_),
        )),
        answer_result(text, Some(post), creator, community, settings, now) == answer_result(
            text,
            Some(post),
            None,
            None,
            settings,
            now,
        ),
        answer_result(text, Some(post), creator, community, settings, now) matches Ok(
            ApubResponseView::Gone(tombstone),
        ) ==> tombstone == tombstone_of(post.ap_id, post.updated, page_type(), now) && (
        post.updated matches Some(at) ==> tombstone.deleted == at) && (post.updated is None
            ==> tombstone.deleted == now),
        forall|id: Option<i32>, known_creator: LookupView<UserView>, known_community: LookupView<CommunityView>|
            #[trigger] next_read(id, LookupView::Found(post), known_creator, known_community)
                is Nothing,
{
}

/// Which record the caller is to read next before a request can be
/// answered.
#[derive(Clone, Copy, Debug, PartialEq, Eq, Structural)]
pub enum Read {
    /// The post with this id.
    Post { id: i32 },
    /// The user with this id, the author of the post.
    Creator { id: i32 },
    /// The community with this id, that of the post.
    Community { id: i32 },
    /// Nothing more: the request can be answered with what is known.
    Nothing,
}

/// Which record is read next, given the id that the request names and
/// what is known so far.
///
/// The post is read first, if the request names an id. Its author and its
/// community are read, in this order, only for a post that is there, has
/// the id asked for and is not deleted, the community only once the author
/// is found.
pub open spec fn next_read(
    id: Option<i32>,
    post: LookupView<PostView>,
    creator: LookupView<UserView>,
    community: LookupView<CommunityView>,
) -> Read {
    if id is None {
        Read::Nothing
    } else {
        match post {
            LookupView::Pending => Read::Post { id: id.unwrap() },
            LookupView::Missing => Read::Nothing,
            LookupView::Found(post) => if post.id != id.unwrap() || post.deleted {
                Read::Nothing
            } else if creator is Pending {
                Read::Creator { id: post.creator_id }
            } else if creator is Missing {
                Read::Nothing
            } else if community is Pending {
                Read::Community { id: post.community_id }
            } else {
                Read::Nothing
            },
        }
    }
}

impl PostQuery {
    /// Says which record the caller is to read next. The caller reads it,
    /// notes the answer in `post`, `creator` or `community`, and asks again,
    /// until nothing is left; then `get_apub_post` answers the request with
    /// what was found.
    pub fn read_next(
        &self,
        post: &Lookup<Post>,
        creator: &Lookup<User_>,
        community: &Lookup<Community>,
    ) -> (next: Read)
        ensures
            next == next_read(parse_id(self.post_id@), post@, creator@, community@),
    {
        let id = match self.id() {
            Some(id) => id,
            None => {
                return Read::Nothing;
            },
        };
        match post {
            Lookup::Pending => Read::Post { id },
            Lookup::Missing => Read::Nothing,
            Lookup::Found(post) => {
                if post.id != id || post.deleted {
                    return Read::Nothing;
                }
                match creator {
                    Lookup::Pending => Read::Creator { id: post.creator_id },
                    Lookup::Missing => Read::Nothing,
                    Lookup::Found(_) => match community {
                        Lookup::Pending => Read::Community { id: post.community_id },
                        _ => Read::Nothing,
                    },
                }
            },
        }
    }
}

/// What was not read does not matter: once nothing is left to read, the
/// request is answered with what was found as it would be with any answer
/// in place of one that was never asked for.
pub proof fn lemma_unread_does_not_matter(
    text: Seq<char>,
    post: LookupView<PostView>,
    creator: LookupView<UserView>,
    community: LookupView<CommunityView>,
    settings: SettingsView,
    now: Timestamp,
    late_post: Option<PostView>,
    late_creator: Option<UserView>,
    late_community: Option<CommunityView>,
)
    requires
        next_read(parse_id(text), post, creator, community) is Nothing,
    ensures
        ({
            let answered = answer_result(text, post.found(), creator.found(), community.found(), settings, now);
            let full_post = if post is Pending {
                late_post
            } else {
                post.found()
            };
            let full_creator = if creator is Pending {
                late_creator
            } else {
                creator.found()
            };
            let full_community = if community is Pending {
                late_community
            } else {
                community.found()
            };
            answered == answer_result(
                text,
                full_post,
                full_creator,
                full_community,
                settings,
                now,
            )
        }),
        parse_id(text) is Some ==> !(post is Pending),
{
}

} // verus!
