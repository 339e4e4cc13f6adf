//! Activities: the envelopes in which a change to a post is announced.
//!
//! Every activity has an id of its own, made of the post's federation
//! identity, the path segment of the activity's kind and a suffix that is
//! drawn anew for each activity.

use vstd::prelude::*;
use vstd::string::StringExecFns;
use crate::object::{PageExt, PageExtView};
use crate::uri::{all_valid_uris, check_all, is_valid_uri, uri_parses};

verus! {

/// What an activity does to its object.
#[derive(Clone, Copy, Debug, PartialEq, Eq, Structural)]
pub enum ActivityKind {
    Create,
    Update,
    Delete,
    Remove,
    Like,
    Dislike,
}

impl ActivityKind {
    /// The path segment under which ids of this kind are minted.
    pub open spec fn spec_segment(self) -> Seq<char> {
        match self {
            ActivityKind::Create => "create"@,
            ActivityKind::Update => "update"@,
            ActivityKind::Delete => "delete"@,
            ActivityKind::Remove => "remove"@,
            ActivityKind::Like => "like"@,
            ActivityKind::Dislike => "dislike"@,
        }
    }

    /// The path segment under which ids of this kind are minted.
    pub fn segment(&self) -> (segment: &'static str)
        ensures
            segment@ == self.spec_segment(),
    {
        match self {
            ActivityKind::Create => "create",
            ActivityKind::Update => "update",
            ActivityKind::Delete => "delete",
            ActivityKind::Remove => "remove",
            ActivityKind::Like => "like",
            ActivityKind::Dislike => "dislike",
        }
    }
}

/// The part of an activity id between the base and the kind's segment: a
/// slash, and for the undoing of an activity the segment `undo` with its
/// slash.
pub open spec fn namespace(undo: bool) -> Seq<char> {
    if undo {
        "/undo/"@
    } else {
        "/"@
    }
}

/// The id of an activity of kind `kind` about the object `base`, or, with
/// `undo`, of the undoing of one: base, namespace, segment, a slash and the
/// suffix.
pub open spec fn activity_id(base: Seq<char>, kind: ActivityKind, undo: bool, suffix: Seq<char>) -> Seq<
    char,
> {
    base + namespace(undo) + kind.spec_segment() + "/"@ + suffix
}

/// Whether `c` is a digit of lower-case hexadecimal.
pub open spec fn is_lower_hex(c: char) -> bool {
    ('0' <= c && c <= '9') || ('a' <= c && c <= 'f')
}

/// Whether `text` has the shape of a UUID written with hyphens: thirty-six
/// characters, hyphens in the four places and lower-case hexadecimal
/// digits in the others.
pub open spec fn is_uuid_text(text: Seq<char>) -> bool {
    &&& text.len() == 36
    &&& forall|i: int|
        0 <= i < 36 ==> if i == 8 || i == 13 || i == 18 || i == 23 {
            #[trigger] text[i] == '-'
        } else {
            is_lower_hex(text[i])
        }
}

/// Calls `uuid::Uuid::new_v4` and `to_string` on what it returns. The UUID
/// is random, so the contract states only the shape that `Display` gives
/// every UUID.
#[verifier::external_body]
pub(crate) fn fresh_suffix() -> (suffix: String)
    ensures
        is_uuid_text(suffix@),
{
    uuid::Uuid::new_v4().to_string()
}

/// Mints the id of an activity from the suffix drawn for it.
pub fn mint_id(base: &str, kind: ActivityKind, undo: bool, suffix: &str) -> (id: String)
    ensures
        id@ == activity_id(base@, kind, undo, suffix@),
{
    let mut id = String::from_str(base);
    if undo {
        id.append("/undo/");
    } else {
        id.append("/");
    }
    id.append(kind.segment());
    id.append("/");
    id.append(suffix);
    id
}

/// What every activity starts from: its id and its audience.
#[derive(Clone, Debug, PartialEq, Eq)]
pub struct Skeleton {
    pub id: String,
    pub to: Vec<String>,
}

/// What a `Skeleton` holds.
pub ghost struct SkeletonView {
    pub id: Seq<char>,
    pub to: Seq<Seq<char>>,
}

impl View for Skeleton {
    type V = SkeletonView;

    open spec fn view(&self) -> SkeletonView {
        SkeletonView { id: self.id@, to: self.to.deep_view() }
    }
}

/// The skeleton of an activity about the object `base`, addressed to
/// `recipients`.
pub open spec fn skeleton_of(
    base: Seq<char>,
    kind: ActivityKind,
    undo: bool,
    recipients: Seq<Seq<char>>,
    suffix: Seq<char>,
) -> SkeletonView {
    SkeletonView { id: activity_id(base, kind, undo, suffix), to: recipients }
}

/// Whether the id and every recipient of a skeleton are URIs.
pub open spec fn skeleton_is_valid(skeleton: SkeletonView) -> bool {
    is_valid_uri(skeleton.id) && all_valid_uris(skeleton.to)
}

/// A copy of a list of texts.
pub(crate) fn clone_texts(texts: &Vec<String>) -> (copy: Vec<String>)
    ensures
        copy.deep_view() == texts.deep_view(),
{
    let mut copy: Vec<String> = Vec::new();
    let mut i: usize = 0;
    while i < texts.len()
        invariant
            i <= texts.len(),
            copy.len() == i,
            forall|j: int| 0 <= j < i ==> copy[j]@ == texts[j]@,
        decreases texts.len() - i,
    {
        copy.push(texts[i].clone());
        i += 1;
    }
    copy
}

impl Skeleton {
    /// Starts an activity: mints its id from the suffix drawn for it and
    /// addresses it to `recipients`.
    pub fn build(base: &str, kind: ActivityKind, undo: bool, recipients: &Vec<String>, suffix: &str) -> (skeleton:
        Skeleton)
        ensures
            skeleton@ == skeleton_of(base@, kind, undo, recipients.deep_view(), suffix@),
    {
        Skeleton { id: mint_id(base, kind, undo, suffix), to: clone_texts(recipients) }
    }

    /// Asks the URL parser about the id and each recipient.
    pub fn is_valid(&self) -> (valid: bool)
        ensures
            valid == skeleton_is_valid(self@),
    {
        uri_parses(self.id.as_str()) && check_all(&self.to)
    }
}

/// An activity about an object: who did what to it, and who is told.
#[derive(Clone, Debug, PartialEq, Eq)]
pub struct Activity {
    pub kind: ActivityKind,
    pub id: String,
    pub actor: String,
    pub to: Vec<String>,
    pub object: PageExt,
}

/// What an `Activity` holds.
pub ghost struct ActivityView {
    pub kind: ActivityKind,
    pub id: Seq<char>,
    pub actor: Seq<char>,
    pub to: Seq<Seq<char>>,
    pub object: PageExtView,
}

impl View for Activity {
    type V = ActivityView;

    open spec fn view(&self) -> ActivityView {
        ActivityView {
            kind: self.kind,
            id: self.id@,
            actor: self.actor@,
            to: self.to.deep_view(),
            object: self.object@,
        }
    }
}

/// The taking back of an activity, which it carries whole.
#[derive(Clone, Debug, PartialEq, Eq)]
pub struct Undo {
    pub id: String,
    pub actor: String,
    pub to: Vec<String>,
    pub object: Activity,
}

/// What an `Undo` holds.
pub ghost struct UndoView {
    pub id: Seq<char>,
    pub actor: Seq<char>,
    pub to: Seq<Seq<char>>,
    pub object: ActivityView,
}

impl View for Undo {
    type V = UndoView;

    open spec fn view(&self) -> UndoView {
        UndoView { id: self.id@, actor: self.actor@, to: self.to.deep_view(), object: self.object@ }
    }
}

/// What is delivered: an activity, or the undoing of one.
#[derive(Clone, Debug, PartialEq, Eq)]
pub enum Envelope {
    Direct(Activity),
    Undo(Undo),
}

/// What an `Envelope` holds.
pub ghost enum EnvelopeView {
    Direct(ActivityView),
    Undo(UndoView),
}

impl View for Envelope {
    type V = EnvelopeView;

    open spec fn view(&self) -> EnvelopeView {
        match self {
            Envelope::Direct(activity) => EnvelopeView::Direct(activity@),
            Envelope::Undo(undo) => EnvelopeView::Undo(undo@),
        }
    }
}

impl EnvelopeView {
    /// The id under which the envelope travels.
    pub open spec fn id(self) -> Seq<char> {
        match self {
            EnvelopeView::Direct(activity) => activity.id,
            EnvelopeView::Undo(undo) => undo.id,
        }
    }
}

/// The skeleton filled: `actor` did `kind` to `object`.
pub open spec fn activity_of(
    skeleton: SkeletonView,
    kind: ActivityKind,
    actor: Seq<char>,
    object: PageExtView,
) -> ActivityView {
    ActivityView { kind, id: skeleton.id, actor, to: skeleton.to, object }
}

/// The skeleton filled: `actor` takes `activity` back.
pub open spec fn undo_of(skeleton: SkeletonView, actor: Seq<char>, activity: ActivityView) -> UndoView {
    UndoView { id: skeleton.id, actor, to: skeleton.to, object: activity }
}

impl Activity {
    /// Fills a skeleton with the actor and the object.
    pub fn fill(skeleton: Skeleton, kind: ActivityKind, actor: &str, object: PageExt) -> (activity: Activity)
        ensures
            activity@ == activity_of(skeleton@, kind, actor@, object@),
    {
        Activity { kind, id: skeleton.id, actor: actor.to_owned(), to: skeleton.to, object }
    }
}

impl Undo {
    /// Fills a skeleton with the actor and the activity that is taken back.
    pub fn fill(skeleton: Skeleton, actor: &str, activity: Activity) -> (undo: Undo)
        ensures
            undo@ == undo_of(skeleton@, actor@, activity@),
    {
        Undo { id: skeleton.id, actor: actor.to_owned(), to: skeleton.to, object: activity }
    }
}

impl Envelope {
    /// The id under which the envelope travels.
    pub fn id(&self) -> (id: &String)
        ensures
            id@ == self@.id(),
    {
        match self {
            Envelope::Direct(activity) => &activity.id,
            Envelope::Undo(undo) => &undo.id,
        }
    }
}

/// Sequences that are equal behind one prefix are equal.
proof fn lemma_cancel_prefix(prefix: Seq<char>, a: Seq<char>, b: Seq<char>)
    requires
        prefix + a == prefix + b,
    ensures
        a == b,
{
    let whole = prefix + a;
    assert(a =~= whole.subrange(prefix.len() as int, whole.len() as int));
    assert(b =~= whole.subrange(prefix.len() as int, whole.len() as int));
}

/// Sequences of one length that are equal before their last parts have
/// equal last parts and equal first parts.
proof fn lemma_cancel_suffix(a: Seq<char>, s: Seq<char>, b: Seq<char>, t: Seq<char>)
    requires
        a + s == b + t,
        s.len() == t.len(),
    ensures
        a == b,
        s == t,
{
    let whole = a + s;
    assert(whole.len() == a.len() + s.len() && whole.len() == b.len() + t.len());
    assert(a =~= whole.subrange(0, a.len() as int));
    assert(b =~= whole.subrange(0, b.len() as int));
    assert(s =~= whole.subrange(a.len() as int, whole.len() as int));
    assert(t =~= whole.subrange(b.len() as int, whole.len() as int));
}

/// The namespace and segment of an activity id tell its kind, and whether
/// it undoes.
proof fn lemma_path_tells_kind(kind: ActivityKind, undo: bool, other: ActivityKind, other_undo: bool)
    requires
        namespace(undo) + kind.spec_segment() == namespace(other_undo) + other.spec_segment(),
    ensures
        kind == other,
        undo == other_undo,
{
    reveal_strlit("/");
    reveal_strlit("/undo/");
    reveal_strlit("create");
    reveal_strlit("update");
    reveal_strlit("delete");
    reveal_strlit("remove");
    reveal_strlit("like");
    reveal_strlit("dislike");
    // The paths have one length, which tells whether they undo and leaves
    // kinds apart that differ in their first letter.
    let path = namespace(undo) + kind.spec_segment();
    let other_path = namespace(other_undo) + other.spec_segment();
    assert(path.len() == other_path.len());
    let first = namespace(undo).len() as int;
    assert(path[first] == kind.spec_segment()[0]);
    assert(other_path[first] == other.spec_segment()[0]);
}

/// Two ids minted for one object with one kind from different suffixes are
/// different ids.
pub proof fn lemma_suffix_decides_id(
    base: Seq<char>,
    kind: ActivityKind,
    undo: bool,
    suffix: Seq<char>,
    other: Seq<char>,
)
    ensures
        activity_id(base, kind, undo, suffix) == activity_id(base, kind, undo, other) <==> suffix
            == other,
{
    if activity_id(base, kind, undo, suffix) == activity_id(base, kind, undo, other) {
        lemma_cancel_prefix(base + namespace(undo) + kind.spec_segment() + "/"@, suffix, other);
    }
}

/// However many ids are minted for one object with one kind: where the
/// suffixes differ from one another, so do the ids.
pub proof fn lemma_distinct_suffixes_give_distinct_ids(
    base: Seq<char>,
    kind: ActivityKind,
    undo: bool,
    suffixes: Seq<Seq<char>>,
)
    requires
        forall|i: int, j: int|
            0 <= i < j < suffixes.len() ==> #[trigger] suffixes[i] != #[trigger] suffixes[j],
    ensures
        forall|i: int, j: int|
            0 <= i < j < suffixes.len() ==> activity_id(base, kind, undo, #[trigger] suffixes[i])
                != activity_id(base, kind, undo, #[trigger] suffixes[j]),
{
    assert forall|i: int, j: int| 0 <= i < j < suffixes.len() implies activity_id(
        base,
        kind,
        undo,
        #[trigger] suffixes[i],
    ) != activity_id(base, kind, undo, #[trigger] suffixes[j]) by {
        lemma_suffix_decides_id(base, kind, undo, suffixes[i], suffixes[j]);
    }
}

/// An id minted for an object tells of which kind the activity is, whether
/// it undoes, and from which suffix the id was minted: two ids for one
/// object, minted from suffixes of one length, are equal only where all
/// three are.
pub proof fn lemma_id_tells_kind_and_suffix(
    base: Seq<char>,
    kind: ActivityKind,
    undo: bool,
    suffix: Seq<char>,
    other_kind: ActivityKind,
    other_undo: bool,
    other_suffix: Seq<char>,
)
    requires
        suffix.len() == other_suffix.len(),
        activity_id(base, kind, undo, suffix) == activity_id(
            base,
            other_kind,
            other_undo,
            other_suffix,
        ),
    ensures
        kind == other_kind,
        undo == other_undo,
        suffix == other_suffix,
{
    let path = namespace(undo) + kind.spec_segment();
    let other_path = namespace(other_undo) + other_kind.spec_segment();
    assert(activity_id(base, kind, undo, suffix) =~= base + (path + "/"@ + suffix));
    assert(activity_id(base, other_kind, other_undo, other_suffix) =~= base + (other_path + "/"@
        + other_suffix));
    lemma_cancel_prefix(base, path + "/"@ + suffix, other_path + "/"@ + other_suffix);
    lemma_cancel_suffix(path + "/"@, suffix, other_path + "/"@, other_suffix);
    lemma_cancel_suffix(path, "/"@, other_path, "/"@);
    lemma_path_tells_kind(kind, undo, other_kind, other_undo);
}

} // verus!
