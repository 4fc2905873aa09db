//! Saving the stream items that a refresh fetched, with the change detection
//! that decides whether an item turns unread again and which of its lists are
//! replaced.

use vstd::prelude::*;
use crate::models::{
    ItemPerson, ItemReview, ItemType, StreamItem, StreamItemView, copy_people, copy_reviews,
    copy_strings,
};
use crate::seq_util::{first_index, lemma_first_index_is, lemma_first_index_none};
use crate::text::{seq_lt, text_lt};
use super::{Result, Storage, StorageError, StoredItem, StoredItemView, same_item_key, stored_views};

verus! {

/// An item as a refresh fetched it, keyed by host, repository, number and
/// kind.
pub struct StreamItemUpsert {
    pub host_id: i64,
    pub node_id: Option<String>,
    pub repository_owner: String,
    pub repository_name: String,
    pub number: i64,
    pub item_type: ItemType,
    pub title: String,
    pub author_login: Option<String>,
    pub author_avatar_url: Option<String>,
    pub html_url: String,
    pub api_url: Option<String>,
    pub state: String,
    pub is_draft: Option<bool>,
    pub is_merged: Option<bool>,
    pub review_status: Option<String>,
    pub comment_count: i64,
    pub created_at_github: String,
    pub updated_at_github: String,
    pub closed_at_github: Option<String>,
    pub merged_at_github: Option<String>,
    pub labels: Vec<String>,
    pub assignees: Vec<ItemPerson>,
    pub review_requests: Vec<ItemPerson>,
    pub reviewers: Vec<ItemReview>,
    pub participants: Vec<ItemPerson>,
    pub mentions: Vec<String>,
    /// Whether the review and participation details were fetched too.
    pub graphql_enriched: bool,
}

pub struct StreamItemUpsertView {
    pub host_id: i64,
    pub node_id: Option<String>,
    pub repository_owner: String,
    pub repository_name: String,
    pub number: i64,
    pub item_type: ItemType,
    pub title: String,
    pub author_login: Option<String>,
    pub author_avatar_url: Option<String>,
    pub html_url: String,
    pub api_url: Option<String>,
    pub state: String,
    pub is_draft: Option<bool>,
    pub is_merged: Option<bool>,
    pub review_status: Option<String>,
    pub comment_count: i64,
    pub created_at_github: String,
    pub updated_at_github: String,
    pub closed_at_github: Option<String>,
    pub merged_at_github: Option<String>,
    pub labels: Seq<String>,
    pub assignees: Seq<ItemPerson>,
    pub review_requests: Seq<ItemPerson>,
    pub reviewers: Seq<ItemReview>,
    pub participants: Seq<ItemPerson>,
    pub mentions: Seq<String>,
    pub graphql_enriched: bool,
}

impl View for StreamItemUpsert {
    type V = StreamItemUpsertView;

    open spec fn view(&self) -> StreamItemUpsertView {
        StreamItemUpsertView {
            host_id: self.host_id,
            node_id: self.node_id,
            repository_owner: self.repository_owner,
            repository_name: self.repository_name,
            number: self.number,
            item_type: self.item_type,
            title: self.title,
            author_login: self.author_login,
            author_avatar_url: self.author_avatar_url,
            html_url: self.html_url,
            api_url: self.api_url,
            state: self.state,
            is_draft: self.is_draft,
            is_merged: self.is_merged,
            review_status: self.review_status,
            comment_count: self.comment_count,
            created_at_github: self.created_at_github,
            updated_at_github: self.updated_at_github,
            closed_at_github: self.closed_at_github,
            merged_at_github: self.merged_at_github,
            labels: self.labels@,
            assignees: self.assignees@,
            review_requests: self.review_requests@,
            reviewers: self.reviewers@,
            participants: self.participants@,
            mentions: self.mentions@,
            graphql_enriched: self.graphql_enriched,
        }
    }
}

/// What saving an item did: its identifier, and whether it changed.
#[derive(Clone, Copy, Debug, PartialEq, Eq, Structural)]
pub struct StreamItemSave {
    pub id: i64,
    pub changed: bool,
}

/// The kind of a person's relation to an item.
#[derive(Clone, Copy, Debug, PartialEq, Eq, Structural)]
pub enum RelationKind {
    Request,
    Review,
    Participant,
    Mention,
}

/// One relation of a person to an item, as change detection compares them.
pub struct Relation {
    pub kind: RelationKind,
    pub login: String,
    pub avatar_url: Option<String>,
    pub state: Option<String>,
}

/// A relation, with its texts taken as character sequences.
pub struct RelationView {
    pub kind: RelationKind,
    pub login: Seq<char>,
    pub avatar_url: Option<Seq<char>>,
    pub state: Option<Seq<char>>,
}

/// An optional text, taken as a character sequence.
pub open spec fn opt_text(o: Option<String>) -> Option<Seq<char>> {
    match o {
        Some(s) => Some(s@),
        None => None,
    }
}

impl View for Relation {
    type V = RelationView;

    open spec fn view(&self) -> RelationView {
        RelationView {
            kind: self.kind,
            login: self.login@,
            avatar_url: opt_text(self.avatar_url),
            state: opt_text(self.state),
        }
    }
}

pub open spec fn relation_views(s: Seq<Relation>) -> Seq<RelationView> {
    s.map_values(|r: Relation| r@)
}

pub open spec fn person_relation(kind: RelationKind, p: ItemPerson) -> RelationView {
    RelationView { kind: kind, login: p.login@, avatar_url: opt_text(p.avatar_url), state: None }
}

pub open spec fn review_relation(r: ItemReview) -> RelationView {
    RelationView {
        kind: RelationKind::Review,
        login: r.login@,
        avatar_url: opt_text(r.avatar_url),
        state: Some(r.state@),
    }
}

pub open spec fn mention_relation(m: String) -> RelationView {
    RelationView { kind: RelationKind::Mention, login: m@, avatar_url: None, state: None }
}

/// The set of relations of an item: its review requests, the reviews it
/// got, its participants and its mentions.
pub open spec fn relation_set(
    requests: Seq<ItemPerson>,
    reviews: Seq<ItemReview>,
    participants: Seq<ItemPerson>,
    mentions: Seq<String>,
) -> Set<RelationView> {
    (requests.map_values(|p: ItemPerson| person_relation(RelationKind::Request, p)) + reviews.map_values(
        |r: ItemReview| review_relation(r),
    ) + participants.map_values(|p: ItemPerson| person_relation(RelationKind::Participant, p))
        + mentions.map_values(|m: String| mention_relation(m))).to_set()
}

/// Whether a stored row holds the item that the upsert is keyed by.
pub open spec fn same_key(u: StreamItemUpsertView) -> spec_fn(StoredItemView) -> bool {
    |r: StoredItemView|
        r.host_id == u.host_id && r.item.repository_owner@ == u.repository_owner@
            && r.item.repository_name@ == u.repository_name@ && r.item.number == u.number
            && r.item.item_type == u.item_type
}

/// Whether the host's update time moved forward.
pub open spec fn updated_at_advanced(existing: Seq<char>, incoming: Seq<char>) -> bool {
    seq_lt(existing, incoming)
}

/// Whether the upsert changes the item: it is new, or the host updated it
/// since it was stored.
pub open spec fn upsert_changed(existing: Option<StoredItemView>, u: StreamItemUpsertView) -> bool {
    match existing {
        None => true,
        Some(r) => updated_at_advanced(r.item.updated_at_github@, u.updated_at_github@),
    }
}

/// Whether the review and participation details that the upsert brings
/// differ from those stored.
pub open spec fn enrichment_changed(existing: Option<StoredItemView>, u: StreamItemUpsertView) -> bool {
    if u.graphql_enriched {
        match existing {
            Some(r) => if !upsert_changed(existing, u) {
                ||| r.item.is_merged != u.is_merged
                ||| opt_text(r.item.review_status) != opt_text(u.review_status)
                ||| opt_text(r.item.merged_at_github) != opt_text(u.merged_at_github)
                ||| relation_set(
                    r.item.review_requests,
                    r.item.reviewers,
                    r.participants,
                    r.mentions,
                ) != relation_set(u.review_requests, u.reviewers, u.participants, u.mentions)
            } else {
                true
            },
            None => true,
        }
    } else {
        false
    }
}

/// The row that a new item is stored as: unread, neither bookmarked nor
/// archived; its review and participation lists only when they were
/// fetched.
pub open spec fn new_row(u: StreamItemUpsertView, id: i64) -> StoredItemView {
    StoredItemView {
        host_id: u.host_id,
        node_id: u.node_id,
        api_url: u.api_url,
        participants: if u.graphql_enriched { u.participants } else { Seq::empty() },
        mentions: if u.graphql_enriched { u.mentions } else { Seq::empty() },
        item: StreamItemView {
            id: id,
            repository_owner: u.repository_owner,
            repository_name: u.repository_name,
            number: u.number,
            item_type: u.item_type,
            title: u.title,
            author_login: u.author_login,
            author_avatar_url: u.author_avatar_url,
            html_url: u.html_url,
            state: u.state,
            is_draft: u.is_draft,
            is_merged: u.is_merged,
            review_status: u.review_status,
            comment_count: u.comment_count,
            created_at_github: u.created_at_github,
            updated_at_github: u.updated_at_github,
            closed_at_github: u.closed_at_github,
            merged_at_github: u.merged_at_github,
            read_at: None,
            labels: u.labels,
            assignees: u.assignees,
            review_requests: if u.graphql_enriched { u.review_requests } else { Seq::empty() },
            reviewers: if u.graphql_enriched { u.reviewers } else { Seq::empty() },
            is_unread: true,
            is_bookmarked: false,
            is_archived: false,
        },
    }
}

/// The stored row after an upsert of the same item: the plain fields follow
/// the upsert; the review fields only when they were fetched; the labels and
/// assignees only when the item changed; the review and participation lists
/// only when they were fetched and something changed; the item turns unread
/// when it changed, and keeps its bookmark and archive state.
pub open spec fn updated_row(r: StoredItemView, u: StreamItemUpsertView, changed: bool, enriched_changed: bool) -> StoredItemView {
    let relations = u.graphql_enriched && (changed || enriched_changed);
    StoredItemView {
        host_id: r.host_id,
        node_id: u.node_id,
        api_url: u.api_url,
        participants: if relations { u.participants } else { r.participants },
        mentions: if relations { u.mentions } else { r.mentions },
        item: StreamItemView {
            id: r.item.id,
            repository_owner: r.item.repository_owner,
            repository_name: r.item.repository_name,
            number: r.item.number,
            item_type: r.item.item_type,
            title: u.title,
            author_login: u.author_login,
            author_avatar_url: u.author_avatar_url,
            html_url: u.html_url,
            state: u.state,
            is_draft: u.is_draft,
            is_merged: if u.graphql_enriched { u.is_merged } else { r.item.is_merged },
            review_status: if u.graphql_enriched { u.review_status } else { r.item.review_status },
            comment_count: u.comment_count,
            created_at_github: u.created_at_github,
            updated_at_github: u.updated_at_github,
            closed_at_github: u.closed_at_github,
            merged_at_github: if u.graphql_enriched { u.merged_at_github } else { r.item.merged_at_github },
            read_at: r.item.read_at,
            labels: if changed { u.labels } else { r.item.labels },
            assignees: if changed { u.assignees } else { r.item.assignees },
            review_requests: if relations { u.review_requests } else { r.item.review_requests },
            reviewers: if relations { u.reviewers } else { r.item.reviewers },
            is_unread: if changed { true } else { r.item.is_unread },
            is_bookmarked: r.item.is_bookmarked,
            is_archived: r.item.is_archived,
        },
    }
}

/// What an upsert leaves in the store and reports: an item already stored
/// under the key is updated in place, a new one is appended with the next
/// identifier, and when no identifier is left nothing changes.
pub open spec fn upsert_outcome(st0: Storage, u: StreamItemUpsertView, st1: Storage, r: Result<StreamItemSave>) -> bool {
    let rows = st0.item_rows();
    match first_index(rows, same_key(u)) {
        Some(k) => {
            let changed = upsert_changed(Some(rows[k]), u);
            let enriched = enrichment_changed(Some(rows[k]), u);
            &&& r == Ok::<StreamItemSave, StorageError>(
                StreamItemSave { id: rows[k].item.id, changed: changed || enriched },
            )
            &&& st1.item_rows() == rows.update(k, updated_row(rows[k], u, changed, enriched))
            &&& st1.next_row_id() == st0.next_row_id()
        },
        None => if st0.next_row_id() < i64::MAX {
            &&& r == Ok::<StreamItemSave, StorageError>(
                StreamItemSave { id: st0.next_row_id(), changed: true },
            )
            &&& st1.item_rows() == rows.push(new_row(u, st0.next_row_id()))
            &&& st1.next_row_id() == st0.next_row_id() + 1
        } else {
            &&& r == Err::<StreamItemSave, StorageError>(StorageError::IdsExhausted)
            &&& st1.item_rows() == rows
            &&& st1.next_row_id() == st0.next_row_id()
        },
    }
}

/// Whether two optional texts hold the same characters.
pub fn opt_text_eq(a: &Option<String>, b: &Option<String>) -> (r: bool)
    ensures
        r == (opt_text(*a) == opt_text(*b)),
{
    match (a, b) {
        (Some(x), Some(y)) => *x == *y,
        (None, None) => true,
        _ => false,
    }
}

fn opt_bool_eq(a: Option<bool>, b: Option<bool>) -> (r: bool)
    ensures
        r == (a == b),
{
    match (a, b) {
        (Some(x), Some(y)) => x == y,
        (None, None) => true,
        _ => false,
    }
}

fn same_relation_kind(a: RelationKind, b: RelationKind) -> (r: bool)
    ensures
        r == (a == b),
{
    match (a, b) {
        (RelationKind::Request, RelationKind::Request) => true,
        (RelationKind::Review, RelationKind::Review) => true,
        (RelationKind::Participant, RelationKind::Participant) => true,
        (RelationKind::Mention, RelationKind::Mention) => true,
        _ => false,
    }
}

fn relation_eq(a: &Relation, b: &Relation) -> (r: bool)
    ensures
        r == (a@ == b@),
{
    same_relation_kind(a.kind, b.kind) && a.login == b.login && opt_text_eq(&a.avatar_url, &b.avatar_url)
        && opt_text_eq(&a.state, &b.state)
}

fn contains_relation(v: &Vec<Relation>, x: &Relation) -> (r: bool)
    ensures
        r == relation_views(v@).contains(x@),
{
    let mut i: usize = 0;
    while i < v.len()
        invariant
            i <= v.len(),
            forall|j: int| 0 <= j < i ==> (#[trigger] v@[j])@ != x@,
        decreases v.len() - i,
    {
        if relation_eq(&v[i], x) {
            assert(relation_views(v@)[i as int] == x@);
            return true;
        }
        i = i + 1;
    }
    assert forall|j: int| 0 <= j < relation_views(v@).len() implies relation_views(v@)[j] != x@ by {
        assert(relation_views(v@)[j] == v@[j]@);
    }
    false
}

/// Whether two lists of relations hold the same set of relations.
fn same_relation_sets(a: &Vec<Relation>, b: &Vec<Relation>) -> (r: bool)
    ensures
        r == (relation_views(a@).to_set() == relation_views(b@).to_set()),
{
    let mut i: usize = 0;
    while i < a.len()
        invariant
            i <= a.len(),
            forall|j: int| 0 <= j < i ==> relation_views(b@).contains((#[trigger] a@[j])@),
        decreases a.len() - i,
    {
        if !contains_relation(b, &a[i]) {
            assert(relation_views(a@).to_set().contains(a@[i as int]@)) by {
                assert(relation_views(a@)[i as int] == a@[i as int]@);
            }
            assert(!relation_views(b@).to_set().contains(a@[i as int]@));
            return false;
        }
        i = i + 1;
    }
    let mut i: usize = 0;
    while i < b.len()
        invariant
            i <= b.len(),
            forall|j: int| 0 <= j < i ==> relation_views(a@).contains((#[trigger] b@[j])@),
        decreases b.len() - i,
    {
        if !contains_relation(a, &b[i]) {
            assert(relation_views(b@).to_set().contains(b@[i as int]@)) by {
                assert(relation_views(b@)[i as int] == b@[i as int]@);
            }
            assert(!relation_views(a@).to_set().contains(b@[i as int]@));
            return false;
        }
        i = i + 1;
    }
    assert forall|x: RelationView| relation_views(a@).to_set().contains(x) == relation_views(b@).to_set().contains(x) by {
        if relation_views(a@).contains(x) {
            let j = choose|j: int| 0 <= j < relation_views(a@).len() && relation_views(a@)[j] == x;
            assert(a@[j]@ == x);
        }
        if relation_views(b@).contains(x) {
            let j = choose|j: int| 0 <= j < relation_views(b@).len() && relation_views(b@)[j] == x;
            assert(b@[j]@ == x);
        }
    }
    assert(relation_views(a@).to_set() =~= relation_views(b@).to_set());
    true
}

fn copy_opt_text(o: &Option<String>) -> (r: Option<String>)
    ensures
        r == *o,
{
    o.clone()
}

/// The relations of an item, as a list.
fn relations_of(
    requests: &Vec<ItemPerson>,
    reviews: &Vec<ItemReview>,
    participants: &Vec<ItemPerson>,
    mentions: &Vec<String>,
) -> (r: Vec<Relation>)
    ensures
        relation_views(r@).to_set() == relation_set(requests@, reviews@, participants@, mentions@),
{
    let ghost a = requests@.map_values(|p: ItemPerson| person_relation(RelationKind::Request, p));
    let ghost b = reviews@.map_values(|r: ItemReview| review_relation(r));
    let ghost c = participants@.map_values(|p: ItemPerson| person_relation(RelationKind::Participant, p));
    let ghost d = mentions@.map_values(|m: String| mention_relation(m));
    let mut out: Vec<Relation> = Vec::new();
    let mut i: usize = 0;
    while i < requests.len()
        invariant
            i <= requests.len(),
            relation_views(out@) == a.take(i as int),
        decreases requests.len() - i,
    {
        let p = &requests[i];
        out.push(Relation {
            kind: RelationKind::Request,
            login: p.login.clone(),
            avatar_url: copy_opt_text(&p.avatar_url),
            state: None,
        });
        i = i + 1;
        assert(relation_views(out@) =~= a.take(i as int));
    }
    assert(a.take(requests.len() as int) =~= a);
    let mut i: usize = 0;
    while i < reviews.len()
        invariant
            i <= reviews.len(),
            relation_views(out@) == a + b.take(i as int),
        decreases reviews.len() - i,
    {
        let p = &reviews[i];
        let rel = Relation {
            kind: RelationKind::Review,
            login: p.login.clone(),
            avatar_url: copy_opt_text(&p.avatar_url),
            state: Some(p.state.clone()),
        };
        assert(rel@ == b[i as int]);
        let ghost before = out@;
        out.push(rel);
        assert(relation_views(out@) =~= relation_views(before).push(rel@));
        assert(a + b.take(i + 1) =~= (a + b.take(i as int)).push(b[i as int]));
        i = i + 1;
    }
    assert(b.take(reviews.len() as int) =~= b);
    let mut i: usize = 0;
    while i < participants.len()
        invariant
            i <= participants.len(),
            relation_views(out@) == a + b + c.take(i as int),
        decreases participants.len() - i,
    {
        let p = &participants[i];
        let rel = Relation {
            kind: RelationKind::Participant,
            login: p.login.clone(),
            avatar_url: copy_opt_text(&p.avatar_url),
            state: None,
        };
        assert(rel@ == c[i as int]);
        let ghost before = out@;
        out.push(rel);
        assert(relation_views(out@) =~= relation_views(before).push(rel@));
        assert(a + b + c.take(i + 1) =~= (a + b + c.take(i as int)).push(c[i as int]));
        i = i + 1;
    }
    assert(c.take(participants.len() as int) =~= c);
    let mut i: usize = 0;
    while i < mentions.len()
        invariant
            i <= mentions.len(),
            relation_views(out@) == a + b + c + d.take(i as int),
        decreases mentions.len() - i,
    {
        let rel = Relation {
            kind: RelationKind::Mention,
            login: mentions[i].clone(),
            avatar_url: None,
            state: None,
        };
        assert(rel@ == d[i as int]);
        let ghost before = out@;
        out.push(rel);
        assert(relation_views(out@) =~= relation_views(before).push(rel@));
        assert(a + b + c + d.take(i + 1) =~= (a + b + c + d.take(i as int)).push(d[i as int]));
        i = i + 1;
    }
    assert(d.take(mentions.len() as int) =~= d);
    out
}

impl Storage {
    /// The position of the stored row of the item that the upsert is keyed
    /// by, if there is one.
    fn find_existing_stream_item(&self, u: &StreamItemUpsert) -> (r: Option<usize>)
        ensures
            match r {
                Some(k) => k < self.item_rows().len() && first_index(self.item_rows(), same_key(u@))
                    == Some(k as int),
                None => first_index(self.item_rows(), same_key(u@)) is None,
            },
    {
        let ghost p = same_key(u@);
        let mut i: usize = 0;
        while i < self.items.len()
            invariant
                i <= self.items.len(),
                forall|j: int| 0 <= j < i ==> !p(#[trigger] stored_views(self.items@)[j]),
            decreases self.items.len() - i,
        {
            let r = &self.items[i];
            assert(stored_views(self.items@)[i as int] == r@);
            if r.host_id == u.host_id && r.item.repository_owner == u.repository_owner
                && r.item.repository_name == u.repository_name && r.item.number == u.number
                && crate::filter::same_kind(r.item.item_type, u.item_type) {
                proof {
                    lemma_first_index_is(stored_views(self.items@), p, i as int);
                }
                return Some(i);
            }
            i = i + 1;
        }
        proof {
            lemma_first_index_none(stored_views(self.items@), p);
        }
        None
    }

    /// Whether the review and participation lists that the upsert brings
    /// differ, as sets, from those stored at position `k`.
    fn enrichment_relations_changed(&self, k: usize, u: &StreamItemUpsert) -> (r: bool)
        requires
            k < self.item_rows().len(),
        ensures
            r == (relation_set(
                self.item_rows()[k as int].item.review_requests,
                self.item_rows()[k as int].item.reviewers,
                self.item_rows()[k as int].participants,
                self.item_rows()[k as int].mentions,
            ) != relation_set(u.review_requests@, u.reviewers@, u.participants@, u.mentions@)),
    {
        let row = &self.items[k];
        assert(self.item_rows()[k as int] == row@);
        let existing = relations_of(
            &row.item.review_requests,
            &row.item.reviewers,
            &row.participants,
            &row.mentions,
        );
        let incoming = relations_of(&u.review_requests, &u.reviewers, &u.participants, &u.mentions);
        !same_relation_sets(&existing, &incoming)
    }

    /// Saves an item that a refresh fetched, reporting whether it changed.
    pub fn upsert_stream_item(&mut self, item: &StreamItemUpsert) -> (r: Result<StreamItemSave>)
        requires
            old(self).wf(),
        ensures
            final(self).wf(),
            final(self).host_rows() == old(self).host_rows(),
            final(self).query_rows() == old(self).query_rows(),
            final(self).filter_rows() == old(self).filter_rows(),
            final(self).match_rows() == old(self).match_rows(),
            upsert_outcome(*old(self), item@, *final(self), r),
    {
        let ghost rows = self.item_rows();
        match self.find_existing_stream_item(item) {
            Some(k) => {
                let existing = &self.items[k];
                assert(rows[k as int] == existing@);
                let changed = text_lt(existing.item.updated_at_github.as_str(), item.updated_at_github.as_str());
                let enriched = if item.graphql_enriched {
                    if !changed {
                        !opt_bool_eq(existing.item.is_merged, item.is_merged) || !opt_text_eq(
                            &existing.item.review_status,
                            &item.review_status,
                        ) || !opt_text_eq(&existing.item.merged_at_github, &item.merged_at_github)
                            || self.enrichment_relations_changed(k, item)
                    } else {
                        true
                    }
                } else {
                    false
                };
                let relations = item.graphql_enriched && (changed || enriched);
                let updated = StoredItem {
                    host_id: existing.host_id,
                    node_id: copy_opt_text(&item.node_id),
                    api_url: copy_opt_text(&item.api_url),
                    participants: if relations {
                        copy_people(&item.participants)
                    } else {
                        copy_people(&existing.participants)
                    },
                    mentions: if relations {
                        copy_strings(&item.mentions)
                    } else {
                        copy_strings(&existing.mentions)
                    },
                    item: StreamItem {
                        id: existing.item.id,
                        repository_owner: existing.item.repository_owner.clone(),
                        repository_name: existing.item.repository_name.clone(),
                        number: existing.item.number,
                        item_type: existing.item.item_type,
                        title: item.title.clone(),
                        author_login: copy_opt_text(&item.author_login),
                        author_avatar_url: copy_opt_text(&item.author_avatar_url),
                        html_url: item.html_url.clone(),
                        state: item.state.clone(),
                        is_draft: item.is_draft,
                        is_merged: if item.graphql_enriched {
                            item.is_merged
                        } else {
                            existing.item.is_merged
                        },
                        review_status: if item.graphql_enriched {
                            copy_opt_text(&item.review_status)
                        } else {
                            copy_opt_text(&existing.item.review_status)
                        },
                        comment_count: item.comment_count,
                        created_at_github: item.created_at_github.clone(),
                        updated_at_github: item.updated_at_github.clone(),
                        closed_at_github: copy_opt_text(&item.closed_at_github),
                        merged_at_github: if item.graphql_enriched {
                            copy_opt_text(&item.merged_at_github)
                        } else {
                            copy_opt_text(&existing.item.merged_at_github)
                        },
                        read_at: copy_opt_text(&existing.item.read_at),
                        labels: if changed {
                            copy_strings(&item.labels)
                        } else {
                            copy_strings(&existing.item.labels)
                        },
                        assignees: if changed {
                            copy_people(&item.assignees)
                        } else {
                            copy_people(&existing.item.assignees)
                        },
                        review_requests: if relations {
                            copy_people(&item.review_requests)
                        } else {
                            copy_people(&existing.item.review_requests)
                        },
                        reviewers: if relations {
                            copy_reviews(&item.reviewers)
                        } else {
                            copy_reviews(&existing.item.reviewers)
                        },
                        is_unread: if changed {
                            true
                        } else {
                            existing.item.is_unread
                        },
                        is_bookmarked: existing.item.is_bookmarked,
                        is_archived: existing.item.is_archived,
                    },
                };
                let id = existing.item.id;
                assert(changed == upsert_changed(Some(rows[k as int]), item@));
                assert(enriched == enrichment_changed(Some(rows[k as int]), item@));
                assert(updated@ == updated_row(rows[k as int], item@, changed, enriched));
                self.items.set(k, updated);
                assert(self.item_rows() =~= rows.update(k as int, updated_row(rows[k as int], item@, changed, enriched)));
                assert forall|j: int| 0 <= j < self.item_rows().len() implies 1 <= (
                #[trigger] self.item_rows()[j]).item.id < self.next_row_id() && self.item_rows()[j].item.id
                    == rows[j].item.id by {
                    assert(self.item_rows()[j].item.id == rows[j].item.id);
                    assert(rows[j] == old(self).item_rows()[j]);
                }
                assert forall|a: int, b: int| 0 <= a < b < self.item_rows().len() implies (
                #[trigger] self.item_rows()[a]).item.id < (#[trigger] self.item_rows()[b]).item.id by {
                    assert(rows[a] == old(self).item_rows()[a]);
                    assert(rows[b] == old(self).item_rows()[b]);
                }
                assert(self.host_rows() == old(self).host_rows());
                assert(self.query_rows() == old(self).query_rows());
                assert(self.filter_rows() == old(self).filter_rows());
                assert(self.wf());
                Ok(StreamItemSave { id, changed: changed || enriched })
            },
            None => {
                let id = self.fresh_id()?;
                let enriched = item.graphql_enriched;
                let row = StoredItem {
                    host_id: item.host_id,
                    node_id: copy_opt_text(&item.node_id),
                    api_url: copy_opt_text(&item.api_url),
                    participants: if enriched {
                        copy_people(&item.participants)
                    } else {
                        Vec::new()
                    },
                    mentions: if enriched {
                        copy_strings(&item.mentions)
                    } else {
                        Vec::new()
                    },
                    item: StreamItem {
                        id,
                        repository_owner: item.repository_owner.clone(),
                        repository_name: item.repository_name.clone(),
                        number: item.number,
                        item_type: item.item_type,
                        title: item.title.clone(),
                        author_login: copy_opt_text(&item.author_login),
                        author_avatar_url: copy_opt_text(&item.author_avatar_url),
                        html_url: item.html_url.clone(),
                        state: item.state.clone(),
                        is_draft: item.is_draft,
                        is_merged: item.is_merged,
                        review_status: copy_opt_text(&item.review_status),
                        comment_count: item.comment_count,
                        created_at_github: item.created_at_github.clone(),
                        updated_at_github: item.updated_at_github.clone(),
                        closed_at_github: copy_opt_text(&item.closed_at_github),
                        merged_at_github: copy_opt_text(&item.merged_at_github),
                        read_at: None,
                        labels: copy_strings(&item.labels),
                        assignees: copy_people(&item.assignees),
                        review_requests: if enriched {
                            copy_people(&item.review_requests)
                        } else {
                            Vec::new()
                        },
                        reviewers: if enriched {
                            copy_reviews(&item.reviewers)
                        } else {
                            Vec::new()
                        },
                        is_unread: true,
                        is_bookmarked: false,
                        is_archived: false,
                    },
                };
                assert(row@ =~= new_row(item@, id));
                self.items.push(row);
                assert(self.item_rows() =~= rows.push(new_row(item@, id)));
                assert forall|j: int| 0 <= j < self.item_rows().len() implies 1 <= (
                #[trigger] self.item_rows()[j]).item.id < self.next_row_id() by {
                    if j < rows.len() {
                        assert(self.item_rows()[j] == rows[j]);
                        assert(rows[j] == old(self).item_rows()[j]);
                    }
                }
                assert forall|a: int, b: int| 0 <= a < b < self.item_rows().len() implies (
                #[trigger] self.item_rows()[a]).item.id < (#[trigger] self.item_rows()[b]).item.id by {
                    assert(self.item_rows()[a] == rows[a]);
                    assert(rows[a] == old(self).item_rows()[a]);
                    if b < rows.len() {
                        assert(self.item_rows()[b] == rows[b]);
                        assert(rows[b] == old(self).item_rows()[b]);
                    }
                }
                proof {
                    crate::seq_util::lemma_first_index_some(rows, same_key(item@));
                }
                assert forall|a: int, b: int| 0 <= a < b < self.item_rows().len() implies !same_item_key(
                    #[trigger] self.item_rows()[a],
                    #[trigger] self.item_rows()[b],
                ) by {
                    assert(self.item_rows()[a] == rows[a]);
                    assert(rows[a] == old(self).item_rows()[a]);
                    if b < rows.len() {
                        assert(self.item_rows()[b] == rows[b]);
                        assert(rows[b] == old(self).item_rows()[b]);
                    } else {
                        assert(!same_key(item@)(rows[a]));
                    }
                }
                assert(self.host_rows() == old(self).host_rows());
                assert(self.query_rows() == old(self).query_rows());
                assert(self.filter_rows() == old(self).filter_rows());
                assert(self.wf());
                Ok(StreamItemSave { id, changed: true })
            },
        }
    }
}

/// Two lists hold the same entries, whatever their order and however often
/// each occurs.
pub open spec fn same_entries<A>(a: Seq<A>, b: Seq<A>) -> bool {
    forall|x: A| a.contains(x) <==> b.contains(x)
}

proof fn lemma_mapped_same<A, B>(a: Seq<A>, b: Seq<A>, f: spec_fn(A) -> B)
    requires
        same_entries(a, b),
    ensures
        forall|y: B| a.map_values(f).contains(y) <==> b.map_values(f).contains(y),
{
    assert forall|y: B| a.map_values(f).contains(y) implies b.map_values(f).contains(y) by {
        let i = choose|i: int| 0 <= i < a.map_values(f).len() && a.map_values(f)[i] == y;
        assert(a.contains(a[i]));
        let j = choose|j: int| 0 <= j < b.len() && b[j] == a[i];
        assert(b.map_values(f)[j] == y);
    }
    assert forall|y: B| b.map_values(f).contains(y) implies a.map_values(f).contains(y) by {
        let i = choose|i: int| 0 <= i < b.map_values(f).len() && b.map_values(f)[i] == y;
        assert(b.contains(b[i]));
        let j = choose|j: int| 0 <= j < a.len() && a[j] == b[i];
        assert(a.map_values(f)[j] == y);
    }
}

proof fn lemma_concat_contains<A>(a: Seq<A>, b: Seq<A>, x: A)
    ensures
        (a + b).contains(x) <==> a.contains(x) || b.contains(x),
{
    if (a + b).contains(x) {
        let i = choose|i: int| 0 <= i < (a + b).len() && (a + b)[i] == x;
        if i < a.len() {
            assert(a[i] == x);
        } else {
            assert(b[i - a.len()] == x);
        }
    }
    if a.contains(x) {
        let i = choose|i: int| 0 <= i < a.len() && a[i] == x;
        assert((a + b)[i] == x);
    }
    if b.contains(x) {
        let i = choose|i: int| 0 <= i < b.len() && b[i] == x;
        assert((a + b)[a.len() + i] == x);
    }
}

/// Comparing relations ignores order and repetition: lists that hold the
/// same entries give the same set of relations.
pub proof fn lemma_relation_set_ignores_order(
    requests: Seq<ItemPerson>,
    reviews: Seq<ItemReview>,
    participants: Seq<ItemPerson>,
    mentions: Seq<String>,
    requests2: Seq<ItemPerson>,
    reviews2: Seq<ItemReview>,
    participants2: Seq<ItemPerson>,
    mentions2: Seq<String>,
)
    requires
        same_entries(requests, requests2),
        same_entries(reviews, reviews2),
        same_entries(participants, participants2),
        same_entries(mentions, mentions2),
    ensures
        relation_set(requests, reviews, participants, mentions) == relation_set(
            requests2,
            reviews2,
            participants2,
            mentions2,
        ),
{
    let fq = |p: ItemPerson| person_relation(RelationKind::Request, p);
    let fr = |r: ItemReview| review_relation(r);
    let fp = |p: ItemPerson| person_relation(RelationKind::Participant, p);
    let fm = |m: String| mention_relation(m);
    lemma_mapped_same(requests, requests2, fq);
    lemma_mapped_same(reviews, reviews2, fr);
    lemma_mapped_same(participants, participants2, fp);
    lemma_mapped_same(mentions, mentions2, fm);
    let a = requests.map_values(fq) + reviews.map_values(fr) + participants.map_values(fp) + mentions.map_values(fm);
    let b = requests2.map_values(fq) + reviews2.map_values(fr) + participants2.map_values(fp) + mentions2.map_values(
        fm,
    );
    assert forall|x: RelationView| a.contains(x) <==> b.contains(x) by {
        lemma_concat_contains(requests.map_values(fq), reviews.map_values(fr), x);
        lemma_concat_contains(requests.map_values(fq) + reviews.map_values(fr), participants.map_values(fp), x);
        lemma_concat_contains(
            requests.map_values(fq) + reviews.map_values(fr) + participants.map_values(fp),
            mentions.map_values(fm),
            x,
        );
        lemma_concat_contains(requests2.map_values(fq), reviews2.map_values(fr), x);
        lemma_concat_contains(requests2.map_values(fq) + reviews2.map_values(fr), participants2.map_values(fp), x);
        lemma_concat_contains(
            requests2.map_values(fq) + reviews2.map_values(fr) + participants2.map_values(fp),
            mentions2.map_values(fm),
            x,
        );
    }
    assert(a.to_set() =~= b.to_set());
}

/// Whether an upsert brings review and participation changes does not
/// depend on the order of its lists or on entries repeated in them.
pub proof fn lemma_enrichment_ignores_order(
    existing: Option<StoredItemView>,
    u: StreamItemUpsertView,
    u2: StreamItemUpsertView,
)
    requires
        u2 == (StreamItemUpsertView {
            review_requests: u2.review_requests,
            reviewers: u2.reviewers,
            participants: u2.participants,
            mentions: u2.mentions,
            ..u
        }),
        same_entries(u.review_requests, u2.review_requests),
        same_entries(u.reviewers, u2.reviewers),
        same_entries(u.participants, u2.participants),
        same_entries(u.mentions, u2.mentions),
    ensures
        enrichment_changed(existing, u2) == enrichment_changed(existing, u),
{
    lemma_relation_set_ignores_order(
        u.review_requests,
        u.reviewers,
        u.participants,
        u.mentions,
        u2.review_requests,
        u2.reviewers,
        u2.participants,
        u2.mentions,
    );
}

/// An item that the host updated since it was stored is unread again after
/// the upsert, whatever its read state was, and keeps its identifier, its
/// bookmark and its archive state; the upsert reports a change.
pub proof fn lemma_upsert_of_newer_item_marks_it_unread(
    st0: Storage,
    u: StreamItemUpsertView,
    st1: Storage,
    r: Result<StreamItemSave>,
    k: int,
)
    requires
        st0.wf(),
        upsert_outcome(st0, u, st1, r),
        0 <= k < st0.item_rows().len(),
        st0.item_rows()[k].host_id == u.host_id,
        st0.item_rows()[k].item.repository_owner@ == u.repository_owner@,
        st0.item_rows()[k].item.repository_name@ == u.repository_name@,
        st0.item_rows()[k].item.number == u.number,
        st0.item_rows()[k].item.item_type == u.item_type,
        seq_lt(st0.item_rows()[k].item.updated_at_github@, u.updated_at_github@),
    ensures
        r == Ok::<StreamItemSave, StorageError>(StreamItemSave { id: st0.item_rows()[k].item.id, changed: true }),
        st1.item_rows().len() == st0.item_rows().len(),
        st1.item_rows()[k].item.id == st0.item_rows()[k].item.id,
        st1.item_rows()[k].item.is_unread,
        st1.item_rows()[k].item.is_bookmarked == st0.item_rows()[k].item.is_bookmarked,
        st1.item_rows()[k].item.is_archived == st0.item_rows()[k].item.is_archived,
        st1.item_rows()[k].item.updated_at_github == u.updated_at_github,
{
    let rows = st0.item_rows();
    assert forall|j: int| 0 <= j < k implies !same_key(u)(#[trigger] rows[j]) by {
        assert(!same_item_key(rows[j], rows[k]));
    }
    lemma_first_index_is(rows, same_key(u), k);
}

} // verus!
