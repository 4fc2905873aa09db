//! The sample data of the demonstration: items of every kind and state, two
//! saved query definitions, and the matches that a simulated refresh finds.

#![verifier::loop_isolation(false)]

use vstd::prelude::*;
use vstd::string::*;
use crate::models::{
    ImportedFilterStream, ImportedSavedQuery, ItemPerson, ItemReview, ItemType, StreamItem,
    StreamSource, query_views,
};
use crate::storage::items::{StreamItemUpsert, StreamItemUpsertView};
use crate::storage::{
    QueryMatch, QueryRow, Result, Storage, StorageError, StoredItemView, is_matched,
    saved_query_list, store_is,
};
use crate::text::{decimal, decimal_string};
use crate::models::{FilterStream, ImportedSavedQueryView, StreamItemView, definition_views};
use crate::seq_util::first_index;
use crate::storage::items::same_key;
use crate::storage::{def_span, imported_filter_rows, imported_query_rows, query_of_host};

verus! {

/// When every sample happened.
pub const FIXTURE_TIME: &'static str = "2026-09-01T12:00:00Z";

/// Where the sample repository lives.
pub const FIXTURE_URL: &'static str = "https://github.example.test/demo/catalog";

/// The remainder of `d` by 6, with the sign of `d`, as Rust computes it.
pub open spec fn variant_of(id: i64) -> int {
    let d = id - 1;
    if d >= 0 {
        d % 6
    } else {
        -((-d) % 6)
    }
}

/// The kind of the sample of a variant.
pub open spec fn sample_kind(v: int) -> ItemType {
    if v == 0 {
        ItemType::Issue
    } else if v == 1 {
        ItemType::PullRequest
    } else if v == 2 {
        ItemType::PullRequest
    } else if v == 3 {
        ItemType::Discussion
    } else if v == 4 {
        ItemType::Issue
    } else {
        ItemType::PullRequest
    }
}

/// The title of the sample of a variant.
pub open spec fn sample_title(v: int) -> Seq<char> {
    if v == 0 {
        "Unread issue with labels"@
    } else if v == 1 {
        "Draft pull request awaiting review"@
    } else if v == 2 {
        "Merged pull request with a bookmark"@
    } else if v == 3 {
        "Discussion with the community"@
    } else if v == 4 {
        "Closed and archived issue"@
    } else {
        "Open pull request with review feedback"@
    }
}

/// The text of an optional text field.
pub open spec fn opt_view(o: Option<String>) -> Option<Seq<char>> {
    match o {
        Some(s) => Some(s@),
        None => None,
    }
}

/// The sample item `id`: its variant, `(id - 1) % 6`, decides its kind,
/// title and state; every sample is in the repository demo/catalog, has the
/// same author, assignee, labels and times, and no avatar.
pub open spec fn is_sample_item(item: StreamItem, id: i64) -> bool {
    let v = variant_of(id);
    let is_pr = sample_kind(v) == ItemType::PullRequest;
    let closed = v == 2 || v == 4;
    &&& item.id == id
    &&& item.repository_owner@ == "demo"@
    &&& item.repository_name@ == "catalog"@
    &&& item.number == id
    &&& item.item_type == sample_kind(v)
    &&& item.title@ == sample_title(v)
    &&& opt_view(item.author_login) == Some("sample-author"@)
    &&& item.author_avatar_url is None
    &&& item.html_url@ == FIXTURE_URL@ + "/items/"@ + decimal(id as int)
    &&& item.state@ == (if closed { "closed"@ } else { "open"@ })
    &&& item.is_draft == (if is_pr { Some(v == 1) } else { None })
    &&& item.is_merged == (if is_pr { Some(v == 2) } else { None })
    &&& opt_view(item.review_status) == (if is_pr {
        Some(if v == 2 { "approved"@ } else { "review_required"@ })
    } else {
        None
    })
    &&& item.comment_count == id
    &&& item.created_at_github@ == FIXTURE_TIME@
    &&& item.updated_at_github@ == FIXTURE_TIME@
    &&& opt_view(item.closed_at_github) == (if closed { Some(FIXTURE_TIME@) } else { None })
    &&& opt_view(item.merged_at_github) == (if v == 2 { Some(FIXTURE_TIME@) } else { None })
    &&& opt_view(item.read_at) == (if v % 2 != 0 { Some(FIXTURE_TIME@) } else { None })
    &&& item.labels@.len() == 2
    &&& item.labels@[0]@ == "enhancement"@
    &&& item.labels@[1]@ == "needs-discussion"@
    &&& item.assignees@.len() == 1
    &&& item.assignees@[0].login@ == "sample-assignee"@
    &&& item.assignees@[0].avatar_url is None
    &&& item.review_requests@.len() == (if is_pr { 1int } else { 0 })
    &&& (is_pr ==> item.review_requests@[0].login@ == "sample-requested"@
        && item.review_requests@[0].avatar_url is None)
    &&& item.reviewers@.len() == (if is_pr { 1int } else { 0 })
    &&& (is_pr ==> item.reviewers@[0].login@ == "sample-maintainer"@
        && item.reviewers@[0].avatar_url is None && item.reviewers@[0].state@ == "approved"@)
    &&& item.is_unread == (v % 2 == 0)
    &&& item.is_bookmarked == (v == 2)
    &&& item.is_archived == (v == 4)
}

fn fixture_time() -> (s: String)
    ensures
        s@ == FIXTURE_TIME@,
{
    String::from_str(FIXTURE_TIME)
}

/// The sample item `id`.
pub fn sample_item(id: i64) -> (item: StreamItem)
    requires
        id > i64::MIN,
    ensures
        is_sample_item(item, id),
{
    let d: i128 = id as i128 - 1;
    let variant: i128 = if d >= 0 {
        d % 6
    } else {
        -((-d) % 6)
    };
    let (item_type, title) = if variant == 0 {
        (ItemType::Issue, "Unread issue with labels")
    } else if variant == 1 {
        (ItemType::PullRequest, "Draft pull request awaiting review")
    } else if variant == 2 {
        (ItemType::PullRequest, "Merged pull request with a bookmark")
    } else if variant == 3 {
        (ItemType::Discussion, "Discussion with the community")
    } else if variant == 4 {
        (ItemType::Issue, "Closed and archived issue")
    } else {
        (ItemType::PullRequest, "Open pull request with review feedback")
    };
    let is_pr = match item_type {
        ItemType::PullRequest => true,
        _ => false,
    };
    let closed = variant == 2 || variant == 4;
    let html_url = String::from_str(FIXTURE_URL).concat("/items/").concat(decimal_string(id).as_str());
    let mut labels: Vec<String> = Vec::new();
    labels.push(String::from_str("enhancement"));
    labels.push(String::from_str("needs-discussion"));
    let mut assignees: Vec<ItemPerson> = Vec::new();
    assignees.push(ItemPerson { login: String::from_str("sample-assignee"), avatar_url: None });
    let mut review_requests: Vec<ItemPerson> = Vec::new();
    let mut reviewers: Vec<ItemReview> = Vec::new();
    if is_pr {
        review_requests.push(ItemPerson { login: String::from_str("sample-requested"), avatar_url: None });
        reviewers.push(
            ItemReview {
                login: String::from_str("sample-maintainer"),
                avatar_url: None,
                state: String::from_str("approved"),
            },
        );
    }
    let item = StreamItem {
        id,
        repository_owner: String::from_str("demo"),
        repository_name: String::from_str("catalog"),
        number: id,
        item_type,
        title: String::from_str(title),
        author_login: Some(String::from_str("sample-author")),
        author_avatar_url: None,
        html_url,
        state: if closed {
            String::from_str("closed")
        } else {
            String::from_str("open")
        },
        is_draft: if is_pr {
            Some(variant == 1)
        } else {
            None
        },
        is_merged: if is_pr {
            Some(variant == 2)
        } else {
            None
        },
        review_status: if is_pr {
            Some(
                if variant == 2 {
                    String::from_str("approved")
                } else {
                    String::from_str("review_required")
                },
            )
        } else {
            None
        },
        comment_count: id,
        created_at_github: fixture_time(),
        updated_at_github: fixture_time(),
        closed_at_github: if closed {
            Some(fixture_time())
        } else {
            None
        },
        merged_at_github: if variant == 2 {
            Some(fixture_time())
        } else {
            None
        },
        read_at: if variant % 2 != 0 {
            Some(fixture_time())
        } else {
            None
        },
        labels,
        assignees,
        review_requests,
        reviewers,
        is_unread: variant % 2 == 0,
        is_bookmarked: variant == 2,
        is_archived: variant == 4,
    };
    assert(variant == variant_of(id));
    item
}

/// The built-in saved query definitions: "Sample work", issues and pull
/// requests of demo/catalog with a "Pull requests" filter stream (`is:pr`),
/// then "Community", its discussions; both enabled.
pub open spec fn is_sample_definitions(defs: Seq<ImportedSavedQueryView>) -> bool {
    &&& defs.len() == 2
    &&& defs[0].name@ == "Sample work"@
    &&& defs[0].query@ == "repo:demo/catalog"@
    &&& defs[0].source == StreamSource::IssueOrPullRequest
    &&& defs[0].enabled
    &&& defs[0].position == 0
    &&& defs[0].filter_streams.len() == 1
    &&& defs[0].filter_streams[0].name@ == "Pull requests"@
    &&& defs[0].filter_streams[0].filter_query@ == "is:pr"@
    &&& defs[0].filter_streams[0].enabled
    &&& defs[0].filter_streams[0].position == 0
    &&& defs[1].name@ == "Community"@
    &&& defs[1].query@ == "repo:demo/catalog"@
    &&& defs[1].source == StreamSource::Discussion
    &&& defs[1].enabled
    &&& defs[1].position == 1
    &&& defs[1].filter_streams.len() == 0
}

/// The built-in saved query definitions.
pub fn definitions() -> (defs: Vec<ImportedSavedQuery>)
    ensures
        is_sample_definitions(definition_views(defs@)),
{
    let mut filters: Vec<ImportedFilterStream> = Vec::new();
    filters.push(
        ImportedFilterStream {
            name: String::from_str("Pull requests"),
            filter_query: String::from_str("is:pr"),
            enabled: true,
            position: 0,
        },
    );
    let mut defs: Vec<ImportedSavedQuery> = Vec::new();
    defs.push(
        ImportedSavedQuery {
            name: String::from_str("Sample work"),
            query: String::from_str("repo:demo/catalog"),
            source: StreamSource::IssueOrPullRequest,
            enabled: true,
            position: 0,
            filter_streams: filters,
        },
    );
    defs.push(
        ImportedSavedQuery {
            name: String::from_str("Community"),
            query: String::from_str("repo:demo/catalog"),
            source: StreamSource::Discussion,
            enabled: true,
            position: 1,
            filter_streams: Vec::new(),
        },
    );
    defs
}

/// The upsert that saves a sample item for the host, with its review
/// details as fetched and no participants or mentions.
pub open spec fn sample_upsert(item: StreamItem, host_id: i64) -> StreamItemUpsertView {
    StreamItemUpsertView {
        host_id: host_id,
        node_id: None,
        repository_owner: item.repository_owner,
        repository_name: item.repository_name,
        number: item.number,
        item_type: item.item_type,
        title: item.title,
        author_login: item.author_login,
        author_avatar_url: item.author_avatar_url,
        html_url: item.html_url,
        api_url: None,
        state: item.state,
        is_draft: item.is_draft,
        is_merged: item.is_merged,
        review_status: item.review_status,
        comment_count: item.comment_count,
        created_at_github: item.created_at_github,
        updated_at_github: item.updated_at_github,
        closed_at_github: item.closed_at_github,
        merged_at_github: item.merged_at_github,
        labels: item.labels@,
        assignees: item.assignees@,
        review_requests: item.review_requests@,
        reviewers: item.reviewers@,
        participants: Seq::empty(),
        mentions: Seq::empty(),
        graphql_enriched: true,
    }
}

/// The upsert that saves a sample item for the host.
pub fn as_upsert(item: StreamItem, host_id: i64) -> (u: StreamItemUpsert)
    ensures
        u@ == sample_upsert(item, host_id),
{
    let u = StreamItemUpsert {
        host_id,
        node_id: None,
        api_url: None,
        participants: Vec::new(),
        mentions: Vec::new(),
        graphql_enriched: true,
        repository_owner: item.repository_owner,
        repository_name: item.repository_name,
        number: item.number,
        item_type: item.item_type,
        title: item.title,
        author_login: item.author_login,
        author_avatar_url: item.author_avatar_url,
        html_url: item.html_url,
        state: item.state,
        is_draft: item.is_draft,
        is_merged: item.is_merged,
        review_status: item.review_status,
        comment_count: item.comment_count,
        created_at_github: item.created_at_github,
        updated_at_github: item.updated_at_github,
        closed_at_github: item.closed_at_github,
        merged_at_github: item.merged_at_github,
        labels: item.labels,
        assignees: item.assignees,
        review_requests: item.review_requests,
        reviewers: item.reviewers,
    };
    assert(u@.participants =~= Seq::<ItemPerson>::empty());
    assert(u@.mentions =~= Seq::<String>::empty());
    u
}

/// Whether a saved query with the source finds items of the kind: a
/// discussion search finds discussions, the others everything else.
pub open spec fn source_accepts(source: StreamSource, kind: ItemType) -> bool {
    match source {
        StreamSource::Discussion => kind == ItemType::Discussion,
        StreamSource::IssueOrPullRequest | StreamSource::ProjectV2 => kind != ItemType::Discussion,
    }
}

/// Whether the saved query row finds the item as the match.
pub open spec fn finds_pair(q: QueryRow, x: StoredItemView, m: QueryMatch) -> bool {
    &&& q.enabled
    &&& q.id == m.saved_query_id
    &&& x.item.id == m.stream_item_id
    &&& source_accepts(q.source, x.item.item_type)
}

/// Whether a pass over the queries `qs` and items `xs` that has done the
/// first `qn` queries, and of query `qn` the first `sn` items, found the match.
pub open spec fn found_before(
    qs: Seq<QueryRow>,
    xs: Seq<StoredItemView>,
    qn: int,
    sn: int,
    m: QueryMatch,
) -> bool {
    exists|a: int, b: int|
        ((0 <= a < qn && 0 <= b < xs.len()) || (a == qn && 0 <= b < sn)) && #[trigger] finds_pair(
            qs[a],
            xs[b],
            m,
        )
}

proof fn lemma_found_item_step(qs: Seq<QueryRow>, xs: Seq<StoredItemView>, qn: int, sn: int, m: QueryMatch)
    requires
        0 <= sn < xs.len(),
        0 <= qn,
    ensures
        found_before(qs, xs, qn, sn + 1, m) <==> found_before(qs, xs, qn, sn, m) || finds_pair(
            qs[qn],
            xs[sn],
            m,
        ),
{
    if found_before(qs, xs, qn, sn + 1, m) {
        let (a, b) = choose|a: int, b: int|
            ((0 <= a < qn && 0 <= b < xs.len()) || (a == qn && 0 <= b < sn + 1)) && #[trigger] finds_pair(
                qs[a],
                xs[b],
                m,
            );
        if !(a == qn && b == sn) {
            assert(found_before(qs, xs, qn, sn, m));
        }
    }
    if finds_pair(qs[qn], xs[sn], m) {
        assert(found_before(qs, xs, qn, sn + 1, m));
    }
    if found_before(qs, xs, qn, sn, m) {
        let (a, b) = choose|a: int, b: int|
            ((0 <= a < qn && 0 <= b < xs.len()) || (a == qn && 0 <= b < sn)) && #[trigger] finds_pair(
                qs[a],
                xs[b],
                m,
            );
        assert(found_before(qs, xs, qn, sn + 1, m));
    }
}

proof fn lemma_found_query_step(qs: Seq<QueryRow>, xs: Seq<StoredItemView>, qn: int, m: QueryMatch)
    requires
        0 <= qn,
    ensures
        found_before(qs, xs, qn, xs.len() as int, m) <==> found_before(qs, xs, qn + 1, 0, m),
{
    if found_before(qs, xs, qn, xs.len() as int, m) {
        let (a, b) = choose|a: int, b: int|
            ((0 <= a < qn && 0 <= b < xs.len()) || (a == qn && 0 <= b < xs.len())) && #[trigger] finds_pair(
                qs[a],
                xs[b],
                m,
            );
        assert(found_before(qs, xs, qn + 1, 0, m));
    }
    if found_before(qs, xs, qn + 1, 0, m) {
        let (a, b) = choose|a: int, b: int|
            ((0 <= a < qn + 1 && 0 <= b < xs.len()) || (a == qn + 1 && 0 <= b < 0)) && #[trigger] finds_pair(
                qs[a],
                xs[b],
                m,
            );
        assert(found_before(qs, xs, qn, xs.len() as int, m));
    }
}

/// The matches that a simulated refresh records: each enabled saved query
/// of the host finds each item of the host whose kind its source accepts.
pub open spec fn refresh_finds(st: Storage, host_id: i64, m: QueryMatch) -> bool {
    exists|q: int, i: int|
        0 <= q < st.query_rows().len() && 0 <= i < st.item_rows().len() && st.query_rows()[q].host_id
            == host_id && st.item_rows()[i].host_id == host_id && #[trigger] finds_pair(
            st.query_rows()[q],
            st.item_rows()[i],
            m,
        )
}

proof fn lemma_found_all(st: Storage, host_id: i64, m: QueryMatch)
    ensures
        found_before(
            st.query_rows().filter(|q: QueryRow| q.host_id == host_id),
            st.item_rows().filter(|x: StoredItemView| x.host_id == host_id),
            st.query_rows().filter(|q: QueryRow| q.host_id == host_id).len() as int,
            0,
            m,
        ) <==> refresh_finds(st, host_id, m),
{
    let qpred = |q: QueryRow| q.host_id == host_id;
    let ipred = |x: StoredItemView| x.host_id == host_id;
    let qrows = st.query_rows().filter(qpred);
    let irows = st.item_rows().filter(ipred);
    crate::seq_util::lemma_filter_members(st.query_rows(), qpred);
    crate::seq_util::lemma_filter_members(st.item_rows(), ipred);
    if found_before(qrows, irows, qrows.len() as int, 0, m) {
        let (a, b) = choose|a: int, b: int|
            ((0 <= a < qrows.len() && 0 <= b < irows.len()) || (a == qrows.len() && 0 <= b < 0))
                && #[trigger] finds_pair(qrows[a], irows[b], m);
        assert(st.query_rows().contains(qrows[a]));
        assert(st.item_rows().contains(irows[b]));
        let q = choose|q: int| 0 <= q < st.query_rows().len() && st.query_rows()[q] == qrows[a];
        let i = choose|i: int| 0 <= i < st.item_rows().len() && st.item_rows()[i] == irows[b];
        assert(qpred(qrows[a]));
        assert(ipred(irows[b]));
        assert(finds_pair(st.query_rows()[q], st.item_rows()[i], m));
    }
    if refresh_finds(st, host_id, m) {
        let (q, i) = choose|q: int, i: int|
            0 <= q < st.query_rows().len() && 0 <= i < st.item_rows().len() && st.query_rows()[q].host_id
                == host_id && st.item_rows()[i].host_id == host_id && #[trigger] finds_pair(
                st.query_rows()[q],
                st.item_rows()[i],
                m,
            );
        crate::seq_util::lemma_filter_keeps(st.query_rows(), qpred, q);
        crate::seq_util::lemma_filter_keeps(st.item_rows(), ipred, i);
        let a = choose|a: int| 0 <= a < qrows.len() && qrows[a] == st.query_rows()[q];
        let b = choose|b: int| 0 <= b < irows.len() && irows[b] == st.item_rows()[i];
        assert(finds_pair(qrows[a], irows[b], m));
    }
}

/// Simulates a refresh: records, for every enabled saved query of the host,
/// every item of the host that its source accepts. Nothing else changes.
pub fn refresh_matches(storage: &mut Storage, host_id: i64) -> (r: Result<()>)
    requires
        old(storage).wf(),
    ensures
        r is Ok,
        final(storage).wf(),
        final(storage).host_rows() == old(storage).host_rows(),
        final(storage).item_rows() == old(storage).item_rows(),
        final(storage).query_rows() == old(storage).query_rows(),
        final(storage).filter_rows() == old(storage).filter_rows(),
        final(storage).next_row_id() == old(storage).next_row_id(),
        forall|m: QueryMatch|
            #[trigger] final(storage).match_rows().contains(m) <==> old(storage).match_rows().contains(m)
                || refresh_finds(*old(storage), host_id, m),
{
    let samples = storage.item_keys(host_id);
    let queries = storage.list_saved_queries(host_id);
    let ghost st0 = *storage;
    let ghost qrows = st0.query_rows().filter(|q: QueryRow| q.host_id == host_id);
    let ghost irows = st0.item_rows().filter(|x: StoredItemView| x.host_id == host_id);
    assert(query_views(queries@).len() == queries@.len());
    assert(saved_query_list(st0.query_rows(), st0.filter_rows(), host_id).len() == qrows.len());
    assert(queries@.len() == qrows.len());
    assert(samples@.len() == irows.len());
    let mut qi: usize = 0;
    while qi < queries.len()
        invariant
            qi <= queries.len(),
            st0 == *old(storage),
            storage.wf(),
            store_is(*storage, st0.host_rows(), st0.item_rows(), st0.query_rows(), st0.filter_rows(), storage.match_rows(), st0.next_row_id()),
            forall|m: QueryMatch|
                #[trigger] storage.match_rows().contains(m) <==> st0.match_rows().contains(m)
                    || found_before(qrows, irows, qi as int, 0, m),
        decreases queries.len() - qi,
    {
        assert(queries@[qi as int]@ == saved_query_list(st0.query_rows(), st0.filter_rows(), host_id)[qi as int]);
        assert(query_views(queries@)[qi as int] == queries@[qi as int]@);
        let q = &queries[qi];
        assert(q.enabled == qrows[qi as int].enabled && q.id == qrows[qi as int].id && q.source == qrows[qi as int].source);
        let mut si: usize = 0;
        while si < samples.len()
            invariant
                si <= samples.len(),
                qi < queries.len(),
                st0 == *old(storage),
                storage.wf(),
                store_is(*storage, st0.host_rows(), st0.item_rows(), st0.query_rows(), st0.filter_rows(), storage.match_rows(), st0.next_row_id()),
                forall|m: QueryMatch|
                    #[trigger] storage.match_rows().contains(m) <==> st0.match_rows().contains(m)
                        || found_before(qrows, irows, qi as int, si as int, m),
            decreases samples.len() - si,
        {
            let (item_id, kind) = samples[si];
            assert(item_id == irows[si as int].item.id && kind == irows[si as int].item.item_type);
            let accepts = q.enabled && match q.source {
                StreamSource::Discussion => crate::filter::same_kind(kind, ItemType::Discussion),
                _ => !crate::filter::same_kind(kind, ItemType::Discussion),
            };
            let ghost before = storage.match_rows();
            if accepts {
                storage.record_saved_query_match(q.id, item_id);
            }
            proof {
                let hit = QueryMatch { saved_query_id: q.id, stream_item_id: item_id };
                assert forall|m: QueryMatch|
                    #[trigger] storage.match_rows().contains(m) <==> st0.match_rows().contains(m)
                        || found_before(qrows, irows, qi as int, si + 1, m) by {
                    lemma_found_item_step(qrows, irows, qi as int, si as int, m);
                    assert(finds_pair(qrows[qi as int], irows[si as int], m) <==> (accepts && m == hit));
                    if accepts && !is_matched(before, q.id, item_id) {
                        assert(storage.match_rows() == before.push(hit));
                        assert(storage.match_rows().contains(m) <==> before.contains(m) || m == hit) by {
                            if storage.match_rows().contains(m) {
                                let k = choose|k: int| 0 <= k < storage.match_rows().len() && storage.match_rows()[k] == m;
                                if k < before.len() {
                                    assert(before[k] == m);
                                }
                            }
                            if before.contains(m) {
                                let k = choose|k: int| 0 <= k < before.len() && before[k] == m;
                                assert(storage.match_rows()[k] == m);
                            }
                            if m == hit {
                                assert(storage.match_rows()[before.len() as int] == m);
                            }
                        }
                    }
                }
            }
            si = si + 1;
        }
        proof {
            assert forall|m: QueryMatch|
                #[trigger] storage.match_rows().contains(m) <==> st0.match_rows().contains(m)
                    || found_before(qrows, irows, qi + 1, 0, m) by {
                lemma_found_query_step(qrows, irows, qi as int, m);
            }
        }
        qi = qi + 1;
    }
    proof {
        assert forall|m: QueryMatch|
            #[trigger] storage.match_rows().contains(m) <==> st0.match_rows().contains(m)
                || refresh_finds(st0, host_id, m) by {
            lemma_found_all(st0, host_id, m);
        }
    }
    Ok(())
}


/// One line of the long title of the seventh sample, which repeats it three
/// times to show how the layout wraps it.
pub const LONG_TITLE_LINE: &'static str = "Long title: 日本語の表示と折り返し — review layout with labels and assignees. ";

/// The title that seeding gives the sample `n`: the seventh has the long
/// title, the others the title of their variant.
pub open spec fn seed_title(n: i64) -> Seq<char> {
    if n == 7 {
        LONG_TITLE_LINE@ + LONG_TITLE_LINE@ + LONG_TITLE_LINE@
    } else {
        sample_title(variant_of(n))
    }
}

/// The labels of the seventh sample: "sample-label-1" to "sample-label-8".
pub open spec fn is_many_labels(labels: Seq<String>) -> bool {
    &&& labels.len() == 8
    &&& forall|j: int| 0 <= j < 8 ==> (#[trigger] labels[j])@ == "sample-label-"@ + decimal(j + 1)
}

fn many_labels() -> (labels: Vec<String>)
    ensures
        is_many_labels(labels@),
{
    let mut labels: Vec<String> = Vec::new();
    let mut j: i64 = 1;
    while j <= 8
        invariant
            1 <= j <= 9,
            labels@.len() == j - 1,
            forall|t: int| 0 <= t < j - 1 ==> (#[trigger] labels@[t])@ == "sample-label-"@ + decimal(t + 1),
        decreases 9 - j,
    {
        labels.push(String::from_str("sample-label-").concat(decimal_string(j).as_str()));
        j = j + 1;
    }
    labels
}

/// A row of the host that seeding made for the sample `n`: with no node or
/// API identifier, in demo/catalog, with the sample's number, kind, title, author, link, state, review
/// details, comment count and times, no author avatar, and the sample's read,
/// bookmark and archive state. (Its labels, assignees and review lists are
/// the sample's when the row is new; a row that was there keeps its own
/// until the sample's update time moves past it.)
pub open spec fn is_seeded_row(r: StoredItemView, host_id: i64, n: i64) -> bool {
    let v = variant_of(n);
    let is_pr = sample_kind(v) == ItemType::PullRequest;
    let closed = v == 2 || v == 4;
    let item = r.item;
    &&& r.host_id == host_id
    &&& r.node_id is None
    &&& r.api_url is None
    &&& item.repository_owner@ == "demo"@
    &&& item.repository_name@ == "catalog"@
    &&& item.number == n
    &&& item.item_type == sample_kind(v)
    &&& item.title@ == seed_title(n)
    &&& opt_view(item.author_login) == Some("sample-author"@)
    &&& item.author_avatar_url is None
    &&& item.html_url@ == FIXTURE_URL@ + "/items/"@ + decimal(n as int)
    &&& item.state@ == (if closed { "closed"@ } else { "open"@ })
    &&& item.is_draft == (if is_pr { Some(v == 1) } else { None })
    &&& item.is_merged == (if is_pr { Some(v == 2) } else { None })
    &&& opt_view(item.review_status) == (if is_pr {
        Some(if v == 2 { "approved"@ } else { "review_required"@ })
    } else {
        None
    })
    &&& item.comment_count == n
    &&& item.created_at_github@ == FIXTURE_TIME@
    &&& item.updated_at_github@ == FIXTURE_TIME@
    &&& opt_view(item.closed_at_github) == (if closed { Some(FIXTURE_TIME@) } else { None })
    &&& opt_view(item.merged_at_github) == (if v == 2 { Some(FIXTURE_TIME@) } else { None })
    &&& item.is_unread == (v % 2 == 0)
    &&& item.is_bookmarked == (v == 2)
    &&& item.is_archived == (v == 4)
}

/// The store holds a seeded row of the host for the sample `n`.
pub open spec fn has_seeded(rows: Seq<StoredItemView>, host_id: i64, n: i64) -> bool {
    exists|k: int| 0 <= k < rows.len() && is_seeded_row(#[trigger] rows[k], host_id, n)
}

/// None of the people has an avatar.
pub open spec fn people_avatar_free(ps: Seq<ItemPerson>) -> bool {
    forall|j: int| 0 <= j < ps.len() ==> (#[trigger] ps[j]).avatar_url is None
}

/// None of the reviews has an avatar.
pub open spec fn reviews_avatar_free(rs: Seq<ItemReview>) -> bool {
    forall|j: int| 0 <= j < rs.len() ==> (#[trigger] rs[j]).avatar_url is None
}

/// The item shows no avatar: neither its author's nor those of the people
/// it names.
pub open spec fn avatar_free(item: StreamItemView) -> bool {
    &&& item.author_avatar_url is None
    &&& people_avatar_free(item.assignees)
    &&& people_avatar_free(item.review_requests)
    &&& reviews_avatar_free(item.reviewers)
}

/// No row of the store holds an avatar, participants included.
pub open spec fn rows_avatar_free(rows: Seq<StoredItemView>) -> bool {
    forall|k: int|
        0 <= k < rows.len() ==> avatar_free((#[trigger] rows[k]).item) && people_avatar_free(rows[k].participants)
}

/// A seeded row that seeding made anew: besides what every seeded row holds,
/// it has the sample's labels, assignee and review lists, no read time, and
/// no participants or mentions.
pub open spec fn is_fresh_seeded_row(r: StoredItemView, host_id: i64, n: i64) -> bool {
    let v = variant_of(n);
    let is_pr = sample_kind(v) == ItemType::PullRequest;
    let item = r.item;
    &&& is_seeded_row(r, host_id, n)
    &&& item.read_at is None
    &&& r.participants.len() == 0
    &&& r.mentions.len() == 0
    &&& if n == 7 {
        is_many_labels(item.labels)
    } else {
        &&& item.labels.len() == 2
        &&& item.labels[0]@ == "enhancement"@
        &&& item.labels[1]@ == "needs-discussion"@
    }
    &&& item.assignees.len() == 1
    &&& item.assignees[0].login@ == "sample-assignee"@
    &&& item.assignees[0].avatar_url is None
    &&& item.review_requests.len() == (if is_pr { 1int } else { 0 })
    &&& (is_pr ==> item.review_requests[0].login@ == "sample-requested"@
        && item.review_requests[0].avatar_url is None)
    &&& item.reviewers.len() == (if is_pr { 1int } else { 0 })
    &&& (is_pr ==> item.reviewers[0].login@ == "sample-maintainer"@ && item.reviewers[0].avatar_url is None
        && item.reviewers[0].state@ == "approved"@)
}

/// The host has no item among the rows.
pub open spec fn no_items_of(rows: Seq<StoredItemView>, host_id: i64) -> bool {
    forall|j: int| 0 <= j < rows.len() ==> (#[trigger] rows[j]).host_id != host_id
}

/// The host has no item of the number `n` among the rows.
pub open spec fn lacks_number(rows: Seq<StoredItemView>, host_id: i64, n: i64) -> bool {
    forall|j: int| 0 <= j < rows.len() ==> !(#[trigger] rows[j].host_id == host_id && rows[j].item.number == n)
}

/// Saves the sample `n` for the host and gives it the sample's read,
/// bookmark and archive state; the rows of other numbers stay as they were.
#[verifier::rlimit(40)]
fn seed_item(storage: &mut Storage, host_id: i64, n: i64) -> (r: Result<()>)
    requires
        old(storage).wf(),
        1 <= n <= 7,
    ensures
        final(storage).wf(),
        final(storage).host_rows() == old(storage).host_rows(),
        final(storage).query_rows() == old(storage).query_rows(),
        final(storage).filter_rows() == old(storage).filter_rows(),
        final(storage).match_rows() == old(storage).match_rows(),
        old(storage).next_row_id() <= final(storage).next_row_id() <= old(storage).next_row_id() + 1,
        old(storage).next_row_id() < i64::MAX ==> r is Ok,
        r is Err ==> r == Err::<(), StorageError>(StorageError::IdsExhausted),
        r is Ok ==> has_seeded(final(storage).item_rows(), host_id, n),
        rows_avatar_free(old(storage).item_rows()) ==> rows_avatar_free(final(storage).item_rows()),
        old(storage).item_rows().len() <= final(storage).item_rows().len(),
        forall|j: int|
            0 <= j < old(storage).item_rows().len() && old(storage).item_rows()[j].item.number != n
                ==> #[trigger] final(storage).item_rows()[j] == old(storage).item_rows()[j],
        r is Ok && lacks_number(old(storage).item_rows(), host_id, n) ==> {
            &&& final(storage).item_rows().len() == old(storage).item_rows().len() + 1
            &&& final(storage).item_rows().drop_last() == old(storage).item_rows()
            &&& is_fresh_seeded_row(final(storage).item_rows().last(), host_id, n)
            &&& final(storage).item_rows().last().item.id == old(storage).next_row_id()
            &&& final(storage).next_row_id() == old(storage).next_row_id() + 1
        },
{
    let mut item = sample_item(n);
    if n == 7 {
        item.title = String::from_str(LONG_TITLE_LINE).concat(LONG_TITLE_LINE).concat(LONG_TITLE_LINE);
        item.labels = many_labels();
    }
    let unread = item.is_unread;
    let bookmarked = item.is_bookmarked;
    let archived = item.is_archived;
    assert(item.title@ == seed_title(n));
    let u = as_upsert(item, host_id);
    assert(people_avatar_free(u@.assignees) && people_avatar_free(u@.review_requests)
        && reviews_avatar_free(u@.reviewers) && people_avatar_free(u@.participants));
    let ghost rows0 = storage.item_rows();
    let saved = match storage.upsert_stream_item(&u) {
        Ok(saved) => saved,
        Err(e) => {
            return Err(e);
        },
    };
    let ghost rows1 = storage.item_rows();
    let ghost k: int = match first_index(rows0, same_key(u@)) {
        Some(k) => k,
        None => rows0.len() as int,
    };
    proof {
        crate::seq_util::lemma_first_index_some(rows0, same_key(u@));
        if lacks_number(rows0, host_id, n) {
            assert forall|j: int| 0 <= j < rows0.len() implies !same_key(u@)(#[trigger] rows0[j]) by {
                assert(!(rows0[j].host_id == host_id && rows0[j].item.number == n));
            }
            crate::seq_util::lemma_first_index_none(rows0, same_key(u@));
            assert(k == rows0.len());
        }
        assert(0 <= k < rows1.len());
        assert(rows1[k].item.id == saved.id);
        assert(is_seeded_row(
            StoredItemView {
                item: StreamItemView {
                    is_unread: unread,
                    is_bookmarked: bookmarked,
                    is_archived: archived,
                    ..rows1[k].item
                },
                ..rows1[k]
            },
            host_id,
            n,
        ));
        assert forall|j: int| 0 <= j < rows1.len() && j != k implies #[trigger] rows1[j].item.id != saved.id by {
            if j < k {
                assert(rows1[j].item.id < rows1[k].item.id);
            } else {
                assert(rows1[k].item.id < rows1[j].item.id);
            }
        }
        assert forall|j: int| 0 <= j < rows0.len() && rows0[j].item.number != n implies #[trigger] rows1[j] == rows0[j] by {
            if j == k {
                assert(same_key(u@)(rows0[j]));
            }
        }
    }
    storage.set_read_state(saved.id, unread);
    storage.set_bookmarked(saved.id, bookmarked);
    storage.set_archived(saved.id, archived);
    proof {
        let rows2 = storage.item_rows();
        assert(rows2.len() == rows1.len());
        if lacks_number(rows0, host_id, n) {
            assert(rows2.drop_last() =~= rows0) by {
                assert forall|j: int| 0 <= j < rows0.len() implies rows2[j] == rows0[j] by {
                    assert(rows1[j] == rows0[j]);
                    assert(rows1[j].item.id != saved.id);
                }
            }
            assert(is_fresh_seeded_row(rows2[k], host_id, n));
        }
        if rows_avatar_free(rows0) {
            assert forall|j: int| 0 <= j < rows2.len() implies avatar_free((#[trigger] rows2[j]).item)
                && people_avatar_free(rows2[j].participants) by {
                if j != k {
                    assert(rows1[j] == rows0[j]);
                }
            }
        }
        assert(is_seeded_row(rows2[k], host_id, n));
        assert forall|j: int| 0 <= j < rows0.len() && rows0[j].item.number != n implies #[trigger] rows2[j] == rows0[j] by {
            assert(rows1[j] == rows0[j]);
            if j == k {
                assert(same_key(u@)(rows0[j]));
            }
            assert(rows1[j].item.id != saved.id);
        }
    }
    Ok(())
}

/// Seeds the host with the sample saved queries and the seven samples, then
/// records the matches of a simulated refresh.
pub fn seed(storage: &mut Storage, host_id: i64) -> (r: Result<()>)
    requires
        old(storage).wf(),
    ensures
        final(storage).wf(),
        final(storage).host_rows() == old(storage).host_rows(),
        old(storage).next_row_id() + 10 <= i64::MAX ==> r is Ok,
        r is Err ==> r == Err::<(), StorageError>(StorageError::IdsExhausted),
        rows_avatar_free(old(storage).item_rows()) ==> rows_avatar_free(final(storage).item_rows()),
        r is Ok && no_items_of(old(storage).item_rows(), host_id) ==> {
            let k0 = old(storage).item_rows().len() as int;
            &&& final(storage).item_rows().len() == k0 + 7
            &&& final(storage).item_rows().take(k0) == old(storage).item_rows()
            &&& forall|m: i64|
                1 <= m <= 7 ==> #[trigger] is_fresh_seeded_row(final(storage).item_rows()[k0 + m - 1], host_id, m)
                    && final(storage).item_rows()[k0 + m - 1].item.id == old(storage).next_row_id() + 2 + m
            &&& final(storage).next_row_id() == old(storage).next_row_id() + 10
        },
        r is Ok ==> {
            let first = old(storage).next_row_id() as int;
            &&& exists|defs: Seq<ImportedSavedQueryView>|
                #[trigger] is_sample_definitions(defs) && final(storage).query_rows()
                    == old(storage).query_rows().filter(|q: QueryRow| q.host_id != host_id)
                    + imported_query_rows(defs, host_id, first)
                    && final(storage).filter_rows() == old(storage).filter_rows().filter(
                    |f: FilterStream| !query_of_host(old(storage).query_rows(), f.saved_query_id, host_id),
                ) + imported_filter_rows(defs, first)
            &&& forall|n: i64| 1 <= n <= 7 ==> #[trigger] has_seeded(final(storage).item_rows(), host_id, n)
            &&& forall|m: QueryMatch|
                #[trigger] final(storage).match_rows().contains(m) <==> old(storage).match_rows().filter(
                    |m: QueryMatch| !query_of_host(old(storage).query_rows(), m.saved_query_id, host_id),
                ).contains(m) || refresh_finds(*final(storage), host_id, m)
        },
{
    let defs = definitions();
    proof {
        let dv = definition_views(defs@);
        assert(dv[0] == defs@[0]@ && dv[1] == defs@[1]@);
        assert(dv.drop_last().drop_last() =~= Seq::<ImportedSavedQueryView>::empty());
        assert(def_span(dv.drop_last().drop_last()) == 0);
        assert(dv.drop_last().last() == dv[0]);
        assert(def_span(dv.drop_last()) == 2);
        assert(def_span(dv) == 3);
    }
    match storage.replace_saved_queries(host_id, &defs) {
        Ok(_) => {},
        Err(e) => {
            return Err(e);
        },
    }
    let ghost after_import = *storage;
    let mut n: i64 = 1;
    while n <= 7
        invariant
            1 <= n <= 8,
            storage.wf(),
            storage.host_rows() == after_import.host_rows(),
            storage.query_rows() == after_import.query_rows(),
            storage.filter_rows() == after_import.filter_rows(),
            storage.match_rows() == after_import.match_rows(),
            after_import.next_row_id() <= storage.next_row_id() <= after_import.next_row_id() + n - 1,
            forall|m: i64| 1 <= m < n ==> #[trigger] has_seeded(storage.item_rows(), host_id, m),
            rows_avatar_free(old(storage).item_rows()) ==> rows_avatar_free(storage.item_rows()),
            after_import.item_rows() == old(storage).item_rows(),
            no_items_of(old(storage).item_rows(), host_id) ==> {
                let k0 = old(storage).item_rows().len() as int;
                &&& storage.item_rows().len() == k0 + n - 1
                &&& storage.item_rows().take(k0) == old(storage).item_rows()
                &&& forall|m: i64|
                    1 <= m < n ==> #[trigger] is_fresh_seeded_row(storage.item_rows()[k0 + m - 1], host_id, m)
                        && storage.item_rows()[k0 + m - 1].item.id == old(storage).next_row_id() + 2 + m
                &&& storage.next_row_id() == old(storage).next_row_id() + 2 + n
            },
        decreases 8 - n,
    {
        let ghost rows0 = storage.item_rows();
        proof {
            if no_items_of(old(storage).item_rows(), host_id) {
                let k0 = old(storage).item_rows().len() as int;
                assert forall|j: int| 0 <= j < rows0.len() implies !(#[trigger] rows0[j].host_id == host_id
                    && rows0[j].item.number == n) by {
                    if j < k0 {
                        assert(rows0[j] == rows0.take(k0)[j]);
                    } else {
                        let m = (j - k0 + 1) as i64;
                        assert(is_fresh_seeded_row(rows0[k0 + m - 1], host_id, m));
                    }
                }
            }
        }
        match seed_item(storage, host_id, n) {
            Ok(()) => {},
            Err(e) => {
                return Err(e);
            },
        }
        proof {
            if no_items_of(old(storage).item_rows(), host_id) {
                let k0 = old(storage).item_rows().len() as int;
                let rows1 = storage.item_rows();
                assert(rows1.take(k0) =~= rows0.take(k0)) by {
                    assert(rows1.drop_last() == rows0);
                }
                assert forall|m: i64| 1 <= m < n + 1 implies #[trigger] is_fresh_seeded_row(
                    rows1[k0 + m - 1],
                    host_id,
                    m,
                ) && rows1[k0 + m - 1].item.id == old(storage).next_row_id() + 2 + m by {
                    if m < n {
                        assert(rows1[k0 + m - 1] == rows1.drop_last()[k0 + m - 1]);
                        assert(rows1.drop_last()[k0 + m - 1] == rows0[k0 + m - 1]);
                        assert(is_fresh_seeded_row(rows0[k0 + m - 1], host_id, m));
                    } else {
                        assert(rows1[k0 + m - 1] == rows1.last());
                    }
                }
            }
            assert forall|m: i64| 1 <= m < n + 1 implies #[trigger] has_seeded(storage.item_rows(), host_id, m) by {
                if m < n {
                    assert(has_seeded(rows0, host_id, m));
                    let k = choose|k: int| 0 <= k < rows0.len() && is_seeded_row(#[trigger] rows0[k], host_id, m);
                    assert(storage.item_rows()[k] == rows0[k]);
                }
            }
        }
        n = n + 1;
    }
    let ghost before_refresh = *storage;
    let _ = refresh_matches(storage, host_id);
    proof {
        assert forall|m: QueryMatch| refresh_finds(before_refresh, host_id, m) == refresh_finds(*storage, host_id, m) by {}
        assert(is_sample_definitions(definition_views(defs@)));
    }
    Ok(())
}

/// A simulated refresh finds for each saved query only the sample items
/// appropriate to its source: for a discussion search only discussions, for
/// an issue, pull request or project search only items that are not
/// discussions. Every match that it adds pairs an enabled saved query of the
/// host with an item of the host.
pub proof fn lemma_refresh_matches_by_source(
    st0: Storage,
    host_id: i64,
    st1: Storage,
    m: QueryMatch,
    i: int,
)
    requires
        st0.wf(),
        forall|x: QueryMatch|
            #[trigger] st1.match_rows().contains(x) <==> st0.match_rows().contains(x) || refresh_finds(
                st0,
                host_id,
                x,
            ),
        st1.match_rows().contains(m),
        !st0.match_rows().contains(m),
        0 <= i < st0.item_rows().len(),
        st0.item_rows()[i].item.id == m.stream_item_id,
    ensures
        st0.item_rows()[i].host_id == host_id,
        exists|q: int|
            0 <= q < st0.query_rows().len() && (#[trigger] st0.query_rows()[q]).id == m.saved_query_id
                && st0.query_rows()[q].host_id == host_id && st0.query_rows()[q].enabled && (
            st0.query_rows()[q].source == StreamSource::Discussion <==> st0.item_rows()[i].item.item_type
                == ItemType::Discussion),
{
    let (q, i2) = choose|q: int, i2: int|
        0 <= q < st0.query_rows().len() && 0 <= i2 < st0.item_rows().len() && st0.query_rows()[q].host_id
            == host_id && st0.item_rows()[i2].host_id == host_id && #[trigger] finds_pair(
            st0.query_rows()[q],
            st0.item_rows()[i2],
            m,
        );
    if i2 < i {
        assert(st0.item_rows()[i2].item.id < st0.item_rows()[i].item.id);
    } else if i < i2 {
        assert(st0.item_rows()[i].item.id < st0.item_rows()[i2].item.id);
    }
    assert(st0.query_rows()[q].id == m.saved_query_id);
}

} // verus!
