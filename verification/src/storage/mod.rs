//! The session store of hosts, stream items with their local state, saved
//! queries, filter streams and the matches that refreshes record.

#![verifier::loop_isolation(false)]

pub mod items;

use vstd::prelude::*;
use crate::models::{
    FilterStream, HostConfig, HostKind, ItemPerson, ItemType, SavedQuery, SavedQueryView,
    StreamItem, StreamItemView, StreamSource, ImportedSavedQuery, LibraryCounts, LibraryView,
    Selection, SortOrder, item_views, ImportedSavedQueryView, definition_views, query_views,
    exported_filters, snapshot,
};
use crate::seq_util::{first_index, lemma_first_index_is, lemma_first_index_none};
use crate::filter::{
    FilterTerm, TermSpec, filter_text_matches, parse_filter, term_views, terms_match,
    terms_match_item,
};
use crate::ordering::{sort_items, sorted_items};

verus! {

/// Why a change to the store was refused.
#[derive(Clone, Copy, Debug, PartialEq, Eq, Structural)]
pub enum StorageError {
    /// Every row identifier has been handed out.
    IdsExhausted,
    /// The saved query that a filter stream was to join does not exist.
    UnknownSavedQuery,
}

pub type Result<T> = core::result::Result<T, StorageError>;

#[derive(Clone, Debug, PartialEq)]
pub struct HostRow {
    pub id: i64,
    pub hostname: String,
    pub kind: HostKind,
}

/// A stored item: what the stream shows, plus what only change detection
/// reads.
pub struct StoredItem {
    pub host_id: i64,
    pub node_id: Option<String>,
    pub api_url: Option<String>,
    pub participants: Vec<ItemPerson>,
    pub mentions: Vec<String>,
    pub item: StreamItem,
}

pub struct StoredItemView {
    pub host_id: i64,
    pub node_id: Option<String>,
    pub api_url: Option<String>,
    pub participants: Seq<ItemPerson>,
    pub mentions: Seq<String>,
    pub item: StreamItemView,
}

impl View for StoredItem {
    type V = StoredItemView;

    open spec fn view(&self) -> StoredItemView {
        StoredItemView {
            host_id: self.host_id,
            node_id: self.node_id,
            api_url: self.api_url,
            participants: self.participants@,
            mentions: self.mentions@,
            item: self.item@,
        }
    }
}

/// A saved query as the store keeps it; its filter streams are rows of their
/// own.
#[derive(Clone, Debug, PartialEq)]
pub struct QueryRow {
    pub id: i64,
    pub host_id: i64,
    pub name: String,
    pub query: String,
    pub source: StreamSource,
    pub enabled: bool,
    pub position: i64,
}

/// A refresh found the item for the saved query.
#[derive(Clone, Copy, Debug, PartialEq, Eq, Structural)]
pub struct QueryMatch {
    pub saved_query_id: i64,
    pub stream_item_id: i64,
}

/// The local state flags of an item.
#[derive(Clone, Copy, Debug, PartialEq, Eq, Structural)]
pub enum ItemFlag {
    Unread,
    Bookmarked,
    Archived,
}

/// The store. Every row identifier comes from one counter, so that no two
/// rows of any table share one.
pub struct Storage {
    hosts: Vec<HostRow>,
    items: Vec<StoredItem>,
    queries: Vec<QueryRow>,
    filters: Vec<FilterStream>,
    matches: Vec<QueryMatch>,
    next_id: i64,
}

/// The views of a sequence of stored items.
pub open spec fn stored_views(s: Seq<StoredItem>) -> Seq<StoredItemView> {
    s.map_values(|r: StoredItem| r@)
}

/// Whether two item rows have the same key: host, repository, number and
/// kind.
pub open spec fn same_item_key(a: StoredItemView, b: StoredItemView) -> bool {
    &&& a.host_id == b.host_id
    &&& a.item.repository_owner@ == b.item.repository_owner@
    &&& a.item.repository_name@ == b.item.repository_name@
    &&& a.item.number == b.item.number
    &&& a.item.item_type == b.item.item_type
}

/// An item row with one state flag set to `value`.
pub open spec fn with_flag(r: StoredItemView, flag: ItemFlag, value: bool) -> StoredItemView {
    match flag {
        ItemFlag::Unread => StoredItemView { item: StreamItemView { is_unread: value, ..r.item }, ..r },
        ItemFlag::Bookmarked => StoredItemView {
            item: StreamItemView { is_bookmarked: value, ..r.item },
            ..r
        },
        ItemFlag::Archived => StoredItemView {
            item: StreamItemView { is_archived: value, ..r.item },
            ..r
        },
    }
}

/// The item rows after setting a flag of the item `id`.
pub open spec fn set_flag_rows(
    rows: Seq<StoredItemView>,
    id: i64,
    flag: ItemFlag,
    value: bool,
) -> Seq<StoredItemView> {
    rows.map_values(|r: StoredItemView| if r.item.id == id { with_flag(r, flag, value) } else { r })
}

/// Whether a host row carries the host name.
pub open spec fn host_named(name: Seq<char>) -> spec_fn(HostRow) -> bool {
    |h: HostRow| h.hostname@ == name
}

/// The position after the last one used by the host's saved queries; 0 for
/// the first.
pub open spec fn next_query_position(rows: Seq<QueryRow>, host_id: i64) -> i64
    decreases rows.len(),
{
    if rows.len() == 0 {
        0
    } else {
        let p = next_query_position(rows.drop_last(), host_id);
        let r = rows.last();
        if r.host_id == host_id && r.position >= p {
            if r.position < i64::MAX {
                (r.position + 1) as i64
            } else {
                i64::MAX
            }
        } else {
            p
        }
    }
}

/// The position after the last one used by the filter streams of a saved
/// query; 0 for the first.
pub open spec fn next_filter_position(rows: Seq<FilterStream>, saved_query_id: i64) -> i64
    decreases rows.len(),
{
    if rows.len() == 0 {
        0
    } else {
        let p = next_filter_position(rows.drop_last(), saved_query_id);
        let r = rows.last();
        if r.saved_query_id == saved_query_id && r.position >= p {
            if r.position < i64::MAX {
                (r.position + 1) as i64
            } else {
                i64::MAX
            }
        } else {
            p
        }
    }
}

/// The saved query rows after editing the query `id`.
pub open spec fn edited_queries(
    rows: Seq<QueryRow>,
    id: i64,
    name: String,
    query: String,
    source: StreamSource,
    enabled: bool,
) -> Seq<QueryRow> {
    rows.map_values(
        |q: QueryRow|
            if q.id == id {
                QueryRow { name: name, query: query, source: source, enabled: enabled, ..q }
            } else {
                q
            },
    )
}

/// An edit of the query `id` changes what it searches for.
pub open spec fn definition_changed(
    rows: Seq<QueryRow>,
    id: i64,
    query: Seq<char>,
    source: StreamSource,
) -> bool {
    exists|i: int|
        0 <= i < rows.len() && (#[trigger] rows[i]).id == id && (rows[i].query@ != query
            || rows[i].source != source)
}

/// What editing the saved query `id` leaves in the store: the query takes
/// the new name, search, source and enabled state; when the search or the
/// source changed, the matches recorded for it go; nothing else changes.
pub open spec fn query_edit_outcome(
    st0: Storage,
    id: i64,
    name: String,
    query: String,
    source: StreamSource,
    enabled: bool,
    st1: Storage,
) -> bool {
    &&& st1.host_rows() == st0.host_rows()
    &&& st1.item_rows() == st0.item_rows()
    &&& st1.filter_rows() == st0.filter_rows()
    &&& st1.next_row_id() == st0.next_row_id()
    &&& st1.query_rows() == edited_queries(st0.query_rows(), id, name, query, source, enabled)
    &&& st1.match_rows() == if definition_changed(st0.query_rows(), id, query@, source) {
        st0.match_rows().filter(|m: QueryMatch| m.saved_query_id != id)
    } else {
        st0.match_rows()
    }
}

/// The filter stream rows after editing the filter stream `id`.
pub open spec fn edited_filters(
    rows: Seq<FilterStream>,
    id: i64,
    name: String,
    filter_query: String,
    enabled: bool,
) -> Seq<FilterStream> {
    rows.map_values(
        |f: FilterStream|
            if f.id == id {
                FilterStream { name: name, filter_query: filter_query, enabled: enabled, ..f }
            } else {
                f
            },
    )
}

/// Whether `j` is the neighbour of position `k` among the rows of the same
/// host: the nearest one before it when `up`, after it otherwise.
pub open spec fn is_neighbor(rows: Seq<QueryRow>, k: int, j: int, up: bool) -> bool {
    &&& 0 <= k < rows.len()
    &&& 0 <= j < rows.len()
    &&& rows[j].host_id == rows[k].host_id
    &&& if up {
        &&& j < k
        &&& forall|t: int| j < t < k ==> (#[trigger] rows[t]).host_id != rows[k].host_id
    } else {
        &&& k < j
        &&& forall|t: int| k < t < j ==> (#[trigger] rows[t]).host_id != rows[k].host_id
    }
}

/// The saved query rows after moving the query `id` one place up or down
/// among the queries of its host: it trades places and positions with its
/// neighbour, if it has one.
pub open spec fn moved_queries(rows: Seq<QueryRow>, id: i64, up: bool) -> Seq<QueryRow> {
    match first_index(rows, |q: QueryRow| q.id == id) {
        None => rows,
        Some(k) => if exists|j: int| is_neighbor(rows, k, j, up) {
            let j = choose|j: int| is_neighbor(rows, k, j, up);
            rows.update(j, QueryRow { position: rows[j].position, ..rows[k] }).update(
                k,
                QueryRow { position: rows[k].position, ..rows[j] },
            )
        } else {
            rows
        },
    }
}

/// How many identifiers importing the definitions takes: one per saved query
/// and one per filter stream.
pub open spec fn def_span(defs: Seq<ImportedSavedQueryView>) -> int
    decreases defs.len(),
{
    if defs.len() == 0 {
        0
    } else {
        def_span(defs.drop_last()) + 1 + defs.last().filter_streams.len()
    }
}

/// The filter stream rows that one imported definition yields, for the saved
/// query `qid`, numbered from `qid + 1`.
pub open spec fn imported_filters_of(d: ImportedSavedQueryView, qid: int) -> Seq<FilterStream> {
    Seq::new(
        d.filter_streams.len(),
        |j: int|
            FilterStream {
                id: (qid + 1 + j) as i64,
                saved_query_id: qid as i64,
                name: d.filter_streams[j].name,
                filter_query: d.filter_streams[j].filter_query,
                enabled: d.filter_streams[j].enabled,
                position: d.filter_streams[j].position,
            },
    )
}

/// The saved query rows that importing the definitions for a host yields,
/// identifiers being handed out from `first` on, each query before its
/// filter streams.
pub open spec fn imported_query_rows(
    defs: Seq<ImportedSavedQueryView>,
    host_id: i64,
    first: int,
) -> Seq<QueryRow>
    decreases defs.len(),
{
    if defs.len() == 0 {
        Seq::empty()
    } else {
        let d = defs.last();
        imported_query_rows(defs.drop_last(), host_id, first).push(
            QueryRow {
                id: (first + def_span(defs.drop_last())) as i64,
                host_id: host_id,
                name: d.name,
                query: d.query,
                source: d.source,
                enabled: d.enabled,
                position: d.position,
            },
        )
    }
}

/// The filter stream rows that importing the definitions yields.
pub open spec fn imported_filter_rows(defs: Seq<ImportedSavedQueryView>, first: int) -> Seq<
    FilterStream,
>
    decreases defs.len(),
{
    if defs.len() == 0 {
        Seq::empty()
    } else {
        imported_filter_rows(defs.drop_last(), first) + imported_filters_of(
            defs.last(),
            first + def_span(defs.drop_last()),
        )
    }
}

/// Whether `qid` is a saved query of the host.
pub open spec fn query_of_host(rows: Seq<QueryRow>, qid: i64, host_id: i64) -> bool {
    exists|i: int| 0 <= i < rows.len() && (#[trigger] rows[i]).id == qid && rows[i].host_id == host_id
}

/// Whether an item belongs to a library view, by its own state.
pub open spec fn in_library_view(view: LibraryView, item: StreamItemView) -> bool {
    match view {
        LibraryView::Inbox => !item.is_archived,
        LibraryView::Unread => item.is_unread && !item.is_archived,
        LibraryView::Bookmarked => item.is_bookmarked,
        LibraryView::Archived => item.is_archived,
    }
}

/// Whether an enabled saved query of the host found the item.
pub open spec fn matched_by_enabled_query(
    queries: Seq<QueryRow>,
    matches: Seq<QueryMatch>,
    host_id: i64,
    item_id: i64,
) -> bool {
    exists|i: int|
        0 <= i < queries.len() && (#[trigger] queries[i]).host_id == host_id && queries[i].enabled
            && is_matched(matches, queries[i].id, item_id)
}

/// Whether a local filter admits an item; no filter admits every item.
pub open spec fn local_admits(local: Option<Seq<TermSpec>>, item: StreamItemView) -> bool {
    match local {
        None => true,
        Some(ts) => terms_match(ts, item),
    }
}

/// Whether a refresh found the item for the saved query `qid`, and the item
/// is not archived.
pub open spec fn query_member(matches: Seq<QueryMatch>, qid: i64, r: StoredItemView) -> bool {
    is_matched(matches, qid, r.item.id) && !r.item.is_archived
}

/// Whether the item is in a selected view: the library views show the host's
/// items that an enabled saved query found, a saved query its own items, a
/// filter stream those of its saved query that match its filter.
pub open spec fn selection_member(
    queries: Seq<QueryRow>,
    filters: Seq<FilterStream>,
    matches: Seq<QueryMatch>,
    host_id: i64,
    selection: Selection,
    r: StoredItemView,
) -> bool {
    match selection {
        Selection::Library(view) => r.host_id == host_id && matched_by_enabled_query(
            queries,
            matches,
            host_id,
            r.item.id,
        ) && in_library_view(view, r.item),
        Selection::SavedQuery(qid) => query_member(matches, qid, r),
        Selection::FilterStream(fid) => match first_index(filters, filter_has_id(fid)) {
            Some(k) => query_member(matches, filters[k].saved_query_id, r) && filter_text_matches(
                filters[k].filter_query@,
                r.item,
            ),
            None => false,
        },
    }
}

/// The items of a selected view, as the store holds them, before ordering.
pub open spec fn selected_items(
    st: Storage,
    host_id: i64,
    selection: Selection,
    local: Option<Seq<TermSpec>>,
) -> Seq<StreamItemView> {
    st.item_rows().filter(
        |r: StoredItemView|
            selection_member(st.query_rows(), st.filter_rows(), st.match_rows(), host_id, selection, r)
                && local_admits(local, r.item),
    ).map_values(|r: StoredItemView| r.item)
}

/// `r` lists the items of a selected view in the given order.
pub open spec fn is_listing(
    r: Seq<StreamItemView>,
    st: Storage,
    host_id: i64,
    selection: Selection,
    local: Option<Seq<TermSpec>>,
    order: SortOrder,
) -> bool {
    &&& r.to_multiset() == selected_items(st, host_id, selection, local).to_multiset()
    &&& sorted_items(r, order)
}

/// The saved queries of a host as the sidebar lists them, each with its
/// filter streams.
pub open spec fn saved_query_list(
    queries: Seq<QueryRow>,
    filters: Seq<FilterStream>,
    host_id: i64,
) -> Seq<SavedQueryView> {
    queries.filter(|q: QueryRow| q.host_id == host_id).map_values(
        |q: QueryRow|
            SavedQueryView {
                id: q.id,
                name: q.name,
                query: q.query,
                source: q.source,
                enabled: q.enabled,
                position: q.position,
                filter_streams: filters.filter(|f: FilterStream| f.saved_query_id == q.id),
            },
    )
}

/// Whether a filter stream row has the identifier.
pub open spec fn filter_has_id(id: i64) -> spec_fn(FilterStream) -> bool {
    |f: FilterStream| f.id == id
}

/// Whether a refresh recorded the item for the saved query.
pub open spec fn is_matched(matches: Seq<QueryMatch>, query_id: i64, item_id: i64) -> bool {
    matches.contains(QueryMatch { saved_query_id: query_id, stream_item_id: item_id })
}

/// The store holds exactly the given rows and counter.
pub open spec fn store_is(
    st: Storage,
    hosts: Seq<HostRow>,
    items: Seq<StoredItemView>,
    queries: Seq<QueryRow>,
    filters: Seq<FilterStream>,
    matches: Seq<QueryMatch>,
    next: i64,
) -> bool {
    &&& st.host_rows() == hosts
    &&& st.item_rows() == items
    &&& st.query_rows() == queries
    &&& st.filter_rows() == filters
    &&& st.match_rows() == matches
    &&& st.next_row_id() == next
}

impl Storage {
    pub closed spec fn host_rows(&self) -> Seq<HostRow> {
        self.hosts@
    }

    pub closed spec fn item_rows(&self) -> Seq<StoredItemView> {
        stored_views(self.items@)
    }

    pub closed spec fn query_rows(&self) -> Seq<QueryRow> {
        self.queries@
    }

    pub closed spec fn filter_rows(&self) -> Seq<FilterStream> {
        self.filters@
    }

    pub closed spec fn match_rows(&self) -> Seq<QueryMatch> {
        self.matches@
    }

    /// The next identifier that the store hands out.
    pub closed spec fn next_row_id(&self) -> i64 {
        self.next_id
    }

    /// Every identifier in use lies below the next one to hand out, the
    /// items are in the order of their identifiers, every filter stream
    /// belongs to an identifier already handed out, and no two items share
    /// their key (host, repository, number and kind).
    pub open spec fn wf(&self) -> bool {
        &&& 1 <= self.next_row_id()
        &&& forall|i: int|
            0 <= i < self.host_rows().len() ==> 1 <= (#[trigger] self.host_rows()[i]).id
                < self.next_row_id()
        &&& forall|i: int|
            0 <= i < self.item_rows().len() ==> 1 <= (#[trigger] self.item_rows()[i]).item.id
                < self.next_row_id()
        &&& forall|i: int, j: int|
            0 <= i < j < self.item_rows().len() ==> (#[trigger] self.item_rows()[i]).item.id < (
            #[trigger] self.item_rows()[j]).item.id
        &&& forall|i: int|
            0 <= i < self.query_rows().len() ==> 1 <= (#[trigger] self.query_rows()[i]).id
                < self.next_row_id()
        &&& forall|i: int|
            0 <= i < self.filter_rows().len() ==> 1 <= (#[trigger] self.filter_rows()[i]).id
                < self.next_row_id()
        &&& forall|i: int|
            0 <= i < self.filter_rows().len() ==> (#[trigger] self.filter_rows()[i]).saved_query_id
                < self.next_row_id()
        &&& forall|i: int, j: int|
            0 <= i < j < self.item_rows().len() ==> !same_item_key(
                #[trigger] self.item_rows()[i],
                #[trigger] self.item_rows()[j],
            )
    }

    /// A store whose rows of hosts, items, queries and filter streams are
    /// those of a well-formed store, and whose counter has not gone back, is
    /// well-formed.
    proof fn lemma_wf_frame(&self, before: &Storage)
        requires
            before.wf(),
            self.hosts == before.hosts,
            self.item_rows() == before.item_rows(),
            self.queries == before.queries,
            self.filters == before.filters,
            self.next_id >= before.next_id,
        ensures
            self.wf(),
    {
        assert(self.host_rows() == before.host_rows());
        assert(self.query_rows() == before.query_rows());
        assert(self.filter_rows() == before.filter_rows());
    }

    /// An empty store.
    pub fn in_memory() -> (r: Result<Storage>)
        ensures
            r matches Ok(s) && s.wf() && s.host_rows() == Seq::<HostRow>::empty()
                && s.item_rows() == Seq::<StoredItemView>::empty() && s.query_rows() == Seq::<
                QueryRow,
            >::empty() && s.filter_rows() == Seq::<FilterStream>::empty() && s.match_rows()
                == Seq::<QueryMatch>::empty() && s.next_row_id() == 1,
    {
        let s = Storage {
            hosts: Vec::new(),
            items: Vec::new(),
            queries: Vec::new(),
            filters: Vec::new(),
            matches: Vec::new(),
            next_id: 1,
        };
        assert(s.item_rows() =~= Seq::<StoredItemView>::empty());
        Ok(s)
    }

    /// The file that backs the store: none, since the store lives in memory
    /// only, which reads as the empty path.
    pub fn file_path(&self) -> (p: String)
        ensures
            p@ == Seq::<char>::empty(),
    {
        String::new()
    }

    /// Hands out the next identifier.
    fn fresh_id(&mut self) -> (r: Result<i64>)
        ensures
            old(self).next_id < i64::MAX ==> r == Ok::<i64, StorageError>(old(self).next_id)
                && final(self).next_id == old(self).next_id + 1,
            old(self).next_id == i64::MAX ==> r == Err::<i64, StorageError>(
                StorageError::IdsExhausted,
            ) && final(self).next_id == old(self).next_id,
            final(self).hosts == old(self).hosts,
            final(self).items == old(self).items,
            final(self).queries == old(self).queries,
            final(self).filters == old(self).filters,
            final(self).matches == old(self).matches,
    {
        if self.next_id == i64::MAX {
            Err(StorageError::IdsExhausted)
        } else {
            let id = self.next_id;
            self.next_id = self.next_id + 1;
            Ok(id)
        }
    }

    /// The identifier of the host with the configuration's host name,
    /// recording the host first when it is new.
    pub fn ensure_host(&mut self, host: &HostConfig) -> (r: Result<i64>)
        requires
            old(self).wf(),
        ensures
            final(self).wf(),
            final(self).item_rows() == old(self).item_rows(),
            final(self).query_rows() == old(self).query_rows(),
            final(self).filter_rows() == old(self).filter_rows(),
            final(self).match_rows() == old(self).match_rows(),
            match first_index(old(self).host_rows(), host_named(host.hostname@)) {
                Some(i) => {
                    &&& r == Ok::<i64, StorageError>(old(self).host_rows()[i].id)
                    &&& final(self).host_rows() == old(self).host_rows()
                    &&& final(self).next_row_id() == old(self).next_row_id()
                },
                None => if old(self).next_row_id() < i64::MAX {
                    &&& r == Ok::<i64, StorageError>(old(self).next_row_id())
                    &&& final(self).host_rows() == old(self).host_rows().push(
                        HostRow { id: old(self).next_row_id(), hostname: host.hostname, kind: host.kind },
                    )
                    &&& final(self).next_row_id() == old(self).next_row_id() + 1
                } else {
                    &&& r == Err::<i64, StorageError>(StorageError::IdsExhausted)
                    &&& final(self).host_rows() == old(self).host_rows()
                    &&& final(self).next_row_id() == old(self).next_row_id()
                },
            },
    {
        let ghost p = host_named(host.hostname@);
        let mut i: usize = 0;
        #[verifier::loop_isolation(false)]
        while i < self.hosts.len()
            invariant
                i <= self.hosts.len(),
                forall|j: int| 0 <= j < i ==> !p(#[trigger] self.hosts@[j]),
            decreases self.hosts.len() - i,
        {
            let same = self.hosts[i].hostname == host.hostname;
            if same {
                proof {
                    lemma_first_index_is(self.hosts@, p, i as int);
                }
                return Ok(self.hosts[i].id);
            }
            i = i + 1;
        }
        proof {
            lemma_first_index_none(self.hosts@, p);
        }
        let id = self.fresh_id()?;
        self.hosts.push(HostRow { id, hostname: host.hostname.clone(), kind: host.kind });
        assert(self.host_rows() == old(self).host_rows().push(self.hosts@.last()));
        assert forall|j: int| 0 <= j < self.host_rows().len() implies 1 <= (
        #[trigger] self.host_rows()[j]).id < self.next_row_id() by {
            if j < old(self).host_rows().len() {
                assert(self.host_rows()[j] == old(self).host_rows()[j]);
            }
        }
        assert(self.item_rows() == old(self).item_rows());
        assert(self.query_rows() == old(self).query_rows());
        assert(self.filter_rows() == old(self).filter_rows());
        assert(self.wf());
        Ok(id)
    }

    /// Sets one state flag of the item `id`; an unknown identifier changes
    /// nothing.
    pub fn set_flag(&mut self, id: i64, flag: ItemFlag, value: bool)
        requires
            old(self).wf(),
        ensures
            final(self).wf(),
            final(self).item_rows() == set_flag_rows(old(self).item_rows(), id, flag, value),
            final(self).host_rows() == old(self).host_rows(),
            final(self).query_rows() == old(self).query_rows(),
            final(self).filter_rows() == old(self).filter_rows(),
            final(self).match_rows() == old(self).match_rows(),
            final(self).next_row_id() == old(self).next_row_id(),
    {
        let ghost old_rows = self.item_rows();
        let mut i: usize = 0;
        while i < self.items.len()
            invariant
                i <= self.items.len(),
                self.items.len() == old_rows.len(),
                old_rows == old(self).item_rows(),
                self.hosts == old(self).hosts,
                self.queries == old(self).queries,
                self.filters == old(self).filters,
                self.matches == old(self).matches,
                self.next_id == old(self).next_id,
                forall|j: int|
                    0 <= j < i ==> (#[trigger] self.items@[j])@ == (if old_rows[j].item.id == id {
                        with_flag(old_rows[j], flag, value)
                    } else {
                        old_rows[j]
                    }),
                forall|j: int| i <= j < self.items.len() ==> (#[trigger] self.items@[j])@ == old_rows[j],
            decreases self.items.len() - i,
        {
            let ghost before = self.items@;
            if self.items[i].item.id == id {
                let row = &mut self.items[i];
                match flag {
                    ItemFlag::Unread => {
                        row.item.is_unread = value;
                    },
                    ItemFlag::Bookmarked => {
                        row.item.is_bookmarked = value;
                    },
                    ItemFlag::Archived => {
                        row.item.is_archived = value;
                    },
                }
                assert(self.items@[i as int]@ == with_flag(old_rows[i as int], flag, value));
            }
            assert(forall|j: int| 0 <= j < self.items.len() && j != i ==> self.items@[j] == before[j]);
            i = i + 1;
        }
        assert(self.item_rows() =~= set_flag_rows(old_rows, id, flag, value));
        assert forall|j: int| 0 <= j < self.item_rows().len() implies 1 <= (
        #[trigger] self.item_rows()[j]).item.id < self.next_row_id() && self.item_rows()[j].item.id
            == old(self).item_rows()[j].item.id by {
            assert(self.item_rows()[j] == self.items@[j]@);
            assert(old_rows[j] == old(self).items@[j]@);
            assert(old(self).item_rows()[j].item.id < self.next_row_id());
        }
        assert forall|a: int, b: int| 0 <= a < b < self.item_rows().len() implies (
        #[trigger] self.item_rows()[a]).item.id < (#[trigger] self.item_rows()[b]).item.id by {
            assert(self.item_rows()[a].item.id == old(self).item_rows()[a].item.id);
            assert(self.item_rows()[b].item.id == old(self).item_rows()[b].item.id);
        }
        assert(self.host_rows() == old(self).host_rows());
        assert(self.query_rows() == old(self).query_rows());
        assert(self.filter_rows() == old(self).filter_rows());
        assert(self.wf());
    }

    /// Marks the item unread or read.
    pub fn set_read_state(&mut self, id: i64, unread: bool)
        requires
            old(self).wf(),
        ensures
            final(self).wf(),
            final(self).item_rows() == set_flag_rows(old(self).item_rows(), id, ItemFlag::Unread, unread),
            final(self).host_rows() == old(self).host_rows(),
            final(self).query_rows() == old(self).query_rows(),
            final(self).filter_rows() == old(self).filter_rows(),
            final(self).match_rows() == old(self).match_rows(),
            final(self).next_row_id() == old(self).next_row_id(),
    {
        self.set_flag(id, ItemFlag::Unread, unread);
    }

    /// Bookmarks the item or removes its bookmark.
    pub fn set_bookmarked(&mut self, id: i64, bookmarked: bool)
        requires
            old(self).wf(),
        ensures
            final(self).wf(),
            final(self).item_rows() == set_flag_rows(old(self).item_rows(), id, ItemFlag::Bookmarked, bookmarked),
            final(self).host_rows() == old(self).host_rows(),
            final(self).query_rows() == old(self).query_rows(),
            final(self).filter_rows() == old(self).filter_rows(),
            final(self).match_rows() == old(self).match_rows(),
            final(self).next_row_id() == old(self).next_row_id(),
    {
        self.set_flag(id, ItemFlag::Bookmarked, bookmarked);
    }

    /// Archives the item or brings it back.
    pub fn set_archived(&mut self, id: i64, archived: bool)
        requires
            old(self).wf(),
        ensures
            final(self).wf(),
            final(self).item_rows() == set_flag_rows(old(self).item_rows(), id, ItemFlag::Archived, archived),
            final(self).host_rows() == old(self).host_rows(),
            final(self).query_rows() == old(self).query_rows(),
            final(self).filter_rows() == old(self).filter_rows(),
            final(self).match_rows() == old(self).match_rows(),
            final(self).next_row_id() == old(self).next_row_id(),
    {
        self.set_flag(id, ItemFlag::Archived, archived);
    }

    /// Records that a refresh found the item for the saved query; recording a
    /// match twice keeps one.
    pub fn record_saved_query_match(&mut self, saved_query_id: i64, stream_item_id: i64)
        requires
            old(self).wf(),
        ensures
            final(self).wf(),
            final(self).match_rows() == if is_matched(old(self).match_rows(), saved_query_id, stream_item_id) {
                old(self).match_rows()
            } else {
                old(self).match_rows().push(QueryMatch { saved_query_id, stream_item_id })
            },
            final(self).host_rows() == old(self).host_rows(),
            final(self).item_rows() == old(self).item_rows(),
            final(self).query_rows() == old(self).query_rows(),
            final(self).filter_rows() == old(self).filter_rows(),
            final(self).next_row_id() == old(self).next_row_id(),
    {
        let m = QueryMatch { saved_query_id, stream_item_id };
        assert(self.wf());
        let mut i: usize = 0;
        while i < self.matches.len()
            invariant
                i <= self.matches.len(),
                forall|j: int| 0 <= j < i ==> #[trigger] self.matches@[j] != m,
            decreases self.matches.len() - i,
        {
            if self.matches[i].saved_query_id == saved_query_id && self.matches[i].stream_item_id
                == stream_item_id {
                assert(self.matches@[i as int] == m);
                return;
            }
            i = i + 1;
        }
        self.matches.push(m);
        proof {
            self.lemma_wf_frame(old(self));
        }
    }
}

impl Storage {
    /// The position that a new saved query of the host takes.
    fn query_position_for(&self, host_id: i64) -> (r: i64)
        ensures
            r == next_query_position(self.queries@, host_id),
    {
        let mut pos: i64 = 0;
        let mut i: usize = 0;
        while i < self.queries.len()
            invariant
                i <= self.queries.len(),
                pos == next_query_position(self.queries@.take(i as int), host_id),
            decreases self.queries.len() - i,
        {
            assert(self.queries@.take(i + 1).drop_last() =~= self.queries@.take(i as int));
            let r = &self.queries[i];
            if r.host_id == host_id && r.position >= pos {
                pos = if r.position < i64::MAX {
                    r.position + 1
                } else {
                    i64::MAX
                };
            }
            i = i + 1;
        }
        assert(self.queries@.take(self.queries.len() as int) =~= self.queries@);
        pos
    }

    /// The position that a new filter stream of the saved query takes.
    fn filter_position_for(&self, saved_query_id: i64) -> (r: i64)
        ensures
            r == next_filter_position(self.filters@, saved_query_id),
    {
        let mut pos: i64 = 0;
        let mut i: usize = 0;
        while i < self.filters.len()
            invariant
                i <= self.filters.len(),
                pos == next_filter_position(self.filters@.take(i as int), saved_query_id),
            decreases self.filters.len() - i,
        {
            assert(self.filters@.take(i + 1).drop_last() =~= self.filters@.take(i as int));
            let r = &self.filters[i];
            if r.saved_query_id == saved_query_id && r.position >= pos {
                pos = if r.position < i64::MAX {
                    r.position + 1
                } else {
                    i64::MAX
                };
            }
            i = i + 1;
        }
        assert(self.filters@.take(self.filters.len() as int) =~= self.filters@);
        pos
    }

    /// Adds a saved query after the host's others.
    pub fn add_saved_query(
        &mut self,
        host_id: i64,
        name: String,
        query: String,
        source: StreamSource,
        enabled: bool,
    ) -> (r: Result<i64>)
        requires
            old(self).wf(),
        ensures
            final(self).wf(),
            final(self).host_rows() == old(self).host_rows(),
            final(self).item_rows() == old(self).item_rows(),
            final(self).filter_rows() == old(self).filter_rows(),
            final(self).match_rows() == old(self).match_rows(),
            if old(self).next_row_id() < i64::MAX {
                &&& r == Ok::<i64, StorageError>(old(self).next_row_id())
                &&& final(self).query_rows() == old(self).query_rows().push(
                    QueryRow {
                        id: old(self).next_row_id(),
                        host_id: host_id,
                        name: name,
                        query: query,
                        source: source,
                        enabled: enabled,
                        position: next_query_position(old(self).query_rows(), host_id),
                    },
                )
                &&& final(self).next_row_id() == old(self).next_row_id() + 1
            } else {
                &&& r == Err::<i64, StorageError>(StorageError::IdsExhausted)
                &&& final(self).query_rows() == old(self).query_rows()
                &&& final(self).next_row_id() == old(self).next_row_id()
            },
    {
        let position = self.query_position_for(host_id);
        let id = self.fresh_id()?;
        self.queries.push(QueryRow { id, host_id, name, query, source, enabled, position });
        assert forall|j: int| 0 <= j < self.query_rows().len() implies 1 <= (
        #[trigger] self.query_rows()[j]).id < self.next_row_id() by {
            if j < old(self).query_rows().len() {
                assert(self.query_rows()[j] == old(self).query_rows()[j]);
            }
        }
        assert(self.host_rows() == old(self).host_rows());
        assert(self.item_rows() == old(self).item_rows());
        assert(self.filter_rows() == old(self).filter_rows());
        assert(self.wf());
        Ok(id)
    }

    /// Edits a saved query. When the edit changes what the query searches
    /// for, the matches that refreshes recorded for it are dropped.
    pub fn update_saved_query(
        &mut self,
        id: i64,
        name: String,
        query: String,
        source: StreamSource,
        enabled: bool,
    )
        requires
            old(self).wf(),
        ensures
            final(self).wf(),
            query_edit_outcome(*old(self), id, name, query, source, enabled, *final(self)),
    {
        let ghost old_rows = self.queries@;
        let mut changed = false;
        let mut rows: Vec<QueryRow> = Vec::new();
        let mut i: usize = 0;
        while i < self.queries.len()
            invariant
                self.queries@ == old_rows,
                i <= old_rows.len(),
                rows@ == edited_queries(old_rows, id, name, query, source, enabled).take(i as int),
                changed == exists|t: int|
                    0 <= t < i && (#[trigger] old_rows[t]).id == id && (old_rows[t].query@ != query@
                        || old_rows[t].source != source),
            decreases self.queries.len() - i,
        {
            let r = &self.queries[i];
            if r.id == id {
                if r.query != query || !same_source(r.source, source) {
                    changed = true;
                }
                rows.push(
                    QueryRow {
                        id: r.id,
                        host_id: r.host_id,
                        name: name.clone(),
                        query: query.clone(),
                        source,
                        enabled,
                        position: r.position,
                    },
                );
            } else {
                rows.push(r.clone_row());
            }
            i = i + 1;
            assert(rows@ =~= edited_queries(old_rows, id, name, query, source, enabled).take(i as int));
        }
        assert(rows@ =~= edited_queries(old_rows, id, name, query, source, enabled));
        self.queries = rows;
        if changed {
            self.retain_matches_not_of(id);
        }
        assert forall|j: int| 0 <= j < self.query_rows().len() implies 1 <= (
        #[trigger] self.query_rows()[j]).id < self.next_row_id() by {
            assert(self.query_rows()[j].id == old_rows[j].id);
        }
        assert(self.host_rows() == old(self).host_rows());
        assert(self.item_rows() == old(self).item_rows());
        assert(self.filter_rows() == old(self).filter_rows());
        assert(self.wf());
    }

    /// Drops the matches recorded for the saved query.
    fn retain_matches_not_of(&mut self, saved_query_id: i64)
        ensures
            final(self).matches@ == old(self).matches@.filter(
                |m: QueryMatch| m.saved_query_id != saved_query_id,
            ),
            final(self).hosts == old(self).hosts,
            final(self).items == old(self).items,
            final(self).queries == old(self).queries,
            final(self).filters == old(self).filters,
            final(self).next_id == old(self).next_id,
    {
        let ghost pred = |m: QueryMatch| m.saved_query_id != saved_query_id;
        let mut kept: Vec<QueryMatch> = Vec::new();
        let mut i: usize = 0;
        while i < self.matches.len()
            invariant
                i <= self.matches.len(),
                self.matches == old(self).matches,
                kept@ == self.matches@.take(i as int).filter(pred),
            decreases self.matches.len() - i,
        {
            proof {
                crate::seq_util::lemma_filter_take_step(self.matches@, pred, i as int);
            }
            if self.matches[i].saved_query_id != saved_query_id {
                kept.push(self.matches[i]);
            }
            i = i + 1;
        }
        assert(self.matches@.take(self.matches.len() as int) =~= self.matches@);
        self.matches = kept;
    }

    /// Deletes a saved query with its filter streams and matches.
    pub fn delete_saved_query(&mut self, id: i64)
        requires
            old(self).wf(),
        ensures
            final(self).wf(),
            final(self).host_rows() == old(self).host_rows(),
            final(self).item_rows() == old(self).item_rows(),
            final(self).next_row_id() == old(self).next_row_id(),
            final(self).query_rows() == old(self).query_rows().filter(|q: QueryRow| q.id != id),
            final(self).filter_rows() == old(self).filter_rows().filter(
                |f: FilterStream| f.saved_query_id != id,
            ),
            final(self).match_rows() == old(self).match_rows().filter(
                |m: QueryMatch| m.saved_query_id != id,
            ),
    {
        let ghost qpred = |q: QueryRow| q.id != id;
        let mut kept: Vec<QueryRow> = Vec::new();
        let mut i: usize = 0;
        while i < self.queries.len()
            invariant
                i <= self.queries.len(),
                self.queries == old(self).queries,
                kept@ == self.queries@.take(i as int).filter(qpred),
            decreases self.queries.len() - i,
        {
            proof {
                crate::seq_util::lemma_filter_take_step(self.queries@, qpred, i as int);
            }
            if self.queries[i].id != id {
                kept.push(self.queries[i].clone_row());
            }
            i = i + 1;
        }
        assert(self.queries@.take(self.queries.len() as int) =~= self.queries@);
        self.queries = kept;
        self.retain_filters_not_of(id);
        self.retain_matches_not_of(id);
        proof {
            crate::seq_util::lemma_filter_members(old(self).queries@, qpred);
            crate::seq_util::lemma_filter_members(old(self).filters@, |f: FilterStream| f.saved_query_id != id);
        }
        assert forall|j: int| 0 <= j < self.query_rows().len() implies 1 <= (
        #[trigger] self.query_rows()[j]).id < self.next_row_id() by {
            assert(old(self).query_rows().contains(self.query_rows()[j]));
        }
        assert forall|j: int| 0 <= j < self.filter_rows().len() implies 1 <= (
        #[trigger] self.filter_rows()[j]).id < self.next_row_id() by {
            assert(old(self).filter_rows().contains(self.filter_rows()[j]));
        }
        assert(self.host_rows() == old(self).host_rows());
        assert(self.item_rows() == old(self).item_rows());
        assert(self.wf());
    }

    /// Drops the filter streams of the saved query.
    fn retain_filters_not_of(&mut self, saved_query_id: i64)
        ensures
            final(self).filters@ == old(self).filters@.filter(
                |f: FilterStream| f.saved_query_id != saved_query_id,
            ),
            final(self).hosts == old(self).hosts,
            final(self).items == old(self).items,
            final(self).queries == old(self).queries,
            final(self).matches == old(self).matches,
            final(self).next_id == old(self).next_id,
    {
        let ghost pred = |f: FilterStream| f.saved_query_id != saved_query_id;
        let mut kept: Vec<FilterStream> = Vec::new();
        let mut i: usize = 0;
        while i < self.filters.len()
            invariant
                i <= self.filters.len(),
                self.filters == old(self).filters,
                kept@ == self.filters@.take(i as int).filter(pred),
            decreases self.filters.len() - i,
        {
            proof {
                crate::seq_util::lemma_filter_take_step(self.filters@, pred, i as int);
            }
            if self.filters[i].saved_query_id != saved_query_id {
                kept.push(self.filters[i].copy());
            }
            i = i + 1;
        }
        assert(self.filters@.take(self.filters.len() as int) =~= self.filters@);
        self.filters = kept;
    }
}

impl QueryRow {
    pub fn clone_row(&self) -> (r: QueryRow)
        ensures
            r == *self,
    {
        QueryRow {
            id: self.id,
            host_id: self.host_id,
            name: self.name.clone(),
            query: self.query.clone(),
            source: self.source,
            enabled: self.enabled,
            position: self.position,
        }
    }
}

/// Whether two search sources are the same.
pub fn same_source(a: StreamSource, b: StreamSource) -> (r: bool)
    ensures
        r == (a == b),
{
    match (a, b) {
        (StreamSource::IssueOrPullRequest, StreamSource::IssueOrPullRequest) => true,
        (StreamSource::Discussion, StreamSource::Discussion) => true,
        (StreamSource::ProjectV2, StreamSource::ProjectV2) => true,
        _ => false,
    }
}

impl Storage {
    /// Adds a filter stream after the other filter streams of its saved
    /// query.
    pub fn add_filter_stream(
        &mut self,
        saved_query_id: i64,
        name: String,
        filter_query: String,
        enabled: bool,
    ) -> (r: Result<i64>)
        requires
            old(self).wf(),
        ensures
            final(self).wf(),
            final(self).host_rows() == old(self).host_rows(),
            final(self).item_rows() == old(self).item_rows(),
            final(self).query_rows() == old(self).query_rows(),
            final(self).match_rows() == old(self).match_rows(),
            if !(exists|i: int|
                0 <= i < old(self).query_rows().len() && (#[trigger] old(self).query_rows()[i]).id
                    == saved_query_id) {
                &&& r == Err::<i64, StorageError>(StorageError::UnknownSavedQuery)
                &&& final(self).filter_rows() == old(self).filter_rows()
                &&& final(self).next_row_id() == old(self).next_row_id()
            } else if old(self).next_row_id() < i64::MAX {
                &&& r == Ok::<i64, StorageError>(old(self).next_row_id())
                &&& final(self).filter_rows() == old(self).filter_rows().push(
                    FilterStream {
                        id: old(self).next_row_id(),
                        saved_query_id: saved_query_id,
                        name: name,
                        filter_query: filter_query,
                        enabled: enabled,
                        position: next_filter_position(old(self).filter_rows(), saved_query_id),
                    },
                )
                &&& final(self).next_row_id() == old(self).next_row_id() + 1
            } else {
                &&& r == Err::<i64, StorageError>(StorageError::IdsExhausted)
                &&& final(self).filter_rows() == old(self).filter_rows()
                &&& final(self).next_row_id() == old(self).next_row_id()
            },
    {
        let mut found = false;
        let mut i: usize = 0;
        while i < self.queries.len()
            invariant
                i <= self.queries.len(),
                found == exists|t: int| 0 <= t < i && (#[trigger] self.queries@[t]).id == saved_query_id,
            decreases self.queries.len() - i,
        {
            if self.queries[i].id == saved_query_id {
                found = true;
            }
            i = i + 1;
        }
        if !found {
            return Err(StorageError::UnknownSavedQuery);
        }
        let position = self.filter_position_for(saved_query_id);
        let id = self.fresh_id()?;
        self.filters.push(FilterStream { id, saved_query_id, name, filter_query, enabled, position });
        assert(self.next_row_id() == old(self).next_row_id() + 1);
        assert(self.filter_rows().len() == old(self).filter_rows().len() + 1);
        assert forall|j: int| 0 <= j < self.filter_rows().len() implies 1 <= (
        #[trigger] self.filter_rows()[j]).id < self.next_row_id() by {
            if j < old(self).filter_rows().len() {
                assert(self.filter_rows()[j] == old(self).filter_rows()[j]);
                assert(1 <= old(self).filter_rows()[j].id < old(self).next_row_id());
            } else {
                assert(self.filter_rows()[j].id == id);
                assert(id == old(self).next_row_id());
                assert(1 <= old(self).next_row_id());
            }
        }
        assert(self.host_rows() == old(self).host_rows());
        assert(self.item_rows() == old(self).item_rows());
        assert(self.query_rows() == old(self).query_rows());
        assert(self.wf());
        Ok(id)
    }

    /// Edits a filter stream.
    pub fn update_filter_stream(&mut self, id: i64, name: String, filter_query: String, enabled: bool)
        requires
            old(self).wf(),
        ensures
            final(self).wf(),
            final(self).host_rows() == old(self).host_rows(),
            final(self).item_rows() == old(self).item_rows(),
            final(self).query_rows() == old(self).query_rows(),
            final(self).match_rows() == old(self).match_rows(),
            final(self).next_row_id() == old(self).next_row_id(),
            final(self).filter_rows() == edited_filters(old(self).filter_rows(), id, name, filter_query, enabled),
    {
        let ghost old_rows = self.filters@;
        let mut rows: Vec<FilterStream> = Vec::new();
        let mut i: usize = 0;
        while i < self.filters.len()
            invariant
                self.filters@ == old_rows,
                i <= old_rows.len(),
                rows@ == edited_filters(old_rows, id, name, filter_query, enabled).take(i as int),
            decreases self.filters.len() - i,
        {
            let f = &self.filters[i];
            if f.id == id {
                rows.push(
                    FilterStream {
                        id: f.id,
                        saved_query_id: f.saved_query_id,
                        name: name.clone(),
                        filter_query: filter_query.clone(),
                        enabled,
                        position: f.position,
                    },
                );
            } else {
                rows.push(f.copy());
            }
            i = i + 1;
            assert(rows@ =~= edited_filters(old_rows, id, name, filter_query, enabled).take(i as int));
        }
        assert(rows@ =~= edited_filters(old_rows, id, name, filter_query, enabled));
        self.filters = rows;
        assert forall|j: int| 0 <= j < self.filter_rows().len() implies 1 <= (
        #[trigger] self.filter_rows()[j]).id < self.next_row_id() && self.filter_rows()[j].saved_query_id
            < self.next_row_id() by {
            assert(self.filter_rows()[j].id == old_rows[j].id);
            assert(self.filter_rows()[j].saved_query_id == old_rows[j].saved_query_id);
            assert(old_rows[j] == old(self).filter_rows()[j]);
        }
        assert(self.host_rows() == old(self).host_rows());
        assert(self.item_rows() == old(self).item_rows());
        assert(self.query_rows() == old(self).query_rows());
        assert(self.wf());
    }

    /// Deletes a filter stream.
    pub fn delete_filter_stream(&mut self, id: i64)
        requires
            old(self).wf(),
        ensures
            final(self).wf(),
            final(self).host_rows() == old(self).host_rows(),
            final(self).item_rows() == old(self).item_rows(),
            final(self).query_rows() == old(self).query_rows(),
            final(self).match_rows() == old(self).match_rows(),
            final(self).next_row_id() == old(self).next_row_id(),
            final(self).filter_rows() == old(self).filter_rows().filter(|f: FilterStream| f.id != id),
    {
        let ghost pred = |f: FilterStream| f.id != id;
        let mut kept: Vec<FilterStream> = Vec::new();
        let mut i: usize = 0;
        while i < self.filters.len()
            invariant
                i <= self.filters.len(),
                self.filters == old(self).filters,
                kept@ == self.filters@.take(i as int).filter(pred),
            decreases self.filters.len() - i,
        {
            proof {
                crate::seq_util::lemma_filter_take_step(self.filters@, pred, i as int);
            }
            if self.filters[i].id != id {
                kept.push(self.filters[i].copy());
            }
            i = i + 1;
        }
        assert(self.filters@.take(self.filters.len() as int) =~= self.filters@);
        self.filters = kept;
        proof {
            crate::seq_util::lemma_filter_members(old(self).filters@, pred);
        }
        assert forall|j: int| 0 <= j < self.filter_rows().len() implies 1 <= (
        #[trigger] self.filter_rows()[j]).id < self.next_row_id() by {
            assert(old(self).filter_rows().contains(self.filter_rows()[j]));
        }
        assert(self.host_rows() == old(self).host_rows());
        assert(self.item_rows() == old(self).item_rows());
        assert(self.query_rows() == old(self).query_rows());
        assert(self.wf());
    }

    /// Moves a saved query one place up or down among its host's queries.
    pub fn move_saved_query(&mut self, id: i64, up: bool)
        requires
            old(self).wf(),
        ensures
            final(self).wf(),
            final(self).host_rows() == old(self).host_rows(),
            final(self).item_rows() == old(self).item_rows(),
            final(self).filter_rows() == old(self).filter_rows(),
            final(self).match_rows() == old(self).match_rows(),
            final(self).next_row_id() == old(self).next_row_id(),
            final(self).query_rows() == moved_queries(old(self).query_rows(), id, up),
    {
        let ghost p = |q: QueryRow| q.id == id;
        let n = self.queries.len();
        let mut k: usize = 0;
        while k < n && self.queries[k].id != id
            invariant
                n == self.queries.len(),
                k <= n,
                forall|t: int| 0 <= t < k ==> !p(#[trigger] self.queries@[t]),
            decreases n - k,
        {
            k = k + 1;
        }
        if k == n {
            proof {
                crate::seq_util::lemma_first_index_none(self.queries@, p);
            }
            return;
        }
        proof {
            crate::seq_util::lemma_first_index_is(self.queries@, p, k as int);
        }
        let host_id = self.queries[k].host_id;
        let mut found = false;
        let mut j: usize = 0;
        if up {
            let mut t: usize = k;
            while t > 0
                invariant
                    t <= k < n,
                    n == self.queries.len(),
                    host_id == self.queries@[k as int].host_id,
                    forall|u: int| t <= u < k ==> (#[trigger] self.queries@[u]).host_id != host_id,
                    !found,
                decreases t,
            {
                if self.queries[t - 1].host_id == host_id {
                    found = true;
                    j = t - 1;
                    break;
                }
                t = t - 1;
            }
            if !found {
                assert forall|x: int| !is_neighbor(self.queries@, k as int, x, up) by {
                    if is_neighbor(self.queries@, k as int, x, up) {
                        assert(self.queries@[x].host_id == host_id);
                    }
                }
            }
        } else {
            let mut t: usize = k + 1;
            while t < n
                invariant
                    k < t <= n,
                    n == self.queries.len(),
                    host_id == self.queries@[k as int].host_id,
                    forall|u: int| k < u < t ==> (#[trigger] self.queries@[u]).host_id != host_id,
                    !found,
                decreases n - t,
            {
                if self.queries[t].host_id == host_id {
                    found = true;
                    j = t;
                    break;
                }
                t = t + 1;
            }
            if !found {
                assert forall|x: int| !is_neighbor(self.queries@, k as int, x, up) by {
                    if is_neighbor(self.queries@, k as int, x, up) {
                        assert(self.queries@[x].host_id == host_id);
                    }
                }
            }
        }
        if !found {
            return;
        }
        assert(is_neighbor(self.queries@, k as int, j as int, up));
        let ghost c = choose|x: int| is_neighbor(self.queries@, k as int, x, up);
        assert(c == j) by {
            if c < j {
                assert(self.queries@[c].host_id == host_id);
            }
            if j < c {
                assert(self.queries@[j as int].host_id == host_id);
            }
        }
        let pk = self.queries[k].position;
        let pj = self.queries[j].position;
        let mut row_k = self.queries[k].clone_row();
        let mut row_j = self.queries[j].clone_row();
        row_k.position = pj;
        row_j.position = pk;
        self.queries.set(j, row_k);
        self.queries.set(k, row_j);
        assert forall|x: int| 0 <= x < self.query_rows().len() implies 1 <= (
        #[trigger] self.query_rows()[x]).id < self.next_row_id() by {
            if x != j && x != k {
                assert(self.query_rows()[x] == old(self).query_rows()[x]);
            }
        }
        assert(self.host_rows() == old(self).host_rows());
        assert(self.item_rows() == old(self).item_rows());
        assert(self.filter_rows() == old(self).filter_rows());
        assert(self.wf());
    }

    /// The saved queries of a host, each with its filter streams.
    pub fn list_saved_queries(&self, host_id: i64) -> (r: Vec<SavedQuery>)
        ensures
            query_views(r@) == saved_query_list(self.query_rows(), self.filter_rows(), host_id),
    {
        let ghost qpred = |q: QueryRow| q.host_id == host_id;
        let ghost target = saved_query_list(self.queries@, self.filters@, host_id);
        let mut out: Vec<SavedQuery> = Vec::new();
        let mut i: usize = 0;
        while i < self.queries.len()
            invariant
                i <= self.queries.len(),
                query_views(out@) == saved_query_list(self.queries@.take(i as int), self.filters@, host_id),
            decreases self.queries.len() - i,
        {
            proof {
                crate::seq_util::lemma_filter_take_step(self.queries@, qpred, i as int);
            }
            let q = &self.queries[i];
            if q.host_id == host_id {
                let streams = self.filters_of(q.id);
                let sq = SavedQuery {
                    id: q.id,
                    name: q.name.clone(),
                    query: q.query.clone(),
                    source: q.source,
                    enabled: q.enabled,
                    position: q.position,
                    filter_streams: streams,
                };
                let ghost before = out@;
                out.push(sq);
                assert(query_views(out@) =~= query_views(before).push(sq@));
            }
            i = i + 1;
            assert(query_views(out@) =~= saved_query_list(self.queries@.take(i as int), self.filters@, host_id));
        }
        assert(self.queries@.take(self.queries.len() as int) =~= self.queries@);
        out
    }

    /// The filter streams of a saved query, in order.
    fn filters_of(&self, saved_query_id: i64) -> (r: Vec<FilterStream>)
        ensures
            r@ == self.filters@.filter(|f: FilterStream| f.saved_query_id == saved_query_id),
    {
        let ghost pred = |f: FilterStream| f.saved_query_id == saved_query_id;
        let mut out: Vec<FilterStream> = Vec::new();
        let mut i: usize = 0;
        while i < self.filters.len()
            invariant
                i <= self.filters.len(),
                out@ == self.filters@.take(i as int).filter(pred),
            decreases self.filters.len() - i,
        {
            proof {
                crate::seq_util::lemma_filter_take_step(self.filters@, pred, i as int);
            }
            if self.filters[i].saved_query_id == saved_query_id {
                out.push(self.filters[i].copy());
            }
            i = i + 1;
        }
        assert(self.filters@.take(self.filters.len() as int) =~= self.filters@);
        out
    }
}

impl Storage {
    /// Whether `qid` is a saved query of the host.
    fn is_query_of_host(&self, qid: i64, host_id: i64) -> (r: bool)
        ensures
            r == query_of_host(self.queries@, qid, host_id),
    {
        let mut i: usize = 0;
        while i < self.queries.len()
            invariant
                i <= self.queries.len(),
                forall|t: int|
                    0 <= t < i ==> !((#[trigger] self.queries@[t]).id == qid && self.queries@[t].host_id
                        == host_id),
            decreases self.queries.len() - i,
        {
            if self.queries[i].id == qid && self.queries[i].host_id == host_id {
                return true;
            }
            i = i + 1;
        }
        false
    }

    /// Replaces the saved queries of a host, with their filter streams, by
    /// the given definitions, in their order; the matches of the replaced
    /// queries go with them. Returns the identifiers of the new queries.
    pub fn replace_saved_queries(&mut self, host_id: i64, definitions: &Vec<ImportedSavedQuery>) -> (r:
        Result<Vec<i64>>)
        requires
            old(self).wf(),
        ensures
            final(self).wf(),
            final(self).host_rows() == old(self).host_rows(),
            final(self).item_rows() == old(self).item_rows(),
            ({
                let defs = definition_views(definitions@);
                let first = old(self).next_row_id() as int;
                if first + def_span(defs) <= i64::MAX {
                    &&& r matches Ok(ids) && ids@ == imported_query_rows(defs, host_id, first).map_values(
                        |q: QueryRow| q.id,
                    )
                    &&& final(self).query_rows() == old(self).query_rows().filter(
                        |q: QueryRow| q.host_id != host_id,
                    ) + imported_query_rows(defs, host_id, first)
                    &&& final(self).filter_rows() == old(self).filter_rows().filter(
                        |f: FilterStream| !query_of_host(old(self).query_rows(), f.saved_query_id, host_id),
                    ) + imported_filter_rows(defs, first)
                    &&& final(self).match_rows() == old(self).match_rows().filter(
                        |m: QueryMatch| !query_of_host(old(self).query_rows(), m.saved_query_id, host_id),
                    )
                    &&& final(self).next_row_id() == first + def_span(defs)
                } else {
                    &&& r == Err::<Vec<i64>, StorageError>(StorageError::IdsExhausted)
                    &&& *final(self) == *old(self)
                }
            }),
    {
        let ghost defs = definition_views(definitions@);
        let ghost first = self.next_id as int;
        // How many identifiers the import takes, refused before any change
        // when they are not left.
        let room: i64 = i64::MAX - self.next_id;
        let mut span: i64 = 0;
        let mut i: usize = 0;
        while i < definitions.len()
            invariant
                i <= definitions.len(),
                defs == definition_views(definitions@),
                room == i64::MAX - first,
                first == self.next_id,
                0 <= span <= room,
                span == def_span(defs.take(i as int)),
            decreases definitions.len() - i,
        {
            assert(defs.take(i + 1).drop_last() =~= defs.take(i as int));
            assert(defs[i as int] == definitions@[i as int]@);
            let n = definitions[i].filter_streams.len();
            if (n as u64) >= (room as u64) || span > room - 1 - (n as i64) {
                proof {
                    lemma_def_span_monotone(defs, i + 1);
                }
                return Err(StorageError::IdsExhausted);
            }
            span = span + 1 + n as i64;
            i = i + 1;
        }
        assert(defs.take(definitions.len() as int) =~= defs);
        let ghost old_queries = self.queries@;
        let ghost fpred = |f: FilterStream| !query_of_host(old_queries, f.saved_query_id, host_id);
        let ghost mpred = |m: QueryMatch| !query_of_host(old_queries, m.saved_query_id, host_id);
        let ghost qpred = |q: QueryRow| q.host_id != host_id;
        // Drop the host's filter streams and matches, then its queries.
        let mut kept_filters: Vec<FilterStream> = Vec::new();
        let mut i: usize = 0;
        while i < self.filters.len()
            invariant
                i <= self.filters.len(),
                self.queries@ == old_queries,
                self.filters == old(self).filters,
                kept_filters@ == self.filters@.take(i as int).filter(fpred),
            decreases self.filters.len() - i,
        {
            proof {
                crate::seq_util::lemma_filter_take_step(self.filters@, fpred, i as int);
            }
            if !self.is_query_of_host(self.filters[i].saved_query_id, host_id) {
                kept_filters.push(self.filters[i].copy());
            }
            i = i + 1;
        }
        assert(self.filters@.take(self.filters.len() as int) =~= self.filters@);
        let mut kept_matches: Vec<QueryMatch> = Vec::new();
        let mut i: usize = 0;
        while i < self.matches.len()
            invariant
                i <= self.matches.len(),
                self.queries@ == old_queries,
                self.matches == old(self).matches,
                kept_matches@ == self.matches@.take(i as int).filter(mpred),
            decreases self.matches.len() - i,
        {
            proof {
                crate::seq_util::lemma_filter_take_step(self.matches@, mpred, i as int);
            }
            if !self.is_query_of_host(self.matches[i].saved_query_id, host_id) {
                kept_matches.push(self.matches[i]);
            }
            i = i + 1;
        }
        assert(self.matches@.take(self.matches.len() as int) =~= self.matches@);
        let mut kept_queries: Vec<QueryRow> = Vec::new();
        let mut i: usize = 0;
        while i < self.queries.len()
            invariant
                i <= self.queries.len(),
                self.queries@ == old_queries,
                kept_queries@ == self.queries@.take(i as int).filter(qpred),
            decreases self.queries.len() - i,
        {
            proof {
                crate::seq_util::lemma_filter_take_step(self.queries@, qpred, i as int);
            }
            if self.queries[i].host_id != host_id {
                kept_queries.push(self.queries[i].clone_row());
            }
            i = i + 1;
        }
        assert(self.queries@.take(self.queries.len() as int) =~= self.queries@);
        proof {
            crate::seq_util::lemma_filter_members(old(self).queries@, qpred);
            crate::seq_util::lemma_filter_members(old(self).filters@, fpred);
        }
        let ghost base_queries = kept_queries@;
        let ghost base_filters = kept_filters@;
        self.queries = kept_queries;
        self.filters = kept_filters;
        self.matches = kept_matches;
        // Insert the definitions.
        let mut ids: Vec<i64> = Vec::new();
        let mut i: usize = 0;
        while i < definitions.len()
            invariant
                i <= definitions.len(),
                defs == definition_views(definitions@),
                first + def_span(defs) <= i64::MAX,
                self.next_id == first + def_span(defs.take(i as int)),
                self.queries@ == base_queries + imported_query_rows(defs.take(i as int), host_id, first),
                self.filters@ == base_filters + imported_filter_rows(defs.take(i as int), first),
                ids@ == imported_query_rows(defs.take(i as int), host_id, first).map_values(
                    |q: QueryRow| q.id,
                ),
                self.hosts == old(self).hosts,
                self.items == old(self).items,
                self.matches@ == old(self).matches@.filter(mpred),
            decreases definitions.len() - i,
        {
            let ghost before = defs.take(i as int);
            assert(defs.take(i + 1).drop_last() =~= before);
            assert(defs.take(i + 1).last() == defs[i as int]);
            assert(defs[i as int] == definitions@[i as int]@);
            proof {
                lemma_def_span_monotone(defs, i + 1);
            }
            let d = &definitions[i];
            let qid = self.next_id;
            self.next_id = self.next_id + 1;
            let row = QueryRow {
                id: qid,
                host_id,
                name: d.name.clone(),
                query: d.query.clone(),
                source: d.source,
                enabled: d.enabled,
                position: d.position,
            };
            self.queries.push(row);
            ids.push(qid);
            assert(imported_query_rows(defs.take(i + 1), host_id, first) == imported_query_rows(
                before,
                host_id,
                first,
            ).push(row));
            assert(self.queries@ =~= base_queries + imported_query_rows(defs.take(i + 1), host_id, first));
            proof {
                crate::seq_util::lemma_map_push(
                    imported_query_rows(before, host_id, first),
                    |q: QueryRow| q.id,
                    row,
                );
            }
            let mut j: usize = 0;
            while j < d.filter_streams.len()
                invariant
                    j <= d.filter_streams.len(),
                    d@ == defs[i as int],
                    qid == first + def_span(before),
                    self.next_id == qid + 1 + j,
                    first + def_span(defs) <= i64::MAX,
                    first + def_span(before) + 1 + d.filter_streams.len() <= first + def_span(defs),
                    self.filters@ == base_filters + imported_filter_rows(before, first)
                        + imported_filters_of(d@, qid as int).take(j as int),
                    self.queries@ == base_queries + imported_query_rows(defs.take(i + 1), host_id, first),
                    self.hosts == old(self).hosts,
                    self.items == old(self).items,
                    self.matches@ == old(self).matches@.filter(mpred),
                decreases d.filter_streams.len() - j,
            {
                let f = &d.filter_streams[j];
                let fid = self.next_id;
                self.next_id = self.next_id + 1;
                self.filters.push(
                    FilterStream {
                        id: fid,
                        saved_query_id: qid,
                        name: f.name.clone(),
                        filter_query: f.filter_query.clone(),
                        enabled: f.enabled,
                        position: f.position,
                    },
                );
                assert(imported_filters_of(d@, qid as int).take(j + 1) =~= imported_filters_of(
                    d@,
                    qid as int,
                ).take(j as int).push(imported_filters_of(d@, qid as int)[j as int]));
                j = j + 1;
                assert(self.filters@ =~= base_filters + imported_filter_rows(before, first)
                    + imported_filters_of(d@, qid as int).take(j as int));
            }
            assert(imported_filters_of(d@, qid as int).take(j as int) =~= imported_filters_of(d@, qid as int));
            assert(self.filters@ =~= base_filters + imported_filter_rows(defs.take(i + 1), first));
            i = i + 1;
        }
        assert(defs.take(definitions.len() as int) =~= defs);
        proof {
            lemma_imported_ids(defs, host_id, first);
        }
        assert forall|x: int| 0 <= x < self.query_rows().len() implies 1 <= (
        #[trigger] self.query_rows()[x]).id < self.next_row_id() by {
            if x < base_queries.len() {
                assert(old(self).queries@.contains(base_queries[x]));
                let k = choose|k: int| 0 <= k < old(self).queries@.len() && old(self).queries@[k] == base_queries[x];
                assert(old(self).query_rows()[k] == base_queries[x]);
            } else {
                assert(self.query_rows()[x] == imported_query_rows(defs, host_id, first)[x - base_queries.len()]);
            }
        }
        proof {
            lemma_imported_filter_owners(defs, first);
        }
        assert forall|x: int| 0 <= x < self.filter_rows().len() implies 1 <= (
        #[trigger] self.filter_rows()[x]).id < self.next_row_id() && self.filter_rows()[x].saved_query_id
            < self.next_row_id() by {
            if x < base_filters.len() {
                assert(old(self).filters@.contains(base_filters[x]));
                let k = choose|k: int| 0 <= k < old(self).filters@.len() && old(self).filters@[k] == base_filters[x];
                assert(old(self).filter_rows()[k] == base_filters[x]);
            } else {
                assert(self.filter_rows()[x] == imported_filter_rows(defs, first)[x - base_filters.len()]);
            }
        }
        assert(self.host_rows() == old(self).host_rows());
        assert(self.item_rows() == old(self).item_rows());
        assert(self.wf());
        Ok(ids)
    }
}

/// The identifiers taken by a prefix of the definitions are no more than
/// those taken by all of them.
proof fn lemma_def_span_monotone(defs: Seq<ImportedSavedQueryView>, k: int)
    requires
        0 <= k <= defs.len(),
    ensures
        0 <= def_span(defs.take(k)) <= def_span(defs),
        k < defs.len() ==> def_span(defs.take(k)) + 1 + defs[k].filter_streams.len() <= def_span(defs),
    decreases defs.len() - k,
{
    lemma_def_span_nonneg(defs.take(k));
    if k < defs.len() {
        lemma_def_span_monotone(defs, k + 1);
        assert(defs.take(k + 1).drop_last() =~= defs.take(k));
        assert(defs.take(k + 1).last() == defs[k]);
    } else {
        assert(defs.take(k) =~= defs);
    }
}

proof fn lemma_def_span_nonneg(defs: Seq<ImportedSavedQueryView>)
    ensures
        def_span(defs) >= 0,
    decreases defs.len(),
{
    if defs.len() > 0 {
        lemma_def_span_nonneg(defs.drop_last());
    }
}

/// The identifiers of imported rows lie in `first .. first + def_span`.
pub(crate) proof fn lemma_imported_ids(defs: Seq<ImportedSavedQueryView>, host_id: i64, first: int)
    requires
        1 <= first,
        first + def_span(defs) <= i64::MAX,
    ensures
        forall|x: int|
            0 <= x < imported_query_rows(defs, host_id, first).len() ==> first <= (
            #[trigger] imported_query_rows(defs, host_id, first)[x]).id < first + def_span(defs),
        forall|x: int|
            0 <= x < imported_filter_rows(defs, first).len() ==> first <= (
            #[trigger] imported_filter_rows(defs, first)[x]).id < first + def_span(defs),
    decreases defs.len(),
{
    if defs.len() > 0 {
        let pre = defs.drop_last();
        lemma_def_span_nonneg(pre);
        lemma_imported_ids(pre, host_id, first);
        let qs = imported_query_rows(defs, host_id, first);
        assert forall|x: int| 0 <= x < qs.len() implies first <= (#[trigger] qs[x]).id < first + def_span(defs) by {
            if x < imported_query_rows(pre, host_id, first).len() {
                assert(qs[x] == imported_query_rows(pre, host_id, first)[x]);
            }
        }
        let fs = imported_filter_rows(defs, first);
        let head = imported_filter_rows(pre, first);
        assert forall|x: int| 0 <= x < fs.len() implies first <= (#[trigger] fs[x]).id < first + def_span(defs) by {
            if x < head.len() {
                assert(fs[x] == head[x]);
            } else {
                assert(fs[x] == imported_filters_of(defs.last(), first + def_span(pre))[x - head.len()]);
            }
        }
    }
}

/// The view of an optional local filter.
pub open spec fn local_view(local: Option<&Vec<FilterTerm>>) -> Option<Seq<TermSpec>> {
    match local {
        None => None,
        Some(v) => Some(term_views(v@)),
    }
}

impl Storage {
    /// Whether a refresh recorded the item for the saved query.
    pub fn is_matched_for(&self, saved_query_id: i64, stream_item_id: i64) -> (r: bool)
        ensures
            r == is_matched(self.match_rows(), saved_query_id, stream_item_id),
    {
        let m = QueryMatch { saved_query_id, stream_item_id };
        let mut i: usize = 0;
        while i < self.matches.len()
            invariant
                i <= self.matches.len(),
                forall|j: int| 0 <= j < i ==> #[trigger] self.matches@[j] != m,
            decreases self.matches.len() - i,
        {
            if self.matches[i].saved_query_id == saved_query_id && self.matches[i].stream_item_id
                == stream_item_id {
                assert(self.matches@[i as int] == m);
                return true;
            }
            i = i + 1;
        }
        false
    }

    fn matched_by_enabled_for(&self, host_id: i64, item_id: i64) -> (r: bool)
        ensures
            r == matched_by_enabled_query(self.query_rows(), self.match_rows(), host_id, item_id),
    {
        let mut i: usize = 0;
        while i < self.queries.len()
            invariant
                i <= self.queries.len(),
                forall|j: int|
                    0 <= j < i ==> !((#[trigger] self.queries@[j]).host_id == host_id
                        && self.queries@[j].enabled && is_matched(
                        self.matches@,
                        self.queries@[j].id,
                        item_id,
                    )),
            decreases self.queries.len() - i,
        {
            let q = &self.queries[i];
            if q.host_id == host_id && q.enabled && self.is_matched_for(q.id, item_id) {
                return true;
            }
            i = i + 1;
        }
        false
    }

    /// The position of the filter stream `id`, if there is one.
    fn filter_position(&self, id: i64) -> (r: Option<usize>)
        ensures
            match r {
                Some(k) => k < self.filter_rows().len() && first_index(self.filter_rows(), filter_has_id(id)) == Some(k as int),
                None => first_index(self.filter_rows(), filter_has_id(id)) is None,
            },
    {
        let ghost p = filter_has_id(id);
        let mut i: usize = 0;
        while i < self.filters.len()
            invariant
                i <= self.filters.len(),
                forall|j: int| 0 <= j < i ==> !p(#[trigger] self.filters@[j]),
            decreases self.filters.len() - i,
        {
            if self.filters[i].id == id {
                proof {
                    lemma_first_index_is(self.filters@, p, i as int);
                }
                return Some(i);
            }
            i = i + 1;
        }
        proof {
            lemma_first_index_none(self.filters@, p);
        }
        None
    }

    /// The saved query of the filter stream `id`, if there is one.
    pub fn filter_query_of(&self, id: i64) -> (r: Option<i64>)
        ensures
            r == match first_index(self.filter_rows(), filter_has_id(id)) {
                Some(k) => Some(self.filter_rows()[k].saved_query_id),
                None => None::<i64>,
            },
    {
        match self.filter_position(id) {
            Some(k) => Some(self.filters[k].saved_query_id),
            None => None,
        }
    }

    /// The identifiers and kinds of the host's items, in order.
    pub fn item_keys(&self, host_id: i64) -> (r: Vec<(i64, ItemType)>)
        ensures
            r@ == self.item_rows().filter(|x: StoredItemView| x.host_id == host_id).map_values(
                |x: StoredItemView| (x.item.id, x.item.item_type),
            ),
    {
        let ghost pred = |x: StoredItemView| x.host_id == host_id;
        let ghost f = |x: StoredItemView| (x.item.id, x.item.item_type);
        let mut out: Vec<(i64, ItemType)> = Vec::new();
        let mut i: usize = 0;
        while i < self.items.len()
            invariant
                i <= self.items.len(),
                out@ == stored_views(self.items@).take(i as int).filter(pred).map_values(f),
            decreases self.items.len() - i,
        {
            proof {
                crate::seq_util::lemma_filter_take_step(stored_views(self.items@), pred, i as int);
            }
            let row = &self.items[i];
            assert(stored_views(self.items@)[i as int] == row@);
            if row.host_id == host_id {
                proof {
                    crate::seq_util::lemma_map_push(stored_views(self.items@).take(i as int).filter(pred), f, row@);
                }
                out.push((row.item.id, row.item.item_type));
            }
            i = i + 1;
        }
        assert(stored_views(self.items@).take(self.items.len() as int) =~= stored_views(self.items@));
        out
    }

    /// The saved query and the parsed filter of the filter stream `id`.
    fn filter_stream_setup(&self, id: i64) -> (r: (bool, i64, Option<Vec<FilterTerm>>))
        ensures
            match first_index(self.filter_rows(), filter_has_id(id)) {
                Some(k) => {
                    &&& r.0
                    &&& r.1 == self.filter_rows()[k].saved_query_id
                    &&& match crate::filter::parse_filter_spec(self.filter_rows()[k].filter_query@) {
                        Some(ts) => r.2 matches Some(v) && term_views(v@) == ts,
                        None => r.2 is None,
                    }
                },
                None => !r.0,
            },
    {
        match self.filter_position(id) {
            Some(k) => {
                let q = self.filters[k].saved_query_id;
                let terms = parse_filter(self.filters[k].filter_query.as_str());
                (true, q, terms)
            },
            None => (false, 0, None),
        }
    }

    /// Whether the row is in the selected view; for a filter stream, the
    /// caller hands over what `filter_stream_setup` found.
    fn member_at(
        &self,
        row: &StoredItem,
        host_id: i64,
        selection: Selection,
        stream_known: bool,
        stream_query: i64,
        stream_terms: &Option<Vec<FilterTerm>>,
    ) -> (r: bool)
        requires
            selection matches Selection::FilterStream(fid) ==> match first_index(
                self.filter_rows(),
                filter_has_id(fid),
            ) {
                Some(k) => {
                    &&& stream_known
                    &&& stream_query == self.filter_rows()[k].saved_query_id
                    &&& match crate::filter::parse_filter_spec(self.filter_rows()[k].filter_query@) {
                        Some(ts) => *stream_terms matches Some(v) && term_views(v@) == ts,
                        None => stream_terms is None,
                    }
                },
                None => !stream_known,
            },
        ensures
            r == selection_member(
                self.query_rows(),
                self.filter_rows(),
                self.match_rows(),
                host_id,
                selection,
                row@,
            ),
    {
        let item_id = row.item.id;
        match selection {
            Selection::Library(view) => {
                row.host_id == host_id && self.matched_by_enabled_for(host_id, item_id) && match view {
                    LibraryView::Inbox => !row.item.is_archived,
                    LibraryView::Unread => row.item.is_unread && !row.item.is_archived,
                    LibraryView::Bookmarked => row.item.is_bookmarked,
                    LibraryView::Archived => row.item.is_archived,
                }
            },
            Selection::SavedQuery(qid) => { self.is_matched_for(qid, item_id) && !row.item.is_archived },
            Selection::FilterStream(_) => {
                stream_known && self.is_matched_for(stream_query, item_id) && !row.item.is_archived
                    && match stream_terms {
                    Some(ts) => terms_match_item(ts, &row.item),
                    None => false,
                }
            },
        }
    }

    /// How many items a selected view holds.
    pub fn count_items(&self, host_id: i64, selection: Selection) -> (r: usize)
        ensures
            r == selected_items(*self, host_id, selection, None).len(),
    {
        let ghost pred = |r: StoredItemView|
            selection_member(self.query_rows(), self.filter_rows(), self.match_rows(), host_id, selection, r)
                && local_admits(None, r.item);
        let fid = match selection {
            Selection::FilterStream(fid) => fid,
            _ => 0,
        };
        let (stream_known, stream_query, stream_terms) = self.filter_stream_setup(fid);
        let mut count: usize = 0;
        let mut i: usize = 0;
        while i < self.items.len()
            invariant
                i <= self.items.len(),
                count == stored_views(self.items@).take(i as int).filter(pred).len(),
                count <= i,
            decreases self.items.len() - i,
        {
            let row = &self.items[i];
            let member = self.member_at(row, host_id, selection, stream_known, stream_query, &stream_terms);
            assert(stored_views(self.items@)[i as int] == row@);
            proof {
                crate::seq_util::lemma_filter_take_step(stored_views(self.items@), pred, i as int);
            }
            if member {
                count = count + 1;
            }
            i = i + 1;
        }
        assert(stored_views(self.items@).take(self.items.len() as int) =~= stored_views(self.items@));
        count
    }

    /// The badge counts of the library views of a host.
    pub fn library_counts(&self, host_id: i64) -> (r: LibraryCounts)
        ensures
            r.inbox == selected_items(*self, host_id, Selection::Library(LibraryView::Inbox), None).len(),
            r.unread == selected_items(*self, host_id, Selection::Library(LibraryView::Unread), None).len(),
            r.bookmarked == selected_items(*self, host_id, Selection::Library(LibraryView::Bookmarked), None).len(),
            r.archived == selected_items(*self, host_id, Selection::Library(LibraryView::Archived), None).len(),
    {
        LibraryCounts {
            inbox: self.count_items(host_id, Selection::Library(LibraryView::Inbox)),
            unread: self.count_items(host_id, Selection::Library(LibraryView::Unread)),
            bookmarked: self.count_items(host_id, Selection::Library(LibraryView::Bookmarked)),
            archived: self.count_items(host_id, Selection::Library(LibraryView::Archived)),
        }
    }

    /// Marks every item of a selected view read.
    pub fn mark_selection_read(&mut self, host_id: i64, selection: Selection)
        requires
            old(self).wf(),
        ensures
            final(self).wf(),
            final(self).item_rows() == old(self).item_rows().map_values(
                |r: StoredItemView|
                    if selection_member(
                        old(self).query_rows(),
                        old(self).filter_rows(),
                        old(self).match_rows(),
                        host_id,
                        selection,
                        r,
                    ) {
                        with_flag(r, ItemFlag::Unread, false)
                    } else {
                        r
                    },
            ),
            final(self).host_rows() == old(self).host_rows(),
            final(self).query_rows() == old(self).query_rows(),
            final(self).filter_rows() == old(self).filter_rows(),
            final(self).match_rows() == old(self).match_rows(),
            final(self).next_row_id() == old(self).next_row_id(),
    {
        let ghost old_rows = self.item_rows();
        let ghost target = old_rows.map_values(
            |r: StoredItemView|
                if selection_member(
                    old(self).query_rows(),
                    old(self).filter_rows(),
                    old(self).match_rows(),
                    host_id,
                    selection,
                    r,
                ) {
                    with_flag(r, ItemFlag::Unread, false)
                } else {
                    r
                },
        );
        let fid = match selection {
            Selection::FilterStream(fid) => fid,
            _ => 0,
        };
        let (stream_known, stream_query, stream_terms) = self.filter_stream_setup(fid);
        let mut i: usize = 0;
        while i < self.items.len()
            invariant
                i <= self.items.len(),
                self.items.len() == old_rows.len(),
                old_rows == old(self).item_rows(),
                self.hosts == old(self).hosts,
                self.queries == old(self).queries,
                self.filters == old(self).filters,
                self.matches == old(self).matches,
                self.next_id == old(self).next_id,
                forall|j: int| 0 <= j < i ==> (#[trigger] self.items@[j])@ == target[j],
                forall|j: int| i <= j < self.items.len() ==> (#[trigger] self.items@[j])@ == old_rows[j],
            decreases self.items.len() - i,
        {
            let member = self.member_at(
                &self.items[i],
                host_id,
                selection,
                stream_known,
                stream_query,
                &stream_terms,
            );
            let ghost before = self.items@;
            if member {
                let row = &mut self.items[i];
                row.item.is_unread = false;
            }
            assert(self.items@[i as int]@ == target[i as int]);
            assert(forall|j: int| 0 <= j < self.items.len() && j != i ==> self.items@[j] == before[j]);
            i = i + 1;
        }
        assert(self.item_rows() =~= target);
        assert forall|j: int| 0 <= j < self.item_rows().len() implies 1 <= (
        #[trigger] self.item_rows()[j]).item.id < self.next_row_id() && self.item_rows()[j].item.id
            == old(self).item_rows()[j].item.id by {
            assert(self.item_rows()[j] == self.items@[j]@);
            assert(old_rows[j] == old(self).items@[j]@);
            assert(old(self).item_rows()[j].item.id < self.next_row_id());
        }
        assert forall|a: int, b: int| 0 <= a < b < self.item_rows().len() implies (
        #[trigger] self.item_rows()[a]).item.id < (#[trigger] self.item_rows()[b]).item.id by {
            assert(self.item_rows()[a].item.id == old(self).item_rows()[a].item.id);
            assert(self.item_rows()[b].item.id == old(self).item_rows()[b].item.id);
        }
        assert(self.host_rows() == old(self).host_rows());
        assert(self.query_rows() == old(self).query_rows());
        assert(self.filter_rows() == old(self).filter_rows());
        assert(self.wf());
    }

    /// The items of a selected view, narrowed by a local filter and ordered.
    pub fn list_items(
        &self,
        host_id: i64,
        selection: Selection,
        local: Option<&Vec<FilterTerm>>,
        order: SortOrder,
    ) -> (r: Vec<StreamItem>)
        ensures
            is_listing(item_views(r@), *self, host_id, selection, local_view(local), order),
    {
        let ghost pred = |r: StoredItemView|
            selection_member(self.query_rows(), self.filter_rows(), self.match_rows(), host_id, selection, r)
                && local_admits(local_view(local), r.item);
        // What a filter stream selection needs: its saved query and terms.
        let fid = match selection {
            Selection::FilterStream(fid) => fid,
            _ => 0,
        };
        let (stream_known, stream_query, stream_terms) = self.filter_stream_setup(fid);
        let mut out: Vec<StreamItem> = Vec::new();
        let mut i: usize = 0;
        while i < self.items.len()
            invariant
                i <= self.items.len(),
                item_views(out@) == stored_views(self.items@).take(i as int).filter(pred).map_values(
                    |r: StoredItemView| r.item,
                ),
            decreases self.items.len() - i,
        {
            let row = &self.items[i];
            let item_id = row.item.id;
            let member = self.member_at(row, host_id, selection, stream_known, stream_query, &stream_terms);
            let admitted = match local {
                None => true,
                Some(ts) => terms_match_item(ts, &row.item),
            };
            assert(stored_views(self.items@)[i as int] == row@);
            proof {
                crate::seq_util::lemma_filter_take_step(stored_views(self.items@), pred, i as int);
            }
            let ghost before = out@;
            if member && admitted {
                out.push(row.item.copy());
                proof {
                    crate::seq_util::lemma_map_push(
                        stored_views(self.items@).take(i as int).filter(pred),
                        |r: StoredItemView| r.item,
                        row@,
                    );
                }
                assert(item_views(out@) =~= item_views(before).push(row.item@));
            }
            i = i + 1;
        }
        assert(stored_views(self.items@).take(self.items.len() as int) =~= stored_views(self.items@));
        sort_items(out, order)
    }
}


/// Whether a filter stream row belongs to the saved query `id`.
pub open spec fn filters_of_query(id: i64) -> spec_fn(FilterStream) -> bool {
    |f: FilterStream| f.saved_query_id == id
}

/// The saved query rows of an import, one by one.
proof fn lemma_imported_query_rows_at(defs: Seq<ImportedSavedQueryView>, host_id: i64, first: int)
    ensures
        imported_query_rows(defs, host_id, first).len() == defs.len(),
        forall|i: int|
            0 <= i < defs.len() ==> #[trigger] imported_query_rows(defs, host_id, first)[i] == (QueryRow {
                id: (first + def_span(defs.take(i))) as i64,
                host_id: host_id,
                name: defs[i].name,
                query: defs[i].query,
                source: defs[i].source,
                enabled: defs[i].enabled,
                position: defs[i].position,
            }),
    decreases defs.len(),
{
    if defs.len() > 0 {
        let pre = defs.drop_last();
        lemma_imported_query_rows_at(pre, host_id, first);
        assert forall|i: int| 0 <= i < defs.len() implies #[trigger] imported_query_rows(defs, host_id, first)[i]
            == (QueryRow {
            id: (first + def_span(defs.take(i))) as i64,
            host_id: host_id,
            name: defs[i].name,
            query: defs[i].query,
            source: defs[i].source,
            enabled: defs[i].enabled,
            position: defs[i].position,
        }) by {
            if i < pre.len() {
                assert(pre.take(i) =~= defs.take(i));
                assert(imported_query_rows(defs, host_id, first)[i] == imported_query_rows(pre, host_id, first)[i]);
            } else {
                assert(defs.take(i) =~= pre);
            }
        }
    }
}

/// The filter stream rows of an import belong to the queries it numbers,
/// from `first` on.
proof fn lemma_imported_filter_owners(defs: Seq<ImportedSavedQueryView>, first: int)
    requires
        1 <= first,
        first + def_span(defs) <= i64::MAX,
    ensures
        forall|x: int|
            0 <= x < imported_filter_rows(defs, first).len() ==> first <= (
            #[trigger] imported_filter_rows(defs, first)[x]).saved_query_id < first + def_span(defs),
    decreases defs.len(),
{
    if defs.len() > 0 {
        let pre = defs.drop_last();
        lemma_def_span_nonneg(pre);
        lemma_imported_filter_owners(pre, first);
        let fs = imported_filter_rows(defs, first);
        let head = imported_filter_rows(pre, first);
        assert forall|x: int| 0 <= x < fs.len() implies first <= (#[trigger] fs[x]).saved_query_id < first + def_span(
            defs,
        ) by {
            if x < head.len() {
                assert(fs[x] == head[x]);
            } else {
                assert(fs[x] == imported_filters_of(defs.last(), first + def_span(pre))[x - head.len()]);
            }
        }
    }
}

/// The filter stream rows of an import that belong to its `i`-th query are
/// those of its `i`-th definition.
proof fn lemma_imported_filters_of_query(defs: Seq<ImportedSavedQueryView>, first: int, i: int)
    requires
        1 <= first,
        first + def_span(defs) <= i64::MAX,
        0 <= i < defs.len(),
    ensures
        imported_filter_rows(defs, first).filter(filters_of_query((first + def_span(defs.take(i))) as i64))
            == imported_filters_of(defs[i], first + def_span(defs.take(i))),
    decreases defs.len(),
{
    let pre = defs.drop_last();
    let qid = first + def_span(defs.take(i));
    let p = filters_of_query(qid as i64);
    let qlast = first + def_span(pre);
    let tail = imported_filters_of(defs.last(), qlast);
    lemma_def_span_nonneg(pre);
    lemma_def_span_monotone(defs, i);
    lemma_def_span_monotone(defs, defs.len() - 1);
    assert(defs.take(defs.len() - 1) =~= pre);
    Seq::filter_distributes_over_add(imported_filter_rows(pre, first), tail, p);
    if i < pre.len() {
        assert(pre.take(i) =~= defs.take(i));
        assert(pre[i] == defs[i]);
        lemma_def_span_monotone(pre, i);
        lemma_imported_filters_of_query(pre, first, i);
        crate::seq_util::lemma_filter_none(tail, p);
        assert(imported_filter_rows(defs, first).filter(p) =~= imported_filters_of(defs[i], qid));
    } else {
        assert(defs.take(i) =~= pre);
        lemma_imported_filter_owners(pre, first);
        crate::seq_util::lemma_filter_none(imported_filter_rows(pre, first), p);
        crate::seq_util::lemma_filter_all(tail, p);
        assert(imported_filter_rows(defs, first).filter(p) =~= tail);
    }
}

/// The filter streams that an import made for a definition carry its
/// filter stream definitions.
proof fn lemma_exported_imported_filters(d: ImportedSavedQueryView, qid: int)
    ensures
        exported_filters(imported_filters_of(d, qid)) == d.filter_streams,
{
    assert(exported_filters(imported_filters_of(d, qid)) =~= d.filter_streams);
}

/// What an import leaves in the store, as `replace_saved_queries` states it.
pub open spec fn import_replaced(st0: Storage, st1: Storage, host_id: i64, defs: Seq<ImportedSavedQueryView>) -> bool {
    &&& st1.query_rows() == st0.query_rows().filter(|q: QueryRow| q.host_id != host_id) + imported_query_rows(
        defs,
        host_id,
        st0.next_row_id() as int,
    )
    &&& st1.filter_rows() == st0.filter_rows().filter(
        |f: FilterStream| !query_of_host(st0.query_rows(), f.saved_query_id, host_id),
    ) + imported_filter_rows(defs, st0.next_row_id() as int)
}

/// After an import, the host's saved query rows are the imported ones.
proof fn lemma_import_host_queries(st0: Storage, st1: Storage, host_id: i64, defs: Seq<ImportedSavedQueryView>)
    requires
        import_replaced(st0, st1, host_id, defs),
    ensures
        st1.query_rows().filter(|q: QueryRow| q.host_id == host_id) == imported_query_rows(
            defs,
            host_id,
            st0.next_row_id() as int,
        ),
{
    let first = st0.next_row_id() as int;
    let ne = |q: QueryRow| q.host_id != host_id;
    let eq = |q: QueryRow| q.host_id == host_id;
    let kq = st0.query_rows().filter(ne);
    let iq = imported_query_rows(defs, host_id, first);
    crate::seq_util::lemma_filter_members(st0.query_rows(), ne);
    lemma_imported_query_rows_at(defs, host_id, first);
    Seq::filter_distributes_over_add(kq, iq, eq);
    crate::seq_util::lemma_filter_none(kq, eq);
    crate::seq_util::lemma_filter_all(iq, eq);
    assert(st1.query_rows().filter(eq) =~= iq);
}

/// After an import, the filter streams of its `i`-th query are those of the
/// `i`-th definition.
proof fn lemma_import_query_filters(st0: Storage, st1: Storage, host_id: i64, defs: Seq<ImportedSavedQueryView>, i: int)
    requires
        st0.wf(),
        st0.next_row_id() + def_span(defs) <= i64::MAX,
        import_replaced(st0, st1, host_id, defs),
        0 <= i < defs.len(),
    ensures
        st1.filter_rows().filter(filters_of_query((st0.next_row_id() + def_span(defs.take(i))) as i64))
            == imported_filters_of(defs[i], st0.next_row_id() + def_span(defs.take(i))),
{
    let first = st0.next_row_id() as int;
    let fp = |f: FilterStream| !query_of_host(st0.query_rows(), f.saved_query_id, host_id);
    let kf = st0.filter_rows().filter(fp);
    let ifs = imported_filter_rows(defs, first);
    let qid = first + def_span(defs.take(i));
    lemma_def_span_monotone(defs, i);
    let p = filters_of_query(qid as i64);
    crate::seq_util::lemma_filter_members(st0.filter_rows(), fp);
    Seq::filter_distributes_over_add(kf, ifs, p);
    assert forall|k: int| 0 <= k < kf.len() implies !p(#[trigger] kf[k]) by {
        assert(st0.filter_rows().contains(kf[k]));
    }
    crate::seq_util::lemma_filter_none(kf, p);
    lemma_imported_filters_of_query(defs, first, i);
    assert(st1.filter_rows().filter(p) =~= imported_filters_of(defs[i], qid));
}

/// Importing definitions and then listing the host's saved queries gives
/// back the definitions, in their order, each with its filter streams: the
/// sidebar shows what the import wrote.
pub proof fn lemma_import_lists_definitions(
    st0: Storage,
    st1: Storage,
    host_id: i64,
    defs: Seq<ImportedSavedQueryView>,
)
    requires
        st0.wf(),
        st0.next_row_id() + def_span(defs) <= i64::MAX,
        import_replaced(st0, st1, host_id, defs),
    ensures
        snapshot(saved_query_list(st1.query_rows(), st1.filter_rows(), host_id)) == defs,
{
    let first = st0.next_row_id() as int;
    let iq = imported_query_rows(defs, host_id, first);
    lemma_import_host_queries(st0, st1, host_id, defs);
    lemma_imported_query_rows_at(defs, host_id, first);
    let list = saved_query_list(st1.query_rows(), st1.filter_rows(), host_id);
    assert(list.len() == defs.len());
    assert forall|i: int| 0 <= i < defs.len() implies #[trigger] snapshot(list)[i] == defs[i] by {
        let qid = first + def_span(defs.take(i));
        lemma_def_span_monotone(defs, i);
        assert(iq[i].id == qid);
        assert((|f: FilterStream| f.saved_query_id == iq[i].id) =~= filters_of_query(qid as i64));
        lemma_import_query_filters(st0, st1, host_id, defs, i);
        assert(list[i].filter_streams =~= imported_filters_of(defs[i], qid));
        lemma_exported_imported_filters(defs[i], qid);
    }
    assert(snapshot(list) =~= defs);
}

/// An edit that changes what a saved query searches for, its search text
/// or its source, drops every match recorded for it: none is left until a
/// refresh runs the new search. An edit that changes neither keeps the
/// matches as they were. The query's new search, source and state are stored.
pub proof fn lemma_query_edit_drops_stale_matches(
    st0: Storage,
    id: i64,
    name: String,
    query: String,
    source: StreamSource,
    enabled: bool,
    st1: Storage,
    i: int,
)
    requires
        query_edit_outcome(st0, id, name, query, source, enabled, st1),
        0 <= i < st0.query_rows().len(),
        st0.query_rows()[i].id == id,
    ensures
        st1.query_rows().len() == st0.query_rows().len(),
        st1.query_rows()[i].query == query && st1.query_rows()[i].source == source
            && st1.query_rows()[i].enabled == enabled && st1.query_rows()[i].name == name,
        st0.query_rows()[i].query@ != query@ || st0.query_rows()[i].source != source ==> forall|k: int|
            0 <= k < st1.match_rows().len() ==> (#[trigger] st1.match_rows()[k]).saved_query_id != id,
        (forall|j: int|
            0 <= j < st0.query_rows().len() && (#[trigger] st0.query_rows()[j]).id == id ==> st0.query_rows()[j].query@
                == query@ && st0.query_rows()[j].source == source) ==> st1.match_rows() == st0.match_rows(),
{
    let keep = |m: QueryMatch| m.saved_query_id != id;
    if st0.query_rows()[i].query@ != query@ || st0.query_rows()[i].source != source {
        crate::seq_util::lemma_filter_members(st0.match_rows(), keep);
    }
}

} // verus!
