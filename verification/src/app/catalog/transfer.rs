//! Export and import of saved query definitions in the demonstration: both
//! work on a snapshot kept in memory, and neither touches the given path.

#![verifier::loop_isolation(false)]

use vstd::prelude::*;
use vstd::string::*;
use crate::app::actions::reloaded;
use crate::app::screens::stream::StreamState;
use crate::app::{AppMode, GhStreamApp};
use crate::models::{
    FilterStream, ImportedFilterStream, ImportedSavedQuery, ImportedSavedQueryView, LibraryView,
    SavedQuery, Selection, copy_definitions, definition_views, exported_definition, item_views,
    exported_filters, query_views, snapshot,
};
use crate::storage::{
    QueryMatch, QueryRow, StorageError, StoredItemView, def_span, imported_filter_rows,
    imported_query_rows, is_matched, lemma_import_lists_definitions, local_admits,
    matched_by_enabled_query, query_of_host, selected_items, selection_member,
};
use crate::app::local_terms;
use crate::filter::TermSpec;
use crate::text::{blank, is_blank};
use super::fixtures::{definitions, is_sample_definitions};
use super::{CatalogApp, kept_but_mode, only_reported, reported};

verus! {

fn export_definition(q: &SavedQuery) -> (d: ImportedSavedQuery)
    ensures
        d@ == exported_definition(q@),
{
    let mut filters: Vec<ImportedFilterStream> = Vec::new();
    let mut i: usize = 0;
    while i < q.filter_streams.len()
        invariant
            i <= q.filter_streams.len(),
            filters@ == exported_filters(q.filter_streams@.take(i as int)),
        decreases q.filter_streams.len() - i,
    {
        let f = &q.filter_streams[i];
        filters.push(
            ImportedFilterStream {
                name: f.name.clone(),
                filter_query: f.filter_query.clone(),
                enabled: f.enabled,
                position: f.position,
            },
        );
        i = i + 1;
        assert(filters@ =~= exported_filters(q.filter_streams@.take(i as int)));
    }
    assert(q.filter_streams@.take(q.filter_streams.len() as int) =~= q.filter_streams@);
    ImportedSavedQuery {
        name: q.name.clone(),
        query: q.query.clone(),
        source: q.source,
        enabled: q.enabled,
        position: q.position,
        filter_streams: filters,
    }
}

fn export_definitions(qs: &Vec<SavedQuery>) -> (v: Vec<ImportedSavedQuery>)
    ensures
        definition_views(v@) == snapshot(query_views(qs@)),
{
    let mut out: Vec<ImportedSavedQuery> = Vec::new();
    let mut i: usize = 0;
    while i < qs.len()
        invariant
            i <= qs.len(),
            definition_views(out@) == snapshot(query_views(qs@.take(i as int))),
        decreases qs.len() - i,
    {
        let d = export_definition(&qs[i]);
        let ghost before = out@;
        out.push(d);
        proof {
            assert forall|j: int| 0 <= j < i + 1 implies #[trigger] definition_views(out@)[j] == snapshot(
                query_views(qs@.take(i + 1)),
            )[j] by {
                if j < i {
                    assert(definition_views(before)[j] == snapshot(query_views(qs@.take(i as int)))[j]);
                    assert(qs@.take(i as int)[j] == qs@.take(i + 1)[j]);
                }
            }
        }
        i = i + 1;
        assert(definition_views(out@) =~= snapshot(query_views(qs@.take(i as int))));
    }
    assert(qs@.take(qs.len() as int) =~= qs@);
    out
}

/// What exporting to `path` does: a blank path is refused; otherwise the
/// saved queries of the main screen are kept in memory as definitions.
pub open spec fn export_step(c0: CatalogApp, path: Seq<char>, c1: CatalogApp) -> bool {
    if blank(path) {
        only_reported(c0, c1, "Saved query export path must not be empty."@)
    } else {
        &&& kept_but_mode(c0.app, c1.app)
        &&& c1.app.mode == c0.app.mode
        &&& reported(c0.app, c1.app, "Demo export saved a snapshot in memory; no file was written."@)
        &&& match c0.app.mode {
            AppMode::Main(rt0) => c1.exported_queries matches Some(v) && definition_views(v@) == snapshot(
                query_views(rt0.saved_queries@),
            ),
            _ => c1.exported_queries == c0.exported_queries,
        }
    }
}

/// The definitions that an import brings: the last export, or the sample
/// definitions when nothing was exported.
pub open spec fn import_source(exported: Option<Vec<ImportedSavedQuery>>, defs: Seq<ImportedSavedQueryView>) -> bool {
    match exported {
        Some(v) => defs == definition_views(v@),
        None => is_sample_definitions(defs),
    }
}

/// The stream state once an import replaced the saved queries: a selected
/// saved query or filter stream is gone, so the inbox is shown instead.
pub open spec fn after_import_stream(s: StreamState) -> StreamState {
    match s.selection {
        Selection::Library(_) => s,
        _ => StreamState { selection: Selection::Library(LibraryView::Inbox), ..s },
    }
}

/// What importing `defs` does: on the main screen, the host's saved queries
/// and filter streams are replaced by the definitions, the matches of the
/// replaced queries go, and the screen shows the store again; when the
/// identifiers would run out, nothing changes and the import fails. On the
/// settings form only the status line changes.
pub open spec fn imported(
    c0: CatalogApp,
    defs: Seq<ImportedSavedQueryView>,
    c1: CatalogApp,
    r: Result<(), StorageError>,
) -> bool {
    let text = "Demo import restored sample definitions in memory; no file was read. Refresh to rebuild matches."@;
    match c0.app.mode {
        AppMode::Main(rt0) => {
            let st0 = rt0.storage;
            let first = st0.next_row_id() as int;
            if first + def_span(defs) <= i64::MAX {
                &&& r is Ok
                &&& c1.exported_queries == c0.exported_queries
                &&& c1.app == (GhStreamApp {
                    mode: c1.app.mode,
                    stream: after_import_stream(c0.app.stream),
                    status: c1.app.status,
                    status_history: c1.app.status_history,
                    ..c0.app
                })
                &&& reported(c0.app, c1.app, text)
                &&& c1.app.main_runtime() matches Some(rt1) && {
                    let st1 = rt1.storage;
                    &&& reloaded(*rt0, rt1, c1.app.stream)
                    &&& st1.host_rows() == st0.host_rows()
                    &&& st1.item_rows() == st0.item_rows()
                    &&& st1.query_rows() == st0.query_rows().filter(|q: QueryRow| q.host_id != rt0.host_id)
                        + imported_query_rows(defs, rt0.host_id, first)
                    &&& st1.filter_rows() == st0.filter_rows().filter(
                        |f: FilterStream| !query_of_host(st0.query_rows(), f.saved_query_id, rt0.host_id),
                    ) + imported_filter_rows(defs, first)
                    &&& st1.match_rows() == st0.match_rows().filter(
                        |m: QueryMatch| !query_of_host(st0.query_rows(), m.saved_query_id, rt0.host_id),
                    )
                    &&& st1.next_row_id() == first + def_span(defs)
                }
            } else {
                &&& r == Err::<(), StorageError>(StorageError::IdsExhausted)
                &&& c1 == c0
            }
        },
        _ => r is Ok && only_reported(c0, c1, text),
    }
}

/// What importing from `path` does: a blank path is refused; otherwise the
/// definitions of the last export, or the samples, are imported.
pub open spec fn import_step(c0: CatalogApp, path: Seq<char>, c1: CatalogApp, r: Result<(), StorageError>) -> bool {
    if blank(path) {
        r is Ok && only_reported(c0, c1, "Saved query import path must not be empty."@)
    } else {
        exists|defs: Seq<ImportedSavedQueryView>|
            #[trigger] import_source(c0.exported_queries, defs) && imported(c0, defs, c1, r)
    }
}

impl CatalogApp {
    /// Keeps the saved queries of the main screen in memory as definitions;
    /// the path is checked but never written.
    pub fn export_queries(&mut self, path: &str)
        requires
            old(self).wf(),
        ensures
            final(self).wf(),
            export_step(*old(self), path@, *final(self)),
    {
        if is_blank(path) {
            self.status("Saved query export path must not be empty.");
            return;
        }
        match &self.app.mode {
            AppMode::Main(rt) => {
                self.exported_queries = Some(export_definitions(&rt.saved_queries));
            },
            _ => {},
        }
        self.status("Demo export saved a snapshot in memory; no file was written.");
    }

    /// Replaces the host's saved queries by the definitions of the last
    /// export, or by the samples; the path is checked but never read.
    pub fn import_queries(&mut self, path: &str) -> (r: Result<(), StorageError>)
        requires
            old(self).wf(),
        ensures
            final(self).wf(),
            import_step(*old(self), path@, *final(self), r),
    {
        if is_blank(path) {
            self.status("Saved query import path must not be empty.");
            return Ok(());
        }
        let defs = match &self.exported_queries {
            Some(v) => copy_definitions(v),
            None => definitions(),
        };
        let ghost c0 = *self;
        let ghost dv = definition_views(defs@);
        assert(import_source(c0.exported_queries, dv));
        match self.app.take_mode() {
            AppMode::Main(rt) => {
                let mut rt = *rt;
                match rt.storage.replace_saved_queries(rt.host_id, &defs) {
                    Ok(_) => {},
                    Err(e) => {
                        self.app.mode = AppMode::Main(Box::new(rt));
                        assert(imported(c0, dv, *self, Err(e)));
                        return Err(e);
                    },
                }
                match self.app.stream.selection {
                    Selection::Library(_) => {},
                    _ => {
                        self.app.stream.selection = Selection::Library(LibraryView::Inbox);
                    },
                }
                rt.reload(&self.app.stream);
                self.app.mode = AppMode::Main(Box::new(rt));
            },
            other => {
                self.app.mode = other;
            },
        }
        self.status(
            "Demo import restored sample definitions in memory; no file was read. Refresh to rebuild matches.",
        );
        assert(imported(c0, dv, *self, Ok(())));
        Ok(())
    }
}

/// Export and then import restore the sidebar: once an import that follows
/// an export succeeds, the main screen lists, as definitions, exactly the
/// saved queries with their filter streams that it listed at the export.
pub proof fn lemma_export_import_roundtrip(
    c0: CatalogApp,
    p: Seq<char>,
    c1: CatalogApp,
    q: Seq<char>,
    c2: CatalogApp,
    r: Result<(), StorageError>,
)
    requires
        c0.wf(),
        c0.app.mode is Main,
        !blank(p),
        !blank(q),
        export_step(c0, p, c1),
        import_step(c1, q, c2, r),
        r is Ok,
    ensures
        c0.app.main_runtime() matches Some(rt0) && c2.app.main_runtime() matches Some(rt2) && snapshot(
            query_views(rt2.saved_queries@),
        ) == snapshot(query_views(rt0.saved_queries@)),
{
    let rt0 = c0.app.main_runtime()->0;
    let defs = snapshot(query_views(rt0.saved_queries@));
    let v = c1.exported_queries->0;
    assert(definition_views(v@) == defs);
    let d = choose|d: Seq<ImportedSavedQueryView>| #[trigger] import_source(c1.exported_queries, d) && imported(c1, d, c2, r);
    assert(d == defs);
    let rt2 = c2.app.main_runtime()->0;
    lemma_import_lists_definitions(rt0.storage, rt2.storage, rt0.host_id, defs);
}

/// The path given to an export or an import is never used but for being
/// refused when blank: two paths that are both blank, or both not, lead to
/// the same outcomes. No file is written or read.
pub proof fn lemma_transfer_ignores_path(
    c0: CatalogApp,
    p: Seq<char>,
    q: Seq<char>,
    c1: CatalogApp,
    r: Result<(), StorageError>,
)
    requires
        blank(p) == blank(q),
    ensures
        export_step(c0, p, c1) == export_step(c0, q, c1),
        import_step(c0, p, c1, r) == import_step(c0, q, c1, r),
{
}

/// An import empties the library: once it succeeded, no item of the host is
/// in a library view until a refresh finds items for the new saved queries,
/// so the main screen lists nothing and every library count is 0. (Every
/// match of the store refers to an identifier already handed out, as every
/// match that a refresh records does.)
pub proof fn lemma_import_empties_library(c0: CatalogApp, q: Seq<char>, c1: CatalogApp, r: Result<(), StorageError>)
    requires
        c0.wf(),
        c0.app.main_runtime() matches Some(rt0) && forall|k: int|
            0 <= k < rt0.storage.match_rows().len() ==> (#[trigger] rt0.storage.match_rows()[k]).saved_query_id
                < rt0.storage.next_row_id(),
        !blank(q),
        import_step(c0, q, c1, r),
        r is Ok,
    ensures
        c1.app.main_runtime() matches Some(rt1) && {
            &&& rt1.items@.len() == 0
            &&& rt1.library_counts.inbox == 0
            &&& rt1.library_counts.unread == 0
            &&& rt1.library_counts.bookmarked == 0
            &&& rt1.library_counts.archived == 0
        },
{
    let rt0 = c0.app.main_runtime()->0;
    let st0 = rt0.storage;
    let h = rt0.host_id;
    let first = st0.next_row_id() as int;
    let defs = choose|d: Seq<ImportedSavedQueryView>| #[trigger] import_source(c0.exported_queries, d) && imported(c0, d, c1, r);
    let rt1 = c1.app.main_runtime()->0;
    let st1 = rt1.storage;
    let ne = |qr: QueryRow| qr.host_id != h;
    let mp = |m: QueryMatch| !query_of_host(st0.query_rows(), m.saved_query_id, h);
    let kq = st0.query_rows().filter(ne);
    let iq = imported_query_rows(defs, h, first);
    crate::seq_util::lemma_filter_members(st0.query_rows(), ne);
    crate::seq_util::lemma_filter_members(st0.match_rows(), mp);
    crate::storage::lemma_imported_ids(defs, h, first);
    assert forall|id: i64| !matched_by_enabled_query(st1.query_rows(), st1.match_rows(), h, id) by {
        if matched_by_enabled_query(st1.query_rows(), st1.match_rows(), h, id) {
            let i = choose|i: int|
                0 <= i < st1.query_rows().len() && (#[trigger] st1.query_rows()[i]).host_id == h
                    && st1.query_rows()[i].enabled && is_matched(st1.match_rows(), st1.query_rows()[i].id, id);
            if i < kq.len() {
                assert(st1.query_rows()[i] == kq[i]);
            } else {
                assert(st1.query_rows()[i] == iq[i - kq.len()]);
                let m = QueryMatch { saved_query_id: st1.query_rows()[i].id, stream_item_id: id };
                let k = choose|k: int| 0 <= k < st1.match_rows().len() && st1.match_rows()[k] == m;
                assert(st0.match_rows().contains(st1.match_rows()[k]));
            }
        }
    }
    assert forall|v: LibraryView, local: Option<Seq<TermSpec>>|
        #[trigger] selected_items(st1, h, Selection::Library(v), local).len() == 0 by {
        let pred = |x: StoredItemView|
            selection_member(st1.query_rows(), st1.filter_rows(), st1.match_rows(), h, Selection::Library(v), x)
                && local_admits(local, x.item);
        assert forall|j: int| 0 <= j < st1.item_rows().len() implies !pred(#[trigger] st1.item_rows()[j]) by {
            assert(!matched_by_enabled_query(st1.query_rows(), st1.match_rows(), h, st1.item_rows()[j].item.id));
        }
        crate::seq_util::lemma_filter_none(st1.item_rows(), pred);
    }
    let shown = selected_items(st1, h, c1.app.stream.selection, local_terms(c1.app.stream.local_filter));
    assert(shown.len() == 0);
    assert(shown.to_multiset().len() == 0) by {
        vstd::seq_lib::to_multiset_len(shown);
    }
    vstd::seq_lib::to_multiset_len(item_views(rt1.items@));
    assert(selected_items(st1, h, Selection::Library(LibraryView::Inbox), None).len() == 0);
    assert(selected_items(st1, h, Selection::Library(LibraryView::Unread), None).len() == 0);
    assert(selected_items(st1, h, Selection::Library(LibraryView::Bookmarked), None).len() == 0);
    assert(selected_items(st1, h, Selection::Library(LibraryView::Archived), None).len() == 0);
}

} // verus!
