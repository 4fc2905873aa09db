//! The local handling of stream events: what each one does to the store,
//! the stream state and the status line.

#![verifier::loop_isolation(false)]

use vstd::prelude::*;
use vstd::string::*;
use crate::filter::{parse_filter, valid_filter};
use crate::models::{LibraryView, Selection, StreamSource};
use crate::storage::{
    ItemFlag, Storage, StorageError, definition_changed, edited_filters, edited_queries,
    filter_has_id, moved_queries, next_filter_position, next_query_position, selection_member,
    selected_items, set_flag_rows, store_is, with_flag, QueryMatch, QueryRow, StoredItemView,
};
use crate::models::FilterStream;
use crate::seq_util::first_index;
use crate::text::{blank, is_blank};
use super::Runtime;
use super::screens::stream::{ItemAction, StreamState};

verus! {

/// What a handled event has to say on the status line.
#[derive(Clone, Debug, PartialEq)]
pub enum Notice {
    Quiet,
    Info(String),
    Error(String),
}

/// The runtime shows what its store holds for the stream state, with its
/// configuration and host kept.
pub open spec fn reloaded(old: Runtime, new: Runtime, stream: StreamState) -> bool {
    &&& new.fresh(stream)
    &&& new.config == old.config
    &&& new.host_id == old.host_id
}

/// The store is unchanged.
pub open spec fn store_kept(old: Runtime, new: Runtime) -> bool {
    store_is(
        new.storage,
        old.storage.host_rows(),
        old.storage.item_rows(),
        old.storage.query_rows(),
        old.storage.filter_rows(),
        old.storage.match_rows(),
        old.storage.next_row_id(),
    )
}

/// What a refused store change reads as on the status line.
pub open spec fn storage_error_text(e: StorageError) -> Seq<char> {
    match e {
        StorageError::IdsExhausted => "Storage failed: no identifiers are left."@,
        StorageError::UnknownSavedQuery => "Storage failed: the saved query no longer exists."@,
    }
}

pub fn storage_error_message(e: StorageError) -> (s: String)
    ensures
        s@ == storage_error_text(e),
{
    match e {
        StorageError::IdsExhausted => String::from_str("Storage failed: no identifiers are left."),
        StorageError::UnknownSavedQuery => String::from_str(
            "Storage failed: the saved query no longer exists.",
        ),
    }
}

/// The status text for a filter that is refused.
pub open spec fn unsupported_filter_text(t: Seq<char>) -> Seq<char> {
    "Unsupported filter: "@ + t
}

fn unsupported_filter_message(t: &String) -> (s: String)
    ensures
        s@ == unsupported_filter_text(t@),
{
    String::from_str("Unsupported filter: ").concat(t.as_str())
}

/// What `select` does.
pub open spec fn select_step(rt0: Runtime, s0: StreamState, selection: Selection, rt1: Runtime, s1: StreamState, n: Notice) -> bool {
    &&& s1 == (StreamState { selection: selection, ..s0 })
    &&& store_kept(rt0, rt1)
    &&& reloaded(rt0, rt1, s1)
    &&& n == Notice::Quiet
}

/// Shows another sidebar entry.
pub fn select(rt: &mut Runtime, stream: &mut StreamState, selection: Selection) -> (n: Notice)
    requires
        old(rt).storage.wf(),
    ensures
        select_step(*old(rt), *old(stream), selection, *final(rt), *final(stream), n),
{
    stream.selection = selection;
    rt.reload(stream);
    Notice::Quiet
}

/// What `show_updates` does.
pub open spec fn show_updates_step(rt0: Runtime, s0: StreamState, rt1: Runtime, n: Notice) -> bool {
    &&& store_kept(rt0, rt1)
    &&& reloaded(rt0, rt1, s0)
    &&& n == Notice::Quiet
}

/// Reloads the stream from the store.
pub fn show_updates(rt: &mut Runtime, stream: &StreamState) -> (n: Notice)
    requires
        old(rt).storage.wf(),
    ensures
        show_updates_step(*old(rt), *stream, *final(rt), n),
{
    rt.reload(stream);
    Notice::Quiet
}

/// What `set_filter_input` does.
pub open spec fn set_filter_input_step(s0: StreamState, text: String, s1: StreamState, n: Notice) -> bool {
    &&& s1 == (StreamState { local_filter_input: text, ..s0 })
    &&& n == Notice::Quiet
}

/// Edits the toolbar filter text.
pub fn set_filter_input(stream: &mut StreamState, text: String) -> (n: Notice)
    ensures
        set_filter_input_step(*old(stream), text, *final(stream), n),
{
    stream.local_filter_input = text;
    Notice::Quiet
}

/// The toolbar filter text with a term added: the term alone when the text
/// is blank, else after a space.
pub open spec fn with_term(input: Seq<char>, term: Seq<char>) -> Seq<char> {
    if blank(input) {
        term
    } else {
        input + " "@ + term
    }
}

/// What `add_filter_input_term` does.
pub open spec fn add_filter_input_term_step(s0: StreamState, term: String, s1: StreamState, n: Notice) -> bool {
    &&& s1.local_filter_input@ == with_term(s0.local_filter_input@, term@)
    &&& s1 == (StreamState {
        local_filter_input: s1.local_filter_input,
        ..s0
    })
    &&& n == Notice::Quiet
}

/// Adds a term to the toolbar filter text.
pub fn add_filter_input_term(stream: &mut StreamState, term: &String) -> (n: Notice)
    ensures
        add_filter_input_term_step(*old(stream), *term, *final(stream), n),
{
    if is_blank(stream.local_filter_input.as_str()) {
        stream.local_filter_input = term.clone();
    } else {
        let text = stream.local_filter_input.clone().concat(" ").concat(term.as_str());
        stream.local_filter_input = text;
    }
    Notice::Quiet
}

/// What `set_local_filter` does.
pub open spec fn set_local_filter_step(rt0: Runtime, s0: StreamState, filter: Option<String>, rt1: Runtime, s1: StreamState, n: Notice) -> bool {
    &&& store_kept(rt0, rt1)
    &&& match filter {
        Some(t) if !blank(t@) && !valid_filter(t@) => {
            &&& rt1 == rt0
            &&& s1 == s0
            &&& n matches Notice::Error(m) && m@ == unsupported_filter_text(t@)
        },
        _ => {
            &&& s1 == (StreamState {
                local_filter: match filter {
                    Some(t) if !blank(t@) => Some(t),
                    _ => None,
                },
                ..s0
            })
            &&& reloaded(rt0, rt1, s1)
            &&& n == Notice::Quiet
        }
    }
}

/// Applies a local filter: none or a blank one clears it, a valid one
/// narrows the stream, a refused one changes nothing and is reported.
pub fn set_local_filter(rt: &mut Runtime, stream: &mut StreamState, filter: Option<String>) -> (n: Notice)
    requires
        old(rt).storage.wf(),
    ensures
        set_local_filter_step(*old(rt), *old(stream), filter, *final(rt), *final(stream), n),
{
    match filter {
        None => {
            stream.local_filter = None;
        },
        Some(t) => {
            if is_blank(t.as_str()) {
                stream.local_filter = None;
            } else {
                match parse_filter(t.as_str()) {
                    Some(_) => {
                        stream.local_filter = Some(t);
                    },
                    None => {
                        return Notice::Error(unsupported_filter_message(&t));
                    },
                }
            }
        },
    }
    rt.reload(stream);
    Notice::Quiet
}

/// What `item_action` does.
pub open spec fn item_action_step(rt0: Runtime, s0: StreamState, action: ItemAction, rt1: Runtime, n: Notice) -> bool {
    &&& match action {
        ItemAction::Open { .. } => store_kept(rt0, rt1),
        ItemAction::MarkRead(id) => item_flag_set(rt0, rt1, id, ItemFlag::Unread, false),
        ItemAction::MarkUnread(id) => item_flag_set(rt0, rt1, id, ItemFlag::Unread, true),
        ItemAction::Bookmark(id, b) => item_flag_set(rt0, rt1, id, ItemFlag::Bookmarked, b),
        ItemAction::Archive(id, b) => item_flag_set(rt0, rt1, id, ItemFlag::Archived, b)
    }
    &&& reloaded(rt0, rt1, s0)
    &&& n == Notice::Quiet
}

/// Changes an item's local state.
pub fn item_action(rt: &mut Runtime, stream: &StreamState, action: &ItemAction) -> (n: Notice)
    requires
        old(rt).storage.wf(),
    ensures
        item_action_step(*old(rt), *stream, *action, *final(rt), n),
{
    match action {
        ItemAction::Open { .. } => {},
        ItemAction::MarkRead(id) => rt.storage.set_read_state(*id, false),
        ItemAction::MarkUnread(id) => rt.storage.set_read_state(*id, true),
        ItemAction::Bookmark(id, b) => rt.storage.set_bookmarked(*id, *b),
        ItemAction::Archive(id, b) => rt.storage.set_archived(*id, *b),
    }
    rt.reload(stream);
    Notice::Quiet
}

/// The store changed only in one state flag of the item `id`.
pub open spec fn item_flag_set(old: Runtime, new: Runtime, id: i64, flag: ItemFlag, value: bool) -> bool {
    store_is(
        new.storage,
        old.storage.host_rows(),
        set_flag_rows(old.storage.item_rows(), id, flag, value),
        old.storage.query_rows(),
        old.storage.filter_rows(),
        old.storage.match_rows(),
        old.storage.next_row_id(),
    )
}

/// What `mark_read` does.
pub open spec fn mark_read_step(rt0: Runtime, s0: StreamState, selection: Selection, rt1: Runtime, n: Notice) -> bool {
    &&& marked_read(rt0, rt1, selection)
    &&& reloaded(rt0, rt1, s0)
    &&& n matches Notice::Info(m) && m@ == "Marked as read."@
}

/// Marks every item of a sidebar entry read.
pub fn mark_read(rt: &mut Runtime, stream: &StreamState, selection: Selection) -> (n: Notice)
    requires
        old(rt).storage.wf(),
    ensures
        mark_read_step(*old(rt), *stream, selection, *final(rt), n),
{
    let host_id = rt.host_id;
    rt.storage.mark_selection_read(host_id, selection);
    rt.reload(stream);
    Notice::Info(String::from_str("Marked as read."))
}

/// The store changed only in that the items of the entry became read.
pub open spec fn marked_read(old: Runtime, new: Runtime, selection: Selection) -> bool {
    store_is(
        new.storage,
        old.storage.host_rows(),
        old.storage.item_rows().map_values(
            |r: StoredItemView|
                if selection_member(
                    old.storage.query_rows(),
                    old.storage.filter_rows(),
                    old.storage.match_rows(),
                    old.host_id,
                    selection,
                    r,
                ) {
                    with_flag(r, ItemFlag::Unread, false)
                } else {
                    r
                },
        ),
        old.storage.query_rows(),
        old.storage.filter_rows(),
        old.storage.match_rows(),
        old.storage.next_row_id(),
    )
}

/// Nothing of the runtime changed.
pub open spec fn runtime_kept(old: Runtime, new: Runtime) -> bool {
    &&& store_kept(old, new)
    &&& new.config == old.config
    &&& new.host_id == old.host_id
    &&& new.library_counts == old.library_counts
    &&& new.saved_queries == old.saved_queries
    &&& new.items == old.items
}

/// A runtime that shows what its store holds keeps doing so when nothing
/// of it changes.
pub proof fn lemma_runtime_kept_fresh(old: Runtime, new: Runtime, stream: StreamState)
    requires
        old.fresh(stream),
        runtime_kept(old, new),
    ensures
        new.fresh(stream),
{
    assert(selected_items(new.storage, new.host_id, stream.selection, crate::app::local_terms(stream.local_filter))
        == selected_items(old.storage, old.host_id, stream.selection, crate::app::local_terms(stream.local_filter)));
    assert(selected_items(new.storage, new.host_id, Selection::Library(LibraryView::Inbox), None)
        == selected_items(old.storage, old.host_id, Selection::Library(LibraryView::Inbox), None));
    assert(selected_items(new.storage, new.host_id, Selection::Library(LibraryView::Unread), None)
        == selected_items(old.storage, old.host_id, Selection::Library(LibraryView::Unread), None));
    assert(selected_items(new.storage, new.host_id, Selection::Library(LibraryView::Bookmarked), None)
        == selected_items(old.storage, old.host_id, Selection::Library(LibraryView::Bookmarked), None));
    assert(selected_items(new.storage, new.host_id, Selection::Library(LibraryView::Archived), None)
        == selected_items(old.storage, old.host_id, Selection::Library(LibraryView::Archived), None));
}

pub open spec fn query_name_empty_text() -> Seq<char> {
    "Saved query name must not be empty."@
}

pub open spec fn query_text_empty_text() -> Seq<char> {
    "Saved query must not be empty."@
}

pub open spec fn filter_name_empty_text() -> Seq<char> {
    "Filter stream name must not be empty."@
}

/// What `add_query` does.
pub open spec fn add_query_step(rt0: Runtime, s0: StreamState, name: String, query: String, source: StreamSource, enabled: bool, rt1: Runtime, s1: StreamState, n: Notice) -> bool {
    &&& if blank(name@) {
        &&& runtime_kept(rt0, rt1)
        &&& s1 == s0
        &&& n matches Notice::Error(m) && m@ == query_name_empty_text()
    } else if blank(query@) {
        &&& runtime_kept(rt0, rt1)
        &&& s1 == s0
        &&& n matches Notice::Error(m) && m@ == query_text_empty_text()
    } else if rt0.storage.next_row_id() < i64::MAX {
        let id = rt0.storage.next_row_id();
        &&& store_is(
            rt1.storage,
            rt0.storage.host_rows(),
            rt0.storage.item_rows(),
            rt0.storage.query_rows().push(
                QueryRow {
                    id: id,
                    host_id: rt0.host_id,
                    name: name,
                    query: query,
                    source: source,
                    enabled: enabled,
                    position: next_query_position(rt0.storage.query_rows(), rt0.host_id),
                },
            ),
            rt0.storage.filter_rows(),
            rt0.storage.match_rows(),
            (id + 1) as i64,
        )
        &&& s1 == (StreamState { selection: Selection::SavedQuery(id), ..s0 })
        &&& reloaded(rt0, rt1, s1)
        &&& n matches Notice::Info(m) && m@ == "Saved query added. Refresh to fetch its items."@
    } else {
        &&& runtime_kept(rt0, rt1)
        &&& s1 == s0
        &&& n matches Notice::Error(m) && m@ == storage_error_text(StorageError::IdsExhausted)
    }
}

/// Adds a saved query and shows it. A blank name or query is refused.
pub fn add_query(
    rt: &mut Runtime,
    stream: &mut StreamState,
    name: String,
    query: String,
    source: StreamSource,
    enabled: bool,
) -> (n: Notice)
    requires
        old(rt).storage.wf(),
    ensures
        add_query_step(*old(rt), *old(stream), name, query, source, enabled, *final(rt), *final(stream), n),
{
    if is_blank(name.as_str()) {
        return Notice::Error(String::from_str("Saved query name must not be empty."));
    }
    if is_blank(query.as_str()) {
        return Notice::Error(String::from_str("Saved query must not be empty."));
    }
    let host_id = rt.host_id;
    match rt.storage.add_saved_query(host_id, name, query, source, enabled) {
        Ok(id) => {
            stream.selection = Selection::SavedQuery(id);
            rt.reload(stream);
            Notice::Info(String::from_str("Saved query added. Refresh to fetch its items."))
        },
        Err(e) => Notice::Error(storage_error_message(e)),
    }
}

/// What `update_query` does.
pub open spec fn update_query_step(rt0: Runtime, s0: StreamState, id: i64, name: String, query: String, source: StreamSource, enabled: bool, rt1: Runtime, n: Notice) -> bool {
    &&& if blank(name@) {
        &&& runtime_kept(rt0, rt1)
        &&& n matches Notice::Error(m) && m@ == query_name_empty_text()
    } else if blank(query@) {
        &&& runtime_kept(rt0, rt1)
        &&& n matches Notice::Error(m) && m@ == query_text_empty_text()
    } else {
        &&& store_is(
            rt1.storage,
            rt0.storage.host_rows(),
            rt0.storage.item_rows(),
            edited_queries(rt0.storage.query_rows(), id, name, query, source, enabled),
            rt0.storage.filter_rows(),
            if definition_changed(rt0.storage.query_rows(), id, query@, source) {
                rt0.storage.match_rows().filter(|m: QueryMatch| m.saved_query_id != id)
            } else {
                rt0.storage.match_rows()
            },
            rt0.storage.next_row_id(),
        )
        &&& reloaded(rt0, rt1, s0)
        &&& n matches Notice::Info(m) && m@ == "Saved query updated."@
    }
}

/// Edits a saved query. A blank name or query is refused.
pub fn update_query(
    rt: &mut Runtime,
    stream: &StreamState,
    id: i64,
    name: String,
    query: String,
    source: StreamSource,
    enabled: bool,
) -> (n: Notice)
    requires
        old(rt).storage.wf(),
    ensures
        update_query_step(*old(rt), *stream, id, name, query, source, enabled, *final(rt), n),
{
    if is_blank(name.as_str()) {
        return Notice::Error(String::from_str("Saved query name must not be empty."));
    }
    if is_blank(query.as_str()) {
        return Notice::Error(String::from_str("Saved query must not be empty."));
    }
    rt.storage.update_saved_query(id, name, query, source, enabled);
    rt.reload(stream);
    Notice::Info(String::from_str("Saved query updated."))
}

/// Whether a selection shows the saved query `id` or one of its filter
/// streams.
pub open spec fn shows_query(selection: Selection, filters: Seq<FilterStream>, id: i64) -> bool {
    match selection {
        Selection::SavedQuery(q) => q == id,
        Selection::FilterStream(f) => match first_index(filters, filter_has_id(f)) {
            Some(k) => filters[k].saved_query_id == id,
            None => false,
        },
        Selection::Library(_) => false,
    }
}

/// What `delete_query` does.
pub open spec fn delete_query_step(rt0: Runtime, s0: StreamState, id: i64, rt1: Runtime, s1: StreamState, n: Notice) -> bool {
    &&& store_is(
        rt1.storage,
        rt0.storage.host_rows(),
        rt0.storage.item_rows(),
        rt0.storage.query_rows().filter(|q: QueryRow| q.id != id),
        rt0.storage.filter_rows().filter(|f: FilterStream| f.saved_query_id != id),
        rt0.storage.match_rows().filter(|m: QueryMatch| m.saved_query_id != id),
        rt0.storage.next_row_id()
    )
    &&& s1 == (StreamState {
        selection: if shows_query(s0.selection, rt0.storage.filter_rows(), id) {
            Selection::Library(LibraryView::Inbox)
        } else {
            s0.selection
        },
        ..s0
    })
    &&& reloaded(rt0, rt1, s1)
    &&& n matches Notice::Info(m) && m@ == "Saved query deleted."@
}

/// Deletes a saved query with its filter streams; when the stream showed
/// one of them, it goes back to the inbox.
pub fn delete_query(rt: &mut Runtime, stream: &mut StreamState, id: i64) -> (n: Notice)
    requires
        old(rt).storage.wf(),
    ensures
        delete_query_step(*old(rt), *old(stream), id, *final(rt), *final(stream), n),
{
    let shown = match stream.selection {
        Selection::SavedQuery(q) => q == id,
        Selection::FilterStream(f) => rt.storage.filter_query_of(f) == Some(id),
        Selection::Library(_) => false,
    };
    if shown {
        stream.selection = Selection::Library(LibraryView::Inbox);
    }
    rt.storage.delete_saved_query(id);
    rt.reload(stream);
    Notice::Info(String::from_str("Saved query deleted."))
}

/// What `move_query` does.
pub open spec fn move_query_step(rt0: Runtime, s0: StreamState, id: i64, up: bool, rt1: Runtime, n: Notice) -> bool {
    &&& store_is(
        rt1.storage,
        rt0.storage.host_rows(),
        rt0.storage.item_rows(),
        moved_queries(rt0.storage.query_rows(), id, up),
        rt0.storage.filter_rows(),
        rt0.storage.match_rows(),
        rt0.storage.next_row_id()
    )
    &&& reloaded(rt0, rt1, s0)
    &&& n == Notice::Quiet
}

/// Moves a saved query one place up or down.
pub fn move_query(rt: &mut Runtime, stream: &StreamState, id: i64, up: bool) -> (n: Notice)
    requires
        old(rt).storage.wf(),
    ensures
        move_query_step(*old(rt), *stream, id, up, *final(rt), n),
{
    rt.storage.move_saved_query(id, up);
    rt.reload(stream);
    Notice::Quiet
}

/// What `add_filter_stream` does.
pub open spec fn add_filter_stream_step(rt0: Runtime, s0: StreamState, saved_query_id: i64, name: String, filter_query: String, enabled: bool, rt1: Runtime, s1: StreamState, n: Notice) -> bool {
    &&& if blank(name@) {
        &&& runtime_kept(rt0, rt1)
        &&& s1 == s0
        &&& n matches Notice::Error(m) && m@ == filter_name_empty_text()
    } else if !valid_filter(filter_query@) {
        &&& runtime_kept(rt0, rt1)
        &&& s1 == s0
        &&& n matches Notice::Error(m) && m@ == unsupported_filter_text(filter_query@)
    } else if !(exists|i: int|
        0 <= i < rt0.storage.query_rows().len() && (#[trigger] rt0.storage.query_rows()[i]).id
            == saved_query_id) {
        &&& runtime_kept(rt0, rt1)
        &&& s1 == s0
        &&& n matches Notice::Error(m) && m@ == storage_error_text(StorageError::UnknownSavedQuery)
    } else if rt0.storage.next_row_id() < i64::MAX {
        let id = rt0.storage.next_row_id();
        &&& store_is(
            rt1.storage,
            rt0.storage.host_rows(),
            rt0.storage.item_rows(),
            rt0.storage.query_rows(),
            rt0.storage.filter_rows().push(
                FilterStream {
                    id: id,
                    saved_query_id: saved_query_id,
                    name: name,
                    filter_query: filter_query,
                    enabled: enabled,
                    position: next_filter_position(rt0.storage.filter_rows(), saved_query_id),
                },
            ),
            rt0.storage.match_rows(),
            (id + 1) as i64,
        )
        &&& s1 == (StreamState { selection: Selection::FilterStream(id), ..s0 })
        &&& reloaded(rt0, rt1, s1)
        &&& n matches Notice::Info(m) && m@ == "Filter stream added."@
    } else {
        &&& runtime_kept(rt0, rt1)
        &&& s1 == s0
        &&& n matches Notice::Error(m) && m@ == storage_error_text(StorageError::IdsExhausted)
    }
}

/// Adds a filter stream to a saved query and shows it. A blank name or a
/// refused filter is reported instead.
pub fn add_filter_stream(
    rt: &mut Runtime,
    stream: &mut StreamState,
    saved_query_id: i64,
    name: String,
    filter_query: String,
    enabled: bool,
) -> (n: Notice)
    requires
        old(rt).storage.wf(),
    ensures
        add_filter_stream_step(*old(rt), *old(stream), saved_query_id, name, filter_query, enabled, *final(rt), *final(stream), n),
{
    if is_blank(name.as_str()) {
        return Notice::Error(String::from_str("Filter stream name must not be empty."));
    }
    if parse_filter(filter_query.as_str()).is_none() {
        return Notice::Error(unsupported_filter_message(&filter_query));
    }
    match rt.storage.add_filter_stream(saved_query_id, name, filter_query, enabled) {
        Ok(id) => {
            stream.selection = Selection::FilterStream(id);
            rt.reload(stream);
            Notice::Info(String::from_str("Filter stream added."))
        },
        Err(e) => Notice::Error(storage_error_message(e)),
    }
}

/// What `update_filter_stream` does.
pub open spec fn update_filter_stream_step(rt0: Runtime, s0: StreamState, id: i64, name: String, filter_query: String, enabled: bool, rt1: Runtime, n: Notice) -> bool {
    &&& if blank(name@) {
        &&& runtime_kept(rt0, rt1)
        &&& n matches Notice::Error(m) && m@ == filter_name_empty_text()
    } else if !valid_filter(filter_query@) {
        &&& runtime_kept(rt0, rt1)
        &&& n matches Notice::Error(m) && m@ == unsupported_filter_text(filter_query@)
    } else {
        &&& store_is(
            rt1.storage,
            rt0.storage.host_rows(),
            rt0.storage.item_rows(),
            rt0.storage.query_rows(),
            edited_filters(rt0.storage.filter_rows(), id, name, filter_query, enabled),
            rt0.storage.match_rows(),
            rt0.storage.next_row_id(),
        )
        &&& reloaded(rt0, rt1, s0)
        &&& n matches Notice::Info(m) && m@ == "Filter stream updated."@
    }
}

/// Edits a filter stream. A blank name or a refused filter is reported
/// instead.
pub fn update_filter_stream(
    rt: &mut Runtime,
    stream: &StreamState,
    id: i64,
    name: String,
    filter_query: String,
    enabled: bool,
) -> (n: Notice)
    requires
        old(rt).storage.wf(),
    ensures
        update_filter_stream_step(*old(rt), *stream, id, name, filter_query, enabled, *final(rt), n),
{
    if is_blank(name.as_str()) {
        return Notice::Error(String::from_str("Filter stream name must not be empty."));
    }
    if parse_filter(filter_query.as_str()).is_none() {
        return Notice::Error(unsupported_filter_message(&filter_query));
    }
    rt.storage.update_filter_stream(id, name, filter_query, enabled);
    rt.reload(stream);
    Notice::Info(String::from_str("Filter stream updated."))
}

/// What `delete_filter_stream` does.
pub open spec fn delete_filter_stream_step(rt0: Runtime, s0: StreamState, id: i64, rt1: Runtime, s1: StreamState, n: Notice) -> bool {
    &&& store_is(
        rt1.storage,
        rt0.storage.host_rows(),
        rt0.storage.item_rows(),
        rt0.storage.query_rows(),
        rt0.storage.filter_rows().filter(|f: FilterStream| f.id != id),
        rt0.storage.match_rows(),
        rt0.storage.next_row_id()
    )
    &&& s1 == (StreamState {
        selection: if s0.selection == Selection::FilterStream(id) {
            Selection::Library(LibraryView::Inbox)
        } else {
            s0.selection
        },
        ..s0
    })
    &&& reloaded(rt0, rt1, s1)
    &&& n matches Notice::Info(m) && m@ == "Filter stream deleted."@
}

/// Deletes a filter stream; when the stream showed it, it goes back to the
/// inbox.
pub fn delete_filter_stream(rt: &mut Runtime, stream: &mut StreamState, id: i64) -> (n: Notice)
    requires
        old(rt).storage.wf(),
    ensures
        delete_filter_stream_step(*old(rt), *old(stream), id, *final(rt), *final(stream), n),
{
    let shown = match stream.selection {
        Selection::FilterStream(f) => f == id,
        _ => false,
    };
    if shown {
        stream.selection = Selection::Library(LibraryView::Inbox);
    }
    rt.storage.delete_filter_stream(id);
    rt.reload(stream);
    Notice::Info(String::from_str("Filter stream deleted."))
}

} // verus!
