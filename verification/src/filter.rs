//! The local filter language of the toolbar and of filter streams.
//!
//! A filter is a list of terms separated by white space. Each term is a
//! qualifier, a colon and a value: `is:pr`, `is:issue`, `is:discussion`,
//! `is:open`, `is:closed`, `is:merged`, `is:draft`, `is:unread`, `is:read`,
//! `is:bookmarked`, `is:archived`, `author:<login>` or `label:<name>`. An item
//! matches a filter when it matches every term; a filter with an unknown
//! term is refused as a whole.

use vstd::prelude::*;
use vstd::string::*;
use crate::models::{ItemType, StreamItem, StreamItemView};
use crate::text::{chars_of, is_white_space, push_char, white_space};

verus! {

/// One term of a filter, as a mathematical value.
pub enum TermSpec {
    Kind(ItemType),
    Open,
    Closed,
    Merged,
    Draft,
    Unread,
    Read,
    Bookmarked,
    Archived,
    Author(Seq<char>),
    Label(Seq<char>),
}

/// One parsed term of a filter.
#[derive(Clone, Debug, PartialEq)]
pub enum FilterTerm {
    Kind(ItemType),
    Open,
    Closed,
    Merged,
    Draft,
    Unread,
    Read,
    Bookmarked,
    Archived,
    Author(String),
    Label(String),
}

impl View for FilterTerm {
    type V = TermSpec;

    open spec fn view(&self) -> TermSpec {
        match self {
            FilterTerm::Kind(k) => TermSpec::Kind(*k),
            FilterTerm::Open => TermSpec::Open,
            FilterTerm::Closed => TermSpec::Closed,
            FilterTerm::Merged => TermSpec::Merged,
            FilterTerm::Draft => TermSpec::Draft,
            FilterTerm::Unread => TermSpec::Unread,
            FilterTerm::Read => TermSpec::Read,
            FilterTerm::Bookmarked => TermSpec::Bookmarked,
            FilterTerm::Archived => TermSpec::Archived,
            FilterTerm::Author(a) => TermSpec::Author(a@),
            FilterTerm::Label(l) => TermSpec::Label(l@),
        }
    }
}

pub open spec fn term_views(s: Seq<FilterTerm>) -> Seq<TermSpec> {
    s.map_values(|t: FilterTerm| t@)
}

/// Splits `s` into its words, `cur` being the part of a word already read.
pub open spec fn split_words(s: Seq<char>, cur: Seq<char>) -> Seq<Seq<char>>
    decreases s.len(),
{
    if s.len() == 0 {
        if cur.len() > 0 {
            seq![cur]
        } else {
            seq![]
        }
    } else if is_white_space(s[0]) {
        (if cur.len() > 0 {
            seq![cur]
        } else {
            seq![]
        }) + split_words(s.drop_first(), seq![])
    } else {
        split_words(s.drop_first(), cur.push(s[0]))
    }
}

/// The maximal runs of characters other than white space in `s`, in order.
pub open spec fn words(s: Seq<char>) -> Seq<Seq<char>> {
    split_words(s, seq![])
}

/// `i` is the position of the first colon of `w`.
pub open spec fn first_colon_at(w: Seq<char>, i: int) -> bool {
    &&& 0 <= i < w.len()
    &&& w[i] == ':'
    &&& forall|j: int| 0 <= j < i ==> w[j] != ':'
}

/// The term that a qualifier and a value stand for.
pub open spec fn term_from(key: Seq<char>, value: Seq<char>) -> Option<TermSpec> {
    if key == "is"@ {
        if value == "pr"@ {
            Some(TermSpec::Kind(ItemType::PullRequest))
        } else if value == "issue"@ {
            Some(TermSpec::Kind(ItemType::Issue))
        } else if value == "discussion"@ {
            Some(TermSpec::Kind(ItemType::Discussion))
        } else if value == "open"@ {
            Some(TermSpec::Open)
        } else if value == "closed"@ {
            Some(TermSpec::Closed)
        } else if value == "merged"@ {
            Some(TermSpec::Merged)
        } else if value == "draft"@ {
            Some(TermSpec::Draft)
        } else if value == "unread"@ {
            Some(TermSpec::Unread)
        } else if value == "read"@ {
            Some(TermSpec::Read)
        } else if value == "bookmarked"@ {
            Some(TermSpec::Bookmarked)
        } else if value == "archived"@ {
            Some(TermSpec::Archived)
        } else {
            None
        }
    } else if key == "author"@ && value.len() > 0 {
        Some(TermSpec::Author(value))
    } else if key == "label"@ && value.len() > 0 {
        Some(TermSpec::Label(value))
    } else {
        None
    }
}

/// The term that a word stands for: the part before its first colon is the
/// qualifier, the rest the value.
pub open spec fn term_of(w: Seq<char>) -> Option<TermSpec> {
    if exists|i: int| first_colon_at(w, i) {
        let i = choose|i: int| first_colon_at(w, i);
        term_from(w.take(i), w.skip(i + 1))
    } else {
        None
    }
}

/// The terms of a filter text, or `None` when one of its words is no term.
pub open spec fn parse_filter_spec(s: Seq<char>) -> Option<Seq<TermSpec>> {
    let ws = words(s);
    if forall|i: int| 0 <= i < ws.len() ==> (#[trigger] term_of(ws[i])) is Some {
        Some(ws.map_values(|w: Seq<char>| term_of(w)->0))
    } else {
        None
    }
}

/// Whether a filter text is accepted.
pub open spec fn valid_filter(s: Seq<char>) -> bool {
    parse_filter_spec(s) is Some
}

/// Whether an item matches one term.
pub open spec fn term_matches(t: TermSpec, item: StreamItemView) -> bool {
    match t {
        TermSpec::Kind(k) => item.item_type == k,
        TermSpec::Open => item.state@ == "open"@,
        TermSpec::Closed => item.state@ == "closed"@,
        TermSpec::Merged => item.is_merged == Some(true),
        TermSpec::Draft => item.is_draft == Some(true),
        TermSpec::Unread => item.is_unread,
        TermSpec::Read => !item.is_unread,
        TermSpec::Bookmarked => item.is_bookmarked,
        TermSpec::Archived => item.is_archived,
        TermSpec::Author(a) => item.author_login matches Some(l) && l@ == a,
        TermSpec::Label(l) => has_label_spec(item.labels, l),
    }
}

/// Whether one of the labels reads `l`.
pub open spec fn has_label_spec(labels: Seq<String>, l: Seq<char>) -> bool {
    exists|j: int| 0 <= j < labels.len() && (#[trigger] labels[j])@ == l
}

/// Whether an item matches every term.
pub open spec fn terms_match(ts: Seq<TermSpec>, item: StreamItemView) -> bool {
    forall|i: int| 0 <= i < ts.len() ==> term_matches(#[trigger] ts[i], item)
}

/// Whether an item matches a filter text; a refused text matches nothing.
pub open spec fn filter_text_matches(s: Seq<char>, item: StreamItemView) -> bool {
    match parse_filter_spec(s) {
        Some(ts) => terms_match(ts, item),
        None => false,
    }
}

/// Whether two character vectors hold the same characters.
pub fn chars_eq(a: &Vec<char>, b: &Vec<char>) -> (r: bool)
    ensures
        r == (a@ == b@),
{
    if a.len() != b.len() {
        return false;
    }
    let mut i: usize = 0;
    while i < a.len()
        invariant
            a.len() == b.len(),
            i <= a.len(),
            forall|j: int| 0 <= j < i ==> a@[j] == b@[j],
        decreases a.len() - i,
    {
        if a[i] != b[i] {
            return false;
        }
        i = i + 1;
    }
    assert(a@ =~= b@);
    true
}

/// The text made of the given characters.
pub fn string_of_chars(v: &Vec<char>, from: usize) -> (s: String)
    requires
        from <= v.len(),
    ensures
        s@ == v@.skip(from as int),
{
    let mut s = String::new();
    let mut i = from;
    while i < v.len()
        invariant
            from <= i <= v.len(),
            s@ == v@.subrange(from as int, i as int),
        decreases v.len() - i,
    {
        push_char(&mut s, v[i]);
        i = i + 1;
        assert(s@ =~= v@.subrange(from as int, i as int));
    }
    assert(s@ =~= v@.skip(from as int));
    s
}

fn is_literal(w: &Vec<char>, lit: &str) -> (r: bool)
    ensures
        r == (w@ == lit@),
{
    let l = chars_of(lit);
    chars_eq(w, &l)
}

fn term_of_key_value(key: &Vec<char>, value: &Vec<char>) -> (r: Option<FilterTerm>)
    ensures
        match term_from(key@, value@) {
            Some(t) => r matches Some(x) && x@ == t,
            None => r is None,
        },
{
    if is_literal(key, "is") {
        if is_literal(value, "pr") {
            Some(FilterTerm::Kind(ItemType::PullRequest))
        } else if is_literal(value, "issue") {
            Some(FilterTerm::Kind(ItemType::Issue))
        } else if is_literal(value, "discussion") {
            Some(FilterTerm::Kind(ItemType::Discussion))
        } else if is_literal(value, "open") {
            Some(FilterTerm::Open)
        } else if is_literal(value, "closed") {
            Some(FilterTerm::Closed)
        } else if is_literal(value, "merged") {
            Some(FilterTerm::Merged)
        } else if is_literal(value, "draft") {
            Some(FilterTerm::Draft)
        } else if is_literal(value, "unread") {
            Some(FilterTerm::Unread)
        } else if is_literal(value, "read") {
            Some(FilterTerm::Read)
        } else if is_literal(value, "bookmarked") {
            Some(FilterTerm::Bookmarked)
        } else if is_literal(value, "archived") {
            Some(FilterTerm::Archived)
        } else {
            None
        }
    } else if is_literal(key, "author") && value.len() > 0 {
        let s = string_of_chars(value, 0);
        assert(value@.skip(0) =~= value@);
        Some(FilterTerm::Author(s))
    } else if is_literal(key, "label") && value.len() > 0 {
        let s = string_of_chars(value, 0);
        assert(value@.skip(0) =~= value@);
        Some(FilterTerm::Label(s))
    } else {
        None
    }
}

fn sub_chars(v: &Vec<char>, from: usize, to: usize) -> (r: Vec<char>)
    requires
        from <= to <= v.len(),
    ensures
        r@ == v@.subrange(from as int, to as int),
{
    let mut r: Vec<char> = Vec::new();
    let mut i = from;
    while i < to
        invariant
            from <= i <= to <= v.len(),
            r@ == v@.subrange(from as int, i as int),
        decreases to - i,
    {
        r.push(v[i]);
        i = i + 1;
        assert(r@ =~= v@.subrange(from as int, i as int));
    }
    r
}

/// The term that one word stands for.
pub fn parse_term(w: &Vec<char>) -> (r: Option<FilterTerm>)
    ensures
        match term_of(w@) {
            Some(t) => r matches Some(x) && x@ == t,
            None => r is None,
        },
{
    let mut i: usize = 0;
    while i < w.len()
        invariant
            i <= w.len(),
            forall|j: int| 0 <= j < i ==> w@[j] != ':',
        decreases w.len() - i,
    {
        if w[i] == ':' {
            let key = sub_chars(w, 0, i);
            let value = sub_chars(w, i + 1, w.len());
            assert(first_colon_at(w@, i as int));
            let ghost k = choose|k: int| first_colon_at(w@, k);
            assert(k == i) by {
                if k < i {
                    assert(w@[k] != ':');
                }
                if k > i {
                    assert(w@[i as int] != ':');
                }
            }
            assert(key@ =~= w@.take(i as int));
            assert(value@ =~= w@.skip(i + 1));
            return term_of_key_value(&key, &value);
        }
        i = i + 1;
    }
    assert(!exists|k: int| first_colon_at(w@, k));
    None
}

/// Splits a text into its words.
pub fn split_into_words(s: &Vec<char>) -> (ws: Vec<Vec<char>>)
    ensures
        ws@.map_values(|w: Vec<char>| w@) == words(s@),
{
    let mut out: Vec<Vec<char>> = Vec::new();
    let mut cur: Vec<char> = Vec::new();
    let n = s.len();
    let mut i: usize = 0;
    assert(s@.subrange(0, n as int) =~= s@);
    while i < n
        invariant
            n == s.len(),
            i <= n,
            words(s@) == out@.map_values(|w: Vec<char>| w@) + split_words(
                s@.subrange(i as int, n as int),
                cur@,
            ),
        decreases n - i,
    {
        let c = s[i];
        let ghost rest = s@.subrange(i as int, n as int);
        assert(rest[0] == c);
        assert(rest.drop_first() =~= s@.subrange(i + 1, n as int));
        let ghost before = out@.map_values(|w: Vec<char>| w@);
        let ghost tail = split_words(rest.drop_first(), seq![]);
        if white_space(c) {
            if cur.len() > 0 {
                let ghost cv = cur@;
                assert(split_words(rest, cv) == seq![cv] + tail);
                out.push(cur);
                cur = Vec::new();
                assert(out@.map_values(|w: Vec<char>| w@) =~= before + seq![cv]);
                assert(before + (seq![cv] + tail) =~= (before + seq![cv]) + tail);
                assert(words(s@) == out@.map_values(|w: Vec<char>| w@) + tail);
            } else {
                assert(split_words(rest, cur@) == Seq::<Seq<char>>::empty() + tail);
                assert(Seq::<Seq<char>>::empty() + tail =~= tail);
                assert(out@.map_values(|w: Vec<char>| w@) =~= before);
                assert(words(s@) == out@.map_values(|w: Vec<char>| w@) + tail);
            }
            assert(cur@ =~= Seq::<char>::empty());
        } else {
            assert(split_words(rest, cur@) == split_words(rest.drop_first(), cur@.push(c)));
            cur.push(c);
            assert(words(s@) == out@.map_values(|w: Vec<char>| w@) + split_words(rest.drop_first(), cur@));
        }
        i = i + 1;
        assert(words(s@) == out@.map_values(|w: Vec<char>| w@) + split_words(
            s@.subrange(i as int, n as int),
            cur@,
        ));
    }
    let ghost before = out@.map_values(|w: Vec<char>| w@);
    if cur.len() > 0 {
        let ghost cv = cur@;
        out.push(cur);
        assert(out@.map_values(|w: Vec<char>| w@) =~= before + seq![cv]);
    } else {
        assert(before + seq![] =~= before);
    }
    out
}

/// Parses a filter text into its terms; `None` when a word is no supported
/// term.
pub fn parse_filter(text: &str) -> (r: Option<Vec<FilterTerm>>)
    ensures
        match parse_filter_spec(text@) {
            Some(ts) => r matches Some(v) && term_views(v@) == ts,
            None => r is None,
        },
{
    let chars = chars_of(text);
    let ws = split_into_words(&chars);
    let ghost wv = ws@.map_values(|w: Vec<char>| w@);
    let mut terms: Vec<FilterTerm> = Vec::new();
    let mut i: usize = 0;
    while i < ws.len()
        invariant
            wv == words(text@),
            wv == ws@.map_values(|w: Vec<char>| w@),
            i <= ws.len(),
            terms@.len() == i,
            forall|j: int| 0 <= j < i ==> (#[trigger] term_of(wv[j])) is Some,
            forall|j: int| 0 <= j < i ==> (#[trigger] terms@[j])@ == term_of(wv[j])->0,
        decreases ws.len() - i,
    {
        assert(wv[i as int] == ws@[i as int]@);
        match parse_term(&ws[i]) {
            Some(t) => {
                terms.push(t);
            },
            None => {
                assert(term_of(wv[i as int]) is None);
                return None;
            },
        }
        i = i + 1;
    }
    assert(term_views(terms@) =~= wv.map_values(|w: Seq<char>| term_of(w)->0));
    Some(terms)
}

/// Whether two item kinds are the same.
pub fn same_kind(a: ItemType, b: ItemType) -> (r: bool)
    ensures
        r == (a == b),
{
    match (a, b) {
        (ItemType::Issue, ItemType::Issue) => true,
        (ItemType::PullRequest, ItemType::PullRequest) => true,
        (ItemType::Discussion, ItemType::Discussion) => true,
        _ => false,
    }
}

fn has_label(labels: &Vec<String>, l: &String) -> (r: bool)
    ensures
        r == has_label_spec(labels@, l@),
{
    let mut i: usize = 0;
    while i < labels.len()
        invariant
            i <= labels.len(),
            forall|j: int| 0 <= j < i ==> (#[trigger] labels@[j])@ != l@,
        decreases labels.len() - i,
    {
        if labels[i] == *l {
            assert(labels@[i as int]@ == l@);
            return true;
        }
        i = i + 1;
    }
    false
}

/// Whether an item matches one term.
pub fn term_matches_item(t: &FilterTerm, item: &StreamItem) -> (r: bool)
    ensures
        r == term_matches(t@, item@),
{
    let r = match t {
        FilterTerm::Kind(k) => same_kind(item.item_type, *k),
        FilterTerm::Open => {
            let st = chars_of(item.state.as_str());
            let x = is_literal(&st, "open");
            x
        },
        FilterTerm::Closed => {
            let st = chars_of(item.state.as_str());
            is_literal(&st, "closed")
        },
        FilterTerm::Merged => match item.is_merged {
            Some(b) => b,
            None => false,
        },
        FilterTerm::Draft => match item.is_draft {
            Some(b) => b,
            None => false,
        },
        FilterTerm::Unread => item.is_unread,
        FilterTerm::Read => !item.is_unread,
        FilterTerm::Bookmarked => item.is_bookmarked,
        FilterTerm::Archived => item.is_archived,
        FilterTerm::Author(a) => match &item.author_login {
            Some(l) => {
                let e = *l == *a;
                e
            },
            None => false,
        },
        FilterTerm::Label(l) => {
            let x = has_label(&item.labels, l);
            x
        },
    };
    r
}

/// Whether an item matches every term.
pub fn terms_match_item(ts: &Vec<FilterTerm>, item: &StreamItem) -> (r: bool)
    ensures
        r == terms_match(term_views(ts@), item@),
{
    let mut i: usize = 0;
    while i < ts.len()
        invariant
            i <= ts.len(),
            forall|j: int| 0 <= j < i ==> term_matches((#[trigger] ts@[j])@, item@),
        decreases ts.len() - i,
    {
        if !term_matches_item(&ts[i], item) {
            assert(term_views(ts@)[i as int] == ts@[i as int]@);
            return false;
        }
        i = i + 1;
    }
    assert forall|j: int| 0 <= j < term_views(ts@).len() implies term_matches(
        #[trigger] term_views(ts@)[j],
        item@,
    ) by {
        assert(term_views(ts@)[j] == ts@[j]@);
    }
    true
}

} // verus!
