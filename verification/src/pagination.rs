//! Pagination of list results: an opaque cursor (URL-safe base64 of the JSON
//! object `{"offset": n}`) and the window of items that a page shows.

use crate::fields::{lemma_doc_insert_fresh, push_field};
use crate::json::{json_compact_text, JsonDoc};
use vstd::utf8::encode_utf8;
use crate::json::{
    json_as_array, json_as_u64, json_get, json_object, json_parse_bytes, json_text_stable,
    json_to_bytes, json_u64, parsed_json_bytes, JsonModel,
};
use base64::Engine as _;
use vstd::prelude::*;

verus! {

#[verifier::external_type_specification]
#[verifier::external_body]
pub struct ExDecodeError(base64::DecodeError);

/// What `URL_SAFE_NO_PAD.encode` gives for some bytes.
pub uninterp spec fn base64_url_encoded(bytes: Seq<u8>) -> Seq<char>;

/// What `URL_SAFE_NO_PAD.decode` gives for a text (`None` when it fails).
pub uninterp spec fn base64_url_decoded(text: Seq<char>) -> Option<Seq<u8>>;

/// Encodes bytes as URL-safe base64 without padding (`URL_SAFE_NO_PAD.encode`).
/// Decoding the text gives the bytes back: the encoder writes no padding and
/// zero trailing bits, which is what the decoder of the same engine asks for.
/// (The encoder panics when the output length would overflow `usize`, which
/// no slice reaches: a slice holds at most `isize::MAX` bytes.)
#[verifier::external_body]
fn base64_url_encode(bytes: &[u8]) -> (r: String)
    ensures
        r@ == base64_url_encoded(bytes@),
        base64_url_decoded(r@) == Some(bytes@),
{
    base64::engine::general_purpose::URL_SAFE_NO_PAD.encode(bytes)
}

/// Decodes URL-safe base64 without padding (`URL_SAFE_NO_PAD.decode`).
#[verifier::external_body]
fn base64_url_decode(text: &str) -> (r: Result<Vec<u8>, base64::DecodeError>)
    ensures
        r is Ok <==> base64_url_decoded(text@) is Some,
        r matches Ok(b) ==> b@ == base64_url_decoded(text@)->0,
{
    base64::engine::general_purpose::URL_SAFE_NO_PAD.decode(text)
}

/// How many items one page of a list holds.
pub const PAGE_SIZE: usize = 100;

/// Where the next page of a list starts.
pub struct PaginationCursor {
    pub offset: usize,
}

/// The JSON form of a cursor.
pub open spec fn cursor_json(offset: usize) -> JsonModel {
    JsonModel::Object(Map::empty().insert("offset"@, JsonModel::Int(offset as int)))
}

pub open spec fn offset_from_json(m: JsonModel) -> Option<usize> {
    match m {
        JsonModel::Int(n) => if 0 <= n <= usize::MAX {
            Some(n as usize)
        } else {
            None
        },
        _ => None,
    }
}

/// How a cursor document reads back: an object with an `offset` that fits in
/// `usize`, or (as every plain struct does with serde) an array holding just
/// the offset.
pub open spec fn cursor_from_json(m: JsonModel) -> Option<usize> {
    match m {
        JsonModel::Object(f) => if f.dom().contains("offset"@) {
            offset_from_json(f["offset"@])
        } else {
            None
        },
        JsonModel::Array(items) => if items.len() == 1 {
            offset_from_json(items[0])
        } else {
            None
        },
        _ => None,
    }
}

/// The offset that a cursor text stands for, if it is a cursor.
pub open spec fn cursor_from_text(text: Seq<char>) -> Option<usize> {
    match base64_url_decoded(text) {
        Some(bytes) => match parsed_json_bytes(bytes) {
            Some(m) => cursor_from_json(m),
            None => None,
        },
        None => None,
    }
}

impl PaginationCursor {
    /// The cursor as text: URL-safe base64 of the compact JSON
    /// `{"offset":n}`. The text stands for this cursor's offset.
    pub fn encode(&self) -> (r: String)
        ensures
            cursor_from_text(r@) == Some(self.offset),
            r@ == base64_url_encoded(
                encode_utf8(
                    json_compact_text(
                        JsonDoc::Object(seq![("offset"@, JsonDoc::Int(self.offset as int))]),
                    ),
                ),
            ),
    {
        let mut entries: Vec<(String, serde_json::Value)> = Vec::new();
        proof {
            lemma_doc_insert_fresh(Seq::empty(), "offset"@, JsonDoc::Int(self.offset as int));
        }
        push_field(&mut entries, "offset", json_u64(self.offset as u64));
        let value = json_object(entries);
        proof {
            reveal_with_fuel(crate::json::json_plain_within, 2);
            assert(json_text_stable(cursor_json(self.offset)));
        }
        let bytes = match json_to_bytes(&value) {
            Ok(b) => b,
            Err(_) => Vec::new(),
        };
        proof {
            reveal_strlit("offset");
        }
        base64_url_encode(bytes.as_slice())
    }

    /// Reads a cursor text. Anything that is not a cursor is refused.
    pub fn decode(cursor_str: &str) -> (r: Result<PaginationCursor, ()>)
        ensures
            match cursor_from_text(cursor_str@) {
                Some(n) => r matches Ok(c) && c.offset == n,
                None => r is Err,
            },
    {
        let bytes = match base64_url_decode(cursor_str) {
            Ok(b) => b,
            Err(_) => return Err(()),
        };
        let value = match json_parse_bytes(bytes.as_slice()) {
            Ok(v) => v,
            Err(_) => return Err(()),
        };
        let offset_value = match json_as_array(&value) {
            Some(items) => {
                if items.len() != 1 {
                    return Err(());
                }
                json_as_u64(&items[0])
            },
            None => match json_get(&value, "offset") {
                Some(x) => json_as_u64(x),
                None => return Err(()),
            },
        };
        match offset_value {
            Some(n) => {
                if n > usize::MAX as u64 {
                    return Err(());
                }
                Ok(PaginationCursor { offset: n as usize })
            },
            None => Err(()),
        }
    }
}

/// The items that a page of a list shows (`start..end`), and the cursor for
/// the page after it, if there is one.
pub struct PageWindow {
    pub start: usize,
    pub end: usize,
    pub next_cursor: Option<String>,
}

/// Where a page starts: at the offset of a readable cursor, else at 0.
pub open spec fn page_start(cursor: Option<Seq<char>>) -> usize {
    match cursor {
        Some(c) => match cursor_from_text(c) {
            Some(n) => n,
            None => 0,
        },
        None => 0,
    }
}

pub open spec fn page_end(start: usize, len: usize) -> usize {
    if start + PAGE_SIZE <= len {
        (start + PAGE_SIZE) as usize
    } else {
        len
    }
}

/// What `page_window` answers for a cursor and a list length.
pub open spec fn page_window_matches(cursor: Option<Seq<char>>, len: usize, r: Option<PageWindow>) -> bool {
    let start = page_start(cursor);
    match r {
        None => start > len || start + PAGE_SIZE > usize::MAX,
        Some(w) => {
            &&& start <= len && start + PAGE_SIZE <= usize::MAX
            &&& w.start == start
            &&& w.end == page_end(start, len)
            &&& (w.end < len ==> (w.next_cursor matches Some(c) && cursor_from_text(c@) == Some(
                w.end,
            )))
            &&& (w.end >= len ==> w.next_cursor is None)
        },
    }
}

/// The page of a list of `len` items that a request with `cursor` asks for.
/// There is none when the cursor points past the end of the list, or so near
/// `usize::MAX` that the end of the page would overflow.
pub fn page_window(cursor: Option<&str>, len: usize) -> (r: Option<PageWindow>)
    ensures
        page_window_matches(
            match cursor {
                Some(c) => Some(c@),
                None => None,
            },
            len,
            r,
        ),
{
    let start = match cursor {
        Some(c) => match PaginationCursor::decode(c) {
            Ok(p) => p.offset,
            Err(_) => 0,
        },
        None => 0,
    };
    if start > len || start > usize::MAX - PAGE_SIZE {
        return None;
    }
    let end = if start + PAGE_SIZE <= len {
        start + PAGE_SIZE
    } else {
        len
    };
    let next_cursor = if end < len {
        Some(PaginationCursor { offset: end }.encode())
    } else {
        None
    };
    Some(PageWindow { start, end, next_cursor })
}

/// What `page_items` answers for a list and a cursor: the items from the
/// cursor's offset on, one page of them, and the cursor for the page after.
pub open spec fn page_matches<T>(
    items: Seq<T>,
    cursor: Option<Seq<char>>,
    r: Option<(Seq<T>, Option<String>)>,
) -> bool {
    let start = page_start(cursor);
    let len = items.len();
    match r {
        None => start > len || start + PAGE_SIZE > usize::MAX,
        Some((page, next)) => {
            let end = page_end(start, len as usize);
            &&& start <= len && start + PAGE_SIZE <= usize::MAX
            &&& page == items.subrange(start as int, end as int)
            &&& (end < len ==> (next matches Some(c) && cursor_from_text(c@) == Some(end)))
            &&& (end >= len ==> next is None)
        },
    }
}

/// The items of the page of a list that a request with `cursor` asks for,
/// and the cursor for the page after it (see `page_window`). There is none
/// when the cursor points past the end of the list, or so near `usize::MAX`
/// that the end of the page would overflow.
pub fn page_items<T>(items: Vec<T>, cursor: Option<&str>) -> (r: Option<(Vec<T>, Option<String>)>)
    ensures
        page_matches(
            items@,
            match cursor {
                Some(c) => Some(c@),
                None => None,
            },
            match r {
                Some((page, next)) => Some((page@, next)),
                None => None,
            },
        ),
{
    let window = match page_window(cursor, items.len()) {
        Some(w) => w,
        None => return None,
    };
    let mut all = items;
    let mut page = all.split_off(window.start);
    page.truncate(window.end - window.start);
    assert(page@ =~= items@.subrange(window.start as int, window.end as int));
    Some((page, window.next_cursor))
}

// ---- Laws

/// Following the cursor that a page hands out gives the page that starts
/// where it ended; pages never overlap and never skip an item.
pub proof fn law_next_page_follows(w: PageWindow, next: PageWindow, len: usize)
    requires
        (w.next_cursor matches Some(c) && cursor_from_text(c@) == Some(w.end)),
        next.start == page_start(
            match w.next_cursor {
                Some(c) => Some(c@),
                None => None,
            },
        ),
    ensures
        next.start == w.end,
{
}

/// A page and the page that its cursor leads to join up: together they are
/// the items from the first page's start on, with nothing skipped or repeated.
/// (A list held in memory has at most `usize::MAX` items.)
pub proof fn law_pages_join<T>(
    items: Seq<T>,
    cursor: Option<Seq<char>>,
    page: Seq<T>,
    next: String,
    second: Seq<T>,
    after: Option<String>,
)
    requires
        items.len() <= usize::MAX,
        page_matches(items, cursor, Some((page, Some(next)))),
        page_matches(items, Some(next@), Some((second, after))),
    ensures
        page + second == items.subrange(
            page_start(cursor) as int,
            page_start(cursor) + page.len() + second.len(),
        ),
{
    let start = page_start(cursor);
    let end = page_end(start, items.len() as usize);
    assert(page_start(Some(next@)) == end);
    let end2 = page_end(end, items.len() as usize);
    assert(page.len() == end - start);
    assert(second.len() == end2 - end);
    assert(page + second =~= items.subrange(start as int, end2 as int));
}

/// The text of an optional cursor.
pub open spec fn cursor_text(c: Option<String>) -> Option<Seq<char>> {
    match c {
        Some(t) => Some(t@),
        None => None,
    }
}

/// The pages of a walk, one after the other.
pub open spec fn pages_joined<T>(pages: Seq<Seq<T>>) -> Seq<T>
    decreases pages.len(),
{
    if pages.len() == 0 {
        Seq::empty()
    } else {
        pages_joined(pages.drop_last()) + pages.last()
    }
}

/// Where the `k`-th page of a walk from the start ends.
pub open spec fn walk_end(k: nat, len: nat) -> nat {
    if k * PAGE_SIZE <= len {
        (k * PAGE_SIZE) as nat
    } else {
        len
    }
}

/// A walk through a list: it starts with no cursor, and each request uses
/// the cursor that the page before it handed out.
pub open spec fn is_walk<T>(items: Seq<T>, pages: Seq<Seq<T>>, cursors: Seq<Option<String>>) -> bool {
    &&& cursors.len() == pages.len() + 1
    &&& cursors[0] is None
    &&& forall|i: int|
        0 <= i < pages.len() ==> #[trigger] page_matches(
            items,
            cursor_text(cursors[i]),
            Some((pages[i], cursors[i + 1])),
        )
}

proof fn lemma_walk_prefix<T>(items: Seq<T>, pages: Seq<Seq<T>>, cursors: Seq<Option<String>>, k: nat)
    requires
        items.len() <= usize::MAX,
        is_walk(items, pages, cursors),
        1 <= k <= pages.len(),
        forall|i: int| 1 <= i < pages.len() ==> (#[trigger] cursors[i]) is Some,
    ensures
        pages_joined(pages.take(k as int)) == items.take(walk_end(k, items.len()) as int),
        walk_end(k, items.len()) < items.len() ==> (cursors[k as int] matches Some(c)
            && cursor_from_text(c@) == Some(walk_end(k, items.len()) as usize)),
        walk_end(k, items.len()) >= items.len() ==> cursors[k as int] is None,
    decreases k,
{
    let len = items.len();
    let i = k - 1;
    assert(page_matches(items, cursor_text(cursors[i]), Some((pages[i], cursors[i + 1]))));
    let start: usize = page_start(cursor_text(cursors[i]));
    if k == 1 {
        assert(start == 0);
        assert(pages.take(1).drop_last() =~= Seq::<Seq<T>>::empty());
        assert(pages_joined(Seq::<Seq<T>>::empty()) == Seq::<T>::empty());
        assert(pages.take(1).last() == pages[0]);
        assert(pages_joined(pages.take(1)) == pages_joined(pages.take(1).drop_last()) + pages[0]);
        assert(pages_joined(pages.take(1)) =~= pages[0]);
    } else {
        lemma_walk_prefix(items, pages, cursors, (k - 1) as nat);
        let e = walk_end((k - 1) as nat, len);
        assert(cursors[i] is Some);
        assert(e < len);
        assert(start == e);
        assert(pages.take(k as int).drop_last() =~= pages.take(i));
        assert(pages.take(k as int).last() == pages[i]);
        assert(items.take(e as int) + items.subrange(e as int, page_end(start, len as usize) as int)
            =~= items.take(page_end(start, len as usize) as int));
    }
}

/// Walking a list page by page from the start gives every item once, in
/// order: after `k` pages the walk has given the first `k * PAGE_SIZE` items
/// (all of them, at the end), every page but the last is full, and the walk
/// ends (no further cursor) exactly when the whole list has been given. So it
/// ends after at most `len / PAGE_SIZE + 1` pages.
pub proof fn law_page_walk<T>(items: Seq<T>, pages: Seq<Seq<T>>, cursors: Seq<Option<String>>)
    requires
        items.len() <= usize::MAX,
        pages.len() >= 1,
        is_walk(items, pages, cursors),
        forall|i: int| 1 <= i < pages.len() ==> (#[trigger] cursors[i]) is Some,
    ensures
        pages_joined(pages) == items.take(walk_end(pages.len(), items.len()) as int),
        cursors[pages.len() as int] is None <==> pages_joined(pages) == items,
        pages.len() >= 2 ==> (pages.len() - 1) * PAGE_SIZE < items.len(),
        forall|i: int| 0 <= i < pages.len() - 1 ==> (#[trigger] pages[i]).len() == PAGE_SIZE,
{
    let n = pages.len();
    lemma_walk_prefix(items, pages, cursors, n);
    assert(pages.take(n as int) =~= pages);
    let e = walk_end(n, items.len());
    if e < items.len() {
        assert(pages_joined(pages).len() == e);
    } else {
        assert(items.take(items.len() as int) =~= items);
    }
    if n >= 2 {
        lemma_walk_prefix(items, pages, cursors, (n - 1) as nat);
        assert(cursors[n - 1] is Some);
    }
    assert forall|i: int| 0 <= i < pages.len() - 1 implies (#[trigger] pages[i]).len() == PAGE_SIZE by {
        lemma_walk_prefix(items, pages, cursors, (i + 1) as nat);
        assert(cursors[i + 1] is Some);
        assert(page_matches(items, cursor_text(cursors[i]), Some((pages[i], cursors[i + 1]))));
        if i > 0 {
            lemma_walk_prefix(items, pages, cursors, i as nat);
            assert(cursors[i] is Some);
        }
    }
}

/// A cursor document is read from its `offset` entry: an object whose
/// `offset` is an integer that fits in `usize` gives that offset, whatever
/// else it holds; an object without `offset`, or with anything else there,
/// is no cursor.
pub proof fn law_cursor_reading(f: Map<Seq<char>, JsonModel>, n: int)
    ensures
        f.dom().contains("offset"@) && f["offset"@] == JsonModel::Int(n) && 0 <= n <= usize::MAX
            ==> cursor_from_json(JsonModel::Object(f)) == Some(n as usize),
        !f.dom().contains("offset"@) ==> cursor_from_json(JsonModel::Object(f)) is None,
        f.dom().contains("offset"@) && !(f["offset"@] is Int) ==> cursor_from_json(
            JsonModel::Object(f),
        ) is None,
        cursor_from_json(cursor_json(0)) == Some(0usize),
        0 <= n <= usize::MAX ==> cursor_json(n as usize) == JsonModel::Object(
            Map::empty().insert("offset"@, JsonModel::Int(n)),
        ),
{
}

/// A page starts at the offset of the cursor it is asked with, and at the
/// beginning of the list when there is no cursor or the cursor cannot be
/// read; it ends a page size later, or at the end of the list.
pub proof fn law_page_bounds(cursor: Option<Seq<char>>, start: usize, len: usize)
    ensures
        page_start(None) == 0,
        cursor matches Some(c) ==> page_start(cursor) == match cursor_from_text(c) {
            Some(n) => n,
            None => 0usize,
        },
        start <= len ==> start <= page_end(start, len) <= len,
        start <= len ==> page_end(start, len) - start == if len - start >= PAGE_SIZE {
            PAGE_SIZE as int
        } else {
            len - start
        },
{
}

} // verus!
