use base64::Engine as _;
use rust_mcp_sdk::pagination::{page_items, page_window, PaginationCursor, PAGE_SIZE};

fn cursor_text(json: &str) -> String {
    base64::engine::general_purpose::URL_SAFE_NO_PAD.encode(json)
}

#[test]
fn cursor_round_trip() {
    for offset in [0usize, 1, 41, usize::MAX] {
        let text = PaginationCursor { offset }.encode();
        assert_eq!(PaginationCursor::decode(&text).unwrap().offset, offset);
    }
    assert_eq!(PaginationCursor { offset: 3 }.encode(), cursor_text(r#"{"offset":3}"#));
}

#[test]
fn cursor_decoding_follows_the_struct_reader() {
    assert_eq!(PaginationCursor::decode(&cursor_text(r#"{"offset":5,"x":1}"#)).unwrap().offset, 5);
    assert_eq!(PaginationCursor::decode(&cursor_text("[6]")).unwrap().offset, 6);
    assert!(PaginationCursor::decode(&cursor_text("[6,7]")).is_err());
    assert!(PaginationCursor::decode(&cursor_text(r#"{"offset":-1}"#)).is_err());
    assert!(PaginationCursor::decode(&cursor_text(r#"{"other":1}"#)).is_err());
    assert!(PaginationCursor::decode("***").is_err());
    assert!(PaginationCursor::decode(&cursor_text("not json")).is_err());
}

#[test]
fn pages_walk_the_list_a_page_at_a_time() {
    assert_eq!(PAGE_SIZE, 100);
    let small = page_window(None, 3).unwrap();
    assert_eq!((small.start, small.end, small.next_cursor), (0, 3, None));
    let first = page_window(None, 250).unwrap();
    assert_eq!((first.start, first.end), (0, 100));
    let second = page_window(first.next_cursor.as_deref(), 250).unwrap();
    assert_eq!((second.start, second.end), (100, 200));
    let third = page_window(second.next_cursor.as_deref(), 250).unwrap();
    assert_eq!((third.start, third.end), (200, 250));
    assert!(third.next_cursor.is_none());
}

#[test]
fn page_edges() {
    let empty = page_window(None, 0).unwrap();
    assert_eq!((empty.start, empty.end, empty.next_cursor), (0, 0, None));
    let bad = page_window(Some("garbage!"), 2).unwrap();
    assert_eq!(bad.start, 0);
    let past = PaginationCursor { offset: 9 }.encode();
    assert!(page_window(Some(&past), 2).is_none());
    let at_end = PaginationCursor { offset: 2 }.encode();
    let w = page_window(Some(&at_end), 2).unwrap();
    assert_eq!((w.start, w.end, w.next_cursor), (2, 2, None));
}

#[test]
fn page_items_walks_a_long_list_in_pages() {
    let items: Vec<u32> = (0..230).collect();
    let mut seen = Vec::new();
    let mut cursor: Option<String> = None;
    let mut pages = 0;
    loop {
        let (page, next) = page_items(items.clone(), cursor.as_deref()).unwrap();
        pages += 1;
        match next {
            Some(c) => {
                assert_eq!(page.len(), PAGE_SIZE);
                seen.extend(page);
                cursor = Some(c);
            }
            None => {
                seen.extend(page);
                break;
            }
        }
    }
    assert_eq!(pages, 3);
    assert_eq!(seen, items);
    let past = PaginationCursor { offset: 231 }.encode();
    assert!(page_items(items.clone(), Some(&past)).is_none());
    let (tail, next) = page_items(items, Some(&PaginationCursor { offset: 230 }.encode())).unwrap();
    assert!(tail.is_empty() && next.is_none());
}

#[test]
fn cursor_text_is_base64_of_compact_json() {
    assert_eq!(PaginationCursor { offset: 7 }.encode(), "eyJvZmZzZXQiOjd9");
}
