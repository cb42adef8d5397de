use riemann_core::document::{
    page_in_bounds, page_text_result, search_results, segments_result, should_search,
    DocumentInfo, TextSegment,
};
use riemann_core::geometry::Rect;

fn segment(text: &str, left: i32, top: i32, right: i32, bottom: i32) -> TextSegment {
    TextSegment { text: String::from(text), bounds: Rect { left, top, right, bottom } }
}

#[test]
fn page_in_bounds_checks_page_count() {
    let doc = DocumentInfo { page_count: 3 };
    assert!(page_in_bounds(&doc, 0));
    assert!(page_in_bounds(&doc, 2));
    assert!(!page_in_bounds(&doc, 3));
    let empty = DocumentInfo { page_count: 0 };
    assert!(!page_in_bounds(&empty, 0));
}

#[test]
fn page_with_no_text_yields_empty_string() {
    assert_eq!(page_text_result(true, false, String::from("stale")), "");
}

#[test]
fn out_of_range_page_yields_empty_string() {
    assert_eq!(page_text_result(false, true, String::from("stale")), "");
}

#[test]
fn in_range_page_yields_extracted_text() {
    assert_eq!(page_text_result(true, true, String::from("body text")), "body text");
}

#[test]
fn search_skips_empty_term() {
    assert!(!should_search(true, ""));
    assert!(should_search(true, "term"));
}

#[test]
fn search_skips_out_of_range_page() {
    assert!(!should_search(false, "term"));
    assert!(!should_search(false, ""));
}

#[test]
fn declined_search_yields_no_matches() {
    let matches = vec![Rect { left: 0, top: 2, right: 4, bottom: 0 }];
    assert!(search_results(false, matches.clone()).is_empty());
    assert_eq!(search_results(true, matches.clone()), matches);
}

#[test]
fn segments_repeat_identically() {
    let segments = vec![segment("first", 0, 2, 4, 0), segment("second", 5, 2, 9, 0)];
    let first_pass = segments_result(true, segments.clone());
    let second_pass = segments_result(true, segments.clone());
    assert_eq!(first_pass, second_pass);
    assert_eq!(first_pass, segments);
}

#[test]
fn segments_of_out_of_range_page_are_empty() {
    let segments = vec![segment("first", 0, 2, 4, 0)];
    assert!(segments_result(false, segments).is_empty());
}
