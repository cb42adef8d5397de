//! The document handle's page-access policies and the text layer's
//! result shaping.
//!
//! A loaded document is a native object owned by the shell, behind one
//! mutual-exclusion lock; what this library owns is the page-count
//! fact recorded at load time and the policies every page operation
//! applies: an out-of-range page index yields an empty result instead
//! of reaching the native engine, a page the engine reports as holding
//! no text yields the empty string, and a search with an empty term
//! never queries the engine at all.

use vstd::prelude::*;
use crate::geometry::Rect;

verus! {

/// What this library knows of one loaded document: the page count,
/// fixed at load time.  The native document itself stays with the
/// shell, which serializes every page operation through one lock.
#[derive(Clone, Copy, PartialEq, Eq, Structural, Debug)]
pub struct DocumentInfo {
    /// Number of pages, fixed when the document was opened.
    pub page_count: usize,
}

/// One positioned run of text, in the native engine's reading order.
#[derive(Clone, PartialEq, Eq, Debug)]
pub struct TextSegment {
    /// The run's text.
    pub text: String,
    /// The run's bounding rectangle in page coordinate units.
    pub bounds: Rect,
}

/// Whether `page_index` names a page of the document.  Every page
/// operation checks this before touching the native engine; an index
/// at or past `page_count` never reaches it.
pub fn page_in_bounds(doc: &DocumentInfo, page_index: u16) -> (r: bool)
    ensures
        r == ((page_index as int) < doc.page_count),
{
    (page_index as usize) < doc.page_count
}

/// The text a page-text query returns: the extracted text when the
/// page is in range and the engine found any, and the empty string
/// otherwise — an out-of-range index or a page with no text is never
/// an error.
pub fn page_text_result(in_bounds: bool, has_text: bool, extracted: String) -> (r: String)
    ensures
        in_bounds && has_text ==> r == extracted,
        !(in_bounds && has_text) ==> r@ == Seq::<char>::empty(),
{
    if in_bounds && has_text {
        extracted
    } else {
        String::new()
    }
}

/// Whether a search query runs against the native engine: only for an
/// in-range page and a non-empty term.  A search that does not run
/// returns an empty sequence of matches, so an empty term or an
/// out-of-range index yields no matches and no error.
pub fn should_search(in_bounds: bool, term: &str) -> (r: bool)
    ensures
        r == (in_bounds && term@.len() > 0),
{
    in_bounds && !term.is_empty()
}

/// The match list a search query returns: the engine's matches when
/// the search ran, and the empty sequence when [`should_search`]
/// declined it — so an empty term or an out-of-range index yields no
/// matches and no error.
pub fn search_results(searched: bool, matches: Vec<Rect>) -> (r: Vec<Rect>)
    ensures
        searched ==> r == matches,
        !searched ==> r@ == Seq::<Rect>::empty(),
{
    if searched {
        matches
    } else {
        Vec::new()
    }
}

/// The segment list a text-segments query returns: the engine's
/// segments for an in-range page, and the empty list for an
/// out-of-range index — never an error.
pub open spec fn spec_segments_result(in_bounds: bool, segments: Seq<TextSegment>) -> Seq<
    TextSegment,
> {
    if in_bounds {
        segments
    } else {
        Seq::empty()
    }
}

/// Shapes the result of a text-segments query as
/// [`spec_segments_result`] says.
pub fn segments_result(in_bounds: bool, segments: Vec<TextSegment>) -> (r: Vec<TextSegment>)
    ensures
        r@ == spec_segments_result(in_bounds, segments@),
{
    if in_bounds {
        segments
    } else {
        Vec::new()
    }
}

/// A text-segments query is a function of the engine's data alone:
/// any two results shaped from the same page state are identical, so
/// repeating the query on an unmodified page repeats its answer.
pub proof fn lemma_segments_result_deterministic(
    in_bounds: bool,
    segments: Seq<TextSegment>,
    first: Seq<TextSegment>,
    second: Seq<TextSegment>,
)
    requires
        first == spec_segments_result(in_bounds, segments),
        second == spec_segments_result(in_bounds, segments),
    ensures
        first == second,
{
}

} // verus!
