//! The annotation engine's computation: classifying the requested
//! markup kind and staging everything a markup annotation needs.
//!
//! A caller names the kind with a free-form subtype string; the match
//! is ASCII-case-insensitive and every unrecognized subtype falls back
//! to a highlight.  [`plan_markup`] gathers the kind, the stroke
//! color, one attachment quad per input rectangle and the union
//! bounding box into a [`MarkupPlan`].  The shell around the native
//! engine executes the plan all-or-nothing: it creates the annotation
//! object, applies color, quads and bounds in order, rolls the object
//! back on any intermediate failure, and flattens the page afterwards
//! exactly when the plan says so.

use vstd::prelude::*;
use crate::geometry::{Rect, spec_union_of, union_of};

verus! {

/// The three markup annotation kinds.
#[derive(Clone, Copy, PartialEq, Eq, Structural, Debug)]
pub enum MarkupKind {
    Underline,
    Strikeout,
    Highlight,
}

/// A stroke color as a red-green-blue triple; markup annotations use
/// it at full opacity.
#[derive(Clone, Copy, PartialEq, Eq, Structural, Debug)]
pub struct Color {
    pub red: u8,
    pub green: u8,
    pub blue: u8,
}

/// Everything one markup annotation needs, staged before any native
/// object exists: the kind, the stroke color and its opacity, one
/// attachment quad per input rectangle, the union bounding box of all
/// of them, and whether the page is flattened after the annotation is
/// attached.
#[derive(Clone, PartialEq, Eq, Debug)]
pub struct MarkupPlan {
    pub kind: MarkupKind,
    pub color: Color,
    /// The opacity the stroke color is applied at; markup annotations
    /// always stroke at full opacity.
    pub stroke_alpha: u8,
    pub quads: Vec<Rect>,
    pub bounds: Option<Rect>,
    pub flatten: bool,
}

/// The code point of `c` with an ASCII upper-case letter folded to its
/// lower-case counterpart.
pub open spec fn spec_fold_case(c: char) -> int {
    if 65 <= c as u32 && c as u32 <= 90 {
        c as int + 32
    } else {
        c as int
    }
}

/// Character-wise ASCII-case-insensitive equality of two strings.
pub open spec fn spec_eq_ignore_ascii_case(a: Seq<char>, b: Seq<char>) -> bool {
    a.len() == b.len() && forall|i: int|
        0 <= i < a.len() ==> spec_fold_case(a[i]) == spec_fold_case(b[i])
}

/// The markup kind a subtype string names: `"underline"` and
/// `"strikeout"` up to ASCII case, and a highlight for everything
/// else.  The recognized names are ASCII, so the match deliberately
/// folds ASCII case only: a string that reaches one of the names
/// only through a non-ASCII case mapping is unrecognized and falls
/// back to a highlight.
pub open spec fn spec_classify(s: Seq<char>) -> MarkupKind {
    if spec_eq_ignore_ascii_case(s, "underline"@) {
        MarkupKind::Underline
    } else if spec_eq_ignore_ascii_case(s, "strikeout"@) {
        MarkupKind::Strikeout
    } else {
        MarkupKind::Highlight
    }
}

/// Case-folds one character as [`spec_fold_case`] does.
fn fold_case(c: char) -> (r: u32)
    ensures
        r == spec_fold_case(c),
{
    let u = c as u32;
    if 65 <= u && u <= 90 {
        u + 32
    } else {
        u
    }
}

/// ASCII-case-insensitive string equality.
fn eq_ignore_ascii_case(a: &str, b: &str) -> (r: bool)
    ensures
        r == spec_eq_ignore_ascii_case(a@, b@),
{
    let a_len = a.unicode_len();
    let b_len = b.unicode_len();
    if a_len != b_len {
        return false;
    }
    let mut i: usize = 0;
    while i < a_len
        invariant
            i <= a_len,
            a_len == a@.len(),
            b_len == b@.len(),
            a_len == b_len,
            forall|j: int| 0 <= j < i ==> spec_fold_case(a@[j]) == spec_fold_case(b@[j]),
        decreases a_len - i,
    {
        let ca = a.get_char(i);
        let cb = b.get_char(i);
        if fold_case(ca) != fold_case(cb) {
            return false;
        }
        i = i + 1;
    }
    true
}

/// The markup kind for a subtype string: `"underline"` or
/// `"strikeout"` in any ASCII casing select those kinds, and any other
/// string falls back to a highlight.
pub fn classify_subtype(subtype: &str) -> (k: MarkupKind)
    ensures
        k == spec_classify(subtype@),
{
    if eq_ignore_ascii_case(subtype, "underline") {
        MarkupKind::Underline
    } else if eq_ignore_ascii_case(subtype, "strikeout") {
        MarkupKind::Strikeout
    } else {
        MarkupKind::Highlight
    }
}

/// Stages one markup annotation: classifies the subtype, keeps one
/// attachment quad per input rectangle in order, computes the union
/// bounding box of all of them, sets the stroke to full opacity, and
/// records the stroke color and the flatten policy unchanged.
pub fn plan_markup(rects: Vec<Rect>, subtype: &str, color: Color, flatten: bool) -> (p: MarkupPlan)
    ensures
        p.kind == spec_classify(subtype@),
        p.color == color,
        p.stroke_alpha == 255,
        p.quads@ == rects@,
        p.bounds == spec_union_of(rects@),
        p.flatten == flatten,
{
    let kind = classify_subtype(subtype);
    let bounds = union_of(&rects);
    MarkupPlan { kind, color, stroke_alpha: 255, quads: rects, bounds, flatten }
}

/// Every subtype string that does not name underline or strikeout
/// (up to ASCII case) produces a highlight annotation.
pub proof fn lemma_unknown_subtype_is_highlight(s: Seq<char>)
    requires
        !spec_eq_ignore_ascii_case(s, "underline"@),
        !spec_eq_ignore_ascii_case(s, "strikeout"@),
    ensures
        spec_classify(s) == MarkupKind::Highlight,
{
}

} // verus!
