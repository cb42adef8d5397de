//! Rectangles in page coordinate units, and the bounding-box union
//! used when a markup annotation covers several spans.
//!
//! Coordinates follow the page convention of the PDF engine: the
//! vertical axis grows upward, so the top edge of a rectangle has the
//! larger coordinate.  Values are fixed-point page units held as `i32`;
//! the shell that talks to the native engine converts its measurements
//! into this unit before calling in.

use vstd::prelude::*;

verus! {

/// Fixed-point page units per PDF point: coordinates and page sizes
/// are held in milli-points.
pub const POINT_UNIT: u32 = 1000;

/// An axis-aligned rectangle on a page: `left`/`right` on the
/// horizontal axis, `bottom`/`top` on the upward vertical axis.
#[derive(Clone, Copy, PartialEq, Eq, Structural, Debug)]
pub struct Rect {
    pub left: i32,
    pub top: i32,
    pub right: i32,
    pub bottom: i32,
}

impl Rect {
    /// The smallest rectangle containing both `self` and `other`:
    /// running minimum of lefts and bottoms, running maximum of rights
    /// and tops.
    pub open spec fn spec_union(self, other: Rect) -> Rect {
        Rect {
            left: if self.left <= other.left {
                self.left
            } else {
                other.left
            },
            top: if self.top >= other.top {
                self.top
            } else {
                other.top
            },
            right: if self.right >= other.right {
                self.right
            } else {
                other.right
            },
            bottom: if self.bottom <= other.bottom {
                self.bottom
            } else {
                other.bottom
            },
        }
    }

    /// Bounding-box union of two rectangles.
    pub fn union(self, other: Rect) -> (r: Rect)
        ensures
            r == self.spec_union(other),
    {
        Rect {
            left: if self.left <= other.left {
                self.left
            } else {
                other.left
            },
            top: if self.top >= other.top {
                self.top
            } else {
                other.top
            },
            right: if self.right >= other.right {
                self.right
            } else {
                other.right
            },
            bottom: if self.bottom <= other.bottom {
                self.bottom
            } else {
                other.bottom
            },
        }
    }
}

/// Bounding box of a sequence of rectangles, folded left to right;
/// `None` when the sequence is empty.
pub open spec fn spec_union_of(rects: Seq<Rect>) -> Option<Rect>
    decreases rects.len(),
{
    if rects.len() == 0 {
        None
    } else {
        match spec_union_of(rects.drop_last()) {
            None => Some(rects.last()),
            Some(u) => Some(u.spec_union(rects.last())),
        }
    }
}

/// `outer` contains `inner`: every edge of `inner` lies within the
/// corresponding edge of `outer`.
pub open spec fn rect_contains(outer: Rect, inner: Rect) -> bool {
    outer.left <= inner.left && inner.right <= outer.right && outer.bottom <= inner.bottom
        && inner.top <= outer.top
}

/// The union bounds of a non-empty list of rectangles exist and
/// contain every rectangle of the list.
pub proof fn lemma_union_contains_all(rects: Seq<Rect>)
    requires
        rects.len() > 0,
    ensures
        spec_union_of(rects) is Some,
        forall|i: int|
            0 <= i < rects.len() ==> rect_contains(spec_union_of(rects).unwrap(), rects[i]),
    decreases rects.len(),
{
    if rects.len() > 1 {
        let prefix = rects.drop_last();
        lemma_union_contains_all(prefix);
        assert forall|i: int| 0 <= i < rects.len() implies rect_contains(
            spec_union_of(rects).unwrap(),
            rects[i],
        ) by {
            if i < rects.len() - 1 {
                assert(rects[i] == prefix[i]);
                assert(rect_contains(spec_union_of(prefix).unwrap(), prefix[i]));
            }
        }
    }
}

/// Bounding box of all rectangles in `rects`, or `None` when the list
/// is empty.
pub fn union_of(rects: &Vec<Rect>) -> (r: Option<Rect>)
    ensures
        r == spec_union_of(rects@),
{
    let mut acc: Option<Rect> = None;
    let mut i: usize = 0;
    while i < rects.len()
        invariant
            i <= rects.len(),
            acc == spec_union_of(rects@.take(i as int)),
        decreases rects.len() - i,
    {
        let next = rects[i];
        acc = match acc {
            None => Some(next),
            Some(u) => Some(u.union(next)),
        };
        proof {
            assert(rects@.take(i + 1 as int).drop_last() =~= rects@.take(i as int));
            assert(rects@.take(i + 1 as int).last() == rects@[i as int]);
        }
        i = i + 1;
    }
    proof {
        assert(rects@.take(rects@.len() as int) =~= rects@);
    }
    acc
}

} // verus!
