//! Geometry the external paint collaborator consumes: whether a node is
//! paintable at all, and the scrollbar track/thumb rectangles derived
//! every frame from the two stored scroll scalars.

use vstd::prelude::*;
use crate::geometry::{mul_frac, spec_mul_frac, Frac, Position, Size, MAX_POS};
use crate::element::SIZE_BOUND;

verus! {

/// Computes paint geometry; the actual painting is done by an external
/// canvas collaborator fed with the values computed here.
pub struct ElementRenderer {}

/// The rectangle a scrollbar thumb is painted at.
#[derive(Clone, Copy, Debug, PartialEq, Eq, Structural)]
pub struct ThumbGeometry {
    pub position: Position,
    pub size: Size,
}

impl ElementRenderer {
    /// A node with a non-positive extent on either axis is a no-op for
    /// the paint step.
    pub fn should_paint(size: &Size) -> (r: bool)
        ensures
            r == (size.width > 0 && size.height > 0),
    {
        size.width > 0 && size.height > 0
    }

    /// Derives the thumb rectangle of a horizontal scrollbar from the
    /// track bounds and the two stored scalars: the thumb is the track
    /// width scaled by the thumb-to-track ratio and four fifths of the
    /// track tall, and its offset is the current scroll position
    /// interpolated between the track's left bound and the right bound
    /// less the thumb width.
    pub fn scrollbar_thumb_geometry(
        position: Position,
        size: Size,
        current_position: Frac,
        thumb_scrollbar_width_ratio: Frac,
    ) -> (r: ThumbGeometry)
        requires
            current_position.is_proportion(),
            thumb_scrollbar_width_ratio.wf(),
            -MAX_POS <= position.x <= MAX_POS,
            -MAX_POS <= position.y <= MAX_POS,
            -SIZE_BOUND <= size.width <= SIZE_BOUND,
            -SIZE_BOUND <= size.height <= SIZE_BOUND,
        ensures
            r.size.width as int == spec_mul_frac(size.width as int, thumb_scrollbar_width_ratio),
            r.size.height as int == spec_mul_frac(size.height as int, Frac { num: 4, den: 5 }),
            r.position.y == position.y,
            r.position.x as int == position.x
                + spec_mul_frac((size.width - r.size.width) as int, current_position),
            r.position.x as int <= position.x + size.width - r.size.width
                || size.width < r.size.width,
    {
        proof {
            crate::geometry::lemma_mul_frac_bound(size.width as int, thumb_scrollbar_width_ratio);
        }
        let thumb_width = mul_frac(size.width, thumb_scrollbar_width_ratio);
        proof {
            crate::geometry::lemma_mul_frac_bound(size.height as int, Frac { num: 4, den: 5 });
        }
        let thumb_height = mul_frac(size.height, Frac { num: 4, den: 5 });
        proof {
            crate::geometry::lemma_mul_frac_bound(
                (size.width - thumb_width) as int,
                current_position,
            );
            lemma_proportion_scale((size.width - thumb_width) as int, current_position);
        }
        let travel = mul_frac(size.width - thumb_width, current_position);
        ThumbGeometry {
            position: Position { x: position.x + travel, y: position.y },
            size: Size { width: thumb_width, height: thumb_height },
        }
    }
}

/// Scaling a pixel amount by a proportion in `[0, 1]` never exceeds the
/// amount itself.
pub proof fn lemma_proportion_scale(v: int, f: Frac)
    requires
        f.is_proportion(),
    ensures
        v >= 0 ==> 0 <= spec_mul_frac(v, f) <= v,
{
    crate::geometry::lemma_mul_frac_bound(v, f);
    if v >= 0 {
        assert(v * f.num >= 0) by (nonlinear_arith)
            requires
                v >= 0,
                f.num >= 0,
        ;
    }
}

} // verus!
