//! Parent-to-child style inheritance: the last step of the cascade.
//!
//! Only the text category is ever inherited, and inheritance fills only
//! properties the child left unset; layout, dimension and appearance
//! properties are never taken from the parent.

use vstd::prelude::*;
use crate::styles::Styles;

verus! {

/// The merged record: every unset text-category property of the child is
/// filled from the parent; everything else is the child's own.
pub open spec fn spec_merge_styles(parent: Styles, child: Styles) -> Styles {
    Styles {
        white_space: if child.white_space is None { parent.white_space } else { child.white_space },
        font_size: if child.font_size is None { parent.font_size } else { child.font_size },
        font_weight: if child.font_weight is None { parent.font_weight } else { child.font_weight },
        font_family: if child.font_family is None { parent.font_family } else { child.font_family },
        font_style: if child.font_style is None { parent.font_style } else { child.font_style },
        text_align: if child.text_align is None { parent.text_align } else { child.text_align },
        ..child
    }
}

/// Fills every still-unset text-category property of the child from the
/// parent; layout, dimension and appearance properties are never altered.
pub fn merge_styles(parent_styles: &Styles, child_styles: &mut Styles)
    ensures
        *final(child_styles) == spec_merge_styles(*parent_styles, *old(child_styles)),
{
    if child_styles.white_space.is_none() {
        child_styles.white_space = parent_styles.white_space;
    }
    if child_styles.font_size.is_none() {
        child_styles.font_size = parent_styles.font_size;
    }
    if child_styles.font_weight.is_none() {
        child_styles.font_weight = parent_styles.font_weight;
    }
    if child_styles.font_family.is_none() {
        child_styles.font_family = parent_styles.font_family;
    }
    if child_styles.font_style.is_none() {
        child_styles.font_style = parent_styles.font_style;
    }
    if child_styles.text_align.is_none() {
        child_styles.text_align = parent_styles.text_align;
    }
}

/// Inheritance never alters the layout, dimension or appearance
/// categories of the child, whatever the parent holds; and a text
/// property left unset by the child is exactly the parent's afterwards.
pub proof fn lemma_inheritance_scoped(parent: Styles, child: Styles)
    ensures
        spec_merge_styles(parent, child).display == child.display,
        spec_merge_styles(parent, child).flex_direction == child.flex_direction,
        spec_merge_styles(parent, child).flex_wrap == child.flex_wrap,
        spec_merge_styles(parent, child).justify_content == child.justify_content,
        spec_merge_styles(parent, child).align_items == child.align_items,
        spec_merge_styles(parent, child).flex_grow == child.flex_grow,
        spec_merge_styles(parent, child).flex_shrink == child.flex_shrink,
        spec_merge_styles(parent, child).margin == child.margin,
        spec_merge_styles(parent, child).padding == child.padding,
        spec_merge_styles(parent, child).spacing == child.spacing,
        spec_merge_styles(parent, child).overflow == child.overflow,
        spec_merge_styles(parent, child).sizing_policy == child.sizing_policy,
        spec_merge_styles(parent, child).background_color == child.background_color,
        spec_merge_styles(parent, child).text_color == child.text_color,
        spec_merge_styles(parent, child).border == child.border,
        child.font_size is None ==> spec_merge_styles(parent, child).font_size == parent.font_size,
        child.font_size is Some ==> spec_merge_styles(parent, child).font_size == child.font_size,
        child.white_space is None ==> spec_merge_styles(parent, child).white_space == parent.white_space,
        child.font_weight is None ==> spec_merge_styles(parent, child).font_weight == parent.font_weight,
        child.font_family is None ==> spec_merge_styles(parent, child).font_family == parent.font_family,
        child.font_style is None ==> spec_merge_styles(parent, child).font_style == parent.font_style,
        child.text_align is None ==> spec_merge_styles(parent, child).text_align == parent.text_align,
{
}

} // verus!
