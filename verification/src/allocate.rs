//! Space allocation pass: a pre-order traversal that assigns the final
//! position and size of a container and distributes its allocated space
//! to the children along the main (horizontal) axis, with cross-axis
//! alignment, wrap policy and overflow/scrollbar negotiation.

use vstd::prelude::*;
use vstd::math::abs;
use crate::geometry::{
    lemma_mul_frac_bound, mul_frac, spec_mul_frac, Frac, Position, Size, MAX_NODES, MAX_POS,
    MAX_STYLE_PX,
};
use crate::styles::{AlignItems, FlexWrap, Margin, Overflow, Padding, Spacing};
use crate::element::{
    Component, Container, Element, VContainer, VElement,
    count_children, count_container, count_elem,
    lemma_children_index, lemma_count_children_index, lemma_count_children_take,
    lemma_count_children_take_all, lemma_count_elem_pos, lemma_node_size_bound_mono,
    lemma_wf_styles,
    lemma_v_children_len, lemma_v_children_push, node_size_bound,
    sized_children, sized_container, sized_elem, v_children, v_container,
    v_effective_size, v_elem, v_styles, wf_children, wf_container, wf_elem,
    Directions, ScrollbarState, SIZE_BOUND,
};
use crate::estimate::{est_velem, lemma_est_preserves_elem, lemma_sized_effective, spec_row_terms, lemma_row_terms_take};

verus! {

/// Largest per-level position shift the allocation pass can introduce.
pub const ALLOC_GROWTH: i64 = 0x40_0000_0000;

/// How far from the origin a node's allocated position may lie, given
/// how many nodes its subtree holds: deeper (smaller) subtrees may sit
/// farther out.
pub open spec fn pos_budget(count: nat) -> int {
    MAX_POS + ALLOC_GROWTH * (MAX_NODES - count)
}

/// The width all children of a row container ask for: for every child
/// one sibling gap, its horizontal margins and its effective width, plus
/// the container's horizontal padding.
pub open spec fn spec_requested_children_width(c: VContainer) -> int {
    c.styles.spec_padding_or_default().spec_horizontal()
        + spec_row_terms(c.children, c.styles.spec_spacing_or_default().spacing_x.value as int)
}

/// The maximum effective child height of a row, and the margin of the
/// first child attaining it: the cross-axis alignment reference.
pub open spec fn spec_cross_ref(s: Seq<VElement>) -> (int, Margin)
    decreases s,
{
    if s.len() == 0 {
        (0, Margin::spec_zero())
    } else {
        let h = v_effective_size(s[0]).height as int;
        let rest = spec_cross_ref(s.drop_first());
        if h >= rest.0 {
            (h, v_styles(s[0]).spec_margin_or_default())
        } else {
            rest
        }
    }
}

/// The allocated size of a child: its effective size, passed through
/// unchanged under every wrap and overflow policy (wrapping geometry is
/// deferred).
pub open spec fn spec_determine_allocated_size(
    child_effective_size: Size,
    flex_wrap: FlexWrap,
    overflow: Overflow,
) -> Size {
    child_effective_size
}

/// Passes a child's effective size through as its allocated size.
pub fn determine_allocated_size(
    child_effective_size: Size,
    flex_wrap: FlexWrap,
    overflow: Overflow,
) -> (r: Size)
    ensures
        r == spec_determine_allocated_size(child_effective_size, flex_wrap, overflow),
{
    if !matches!(flex_wrap, FlexWrap::NoWrap) {
        return child_effective_size;
    }
    if matches!(overflow, Overflow::Visible) {
        return child_effective_size;
    }
    child_effective_size
}

/// The position a child is laid out at: the running cursor shifted by
/// the sibling gap and the child's left margin on the main axis, and by
/// the cross-axis alignment rule against the row's reference height.
pub open spec fn spec_child_position(
    cursor: Position,
    eff: Size,
    child_margin: Margin,
    spacing: Spacing,
    align: AlignItems,
    max_height: int,
    ref_margin: Margin,
) -> Position {
    let x = cursor.x + spacing.spacing_x.value + child_margin.left.value;
    let y = match align {
        AlignItems::FlexStart => cursor.y + child_margin.top.value,
        AlignItems::Stretch => cursor.y + child_margin.top.value,
        AlignItems::Center => cursor.y + ref_margin.top.value + (max_height - eff.height) / 2,
        AlignItems::FlexEnd => cursor.y + ref_margin.top.value + (max_height - eff.height),
    };
    Position { x: x as i64, y: y as i64 }
}

/// The size a child is laid out with: its effective size, with the
/// height forced to the row's reference height under stretch alignment.
pub open spec fn spec_child_size(eff: Size, align: AlignItems, max_height: int) -> Size {
    match align {
        AlignItems::Stretch => Size { width: eff.width, height: max_height as i64 },
        _ => eff,
    }
}

/// The allocation pass over one node with the given allocated bounds:
/// a container takes the bounds as its position and size and distributes
/// space to its children; a component hands the bounds to its content
/// subtree and keeps its own geometry fields.
pub open spec fn alloc_velem(v: VElement, pos: Position, size: Size) -> VElement
    decreases v,
{
    match v {
        VElement::Container(c) => VElement::Container(alloc_vcontainer(c, pos, size)),
        VElement::Component(k) => VElement::Component(
            crate::element::VComponent { content: alloc_vcontainer(k.content, pos, size), ..k },
        ),
    }
}

pub open spec fn alloc_vcontainer(c: VContainer, pos: Position, size: Size) -> VContainer
    decreases c,
{
    if c.children.len() == 0 {
        VContainer { position: pos, size: size, ..c }
    } else {
        let pad = c.styles.spec_padding_or_default();
        let spacing = c.styles.spec_spacing_or_default();
        let align = c.styles.spec_align_items_or_default();
        let overflow = c.styles.spec_overflow_or_default();
        let reqw = spec_requested_children_width(c);
        let cross = spec_cross_ref(c.children);
        let scroll = if overflow is Auto && reqw > size.width && reqw >= 1 {
            ScrollbarState {
                thumb_scrollbar_width_ratio: Frac {
                    num: (size.width - pad.spec_horizontal()) as i64,
                    den: reqw as i64,
                },
                is_overflowing: Directions { horizontal: true, vertical: false },
                ..c.scrollbar_state
            }
        } else {
            c.scrollbar_state
        };
        let offset = if overflow is Auto {
            spec_mul_frac(reqw - size.width, c.scrollbar_state.current_scroll_position.x)
        } else {
            0
        };
        let start = Position {
            x: (pos.x + pad.left.value - offset) as i64,
            y: (pos.y + pad.top.value) as i64,
        };
        VContainer {
            position: pos,
            size: size,
            children: alloc_walk(c.children, start, spacing, align, cross.0, cross.1),
            scrollbar_state: scroll,
            ..c
        }
    }
}

/// Walks a row of children in order, allocating each at the cursor and
/// advancing the cursor by the child's allocated width, right margin and
/// the sibling gap.
pub open spec fn alloc_walk(
    s: Seq<VElement>,
    cursor: Position,
    spacing: Spacing,
    align: AlignItems,
    max_height: int,
    ref_margin: Margin,
) -> Seq<VElement>
    decreases s,
{
    if s.len() == 0 {
        Seq::empty()
    } else {
        let eff = v_effective_size(s[0]);
        let m = v_styles(s[0]).spec_margin_or_default();
        let p = spec_child_position(cursor, eff, m, spacing, align, max_height, ref_margin);
        let sz = spec_child_size(eff, align, max_height);
        let next = Position {
            x: (p.x + sz.width + m.right.value) as i64,
            y: cursor.y,
        };
        seq![alloc_velem(s[0], p, sz)]
            + alloc_walk(s.drop_first(), next, spacing, align, max_height, ref_margin)
    }
}

// Bounds on the main-axis charge of a well-sized row.
pub proof fn lemma_row_terms_bound(s: Seq<VElement>, sp: int)
    requires
        wf_children(s),
        sized_children(s),
        0 <= sp <= MAX_STYLE_PX,
    ensures
        0 <= spec_row_terms(s, sp) <= 8 * MAX_STYLE_PX * count_children(s),
    decreases s,
{
    if s.len() > 0 {
        lemma_row_terms_bound(s.drop_first(), sp);
        lemma_sized_effective(s[0]);
        lemma_count_elem_pos(s[0]);
        lemma_wf_styles(s[0]);
        assert(count_children(s) == count_elem(s[0]) + count_children(s.drop_first()));
        assert(spec_row_terms(s, sp) == sp
            + v_styles(s[0]).spec_margin_or_default().spec_horizontal()
            + v_effective_size(s[0]).width + spec_row_terms(s.drop_first(), sp));
        assert(v_effective_size(s[0]).width <= 4 * MAX_STYLE_PX * (2 * count_elem(s[0]) - 1));
        assert(4 * MAX_STYLE_PX * (2 * count_elem(s[0]) - 1)
            == 8 * MAX_STYLE_PX * count_elem(s[0]) - 4 * MAX_STYLE_PX) by (nonlinear_arith);
        assert(8 * MAX_STYLE_PX * count_children(s)
            == 8 * MAX_STYLE_PX * count_elem(s[0]) + 8 * MAX_STYLE_PX * count_children(s.drop_first()))
            by (nonlinear_arith)
            requires
                count_children(s) == count_elem(s[0]) + count_children(s.drop_first()),
        ;
    }
}

// Bounds on the cross-axis reference of a well-sized row, and that every
// child fits under it.
pub proof fn lemma_cross_ref_bound(s: Seq<VElement>)
    requires
        wf_children(s),
        sized_children(s),
        count_children(s) <= MAX_NODES,
    ensures
        0 <= spec_cross_ref(s).0 <= SIZE_BOUND,
        spec_cross_ref(s).1.wf(),
        forall|i: int|
            0 <= i < s.len() ==> v_effective_size(#[trigger] s[i]).height <= spec_cross_ref(s).0,
    decreases s,
{
    if s.len() == 0 {
        assert(Margin::spec_zero().wf());
    } else {
        lemma_cross_ref_bound(s.drop_first());
        lemma_sized_effective(s[0]);
        lemma_count_elem_pos(s[0]);
        assert(count_elem(s[0]) <= count_children(s));
        lemma_node_size_bound_mono(count_elem(s[0]), MAX_NODES as nat);
        lemma_wf_styles(s[0]);
        assert forall|i: int|
            0 <= i < s.len() implies v_effective_size(#[trigger] s[i]).height <= spec_cross_ref(s).0 by {
            if i > 0 {
                assert(s.drop_first()[i - 1] == s[i]);
            }
        }
    }
}

// The walk maps each child to an allocation at the accumulated cursor.
pub proof fn lemma_alloc_walk_index(
    s: Seq<VElement>,
    cursor: Position,
    spacing: Spacing,
    align: AlignItems,
    max_height: int,
    ref_margin: Margin,
    i: int,
)
    requires
        0 <= i < s.len(),
        wf_children(s),
        sized_children(s),
        spacing.spacing_x.wf(),
        0 <= max_height <= SIZE_BOUND,
        ref_margin.wf(),
        abs(cursor.x as int) + 8 * MAX_STYLE_PX * count_children(s) <= 0x2000_0000_0000_0000,
        abs(cursor.y as int) <= 0x2000_0000_0000_0000,
    ensures
        alloc_walk(s, cursor, spacing, align, max_height, ref_margin).len() == s.len(),
        alloc_walk(s, cursor, spacing, align, max_height, ref_margin)[i] == {
            let c_i = Position {
                x: (cursor.x + spec_row_terms(s.take(i), spacing.spacing_x.value as int)) as i64,
                y: cursor.y,
            };
            let eff = v_effective_size(s[i]);
            let m = v_styles(s[i]).spec_margin_or_default();
            alloc_velem(
                s[i],
                spec_child_position(c_i, eff, m, spacing, align, max_height, ref_margin),
                spec_child_size(eff, align, max_height),
            )
        },
    decreases s,
{
    lemma_alloc_walk_len(s, cursor, spacing, align, max_height, ref_margin);
    lemma_sized_effective(s[0]);
    lemma_count_elem_pos(s[0]);
    lemma_wf_styles(s[0]);
    if i == 0 {
        assert(s.take(0).len() == 0);
    } else {
        let eff = v_effective_size(s[0]);
        let m = v_styles(s[0]).spec_margin_or_default();
        let p = spec_child_position(cursor, eff, m, spacing, align, max_height, ref_margin);
        let sz = spec_child_size(eff, align, max_height);
        let next = Position { x: (p.x + sz.width + m.right.value) as i64, y: cursor.y };
        assert(count_children(s) == count_elem(s[0]) + count_children(s.drop_first()));
        assert(count_elem(s[0]) <= count_children(s));
        assert(8 * MAX_STYLE_PX * count_children(s)
            == 8 * MAX_STYLE_PX * count_elem(s[0]) + 8 * MAX_STYLE_PX * count_children(s.drop_first()))
            by (nonlinear_arith)
            requires
                count_children(s) == count_elem(s[0]) + count_children(s.drop_first()),
        ;
        assert(sz.width == eff.width);
        assert(0 <= eff.width <= 8 * MAX_STYLE_PX * count_elem(s[0]) - 4 * MAX_STYLE_PX)
            by (nonlinear_arith)
            requires
                0 <= eff.width <= 4 * MAX_STYLE_PX * (2 * count_elem(s[0]) - 1),
                count_elem(s[0]) >= 1,
        ;
        assert(8 * MAX_STYLE_PX * count_elem(s[0]) <= 8 * MAX_STYLE_PX * count_children(s))
            by (nonlinear_arith)
            requires
                count_elem(s[0]) <= count_children(s),
        ;
        assert(p.x as int == cursor.x + spacing.spacing_x.value + m.left.value);
        assert(next.x as int == p.x + sz.width + m.right.value);
        assert(abs(next.x as int) <= abs(cursor.x as int) + 8 * MAX_STYLE_PX * count_elem(s[0]));
        lemma_alloc_walk_index(s.drop_first(), next, spacing, align, max_height, ref_margin, i - 1);
        assert(s.drop_first()[i - 1] == s[i]);
        assert(s.drop_first().take(i - 1) =~= s.take(i).drop_first());
        assert(s.take(i)[0] == s[0]);
        lemma_row_terms_prefix_shift(s, i, spacing.spacing_x.value as int);
        lemma_row_terms_bound_take(s, i, spacing.spacing_x.value as int);
        lemma_row_terms_bound_take(s.drop_first(), i - 1, spacing.spacing_x.value as int);
    }
}

pub proof fn lemma_alloc_walk_len(
    s: Seq<VElement>,
    cursor: Position,
    spacing: Spacing,
    align: AlignItems,
    max_height: int,
    ref_margin: Margin,
)
    ensures
        alloc_walk(s, cursor, spacing, align, max_height, ref_margin).len() == s.len(),
    decreases s,
{
    if s.len() > 0 {
        let eff = v_effective_size(s[0]);
        let m = v_styles(s[0]).spec_margin_or_default();
        let p = spec_child_position(cursor, eff, m, spacing, align, max_height, ref_margin);
        let sz = spec_child_size(eff, align, max_height);
        let next = Position { x: (p.x + sz.width + m.right.value) as i64, y: cursor.y };
        lemma_alloc_walk_len(s.drop_first(), next, spacing, align, max_height, ref_margin);
    }
}

// Prefixes of well-formed rows are well-formed, and their charge is
// bounded by the whole row's.
pub proof fn lemma_wf_sized_take(s: Seq<VElement>, i: int)
    requires
        0 <= i <= s.len(),
        wf_children(s),
        sized_children(s),
    ensures
        wf_children(s.take(i)),
        sized_children(s.take(i)),
    decreases s.len(),
{
    if i > 0 {
        lemma_wf_sized_take(s.drop_first(), i - 1);
        assert(s.take(i).drop_first() =~= s.drop_first().take(i - 1));
        assert(s.take(i)[0] == s[0]);
    }
}

// The charge of a prefix is bounded through the prefix node count.
pub proof fn lemma_row_terms_bound_take(s: Seq<VElement>, i: int, sp: int)
    requires
        0 <= i <= s.len(),
        wf_children(s),
        sized_children(s),
        0 <= sp <= MAX_STYLE_PX,
    ensures
        0 <= spec_row_terms(s.take(i), sp) <= 8 * MAX_STYLE_PX * count_children(s),
{
    lemma_wf_sized_take(s, i);
    lemma_row_terms_bound(s.take(i), sp);
    crate::estimate::lemma_count_children_split(s, i);
    assert(count_children(s.take(i)) <= count_children(s));
    assert(8 * MAX_STYLE_PX * count_children(s.take(i)) <= 8 * MAX_STYLE_PX * count_children(s))
        by (nonlinear_arith)
        requires
            count_children(s.take(i)) <= count_children(s),
    ;
}

// The charge of a prefix that skips its head is the full prefix charge
// less the head's term.
pub proof fn lemma_row_terms_prefix_shift(s: Seq<VElement>, i: int, sp: int)
    requires
        1 <= i <= s.len(),
    ensures
        spec_row_terms(s.take(i), sp) == sp
            + v_styles(s[0]).spec_margin_or_default().spec_horizontal()
            + v_effective_size(s[0]).width
            + spec_row_terms(s.drop_first().take(i - 1), sp),
{
    assert(s.take(i)[0] == s[0]);
    assert(s.take(i).drop_first() =~= s.drop_first().take(i - 1));
}


/// The width this row's children ask for: one sibling gap, margins and
/// effective width per child, plus the container's horizontal padding.
#[verifier::loop_isolation(false)]
pub fn precompute_requested_children_width(container: &Container) -> (r: i64)
    requires
        wf_container(v_container(*container)),
        sized_container(v_container(*container)),
        count_container(v_container(*container)) <= MAX_NODES,
    ensures
        r as int == spec_requested_children_width(v_container(*container)),
{
    let ghost kids_v = v_children(container.children@);
    proof {
        lemma_v_children_len(container.children@);
    }
    let pad = container.styles.padding_or_default();
    let spacing = container.styles.spacing_or_default();
    proof {
        assert(container.styles.wf());
        assert(pad.wf());
        assert(spacing.spacing_x.wf());
    }
    let n = container.children.len();
    let mut acc: i64 = 0;
    let mut i: usize = 0;
    while i < n
        invariant
            0 <= i <= n,
            acc as int == spec_row_terms(kids_v.take(i as int), spacing.spacing_x.value as int),
            0 <= acc as int <= 8 * MAX_STYLE_PX * count_children(kids_v.take(i as int)),
        decreases n - i,
    {
        let ch = &container.children[i];
        proof {
            assert(v_elem(*ch) == kids_v[i as int]);
            lemma_children_index(kids_v, i as int);
            lemma_count_children_index(kids_v, i as int);
            lemma_count_children_take(kids_v, i as int);
            lemma_count_elem_pos(kids_v[i as int]);
            lemma_sized_effective(kids_v[i as int]);
            lemma_wf_styles(kids_v[i as int]);
            lemma_row_terms_take(kids_v, i as int, spacing.spacing_x.value as int);
            assert(8 * MAX_STYLE_PX * count_children(kids_v.take(i as int + 1))
                == 8 * MAX_STYLE_PX * count_children(kids_v.take(i as int))
                    + 8 * MAX_STYLE_PX * count_elem(kids_v[i as int]))
                by (nonlinear_arith)
                requires
                    count_children(kids_v.take(i as int + 1))
                        == count_children(kids_v.take(i as int)) + count_elem(kids_v[i as int]),
            ;
            crate::estimate::lemma_count_children_split(kids_v, i as int + 1);
            assert(8 * MAX_STYLE_PX * count_children(kids_v.take(i as int + 1))
                <= 8 * MAX_STYLE_PX * count_children(kids_v))
                by (nonlinear_arith)
                requires
                    count_children(kids_v.take(i as int + 1)) <= count_children(kids_v),
            ;
        }
        let m = ch.get_styles().margin_or_default();
        let eff = ch.get_effective_size();
        acc = acc + (spacing.spacing_x.value + m.horizontal() + eff.width);
        i = i + 1;
    }
    proof {
        lemma_count_children_take_all(kids_v);
        assert(kids_v.take(n as int) =~= kids_v);
        assert(8 * MAX_STYLE_PX * count_children(kids_v) <= 8 * MAX_STYLE_PX * MAX_NODES)
            by (nonlinear_arith)
            requires
                count_children(kids_v) <= MAX_NODES,
        ;
    }
    pad.horizontal() + acc
}

/// Allocates the given bounds to a node and recursively to everything
/// under it.
pub fn allocate_elem(e: Element, pos: Position, size: Size) -> (r: Element)
    requires
        wf_elem(v_elem(e)),
        sized_elem(v_elem(e)),
        count_elem(v_elem(e)) <= MAX_NODES,
        abs(pos.x as int) <= pos_budget(count_elem(v_elem(e))),
        abs(pos.y as int) <= pos_budget(count_elem(v_elem(e))),
        -SIZE_BOUND <= size.width <= SIZE_BOUND,
        -SIZE_BOUND <= size.height <= SIZE_BOUND,
    ensures
        v_elem(r) == alloc_velem(v_elem(e), pos, size),
    decreases e,
{
    match e {
        Element::Container(c) => {
            let ghost cv = v_container(c);
            let r = allocate_container(c, pos, size);
            Element::Container(r)
        },
        Element::Component(k) => {
            let ghost kv = v_elem(Element::Component(k));
            let ghost contentv = v_container(*k.content);
            proof {
                assert(count_container(contentv) < count_elem(kv));
                assert(ALLOC_GROWTH * (MAX_NODES - count_elem(kv))
                    <= ALLOC_GROWTH * (MAX_NODES - count_container(contentv)))
                    by (nonlinear_arith)
                    requires
                        count_container(contentv) <= count_elem(kv),
                ;
            }
            let Component { id, content, position, size: own_size, natural_size, requested_size, styles } = k;
            let new_content = allocate_container(*content, pos, size);
            Element::Component(Component {
                id,
                content: Box::new(new_content),
                position,
                size: own_size,
                natural_size,
                requested_size,
                styles,
            })
        },
    }
}

/// Allocates the given bounds to a container: the container takes the
/// bounds as its final position and size, negotiates overflow and scroll
/// state, and walks its children in order, placing each at the running
/// main-axis cursor with the cross-axis alignment rule.
#[verifier::loop_isolation(false)]
#[verifier::rlimit(100)]
pub fn allocate_container(c: Container, pos: Position, size: Size) -> (r: Container)
    requires
        wf_container(v_container(c)),
        sized_container(v_container(c)),
        count_container(v_container(c)) <= MAX_NODES,
        abs(pos.x as int) <= pos_budget(count_container(v_container(c))),
        abs(pos.y as int) <= pos_budget(count_container(v_container(c))),
        -SIZE_BOUND <= size.width <= SIZE_BOUND,
        -SIZE_BOUND <= size.height <= SIZE_BOUND,
    ensures
        v_container(r) == alloc_vcontainer(v_container(c), pos, size),
    decreases c,
{
    let ghost c0 = c;
    let ghost cv = v_container(c);
    let ghost kids_v = v_children(c.children@);
    proof {
        lemma_v_children_len(c0.children@);
        assert(c0.styles.wf());
    }
    if c.children.len() == 0 {
        let Container { id, position: _, size: _, natural_size, requested_size, styles, children, scrollbar_state } = c;
        return Container {
            id,
            position: pos,
            size,
            natural_size,
            requested_size,
            styles,
            children,
            scrollbar_state,
        };
    }
    let pad = c.styles.padding_or_default();
    let spacing = c.styles.spacing_or_default();
    let align = c.styles.align_items_or_default();
    let overflow = c.styles.overflow_or_default();
    let flex_wrap = c.styles.flex_wrap_or_default();
    proof {
        assert(pad.wf());
        assert(spacing.spacing_x.wf());
    }

    // cross-axis reference: the maximum effective child height, and the
    // margin of the first child attaining it
    let mut max_h: i64 = 0;
    let mut ref_margin = Margin::zero();
    let n = c.children.len();
    let mut j = n;
    while j > 0
        invariant
            0 <= j <= n,
            n == kids_v.len(),
            max_h as int == spec_cross_ref(kids_v.skip(j as int)).0,
            ref_margin == spec_cross_ref(kids_v.skip(j as int)).1,
            0 <= max_h <= SIZE_BOUND,
        decreases j,
    {
        j = j - 1;
        let ch = &c.children[j];
        proof {
            assert(v_elem(*ch) == kids_v[j as int]);
            lemma_children_index(kids_v, j as int);
            lemma_count_children_index(kids_v, j as int);
            lemma_count_elem_pos(kids_v[j as int]);
            lemma_sized_effective(kids_v[j as int]);
            lemma_wf_styles(kids_v[j as int]);
            lemma_node_size_bound_mono(count_elem(kids_v[j as int]), MAX_NODES as nat);
            assert(kids_v.skip(j as int)[0] == kids_v[j as int]);
            assert(kids_v.skip(j as int).drop_first() =~= kids_v.skip(j as int + 1));
        }
        let h = ch.get_effective_size().height;
        if h >= max_h {
            max_h = h;
            ref_margin = ch.get_styles().margin_or_default();
        }
    }
    proof {
        assert(kids_v.skip(0) =~= kids_v);
        lemma_cross_ref_bound(kids_v);
    }

    // overflow negotiation
    let reqw = precompute_requested_children_width(&c);
    let ghost reqw_spec = spec_requested_children_width(cv);
    proof {
        lemma_row_terms_bound(kids_v, spacing.spacing_x.value as int);
        assert(8 * MAX_STYLE_PX * count_children(kids_v) <= 8 * MAX_STYLE_PX * MAX_NODES)
            by (nonlinear_arith)
            requires
                count_children(kids_v) <= MAX_NODES,
        ;
    }
    let mut scrollbar = c.scrollbar_state;
    if matches!(overflow, Overflow::Auto) && reqw > size.width && reqw >= 1 {
        scrollbar = ScrollbarState {
            thumb_scrollbar_width_ratio: Frac { num: size.width - pad.horizontal(), den: reqw },
            is_overflowing: Directions { horizontal: true, vertical: false },
            current_scroll_position: scrollbar.current_scroll_position,
        };
    }
    let mut offset: i64 = 0;
    if matches!(overflow, Overflow::Auto) {
        proof {
            assert(c.scrollbar_state.current_scroll_position.x.wf());
            lemma_mul_frac_bound(reqw as int - size.width as int, c.scrollbar_state.current_scroll_position.x);
        }
        offset = mul_frac(reqw - size.width, c.scrollbar_state.current_scroll_position.x);
    }
    let start_x: i64 = pos.x + pad.left.value - offset;
    let start_y: i64 = pos.y + pad.top.value;
    let ghost start = Position { x: start_x, y: start_y };

    // walk the children, assigning each its allocated bounds
    let Container { id, position: _, size: _, natural_size, requested_size, styles, children, scrollbar_state: _ } = c;
    let mut kids = children;
    let mut out: Vec<Element> = Vec::new();
    let mut cursor_x: i64 = start_x;
    let mut i: usize = 0;
    while i < n
        invariant
            0 <= i <= n,
            kids@ =~= c0.children@.skip(i as int),
            out@.len() == i,
            forall|t: int| 0 <= t < i ==> v_children(out@)[t]
                == alloc_walk(kids_v, start, spacing, align, max_h as int, ref_margin)[t],
            v_children(out@).len() == i,
            cursor_x as int == start.x + spec_row_terms(kids_v.take(i as int), spacing.spacing_x.value as int),
        decreases n - i,
    {
        let ghost prev_out = out@;
        let child = kids.remove(0);
        proof {
            lemma_v_children_len(c0.children@);
            assert(c0.children@.skip(i as int)[0] == c0.children@[i as int]);
            assert(c0.children@.skip(i as int).remove(0) =~= c0.children@.skip(i as int + 1));
            assert(child == c0.children@[i as int]);
            assert(v_elem(child) == kids_v[i as int]);
            lemma_children_index(kids_v, i as int);
            lemma_count_children_index(kids_v, i as int);
            lemma_count_elem_pos(kids_v[i as int]);
            lemma_sized_effective(kids_v[i as int]);
            lemma_wf_styles(kids_v[i as int]);
            lemma_node_size_bound_mono(count_elem(kids_v[i as int]), MAX_NODES as nat);
            lemma_row_terms_bound_take(kids_v, i as int, spacing.spacing_x.value as int);
            assert(8 * MAX_STYLE_PX * count_children(kids_v) <= 8 * MAX_STYLE_PX * MAX_NODES)
                by (nonlinear_arith)
                requires
                    count_children(kids_v) <= MAX_NODES,
            ;
            assert(decreases_to!(c0 => child)) by {
                assert(decreases_to!(c0 => c0.children));
                assert(decreases_to!(c0.children => c0.children@));
                assert(decreases_to!(c0.children@ => c0.children@[i as int]));
            }
        }
        let eff = child.get_effective_size();
        let m = child.get_styles().margin_or_default();
        let x: i64 = cursor_x + spacing.spacing_x.value + m.left.value;
        let y: i64 = if matches!(align, AlignItems::Center) {
            let diff: i64 = max_h - eff.height;
            start_y + ref_margin.top.value + (((diff as u64) / 2) as i64)
        } else if matches!(align, AlignItems::FlexEnd) {
            start_y + ref_margin.top.value + (max_h - eff.height)
        } else {
            start_y + m.top.value
        };
        let sz: Size = if matches!(align, AlignItems::Stretch) {
            Size { width: eff.width, height: max_h }
        } else {
            determine_allocated_size(eff, flex_wrap, overflow)
        };
        proof {
            assert(count_elem(kids_v[i as int]) < count_container(cv));
            assert(ALLOC_GROWTH * (MAX_NODES - count_container(cv)) + ALLOC_GROWTH
                <= ALLOC_GROWTH * (MAX_NODES - count_elem(kids_v[i as int])))
                by (nonlinear_arith)
                requires
                    count_elem(kids_v[i as int]) + 1 <= count_container(cv),
            ;
            assert(v_styles(kids_v[i as int]) == v_styles(v_elem(child)));
            assert(spec_child_position(
                Position { x: cursor_x, y: start_y }, eff,
                v_styles(kids_v[i as int]).spec_margin_or_default(),
                spacing, align, max_h as int, ref_margin,
            ) == Position { x: x, y: y }) by {
                if matches!(align, AlignItems::Center) {
                    assert(max_h - eff.height >= 0) by {
                        lemma_cross_ref_bound(kids_v);
                    }
                }
            }
        }
        let child_alloc = allocate_elem(child, Position { x, y }, sz);
        out.push(child_alloc);
        proof {
            assert(out@ =~= prev_out.push(child_alloc));
            lemma_v_children_push(prev_out, child_alloc);
            lemma_alloc_walk_index(kids_v, start, spacing, align, max_h as int, ref_margin, i as int);
            assert(v_children(out@)[i as int] == v_elem(child_alloc));
            assert((Position {
                x: (start.x + spec_row_terms(kids_v.take(i as int), spacing.spacing_x.value as int)) as i64,
                y: start.y,
            }) == Position { x: cursor_x, y: start_y });
            assert(v_elem(child_alloc)
                == alloc_walk(kids_v, start, spacing, align, max_h as int, ref_margin)[i as int]);
            lemma_row_terms_take(kids_v, i as int, spacing.spacing_x.value as int);
            assert(sz.width == eff.width);
        }
        cursor_x = x + sz.width + m.right.value;
        i = i + 1;
    }
    let result = Container {
        id,
        position: pos,
        size,
        natural_size,
        requested_size,
        styles,
        children: out,
        scrollbar_state: scrollbar,
    };
    proof {
        lemma_alloc_walk_len(kids_v, start, spacing, align, max_h as int, ref_margin);
        assert(v_children(result.children@)
            =~= alloc_walk(kids_v, start, spacing, align, max_h as int, ref_margin));
        assert(v_container(result) == alloc_vcontainer(cv, pos, size));
    }
    result
}

impl Element {
    /// Assigns the allocated bounds to this subtree, parents before
    /// children.
    pub fn allocate_space(&mut self, allocated_position: Position, allocated_size: Size)
        requires
            wf_elem(v_elem(*old(self))),
            sized_elem(v_elem(*old(self))),
            count_elem(v_elem(*old(self))) <= MAX_NODES,
            abs(allocated_position.x as int) <= MAX_POS,
            abs(allocated_position.y as int) <= MAX_POS,
            -SIZE_BOUND <= allocated_size.width <= SIZE_BOUND,
            -SIZE_BOUND <= allocated_size.height <= SIZE_BOUND,
        ensures
            v_elem(*final(self)) == alloc_velem(v_elem(*old(self)), allocated_position, allocated_size),
    {
        proof {
            let cnt = count_elem(v_elem(*old(self)));
            assert(ALLOC_GROWTH * (MAX_NODES - cnt) >= 0) by (nonlinear_arith)
                requires
                    cnt <= MAX_NODES,
            ;
        }
        let mut tmp = crate::element::placeholder_elem();
        core::mem::swap(self, &mut tmp);
        let r = allocate_elem(tmp, allocated_position, allocated_size);
        *self = r;
    }

    /// Runs the strict two-phase layout: size estimation for the whole
    /// subtree first, then space allocation with the given bounds; no
    /// allocation begins before the whole subtree is estimated.
    pub fn layout(&mut self, allocated_position: Position, allocated_size: Size)
        requires
            wf_elem(v_elem(*old(self))),
            count_elem(v_elem(*old(self))) <= MAX_NODES,
            abs(allocated_position.x as int) <= MAX_POS,
            abs(allocated_position.y as int) <= MAX_POS,
            -SIZE_BOUND <= allocated_size.width <= SIZE_BOUND,
            -SIZE_BOUND <= allocated_size.height <= SIZE_BOUND,
        ensures
            v_elem(*final(self)) == alloc_velem(
                est_velem(v_elem(*old(self))),
                allocated_position,
                allocated_size,
            ),
    {
        self.estimate_size();
        proof {
            lemma_est_preserves_elem(v_elem(*old(self)));
        }
        self.allocate_space(allocated_position, allocated_size);
    }
}

/// Distributes a row container's allocated bounds: assigns them as the
/// container's position and size and lays the children out along the
/// horizontal main axis.
pub fn allocate_space_to_children_row_flex(
    container: &mut Container,
    allocated_position: Position,
    allocated_size: Size,
)
    requires
        wf_container(v_container(*old(container))),
        sized_container(v_container(*old(container))),
        count_container(v_container(*old(container))) <= MAX_NODES,
        abs(allocated_position.x as int) <= MAX_POS,
        abs(allocated_position.y as int) <= MAX_POS,
        -SIZE_BOUND <= allocated_size.width <= SIZE_BOUND,
        -SIZE_BOUND <= allocated_size.height <= SIZE_BOUND,
    ensures
        v_container(*final(container))
            == alloc_vcontainer(v_container(*old(container)), allocated_position, allocated_size),
{
    proof {
        let cnt = count_container(v_container(*old(container)));
        assert(ALLOC_GROWTH * (MAX_NODES - cnt) >= 0) by (nonlinear_arith)
            requires
                cnt <= MAX_NODES,
        ;
    }
    let mut tmp = match crate::element::placeholder_elem() {
        Element::Container(c) => c,
        Element::Component(k) => *k.content,
    };
    core::mem::swap(container, &mut tmp);
    let r = allocate_container(tmp, allocated_position, allocated_size);
    *container = r;
}

} // verus!

