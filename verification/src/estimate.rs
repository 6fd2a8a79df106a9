//! Size estimation pass: a post-order traversal that computes every
//! node's natural size from its children (or its padding, for a leaf)
//! and resolves its requested size from the dimension category of its
//! resolved style.

use vstd::prelude::*;
use crate::geometry::{OptionalSize, Size, MAX_NODES, MAX_STYLE_PX};
use crate::styles::Styles;
use crate::element::{
    Component, Container, Element, VComponent, VContainer, VElement,
    count_children, count_container, count_elem,
    lemma_children_index, lemma_count_children_index, lemma_count_children_take,
    lemma_node_size_bound_mono,
    lemma_count_children_take_all, lemma_count_elem_pos, lemma_v_children_len,
    lemma_v_children_push, node_size_bound, sized_children, sized_container,
    sized_elem, sized_geom, v_children, v_container, v_effective_size, v_elem,
    v_position, v_requested_size, v_size, v_styles, wf_children, wf_container,
    wf_elem,
};

verus! {

/// The requested size a style record asks for: the explicit width and
/// height of its dimension category, where declared.
pub open spec fn spec_requested_from_styles(st: Styles) -> OptionalSize {
    match st.sizing_policy {
        Some(sp) => OptionalSize {
            width: match sp.width {
                Some(d) => Some(d.value),
                None => None,
            },
            height: match sp.height {
                Some(d) => Some(d.value),
                None => None,
            },
        },
        None => OptionalSize { width: None, height: None },
    }
}

/// Resolves the requested size of an element from its style record.
pub fn requested_size_from_styles(st: &Styles) -> (r: OptionalSize)
    ensures
        r == spec_requested_from_styles(*st),
{
    match st.sizing_policy {
        Some(sp) => OptionalSize {
            width: match sp.width {
                Some(d) => Some(d.value),
                None => None,
            },
            height: match sp.height {
                Some(d) => Some(d.value),
                None => None,
            },
        },
        None => OptionalSize { width: None, height: None },
    }
}

/// Total main-axis charge of a row of children: for each child, one
/// sibling gap plus its horizontal margins plus its effective width.
pub open spec fn spec_row_terms(s: Seq<VElement>, spacing_x: int) -> int
    decreases s,
{
    if s.len() == 0 {
        0
    } else {
        spacing_x + v_styles(s[0]).spec_margin_or_default().spec_horizontal()
            + v_effective_size(s[0]).width + spec_row_terms(s.drop_first(), spacing_x)
    }
}

/// Cross-axis extent of a row of children: the maximum over children of
/// effective height plus vertical margins (zero for no children).
pub open spec fn spec_row_cross(s: Seq<VElement>) -> int
    decreases s,
{
    if s.len() == 0 {
        0
    } else {
        let t = v_effective_size(s[0]).height + v_styles(s[0]).spec_margin_or_default().spec_vertical();
        let rest = spec_row_cross(s.drop_first());
        if t >= rest {
            t
        } else {
            rest
        }
    }
}

/// The natural size of a row container with the given resolved styles
/// and (already estimated) children: main-axis sums, cross-axis maxes,
/// padding on both axes; a container without children is its padding
/// alone.
pub open spec fn spec_natural_from_children(st: Styles, kids: Seq<VElement>) -> Size {
    let pad = st.spec_padding_or_default();
    let sp = st.spec_spacing_or_default().spacing_x.value as int;
    if kids.len() == 0 {
        Size { width: pad.spec_horizontal() as i64, height: pad.spec_vertical() as i64 }
    } else {
        Size {
            width: (pad.spec_horizontal() + spec_row_terms(kids, sp) - sp) as i64,
            height: (pad.spec_vertical() + spec_row_cross(kids)) as i64,
        }
    }
}

/// The estimation pass over a node: children first, then the node's own
/// natural and requested size; everything else is left untouched.
pub open spec fn est_velem(v: VElement) -> VElement
    decreases v,
{
    match v {
        VElement::Container(c) => VElement::Container(est_vcontainer(c)),
        VElement::Component(k) => {
            let content = est_vcontainer(k.content);
            VElement::Component(VComponent {
                id: k.id,
                content: content,
                position: k.position,
                size: k.size,
                natural_size: content.natural_size,
                requested_size: spec_requested_from_styles(k.styles),
                styles: k.styles,
            })
        },
    }
}

pub open spec fn est_vcontainer(c: VContainer) -> VContainer
    decreases c,
{
    let kids = est_vchildren(c.children);
    VContainer {
        id: c.id,
        position: c.position,
        size: c.size,
        natural_size: spec_natural_from_children(c.styles, kids),
        requested_size: spec_requested_from_styles(c.styles),
        styles: c.styles,
        children: kids,
        scrollbar_state: c.scrollbar_state,
    }
}

pub open spec fn est_vchildren(s: Seq<VElement>) -> Seq<VElement>
    decreases s,
{
    if s.len() == 0 {
        Seq::empty()
    } else {
        seq![est_velem(s[0])] + est_vchildren(s.drop_first())
    }
}

// Estimation maps a child sequence element-wise.
pub proof fn lemma_est_vchildren_index(s: Seq<VElement>)
    ensures
        est_vchildren(s).len() == s.len(),
        forall|i: int| 0 <= i < s.len() ==> est_vchildren(s)[i] == est_velem(#[trigger] s[i]),
    decreases s.len(),
{
    if s.len() > 0 {
        lemma_est_vchildren_index(s.drop_first());
        assert forall|i: int| 0 <= i < s.len() implies est_vchildren(s)[i] == est_velem(#[trigger] s[i]) by {
            if i > 0 {
                assert(s.drop_first()[i - 1] == s[i]);
                assert(est_vchildren(s)[i] == est_vchildren(s.drop_first())[i - 1]);
            }
        }
    }
}

// Estimation keeps the skeleton: node counts, styles, positions, sizes
// and scroll state are untouched, and well-formedness is preserved.
pub proof fn lemma_est_preserves_elem(v: VElement)
    ensures
        count_elem(est_velem(v)) == count_elem(v),
        v_styles(est_velem(v)) == v_styles(v),
        v_position(est_velem(v)) == v_position(v),
        v_size(est_velem(v)) == v_size(v),
        wf_elem(v) ==> wf_elem(est_velem(v)),
    decreases v,
{
    match v {
        VElement::Container(c) => {
            lemma_est_preserves_container(c);
        },
        VElement::Component(k) => {
            lemma_est_preserves_container(k.content);
        },
    }
}

pub proof fn lemma_est_preserves_container(c: VContainer)
    ensures
        count_container(est_vcontainer(c)) == count_container(c),
        est_vcontainer(c).styles == c.styles,
        est_vcontainer(c).position == c.position,
        est_vcontainer(c).size == c.size,
        est_vcontainer(c).scrollbar_state == c.scrollbar_state,
        wf_container(c) ==> wf_container(est_vcontainer(c)),
    decreases c,
{
    lemma_est_preserves_children(c.children);
}

pub proof fn lemma_est_preserves_children(s: Seq<VElement>)
    ensures
        count_children(est_vchildren(s)) == count_children(s),
        wf_children(s) ==> wf_children(est_vchildren(s)),
    decreases s,
{
    if s.len() > 0 {
        lemma_est_preserves_elem(s[0]);
        lemma_est_preserves_children(s.drop_first());
        assert(est_vchildren(s).drop_first() =~= est_vchildren(s.drop_first()));
        assert(est_vchildren(s)[0] == est_velem(s[0]));
    }
}

// Appending a well-sized node keeps a child sequence well-sized.
pub proof fn lemma_sized_children_push(s: Seq<VElement>, v: VElement)
    requires
        sized_children(s),
        sized_elem(v),
    ensures
        sized_children(s.push(v)),
    decreases s.len(),
{
    if s.len() == 0 {
        assert(s.push(v)[0] == v);
        assert(s.push(v).drop_first() =~= Seq::<VElement>::empty());
        assert(sized_children(s.push(v).drop_first()));
        assert(sized_elem(s.push(v)[0]));
    } else {
        lemma_sized_children_push(s.drop_first(), v);
        assert(s.push(v).drop_first() =~= s.drop_first().push(v));
        assert(s.push(v)[0] == s[0]);
        assert(sized_children(s.push(v).drop_first()));
        assert(sized_elem(s.push(v)[0]));
    }
}

/// Estimates sizes for a whole subtree, children before parent, and
/// returns the updated tree.
pub fn estimate_elem(e: Element) -> (r: Element)
    requires
        wf_elem(v_elem(e)),
        count_elem(v_elem(e)) <= MAX_NODES,
    ensures
        v_elem(r) == est_velem(v_elem(e)),
        sized_elem(v_elem(r)),
    decreases e,
{
    match e {
        Element::Container(c) => {
            let ghost cv = v_container(c);
            let r = estimate_container(c);
            proof {
                lemma_est_preserves_container(cv);
            }
            Element::Container(r)
        },
        Element::Component(k) => {
            let ghost kv = v_elem(Element::Component(k));
            let ghost contentv = v_container(*k.content);
            let Component { id, content, position, size, natural_size: _, requested_size: _, styles } = k;
            let new_content = estimate_container(*content);
            let natural = new_content.natural_size;
            let requested = requested_size_from_styles(&styles);
            let r = Element::Component(Component {
                id,
                content: Box::new(new_content),
                position,
                size,
                natural_size: natural,
                requested_size: requested,
                styles,
            });
            proof {
                lemma_est_preserves_container(contentv);
                assert(v_container(new_content) == est_vcontainer(contentv));
                assert(count_container(v_container(new_content)) == count_container(contentv));
                assert(count_elem(v_elem(r)) == 1 + count_container(v_container(new_content)));
                lemma_node_size_bound_mono(count_container(contentv), count_elem(v_elem(r)));
            }
            r
        },
    }
}

/// Estimates sizes for a container subtree.
#[verifier::loop_isolation(false)]
#[verifier::rlimit(60)]
pub fn estimate_container(c: Container) -> (r: Container)
    requires
        wf_container(v_container(c)),
        count_container(v_container(c)) <= MAX_NODES,
    ensures
        v_container(r) == est_vcontainer(v_container(c)),
        sized_container(v_container(r)),
    decreases c,
{
    let ghost c0 = c;
    let ghost vkids = v_children(c.children@);
    let Container { id, position, size, natural_size: _, requested_size: _, styles, children, scrollbar_state } = c;
    proof {
        lemma_v_children_len(c0.children@);
    }
    let n = children.len();
    let mut kids = children;
    let mut out: Vec<Element> = Vec::new();
    let pad = styles.padding_or_default();
    let spacing = styles.spacing_or_default();
    let mut acc: i64 = 0;
    let mut cross: i64 = 0;
    let mut i: usize = 0;
    while i < n
        invariant
            n == vkids.len(),
            n == c0.children@.len(),
            vkids == v_children(c0.children@),
            0 <= i <= n,
            kids@ =~= c0.children@.skip(i as int),
            out@.len() == i,
            v_children(out@) == est_vchildren(vkids.take(i as int)),
            sized_children(v_children(out@)),
            wf_children(vkids),
            count_children(vkids) <= MAX_NODES,
            acc as int == spec_row_terms(est_vchildren(vkids).take(i as int), spacing.spacing_x.value as int),
            0 <= acc as int <= 8 * MAX_STYLE_PX * count_children(vkids.take(i as int)),
            i > 0 ==> acc as int >= spacing.spacing_x.value as int,
            0 <= cross as int <= 8 * MAX_STYLE_PX * count_children(vkids),
            cross as int == spec_row_cross(est_vchildren(vkids).take(i as int)),
            styles == c0.styles,
            pad == c0.styles.spec_padding_or_default(),
            spacing == c0.styles.spec_spacing_or_default(),
            styles.wf(),
        decreases n - i,
    {
        let ghost prev_out = out@;
        let child = kids.remove(0);
        proof {
            lemma_v_children_len(c0.children@);
            assert(c0.children@.skip(i as int)[0] == c0.children@[i as int]);
            assert(c0.children@.skip(i as int).remove(0) =~= c0.children@.skip(i as int + 1));
            assert(child == c0.children@[i as int]);
            assert(v_elem(child) == vkids[i as int]);
            lemma_children_index(vkids, i as int);
            lemma_count_children_index(vkids, i as int);
            assert(decreases_to!(c0 => child)) by {
                assert(decreases_to!(c0 => c0.children));
                assert(decreases_to!(c0.children => c0.children@));
                assert(decreases_to!(c0.children@ => c0.children@[i as int]));
            }
        }
        let r = estimate_elem(child);
        proof {
            lemma_est_preserves_elem(vkids[i as int]);
            lemma_count_children_take(vkids, i as int);
            lemma_count_children_split(vkids, i as int + 1);
        }
        let st = r.get_styles();
        proof {
            assert(wf_elem(v_elem(r)));
            assert(st.wf()) by {
                match v_elem(r) {
                    VElement::Container(cc) => {},
                    VElement::Component(kk) => {},
                }
            }
        }
        let m = st.margin_or_default();
        let eff = r.get_effective_size();
        proof {
            // the estimated child's geometry is bounded by its node count
            assert(sized_elem(v_elem(r)));
            assert(count_elem(v_elem(r)) == count_elem(vkids[i as int]));
            lemma_count_elem_pos(vkids[i as int]);
            lemma_sized_effective(v_elem(r));
            assert(0 <= eff.width as int <= node_size_bound(count_elem(vkids[i as int])));
            assert(0 <= eff.height as int <= node_size_bound(count_elem(vkids[i as int])));
            assert(st.wf());
            assert(st.spec_margin_or_default().wf());
        }
        proof {
            assert(spacing.spacing_x.wf());
            assert(pad.wf());
        }
        let term = spacing.spacing_x.value + m.horizontal() + eff.width;
        acc = acc + term;
        let t_cross = eff.height + m.vertical();
        if t_cross > cross {
            cross = t_cross;
        }
        out.push(r);
        proof {
            assert(out@ =~= prev_out.push(r));
            lemma_v_children_push(prev_out, r);
            lemma_sized_children_push(v_children(prev_out), v_elem(r));
            lemma_est_vchildren_index(vkids);
            assert(est_vchildren(vkids).take(i as int + 1)
                =~= est_vchildren(vkids).take(i as int).push(est_velem(vkids[i as int])));
            assert(est_vchildren(vkids.take(i as int + 1))
                =~= est_vchildren(vkids).take(i as int + 1)) by {
                lemma_est_vchildren_index(vkids.take(i as int + 1));
                assert forall|j: int| 0 <= j < i as int + 1 implies
                    est_vchildren(vkids.take(i as int + 1))[j] == est_vchildren(vkids)[j] by {
                    assert(vkids.take(i as int + 1)[j] == vkids[j]);
                }
            }
            assert(est_vchildren(vkids.take(i as int))
                =~= est_vchildren(vkids).take(i as int)) by {
                lemma_est_vchildren_index(vkids.take(i as int));
                assert forall|j: int| 0 <= j < i as int implies
                    est_vchildren(vkids.take(i as int))[j] == est_vchildren(vkids)[j] by {
                    assert(vkids.take(i as int)[j] == vkids[j]);
                }
            }
            assert(v_children(out@) == v_children(prev_out).push(v_elem(r)));
            assert(v_elem(r) == est_velem(vkids[i as int]));
            assert(v_children(out@) == est_vchildren(vkids.take(i as int + 1)));
            // main-axis sum over one more child
            assert(spec_row_terms(est_vchildren(vkids).take(i as int + 1), spacing.spacing_x.value as int)
                == spec_row_terms(est_vchildren(vkids).take(i as int), spacing.spacing_x.value as int)
                    + spacing.spacing_x.value + v_styles(est_velem(vkids[i as int])).spec_margin_or_default().spec_horizontal()
                    + v_effective_size(est_velem(vkids[i as int])).width) by {
                lemma_row_terms_take(est_vchildren(vkids), i as int, spacing.spacing_x.value as int);
            }
            assert(spec_row_cross(est_vchildren(vkids).take(i as int + 1))
                == {
                    let t = v_effective_size(est_velem(vkids[i as int])).height
                        + v_styles(est_velem(vkids[i as int])).spec_margin_or_default().spec_vertical();
                    let rest = spec_row_cross(est_vchildren(vkids).take(i as int));
                    if t >= rest { t } else { rest }
                }) by {
                lemma_row_cross_take(est_vchildren(vkids), i as int);
            }
        }
        i = i + 1;
    }
    proof {
        lemma_count_children_take_all(vkids);
        assert(pad.wf());
        assert(spacing.spacing_x.wf());
    }
    let nat_w: i64 = if n == 0 {
        pad.horizontal()
    } else {
        pad.horizontal() + acc - spacing.spacing_x.value
    };
    let nat_h: i64 = if n == 0 {
        pad.vertical()
    } else {
        pad.vertical() + cross
    };
    let requested = requested_size_from_styles(&styles);
    let result = Container {
        id,
        position,
        size,
        natural_size: Size { width: nat_w, height: nat_h },
        requested_size: requested,
        styles,
        children: out,
        scrollbar_state,
    };
    proof {
        lemma_count_children_take_all(vkids);
        assert(vkids.take(n as int) =~= vkids);
        assert(est_vchildren(vkids).take(n as int) =~= est_vchildren(vkids)) by {
            lemma_est_vchildren_index(vkids);
        }
        lemma_est_preserves_children(vkids);
        assert(v_container(result) == est_vcontainer(v_container(c0)));
        assert(count_container(v_container(result)) == count_container(v_container(c0)));
    }
    result
}

// The main-axis sum over a prefix grows by the newly taken child's term.
pub proof fn lemma_row_terms_take(s: Seq<VElement>, i: int, sp: int)
    requires
        0 <= i < s.len(),
    ensures
        spec_row_terms(s.take(i + 1), sp) == spec_row_terms(s.take(i), sp)
            + sp + v_styles(s[i]).spec_margin_or_default().spec_horizontal()
            + v_effective_size(s[i]).width,
    decreases s.len(),
{
    if i == 0 {
        assert(s.take(1).drop_first() =~= s.take(0));
        assert(s.take(1)[0] == s[0]);
    } else {
        lemma_row_terms_take(s.drop_first(), i - 1, sp);
        assert(s.take(i + 1).drop_first() =~= s.drop_first().take(i));
        assert(s.take(i).drop_first() =~= s.drop_first().take(i - 1));
        assert(s.take(i + 1)[0] == s[0]);
        assert(s.take(i)[0] == s[0]);
        assert(s.drop_first()[i - 1] == s[i]);
    }
}

// The cross-axis maximum over a prefix takes in the new child's extent.
pub proof fn lemma_row_cross_take(s: Seq<VElement>, i: int)
    requires
        0 <= i < s.len(),
    ensures
        spec_row_cross(s.take(i + 1)) == {
            let t = v_effective_size(s[i]).height + v_styles(s[i]).spec_margin_or_default().spec_vertical();
            let rest = spec_row_cross(s.take(i));
            if t >= rest { t } else { rest }
        },
    decreases s.len(),
{
    if i == 0 {
        assert(s.take(1).drop_first() =~= s.take(0));
        assert(s.take(1)[0] == s[0]);
    } else {
        lemma_row_cross_take(s.drop_first(), i - 1);
        assert(s.take(i + 1).drop_first() =~= s.drop_first().take(i));
        assert(s.take(i).drop_first() =~= s.drop_first().take(i - 1));
        assert(s.take(i + 1)[0] == s[0]);
        assert(s.take(i)[0] == s[0]);
        assert(s.drop_first()[i - 1] == s[i]);
    }
}

// A well-sized node's effective size is bounded by its node count.
pub proof fn lemma_sized_effective(v: VElement)
    requires
        sized_elem(v),
    ensures
        0 <= v_effective_size(v).width <= node_size_bound(count_elem(v)),
        0 <= v_effective_size(v).height <= node_size_bound(count_elem(v)),
{
    lemma_count_elem_pos(v);
    assert(4 * MAX_STYLE_PX * (2 * count_elem(v) - 1) >= 4 * MAX_STYLE_PX) by (nonlinear_arith)
        requires
            count_elem(v) >= 1,
    ;
    assert(node_size_bound(count_elem(v)) >= 4 * MAX_STYLE_PX);
    match v {
        VElement::Container(c) => {
            assert(sized_geom(c.natural_size, c.requested_size, count_container(c)));
        },
        VElement::Component(k) => {
            assert(sized_geom(k.natural_size, k.requested_size, count_elem(v)));
        },
    }
}

// A child sequence's count splits across any prefix and its remainder.
pub proof fn lemma_count_children_split(s: Seq<VElement>, i: int)
    requires
        0 <= i <= s.len(),
    ensures
        count_children(s) == count_children(s.take(i)) + count_children(s.skip(i)),
    decreases s.len(),
{
    if i == 0 {
        assert(s.take(0).len() == 0);
        assert(s.skip(0) =~= s);
    } else {
        lemma_count_children_split(s.drop_first(), i - 1);
        assert(s.take(i).drop_first() =~= s.drop_first().take(i - 1));
        assert(s.skip(i) =~= s.drop_first().skip(i - 1));
        assert(s.take(i)[0] == s[0]);
        assert(s.take(i).len() > 0);
    }
}

impl Element {
    /// Estimates natural and requested sizes for this subtree in place,
    /// children before parents.
    pub fn estimate_size(&mut self)
        requires
            wf_elem(v_elem(*old(self))),
            count_elem(v_elem(*old(self))) <= MAX_NODES,
        ensures
            v_elem(*final(self)) == est_velem(v_elem(*old(self))),
            sized_elem(v_elem(*final(self))),
    {
        let mut tmp = crate::element::placeholder_elem();
        core::mem::swap(self, &mut tmp);
        let r = estimate_elem(tmp);
        *self = r;
    }
}

} // verus!
