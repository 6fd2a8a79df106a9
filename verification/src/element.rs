//! The element tree: a closed set of node variants (a generic composite
//! container and a component wrapper), their geometry fields and scroll
//! state, and the well-formedness predicates the layout passes rely on.

use vstd::prelude::*;
use crate::geometry::{Frac, OptionalSize, Position, Size, MAX_NODES, MAX_STYLE_PX};
use crate::styles::Styles;
use crate::id_generator::IdGenerator;

verus! {

/// Upper bound on every natural or requested size a well-sized tree
/// carries; `4 * MAX_STYLE_PX * (2 * MAX_NODES)` pixels.
pub const SIZE_BOUND: i64 = 32_768_000_000;

/// Which axes a container currently overflows on.
#[derive(Clone, Copy, Debug, PartialEq, Eq, Structural)]
pub struct Directions {
    pub horizontal: bool,
    pub vertical: bool,
}

/// Externally-driven scroll state, one proportion in `[0, 1]` per axis.
#[derive(Clone, Copy, Debug, PartialEq, Eq, Structural)]
pub struct ScrollPosition {
    pub x: Frac,
    pub y: Frac,
}

/// Transient scroll state of a container: the current scroll position,
/// the axes found overflowing, and the thumb-to-track width ratio of the
/// derived scrollbar.
#[derive(Clone, Copy, Debug, PartialEq, Eq, Structural)]
pub struct ScrollbarState {
    pub current_scroll_position: ScrollPosition,
    pub is_overflowing: Directions,
    pub thumb_scrollbar_width_ratio: Frac,
}

impl ScrollbarState {
    pub open spec fn wf(self) -> bool {
        &&& self.current_scroll_position.x.is_proportion()
        &&& self.current_scroll_position.y.is_proportion()
        &&& self.thumb_scrollbar_width_ratio.wf()
    }

    /// Not scrolled, not overflowing, thumb filling the whole track.
    pub open spec fn spec_default() -> ScrollbarState {
        ScrollbarState {
            current_scroll_position: ScrollPosition { x: Frac::spec_zero(), y: Frac::spec_zero() },
            is_overflowing: Directions { horizontal: false, vertical: false },
            thumb_scrollbar_width_ratio: Frac::spec_one(),
        }
    }
}

impl Default for ScrollbarState {
    fn default() -> (r: ScrollbarState)
        ensures
            r == ScrollbarState::spec_default(),
    {
        ScrollbarState {
            current_scroll_position: ScrollPosition { x: Frac::zero(), y: Frac::zero() },
            is_overflowing: Directions { horizontal: false, vertical: false },
            thumb_scrollbar_width_ratio: Frac::one(),
        }
    }
}

/// The kind of a node, as seen by callers that walk a tree generically.
#[derive(Clone, Copy, Debug, PartialEq, Eq, Structural)]
pub enum ElementType {
    Container,
    CustomComponent,
}

/// A composite node owning an ordered sequence of children; insertion
/// order is layout and paint order.
pub struct Container {
    pub id: u64,
    pub position: Position,
    pub size: Size,
    pub natural_size: Size,
    pub requested_size: OptionalSize,
    pub styles: Styles,
    pub children: Vec<Element>,
    pub scrollbar_state: ScrollbarState,
}

/// A component wrapper: delegates layout to its single content subtree
/// while exposing geometry of its own, so it can be sized like a leaf
/// from outside.
pub struct Component {
    pub id: u64,
    pub content: Box<Container>,
    pub position: Position,
    pub size: Size,
    pub natural_size: Size,
    pub requested_size: OptionalSize,
    pub styles: Styles,
}

/// A node of the element tree.
pub enum Element {
    Container(Container),
    Component(Component),
}

/// Ghost mirror of a container, with children as a sequence; the layout
/// passes and laws are stated over these views.
pub struct VContainer {
    pub id: u64,
    pub position: Position,
    pub size: Size,
    pub natural_size: Size,
    pub requested_size: OptionalSize,
    pub styles: Styles,
    pub children: Seq<VElement>,
    pub scrollbar_state: ScrollbarState,
}

/// Ghost mirror of a component.
pub struct VComponent {
    pub id: u64,
    pub content: VContainer,
    pub position: Position,
    pub size: Size,
    pub natural_size: Size,
    pub requested_size: OptionalSize,
    pub styles: Styles,
}

/// Ghost mirror of a tree node.
pub enum VElement {
    Container(VContainer),
    Component(VComponent),
}

/// The view of a node: the same record with ghost sequences for child
/// lists.
pub open spec fn v_elem(e: Element) -> VElement
    decreases e,
{
    match e {
        Element::Container(c) => VElement::Container(v_container(c)),
        Element::Component(k) => VElement::Component(VComponent {
            id: k.id,
            content: v_container(*k.content),
            position: k.position,
            size: k.size,
            natural_size: k.natural_size,
            requested_size: k.requested_size,
            styles: k.styles,
        }),
    }
}

pub open spec fn v_container(c: Container) -> VContainer
    decreases c,
{
    VContainer {
        id: c.id,
        position: c.position,
        size: c.size,
        natural_size: c.natural_size,
        requested_size: c.requested_size,
        styles: c.styles,
        children: v_children(c.children@),
        scrollbar_state: c.scrollbar_state,
    }
}

pub open spec fn v_children(s: Seq<Element>) -> Seq<VElement>
    decreases s,
{
    if s.len() == 0 {
        Seq::empty()
    } else {
        seq![v_elem(s[0])] + v_children(s.drop_first())
    }
}

// The view of a child sequence is the element-wise view.
pub proof fn lemma_v_children_len(s: Seq<Element>)
    ensures
        v_children(s).len() == s.len(),
        forall|i: int| 0 <= i < s.len() ==> v_children(s)[i] == v_elem(#[trigger] s[i]),
    decreases s.len(),
{
    if s.len() > 0 {
        lemma_v_children_len(s.drop_first());
        assert forall|i: int| 0 <= i < s.len() implies v_children(s)[i] == v_elem(#[trigger] s[i]) by {
            if i > 0 {
                assert(s.drop_first()[i - 1] == s[i]);
                assert(v_children(s)[i] == v_children(s.drop_first())[i - 1]);
            }
        }
    }
}

// Appending a node appends its view.
pub proof fn lemma_v_children_push(s: Seq<Element>, e: Element)
    ensures
        v_children(s.push(e)) == v_children(s).push(v_elem(e)),
    decreases s.len(),
{
    if s.len() == 0 {
        assert(s.push(e)[0] == e);
        assert(s.push(e).drop_first() =~= s);
        assert(v_children(s.push(e)) =~= v_children(s).push(v_elem(e)));
    } else {
        lemma_v_children_push(s.drop_first(), e);
        assert(s.push(e).drop_first() =~= s.drop_first().push(e));
        assert(s.push(e)[0] == s[0]);
        assert(v_children(s.push(e)) =~= v_children(s).push(v_elem(e)));
    }
}

/// Number of nodes in a subtree.
pub open spec fn count_elem(v: VElement) -> nat
    decreases v,
{
    match v {
        VElement::Container(c) => count_container(c),
        VElement::Component(k) => 1 + count_container(k.content),
    }
}

pub open spec fn count_container(c: VContainer) -> nat
    decreases c,
{
    1 + count_children(c.children)
}

pub open spec fn count_children(s: Seq<VElement>) -> nat
    decreases s,
{
    if s.len() == 0 {
        0
    } else {
        count_elem(s[0]) + count_children(s.drop_first())
    }
}

/// Well-formed node: styles carry bounded values and scroll state holds
/// proportions.
pub open spec fn wf_elem(v: VElement) -> bool
    decreases v,
{
    match v {
        VElement::Container(c) => wf_container(c),
        VElement::Component(k) => k.styles.wf() && wf_container(k.content),
    }
}

pub open spec fn wf_container(c: VContainer) -> bool
    decreases c,
{
    c.styles.wf() && c.scrollbar_state.wf() && wf_children(c.children)
}

pub open spec fn wf_children(s: Seq<VElement>) -> bool
    decreases s,
{
    if s.len() == 0 {
        true
    } else {
        wf_elem(s[0]) && wf_children(s.drop_first())
    }
}

/// Natural and requested sizes of a node whose subtree holds `count`
/// nodes lie within `4 * MAX_STYLE_PX * (2 * count - 1)` pixels.
pub open spec fn node_size_bound(count: nat) -> int {
    4 * MAX_STYLE_PX * (2 * count - 1)
}

// The size bound grows with the node count.
pub proof fn lemma_node_size_bound_mono(a: nat, b: nat)
    requires
        a <= b,
    ensures
        node_size_bound(a) <= node_size_bound(b),
{
    assert(4 * MAX_STYLE_PX * (2 * a - 1) <= 4 * MAX_STYLE_PX * (2 * b - 1)) by (nonlinear_arith)
        requires
            a <= b,
    ;
}

pub open spec fn sized_geom(natural: Size, requested: OptionalSize, count: nat) -> bool {
    &&& 0 <= natural.width <= node_size_bound(count)
    &&& 0 <= natural.height <= node_size_bound(count)
    &&& (requested.width matches Some(w) ==> 0 <= w <= MAX_STYLE_PX)
    &&& (requested.height matches Some(h) ==> 0 <= h <= MAX_STYLE_PX)
}

pub open spec fn sized_elem(v: VElement) -> bool
    decreases v,
{
    match v {
        VElement::Container(c) => sized_container(c),
        VElement::Component(k) => {
            &&& sized_geom(k.natural_size, k.requested_size, count_elem(v))
            &&& sized_container(k.content)
        },
    }
}

pub open spec fn sized_container(c: VContainer) -> bool
    decreases c,
{
    sized_geom(c.natural_size, c.requested_size, count_container(c)) && sized_children(c.children)
}

pub open spec fn sized_children(s: Seq<VElement>) -> bool
    decreases s,
{
    if s.len() == 0 {
        true
    } else {
        sized_elem(s[0]) && sized_children(s.drop_first())
    }
}

/// The natural size of a node as the estimation pass left it.
pub open spec fn v_natural_size(v: VElement) -> Size {
    match v {
        VElement::Container(c) => c.natural_size,
        VElement::Component(k) => k.natural_size,
    }
}

/// The requested size of a node as the estimation pass left it.
pub open spec fn v_requested_size(v: VElement) -> OptionalSize {
    match v {
        VElement::Container(c) => c.requested_size,
        VElement::Component(k) => k.requested_size,
    }
}

/// The effective size the allocation pass lays a node out with.
pub open spec fn v_effective_size(v: VElement) -> Size {
    crate::geometry::spec_effective_size(v_requested_size(v), v_natural_size(v))
}

/// The styles a node was resolved with.
pub open spec fn v_styles(v: VElement) -> Styles {
    match v {
        VElement::Container(c) => c.styles,
        VElement::Component(k) => k.styles,
    }
}

/// The position a node was allocated.
pub open spec fn v_position(v: VElement) -> Position {
    match v {
        VElement::Container(c) => c.position,
        VElement::Component(k) => k.position,
    }
}

/// The size a node was allocated.
pub open spec fn v_size(v: VElement) -> Size {
    match v {
        VElement::Container(c) => c.size,
        VElement::Component(k) => k.size,
    }
}

// A well-formed node carries well-formed styles.
pub proof fn lemma_wf_styles(v: VElement)
    requires
        wf_elem(v),
    ensures
        v_styles(v).wf(),
        v_styles(v).spec_margin_or_default().wf(),
        v_styles(v).spec_padding_or_default().wf(),
        v_styles(v).spec_spacing_or_default().wf(),
{
    match v {
        VElement::Container(c) => {
            assert(wf_container(c));
            assert(c.styles.wf());
        },
        VElement::Component(k) => {
            assert(k.styles.wf());
        },
    }
    let st = v_styles(v);
    match st.margin {
        Some(m) => {},
        None => {
            assert(st.spec_margin_or_default() == crate::styles::Margin::spec_zero());
        },
    }
    match st.padding {
        Some(m) => {},
        None => {},
    }
    match st.spacing {
        Some(m) => {},
        None => {},
    }
}

// Indexing into a well-formed child sequence.
pub proof fn lemma_children_index(s: Seq<VElement>, i: int)
    requires
        0 <= i < s.len(),
    ensures
        wf_children(s) ==> wf_elem(s[i]),
        sized_children(s) ==> sized_elem(s[i]),
    decreases s.len(),
{
    if i > 0 {
        lemma_children_index(s.drop_first(), i - 1);
        assert(s.drop_first()[i - 1] == s[i]);
    }
}

// A child accounts for no more nodes than the whole sequence.
pub proof fn lemma_count_children_index(s: Seq<VElement>, i: int)
    requires
        0 <= i < s.len(),
    ensures
        count_elem(s[i]) <= count_children(s),
    decreases s.len(),
{
    if i == 0 {
        assert(count_children(s) == count_elem(s[0]) + count_children(s.drop_first()));
    } else {
        lemma_count_children_index(s.drop_first(), i - 1);
        assert(s.drop_first()[i - 1] == s[i]);
    }
}

// Taking one more child moves its count across.
pub proof fn lemma_count_children_take(s: Seq<VElement>, i: int)
    requires
        0 <= i < s.len(),
    ensures
        count_children(s.take(i + 1)) == count_children(s.take(i)) + count_elem(s[i]),
    decreases s.len(),
{
    if i == 0 {
        assert(s.take(1).drop_first() =~= s.take(0));
        assert(s.take(1)[0] == s[0]);
        assert(s.take(0).len() == 0);
    } else {
        lemma_count_children_take(s.drop_first(), i - 1);
        assert(s.take(i + 1).drop_first() =~= s.drop_first().take(i));
        assert(s.take(i).drop_first() =~= s.drop_first().take(i - 1));
        assert(s.take(i + 1)[0] == s[0]);
        assert(s.take(i)[0] == s[0]);
        assert(s.drop_first()[i - 1] == s[i]);
    }
}

// The whole sequence is its own take.
pub proof fn lemma_count_children_take_all(s: Seq<VElement>)
    ensures
        count_children(s.take(s.len() as int)) == count_children(s),
{
    assert(s.take(s.len() as int) =~= s);
}

// Every count is at least one node.
pub proof fn lemma_count_elem_pos(v: VElement)
    ensures
        count_elem(v) >= 1,
    decreases v,
{
    match v {
        VElement::Container(c) => {},
        VElement::Component(k) => {},
    }
}

// A geometry-free stand-in used when a tree is taken out of a mutable
// slot for the duration of a pass.
pub(crate) fn placeholder_elem() -> Element {
    Element::Container(Container {
        id: 0,
        position: Position::zero(),
        size: Size::zero(),
        natural_size: Size::zero(),
        requested_size: OptionalSize::unset(),
        styles: Styles::default(),
        children: Vec::new(),
        scrollbar_state: ScrollbarState::default(),
    })
}

impl Container {
    /// A fresh container: empty, unstyled, with default geometry and
    /// scroll state, under a fresh identity: one the generator has never
    /// handed out before and will never hand out again.
    pub fn new(ids: &mut IdGenerator) -> (r: Container)
        requires
            1 <= old(ids).spec_next() < u64::MAX,
        ensures
            r.id == old(ids).spec_next(),
            r.id >= 1,
            final(ids).spec_next() == old(ids).spec_next() + 1,
            r.position == Position::spec_zero(),
            r.size == Size::spec_zero(),
            r.natural_size == Size::spec_zero(),
            r.requested_size == OptionalSize::spec_unset(),
            r.styles == Styles::spec_default(),
            r.children@ =~= Seq::<Element>::empty(),
            r.scrollbar_state == ScrollbarState::spec_default(),
    {
        Container {
            id: ids.next_id(),
            position: Position::zero(),
            size: Size::zero(),
            natural_size: Size::zero(),
            requested_size: OptionalSize::unset(),
            styles: Styles::default(),
            children: Vec::new(),
            scrollbar_state: ScrollbarState::default(),
        }
    }

    /// Appends the given nodes to the child list, keeping their order.
    pub fn add_children(&mut self, children: Vec<Element>)
        ensures
            final(self).children@ == old(self).children@ + children@,
            final(self).id == old(self).id,
            final(self).position == old(self).position,
            final(self).size == old(self).size,
            final(self).natural_size == old(self).natural_size,
            final(self).requested_size == old(self).requested_size,
            final(self).styles == old(self).styles,
            final(self).scrollbar_state == old(self).scrollbar_state,
    {
        let mut incoming = children;
        self.children.append(&mut incoming);
    }

    /// Appends one node to the child list.
    pub fn add_child(&mut self, child: Element)
        ensures
            final(self).children@ == old(self).children@.push(child),
            final(self).id == old(self).id,
            final(self).position == old(self).position,
            final(self).size == old(self).size,
            final(self).natural_size == old(self).natural_size,
            final(self).requested_size == old(self).requested_size,
            final(self).styles == old(self).styles,
            final(self).scrollbar_state == old(self).scrollbar_state,
    {
        self.children.push(child);
    }

    /// Replaces the resolved styles of this container.
    pub fn set_styles(&mut self, styles: Styles)
        ensures
            final(self).styles == styles,
            final(self).id == old(self).id,
            final(self).position == old(self).position,
            final(self).size == old(self).size,
            final(self).natural_size == old(self).natural_size,
            final(self).requested_size == old(self).requested_size,
            final(self).children == old(self).children,
            final(self).scrollbar_state == old(self).scrollbar_state,
    {
        self.styles = styles;
    }

    pub fn get_effective_size(&self) -> (r: Size)
        ensures
            r == crate::geometry::spec_effective_size(self.requested_size, self.natural_size),
    {
        crate::geometry::estimate_effective_size(&self.requested_size, &self.natural_size)
    }
}

impl Component {
    /// A fresh component around the given content subtree, under a fresh
    /// identity from the generator.
    pub fn new(ids: &mut IdGenerator, content: Container) -> (r: Component)
        requires
            1 <= old(ids).spec_next() < u64::MAX,
        ensures
            r.id == old(ids).spec_next(),
            r.id >= 1,
            final(ids).spec_next() == old(ids).spec_next() + 1,
            *r.content == content,
            r.position == Position::spec_zero(),
            r.size == Size::spec_zero(),
            r.natural_size == Size::spec_zero(),
            r.requested_size == OptionalSize::spec_unset(),
            r.styles == Styles::spec_default(),
    {
        Component {
            id: ids.next_id(),
            content: Box::new(content),
            position: Position::zero(),
            size: Size::zero(),
            natural_size: Size::zero(),
            requested_size: OptionalSize::unset(),
            styles: Styles::default(),
        }
    }

    /// Replaces the resolved styles of this component and of its content
    /// subtree, as the component delegates all rendering to the content.
    pub fn set_styles(&mut self, styles: Styles)
        ensures
            final(self).styles == styles,
            final(self).content.styles == styles,
            final(self).id == old(self).id,
            final(self).position == old(self).position,
            final(self).size == old(self).size,
            final(self).natural_size == old(self).natural_size,
            final(self).requested_size == old(self).requested_size,
            final(self).content.id == old(self).content.id,
            final(self).content.position == old(self).content.position,
            final(self).content.size == old(self).content.size,
            final(self).content.natural_size == old(self).content.natural_size,
            final(self).content.requested_size == old(self).content.requested_size,
            final(self).content.children == old(self).content.children,
            final(self).content.scrollbar_state == old(self).content.scrollbar_state,
    {
        self.styles = styles;
        self.content.set_styles(styles);
    }

    /// A component never stands in for a text run.
    pub fn is_text_wrapper(&self) -> (r: bool)
        ensures
            r == false,
    {
        false
    }

    pub fn get_effective_size(&self) -> (r: Size)
        ensures
            r == crate::geometry::spec_effective_size(self.requested_size, self.natural_size),
    {
        crate::geometry::estimate_effective_size(&self.requested_size, &self.natural_size)
    }
}

impl Element {
    pub fn get_element_type(&self) -> (r: ElementType)
        ensures
            r == (match self {
                Element::Container(_) => ElementType::Container,
                Element::Component(_) => ElementType::CustomComponent,
            }),
    {
        match self {
            Element::Container(_) => ElementType::Container,
            Element::Component(_) => ElementType::CustomComponent,
        }
    }

    pub fn get_id(&self) -> (r: u64)
        ensures
            r == (match self {
                Element::Container(c) => c.id,
                Element::Component(k) => k.id,
            }),
    {
        match self {
            Element::Container(c) => c.id,
            Element::Component(k) => k.id,
        }
    }

    pub fn get_position(&self) -> (r: Position)
        ensures
            r == (match self {
                Element::Container(c) => c.position,
                Element::Component(k) => k.position,
            }),
    {
        match self {
            Element::Container(c) => c.position,
            Element::Component(k) => k.position,
        }
    }

    pub fn get_size(&self) -> (r: Size)
        ensures
            r == (match self {
                Element::Container(c) => c.size,
                Element::Component(k) => k.size,
            }),
    {
        match self {
            Element::Container(c) => c.size,
            Element::Component(k) => k.size,
        }
    }

    pub fn get_natural_size(&self) -> (r: Size)
        ensures
            r == v_natural_size(v_elem(*self)),
    {
        match self {
            Element::Container(c) => c.natural_size,
            Element::Component(k) => k.natural_size,
        }
    }

    pub fn get_requested_size(&self) -> (r: OptionalSize)
        ensures
            r == v_requested_size(v_elem(*self)),
    {
        match self {
            Element::Container(c) => c.requested_size,
            Element::Component(k) => k.requested_size,
        }
    }

    pub fn get_styles(&self) -> (r: Styles)
        ensures
            r == v_styles(v_elem(*self)),
    {
        match self {
            Element::Container(c) => c.styles,
            Element::Component(k) => k.styles,
        }
    }

    /// The size this element is laid out with: requested where set,
    /// natural otherwise.
    pub fn get_effective_size(&self) -> (r: Size)
        ensures
            r == v_effective_size(v_elem(*self)),
    {
        match self {
            Element::Container(c) => c.get_effective_size(),
            Element::Component(k) => k.get_effective_size(),
        }
    }
}

} // verus!
