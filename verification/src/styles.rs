//! The sparse style record attached to every element, and its value
//! types, grouped into the four property categories: layout, dimension,
//! appearance and text.

use vstd::prelude::*;
use crate::geometry::MAX_STYLE_PX;

verus! {

/// The unit tag of a numeric style value; only fixed pixel values are
/// supported.
#[derive(Clone, Copy, Debug, PartialEq, Eq, Structural)]
pub enum Unit {
    Px,
}

/// A numeric style value with its unit.
#[derive(Clone, Copy, Debug, PartialEq, Eq, Structural)]
pub struct Dimension {
    pub value: i64,
    pub unit: Unit,
}

impl Dimension {
    /// A style dimension carries a bounded, non-negative pixel value.
    pub open spec fn wf(self) -> bool {
        0 <= self.value <= MAX_STYLE_PX
    }

    pub open spec fn spec_zero() -> Dimension {
        Dimension { value: 0, unit: Unit::Px }
    }

    pub fn zero() -> (r: Dimension)
        ensures
            r == Dimension::spec_zero(),
    {
        Dimension { value: 0, unit: Unit::Px }
    }
}

impl Default for Dimension {
    fn default() -> (r: Dimension)
        ensures
            r == Dimension::spec_zero(),
    {
        Dimension::zero()
    }
}

/// Four-sided outer spacing of an element.
#[derive(Clone, Copy, Debug, PartialEq, Eq, Structural)]
pub struct Margin {
    pub top: Dimension,
    pub right: Dimension,
    pub bottom: Dimension,
    pub left: Dimension,
}

impl Margin {
    pub open spec fn wf(self) -> bool {
        self.top.wf() && self.right.wf() && self.bottom.wf() && self.left.wf()
    }

    pub open spec fn spec_zero() -> Margin {
        Margin {
            top: Dimension::spec_zero(),
            right: Dimension::spec_zero(),
            bottom: Dimension::spec_zero(),
            left: Dimension::spec_zero(),
        }
    }

    pub fn zero() -> (r: Margin)
        ensures
            r == Margin::spec_zero(),
    {
        Margin { top: Dimension::zero(), right: Dimension::zero(), bottom: Dimension::zero(), left: Dimension::zero() }
    }

    pub open spec fn spec_horizontal(self) -> int {
        self.left.value + self.right.value
    }

    pub open spec fn spec_vertical(self) -> int {
        self.top.value + self.bottom.value
    }

    /// Sum of the left and right sides.
    pub fn horizontal(&self) -> (r: i64)
        requires
            self.wf(),
        ensures
            r as int == self.spec_horizontal(),
    {
        self.left.value + self.right.value
    }

    /// Sum of the top and bottom sides.
    pub fn vertical(&self) -> (r: i64)
        requires
            self.wf(),
        ensures
            r as int == self.spec_vertical(),
    {
        self.top.value + self.bottom.value
    }
}

impl Default for Margin {
    fn default() -> (r: Margin)
        ensures
            r == Margin::spec_zero(),
    {
        Margin::zero()
    }
}

/// Four-sided inner spacing of a container.
#[derive(Clone, Copy, Debug, PartialEq, Eq, Structural)]
pub struct Padding {
    pub top: Dimension,
    pub right: Dimension,
    pub bottom: Dimension,
    pub left: Dimension,
}

impl Padding {
    pub open spec fn wf(self) -> bool {
        self.top.wf() && self.right.wf() && self.bottom.wf() && self.left.wf()
    }

    pub open spec fn spec_zero() -> Padding {
        Padding {
            top: Dimension::spec_zero(),
            right: Dimension::spec_zero(),
            bottom: Dimension::spec_zero(),
            left: Dimension::spec_zero(),
        }
    }

    pub fn zero() -> (r: Padding)
        ensures
            r == Padding::spec_zero(),
    {
        Padding { top: Dimension::zero(), right: Dimension::zero(), bottom: Dimension::zero(), left: Dimension::zero() }
    }

    pub open spec fn spec_horizontal(self) -> int {
        self.left.value + self.right.value
    }

    pub open spec fn spec_vertical(self) -> int {
        self.top.value + self.bottom.value
    }

    /// Sum of the left and right sides.
    pub fn horizontal(&self) -> (r: i64)
        requires
            self.wf(),
        ensures
            r as int == self.spec_horizontal(),
    {
        self.left.value + self.right.value
    }

    /// Sum of the top and bottom sides.
    pub fn vertical(&self) -> (r: i64)
        requires
            self.wf(),
        ensures
            r as int == self.spec_vertical(),
    {
        self.top.value + self.bottom.value
    }
}

impl Default for Padding {
    fn default() -> (r: Padding)
        ensures
            r == Padding::spec_zero(),
    {
        Padding::zero()
    }
}

/// The gap inserted between consecutive siblings, per axis.
#[derive(Clone, Copy, Debug, PartialEq, Eq, Structural)]
pub struct Spacing {
    pub spacing_x: Dimension,
    pub spacing_y: Dimension,
}

impl Spacing {
    pub open spec fn wf(self) -> bool {
        self.spacing_x.wf() && self.spacing_y.wf()
    }

    pub open spec fn spec_zero() -> Spacing {
        Spacing { spacing_x: Dimension::spec_zero(), spacing_y: Dimension::spec_zero() }
    }

    pub fn zero() -> (r: Spacing)
        ensures
            r == Spacing::spec_zero(),
    {
        Spacing { spacing_x: Dimension::zero(), spacing_y: Dimension::zero() }
    }
}

impl Default for Spacing {
    fn default() -> (r: Spacing)
        ensures
            r == Spacing::spec_zero(),
    {
        Spacing::zero()
    }
}

/// An sRGB color with alpha.
#[derive(Clone, Copy, Debug, PartialEq, Eq, Structural)]
pub struct Color {
    pub red: u8,
    pub green: u8,
    pub blue: u8,
    pub alpha: u8,
}

#[derive(Clone, Copy, Debug, PartialEq, Eq, Structural)]
pub enum Display {
    Flex,
    Block,
    InlineBlock,
}

#[derive(Clone, Copy, Debug, PartialEq, Eq, Structural)]
pub enum FlexDirection {
    Row,
    Column,
}

#[derive(Clone, Copy, Debug, PartialEq, Eq, Structural)]
pub enum FlexWrap {
    NoWrap,
    Wrap,
}

#[derive(Clone, Copy, Debug, PartialEq, Eq, Structural)]
pub enum JustifyContent {
    FlexStart,
    Center,
    FlexEnd,
    SpaceBetween,
    SpaceAround,
}

#[derive(Clone, Copy, Debug, PartialEq, Eq, Structural)]
pub enum AlignItems {
    FlexStart,
    Center,
    FlexEnd,
    Stretch,
}

#[derive(Clone, Copy, Debug, PartialEq, Eq, Structural)]
pub enum Overflow {
    Visible,
    Auto,
    Hidden,
}

#[derive(Clone, Copy, Debug, PartialEq, Eq, Structural)]
pub enum WhiteSpace {
    Normal,
    NoWrap,
}

#[derive(Clone, Copy, Debug, PartialEq, Eq, Structural)]
pub enum FontWeight {
    Normal,
    Bold,
}

#[derive(Clone, Copy, Debug, PartialEq, Eq, Structural)]
pub enum FontStyle {
    Normal,
    Italic,
}

#[derive(Clone, Copy, Debug, PartialEq, Eq, Structural)]
pub enum FontFamily {
    Arial,
    Helvetica,
    TimesNewRoman,
    CourierNew,
    Verdana,
}

#[derive(Clone, Copy, Debug, PartialEq, Eq, Structural)]
pub enum TextAlign {
    Left,
    Center,
    Right,
}

/// Border appearance of an element.
#[derive(Clone, Copy, Debug, PartialEq, Eq, Structural)]
pub struct Border {
    pub width: Dimension,
    pub color: Color,
    pub radius: Dimension,
}

impl Border {
    pub open spec fn wf(self) -> bool {
        self.width.wf() && self.radius.wf()
    }

    pub open spec fn spec_default() -> Border {
        Border {
            width: Dimension::spec_zero(),
            color: Color { red: 0, green: 0, blue: 0, alpha: 255 },
            radius: Dimension::spec_zero(),
        }
    }
}

impl Default for Border {
    fn default() -> (r: Border)
        ensures
            r == Border::spec_default(),
    {
        Border {
            width: Dimension::zero(),
            color: Color { red: 0, green: 0, blue: 0, alpha: 255 },
            radius: Dimension::zero(),
        }
    }
}

/// Explicit and bounding sizes requested by the dimension category.
#[derive(Clone, Copy, Debug, PartialEq, Eq, Structural)]
pub struct SizingPolicy {
    pub width: Option<Dimension>,
    pub height: Option<Dimension>,
    pub min_width: Option<Dimension>,
    pub max_width: Option<Dimension>,
    pub min_height: Option<Dimension>,
    pub max_height: Option<Dimension>,
}

impl SizingPolicy {
    pub open spec fn wf(self) -> bool {
        &&& (self.width matches Some(d) ==> d.wf())
        &&& (self.height matches Some(d) ==> d.wf())
        &&& (self.min_width matches Some(d) ==> d.wf())
        &&& (self.max_width matches Some(d) ==> d.wf())
        &&& (self.min_height matches Some(d) ==> d.wf())
        &&& (self.max_height matches Some(d) ==> d.wf())
    }

    pub open spec fn spec_unset() -> SizingPolicy {
        SizingPolicy {
            width: None,
            height: None,
            min_width: None,
            max_width: None,
            min_height: None,
            max_height: None,
        }
    }

    pub fn unset() -> (r: SizingPolicy)
        ensures
            r == SizingPolicy::spec_unset(),
    {
        SizingPolicy {
            width: None,
            height: None,
            min_width: None,
            max_width: None,
            min_height: None,
            max_height: None,
        }
    }
}

impl Default for SizingPolicy {
    fn default() -> (r: SizingPolicy)
        ensures
            r == SizingPolicy::spec_unset(),
    {
        SizingPolicy::unset()
    }
}

/// A sparse record of optional visual and layout properties.
///
/// The properties fall into four categories that never interact during a
/// merge: layout, dimension, appearance and text. Only the text category
/// is inherited from a parent, and inheritance fills only properties left
/// unset.
#[derive(Clone, Copy, Debug, PartialEq, Eq, Structural)]
pub struct Styles {
    // layout category
    pub display: Option<Display>,
    pub flex_direction: Option<FlexDirection>,
    pub flex_wrap: Option<FlexWrap>,
    pub justify_content: Option<JustifyContent>,
    pub align_items: Option<AlignItems>,
    pub flex_grow: Option<i64>,
    pub flex_shrink: Option<i64>,
    pub margin: Option<Margin>,
    pub padding: Option<Padding>,
    pub spacing: Option<Spacing>,
    pub overflow: Option<Overflow>,
    // dimension category
    pub sizing_policy: Option<SizingPolicy>,
    // appearance category
    pub background_color: Option<Color>,
    pub text_color: Option<Color>,
    pub border: Option<Border>,
    // text category
    pub white_space: Option<WhiteSpace>,
    pub font_size: Option<Dimension>,
    pub font_weight: Option<FontWeight>,
    pub font_family: Option<FontFamily>,
    pub font_style: Option<FontStyle>,
    pub text_align: Option<TextAlign>,
}

impl Styles {
    /// Every numeric property present is bounded and non-negative.
    pub open spec fn wf(self) -> bool {
        &&& (self.margin matches Some(m) ==> m.wf())
        &&& (self.padding matches Some(p) ==> p.wf())
        &&& (self.spacing matches Some(s) ==> s.wf())
        &&& (self.sizing_policy matches Some(s) ==> s.wf())
        &&& (self.border matches Some(b) ==> b.wf())
        &&& (self.font_size matches Some(d) ==> d.wf())
        &&& (self.flex_grow matches Some(g) ==> 0 <= g <= MAX_STYLE_PX)
        &&& (self.flex_shrink matches Some(g) ==> 0 <= g <= MAX_STYLE_PX)
    }

    /// The record with every property unset.
    pub open spec fn spec_default() -> Styles {
        Styles {
            display: None,
            flex_direction: None,
            flex_wrap: None,
            justify_content: None,
            align_items: None,
            flex_grow: None,
            flex_shrink: None,
            margin: None,
            padding: None,
            spacing: None,
            overflow: None,
            sizing_policy: None,
            background_color: None,
            text_color: None,
            border: None,
            white_space: None,
            font_size: None,
            font_weight: None,
            font_family: None,
            font_style: None,
            text_align: None,
        }
    }

    /// The padding used for layout: the declared one, or all zero.
    pub open spec fn spec_padding_or_default(self) -> Padding {
        match self.padding {
            Some(p) => p,
            None => Padding::spec_zero(),
        }
    }

    /// The margin used for layout: the declared one, or all zero.
    pub open spec fn spec_margin_or_default(self) -> Margin {
        match self.margin {
            Some(m) => m,
            None => Margin::spec_zero(),
        }
    }

    /// The sibling gap used for layout: the declared one, or zero.
    pub open spec fn spec_spacing_or_default(self) -> Spacing {
        match self.spacing {
            Some(s) => s,
            None => Spacing::spec_zero(),
        }
    }

    /// The cross-axis alignment used for layout; elements start-aligned
    /// unless declared otherwise.
    pub open spec fn spec_align_items_or_default(self) -> AlignItems {
        match self.align_items {
            Some(a) => a,
            None => AlignItems::FlexStart,
        }
    }

    /// The wrapping policy used for layout; rows do not wrap unless
    /// declared otherwise.
    pub open spec fn spec_flex_wrap_or_default(self) -> FlexWrap {
        match self.flex_wrap {
            Some(w) => w,
            None => FlexWrap::NoWrap,
        }
    }

    /// The overflow policy used for layout; content is visible unless
    /// declared otherwise.
    pub open spec fn spec_overflow_or_default(self) -> Overflow {
        match self.overflow {
            Some(o) => o,
            None => Overflow::Visible,
        }
    }

    pub fn padding_or_default(&self) -> (r: Padding)
        ensures
            r == self.spec_padding_or_default(),
    {
        match self.padding {
            Some(p) => p,
            None => Padding::zero(),
        }
    }

    pub fn margin_or_default(&self) -> (r: Margin)
        ensures
            r == self.spec_margin_or_default(),
    {
        match self.margin {
            Some(m) => m,
            None => Margin::zero(),
        }
    }

    pub fn spacing_or_default(&self) -> (r: Spacing)
        ensures
            r == self.spec_spacing_or_default(),
    {
        match self.spacing {
            Some(s) => s,
            None => Spacing::zero(),
        }
    }

    pub fn align_items_or_default(&self) -> (r: AlignItems)
        ensures
            r == self.spec_align_items_or_default(),
    {
        match self.align_items {
            Some(a) => a,
            None => AlignItems::FlexStart,
        }
    }

    pub fn flex_wrap_or_default(&self) -> (r: FlexWrap)
        ensures
            r == self.spec_flex_wrap_or_default(),
    {
        match self.flex_wrap {
            Some(w) => w,
            None => FlexWrap::NoWrap,
        }
    }

    pub fn overflow_or_default(&self) -> (r: Overflow)
        ensures
            r == self.spec_overflow_or_default(),
    {
        match self.overflow {
            Some(o) => o,
            None => Overflow::Visible,
        }
    }
}

impl Default for Styles {
    fn default() -> (r: Styles)
        ensures
            r == Styles::spec_default(),
    {
        Styles {
            display: None,
            flex_direction: None,
            flex_wrap: None,
            justify_content: None,
            align_items: None,
            flex_grow: None,
            flex_shrink: None,
            margin: None,
            padding: None,
            spacing: None,
            overflow: None,
            sizing_policy: None,
            background_color: None,
            text_color: None,
            border: None,
            white_space: None,
            font_size: None,
            font_weight: None,
            font_family: None,
            font_style: None,
            text_align: None,
        }
    }
}

} // verus!
