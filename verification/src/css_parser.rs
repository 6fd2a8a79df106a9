//! Style cascade resolver: resolves an element's styles from its class
//! attribute (looked up in a stylesheet), its inline style attribute and
//! its parent's resolved styles.
//!
//! The inline pass starts from an empty record and fully replaces
//! whatever the class pass produced; only afterwards are unset
//! text-category properties filled from the parent. Property dispatch is
//! a lookup in four static category tables; a key outside them never
//! mutates the record.

use vstd::prelude::*;
use crate::cascade::spec_merge_styles;
use crate::styles::{
    AlignItems, Border, Color, Dimension, Display, FlexDirection, FlexWrap, FontFamily,
    FontStyle, FontWeight, JustifyContent, Margin, Overflow, Padding, SizingPolicy, Spacing,
    Styles, TextAlign, Unit, WhiteSpace,
};

verus! {

/// One declared property of a stylesheet class.
pub struct StyleProperty {
    pub name: String,
    pub value: String,
}

/// One named class of a stylesheet, holding its declarations in source
/// order.
pub struct StyleClass {
    pub name: String,
    pub properties: Vec<StyleProperty>,
}

/// A set of named classes; on duplicate names the first in source wins.
pub struct Stylesheet {
    pub classes: Vec<StyleClass>,
}

pub open spec fn is_space(c: char) -> bool {
    c == ' ' || c == '\t' || c == '\n' || c == '\r'
}

pub open spec fn is_digit(c: char) -> bool {
    48 <= c as u32 <= 57
}

/// The given text without leading whitespace.
pub open spec fn spec_trim_front(s: Seq<char>) -> Seq<char>
    decreases s.len(),
{
    if s.len() > 0 && is_space(s[0]) {
        spec_trim_front(s.drop_first())
    } else {
        s
    }
}

/// The given text without trailing whitespace.
pub open spec fn spec_trim_back(s: Seq<char>) -> Seq<char>
    decreases s.len(),
{
    if s.len() > 0 && is_space(s.last()) {
        spec_trim_back(s.drop_last())
    } else {
        s
    }
}

/// The given text without leading or trailing whitespace.
pub open spec fn spec_trim(s: Seq<char>) -> Seq<char> {
    spec_trim_back(spec_trim_front(s))
}

/// The first index of the given character, or -1 when absent.
pub open spec fn spec_find(s: Seq<char>, c: char) -> int
    decreases s.len(),
{
    if s.len() == 0 {
        -1
    } else if s[0] == c {
        0
    } else {
        let r = spec_find(s.drop_first(), c);
        if r < 0 {
            -1
        } else {
            1 + r
        }
    }
}

pub open spec fn all_digits(s: Seq<char>) -> bool {
    forall|i: int| 0 <= i < s.len() ==> is_digit(#[trigger] s[i])
}

/// The number a run of decimal digits denotes.
pub open spec fn digits_val(s: Seq<char>) -> int
    decreases s.len(),
{
    if s.len() == 0 {
        0
    } else {
        digits_val(s.drop_last()) * 10 + (s.last() as u32 - 48)
    }
}

pub open spec fn pow10(n: nat) -> int
    decreases n,
{
    if n == 0 {
        1
    } else {
        10 * pow10((n - 1) as nat)
    }
}

/// A pixel quantity: one to six decimal digits, with an optional `px`
/// suffix; anything else is not a pixel value.
pub open spec fn spec_parse_px(v: Seq<char>) -> Option<i64> {
    let d = if v.len() >= 2 && v[v.len() - 2] == 'p' && v[v.len() - 1] == 'x' {
        v.take(v.len() - 2)
    } else {
        v
    };
    if 1 <= d.len() <= 6 && all_digits(d) {
        Some(digits_val(d) as i64)
    } else {
        None
    }
}

/// A color channel: one to three decimal digits valued up to 255.
pub open spec fn spec_parse_u8(v: Seq<char>) -> Option<u8> {
    if 1 <= v.len() <= 3 && all_digits(v) && digits_val(v) <= 255 {
        Some(digits_val(v) as u8)
    } else {
        None
    }
}

/// A color written `rgb(r, g, b)`, each channel trimmed and decimal.
pub open spec fn spec_parse_color(v: Seq<char>) -> Option<Color> {
    if v.len() >= 5 && v.take(4) == "rgb("@ && v.last() == ')' {
        let inner = v.subrange(4, v.len() - 1);
        let i = spec_find(inner, ',');
        if i >= 0 {
            let rest = inner.skip(i + 1);
            let j = spec_find(rest, ',');
            if j >= 0 {
                let red = spec_parse_u8(spec_trim(inner.take(i)));
                let green = spec_parse_u8(spec_trim(rest.take(j)));
                let blue = spec_parse_u8(spec_trim(rest.skip(j + 1)));
                if red is Some && green is Some && blue is Some {
                    Some(Color { red: red->0, green: green->0, blue: blue->0, alpha: 255 })
                } else {
                    None
                }
            } else {
                None
            }
        } else {
            None
        }
    } else {
        None
    }
}

pub open spec fn spec_parse_display(v: Seq<char>) -> Option<Display> {
    if v == "flex"@ { Some(Display::Flex) }
    else if v == "block"@ { Some(Display::Block) }
    else if v == "inline-block"@ { Some(Display::InlineBlock) }
    else { None }
}

pub open spec fn spec_parse_flex_direction(v: Seq<char>) -> Option<FlexDirection> {
    if v == "row"@ { Some(FlexDirection::Row) }
    else if v == "column"@ { Some(FlexDirection::Column) }
    else { None }
}

pub open spec fn spec_parse_flex_wrap(v: Seq<char>) -> Option<FlexWrap> {
    if v == "nowrap"@ { Some(FlexWrap::NoWrap) }
    else if v == "wrap"@ { Some(FlexWrap::Wrap) }
    else { None }
}

pub open spec fn spec_parse_justify_content(v: Seq<char>) -> Option<JustifyContent> {
    if v == "flex-start"@ { Some(JustifyContent::FlexStart) }
    else if v == "center"@ { Some(JustifyContent::Center) }
    else if v == "flex-end"@ { Some(JustifyContent::FlexEnd) }
    else if v == "space-between"@ { Some(JustifyContent::SpaceBetween) }
    else if v == "space-around"@ { Some(JustifyContent::SpaceAround) }
    else { None }
}

pub open spec fn spec_parse_align_items(v: Seq<char>) -> Option<AlignItems> {
    if v == "flex-start"@ { Some(AlignItems::FlexStart) }
    else if v == "center"@ { Some(AlignItems::Center) }
    else if v == "flex-end"@ { Some(AlignItems::FlexEnd) }
    else if v == "stretch"@ { Some(AlignItems::Stretch) }
    else { None }
}

pub open spec fn spec_parse_overflow(v: Seq<char>) -> Option<Overflow> {
    if v == "visible"@ { Some(Overflow::Visible) }
    else if v == "auto"@ { Some(Overflow::Auto) }
    else if v == "hidden"@ { Some(Overflow::Hidden) }
    else { None }
}

pub open spec fn spec_parse_white_space(v: Seq<char>) -> Option<WhiteSpace> {
    if v == "normal"@ { Some(WhiteSpace::Normal) }
    else if v == "nowrap"@ { Some(WhiteSpace::NoWrap) }
    else { None }
}

pub open spec fn spec_parse_font_weight(v: Seq<char>) -> Option<FontWeight> {
    if v == "normal"@ { Some(FontWeight::Normal) }
    else if v == "bold"@ { Some(FontWeight::Bold) }
    else { None }
}

pub open spec fn spec_parse_font_style(v: Seq<char>) -> Option<FontStyle> {
    if v == "normal"@ { Some(FontStyle::Normal) }
    else if v == "italic"@ { Some(FontStyle::Italic) }
    else { None }
}

pub open spec fn spec_parse_font_family(v: Seq<char>) -> Option<FontFamily> {
    if v == "Arial"@ { Some(FontFamily::Arial) }
    else if v == "Helvetica"@ { Some(FontFamily::Helvetica) }
    else if v == "Times New Roman"@ { Some(FontFamily::TimesNewRoman) }
    else if v == "Courier New"@ { Some(FontFamily::CourierNew) }
    else if v == "Verdana"@ { Some(FontFamily::Verdana) }
    else { None }
}

pub open spec fn spec_parse_text_align(v: Seq<char>) -> Option<TextAlign> {
    if v == "left"@ { Some(TextAlign::Left) }
    else if v == "center"@ { Some(TextAlign::Center) }
    else if v == "right"@ { Some(TextAlign::Right) }
    else { None }
}

pub open spec fn px_dim(n: i64) -> Dimension {
    Dimension { value: n, unit: Unit::Px }
}

pub open spec fn spec_is_layout_key(k: Seq<char>) -> bool {
    ||| k == "display"@
    ||| k == "flex-direction"@
    ||| k == "flex-wrap"@
    ||| k == "justify-content"@
    ||| k == "align-items"@
    ||| k == "flex-grow"@
    ||| k == "flex-shrink"@
    ||| k == "margin"@
    ||| k == "padding"@
    ||| k == "spacing"@
    ||| k == "overflow"@
}

pub open spec fn spec_is_dimension_key(k: Seq<char>) -> bool {
    ||| k == "width"@
    ||| k == "height"@
    ||| k == "min-width"@
    ||| k == "max-width"@
    ||| k == "min-height"@
    ||| k == "max-height"@
}

pub open spec fn spec_is_appearance_key(k: Seq<char>) -> bool {
    ||| k == "background-color"@
    ||| k == "color"@
    ||| k == "border-width"@
    ||| k == "border-color"@
    ||| k == "border-radius"@
}

pub open spec fn spec_is_text_key(k: Seq<char>) -> bool {
    ||| k == "white-space"@
    ||| k == "font-size"@
    ||| k == "font-weight"@
    ||| k == "font-family"@
    ||| k == "font-style"@
    ||| k == "text-align"@
}

/// Layout-category updater: sets the named property when the value is
/// recognized, and leaves the record unchanged otherwise.
pub open spec fn spec_update_layout(st: Styles, k: Seq<char>, v: Seq<char>) -> Styles {
    if k == "display"@ {
        match spec_parse_display(v) { Some(d) => Styles { display: Some(d), ..st }, None => st }
    } else if k == "flex-direction"@ {
        match spec_parse_flex_direction(v) { Some(d) => Styles { flex_direction: Some(d), ..st }, None => st }
    } else if k == "flex-wrap"@ {
        match spec_parse_flex_wrap(v) { Some(d) => Styles { flex_wrap: Some(d), ..st }, None => st }
    } else if k == "justify-content"@ {
        match spec_parse_justify_content(v) { Some(d) => Styles { justify_content: Some(d), ..st }, None => st }
    } else if k == "align-items"@ {
        match spec_parse_align_items(v) { Some(d) => Styles { align_items: Some(d), ..st }, None => st }
    } else if k == "flex-grow"@ {
        match spec_parse_px(v) { Some(n) => Styles { flex_grow: Some(n), ..st }, None => st }
    } else if k == "flex-shrink"@ {
        match spec_parse_px(v) { Some(n) => Styles { flex_shrink: Some(n), ..st }, None => st }
    } else if k == "margin"@ {
        match spec_parse_px(v) {
            Some(n) => Styles {
                margin: Some(Margin { top: px_dim(n), right: px_dim(n), bottom: px_dim(n), left: px_dim(n) }),
                ..st
            },
            None => st,
        }
    } else if k == "padding"@ {
        match spec_parse_px(v) {
            Some(n) => Styles {
                padding: Some(Padding { top: px_dim(n), right: px_dim(n), bottom: px_dim(n), left: px_dim(n) }),
                ..st
            },
            None => st,
        }
    } else if k == "spacing"@ {
        match spec_parse_px(v) {
            Some(n) => Styles { spacing: Some(Spacing { spacing_x: px_dim(n), spacing_y: px_dim(n) }), ..st },
            None => st,
        }
    } else if k == "overflow"@ {
        match spec_parse_overflow(v) { Some(d) => Styles { overflow: Some(d), ..st }, None => st }
    } else {
        st
    }
}

/// Dimension-category updater over the sizing policy record.
pub open spec fn spec_update_dimension(st: Styles, k: Seq<char>, v: Seq<char>) -> Styles {
    match spec_parse_px(v) {
        None => st,
        Some(n) => {
            let sp = match st.sizing_policy {
                Some(sp) => sp,
                None => SizingPolicy::spec_unset(),
            };
            if k == "width"@ {
                Styles { sizing_policy: Some(SizingPolicy { width: Some(px_dim(n)), ..sp }), ..st }
            } else if k == "height"@ {
                Styles { sizing_policy: Some(SizingPolicy { height: Some(px_dim(n)), ..sp }), ..st }
            } else if k == "min-width"@ {
                Styles { sizing_policy: Some(SizingPolicy { min_width: Some(px_dim(n)), ..sp }), ..st }
            } else if k == "max-width"@ {
                Styles { sizing_policy: Some(SizingPolicy { max_width: Some(px_dim(n)), ..sp }), ..st }
            } else if k == "min-height"@ {
                Styles { sizing_policy: Some(SizingPolicy { min_height: Some(px_dim(n)), ..sp }), ..st }
            } else if k == "max-height"@ {
                Styles { sizing_policy: Some(SizingPolicy { max_height: Some(px_dim(n)), ..sp }), ..st }
            } else {
                st
            }
        },
    }
}

/// Appearance-category updater over colors and the border record.
pub open spec fn spec_update_appearance(st: Styles, k: Seq<char>, v: Seq<char>) -> Styles {
    let border = match st.border {
        Some(b) => b,
        None => Border::spec_default(),
    };
    if k == "background-color"@ {
        match spec_parse_color(v) { Some(c) => Styles { background_color: Some(c), ..st }, None => st }
    } else if k == "color"@ {
        match spec_parse_color(v) { Some(c) => Styles { text_color: Some(c), ..st }, None => st }
    } else if k == "border-width"@ {
        match spec_parse_px(v) { Some(n) => Styles { border: Some(Border { width: px_dim(n), ..border }), ..st }, None => st }
    } else if k == "border-color"@ {
        match spec_parse_color(v) { Some(c) => Styles { border: Some(Border { color: c, ..border }), ..st }, None => st }
    } else if k == "border-radius"@ {
        match spec_parse_px(v) { Some(n) => Styles { border: Some(Border { radius: px_dim(n), ..border }), ..st }, None => st }
    } else {
        st
    }
}

/// Text-category updater.
pub open spec fn spec_update_text(st: Styles, k: Seq<char>, v: Seq<char>) -> Styles {
    if k == "white-space"@ {
        match spec_parse_white_space(v) { Some(d) => Styles { white_space: Some(d), ..st }, None => st }
    } else if k == "font-size"@ {
        match spec_parse_px(v) { Some(n) => Styles { font_size: Some(px_dim(n)), ..st }, None => st }
    } else if k == "font-weight"@ {
        match spec_parse_font_weight(v) { Some(d) => Styles { font_weight: Some(d), ..st }, None => st }
    } else if k == "font-family"@ {
        match spec_parse_font_family(v) { Some(d) => Styles { font_family: Some(d), ..st }, None => st }
    } else if k == "font-style"@ {
        match spec_parse_font_style(v) { Some(d) => Styles { font_style: Some(d), ..st }, None => st }
    } else if k == "text-align"@ {
        match spec_parse_text_align(v) { Some(d) => Styles { text_align: Some(d), ..st }, None => st }
    } else {
        st
    }
}

/// One declared property applied to a record: the key is looked up in
/// the four category tables and handed to that category's updater; a key
/// outside every table leaves the record exactly as it was.
pub open spec fn spec_dispatch(st: Styles, k: Seq<char>, v: Seq<char>) -> Styles {
    if spec_is_layout_key(k) {
        spec_update_layout(st, k, v)
    } else if spec_is_dimension_key(k) {
        spec_update_dimension(st, k, v)
    } else if spec_is_appearance_key(k) {
        spec_update_appearance(st, k, v)
    } else if spec_is_text_key(k) {
        spec_update_text(st, k, v)
    } else {
        st
    }
}

/// One `;`-separated segment of an inline style string applied to a
/// record: split at the first `:`, key and value trimmed; a segment
/// without `:` is skipped.
pub open spec fn spec_apply_inline_item(st: Styles, item: Seq<char>) -> Styles {
    let i = spec_find(item, ':');
    if i < 0 {
        st
    } else {
        spec_dispatch(st, spec_trim(item.take(i)), spec_trim(item.skip(i + 1)))
    }
}

pub open spec fn spec_inline_scan(st: Styles, cur: Seq<char>, rest: Seq<char>) -> Styles
    decreases rest.len(),
{
    if rest.len() == 0 {
        spec_apply_inline_item(st, cur)
    } else if rest[0] == ';' {
        spec_inline_scan(spec_apply_inline_item(st, cur), Seq::empty(), rest.drop_first())
    } else {
        spec_inline_scan(st, cur.push(rest[0]), rest.drop_first())
    }
}

/// The record an inline style string resolves to, starting from the
/// empty record.
pub open spec fn spec_parse_inline(s: Seq<char>) -> Styles {
    spec_inline_scan(Styles::spec_default(), Seq::empty(), s)
}

/// The first class of the given name, in source order.
pub open spec fn spec_find_class(classes: Seq<StyleClass>, name: Seq<char>) -> Option<StyleClass>
    decreases classes.len(),
{
    if classes.len() == 0 {
        None
    } else if classes[0].name@ == name {
        Some(classes[0])
    } else {
        spec_find_class(classes.drop_first(), name)
    }
}

/// Every declaration of a class applied in order.
pub open spec fn spec_apply_properties(st: Styles, props: Seq<StyleProperty>) -> Styles
    decreases props.len(),
{
    if props.len() == 0 {
        st
    } else {
        spec_apply_properties(spec_dispatch(st, props[0].name@, props[0].value@), props.drop_first())
    }
}

/// One whitespace-separated class name applied to a record: a missing
/// stylesheet or a name without a match contributes nothing.
pub open spec fn spec_apply_class(st: Styles, name: Seq<char>, sheet: Option<Stylesheet>) -> Styles {
    if name.len() == 0 {
        st
    } else {
        match sheet {
            None => st,
            Some(sh) => match spec_find_class(sh.classes@, name) {
                Some(c) => spec_apply_properties(st, c.properties@),
                None => st,
            },
        }
    }
}

pub open spec fn spec_class_scan(
    st: Styles,
    cur: Seq<char>,
    rest: Seq<char>,
    sheet: Option<Stylesheet>,
) -> Styles
    decreases rest.len(),
{
    if rest.len() == 0 {
        spec_apply_class(st, cur, sheet)
    } else if is_space(rest[0]) {
        spec_class_scan(spec_apply_class(st, cur, sheet), Seq::empty(), rest.drop_first(), sheet)
    } else {
        spec_class_scan(st, cur.push(rest[0]), rest.drop_first(), sheet)
    }
}

/// The record a whitespace-separated class-name list resolves to, later
/// classes overriding earlier ones key by key.
pub open spec fn spec_parse_classes(names: Seq<char>, sheet: Option<Stylesheet>) -> Styles {
    spec_class_scan(Styles::spec_default(), Seq::empty(), names, sheet)
}

/// The whole cascade: the inline attribute, where present, fully
/// replaces whatever the class pass produced; then still-unset
/// text-category properties are filled from the parent.
pub open spec fn spec_parse_styles(
    class_attr: Option<Seq<char>>,
    style_attr: Option<Seq<char>>,
    parent: Option<Styles>,
    sheet: Option<Stylesheet>,
) -> Styles {
    let base = if style_attr is Some {
        spec_parse_inline(style_attr->0)
    } else if class_attr is Some {
        spec_parse_classes(class_attr->0, sheet)
    } else {
        Styles::spec_default()
    };
    match parent {
        Some(p) => spec_merge_styles(p, base),
        None => base,
    }
}

/// Cascade precedence: when an inline style attribute is present, the
/// resolved record is the inline record alone (merged with the parent);
/// the class attribute and the stylesheet have no influence at all.
pub proof fn lemma_cascade_precedence(
    class_attr: Option<Seq<char>>,
    style: Seq<char>,
    parent: Option<Styles>,
    sheet: Option<Stylesheet>,
)
    ensures
        spec_parse_styles(class_attr, Some(style), parent, sheet)
            == spec_parse_styles(None, Some(style), parent, sheet),
        spec_parse_styles(class_attr, Some(style), None, sheet) == spec_parse_inline(style),
{
}

/// Unknown-key robustness: a key outside the four category tables never
/// mutates the record, whatever its value.
pub proof fn lemma_unknown_key_ignored(st: Styles, key: Seq<char>, value: Seq<char>)
    requires
        !spec_is_layout_key(key),
        !spec_is_dimension_key(key),
        !spec_is_appearance_key(key),
        !spec_is_text_key(key),
    ensures
        spec_dispatch(st, key, value) == st,
{
}


// Character helpers and trimming lemmas.

pub fn is_space_char(c: char) -> (r: bool)
    ensures
        r == is_space(c),
{
    c == ' ' || c == '\t' || c == '\n' || c == '\r'
}

/// The characters of a string, in order.
#[verifier::loop_isolation(false)]
pub fn to_chars(s: &str) -> (r: Vec<char>)
    ensures
        r@ == s@,
{
    let n = s.unicode_len();
    let mut r: Vec<char> = Vec::new();
    let mut i: usize = 0;
    while i < n
        invariant
            i <= n,
            n == s@.len(),
            r@ == s@.take(i as int),
        decreases n - i,
    {
        r.push(s.get_char(i));
        proof {
            assert(s@.take(i as int + 1) =~= s@.take(i as int).push(s@[i as int]));
        }
        i = i + 1;
    }
    proof {
        assert(s@.take(n as int) =~= s@);
    }
    r
}

/// Whether a character buffer spells exactly the given text.
#[verifier::loop_isolation(false)]
pub fn chars_eq_str(v: &Vec<char>, lit: &str) -> (r: bool)
    ensures
        r == (v@ == lit@),
{
    let n = lit.unicode_len();
    if v.len() != n {
        proof {
            assert(v@.len() != lit@.len());
        }
        return false;
    }
    let mut i: usize = 0;
    while i < n
        invariant
            i <= n,
            forall|j: int| 0 <= j < i ==> v@[j] == lit@[j],
        decreases n - i,
    {
        if v[i] != lit.get_char(i) {
            return false;
        }
        i = i + 1;
    }
    proof {
        assert(v@ =~= lit@);
    }
    true
}

/// A copy of the characters between the two indices.
#[verifier::loop_isolation(false)]
pub fn subrange_chars(v: &Vec<char>, from: usize, to: usize) -> (r: Vec<char>)
    requires
        from <= to <= v@.len(),
    ensures
        r@ == v@.subrange(from as int, to as int),
{
    let mut r: Vec<char> = Vec::new();
    let mut i: usize = from;
    while i < to
        invariant
            from <= i <= to,
            r@ == v@.subrange(from as int, i as int),
        decreases to - i,
    {
        r.push(v[i]);
        proof {
            assert(v@.subrange(from as int, i as int + 1)
                =~= v@.subrange(from as int, i as int).push(v@[i as int]));
        }
        i = i + 1;
    }
    r
}

// Trimming k known leading spaces drops exactly them.
proof fn lemma_trim_front_at(s: Seq<char>, k: int)
    requires
        0 <= k <= s.len(),
        forall|j: int| 0 <= j < k ==> is_space(#[trigger] s[j]),
        k == s.len() || !is_space(s[k]),
    ensures
        spec_trim_front(s) == s.skip(k),
    decreases k,
{
    if k == 0 {
        assert(s.skip(0) =~= s);
    } else {
        lemma_trim_front_at(s.drop_first(), k - 1);
        assert(s.skip(k) =~= s.drop_first().skip(k - 1));
    }
}

// Trimming known trailing spaces keeps exactly the prefix before them.
proof fn lemma_trim_back_at(s: Seq<char>, m: int)
    requires
        0 <= m <= s.len(),
        forall|j: int| m <= j < s.len() ==> is_space(#[trigger] s[j]),
        m == 0 || !is_space(s[m - 1]),
    ensures
        spec_trim_back(s) == s.take(m),
    decreases s.len(),
{
    if m == s.len() {
        if s.len() == 0 {
            assert(s.take(0) =~= s);
        } else {
            assert(!is_space(s.last()));
            assert(s.take(m) =~= s);
        }
    } else {
        assert(is_space(s.last()));
        lemma_trim_back_at(s.drop_last(), m);
        assert(s.drop_last().take(m) =~= s.take(m));
    }
}

/// The buffer without leading or trailing whitespace.
#[verifier::loop_isolation(false)]
pub fn trim_chars(v: &Vec<char>) -> (r: Vec<char>)
    ensures
        r@ == spec_trim(v@),
{
    let n = v.len();
    let mut start: usize = 0;
    while start < n && is_space_char(v[start])
        invariant
            start <= n,
            forall|j: int| 0 <= j < start ==> is_space(#[trigger] v@[j]),
        decreases n - start,
    {
        start = start + 1;
    }
    proof {
        lemma_trim_front_at(v@, start as int);
    }
    let mut end: usize = n;
    while end > start && is_space_char(v[end - 1])
        invariant
            start <= end <= n,
            forall|j: int| end <= j < n ==> is_space(#[trigger] v@[j]),
        decreases end,
    {
        end = end - 1;
    }
    proof {
        let f = v@.skip(start as int);
        assert(forall|j: int| end - start <= j < f.len() ==> is_space(#[trigger] f[j]));
        if end > start {
            assert(f[end - start - 1] == v@[end as int - 1]);
        }
        lemma_trim_back_at(f, end as int - start as int);
        assert(f.take(end as int - start as int) =~= v@.subrange(start as int, end as int));
    }
    subrange_chars(v, start, end)
}

// Scanning to a known first occurrence gives the find index.
proof fn lemma_find_at(s: Seq<char>, c: char, k: int)
    requires
        0 <= k <= s.len(),
        forall|j: int| 0 <= j < k ==> s[j] != c,
        k == s.len() || s[k] == c,
    ensures
        spec_find(s, c) == (if k == s.len() { -1int } else { k }),
    decreases s.len(),
{
    if s.len() == 0 {
    } else if k == 0 {
    } else {
        lemma_find_at(s.drop_first(), c, k - 1);
    }
}

/// The first index of the character, if it occurs.
#[verifier::loop_isolation(false)]
pub fn find_char(v: &Vec<char>, c: char) -> (r: Option<usize>)
    ensures
        match r {
            Some(i) => 0 <= i < v@.len() && spec_find(v@, c) == i as int,
            None => spec_find(v@, c) == -1,
        },
        r is Some ==> (r->0 as int) < v@.len(),
{
    let n = v.len();
    let mut i: usize = 0;
    while i < n
        invariant
            i <= n,
            forall|j: int| 0 <= j < i ==> v@[j] != c,
        decreases n - i,
    {
        if v[i] == c {
            proof {
                lemma_find_at(v@, c, i as int);
            }
            return Some(i);
        }
        i = i + 1;
    }
    proof {
        lemma_find_at(v@, c, n as int);
    }
    None
}

// A digit run's value is bounded by a power of ten.
proof fn lemma_digits_val_bound(s: Seq<char>)
    requires
        all_digits(s),
    ensures
        0 <= digits_val(s) < pow10(s.len()),
    decreases s.len(),
{
    if s.len() > 0 {
        assert(all_digits(s.drop_last())) by {
            assert(forall|j: int| 0 <= j < s.len() - 1 ==> s.drop_last()[j] == #[trigger] s[j]);
        }
        lemma_digits_val_bound(s.drop_last());
        assert(is_digit(s.last()));
        assert(pow10(s.len()) == 10 * pow10((s.len() - 1) as nat));
    }
}

proof fn lemma_pow10_six()
    ensures
        pow10(0) == 1,
        pow10(1) == 10,
        pow10(2) == 100,
        pow10(3) == 1000,
        pow10(4) == 10000,
        pow10(5) == 100000,
        pow10(6) == 1000000,
{
    assert(pow10(0) == 1);
    assert(pow10(1) == 10);
    assert(pow10(2) == 100);
    assert(pow10(3) == 1000);
    assert(pow10(4) == 10000);
    assert(pow10(5) == 100000);
    assert(pow10(6) == 1000000);
}

/// The value of one to six decimal digits, if the buffer holds exactly
/// that.
#[verifier::loop_isolation(false)]
fn parse_digit_run(d: &Vec<char>) -> (r: Option<i64>)
    requires
        1 <= d@.len() <= 6,
    ensures
        r == (if all_digits(d@) { Some(digits_val(d@) as i64) } else { None::<i64> }),
{
    proof {
        lemma_pow10_six();
    }
    let n = d.len();
    let mut acc: i64 = 0;
    let mut i: usize = 0;
    while i < n
        invariant
            i <= n,
            forall|j: int| 0 <= j < i ==> is_digit(#[trigger] d@[j]),
            acc as int == digits_val(d@.take(i as int)),
            0 <= acc,
            (acc as int) < pow10(i as nat),
            pow10(i as nat) <= pow10(6),
        decreases n - i,
    {
        let code: u32 = d[i] as u32;
        if code < 48 || code > 57 {
            proof {
                assert(!is_digit(d@[i as int]));
                assert(!all_digits(d@));
            }
            return None;
        }
        proof {
            assert(all_digits(d@.take(i as int))) by {
                assert(forall|j: int| 0 <= j < i ==> d@.take(i as int)[j] == #[trigger] d@[j]);
            }
            lemma_digits_val_bound(d@.take(i as int));
            assert(d@.take(i as int + 1).drop_last() =~= d@.take(i as int));
            assert(d@.take(i as int + 1).last() == d@[i as int]);
            assert(pow10(i as nat + 1) == 10 * pow10(i as nat));
            lemma_pow10_le(i as nat + 1, 6);
        }
        acc = acc * 10 + ((code - 48) as i64);
        i = i + 1;
    }
    proof {
        assert(d@.take(n as int) =~= d@);
    }
    Some(acc)
}

proof fn lemma_pow10_le(a: nat, b: nat)
    requires
        a <= b,
    ensures
        pow10(a) <= pow10(b),
    decreases b,
{
    if a < b {
        lemma_pow10_le(a, (b - 1) as nat);
        assert(pow10(b) == 10 * pow10((b - 1) as nat));
        assert(pow10((b - 1) as nat) >= 1) by {
            lemma_pow10_pos((b - 1) as nat);
        }
    }
}

proof fn lemma_pow10_pos(a: nat)
    ensures
        pow10(a) >= 1,
    decreases a,
{
    if a > 0 {
        lemma_pow10_pos((a - 1) as nat);
    }
}

/// A pixel quantity: decimal digits with an optional `px` suffix.
pub fn parse_px_chars(v: &Vec<char>) -> (r: Option<i64>)
    ensures
        r == spec_parse_px(v@),
{
    let n = v.len();
    let has_suffix: bool = n >= 2 && v[n - 2] == 'p' && v[n - 1] == 'x';
    let dlen: usize = if has_suffix { n - 2 } else { n };
    let ghost d = if has_suffix { v@.take(n as int - 2) } else { v@ };
    if dlen < 1 || dlen > 6 {
        return None;
    }
    let digits = subrange_chars(v, 0, dlen);
    proof {
        assert(digits@ =~= d);
    }
    parse_digit_run(&digits)
}

/// A color channel value up to 255.
pub fn parse_u8_chars(v: &Vec<char>) -> (r: Option<u8>)
    ensures
        r == spec_parse_u8(v@),
{
    let n = v.len();
    if n < 1 || n > 3 {
        return None;
    }
    match parse_digit_run(v) {
        None => None,
        Some(acc) => {
            proof {
                lemma_pow10_six();
                lemma_pow10_le(v@.len(), 6);
                lemma_digits_val_bound(v@);
                assert(acc as int == digits_val(v@));
            }
            if acc > 255 {
                None
            } else {
                Some(acc as u8)
            }
        },
    }
}

/// A color written `rgb(r, g, b)`.
pub fn parse_color_chars(v: &Vec<char>) -> (r: Option<Color>)
    ensures
        r == spec_parse_color(v@),
{
    proof {
        reveal_strlit("rgb(");
    }
    let n = v.len();
    if n < 5 {
        return None;
    }
    if !(v[0] == 'r' && v[1] == 'g' && v[2] == 'b' && v[3] == '(' && v[n - 1] == ')') {
        proof {
            if v@.take(4) == "rgb("@ {
                assert(v@[0] == 'r' && v@[1] == 'g' && v@[2] == 'b' && v@[3] == '(') by {
                    assert(v@.take(4)[0] == v@[0]);
                    assert(v@.take(4)[1] == v@[1]);
                    assert(v@.take(4)[2] == v@[2]);
                    assert(v@.take(4)[3] == v@[3]);
                }
            }
        }
        return None;
    }
    proof {
        assert(v@.take(4) =~= "rgb("@);
    }
    let inner = subrange_chars(v, 4, n - 1);
    proof {
        assert(inner@ == v@.subrange(4, n as int - 1));
    }
    match find_char(&inner, ',') {
        None => None,
        Some(i) => {
            let first = subrange_chars(&inner, 0, i);
            let rest = subrange_chars(&inner, i + 1, inner.len());
            proof {
                assert(first@ =~= inner@.take(i as int));
                assert(rest@ =~= inner@.skip(i as int + 1));
            }
            match find_char(&rest, ',') {
                None => None,
                Some(j) => {
                    let second = subrange_chars(&rest, 0, j);
                    let third = subrange_chars(&rest, j + 1, rest.len());
                    proof {
                        assert(second@ =~= rest@.take(j as int));
                        assert(third@ =~= rest@.skip(j as int + 1));
                    }
                    let red = parse_u8_chars(&trim_chars(&first));
                    let green = parse_u8_chars(&trim_chars(&second));
                    let blue = parse_u8_chars(&trim_chars(&third));
                    match (red, green, blue) {
                        (Some(rc), Some(gc), Some(bc)) => Some(Color {
                            red: rc,
                            green: gc,
                            blue: bc,
                            alpha: 255,
                        }),
                        _ => None,
                    }
                },
            }
        },
    }
}


fn chars_eq_string(v: &Vec<char>, s: &String) -> (r: bool)
    ensures
        r == (v@ == s@),
{
    chars_eq_str(v, s.as_str())
}

/// Applies a layout-category declaration.
fn update_layout_style(styles: &mut Styles, key: &Vec<char>, value: &Vec<char>)
    ensures
        *final(styles) == spec_update_layout(*old(styles), key@, value@),
{
    if chars_eq_str(key, "display") {
        match parse_display_chars(value) { Some(d) => { styles.display = Some(d); }, None => {} }
    } else if chars_eq_str(key, "flex-direction") {
        match parse_flex_direction_chars(value) { Some(d) => { styles.flex_direction = Some(d); }, None => {} }
    } else if chars_eq_str(key, "flex-wrap") {
        match parse_flex_wrap_chars(value) { Some(d) => { styles.flex_wrap = Some(d); }, None => {} }
    } else if chars_eq_str(key, "justify-content") {
        match parse_justify_content_chars(value) { Some(d) => { styles.justify_content = Some(d); }, None => {} }
    } else if chars_eq_str(key, "align-items") {
        match parse_align_items_chars(value) { Some(d) => { styles.align_items = Some(d); }, None => {} }
    } else if chars_eq_str(key, "flex-grow") {
        match parse_px_chars(value) { Some(n) => { styles.flex_grow = Some(n); }, None => {} }
    } else if chars_eq_str(key, "flex-shrink") {
        match parse_px_chars(value) { Some(n) => { styles.flex_shrink = Some(n); }, None => {} }
    } else if chars_eq_str(key, "margin") {
        match parse_px_chars(value) {
            Some(n) => {
                styles.margin = Some(Margin {
                    top: Dimension { value: n, unit: Unit::Px },
                    right: Dimension { value: n, unit: Unit::Px },
                    bottom: Dimension { value: n, unit: Unit::Px },
                    left: Dimension { value: n, unit: Unit::Px },
                });
            },
            None => {},
        }
    } else if chars_eq_str(key, "padding") {
        match parse_px_chars(value) {
            Some(n) => {
                styles.padding = Some(Padding {
                    top: Dimension { value: n, unit: Unit::Px },
                    right: Dimension { value: n, unit: Unit::Px },
                    bottom: Dimension { value: n, unit: Unit::Px },
                    left: Dimension { value: n, unit: Unit::Px },
                });
            },
            None => {},
        }
    } else if chars_eq_str(key, "spacing") {
        match parse_px_chars(value) {
            Some(n) => {
                styles.spacing = Some(Spacing {
                    spacing_x: Dimension { value: n, unit: Unit::Px },
                    spacing_y: Dimension { value: n, unit: Unit::Px },
                });
            },
            None => {},
        }
    } else if chars_eq_str(key, "overflow") {
        match parse_overflow_chars(value) { Some(d) => { styles.overflow = Some(d); }, None => {} }
    }
}

/// Applies a dimension-category declaration to the sizing policy.
fn update_dimension_style(styles: &mut Styles, key: &Vec<char>, value: &Vec<char>)
    ensures
        *final(styles) == spec_update_dimension(*old(styles), key@, value@),
{
    match parse_px_chars(value) {
        None => {},
        Some(n) => {
            let d = Dimension { value: n, unit: Unit::Px };
            let mut sp = match styles.sizing_policy {
                Some(sp) => sp,
                None => SizingPolicy::unset(),
            };
            if chars_eq_str(key, "width") {
                sp.width = Some(d);
                styles.sizing_policy = Some(sp);
            } else if chars_eq_str(key, "height") {
                sp.height = Some(d);
                styles.sizing_policy = Some(sp);
            } else if chars_eq_str(key, "min-width") {
                sp.min_width = Some(d);
                styles.sizing_policy = Some(sp);
            } else if chars_eq_str(key, "max-width") {
                sp.max_width = Some(d);
                styles.sizing_policy = Some(sp);
            } else if chars_eq_str(key, "min-height") {
                sp.min_height = Some(d);
                styles.sizing_policy = Some(sp);
            } else if chars_eq_str(key, "max-height") {
                sp.max_height = Some(d);
                styles.sizing_policy = Some(sp);
            }
        },
    }
}

/// Applies an appearance-category declaration.
fn update_appearance_style(styles: &mut Styles, key: &Vec<char>, value: &Vec<char>)
    ensures
        *final(styles) == spec_update_appearance(*old(styles), key@, value@),
{
    let mut border = match styles.border {
        Some(b) => b,
        None => Border::default(),
    };
    if chars_eq_str(key, "background-color") {
        match parse_color_chars(value) { Some(c) => { styles.background_color = Some(c); }, None => {} }
    } else if chars_eq_str(key, "color") {
        match parse_color_chars(value) { Some(c) => { styles.text_color = Some(c); }, None => {} }
    } else if chars_eq_str(key, "border-width") {
        match parse_px_chars(value) {
            Some(n) => {
                border.width = Dimension { value: n, unit: Unit::Px };
                styles.border = Some(border);
            },
            None => {},
        }
    } else if chars_eq_str(key, "border-color") {
        match parse_color_chars(value) {
            Some(c) => {
                border.color = c;
                styles.border = Some(border);
            },
            None => {},
        }
    } else if chars_eq_str(key, "border-radius") {
        match parse_px_chars(value) {
            Some(n) => {
                border.radius = Dimension { value: n, unit: Unit::Px };
                styles.border = Some(border);
            },
            None => {},
        }
    }
}

/// Applies a text-category declaration.
fn update_text_style(styles: &mut Styles, key: &Vec<char>, value: &Vec<char>)
    ensures
        *final(styles) == spec_update_text(*old(styles), key@, value@),
{
    if chars_eq_str(key, "white-space") {
        match parse_white_space_chars(value) { Some(d) => { styles.white_space = Some(d); }, None => {} }
    } else if chars_eq_str(key, "font-size") {
        match parse_px_chars(value) {
            Some(n) => { styles.font_size = Some(Dimension { value: n, unit: Unit::Px }); },
            None => {},
        }
    } else if chars_eq_str(key, "font-weight") {
        match parse_font_weight_chars(value) { Some(d) => { styles.font_weight = Some(d); }, None => {} }
    } else if chars_eq_str(key, "font-family") {
        match parse_font_family_chars(value) { Some(d) => { styles.font_family = Some(d); }, None => {} }
    } else if chars_eq_str(key, "font-style") {
        match parse_font_style_chars(value) { Some(d) => { styles.font_style = Some(d); }, None => {} }
    } else if chars_eq_str(key, "text-align") {
        match parse_text_align_chars(value) { Some(d) => { styles.text_align = Some(d); }, None => {} }
    }
}

fn parse_display_chars(v: &Vec<char>) -> (r: Option<Display>)
    ensures
        r == spec_parse_display(v@),
{
    if chars_eq_str(v, "flex") { Some(Display::Flex) }
    else if chars_eq_str(v, "block") { Some(Display::Block) }
    else if chars_eq_str(v, "inline-block") { Some(Display::InlineBlock) }
    else { None }
}

fn parse_flex_direction_chars(v: &Vec<char>) -> (r: Option<FlexDirection>)
    ensures
        r == spec_parse_flex_direction(v@),
{
    if chars_eq_str(v, "row") { Some(FlexDirection::Row) }
    else if chars_eq_str(v, "column") { Some(FlexDirection::Column) }
    else { None }
}

fn parse_flex_wrap_chars(v: &Vec<char>) -> (r: Option<FlexWrap>)
    ensures
        r == spec_parse_flex_wrap(v@),
{
    if chars_eq_str(v, "nowrap") { Some(FlexWrap::NoWrap) }
    else if chars_eq_str(v, "wrap") { Some(FlexWrap::Wrap) }
    else { None }
}

fn parse_justify_content_chars(v: &Vec<char>) -> (r: Option<JustifyContent>)
    ensures
        r == spec_parse_justify_content(v@),
{
    if chars_eq_str(v, "flex-start") { Some(JustifyContent::FlexStart) }
    else if chars_eq_str(v, "center") { Some(JustifyContent::Center) }
    else if chars_eq_str(v, "flex-end") { Some(JustifyContent::FlexEnd) }
    else if chars_eq_str(v, "space-between") { Some(JustifyContent::SpaceBetween) }
    else if chars_eq_str(v, "space-around") { Some(JustifyContent::SpaceAround) }
    else { None }
}

fn parse_align_items_chars(v: &Vec<char>) -> (r: Option<AlignItems>)
    ensures
        r == spec_parse_align_items(v@),
{
    if chars_eq_str(v, "flex-start") { Some(AlignItems::FlexStart) }
    else if chars_eq_str(v, "center") { Some(AlignItems::Center) }
    else if chars_eq_str(v, "flex-end") { Some(AlignItems::FlexEnd) }
    else if chars_eq_str(v, "stretch") { Some(AlignItems::Stretch) }
    else { None }
}

fn parse_overflow_chars(v: &Vec<char>) -> (r: Option<Overflow>)
    ensures
        r == spec_parse_overflow(v@),
{
    if chars_eq_str(v, "visible") { Some(Overflow::Visible) }
    else if chars_eq_str(v, "auto") { Some(Overflow::Auto) }
    else if chars_eq_str(v, "hidden") { Some(Overflow::Hidden) }
    else { None }
}

fn parse_white_space_chars(v: &Vec<char>) -> (r: Option<WhiteSpace>)
    ensures
        r == spec_parse_white_space(v@),
{
    if chars_eq_str(v, "normal") { Some(WhiteSpace::Normal) }
    else if chars_eq_str(v, "nowrap") { Some(WhiteSpace::NoWrap) }
    else { None }
}

fn parse_font_weight_chars(v: &Vec<char>) -> (r: Option<FontWeight>)
    ensures
        r == spec_parse_font_weight(v@),
{
    if chars_eq_str(v, "normal") { Some(FontWeight::Normal) }
    else if chars_eq_str(v, "bold") { Some(FontWeight::Bold) }
    else { None }
}

fn parse_font_style_chars(v: &Vec<char>) -> (r: Option<FontStyle>)
    ensures
        r == spec_parse_font_style(v@),
{
    if chars_eq_str(v, "normal") { Some(FontStyle::Normal) }
    else if chars_eq_str(v, "italic") { Some(FontStyle::Italic) }
    else { None }
}

fn parse_font_family_chars(v: &Vec<char>) -> (r: Option<FontFamily>)
    ensures
        r == spec_parse_font_family(v@),
{
    if chars_eq_str(v, "Arial") { Some(FontFamily::Arial) }
    else if chars_eq_str(v, "Helvetica") { Some(FontFamily::Helvetica) }
    else if chars_eq_str(v, "Times New Roman") { Some(FontFamily::TimesNewRoman) }
    else if chars_eq_str(v, "Courier New") { Some(FontFamily::CourierNew) }
    else if chars_eq_str(v, "Verdana") { Some(FontFamily::Verdana) }
    else { None }
}

fn parse_text_align_chars(v: &Vec<char>) -> (r: Option<TextAlign>)
    ensures
        r == spec_parse_text_align(v@),
{
    if chars_eq_str(v, "left") { Some(TextAlign::Left) }
    else if chars_eq_str(v, "center") { Some(TextAlign::Center) }
    else if chars_eq_str(v, "right") { Some(TextAlign::Right) }
    else { None }
}

fn is_layout_key_chars(k: &Vec<char>) -> (r: bool)
    ensures
        r == spec_is_layout_key(k@),
{
    chars_eq_str(k, "display") || chars_eq_str(k, "flex-direction") || chars_eq_str(k, "flex-wrap")
        || chars_eq_str(k, "justify-content") || chars_eq_str(k, "align-items")
        || chars_eq_str(k, "flex-grow") || chars_eq_str(k, "flex-shrink")
        || chars_eq_str(k, "margin") || chars_eq_str(k, "padding") || chars_eq_str(k, "spacing")
        || chars_eq_str(k, "overflow")
}

fn is_dimension_key_chars(k: &Vec<char>) -> (r: bool)
    ensures
        r == spec_is_dimension_key(k@),
{
    chars_eq_str(k, "width") || chars_eq_str(k, "height") || chars_eq_str(k, "min-width")
        || chars_eq_str(k, "max-width") || chars_eq_str(k, "min-height")
        || chars_eq_str(k, "max-height")
}

fn is_appearance_key_chars(k: &Vec<char>) -> (r: bool)
    ensures
        r == spec_is_appearance_key(k@),
{
    chars_eq_str(k, "background-color") || chars_eq_str(k, "color")
        || chars_eq_str(k, "border-width") || chars_eq_str(k, "border-color")
        || chars_eq_str(k, "border-radius")
}

fn is_text_key_chars(k: &Vec<char>) -> (r: bool)
    ensures
        r == spec_is_text_key(k@),
{
    chars_eq_str(k, "white-space") || chars_eq_str(k, "font-size")
        || chars_eq_str(k, "font-weight") || chars_eq_str(k, "font-family")
        || chars_eq_str(k, "font-style") || chars_eq_str(k, "text-align")
}

fn dispatch_chars(styles: &mut Styles, key: &Vec<char>, value: &Vec<char>)
    ensures
        *final(styles) == spec_dispatch(*old(styles), key@, value@),
{
    if is_layout_key_chars(key) {
        update_layout_style(styles, key, value);
    } else if is_dimension_key_chars(key) {
        update_dimension_style(styles, key, value);
    } else if is_appearance_key_chars(key) {
        update_appearance_style(styles, key, value);
    } else if is_text_key_chars(key) {
        update_text_style(styles, key, value);
    }
}

/// Looks the key up in the four category tables and applies that
/// category's updater; a key outside every table leaves the record
/// untouched (callers may log it — never fatal).
pub fn dispatch_by_key_and_update_style(styles: &mut Styles, key: &str, value: &str)
    ensures
        *final(styles) == spec_dispatch(*old(styles), key@, value@),
{
    let k = to_chars(key);
    let v = to_chars(value);
    dispatch_chars(styles, &k, &v);
}

fn apply_inline_item(st: &mut Styles, item: &Vec<char>)
    ensures
        *final(st) == spec_apply_inline_item(*old(st), item@),
{
    match find_char(item, ':') {
        None => {},
        Some(i) => {
            let len = item.len();
            proof {
                assert(i < item@.len());
            }
            let raw_key = subrange_chars(item, 0, i);
            let raw_val = subrange_chars(item, i + 1, len);
            proof {
                assert(raw_key@ =~= item@.take(i as int));
                assert(raw_val@ =~= item@.skip(i as int + 1));
            }
            let key = trim_chars(&raw_key);
            let val = trim_chars(&raw_val);
            dispatch_chars(st, &key, &val);
        },
    }
}

/// Resolves an inline style attribute: `;`-separated `key:value`
/// declarations, keys and values trimmed, malformed entries skipped,
/// starting from the empty record.
#[verifier::loop_isolation(false)]
pub fn parse_inline_styles(style_str: &str) -> (r: Styles)
    ensures
        r == spec_parse_inline(style_str@),
{
    let chars = to_chars(style_str);
    let n = chars.len();
    let mut st = Styles::default();
    let mut cur: Vec<char> = Vec::new();
    proof {
        assert(chars@.skip(0) =~= chars@);
        assert(cur@ =~= Seq::<char>::empty());
    }
    let mut i: usize = 0;
    while i < n
        invariant
            i <= n,
            n == chars@.len(),
            chars@ == style_str@,
            spec_inline_scan(st, cur@, chars@.skip(i as int)) == spec_parse_inline(style_str@),
        decreases n - i,
    {
        proof {
            assert(chars@.skip(i as int)[0] == chars@[i as int]);
            assert(chars@.skip(i as int).drop_first() =~= chars@.skip(i as int + 1));
        }
        let c = chars[i];
        if c == ';' {
            apply_inline_item(&mut st, &cur);
            cur = Vec::new();
        } else {
            cur.push(c);
        }
        i = i + 1;
    }
    proof {
        assert(chars@.skip(n as int) =~= Seq::<char>::empty());
    }
    apply_inline_item(&mut st, &cur);
    st
}

/// The stylesheet value behind an optional reference.
pub open spec fn sheet_of(sheet: Option<&Stylesheet>) -> Option<Stylesheet> {
    match sheet {
        Some(s) => Some(*s),
        None => None,
    }
}

#[verifier::loop_isolation(false)]
fn apply_properties(st: &mut Styles, props: &Vec<StyleProperty>)
    ensures
        *final(st) == spec_apply_properties(*old(st), props@),
{
    let m = props.len();
    proof {
        assert(props@.skip(0) =~= props@);
    }
    let mut t: usize = 0;
    while t < m
        invariant
            t <= m,
            spec_apply_properties(*old(st), props@) == spec_apply_properties(*st, props@.skip(t as int)),
        decreases m - t,
    {
        proof {
            assert(props@.skip(t as int)[0] == props@[t as int]);
            assert(props@.skip(t as int).drop_first() =~= props@.skip(t as int + 1));
        }
        let kk = to_chars(props[t].name.as_str());
        let vv = to_chars(props[t].value.as_str());
        dispatch_chars(st, &kk, &vv);
        t = t + 1;
    }
    proof {
        assert(props@.skip(m as int) =~= Seq::<StyleProperty>::empty());
    }
}

#[verifier::loop_isolation(false)]
fn apply_class(st: &mut Styles, name: &Vec<char>, sheet: Option<&Stylesheet>)
    ensures
        *final(st) == spec_apply_class(*old(st), name@, sheet_of(sheet)),
{
    if name.len() == 0 {
        return;
    }
    let sh = match sheet {
        None => {
            return;
        },
        Some(sh) => sh,
    };
    let n = sh.classes.len();
    proof {
        assert(sh.classes@.skip(0) =~= sh.classes@);
    }
    let mut k: usize = 0;
    while k < n
        invariant
            k <= n,
            spec_find_class(sh.classes@, name@) == spec_find_class(sh.classes@.skip(k as int), name@),
            *st == *old(st),
        decreases n - k,
    {
        proof {
            assert(sh.classes@.skip(k as int)[0] == sh.classes@[k as int]);
            assert(sh.classes@.skip(k as int).drop_first() =~= sh.classes@.skip(k as int + 1));
        }
        if chars_eq_string(name, &sh.classes[k].name) {
            apply_properties(st, &sh.classes[k].properties);
            return;
        }
        k = k + 1;
    }
    proof {
        assert(sh.classes@.skip(n as int) =~= Seq::<StyleClass>::empty());
    }
}

/// Resolves a `class` attribute: each whitespace-separated class name is
/// looked up in the stylesheet (first match by name wins) and every
/// declaration of the matching class is applied, later classes
/// overriding earlier ones key by key.
#[verifier::loop_isolation(false)]
pub fn parse_class_styles(class_names: &str, stylesheet: Option<&Stylesheet>) -> (r: Styles)
    ensures
        r == spec_parse_classes(class_names@, sheet_of(stylesheet)),
{
    let chars = to_chars(class_names);
    let n = chars.len();
    let mut st = Styles::default();
    let mut cur: Vec<char> = Vec::new();
    proof {
        assert(chars@.skip(0) =~= chars@);
        assert(cur@ =~= Seq::<char>::empty());
    }
    let mut i: usize = 0;
    while i < n
        invariant
            i <= n,
            n == chars@.len(),
            chars@ == class_names@,
            spec_class_scan(st, cur@, chars@.skip(i as int), sheet_of(stylesheet))
                == spec_parse_classes(class_names@, sheet_of(stylesheet)),
        decreases n - i,
    {
        proof {
            assert(chars@.skip(i as int)[0] == chars@[i as int]);
            assert(chars@.skip(i as int).drop_first() =~= chars@.skip(i as int + 1));
        }
        let c = chars[i];
        if is_space_char(c) {
            apply_class(&mut st, &cur, stylesheet);
            cur = Vec::new();
        } else {
            cur.push(c);
        }
        i = i + 1;
    }
    proof {
        assert(chars@.skip(n as int) =~= Seq::<char>::empty());
    }
    apply_class(&mut st, &cur, stylesheet);
    st
}

/// The style value behind an optional reference.
pub open spec fn styles_of(parent: Option<&Styles>) -> Option<Styles> {
    match parent {
        Some(p) => Some(*p),
        None => None,
    }
}

/// The text behind an optional attribute.
pub open spec fn attr_of(attr: Option<&str>) -> Option<Seq<char>> {
    match attr {
        Some(a) => Some(a@),
        None => None,
    }
}

/// Resolves one element's styles: class rules, then inline rules (which
/// fully replace the class pass where present), then text-category
/// inheritance from the parent.
pub fn parse_styles(
    class_attr: Option<&str>,
    style_attr: Option<&str>,
    parent_styles: Option<&Styles>,
    stylesheet: Option<&Stylesheet>,
) -> (r: Styles)
    ensures
        r == spec_parse_styles(
            attr_of(class_attr),
            attr_of(style_attr),
            styles_of(parent_styles),
            sheet_of(stylesheet),
        ),
{
    let mut styles = Styles::default();
    match class_attr {
        Some(class_names) => {
            styles = parse_class_styles(class_names, stylesheet);
        },
        None => {},
    }
    match style_attr {
        Some(style_str) => {
            styles = parse_inline_styles(style_str);
        },
        None => {},
    }
    match parent_styles {
        Some(parent) => {
            crate::cascade::merge_styles(parent, &mut styles);
        },
        None => {},
    }
    styles
}

} // verus!
