use boxflow::app_state::{AppComponentState, AppGlobalState};
use boxflow::cascade::merge_styles;
use boxflow::geometry::{Frac, Position, Size};
use boxflow::id_generator::IdGenerator;
use boxflow::renderer::ElementRenderer;
use boxflow::styles::{Color, Dimension, FontWeight, Overflow, TextAlign, Unit, WhiteSpace, Styles};

#[test]
fn inheritance_fills_only_unset_text_properties() {
    let mut parent = Styles::default();
    parent.font_size = Some(Dimension { value: 18, unit: Unit::Px });
    parent.font_weight = Some(FontWeight::Bold);
    parent.text_align = Some(TextAlign::Center);
    parent.white_space = Some(WhiteSpace::NoWrap);
    parent.background_color = Some(Color { red: 1, green: 2, blue: 3, alpha: 255 });
    parent.overflow = Some(Overflow::Auto);

    let mut child = Styles::default();
    child.font_size = Some(Dimension { value: 11, unit: Unit::Px });

    merge_styles(&parent, &mut child);

    // unset text properties take the parent's value
    assert_eq!(child.font_weight, Some(FontWeight::Bold));
    assert_eq!(child.text_align, Some(TextAlign::Center));
    assert_eq!(child.white_space, Some(WhiteSpace::NoWrap));
    // a text property the child set is never overwritten
    assert_eq!(child.font_size, Some(Dimension { value: 11, unit: Unit::Px }));
    // appearance and layout properties are never inherited
    assert_eq!(child.background_color, None);
    assert_eq!(child.overflow, None);
}

#[test]
fn id_generator_is_monotonic() {
    let mut gen = IdGenerator::new();
    let a = gen.next_id();
    let b = gen.next_id();
    let c = gen.next_id();
    assert_eq!(a, 1);
    assert!(a < b && b < c);
}

#[test]
fn scrollbar_thumb_geometry_from_stored_scalars() {
    // track 100 wide, ratio 90/130, scrolled half way
    let g = ElementRenderer::scrollbar_thumb_geometry(
        Position { x: 10, y: 5 },
        Size { width: 100, height: 8 },
        Frac { num: 1, den: 2 },
        Frac { num: 90, den: 130 },
    );
    assert_eq!(g.size.width, 69); // 100 * 90 / 130, truncated
    assert_eq!(g.size.height, 6); // four fifths of the 8 px track, truncated
    assert_eq!(g.position.x, 10 + (100 - 69) / 2);
    assert_eq!(g.position.y, 5);
}

#[test]
fn paint_skips_non_positive_extents() {
    assert!(!ElementRenderer::should_paint(&Size { width: 0, height: 10 }));
    assert!(!ElementRenderer::should_paint(&Size { width: 10, height: -1 }));
    assert!(ElementRenderer::should_paint(&Size { width: 1, height: 1 }));
}

#[test]
fn app_states_hold_their_messages() {
    let s = AppComponentState::new();
    assert_eq!(s.content, "Hello, App Component!");
    let g = AppGlobalState::new(String::from("Hello, layout user!"));
    assert_eq!(g.message, "Hello, layout user!");
}
