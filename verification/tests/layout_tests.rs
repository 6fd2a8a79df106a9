use boxflow::allocate::allocate_space_to_children_row_flex;
use boxflow::element::{Container, Element};
use boxflow::estimate::estimate_elem;
use boxflow::geometry::{estimate_effective_size, Frac, OptionalSize, Position, Size};
use boxflow::id_generator::IdGenerator;
use boxflow::styles::{Dimension, Overflow, Padding, SizingPolicy, Spacing, Styles, Unit};

fn px(v: i64) -> Dimension {
    Dimension { value: v, unit: Unit::Px }
}

fn pad_all(v: i64) -> Padding {
    Padding { top: px(v), right: px(v), bottom: px(v), left: px(v) }
}

fn leaf(ids: &mut IdGenerator, width: i64, height: i64) -> Element {
    let mut c = Container::new(ids);
    let mut styles = Styles::default();
    styles.sizing_policy = Some(SizingPolicy {
        width: Some(px(width)),
        height: Some(px(height)),
        min_width: None,
        max_width: None,
        min_height: None,
        max_height: None,
    });
    c.set_styles(styles);
    Element::Container(c)
}

fn row(
    ids: &mut IdGenerator,
    children: Vec<Element>,
    padding: i64,
    spacing_x: i64,
    overflow: Option<Overflow>,
) -> Container {
    let mut c = Container::new(ids);
    let mut styles = Styles::default();
    styles.padding = Some(pad_all(padding));
    styles.spacing = Some(Spacing { spacing_x: px(spacing_x), spacing_y: px(0) });
    styles.overflow = overflow;
    c.set_styles(styles);
    c.add_children(children);
    c
}

fn effective_width(e: &Element) -> i64 {
    e.get_effective_size().width
}

#[test]
fn effective_size_prefers_requested() {
    let natural = Size { width: 40, height: 25 };
    let requested = OptionalSize { width: Some(70), height: None };
    let eff = estimate_effective_size(&requested, &natural);
    assert_eq!(eff.width, 70);
    assert_eq!(eff.height, 25);
}

#[test]
fn natural_size_aggregation_row() {
    // children with effective widths 50 and 60, zero margins,
    // spacing 10 and padding 5 on every side
    let mut ids = IdGenerator::new();
    let kids = vec![leaf(&mut ids, 50, 20), leaf(&mut ids, 60, 30)];
    let container = row(&mut ids, kids, 5, 10, None);
    let estimated = estimate_elem(Element::Container(container));
    let natural = estimated.get_natural_size();
    assert_eq!(natural.width, 5 + 50 + 10 + 60 + 5);
    assert_eq!(natural.height, 30 + 5 + 5);
    match &estimated {
        Element::Container(c) => {
            assert_eq!(effective_width(&c.children[0]), 50);
            assert_eq!(effective_width(&c.children[1]), 60);
        }
        _ => panic!("expected a container"),
    }
}

#[test]
fn overflow_trigger_sets_ratio_and_flag() {
    // requested width 130 (5 + (10+50) + (10+60) - 5 pad arithmetic below),
    // allocated width 100, Auto overflow
    let mut ids = IdGenerator::new();
    let kids = vec![leaf(&mut ids, 50, 20), leaf(&mut ids, 60, 30)];
    let container = row(&mut ids, kids, 5, 5, Some(Overflow::Auto));
    let estimated = estimate_elem(Element::Container(container));
    let mut c = match estimated {
        Element::Container(c) => c,
        _ => panic!("expected a container"),
    };
    // requested children width: 10 pad + (5 + 50) + (5 + 60) = 130
    let reqw = boxflow::allocate::precompute_requested_children_width(&c);
    assert_eq!(reqw, 130);
    allocate_space_to_children_row_flex(
        &mut c,
        Position { x: 0, y: 0 },
        Size { width: 100, height: 60 },
    );
    assert!(c.scrollbar_state.is_overflowing.horizontal);
    assert!(!c.scrollbar_state.is_overflowing.vertical);
    // thumb ratio = (100 - 10) / 130
    assert_eq!(c.scrollbar_state.thumb_scrollbar_width_ratio, Frac { num: 90, den: 130 });
}

#[test]
fn no_overflow_when_content_fits() {
    let mut ids = IdGenerator::new();
    let kids = vec![leaf(&mut ids, 20, 10)];
    let container = row(&mut ids, kids, 0, 0, Some(Overflow::Auto));
    let estimated = estimate_elem(Element::Container(container));
    let mut c = match estimated {
        Element::Container(c) => c,
        _ => panic!("expected a container"),
    };
    allocate_space_to_children_row_flex(
        &mut c,
        Position { x: 0, y: 0 },
        Size { width: 100, height: 50 },
    );
    assert!(!c.scrollbar_state.is_overflowing.horizontal);
    assert_eq!(c.scrollbar_state.thumb_scrollbar_width_ratio, Frac { num: 1, den: 1 });
}

#[test]
fn scroll_offset_bounds() {
    // requested width 130, allocated 100; no padding, spacing or margins
    for (num, expected_first_x) in [(0i64, 0i64), (1i64, -30i64)] {
        let mut ids = IdGenerator::new();
        let kids = vec![leaf(&mut ids, 80, 10), leaf(&mut ids, 50, 10)];
        let mut container = row(&mut ids, kids, 0, 0, Some(Overflow::Auto));
        container.scrollbar_state.current_scroll_position.x = Frac { num, den: 1 };
        let estimated = estimate_elem(Element::Container(container));
        let mut c = match estimated {
            Element::Container(c) => c,
            _ => panic!("expected a container"),
        };
        allocate_space_to_children_row_flex(
            &mut c,
            Position { x: 0, y: 0 },
            Size { width: 100, height: 50 },
        );
        assert_eq!(c.children[0].get_position().x, expected_first_x);
    }
}

#[test]
fn layout_is_idempotent_on_unchanged_tree() {
    let mut ids = IdGenerator::new();
    let kids = vec![leaf(&mut ids, 50, 20), leaf(&mut ids, 60, 30)];
    let container = row(&mut ids, kids, 5, 10, Some(Overflow::Auto));
    let mut tree = Element::Container(container);
    tree.layout(Position { x: 7, y: 9 }, Size { width: 100, height: 60 });
    let first_pos: Vec<Position> = match &tree {
        Element::Container(c) => c.children.iter().map(|e| e.get_position()).collect(),
        _ => panic!("expected a container"),
    };
    let first_size = tree.get_size();
    let first_natural = tree.get_natural_size();
    tree.layout(Position { x: 7, y: 9 }, Size { width: 100, height: 60 });
    let second_pos: Vec<Position> = match &tree {
        Element::Container(c) => c.children.iter().map(|e| e.get_position()).collect(),
        _ => panic!("expected a container"),
    };
    assert_eq!(first_pos, second_pos);
    assert_eq!(tree.get_size(), first_size);
    assert_eq!(tree.get_natural_size(), first_natural);
}
