use menu_shell::menu::{item_box, panel_extent, row_width, CloseCondition, MenuEvent, MenuNode, OpenPath, SizeOption, SizingPolicy, BOUNDS_EXPAND};

fn leaf(label: &str) -> MenuNode {
    MenuNode::Leaf { label: label.to_string() }
}

fn submenu(label: &str, children: Vec<MenuNode>) -> MenuNode {
    MenuNode::Submenu { label: label.to_string(), children }
}

/// A: [a0, A1: [a10, A11: []]], B, C: [c0, c1]
fn tree() -> Vec<MenuNode> {
    vec![
        submenu("A", vec![leaf("a0"), submenu("A1", vec![leaf("a10"), submenu("A11", vec![])])]),
        leaf("B"),
        submenu("C", vec![leaf("c0"), leaf("c1")]),
    ]
}

#[test]
fn deepening_chain_opens_exactly_that_chain() {
    let roots = tree();
    let chain = [0usize, 1, 1];
    let mut path = OpenPath::new();
    for (depth, index) in chain.iter().enumerate() {
        path.hover_enter(&roots, depth, *index);
    }
    assert_eq!(path.indices().as_slice(), &chain);
}

#[test]
fn sibling_replaces_segment_and_drops_deeper() {
    let roots = tree();
    let mut path = OpenPath::new();
    path.hover_enter(&roots, 0, 0);
    path.hover_enter(&roots, 1, 1);
    path.hover_enter(&roots, 2, 1);
    path.hover_enter(&roots, 0, 2);
    assert_eq!(path.indices().as_slice(), &[2]);
}

#[test]
fn hovering_a_leaf_closes_below_it() {
    let roots = tree();
    let mut path = OpenPath::new();
    path.hover_enter(&roots, 0, 0);
    path.hover_enter(&roots, 1, 1);
    path.hover_enter(&roots, 1, 0);
    assert_eq!(path.indices().as_slice(), &[0]);
    path.hover_enter(&roots, 0, 1);
    assert!(path.indices().is_empty());
}

#[test]
fn stale_entries_are_ignored() {
    let roots = tree();
    let mut path = OpenPath::new();
    path.hover_enter(&roots, 0, 2);
    path.hover_enter(&roots, 5, 1);
    assert_eq!(path.indices().as_slice(), &[2]);
    path.hover_enter(&roots, 1, 9);
    assert_eq!(path.indices().as_slice(), &[2]);
    path.hover_enter(&roots, 0, 3);
    assert_eq!(path.indices().as_slice(), &[2]);
}

#[test]
fn empty_submenu_opens() {
    let roots = vec![submenu("Empty", vec![])];
    let mut path = OpenPath::new();
    path.hover_enter(&roots, 0, 0);
    assert_eq!(path.indices().as_slice(), &[0]);
    path.hover_enter(&roots, 1, 0);
    assert_eq!(path.indices().as_slice(), &[0]);
}

#[test]
fn close_conditions_act_independently() {
    let roots = tree();
    let cond = CloseCondition { leave: true, click_outside: false, click_inside: false };
    let mut path = OpenPath::new();
    path.hover_enter(&roots, 0, 0);
    path.handle_event(&roots, cond, MenuEvent::ClickOutside);
    path.handle_event(&roots, cond, MenuEvent::ClickInside);
    path.handle_event(&roots, cond, MenuEvent::ItemClick);
    assert_eq!(path.indices().as_slice(), &[0]);
    path.handle_event(&roots, cond, MenuEvent::PointerLeave);
    assert!(path.indices().is_empty());

    let cond = CloseCondition { leave: false, click_outside: true, click_inside: true };
    path.handle_event(&roots, cond, MenuEvent::HoverEnter { depth: 0, index: 2 });
    path.handle_event(&roots, cond, MenuEvent::PointerLeave);
    assert_eq!(path.indices().as_slice(), &[2]);
    path.handle_event(&roots, cond, MenuEvent::ClickInside);
    assert!(path.indices().is_empty());
    path.handle_event(&roots, cond, MenuEvent::HoverEnter { depth: 0, index: 0 });
    path.handle_event(&roots, cond, MenuEvent::ItemClick);
    assert!(path.indices().is_empty());
}

#[test]
fn uniform_ignores_declared_sizes() {
    let uniform = SizeOption::Uniform.policy();
    assert_eq!(uniform, SizingPolicy::Uniform { width: 180, height: 25 });
    assert_eq!(item_box(uniform, Some(110), Some(100)), (180, 25));
}

#[test]
fn static_uses_declared_sizes() {
    let fixed = SizeOption::Static.policy();
    assert_eq!(item_box(fixed, Some(110), None), (110, 25));
    assert_eq!(item_box(fixed, None, Some(100)), (180, 100));
    assert_eq!(item_box(fixed, None, None), (180, 25));
}

#[test]
fn option_labels() {
    assert_eq!(SizeOption::Uniform.label(), "Uniform");
    assert_eq!(SizeOption::Static.label(), "Static");
}

#[test]
fn slider_row_width() {
    assert_eq!(row_width(3, 30, 4), 98);
    assert_eq!(row_width(1, 30, 4), 30);
    assert_eq!(row_width(u16::MAX, u16::MAX, u16::MAX), 65535u64 * 65535 + 65534 * 65535);
}

#[test]
fn panel_extent_adds_overscan() {
    assert_eq!(panel_extent(&vec![120, 180, 90], BOUNDS_EXPAND), 210);
    assert_eq!(panel_extent(&vec![], 30), 30);
}
