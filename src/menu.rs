use vstd::prelude::*;

verus! {

/// Which pointer events collapse every open submenu.
#[derive(Clone, Copy, Debug)]
pub struct CloseCondition {
    /// The pointer leaves the menu bar and its panels.
    pub leave: bool,
    /// A click lands outside the whole menu bar.
    pub click_outside: bool,
    /// A click lands inside the menu bar but on no item.
    pub click_inside: bool,
}

/// One entry of the menu tree: a leaf action, or a submenu with its entries
/// in display order. A submenu may have no entries.
#[derive(Debug)]
pub enum MenuNode {
    Leaf { label: String },
    Submenu { label: String, children: Vec<MenuNode> },
}

/// A pointer event that the menu bar reacts to.
#[derive(Clone, Copy, Debug)]
pub enum MenuEvent {
    /// The pointer enters the entry at `index` of the panel at `depth`
    /// (depth 0 is the bar itself).
    HoverEnter { depth: usize, index: usize },
    /// An entry is clicked; its action fires wherever the path goes.
    ItemClick,
    PointerLeave,
    ClickOutside,
    /// A click lands inside the menu bar but on no entry.
    ClickInside,
}

/// The entries of the panel that the indices of `path` open, one level per
/// index, or `None` where an index is past its panel's end or names a leaf.
pub open spec fn panel_at(roots: Seq<MenuNode>, path: Seq<usize>) -> Option<Seq<MenuNode>>
    decreases path.len(),
{
    if path.len() == 0 {
        Some(roots)
    } else {
        match panel_at(roots, path.drop_last()) {
            Some(level) => if path.last() < level.len() {
                match level[path.last() as int] {
                    MenuNode::Submenu { children, .. } => Some(children@),
                    MenuNode::Leaf { .. } => None,
                }
            } else {
                None
            },
            None => None,
        }
    }
}

/// The open path after the pointer enters entry `index` of the panel at
/// `depth`. The segments above `depth` stay; a submenu entry becomes the
/// deepest segment, and a leaf closes everything below `depth`. An entry that
/// is not shown (a depth below the open panels, an index past the panel's
/// end) is stale and changes nothing.
pub open spec fn hovered(roots: Seq<MenuNode>, path: Seq<usize>, depth: int, index: usize) -> Seq<usize> {
    if 0 <= depth <= path.len() {
        match panel_at(roots, path.take(depth)) {
            Some(level) => if index < level.len() {
                if level[index as int] is Submenu {
                    path.take(depth).push(index)
                } else {
                    path.take(depth)
                }
            } else {
                path
            },
            None => path,
        }
    } else {
        path
    }
}

/// Whether an event collapses the whole path under a close condition. A click
/// on an entry counts as a click inside the menu bar.
pub open spec fn collapses(cond: CloseCondition, event: MenuEvent) -> bool {
    match event {
        MenuEvent::HoverEnter { .. } => false,
        MenuEvent::ItemClick => cond.click_inside,
        MenuEvent::PointerLeave => cond.leave,
        MenuEvent::ClickOutside => cond.click_outside,
        MenuEvent::ClickInside => cond.click_inside,
    }
}

/// The open path after an event.
pub open spec fn path_after(roots: Seq<MenuNode>, path: Seq<usize>, cond: CloseCondition, event: MenuEvent) -> Seq<usize> {
    match event {
        MenuEvent::HoverEnter { depth, index } => hovered(roots, path, depth as int, index),
        _ => if collapses(cond, event) {
            Seq::empty()
        } else {
            path
        },
    }
}

/// The open path after the pointer enters, one panel deeper each time, the
/// entries of `chain`, starting at `depth`.
pub open spec fn hover_chain(roots: Seq<MenuNode>, path: Seq<usize>, depth: int, chain: Seq<usize>) -> Seq<usize>
    decreases chain.len(),
{
    if chain.len() == 0 {
        path
    } else {
        hover_chain(roots, hovered(roots, path, depth, chain[0]), depth + 1, chain.drop_first())
    }
}

/// The chain of submenu indices that is expanded, from the bar down.
pub struct OpenPath {
    indices: Vec<usize>,
}

impl View for OpenPath {
    type V = Seq<usize>;

    closed spec fn view(&self) -> Seq<usize> {
        self.indices@
    }
}

/// The entries of the panel that the first `depth` indices of `path` open.
fn panel_of<'a>(roots: &'a Vec<MenuNode>, path: &Vec<usize>, depth: usize) -> (r: Option<&'a Vec<MenuNode>>)
    requires
        depth <= path@.len(),
    ensures
        match panel_at(roots@, path@.take(depth as int)) {
            Some(level) => r is Some && r.unwrap()@ == level,
            None => r is None,
        },
{
    let mut level: &Vec<MenuNode> = roots;
    let mut k: usize = 0;
    assert(path@.take(0) =~= Seq::<usize>::empty());
    while k < depth
        invariant
            k <= depth <= path@.len(),
            panel_at(roots@, path@.take(k as int)) == Some(level@),
        decreases depth - k,
    {
        let i = path[k];
        assert(path@.take(k as int + 1).drop_last() =~= path@.take(k as int));
        if i >= level.len() {
            proof {
                lemma_closed_panel_stays_closed(roots@, path@, k as int + 1, depth as int);
            }
            return None;
        }
        match &level[i] {
            MenuNode::Submenu { children, .. } => {
                level = children;
            },
            MenuNode::Leaf { .. } => {
                proof {
                    lemma_closed_panel_stays_closed(roots@, path@, k as int + 1, depth as int);
                }
                return None;
            },
        }
        k += 1;
    }
    Some(level)
}

/// Below an index that opens no panel, no longer prefix opens one either.
proof fn lemma_closed_panel_stays_closed(roots: Seq<MenuNode>, path: Seq<usize>, k: int, depth: int)
    requires
        0 < k <= depth <= path.len(),
        panel_at(roots, path.take(k)) is None,
    ensures
        panel_at(roots, path.take(depth)) is None,
    decreases depth - k,
{
    if k < depth {
        assert(path.take(k + 1).drop_last() =~= path.take(k));
        lemma_closed_panel_stays_closed(roots, path, k + 1, depth);
    }
}

impl OpenPath {
    /// A path with every menu closed.
    pub fn new() -> (r: Self)
        ensures
            r@ == Seq::<usize>::empty(),
    {
        OpenPath { indices: Vec::new() }
    }

    pub fn indices(&self) -> (r: &Vec<usize>)
        ensures
            r@ == self@,
    {
        &self.indices
    }

    /// The pointer enters entry `index` of the panel at `depth` of the menu
    /// tree whose top-level entries are `roots`.
    pub fn hover_enter(&mut self, roots: &Vec<MenuNode>, depth: usize, index: usize)
        ensures
            final(self)@ == hovered(roots@, old(self)@, depth as int, index),
    {
        if depth <= self.indices.len() {
            match panel_of(roots, &self.indices, depth) {
                Some(level) => {
                    if index < level.len() {
                        let opens = match &level[index] {
                            MenuNode::Submenu { .. } => true,
                            MenuNode::Leaf { .. } => false,
                        };
                        self.indices.truncate(depth);
                        if opens {
                            self.indices.push(index);
                        }
                    }
                },
                None => {},
            }
        }
    }

    /// Closes every submenu.
    pub fn close(&mut self)
        ensures
            final(self)@ == Seq::<usize>::empty(),
    {
        self.indices.clear();
    }

    /// Reacts to one pointer event under the given close condition.
    pub fn handle_event(&mut self, roots: &Vec<MenuNode>, cond: CloseCondition, event: MenuEvent)
        ensures
            final(self)@ == path_after(roots@, old(self)@, cond, event),
    {
        match event {
            MenuEvent::HoverEnter { depth, index } => self.hover_enter(roots, depth, index),
            MenuEvent::ItemClick => if cond.click_inside {
                self.close();
            },
            MenuEvent::PointerLeave => if cond.leave {
                self.close();
            },
            MenuEvent::ClickOutside => if cond.click_outside {
                self.close();
            },
            MenuEvent::ClickInside => if cond.click_inside {
                self.close();
            },
        }
    }
}

/// Entering, one panel deeper each time, the entries of a chain in which each
/// entry is a submenu of the panel the previous one opened, from a depth whose
/// panel is open, leaves the path above that depth followed by exactly the
/// chain.
pub proof fn lemma_hover_chain(roots: Seq<MenuNode>, path: Seq<usize>, depth: int, chain: Seq<usize>)
    requires
        0 <= depth <= path.len(),
        forall|k: int| 0 <= k <= chain.len() ==> (#[trigger] panel_at(roots, path.take(depth) + chain.take(k))) is Some,
    ensures
        hover_chain(roots, path, depth, chain) == (if chain.len() == 0 {
            path
        } else {
            path.take(depth) + chain
        }),
    decreases chain.len(),
{
    if chain.len() > 0 {
        let base = path.take(depth);
        assert(base + chain.take(0) =~= base);
        assert(panel_at(roots, base + chain.take(0)) is Some);
        let one = base + chain.take(1);
        assert(one =~= base.push(chain[0]));
        assert(panel_at(roots, one) is Some);
        assert(one.drop_last() =~= base);
        let next = hovered(roots, path, depth, chain[0]);
        assert(next == base.push(chain[0]));
        assert(next.len() == depth + 1);
        assert(hover_chain(roots, path, depth, chain) == hover_chain(roots, next, depth + 1, chain.drop_first()));
        let rest = chain.drop_first();
        assert(next.take(depth + 1) =~= next);
        assert forall|k: int| 0 <= k <= rest.len() implies (#[trigger] panel_at(roots, next.take(depth + 1) + rest.take(k))) is Some by {
            assert(next.take(depth + 1) + rest.take(k) =~= base + chain.take(k + 1));
            assert(panel_at(roots, base + chain.take(k + 1)) is Some);
        }
        lemma_hover_chain(roots, next, depth + 1, rest);
        assert(next + rest =~= base + chain);
    }
}

/// From a closed menu bar, entering the entries of a strictly deepening chain
/// of submenus opens exactly that chain.
pub proof fn lemma_deepening_chain_opens_it(roots: Seq<MenuNode>, chain: Seq<usize>)
    requires
        forall|k: int| 0 <= k <= chain.len() ==> (#[trigger] panel_at(roots, chain.take(k))) is Some,
    ensures
        hover_chain(roots, Seq::empty(), 0, chain) == chain,
{
    let empty = Seq::<usize>::empty();
    assert forall|k: int| 0 <= k <= chain.len() implies (#[trigger] panel_at(roots, empty.take(0) + chain.take(k))) is Some by {
        assert(empty.take(0) + chain.take(k) =~= chain.take(k));
    }
    lemma_hover_chain(roots, empty, 0, chain);
    if chain.len() == 0 {
        assert(chain =~= empty);
    } else {
        assert(empty.take(0) + chain =~= chain);
    }
}

/// Entering an entry of a panel that is open, at a depth where a deeper panel
/// is open too, replaces the path from that depth on: the segments above stay,
/// the entry becomes the deepest segment when it is a submenu, and nothing is
/// appended.
pub proof fn lemma_sibling_replaces(roots: Seq<MenuNode>, path: Seq<usize>, depth: int, index: usize)
    requires
        0 <= depth < path.len(),
        panel_at(roots, path.take(depth)) is Some,
        index < panel_at(roots, path.take(depth)).unwrap().len(),
    ensures
        hovered(roots, path, depth, index).take(depth) == path.take(depth),
        hovered(roots, path, depth, index).len() <= depth + 1,
        hovered(roots, path, depth, index).len() <= path.len(),
        panel_at(roots, path.take(depth)).unwrap()[index as int] is Submenu ==> hovered(roots, path, depth, index).len() == depth + 1
            && hovered(roots, path, depth, index)[depth] == index,
{
    assert(path.take(depth).push(index).take(depth) =~= path.take(depth));
    assert(path.take(depth).take(depth) =~= path.take(depth));
}

/// Whether every top-level entry shares one box size or may declare its own.
#[derive(Clone, Copy, Debug, PartialEq, Eq, Structural)]
pub enum SizeOption {
    Uniform,
    Static,
}

/// A sizing policy with its default box.
#[derive(Clone, Copy, Debug, PartialEq, Eq, Structural)]
pub enum SizingPolicy {
    /// Every entry gets this box, whatever it declares.
    Uniform { width: u16, height: u16 },
    /// An entry gets the box it declares, and this one where it declares none.
    Static { width: u16, height: u16 },
}

/// The default width of a menu entry.
pub const ITEM_WIDTH: u16 = 180;

/// The default height of a menu entry.
pub const ITEM_HEIGHT: u16 = 25;

/// How far an open panel's hover region reaches beyond its entries.
pub const BOUNDS_EXPAND: u16 = 30;

pub open spec fn policy_spec(option: SizeOption) -> SizingPolicy {
    match option {
        SizeOption::Uniform => SizingPolicy::Uniform { width: ITEM_WIDTH, height: ITEM_HEIGHT },
        SizeOption::Static => SizingPolicy::Static { width: ITEM_WIDTH, height: ITEM_HEIGHT },
    }
}

/// The box of one entry that declares `declared` (width, height) for itself,
/// where it declares anything.
pub open spec fn item_box_spec(policy: SizingPolicy, declared_width: Option<u16>, declared_height: Option<u16>) -> (u16, u16) {
    match policy {
        SizingPolicy::Uniform { width, height } => (width, height),
        SizingPolicy::Static { width, height } => (
            match declared_width {
                Some(w) => w,
                None => width,
            },
            match declared_height {
                Some(h) => h,
                None => height,
            },
        ),
    }
}

pub open spec fn size_label_spec(option: SizeOption) -> Seq<char> {
    match option {
        SizeOption::Uniform => seq!['U', 'n', 'i', 'f', 'o', 'r', 'm'],
        SizeOption::Static => seq!['S', 't', 'a', 't', 'i', 'c'],
    }
}

impl SizeOption {
    /// The policy the menu bar is drawn with under this option.
    pub fn policy(self) -> (r: SizingPolicy)
        ensures
            r == policy_spec(self),
    {
        match self {
            SizeOption::Uniform => SizingPolicy::Uniform { width: ITEM_WIDTH, height: ITEM_HEIGHT },
            SizeOption::Static => SizingPolicy::Static { width: ITEM_WIDTH, height: ITEM_HEIGHT },
        }
    }

    /// The option's name, as the picker shows it.
    pub fn label(self) -> (r: String)
        ensures
            r@ == size_label_spec(self),
    {
        proof {
            reveal_strlit("Uniform");
            reveal_strlit("Static");
        }
        match self {
            SizeOption::Uniform => String::from_str("Uniform"),
            SizeOption::Static => String::from_str("Static"),
        }
    }
}

/// The box (width, height) of one entry under a policy.
pub fn item_box(policy: SizingPolicy, declared_width: Option<u16>, declared_height: Option<u16>) -> (r: (u16, u16))
    ensures
        r == item_box_spec(policy, declared_width, declared_height),
{
    match policy {
        SizingPolicy::Uniform { width, height } => (width, height),
        SizingPolicy::Static { width, height } => {
            let w = match declared_width {
                Some(w) => w,
                None => width,
            };
            let h = match declared_height {
                Some(h) => h,
                None => height,
            };
            (w, h)
        },
    }
}

/// The two policies differ in the boxes they give: an entry that declares a
/// width other than the default keeps it under the static policy only.
pub proof fn lemma_policies_differ_in_boxes(w: u16, h: Option<u16>)
    requires
        w != ITEM_WIDTH,
    ensures
        item_box_spec(policy_spec(SizeOption::Uniform), Some(w), h).0 == ITEM_WIDTH,
        item_box_spec(policy_spec(SizeOption::Static), Some(w), h).0 == w,
        item_box_spec(policy_spec(SizeOption::Uniform), Some(w), h) != item_box_spec(policy_spec(SizeOption::Static), Some(w), h),
{
}

/// The width of a row of `count` equal controls, `spacing` apart.
pub fn row_width(count: u16, control_width: u16, spacing: u16) -> (r: u64)
    requires
        count >= 1,
    ensures
        r == count * control_width + (count - 1) * spacing,
{
    assert(count as u64 * control_width as u64 <= 0xffff * 0xffff) by (nonlinear_arith)
        requires count <= 0xffff, control_width <= 0xffff;
    assert((count as u64 - 1) * spacing as u64 <= 0xffff * 0xffff) by (nonlinear_arith)
        requires count - 1 <= 0xffff, spacing <= 0xffff;
    count as u64 * control_width as u64 + (count as u64 - 1) * spacing as u64
}

pub open spec fn max_of(s: Seq<u16>) -> nat
    decreases s.len(),
{
    if s.len() == 0 {
        0
    } else {
        let rest = max_of(s.drop_last());
        if s.last() as nat > rest { s.last() as nat } else { rest }
    }
}

/// The extent of an open panel along one axis: its largest child plus the
/// margin that keeps the pointer from leaving it at the edge.
pub fn panel_extent(children: &Vec<u16>, margin: u16) -> (r: u32)
    ensures
        r == max_of(children@) + margin,
{
    let mut widest: u16 = 0;
    let mut i: usize = 0;
    while i < children.len()
        invariant
            i <= children@.len(),
            widest == max_of(children@.take(i as int)),
        decreases children@.len() - i,
    {
        assert(children@.take(i as int + 1).drop_last() =~= children@.take(i as int));
        if children[i] > widest {
            widest = children[i];
        }
        i += 1;
    }
    assert(children@.take(i as int) =~= children@);
    widest as u32 + margin as u32
}

} // verus!
