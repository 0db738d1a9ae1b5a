use vstd::prelude::*;

verus! {

/// One of the two split axes.
#[derive(Clone, Copy, Debug, PartialEq, Eq, Structural)]
pub enum Axis {
    /// The split between the side panel and the tab content.
    Horizontal,
    /// The split between the menu bar and the body.
    Vertical,
}

/// Where the side-panel divider starts, from the left edge.
pub const INITIAL_HORIZONTAL_OFFSET: u16 = 200;

/// Divider offsets and region order. An offset of `None` stands for the
/// even default split; offsets are stored as dragged, without clamping.
#[derive(Clone, Copy, Debug, PartialEq, Eq, Structural)]
pub struct Layout {
    pub horizontal: Option<u16>,
    pub vertical: Option<u16>,
    /// The size picker and the menu bar swap places in the top bar.
    pub flip_h: bool,
    /// The top bar is drawn below the body.
    pub flip_v: bool,
}

/// The layout at start: the side panel at its initial width, the body split
/// evenly, nothing flipped.
pub open spec fn initial_layout() -> Layout {
    Layout { horizontal: Some(INITIAL_HORIZONTAL_OFFSET), vertical: None, flip_h: false, flip_v: false }
}

pub open spec fn offset_spec(layout: Layout, axis: Axis) -> Option<u16> {
    match axis {
        Axis::Horizontal => layout.horizontal,
        Axis::Vertical => layout.vertical,
    }
}

/// The layout after the divider of `axis` is dragged to `offset`.
pub open spec fn dragged(layout: Layout, axis: Axis, offset: u16) -> Layout {
    match axis {
        Axis::Horizontal => Layout { horizontal: Some(offset), ..layout },
        Axis::Vertical => Layout { vertical: Some(offset), ..layout },
    }
}

impl Layout {
    pub fn new() -> (r: Self)
        ensures
            r == initial_layout(),
    {
        Layout {
            horizontal: Some(INITIAL_HORIZONTAL_OFFSET),
            vertical: None,
            flip_h: false,
            flip_v: false,
        }
    }

    /// Stores the offset a divider was dragged to.
    pub fn on_drag(&mut self, axis: Axis, offset: u16)
        ensures
            *final(self) == dragged(*old(self), axis, offset),
    {
        match axis {
            Axis::Horizontal => self.horizontal = Some(offset),
            Axis::Vertical => self.vertical = Some(offset),
        }
    }

    /// The stored offset of a divider, or `None` for the even split.
    pub fn divider_position(&self, axis: Axis) -> (r: Option<u16>)
        ensures
            r == offset_spec(*self, axis),
    {
        match axis {
            Axis::Horizontal => self.horizontal,
            Axis::Vertical => self.vertical,
        }
    }

    pub fn flip_horizontal(&mut self)
        ensures
            *final(self) == (Layout { flip_h: !old(self).flip_h, ..*old(self) }),
    {
        self.flip_h = !self.flip_h;
    }

    pub fn flip_vertical(&mut self)
        ensures
            *final(self) == (Layout { flip_v: !old(self).flip_v, ..*old(self) }),
    {
        self.flip_v = !self.flip_v;
    }
}

/// Dragging one divider never moves the other: after a drag on each axis,
/// each holds the offset it was dragged to.
pub proof fn lemma_axes_independent(layout: Layout, first: Axis, a: u16, second: Axis, b: u16)
    requires
        first != second,
    ensures
        offset_spec(dragged(dragged(layout, first, a), second, b), first) == Some(a),
        offset_spec(dragged(dragged(layout, first, a), second, b), second) == Some(b),
{
}

/// Flipping either region order leaves both divider offsets as they were.
pub proof fn lemma_flip_keeps_offsets(layout: Layout)
    ensures
        (Layout { flip_h: !layout.flip_h, ..layout }).horizontal == layout.horizontal,
        (Layout { flip_h: !layout.flip_h, ..layout }).vertical == layout.vertical,
        (Layout { flip_v: !layout.flip_v, ..layout }).horizontal == layout.horizontal,
        (Layout { flip_v: !layout.flip_v, ..layout }).vertical == layout.vertical,
{
}

} // verus!
