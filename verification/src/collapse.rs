//! Pages close up where rows are hidden, and make room for them again.
use vstd::prelude::*;

#[allow(unused_imports)]
use crate::geometry;
use crate::geometry::Rect;

verus! {

/// A child of a page that has rows which can be hidden, other than these rows.
#[derive(Clone, Copy, Debug, PartialEq, Eq, Structural)]
pub struct Neighbour {
    pub view: usize,
    pub frame: Rect,
    /// A card or its shadow, which can hold rows.
    pub surface: bool,
}

/// A neighbour that has moved up.
pub open spec fn raised(child: Neighbour, by: int) -> Neighbour {
    Neighbour { frame: Rect { y: (child.frame.y + by) as i64, ..child.frame }, ..child }
}

/// A neighbour whose lower edge has moved up while the upper one has stayed.
pub open spec fn shortened(child: Neighbour, by: int) -> Neighbour {
    Neighbour {
        frame: Rect {
            y: (child.frame.y + by) as i64,
            h: (child.frame.h - by) as i64,
            ..child.frame
        },
        ..child
    }
}

/// A neighbour once the rows that took the `height` below `top` are hidden: the card that
/// holds them ends higher, and everything below them moves up.
pub open spec fn closed_up(child: Neighbour, top: int, height: int) -> Neighbour {
    if child.surface && child.frame.y <= top - height && child.frame.top() > top {
        shortened(child, height)
    } else if child.frame.top() <= top - height {
        raised(child, height)
    } else {
        child
    }
}

/// A neighbour once these rows are shown again.
pub open spec fn spread(child: Neighbour, top: int, height: int) -> Neighbour {
    if child.surface && child.frame.y <= top && child.frame.top() > top {
        shortened(child, -height)
    } else if child.frame.top() <= top {
        raised(child, -height)
    } else {
        child
    }
}

/// Whether a neighbour is above the rows, below them, or a card that holds them.
pub open spec fn apart(child: Neighbour, top: int, height: int) -> bool {
    ||| if child.surface { child.frame.y > top } else { child.frame.top() > top }
    ||| child.frame.top() <= top - height
    ||| child.surface && child.frame.y <= top - height && child.frame.top() > top
}

/// The neighbours of rows that take the `height` below `top`, once the rows are hidden or
/// shown.
pub fn set_rows_visible(children: &Vec<Neighbour>, top: i64, height: i64, visible: bool) -> (r: Vec<
    Neighbour,
>)
    requires
        forall|i: int| 0 <= i < children@.len() ==> (#[trigger] children@[i]).frame.valid(),
        geometry::near(top as int),
        0 <= height <= geometry::LIMIT,
    ensures
        r@ == children@.map_values(
            |c: Neighbour|
                if visible {
                    spread(c, top as int, height as int)
                } else {
                    closed_up(c, top as int, height as int)
                },
        ),
{
    let mut moved: Vec<Neighbour> = Vec::new();
    let mut i: usize = 0;
    while i < children.len()
        invariant
            forall|k: int| 0 <= k < children@.len() ==> (#[trigger] children@[k]).frame.valid(),
            geometry::near(top as int),
            0 <= height <= geometry::LIMIT,
            i <= children@.len(),
            moved@.len() == i,
            forall|k: int|
                0 <= k < i ==> #[trigger] moved@[k] == if visible {
                    spread(children@[k], top as int, height as int)
                } else {
                    closed_up(children@[k], top as int, height as int)
                },
        decreases children@.len() - i,
    {
        assert(children@[i as int].frame.valid());
        let child = children[i];
        let f = child.frame;
        let rows_end = if visible { top } else { top - height };
        let by = if visible { -height } else { height };
        let frame = if child.surface && f.y <= rows_end && f.y + f.h > top {
            Rect::new(f.x, f.y + by, f.w, f.h - by)
        } else if f.y + f.h <= rows_end {
            Rect::new(f.x, f.y + by, f.w, f.h)
        } else {
            f
        };
        moved.push(Neighbour { view: child.view, frame, surface: child.surface });
        i += 1;
    }
    moved
}

/// Showing rows again undoes what hiding them did to a neighbour.
pub proof fn showing_undoes_hiding(child: Neighbour, top: int, height: int)
    requires
        child.frame.valid(),
        child.frame.h >= 0,
        geometry::near(top),
        0 <= height <= geometry::LIMIT,
        apart(child, top, height),
    ensures
        spread(closed_up(child, top, height), top, height) == child,
{
}

/// Hiding rows closes the gap that they leave: what began at their lower edge begins at
/// their upper one, and what was above them stays.
pub proof fn hiding_leaves_no_gap(child: Neighbour, top: int, height: int)
    requires
        child.frame.valid(),
        child.frame.h >= 0,
        geometry::near(top),
        0 <= height <= geometry::LIMIT,
    ensures
        child.frame.top() == top - height ==> closed_up(child, top, height).frame.top() == top,
        child.frame.y > top ==> closed_up(child, top, height) == child,
{
}

/// What a hidden row takes with it: a card that holds the row keeps its upper edge and loses
/// the height of the row; what is below moves up by it and keeps its size. Nothing moves
/// sideways, and nothing else changes.
pub proof fn cards_shrink_and_the_rest_moves_up(child: Neighbour, top: int, height: int)
    requires
        child.frame.valid(),
        child.frame.h >= 0,
        geometry::near(top),
        0 < height <= geometry::LIMIT,
    ensures
        ({
            let a = closed_up(child, top, height);
            let f = child.frame;
            &&& a.view == child.view && a.surface == child.surface
            &&& a.frame.x == f.x && a.frame.w == f.w
            &&& child.surface && f.y <= top - height && f.top() > top ==> {
                &&& a.frame.top() == f.top()
                &&& a.frame.h == f.h - height
            }
            &&& f.top() <= top - height ==> a.frame.y == f.y + height && a.frame.h == f.h
            &&& f.y > top ==> a == child
            &&& !child.surface && f.top() > top - height ==> a == child
        }),
{
}

/// A row that is shown again takes its place back: a card that holds it keeps its upper edge
/// and gains the height of the row, and what is below moves down by it.
pub proof fn cards_grow_and_the_rest_moves_down(child: Neighbour, top: int, height: int)
    requires
        child.frame.valid(),
        child.frame.h >= 0,
        geometry::near(top),
        0 < height <= geometry::LIMIT,
    ensures
        ({
            let a = spread(child, top, height);
            let f = child.frame;
            &&& a.view == child.view && a.surface == child.surface
            &&& a.frame.x == f.x && a.frame.w == f.w
            &&& child.surface && f.y <= top && f.top() > top ==> {
                &&& a.frame.top() == f.top()
                &&& a.frame.h == f.h + height
            }
            &&& f.top() <= top ==> a.frame.y == f.y - height && a.frame.h == f.h
            &&& f.y > top ==> a == child
            &&& !child.surface && f.top() > top ==> a == child
        }),
{
}

} // verus!
