//! Bottom-anchored text layout: the message log is stacked upward from the
//! bottom edge of the viewport, newest entry at the bottom, and entries
//! that would cross the top edge are silently dropped.

use vstd::prelude::*;

use crate::message_log::MessageLog;

verus! {

/// Space kept between the viewport edges and every text box.
pub const MARGIN: i32 = 4;

/// Vertical space one entry occupies.
pub const LINE_HEIGHT: i32 = 16;

/// The drawing area, in layout units. It is supplied from outside and may
/// change between redraws.
#[derive(Clone, Copy, Debug, PartialEq, Eq, Structural)]
pub struct Viewport {
    pub width: i32,
    pub height: i32,
}

impl Viewport {
    /// A drawing area has non-negative dimensions.
    pub open spec fn wf(&self) -> bool {
        0 <= self.width && 0 <= self.height
    }
}

/// One draw command: an entry's text and the rectangle it is drawn in,
/// given by its corner coordinates.
pub struct TextBox {
    pub left: i32,
    pub top: i32,
    pub right: i32,
    pub bottom: i32,
    pub text: String,
}

/// Where the `i`th emitted box (0 = bottom-most, newest) sits vertically.
pub open spec fn box_bottom(viewport: Viewport, i: int) -> int {
    viewport.height - MARGIN - LINE_HEIGHT * i
}

/// Computes the draw commands for the current log and viewport: the log is
/// walked newest first, each entry gets one line-high box, stacked upward
/// from the bottom margin, and the walk stops (without error) before the
/// first box whose top edge would be negative.
pub fn layout(log: &MessageLog, viewport: &Viewport) -> (r: Vec<TextBox>)
    requires
        viewport.wf(),
    ensures
        r@.len() <= log@.len(),
        forall|i: int|
            0 <= i < r@.len() ==> {
                &&& (#[trigger] r@[i]).left == MARGIN
                &&& r@[i].right == viewport.width - MARGIN
                &&& r@[i].bottom == box_bottom(*viewport, i)
                &&& r@[i].top == box_bottom(*viewport, i) - LINE_HEIGHT
                &&& r@[i].top >= 0
                &&& r@[i].text@ == log@[log@.len() - 1 - i]
            },
        r@.len() < log@.len() ==> box_bottom(*viewport, r@.len() as int) - LINE_HEIGHT < 0,
        r@.len() > 0 ==> LINE_HEIGHT * r@.len() <= viewport.height - MARGIN,
{
    let mut r: Vec<TextBox> = Vec::new();
    if viewport.height < MARGIN + LINE_HEIGHT {
        return r;
    }
    let n = log.len();
    let mut y: i32 = viewport.height - MARGIN;
    let mut i: usize = 0;
    while i < n && y - LINE_HEIGHT >= 0
        invariant
            viewport.wf(),
            n == log@.len(),
            i <= n,
            r@.len() == i,
            0 <= y <= viewport.height,
            y == box_bottom(*viewport, i as int),
            forall|j: int|
                0 <= j < i ==> {
                    &&& (#[trigger] r@[j]).left == MARGIN
                    &&& r@[j].right == viewport.width - MARGIN
                    &&& r@[j].bottom == box_bottom(*viewport, j)
                    &&& r@[j].top == box_bottom(*viewport, j) - LINE_HEIGHT
                    &&& r@[j].top >= 0
                    &&& r@[j].text@ == log@[log@.len() - 1 - j]
                },
        decreases n - i,
    {
        let text = log.entry(n - 1 - i).clone();
        r.push(
            TextBox {
                left: MARGIN,
                top: y - LINE_HEIGHT,
                right: viewport.width - MARGIN,
                bottom: y,
                text,
            },
        );
        y = y - LINE_HEIGHT;
        i = i + 1;
    }
    r
}

} // verus!
