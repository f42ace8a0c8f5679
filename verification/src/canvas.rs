//! Turning pointer activity over the canvas into editor messages.
use vstd::prelude::*;
use crate::editor::{Editor, Message, MessageView, message_opt_view};
use crate::geometry::{
    artboard_bounds, rectangle_contains, spec_artboard_bounds, spec_rectangle_contains, Point,
};

verus! {

/// Pointer activity over the canvas.
#[derive(Clone, Copy, Debug, PartialEq, Eq, Structural)]
pub enum PointerEvent {
    LeftPressed,
    Moved,
    LeftReleased,
    /// Any other button, the wheel, touch or keyboard input.
    Other,
}

/// Whether `position` (relative to the canvas) is over the artboard of a
/// canvas of the given size.
pub open spec fn over_artboard(width: i32, height: i32, position: Option<Point>) -> bool {
    match position {
        Some(p) => spec_rectangle_contains(spec_artboard_bounds(width, height), p),
        None => false,
    }
}

/// The message for pointer activity `event` at `position`, when `drafting`
/// tells whether a shape is being drawn. Only activity over the artboard
/// counts; moves and releases count only while drawing.
pub open spec fn spec_canvas_message(
    drafting: bool,
    width: i32,
    height: i32,
    position: Option<Point>,
    event: PointerEvent,
) -> Option<MessageView> {
    if !over_artboard(width, height, position) {
        None
    } else {
        let p = position->Some_0;
        match event {
            PointerEvent::LeftPressed => Some(MessageView::CanvasPressed(p)),
            PointerEvent::Moved => if drafting {
                Some(MessageView::CanvasDragged(p))
            } else {
                None
            },
            PointerEvent::LeftReleased => if drafting {
                Some(MessageView::CanvasReleased(p))
            } else {
                None
            },
            PointerEvent::Other => None,
        }
    }
}

/// Whether the pointer at `position` is over the artboard of a canvas of
/// `width` by `height` units, where the pointer shows a crosshair.
pub fn shows_crosshair(width: i32, height: i32, position: Option<Point>) -> (r: bool)
    ensures
        r == over_artboard(width, height, position),
{
    match position {
        Some(p) => rectangle_contains(artboard_bounds(width, height), p),
        None => false,
    }
}

impl Editor {
    /// The message that pointer activity `event` over a canvas of `width` by
    /// `height` units produces; `position` is the pointer's position
    /// relative to the canvas, `None` when it is not over the canvas.
    pub fn canvas_message(
        &self,
        width: i32,
        height: i32,
        position: Option<Point>,
        event: PointerEvent,
    ) -> (m: Option<Message>)
        ensures
            message_opt_view(m) == spec_canvas_message(
                self@.draft is Some,
                width,
                height,
                position,
                event,
            ),
    {
        if !shows_crosshair(width, height, position) {
            return None;
        }
        let p = match position {
            Some(p) => p,
            None => {
                return None;
            },
        };
        let drafting = self.draft().is_some();
        match event {
            PointerEvent::LeftPressed => Some(Message::CanvasPressed(p)),
            PointerEvent::Moved => if drafting {
                Some(Message::CanvasDragged(p))
            } else {
                None
            },
            PointerEvent::LeftReleased => if drafting {
                Some(Message::CanvasReleased(p))
            } else {
                None
            },
            PointerEvent::Other => None,
        }
    }
}

} // verus!
