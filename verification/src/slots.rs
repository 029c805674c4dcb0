//! The commands that the board sends to the backend.

use vstd::prelude::*;

verus! {

/// The two halves of a drag, each at a pixel position.
#[derive(Clone, Copy, Debug, PartialEq, Eq, Structural)]
pub enum DragSlots {
    Started { src_x: u32, src_y: u32 },
    Ended { dest_x: u32, dest_y: u32 },
}

/// A pointer gesture at a pixel position.
#[derive(Clone, Copy, Debug, PartialEq, Eq, Structural)]
pub enum MouseEventSlots {
    Clicked { x: u32, y: u32 },
    Drag(DragSlots),
}

impl From<DragSlots> for MouseEventSlots {
    fn from(value: DragSlots) -> (r: MouseEventSlots) {
        MouseEventSlots::Drag(value)
    }
}

impl vstd::std_specs::convert::FromSpecImpl<DragSlots> for MouseEventSlots {
    open spec fn obeys_from_spec() -> bool {
        true
    }

    open spec fn from_spec(value: DragSlots) -> MouseEventSlots {
        MouseEventSlots::Drag(value)
    }
}

/// One command.
#[derive(Clone, Copy, Debug, PartialEq, Eq, Structural)]
pub enum Slots {
    Resync,
    /// A gesture, with the side length of a square in pixels.
    MouseEvent { slot: MouseEventSlots, piece_size: u32 },
    /// The role picked for the pending promotion, counted from 0 for a pawn.
    Promote { id: u8 },
    Traverse { forward: bool },
}

} // verus!
