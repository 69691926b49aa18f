//! The drag controller at a column boundary.
//!
//! A [`Splitter`] converts pointer input into width changes for one column.
//! It mutates no global UI state itself: each transition hands back a list
//! of [`SplitterCommand`] values ("capture the pointer", "set the cursor",
//! "store this width") that the hosting event loop applies.

use vstd::prelude::*;

use crate::width::Width;

verus! {

/// The interaction state of one splitter: either idle, or mid-drag with the
/// captured pointer origin and the column width at drag start. The state is
/// created idle and never persists across a full drag cycle.
#[derive(Clone, Copy, Debug, PartialEq, Eq, Structural)]
pub enum DragState {
    /// No drag is in progress.
    Idle,
    /// A drag is in progress.
    Dragging {
        /// The horizontal pointer position captured on pointer-down.
        origin_x: i64,
        /// The column's pixel width captured on pointer-down.
        origin_width: i64,
    },
}

/// One pointer event, as the hosting event loop delivers it to a splitter.
#[derive(Clone, Copy, Debug, PartialEq, Eq, Structural)]
pub enum PointerEvent {
    /// A button was pressed at horizontal position `x`; `primary` tells
    /// whether it was the primary button.
    Down {
        /// The horizontal pointer position.
        x: i64,
        /// Whether the primary button was pressed.
        primary: bool,
    },
    /// The pointer moved to horizontal position `x`.
    Move {
        /// The horizontal pointer position.
        x: i64,
    },
    /// A button was released; `primary` tells whether it was the primary one.
    Up {
        /// Whether the primary button was released.
        primary: bool,
    },
    /// Pointer capture was lost without an up event, for example because the
    /// pointer left the window.
    CaptureLost,
}

/// One instruction for the hosting event loop. The splitter never touches
/// window state directly; it only asks for these effects.
#[derive(Clone, Copy, Debug, PartialEq, Eq, Structural)]
pub enum SplitterCommand {
    /// Route all further pointer events to this splitter.
    CapturePointer,
    /// Stop routing pointer events to this splitter.
    ReleaseCapture,
    /// Show a resize indicator as the pointer cursor.
    SetResizeCursor,
    /// Restore the default pointer cursor.
    RestoreCursor,
    /// Suppress hit-testing below the window root, so the drag is not
    /// interrupted by the pointer crossing other elements.
    SuppressHitTesting,
    /// Restore normal hit-testing.
    RestoreHitTesting,
    /// Store `width` as the new width of column `column`.
    SetColumnWidth {
        /// The index of the column to resize.
        column: usize,
        /// The width to store.
        width: Width,
    },
}

/// The pixel width a drag has reached: the width at drag start plus the
/// pointer's horizontal travel, floored at zero (and capped at the largest
/// representable pixel count), so that dragging outward grows the column
/// and dragging inward shrinks it no further than zero.
pub open spec fn drag_target(origin_width: int, origin_x: int, x: int) -> int {
    let moved = origin_width + (x - origin_x);
    if moved < 0 {
        0
    } else if moved > i64::MAX {
        i64::MAX as int
    } else {
        moved
    }
}

/// The commands issued on entering a drag.
pub open spec fn drag_start_commands() -> Seq<SplitterCommand> {
    seq![
        SplitterCommand::CapturePointer,
        SplitterCommand::SetResizeCursor,
        SplitterCommand::SuppressHitTesting,
    ]
}

/// The commands issued on a deliberate end of a drag: the capture is
/// released exactly once, then window state is restored.
pub open spec fn drag_end_commands() -> Seq<SplitterCommand> {
    seq![
        SplitterCommand::ReleaseCapture,
        SplitterCommand::RestoreCursor,
        SplitterCommand::RestoreHitTesting,
    ]
}

/// The commands issued when capture is lost mid-drag: the window already
/// took the capture away, so only cursor and hit-testing are restored.
pub open spec fn drag_abort_commands() -> Seq<SplitterCommand> {
    seq![SplitterCommand::RestoreCursor, SplitterCommand::RestoreHitTesting]
}

/// The transition function of the drag state machine: from a state, an
/// event, the splitter's column and that column's current width, to the next
/// state and the commands the host must apply.
///
/// - primary down while idle starts a drag at the event's position, with the
///   column's current pixel width as origin;
/// - a move while dragging keeps the state and asks for the dragged width;
/// - primary up or capture loss while dragging returns to idle;
/// - every other combination changes nothing and asks for nothing.
pub open spec fn splitter_step(
    state: DragState,
    event: PointerEvent,
    column: int,
    current: Width,
) -> (DragState, Seq<SplitterCommand>) {
    match (state, event) {
        (DragState::Idle, PointerEvent::Down { x, primary: true }) => (
            DragState::Dragging { origin_x: x, origin_width: current.spec_fixed_pixels() as i64 },
            drag_start_commands(),
        ),
        (DragState::Dragging { origin_x, origin_width }, PointerEvent::Move { x }) => (
            state,
            seq![
                SplitterCommand::SetColumnWidth {
                    column: column as usize,
                    width: Width::Fixed(
                        drag_target(origin_width as int, origin_x as int, x as int) as i64,
                    ),
                },
            ],
        ),
        (DragState::Dragging { .. }, PointerEvent::Up { primary: true }) => (
            DragState::Idle,
            drag_end_commands(),
        ),
        (DragState::Dragging { .. }, PointerEvent::CaptureLost) => (
            DragState::Idle,
            drag_abort_commands(),
        ),
        _ => (state, Seq::empty()),
    }
}

/// The drag controller for the boundary after one column.
pub struct Splitter {
    column: usize,
    state: DragState,
}

impl Splitter {
    /// The index of the column this splitter resizes.
    pub closed spec fn spec_column(self) -> int {
        self.column as int
    }

    /// The current interaction state.
    pub closed spec fn spec_state(self) -> DragState {
        self.state
    }

    /// Build the splitter for the boundary after `column`, idle.
    pub fn new(column: usize) -> (s: Splitter)
        ensures
            s.spec_column() == column as int,
            s.spec_state() == DragState::Idle,
    {
        Splitter { column, state: DragState::Idle }
    }

    /// The index of the column this splitter resizes.
    pub fn column(&self) -> (c: usize)
        ensures
            c as int == self.spec_column(),
    {
        self.column
    }

    /// The current interaction state.
    pub fn state(&self) -> (s: DragState)
        ensures
            s == self.spec_state(),
    {
        self.state
    }

    /// Feed one pointer event through the state machine. `current` is the
    /// affected column's width at the time of the event; it seeds the drag
    /// origin on pointer-down. The returned commands are for the host to
    /// apply, in order.
    pub fn handle(&mut self, event: PointerEvent, current: Width) -> (cmds: Vec<SplitterCommand>)
        ensures
            final(self).spec_column() == old(self).spec_column(),
            (final(self).spec_state(), cmds@) == splitter_step(
                old(self).spec_state(),
                event,
                old(self).spec_column(),
                current,
            ),
    {
        match (self.state, event) {
            (DragState::Idle, PointerEvent::Down { x, primary: true }) => {
                self.state = DragState::Dragging {
                    origin_x: x,
                    origin_width: current.fixed_pixels(),
                };
                let mut cmds: Vec<SplitterCommand> = Vec::new();
                cmds.push(SplitterCommand::CapturePointer);
                cmds.push(SplitterCommand::SetResizeCursor);
                cmds.push(SplitterCommand::SuppressHitTesting);
                proof {
                    assert(cmds@ =~= drag_start_commands());
                }
                cmds
            },
            (DragState::Dragging { origin_x, origin_width }, PointerEvent::Move { x }) => {
                let moved: i128 = origin_width as i128 + (x as i128 - origin_x as i128);
                let target: i64 = if moved < 0 {
                    0
                } else if moved > i64::MAX as i128 {
                    i64::MAX
                } else {
                    moved as i64
                };
                let mut cmds: Vec<SplitterCommand> = Vec::new();
                cmds.push(SplitterCommand::SetColumnWidth {
                    column: self.column,
                    width: Width::Fixed(target),
                });
                proof {
                    assert(cmds@ =~= splitter_step(
                        old(self).spec_state(),
                        event,
                        old(self).spec_column(),
                        current,
                    ).1);
                }
                cmds
            },
            (DragState::Dragging { .. }, PointerEvent::Up { primary: true }) => {
                self.state = DragState::Idle;
                let mut cmds: Vec<SplitterCommand> = Vec::new();
                cmds.push(SplitterCommand::ReleaseCapture);
                cmds.push(SplitterCommand::RestoreCursor);
                cmds.push(SplitterCommand::RestoreHitTesting);
                proof {
                    assert(cmds@ =~= drag_end_commands());
                }
                cmds
            },
            (DragState::Dragging { .. }, PointerEvent::CaptureLost) => {
                self.state = DragState::Idle;
                let mut cmds: Vec<SplitterCommand> = Vec::new();
                cmds.push(SplitterCommand::RestoreCursor);
                cmds.push(SplitterCommand::RestoreHitTesting);
                proof {
                    assert(cmds@ =~= drag_abort_commands());
                }
                cmds
            },
            _ => {
                let cmds: Vec<SplitterCommand> = Vec::new();
                proof {
                    assert(cmds@ =~= Seq::<SplitterCommand>::empty());
                }
                cmds
            },
        }
    }
}

/// The end state and the collected commands of one full drag cycle at a
/// boundary: primary button down at `x0`, one move to `x1`, primary button
/// up.
pub open spec fn drag_cycle(column: usize, current: Width, x0: i64, x1: i64) -> (
    DragState,
    Seq<SplitterCommand>,
) {
    let down = splitter_step(
        DragState::Idle,
        PointerEvent::Down { x: x0, primary: true },
        column as int,
        current,
    );
    let moved = splitter_step(down.0, PointerEvent::Move { x: x1 }, column as int, current);
    let up = splitter_step(moved.0, PointerEvent::Up { primary: true }, column as int, current);
    (up.0, down.1 + moved.1 + up.1)
}

/// Law: a full drag cycle ends idle; it captures the pointer exactly once
/// and releases it exactly once; and the only width it asks for is its own
/// column's dragged width.
pub proof fn lemma_drag_cycle(column: usize, current: Width, x0: i64, x1: i64)
    ensures
        drag_cycle(column, current, x0, x1).0 == DragState::Idle,
        drag_cycle(column, current, x0, x1).1 =~= drag_start_commands() + seq![
            SplitterCommand::SetColumnWidth {
                column,
                width: Width::Fixed(
                    drag_target(current.spec_fixed_pixels(), x0 as int, x1 as int) as i64,
                ),
            },
        ] + drag_end_commands(),
        forall|i: int|
            0 <= i < drag_cycle(column, current, x0, x1).1.len() ==> ((#[trigger] drag_cycle(
                column,
                current,
                x0,
                x1,
            ).1[i]) == SplitterCommand::ReleaseCapture <==> i == 4),
        forall|i: int|
            0 <= i < drag_cycle(column, current, x0, x1).1.len() ==> ((#[trigger] drag_cycle(
                column,
                current,
                x0,
                x1,
            ).1[i]) == SplitterCommand::CapturePointer <==> i == 0),
{
    let cmds = drag_cycle(column, current, x0, x1).1;
    assert(cmds =~= seq![
        SplitterCommand::CapturePointer,
        SplitterCommand::SetResizeCursor,
        SplitterCommand::SuppressHitTesting,
        SplitterCommand::SetColumnWidth {
            column,
            width: Width::Fixed(
                drag_target(current.spec_fixed_pixels(), x0 as int, x1 as int) as i64,
            ),
        },
        SplitterCommand::ReleaseCapture,
        SplitterCommand::RestoreCursor,
        SplitterCommand::RestoreHitTesting,
    ]);
}

/// Law: dragging outward by `d` pixels from a width of `w0` reaches the
/// width `w0 + d` — the larger width, never clipped, as long as it is
/// representable.
pub proof fn lemma_drag_outward(w0: int, x0: int, d: int)
    requires
        0 <= w0,
        0 <= d,
        w0 + d <= i64::MAX,
    ensures
        drag_target(w0, x0, x0 + d) == w0 + d,
{
}

/// Law: dragging inward by `d` pixels from a width of `w0` reaches the
/// width `w0 - d`, floored at zero.
pub proof fn lemma_drag_inward(w0: int, x0: int, d: int)
    requires
        0 <= d,
        0 <= w0 <= i64::MAX,
    ensures
        drag_target(w0, x0, x0 - d) == (if w0 - d < 0 { 0 } else { w0 - d }),
{
}

/// Law: the dragged width never leaves the representable non-negative
/// range, whatever the pointer does.
pub proof fn lemma_drag_target_bounds(w0: int, x0: int, x: int)
    ensures
        0 <= drag_target(w0, x0, x) <= i64::MAX,
{
}

} // verus!
