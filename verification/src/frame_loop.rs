use crate::grid::{spec_grid_size, GridSize};
use vstd::prelude::*;

verus! {

/// The keys that the program reacts to.
#[derive(Clone, Copy, Debug, PartialEq, Eq, Structural)]
pub enum Key {
    /// Restart with a new random board.
    Space,
    /// Quit.
    Escape,
    /// Any other key.
    Other,
}

/// A window event, as far as the program cares about it.
#[derive(Clone, Copy, Debug, PartialEq, Eq, Structural)]
pub enum WindowEvent {
    /// The user asked to close the window.
    CloseRequested,
    /// A key was pressed (releases are `Other`).
    KeyPressed(Key),
    /// The window now has this size, in whole pixels.
    Resized { width: u32, height: u32 },
    /// Anything else.
    Other,
}

/// What the renderer must do in answer to an event.
#[derive(Clone, Copy, Debug, PartialEq, Eq, Structural)]
pub enum Action {
    /// Nothing.
    Nothing,
    /// Seed a new random board and reload the game parameters and colours.
    Restart,
    /// Rebuild the renderer for a board of this size, then restart.
    Rebuild(GridSize),
}

/// What to do once the events of a frame have been handled.
#[derive(Clone, Copy, Debug, PartialEq, Eq, Structural)]
pub enum FrameStep {
    /// Leave the loop: the program ends.
    Stop,
    /// Advance the game one tick and show it, then pause this many
    /// milliseconds, if any.
    Draw { pause_ms: Option<u64> },
}

/// The abstract state of the frame loop.
#[derive(Clone, Copy, Debug, PartialEq, Eq, Structural)]
pub struct FrameLoopView {
    pub running: bool,
    pub cell_size: u32,
    pub delay_ms: Option<u64>,
}

/// The state of the frame loop: whether it still runs, and the options that
/// shape each frame.
pub struct FrameLoop {
    running: bool,
    cell_size: u32,
    delay_ms: Option<u64>,
}

impl View for FrameLoop {
    type V = FrameLoopView;

    closed spec fn view(&self) -> FrameLoopView {
        FrameLoopView { running: self.running, cell_size: self.cell_size, delay_ms: self.delay_ms }
    }
}

/// How one event changes the loop, and what the renderer must do.
pub open spec fn spec_handle_event(s: FrameLoopView, e: WindowEvent) -> (FrameLoopView, Action) {
    match e {
        WindowEvent::CloseRequested => (FrameLoopView { running: false, ..s }, Action::Nothing),
        WindowEvent::KeyPressed(Key::Escape) => (
            FrameLoopView { running: false, ..s },
            Action::Nothing,
        ),
        WindowEvent::KeyPressed(Key::Space) => (s, Action::Restart),
        WindowEvent::Resized { width, height } => (
            s,
            Action::Rebuild(spec_grid_size(width, height, s.cell_size)),
        ),
        _ => (s, Action::Nothing),
    }
}

/// What follows the events of a frame.
pub open spec fn spec_end_of_frame(s: FrameLoopView) -> FrameStep {
    if s.running {
        FrameStep::Draw { pause_ms: s.delay_ms }
    } else {
        FrameStep::Stop
    }
}

/// The loop after handling a batch of events in order.
pub open spec fn spec_handle_events(s: FrameLoopView, es: Seq<WindowEvent>) -> FrameLoopView
    decreases es.len(),
{
    if es.len() == 0 {
        s
    } else {
        spec_handle_events(spec_handle_event(s, es[0]).0, es.drop_first())
    }
}

/// Whether an event asks the program to quit.
pub open spec fn is_quit_request(e: WindowEvent) -> bool {
    e == WindowEvent::CloseRequested || e == WindowEvent::KeyPressed(Key::Escape)
}

impl FrameLoop {
    #[verifier::type_invariant]
    spec fn cells_have_size(&self) -> bool {
        self.cell_size > 0
    }

    /// A running loop for cells of `cell_size` pixels and the given pause
    /// between frames.
    pub fn new(cell_size: u32, delay_ms: Option<u64>) -> (l: FrameLoop)
        requires
            cell_size > 0,
        ensures
            l@ == (FrameLoopView { running: true, cell_size, delay_ms }),
    {
        FrameLoop { running: true, cell_size, delay_ms }
    }

    /// Whether the loop still runs.
    pub fn is_running(&self) -> (b: bool)
        ensures
            b == self@.running,
    {
        self.running
    }

    /// The board for a window of `width` by `height` pixels.
    pub fn grid_for(&self, width: u32, height: u32) -> (g: GridSize)
        ensures
            g == spec_grid_size(width, height, self@.cell_size),
    {
        proof {
            use_type_invariant(self);
        }
        GridSize::new(width, height, self.cell_size)
    }

    /// Handles one window event. A close request or Escape stops the loop
    /// (events later in the same batch are still handled); Space restarts
    /// the game; a resize rebuilds the board for the new window size.
    pub fn handle_event(&mut self, event: WindowEvent) -> (a: Action)
        ensures
            (final(self)@, a) == spec_handle_event(old(self)@, event),
    {
        proof {
            use_type_invariant(&*self);
        }
        match event {
            WindowEvent::CloseRequested => {
                self.running = false;
                Action::Nothing
            },
            WindowEvent::KeyPressed(Key::Escape) => {
                self.running = false;
                Action::Nothing
            },
            WindowEvent::KeyPressed(Key::Space) => Action::Restart,
            WindowEvent::Resized { width, height } => Action::Rebuild(
                GridSize::new(width, height, self.cell_size),
            ),
            _ => Action::Nothing,
        }
    }

    /// Decides, once the events of a frame are handled, whether to stop or
    /// to draw a frame and then pause.
    pub fn end_of_frame(&self) -> (step: FrameStep)
        ensures
            step == spec_end_of_frame(self@),
    {
        if self.running {
            FrameStep::Draw { pause_ms: self.delay_ms }
        } else {
            FrameStep::Stop
        }
    }
}

/// A resize asks for a board of as many whole cells as fit in the new
/// window: the cells fill each side but for less than one more cell, and
/// the loop itself is unchanged.
pub proof fn lemma_resize_fits_new_window(s: FrameLoopView, width: u32, height: u32)
    requires
        s.cell_size > 0,
    ensures
        ({
            let (t, a) = spec_handle_event(s, WindowEvent::Resized { width, height });
            &&& t == s
            &&& a is Rebuild
            &&& a->0.cells_wide * s.cell_size <= width < (a->0.cells_wide + 1) * s.cell_size
            &&& a->0.cells_high * s.cell_size <= height < (a->0.cells_high + 1) * s.cell_size
        }),
{
    crate::grid::lemma_whole_cells_fit(width as int, s.cell_size as int);
    crate::grid::lemma_whole_cells_fit(height as int, s.cell_size as int);
}

/// Space asks for a new board whether or not the loop still runs, and
/// changes nothing else; keys other than Space and Escape, and events the
/// loop does not know, change nothing and ask for nothing.
pub proof fn lemma_space_restarts_and_others_are_ignored(s: FrameLoopView)
    ensures
        spec_handle_event(s, WindowEvent::KeyPressed(Key::Space)) == (s, Action::Restart),
        spec_handle_event(s, WindowEvent::KeyPressed(Key::Other)) == (s, Action::Nothing),
        spec_handle_event(s, WindowEvent::Other) == (s, Action::Nothing),
{
}

/// Once the loop has stopped, no event starts it again, and no event changes
/// the cell size or the pause between frames.
pub proof fn lemma_stop_is_final(s: FrameLoopView, e: WindowEvent)
    ensures
        !s.running ==> !spec_handle_event(s, e).0.running,
        spec_handle_event(s, e).0.cell_size == s.cell_size,
        spec_handle_event(s, e).0.delay_ms == s.delay_ms,
{
}

/// A batch of events that holds a close request or an Escape key press
/// ends the program: the frame that handles it draws nothing and stops.
pub proof fn lemma_quit_request_stops(s: FrameLoopView, es: Seq<WindowEvent>, i: int)
    requires
        0 <= i < es.len(),
        is_quit_request(es[i]),
    ensures
        spec_end_of_frame(spec_handle_events(s, es)) == FrameStep::Stop,
    decreases es.len(),
{
    if i == 0 {
        lemma_stopped_stays_stopped(spec_handle_event(s, es[0]).0, es.drop_first());
    } else {
        lemma_quit_request_stops(spec_handle_event(s, es[0]).0, es.drop_first(), i - 1);
    }
}

/// A stopped loop stays stopped through any batch of events.
pub proof fn lemma_stopped_stays_stopped(s: FrameLoopView, es: Seq<WindowEvent>)
    requires
        !s.running,
    ensures
        !spec_handle_events(s, es).running,
    decreases es.len(),
{
    if es.len() > 0 {
        lemma_stopped_stays_stopped(spec_handle_event(s, es[0]).0, es.drop_first());
    }
}

/// A batch with no close request and no Escape leaves a running loop
/// running, so the frame is drawn.
pub proof fn lemma_no_quit_keeps_running(s: FrameLoopView, es: Seq<WindowEvent>)
    requires
        s.running,
        forall|i: int| 0 <= i < es.len() ==> !is_quit_request(#[trigger] es[i]),
    ensures
        spec_end_of_frame(spec_handle_events(s, es)) == (FrameStep::Draw { pause_ms: s.delay_ms }),
    decreases es.len(),
{
    if es.len() > 0 {
        assert(!is_quit_request(es[0]));
        assert forall|i: int| 0 <= i < es.drop_first().len() implies !is_quit_request(
            #[trigger] es.drop_first()[i],
        ) by {
            assert(es.drop_first()[i] == es[i + 1]);
        }
        lemma_no_quit_keeps_running(spec_handle_event(s, es[0]).0, es.drop_first());
    }
}

} // verus!
