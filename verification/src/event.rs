//! Events, and what processing them asks for.

use vstd::prelude::*;

use crate::terminal::SearchState;

verus! {

/// An event of a tab's terminal. `Other` carries the events that the window
/// passes on unread.
pub enum TerminalEvent<P> {
    /// The terminal has ended.
    Exit,
    Title(String),
    ResetTitle,
    CursorBlinkingChange,
    Other(P),
}

/// What a [`TerminalEvent`] stands for in contracts.
pub enum TerminalEventModel<P> {
    Exit,
    Title(Seq<char>),
    ResetTitle,
    CursorBlinkingChange,
    Other(P),
}

impl<P> View for TerminalEvent<P> {
    type V = TerminalEventModel<P>;

    open spec fn view(&self) -> TerminalEventModel<P> {
        match *self {
            TerminalEvent::Exit => TerminalEventModel::Exit,
            TerminalEvent::Title(title) => TerminalEventModel::Title(title@),
            TerminalEvent::ResetTitle => TerminalEventModel::ResetTitle,
            TerminalEvent::CursorBlinkingChange => TerminalEventModel::CursorBlinkingChange,
            TerminalEvent::Other(payload) => TerminalEventModel::Other(payload),
        }
    }
}

/// An event of the window. `Other` carries the events that wait in the queue.
pub enum WindowEvent<P> {
    /// The event loop has nothing more to deliver for now.
    AboutToWait,
    /// The window has to be drawn.
    RedrawRequested,
    Other(P),
}

/// An event that waits to be processed.
pub enum QueuedEvent<P> {
    Window(P),
    /// An event of a terminal, and the window it is meant for.
    Terminal { event: TerminalEvent<P>, window_id: Option<u64> },
}

/// What a [`QueuedEvent`] stands for in contracts.
pub enum QueuedEventModel<P> {
    Window(P),
    Terminal { event: TerminalEventModel<P>, window_id: Option<u64> },
}

impl<P> View for QueuedEvent<P> {
    type V = QueuedEventModel<P>;

    open spec fn view(&self) -> QueuedEventModel<P> {
        match *self {
            QueuedEvent::Window(payload) => QueuedEventModel::Window(payload),
            QueuedEvent::Terminal { event, window_id } => QueuedEventModel::Terminal {
                event: event@,
                window_id,
            },
        }
    }
}

/// The events of a vector, in order.
pub open spec fn event_models<P>(events: Seq<QueuedEvent<P>>) -> Seq<QueuedEventModel<P>> {
    Seq::new(events.len(), |i: int| events[i]@)
}

/// What is remembered of an event while the queue is processed.
#[derive(Clone, Copy, Debug, PartialEq, Eq, Structural)]
pub struct PendingEvent {
    /// The queue is processed because the window has to be drawn.
    pub redraw_requested: bool,
    /// A search was running when processing began.
    pub old_is_searching: bool,
    /// The tab bar was shown when processing began.
    pub tab_bar_visible: bool,
}

/// Queued events that are to be processed now, for the active tab.
pub struct Batch<P> {
    pub events: Vec<QueuedEvent<P>>,
    pub active_tab: usize,
    pub pending: PendingEvent,
}

/// What an event of the window leads to.
pub enum EventStep<P> {
    /// Nothing waits to be processed.
    Idle,
    /// The event waits in the queue.
    Queued,
    /// The queue is processed.
    Process(Batch<P>),
}

/// What processing the queue left behind.
#[derive(Clone, Copy, Debug, PartialEq, Eq, Structural)]
pub struct InputOutcome {
    pub dirty: bool,
    pub occluded: bool,
    /// The highlighted hints may be out of date.
    pub hint_highlight_dirty: bool,
    pub search_state: SearchState,
}

/// What has to follow once the queue was processed.
#[derive(Clone, Copy, Debug, PartialEq, Eq, Structural)]
pub enum EventAction {
    /// Update the display, then report it.
    UpdateDisplay,
    /// Update the highlighted hints, then report it.
    UpdateHighlights,
    /// Nothing.
    Done,
}

} // verus!
