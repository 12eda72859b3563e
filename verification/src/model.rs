//! What a window's state is, and what each operation makes of it.

use vstd::prelude::*;

use crate::config::ConfigModel;
use crate::event::{InputOutcome, QueuedEventModel, TerminalEventModel};
use crate::tab::{self, ShellProcess, TabBarModel, TabModel};
use crate::terminal::{Direction, SearchState};

verus! {

/// What a window context stands for in contracts.
#[verifier::ext_equal]
pub struct ContextModel<H, P, O> {
    pub window_id: u64,
    pub tabs: Seq<TabModel<H>>,
    pub active_tab: int,
    pub next_tab_id: u64,
    pub queue: Seq<QueuedEventModel<P>>,
    pub dirty: bool,
    pub occluded: bool,
    pub hint_highlight_dirty: bool,
    pub search_state: SearchState,
    pub window_config: Seq<O>,
    pub config: ConfigModel,
}

/// What is needed to show the active tab after the tabs have changed.
#[verifier::ext_equal]
pub struct SyncModel {
    pub tab_bar: TabBarModel,
    pub tab_bar_visible: bool,
    pub old_is_searching: bool,
}

impl<H, P, O> ContextModel<H, P, O> {
    /// There is an active tab, the ids of the tabs increase from the first to
    /// the last, so that no two tabs have the same one, and the next id was not
    /// given out yet.
    pub open spec fn wf(self) -> bool {
        &&& 0 <= self.active_tab < self.tabs.len()
        &&& forall|i: int, j: int|
            0 <= i < j < self.tabs.len() ==> (#[trigger] self.tabs[i]).id < (
            #[trigger] self.tabs[j]).id
        &&& forall|i: int|
            0 <= i < self.tabs.len() ==> (#[trigger] self.tabs[i]).id < self.next_tab_id
    }

    /// A window that has just been opened with its first tab.
    pub open spec fn opened(
        window_id: u64,
        config: ConfigModel,
        tab: TabModel<H>,
    ) -> Self {
        ContextModel {
            window_id,
            tabs: seq![tab],
            active_tab: 0,
            next_tab_id: 1,
            queue: Seq::empty(),
            dirty: false,
            occluded: false,
            hint_highlight_dirty: false,
            search_state: SearchState { history_index: None, direction: Direction::Right },
            window_config: Seq::empty(),
            config,
        }
    }

    pub open spec fn active(self) -> TabModel<H> {
        self.tabs[self.active_tab]
    }

    /// The bar is shown as soon as there is more than one tab.
    pub open spec fn tab_bar_visible(self) -> bool {
        self.tabs.len() > 1
    }

    pub open spec fn tab_bar(self) -> TabBarModel {
        TabBarModel { titles: tab::tab_titles(self.tabs), active: self.active_tab }
    }

    pub open spec fn sync(self) -> SyncModel {
        SyncModel {
            tab_bar: self.tab_bar(),
            tab_bar_visible: self.tab_bar_visible(),
            old_is_searching: self.search_state.searching(),
        }
    }

    /// The tab is added behind the others and becomes the active one.
    pub open spec fn with_tab(self, tab: TabModel<H>) -> Self {
        ContextModel {
            tabs: self.tabs.push(tab),
            active_tab: self.tabs.len() as int,
            next_tab_id: (self.next_tab_id + 1) as u64,
            ..self
        }
    }

    /// Selecting the tab changes which one is active.
    pub open spec fn can_select(self, index: int) -> bool {
        0 <= index < self.tabs.len() && index != self.active_tab
    }

    pub open spec fn select(self, index: int) -> Self {
        if self.can_select(index) {
            ContextModel { active_tab: index, ..self }
        } else {
            self
        }
    }

    /// Closing the tab takes it out of the window.
    pub open spec fn can_close(self, index: int) -> bool {
        0 <= index < self.tabs.len() && self.tabs.len() > 1
    }

    /// Which place is active once the tab at `index` was taken out.
    pub open spec fn active_after_close(self, index: int) -> int {
        if self.active_tab >= self.tabs.len() - 1 {
            self.tabs.len() - 2
        } else if index < self.active_tab {
            self.active_tab - 1
        } else {
            self.active_tab
        }
    }

    pub open spec fn close(self, index: int) -> Self {
        if self.can_close(index) {
            ContextModel {
                tabs: self.tabs.remove(index),
                active_tab: self.active_after_close(index),
                ..self
            }
        } else {
            self
        }
    }

    pub open spec fn enqueue(self, event: QueuedEventModel<P>) -> Self {
        ContextModel { queue: self.queue.push(event), ..self }
    }

    /// The event of the tab at `index` waits in the queue if that tab is active.
    pub open spec fn forward(self, index: int, event: TerminalEventModel<P>) -> Self {
        if index == self.active_tab {
            self.enqueue(
                QueuedEventModel::Terminal { event, window_id: Some(self.window_id) },
            )
        } else {
            self
        }
    }

    pub open spec fn retitle(self, index: int, title: Seq<char>) -> Self {
        ContextModel {
            tabs: self.tabs.update(index, TabModel { title, ..self.tabs[index] }),
            dirty: true,
            ..self
        }
    }

    /// An event of the tab at `index` has arrived.
    pub open spec fn tab_event_at(self, index: int, event: TerminalEventModel<P>) -> Self {
        match event {
            TerminalEventModel::Exit => self.close(index),
            TerminalEventModel::Title(title) => self.retitle(index, title).forward(index, event),
            TerminalEventModel::ResetTitle => self.retitle(index, self.config.title).forward(
                index,
                event,
            ),
            _ => if index == self.active_tab {
                ContextModel { dirty: true, ..self.forward(index, event) }
            } else {
                self
            },
        }
    }

    /// An event of the tab `tab_id` has arrived.
    pub open spec fn tab_event(self, tab_id: u64, event: TerminalEventModel<P>) -> Self {
        match tab::position_of(self.tabs, tab_id) {
            Some(index) => self.tab_event_at(index, event),
            None => self,
        }
    }

    /// The queue was handed out to be processed.
    pub open spec fn drained(self) -> Self {
        ContextModel { queue: Seq::empty(), ..self }
    }

    /// The queue was processed.
    pub open spec fn processed(self, outcome: InputOutcome) -> Self {
        ContextModel {
            dirty: outcome.dirty,
            occluded: outcome.occluded,
            hint_highlight_dirty: outcome.hint_highlight_dirty,
            search_state: outcome.search_state,
            ..self
        }
    }

    pub open spec fn searched(self, search_state: SearchState) -> Self {
        ContextModel { search_state, ..self }
    }

    pub open spec fn marked(self, dirty: bool) -> Self {
        ContextModel { dirty, ..self }
    }

    /// The renderer is being updated, if the window can be seen.
    pub open spec fn begin_draw(self) -> Self {
        if self.occluded {
            self
        } else {
            self.marked(false)
        }
    }

    /// A frame was drawn.
    pub open spec fn end_draw(self, bell_completed: bool, has_frame: bool) -> Self {
        self.marked(self.dirty || (!bell_completed && !has_frame))
    }

    /// The display was updated while an event was processed.
    pub open spec fn displayed(self, search_state: SearchState) -> Self {
        self.searched(search_state).marked(true)
    }

    /// The highlighted hints were updated.
    pub open spec fn highlighted(self, changed: bool) -> Self {
        ContextModel { dirty: self.dirty || changed, hint_highlight_dirty: false, ..self }
    }

    /// A redraw can be requested: the window is visible and the previous frame
    /// is done.
    pub open spec fn can_redraw(self, has_frame: bool) -> bool {
        has_frame && !self.occluded
    }

    /// A configuration was loaded.
    pub open spec fn configured(self, config: ConfigModel) -> Self {
        ContextModel { config, dirty: true, ..self }.enqueue(
            QueuedEventModel::Terminal {
                event: TerminalEventModel::CursorBlinkingChange,
                window_id: None,
            },
        )
    }

    pub open spec fn overridden(self, window_config: Seq<O>) -> Self {
        ContextModel { window_config, ..self }
    }
}

/// The tab that is made of a terminal that was started.
pub open spec fn started_tab<H>(
    config: ConfigModel,
    title: Option<String>,
    tab_id: u64,
    process: Option<ShellProcess>,
    terminal: H,
) -> TabModel<H> {
    TabModel {
        id: tab_id,
        title: match title {
            Some(title) => title@,
            None => config.title,
        },
        preserve_title: title is Some,
        process,
        terminal,
    }
}

} // verus!
