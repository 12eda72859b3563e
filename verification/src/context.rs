//! The state of one window.

use std::rc::Rc;

use alacritty_terminal::grid::Grid;
use alacritty_terminal::term::cell::Cell;
use vstd::prelude::*;

use crate::config::{self, compare_configs, ConfigDelta, ConfigUpdate, UiConfig, WindowOptions};
use crate::event::{
    self, Batch, EventAction, EventStep, InputOutcome, PendingEvent, QueuedEvent, TerminalEvent,
    WindowEvent,
};
use crate::laws;
use crate::model::{self, ContextModel, SyncModel};
use crate::setup::Platform;
use crate::tab::{
    self, position, tab_bar, ShellProcess, TabBar, TabBarHit, TabModel, TerminalTab,
};
use crate::ref_test::{self, ref_test_files, RefTestFile};
use crate::terminal::{self, CursorView, SearchState, SizeInfo};

verus! {

/// Event context of one window.
///
/// `H` is the handle of a terminal, `P` an event that is passed on unread, and
/// `O` one setting that overrides the configuration of this window.
pub struct WindowContext<H, P, O> {
    /// The window has to be drawn again.
    dirty: bool,
    window_id: u64,
    event_queue: Vec<QueuedEvent<P>>,
    tabs: Vec<TerminalTab<H>>,
    active_tab: usize,
    next_tab_id: u64,
    search_state: SearchState,
    hint_highlight_dirty: bool,
    occluded: bool,
    window_config: Vec<O>,
    config: Rc<UiConfig>,
}

impl<H, P, O> View for WindowContext<H, P, O> {
    type V = ContextModel<H, P, O>;

    closed spec fn view(&self) -> ContextModel<H, P, O> {
        ContextModel {
            window_id: self.window_id,
            tabs: tab::tab_models(self.tabs@),
            active_tab: self.active_tab as int,
            next_tab_id: self.next_tab_id,
            queue: event::event_models(self.event_queue@),
            dirty: self.dirty,
            occluded: self.occluded,
            hint_highlight_dirty: self.hint_highlight_dirty,
            search_state: self.search_state,
            window_config: self.window_config@,
            config: self.config@,
        }
    }
}

/// Id of the tab with which a window is opened.
pub const FIRST_TAB_ID: u64 = 0;

/// A terminal that was started for a tab.
pub struct SpawnedTerminal<H> {
    pub process: Option<ShellProcess>,
    pub terminal: H,
}

/// What was made of a terminal that was started, and whether its cursor is to
/// start blinking.
pub struct Started<T> {
    pub value: T,
    pub start_blinking: bool,
}

/// How a shell is launched: the configured way, with what the options of the
/// tab replace of it.
pub struct PtyOptions<C> {
    /// Read the shell's output to the end before its tab is closed.
    pub drain_on_exit: bool,
    /// Program, directory and environment, which are carried along unread.
    pub launch: C,
}

/// What a terminal is started with.
///
/// The terminal and the loop that reads from its shell both announce their
/// events under the ids.
#[derive(Debug, PartialEq, Eq)]
pub struct TerminalRequest<C> {
    pub tab_id: u64,
    pub window_id: u64,
    /// Size of the terminal and of its pseudoterminal.
    pub size: SizeInfo,
    pub launch: C,
    pub drain_on_exit: bool,
    /// Record what the terminal receives.
    pub ref_test: bool,
}

/// First part of showing the active tab: the bar to show, and how to update the
/// display for the terminal of the active tab.
pub struct SyncStart {
    pub tab_bar: TabBar,
    pub tab_bar_visible: bool,
    pub old_is_searching: bool,
}

impl View for SyncStart {
    type V = SyncModel;

    open spec fn view(&self) -> SyncModel {
        SyncModel {
            tab_bar: self.tab_bar@,
            tab_bar_visible: self.tab_bar_visible,
            old_is_searching: self.old_is_searching,
        }
    }
}

/// Second part of showing the active tab.
#[derive(Clone, Copy, Debug, PartialEq, Eq, Structural)]
pub struct SyncEnd {
    /// Size that the terminal of the active tab has to take on.
    pub resize: Option<SizeInfo>,
    /// Request a redraw of the window.
    pub redraw: bool,
}

/// What closing a tab leads to.
pub enum CloseOutcome<H> {
    /// There is no such tab.
    Nothing,
    /// It is the only tab; its terminal is to exit.
    Exit,
    /// The tab was taken out. Its input loop is to shut down, and the tab that
    /// is active now has to be shown.
    Closed { tab: TerminalTab<H>, sync: SyncStart },
}

impl<H> CloseOutcome<H> {
    /// This is what closing the tab at `index` leads to.
    pub open spec fn describes<P, O>(self, context: ContextModel<H, P, O>, index: int) -> bool {
        match self {
            CloseOutcome::Nothing => !(0 <= index < context.tabs.len()),
            CloseOutcome::Exit => index == 0 && context.tabs.len() == 1,
            CloseOutcome::Closed { tab, sync } => {
                &&& context.can_close(index)
                &&& tab@ == context.tabs[index]
                &&& sync@ == context.close(index).sync()
            },
        }
    }
}

/// What a click on the tab bar leads to.
pub enum HitOutcome<H> {
    Select(Option<SyncStart>),
    Close(CloseOutcome<H>),
}

/// What an event of a tab's terminal leads to.
pub enum TabEventOutcome<H> {
    Nothing,
    /// The tab bar has to show new titles.
    ShowTabBar(TabBar),
    /// The terminal has ended and its tab is closed.
    Close(CloseOutcome<H>),
}

/// Whether the window is drawn.
#[derive(Clone, Copy, Debug, PartialEq, Eq, Structural)]
pub enum DrawStep {
    /// The window is hidden.
    Skip,
    /// The renderer is updated, and then a frame is drawn.
    Frame,
}

/// What is drawn.
pub struct FramePlan {
    /// Request another redraw of the window before this one.
    pub redraw: bool,
    pub tab_bar: TabBar,
    /// Tab whose terminal is drawn.
    pub active_tab: usize,
}

/// Messages of the message bar.
#[derive(Clone, Copy, Debug, PartialEq, Eq, Structural)]
pub enum MessageTarget {
    /// Errors in settings that override the configuration of a window.
    IpcConfig,
}

/// The settings of a window have changed: the messages of `clear_messages` are
/// removed, and the configuration is loaded again.
#[derive(Clone, Copy, Debug, PartialEq, Eq, Structural)]
pub struct ConfigReload {
    pub clear_messages: MessageTarget,
}

impl<H, P, O> WindowContext<H, P, O> {
    /// What the terminal of the tab `tab_id` is started with, at the size of the
    /// display.
    fn terminal_request<C>(
        config: &UiConfig,
        pty_options: PtyOptions<C>,
        size: SizeInfo,
        window_id: u64,
        tab_id: u64,
    ) -> (request: TerminalRequest<C>)
        ensures
            request == (TerminalRequest {
                tab_id,
                window_id,
                size,
                launch: pty_options.launch,
                drain_on_exit: pty_options.drain_on_exit,
                ref_test: config@.ref_test,
            }),
    {
        TerminalRequest {
            tab_id,
            window_id,
            size,
            launch: pty_options.launch,
            drain_on_exit: pty_options.drain_on_exit,
            ref_test: config.ref_test,
        }
    }

    /// What the terminal of a window's first tab is started with.
    pub fn first_tab_request<C>(
        config: &UiConfig,
        pty_options: PtyOptions<C>,
        size: SizeInfo,
        window_id: u64,
    ) -> (request: TerminalRequest<C>)
        ensures
            request == (TerminalRequest {
                tab_id: FIRST_TAB_ID,
                window_id,
                size,
                launch: pty_options.launch,
                drain_on_exit: pty_options.drain_on_exit,
                ref_test: config@.ref_test,
            }),
    {
        Self::terminal_request(config, pty_options, size, window_id, FIRST_TAB_ID)
    }

    /// Makes a tab of a terminal that was started for it.
    ///
    /// A title among the options is the title of the tab and is preserved;
    /// without one the tab has the configured title.
    fn create_terminal_tab<D, E>(
        config: &UiConfig,
        options: WindowOptions<D>,
        tab_id: u64,
        spawned: Result<SpawnedTerminal<H>, E>,
    ) -> (tab: Result<Started<TerminalTab<H>>, E>)
        ensures
            match (spawned, tab) {
                (Ok(spawned), Ok(tab)) => tab.value@ == model::started_tab(
                    config@,
                    options.title,
                    tab_id,
                    spawned.process,
                    spawned.terminal,
                ) && tab.start_blinking == config@.cursor_blinking,
                (Err(error), Err(returned)) => error == returned,
                _ => false,
            },
    {
        let spawned = match spawned {
            Ok(spawned) => spawned,
            Err(error) => return Err(error),
        };
        let preserve_title = options.title.is_some();
        let title = match options.title {
            Some(title) => title,
            None => config.title.clone(),
        };
        let value = TerminalTab {
            id: tab_id,
            title,
            preserve_title,
            process: spawned.process,
            terminal: spawned.terminal,
        };
        Ok(Started { value, start_blinking: config.cursor_blinking })
    }

    /// Creates the context of a window that has one tab.
    fn new<D, E>(
        window_id: u64,
        config: Rc<UiConfig>,
        options: WindowOptions<D>,
        spawned: Result<SpawnedTerminal<H>, E>,
    ) -> (context: Result<Started<Self>, E>)
        ensures
            match (spawned, context) {
                (Ok(spawned), Ok(context)) => {
                    &&& context.value@.wf()
                    &&& context.value@ == ContextModel::<H, P, O>::opened(
                        window_id,
                        config@,
                        model::started_tab(
                            config@,
                            options.title,
                            FIRST_TAB_ID,
                            spawned.process,
                            spawned.terminal,
                        ),
                    )
                    &&& context.start_blinking == config@.cursor_blinking
                },
                (Err(error), Err(returned)) => error == returned,
                _ => false,
            },
    {
        let tab = match Self::create_terminal_tab(&config, options, FIRST_TAB_ID, spawned) {
            Ok(tab) => tab,
            Err(error) => return Err(error),
        };
        let mut tabs: Vec<TerminalTab<H>> = Vec::new();
        tabs.push(tab.value);
        let value = WindowContext {
            dirty: false,
            window_id,
            event_queue: Vec::new(),
            tabs,
            active_tab: 0,
            next_tab_id: 1,
            search_state: SearchState::default(),
            hint_highlight_dirty: false,
            occluded: false,
            window_config: Vec::new(),
            config,
        };
        proof {
            assert(value@.tabs =~= seq![tab.value@]);
            assert(value@.queue =~= Seq::empty());
        }
        Ok(Started { value, start_blinking: tab.start_blinking })
    }

    /// Creates the context of the first window.
    ///
    /// `spawned` is the terminal that was started for its tab. Without one there
    /// is no window, and the error is handed back.
    pub fn initial<D, E>(
        window_id: u64,
        config: Rc<UiConfig>,
        options: WindowOptions<D>,
        spawned: Result<SpawnedTerminal<H>, E>,
    ) -> (context: Result<Started<Self>, E>)
        ensures
            match (spawned, context) {
                (Ok(spawned), Ok(context)) => {
                    &&& context.value@.wf()
                    &&& context.value@ == ContextModel::<H, P, O>::opened(
                        window_id,
                        config@,
                        model::started_tab(
                            config@,
                            options.title,
                            FIRST_TAB_ID,
                            spawned.process,
                            spawned.terminal,
                        ),
                    )
                    &&& context.start_blinking == config@.cursor_blinking
                },
                (Err(error), Err(returned)) => error == returned,
                _ => false,
            },
    {
        Self::new(window_id, config, options, spawned)
    }

    /// Creates the context of one more window.
    ///
    /// `config` already holds what `config_overrides` override; they are kept
    /// for when the configuration is loaded again.
    pub fn additional<D, E>(
        window_id: u64,
        config: Rc<UiConfig>,
        options: WindowOptions<D>,
        config_overrides: Vec<O>,
        spawned: Result<SpawnedTerminal<H>, E>,
    ) -> (context: Result<Started<Self>, E>)
        ensures
            match (spawned, context) {
                (Ok(spawned), Ok(context)) => {
                    &&& context.value@.wf()
                    &&& context.value@ == ContextModel::<H, P, O>::opened(
                        window_id,
                        config@,
                        model::started_tab(
                            config@,
                            options.title,
                            FIRST_TAB_ID,
                            spawned.process,
                            spawned.terminal,
                        ),
                    ).overridden(config_overrides@)
                    &&& context.start_blinking == config@.cursor_blinking
                },
                (Err(error), Err(returned)) => error == returned,
                _ => false,
            },
    {
        let created = match Self::new(window_id, config, options, spawned) {
            Ok(created) => created,
            Err(error) => return Err(error),
        };
        let mut value = created.value;
        value.window_config = config_overrides;
        Ok(Started { value, start_blinking: created.start_blinking })
    }

    /// Loads `new_config`, to which the window's own settings were applied.
    ///
    /// `delta` compares it with the configuration in use, and `current_title` is
    /// the title that the window shows. The result says what the terminals of all
    /// tabs and the display have to do.
    pub fn update_config(
        &mut self,
        new_config: Rc<UiConfig>,
        delta: &ConfigDelta,
        platform: Platform,
        current_title: &String,
    ) -> (update: ConfigUpdate)
        requires
            old(self)@.wf(),
        ensures
            final(self)@.wf(),
            final(self)@ == old(self)@.configured(new_config@),
            update@ == config::config_update(
                old(self)@.config,
                new_config@,
                *delta,
                platform,
                old(self)@.tabs.len(),
                old(self)@.active().preserve_title,
                current_title@,
            ),
    {
        let preserve_title = self.tabs[self.active_tab].preserve_title;
        let update = compare_configs(
            &self.config,
            &new_config,
            delta,
            platform,
            self.tabs.len(),
            preserve_title,
            current_title,
        );
        self.config = new_config;

        // The new configuration may have another blinking cursor.
        self.event_queue.push(
            QueuedEvent::Terminal { event: TerminalEvent::CursorBlinkingChange, window_id: None },
        );
        self.dirty = true;
        assert(self@ =~= old(self)@.configured(new_config@));
        update
    }

    /// The configuration of the window.
    pub fn config(&self) -> (config: &UiConfig)
        ensures
            config@ == self@.config,
    {
        &self.config
    }

    /// Clears the settings that override the configuration of this window.
    pub fn reset_window_config(&mut self) -> (reload: ConfigReload)
        ensures
            final(self)@ == old(self)@.overridden(Seq::empty()),
            reload == (ConfigReload { clear_messages: MessageTarget::IpcConfig }),
    {
        self.window_config.clear();
        ConfigReload { clear_messages: MessageTarget::IpcConfig }
    }

    /// Adds settings that override the configuration of this window.
    pub fn add_window_config(&mut self, options: Vec<O>) -> (reload: ConfigReload)
        ensures
            final(self)@ == old(self)@.overridden(old(self)@.window_config + options@),
            reload == (ConfigReload { clear_messages: MessageTarget::IpcConfig }),
    {
        let mut options = options;
        self.window_config.append(&mut options);
        ConfigReload { clear_messages: MessageTarget::IpcConfig }
    }

    /// The settings that override the configuration of this window.
    pub fn window_config(&self) -> (options: &Vec<O>)
        ensures
            options@ == self@.window_config,
    {
        &self.window_config
    }

    /// The shell in whose directory a new tab starts: that of the active tab.
    pub fn new_tab_process(&self) -> (process: Option<ShellProcess>)
        requires
            self@.wf(),
        ensures
            process == self@.active().process,
    {
        self.tabs[self.active_tab].process
    }

    /// What a new tab is opened with: the directory of the active tab's shell,
    /// if it could be found out, and nothing else.
    pub fn new_tab_options<D, E>(directory: Option<Result<D, E>>) -> (options: WindowOptions<D>)
        ensures
            options.title is None,
            options.window_tabbing_id is None,
            options.working_directory == (match directory {
                Some(Ok(directory)) => Some(directory),
                _ => None,
            }),
    {
        let mut options: WindowOptions<D> = WindowOptions::default();
        options.working_directory = match directory {
            Some(directory) => directory.ok(),
            None => None,
        };
        options
    }

    /// What the terminal of a new tab is started with.
    pub fn new_tab_request<C>(&self, pty_options: PtyOptions<C>, size: SizeInfo) -> (request:
        TerminalRequest<C>)
        ensures
            request == (TerminalRequest {
                tab_id: self@.next_tab_id,
                window_id: self@.window_id,
                size,
                launch: pty_options.launch,
                drain_on_exit: pty_options.drain_on_exit,
                ref_test: self@.config.ref_test,
            }),
    {
        Self::terminal_request(
            &self.config,
            pty_options,
            size,
            self.window_id,
            self.next_tab_id,
        )
    }

    /// Adds a tab for a terminal that was started and makes it the active one.
    ///
    /// Without a terminal the tabs stay as they are, and the error is handed
    /// back.
    pub fn create_tab<D, E>(
        &mut self,
        options: WindowOptions<D>,
        spawned: Result<SpawnedTerminal<H>, E>,
    ) -> (created: Result<Started<SyncStart>, E>)
        requires
            old(self)@.wf(),
            spawned is Ok ==> old(self)@.next_tab_id < u64::MAX,
        ensures
            final(self)@.wf(),
            match (spawned, created) {
                (Ok(spawned), Ok(created)) => {
                    &&& final(self)@ == old(self)@.with_tab(
                        model::started_tab(
                            old(self)@.config,
                            options.title,
                            old(self)@.next_tab_id,
                            spawned.process,
                            spawned.terminal,
                        ),
                    )
                    &&& created.value@ == final(self)@.sync()
                    &&& created.start_blinking == old(self)@.config.cursor_blinking
                },
                (Err(error), Err(returned)) => error == returned && final(self)@ == old(self)@,
                _ => false,
            },
    {
        let tab = match Self::create_terminal_tab(
            &self.config,
            options,
            self.next_tab_id,
            spawned,
        ) {
            Ok(tab) => tab,
            Err(error) => return Err(error),
        };
        self.next_tab_id += 1;
        self.tabs.push(tab.value);
        self.active_tab = self.tabs.len() - 1;
        proof {
            let was = old(self)@;
            assert(tab::tab_models(self.tabs@) =~= was.tabs.push(tab.value@));
            assert(self@ =~= was.with_tab(tab.value@));
            laws::create_keeps_validity(was, tab.value@);
        }
        let value = self.sync_active_tab();
        Ok(Started { value, start_blinking: tab.start_blinking })
    }

    /// Selects the tab at `index`.
    ///
    /// Where that changes the active tab, the result says how to show it.
    pub fn select_tab(&mut self, index: usize) -> (sync: Option<SyncStart>)
        requires
            old(self)@.wf(),
        ensures
            final(self)@.wf(),
            final(self)@ == old(self)@.select(index as int),
            sync is Some <==> old(self)@.can_select(index as int),
            sync matches Some(sync) ==> sync@ == final(self)@.sync(),
    {
        if index >= self.tabs.len() || index == self.active_tab {
            return None;
        }
        self.active_tab = index;
        assert(self@ =~= old(self)@.select(index as int));
        Some(self.sync_active_tab())
    }

    /// Closes the tab at `index`.
    ///
    /// The only tab of a window is not taken out: its terminal is asked to exit.
    pub fn close_tab(&mut self, index: usize) -> (outcome: CloseOutcome<H>)
        requires
            old(self)@.wf(),
        ensures
            final(self)@.wf(),
            final(self)@ == old(self)@.close(index as int),
            outcome.describes(old(self)@, index as int),
    {
        if index >= self.tabs.len() {
            return CloseOutcome::Nothing;
        }
        if self.tabs.len() == 1 {
            return CloseOutcome::Exit;
        }
        let tab = self.tabs.remove(index);
        if self.active_tab >= self.tabs.len() {
            self.active_tab = self.tabs.len() - 1;
        } else if index < self.active_tab {
            self.active_tab -= 1;
        }
        proof {
            let was = old(self)@;
            assert(tab::tab_models(self.tabs@) =~= was.tabs.remove(index as int));
            assert(self@ =~= was.close(index as int));
            laws::close_keeps_validity(was, index as int);
        }
        let sync = self.sync_active_tab();
        CloseOutcome::Closed { tab, sync }
    }

    /// Acts on a click on the tab bar.
    pub fn handle_tab_bar_hit(&mut self, hit: TabBarHit) -> (outcome: HitOutcome<H>)
        requires
            old(self)@.wf(),
        ensures
            final(self)@.wf(),
            match (hit, outcome) {
                (TabBarHit::Select(index), HitOutcome::Select(sync)) => {
                    &&& final(self)@ == old(self)@.select(index as int)
                    &&& sync is Some <==> old(self)@.can_select(index as int)
                    &&& sync matches Some(sync) ==> sync@ == final(self)@.sync()
                },
                (TabBarHit::Close(index), HitOutcome::Close(outcome)) => {
                    &&& final(self)@ == old(self)@.close(index as int)
                    &&& outcome.describes(old(self)@, index as int)
                },
                _ => false,
            },
    {
        match hit {
            TabBarHit::Select(index) => HitOutcome::Select(self.select_tab(index)),
            TabBarHit::Close(index) => HitOutcome::Close(self.close_tab(index)),
        }
    }

    /// Handles an event of the terminal of the tab `tab_id`.
    ///
    /// An event of a tab that is no longer there is ignored. Titles are kept for
    /// every tab; everything else, and the titles too, reaches the window only
    /// from the active tab.
    pub fn handle_tab_terminal_event(
        &mut self,
        tab_id: u64,
        event: TerminalEvent<P>,
    ) -> (outcome: TabEventOutcome<H>)
        requires
            old(self)@.wf(),
        ensures
            final(self)@.wf(),
            final(self)@ == old(self)@.tab_event(tab_id, event@),
            match outcome {
                TabEventOutcome::Nothing => tab::position_of(old(self)@.tabs, tab_id) is None
                    || !(event is Exit || event is Title || event is ResetTitle),
                TabEventOutcome::ShowTabBar(bar) => {
                    &&& tab::position_of(old(self)@.tabs, tab_id) is Some
                    &&& event is Title || event is ResetTitle
                    &&& bar@ == final(self)@.tab_bar()
                },
                TabEventOutcome::Close(closed) => {
                    &&& event is Exit
                    &&& tab::position_of(old(self)@.tabs, tab_id) matches Some(index)
                        && closed.describes(old(self)@, index)
                },
            },
    {
        let index = match position(&self.tabs, tab_id) {
            Some(index) => index,
            None => return TabEventOutcome::Nothing,
        };

        match event {
            TerminalEvent::Exit => TabEventOutcome::Close(self.close_tab(index)),
            TerminalEvent::Title(title) => {
                self.set_title(index, title.clone());
                self.forward(index, TerminalEvent::Title(title));
                TabEventOutcome::ShowTabBar(self.update_tab_bar())
            },
            TerminalEvent::ResetTitle => {
                let title = self.config.title.clone();
                self.set_title(index, title);
                self.forward(index, TerminalEvent::ResetTitle);
                TabEventOutcome::ShowTabBar(self.update_tab_bar())
            },
            event => {
                if index == self.active_tab {
                    // The terminal has to be drawn again even where the event
                    // itself changes nothing, as when it only announces output.
                    self.dirty = true;
                    self.forward(index, event);
                }
                TabEventOutcome::Nothing
            },
        }
    }

    /// Gives the tab at `index` a title.
    fn set_title(&mut self, index: usize, title: String)
        requires
            old(self)@.wf(),
            index < old(self)@.tabs.len(),
        ensures
            final(self)@.wf(),
            final(self)@ == old(self)@.retitle(index as int, title@),
    {
        self.tabs[index].title = title;
        self.dirty = true;
        proof {
            let was = old(self)@;
            let tabs = was.tabs.update(
                index as int,
                TabModel { title: title@, ..was.tabs[index as int] },
            );
            assert(tab::tab_models(self.tabs@) =~= tabs);
            assert(self@ =~= was.retitle(index as int, title@));
            assert forall|i: int| 0 <= i < tabs.len() implies (#[trigger] tabs[i]).id
                == was.tabs[i].id by {}
        }
    }

    /// Queues an event of the tab at `index` if that is the active tab.
    fn forward(&mut self, index: usize, event: TerminalEvent<P>)
        ensures
            final(self)@ == old(self)@.forward(index as int, event@),
    {
        if index == self.active_tab {
            let window_id = Some(self.id());
            self.event_queue.push(QueuedEvent::Terminal { event, window_id });
            assert(self@ =~= old(self)@.forward(index as int, event@));
        }
    }

    /// What the tab bar has to show.
    fn update_tab_bar(&self) -> (bar: TabBar)
        ensures
            bar@ == self@.tab_bar(),
    {
        tab_bar(&self.tabs, self.active_tab)
    }

    /// Begins to show the active tab after the tabs have changed.
    ///
    /// The display has to show the tab bar, which may appear or disappear, and
    /// to be laid out again for the terminal of the active tab. Once that is
    /// done, [`finish_sync`](Self::finish_sync) says what is left.
    fn sync_active_tab(&self) -> (sync: SyncStart)
        ensures
            sync@ == self@.sync(),
    {
        SyncStart {
            tab_bar: self.update_tab_bar(),
            tab_bar_visible: self.tabs.len() > 1,
            old_is_searching: self.search_state.is_searching(),
        }
    }

    /// Finishes to show the active tab once the display was updated.
    ///
    /// `terminal` is the size of the active tab's terminal, which may stem from
    /// when it was last shown, and `display` the size that there is room for.
    pub fn finish_sync(&mut self, terminal: SizeInfo, display: SizeInfo, has_frame: bool) -> (end:
        SyncEnd)
        ensures
            final(self)@ == old(self)@.marked(true),
            end.resize == terminal::resize_to(terminal, display),
            end.redraw == old(self)@.can_redraw(has_frame),
    {
        let resize = if terminal.screen_lines != display.screen_lines || terminal.columns
            != display.columns {
            Some(display)
        } else {
            None
        };
        self.dirty = true;
        SyncEnd { resize, redraw: self.request_redraw(has_frame) }
    }

    /// Whether a redraw can be requested: the window is visible and the
    /// previous frame is done.
    fn request_redraw(&self, has_frame: bool) -> (redraw: bool)
        ensures
            redraw == self@.can_redraw(has_frame),
    {
        has_frame && !self.occluded
    }

    /// Begins to draw the window.
    ///
    /// Whatever the result, the redraw that was requested is being served.
    pub fn draw(&mut self) -> (step: DrawStep)
        ensures
            final(self)@ == old(self)@.begin_draw(),
            step == (if old(self)@.occluded {
                DrawStep::Skip
            } else {
                DrawStep::Frame
            }),
    {
        if self.occluded {
            return DrawStep::Skip;
        }
        self.dirty = false;
        DrawStep::Frame
    }

    /// Draws a frame, once the renderer was updated.
    ///
    /// While the visual bell is not finished the window has to be drawn again.
    /// Where no redraw can be requested yet, it stays dirty.
    pub fn draw_frame(&mut self, bell_completed: bool, has_frame: bool) -> (plan: FramePlan)
        ensures
            final(self)@ == old(self)@.end_draw(bell_completed, has_frame),
            plan.redraw == (!bell_completed && has_frame),
            plan.tab_bar@ == old(self)@.tab_bar(),
            plan.active_tab == old(self)@.active_tab,
    {
        let mut redraw = false;
        if !bell_completed {
            if has_frame {
                redraw = true;
            } else {
                self.dirty = true;
            }
        }
        FramePlan { redraw, tab_bar: self.update_tab_bar(), active_tab: self.active_tab }
    }

    /// Processes an event of the window.
    ///
    /// Events wait in the queue until the event loop is about to wait or the
    /// window has to be drawn; then all of them are processed for the active
    /// tab.
    pub fn handle_event(&mut self, event: WindowEvent<P>) -> (step: EventStep<P>)
        ensures
            match event {
                WindowEvent::Other(payload) => {
                    &&& step is Queued
                    &&& final(self)@ == old(self)@.enqueue(
                        event::QueuedEventModel::Window(payload),
                    )
                },
                _ => if old(self)@.queue.len() == 0 {
                    step is Idle && final(self)@ == old(self)@
                } else {
                    &&& final(self)@ == old(self)@.drained()
                    &&& step matches EventStep::Process(batch) && {
                        &&& event::event_models(batch.events@) == old(self)@.queue
                        &&& batch.active_tab == old(self)@.active_tab
                        &&& batch.pending == (PendingEvent {
                            redraw_requested: event is RedrawRequested,
                            old_is_searching: old(self)@.search_state.searching(),
                            tab_bar_visible: old(self)@.tab_bar_visible(),
                        })
                    }
                },
            },
    {
        let redraw_requested = match event {
            WindowEvent::AboutToWait => false,
            WindowEvent::RedrawRequested => true,
            WindowEvent::Other(payload) => {
                self.event_queue.push(QueuedEvent::Window(payload));
                assert(self@ =~= old(self)@.enqueue(event::QueuedEventModel::Window(payload)));
                return EventStep::Queued;
            },
        };
        if self.event_queue.is_empty() {
            return EventStep::Idle;
        }
        let mut events: Vec<QueuedEvent<P>> = Vec::new();
        events.append(&mut self.event_queue);
        assert(event::event_models(events@) =~= old(self)@.queue);
        assert(self@ =~= old(self)@.drained());

        let pending = PendingEvent {
            redraw_requested,
            old_is_searching: self.search_state.is_searching(),
            tab_bar_visible: self.tabs.len() > 1,
        };
        EventStep::Process(Batch { events, active_tab: self.active_tab, pending })
    }

    /// What processing the queue starts from.
    pub fn input_state(&self) -> (state: InputOutcome)
        ensures
            state == (InputOutcome {
                dirty: self@.dirty,
                occluded: self@.occluded,
                hint_highlight_dirty: self@.hint_highlight_dirty,
                search_state: self@.search_state,
            }),
    {
        InputOutcome {
            dirty: self.dirty,
            occluded: self.occluded,
            hint_highlight_dirty: self.hint_highlight_dirty,
            search_state: self.search_state,
        }
    }

    /// The queue was processed. `update_pending` says that the display waits to
    /// be updated.
    pub fn input_processed(&mut self, outcome: InputOutcome, update_pending: bool) -> (action:
        EventAction)
        ensures
            final(self)@ == old(self)@.processed(outcome),
            action == (if update_pending {
                EventAction::UpdateDisplay
            } else if outcome.dirty || outcome.hint_highlight_dirty {
                EventAction::UpdateHighlights
            } else {
                EventAction::Done
            }),
    {
        self.dirty = outcome.dirty;
        self.occluded = outcome.occluded;
        self.hint_highlight_dirty = outcome.hint_highlight_dirty;
        self.search_state = outcome.search_state;
        if update_pending {
            EventAction::UpdateDisplay
        } else if self.dirty || self.hint_highlight_dirty {
            EventAction::UpdateHighlights
        } else {
            EventAction::Done
        }
    }

    /// The display was updated while an event was processed; the highlighted
    /// hints are updated next.
    ///
    /// The result says how far the terminal has to be scrolled.
    pub fn display_updated(
        &mut self,
        pending: &PendingEvent,
        cursors: &CursorView,
        search_state: SearchState,
        display_offset: usize,
    ) -> (delta: Option<i32>)
        requires
            cursors.valid(),
        ensures
            final(self)@ == old(self)@.displayed(search_state),
            delta == cursors.search_scroll(
                old(self)@.search_state.direction,
                pending.old_is_searching,
                search_state.searching(),
                display_offset,
            ),
    {
        let delta = self.submit_display_update(
            cursors,
            pending.old_is_searching,
            search_state,
            display_offset,
        );
        self.dirty = true;
        delta
    }

    /// The highlighted hints were updated, which ends the processing of an
    /// event.
    ///
    /// The result says whether to request a redraw. While the window is being
    /// drawn none is requested: `dirty` speaks of the frame that is drawn, and a
    /// redraw would be for the one after it.
    pub fn highlights_updated(
        &mut self,
        pending: &PendingEvent,
        changed: bool,
        has_frame: bool,
    ) -> (redraw: bool)
        ensures
            final(self)@ == old(self)@.highlighted(changed),
            redraw == (final(self)@.dirty && old(self)@.can_redraw(has_frame)
                && !pending.redraw_requested),
    {
        self.dirty = self.dirty || changed;
        self.hint_highlight_dirty = false;
        self.dirty && self.request_redraw(has_frame) && !pending.redraw_requested
    }

    /// The display was updated.
    ///
    /// `cursors` is what the terminal was before the update, `search_state` and
    /// `display_offset` what the search and the terminal are after it. The
    /// result says how far the terminal has to be scrolled.
    pub fn submit_display_update(
        &mut self,
        cursors: &CursorView,
        old_is_searching: bool,
        search_state: SearchState,
        display_offset: usize,
    ) -> (delta: Option<i32>)
        requires
            cursors.valid(),
        ensures
            final(self)@ == old(self)@.searched(search_state),
            delta == cursors.search_scroll(
                old(self)@.search_state.direction,
                old_is_searching,
                search_state.searching(),
                display_offset,
            ),
    {
        let delta = cursors.scroll_on_search_start(
            self.search_state.direction,
            old_is_searching,
            search_state.is_searching(),
            display_offset,
        );
        self.search_state = search_state;
        delta
    }

    /// Lists the files that record a terminal for a reference test.
    ///
    /// `grid` is the grid of the active tab's terminal and `size_info` the size
    /// of the display. Nothing is recorded of a grid that cannot be made ready
    /// to be saved.
    pub fn write_ref_test_results(&self, grid: Grid<Cell>, size_info: &SizeInfo) -> (files: Option<
        Vec<RefTestFile>,
    >)
        ensures
            files is Some <==> ref_test::grid_valid(grid) && ref_test::grid_fits(grid),
            files matches Some(files) ==> ref_test::files_record(files@, grid, *size_info),
    {
        ref_test_files(grid, size_info)
    }

    /// Takes over the search, which drawing a frame may have changed.
    pub fn set_search_state(&mut self, search_state: SearchState)
        ensures
            final(self)@ == old(self)@.searched(search_state),
    {
        self.search_state = search_state;
    }

    /// Whether the window has to be drawn again.
    pub fn dirty(&self) -> (dirty: bool)
        ensures
            dirty == self@.dirty,
    {
        self.dirty
    }

    /// Says whether the window has to be drawn again.
    pub fn set_dirty(&mut self, dirty: bool)
        ensures
            final(self)@ == old(self)@.marked(dirty),
    {
        self.dirty = dirty;
    }

    /// The id of the window.
    pub fn id(&self) -> (id: u64)
        ensures
            id == self@.window_id,
    {
        self.window_id
    }

    /// The tabs of the window, in order.
    pub fn tabs(&self) -> (tabs: &Vec<TerminalTab<H>>)
        ensures
            tab::tab_models(tabs@) == self@.tabs,
    {
        &self.tabs
    }

    /// Which of the tabs is active.
    pub fn active_tab(&self) -> (index: usize)
        ensures
            index == self@.active_tab,
    {
        self.active_tab
    }

    /// The id that the next tab gets.
    pub fn next_tab_id(&self) -> (id: u64)
        ensures
            id == self@.next_tab_id,
    {
        self.next_tab_id
    }
}

} // verus!
