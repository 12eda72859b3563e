//! What each operation of a window does, in terms of what goes in and what comes
//! out.
//!
//! Every law here speaks of a call: whatever the call returned, and whatever it
//! left behind, this holds of it.

use std::rc::Rc;

use alacritty_terminal::grid::Grid;
use alacritty_terminal::term::cell::Cell;
use vstd::prelude::*;

use crate::config::{ConfigDelta, ConfigUpdate, FontUpdate, UiConfig, WindowOptions};
use crate::context::{
    CloseOutcome, ConfigReload, DrawStep, FramePlan, HitOutcome, MessageTarget, PtyOptions,
    SpawnedTerminal, Started, SyncEnd, SyncStart, TabEventOutcome, TerminalRequest, WindowContext,
};
use crate::decimal;
use crate::event::{
    EventAction, EventStep, InputOutcome, PendingEvent, QueuedEvent, QueuedEventModel,
    TerminalEvent, TerminalEventModel, WindowEvent,
};
use crate::laws;
use crate::model::ContextModel;
use crate::ref_test::{self, RefTestFile};
use crate::setup::{self, Platform, SetupStep};
use crate::tab::{self, ShellProcess, TabBar, TabBarHit, TabModel, TerminalTab};
use crate::terminal::{CursorView, Direction, SearchState, SizeInfo};

verus! {

// ---------------------------------------------------------------------------
// What stays
// ---------------------------------------------------------------------------

/// The window is the same one, under the same configuration and settings.
pub open spec fn same_window<H, P, O>(
    before: ContextModel<H, P, O>,
    after: ContextModel<H, P, O>,
) -> bool {
    &&& after.window_id == before.window_id
    &&& after.config == before.config
    &&& after.window_config == before.window_config
}

/// The window has the same tabs, and the same one of them is active.
pub open spec fn same_tabs<H, P, O>(
    before: ContextModel<H, P, O>,
    after: ContextModel<H, P, O>,
) -> bool {
    &&& after.tabs == before.tabs
    &&& after.active_tab == before.active_tab
    &&& after.next_tab_id == before.next_tab_id
}

/// What input has left behind is the same, apart from whether the window has to
/// be drawn again.
pub open spec fn same_input<H, P, O>(
    before: ContextModel<H, P, O>,
    after: ContextModel<H, P, O>,
) -> bool {
    &&& after.occluded == before.occluded
    &&& after.hint_highlight_dirty == before.hint_highlight_dirty
    &&& after.search_state == before.search_state
}

/// Nothing has changed.
pub open spec fn unchanged<H, P, O>(
    before: ContextModel<H, P, O>,
    after: ContextModel<H, P, O>,
) -> bool {
    &&& same_window(before, after)
    &&& same_tabs(before, after)
    &&& same_input(before, after)
    &&& after.queue == before.queue
    &&& after.dirty == before.dirty
}

/// Nothing but which tabs there are, and which one is active, has changed.
pub open spec fn only_tabs_change<H, P, O>(
    before: ContextModel<H, P, O>,
    after: ContextModel<H, P, O>,
) -> bool {
    &&& same_window(before, after)
    &&& same_input(before, after)
    &&& after.queue == before.queue
    &&& after.dirty == before.dirty
}

/// The bar lists the titles of all tabs in order and marks the active one.
pub open spec fn bar_shows<H, P, O>(bar: TabBar, window: ContextModel<H, P, O>) -> bool {
    &&& bar.titles@.len() == window.tabs.len()
    &&& forall|i: int|
        0 <= i < window.tabs.len() ==> (#[trigger] bar.titles@[i])@ == window.tabs[i].title
    &&& bar.active == window.active_tab
}

/// The active tab is shown: the bar lists all tabs, and appears exactly if there
/// is more than one.
pub open spec fn sync_shows<H, P, O>(sync: SyncStart, window: ContextModel<H, P, O>) -> bool {
    &&& bar_shows(sync.tab_bar, window)
    &&& sync.tab_bar_visible <==> window.tabs.len() >= 2
    &&& sync.old_is_searching <==> window.search_state.history_index is Some
}

/// An event is what a model says it is.
pub open spec fn same_terminal_event<P>(
    event: TerminalEvent<P>,
    model: TerminalEventModel<P>,
) -> bool {
    match (event, model) {
        (TerminalEvent::Exit, TerminalEventModel::Exit) => true,
        (TerminalEvent::Title(title), TerminalEventModel::Title(shown)) => title@ == shown,
        (TerminalEvent::ResetTitle, TerminalEventModel::ResetTitle) => true,
        (TerminalEvent::CursorBlinkingChange, TerminalEventModel::CursorBlinkingChange) => true,
        (TerminalEvent::Other(payload), TerminalEventModel::Other(other)) => payload == other,
        _ => false,
    }
}

/// A waiting event is what a model says it is.
pub open spec fn same_queued_event<P>(event: QueuedEvent<P>, model: QueuedEventModel<P>) -> bool {
    match (event, model) {
        (QueuedEvent::Window(payload), QueuedEventModel::Window(other)) => payload == other,
        (
            QueuedEvent::Terminal { event, window_id },
            QueuedEventModel::Terminal { event: model, window_id: other },
        ) => same_terminal_event(event, model) && window_id == other,
        _ => false,
    }
}

// ---------------------------------------------------------------------------
// What can be asked of a window
// ---------------------------------------------------------------------------

/// A configuration stands for its settings, each under its own name.
pub proof fn config_stands_for_settings(config: UiConfig)
    ensures
        config@.title == config.title@,
        config@.dynamic_title == config.dynamic_title,
        config@.dynamic_padding == config.dynamic_padding,
        config@.resize_increments == config.resize_increments,
        config@.theme == config.theme,
        config@.option_as_alt == config.option_as_alt,
        config@.blur == config.blur,
        config@.opaque == config.opaque,
        config@.hint_alphabet == config.hint_alphabet@,
        config@.cursor_blinking == config.cursor_blinking,
        config@.ref_test == config.ref_test,
{
}

/// What an event stands for tells it from every other event.
pub proof fn event_stands_for_itself<P>(event: TerminalEvent<P>, queued: QueuedEvent<P>)
    ensures
        same_terminal_event(event, event@),
        same_queued_event(queued, queued@),
{
}

/// The tabs that a window hands out are those it has, in order, with all that
/// belongs to each of them.
pub proof fn tabs_are_listed<H, P, O>(
    context: WindowContext<H, P, O>,
    tabs: &Vec<TerminalTab<H>>,
    index: int,
)
    requires
        call_ensures(WindowContext::<H, P, O>::tabs, (&context,), tabs),
    ensures
        tabs@.len() == context@.tabs.len(),
        0 <= index < tabs@.len() ==> {
            &&& tabs@[index].id == context@.tabs[index].id
            &&& tabs@[index].title@ == context@.tabs[index].title
            &&& tabs@[index].preserve_title == context@.tabs[index].preserve_title
            &&& tabs@[index].process == context@.tabs[index].process
            &&& tabs@[index].terminal == context@.tabs[index].terminal
        },
{
    assert(context@.tabs.len() == tabs@.len());
    if 0 <= index < tabs@.len() {
        assert(context@.tabs[index] == tabs@[index]@);
    }
}

/// A window says of itself which one it is, which tab is active, whether it has
/// to be drawn, and which id comes next.
pub proof fn window_is_described<H, P, O>(
    context: WindowContext<H, P, O>,
    id: u64,
    active_tab: usize,
    dirty: bool,
    next_tab_id: u64,
)
    requires
        call_ensures(WindowContext::<H, P, O>::id, (&context,), id),
        call_ensures(WindowContext::<H, P, O>::active_tab, (&context,), active_tab),
        call_ensures(WindowContext::<H, P, O>::dirty, (&context,), dirty),
        call_ensures(WindowContext::<H, P, O>::next_tab_id, (&context,), next_tab_id),
    ensures
        id == context@.window_id,
        active_tab == context@.active_tab,
        dirty == context@.dirty,
        next_tab_id == context@.next_tab_id,
{
}

/// A window says which configuration it runs under, and what overrides it.
pub proof fn settings_are_described<H, P, O>(
    context: WindowContext<H, P, O>,
    config: &UiConfig,
    options: &Vec<O>,
)
    requires
        call_ensures(WindowContext::<H, P, O>::config, (&context,), config),
        call_ensures(WindowContext::<H, P, O>::window_config, (&context,), options),
    ensures
        config.title@ == context@.config.title,
        config.dynamic_title == context@.config.dynamic_title,
        config.dynamic_padding == context@.config.dynamic_padding,
        config.resize_increments == context@.config.resize_increments,
        config.theme == context@.config.theme,
        config.option_as_alt == context@.config.option_as_alt,
        config.blur == context@.config.blur,
        config.opaque == context@.config.opaque,
        config.hint_alphabet@ == context@.config.hint_alphabet,
        config.cursor_blinking == context@.config.cursor_blinking,
        config.ref_test == context@.config.ref_test,
        options@ == context@.window_config,
{
}

/// Processing of input starts from what the window is.
pub proof fn input_starts_from_window<H, P, O>(
    context: WindowContext<H, P, O>,
    state: InputOutcome,
)
    requires
        call_ensures(WindowContext::<H, P, O>::input_state, (&context,), state),
    ensures
        state.dirty == context@.dirty,
        state.occluded == context@.occluded,
        state.hint_highlight_dirty == context@.hint_highlight_dirty,
        state.search_state.history_index == context@.search_state.history_index,
        state.search_state.direction == context@.search_state.direction,
{
}

/// A search runs exactly while an entry of its history is edited.
pub proof fn search_runs_while_edited(search_state: SearchState, searching: bool)
    requires
        call_ensures(SearchState::is_searching, (&search_state,), searching),
    ensures
        searching <==> search_state.history_index is Some,
{
}

/// Nothing is asked for by default, and no search runs, which would be a forward
/// one.
pub proof fn defaults_ask_for_nothing<D>(options: WindowOptions<D>, search_state: SearchState)
    requires
        call_ensures(<WindowOptions<D> as Default>::default, (), options),
        call_ensures(<SearchState as Default>::default, (), search_state),
    ensures
        options.title is None,
        options.working_directory is None,
        options.window_tabbing_id is None,
        search_state.history_index is None,
        search_state.direction == Direction::Right,
{
}

// ---------------------------------------------------------------------------
// Opening a window
// ---------------------------------------------------------------------------

/// The tab runs the terminal that was started for it. It has the title that was
/// asked for, which is then protected, or else the configured one, which is not.
pub open spec fn tab_of<H>(
    tab: TabModel<H>,
    id: u64,
    asked: Option<String>,
    configured: Seq<char>,
    spawned: SpawnedTerminal<H>,
) -> bool {
    &&& tab.id == id
    &&& asked matches Some(title) ==> tab.title == title@ && tab.preserve_title
    &&& asked is None ==> tab.title == configured && !tab.preserve_title
    &&& tab.process == spawned.process
    &&& tab.terminal == spawned.terminal
}

/// The window is a new one: it has one tab, nothing waits, nothing is to be
/// drawn, and no search was ever made.
pub open spec fn window_is_new<H, P, O>(
    window: ContextModel<H, P, O>,
    window_id: u64,
    config: UiConfig,
    asked: Option<String>,
    spawned: SpawnedTerminal<H>,
) -> bool {
    &&& window.window_id == window_id
    &&& window.config == config@
    &&& window.tabs.len() == 1
    &&& tab_of(window.tabs[0], 0, asked, config.title@, spawned)
    &&& window.active_tab == 0
    &&& window.next_tab_id == 1
    &&& window.queue.len() == 0
    &&& !window.dirty
    &&& !window.occluded
    &&& !window.hint_highlight_dirty
    &&& window.search_state.history_index is None
    &&& window.search_state.direction == Direction::Right
}

/// The first window is opened if its terminal could be started, with that
/// terminal in its only tab and no settings of its own.
pub proof fn initial_opens_window<H, P, O, D, E>(
    window_id: u64,
    config: Rc<UiConfig>,
    options: WindowOptions<D>,
    spawned: SpawnedTerminal<H>,
    opened: Result<Started<WindowContext<H, P, O>>, E>,
)
    requires
        call_ensures(
            WindowContext::<H, P, O>::initial::<D, E>,
            (window_id, config, options, Ok(spawned)),
            opened,
        ),
    ensures
        opened matches Ok(started) && {
            &&& window_is_new(started.value@, window_id, *config, options.title, spawned)
            &&& started.value@.window_config.len() == 0
            &&& started.value@.wf()
            &&& started.start_blinking == config.cursor_blinking
        },
{
}

/// One more window is opened in the same way, and keeps the settings that
/// override its configuration.
pub proof fn additional_opens_window<H, P, O, D, E>(
    window_id: u64,
    config: Rc<UiConfig>,
    options: WindowOptions<D>,
    config_overrides: Vec<O>,
    spawned: SpawnedTerminal<H>,
    opened: Result<Started<WindowContext<H, P, O>>, E>,
)
    requires
        call_ensures(
            WindowContext::<H, P, O>::additional::<D, E>,
            (window_id, config, options, config_overrides, Ok(spawned)),
            opened,
        ),
    ensures
        opened matches Ok(started) && {
            &&& window_is_new(started.value@, window_id, *config, options.title, spawned)
            &&& started.value@.window_config == config_overrides@
            &&& started.value@.wf()
            &&& started.start_blinking == config.cursor_blinking
        },
{
}

/// Without a terminal there is no window: the error comes back as it was.
pub proof fn no_terminal_no_window<H, P, O, D, E>(
    window_id: u64,
    config: Rc<UiConfig>,
    options: WindowOptions<D>,
    config_overrides: Vec<O>,
    error: E,
    first: Result<Started<WindowContext<H, P, O>>, E>,
    other: Result<Started<WindowContext<H, P, O>>, E>,
)
    requires
        call_ensures(
            WindowContext::<H, P, O>::initial::<D, E>,
            (window_id, config, options, Err(error)),
            first,
        ),
        call_ensures(
            WindowContext::<H, P, O>::additional::<D, E>,
            (window_id, config, options, config_overrides, Err(error)),
            other,
        ),
    ensures
        first matches Err(returned) && returned == error,
        other matches Err(returned) && returned == error,
{
}

/// The first terminal announces its events for the window that is opened and
/// for the tab that the window gives it to. It has the size of the display and
/// is launched as it was asked for.
pub proof fn first_terminal_belongs_to_window<H, P, O, C, D, E>(
    config: Rc<UiConfig>,
    pty_options: PtyOptions<C>,
    size: SizeInfo,
    window_id: u64,
    request: TerminalRequest<C>,
    options: WindowOptions<D>,
    spawned: SpawnedTerminal<H>,
    opened: Result<Started<WindowContext<H, P, O>>, E>,
)
    requires
        call_ensures(
            WindowContext::<H, P, O>::first_tab_request::<C>,
            (&*config, pty_options, size, window_id),
            request,
        ),
        call_ensures(
            WindowContext::<H, P, O>::initial::<D, E>,
            (window_id, config, options, Ok(spawned)),
            opened,
        ),
    ensures
        request.window_id == window_id,
        opened matches Ok(started) && started.value@.tabs[0].id == request.tab_id
            && started.value@.window_id == request.window_id,
        request.size.screen_lines == size.screen_lines,
        request.size.columns == size.columns,
        request.launch == pty_options.launch,
        request.drain_on_exit == pty_options.drain_on_exit,
        request.ref_test == config.ref_test,
{
}

// ---------------------------------------------------------------------------
// Tabs
// ---------------------------------------------------------------------------

/// A new tab starts in the directory of the shell in the active tab.
pub proof fn new_tab_asks_active_shell<H, P, O>(
    context: WindowContext<H, P, O>,
    process: Option<ShellProcess>,
)
    requires
        call_ensures(WindowContext::<H, P, O>::new_tab_process, (&context,), process),
    ensures
        process == context@.tabs[context@.active_tab].process,
{
}

/// A directory that was found is handed on; one that could not be found, or was
/// not looked for, is left out. No title and no group of windows is asked for.
pub proof fn new_tab_options_hold_directory<H, P, O, D, E>(
    directory: Option<Result<D, E>>,
    options: WindowOptions<D>,
)
    requires
        call_ensures(
            WindowContext::<H, P, O>::new_tab_options::<D, E>,
            (directory,),
            options,
        ),
    ensures
        forall|found: D|
            directory == Some(Ok::<D, E>(found)) <==> options.working_directory == Some(found),
        options.title is None,
        options.window_tabbing_id is None,
{
}

/// The terminal of a new tab announces its events for this window and for the
/// next tab, has the size of the display and is launched as it was asked for.
pub proof fn new_terminal_belongs_to_next_tab<H, P, O, C>(
    context: WindowContext<H, P, O>,
    pty_options: PtyOptions<C>,
    size: SizeInfo,
    request: TerminalRequest<C>,
)
    requires
        call_ensures(
            WindowContext::<H, P, O>::new_tab_request::<C>,
            (&context, pty_options, size),
            request,
        ),
    ensures
        request.window_id == context@.window_id,
        request.tab_id == context@.next_tab_id,
        request.size.screen_lines == size.screen_lines,
        request.size.columns == size.columns,
        request.launch == pty_options.launch,
        request.drain_on_exit == pty_options.drain_on_exit,
        request.ref_test == context@.config.ref_test,
{
}

proof fn sync_shows_window<H, P, O>(sync: SyncStart, window: ContextModel<H, P, O>)
    requires
        sync@ == window.sync(),
    ensures
        sync_shows(sync, window),
{
    assert(sync@.tab_bar.titles.len() == window.tabs.len());
    assert forall|i: int| 0 <= i < window.tabs.len() implies (
    #[trigger] sync.tab_bar.titles@[i])@ == window.tabs[i].title by {
        assert(sync@.tab_bar.titles[i] == window.tabs[i].title);
    }
}

/// A new tab comes behind the others, which stay as they are. It is active and
/// shown, the bar is visible from then on, and its id is used up.
pub proof fn create_appends_active_tab<H, P, O, D, E>(
    context: &mut WindowContext<H, P, O>,
    options: WindowOptions<D>,
    spawned: SpawnedTerminal<H>,
    created: Result<Started<SyncStart>, E>,
)
    requires
        old(context)@.wf(),
        old(context)@.next_tab_id < u64::MAX,
        call_ensures(
            WindowContext::<H, P, O>::create_tab::<D, E>,
            (context, options, Ok(spawned)),
            created,
        ),
    ensures
        ({
            let before = old(context)@;
            let after = final(context)@;
            &&& after.tabs.len() == before.tabs.len() + 1
            &&& forall|i: int|
                0 <= i < before.tabs.len() ==> (#[trigger] after.tabs[i]) == before.tabs[i]
            &&& tab_of(
                after.tabs[before.tabs.len() as int],
                before.next_tab_id,
                options.title,
                before.config.title,
                spawned,
            )
            &&& after.active_tab == before.tabs.len()
            &&& after.next_tab_id == before.next_tab_id + 1
            &&& only_tabs_change(before, after)
            &&& created matches Ok(started) && {
                &&& sync_shows(started.value, after)
                &&& started.value.tab_bar_visible
                &&& started.start_blinking == before.config.cursor_blinking
            }
        }),
{
    if let Ok(started) = created {
        sync_shows_window(started.value, final(context)@);
    }
}

/// Where no terminal could be started the window stays as it is, and the error
/// comes back as it was.
pub proof fn failed_create_changes_nothing<H, P, O, D, E>(
    context: &mut WindowContext<H, P, O>,
    options: WindowOptions<D>,
    error: E,
    created: Result<Started<SyncStart>, E>,
)
    requires
        call_ensures(
            WindowContext::<H, P, O>::create_tab::<D, E>,
            (context, options, Err(error)),
            created,
        ),
    ensures
        unchanged(old(context)@, final(context)@),
        created matches Err(returned) && returned == error,
{
}

/// The tab at `index` was selected: it is active and shown, unless it was active
/// before or is no tab of the window, and then nothing has happened.
pub open spec fn tab_selected<H, P, O>(
    before: ContextModel<H, P, O>,
    after: ContextModel<H, P, O>,
    index: usize,
    sync: Option<SyncStart>,
) -> bool {
    &&& only_tabs_change(before, after)
    &&& after.tabs == before.tabs
    &&& after.next_tab_id == before.next_tab_id
    &&& index < before.tabs.len() ==> after.active_tab == index
    &&& index >= before.tabs.len() ==> after.active_tab == before.active_tab
    &&& sync is Some <==> after.active_tab != before.active_tab
    &&& sync matches Some(sync) ==> sync_shows(sync, after)
}

/// Selecting a tab makes it the active one and changes nothing else.
pub proof fn select_activates_tab<H, P, O>(
    context: &mut WindowContext<H, P, O>,
    index: usize,
    sync: Option<SyncStart>,
)
    requires
        old(context)@.wf(),
        call_ensures(WindowContext::<H, P, O>::select_tab, (context, index), sync),
    ensures
        tab_selected(old(context)@, final(context)@, index, sync),
{
    if let Some(sync) = sync {
        sync_shows_window(sync, final(context)@);
    }
}

/// The tab at `index` was closed. The other tabs stay, in order, and the same one
/// of them is active as before; only if the active tab itself was closed its
/// neighbour is, the one behind it if there is one. The closed tab is handed out
/// to be shut down. The only tab of a window is told to exit instead.
pub open spec fn tab_closed<H, P, O>(
    before: ContextModel<H, P, O>,
    after: ContextModel<H, P, O>,
    index: usize,
    outcome: CloseOutcome<H>,
) -> bool {
    &&& only_tabs_change(before, after)
    &&& after.next_tab_id == before.next_tab_id
    &&& index >= before.tabs.len() ==> unchanged(before, after) && outcome is Nothing
    &&& index < before.tabs.len() && before.tabs.len() == 1 ==> unchanged(before, after)
        && outcome is Exit
    &&& index < before.tabs.len() && before.tabs.len() > 1 ==> {
        &&& after.tabs.len() == before.tabs.len() - 1
        &&& forall|i: int|
            0 <= i < after.tabs.len() ==> (#[trigger] after.tabs[i]) == (if i < index {
                before.tabs[i]
            } else {
                before.tabs[i + 1]
            })
        &&& index < before.active_tab ==> after.active_tab == before.active_tab - 1
        &&& index > before.active_tab ==> after.active_tab == before.active_tab
        &&& index == before.active_tab && index < after.tabs.len() ==> after.active_tab == index
        &&& index == before.active_tab && index == after.tabs.len() ==> after.active_tab == index
            - 1
        &&& outcome matches CloseOutcome::Closed { tab, sync } && {
            &&& tab.id == before.tabs[index as int].id
            &&& tab.title@ == before.tabs[index as int].title
            &&& tab.preserve_title == before.tabs[index as int].preserve_title
            &&& tab.process == before.tabs[index as int].process
            &&& tab.terminal == before.tabs[index as int].terminal
            &&& sync_shows(sync, after)
        }
    }
}

proof fn close_outcome_is_told<H, P, O>(
    before: ContextModel<H, P, O>,
    index: usize,
    outcome: CloseOutcome<H>,
)
    requires
        before.wf(),
        outcome.describes(before, index as int),
    ensures
        tab_closed(before, before.close(index as int), index, outcome),
{
    if let CloseOutcome::Closed { tab, sync } = outcome {
        assert(tab@ == before.tabs[index as int]);
        sync_shows_window(sync, before.close(index as int));
    }
}

/// Closing a tab takes that tab out of the window and changes nothing else.
pub proof fn close_removes_tab<H, P, O>(
    context: &mut WindowContext<H, P, O>,
    index: usize,
    outcome: CloseOutcome<H>,
)
    requires
        old(context)@.wf(),
        call_ensures(WindowContext::<H, P, O>::close_tab, (context, index), outcome),
    ensures
        tab_closed(old(context)@, final(context)@, index, outcome),
{
    close_outcome_is_told(old(context)@, index, outcome);
}

/// A click on a tab selects it, and a click on its button closes it.
pub proof fn hit_selects_or_closes<H, P, O>(
    context: &mut WindowContext<H, P, O>,
    hit: TabBarHit,
    outcome: HitOutcome<H>,
)
    requires
        old(context)@.wf(),
        call_ensures(WindowContext::<H, P, O>::handle_tab_bar_hit, (context, hit), outcome),
    ensures
        hit matches TabBarHit::Select(index) ==> outcome matches HitOutcome::Select(sync)
            && tab_selected(old(context)@, final(context)@, index, sync),
        hit matches TabBarHit::Close(index) ==> outcome matches HitOutcome::Close(closed)
            && tab_closed(old(context)@, final(context)@, index, closed),
{
    match (hit, outcome) {
        (TabBarHit::Select(index), HitOutcome::Select(Some(sync))) => {
            sync_shows_window(sync, final(context)@);
        },
        (TabBarHit::Close(index), HitOutcome::Close(closed)) => {
            close_outcome_is_told(old(context)@, index, closed);
        },
        _ => {},
    }
}

// ---------------------------------------------------------------------------
// Events of terminals
// ---------------------------------------------------------------------------

/// The tab at `index` has got a title. Every other tab, and everything else that
/// belongs to this one, stays; the bar shows the new title, the window is drawn
/// again, and the event waits in the queue if the tab is the active one.
pub open spec fn tab_titled<H, P, O>(
    before: ContextModel<H, P, O>,
    after: ContextModel<H, P, O>,
    index: int,
    title: Seq<char>,
    event: TerminalEventModel<P>,
    outcome: TabEventOutcome<H>,
) -> bool {
    &&& same_window(before, after)
    &&& same_input(before, after)
    &&& after.tabs.len() == before.tabs.len()
    &&& forall|i: int|
        0 <= i < before.tabs.len() && i != index ==> (#[trigger] after.tabs[i]) == before.tabs[i]
    &&& after.tabs[index].title == title
    &&& after.tabs[index].id == before.tabs[index].id
    &&& after.tabs[index].preserve_title == before.tabs[index].preserve_title
    &&& after.tabs[index].process == before.tabs[index].process
    &&& after.tabs[index].terminal == before.tabs[index].terminal
    &&& after.active_tab == before.active_tab
    &&& after.next_tab_id == before.next_tab_id
    &&& after.dirty
    &&& index == before.active_tab ==> after.queue == before.queue.push(
        QueuedEventModel::Terminal { event, window_id: Some(before.window_id) },
    )
    &&& index != before.active_tab ==> after.queue == before.queue
    &&& outcome matches TabEventOutcome::ShowTabBar(bar) && bar_shows(bar, after)
}

proof fn bar_shows_window<H, P, O>(bar: TabBar, window: ContextModel<H, P, O>)
    requires
        bar@ == window.tab_bar(),
    ensures
        bar_shows(bar, window),
{
    assert(bar@.titles.len() == window.tabs.len());
    assert forall|i: int| 0 <= i < window.tabs.len() implies (#[trigger] bar.titles@[i])@
        == window.tabs[i].title by {
        assert(bar@.titles[i] == window.tabs[i].title);
    }
}

/// A title that a terminal reports becomes the title of its own tab and of no
/// other.
pub proof fn title_names_own_tab<H, P, O>(
    context: &mut WindowContext<H, P, O>,
    index: int,
    title: String,
    outcome: TabEventOutcome<H>,
)
    requires
        old(context)@.wf(),
        0 <= index < old(context)@.tabs.len(),
        call_ensures(
            WindowContext::<H, P, O>::handle_tab_terminal_event,
            (context, old(context)@.tabs[index].id, TerminalEvent::Title(title)),
            outcome,
        ),
    ensures
        tab_titled(
            old(context)@,
            final(context)@,
            index,
            title@,
            TerminalEventModel::Title(title@),
            outcome,
        ),
{
    laws::tab_has_position(old(context)@, index);
    if let TabEventOutcome::ShowTabBar(bar) = outcome {
        bar_shows_window(bar, final(context)@);
    }
}

/// A terminal that resets its title gives its own tab, and no other, the
/// configured title.
pub proof fn reset_names_own_tab<H, P, O>(
    context: &mut WindowContext<H, P, O>,
    index: int,
    outcome: TabEventOutcome<H>,
)
    requires
        old(context)@.wf(),
        0 <= index < old(context)@.tabs.len(),
        call_ensures(
            WindowContext::<H, P, O>::handle_tab_terminal_event,
            (context, old(context)@.tabs[index].id, TerminalEvent::ResetTitle),
            outcome,
        ),
    ensures
        tab_titled(
            old(context)@,
            final(context)@,
            index,
            old(context)@.config.title,
            TerminalEventModel::ResetTitle,
            outcome,
        ),
{
    laws::tab_has_position(old(context)@, index);
    if let TabEventOutcome::ShowTabBar(bar) = outcome {
        bar_shows_window(bar, final(context)@);
    }
}

/// A terminal that has ended closes its own tab.
pub proof fn exit_closes_tab<H, P, O>(
    context: &mut WindowContext<H, P, O>,
    index: usize,
    outcome: TabEventOutcome<H>,
)
    requires
        old(context)@.wf(),
        index < old(context)@.tabs.len(),
        call_ensures(
            WindowContext::<H, P, O>::handle_tab_terminal_event,
            (context, old(context)@.tabs[index as int].id, TerminalEvent::Exit),
            outcome,
        ),
    ensures
        outcome matches TabEventOutcome::Close(closed) && tab_closed(
            old(context)@,
            final(context)@,
            index,
            closed,
        ),
{
    laws::tab_has_position(old(context)@, index as int);
    if let TabEventOutcome::Close(closed) = outcome {
        close_outcome_is_told(old(context)@, index, closed);
    }
}

/// Any other event of the active tab makes the window dirty, so that new output
/// is drawn, and waits in the queue for this window, behind what waited before.
/// Any other event of another tab changes nothing.
pub proof fn output_reaches_window<H, P, O>(
    context: &mut WindowContext<H, P, O>,
    index: int,
    event: TerminalEvent<P>,
    outcome: TabEventOutcome<H>,
)
    requires
        old(context)@.wf(),
        0 <= index < old(context)@.tabs.len(),
        event is CursorBlinkingChange || event is Other,
        call_ensures(
            WindowContext::<H, P, O>::handle_tab_terminal_event,
            (context, old(context)@.tabs[index].id, event),
            outcome,
        ),
    ensures
        outcome is Nothing,
        index != old(context)@.active_tab ==> unchanged(old(context)@, final(context)@),
        index == old(context)@.active_tab ==> {
            let before = old(context)@;
            let after = final(context)@;
            &&& same_window(before, after)
            &&& same_tabs(before, after)
            &&& same_input(before, after)
            &&& after.dirty
            &&& after.queue.len() == before.queue.len() + 1
            &&& forall|i: int|
                0 <= i < before.queue.len() ==> (#[trigger] after.queue[i]) == before.queue[i]
            &&& after.queue.last() matches QueuedEventModel::Terminal { event: waiting, window_id }
                && same_terminal_event(event, waiting) && window_id == Some(before.window_id)
        },
{
    laws::tab_has_position(old(context)@, index);
}

/// An event of a tab that the window does not have changes nothing.
pub proof fn stray_event_changes_nothing<H, P, O>(
    context: &mut WindowContext<H, P, O>,
    tab_id: u64,
    event: TerminalEvent<P>,
    outcome: TabEventOutcome<H>,
)
    requires
        forall|i: int|
            0 <= i < old(context)@.tabs.len() ==> (#[trigger] old(context)@.tabs[i]).id != tab_id,
        call_ensures(
            WindowContext::<H, P, O>::handle_tab_terminal_event,
            (context, tab_id, event),
            outcome,
        ),
    ensures
        unchanged(old(context)@, final(context)@),
        outcome is Nothing,
{
    laws::unknown_tab_is_ignored(old(context)@, tab_id, event@);
    let tabs = old(context)@.tabs;
    if exists|i: int| tab::first_with_id(tabs, tab_id, i) {
        let i = choose|i: int| tab::first_with_id(tabs, tab_id, i);
        assert(tabs[i].id == tab_id);
    }
}

// ---------------------------------------------------------------------------
// Events of the window
// ---------------------------------------------------------------------------

/// An event of the window waits behind the others.
pub proof fn event_waits<H, P, O>(
    context: &mut WindowContext<H, P, O>,
    payload: P,
    step: EventStep<P>,
)
    requires
        call_ensures(
            WindowContext::<H, P, O>::handle_event,
            (context, WindowEvent::Other(payload)),
            step,
        ),
    ensures
        step is Queued,
        ({
            let before = old(context)@;
            let after = final(context)@;
            &&& same_window(before, after)
            &&& same_tabs(before, after)
            &&& same_input(before, after)
            &&& after.dirty == before.dirty
            &&& after.queue == before.queue.push(QueuedEventModel::Window(payload))
        }),
{
}

/// When the event loop is about to wait, or the window has to be drawn, all
/// events that wait are handed out in the order in which they came, to be
/// processed for the active tab. Nothing but the queue changes: a window that
/// has to be drawn again still has to be.
pub proof fn queue_is_handed_out<H, P, O>(
    context: &mut WindowContext<H, P, O>,
    event: WindowEvent<P>,
    step: EventStep<P>,
)
    requires
        event is AboutToWait || event is RedrawRequested,
        call_ensures(WindowContext::<H, P, O>::handle_event, (context, event), step),
    ensures
        ({
            let before = old(context)@;
            let after = final(context)@;
            &&& same_window(before, after)
            &&& same_tabs(before, after)
            &&& same_input(before, after)
            &&& after.dirty == before.dirty
            &&& after.queue.len() == 0
            &&& before.queue.len() == 0 ==> step is Idle
            &&& before.queue.len() > 0 ==> (step matches EventStep::Process(batch) && {
                &&& batch.events@.len() == before.queue.len()
                &&& forall|i: int|
                    0 <= i < before.queue.len() ==> same_queued_event(
                        #[trigger] batch.events@[i],
                        before.queue[i],
                    )
                &&& batch.active_tab == before.active_tab
                &&& batch.pending.redraw_requested <==> event is RedrawRequested
                &&& batch.pending.old_is_searching <==> before.search_state.history_index is Some
                &&& batch.pending.tab_bar_visible <==> before.tabs.len() >= 2
            })
        }),
{
    if let EventStep::Process(batch) = step {
        let queue = old(context)@.queue;
        assert(queue.len() == batch.events@.len());
        assert forall|i: int| 0 <= i < queue.len() implies same_queued_event(
            #[trigger] batch.events@[i],
            queue[i],
        ) by {
            assert(queue[i] == batch.events@[i]@);
            event_stands_for_itself(TerminalEvent::<P>::Exit, batch.events@[i]);
        }
    }
}

/// The window takes over what processing the queue has left, all of the search
/// included. An update of the display comes next if one is due, or else the
/// hints, if something has changed.
pub proof fn processing_is_taken_over<H, P, O>(
    context: &mut WindowContext<H, P, O>,
    outcome: InputOutcome,
    update_pending: bool,
    action: EventAction,
)
    requires
        call_ensures(
            WindowContext::<H, P, O>::input_processed,
            (context, outcome, update_pending),
            action,
        ),
    ensures
        ({
            let before = old(context)@;
            let after = final(context)@;
            &&& same_window(before, after)
            &&& same_tabs(before, after)
            &&& after.queue == before.queue
            &&& after.dirty == outcome.dirty
            &&& after.occluded == outcome.occluded
            &&& after.hint_highlight_dirty == outcome.hint_highlight_dirty
            &&& after.search_state.history_index == outcome.search_state.history_index
            &&& after.search_state.direction == outcome.search_state.direction
        }),
        action == EventAction::UpdateDisplay <==> update_pending,
        action == EventAction::UpdateHighlights <==> !update_pending && (outcome.dirty
            || outcome.hint_highlight_dirty),
        action == EventAction::Done <==> !update_pending && !outcome.dirty
            && !outcome.hint_highlight_dirty,
{
}

/// Once the hints were updated none is out of date. The window has to be drawn
/// if it had to be before or if a hint changed, and asks for it if it is
/// visible, its last frame is done, and it is not being drawn already.
pub proof fn hints_end_processing<H, P, O>(
    context: &mut WindowContext<H, P, O>,
    pending: PendingEvent,
    changed: bool,
    has_frame: bool,
    redraw: bool,
)
    requires
        call_ensures(
            WindowContext::<H, P, O>::highlights_updated,
            (context, &pending, changed, has_frame),
            redraw,
        ),
    ensures
        ({
            let before = old(context)@;
            let after = final(context)@;
            &&& same_window(before, after)
            &&& same_tabs(before, after)
            &&& after.queue == before.queue
            &&& after.occluded == before.occluded
            &&& after.search_state == before.search_state
            &&& !after.hint_highlight_dirty
            &&& after.dirty <==> before.dirty || changed
            &&& redraw <==> (before.dirty || changed) && has_frame && !before.occluded
                && !pending.redraw_requested
        }),
{
}

// ---------------------------------------------------------------------------
// Updates of the display
// ---------------------------------------------------------------------------

/// How far the viewport has to move. It moves only if a search has begun.
///
/// In vi mode a search starts from the vi cursor, and outside of it from the
/// bottom if it runs backwards. A viewport at the end of the output moves up by a
/// line if the cursor stands on the last line and the search starts elsewhere. A
/// viewport that was scrolled moves down by a line if the search starts from the
/// last line.
pub open spec fn search_moves_viewport(
    cursors: CursorView,
    direction: Direction,
    old_is_searching: bool,
    new_is_searching: bool,
    display_offset: usize,
    delta: Option<i32>,
) -> bool {
    let begun = !old_is_searching && new_is_searching;
    let vi = cursors.mode & 0x1_0000u32 == 0x1_0000u32;
    let from_bottom = if vi {
        cursors.vi_cursor_line == ((cursors.screen_lines - 1) as usize) as i32
    } else {
        direction == Direction::Left
    };
    &&& delta == Some(1i32) <==> begun && display_offset == 0 && !from_bottom
        && cursors.cursor_line + 1 == cursors.screen_lines as i32
    &&& delta == Some(-1i32) <==> begun && display_offset > 0 && from_bottom
    &&& delta matches Some(lines) ==> lines == 1 || lines == -1
}

/// The viewport moves as a beginning search demands.
pub proof fn search_start_moves_viewport(
    cursors: CursorView,
    direction: Direction,
    old_is_searching: bool,
    new_is_searching: bool,
    display_offset: usize,
    delta: Option<i32>,
)
    requires
        call_ensures(
            CursorView::scroll_on_search_start,
            (&cursors, direction, old_is_searching, new_is_searching, display_offset),
            delta,
        ),
    ensures
        search_moves_viewport(
            cursors,
            direction,
            old_is_searching,
            new_is_searching,
            display_offset,
            delta,
        ),
{
}

/// After an update of the display the window has the search that the update
/// left, and nothing else has changed. Where the search began is decided by the
/// direction that it had before the update.
pub proof fn display_update_takes_search<H, P, O>(
    context: &mut WindowContext<H, P, O>,
    cursors: CursorView,
    old_is_searching: bool,
    search_state: SearchState,
    display_offset: usize,
    delta: Option<i32>,
)
    requires
        call_ensures(
            WindowContext::<H, P, O>::submit_display_update,
            (context, &cursors, old_is_searching, search_state, display_offset),
            delta,
        ),
    ensures
        ({
            let before = old(context)@;
            let after = final(context)@;
            &&& same_window(before, after)
            &&& same_tabs(before, after)
            &&& after.queue == before.queue
            &&& after.dirty == before.dirty
            &&& after.occluded == before.occluded
            &&& after.hint_highlight_dirty == before.hint_highlight_dirty
            &&& after.search_state == search_state
            &&& search_moves_viewport(
                cursors,
                before.search_state.direction,
                old_is_searching,
                search_state.history_index is Some,
                display_offset,
                delta,
            )
        }),
{
}

/// An update of the display while an event is processed makes the window dirty
/// on top of that. Whether a search has begun is seen from when processing
/// started.
pub proof fn display_update_dirties_window<H, P, O>(
    context: &mut WindowContext<H, P, O>,
    pending: PendingEvent,
    cursors: CursorView,
    search_state: SearchState,
    display_offset: usize,
    delta: Option<i32>,
)
    requires
        call_ensures(
            WindowContext::<H, P, O>::display_updated,
            (context, &pending, &cursors, search_state, display_offset),
            delta,
        ),
    ensures
        ({
            let before = old(context)@;
            let after = final(context)@;
            &&& same_window(before, after)
            &&& same_tabs(before, after)
            &&& after.queue == before.queue
            &&& after.dirty
            &&& after.occluded == before.occluded
            &&& after.hint_highlight_dirty == before.hint_highlight_dirty
            &&& after.search_state == search_state
            &&& search_moves_viewport(
                cursors,
                before.search_state.direction,
                pending.old_is_searching,
                search_state.history_index is Some,
                display_offset,
                delta,
            )
        }),
{
}

/// The terminal of a tab that is shown takes on the size of the display if it
/// has another. The window has to be drawn, and asks for it if it is visible and
/// its last frame is done.
pub proof fn shown_tab_is_drawn<H, P, O>(
    context: &mut WindowContext<H, P, O>,
    terminal: SizeInfo,
    display: SizeInfo,
    has_frame: bool,
    end: SyncEnd,
)
    requires
        call_ensures(
            WindowContext::<H, P, O>::finish_sync,
            (context, terminal, display, has_frame),
            end,
        ),
    ensures
        ({
            let before = old(context)@;
            let after = final(context)@;
            &&& same_window(before, after)
            &&& same_tabs(before, after)
            &&& same_input(before, after)
            &&& after.queue == before.queue
            &&& after.dirty
            &&& end.redraw <==> has_frame && !before.occluded
        }),
        end.resize is None <==> terminal.screen_lines == display.screen_lines && terminal.columns
            == display.columns,
        end.resize matches Some(size) ==> size.screen_lines == display.screen_lines && size.columns
            == display.columns,
{
}

/// Taking over a search changes nothing else.
pub proof fn search_is_taken_over<H, P, O>(
    context: &mut WindowContext<H, P, O>,
    search_state: SearchState,
)
    requires
        call_ensures(
            WindowContext::<H, P, O>::set_search_state,
            (context, search_state),
            (),
        ),
    ensures
        ({
            let before = old(context)@;
            let after = final(context)@;
            &&& same_window(before, after)
            &&& same_tabs(before, after)
            &&& after.queue == before.queue
            &&& after.dirty == before.dirty
            &&& after.occluded == before.occluded
            &&& after.hint_highlight_dirty == before.hint_highlight_dirty
            &&& after.search_state.history_index == search_state.history_index
            &&& after.search_state.direction == search_state.direction
        }),
{
}

/// Marking a window says whether it has to be drawn, and changes nothing else.
pub proof fn mark_is_taken_over<H, P, O>(context: &mut WindowContext<H, P, O>, dirty: bool)
    requires
        call_ensures(WindowContext::<H, P, O>::set_dirty, (context, dirty), ()),
    ensures
        ({
            let before = old(context)@;
            let after = final(context)@;
            &&& same_window(before, after)
            &&& same_tabs(before, after)
            &&& same_input(before, after)
            &&& after.queue == before.queue
            &&& after.dirty == dirty
        }),
{
}

// ---------------------------------------------------------------------------
// Drawing
// ---------------------------------------------------------------------------

/// A window that cannot be seen is not drawn and stays as it is. One that can be
/// seen is drawn, and does not have to be drawn again for what came before.
pub proof fn visible_window_is_drawn<H, P, O>(
    context: &mut WindowContext<H, P, O>,
    step: DrawStep,
)
    requires
        call_ensures(WindowContext::<H, P, O>::draw, (context,), step),
    ensures
        ({
            let before = old(context)@;
            let after = final(context)@;
            &&& same_window(before, after)
            &&& same_tabs(before, after)
            &&& same_input(before, after)
            &&& after.queue == before.queue
            &&& before.occluded ==> step == DrawStep::Skip && after.dirty == before.dirty
            &&& !before.occluded ==> step == DrawStep::Frame && !after.dirty
        }),
{
}

/// A frame shows the terminal of the active tab, and the titles of all tabs.
/// While the bell is not finished another frame is asked for; if that is not
/// possible yet, the window stays marked for it.
pub proof fn frame_shows_active_tab<H, P, O>(
    context: &mut WindowContext<H, P, O>,
    bell_completed: bool,
    has_frame: bool,
    plan: FramePlan,
)
    requires
        call_ensures(
            WindowContext::<H, P, O>::draw_frame,
            (context, bell_completed, has_frame),
            plan,
        ),
    ensures
        ({
            let before = old(context)@;
            let after = final(context)@;
            &&& same_window(before, after)
            &&& same_tabs(before, after)
            &&& same_input(before, after)
            &&& after.queue == before.queue
            &&& bell_completed ==> after.dirty == before.dirty && !plan.redraw
            &&& !bell_completed && has_frame ==> after.dirty == before.dirty && plan.redraw
            &&& !bell_completed && !has_frame ==> after.dirty && !plan.redraw
            &&& plan.active_tab == before.active_tab
            &&& bar_shows(plan.tab_bar, before)
        }),
{
    bar_shows_window(plan.tab_bar, old(context)@);
}

// ---------------------------------------------------------------------------
// Configuration
// ---------------------------------------------------------------------------

/// Loading a configuration replaces the one before, makes the window dirty, and
/// asks behind all that waits for the blinking of the cursor to be set. Tabs and
/// settings of the window stay.
pub proof fn load_replaces_config<H, P, O>(
    context: &mut WindowContext<H, P, O>,
    new_config: Rc<UiConfig>,
    delta: ConfigDelta,
    platform: Platform,
    current_title: String,
    update: ConfigUpdate,
)
    requires
        call_ensures(
            WindowContext::<H, P, O>::update_config,
            (context, new_config, &delta, platform, &current_title),
            update,
        ),
    ensures
        ({
            let before = old(context)@;
            let after = final(context)@;
            &&& after.window_id == before.window_id
            &&& after.window_config == before.window_config
            &&& after.config == new_config@
            &&& same_tabs(before, after)
            &&& same_input(before, after)
            &&& after.dirty
            &&& after.queue == before.queue.push(
                QueuedEventModel::Terminal {
                    event: TerminalEventModel::CursorBlinkingChange,
                    window_id: None,
                },
            )
        }),
{
}

/// What a load asks of terminals and display.
///
/// - Every terminal gets the new options, in the order of the tabs.
/// - The cursor is loaded again exactly if its thickness changed.
/// - The font is loaded again exactly if it changed, and at the configured size
///   exactly if nobody has changed the size since.
/// - The display is laid out again exactly if the padding, the dynamic padding
///   or the resize increments changed, whatever else did.
/// - Theme, transparency, blur and hints are always those of the new
///   configuration, and so are the settings of macOS, there and nowhere else.
pub proof fn load_updates_display<H, P, O>(
    context: &mut WindowContext<H, P, O>,
    new_config: Rc<UiConfig>,
    delta: ConfigDelta,
    platform: Platform,
    current_title: String,
    update: ConfigUpdate,
)
    requires
        call_ensures(
            WindowContext::<H, P, O>::update_config,
            (context, new_config, &delta, platform, &current_title),
            update,
        ),
    ensures
        update.terminals@.len() == old(context)@.tabs.len(),
        forall|i: int|
            0 <= i < update.terminals@.len() ==> (#[trigger] update.terminals@[i]) == i,
        update.cursor_dirty <==> delta.cursor_thickness_changed,
        update.font == FontUpdate::Unchanged <==> !delta.font_changed,
        update.font == FontUpdate::ConfiguredSize <==> delta.font_changed
            && delta.font_size_as_configured,
        update.font == FontUpdate::KeepSize <==> delta.font_changed
            && !delta.font_size_as_configured,
        !update.layout_dirty <==> {
            &&& !delta.padding_changed
            &&& old(context)@.config.dynamic_padding == new_config.dynamic_padding
            &&& old(context)@.config.resize_increments == new_config.resize_increments
        },
        update.theme == new_config.theme,
        update.transparent <==> !new_config.opaque,
        update.blur == new_config.blur,
        update.hint_alphabet@ == new_config.hint_alphabet@,
        update.mac_os is Some <==> platform == Platform::MacOs,
        update.mac_os matches Some(mac_os) ==> mac_os.has_shadow == new_config.opaque
            && mac_os.option_as_alt == new_config.option_as_alt,
{
    assert(update@.terminals.len() == update.terminals@.len());
    assert forall|i: int| 0 <= i < update.terminals@.len() implies (
    #[trigger] update.terminals@[i]) == i by {
        assert(update@.terminals[i] == update.terminals@[i]);
    }
}

/// When a load changes the title of the window.
///
/// A title that was asked for when the active tab was opened never gives way. A
/// title that was not follows the configuration, unless programs may change it
/// and one has.
pub proof fn load_sets_title<H, P, O>(
    context: &mut WindowContext<H, P, O>,
    new_config: Rc<UiConfig>,
    delta: ConfigDelta,
    platform: Platform,
    current_title: String,
    update: ConfigUpdate,
)
    requires
        call_ensures(
            WindowContext::<H, P, O>::update_config,
            (context, new_config, &delta, platform, &current_title),
            update,
        ),
    ensures
        ({
            let before = old(context)@;
            let asked_for = before.tabs[before.active_tab].preserve_title;
            let changed = current_title@ != before.config.title;
            &&& asked_for ==> update.title is None
            &&& new_config.dynamic_title && changed ==> update.title is None
            &&& !asked_for && !new_config.dynamic_title ==> update.title is Some
            &&& !asked_for && !changed ==> update.title is Some
            &&& update.title matches Some(title) ==> title@ == new_config.title@
        }),
{
}

/// Clearing the settings of a window leaves none, and asks for the errors in
/// them to be removed.
pub proof fn reset_clears_settings<H, P, O>(
    context: &mut WindowContext<H, P, O>,
    reload: ConfigReload,
)
    requires
        call_ensures(WindowContext::<H, P, O>::reset_window_config, (context,), reload),
    ensures
        ({
            let before = old(context)@;
            let after = final(context)@;
            &&& after.window_id == before.window_id
            &&& after.config == before.config
            &&& same_tabs(before, after)
            &&& same_input(before, after)
            &&& after.queue == before.queue
            &&& after.dirty == before.dirty
            &&& after.window_config.len() == 0
        }),
        reload.clear_messages == MessageTarget::IpcConfig,
{
}

/// Settings that are added come behind those that there are, in order, and so
/// prevail over them.
pub proof fn add_appends_settings<H, P, O>(
    context: &mut WindowContext<H, P, O>,
    options: Vec<O>,
    reload: ConfigReload,
)
    requires
        call_ensures(WindowContext::<H, P, O>::add_window_config, (context, options), reload),
    ensures
        ({
            let before = old(context)@;
            let after = final(context)@;
            &&& after.window_id == before.window_id
            &&& after.config == before.config
            &&& same_tabs(before, after)
            &&& same_input(before, after)
            &&& after.queue == before.queue
            &&& after.dirty == before.dirty
            &&& after.window_config == before.window_config + options@
        }),
        reload.clear_messages == MessageTarget::IpcConfig,
{
}

// ---------------------------------------------------------------------------
// Setup
// ---------------------------------------------------------------------------

/// The first window is set up in five steps, each of them done once. A graphics
/// configuration is picked right after the graphics platform was connected to,
/// and a context and the display come last. The window comes first on Windows,
/// where its handle is handed to all steps of the graphics, and otherwise between
/// configuration and context, without its handle.
pub proof fn first_window_is_set_up(platform: Platform, steps: Vec<SetupStep>)
    requires
        call_ensures(setup::initial_setup, (platform,), steps),
    ensures
        ({
            let on_windows = platform == Platform::Windows;
            let graphics: int = if on_windows { 1 } else { 0 };
            &&& steps@.len() == 5
            &&& steps@[if on_windows { 0 } else { 2 }] == SetupStep::CreateWindow
            &&& steps@[graphics] == SetupStep::CreateGlDisplay { window_handle: on_windows }
            &&& steps@[graphics + 1] == SetupStep::PickGlConfig { window_handle: on_windows }
            &&& steps@[3] == SetupStep::CreateGlContext { window_handle: on_windows }
            &&& steps@[4] == SetupStep::CreateDisplay { tabbed: false }
        }),
{
}

/// One more window is created on the graphics that there are: the context gets
/// its handle, and the display is told if the window was opened as a tab of
/// another one, which happens on macOS alone.
pub proof fn other_window_is_set_up<D>(
    platform: Platform,
    options: WindowOptions<D>,
    steps: Vec<SetupStep>,
)
    requires
        call_ensures(setup::additional_setup::<D>, (platform, &options), steps),
    ensures
        steps@.len() == 3,
        steps@[0] == SetupStep::CreateWindow,
        steps@[1] == (SetupStep::CreateGlContext { window_handle: true }),
        steps@[2] matches SetupStep::CreateDisplay { tabbed } && (tabbed <==> (platform
            == Platform::MacOs && options.window_tabbing_id is Some)),
{
}

// ---------------------------------------------------------------------------
// Recorded terminals
// ---------------------------------------------------------------------------

/// The number that a text of decimal digits stands for.
pub open spec fn number_of(text: Seq<char>) -> nat
    decreases text.len(),
{
    if text.len() == 0 {
        0
    } else {
        number_of(text.drop_last()) * 10 + (text.last() as nat - '0' as nat) as nat
    }
}

/// The text is `value` in decimal notation: only digits, none of them a leading
/// zero, which stand for that number.
pub open spec fn denotes(text: Seq<char>, value: nat) -> bool {
    &&& text.len() > 0
    &&& forall|i: int| 0 <= i < text.len() ==> '0' <= (#[trigger] text[i]) <= '9'
    &&& text.len() > 1 ==> text[0] != '0'
    &&& number_of(text) == value
}

/// Decimal notation can be read back.
pub proof fn decimal_denotes(value: nat)
    ensures
        denotes(decimal::decimal(value), value),
        value > 0 ==> decimal::decimal(value)[0] != '0',
    decreases value,
{
    let text = decimal::decimal(value);
    if value < 10 {
        assert(text.drop_last() =~= Seq::empty());
        assert(number_of(text.drop_last()) == 0);
        assert(text.last() as nat == 48 + value);
    } else {
        let front = decimal::decimal(value / 10);
        decimal_denotes(value / 10);
        assert(text.drop_last() =~= front);
        assert(text.last() as nat == 48 + value % 10);
        assert(text[0] == front[0]);
        assert forall|i: int| 0 <= i < text.len() implies '0' <= (#[trigger] text[i]) <= '9' by {
            if i < front.len() {
                assert(text[i] == front[i]);
            }
        }
    }
}

/// A number is appended in decimal notation.
pub proof fn number_is_appended(text: &mut String, value: usize)
    requires
        call_ensures(decimal::append_decimal, (text, value), ()),
    ensures
        ({
            let length = old(text)@.len() as int;
            &&& length <= final(text)@.len()
            &&& final(text)@.take(length) == old(text)@
            &&& denotes(final(text)@.skip(length), value as nat)
        }),
{
    decimal_denotes(value as nat);
    let length = old(text)@.len() as int;
    assert(final(text)@.take(length) =~= old(text)@);
    assert(final(text)@.skip(length) =~= decimal::decimal(value as nat));
}

/// The text is `front`, then a number, then `back`.
pub open spec fn holds_number(
    text: Seq<char>,
    front: Seq<char>,
    value: nat,
    back: Seq<char>,
) -> bool {
    exists|number: Seq<char>| #[trigger] denotes(number, value) && text == front + number + back
}

/// The size file names columns and lines.
pub open spec fn tells_size(text: Seq<char>, size_info: SizeInfo) -> bool {
    exists|columns: Seq<char>, lines: Seq<char>|
        {
            &&& #[trigger] denotes(columns, size_info.columns as nat)
            &&& #[trigger] denotes(lines, size_info.screen_lines as nat)
            &&& text == "{\"columns\":"@ + columns + ",\"screen_lines\":"@ + lines + "}"@
        }
}

/// A recording consists of three files: the grid, the size, and the
/// configuration with the size of the history.
pub proof fn recording_has_three_files(
    grid_text: String,
    history_size: usize,
    size_info: SizeInfo,
    files: Vec<RefTestFile>,
)
    requires
        call_ensures(ref_test::list_files, (grid_text, history_size, &size_info), files),
    ensures
        files@.len() == 3,
        files@[0].path@ == "./grid.json"@,
        files@[0].contents@ == grid_text@,
        files@[1].path@ == "./size.json"@,
        tells_size(files@[1].contents@, size_info),
        files@[2].path@ == "./config.json"@,
        holds_number(files@[2].contents@, "{\"history_size\":"@, history_size as nat, "}"@),
{
    decimal_denotes(size_info.columns as nat);
    decimal_denotes(size_info.screen_lines as nat);
    decimal_denotes(history_size as nat);
}

/// Number of lines that a recording has: all lines of the grid, and those that
/// its scrollback lacks to its limit.
pub open spec fn recorded_lines(grid: Grid<Cell>) -> nat {
    let total = ref_test::grid_total_lines(grid);
    let screen = ref_test::grid_screen_lines(grid);
    let limit = ref_test::grid_scroll_limit(grid);
    if total < screen {
        total + limit
    } else {
        screen + limit
    }
}

/// Number of rows that a grid has in use.
pub open spec fn rows_in_use(grid: Grid<Cell>) -> nat {
    vstd::math::min(
        ref_test::grid_total_lines(grid) as int,
        ref_test::grid_rows(grid).len() as int,
    ) as nat
}

/// Number of rows of a grid whose scrollback was filled up. It grows by at least
/// a thousand rows at a time, and not at all if it has enough of them.
pub open spec fn rows_when_full(grid: Grid<Cell>) -> nat {
    if recorded_lines(grid) <= rows_in_use(grid) {
        rows_in_use(grid)
    } else {
        rows_in_use(grid) + vstd::math::max(
            1_000,
            recorded_lines(grid) - ref_test::grid_total_lines(grid),
        ) as nat
    }
}

/// A grid is recorded exactly if its first row is in place, its scrollback is
/// within the limit, and the rows that have to be added have cells and fit into
/// memory.
pub open spec fn is_recordable(grid: Grid<Cell>) -> bool {
    &&& ref_test::grid_first_row(grid) <= ref_test::grid_rows(grid).len()
    &&& ref_test::grid_total_lines(grid) <= ref_test::grid_screen_lines(grid)
        + ref_test::grid_scroll_limit(grid)
    &&& recorded_lines(grid) <= usize::MAX
    &&& recorded_lines(grid) > rows_in_use(grid) ==> {
        &&& ref_test::grid_columns(grid) > 0
        &&& rows_when_full(grid) * 64 <= isize::MAX
        &&& ref_test::grid_columns(grid) * 64 <= isize::MAX
    }
}

/// The grid that is recorded: every row in use is where it was, rows without
/// content follow as far as there are lines, and the shape is the same.
pub open spec fn is_recording_of(saved: Grid<Cell>, grid: Grid<Cell>) -> bool {
    let rows = ref_test::grid_rows(saved);
    let used = rows_in_use(grid);
    &&& ref_test::grid_screen_lines(saved) == ref_test::grid_screen_lines(grid)
    &&& ref_test::grid_columns(saved) == ref_test::grid_columns(grid)
    &&& ref_test::grid_scroll_limit(saved) == ref_test::grid_scroll_limit(grid)
    &&& ref_test::grid_first_row(saved) == 0
    &&& ref_test::grid_total_lines(saved) == recorded_lines(grid)
    &&& rows.len() == vstd::math::min(recorded_lines(grid) as int, rows_when_full(grid) as int)
    &&& used <= rows.len()
    &&& forall|i: int| 0 <= i < used ==> (#[trigger] rows[i]) == ref_test::grid_rows(grid)[i]
    &&& forall|i: int, j: int|
        #![trigger rows[i][j]]
        used <= i < rows.len() && 0 <= j < ref_test::grid_columns(grid) ==> rows[i][j] == ' '
    &&& forall|i: int|
        used <= i < rows.len() ==> (#[trigger] rows[i]).len() == ref_test::grid_columns(grid)
}

/// These files record the grid and the size: the grid as it is once its
/// scrollback was filled up and its spare rows were dropped, and with it the
/// number of its lines that are not on the screen.
pub open spec fn recorded_in(
    files: Option<Vec<RefTestFile>>,
    grid: Grid<Cell>,
    size_info: SizeInfo,
) -> bool {
    let saved = ref_test::grid_truncated(ref_test::grid_initialized(grid));
    let screen = ref_test::grid_screen_lines(grid);
    &&& files is Some <==> is_recordable(grid)
    &&& files matches Some(files) ==> {
        &&& is_recording_of(saved, grid)
        &&& files@.len() == 3
        &&& files@[0].path@ == "./grid.json"@
        &&& files@[0].contents@ == ref_test::grid_json(saved)
        &&& files@[1].path@ == "./size.json"@
        &&& tells_size(files@[1].contents@, size_info)
        &&& files@[2].path@ == "./config.json"@
        &&& holds_number(
            files@[2].contents@,
            "{\"history_size\":"@,
            vstd::math::max(recorded_lines(grid) - screen, 0) as nat,
            "}"@,
        )
    }
}

proof fn files_record_grid(
    files: Option<Vec<RefTestFile>>,
    grid: Grid<Cell>,
    size_info: SizeInfo,
)
    requires
        files is Some <==> ref_test::grid_valid(grid) && ref_test::grid_fits(grid),
        files matches Some(files) ==> ref_test::files_record(files@, grid, size_info),
    ensures
        recorded_in(files, grid, size_info),
{
    let saved = ref_test::grid_truncated(ref_test::grid_initialized(grid));
    decimal_denotes(size_info.columns as nat);
    decimal_denotes(size_info.screen_lines as nat);
    decimal_denotes(ref_test::grid_history(saved));
    if files is Some {
        assert(ref_test::full_lines(grid) == recorded_lines(grid));
        let blank = ref_test::blank_rows(
            ref_test::added_rows(grid),
            ref_test::grid_columns(grid),
        );
        let used = rows_in_use(grid);
        let rows = ref_test::grid_rows(saved);
        assert forall|i: int| used <= i < rows.len() implies (#[trigger] rows[i]) == blank[i
            - used] by {}
    }
}

/// The terminal of the active tab is recorded.
pub proof fn terminal_is_recorded<H, P, O>(
    context: WindowContext<H, P, O>,
    grid: Grid<Cell>,
    size_info: SizeInfo,
    files: Option<Vec<RefTestFile>>,
)
    requires
        call_ensures(
            WindowContext::<H, P, O>::write_ref_test_results,
            (&context, grid, &size_info),
            files,
        ),
    ensures
        recorded_in(files, grid, size_info),
{
    files_record_grid(files, grid, size_info);
}

/// A grid is recorded.
pub proof fn grid_is_recorded(
    grid: Grid<Cell>,
    size_info: SizeInfo,
    files: Option<Vec<RefTestFile>>,
)
    requires
        call_ensures(ref_test::ref_test_files, (grid, &size_info), files),
    ensures
        recorded_in(files, grid, size_info),
{
    files_record_grid(files, grid, size_info);
}

// ---------------------------------------------------------------------------
// What can be done with a window
// ---------------------------------------------------------------------------

/// A valid window takes every index, every event and every configuration.
pub proof fn valid_window_takes_everything<H, P, O>(
    context: &mut WindowContext<H, P, O>,
    index: usize,
    hit: TabBarHit,
    tab_id: u64,
    event: TerminalEvent<P>,
    new_config: Rc<UiConfig>,
    delta: ConfigDelta,
    platform: Platform,
    current_title: String,
)
    requires
        old(context)@.wf(),
    ensures
        call_requires(WindowContext::<H, P, O>::select_tab, (context, index)),
        call_requires(WindowContext::<H, P, O>::close_tab, (context, index)),
        call_requires(WindowContext::<H, P, O>::handle_tab_bar_hit, (context, hit)),
        call_requires(
            WindowContext::<H, P, O>::handle_tab_terminal_event,
            (context, tab_id, event),
        ),
        call_requires(
            WindowContext::<H, P, O>::update_config,
            (context, new_config, &delta, platform, &current_title),
        ),
{
}

/// A window that is valid can always get another tab, until the ids are used up;
/// a failure to start a terminal can be reported even then.
pub proof fn valid_window_takes_tabs<H, P, O, D, E>(
    context: &mut WindowContext<H, P, O>,
    options: WindowOptions<D>,
    spawned: Result<SpawnedTerminal<H>, E>,
)
    requires
        old(context)@.wf(),
        spawned is Err || old(context)@.next_tab_id < 0xffff_ffff_ffff_ffff,
    ensures
        call_requires(
            WindowContext::<H, P, O>::create_tab::<D, E>,
            (context, options, spawned),
        ),
        call_requires(WindowContext::<H, P, O>::new_tab_process, (&*old(context),)),
{
}

/// Any window takes its events and is drawn, whatever input has left.
pub proof fn window_is_always_served<H, P, O>(
    context: &mut WindowContext<H, P, O>,
    event: WindowEvent<P>,
    outcome: InputOutcome,
    pending: PendingEvent,
    terminal: SizeInfo,
    display: SizeInfo,
    first: bool,
    second: bool,
)
    ensures
        call_requires(WindowContext::<H, P, O>::handle_event, (context, event)),
        call_requires(WindowContext::<H, P, O>::input_processed, (context, outcome, first)),
        call_requires(
            WindowContext::<H, P, O>::highlights_updated,
            (context, &pending, first, second),
        ),
        call_requires(
            WindowContext::<H, P, O>::finish_sync,
            (context, terminal, display, first),
        ),
        call_requires(WindowContext::<H, P, O>::draw, (context,)),
        call_requires(WindowContext::<H, P, O>::draw_frame, (context, first, second)),
        call_requires(WindowContext::<H, P, O>::reset_window_config, (context,)),
{
}

/// An update of the display can be reported wherever the cursors stand, as long
/// as the lines can be numbered: there is a line below the cursor, and in vi mode
/// a last line on the screen.
pub proof fn display_update_is_always_taken<H, P, O>(
    context: &mut WindowContext<H, P, O>,
    pending: PendingEvent,
    cursors: CursorView,
    old_is_searching: bool,
    search_state: SearchState,
    display_offset: usize,
)
    requires
        cursors.cursor_line < i32::MAX,
        cursors.mode & 0x1_0000u32 == 0x1_0000u32 ==> cursors.screen_lines > 0,
    ensures
        call_requires(
            WindowContext::<H, P, O>::display_updated,
            (context, &pending, &cursors, search_state, display_offset),
        ),
        call_requires(
            WindowContext::<H, P, O>::submit_display_update,
            (context, &cursors, old_is_searching, search_state, display_offset),
        ),
{
}

/// Any grid can be handed over to be recorded.
pub proof fn any_grid_is_taken<H, P, O>(
    context: WindowContext<H, P, O>,
    grid: Grid<Cell>,
    size_info: SizeInfo,
)
    ensures
        call_requires(
            WindowContext::<H, P, O>::write_ref_test_results,
            (&context, grid, &size_info),
        ),
        call_requires(ref_test::ref_test_files, (grid, &size_info)),
{
}

} // verus!
