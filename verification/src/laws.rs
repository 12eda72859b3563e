//! What holds of a window across its operations.

use alacritty_terminal::grid::Grid;
use alacritty_terminal::term::cell::Cell;
use vstd::prelude::*;

use crate::config::{self, ConfigDelta, ConfigModel};
use crate::event::{InputOutcome, QueuedEventModel, TerminalEventModel};
use crate::model::{self, ContextModel};
use crate::ref_test;
use crate::setup::{self, Platform, SetupStep};
use crate::tab::{self, ShellProcess, TabModel};
use crate::terminal::{self, CursorView, Direction, SearchState, SizeInfo};

verus! {

// ---------------------------------------------------------------------------
// Tabs
// ---------------------------------------------------------------------------

/// A tab that is added with the next id leaves the window valid.
pub proof fn create_keeps_validity<H, P, O>(context: ContextModel<H, P, O>, tab: TabModel<H>)
    requires
        context.wf(),
        context.next_tab_id < u64::MAX,
        tab.id == context.next_tab_id,
    ensures
        context.with_tab(tab).wf(),
{
    let tabs = context.tabs.push(tab);
    assert forall|i: int, j: int| 0 <= i < j < tabs.len() implies (#[trigger] tabs[i]).id < (
    #[trigger] tabs[j]).id by {
        assert(tabs[i] == context.tabs[i]);
    }
}

/// Closing any tab, or none, leaves the window valid.
pub proof fn close_keeps_validity<H, P, O>(context: ContextModel<H, P, O>, index: int)
    requires
        context.wf(),
    ensures
        context.close(index).wf(),
{
    if context.can_close(index) {
        let tabs = context.tabs;
        let left = tabs.remove(index);
        assert forall|i: int, j: int| 0 <= i < j < left.len() implies (#[trigger] left[i]).id < (
        #[trigger] left[j]).id by {
            let from_i = if i < index { i } else { i + 1 };
            let from_j = if j < index { j } else { j + 1 };
            assert(left[i] == tabs[from_i] && left[j] == tabs[from_j]);
        }
        assert forall|i: int| 0 <= i < left.len() implies (#[trigger] left[i]).id
            < context.next_tab_id by {
            let from_i = if i < index { i } else { i + 1 };
            assert(left[i] == tabs[from_i]);
        }
    }
}

/// An event of any tab leaves the window valid.
pub proof fn tab_event_keeps_validity<H, P, O>(
    context: ContextModel<H, P, O>,
    tab_id: u64,
    event: TerminalEventModel<P>,
)
    requires
        context.wf(),
    ensures
        context.tab_event(tab_id, event).wf(),
{
    if let Some(index) = tab::position_of(context.tabs, tab_id) {
        close_keeps_validity(context, index);
        let after = context.tab_event_at(index, event);
        if event !is Exit {
            assert forall|i: int| 0 <= i < after.tabs.len() implies (#[trigger] after.tabs[i]).id
                == context.tabs[i].id by {}
        }
    }
}

/// Closing a tab that is not active keeps the active tab active.
pub proof fn close_keeps_active_tab<H, P, O>(context: ContextModel<H, P, O>, index: int)
    requires
        context.wf(),
        index != context.active_tab,
    ensures
        context.close(index).active() == context.active(),
{
}

/// Closing the active tab makes the tab behind it active, or, where it was the
/// last one, the tab in front of it.
pub proof fn close_active_tab<H, P, O>(context: ContextModel<H, P, O>)
    requires
        context.wf(),
        context.tabs.len() > 1,
    ensures
        context.close(context.active_tab).active() == (if context.active_tab
            == context.tabs.len() - 1 {
            context.tabs[context.active_tab - 1]
        } else {
            context.tabs[context.active_tab + 1]
        }),
{
}

/// A window never runs out of tabs: closing its only tab changes nothing.
pub proof fn only_tab_is_kept<H, P, O>(context: ContextModel<H, P, O>, index: int)
    requires
        context.wf(),
    ensures
        context.close(index).tabs.len() >= 1,
        context.tabs.len() == 1 ==> context.close(index) == context,
{
}

/// Closing a tab that was just created gives back the tabs that there were; the
/// last of them is active then.
pub proof fn close_undoes_create<H, P, O>(context: ContextModel<H, P, O>, tab: TabModel<H>)
    requires
        context.wf(),
    ensures
        context.with_tab(tab).close(context.tabs.len() as int).tabs == context.tabs,
        context.with_tab(tab).close(context.tabs.len() as int).active() == context.tabs.last(),
{
    assert(context.tabs.push(tab).remove(context.tabs.len() as int) =~= context.tabs);
}

/// Selecting another tab and then the one that was active changes nothing.
pub proof fn select_can_be_undone<H, P, O>(context: ContextModel<H, P, O>, index: int)
    requires
        context.wf(),
    ensures
        context.select(index).select(context.active_tab) == context,
{
    assert(context.select(index).select(context.active_tab) =~= context);
}

/// The tab that was selected is active, and selecting it again changes nothing.
pub proof fn select_is_idempotent<H, P, O>(context: ContextModel<H, P, O>, index: int)
    requires
        context.wf(),
        0 <= index < context.tabs.len(),
    ensures
        context.select(index).active() == context.tabs[index],
        context.select(index).select(index) == context.select(index),
        context.select(index).tabs == context.tabs,
{
}

/// The tab bar lists each tab once, marks one of them, and is shown exactly
/// when there is a choice of tabs.
pub proof fn tab_bar_lists_tabs<H, P, O>(context: ContextModel<H, P, O>)
    requires
        context.wf(),
    ensures
        context.sync().tab_bar.titles.len() == context.tabs.len(),
        forall|i: int|
            0 <= i < context.tabs.len() ==> (#[trigger] context.sync().tab_bar.titles[i])
                == context.tabs[i].title,
        context.sync().tab_bar.titles[context.sync().tab_bar.active] == context.active().title,
        context.sync().tab_bar_visible <==> context.sync().tab_bar.titles.len() > 1,
{
}

// ---------------------------------------------------------------------------
// Events of terminals
// ---------------------------------------------------------------------------

/// A tab is found by its id.
pub proof fn tab_has_position<H, P, O>(context: ContextModel<H, P, O>, index: int)
    requires
        context.wf(),
        0 <= index < context.tabs.len(),
    ensures
        tab::position_of(context.tabs, context.tabs[index].id) == Some(index),
{
    let id = context.tabs[index].id;
    assert(tab::first_with_id(context.tabs, id, index));
    let chosen = choose|i: int| tab::first_with_id(context.tabs, id, i);
    assert(tab::first_with_id(context.tabs, id, chosen));
    assert(chosen == index);
}

/// An event of a tab that is not in the window changes nothing.
pub proof fn unknown_tab_is_ignored<H, P, O>(
    context: ContextModel<H, P, O>,
    tab_id: u64,
    event: TerminalEventModel<P>,
)
    requires
        forall|i: int| 0 <= i < context.tabs.len() ==> (#[trigger] context.tabs[i]).id != tab_id,
    ensures
        context.tab_event(tab_id, event) == context,
{
    if exists|i: int| tab::first_with_id(context.tabs, tab_id, i) {
        let i = choose|i: int| tab::first_with_id(context.tabs, tab_id, i);
        assert(context.tabs[i].id == tab_id);
    }
}

/// A terminal that ends closes its own tab.
pub proof fn exit_closes_own_tab<H, P, O>(context: ContextModel<H, P, O>, index: int)
    requires
        context.wf(),
        0 <= index < context.tabs.len(),
    ensures
        context.tab_event(context.tabs[index].id, TerminalEventModel::Exit) == context.close(index),
{
    tab_has_position(context, index);
}

/// Nothing that a tab in the background reports reaches the queue, and unless
/// it is a title or the end of the terminal it changes nothing at all.
pub proof fn background_tab_is_silent<H, P, O>(
    context: ContextModel<H, P, O>,
    index: int,
    event: TerminalEventModel<P>,
)
    requires
        context.wf(),
        0 <= index < context.tabs.len(),
        index != context.active_tab,
    ensures
        context.tab_event(context.tabs[index].id, event).queue == context.queue,
        !(event is Exit || event is Title || event is ResetTitle) ==> context.tab_event(
            context.tabs[index].id,
            event,
        ) == context,
{
    tab_has_position(context, index);
}

/// What the active tab reports, unless its terminal has ended, waits in the
/// queue for this window behind everything that waited before, and the window
/// is drawn again.
pub proof fn active_tab_is_heard<H, P, O>(
    context: ContextModel<H, P, O>,
    event: TerminalEventModel<P>,
)
    requires
        context.wf(),
        event !is Exit,
    ensures
        context.tab_event(context.active().id, event).queue == context.queue.push(
            QueuedEventModel::Terminal { event, window_id: Some(context.window_id) },
        ),
        context.tab_event(context.active().id, event).dirty,
{
    tab_has_position(context, context.active_tab);
}

/// A title that a tab reports is shown for that tab, every other tab keeps its
/// own, and the window is drawn again.
pub proof fn title_is_shown<H, P, O>(context: ContextModel<H, P, O>, index: int, title: Seq<char>)
    requires
        context.wf(),
        0 <= index < context.tabs.len(),
    ensures
        ({
            let after = context.tab_event(
                context.tabs[index].id,
                TerminalEventModel::Title(title),
            );
            &&& after.tab_bar().titles == context.tab_bar().titles.update(index, title)
            &&& after.active_tab == context.active_tab
            &&& after.dirty
        }),
{
    tab_has_position(context, index);
    let after = context.tab_event(context.tabs[index].id, TerminalEventModel::Title(title));
    assert(after.tab_bar().titles =~= context.tab_bar().titles.update(index, title));
}

/// Resetting a title gives the tab the configured title, whatever it was.
pub proof fn reset_restores_configured_title<H, P, O>(
    context: ContextModel<H, P, O>,
    index: int,
    title: Seq<char>,
)
    requires
        context.wf(),
        0 <= index < context.tabs.len(),
    ensures
        ({
            let id = context.tabs[index].id;
            let titled = context.tab_event(id, TerminalEventModel::Title(title));
            let reset = titled.tab_event(id, TerminalEventModel::ResetTitle);
            reset.tabs[index] == TabModel { title: context.config.title, ..context.tabs[index] }
        }),
{
    tab_has_position(context, index);
    let id = context.tabs[index].id;
    tab_event_keeps_validity(context, id, TerminalEventModel::Title(title));
    let titled = context.tab_event(id, TerminalEventModel::Title(title));
    assert(titled.tabs[index].id == id);
    tab_has_position(titled, index);
}

/// Resetting a title shows the configured title for that tab, every other tab
/// keeps its own, and the window is drawn again.
pub proof fn reset_is_shown<H, P, O>(context: ContextModel<H, P, O>, index: int)
    requires
        context.wf(),
        0 <= index < context.tabs.len(),
    ensures
        ({
            let after = context.tab_event(context.tabs[index].id, TerminalEventModel::ResetTitle);
            &&& after.tab_bar().titles == context.tab_bar().titles.update(
                index,
                context.config.title,
            )
            &&& forall|i: int|
                0 <= i < context.tabs.len() && i != index ==> (#[trigger] after.tabs[i])
                    == context.tabs[i]
            &&& after.tabs.len() == context.tabs.len()
            &&& after.active_tab == context.active_tab
            &&& after.dirty
        }),
{
    tab_has_position(context, index);
    let after = context.tab_event(context.tabs[index].id, TerminalEventModel::ResetTitle);
    assert(after.tab_bar().titles =~= context.tab_bar().titles.update(index, context.config.title));
}

/// A tab has the title that was asked for when it was opened, and the title is
/// protected exactly if one was asked for, whichever tab it is.
pub proof fn title_is_protected_if_asked_for<H>(
    config: ConfigModel,
    title: Option<String>,
    tab_id: u64,
    process: Option<ShellProcess>,
    terminal: H,
)
    ensures
        ({
            let tab = model::started_tab(config, title, tab_id, process, terminal);
            &&& tab.preserve_title <==> title is Some
            &&& tab.title == (if title is Some {
                title->Some_0@
            } else {
                config.title
            })
            &&& tab.id == tab_id
            &&& tab.process == process
            &&& tab.terminal == terminal
        }),
{
}

/// A tab that was opened without a title follows the configuration: while it is
/// active, every load without dynamic titles gives the window the configured
/// title. One that was opened with a title never does.
pub proof fn new_tab_follows_config<H, P, O>(
    context: ContextModel<H, P, O>,
    title: Option<String>,
    process: Option<ShellProcess>,
    terminal: H,
    new: ConfigModel,
    delta: ConfigDelta,
    platform: Platform,
    current_title: Seq<char>,
)
    requires
        context.wf(),
        !new.dynamic_title,
    ensures
        ({
            let tab = model::started_tab(
                context.config,
                title,
                context.next_tab_id,
                process,
                terminal,
            );
            let created = context.with_tab(tab);
            let update = config::config_update(
                created.config,
                new,
                delta,
                platform,
                created.tabs.len(),
                created.active().preserve_title,
                current_title,
            );
            update.title == (if title is Some {
                None
            } else {
                Some(new.title)
            })
        }),
{
}

// ---------------------------------------------------------------------------
// Any run of operations
// ---------------------------------------------------------------------------

/// One operation on a window.
pub enum Operation<H, P, O> {
    /// A tab is added; it gets the next id.
    Create(TabModel<H>),
    Select(int),
    Close(int),
    TabEvent(u64, TerminalEventModel<P>),
    WindowEvent(P),
    Drain,
    Process(InputOutcome),
    UpdateDisplay(SearchState),
    UpdateHighlights(bool),
    /// The search was taken over, after an update of the display or a frame.
    Search(SearchState),
    /// The window was marked, as when a tab was shown.
    Mark(bool),
    BeginDraw,
    EndDraw(bool, bool),
    Configure(ConfigModel),
    Override(Seq<O>),
}

/// The window after one operation. No tab is added once the ids are used up.
pub open spec fn apply<H, P, O>(
    context: ContextModel<H, P, O>,
    operation: Operation<H, P, O>,
) -> ContextModel<H, P, O> {
    match operation {
        Operation::Create(tab) => if context.next_tab_id < u64::MAX {
            context.with_tab(TabModel { id: context.next_tab_id, ..tab })
        } else {
            context
        },
        Operation::Select(index) => context.select(index),
        Operation::Close(index) => context.close(index),
        Operation::TabEvent(tab_id, event) => context.tab_event(tab_id, event),
        Operation::WindowEvent(payload) => context.enqueue(QueuedEventModel::Window(payload)),
        Operation::Drain => context.drained(),
        Operation::Process(outcome) => context.processed(outcome),
        Operation::UpdateDisplay(search_state) => context.displayed(search_state),
        Operation::UpdateHighlights(changed) => context.highlighted(changed),
        Operation::Search(search_state) => context.searched(search_state),
        Operation::Mark(dirty) => context.marked(dirty),
        Operation::BeginDraw => context.begin_draw(),
        Operation::EndDraw(bell_completed, has_frame) => context.end_draw(
            bell_completed,
            has_frame,
        ),
        Operation::Configure(config) => context.configured(config),
        Operation::Override(window_config) => context.overridden(window_config),
    }
}

/// The window after a run of operations.
pub open spec fn run<H, P, O>(
    context: ContextModel<H, P, O>,
    operations: Seq<Operation<H, P, O>>,
) -> ContextModel<H, P, O>
    decreases operations.len(),
{
    if operations.len() == 0 {
        context
    } else {
        apply(run(context, operations.drop_last()), operations.last())
    }
}

/// A window stays valid, whatever is done with it: it always has an active tab,
/// and the ids of its tabs always increase from the first to the last.
pub proof fn window_stays_valid<H, P, O>(
    context: ContextModel<H, P, O>,
    operations: Seq<Operation<H, P, O>>,
)
    requires
        context.wf(),
    ensures
        run(context, operations).wf(),
    decreases operations.len(),
{
    if operations.len() > 0 {
        window_stays_valid(context, operations.drop_last());
        let before = run(context, operations.drop_last());
        match operations.last() {
            Operation::Create(tab) => if before.next_tab_id < u64::MAX {
                create_keeps_validity(before, TabModel { id: before.next_tab_id, ..tab });
            },
            Operation::Close(index) => close_keeps_validity(before, index),
            Operation::TabEvent(tab_id, event) => tab_event_keeps_validity(before, tab_id, event),
            _ => {},
        }
    }
}

/// The id was given out, and no tab of the window has it.
pub open spec fn id_is_retired<H, P, O>(context: ContextModel<H, P, O>, id: u64) -> bool {
    &&& id < context.next_tab_id
    &&& forall|i: int| 0 <= i < context.tabs.len() ==> (#[trigger] context.tabs[i]).id != id
}

/// The id of a tab that was closed is never given out again, so an event that
/// still arrives for it reaches no other tab.
pub proof fn ids_are_not_reused<H, P, O>(
    context: ContextModel<H, P, O>,
    operations: Seq<Operation<H, P, O>>,
    id: u64,
    event: TerminalEventModel<P>,
)
    requires
        context.wf(),
        id_is_retired(context, id),
    ensures
        id_is_retired(run(context, operations), id),
        run(context, operations).tab_event(id, event) == run(context, operations),
    decreases operations.len(),
{
    if operations.len() > 0 {
        ids_are_not_reused(context, operations.drop_last(), id, event);
        window_stays_valid(context, operations.drop_last());
        let before = run(context, operations.drop_last());
        let after = apply(before, operations.last());
        match operations.last() {
            Operation::Close(index) => removal_keeps_id_retired(before, index, id),
            Operation::TabEvent(tab_id, event) => {
                if let Some(index) = tab::position_of(before.tabs, tab_id) {
                    removal_keeps_id_retired(before, index, id);
                    if event !is Exit {
                        assert forall|i: int| 0 <= i < after.tabs.len() implies (
                        #[trigger] after.tabs[i]).id == before.tabs[i].id by {}
                    }
                }
            },
            _ => {},
        }
    }
    unknown_tab_is_ignored(run(context, operations), id, event);
}

proof fn removal_keeps_id_retired<H, P, O>(context: ContextModel<H, P, O>, index: int, id: u64)
    requires
        id_is_retired(context, id),
    ensures
        id_is_retired(context.close(index), id),
{
    if context.can_close(index) {
        let left = context.tabs.remove(index);
        assert forall|i: int| 0 <= i < left.len() implies (#[trigger] left[i]).id != id by {
            let from_i = if i < index { i } else { i + 1 };
            assert(left[i] == context.tabs[from_i]);
        }
    }
}

/// Closing a tab retires its id.
pub proof fn close_retires_id<H, P, O>(context: ContextModel<H, P, O>, index: int)
    requires
        context.wf(),
        context.can_close(index),
    ensures
        id_is_retired(context.close(index), context.tabs[index].id),
{
    let left = context.tabs.remove(index);
    assert forall|i: int| 0 <= i < left.len() implies (#[trigger] left[i]).id
        != context.tabs[index].id by {
        let from_i = if i < index { i } else { i + 1 };
        assert(left[i] == context.tabs[from_i]);
    }
}

/// The tab that an operation takes out of the window, which is handed out to be
/// shut down.
pub open spec fn taken_out<H, P, O>(
    context: ContextModel<H, P, O>,
    operation: Operation<H, P, O>,
) -> Option<TabModel<H>> {
    match operation {
        Operation::Close(index) => if context.can_close(index) {
            Some(context.tabs[index])
        } else {
            None
        },
        Operation::TabEvent(tab_id, TerminalEventModel::Exit) => match tab::position_of(
            context.tabs,
            tab_id,
        ) {
            Some(index) => if context.can_close(index) {
                Some(context.tabs[index])
            } else {
                None
            },
            None => None,
        },
        _ => None,
    }
}

/// The tabs that a run of operations takes out, in order.
pub open spec fn all_taken_out<H, P, O>(
    context: ContextModel<H, P, O>,
    operations: Seq<Operation<H, P, O>>,
) -> Seq<TabModel<H>>
    decreases operations.len(),
{
    if operations.len() == 0 {
        Seq::empty()
    } else {
        let before = all_taken_out(context, operations.drop_last());
        match taken_out(run(context, operations.drop_last()), operations.last()) {
            Some(tab) => before.push(tab),
            None => before,
        }
    }
}

/// One of the tabs has the id.
pub open spec fn has_id<H>(tabs: Seq<TabModel<H>>, id: u64) -> bool {
    exists|i: int| 0 <= i < tabs.len() && (#[trigger] tabs[i]).id == id
}

/// One operation hands out the tab that it takes from the window, and nothing
/// else: every other tab stays, and what was not in the window is a new tab.
proof fn step_accounts_for_tabs<H, P, O>(
    context: ContextModel<H, P, O>,
    operation: Operation<H, P, O>,
    id: u64,
)
    requires
        context.wf(),
    ensures
        ({
            let after = apply(context, operation);
            let taken = taken_out(context, operation);
            &&& context.next_tab_id <= after.next_tab_id
            &&& taken matches Some(tab) ==> has_id(context.tabs, tab.id)
            &&& has_id(after.tabs, id) <==> {
                ||| context.next_tab_id <= id < after.next_tab_id
                ||| has_id(context.tabs, id) && !(taken matches Some(tab) && tab.id == id)
            }
        }),
{
    let after = apply(context, operation);
    match operation {
        Operation::Create(tab) => if context.next_tab_id < u64::MAX {
            let tabs = context.tabs;
            let added = TabModel { id: context.next_tab_id, ..tab };
            assert(after.tabs == tabs.push(added));
            assert(after.tabs[tabs.len() as int].id == context.next_tab_id);
            if has_id(tabs, id) {
                let i = choose|i: int| 0 <= i < tabs.len() && (#[trigger] tabs[i]).id == id;
                assert(after.tabs[i].id == id);
            }
        },
        Operation::Close(index) => if 0 <= index < context.tabs.len() {
            removal_accounts_for_tabs(context, index, id);
        },
        Operation::TabEvent(tab_id, event) => {
            if let Some(index) = tab::position_of(context.tabs, tab_id) {
                assert(tab::first_with_id(context.tabs, tab_id, index));
                if event is Exit {
                    removal_accounts_for_tabs(context, index, id);
                } else {
                    same_ids_account_for_tabs(context.tabs, after.tabs, id);
                }
            }
        },
        _ => {},
    }
}

proof fn same_ids_account_for_tabs<H>(before: Seq<TabModel<H>>, after: Seq<TabModel<H>>, id: u64)
    requires
        before.len() == after.len(),
        forall|i: int|
            0 <= i < before.len() ==> (#[trigger] before[i]).id == (#[trigger] after[i]).id,
    ensures
        has_id(before, id) <==> has_id(after, id),
{
    if has_id(before, id) {
        let i = choose|i: int| 0 <= i < before.len() && (#[trigger] before[i]).id == id;
        assert(after[i].id == id);
    }
    if has_id(after, id) {
        let i = choose|i: int| 0 <= i < after.len() && (#[trigger] after[i]).id == id;
        assert(before[i].id == id);
    }
}

proof fn removal_accounts_for_tabs<H, P, O>(context: ContextModel<H, P, O>, index: int, id: u64)
    requires
        context.wf(),
        0 <= index < context.tabs.len(),
    ensures
        has_id(context.tabs, context.tabs[index].id),
        has_id(context.close(index).tabs, id) <==> has_id(context.tabs, id) && !(
        context.can_close(index) && context.tabs[index].id == id),
{
    let tabs = context.tabs;
    assert(tabs[index].id == tabs[index].id);
    if context.can_close(index) {
        let left = tabs.remove(index);
        if has_id(left, id) {
            let i = choose|i: int| 0 <= i < left.len() && (#[trigger] left[i]).id == id;
            let from_i = if i < index { i } else { i + 1 };
            assert(left[i] == tabs[from_i]);
        }
        if has_id(tabs, id) && tabs[index].id != id {
            let i = choose|i: int| 0 <= i < tabs.len() && (#[trigger] tabs[i]).id == id;
            let to_i = if i < index { i } else { i - 1 };
            assert(left[to_i] == tabs[i]);
        }
    }
}

/// Each tab that a window ever had is either still there or was handed out,
/// once, when it was closed. So each of them is shut down once if the tabs that
/// are left are shut down with the window.
pub proof fn tabs_leave_once<H, P, O>(
    context: ContextModel<H, P, O>,
    operations: Seq<Operation<H, P, O>>,
    id: u64,
)
    requires
        context.wf(),
    ensures
        ({
            let after = run(context, operations);
            let taken = all_taken_out(context, operations);
            &&& has_id(after.tabs, id) || has_id(taken, id) <==> has_id(context.tabs, id) || (
            context.next_tab_id <= id < after.next_tab_id)
            &&& !(has_id(after.tabs, id) && has_id(taken, id))
            &&& forall|i: int, j: int|
                0 <= i < j < taken.len() ==> !((#[trigger] taken[i]).id == id && (
                #[trigger] taken[j]).id == id)
        }),
    decreases operations.len(),
{
    if operations.len() > 0 {
        let earlier = operations.drop_last();
        let before = run(context, earlier);
        let taken_before = all_taken_out(context, earlier);
        tabs_leave_once(context, earlier, id);
        window_stays_valid(context, earlier);
        next_id_never_decreases(context, earlier);
        step_accounts_for_tabs(before, operations.last(), id);
        let taken = all_taken_out(context, operations);
        if has_id(before.tabs, id) {
            let i = choose|i: int| 0 <= i < before.tabs.len() && (#[trigger] before.tabs[i]).id
                == id;
            assert(before.tabs[i].id < before.next_tab_id);
        }
        if let Some(tab) = taken_out(before, operations.last()) {
            assert(taken == taken_before.push(tab));
            assert(taken[taken_before.len() as int] == tab);
            if has_id(taken_before, id) {
                let i = choose|i: int|
                    0 <= i < taken_before.len() && (#[trigger] taken_before[i]).id == id;
                assert(taken[i].id == id);
            }
            assert forall|i: int, j: int| 0 <= i < j < taken.len() implies !((
            #[trigger] taken[i]).id == id && (#[trigger] taken[j]).id == id) by {
                assert(taken[i] == taken_before[i]);
                if j < taken_before.len() {
                    assert(taken[j] == taken_before[j]);
                }
            }
        }
    }
}

/// Ids are given out in increasing order.
pub proof fn next_id_never_decreases<H, P, O>(
    context: ContextModel<H, P, O>,
    operations: Seq<Operation<H, P, O>>,
)
    requires
        context.wf(),
    ensures
        context.next_tab_id <= run(context, operations).next_tab_id,
    decreases operations.len(),
{
    if operations.len() > 0 {
        next_id_never_decreases(context, operations.drop_last());
        window_stays_valid(context, operations.drop_last());
        step_accounts_for_tabs(run(context, operations.drop_last()), operations.last(), 0);
    }
}

/// A tab keeps its terminal, its shell and the title's protection for as long
/// as it is in the window.
pub proof fn tabs_keep_their_terminals<H, P, O>(
    context: ContextModel<H, P, O>,
    operations: Seq<Operation<H, P, O>>,
    index: int,
)
    requires
        context.wf(),
        0 <= index < run(context, operations).tabs.len(),
        run(context, operations).tabs[index].id < context.next_tab_id,
    ensures
        exists|origin: int|
            {
                let tab = run(context, operations).tabs[index];
                &&& 0 <= origin < context.tabs.len()
                &&& (#[trigger] context.tabs[origin]).id == tab.id
                &&& context.tabs[origin].terminal == tab.terminal
                &&& context.tabs[origin].process == tab.process
                &&& context.tabs[origin].preserve_title == tab.preserve_title
            },
    decreases operations.len(),
{
    let after = run(context, operations);
    if operations.len() == 0 {
        assert(context.tabs[index] == after.tabs[index]);
    } else {
        let earlier = operations.drop_last();
        let before = run(context, earlier);
        next_id_never_decreases(context, earlier);
        let removed = match operations.last() {
            Operation::Close(place) => if before.can_close(place) {
                Some(place)
            } else {
                None
            },
            Operation::TabEvent(tab_id, TerminalEventModel::Exit) => match tab::position_of(
                before.tabs,
                tab_id,
            ) {
                Some(place) => if before.can_close(place) {
                    Some(place)
                } else {
                    None
                },
                None => None,
            },
            _ => None,
        };
        let from_index = match removed {
            Some(place) => if index < place { index } else { index + 1 },
            None => index,
        };
        assert(0 <= from_index < before.tabs.len());
        assert(after.tabs[index].id == before.tabs[from_index].id);
        tabs_keep_their_terminals(context, earlier, from_index);
    }
}

// ---------------------------------------------------------------------------
// Events of the window
// ---------------------------------------------------------------------------

/// The window after events have arrived one after the other.
pub open spec fn arrived<H, P, O>(
    context: ContextModel<H, P, O>,
    payloads: Seq<P>,
) -> ContextModel<H, P, O>
    decreases payloads.len(),
{
    if payloads.len() == 0 {
        context
    } else {
        arrived(context, payloads.drop_last()).enqueue(QueuedEventModel::Window(payloads.last()))
    }
}

/// Events are processed in the order in which they arrived, each of them once.
pub proof fn events_keep_their_order<H, P, O>(context: ContextModel<H, P, O>, payloads: Seq<P>)
    ensures
        arrived(context, payloads).queue == context.queue + Seq::new(
            payloads.len(),
            |i: int| QueuedEventModel::<P>::Window(payloads[i]),
        ),
        arrived(context, payloads).drained() == context.drained(),
    decreases payloads.len(),
{
    let events = Seq::new(payloads.len(), |i: int| QueuedEventModel::<P>::Window(payloads[i]));
    if payloads.len() > 0 {
        events_keep_their_order(context, payloads.drop_last());
        assert(arrived(context, payloads).queue =~= context.queue + events);
        assert(arrived(context, payloads).drained() =~= context.drained());
    } else {
        assert(context.queue =~= context.queue + events);
    }
}

/// The window once an event was processed to the end: the queue left `outcome`,
/// the display was updated if there is an `update`, and updating the hints, where
/// that was due, changed them or not.
pub open spec fn event_finished<H, P, O>(
    context: ContextModel<H, P, O>,
    outcome: InputOutcome,
    update: Option<SearchState>,
    changed: bool,
) -> ContextModel<H, P, O> {
    let processed = context.processed(outcome);
    let displayed = match update {
        Some(search_state) => processed.displayed(search_state),
        None => processed,
    };
    if displayed.dirty || displayed.hint_highlight_dirty {
        displayed.highlighted(changed)
    } else {
        displayed
    }
}

/// Processing an event leaves no highlight out of date. It leaves the window
/// dirty exactly if the queue did, if the display was updated, or if hints that
/// were out of date have changed. Tabs and waiting events stay as they are.
pub proof fn event_settles_flags<H, P, O>(
    context: ContextModel<H, P, O>,
    outcome: InputOutcome,
    update: Option<SearchState>,
    changed: bool,
)
    ensures
        ({
            let after = event_finished(context, outcome, update, changed);
            &&& !after.hint_highlight_dirty
            &&& after.dirty <==> outcome.dirty || update is Some || (outcome.hint_highlight_dirty
                && changed)
            &&& after.occluded == outcome.occluded
            &&& after.tabs == context.tabs
            &&& after.active_tab == context.active_tab
            &&& after.queue == context.queue
        }),
{
}

/// Handing out the queue changes nothing of the window but the queue.
pub proof fn handing_out_keeps_window<H, P, O>(context: ContextModel<H, P, O>)
    ensures
        context.drained().queue.len() == 0,
        context.drained().window_id == context.window_id,
        context.drained().tabs == context.tabs,
        context.drained().active_tab == context.active_tab,
        context.drained().next_tab_id == context.next_tab_id,
        context.drained().dirty == context.dirty,
        context.drained().occluded == context.occluded,
        context.drained().hint_highlight_dirty == context.hint_highlight_dirty,
        context.drained().search_state == context.search_state,
        context.drained().window_config == context.window_config,
        context.drained().config == context.config,
{
}

/// New output of the active tab is drawn, even where processing its event
/// changes nothing: after the queue was handed out and processed, and the hints
/// were updated, the window still has to be drawn. So a redraw is requested as
/// soon as one can be.
pub proof fn output_is_drawn<H, P, O>(
    context: ContextModel<H, P, O>,
    event: TerminalEventModel<P>,
    outcome: InputOutcome,
    changed: bool,
)
    requires
        context.wf(),
        event !is Exit,
        outcome.dirty == context.tab_event(context.active().id, event).drained().dirty,
    ensures
        ({
            let heard = context.tab_event(context.active().id, event);
            let processed = heard.drained().processed(outcome);
            &&& heard.drained().dirty
            &&& processed.dirty
            &&& processed.highlighted(changed).dirty
            &&& event_finished(heard.drained(), outcome, None, changed).dirty
        }),
{
    active_tab_is_heard(context, event);
}

/// Once the queue was processed the window has the search that processing left,
/// all of it.
pub proof fn search_survives_processing<H, P, O>(
    context: ContextModel<H, P, O>,
    outcome: InputOutcome,
)
    ensures
        context.processed(outcome).search_state == outcome.search_state,
        context.processed(outcome).search_state.direction == outcome.search_state.direction,
        context.processed(outcome).search_state.history_index
            == outcome.search_state.history_index,
{
}

/// A backward search that begins outside of vi mode never moves a viewport that
/// is not scrolled, and a forward one moves it exactly if the cursor stands on
/// the last line, whatever the window searched for before.
pub proof fn direction_of_input_decides<H, P, O>(
    context: ContextModel<H, P, O>,
    outcome: InputOutcome,
    cursors: CursorView,
)
    requires
        cursors.mode & 0x1_0000u32 != 0x1_0000u32,
    ensures
        ({
            let delta = cursors.search_scroll(
                context.processed(outcome).search_state.direction,
                false,
                true,
                0,
            );
            &&& outcome.search_state.direction == Direction::Left ==> delta is None
            &&& outcome.search_state.direction == Direction::Right ==> (delta == Some(1i32)
                <==> cursors.cursor_line + 1 == cursors.screen_lines as i32)
        }),
{
}

// ---------------------------------------------------------------------------
// Drawing and sizes
// ---------------------------------------------------------------------------

/// A window that cannot be seen is not drawn and stays as dirty as it was.
/// Drawing one that can be seen leaves it dirty only while the bell is not
/// finished and no redraw can be requested.
pub proof fn draw_cleans_window<H, P, O>(
    context: ContextModel<H, P, O>,
    bell_completed: bool,
    has_frame: bool,
)
    ensures
        context.occluded ==> context.begin_draw() == context,
        !context.occluded ==> (context.begin_draw().end_draw(bell_completed, has_frame).dirty <==> (
        !bell_completed && !has_frame)),
        context.begin_draw().end_draw(bell_completed, has_frame).tabs == context.tabs,
        context.begin_draw().end_draw(bell_completed, has_frame).queue == context.queue,
{
}

/// Once a tab was shown its terminal has the size of the display, whatever size
/// it had when it was last shown.
pub proof fn shown_terminal_fills_display(terminal: SizeInfo, display: SizeInfo)
    ensures
        (match terminal::resize_to(terminal, display) {
            Some(size) => size,
            None => terminal,
        }) == display,
{
}

/// The viewport moves only when a search begins, and by at most one line: up by
/// one if it showed the end of the output, down by one if it did not. It never
/// moves below the end of the output.
pub proof fn search_moves_one_line(
    cursors: CursorView,
    direction: Direction,
    old_is_searching: bool,
    new_is_searching: bool,
    display_offset: usize,
)
    ensures
        ({
            let delta = cursors.search_scroll(
                direction,
                old_is_searching,
                new_is_searching,
                display_offset,
            );
            &&& delta is Some ==> !old_is_searching && new_is_searching
            &&& delta matches Some(lines) ==> lines == (if display_offset == 0 {
                1int
            } else {
                -1
            })
            &&& delta matches Some(lines) ==> display_offset + lines >= 0
        }),
{
}

/// A search that starts from the last line of the screen never moves the
/// viewport up, and one that starts elsewhere never moves it down.
pub proof fn search_keeps_origin_visible(
    cursors: CursorView,
    direction: Direction,
    display_offset: usize,
)
    ensures
        cursors.origin_at_bottom(direction) ==> cursors.search_scroll(
            direction,
            false,
            true,
            display_offset,
        ) == (if display_offset != 0 {
            Some(-1i32)
        } else {
            None
        }),
        !cursors.origin_at_bottom(direction) ==> cursors.search_scroll(
            direction,
            false,
            true,
            display_offset,
        ) == (if display_offset == 0 && cursors.cursor_at_bottom() {
            Some(1i32)
        } else {
            None
        }),
{
}

// ---------------------------------------------------------------------------
// Configuration
// ---------------------------------------------------------------------------

/// When a reload gives the window the configured title:
///
/// | asked for | dynamic | unchanged since the last load | title is set |
/// |-----------|---------|-------------------------------|--------------|
/// | yes       | any     | any                           | no           |
/// | no        | yes     | yes                           | yes          |
/// | no        | yes     | no                            | no           |
/// | no        | no      | any                           | yes          |
pub proof fn title_table(
    old: ConfigModel,
    new: ConfigModel,
    delta: ConfigDelta,
    platform: Platform,
    tab_count: nat,
    preserve_title: bool,
    current_title: Seq<char>,
)
    ensures
        ({
            let title = config::config_update(
                old,
                new,
                delta,
                platform,
                tab_count,
                preserve_title,
                current_title,
            ).title;
            &&& preserve_title ==> title is None
            &&& !preserve_title && new.dynamic_title && current_title == old.title ==> title == Some(
                new.title,
            )
            &&& !preserve_title && new.dynamic_title && current_title != old.title ==> title is None
            &&& !preserve_title && !new.dynamic_title ==> title == Some(new.title)
        }),
{
}

/// A reload lays the display out again exactly if the padding, the dynamic
/// padding or the resize increments changed, whatever else did.
pub proof fn layout_follows_padding(
    old: ConfigModel,
    new: ConfigModel,
    delta: ConfigDelta,
    platform: Platform,
    tab_count: nat,
    preserve_title: bool,
    current_title: Seq<char>,
)
    ensures
        ({
            let layout_dirty = config::config_update(
                old,
                new,
                delta,
                platform,
                tab_count,
                preserve_title,
                current_title,
            ).layout_dirty;
            &&& delta.padding_changed ==> layout_dirty
            &&& old.dynamic_padding != new.dynamic_padding ==> layout_dirty
            &&& old.resize_increments != new.resize_increments ==> layout_dirty
            &&& layout_dirty ==> delta.padding_changed || old.dynamic_padding
                != new.dynamic_padding || old.resize_increments != new.resize_increments
        }),
{
}

/// Every terminal takes over the options of a new configuration once, those of
/// the tabs in the background too.
pub proof fn reload_reaches_every_terminal(
    old: ConfigModel,
    new: ConfigModel,
    delta: ConfigDelta,
    platform: Platform,
    tab_count: nat,
    preserve_title: bool,
    current_title: Seq<char>,
)
    ensures
        ({
            let terminals = config::config_update(
                old,
                new,
                delta,
                platform,
                tab_count,
                preserve_title,
                current_title,
            ).terminals;
            &&& terminals.no_duplicates()
            &&& forall|place: int|
                0 <= place < tab_count <==> #[trigger] terminals.contains(place)
        }),
{
    let terminals = config::all_places(tab_count);
    assert forall|place: int| 0 <= place < tab_count implies #[trigger] terminals.contains(
        place,
    ) by {
        assert(terminals[place] == place);
    }
}

/// Loading a configuration a second time changes nothing but the queue, which
/// gets one more event for the blinking of the cursor. `again` is what a
/// comparison finds that sees no difference. The window keeps the title that
/// the first load left it, nothing is laid out anew, and neither font nor cursor
/// is loaded.
pub proof fn second_load_changes_nothing<H, P, O>(
    context: ContextModel<H, P, O>,
    config: ConfigModel,
    delta: ConfigDelta,
    again: ConfigDelta,
    platform: Platform,
    current_title: Seq<char>,
)
    requires
        context.wf(),
        !again.cursor_thickness_changed,
        !again.font_changed,
        !again.padding_changed,
    ensures
        ({
            let first = context.configured(config);
            let second = first.configured(config);
            let update = config::config_update(
                context.config,
                config,
                delta,
                platform,
                context.tabs.len(),
                context.active().preserve_title,
                current_title,
            );
            let title = config::title_after(update.title, current_title);
            let repeated = config::config_update(
                first.config,
                config,
                again,
                platform,
                first.tabs.len(),
                first.active().preserve_title,
                title,
            );
            &&& second == first.enqueue(
                QueuedEventModel::Terminal {
                    event: TerminalEventModel::CursorBlinkingChange,
                    window_id: None,
                },
            )
            &&& config::title_after(repeated.title, title) == title
            &&& !repeated.cursor_dirty
            &&& repeated.font == config::FontUpdate::Unchanged
            &&& !repeated.layout_dirty
            &&& repeated.transparent == update.transparent
            &&& repeated.theme == update.theme
            &&& repeated.mac_os == update.mac_os
            &&& repeated.blur == update.blur
            &&& repeated.hint_alphabet == update.hint_alphabet
        }),
{
}

/// Loading a configuration keeps the tabs and the window's own settings, makes
/// the window dirty, and asks once for the blinking of the cursor to be set.
pub proof fn reload_keeps_tabs<H, P, O>(context: ContextModel<H, P, O>, config: ConfigModel)
    ensures
        context.configured(config).config == config,
        context.configured(config).tabs == context.tabs,
        context.configured(config).active_tab == context.active_tab,
        context.configured(config).window_config == context.window_config,
        context.configured(config).dirty,
        context.configured(config).queue == context.queue.push(
            QueuedEventModel::Terminal {
                event: TerminalEventModel::CursorBlinkingChange,
                window_id: None,
            },
        ),
{
}

/// Clearing the settings of a window undoes everything that was added to them.
pub proof fn reset_undoes_overrides<H, P, O>(
    context: ContextModel<H, P, O>,
    first: Seq<O>,
    second: Seq<O>,
)
    ensures
        ({
            let once = context.overridden(context.window_config + first);
            let twice = once.overridden(once.window_config + second);
            &&& twice.window_config == context.window_config + first + second
            &&& twice.overridden(Seq::empty()) == context.overridden(Seq::empty())
        }),
{
}

// ---------------------------------------------------------------------------
// Recorded terminals
// ---------------------------------------------------------------------------

/// A grid that has all the lines of its screen is recorded with the limit of its
/// scrollback as history size, and no row is recorded that is not one of its
/// lines.
pub proof fn recorded_history_is_limit(grid: Grid<Cell>, ready: Grid<Cell>)
    requires
        ref_test::grid_valid(grid),
        ref_test::ready_to_save(grid, ready),
        ref_test::grid_screen_lines(grid) <= ref_test::grid_total_lines(grid),
        ref_test::grid_total_lines(grid) <= ref_test::grid_rows(grid).len(),
    ensures
        ref_test::grid_history(ready) == ref_test::grid_scroll_limit(grid),
        ref_test::grid_rows(ready).len() == ref_test::grid_total_lines(ready),
{
}

/// Recording keeps every line of a grid, where it was.
pub proof fn recorded_lines_stay(grid: Grid<Cell>, ready: Grid<Cell>, line: int)
    requires
        ref_test::grid_valid(grid),
        ref_test::ready_to_save(grid, ready),
        0 <= line < ref_test::used_rows(grid),
    ensures
        line < ref_test::grid_rows(ready).len(),
        ref_test::grid_rows(ready)[line] == ref_test::grid_rows(grid)[line],
{
}

// ---------------------------------------------------------------------------
// Setup
// ---------------------------------------------------------------------------

/// The step hands over the raw handle of the window.
pub open spec fn needs_window(step: SetupStep) -> bool {
    match step {
        SetupStep::CreateGlDisplay { window_handle } => window_handle,
        SetupStep::PickGlConfig { window_handle } => window_handle,
        SetupStep::CreateGlContext { window_handle } => window_handle,
        SetupStep::CreateDisplay { tabbed } => true,
        SetupStep::CreateWindow => false,
    }
}

/// Each step comes after the creation of the window if it needs the window, and
/// the window is created once.
pub open spec fn window_comes_first(steps: Seq<SetupStep>) -> bool {
    exists|created: int|
        0 <= created < steps.len() && #[trigger] steps[created] == SetupStep::CreateWindow && (
        forall|i: int|
            0 <= i < steps.len() && i != created ==> (#[trigger] steps[i]) != SetupStep::CreateWindow
                && (needs_window(steps[i]) ==> created < i))
}

/// On every platform the window exists when a step needs it; on Windows it
/// exists before the graphics are touched.
pub proof fn setup_has_window(platform: Platform, tabbing_id: Option<String>)
    ensures
        window_comes_first(setup::initial_steps(platform)),
        window_comes_first(setup::additional_steps(platform, tabbing_id)),
        platform == Platform::Windows ==> setup::initial_steps(platform)[0]
            == SetupStep::CreateWindow,
{
    let initial = setup::initial_steps(platform);
    if platform == Platform::Windows {
        assert(initial[0] == SetupStep::CreateWindow);
    } else {
        assert(initial[2] == SetupStep::CreateWindow);
    }
    assert(setup::additional_steps(platform, tabbing_id)[0] == SetupStep::CreateWindow);
}

} // verus!
