use std::rc::Rc;

use window_context::config::{
    ConfigDelta, FontUpdate, MacOsUpdate, OptionAsAlt, Theme, WindowOptions,
};
use window_context::context::{
    ConfigReload, DrawStep, MessageTarget, SpawnedTerminal, SyncEnd,
};
use window_context::event::{
    EventAction, EventStep, InputOutcome, PendingEvent, QueuedEvent, TerminalEvent, WindowEvent,
};
use window_context::setup::{additional_setup, initial_setup, Platform, SetupStep};
use window_context::terminal::{CursorView, Direction, SearchState, SizeInfo};
use window_context::{UiConfig, WindowContext};

type Context = WindowContext<u32, &'static str, &'static str>;

fn config(title: &str) -> UiConfig {
    UiConfig {
        title: title.to_string(),
        dynamic_title: true,
        dynamic_padding: false,
        resize_increments: false,
        theme: None,
        option_as_alt: OptionAsAlt::Neither,
        blur: false,
        opaque: true,
        hint_alphabet: "jfkd".to_string(),
        cursor_blinking: false,
        ref_test: false,
    }
}

fn window_with_title(title: Option<&str>) -> Context {
    let options: WindowOptions<&'static str> = WindowOptions {
        title: title.map(|title| title.to_string()),
        working_directory: None,
        window_tabbing_id: None,
    };
    let spawned: Result<SpawnedTerminal<u32>, ()> =
        Ok(SpawnedTerminal { process: None, terminal: 0 });
    Context::initial(7, Rc::new(config("old")), options, spawned).ok().unwrap().value
}

fn window() -> Context {
    window_with_title(None)
}

fn add_tab(context: &mut Context) {
    let spawned: Result<SpawnedTerminal<u32>, ()> =
        Ok(SpawnedTerminal { process: None, terminal: 1 });
    let options: WindowOptions<&'static str> = WindowOptions::default();
    assert!(context.create_tab(options, spawned).is_ok());
}

const SAME: ConfigDelta = ConfigDelta {
    cursor_thickness_changed: false,
    font_changed: false,
    font_size_as_configured: true,
    padding_changed: false,
};

const IDLE: SearchState = SearchState { history_index: None, direction: Direction::Right };
const SEARCHING: SearchState = SearchState { history_index: Some(0), direction: Direction::Right };

fn outcome(dirty: bool, occluded: bool, hint_highlight_dirty: bool) -> InputOutcome {
    InputOutcome { dirty, occluded, hint_highlight_dirty, search_state: IDLE }
}

fn title_after_reload(asked: Option<&str>, dynamic: bool, current: &str) -> Option<String> {
    let mut context = window_with_title(asked);
    let mut new = config("new");
    new.dynamic_title = dynamic;
    context.update_config(Rc::new(new), &SAME, Platform::Other, &current.to_string()).title
}

#[test]
fn title_follows_the_table() {
    assert_eq!(title_after_reload(Some("mine"), true, "old"), None);
    assert_eq!(title_after_reload(Some("mine"), false, "old"), None);
    assert_eq!(title_after_reload(None, true, "old"), Some("new".to_string()));
    assert_eq!(title_after_reload(None, true, "vim"), None);
    assert_eq!(title_after_reload(None, false, "vim"), Some("new".to_string()));
    assert_eq!(title_after_reload(None, false, "old"), Some("new".to_string()));
}

#[test]
fn reload_without_changes() {
    let mut context = window();
    let update = context.update_config(Rc::new(config("old")), &SAME, Platform::Other, &"old".to_string());
    assert!(!update.cursor_dirty);
    assert_eq!(update.font, FontUpdate::Unchanged);
    assert!(!update.layout_dirty);
    assert!(!update.transparent);
    assert_eq!(update.theme, None);
    assert_eq!(update.mac_os, None);
    assert!(!update.blur);
    assert_eq!(update.hint_alphabet, "jfkd");
    assert!(context.dirty());
    match context.handle_event(WindowEvent::AboutToWait) {
        EventStep::Process(batch) => {
            assert_eq!(batch.events.len(), 1);
            assert!(matches!(
                batch.events[0],
                QueuedEvent::Terminal {
                    event: TerminalEvent::CursorBlinkingChange,
                    window_id: None
                }
            ));
        },
        _ => panic!("the blinking of the cursor was not queued"),
    }
}

#[test]
fn reload_with_changes() {
    let mut context = window();
    let mut new = config("new");
    new.theme = Some(Theme::Dark);
    new.opaque = false;
    new.blur = true;
    new.hint_alphabet = "abc".to_string();
    let delta = ConfigDelta {
        cursor_thickness_changed: true,
        font_changed: true,
        font_size_as_configured: true,
        padding_changed: true,
    };
    let update = context.update_config(Rc::new(new), &delta, Platform::Other, &"old".to_string());
    assert!(update.cursor_dirty);
    assert_eq!(update.font, FontUpdate::ConfiguredSize);
    assert!(update.layout_dirty);
    assert!(update.transparent);
    assert_eq!(update.theme, Some(Theme::Dark));
    assert!(update.blur);
    assert_eq!(update.hint_alphabet, "abc");
    assert_eq!(context.config().title, "new");
}

#[test]
fn font_size_of_the_runtime_is_kept() {
    let mut context = window();
    let delta = ConfigDelta { font_changed: true, font_size_as_configured: false, ..SAME };
    let update = context.update_config(Rc::new(config("old")), &delta, Platform::Other, &"old".to_string());
    assert_eq!(update.font, FontUpdate::KeepSize);
}

#[test]
fn layout_follows_padding_and_increments() {
    let mut new = config("old");
    new.dynamic_padding = true;
    let mut context = window();
    assert!(context.update_config(Rc::new(new), &SAME, Platform::Other, &"old".to_string()).layout_dirty);
    let mut new = config("old");
    new.resize_increments = true;
    let mut context = window();
    assert!(context.update_config(Rc::new(new), &SAME, Platform::Other, &"old".to_string()).layout_dirty);
}

#[test]
fn overrides_are_added_and_cleared() {
    let mut context = window();
    let reload = ConfigReload { clear_messages: MessageTarget::IpcConfig };
    assert_eq!(context.add_window_config(vec!["a"]), reload);
    assert_eq!(context.add_window_config(vec!["b", "c"]), reload);
    assert_eq!(context.window_config(), &vec!["a", "b", "c"]);
    assert_eq!(context.reset_window_config(), reload);
    assert!(context.window_config().is_empty());
}

#[test]
fn sync_resizes_an_outdated_terminal() {
    let mut context = window();
    let old = SizeInfo { screen_lines: 24, columns: 80 };
    let lines = SizeInfo { screen_lines: 23, columns: 80 };
    let columns = SizeInfo { screen_lines: 24, columns: 81 };
    assert_eq!(context.finish_sync(old, lines, true), SyncEnd { resize: Some(lines), redraw: true });
    assert!(context.dirty());
    assert_eq!(
        context.finish_sync(old, columns, false),
        SyncEnd { resize: Some(columns), redraw: false }
    );
    assert_eq!(context.finish_sync(old, old, true), SyncEnd { resize: None, redraw: true });
    context.input_processed(outcome(false, true, false), false);
    assert_eq!(context.finish_sync(old, old, true), SyncEnd { resize: None, redraw: false });
}

#[test]
fn draw_a_visible_window() {
    let mut context = window();
    add_tab(&mut context);
    context.set_dirty(true);
    assert_eq!(context.draw(), DrawStep::Frame);
    assert!(!context.dirty());
    let plan = context.draw_frame(true, true);
    assert!(!plan.redraw);
    assert_eq!(plan.tab_bar.titles, vec!["old", "old"]);
    assert_eq!(plan.tab_bar.active, 1);
    assert_eq!(plan.active_tab, 1);
    assert!(!context.dirty());
}

#[test]
fn unfinished_bell_is_drawn_again() {
    let mut context = window();
    context.draw();
    assert!(context.draw_frame(false, true).redraw);
    assert!(!context.dirty());
    context.draw();
    assert!(!context.draw_frame(false, false).redraw);
    assert!(context.dirty());
}

#[test]
fn hidden_window_is_not_drawn() {
    let mut context = window();
    context.input_processed(outcome(true, true, false), false);
    assert_eq!(context.draw(), DrawStep::Skip);
    assert!(context.dirty());
}

#[test]
fn events_wait_in_order() {
    let mut context = window();
    assert!(matches!(context.handle_event(WindowEvent::AboutToWait), EventStep::Idle));
    assert!(matches!(context.handle_event(WindowEvent::RedrawRequested), EventStep::Idle));
    for name in ["a", "b", "c"] {
        assert!(matches!(context.handle_event(WindowEvent::Other(name)), EventStep::Queued));
    }
    match context.handle_event(WindowEvent::AboutToWait) {
        EventStep::Process(batch) => {
            let names: Vec<&str> = batch
                .events
                .iter()
                .map(|event| match event {
                    QueuedEvent::Window(name) => *name,
                    QueuedEvent::Terminal { .. } => panic!("no terminal event was queued"),
                })
                .collect();
            assert_eq!(names, vec!["a", "b", "c"]);
            assert_eq!(batch.active_tab, 0);
            assert_eq!(
                batch.pending,
                PendingEvent {
                    redraw_requested: false,
                    old_is_searching: false,
                    tab_bar_visible: false
                }
            );
        },
        _ => panic!("the queue was not processed"),
    }
    assert!(matches!(context.handle_event(WindowEvent::AboutToWait), EventStep::Idle));
}

#[test]
fn batch_tells_where_processing_began() {
    let mut context = window();
    add_tab(&mut context);
    context.input_processed(InputOutcome { search_state: SEARCHING, ..outcome(false, false, false) }, false);
    context.handle_event(WindowEvent::Other("a"));
    match context.handle_event(WindowEvent::RedrawRequested) {
        EventStep::Process(batch) => {
            assert_eq!(batch.active_tab, 1);
            assert_eq!(
                batch.pending,
                PendingEvent {
                    redraw_requested: true,
                    old_is_searching: true,
                    tab_bar_visible: true
                }
            );
        },
        _ => panic!("the queue was not processed"),
    }
}

#[test]
fn input_decides_what_follows() {
    let mut context = window();
    let quiet = outcome(false, false, false);
    assert_eq!(context.input_processed(quiet, false), EventAction::Done);
    assert_eq!(context.input_processed(quiet, true), EventAction::UpdateDisplay);
    let dirty = outcome(true, false, false);
    assert_eq!(context.input_processed(dirty, false), EventAction::UpdateHighlights);
    assert_eq!(context.input_state(), dirty);
    let hints = outcome(false, false, true);
    assert_eq!(context.input_processed(hints, false), EventAction::UpdateHighlights);
    assert_eq!(context.input_state(), hints);
}

#[test]
fn redraw_is_requested_for_the_next_frame_only() {
    let waiting =
        PendingEvent { redraw_requested: false, old_is_searching: false, tab_bar_visible: false };
    let drawing = PendingEvent { redraw_requested: true, ..waiting };

    let mut context = window();
    context.input_processed(outcome(true, false, true), false);
    assert!(context.highlights_updated(&waiting, false, true));
    assert!(context.dirty());
    assert!(!context.input_state().hint_highlight_dirty);
    assert!(!context.highlights_updated(&drawing, false, true));
    assert!(!context.highlights_updated(&waiting, false, false));

    context.input_processed(outcome(false, false, true), false);
    assert!(!context.highlights_updated(&waiting, false, true));
    assert!(!context.dirty());
    context.input_processed(outcome(false, false, true), false);
    assert!(context.highlights_updated(&waiting, true, true));
    assert!(context.dirty());

    context.input_processed(outcome(true, true, false), false);
    assert!(!context.highlights_updated(&waiting, true, true));
}

#[test]
fn updated_display_makes_the_window_dirty() {
    let pending =
        PendingEvent { redraw_requested: false, old_is_searching: false, tab_bar_visible: false };
    let cursors = CursorView { screen_lines: 24, cursor_line: 23, vi_cursor_line: 0, mode: 0 };
    let mut context = window();
    assert_eq!(context.display_updated(&pending, &cursors, SEARCHING, 0), Some(1));
    assert!(context.dirty());
    assert_eq!(context.input_state().search_state, SEARCHING);
}

const VI: u32 = 1 << 16;

fn scroll(cursor_line: i32, vi_line: Option<i32>, direction: Direction, offset: usize) -> Option<i32> {
    let cursors = CursorView {
        screen_lines: 24,
        cursor_line,
        vi_cursor_line: vi_line.unwrap_or(0),
        // Bits other than that of vi mode make no difference.
        mode: 0x0f | if vi_line.is_some() { VI } else { VI << 1 },
    };
    cursors.scroll_on_search_start(direction, false, true, offset)
}

#[test]
fn search_scrolls_one_line() {
    // Searching forward from the last line.
    assert_eq!(scroll(23, None, Direction::Right, 0), Some(1));
    // The cursor is not on the last line.
    assert_eq!(scroll(22, None, Direction::Right, 0), None);
    // Searching backward starts from the last line itself.
    assert_eq!(scroll(23, None, Direction::Left, 0), None);
    assert_eq!(scroll(23, None, Direction::Left, 5), Some(-1));
    assert_eq!(scroll(23, None, Direction::Right, 5), None);
    // In vi mode the search starts from the vi cursor.
    assert_eq!(scroll(23, Some(23), Direction::Right, 0), None);
    assert_eq!(scroll(23, Some(23), Direction::Right, 5), Some(-1));
    assert_eq!(scroll(23, Some(10), Direction::Left, 0), Some(1));
    assert_eq!(scroll(23, Some(10), Direction::Left, 5), None);
    assert_eq!(scroll(23, Some(-1), Direction::Left, 5), None);
}

#[test]
fn no_scroll_without_a_new_search() {
    let cursors = CursorView { screen_lines: 24, cursor_line: 23, vi_cursor_line: 0, mode: 0 };
    for (old, new) in [(false, false), (true, true), (true, false)] {
        assert_eq!(cursors.scroll_on_search_start(Direction::Right, old, new, 0), None);
        assert_eq!(cursors.scroll_on_search_start(Direction::Left, old, new, 3), None);
    }
}

#[test]
fn direction_of_the_search_before_the_update_counts() {
    let cursors = CursorView { screen_lines: 24, cursor_line: 23, vi_cursor_line: 0, mode: 0 };
    let backward = SearchState { history_index: Some(0), direction: Direction::Left };
    let mut context = window();
    assert_eq!(context.submit_display_update(&cursors, false, backward, 0), Some(1));
    assert_eq!(context.submit_display_update(&cursors, false, SEARCHING, 2), Some(-1));
    assert!(!context.dirty());
    assert_eq!(context.input_state().search_state, SEARCHING);
}

#[test]
fn first_window_is_set_up() {
    assert_eq!(
        initial_setup(Platform::Windows),
        vec![
            SetupStep::CreateWindow,
            SetupStep::CreateGlDisplay { window_handle: true },
            SetupStep::PickGlConfig { window_handle: true },
            SetupStep::CreateGlContext { window_handle: true },
            SetupStep::CreateDisplay { tabbed: false },
        ]
    );
    for platform in [Platform::MacOs, Platform::Other] {
        assert_eq!(
            initial_setup(platform),
            vec![
                SetupStep::CreateGlDisplay { window_handle: false },
                SetupStep::PickGlConfig { window_handle: false },
                SetupStep::CreateWindow,
                SetupStep::CreateGlContext { window_handle: false },
                SetupStep::CreateDisplay { tabbed: false },
            ]
        );
    }
}

#[test]
fn further_window_is_set_up() {
    let mut options: WindowOptions<&'static str> = WindowOptions::default();
    let steps = |tabbed: bool| {
        vec![
            SetupStep::CreateWindow,
            SetupStep::CreateGlContext { window_handle: true },
            SetupStep::CreateDisplay { tabbed },
        ]
    };
    assert_eq!(additional_setup(Platform::MacOs, &options), steps(false));
    options.window_tabbing_id = Some("group".to_string());
    assert_eq!(additional_setup(Platform::MacOs, &options), steps(true));
    assert_eq!(additional_setup(Platform::Other, &options), steps(false));
    assert_eq!(additional_setup(Platform::Windows, &options), steps(false));
}

#[test]
fn second_load_changes_nothing() {
    for dynamic in [true, false] {
        for current in ["old", "vim"] {
            let mut context = window();
            let load = || {
                let mut new = config("new");
                new.dynamic_title = dynamic;
                Rc::new(new)
            };
            let changed = ConfigDelta { font_changed: true, padding_changed: true, ..SAME };
            let first = context.update_config(load(), &changed, Platform::Other, &current.to_string());
            let title = first.title.unwrap_or(current.to_string());
            let second = context.update_config(load(), &SAME, Platform::Other, &title);
            assert_eq!(second.title.unwrap_or(title.clone()), title);
            assert!(!second.cursor_dirty);
            assert_eq!(second.font, FontUpdate::Unchanged);
            assert!(!second.layout_dirty);
            assert_eq!(context.config().title, "new");
            match context.handle_event(WindowEvent::AboutToWait) {
                EventStep::Process(batch) => assert_eq!(batch.events.len(), 2),
                _ => panic!("the blinking of the cursor was not queued"),
            }
        }
    }
}

#[test]
fn window_follows_the_search() {
    let mut context = window();
    assert_eq!(context.input_state().search_state, IDLE);
    context.set_search_state(SEARCHING);
    assert_eq!(context.input_state().search_state, SEARCHING);
    assert!(!context.dirty());
}

#[test]
fn dirty_flag_is_read_and_set() {
    let mut context = window();
    context.set_dirty(true);
    assert!(context.dirty());
    context.set_dirty(false);
    assert!(!context.dirty());
}

#[test]
fn appearance_is_set_on_every_load() {
    let load = |opaque: bool| {
        let mut new = config("old");
        new.theme = Some(Theme::Light);
        new.option_as_alt = OptionAsAlt::OnlyLeft;
        new.opaque = opaque;
        Rc::new(new)
    };
    let mut context = window();
    for opaque in [true, true, false, false] {
        let title = "old".to_string();
        let update = context.update_config(load(opaque), &SAME, Platform::MacOs, &title);
        assert_eq!(update.theme, Some(Theme::Light));
        assert_eq!(update.transparent, !opaque);
        assert_eq!(
            update.mac_os,
            Some(MacOsUpdate { has_shadow: opaque, option_as_alt: OptionAsAlt::OnlyLeft })
        );
    }
    for platform in [Platform::Windows, Platform::Other] {
        let title = "old".to_string();
        assert_eq!(context.update_config(load(true), &SAME, platform, &title).mac_os, None);
    }
}
