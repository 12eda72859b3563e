use alacritty_terminal::grid::{Dimensions, Grid};
use alacritty_terminal::index::{Column, Line};
use alacritty_terminal::term::cell::Cell;
use std::rc::Rc;

use window_context::config::{OptionAsAlt, WindowOptions};
use window_context::context::SpawnedTerminal;
use window_context::decimal::append_decimal;
use window_context::ref_test::{list_files, ref_test_files, RefTestFile};
use window_context::terminal::SizeInfo;
use window_context::{UiConfig, WindowContext};

const SIZE: SizeInfo = SizeInfo { screen_lines: 2, columns: 3 };

fn grid(limit: usize) -> Grid<Cell> {
    let mut grid: Grid<Cell> = Grid::new(2, 3, limit);
    for (line, text) in ["abc", "def"].iter().enumerate() {
        for (column, c) in text.chars().enumerate() {
            grid[Line(line as i32)][Column(column)].c = c;
        }
    }
    // The first line moves into the scrollback.
    grid.scroll_up(&(Line(0)..Line(2)), 1);
    grid
}

fn line(grid: &Grid<Cell>, line: i32) -> String {
    (0..grid.columns()).map(|column| grid[Line(line)][Column(column)].c).collect()
}

fn find<'a>(files: &'a [RefTestFile], path: &str) -> &'a str {
    &files.iter().find(|file| file.path == path).unwrap().contents
}

#[test]
fn files_record_a_grid() {
    let files = ref_test_files(grid(5), &SIZE).unwrap();
    let paths: Vec<&str> = files.iter().map(|file| file.path).collect();
    assert_eq!(paths, vec!["./grid.json", "./size.json", "./config.json"]);
    assert_eq!(find(&files, "./size.json"), "{\"columns\":3,\"screen_lines\":2}");
    assert_eq!(find(&files, "./config.json"), "{\"history_size\":5}");

    let saved: Grid<Cell> = serde_json::from_str(find(&files, "./grid.json")).unwrap();
    assert_eq!(saved.total_lines(), 7);
    assert_eq!(saved.screen_lines(), 2);
    assert_eq!(saved.columns(), 3);
    assert_eq!(line(&saved, -1), "abc");
    assert_eq!(line(&saved, 0), "def");
    assert_eq!(line(&saved, 1), "   ");
    for above in 2..=5 {
        assert_eq!(line(&saved, -above), "   ");
    }

    // No spare rows are recorded.
    let value: serde_json::Value = serde_json::from_str(find(&files, "./grid.json")).unwrap();
    assert_eq!(value["raw"]["inner"].as_array().unwrap().len(), 7);
    assert_eq!(value["raw"]["zero"].as_u64(), Some(0));
}

#[test]
fn files_record_a_grid_without_scrollback() {
    let mut plain: Grid<Cell> = Grid::new(2, 3, 0);
    plain[Line(1)][Column(2)].c = 'z';
    let files = ref_test_files(plain, &SIZE).unwrap();
    assert_eq!(find(&files, "./config.json"), "{\"history_size\":0}");
    let saved: Grid<Cell> = serde_json::from_str(find(&files, "./grid.json")).unwrap();
    assert_eq!(saved.total_lines(), 2);
    assert_eq!(line(&saved, 1), "  z");
}

#[test]
fn rotated_rows_are_recorded_in_order() {
    // Without scrollback, scrolling only moves the first of the stored rows.
    let mut rotated = grid(0);
    let value = serde_json::to_value(&rotated).unwrap();
    assert_eq!(value["raw"]["zero"].as_u64(), Some(1));
    assert_eq!(value["raw"]["inner"].as_array().unwrap().len(), 2);

    let files = ref_test_files(rotated.clone(), &SIZE).unwrap();
    let saved: serde_json::Value = serde_json::from_str(find(&files, "./grid.json")).unwrap();
    assert_eq!(saved["raw"]["zero"].as_u64(), Some(0));
    let saved: Grid<Cell> = serde_json::from_str(find(&files, "./grid.json")).unwrap();
    assert_eq!(line(&saved, 0), "def");
    assert_eq!(line(&saved, 1), "   ");

    rotated.initialize_all();
    rotated.truncate();
    assert_eq!(find(&files, "./grid.json"), serde_json::to_string(&rotated).unwrap());
    assert!(saved == rotated);
}

#[test]
fn attributes_and_offset_are_recorded() {
    let mut styled = grid(5);
    styled[Line(0)][Column(1)].push_zerowidth('\u{301}');
    styled[Line(0)][Column(2)].flags = alacritty_terminal::term::cell::Flags::BOLD;
    styled.scroll_display(alacritty_terminal::grid::Scroll::Delta(1));
    let files = ref_test_files(styled.clone(), &SIZE).unwrap();
    styled.initialize_all();
    styled.truncate();
    assert_eq!(find(&files, "./grid.json"), serde_json::to_string(&styled).unwrap());
}

/// A grid in whose stored form some numbers were replaced.
fn altered(grid: &Grid<Cell>, numbers: &[(&str, u64)]) -> Grid<Cell> {
    let mut value = serde_json::to_value(grid).unwrap();
    for (field, number) in numbers {
        if *field == "zero" || *field == "len" {
            value["raw"][*field] = serde_json::Value::from(*number);
        } else {
            value[*field] = serde_json::Value::from(*number);
        }
    }
    serde_json::from_value(value).unwrap()
}

#[test]
fn spoiled_grids_are_not_recorded() {
    let refused = |numbers: &[(&str, u64)]| ref_test_files(altered(&grid(5), numbers), &SIZE).is_none();
    assert!(!refused(&[("max_scroll_limit", 5)]));
    assert!(refused(&[("max_scroll_limit", 0)]));
    assert!(refused(&[("max_scroll_limit", u64::MAX)]));
    assert!(refused(&[("zero", 100_000)]));
    assert!(refused(&[("len", 100_000)]));
    assert!(refused(&[("columns", 0)]));
    assert!(refused(&[("columns", u64::MAX)]));
    // More lines than can be numbered.
    assert!(refused(&[("len", u64::MAX), ("lines", u64::MAX)]));
}

#[test]
fn unusual_grids_are_recorded() {
    let mut bare = grid(5);
    bare.truncate();
    let cases = [
        // No lines at all.
        (altered(&grid(5), &[("len", 0)]), 3),
        (altered(&grid(5), &[("len", 0), ("max_scroll_limit", 0)]), 0),
        // Fewer lines than the screen.
        (altered(&grid(5), &[("lines", 100)]), 0),
        (altered(&grid(5), &[("lines", 4)]), 4),
        // A full scrollback needs no new rows, and so no columns.
        (altered(&grid(5), &[("max_scroll_limit", 1), ("columns", 0)]), 1),
        // Fewer rows than lines.
        (altered(&bare, &[("len", 5), ("max_scroll_limit", 10)]), 10),
        (altered(&bare, &[("len", 7)]), 5),
        (altered(&bare, &[("len", 1500), ("max_scroll_limit", 1498)]), 1498),
    ];
    for (grid, history) in cases {
        let files = ref_test_files(grid.clone(), &SIZE).unwrap();
        let mut saved = grid;
        saved.initialize_all();
        saved.truncate();
        assert_eq!(saved.history_size(), history);
        assert_eq!(find(&files, "./grid.json"), serde_json::to_string(&saved).unwrap());
        assert_eq!(find(&files, "./config.json"), format!("{{\"history_size\":{}}}", history));
    }
}

#[test]
fn files_are_listed() {
    let size = SizeInfo { screen_lines: 120, columns: 1007 };
    let files = list_files("{}".to_string(), 100_000, &size);
    assert_eq!(find(&files, "./grid.json"), "{}");
    assert_eq!(find(&files, "./size.json"), "{\"columns\":1007,\"screen_lines\":120}");
    assert_eq!(find(&files, "./config.json"), "{\"history_size\":100000}");
}

#[test]
fn window_lists_the_files_of_its_terminal() {
    let config = UiConfig {
        title: "Alacritty".to_string(),
        dynamic_title: true,
        dynamic_padding: false,
        resize_increments: false,
        theme: None,
        option_as_alt: OptionAsAlt::Neither,
        blur: false,
        opaque: true,
        hint_alphabet: "jfkd".to_string(),
        cursor_blinking: false,
        ref_test: true,
    };
    let spawned: Result<SpawnedTerminal<u32>, ()> =
        Ok(SpawnedTerminal { process: None, terminal: 0 });
    let options: WindowOptions<()> = WindowOptions::default();
    let started = WindowContext::<u32, (), ()>::initial(1, Rc::new(config), options, spawned);
    let context = started.ok().unwrap().value;
    let files = context.write_ref_test_results(grid(9), &SIZE).unwrap();
    assert_eq!(files.len(), 3);
    assert_eq!(find(&files, "./config.json"), "{\"history_size\":9}");
}

#[test]
fn decimal_notation() {
    for value in [0usize, 7, 9, 10, 19, 100, 4096, usize::MAX] {
        let mut text = "n=".to_string();
        append_decimal(&mut text, value);
        assert_eq!(text, format!("n={}", value));
    }
}
