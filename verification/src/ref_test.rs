//! Files that record a terminal's content for reference tests.

use alacritty_terminal::grid::{Dimensions, Grid};
use alacritty_terminal::term::cell::Cell;
use alacritty_terminal::term::test::TermSize;
use vstd::prelude::*;

use crate::decimal::{self, append_decimal};
use crate::terminal::SizeInfo;

verus! {

/// A grid of cells.
#[verifier::external_type_specification]
#[verifier::external_body]
#[verifier::reject_recursive_types(T)]
pub struct ExGrid<T>(Grid<T>);

/// A cell of a grid.
#[verifier::external_type_specification]
#[verifier::external_body]
pub struct ExCell(Cell);

/// Why a value could not be written as JSON.
#[verifier::external_type_specification]
#[verifier::external_body]
pub struct ExJsonError(serde_json::Error);

/// The rows that a grid stores, each by the characters of its cells, from the
/// bottommost line of the screen upwards through the scrollback. Behind the
/// lines of the grid follow the spare rows that it keeps for growing.
///
/// Of a grid that was read from data in which the first row lies outside of the
/// stored rows, these are the rows in the order in which they are stored.
pub uninterp spec fn grid_rows(grid: Grid<Cell>) -> Seq<Seq<char>>;

/// Where among the rows that a grid stores the bottommost line of the screen is.
pub uninterp spec fn grid_first_row(grid: Grid<Cell>) -> nat;

/// Number of lines of a grid, those of the screen and those of the scrollback.
pub uninterp spec fn grid_total_lines(grid: Grid<Cell>) -> nat;

/// Number of lines of a grid that are on the screen.
pub uninterp spec fn grid_screen_lines(grid: Grid<Cell>) -> nat;

/// Number of cells in a line of a grid.
pub uninterp spec fn grid_columns(grid: Grid<Cell>) -> nat;

/// Number of lines to which the scrollback of a grid may grow.
pub uninterp spec fn grid_scroll_limit(grid: Grid<Cell>) -> nat;

/// What a grid holds, written as JSON.
pub uninterp spec fn grid_json(grid: Grid<Cell>) -> Seq<char>;

/// What `Grid::initialize_all` makes of a grid.
pub uninterp spec fn grid_initialized(grid: Grid<Cell>) -> Grid<Cell>;

/// What `Grid::truncate` makes of a grid.
pub uninterp spec fn grid_truncated(grid: Grid<Cell>) -> Grid<Cell>;

/// Rows that a grid allocates at once when it grows.
pub const SPARE_ROWS: usize = 1_000;

/// Number of lines of a grid that are not on the screen.
pub open spec fn grid_history(grid: Grid<Cell>) -> nat {
    if grid_total_lines(grid) < grid_screen_lines(grid) {
        0
    } else {
        (grid_total_lines(grid) - grid_screen_lines(grid)) as nat
    }
}

/// Number of lines that the scrollback of a grid lacks to its limit.
pub open spec fn missing_lines(grid: Grid<Cell>) -> nat {
    (grid_scroll_limit(grid) - grid_history(grid)) as nat
}

/// Number of lines of a grid once its scrollback is filled up.
pub open spec fn full_lines(grid: Grid<Cell>) -> nat {
    grid_total_lines(grid) + missing_lines(grid)
}

/// Number of rows of a grid without the spare ones.
pub open spec fn used_rows(grid: Grid<Cell>) -> nat {
    if grid_total_lines(grid) < grid_rows(grid).len() {
        grid_total_lines(grid)
    } else {
        grid_rows(grid).len()
    }
}

/// Number of rows that are added to a grid when its scrollback is filled up.
pub open spec fn added_rows(grid: Grid<Cell>) -> nat {
    if full_lines(grid) <= used_rows(grid) {
        0
    } else if missing_lines(grid) < SPARE_ROWS {
        SPARE_ROWS as nat
    } else {
        missing_lines(grid)
    }
}

/// The scrollback of the grid can be filled up: its rows can be turned until the
/// first one is in front, the scrollback is within its limit, and rows that are
/// added have cells.
pub open spec fn grid_valid(grid: Grid<Cell>) -> bool {
    &&& grid_first_row(grid) <= grid_rows(grid).len()
    &&& grid_history(grid) <= grid_scroll_limit(grid)
    &&& 0 < added_rows(grid) ==> 0 < grid_columns(grid)
}

/// The grid with its scrollback filled up can be numbered and allocated: neither
/// a cell nor a row takes up more bytes than this allows for.
pub open spec fn grid_fits(grid: Grid<Cell>) -> bool {
    &&& full_lines(grid) <= usize::MAX
    &&& 0 < added_rows(grid) ==> {
        &&& (used_rows(grid) + added_rows(grid)) * 64 <= isize::MAX
        &&& grid_columns(grid) * 64 <= isize::MAX
    }
}

/// `count` rows without content.
pub open spec fn blank_rows(count: nat, columns: nat) -> Seq<Seq<char>> {
    Seq::new(count, |row: int| Seq::new(columns, |column: int| ' '))
}

/// Two grids have as many lines on the screen, as many columns, and the same
/// limit of their scrollback.
pub open spec fn same_shape(left: Grid<Cell>, right: Grid<Cell>) -> bool {
    &&& grid_screen_lines(left) == grid_screen_lines(right)
    &&& grid_columns(left) == grid_columns(right)
    &&& grid_scroll_limit(left) == grid_scroll_limit(right)
}

/// `ready` is `grid` with its scrollback filled up to the limit with lines
/// without content, without spare rows, and with the first row in front.
pub open spec fn ready_to_save(grid: Grid<Cell>, ready: Grid<Cell>) -> bool {
    let rows = grid_rows(grid).take(used_rows(grid) as int) + blank_rows(
        added_rows(grid),
        grid_columns(grid),
    );
    &&& same_shape(grid, ready)
    &&& grid_first_row(ready) == 0
    &&& grid_total_lines(ready) == full_lines(grid)
    &&& grid_rows(ready) == (if full_lines(grid) < rows.len() {
        rows.take(full_lines(grid) as int)
    } else {
        rows
    })
}

/// Calls `Grid::initialize_all` of alacritty_terminal.
///
/// The contract names the grid that comes out, which depends on the grid alone.
/// Of it, it claims that the spare rows are dropped, that rows without content
/// follow the others if there are too few for all lines, that as many lines are
/// added as the scrollback lacks to its limit, that the first row is in front,
/// and that the shape of the grid stays.
#[verifier::external_body]
fn initialize_all(grid: &mut Grid<Cell>)
    requires
        grid_valid(*old(grid)),
        grid_fits(*old(grid)),
    ensures
        *final(grid) == grid_initialized(*old(grid)),
        same_shape(*old(grid), *final(grid)),
        grid_first_row(*final(grid)) == 0,
        grid_total_lines(*final(grid)) == full_lines(*old(grid)),
        grid_rows(*final(grid)) == grid_rows(*old(grid)).take(used_rows(*old(grid)) as int)
            + blank_rows(added_rows(*old(grid)), grid_columns(*old(grid))),
{
    grid.initialize_all();
}

/// Calls `Grid::truncate` of alacritty_terminal.
///
/// The contract names the grid that comes out, which depends on the grid alone.
/// Of it, it claims that the spare rows are dropped, that the first row is in
/// front, and that the lines and the shape of the grid stay.
#[verifier::external_body]
fn truncate(grid: &mut Grid<Cell>)
    requires
        grid_first_row(*old(grid)) <= grid_rows(*old(grid)).len(),
    ensures
        *final(grid) == grid_truncated(*old(grid)),
        same_shape(*old(grid), *final(grid)),
        grid_first_row(*final(grid)) == 0,
        grid_total_lines(*final(grid)) == grid_total_lines(*old(grid)),
        grid_rows(*final(grid)) == grid_rows(*old(grid)).take(used_rows(*old(grid)) as int),
{
    grid.truncate();
}

/// Calls `Dimensions::history_size` of alacritty_terminal.
///
/// The contract claims that the result is the number of lines that are not on
/// the screen.
#[verifier::external_body]
fn history_size(grid: &Grid<Cell>) -> (size: usize)
    ensures
        size == grid_history(*grid),
{
    grid.history_size()
}

/// Writes a grid as JSON, with `serde_json::to_string`.
///
/// The contract claims that this succeeds, since no part of a grid can fail to
/// be written, and that the text depends on the grid alone.
#[verifier::external_body]
fn grid_to_json(grid: &Grid<Cell>) -> (json: Result<String, serde_json::Error>)
    ensures
        json is Ok,
        json->Ok_0@ == grid_json(*grid),
{
    serde_json::to_string(grid)
}

/// The size of a terminal as JSON.
pub open spec fn size_json(columns: usize, screen_lines: usize) -> Seq<char> {
    "{\"columns\":"@ + decimal::decimal(columns as nat) + ",\"screen_lines\":"@
        + decimal::decimal(screen_lines as nat) + "}"@
}

/// Writes a `TermSize` of alacritty_terminal as JSON, with
/// `serde_json::to_string`.
///
/// The contract claims that this succeeds, and that the text is an object of
/// the two numbers in decimal notation, without white space.
#[verifier::external_body]
fn size_to_json(columns: usize, screen_lines: usize) -> (json: Result<String, serde_json::Error>)
    ensures
        json is Ok,
        json->Ok_0@ == size_json(columns, screen_lines),
{
    serde_json::to_string(&TermSize::new(columns, screen_lines))
}

/// The configuration that a reference test runs with.
pub open spec fn config_json(history_size: nat) -> Seq<char> {
    "{\"history_size\":"@ + decimal::decimal(history_size) + "}"@
}

fn config_to_json(history_size: usize) -> (json: String)
    ensures
        json@ == config_json(history_size as nat),
{
    let mut json = String::new();
    json.append("{\"history_size\":");
    append_decimal(&mut json, history_size);
    json.append("}");
    assert(json@ =~= config_json(history_size as nat));
    json
}

/// What was found of how a grid is laid out.
#[derive(Clone, Copy, Debug, PartialEq, Eq, Structural)]
pub struct GridShape {
    /// Number of rows that are stored.
    pub stored_rows: usize,
    /// Where among them the bottommost line of the screen is.
    pub first_row: u64,
    pub total_lines: u64,
    pub screen_lines: u64,
    pub columns: u64,
    pub scroll_limit: u64,
}

impl GridShape {
    /// This is how the grid is laid out.
    pub open spec fn describes(self, grid: Grid<Cell>) -> bool {
        &&& self.stored_rows == grid_rows(grid).len()
        &&& self.first_row == grid_first_row(grid)
        &&& self.total_lines == grid_total_lines(grid)
        &&& self.screen_lines == grid_screen_lines(grid)
        &&& self.columns == grid_columns(grid)
        &&& self.scroll_limit == grid_scroll_limit(grid)
    }

    /// Whether a grid that is laid out so can be made ready to be saved.
    fn is_savable(&self, Ghost(grid): Ghost<Grid<Cell>>) -> (savable: bool)
        requires
            self.describes(grid),
        ensures
            savable == (grid_valid(grid) && grid_fits(grid)),
    {
        let history: u64 = if self.total_lines < self.screen_lines {
            0
        } else {
            self.total_lines - self.screen_lines
        };
        if self.first_row as u128 > self.stored_rows as u128 || history > self.scroll_limit {
            return false;
        }

        let missing: u64 = self.scroll_limit - history;
        let full: u128 = self.total_lines as u128 + missing as u128;
        if full > usize::MAX as u128 {
            return false;
        }

        let stored: u128 = self.stored_rows as u128;
        let total: u128 = self.total_lines as u128;
        let used: u128 = if total < stored {
            total
        } else {
            stored
        };
        if full <= used {
            return true;
        }
        let added: u128 = if (missing as u128) < SPARE_ROWS as u128 {
            SPARE_ROWS as u128
        } else {
            missing as u128
        };
        0 < self.columns && (used + added) * 64 <= isize::MAX as u128 && self.columns as u128 * 64
            <= isize::MAX as u128
    }
}

/// Reads how a grid is laid out off its JSON value, with
/// `serde_json::to_value`.
///
/// The contract claims that the numbers that are written are those of the grid.
#[verifier::external_body]
fn grid_shape(grid: &Grid<Cell>) -> (shape: Option<GridShape>)
    ensures
        shape is Some,
        shape->Some_0.stored_rows == grid_rows(*grid).len(),
        shape->Some_0.first_row == grid_first_row(*grid),
        shape->Some_0.total_lines == grid_total_lines(*grid),
        shape->Some_0.screen_lines == grid_screen_lines(*grid),
        shape->Some_0.columns == grid_columns(*grid),
        shape->Some_0.scroll_limit == grid_scroll_limit(*grid),
{
    let value = serde_json::to_value(grid).ok()?;
    Some(GridShape {
        stored_rows: value["raw"]["inner"].as_array()?.len(),
        first_row: value["raw"]["zero"].as_u64()?,
        total_lines: value["raw"]["len"].as_u64()?,
        screen_lines: value["lines"].as_u64()?,
        columns: value["columns"].as_u64()?,
        scroll_limit: value["max_scroll_limit"].as_u64()?,
    })
}

/// A file of a reference test.
pub struct RefTestFile {
    pub path: &'static str,
    pub contents: String,
}

/// The grid that is recorded of `grid`: it is initialized as a whole, and then
/// the spare rows are dropped.
pub open spec fn saved_grid(grid: Grid<Cell>) -> Grid<Cell> {
    grid_truncated(grid_initialized(grid))
}

/// `files` record `grid`, made ready to be saved, and the size of its terminal.
pub open spec fn files_record(
    files: Seq<RefTestFile>,
    grid: Grid<Cell>,
    size_info: SizeInfo,
) -> bool {
    &&& files.len() == 3
    &&& files[0].path@ == "./grid.json"@
    &&& ready_to_save(grid, saved_grid(grid))
    &&& files[0].contents@ == grid_json(saved_grid(grid))
    &&& files[1].path@ == "./size.json"@
    &&& files[1].contents@ == size_json(size_info.columns, size_info.screen_lines)
    &&& files[2].path@ == "./config.json"@
    &&& files[2].contents@ == config_json(grid_history(saved_grid(grid)))
}

/// Lists the files of a reference test for a grid that was written as
/// `grid_text`.
pub fn list_files(grid_text: String, history_size: usize, size_info: &SizeInfo) -> (files: Vec<
    RefTestFile,
>)
    ensures
        files@.len() == 3,
        files@[0].path@ == "./grid.json"@,
        files@[0].contents@ == grid_text@,
        files@[1].path@ == "./size.json"@,
        files@[1].contents@ == size_json(size_info.columns, size_info.screen_lines),
        files@[2].path@ == "./config.json"@,
        files@[2].contents@ == config_json(history_size as nat),
{
    let size_text = size_to_json(size_info.columns, size_info.screen_lines).expect(
        "serialize size",
    );
    let config_text = config_to_json(history_size);

    let mut files: Vec<RefTestFile> = Vec::new();
    files.push(RefTestFile { path: "./grid.json", contents: grid_text });
    files.push(RefTestFile { path: "./size.json", contents: size_text });
    files.push(RefTestFile { path: "./config.json", contents: config_text });
    files
}

/// Lists the files that record `grid` and the size of its terminal, if the grid
/// can be made ready to be saved.
pub fn ref_test_files(grid: Grid<Cell>, size_info: &SizeInfo) -> (files: Option<Vec<RefTestFile>>)
    ensures
        files is Some <==> grid_valid(grid) && grid_fits(grid),
        files matches Some(files) ==> files_record(files@, grid, *size_info),
{
    match grid_shape(&grid) {
        Some(shape) => if !shape.is_savable(Ghost(grid)) {
            return None;
        },
        None => return None,
    }

    let ghost before = grid;
    let mut grid = grid;
    initialize_all(&mut grid);
    assert(grid_rows(grid).take(grid_rows(grid).len() as int) =~= grid_rows(grid));
    truncate(&mut grid);
    assert(ready_to_save(before, grid));

    let grid_text = grid_to_json(&grid).expect("serialize grid");
    Some(list_files(grid_text, history_size(&grid), size_info))
}

} // verus!
