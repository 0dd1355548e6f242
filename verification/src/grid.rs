//! The grid layout engine: packs a sequence of cells of known width into
//! columns, either into as many as a width budget allows or into a given
//! number, and writes the packed grid out.
//!
//! Cells fill the grid row by row: with `c` columns, cell `i` stands in
//! column `i % c` of row `i / c`. A column is as wide as its widest cell, and
//! an arrangement is as wide as its columns together plus the spacing between
//! each two neighbours.

use vstd::prelude::*;

use crate::text::spaces;

verus! {

/// A rendered display unit.
#[derive(Debug, Clone, PartialEq, Eq)]
pub struct Cell {
    /// The text to write, styling included.
    pub contents: String,
    /// The columns the cell takes on the terminal: the length of its text
    /// without the styling.
    pub width: usize,
}

impl View for Cell {
    type V = (Seq<char>, nat);

    open spec fn view(&self) -> (Seq<char>, nat) {
        (self.contents@, self.width as nat)
    }
}

/// The contents and width of each cell.
pub open spec fn cell_views(cells: Seq<Cell>) -> Seq<(Seq<char>, nat)> {
    Seq::new(cells.len(), |i: int| cells[i]@)
}

/// The width of each cell.
pub open spec fn widths_of(cells: Seq<Cell>) -> Seq<nat> {
    Seq::new(cells.len(), |i: int| cells[i].width as nat)
}

/// The widths in a sequence of cell views.
pub open spec fn widths_in(cells: Seq<(Seq<char>, nat)>) -> Seq<nat> {
    Seq::new(cells.len(), |i: int| cells[i].1)
}

/// Why a layout was refused.
#[derive(Debug, Clone, Copy, PartialEq, Eq, Structural)]
pub enum LayoutError {
    /// A width budget of zero for a grid that has cells.
    InvalidWidthBudget,
}

/// The rows that `count` cells take in `columns` columns.
pub open spec fn rows_needed(count: nat, columns: nat) -> nat {
    if columns == 0 {
        0
    } else {
        ((count + columns - 1) / (columns as int)) as nat
    }
}

/// The column in which cell `index` stands.
pub open spec fn column_of(index: int, columns: nat) -> int {
    index % (columns as int)
}

/// The widest of the first `upto` cells that stand in `column`; 0 if none
/// of them does.
pub open spec fn column_width_upto(widths: Seq<nat>, columns: nat, column: nat, upto: nat) -> nat
    decreases upto,
{
    if upto == 0 {
        0
    } else {
        let before = column_width_upto(widths, columns, column, (upto - 1) as nat);
        if column_of(upto - 1, columns) == column && widths[upto - 1] > before {
            widths[upto - 1]
        } else {
            before
        }
    }
}

/// The width of a column: that of the widest cell in it.
pub open spec fn column_width(widths: Seq<nat>, columns: nat, column: nat) -> nat {
    column_width_upto(widths, columns, column, widths.len())
}

/// The widths of the first `upto` columns together.
pub open spec fn columns_sum(widths: Seq<nat>, columns: nat, upto: nat) -> nat
    decreases upto,
{
    if upto == 0 {
        0
    } else {
        columns_sum(widths, columns, (upto - 1) as nat) + column_width(
            widths,
            columns,
            (upto - 1) as nat,
        )
    }
}

/// The width of a line when the cells stand in `columns` columns: the
/// columns' widths together, and `spacing` between each two neighbours.
pub open spec fn total_width(widths: Seq<nat>, columns: nat, spacing: nat) -> nat {
    if columns == 0 {
        0
    } else {
        (columns_sum(widths, columns, columns) + spacing * (columns - 1)) as nat
    }
}

/// Whether the cells, in `columns` columns, stay within `max_width`.
pub open spec fn fits(widths: Seq<nat>, columns: nat, spacing: nat, max_width: nat) -> bool {
    total_width(widths, columns, spacing) <= max_width
}

/// Whether `columns` is the column count that a width budget selects: none
/// for no cells; otherwise the largest count from 1 to the number of cells
/// that fits, and 1 if none fits.
pub open spec fn is_chosen(widths: Seq<nat>, spacing: nat, max_width: nat, columns: nat) -> bool {
    if widths.len() == 0 {
        columns == 0
    } else {
        &&& 1 <= columns <= widths.len()
        &&& forall|more: nat|
            columns < more <= widths.len() ==> !#[trigger] fits(widths, more, spacing, max_width)
        &&& (columns == 1 || fits(widths, columns, spacing, max_width))
    }
}

/// The column count that a width budget selects.
pub open spec fn chosen_columns(widths: Seq<nat>, spacing: nat, max_width: nat) -> nat {
    choose|columns: nat| is_chosen(widths, spacing, max_width, columns)
}

/// The most columns that a grid with fewer cells than columns may have.
pub const COLUMN_LIMIT: usize = 0xffff;

/// What can be written out: a grid without cells; or one with at least one
/// column, and no more columns than it has cells or than `COLUMN_LIMIT`, in
/// which, where there are two columns or more, each cell's width and the
/// spacing together stay in the machine's range.
pub open spec fn can_write(widths: Seq<nat>, spacing: nat, columns: nat) -> bool {
    widths.len() > 0 ==> {
        &&& 0 < columns
        &&& (columns <= widths.len() || columns <= COLUMN_LIMIT)
        &&& (columns >= 2 ==> forall|i: int|
            0 <= i < widths.len() ==> #[trigger] widths[i] + spacing <= usize::MAX)
    }
}

/// The text of a grid: nothing for no cells, else the rows of these cells
/// in this column count, with this spacing.
pub open spec fn written(cells: Seq<(Seq<char>, nat)>, spacing: nat, columns: nat) -> Seq<char> {
    if cells.len() == 0 {
        Seq::<char>::empty()
    } else {
        columns_text(cells, spacing, columns)
    }
}

/// The width of the first `upto` columns with the spacing between them.
spec fn width_upto(widths: Seq<nat>, columns: nat, spacing: nat, upto: nat) -> nat
    decreases upto,
{
    if upto == 0 {
        0
    } else {
        width_upto(widths, columns, spacing, (upto - 1) as nat) + (if upto > 1 {
            spacing
        } else {
            0
        }) + column_width(widths, columns, (upto - 1) as nat)
    }
}

proof fn lemma_width_upto_total(widths: Seq<nat>, columns: nat, spacing: nat, upto: nat)
    ensures
        upto == 0 ==> width_upto(widths, columns, spacing, upto) == 0,
        upto > 0 ==> width_upto(widths, columns, spacing, upto) == columns_sum(
            widths,
            columns,
            upto,
        ) + spacing * (upto - 1),
    decreases upto,
{
    if upto > 0 {
        let before = (upto - 1) as nat;
        lemma_width_upto_total(widths, columns, spacing, before);
        assert(columns_sum(widths, columns, upto) == columns_sum(widths, columns, before)
            + column_width(widths, columns, before));
        assert(width_upto(widths, columns, spacing, upto) == width_upto(
            widths,
            columns,
            spacing,
            before,
        ) + (if upto > 1 {
            spacing
        } else {
            0
        }) + column_width(widths, columns, before));
        if upto > 1 {
            assert(spacing * (upto - 1) == spacing * (upto - 2) + spacing) by (nonlinear_arith);
            assert(before - 1 == upto - 2);
        } else {
            assert(spacing * (upto - 1) == 0) by (nonlinear_arith)
                requires
                    upto == 1,
            ;
        }
    }
}

proof fn lemma_width_upto_grows(
    widths: Seq<nat>,
    columns: nat,
    spacing: nat,
    fewer: nat,
    more: nat,
)
    requires
        fewer <= more,
    ensures
        width_upto(widths, columns, spacing, fewer) <= width_upto(widths, columns, spacing, more),
    decreases more,
{
    if fewer < more {
        lemma_width_upto_grows(widths, columns, spacing, fewer, (more - 1) as nat);
    }
}

proof fn lemma_column_width_upto_bounds(
    widths: Seq<nat>,
    columns: nat,
    column: nat,
    upto: nat,
)
    requires
        columns > 0,
        upto <= widths.len(),
    ensures
        forall|i: int|
            0 <= i < upto && column_of(i, columns) == column ==> widths[i] <= column_width_upto(
                widths,
                columns,
                column,
                upto,
            ),
        column_width_upto(widths, columns, column, upto) == 0 || exists|i: int|
            0 <= i < upto && column_of(i, columns) == column && widths[i] == column_width_upto(
                widths,
                columns,
                column,
                upto,
            ),
    decreases upto,
{
    if upto > 0 {
        lemma_column_width_upto_bounds(widths, columns, column, (upto - 1) as nat);
        let before = column_width_upto(widths, columns, column, (upto - 1) as nat);
        let now = column_width_upto(widths, columns, column, upto);
        if column_of(upto - 1, columns) == column && widths[upto - 1] > before {
            assert(widths[upto - 1] == now);
        } else if before != 0 {
            let i = choose|i: int|
                0 <= i < upto - 1 && column_of(i, columns) == column && widths[i] == before;
            assert(0 <= i < upto && column_of(i, columns) == column && widths[i] == now);
        }
    }
}

/// A column is exactly as wide as its widest cell: no cell in it is wider,
/// and unless its width is 0 one of its cells has that width.
pub proof fn lemma_column_width_is_max(widths: Seq<nat>, columns: nat, column: nat)
    requires
        columns > 0,
    ensures
        forall|i: int|
            0 <= i < widths.len() && column_of(i, columns) == column ==> widths[i] <= column_width(
                widths,
                columns,
                column,
            ),
        column_width(widths, columns, column) == 0 || exists|i: int|
            0 <= i < widths.len() && column_of(i, columns) == column && widths[i] == column_width(
                widths,
                columns,
                column,
            ),
{
    lemma_column_width_upto_bounds(widths, columns, column, widths.len());
}

proof fn lemma_columns_sum_covers(widths: Seq<nat>, columns: nat, upto: nat, column: nat)
    requires
        column < upto,
    ensures
        column_width(widths, columns, column) <= columns_sum(widths, columns, upto),
    decreases upto,
{
    if column + 1 < upto {
        lemma_columns_sum_covers(widths, columns, (upto - 1) as nat, column);
    }
}

/// In an arrangement of two or more columns, every cell with the spacing
/// beside it is within the arrangement's width.
pub proof fn lemma_cell_within_total(widths: Seq<nat>, columns: nat, spacing: nat, i: int)
    requires
        columns >= 2,
        0 <= i < widths.len(),
    ensures
        widths[i] + spacing <= total_width(widths, columns, spacing),
{
    let column = column_of(i, columns) as nat;
    assert(0 <= column_of(i, columns) < columns) by (nonlinear_arith)
        requires
            columns > 0,
            i >= 0,
            column_of(i, columns) == i % (columns as int),
    ;
    lemma_column_width_is_max(widths, columns, column);
    lemma_columns_sum_covers(widths, columns, columns, column);
    assert(spacing <= spacing * (columns - 1)) by (nonlinear_arith)
        requires
            columns >= 2,
    ;
}

/// A width budget selects one column count and no other.
pub proof fn lemma_chosen_unique(
    widths: Seq<nat>,
    spacing: nat,
    max_width: nat,
    first: nat,
    second: nat,
)
    requires
        is_chosen(widths, spacing, max_width, first),
        is_chosen(widths, spacing, max_width, second),
    ensures
        first == second,
{
    if widths.len() > 0 {
        if first < second {
            assert(fits(widths, second, spacing, max_width));
        } else if second < first {
            assert(fits(widths, first, spacing, max_width));
        }
    }
}

/// The column count never goes down when the width budget goes up and the
/// cells and the spacing stay as they are.
pub proof fn lemma_chosen_monotonic(
    widths: Seq<nat>,
    spacing: nat,
    narrow: nat,
    wide: nat,
    narrow_columns: nat,
    wide_columns: nat,
)
    requires
        narrow <= wide,
        is_chosen(widths, spacing, narrow, narrow_columns),
        is_chosen(widths, spacing, wide, wide_columns),
    ensures
        narrow_columns <= wide_columns,
{
    if widths.len() > 0 && wide_columns < narrow_columns {
        assert(fits(widths, narrow_columns, spacing, narrow));
        assert(fits(widths, narrow_columns, spacing, wide));
    }
}

/// The column count that a budget selects is `chosen_columns`.
pub proof fn lemma_chosen_columns(widths: Seq<nat>, spacing: nat, max_width: nat, columns: nat)
    requires
        is_chosen(widths, spacing, max_width, columns),
    ensures
        chosen_columns(widths, spacing, max_width) == columns,
{
    lemma_chosen_unique(
        widths,
        spacing,
        max_width,
        columns,
        chosen_columns(widths, spacing, max_width),
    );
}

/// The selected column count is never above the number of cells, and at
/// least 1 where there is a cell.
pub proof fn lemma_chosen_bounds(widths: Seq<nat>, spacing: nat, max_width: nat, columns: nat)
    requires
        is_chosen(widths, spacing, max_width, columns),
    ensures
        columns <= widths.len(),
        widths.len() >= 1 ==> columns >= 1,
{
}

/// The width of each of `columns` columns.
fn column_widths_of(cells: &Vec<Cell>, columns: usize) -> (out: Vec<usize>)
    requires
        columns > 0,
    ensures
        out.len() == columns,
        forall|j: int|
            0 <= j < columns ==> out[j] == column_width(
                widths_of(cells@),
                columns as nat,
                j as nat,
            ),
{
    let ghost widths = widths_of(cells@);
    let mut out: Vec<usize> = Vec::new();
    let mut j: usize = 0;
    while j < columns
        invariant
            j <= columns,
            out.len() == j,
            forall|k: int| 0 <= k < j ==> out[k] == 0,
        decreases columns - j,
    {
        out.push(0);
        j = j + 1;
    }
    let mut i: usize = 0;
    while i < cells.len()
        invariant
            columns > 0,
            i <= cells.len(),
            out.len() == columns,
            widths == widths_of(cells@),
            forall|k: int|
                0 <= k < columns ==> out[k] == column_width_upto(
                    widths,
                    columns as nat,
                    k as nat,
                    i as nat,
                ),
        decreases cells.len() - i,
    {
        let column = i % columns;
        let width = cells[i].width;
        assert(widths[i as int] == width);
        if width > out[column] {
            out.set(column, width);
        }
        i = i + 1;
    }
    out
}

/// Whether the cells, in `columns` columns, stay within `max_width`. Works
/// through the columns with what is left of the budget, so that no sum
/// leaves the machine's range.
fn fits_in(cells: &Vec<Cell>, columns: usize, spacing: usize, max_width: usize) -> (ok: bool)
    requires
        columns > 0,
    ensures
        ok == fits(widths_of(cells@), columns as nat, spacing as nat, max_width as nat),
{
    let ghost widths = widths_of(cells@);
    let column_widths = column_widths_of(cells, columns);
    let mut room: usize = max_width;
    let mut j: usize = 0;
    proof {
        lemma_width_upto_total(widths, columns as nat, spacing as nat, columns as nat);
    }
    while j < columns
        invariant
            j <= columns,
            column_widths.len() == columns,
            widths == widths_of(cells@),
            forall|k: int|
                0 <= k < columns ==> column_widths[k] == column_width(
                    widths,
                    columns as nat,
                    k as nat,
                ),
            width_upto(widths, columns as nat, spacing as nat, j as nat) + room == max_width,
            total_width(widths, columns as nat, spacing as nat) == width_upto(
                widths,
                columns as nat,
                spacing as nat,
                columns as nat,
            ),
        decreases columns - j,
    {
        proof {
            lemma_width_upto_grows(
                widths,
                columns as nat,
                spacing as nat,
                (j + 1) as nat,
                columns as nat,
            );
        }
        if j > 0 {
            if spacing > room {
                return false;
            }
            room = room - spacing;
        }
        if column_widths[j] > room {
            return false;
        }
        room = room - column_widths[j];
        j = j + 1;
    }
    true
}

/// An arrangement of cells: the cells in their order, the spacing between
/// columns, and the number of columns. The cells fill it row by row.
#[derive(Debug, Clone, PartialEq, Eq)]
pub struct GridLayout {
    pub cells: Vec<Cell>,
    pub spacing: usize,
    pub columns: usize,
}

/// Packs the cells into the largest number of columns whose line stays
/// within `max_width`, and into one column if no number does. A budget of
/// zero is refused unless there are no cells.
pub fn fit_into_width(cells: Vec<Cell>, max_width: usize, spacing: usize) -> (r: Result<
    GridLayout,
    LayoutError,
>)
    ensures
        r is Err <==> max_width == 0 && cells.len() > 0,
        r matches Err(e) ==> e == LayoutError::InvalidWidthBudget,
        r matches Ok(grid) ==> {
            &&& grid.cells == cells
            &&& grid.spacing == spacing
            &&& is_chosen(widths_of(cells@), spacing as nat, max_width as nat, grid.columns as nat)
            &&& grid.columns == chosen_columns(
                widths_of(cells@),
                spacing as nat,
                max_width as nat,
            )
            &&& grid.columns <= cells.len()
            &&& (cells.len() >= 1 ==> grid.columns >= 1)
            &&& grid.can_render()
        },
{
    let count = cells.len();
    let ghost widths = widths_of(cells@);
    if count == 0 {
        proof {
            lemma_chosen_columns(widths, spacing as nat, max_width as nat, 0);
        }
        return Ok(GridLayout { cells, spacing, columns: 0 });
    }
    if max_width == 0 {
        return Err(LayoutError::InvalidWidthBudget);
    }
    let mut columns: usize = count;
    while columns > 1
        invariant
            1 <= columns <= count,
            count == cells.len(),
            max_width > 0,
            widths == widths_of(cells@),
            forall|more: nat|
                columns < more <= count ==> !#[trigger] fits(
                    widths,
                    more,
                    spacing as nat,
                    max_width as nat,
                ),
        decreases columns,
    {
        if fits_in(&cells, columns, spacing, max_width) {
            proof {
                assert forall|i: int| 0 <= i < widths.len() implies #[trigger] widths[i]
                    + spacing <= usize::MAX by {
                    lemma_cell_within_total(widths, columns as nat, spacing as nat, i);
                }
                lemma_chosen_columns(widths, spacing as nat, max_width as nat, columns as nat);
            }
            return Ok(GridLayout { cells, spacing, columns });
        }
        columns = columns - 1;
    }
    proof {
        lemma_chosen_columns(widths, spacing as nat, max_width as nat, columns as nat);
    }
    Ok(GridLayout { cells, spacing, columns })
}

/// Arranges the cells in the given number of columns, whatever width that
/// takes.
pub fn fit_into_columns(cells: Vec<Cell>, column_count: usize, spacing: usize) -> (grid: GridLayout)
    ensures
        grid.cells == cells,
        grid.spacing == spacing,
        grid.columns == column_count,
{
    GridLayout { cells, spacing, columns: column_count }
}

/// The cells that a `term_grid::Grid` holds, in the order in which they
/// were added: of each its contents and its width.
pub uninterp spec fn held_cells(grid: term_grid::Grid) -> Seq<(Seq<char>, nat)>;

/// The filling between columns that a `term_grid::Grid` was made with: the
/// number of spaces where it is spaces, `None` where it is a text.
pub uninterp spec fn held_spacing(grid: term_grid::Grid) -> Option<nat>;

/// Whether a `term_grid::Grid` was made with the direction left to right,
/// so that its cells fill it row by row.
pub uninterp spec fn held_row_major(grid: term_grid::Grid) -> bool;

/// A cell as it stands in its row: its contents alone in the last column,
/// and in every other column its contents and then spaces, as many as the
/// column is wider than the cell and the spacing more.
pub open spec fn padded_cell(
    cells: Seq<(Seq<char>, nat)>,
    spacing: nat,
    columns: nat,
    index: int,
) -> Seq<char> {
    let column = column_of(index, columns);
    if column == columns - 1 {
        cells[index].0
    } else {
        cells[index].0 + spaces(
            (column_width(widths_in(cells), columns, column as nat) - cells[index].1
                + spacing) as nat,
        )
    }
}

/// The first `upto` places of a row: the cells that stand there, each as
/// `padded_cell` gives it. A place behind the last cell holds nothing.
pub open spec fn row_text_upto(
    cells: Seq<(Seq<char>, nat)>,
    spacing: nat,
    columns: nat,
    row: nat,
    upto: nat,
) -> Seq<char>
    decreases upto,
{
    if upto == 0 {
        Seq::<char>::empty()
    } else {
        let before = row_text_upto(cells, spacing, columns, row, (upto - 1) as nat);
        let index = row * columns + upto - 1;
        if index < cells.len() {
            before + padded_cell(cells, spacing, columns, index)
        } else {
            before
        }
    }
}

/// The first `upto` rows, each ended by a newline.
pub open spec fn rows_text_upto(
    cells: Seq<(Seq<char>, nat)>,
    spacing: nat,
    columns: nat,
    upto: nat,
) -> Seq<char>
    decreases upto,
{
    if upto == 0 {
        Seq::<char>::empty()
    } else {
        rows_text_upto(cells, spacing, columns, (upto - 1) as nat) + row_text_upto(
            cells,
            spacing,
            columns,
            (upto - 1) as nat,
            columns,
        ) + seq!['\n']
    }
}

/// The text of cells laid out row by row in a given number of columns, with
/// a given number of spaces between columns: as many rows as the cells need,
/// one line each.
pub open spec fn columns_text(cells: Seq<(Seq<char>, nat)>, spacing: nat, columns: nat) -> Seq<
    char,
> {
    rows_text_upto(cells, spacing, columns, rows_needed(cells.len(), columns))
}

/// The contents of the first `upto` cells, each on a line of its own.
pub open spec fn lines_upto(cells: Seq<(Seq<char>, nat)>, upto: nat) -> Seq<char>
    decreases upto,
{
    if upto == 0 {
        Seq::<char>::empty()
    } else {
        lines_upto(cells, (upto - 1) as nat) + cells[upto - 1].0 + seq!['\n']
    }
}

proof fn lemma_one_column_rows(cells: Seq<(Seq<char>, nat)>, spacing: nat, upto: nat)
    requires
        upto <= cells.len(),
    ensures
        rows_text_upto(cells, spacing, 1, upto) == lines_upto(cells, upto),
    decreases upto,
{
    if upto > 0 {
        let row = (upto - 1) as nat;
        lemma_one_column_rows(cells, spacing, row);
        assert(row * 1 + 1 - 1 == row) by (nonlinear_arith);
        assert(row_text_upto(cells, spacing, 1, row, 0) == Seq::<char>::empty());
        assert(column_of(row as int, 1) == 0);
        assert(row_text_upto(cells, spacing, 1, row, 1) =~= cells[row as int].0);
    }
}

/// In one column nothing is padded: the text is each cell's contents on a
/// line of its own, in the cells' order.
pub proof fn lemma_one_column_text(cells: Seq<(Seq<char>, nat)>, spacing: nat)
    ensures
        columns_text(cells, spacing, 1) == lines_upto(cells, cells.len()),
{
    assert(rows_needed(cells.len(), 1) == cells.len());
    lemma_one_column_rows(cells, spacing, cells.len());
}

/// What is inside a `term_grid::Grid` is reached through `held_cells`,
/// `held_spacing` and `held_row_major` only.
#[verifier::external_type_specification]
#[verifier::external_body]
pub struct ExTermGrid(term_grid::Grid);

/// `term_grid::Grid::new`, with spaces as filling and the direction left to
/// right: the new grid holds no cell and keeps the options it is given.
#[verifier::external_body]
fn term_grid_new(spacing: usize) -> (grid: term_grid::Grid)
    ensures
        held_cells(grid) == Seq::<(Seq<char>, nat)>::empty(),
        held_spacing(grid) == Some(spacing as nat),
        held_row_major(grid),
{
    term_grid::Grid::new(
        term_grid::GridOptions {
            filling: term_grid::Filling::Spaces(spacing),
            direction: term_grid::Direction::LeftToRight,
        },
    )
}

/// `term_grid::Grid::add`: the cell is put behind those already held, and
/// the options stay.
#[verifier::external_body]
fn term_grid_add(grid: &mut term_grid::Grid, contents: String, width: usize)
    ensures
        held_cells(*final(grid)) == held_cells(*old(grid)).push((contents@, width as nat)),
        held_spacing(*final(grid)) == held_spacing(*old(grid)),
        held_row_major(*final(grid)) == held_row_major(*old(grid)),
{
    grid.add(term_grid::Cell { contents, width })
}

/// `term_grid::Grid::fit_into_columns`, written out. For a grid that fills
/// row by row with spaces between its columns, term_grid writes one line for
/// each row; in a line each cell's contents, and behind a cell that is not in
/// the last column as many spaces as its column is wider than the cell, and
/// the spacing more. A column is as wide as its widest cell. Left out are a
/// column count of zero, by which term_grid divides; one that is above both
/// the number of cells and `COLUMN_LIMIT`, since term_grid allocates a width
/// for every column; and, for two columns or more, a cell whose padding would
/// leave the machine's range.
#[verifier::external_body]
fn term_grid_text(grid: &term_grid::Grid, columns: usize) -> (text: String)
    requires
        held_row_major(*grid),
        held_spacing(*grid) is Some,
        0 < columns,
        columns <= held_cells(*grid).len() || columns <= COLUMN_LIMIT,
        columns >= 2 ==> forall|i: int|
            0 <= i < held_cells(*grid).len() ==> (#[trigger] held_cells(*grid)[i]).1
                + held_spacing(*grid)->0 <= usize::MAX,
    ensures
        text@ == columns_text(held_cells(*grid), held_spacing(*grid)->0, columns as nat),
{
    grid.fit_into_columns(columns).to_string()
}

impl GridLayout {
    /// Whether the grid can be written out.
    pub open spec fn can_render(&self) -> bool {
        can_write(widths_of(self.cells@), self.spacing as nat, self.columns as nat)
    }

    /// The text of the grid.
    pub open spec fn text(&self) -> Seq<char> {
        written(cell_views(self.cells@), self.spacing as nat, self.columns as nat)
    }

    /// The number of rows.
    pub fn rows(&self) -> (rows: usize)
        ensures
            rows == rows_needed(self.cells.len() as nat, self.columns as nat),
    {
        if self.columns == 0 {
            return 0;
        }
        let full = self.cells.len() / self.columns;
        let rest = self.cells.len() % self.columns;
        proof {
            lemma_rows_needed(self.cells.len() as nat, self.columns as nat);
        }
        if rest != 0 {
            full + 1
        } else {
            full
        }
    }

    /// The width of each column.
    pub fn column_widths(&self) -> (out: Vec<usize>)
        ensures
            out.len() == self.columns,
            forall|j: int|
                0 <= j < self.columns ==> out[j] == column_width(
                    widths_of(self.cells@),
                    self.columns as nat,
                    j as nat,
                ),
    {
        if self.columns == 0 {
            return Vec::new();
        }
        column_widths_of(&self.cells, self.columns)
    }

    /// Whether the grid's lines stay within `max_width`.
    pub fn fits_width(&self, max_width: usize) -> (ok: bool)
        ensures
            ok == fits(
                widths_of(self.cells@),
                self.columns as nat,
                self.spacing as nat,
                max_width as nat,
            ),
    {
        if self.columns == 0 {
            return true;
        }
        fits_in(&self.cells, self.columns, self.spacing, max_width)
    }

    /// Tests whether the grid can be written out.
    pub fn check(&self) -> (ok: bool)
        ensures
            ok == self.can_render(),
    {
        let count = self.cells.len();
        if count == 0 {
            return true;
        }
        if self.columns == 0 || (self.columns > count && self.columns > COLUMN_LIMIT) {
            return false;
        }
        if self.columns == 1 {
            return true;
        }
        let mut i: usize = 0;
        while i < count
            invariant
                i <= count,
                count == self.cells.len(),
                2 <= self.columns,
                self.columns <= count || self.columns <= COLUMN_LIMIT,
                forall|k: int|
                    0 <= k < i ==> #[trigger] widths_of(self.cells@)[k] + self.spacing
                        <= usize::MAX,
            decreases count - i,
        {
            if self.cells[i].width > usize::MAX - self.spacing {
                assert(widths_of(self.cells@)[i as int] + self.spacing > usize::MAX);
                return false;
            }
            i = i + 1;
        }
        true
    }

    /// Writes the grid out, one line per row; `None` for a grid that cannot
    /// be written out.
    pub fn render(&self) -> (out: Option<String>)
        ensures
            out is Some <==> self.can_render(),
            out matches Some(text) ==> text@ == self.text(),
    {
        if !self.check() {
            return None;
        }
        if self.cells.len() == 0 {
            return Some(String::new());
        }
        let mut grid = term_grid_new(self.spacing);
        let mut i: usize = 0;
        while i < self.cells.len()
            invariant
                i <= self.cells.len(),
                held_cells(grid) == cell_views(self.cells@.take(i as int)),
                held_spacing(grid) == Some(self.spacing as nat),
                held_row_major(grid),
            decreases self.cells.len() - i,
        {
            let contents = self.cells[i].contents.clone();
            term_grid_add(&mut grid, contents, self.cells[i].width);
            i = i + 1;
            assert(held_cells(grid) =~= cell_views(self.cells@.take(i as int)));
        }
        assert(self.cells@.take(i as int) =~= self.cells@);
        assert forall|k: int| 0 <= k < held_cells(grid).len() implies (#[trigger] held_cells(
            grid,
        )[k]).1 == widths_of(self.cells@)[k] by {}
        Some(term_grid_text(&grid, self.columns))
    }
}

proof fn lemma_rows_needed(count: nat, columns: nat)
    requires
        columns > 0,
    ensures
        rows_needed(count, columns) == if count % columns != 0 {
            count / columns + 1
        } else {
            count / columns
        },
        count % columns != 0 ==> count / columns < count,
{
    assert(count % columns != 0 ==> count / columns < count) by (nonlinear_arith)
        requires
            columns > 0,
    ;
    assert((count + columns - 1) / (columns as int) == if count % columns != 0 {
        count / columns + 1
    } else {
        count / columns
    }) by (nonlinear_arith)
        requires
            columns > 0,
    ;
}

} // verus!
