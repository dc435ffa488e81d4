//! The table assembler: the header row and the body rows of the displayed
//! grid, with the same pattern of columns applied to every row.

use crate::cell::{dots, ellipsis, hidden_marker, hidden_marker_text, truncate, truncated};
use crate::plan::{effective_capacity, picks_below, plan, plan_rows, plan_spec, ROW_BUDGET};
use vstd::prelude::*;

verus! {

/// A column of a data source: it can write out the value it holds at a row.
pub trait StrValue {
    /// The text of the value at row `idx`.
    spec fn text_at(&self, idx: int) -> Seq<char>;

    /// The number of rows that the column can answer for.
    spec fn row_count(&self) -> nat;

    fn str_value(&self, idx: usize) -> (s: String)
        requires
            idx < self.row_count(),
        ensures
            s@ == self.text_at(idx as int),
    ;
}

/// The displayed grid: the header row, the body rows below it, and the slot
/// of the marker column where columns are hidden.
#[derive(Debug)]
pub struct Grid {
    pub header: Vec<String>,
    pub rows: Vec<Vec<String>>,
    pub marker_column: Option<usize>,
}

/// What a grid holds, as sequences of characters.
pub struct GridView {
    pub header: Seq<Seq<char>>,
    pub rows: Seq<Seq<Seq<char>>>,
    pub marker_column: Option<usize>,
}

impl View for Grid {
    type V = GridView;

    open spec fn view(&self) -> GridView {
        GridView {
            header: self.header.deep_view(),
            rows: self.rows.deep_view(),
            marker_column: self.marker_column,
        }
    }
}

impl GridView {
    /// Every body row has a cell for each cell of the header, and the marker
    /// column is one of the columns.
    pub open spec fn wf(self) -> bool {
        &&& forall|j: int|
            0 <= j < self.rows.len() ==> (#[trigger] self.rows[j]).len() == self.header.len()
        &&& self.marker_column matches Some(m) ==> m < self.header.len()
    }
}

/// A reference to a column is a column: it gives what the column gives.
impl<T: StrValue + ?Sized> StrValue for &T {
    open spec fn text_at(&self, idx: int) -> Seq<char> {
        (**self).text_at(idx)
    }

    open spec fn row_count(&self) -> nat {
        (**self).row_count()
    }

    fn str_value(&self, idx: usize) -> (s: String) {
        (**self).str_value(idx)
    }
}

/// The text that a set of columns shows at a row and a column.
pub open spec fn cell_source<C: StrValue>(columns: Seq<C>) -> spec_fn(int, int) -> Seq<char> {
    |row: int, col: int| columns[col].text_at(row)
}

/// Whether every column can answer for the first `row_count` rows.
pub open spec fn covers<C: StrValue>(columns: Seq<C>, row_count: nat) -> bool {
    forall|c: int| 0 <= c < columns.len() ==> row_count <= (#[trigger] columns[c]).row_count()
}

/// A row laid out by a pattern: slot by slot the cell that the pattern picks,
/// and `marker` in the slot of the marker.
pub open spec fn arranged(
    cells: Seq<Seq<char>>,
    pattern: Seq<Option<usize>>,
    marker: Seq<char>,
) -> Seq<Seq<char>> {
    Seq::new(
        pattern.len(),
        |k: int|
            match pattern[k] {
                Some(i) => cells[i as int],
                None => marker,
            },
    )
}

/// The header row: the field names laid out by the column pattern, the
/// marker cell saying how many columns are hidden.
pub open spec fn header_row_spec(fields: Seq<Seq<char>>, column_budget: nat) -> Seq<Seq<char>> {
    let p = plan_spec(fields.len(), column_budget);
    arranged(
        fields,
        p.slots_spec(fields.len()),
        hidden_marker_text(p.hidden_spec(fields.len()) as nat),
    )
}

/// The texts of row `row`, one for every column, as the columns give them.
pub open spec fn fetched_row(
    source: spec_fn(int, int) -> Seq<char>,
    column_count: nat,
    row: int,
) -> Seq<Seq<char>> {
    Seq::new(column_count, |c: int| source(row, c))
}

/// The cells of a row, each cut to the cell budget.
pub open spec fn rendered_row(
    texts: Seq<Seq<char>>,
    max_cell_width: Option<usize>,
) -> Seq<Seq<char>> {
    Seq::new(texts.len(), |c: int| truncated(texts[c], max_cell_width))
}

/// The displayed row for the texts of one row: every text cut to the cell
/// budget, then laid out by the column pattern, the glyph in the slot of the
/// marker.
pub open spec fn displayed_row(
    texts: Seq<Seq<char>>,
    column_budget: nat,
    max_cell_width: Option<usize>,
) -> Seq<Seq<char>> {
    arranged(
        rendered_row(texts, max_cell_width),
        plan_spec(texts.len(), column_budget).slots_spec(texts.len()),
        ellipsis(),
    )
}

/// The displayed row for row `row` of a source.
pub open spec fn data_row_spec(
    source: spec_fn(int, int) -> Seq<char>,
    column_count: nat,
    column_budget: nat,
    row: int,
    max_cell_width: Option<usize>,
) -> Seq<Seq<char>> {
    displayed_row(fetched_row(source, column_count, row), column_budget, max_cell_width)
}

/// The row that stands for the hidden rows: the glyph in each of `width` slots.
pub open spec fn marker_row_spec(width: nat) -> Seq<Seq<char>> {
    Seq::new(width, |k: int| ellipsis())
}

/// The body row in slot `j` of the row axis.
pub open spec fn body_row_spec(
    source: spec_fn(int, int) -> Seq<char>,
    column_count: nat,
    row_count: nat,
    column_budget: nat,
    j: int,
    max_cell_width: Option<usize>,
) -> Seq<Seq<char>> {
    match plan_spec(row_count, ROW_BUDGET as nat).slot_index(row_count, j) {
        Some(r) => data_row_spec(source, column_count, column_budget, r as int, max_cell_width),
        None => marker_row_spec(plan_spec(column_count, column_budget).slot_count_spec()),
    }
}

/// The body of the grid: the leading rows, then, where rows are hidden, the
/// marker row and the trailing rows.
pub open spec fn body_rows_spec(
    source: spec_fn(int, int) -> Seq<char>,
    column_count: nat,
    row_count: nat,
    column_budget: nat,
    max_cell_width: Option<usize>,
) -> Seq<Seq<Seq<char>>> {
    Seq::new(
        plan_spec(row_count, ROW_BUDGET as nat).slot_count_spec(),
        |j: int| body_row_spec(source, column_count, row_count, column_budget, j, max_cell_width),
    )
}

/// The grid for the given field names and cells.
pub open spec fn assembled(
    fields: Seq<Seq<char>>,
    source: spec_fn(int, int) -> Seq<char>,
    row_count: nat,
    column_budget: nat,
    max_cell_width: Option<usize>,
) -> GridView {
    GridView {
        header: header_row_spec(fields, column_budget),
        rows: body_rows_spec(source, fields.len(), row_count, column_budget, max_cell_width),
        marker_column: plan_spec(fields.len(), column_budget).marker_slot_spec(),
    }
}

/// Lays `cells` out by `pattern`: a copy of the picked cell in each slot, and
/// `marker` in the slot of the marker.
pub fn arrange(cells: &[String], pattern: &[Option<usize>], marker: &str) -> (out: Vec<String>)
    requires
        picks_below(pattern@, cells@.len()),
    ensures
        out.deep_view() == arranged(cells.deep_view(), pattern@, marker@),
{
    let mut out: Vec<String> = Vec::new();
    let mut k: usize = 0;
    while k < pattern.len()
        invariant
            picks_below(pattern@, cells@.len()),
            k <= pattern@.len(),
            out@.len() == k,
            forall|i: int|
                0 <= i < k ==> (#[trigger] out@[i])@ == arranged(
                    cells.deep_view(),
                    pattern@,
                    marker@,
                )[i],
        decreases pattern@.len() - k,
    {
        let cell = match pattern[k] {
            Some(i) => cells[i].clone(),
            None => String::from_str(marker),
        };
        out.push(cell);
        k += 1;
    }
    out
}

/// Builds the header row: the leading field names, then, where columns are
/// hidden, the marker cell with the number of hidden columns and the trailing
/// field names.
pub fn header_row(fields: &[String], column_budget: usize) -> (out: Vec<String>)
    ensures
        out.deep_view() == header_row_spec(fields.deep_view(), column_budget as nat),
{
    let p = plan(fields.len(), column_budget);
    let pattern = p.slots(fields.len());
    let marker = hidden_marker(p.hidden_count(fields.len()));
    arrange(fields, pattern.as_slice(), marker.as_str())
}

/// Fetches the text of every column at row `row`.
pub fn fetch_row<C: StrValue>(columns: &[C], row: usize) -> (out: Vec<String>)
    requires
        covers(columns@, (row + 1) as nat),
    ensures
        out.deep_view() == fetched_row(cell_source(columns@), columns@.len(), row as int),
{
    let mut out: Vec<String> = Vec::new();
    let mut c: usize = 0;
    while c < columns.len()
        invariant
            covers(columns@, (row + 1) as nat),
            c <= columns@.len(),
            out@.len() == c,
            forall|i: int| 0 <= i < c ==> (#[trigger] out@[i])@ == columns@[i].text_at(row as int),
        decreases columns@.len() - c,
    {
        out.push(columns[c].str_value(row));
        c += 1;
    }
    out
}

/// Cuts every text of a row to the cell budget.
pub fn render_row(texts: &[String], max_cell_width: Option<usize>) -> (out: Vec<String>)
    ensures
        out.deep_view() == rendered_row(texts.deep_view(), max_cell_width),
{
    let mut out: Vec<String> = Vec::new();
    let mut c: usize = 0;
    while c < texts.len()
        invariant
            c <= texts@.len(),
            out@.len() == c,
            forall|i: int|
                0 <= i < c ==> (#[trigger] out@[i])@ == truncated(texts@[i]@, max_cell_width),
        decreases texts@.len() - c,
    {
        out.push(truncate(texts[c].as_str(), max_cell_width));
        c += 1;
    }
    out
}

/// Builds the displayed row for the texts of one row, one text for every
/// column: each is cut to the cell budget, and the cells are laid out by the
/// column pattern for that many columns.
pub fn data_row(
    texts: &[String],
    column_budget: usize,
    max_cell_width: Option<usize>,
) -> (out: Vec<String>)
    ensures
        out.deep_view() == displayed_row(texts.deep_view(), column_budget as nat, max_cell_width),
{
    let pattern = plan(texts.len(), column_budget).slots(texts.len());
    let cells = render_row(texts, max_cell_width);
    let glyph = dots();
    assert(cells@.len() == cells.deep_view().len());
    arrange(cells.as_slice(), pattern.as_slice(), glyph.as_str())
}

/// Builds the row of glyphs that stands for the hidden rows.
pub fn marker_row(width: usize) -> (out: Vec<String>)
    ensures
        out.deep_view() == marker_row_spec(width as nat),
{
    let mut out: Vec<String> = Vec::new();
    let mut k: usize = 0;
    while k < width
        invariant
            k <= width,
            out@.len() == k,
            forall|i: int| 0 <= i < k ==> (#[trigger] out@[i])@ == ellipsis(),
        decreases width - k,
    {
        out.push(dots());
        k += 1;
    }
    out
}

/// Builds the body rows: for each displayed row the cells of every column,
/// cut to the budget and laid out by the column pattern; between the leading
/// and the trailing rows, where rows are hidden, the marker row.
pub fn body_rows<C: StrValue>(
    columns: &[C],
    row_count: usize,
    column_budget: usize,
    max_cell_width: Option<usize>,
) -> (out: Vec<Vec<String>>)
    requires
        covers(columns@, row_count as nat),
    ensures
        out.deep_view() == body_rows_spec(
            cell_source(columns@),
            columns@.len(),
            row_count as nat,
            column_budget as nat,
            max_cell_width,
        ),
{
    let width = plan(columns.len(), column_budget).slot_count();
    let row_plan = plan_rows(row_count);
    let row_pattern = row_plan.slots(row_count);
    let ghost source = cell_source(columns@);
    let mut out: Vec<Vec<String>> = Vec::new();
    let mut j: usize = 0;
    while j < row_pattern.len()
        invariant
            covers(columns@, row_count as nat),
            source == cell_source(columns@),
            width == plan_spec(columns@.len(), column_budget as nat).slot_count_spec(),
            row_plan == plan_spec(row_count as nat, ROW_BUDGET as nat),
            row_pattern@ == row_plan.slots_spec(row_count as nat),
            picks_below(row_pattern@, row_count as nat),
            j <= row_pattern@.len(),
            out@.len() == j,
            forall|i: int|
                0 <= i < j ==> (#[trigger] out@[i]).deep_view() == body_row_spec(
                    source,
                    columns@.len(),
                    row_count as nat,
                    column_budget as nat,
                    i,
                    max_cell_width,
                ),
        decreases row_pattern@.len() - j,
    {
        let row = match row_pattern[j] {
            Some(r) => {
                let texts = fetch_row(columns, r);
                data_row(texts.as_slice(), column_budget, max_cell_width)
            },
            None => marker_row(width),
        };
        out.push(row);
        j += 1;
    }
    out
}

/// Assembles the grid for `fields` and their columns.
///
/// The header shows the field names by the column pattern; every body row
/// shows the cells of one row by the same pattern, so that the marker column
/// stands in the same slot of every row.
pub fn assemble<C: StrValue>(
    fields: &[String],
    columns: &[C],
    row_count: usize,
    column_budget: usize,
    max_cell_width: Option<usize>,
) -> (grid: Grid)
    requires
        columns@.len() == fields@.len(),
        covers(columns@, row_count as nat),
    ensures
        grid@ == assembled(
            fields.deep_view(),
            cell_source(columns@),
            row_count as nat,
            column_budget as nat,
            max_cell_width,
        ),
        grid@.wf(),
{
    let header = header_row(fields, column_budget);
    let rows = body_rows(columns, row_count, column_budget, max_cell_width);
    let marker_column = plan(fields.len(), column_budget).marker_slot();
    Grid { header, rows, marker_column }
}

/// Assembling is a function of its inputs: two grids assembled for the same
/// field names, cells, row count, column budget and cell budget are equal.
pub proof fn lemma_same_input_same_grid(
    first: Grid,
    second: Grid,
    fields: Seq<Seq<char>>,
    source: spec_fn(int, int) -> Seq<char>,
    row_count: nat,
    column_budget: nat,
    max_cell_width: Option<usize>,
)
    requires
        first@ == assembled(fields, source, row_count, column_budget, max_cell_width),
        second@ == assembled(fields, source, row_count, column_budget, max_cell_width),
    ensures
        first@.header == second@.header,
        first@.rows == second@.rows,
        first@.marker_column == second@.marker_column,
{
}

/// The marker column is aligned: a grid has a marker column exactly when
/// columns are hidden; it is then one and the same slot in which the header
/// holds the marker cell and every body row holds the glyph, and every row
/// has as many cells as the header.
pub proof fn lemma_marker_column_aligned(
    fields: Seq<Seq<char>>,
    source: spec_fn(int, int) -> Seq<char>,
    row_count: nat,
    column_budget: nat,
    max_cell_width: Option<usize>,
)
    requires
        fields.len() <= usize::MAX,
        row_count <= usize::MAX,
    ensures
        ({
            let grid = assembled(fields, source, row_count, column_budget, max_cell_width);
            let p = plan_spec(fields.len(), column_budget);
            &&& grid.wf()
            &&& grid.marker_column is Some <==> fields.len() > effective_capacity(column_budget)
            &&& grid.marker_column matches Some(m) ==> {
                &&& m == p.head_count
                &&& grid.header[m as int] == hidden_marker_text(p.hidden_spec(fields.len()) as nat)
                &&& forall|j: int|
                    0 <= j < grid.rows.len() ==> (#[trigger] grid.rows[j])[m as int] == ellipsis()
            }
        }),
{
}

/// Outside the marker column the header shows the field names and every
/// displayed row shows the cells of one row of the data, each in the slot of
/// its column: the cell below a field name is the cell of that field.
pub proof fn lemma_cells_below_their_fields(
    fields: Seq<Seq<char>>,
    source: spec_fn(int, int) -> Seq<char>,
    row_count: nat,
    column_budget: nat,
    max_cell_width: Option<usize>,
    j: int,
    k: int,
)
    requires
        fields.len() <= usize::MAX,
        row_count <= usize::MAX,
        0 <= j < plan_spec(row_count, ROW_BUDGET as nat).slot_count_spec(),
        0 <= k < plan_spec(fields.len(), column_budget).slot_count_spec(),
        plan_spec(row_count, ROW_BUDGET as nat).slot_index(row_count, j) is Some,
        plan_spec(fields.len(), column_budget).slot_index(fields.len(), k) is Some,
    ensures
        ({
            let grid = assembled(fields, source, row_count, column_budget, max_cell_width);
            let r = plan_spec(row_count, ROW_BUDGET as nat).slot_index(row_count, j)->0;
            let c = plan_spec(fields.len(), column_budget).slot_index(fields.len(), k)->0;
            &&& r < row_count
            &&& c < fields.len()
            &&& grid.header[k] == fields[c as int]
            &&& grid.rows[j][k] == truncated(source(r as int, c as int), max_cell_width)
        }),
{
}

/// With a cell budget of at least one, no cell of a body row is longer than
/// the budget.
pub proof fn lemma_cells_within_budget(
    fields: Seq<Seq<char>>,
    source: spec_fn(int, int) -> Seq<char>,
    row_count: nat,
    column_budget: nat,
    max_cell_width: usize,
)
    requires
        fields.len() <= usize::MAX,
        row_count <= usize::MAX,
        max_cell_width >= 1,
    ensures
        ({
            let grid = assembled(fields, source, row_count, column_budget, Some(max_cell_width));
            forall|j: int, k: int|
                0 <= j < grid.rows.len() && 0 <= k < grid.rows[j].len() ==> (
                #[trigger] grid.rows[j][k]).len() <= max_cell_width
        }),
{
}

/// While fields and rows are within their budgets the grid shows everything:
/// the header is the field names, and the body has one row for each row of
/// the data, in order, with the cell of every column.
pub proof fn lemma_within_budget_shows_everything(
    fields: Seq<Seq<char>>,
    source: spec_fn(int, int) -> Seq<char>,
    row_count: nat,
    column_budget: nat,
    max_cell_width: Option<usize>,
)
    requires
        fields.len() <= usize::MAX,
        fields.len() <= effective_capacity(column_budget),
        row_count <= ROW_BUDGET,
    ensures
        ({
            let grid = assembled(fields, source, row_count, column_budget, max_cell_width);
            &&& grid.marker_column is None
            &&& grid.header == fields
            &&& grid.rows.len() == row_count
            &&& forall|r: int|
                0 <= r < row_count ==> #[trigger] grid.rows[r] == rendered_row(
                    fetched_row(source, fields.len(), r),
                    max_cell_width,
                )
        }),
{
}

/// Beyond the row budget the body has eleven rows: the first five rows of the
/// data, the marker row with the glyph in every slot of the header, and the
/// last five rows of the data.
pub proof fn lemma_hidden_rows_layout(
    fields: Seq<Seq<char>>,
    source: spec_fn(int, int) -> Seq<char>,
    row_count: nat,
    column_budget: nat,
    max_cell_width: Option<usize>,
)
    requires
        fields.len() <= usize::MAX,
        ROW_BUDGET < row_count <= usize::MAX,
    ensures
        ({
            let grid = assembled(fields, source, row_count, column_budget, max_cell_width);
            &&& grid.rows.len() == 11
            &&& grid.rows[5] == marker_row_spec(grid.header.len())
            &&& forall|j: int|
                0 <= j < 5 ==> #[trigger] grid.rows[j] == data_row_spec(
                    source,
                    fields.len(),
                    column_budget,
                    j,
                    max_cell_width,
                )
            &&& forall|j: int|
                6 <= j < 11 ==> #[trigger] grid.rows[j] == data_row_spec(
                    source,
                    fields.len(),
                    column_budget,
                    row_count - 11 + j,
                    max_cell_width,
                )
        }),
{
}

} // verus!
