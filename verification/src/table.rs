//! Handing the grid to `comfy_table`: the styled table, its header cells and
//! its rows.

use crate::cell::{ellipsis, hidden_marker_text};
use crate::config::{DisplayConfig, DEFAULT_WIDTH_IF_NO_TTY};
use crate::grid::{
    assemble, body_rows_spec, cell_source, covers, header_row, header_row_spec,
    lemma_marker_column_aligned, StrValue,
};
use crate::plan::{column_capacity, column_capacity_spec, plan, plan_spec};
use comfy_table::{Cell, Table};
use vstd::prelude::*;

verus! {

#[verifier::external_type_specification]
#[verifier::external_body]
pub struct ExTable(comfy_table::Table);

#[verifier::external_type_specification]
#[verifier::external_body]
pub struct ExCell(comfy_table::Cell);

/// What the library knows of a cell of a table.
pub struct CellModel {
    /// The text of the cell.
    pub content: Seq<char>,
    /// Whether the attribute `Bold` is among the attributes of the cell.
    pub bold: bool,
    /// Whether the alignment of the cell is set, and set to the center.
    pub centered: bool,
}

/// What the library knows of a table.
pub struct TableModel {
    /// The cells of the header, if a header was set.
    pub header: Option<Seq<CellModel>>,
    /// The rows below the header, each as its cells.
    pub rows: Seq<Seq<CellModel>>,
    /// The width that was set on the table, if one was.
    pub width: Option<u16>,
    /// The characters that the borders are drawn with, one for each
    /// component of the table in the order of `TableComponent`, a space for
    /// a component that is not drawn.
    pub style: Seq<char>,
    /// Whether the content arrangement is `Dynamic`.
    pub dynamic: bool,
}

/// What a cell holds.
pub uninterp spec fn cell_model(cell: Cell) -> CellModel;

/// What a table holds.
pub uninterp spec fn table_model(table: Table) -> TableModel;

/// What each of `cells` holds.
pub open spec fn cell_models(cells: Seq<Cell>) -> Seq<CellModel> {
    Seq::new(cells.len(), |k: int| cell_model(cells[k]))
}

/// `Table::new`: the new table has no header, no rows and no width set; it
/// is drawn with the preset `ASCII_FULL`, its content arrangement disabled.
#[verifier::external_body]
fn new_table() -> (table: Table)
    ensures
        table_model(table) == (TableModel {
            header: None,
            rows: Seq::empty(),
            width: None,
            style: "||--+==+|-+||++++++"@,
            dynamic: false,
        }),
{
    Table::new()
}

/// `Table::load_preset` with the preset `UTF8_FULL`, which has a character
/// for every component: the table is drawn with those characters, and is
/// otherwise as it was.
#[verifier::external_body]
fn table_load_utf8_full(table: &mut Table)
    ensures
        table_model(*final(table)) == (TableModel {
            style: "││──╞═╪╡┆╌┼├┤┬┴┌┐└┘"@,
            ..table_model(*old(table))
        }),
{
    table.load_preset(comfy_table::presets::UTF8_FULL);
}

/// `Table::apply_modifier` with the modifier `UTF8_ROUND_CORNERS`, which
/// skips the first fifteen components and has a character for each of the
/// four corners after them: the corners are drawn round, and the table is
/// otherwise as it was.
#[verifier::external_body]
fn table_round_corners(table: &mut Table)
    ensures
        table_model(*final(table)) == (TableModel {
            style: table_model(*old(table)).style.take(15) + "╭╮╰╯"@,
            ..table_model(*old(table))
        }),
{
    table.apply_modifier(comfy_table::modifiers::UTF8_ROUND_CORNERS);
}

/// `Table::set_content_arrangement` with `ContentArrangement::Dynamic`: the
/// content arrangement is dynamic, and the table is otherwise as it was.
#[verifier::external_body]
fn table_arrange_dynamically(table: &mut Table)
    ensures
        table_model(*final(table)) == (TableModel { dynamic: true, ..table_model(*old(table)) }),
{
    table.set_content_arrangement(comfy_table::ContentArrangement::Dynamic);
}

/// `Table::set_width`: the width is set to `width`, and the table is
/// otherwise as it was.
#[verifier::external_body]
fn table_set_width(table: &mut Table, width: u16)
    ensures
        table_model(*final(table)) == (TableModel {
            width: Some(width),
            ..table_model(*old(table))
        }),
{
    table.set_width(width);
}

/// `Table::set_header`: the header becomes the given cells, in their order,
/// and the table is otherwise as it was.
#[verifier::external_body]
fn table_set_header(table: &mut Table, cells: Vec<Cell>)
    ensures
        table_model(*final(table)) == (TableModel {
            header: Some(cell_models(cells@)),
            ..table_model(*old(table))
        }),
{
    table.set_header(cells);
}

/// `Table::add_row`: a row of the given cells, in their order, is added
/// below the rows that are there, and the table is otherwise as it was.
#[verifier::external_body]
fn table_add_row(table: &mut Table, cells: Vec<Cell>)
    ensures
        table_model(*final(table)) == (TableModel {
            rows: table_model(*old(table)).rows.push(cell_models(cells@)),
            ..table_model(*old(table))
        }),
{
    table.add_row(cells);
}

/// `Cell::new`: the new cell holds `text`, has no attributes and no
/// alignment set.
#[verifier::external_body]
fn new_cell(text: &str) -> (cell: Cell)
    ensures
        cell_model(cell) == (CellModel { content: text@, bold: false, centered: false }),
{
    Cell::new(text)
}

/// `Cell::add_attributes` with the one attribute `Bold`: `Bold` is among the
/// attributes of the cell, which is otherwise as it was.
#[verifier::external_body]
fn cell_add_bold(cell: Cell) -> (out: Cell)
    ensures
        cell_model(out) == (CellModel { bold: true, ..cell_model(cell) }),
{
    cell.add_attributes(vec![comfy_table::Attribute::Bold])
}

/// `Cell::set_alignment` with `CellAlignment::Center`: the alignment of the
/// cell is set to the center, and the cell is otherwise as it was.
#[verifier::external_body]
fn cell_center(cell: Cell) -> (out: Cell)
    ensures
        cell_model(out) == (CellModel { centered: true, ..cell_model(cell) }),
{
    cell.set_alignment(comfy_table::CellAlignment::Center)
}

/// The cells of a header row: each holds its text, bold where headers are
/// bold, and the marker cell is centered.
pub open spec fn styled_header(
    header: Seq<Seq<char>>,
    marker_column: Option<usize>,
    bold: bool,
) -> Seq<CellModel> {
    Seq::new(
        header.len(),
        |k: int|
            CellModel { content: header[k], bold, centered: marker_column == Some(k as usize) },
    )
}

/// The cells of a body row: each holds its text and no style.
pub open spec fn plain_row(row: Seq<Seq<char>>) -> Seq<CellModel> {
    Seq::new(row.len(), |k: int| CellModel { content: row[k], bold: false, centered: false })
}

/// The rows of a body, each as plain cells.
pub open spec fn plain_rows(rows: Seq<Seq<Seq<char>>>) -> Seq<Seq<CellModel>> {
    Seq::new(rows.len(), |j: int| plain_row(rows[j]))
}

/// The width that is set on a table for `config`: the default width where
/// the output is not interactive and no width is known, and none otherwise.
pub open spec fn width_setting(config: DisplayConfig) -> Option<u16> {
    if config.uses_default_width() {
        Some(DEFAULT_WIDTH_IF_NO_TTY)
    } else {
        None
    }
}

/// The table before anything is put into it: drawn with full borders and
/// round corners, its content arrangement dynamic.
pub open spec fn empty_table(config: DisplayConfig) -> TableModel {
    TableModel {
        header: None,
        rows: Seq::empty(),
        width: width_setting(config),
        style: "││──╞═╪╡┆╌┼├┤┬┴╭╮╰╯"@,
        dynamic: true,
    }
}

/// The column budget for `config`: the columns that its terminal width has
/// room for, less the slot of the marker.
pub open spec fn column_budget(config: DisplayConfig) -> nat {
    column_capacity_spec(config.terminal_width_spec())
}

/// The header cells of the table for `fields`.
pub open spec fn header_cells_spec(
    fields: Seq<Seq<char>>,
    config: DisplayConfig,
) -> Seq<CellModel> {
    styled_header(
        header_row_spec(fields, column_budget(config)),
        plan_spec(fields.len(), column_budget(config)).marker_slot_spec(),
        config.bold_headers,
    )
}

/// The table for field names and the rows of their columns: the header
/// cells as the header, and the body rows of the grid as the rows.
pub open spec fn data_table(
    fields: Seq<Seq<char>>,
    source: spec_fn(int, int) -> Seq<char>,
    row_count: nat,
    max_col_width: Option<usize>,
    config: DisplayConfig,
) -> TableModel {
    TableModel {
        header: Some(header_cells_spec(fields, config)),
        rows: plain_rows(
            body_rows_spec(source, fields.len(), row_count, column_budget(config), max_col_width),
        ),
        ..empty_table(config)
    }
}

/// The table for field names alone: no header is set, and the header cells
/// are the only row.
pub open spec fn fields_table(fields: Seq<Seq<char>>, config: DisplayConfig) -> TableModel {
    TableModel { rows: seq![header_cells_spec(fields, config)], ..empty_table(config) }
}

/// Whether there are columns to read rows from.
pub open spec fn has_data<C: StrValue>(columns: Option<&[C]>) -> bool {
    columns matches Some(c) && c@.len() > 0
}

/// The table that `make_comfy_table` makes.
pub open spec fn comfy_table_spec<C: StrValue>(
    fields: Seq<Seq<char>>,
    columns: Option<&[C]>,
    num_rows: Option<usize>,
    max_col_width: Option<usize>,
    config: DisplayConfig,
) -> TableModel {
    if has_data(columns) {
        data_table(fields, cell_source(columns->0@), num_rows->0 as nat, max_col_width, config)
    } else {
        fields_table(fields, config)
    }
}

/// The two cells of the header of a schema table.
pub open spec fn schema_header(bold: bool) -> Seq<CellModel> {
    seq![
        CellModel { content: "Column Name"@, bold, centered: false },
        CellModel { content: "Type"@, bold, centered: false },
    ]
}

/// The rows of a schema table: for each field its name and its type.
pub open spec fn schema_rows(names: Seq<Seq<char>>, dtypes: Seq<Seq<char>>) -> Seq<Seq<CellModel>> {
    Seq::new(names.len(), |i: int| plain_row(seq![names[i], dtypes[i]]))
}

/// The table that `make_schema_vertical_table` makes.
pub open spec fn schema_table(
    names: Seq<Seq<char>>,
    dtypes: Seq<Seq<char>>,
    config: DisplayConfig,
) -> TableModel {
    TableModel {
        header: Some(schema_header(config.bold_headers)),
        rows: schema_rows(names, dtypes),
        ..empty_table(config)
    }
}

/// Makes a header cell that holds `value`, bold where `bold` is set.
pub fn create_table_cell(value: &str, bold: bool) -> (cell: Cell)
    ensures
        cell_model(cell) == (CellModel { content: value@, bold, centered: false }),
{
    let cell = new_cell(value);
    if bold {
        cell_add_bold(cell)
    } else {
        cell
    }
}

/// Makes the cells of a header row: a cell for each text, bold where `bold`
/// is set, and centered in the slot of the marker.
pub fn header_cells(
    header: &[String],
    marker_column: Option<usize>,
    bold: bool,
) -> (cells: Vec<Cell>)
    ensures
        cell_models(cells@) == styled_header(header.deep_view(), marker_column, bold),
{
    let mut cells: Vec<Cell> = Vec::new();
    let mut k: usize = 0;
    while k < header.len()
        invariant
            k <= header@.len(),
            cells@.len() == k,
            forall|i: int|
                0 <= i < k ==> cell_model(#[trigger] cells@[i]) == styled_header(
                    header.deep_view(),
                    marker_column,
                    bold,
                )[i],
        decreases header@.len() - k,
    {
        let cell = create_table_cell(header[k].as_str(), bold);
        let cell = if marker_column == Some(k) {
            cell_center(cell)
        } else {
            cell
        };
        cells.push(cell);
        k += 1;
    }
    cells
}

/// Makes the cells of a body row: a plain cell for each text.
pub fn plain_cells(row: &[String]) -> (cells: Vec<Cell>)
    ensures
        cell_models(cells@) == plain_row(row.deep_view()),
{
    let mut cells: Vec<Cell> = Vec::new();
    let mut k: usize = 0;
    while k < row.len()
        invariant
            k <= row@.len(),
            cells@.len() == k,
            forall|i: int|
                0 <= i < k ==> cell_model(#[trigger] cells@[i]) == plain_row(row.deep_view())[i],
        decreases row@.len() - k,
    {
        cells.push(new_cell(row[k].as_str()));
        k += 1;
    }
    cells
}

/// Makes an empty table with full borders, round corners and dynamic content
/// arrangement; the default width is set on it where the output is not
/// interactive and no width is known.
pub fn styled_table(config: &DisplayConfig) -> (table: Table)
    ensures
        table_model(table) == empty_table(*config),
{
    let mut table = new_table();
    table_load_utf8_full(&mut table);
    table_round_corners(&mut table);
    table_arrange_dynamically(&mut table);
    if config.width.is_none() && !config.interactive {
        table_set_width(&mut table, DEFAULT_WIDTH_IF_NO_TTY);
    }
    proof {
        reveal_strlit("││──╞═╪╡┆╌┼├┤┬┴┌┐└┘");
        reveal_strlit("╭╮╰╯");
        reveal_strlit("││──╞═╪╡┆╌┼├┤┬┴╭╮╰╯");
        assert(table_model(table).style =~= empty_table(*config).style);
    }
    table
}

/// Makes the table that lists the fields of a schema, one row for each: its
/// name and its type, under the header `Column Name` and `Type`.
pub fn make_schema_vertical_table(
    names: &[String],
    dtypes: &[String],
    config: &DisplayConfig,
) -> (table: Table)
    requires
        names@.len() == dtypes@.len(),
    ensures
        table_model(table) == schema_table(names.deep_view(), dtypes.deep_view(), *config),
{
    let mut table = styled_table(config);
    let mut header: Vec<Cell> = Vec::new();
    header.push(create_table_cell("Column Name", config.bold_headers));
    header.push(create_table_cell("Type", config.bold_headers));
    assert(cell_models(header@) =~= schema_header(config.bold_headers));
    table_set_header(&mut table, header);
    let ghost rows = schema_rows(names.deep_view(), dtypes.deep_view());
    assert(rows.take(0) =~= Seq::<Seq<CellModel>>::empty());
    let mut i: usize = 0;
    while i < names.len()
        invariant
            names@.len() == dtypes@.len(),
            i <= names@.len(),
            rows == schema_rows(names.deep_view(), dtypes.deep_view()),
            table_model(table) == (TableModel {
                header: Some(schema_header(config.bold_headers)),
                rows: rows.take(i as int),
                ..empty_table(*config)
            }),
        decreases names@.len() - i,
    {
        let mut row: Vec<Cell> = Vec::new();
        row.push(new_cell(names[i].as_str()));
        row.push(new_cell(dtypes[i].as_str()));
        assert(cell_models(row@) =~= rows[i as int]);
        table_add_row(&mut table, row);
        assert(table_model(table).rows =~= rows.take(i + 1));
        i += 1;
    }
    assert(rows.take(names@.len() as int) =~= rows);
    table
}

/// Makes the table that displays `fields` and, where `columns` are given,
/// the first `num_rows` rows of their values.
///
/// The column budget comes from the terminal width of `config`. With columns
/// the header cells are set as the header of the table and every body row of
/// the grid is added as a row of plain cells. Without columns, or with none,
/// no header is set and the header cells are added as the only row.
pub fn make_comfy_table<C: StrValue>(
    fields: &[String],
    columns: Option<&[C]>,
    num_rows: Option<usize>,
    max_col_width: Option<usize>,
    config: &DisplayConfig,
) -> (table: Table)
    requires
        config.width_known(),
        has_data(columns) ==> num_rows is Some,
        has_data(columns) ==> columns->0@.len() == fields@.len(),
        has_data(columns) ==> covers(columns->0@, num_rows->0 as nat),
    ensures
        table_model(table) == comfy_table_spec(
            fields.deep_view(),
            columns,
            num_rows,
            max_col_width,
            *config,
        ),
{
    let mut table = styled_table(config);
    let budget = column_capacity(config.terminal_width());
    let shown: Option<&[C]> = match columns {
        Some(c) => if c.len() > 0 {
            Some(c)
        } else {
            None
        },
        None => None,
    };
    match shown {
        Some(c) => {
            let grid = assemble(fields, c, num_rows.unwrap(), budget, max_col_width);
            let header = header_cells(
                grid.header.as_slice(),
                grid.marker_column,
                config.bold_headers,
            );
            table_set_header(&mut table, header);
            let ghost rows = plain_rows(grid@.rows);
            assert(rows.take(0) =~= Seq::<Seq<CellModel>>::empty());
            let mut j: usize = 0;
            while j < grid.rows.len()
                invariant
                    j <= grid.rows@.len(),
                    rows == plain_rows(grid@.rows),
                    table_model(table) == (TableModel {
                        header: Some(header_cells_spec(fields.deep_view(), *config)),
                        rows: rows.take(j as int),
                        ..empty_table(*config)
                    }),
                decreases grid.rows@.len() - j,
            {
                let cells = plain_cells(grid.rows[j].as_slice());
                table_add_row(&mut table, cells);
                assert(table_model(table).rows =~= rows.take(j + 1));
                j += 1;
            }
            assert(rows.take(grid.rows@.len() as int) =~= rows);
        },
        None => {
            let header = header_row(fields, budget);
            let marker_column = plan(fields.len(), budget).marker_slot();
            let cells = header_cells(header.as_slice(), marker_column, config.bold_headers);
            table_add_row(&mut table, cells);
        },
    }
    table
}

/// Rendering is a function of its inputs: two tables made for the same field
/// names, columns, row count, cell budget and settings hold the same.
pub proof fn lemma_same_input_same_table<C: StrValue>(
    first: Table,
    second: Table,
    fields: Seq<Seq<char>>,
    columns: Option<&[C]>,
    num_rows: Option<usize>,
    max_col_width: Option<usize>,
    config: DisplayConfig,
)
    requires
        table_model(first) == comfy_table_spec(fields, columns, num_rows, max_col_width, config),
        table_model(second) == comfy_table_spec(fields, columns, num_rows, max_col_width, config),
    ensures
        table_model(first) == table_model(second),
{
}

/// The marker column of a table is aligned: where columns are hidden, one
/// and the same slot holds the centered marker cell in the header and the
/// glyph in every row; no other header cell is centered, and every row has
/// as many cells as the header.
pub proof fn lemma_table_marker_aligned(
    fields: Seq<Seq<char>>,
    source: spec_fn(int, int) -> Seq<char>,
    row_count: nat,
    max_col_width: Option<usize>,
    config: DisplayConfig,
)
    requires
        fields.len() <= usize::MAX,
        row_count <= usize::MAX,
    ensures
        ({
            let made = data_table(fields, source, row_count, max_col_width, config);
            let header = made.header->0;
            let p = plan_spec(fields.len(), column_budget(config));
            &&& forall|j: int|
                0 <= j < made.rows.len() ==> (#[trigger] made.rows[j]).len() == header.len()
            &&& forall|k: int|
                0 <= k < header.len() ==> ((#[trigger] header[k]).centered <==> p.marker_inserted
                    && k == p.head_count)
            &&& p.marker_inserted ==> {
                &&& p.head_count < header.len()
                &&& header[p.head_count as int].content == hidden_marker_text(
                    p.hidden_spec(fields.len()) as nat,
                )
                &&& forall|j: int|
                    0 <= j < made.rows.len() ==> (
                    #[trigger] made.rows[j])[p.head_count as int].content == ellipsis()
            }
        }),
{
}

} // verus!
