use common_display::grid::{
    arrange, assemble, body_rows, data_row, fetch_row, header_row, marker_row, render_row, StrValue,
};
use common_display::series::Series;

fn names(count: usize) -> Vec<String> {
    (0..count).map(|i| format!("f{}", i)).collect()
}

fn column(col: usize, rows: usize) -> Series {
    Series::new((0..rows).map(|r| format!("r{}c{}", r, col)).collect())
}

fn table(cols: usize, rows: usize) -> Vec<Series> {
    (0..cols).map(|c| column(c, rows)).collect()
}

fn as_columns(series: &[Series]) -> Vec<&dyn StrValue> {
    series.iter().map(|s| s as &dyn StrValue).collect()
}

#[test]
fn three_fields_and_two_rows_are_shown_in_full() {
    let fields = vec!["id".to_string(), "name".to_string(), "score".to_string()];
    let data = vec![
        Series::new(vec!["1".to_string(), "2".to_string()]),
        Series::new(vec!["ann".to_string(), "bob".to_string()]),
        Series::new(vec!["9.5".to_string(), "7.0".to_string()]),
    ];
    let grid = assemble(&fields, &as_columns(&data), 2, 6, None);
    assert_eq!(grid.header, vec!["id", "name", "score"]);
    assert_eq!(grid.rows.len(), 2);
    assert_eq!(grid.rows[0], vec!["1", "ann", "9.5"]);
    assert_eq!(grid.rows[1], vec!["2", "bob", "7.0"]);
    assert_eq!(grid.marker_column, None);
    let all = grid.rows.iter().flatten().chain(grid.header.iter());
    for cell in all {
        assert!(!cell.contains('…'));
    }
}

#[test]
fn twenty_five_fields_show_three_and_three_around_the_marker() {
    let fields = names(25);
    let header = header_row(&fields, 6);
    assert_eq!(header.len(), 7);
    assert_eq!(header, vec!["f0", "f1", "f2", "…\n\n(19 hidden)", "f22", "f23", "f24"]);
}

#[test]
fn fifteen_rows_show_five_the_marker_row_and_five() {
    let data = table(3, 15);
    let rows = body_rows(&as_columns(&data), 15, 6, None);
    assert_eq!(rows.len(), 11);
    let shown = |r: usize| vec![format!("r{}c0", r), format!("r{}c1", r), format!("r{}c2", r)];
    for (slot, row) in [0usize, 1, 2, 3, 4].iter().enumerate() {
        assert_eq!(rows[slot], shown(*row));
    }
    assert_eq!(rows[5], vec!["…", "…", "…"]);
    for (offset, row) in [10usize, 11, 12, 13, 14].iter().enumerate() {
        assert_eq!(rows[6 + offset], shown(*row));
    }
}

#[test]
fn ten_rows_have_no_marker_row() {
    let data = table(2, 10);
    let rows = body_rows(&data, 10, 6, None);
    assert_eq!(rows.len(), 10);
    for (r, row) in rows.iter().enumerate() {
        assert_eq!(row, &vec![format!("r{}c0", r), format!("r{}c1", r)]);
    }
}

#[test]
fn only_the_first_rows_that_are_asked_for_are_read() {
    let data = table(2, 8);
    let rows = body_rows(&as_columns(&data), 3, 6, None);
    assert_eq!(rows.len(), 3);
    assert_eq!(rows[2], vec!["r2c0", "r2c1"]);
}

#[test]
fn the_marker_stands_in_the_same_slot_of_every_row() {
    let fields = names(25);
    let data = table(25, 15);
    let grid = assemble(&fields, &as_columns(&data), 15, 6, Some(4));
    assert_eq!(grid.marker_column, Some(3));
    assert_eq!(grid.header.len(), 7);
    assert_eq!(grid.header[3], "…\n\n(19 hidden)");
    assert_eq!(grid.rows.len(), 11);
    for row in &grid.rows {
        assert_eq!(row.len(), grid.header.len());
        assert_eq!(row[3], "…");
    }
    assert_eq!(grid.rows[0], vec!["r0c0", "r0c1", "r0c2", "…", "r0c…", "r0c…", "r0c…"]);
    assert_eq!(grid.rows[5], vec!["…"; 7]);
    let last = vec!["r14…", "r14…", "r14…", "…", "r14…", "r14…", "r14…"];
    assert_eq!(grid.rows[10], last);
}

#[test]
fn cells_stay_below_their_fields() {
    let fields = names(9);
    let data = table(9, 12);
    let grid = assemble(&fields, &as_columns(&data), 12, 4, None);
    assert_eq!(grid.header, vec!["f0", "f1", "…\n\n(5 hidden)", "f7", "f8"]);
    assert_eq!(grid.rows[0], vec!["r0c0", "r0c1", "…", "r0c7", "r0c8"]);
    assert_eq!(grid.rows[4], vec!["r4c0", "r4c1", "…", "r4c7", "r4c8"]);
    assert_eq!(grid.rows[6], vec!["r7c0", "r7c1", "…", "r7c7", "r7c8"]);
    assert_eq!(grid.rows[10], vec!["r11c0", "r11c1", "…", "r11c7", "r11c8"]);
}

#[test]
fn assembling_twice_gives_the_same_grid() {
    let fields = names(12);
    let data = table(12, 30);
    let first = assemble(&fields, &as_columns(&data), 30, 5, Some(3));
    let second = assemble(&fields, &as_columns(&data), 30, 5, Some(3));
    assert_eq!(first.header, second.header);
    assert_eq!(first.rows, second.rows);
    assert_eq!(first.marker_column, second.marker_column);
}

#[test]
fn no_cell_of_the_body_is_longer_than_the_budget() {
    let fields = names(8);
    let data = table(8, 20);
    for width in 1..7usize {
        let grid = assemble(&fields, &as_columns(&data), 20, 3, Some(width));
        for row in &grid.rows {
            for cell in row {
                assert!(cell.chars().count() <= width);
            }
        }
    }
}

#[test]
fn no_fields_and_no_rows_give_an_empty_header_only() {
    let fields: Vec<String> = Vec::new();
    let columns: Vec<&dyn StrValue> = Vec::new();
    let grid = assemble(&fields, &columns, 0, 6, None);
    assert_eq!(grid.header, Vec::<String>::new());
    assert_eq!(grid.rows, Vec::<Vec<String>>::new());
    assert_eq!(grid.marker_column, None);
}

#[test]
fn a_budget_of_one_shows_the_first_column_and_the_marker() {
    let fields = names(5);
    let data = table(5, 2);
    let grid = assemble(&fields, &as_columns(&data), 2, 1, None);
    assert_eq!(grid.header, vec!["f0", "…\n\n(4 hidden)"]);
    assert_eq!(grid.rows, vec![vec!["r0c0", "…"], vec!["r1c0", "…"]]);
    assert_eq!(grid.marker_column, Some(1));
}

#[test]
fn a_row_of_texts_is_cut_and_laid_out() {
    let texts: Vec<String> = ["alpha", "beta", "gamma", "delta", "epsilon"]
        .iter()
        .map(|s| s.to_string())
        .collect();
    assert_eq!(data_row(&texts, 5, None), texts);
    assert_eq!(data_row(&texts, 2, None), vec!["alpha", "…", "epsilon"]);
    assert_eq!(data_row(&texts, 3, Some(4)), vec!["alp…", "beta", "…", "eps…"]);
    assert_eq!(render_row(&texts, Some(4)), vec!["alp…", "beta", "gam…", "del…", "eps…"]);
    assert_eq!(render_row(&texts, None), texts);
}

#[test]
fn fetch_row_reads_every_column() {
    let data = table(4, 3);
    assert_eq!(fetch_row(&as_columns(&data), 1), vec!["r1c0", "r1c1", "r1c2", "r1c3"]);
    assert_eq!(fetch_row(&data, 2), vec!["r2c0", "r2c1", "r2c2", "r2c3"]);
}

#[test]
fn arrange_copies_by_the_pattern() {
    let cells: Vec<String> = ["a", "b", "c", "d"].iter().map(|s| s.to_string()).collect();
    let pattern = vec![Some(0), None, Some(3)];
    assert_eq!(arrange(&cells, &pattern, "*"), vec!["a", "*", "d"]);
    assert_eq!(arrange(&cells, &[], "*"), Vec::<String>::new());
}

#[test]
fn marker_row_spans_every_slot() {
    assert_eq!(marker_row(7), vec!["…"; 7]);
    assert_eq!(marker_row(0), Vec::<String>::new());
}
