use common_display::grid::StrValue;
use common_display::series::{BooleanArray, SeriesError, Series};

fn series(values: &[&str]) -> Series {
    Series::new(values.iter().map(|s| s.to_string()).collect())
}

#[test]
fn a_series_gives_its_values_by_row() {
    let s = series(&["a", "b", "c"]);
    assert_eq!(s.len(), 3);
    assert_eq!(s.str_value(0), "a");
    assert_eq!(s.str_value(2), "c");
}

#[test]
fn head_keeps_the_first_values() {
    let s = series(&["a", "b", "c"]);
    assert_eq!(s.head(2).values, vec!["a", "b"]);
    assert_eq!(s.head(0).values, Vec::<String>::new());
    assert_eq!(s.head(9).values, vec!["a", "b", "c"]);
}

#[test]
fn mask_reads_missing_and_out_of_range_as_none() {
    let mask = BooleanArray::new(vec![Some(true), None, Some(false)]);
    assert_eq!(mask.len(), 3);
    assert_eq!(mask.get(0), Some(true));
    assert_eq!(mask.get(1), None);
    assert_eq!(mask.get(2), Some(false));
    assert_eq!(mask.get(3), None);
}

#[test]
fn filter_by_a_mask_of_the_same_length() {
    let s = series(&["a", "b", "c", "d"]);
    let mask = BooleanArray::new(vec![Some(true), Some(false), None, Some(true)]);
    let out = s.filter(&mask).unwrap();
    assert_eq!(out.values, vec!["a", "d"]);
    let none = BooleanArray::new(vec![Some(false), Some(false), None, None]);
    assert_eq!(s.filter(&none).unwrap().len(), 0);
    let all = BooleanArray::new(vec![Some(true); 4]);
    assert_eq!(s.filter(&all).unwrap().values, s.values);
}

#[test]
fn filter_by_a_single_boolean() {
    let s = series(&["a", "b", "c"]);
    let keep = BooleanArray::new(vec![Some(true)]);
    assert_eq!(s.filter(&keep).unwrap().values, vec!["a", "b", "c"]);
    let drop = BooleanArray::new(vec![Some(false)]);
    assert_eq!(s.filter(&drop).unwrap().len(), 0);
    let missing = BooleanArray::new(vec![None]);
    assert_eq!(s.filter(&missing).unwrap().len(), 0);
}

#[test]
fn a_single_boolean_decides_for_a_single_value_too() {
    let s = series(&["a"]);
    assert_eq!(s.filter(&BooleanArray::new(vec![Some(true)])).unwrap().values, vec!["a"]);
    assert_eq!(s.filter(&BooleanArray::new(vec![None])).unwrap().len(), 0);
    let empty = series(&[]);
    assert_eq!(empty.filter(&BooleanArray::new(vec![Some(true)])).unwrap().len(), 0);
    assert_eq!(empty.filter(&BooleanArray::new(vec![])).unwrap().len(), 0);
}

#[test]
fn filter_refuses_a_mask_of_another_length() {
    let s = series(&["a", "b", "c"]);
    let mask = BooleanArray::new(vec![Some(true), Some(false)]);
    let err = s.filter(&mask).unwrap_err();
    assert_eq!(err.message(), "Lengths for filter do not match, Series 3 vs mask 2");
    let SeriesError::ValueError(text) = err;
    assert_eq!(text, "Lengths for filter do not match, Series 3 vs mask 2");
    let none = BooleanArray::new(vec![]);
    assert_eq!(
        s.filter(&none).unwrap_err().message(),
        "Lengths for filter do not match, Series 3 vs mask 0"
    );
    let twelve = series(&["x"; 12]);
    assert_eq!(
        twelve.filter(&mask).unwrap_err().message(),
        "Lengths for filter do not match, Series 12 vs mask 2"
    );
}
