use common_display::plan::{column_capacity, plan, plan_rows, ElisionPlan, ROW_BUDGET};

#[test]
fn nothing_is_hidden_within_the_budget() {
    for total in 0..=6usize {
        let p = plan(total, 6);
        assert_eq!(p, ElisionPlan { head_count: total, tail_count: 0, marker_inserted: false });
        assert_eq!(p.hidden_count(total), 0);
        assert_eq!(p.slot_count(), total);
    }
}

#[test]
fn beyond_the_budget_the_marker_takes_one_more_slot() {
    for capacity in 1..=9usize {
        for total in (capacity + 1)..(capacity + 5) {
            let p = plan(total, capacity);
            assert!(p.marker_inserted);
            assert_eq!(p.head_count + p.tail_count, capacity);
            assert_eq!(p.head_count + p.tail_count, p.slot_count() - 1);
            assert_eq!(p.hidden_count(total), total - p.head_count - p.tail_count);
            assert!(p.hidden_count(total) > 0);
        }
    }
}

#[test]
fn twenty_five_columns_under_a_budget_of_six() {
    let p = plan(25, 6);
    assert_eq!(p, ElisionPlan { head_count: 3, tail_count: 3, marker_inserted: true });
    assert_eq!(p.slot_count(), 7);
    assert_eq!(p.hidden_count(25), 19);
    assert_eq!(p.marker_slot(), Some(3));
    assert_eq!(
        p.slots(25),
        vec![Some(0), Some(1), Some(2), None, Some(22), Some(23), Some(24)]
    );
}

#[test]
fn odd_budget_gives_the_head_the_extra_slot() {
    let p = plan(20, 7);
    assert_eq!(p, ElisionPlan { head_count: 4, tail_count: 3, marker_inserted: true });
    assert_eq!(p.hidden_count(20), 13);
    let q = plan(5, 1);
    assert_eq!(q, ElisionPlan { head_count: 1, tail_count: 0, marker_inserted: true });
    assert_eq!(q.slots(5), vec![Some(0), None]);
    assert_eq!(q.hidden_count(5), 4);
}

#[test]
fn one_more_than_the_budget_still_costs_the_marker_slot() {
    let p = plan(7, 6);
    assert_eq!(p, ElisionPlan { head_count: 3, tail_count: 3, marker_inserted: true });
    assert_eq!(p.hidden_count(7), 1);
    assert_eq!(p.slot_count(), 7);
    assert_eq!(
        p.slots(7),
        vec![Some(0), Some(1), Some(2), None, Some(4), Some(5), Some(6)]
    );
}

#[test]
fn a_budget_of_zero_is_a_budget_of_one() {
    assert_eq!(plan(0, 0), ElisionPlan { head_count: 0, tail_count: 0, marker_inserted: false });
    assert_eq!(plan(1, 0), ElisionPlan { head_count: 1, tail_count: 0, marker_inserted: false });
    assert_eq!(plan(2, 0), ElisionPlan { head_count: 1, tail_count: 0, marker_inserted: true });
    assert_eq!(plan(2, 0), plan(2, 1));
}

#[test]
fn fifteen_rows_show_five_and_five() {
    assert_eq!(ROW_BUDGET, 10);
    let p = plan_rows(15);
    assert_eq!(p, ElisionPlan { head_count: 5, tail_count: 5, marker_inserted: true });
    assert_eq!(p.slot_count(), 11);
    assert_eq!(
        p.slots(15),
        vec![
            Some(0),
            Some(1),
            Some(2),
            Some(3),
            Some(4),
            None,
            Some(10),
            Some(11),
            Some(12),
            Some(13),
            Some(14)
        ]
    );
}

#[test]
fn ten_rows_are_all_shown() {
    let p = plan_rows(10);
    assert_eq!(p, ElisionPlan { head_count: 10, tail_count: 0, marker_inserted: false });
    assert_eq!(p.marker_slot(), None);
    assert_eq!(p.slots(10).len(), 10);
    assert_eq!(plan_rows(11).slot_count(), 11);
    assert_eq!(plan_rows(0).slots(0), Vec::<Option<usize>>::new());
}

#[test]
fn column_capacity_of_terminal_widths() {
    assert_eq!(column_capacity(120), 6);
    assert_eq!(column_capacity(126), 6);
    assert_eq!(column_capacity(127), 7);
    assert_eq!(column_capacity(80), 4);
    assert_eq!(column_capacity(37), 2);
    assert_eq!(column_capacity(36), 1);
    assert_eq!(column_capacity(18), 1);
    assert_eq!(column_capacity(1), 1);
    assert_eq!(column_capacity(0), 1);
    assert_eq!(column_capacity(usize::MAX), usize::MAX / 18);
}

#[test]
fn columns_shown_are_one_fewer_than_the_room() {
    for width in [37usize, 80, 120, 200] {
        let room = (width + 17) / 18;
        let p = plan(100, column_capacity(width));
        assert!(p.marker_inserted);
        assert_eq!(p.head_count + p.tail_count, room - 1);
        assert_eq!(p.slot_count(), room);
    }
}
