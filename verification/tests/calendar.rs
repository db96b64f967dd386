use tagfetch::calendar::{decompose, next_month, windows_in_range, Window};
use tagfetch::wire::{format_boundary, sink_name, window_bounds};

#[test]
fn decompose_splits_year_and_month() {
    assert_eq!(decompose(202301), (2023, 1));
    assert_eq!(decompose(202212), (2022, 12));
}

#[test]
fn next_month_advances_within_year() {
    let n = next_month(Window { year: 2023, month: 5 });
    assert_eq!(n, Window { year: 2023, month: 6 });
}

#[test]
fn next_month_rolls_december_into_january() {
    let n = next_month(Window { year: 2022, month: 12 });
    assert_eq!(n, Window { year: 2023, month: 1 });
}

#[test]
fn range_of_two_months() {
    let ws = windows_in_range(202301, 202302);
    assert_eq!(ws, vec![Window { year: 2023, month: 1 }, Window { year: 2023, month: 2 }]);
}

#[test]
fn range_of_one_month() {
    let ws = windows_in_range(202306, 202306);
    assert_eq!(ws, vec![Window { year: 2023, month: 6 }]);
}

#[test]
fn range_crossing_a_year_boundary() {
    let ws = windows_in_range(202211, 202302);
    assert_eq!(
        ws,
        vec![
            Window { year: 2022, month: 11 },
            Window { year: 2022, month: 12 },
            Window { year: 2023, month: 1 },
            Window { year: 2023, month: 2 },
        ]
    );
}

#[test]
fn range_spanning_full_years() {
    let ws = windows_in_range(202101, 202312);
    assert_eq!(ws.len(), 36);
    assert_eq!(ws[0], Window { year: 2021, month: 1 });
    assert_eq!(ws[35], Window { year: 2023, month: 12 });
    for pair in ws.windows(2) {
        let a = pair[0];
        let b = pair[1];
        assert!(a.year < b.year || (a.year == b.year && a.month < b.month));
    }
}

#[test]
fn boundary_is_first_instant_of_month() {
    let s = format_boundary(&Window { year: 2023, month: 1 });
    assert_eq!(s, "2023-01-01T00:00:00Z");
    let s = format_boundary(&Window { year: 2023, month: 11 });
    assert_eq!(s, "2023-11-01T00:00:00Z");
}

#[test]
fn window_bounds_roll_over_december() {
    let (start, end) = window_bounds(&Window { year: 2023, month: 12 });
    assert_eq!(start, "2023-12-01T00:00:00Z");
    assert_eq!(end, "2024-01-01T00:00:00Z");
}

#[test]
fn window_bounds_within_a_year() {
    let (start, end) = window_bounds(&Window { year: 2023, month: 4 });
    assert_eq!(start, "2023-04-01T00:00:00Z");
    assert_eq!(end, "2023-05-01T00:00:00Z");
}

#[test]
fn year_is_rendered_without_padding() {
    let s = format_boundary(&Window { year: 999, month: 3 });
    assert_eq!(s, "999-03-01T00:00:00Z");
}

#[test]
fn sink_names_are_zero_padded() {
    assert_eq!(sink_name(&Window { year: 2023, month: 1 }), "2023-01.csv");
    assert_eq!(sink_name(&Window { year: 2023, month: 10 }), "2023-10.csv");
}
