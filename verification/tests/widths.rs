use table_core::table::Table;
use table_core::width::Width;

fn headings(names: &[&str]) -> Vec<String> {
    names.iter().map(|n| n.to_string()).collect()
}

#[test]
fn resize_then_read_back() {
    let mut t = Table::new(headings(&["a", "b", "c"]));
    t.resize(1, Width::Fixed(200));
    assert_eq!(t.width_of(1), Width::Fixed(200));
    t.resize(0, Width::Stretch(3));
    assert_eq!(t.width_of(0), Width::Stretch(3));
    t.resize(2, Width::Percentage(40));
    assert_eq!(t.width_of(2), Width::Percentage(40));
}

#[test]
fn negative_fixed_clamps_to_zero() {
    let mut t = Table::new(headings(&["a", "b"]));
    t.resize(0, Width::Fixed(-40));
    assert_eq!(t.width_of(0), Width::Fixed(0));
}

#[test]
fn negative_stretch_and_percentage_clamp_to_zero() {
    let mut t = Table::new(headings(&["a", "b"]));
    t.resize(0, Width::Stretch(-1));
    assert_eq!(t.width_of(0), Width::Stretch(0));
    t.resize(1, Width::Percentage(-25));
    assert_eq!(t.width_of(1), Width::Percentage(0));
}

#[test]
fn default_width_is_equal_stretch() {
    let t = Table::new(headings(&["a", "b", "c", "d"]));
    assert_eq!(t.num_columns(), 4);
    for i in 0..4 {
        assert_eq!(t.width_of(i), Width::Stretch(1));
    }
    assert_eq!(Width::default(), Width::Stretch(1));
}

#[test]
fn with_widths_stores_clamped_values() {
    let t = Table::with_widths(
        headings(&["a", "b", "c"]),
        vec![Width::Fixed(120), Width::Fixed(-5), Width::Stretch(2)],
    );
    assert_eq!(t.width_of(0), Width::Fixed(120));
    assert_eq!(t.width_of(1), Width::Fixed(0));
    assert_eq!(t.width_of(2), Width::Stretch(2));
}

#[test]
fn construction_keeps_heading_order_and_identity() {
    let t = Table::new(headings(&["Status", "Job", "Elapsed"]));
    let cols = t.columns();
    assert_eq!(cols.len(), 3);
    assert_eq!(cols[0].heading, "Status");
    assert_eq!(cols[1].heading, "Job");
    assert_eq!(cols[2].heading, "Elapsed");
    for (i, c) in cols.iter().enumerate() {
        assert_eq!(c.sort_index, i);
    }
}

#[test]
fn resize_out_of_range_changes_nothing() {
    let mut t = Table::with_widths(headings(&["a"]), vec![Width::Fixed(50)]);
    t.resize(7, Width::Fixed(10));
    assert_eq!(t.num_columns(), 1);
    assert_eq!(t.width_of(0), Width::Fixed(50));
}

#[test]
fn resize_leaves_other_columns_untouched() {
    let mut t = Table::with_widths(
        headings(&["a", "b", "c"]),
        vec![Width::Fixed(10), Width::Fixed(20), Width::Fixed(30)],
    );
    t.resize(1, Width::Fixed(99));
    assert_eq!(t.width_of(0), Width::Fixed(10));
    assert_eq!(t.width_of(1), Width::Fixed(99));
    assert_eq!(t.width_of(2), Width::Fixed(30));
}

#[test]
fn scenario_resize_job_column() {
    let mut t = Table::with_widths(
        headings(&["Status", "Job", "Elapsed"]),
        vec![Width::Stretch(1), Width::Stretch(1), Width::Stretch(1)],
    );
    t.resize(1, Width::Fixed(200));
    assert_eq!(t.width_of(1), Width::Fixed(200));
    assert_eq!(t.width_of(0), Width::Stretch(1));
    assert_eq!(t.width_of(2), Width::Stretch(1));
}

#[test]
fn widths_snapshot_matches_reads() {
    let mut t = Table::new(headings(&["a", "b"]));
    t.resize(0, Width::Fixed(33));
    let ws = t.widths();
    assert_eq!(ws, vec![Width::Fixed(33), Width::Stretch(1)]);
}
