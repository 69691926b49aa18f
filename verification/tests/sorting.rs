use table_core::table::SortDirection;
use table_core::table::SortKey;
use table_core::table::Table;
use table_core::table::TableEvent;
use table_core::width::Width;

fn headings(names: &[&str]) -> Vec<String> {
    names.iter().map(|n| n.to_string()).collect()
}

#[test]
fn sort_preference_sets_the_primary_key() {
    let mut t = Table::new(headings(&["a", "b", "c"]));
    assert!(t.sort_keys().is_empty());
    t.set_sort_preference(1, SortDirection::Descending);
    assert_eq!(
        t.sort_keys().as_slice(),
        &[SortKey { column: 1, direction: SortDirection::Descending }]
    );
}

#[test]
fn later_preference_becomes_primary_and_keeps_the_rest() {
    let mut t = Table::new(headings(&["a", "b", "c"]));
    t.set_sort_preference(1, SortDirection::Ascending);
    t.set_sort_preference(2, SortDirection::Descending);
    assert_eq!(
        t.sort_keys().as_slice(),
        &[
            SortKey { column: 2, direction: SortDirection::Descending },
            SortKey { column: 1, direction: SortDirection::Ascending },
        ]
    );
}

#[test]
fn repeating_a_column_moves_it_to_the_front_once() {
    let mut t = Table::new(headings(&["a", "b", "c"]));
    t.set_sort_preference(0, SortDirection::Ascending);
    t.set_sort_preference(1, SortDirection::Ascending);
    t.set_sort_preference(0, SortDirection::Descending);
    assert_eq!(
        t.sort_keys().as_slice(),
        &[
            SortKey { column: 0, direction: SortDirection::Descending },
            SortKey { column: 1, direction: SortDirection::Ascending },
        ]
    );
}

#[test]
fn out_of_range_sort_preference_is_ignored() {
    let mut t = Table::new(headings(&["a"]));
    t.set_sort_preference(5, SortDirection::Ascending);
    assert!(t.sort_keys().is_empty());
}

#[test]
fn sort_preference_does_not_touch_widths_or_layout() {
    let mut t = Table::new(headings(&["a", "b"]));
    t.resize(0, Width::Fixed(42));
    let pending_before = t.needs_layout();
    t.set_sort_preference(1, SortDirection::Ascending);
    assert_eq!(t.width_of(0), Width::Fixed(42));
    assert_eq!(t.width_of(1), Width::Stretch(1));
    assert_eq!(t.needs_layout(), pending_before);
}

#[test]
fn events_drive_resize_and_sort() {
    let mut t = Table::new(headings(&["a", "b"]));
    t.handle_event(TableEvent::ResizeColumn { column: 0, new_size: Width::Fixed(64) });
    t.handle_event(TableEvent::SetSortPreference {
        column: 1,
        direction: SortDirection::Descending,
    });
    assert_eq!(t.width_of(0), Width::Fixed(64));
    assert_eq!(
        t.sort_keys().as_slice(),
        &[SortKey { column: 1, direction: SortDirection::Descending }]
    );
}
