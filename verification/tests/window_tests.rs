use shortsbot::window::count_recent;

#[test]
fn backward_scan_counts_entries_in_window() {
    // Window of 10 seconds at now = 35: only the entry at 30 is newer than 25.
    assert_eq!(count_recent(&vec![10, 20, 30], 35, 10), 1);
    // Window of 20 seconds at now = 35: 20 and 30 are newer than 15.
    assert_eq!(count_recent(&vec![10, 20, 30], 35, 20), 2);
}

#[test]
fn backward_scan_lower_edge_is_exclusive() {
    // An entry exactly `window` seconds old is outside the window.
    assert_eq!(count_recent(&vec![0], 86400, 86400), 0);
    assert_eq!(count_recent(&vec![0], 86399, 86400), 1);
}

#[test]
fn backward_scan_empty_history() {
    assert_eq!(count_recent(&vec![], 1000, 86400), 0);
}

#[test]
fn backward_scan_counts_everything_when_all_recent() {
    assert_eq!(count_recent(&vec![5, 5, 6, 7], 7, 100), 4);
}
