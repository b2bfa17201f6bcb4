use zellij_server::window::{window_update, WindowSize};

#[test]
fn zero_columns_makes_no_update() {
    assert_eq!(window_update(0, 24), None);
}

#[test]
fn zero_rows_makes_no_update() {
    assert_eq!(window_update(80, 0), None);
}

#[test]
fn zero_both_makes_no_update() {
    assert_eq!(window_update(0, 0), None);
}

#[test]
fn positive_size_is_passed_on() {
    assert_eq!(window_update(80, 24), Some(WindowSize { columns: 80, rows: 24 }));
    assert_eq!(window_update(1, 1), Some(WindowSize { columns: 1, rows: 1 }));
    assert_eq!(
        window_update(u16::MAX, u16::MAX),
        Some(WindowSize { columns: u16::MAX, rows: u16::MAX })
    );
}
