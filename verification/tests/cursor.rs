use lazynginx::cursor::SelectableCursor;

#[test]
fn cursor_starts_on_first_row() {
    let cursor = SelectableCursor::new(5);
    assert_eq!(cursor.selected(), 0);
    assert_eq!(cursor.count(), 5);
}

#[test]
fn cursor_wraps_forward() {
    let mut cursor = SelectableCursor::new(3);
    cursor.select_next();
    assert_eq!(cursor.selected(), 1);
    cursor.select_next();
    assert_eq!(cursor.selected(), 2);
    cursor.select_next();
    assert_eq!(cursor.selected(), 0);
    assert_eq!(cursor.count(), 3);
}

#[test]
fn cursor_wraps_backward() {
    let mut cursor = SelectableCursor::new(3);
    cursor.select_previous();
    assert_eq!(cursor.selected(), 2);
    cursor.select_previous();
    assert_eq!(cursor.selected(), 1);
    cursor.select_previous();
    assert_eq!(cursor.selected(), 0);
}

#[test]
fn cursor_on_single_row_stays() {
    let mut cursor = SelectableCursor::new(1);
    cursor.select_next();
    assert_eq!(cursor.selected(), 0);
    cursor.select_previous();
    assert_eq!(cursor.selected(), 0);
}
