use backmeup::display_window::{close_backup_window, is_window_open};

#[test]
fn window_is_open_until_closed() {
    let mut should_close = false;
    assert!(is_window_open(&should_close));
    close_backup_window(&mut should_close);
    assert!(should_close);
    assert!(!is_window_open(&should_close));
}

#[test]
fn closing_twice_keeps_it_closed() {
    let mut should_close = true;
    close_backup_window(&mut should_close);
    assert!(!is_window_open(&should_close));
}
