use libreskop::control::{reader_next, stop_after_tick, ReaderNext};

#[test]
fn reader_keeps_reading_until_stop() {
    assert_eq!(reader_next(false), ReaderNext::KeepReading);
    assert_eq!(reader_next(true), ReaderNext::Finish);
}

#[test]
fn failed_send_raises_stop() {
    assert!(!stop_after_tick(false, true));
    assert!(stop_after_tick(false, false));
}

#[test]
fn raised_stop_stays_raised() {
    assert!(stop_after_tick(true, true));
    assert!(stop_after_tick(true, false));
}
