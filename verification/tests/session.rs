use terminal::session::{PendingWrite, SessionError, WriteStatus};

#[test]
fn only_a_failed_resize_lets_the_session_go_on() {
    assert!(SessionError::Spawn.is_fatal());
    assert!(SessionError::Io.is_fatal());
    assert!(!SessionError::Resize.is_fatal());
}

#[test]
fn a_partial_write_goes_on_with_the_rest() {
    let mut pending = PendingWrite::new(b"hello".to_vec());
    assert!(!pending.is_complete());
    assert_eq!(pending.remaining(), b"hello");
    assert_eq!(pending.record(2), WriteStatus::Partial);
    assert_eq!(pending.remaining(), b"llo");
    assert_eq!(pending.record(0), WriteStatus::Partial);
    assert_eq!(pending.remaining(), b"llo");
    assert_eq!(pending.record(3), WriteStatus::Complete);
    assert!(pending.is_complete());
    assert_eq!(pending.remaining(), b"");
}

#[test]
fn a_failed_write_changes_nothing() {
    let mut pending = PendingWrite::new(b"hello".to_vec());
    assert_eq!(pending.record(1), WriteStatus::Partial);
    assert_eq!(pending.record(-1), WriteStatus::Failed);
    assert_eq!(pending.remaining(), b"ello");
    assert_eq!(pending.record(isize::MIN), WriteStatus::Failed);
    assert_eq!(pending.remaining(), b"ello");
}

#[test]
fn no_more_bytes_count_than_were_handed_over() {
    let mut pending = PendingWrite::new(b"hello".to_vec());
    assert_eq!(pending.record(isize::MAX), WriteStatus::Complete);
    assert_eq!(pending.remaining(), b"");
    let mut empty = PendingWrite::new(Vec::new());
    assert!(empty.is_complete());
    assert_eq!(empty.record(0), WriteStatus::Complete);
}
