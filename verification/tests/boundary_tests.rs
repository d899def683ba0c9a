use quic_endpoint::boundary::{ErrorSlot, FFIResultKind, QuinnError, CODE_DOMAIN};
use quic_endpoint::dir_from_u8;
use quic_endpoint::StreamDir;

#[test]
fn dir_zero_is_bidirectional() {
    assert_eq!(dir_from_u8(0), StreamDir::Bi);
}

#[test]
fn dir_nonzero_is_unidirectional() {
    assert_eq!(dir_from_u8(1), StreamDir::Uni);
    assert_eq!(dir_from_u8(7), StreamDir::Uni);
    assert_eq!(dir_from_u8(255), StreamDir::Uni);
}

#[test]
fn fresh_slot_reports_no_error() {
    let slot = ErrorSlot::new();
    let mut buf: Vec<u8> = vec![0; 16];
    let (kind, len) = slot.last_error(&mut buf);
    assert_eq!(kind, FFIResultKind::Success);
    assert_eq!(len, 0);
    assert_eq!(buf, vec![0; 16]);
}

#[test]
fn last_error_after_success_is_unset() {
    let mut slot = ErrorSlot::new();
    slot.record(
        FFIResultKind::DomainError,
        Some(QuinnError::new(CODE_DOMAIN, "handshake failed")),
    );
    assert!(slot.is_set());
    slot.record(FFIResultKind::Success, None);
    assert!(!slot.is_set());
    let mut buf: Vec<u8> = vec![7; 4];
    let (kind, len) = slot.last_error(&mut buf);
    assert_eq!(kind, FFIResultKind::Success);
    assert_eq!(len, 0);
    assert_eq!(buf, vec![7; 4]);
}

#[test]
fn recorded_error_is_read_back_exactly() {
    let mut slot = ErrorSlot::new();
    slot.record(
        FFIResultKind::DomainError,
        Some(QuinnError::new(CODE_DOMAIN, "stream reset by peer")),
    );
    let msg = b"stream reset by peer";
    let mut buf: Vec<u8> = vec![0; 32];
    let (kind, len) = slot.last_error(&mut buf);
    assert_eq!(kind, FFIResultKind::Success);
    assert_eq!(len, msg.len());
    assert_eq!(&buf[..len], &msg[..]);
    assert_eq!(&buf[len..], &vec![0u8; 32 - msg.len()][..]);
}

#[test]
fn too_small_buffer_reports_required_length_without_writing() {
    let mut slot = ErrorSlot::new();
    slot.record(
        FFIResultKind::DomainError,
        Some(QuinnError::new(CODE_DOMAIN, "unknown stream")),
    );
    let mut buf: Vec<u8> = vec![9; 4];
    let (kind, len) = slot.last_error(&mut buf);
    assert_eq!(kind, FFIResultKind::BufferTooSmall);
    assert_eq!(len, b"unknown stream".len());
    assert_eq!(buf, vec![9; 4]);

    let mut resized: Vec<u8> = vec![0; len];
    let (kind2, len2) = slot.last_error(&mut resized);
    assert_eq!(kind2, FFIResultKind::Success);
    assert_eq!(len2, len);
    assert_eq!(&resized[..], b"unknown stream");
}

#[test]
fn blocked_record_keeps_a_distinguishing_code() {
    let mut slot = ErrorSlot::new();
    slot.record(
        FFIResultKind::Blocked,
        Some(QuinnError::new(quic_endpoint::boundary::CODE_BLOCKED, "")),
    );
    assert!(slot.is_set());
    let mut buf: Vec<u8> = vec![0; 8];
    let (kind, len) = slot.last_error(&mut buf);
    assert_eq!(kind, FFIResultKind::Success);
    assert_eq!(len, 0);
}
