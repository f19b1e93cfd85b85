use ptyctl::encoding::{decode_payload, encode_chunk};
use ptyctl::errors::ErrorCode;
use ptyctl::keys::{key_bytes, Protocol, SessionKey};
use ptyctl::locks::SessionLock;
use ptyctl::session::{Encoding, SessionType};
use ptyctl::text::{format_cursor, parse_cursor};

#[test]
fn key_bytes_enter_telnet() {
    let bytes = key_bytes(Protocol::Telnet, SessionKey::Enter).expect("key bytes");
    assert_eq!(bytes, vec![b'\r']);
}

#[test]
fn key_bytes_match_expected_sequences() {
    let cases = [
        (SessionKey::Enter, vec![b'\n']),
        (SessionKey::Tab, vec![b'\t']),
        (SessionKey::Backspace, vec![0x7f]),
        (SessionKey::Delete, vec![0x1b, b'[', b'3', b'~']),
        (SessionKey::Home, vec![0x1b, b'[', b'H']),
        (SessionKey::End, vec![0x1b, b'[', b'F']),
        (SessionKey::CtrlC, vec![0x03]),
        (SessionKey::CtrlD, vec![0x04]),
        (SessionKey::CtrlZ, vec![0x1a]),
        (SessionKey::CtrlBackslash, vec![0x1c]),
        (SessionKey::CtrlA, vec![0x01]),
        (SessionKey::CtrlE, vec![0x05]),
        (SessionKey::CtrlK, vec![0x0b]),
        (SessionKey::CtrlU, vec![0x15]),
        (SessionKey::CtrlL, vec![0x0c]),
        (SessionKey::Esc, vec![0x1b]),
        (SessionKey::ArrowUp, vec![0x1b, b'[', b'A']),
        (SessionKey::ArrowDown, vec![0x1b, b'[', b'B']),
        (SessionKey::ArrowLeft, vec![0x1b, b'[', b'D']),
        (SessionKey::ArrowRight, vec![0x1b, b'[', b'C']),
        (SessionKey::PageUp, vec![0x1b, b'[', b'5', b'~']),
        (SessionKey::PageDown, vec![0x1b, b'[', b'6', b'~']),
    ];

    for (key, expected) in cases {
        let actual = key_bytes(Protocol::Ssh, key).expect("key bytes");
        assert_eq!(actual, expected);
    }
}

#[test]
fn lock_blocks_other_tasks() {
    let mut lock = SessionLock::new();
    lock.lock("task-1", 1000, 0).expect("lock");
    assert!(lock.ensure_write_access(Some("task-1"), SessionType::Normal, 10).is_ok());
    let other = lock
        .ensure_write_access(Some("task-2"), SessionType::Normal, 10)
        .expect_err("held by another task");
    assert_eq!(other.message, "Session locked by task task-1");
    let anonymous = lock
        .ensure_write_access(None, SessionType::Normal, 10)
        .expect_err("anonymous writes are refused");
    assert_eq!(anonymous.message, "task_id is required for locked sessions");
}

#[test]
fn console_requires_lock_for_write() {
    let mut lock = SessionLock::new();
    let err = lock
        .ensure_write_access(Some("task-1"), SessionType::Console, 0)
        .expect_err("console needs a lock");
    assert_eq!(err.message, "Console sessions require a lock for write access");
    lock.lock("task-1", 1000, 0).expect("lock");
    assert!(lock.ensure_write_access(Some("task-1"), SessionType::Console, 10).is_ok());
}

#[test]
fn expired_lock_reads_as_unlocked() {
    let mut lock = SessionLock::new();
    lock.lock("task-1", 50, 0).expect("lock");
    assert!(lock.lock_status(49).is_some());
    assert!(lock.lock_status(50).is_none());
    let granted = lock.lock("task-2", 100, 60).expect("free after expiry");
    assert_eq!(granted.task_id, "task-2");
    assert_eq!(granted.expires_at, 160);
}

#[test]
fn heartbeat_renews_only_for_the_holder() {
    let mut lock = SessionLock::new();
    lock.lock("task-1", 100, 0).expect("lock");
    let renewed = lock.heartbeat("task-1", None, 50).expect("heartbeat");
    assert_eq!(renewed.expires_at, 150);
    let other = lock.heartbeat("task-2", Some(100), 60).expect_err("held by another task");
    assert_eq!(other.message, "Session locked by task task-1");
    let err = lock.heartbeat("task-1", None, 10_000).expect_err("expired");
    assert_eq!(err.error_code, ErrorCode::InvalidArgument);
    assert_eq!(err.message, "Session is not locked");
}

#[test]
fn unlock_clears_only_for_the_holder() {
    let mut lock = SessionLock::new();
    lock.lock("task-1", 100, 0).expect("lock");
    assert!(lock.unlock("task-2", 10).is_err());
    lock.unlock("task-1", 10).expect("unlock");
    assert!(lock.lock_status(10).is_none());
}

#[test]
fn cursor_roundtrip_and_rejection() {
    assert_eq!(format_cursor(0), "0");
    assert_eq!(format_cursor(1234567890), "1234567890");
    assert_eq!(parse_cursor("0").expect("zero"), 0);
    assert_eq!(parse_cursor("18446744073709551615").expect("max"), u64::MAX);
    assert_eq!(parse_cursor(&format_cursor(987654321)).expect("roundtrip"), 987654321);
    for bad in ["", "-1", "+1", "1x", "18446744073709551616", " 1"] {
        let err = parse_cursor(bad).expect_err("rejected");
        assert_eq!(err.error_code, ErrorCode::InvalidArgument);
        assert_eq!(err.message, "Invalid cursor value");
    }
}

#[test]
fn encode_chunk_downgrades_invalid_utf8_to_base64() {
    let (text, used) = encode_chunk(b"hello", Encoding::Utf8);
    assert_eq!(text, "hello");
    assert_eq!(used, Encoding::Utf8);
    let (text, used) = encode_chunk(&[0xff, 0x00, 0x41], Encoding::Utf8);
    assert_eq!(used, Encoding::Base64);
    assert_eq!(text, "/wBB");
    let (text, used) = encode_chunk(b"hi", Encoding::Base64);
    assert_eq!(used, Encoding::Base64);
    assert_eq!(text, "aGk=");
}

#[test]
fn decode_payload_checks_base64() {
    assert_eq!(decode_payload("hi", Encoding::Utf8).expect("utf8"), b"hi");
    assert_eq!(decode_payload("aGk=", Encoding::Base64).expect("base64"), b"hi");
    let err = decode_payload("not base64!!", Encoding::Base64).expect_err("rejected");
    assert_eq!(err.error_code, ErrorCode::InvalidArgument);
    assert_eq!(err.message, "Invalid base64");
}

#[test]
fn heartbeat_defaults_to_the_stored_interval() {
    let mut lock = SessionLock::new();
    lock.lock("task-1", 300, 0).expect("lock");
    let renewed = lock.heartbeat("task-1", Some(80), 10).expect("heartbeat");
    assert_eq!(renewed.heartbeat_interval_ms, 80);
    assert_eq!(renewed.expires_at, 90);
    let renewed = lock.heartbeat("task-1", None, 20).expect("heartbeat");
    assert_eq!(renewed.heartbeat_interval_ms, 80);
    assert_eq!(renewed.expires_at, 100);
}

#[test]
fn encode_then_decode_round_trips() {
    let payloads: [&[u8]; 4] = [b"", b"f", b"hello world", &[0xff, 0xfe, 0x00, 0x10]];
    for bytes in payloads {
        let (text, used) = encode_chunk(bytes, Encoding::Base64);
        assert_eq!(decode_payload(&text, used).expect("round trip"), bytes);
    }
    let (text, used) = encode_chunk(&[0xc3, 0x28], Encoding::Utf8);
    assert_eq!(used, Encoding::Base64);
    assert_eq!(decode_payload(&text, used).expect("fallback round trip"), vec![0xc3, 0x28]);
}

#[test]
fn wire_codes_are_lowercase() {
    let cases = [
        (ErrorCode::InvalidArgument, "invalid_argument"),
        (ErrorCode::NotFound, "not_found"),
        (ErrorCode::AlreadyClosed, "already_closed"),
        (ErrorCode::ConnectTimeout, "connect_timeout"),
        (ErrorCode::ConnectFailed, "connect_failed"),
        (ErrorCode::AuthFailed, "auth_failed"),
        (ErrorCode::HostkeyMismatch, "hostkey_mismatch"),
        (ErrorCode::IoError, "io_error"),
        (ErrorCode::RemoteClosed, "remote_closed"),
        (ErrorCode::ExecTimeout, "exec_timeout"),
        (ErrorCode::Unsupported, "unsupported"),
    ];
    for (code, expected) in cases {
        assert_eq!(code.as_str(), expected);
    }
    let timeout = ptyctl::errors::connect_failure_error(true, "late".to_string());
    assert_eq!(timeout.error_code, ErrorCode::ConnectTimeout);
    let failed = ptyctl::errors::connect_failure_error(false, "down".to_string());
    assert_eq!(failed.error_code, ErrorCode::ConnectFailed);
    assert_eq!(failed.message, "down");
}
