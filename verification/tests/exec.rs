use ptyctl::errors::ErrorCode;
use ptyctl::exec::{
    build_exec_command, exec_done_reason, extract_error_hints, extract_exit_code, ExecDoneReason,
};
use ptyctl::pattern::Pattern;

#[test]
fn extract_exit_code_from_marker() {
    let output = "ok\n\x1eRC=3\x1f\n";
    let (cleaned, rc, reason) = extract_exit_code(output, "\u{001e}RC=", "\u{001f}", None);
    assert!(cleaned.contains("ok"));
    assert_eq!(rc, Some(3));
    assert!(reason.is_none());
}

#[test]
fn extract_exit_code_from_fallback_marker() {
    let output = "ok\nPTYCTL_RC_abc=7:END_abc\n";
    let fallback = ("PTYCTL_RC_abc=".to_string(), ":END_abc".to_string());
    let (cleaned, rc, reason) =
        extract_exit_code(output, "\u{001e}RC=", "\u{001f}", Some(&fallback));
    assert!(cleaned.contains("ok"));
    assert_eq!(rc, Some(7));
    assert!(reason.is_none());
}

#[test]
fn extract_exit_code_strips_every_marker_occurrence() {
    let output = "a\u{001e}RC=0\u{001f}b\u{001e}RC=1\u{001f}c";
    let (cleaned, rc, reason) = extract_exit_code(output, "\u{001e}RC=", "\u{001f}", None);
    assert_eq!(cleaned, "abc");
    assert_eq!(rc, Some(0));
    assert!(reason.is_none());
}

#[test]
fn extract_exit_code_without_marker_reports_reason() {
    let (cleaned, rc, reason) = extract_exit_code("plain text", "\u{001e}RC=", "\u{001f}", None);
    assert_eq!(cleaned, "plain text");
    assert_eq!(rc, None);
    assert_eq!(reason.as_deref(), Some("marker_not_seen"));
}

#[test]
fn extract_exit_code_overflow_parses_as_missing() {
    let output = "\u{001e}RC=99999999999\u{001f}";
    let (_, rc, reason) = extract_exit_code(output, "\u{001e}RC=", "\u{001f}", None);
    assert_eq!(rc, None);
    assert_eq!(reason.as_deref(), Some("marker_not_seen"));
}

#[test]
fn build_exec_command_wraps_with_markers() {
    let command = build_exec_command("echo hi", true, "\u{001e}RC=", "\u{001f}", None);
    assert_eq!(
        command,
        "echo hi; rc=$?; printf \"\\n\u{001e}RC=%d\u{001f}\\n\" \"$rc\"\n"
    );
    let plain = build_exec_command("echo hi", false, "\u{001e}RC=", "\u{001f}", None);
    assert_eq!(plain, "echo hi\n");
    let fallback = ("PTYCTL_RC_t=".to_string(), ":END_t".to_string());
    let with_fallback =
        build_exec_command("true", true, "\u{001e}RC=", "\u{001f}", Some(&fallback));
    assert!(with_fallback.contains("PTYCTL_RC_t=%d:END_t"));
    assert!(with_fallback.ends_with('\n'));
}

#[test]
fn exec_done_reason_follows_priority() {
    assert_eq!(
        exec_done_reason(true, true, true, true, true),
        Some(ExecDoneReason::MarkerSeen)
    );
    assert_eq!(
        exec_done_reason(true, false, false, false, false),
        Some(ExecDoneReason::PromptSeen)
    );
    assert_eq!(
        exec_done_reason(false, true, true, true, true),
        Some(ExecDoneReason::IdleReached)
    );
    assert_eq!(
        exec_done_reason(false, false, true, true, true),
        Some(ExecDoneReason::Timeout)
    );
    assert_eq!(exec_done_reason(false, false, false, true, true), Some(ExecDoneReason::Eof));
    assert_eq!(exec_done_reason(false, false, false, false, true), None);
    assert_eq!(ExecDoneReason::MarkerSeen.as_str(), "marker_seen");
    assert_eq!(ExecDoneReason::Timeout.as_str(), "timeout");
}

#[test]
fn error_hints_report_matching_patterns() {
    let patterns = vec![
        Pattern::new("% ?[Ee]rror").expect("regex"),
        Pattern::new("unreachable").expect("regex"),
    ];
    let hints = extract_error_hints("line one\n% Error: bad command\n", &patterns);
    assert_eq!(hints, vec!["% ?[Ee]rror".to_string()]);
    let none = extract_error_hints("all fine", &patterns);
    assert!(none.is_empty());
}

#[test]
fn invalid_regex_is_refused() {
    let err = Pattern::new("[unclosed").expect_err("invalid");
    assert_eq!(err.error_code, ErrorCode::InvalidArgument);
    assert_eq!(err.message, "Invalid regex");
}

#[test]
fn marker_regex_escapes_metacharacters() {
    let pattern = ptyctl::exec::build_marker_regex("a+b", ".", None).expect("pattern");
    let mut buffer = ptyctl::buffer::OutputBuffer::new(256, 32);
    buffer.append(b"zaab7x then a+b7. end");
    let slice = buffer.slice_from(0, 256);
    match ptyctl::read::read_step(slice, 0, false, false, false, &Some(pattern), true, &None) {
        ptyctl::read::ReadStep::Done(result) => {
            assert!(result.matched);
            // The prefix and suffix match literally, not as regex operators,
            // so the cut lands after "a+b7." and not at "aab7x".
            assert_eq!(result.slice.bytes, b"zaab7x then a+b7.");
        }
        ptyctl::read::ReadStep::Wait { .. } => panic!("data was available"),
    }
}
