use ptyctl::buffer::OutputBuffer;
use ptyctl::config::{
    parse_control_mode, parse_transport, Config, ControlMode, ServeArgs, SessionConfig, SshConfig,
    TelnetConfig, Transport,
};
use ptyctl::errors::ErrorCode;
use ptyctl::facade::{
    finish_close_session, finish_open, handle_session, is_readonly_control_request, ConfigStep,
    IoStep, SessionStep, ToolCall,
};
use ptyctl::keys::Protocol;
use ptyctl::manager::{OpenPlan, SessionRegistry};
use ptyctl::read::{read_step, ReadStep};
use ptyctl::session::{
    ConfigAction, IoAction, SessionAction, SessionConfigRequest, SessionIoRequest,
    SessionOpenRequest, SessionRequest, SessionType,
};
use ptyctl::ssh::{build_ssh_args, SshArgsConfig};
use ptyctl::telnet::TelnetLineEnding;

fn registry() -> SessionRegistry {
    SessionRegistry::new(SessionConfig::default(), SshConfig::default(), TelnetLineEnding::Cr)
}

fn open_request(protocol: Protocol) -> SessionOpenRequest {
    SessionOpenRequest {
        protocol,
        host: "example.com".to_string(),
        port: None,
        username: None,
        auth: None,
        pty: None,
        timeouts: None,
        ssh_options: None,
        expect: None,
        session_type: None,
        device_id: None,
        acquire_lock: None,
        lock_ttl_ms: None,
        task_id: None,
    }
}

fn blank_session_request(action: SessionAction) -> SessionRequest {
    SessionRequest {
        action,
        protocol: None,
        host: None,
        port: None,
        username: None,
        auth: None,
        pty: None,
        timeouts: None,
        ssh_options: None,
        expect: None,
        session_type: None,
        device_id: None,
        acquire_lock: None,
        lock_ttl_ms: None,
        session_id: None,
        force: None,
        task_id: None,
    }
}

#[test]
fn open_resolves_defaults_and_registers() {
    let mut reg = registry();
    let plan = match reg.plan_open(&open_request(Protocol::Telnet)).expect("plan") {
        OpenPlan::Connect(plan) => plan,
        OpenPlan::Existing(_) => panic!("no session exists yet"),
    };
    assert_eq!(plan.port, 23);
    assert_eq!(plan.connect_timeout_ms, 15000);
    assert!(plan.pty.enabled);
    assert_eq!(plan.pty.cols, 120);
    assert_eq!(plan.pty.rows, 40);
    let response = reg.register_session("sid-1".to_string(), plan, 1000);
    assert_eq!(response.session_id, "sid-1");
    assert!(response.security_warning.is_some());
    assert!(response.existing_session_id.is_none());
    let list = reg.list_sessions();
    assert_eq!(list.sessions.len(), 1);
    assert_eq!(list.sessions[0].session_id, "sid-1");
    assert_eq!(list.sessions[0].port, 23);
}

#[test]
fn console_sessions_are_unique_per_device() {
    let mut reg = registry();
    let mut request = open_request(Protocol::Ssh);
    request.session_type = Some(SessionType::Console);
    request.device_id = Some("device-1".to_string());
    let plan = match reg.plan_open(&request).expect("plan") {
        OpenPlan::Connect(plan) => plan,
        OpenPlan::Existing(_) => panic!("no session exists yet"),
    };
    reg.register_session("sid-1".to_string(), plan, 0);
    match reg.plan_open(&request).expect("second plan") {
        OpenPlan::Existing(resp) => {
            assert_eq!(resp.existing_session_id.as_deref(), Some("sid-1"));
            assert!(resp.security_warning.is_none());
        }
        OpenPlan::Connect(_) => panic!("console device must reuse the session"),
    }
    let mut no_device = open_request(Protocol::Ssh);
    no_device.session_type = Some(SessionType::Console);
    let err = reg.plan_open(&no_device).expect_err("device required");
    assert_eq!(err.error_code, ErrorCode::InvalidArgument);
    assert_eq!(err.message, "device_id is required for console sessions");
}

#[test]
fn capacity_limit_is_enforced() {
    let mut config = SessionConfig::default();
    config.max_sessions = 1;
    let mut reg =
        SessionRegistry::new(config, SshConfig::default(), TelnetLineEnding::Cr);
    let plan = match reg.plan_open(&open_request(Protocol::Ssh)).expect("plan") {
        OpenPlan::Connect(plan) => plan,
        OpenPlan::Existing(_) => panic!("no session exists yet"),
    };
    reg.register_session("sid-1".to_string(), plan, 0);
    let err = reg.plan_open(&open_request(Protocol::Ssh)).expect_err("full");
    assert_eq!(err.error_code, ErrorCode::InvalidArgument);
    assert_eq!(err.message, "Too many sessions");
}

#[test]
fn close_evicts_session_and_console_mapping() {
    let mut reg = registry();
    let mut request = open_request(Protocol::Ssh);
    request.session_type = Some(SessionType::Console);
    request.device_id = Some("device-1".to_string());
    let plan = match reg.plan_open(&request).expect("plan") {
        OpenPlan::Connect(plan) => plan,
        OpenPlan::Existing(_) => panic!("no session exists yet"),
    };
    reg.register_session("sid-1".to_string(), plan, 0);
    assert!(reg.begin_close("sid-1").expect("begin"));
    let response = finish_close_session(&mut reg, "sid-1".to_string());
    assert!(response.success);
    assert!(reg.get_session("sid-1").is_err());
    match reg.plan_open(&request).expect("device free again") {
        OpenPlan::Connect(_) => {}
        OpenPlan::Existing(_) => panic!("mapping should be gone"),
    }
    let err = reg.begin_close("missing").expect_err("unknown session");
    assert_eq!(err.error_code, ErrorCode::NotFound);
    assert_eq!(err.message, "Session not found");
}

#[test]
fn idle_sessions_are_selected_by_timeout() {
    let mut reg = registry();
    let mut request = open_request(Protocol::Ssh);
    request.timeouts = Some(ptyctl::session::Timeouts {
        connect_timeout_ms: None,
        idle_timeout_ms: Some(100),
    });
    let plan = match reg.plan_open(&request).expect("plan") {
        OpenPlan::Connect(plan) => plan,
        OpenPlan::Existing(_) => panic!("no session exists yet"),
    };
    reg.register_session("sid-1".to_string(), plan, 0);
    assert!(reg.idle_session_ids(100).is_empty());
    assert_eq!(reg.idle_session_ids(101), vec!["sid-1".to_string()]);
}

#[test]
fn handle_session_routes_lock_cycle() {
    let mut reg = registry();
    let step = handle_session(&mut reg, blank_session_request(SessionAction::List), 0)
        .expect("list");
    match step {
        SessionStep::Done(resp) => {
            assert!(resp.success);
            assert_eq!(resp.sessions.expect("sessions").len(), 0);
            let caps = resp.capabilities.expect("capabilities");
            assert!(caps.supports_exit_code);
            assert!(caps.supports_resize);
            assert!(!caps.supports_split_stdout_stderr);
        }
        _ => panic!("list completes in place"),
    }

    let mut open = blank_session_request(SessionAction::Open);
    open.protocol = Some(Protocol::Ssh);
    open.host = Some("example.com".to_string());
    let step = handle_session(&mut reg, open, 0).expect("open");
    let (plan, acquire_lock, ttl, task) = match step {
        SessionStep::NeedOpen { plan, acquire_lock, lock_ttl_ms, task_id } => {
            (plan, acquire_lock, lock_ttl_ms, task_id)
        }
        _ => panic!("open needs a backend"),
    };
    assert!(!acquire_lock);
    assert_eq!(ttl, 60000);
    let response =
        finish_open(&mut reg, "sid-9".to_string(), plan, acquire_lock, ttl, task, 5).expect("open");
    assert_eq!(response.session_id.as_deref(), Some("sid-9"));

    let mut lock_req = blank_session_request(SessionAction::Lock);
    lock_req.session_id = Some("sid-9".to_string());
    lock_req.task_id = Some("task-A".to_string());
    lock_req.lock_ttl_ms = Some(500);
    match handle_session(&mut reg, lock_req, 10).expect("lock") {
        SessionStep::Done(resp) => {
            assert_eq!(resp.lock_holder.as_deref(), Some("task-A"));
            assert_eq!(resp.lock_expires_at, Some(510));
        }
        _ => panic!("lock completes in place"),
    }

    let mut status_req = blank_session_request(SessionAction::Status);
    status_req.session_id = Some("sid-9".to_string());
    match handle_session(&mut reg, status_req, 100).expect("status") {
        SessionStep::Done(resp) => {
            assert_eq!(resp.lock_holder.as_deref(), Some("task-A"));
        }
        _ => panic!("status completes in place"),
    }

    let mut unlock_req = blank_session_request(SessionAction::Unlock);
    unlock_req.session_id = Some("sid-9".to_string());
    unlock_req.task_id = Some("task-B".to_string());
    let err = handle_session(&mut reg, unlock_req, 100).expect_err("wrong holder");
    assert_eq!(err.error_code, ErrorCode::InvalidArgument);
    assert_eq!(err.message, "Session locked by task task-A");

    let missing = handle_session(&mut reg, blank_session_request(SessionAction::Lock), 0)
        .expect_err("ids required");
    assert_eq!(missing.error_code, ErrorCode::InvalidArgument);
}

#[test]
fn write_requires_exclusive_access_and_normalizes() {
    let mut reg = registry();
    let plan = match reg.plan_open(&open_request(Protocol::Telnet)).expect("plan") {
        OpenPlan::Connect(plan) => plan,
        OpenPlan::Existing(_) => panic!("no session exists yet"),
    };
    reg.register_session("sid-1".to_string(), plan, 0);
    let index = reg.get_session("sid-1").expect("index");
    reg.session_mut(index).lock.lock("task-A", 1000, 0).expect("lock");

    let mut write = SessionIoRequest {
        session_id: "sid-1".to_string(),
        action: IoAction::Write,
        data: Some("show\n".to_string()),
        key: None,
        encoding: None,
        sensitive: None,
        mode: None,
        cursor: None,
        timeout_ms: None,
        max_bytes: None,
        max_lines: None,
        until_regex: None,
        include_match: None,
        until_idle_ms: None,
        input_hints: None,
        task_id: Some("task-A".to_string()),
    };
    match ptyctl::facade::handle_session_io(&mut reg, write.clone(), TelnetLineEnding::Cr, 2000, 5)
        .expect("write")
    {
        IoStep::NeedWrite { bytes, sensitive, .. } => {
            assert_eq!(bytes, b"show\r");
            assert!(!sensitive);
        }
        _ => panic!("write hands back bytes"),
    }
    write.task_id = Some("task-B".to_string());
    let err = ptyctl::facade::handle_session_io(&mut reg, write, TelnetLineEnding::Cr, 2000, 5)
        .expect_err("locked by another task");
    assert_eq!(err.error_code, ErrorCode::InvalidArgument);
}

#[test]
fn resize_and_expect_round_through_config() {
    let mut reg = registry();
    let plan = match reg.plan_open(&open_request(Protocol::Ssh)).expect("plan") {
        OpenPlan::Connect(plan) => plan,
        OpenPlan::Existing(_) => panic!("no session exists yet"),
    };
    reg.register_session("sid-1".to_string(), plan, 0);
    let req = SessionConfigRequest {
        session_id: "sid-1".to_string(),
        action: ConfigAction::Resize,
        cols: Some(200),
        rows: Some(60),
        expect: None,
    };
    let (index, cols, rows) = match ptyctl::facade::handle_session_config(&mut reg, req)
        .expect("resize")
    {
        ConfigStep::NeedResize { index, cols, rows } => (index, cols, rows),
        _ => panic!("resize needs the backend"),
    };
    ptyctl::facade::finish_resize(&mut reg, index, cols, rows);
    let get = SessionConfigRequest {
        session_id: "sid-1".to_string(),
        action: ConfigAction::Get,
        cols: None,
        rows: None,
        expect: None,
    };
    match ptyctl::facade::handle_session_config(&mut reg, get).expect("get") {
        ConfigStep::Done(resp) => {
            assert_eq!(resp.cols, Some(200));
            assert_eq!(resp.rows, Some(60));
            assert!(resp.expect.is_some());
        }
        _ => panic!("get completes in place"),
    }
}

#[test]
fn read_step_times_out_without_data() {
    let buffer = OutputBuffer::new(1024, 100);
    let slice = buffer.slice_from(0, 1024);
    match read_step(slice, 0, false, false, true, &None, true, &None) {
        ReadStep::Done(result) => {
            assert!(result.timed_out);
            assert!(!result.matched);
            assert!(!result.eof);
            assert!(!result.idle_reached);
            assert!(result.slice.bytes.is_empty());
            assert_eq!(result.next_cursor, 0);
        }
        ReadStep::Wait { .. } => panic!("the deadline elapsed"),
    }
}

#[test]
fn read_step_cuts_at_terminator() {
    let mut buffer = OutputBuffer::new(1024, 100);
    buffer.append(b"login: admin\r\nrouter> ");
    let slice = buffer.slice_from(0, 1024);
    let pattern = ptyctl::pattern::Pattern::new("> $").expect("regex");
    match read_step(slice, 0, false, false, false, &Some(pattern), true, &None) {
        ReadStep::Done(result) => {
            assert!(result.matched);
            assert_eq!(result.slice.bytes, b"login: admin\r\nrouter> ");
            assert_eq!(result.next_cursor, 22);
        }
        ReadStep::Wait { .. } => panic!("data was available"),
    }
}

#[test]
fn read_step_waits_when_nothing_happened() {
    let buffer = OutputBuffer::new(1024, 100);
    let slice = buffer.slice_from(0, 1024);
    match read_step(slice, 0, false, false, false, &None, true, &None) {
        ReadStep::Wait { cursor } => assert_eq!(cursor, 0),
        ReadStep::Done(_) => panic!("nothing ended the read"),
    }
}

#[test]
fn build_ssh_args_basic() {
    let ssh_config = SshConfig::default();
    let args = build_ssh_args(&SshArgsConfig {
        host: "example.com".to_string(),
        port: 22,
        username: Some("root".to_string()),
        auth: None,
        options: None,
        ssh_config,
        key_path: None,
        connect_timeout_ms: 15000,
        pty_enabled: true,
    })
    .expect("args");
    assert!(args.contains(&"example.com".to_string()));
    assert!(args.contains(&"-p".to_string()));
    assert!(args.contains(&"22".to_string()));
}

#[test]
fn ssh_args_follow_the_documented_order() {
    let ssh_config = SshConfig::default();
    let args = build_ssh_args(&SshArgsConfig {
        host: "host1".to_string(),
        port: 2022,
        username: None,
        auth: None,
        options: None,
        ssh_config,
        key_path: Some("/tmp/key".to_string()),
        connect_timeout_ms: 1500,
        pty_enabled: false,
    })
    .expect("args");
    assert_eq!(
        args,
        vec![
            "-p".to_string(),
            "2022".to_string(),
            "-o".to_string(),
            "StrictHostKeyChecking=yes".to_string(),
            "-o".to_string(),
            "ConnectTimeout=2".to_string(),
            "-i".to_string(),
            "/tmp/key".to_string(),
            "-T".to_string(),
            "host1".to_string(),
        ]
    );
}

#[test]
fn transport_and_control_mode_parse_case_insensitively() {
    assert_eq!(parse_transport("stdio"), Some(Transport::Stdio));
    assert_eq!(parse_transport("HTTP"), Some(Transport::Http));
    assert_eq!(parse_transport("Both"), Some(Transport::Both));
    assert_eq!(parse_transport("tcp"), None);
    assert_eq!(parse_control_mode("DISABLED"), Some(ControlMode::Disabled));
    assert_eq!(parse_control_mode("readonly"), Some(ControlMode::Readonly));
    assert_eq!(parse_control_mode("ReadWrite"), Some(ControlMode::Readwrite));
    assert_eq!(parse_control_mode("open"), None);
}

#[test]
fn cli_flags_layer_over_config() {
    let mut config = Config::default();
    config.apply_cli(&ServeArgs {
        config: None,
        transport: Some(Transport::Http),
        http_listen: Some("0.0.0.0:9000".to_string()),
        auth_token: None,
        control_socket: None,
        control_mode: Some(ControlMode::Disabled),
        log_level: Some("debug".to_string()),
    });
    assert_eq!(config.server.transport, Transport::Http);
    assert_eq!(config.server.http.listen, "0.0.0.0:9000");
    assert_eq!(config.server.http.auth_token, "");
    assert_eq!(config.server.control.control_mode, ControlMode::Disabled);
    assert_eq!(config.logging.level, "debug");
    assert_eq!(config.telnet.line_ending, TelnetLineEnding::Cr);
    let _ = TelnetConfig::default();
}

#[test]
fn readonly_mode_permits_only_reads() {
    assert!(is_readonly_control_request(&ToolCall::Session(
        blank_session_request(SessionAction::List)
    )));
    assert!(is_readonly_control_request(&ToolCall::Session(
        blank_session_request(SessionAction::Status)
    )));
    assert!(!is_readonly_control_request(&ToolCall::Session(
        blank_session_request(SessionAction::Open)
    )));
    let read = SessionIoRequest {
        session_id: "s".to_string(),
        action: IoAction::Read,
        data: None,
        key: None,
        encoding: None,
        sensitive: None,
        mode: None,
        cursor: None,
        timeout_ms: None,
        max_bytes: None,
        max_lines: None,
        until_regex: None,
        include_match: None,
        until_idle_ms: None,
        input_hints: None,
        task_id: None,
    };
    assert!(is_readonly_control_request(&ToolCall::Io(read.clone())));
    let mut write = read;
    write.action = IoAction::Write;
    assert!(!is_readonly_control_request(&ToolCall::Io(write)));
}

#[test]
fn exec_plan_wraps_command_and_compiles_terminator() {
    let mut reg = registry();
    let plan = match reg.plan_open(&open_request(Protocol::Ssh)).expect("plan") {
        OpenPlan::Connect(plan) => plan,
        OpenPlan::Existing(_) => panic!("no session exists yet"),
    };
    reg.register_session("sid-1".to_string(), plan, 0);
    let request = ptyctl::session::SessionExecRequest {
        session_id: "sid-1".to_string(),
        cmd: "echo hi".to_string(),
        timeout_ms: None,
        until_idle_ms: Some(200),
        rc_mode: None,
        expect: None,
        task_id: None,
    };
    let exec_plan = ptyctl::facade::plan_exec(&mut reg, &request, 60000, "f0f0", 0).expect("plan");
    assert!(exec_plan.rc_enabled);
    assert_eq!(exec_plan.timeout_ms, 60000);
    assert_eq!(exec_plan.until_idle_ms, Some(200));
    assert_eq!(exec_plan.marker_prefix, "\u{001e}RC=");
    assert_eq!(exec_plan.marker_suffix, "\u{001f}");
    let (fb_prefix, fb_suffix) = exec_plan.fallback_marker.clone().expect("fallback pair");
    assert!(fb_prefix.starts_with("PTYCTL_RC_"));
    assert!(fb_prefix.ends_with('='));
    assert!(fb_suffix.starts_with(":END_"));
    assert!(exec_plan.command.starts_with("echo hi; rc=$?; printf"));
    assert!(exec_plan.command.contains(&fb_prefix));
    assert!(exec_plan.command.ends_with('\n'));
    assert!(exec_plan.until_regex.is_some());

    let mut locked = reg;
    let index = locked.get_session("sid-1").expect("index");
    locked.session_mut(index).lock.lock("other", 1000, 0).expect("lock");
    let denied = ptyctl::facade::plan_exec(&mut locked, &request, 60000, "f0f0", 5)
        .expect_err("write access required");
    assert_eq!(denied.error_code, ErrorCode::InvalidArgument);
}

#[test]
fn read_step_can_exclude_the_match() {
    let mut buffer = OutputBuffer::new(1024, 100);
    buffer.append(b"payload--MORE--rest");
    let slice = buffer.slice_from(0, 1024);
    let pattern = ptyctl::pattern::Pattern::new("--MORE--").expect("regex");
    match read_step(slice, 0, false, false, false, &Some(pattern), false, &None) {
        ReadStep::Done(result) => {
            assert!(result.matched);
            assert_eq!(result.slice.bytes, b"payload");
            assert_eq!(result.next_cursor, 7);
        }
        ReadStep::Wait { .. } => panic!("data was available"),
    }
}

#[test]
fn read_step_reports_input_hints() {
    let mut buffer = OutputBuffer::new(1024, 100);
    buffer.append(b"Password: ");
    let slice = buffer.slice_from(0, 1024);
    let hints = vec![ptyctl::pattern::Pattern::new("[Pp]assword:").expect("regex")];
    match read_step(slice, 0, false, false, false, &None, true, &Some(hints)) {
        ReadStep::Done(result) => {
            assert_eq!(result.waiting_for_input, Some(true));
        }
        ReadStep::Wait { .. } => panic!("data was available"),
    }
}

#[test]
fn byte_counters_follow_reads_and_writes() {
    let mut reg = registry();
    let plan = match reg.plan_open(&open_request(Protocol::Ssh)).expect("plan") {
        OpenPlan::Connect(plan) => plan,
        OpenPlan::Existing(_) => panic!("no session exists yet"),
    };
    reg.register_session("sid-1".to_string(), plan, 0);
    let index = reg.get_session("sid-1").expect("index");
    reg.record_write(index, 5, 40);
    reg.record_output(index, 7, 50);
    let list = reg.list_sessions();
    assert_eq!(list.sessions[0].bytes_out, 5);
    assert_eq!(list.sessions[0].bytes_in, 7);
    assert_eq!(list.sessions[0].last_activity_at, 50);
}
