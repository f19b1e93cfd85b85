//! Plain data types of the session API: requests, responses, options, and
//! the session lifecycle states.

use vstd::prelude::*;

use crate::keys::{Protocol, SessionKey};

verus! {

/// Whether a session is an ordinary one or a console session tied to a
/// device, where only one session may exist per device.
#[derive(Debug, Clone, Copy, PartialEq, Eq, Structural)]
pub enum SessionType {
    Normal,
    Console,
}

impl Default for SessionType {
    /// Sessions are ordinary unless a caller asks for a console session.
    fn default() -> (r: Self)
        ensures
            r == SessionType::Normal,
    {
        SessionType::Normal
    }
}

/// Payload encodings at the API boundary.
#[derive(Debug, Clone, Copy, PartialEq, Eq, Structural)]
pub enum Encoding {
    Utf8,
    Base64,
}

impl Default for Encoding {
    /// UTF-8 unless the caller asks for base64.
    fn default() -> (r: Self)
        ensures
            r == Encoding::Utf8,
    {
        Encoding::Utf8
    }
}

/// Terminal allocation options.
#[derive(Debug, Clone)]
pub struct PtyOptions {
    pub enabled: bool,
    pub cols: u16,
    pub rows: u16,
    pub term: String,
}

impl Default for PtyOptions {
    /// PTY enabled, 120 columns by 40 rows, xterm-256color.
    fn default() -> (r: Self)
        ensures
            r.enabled == true,
            r.cols == 120,
            r.rows == 40,
            r.term@ == "xterm-256color"@,
    {
        PtyOptions { enabled: true, cols: 120, rows: 40, term: "xterm-256color".to_owned() }
    }
}

/// Optional per-request timeouts.
#[derive(Debug, Clone)]
pub struct Timeouts {
    pub connect_timeout_ms: Option<u64>,
    pub idle_timeout_ms: Option<u64>,
}

impl Default for Timeouts {
    fn default() -> (r: Self)
        ensures
            r.connect_timeout_ms is None,
            r.idle_timeout_ms is None,
    {
        Timeouts { connect_timeout_ms: None, idle_timeout_ms: None }
    }
}

/// Patterns the session watches for: the shell prompt, pager prompts, and
/// error patterns to surface.  All are unanchored.
#[derive(Debug, Clone)]
pub struct ExpectConfig {
    pub prompt_regex: Option<String>,
    pub pager_regexes: Option<Vec<String>>,
    pub error_regexes: Option<Vec<String>>,
}

impl Default for ExpectConfig {
    fn default() -> (r: Self)
        ensures
            r.prompt_regex is None,
            r.pager_regexes is None,
            r.error_regexes is None,
    {
        ExpectConfig { prompt_regex: None, pager_regexes: None, error_regexes: None }
    }
}

/// SSH authentication material.
#[derive(Debug, Clone)]
pub struct SshAuth {
    pub method: Option<String>,
    pub password: Option<String>,
    pub private_key_pem: Option<String>,
    pub passphrase: Option<String>,
}

/// Per-request SSH behaviour overrides.
#[derive(Debug, Clone)]
pub struct SshOptions {
    pub host_key_policy: Option<String>,
    pub known_hosts_path: Option<String>,
    pub host_key_fingerprint: Option<String>,
    pub use_openssh_config: Option<bool>,
    pub config_path: Option<String>,
    pub extra_args: Option<Vec<String>>,
}

impl Default for SshOptions {
    fn default() -> (r: Self)
        ensures
            r.host_key_policy is None,
            r.known_hosts_path is None,
            r.host_key_fingerprint is None,
            r.use_openssh_config is None,
            r.config_path is None,
            r.extra_args is None,
    {
        SshOptions {
            host_key_policy: None,
            known_hosts_path: None,
            host_key_fingerprint: None,
            use_openssh_config: None,
            config_path: None,
            extra_args: None,
        }
    }
}

/// Everything needed to open a session.
#[derive(Debug, Clone)]
pub struct SessionOpenRequest {
    pub protocol: Protocol,
    pub host: String,
    pub port: Option<u16>,
    pub username: Option<String>,
    pub auth: Option<SshAuth>,
    pub pty: Option<PtyOptions>,
    pub timeouts: Option<Timeouts>,
    pub ssh_options: Option<SshOptions>,
    pub expect: Option<ExpectConfig>,
    pub session_type: Option<SessionType>,
    pub device_id: Option<String>,
    pub acquire_lock: Option<bool>,
    pub lock_ttl_ms: Option<u64>,
    pub task_id: Option<String>,
}

/// What an open returns.
#[derive(Debug, Clone)]
pub struct SessionOpenResponse {
    pub session_id: String,
    pub protocol: Protocol,
    pub pty_enabled: bool,
    pub server_banner: Option<String>,
    pub security_warning: Option<String>,
    pub lock_acquired: Option<bool>,
    pub existing_session_id: Option<String>,
}

#[derive(Debug, Clone)]
pub struct SessionWriteRequest {
    pub session_id: String,
    pub data: String,
    pub encoding: Option<Encoding>,
    pub sensitive: Option<bool>,
}

#[derive(Debug, Clone)]
pub struct SessionWriteResponse {
    pub bytes_written: usize,
}

#[derive(Debug, Clone)]
pub struct SessionSendRequest {
    pub session_id: String,
    pub key: SessionKey,
}

#[derive(Debug, Clone)]
pub struct SessionSendResponse {
    pub bytes_written: usize,
}

/// Regexes that, when they match returned text, mark it as waiting for input.
#[derive(Debug, Clone)]
pub struct InputHints {
    pub wait_for_regexes: Option<Vec<String>>,
}

/// A cursor read: where to start, how long to wait, and what ends the wait.
#[derive(Debug, Clone)]
pub struct SessionReadRequest {
    pub session_id: String,
    pub cursor: Option<String>,
    pub timeout_ms: Option<u64>,
    pub max_bytes: Option<usize>,
    pub until_regex: Option<String>,
    pub include_match: Option<bool>,
    pub until_idle_ms: Option<u64>,
    pub encoding: Option<Encoding>,
    pub input_hints: Option<InputHints>,
}

#[derive(Debug, Clone)]
pub struct SessionReadResponse {
    pub chunk: String,
    pub encoding: Encoding,
    pub next_cursor: String,
    pub buffer_start_cursor: String,
    pub buffer_end_cursor: String,
    pub matched: bool,
    pub idle_reached: bool,
    pub timed_out: bool,
    pub eof: bool,
    pub waiting_for_input: Option<bool>,
    pub truncated: bool,
    pub dropped_bytes: u64,
    pub buffered_bytes: usize,
    pub buffer_limit_bytes: usize,
}

#[derive(Debug, Clone)]
pub struct SessionResizeRequest {
    pub session_id: String,
    pub cols: u16,
    pub rows: u16,
}

#[derive(Debug, Clone)]
pub struct SessionResizeResponse {
    pub ok: bool,
}

#[derive(Debug, Clone)]
pub struct SessionCloseRequest {
    pub session_id: String,
    pub force: Option<bool>,
}

#[derive(Debug, Clone)]
pub struct SessionCloseResponse {
    pub ok: bool,
}

/// One row of `list_sessions`.
#[derive(Debug, Clone)]
pub struct SessionListEntry {
    pub session_id: String,
    pub protocol: Protocol,
    pub host: String,
    pub port: u16,
    pub created_at: u64,
    pub last_activity_at: u64,
    pub bytes_in: u64,
    pub bytes_out: u64,
    pub state: SessionState,
    pub session_type: SessionType,
    pub device_id: Option<String>,
}

#[derive(Debug, Clone)]
pub struct SessionListResponse {
    pub sessions: Vec<SessionListEntry>,
}

#[derive(Debug, Clone)]
pub struct SessionExpectRequest {
    pub session_id: String,
    pub expect: ExpectConfig,
}

#[derive(Debug, Clone)]
pub struct SessionExpectResponse {
    pub ok: bool,
}

#[derive(Debug, Clone)]
pub struct SessionTailRequest {
    pub session_id: String,
    pub max_bytes: Option<usize>,
    pub max_lines: Option<usize>,
    pub encoding: Option<Encoding>,
}

#[derive(Debug, Clone)]
pub struct SessionTailResponse {
    pub tail: String,
    pub encoding: Encoding,
    pub tail_start_cursor: String,
    pub next_cursor: String,
    pub buffer_start_cursor: String,
    pub buffer_end_cursor: String,
    pub truncated: bool,
    pub buffered_bytes: usize,
    pub buffer_limit_bytes: usize,
}

/// Exit-code capture configuration for exec.
#[derive(Debug, Clone)]
pub struct RcMode {
    pub enabled: Option<bool>,
    pub marker_prefix: Option<String>,
    pub marker_suffix: Option<String>,
}

#[derive(Debug, Clone)]
pub struct SessionExecRequest {
    pub session_id: String,
    pub cmd: String,
    pub timeout_ms: Option<u64>,
    pub until_idle_ms: Option<u64>,
    pub rc_mode: Option<RcMode>,
    pub expect: Option<ExpectConfig>,
    pub task_id: Option<String>,
}

#[derive(Debug, Clone)]
pub struct SessionExecResponse {
    pub stdout: String,
    pub stderr: String,
    pub exit_code: Option<i32>,
    pub exit_code_reason: Option<String>,
    pub done_reason: String,
    pub prompt_detected: Option<bool>,
    pub error_hints: Option<Vec<String>>,
    pub timed_out: bool,
    pub duration_ms: u64,
}

/// Actions of the session lifecycle tool.
#[derive(Debug, Clone, Copy, PartialEq, Eq, Structural)]
pub enum SessionAction {
    Open,
    Close,
    List,
    Lock,
    Unlock,
    Heartbeat,
    Status,
}

/// Actions of the session I/O tool.
#[derive(Debug, Clone, Copy, PartialEq, Eq, Structural)]
pub enum IoAction {
    Write,
    Read,
}

/// Which read primitive a read request selects.
#[derive(Debug, Clone, Copy, PartialEq, Eq, Structural)]
pub enum ReadMode {
    Cursor,
    Tail,
}

/// Actions of the session configuration tool.
#[derive(Debug, Clone, Copy, PartialEq, Eq, Structural)]
pub enum ConfigAction {
    Resize,
    Expect,
    Get,
}

/// What this service can and cannot do, reported with every session list.
#[derive(Debug, Clone)]
pub struct Capabilities {
    pub supports_split_stdout_stderr: bool,
    pub supports_exit_code: bool,
    pub supports_resize: bool,
}

/// A PTY multiplexes both output streams, so stdout and stderr cannot be
/// split; exit codes are recovered through the marker protocol; resize is
/// supported on both backends.
pub fn session_capabilities() -> (r: Capabilities)
    ensures
        r.supports_split_stdout_stderr == false,
        r.supports_exit_code == true,
        r.supports_resize == true,
{
    Capabilities {
        supports_split_stdout_stderr: false,
        supports_exit_code: true,
        supports_resize: true,
    }
}

/// The combined request of the session lifecycle tool.
#[derive(Debug, Clone)]
pub struct SessionRequest {
    pub action: SessionAction,
    pub protocol: Option<Protocol>,
    pub host: Option<String>,
    pub port: Option<u16>,
    pub username: Option<String>,
    pub auth: Option<SshAuth>,
    pub pty: Option<PtyOptions>,
    pub timeouts: Option<Timeouts>,
    pub ssh_options: Option<SshOptions>,
    pub expect: Option<ExpectConfig>,
    pub session_type: Option<SessionType>,
    pub device_id: Option<String>,
    pub acquire_lock: Option<bool>,
    pub lock_ttl_ms: Option<u64>,
    pub session_id: Option<String>,
    pub force: Option<bool>,
    pub task_id: Option<String>,
}

/// The combined response of the session lifecycle tool.
#[derive(Debug, Clone)]
pub struct SessionResponse {
    pub action: SessionAction,
    pub success: bool,
    pub session_id: Option<String>,
    pub protocol: Option<Protocol>,
    pub pty_enabled: Option<bool>,
    pub security_warning: Option<String>,
    pub lock_acquired: Option<bool>,
    pub existing_session_id: Option<String>,
    pub sessions: Option<Vec<SessionListEntry>>,
    pub capabilities: Option<Capabilities>,
    pub lock_holder: Option<String>,
    pub lock_expires_at: Option<u64>,
    pub message: Option<String>,
}

/// The combined request of the session I/O tool.
#[derive(Debug, Clone)]
pub struct SessionIoRequest {
    pub session_id: String,
    pub action: IoAction,
    pub data: Option<String>,
    pub key: Option<SessionKey>,
    pub encoding: Option<Encoding>,
    pub sensitive: Option<bool>,
    pub mode: Option<ReadMode>,
    pub cursor: Option<String>,
    pub timeout_ms: Option<u64>,
    pub max_bytes: Option<usize>,
    pub max_lines: Option<usize>,
    pub until_regex: Option<String>,
    pub include_match: Option<bool>,
    pub until_idle_ms: Option<u64>,
    pub input_hints: Option<InputHints>,
    pub task_id: Option<String>,
}

/// The combined response of the session I/O tool.
#[derive(Debug, Clone)]
pub struct SessionIoResponse {
    pub action: IoAction,
    pub bytes_written: Option<usize>,
    pub chunk: Option<String>,
    pub encoding: Option<Encoding>,
    pub next_cursor: Option<String>,
    pub buffer_start_cursor: Option<String>,
    pub buffer_end_cursor: Option<String>,
    pub matched: Option<bool>,
    pub idle_reached: Option<bool>,
    pub timed_out: Option<bool>,
    pub eof: Option<bool>,
    pub waiting_for_input: Option<bool>,
    pub truncated: Option<bool>,
    pub dropped_bytes: Option<u64>,
    pub buffered_bytes: Option<usize>,
    pub buffer_limit_bytes: Option<usize>,
}

/// The combined request of the session configuration tool.
#[derive(Debug, Clone)]
pub struct SessionConfigRequest {
    pub session_id: String,
    pub action: ConfigAction,
    pub cols: Option<u16>,
    pub rows: Option<u16>,
    pub expect: Option<ExpectConfig>,
}

/// The combined response of the session configuration tool.
#[derive(Debug, Clone)]
pub struct SessionConfigResponse {
    pub success: bool,
    pub cols: Option<u16>,
    pub rows: Option<u16>,
    pub expect: Option<ExpectConfig>,
}

/// View-level equality of two expect configurations.
pub open spec fn expect_view_eq(a: ExpectConfig, b: ExpectConfig) -> bool {
    &&& (a.prompt_regex is Some <==> b.prompt_regex is Some)
    &&& (a.prompt_regex is Some ==> a.prompt_regex.unwrap()@ == b.prompt_regex.unwrap()@)
    &&& (a.pager_regexes is Some <==> b.pager_regexes is Some)
    &&& (a.pager_regexes is Some ==> a.pager_regexes.unwrap().deep_view()
        == b.pager_regexes.unwrap().deep_view())
    &&& (a.error_regexes is Some <==> b.error_regexes is Some)
    &&& (a.error_regexes is Some ==> a.error_regexes.unwrap().deep_view()
        == b.error_regexes.unwrap().deep_view())
}

/// A string-vector copy with an equal view.
fn copy_string_vec(v: &Vec<String>) -> (r: Vec<String>)
    ensures
        r.deep_view() == v.deep_view(),
{
    let mut out: Vec<String> = Vec::new();
    let mut i: usize = 0;
    while i < v.len()
        invariant
            i <= v@.len(),
            out@.len() == i,
            forall|j: int| 0 <= j < i ==> (#[trigger] out@[j]@) == v@[j]@,
        decreases v@.len() - i,
    {
        out.push(v[i].clone());
        i = i + 1;
    }
    proof {
        assert(out.deep_view() =~~= v.deep_view());
    }
    out
}

/// A field-by-field copy of an expect configuration with equal views.
pub fn copy_expect_config(e: &ExpectConfig) -> (r: ExpectConfig)
    ensures
        expect_view_eq(*e, r),
{
    ExpectConfig {
        prompt_regex: match &e.prompt_regex {
            Some(p) => Some(p.clone()),
            None => None,
        },
        pager_regexes: match &e.pager_regexes {
            Some(ps) => Some(copy_string_vec(ps)),
            None => None,
        },
        error_regexes: match &e.error_regexes {
            Some(ps) => Some(copy_string_vec(ps)),
            None => None,
        },
    }
}

/// Lifecycle state of a session.  Transitions are monotone:
/// open → closing → closed; error is terminal.
#[derive(Debug, Clone, Copy, PartialEq, Eq, Structural)]
pub enum SessionState {
    Open,
    Closing,
    Closed,
    Error,
}

} // verus!
