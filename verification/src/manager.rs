//! The session registry: one entry per open session, plus the secondary
//! index that enforces console-session uniqueness per device.
//!
//! Connecting a backend is outside work; opening is therefore split in
//! two.  `plan_open` validates the request, enforces the limits and
//! resolves every default; `register_session` records the session once the
//! backend is up.  Closing is split the same way around the backend close.

use vstd::prelude::*;

use crate::config::{SessionConfig, SshConfig};
use crate::errors::{ApiError, ApiResult, ErrorCode};
use crate::keys::Protocol;
use crate::locks::SessionLock;
use crate::session::{
    ExpectConfig, PtyOptions, SessionListEntry, SessionListResponse, SessionOpenRequest,
    SessionOpenResponse, SessionState, SessionType,
};
use crate::telnet::TelnetLineEnding;
use crate::text::str_eq;

verus! {

/// The registry's record of one session.
#[derive(Debug)]
pub struct SessionMeta {
    pub id: String,
    pub protocol: Protocol,
    pub host: String,
    pub port: u16,
    pub session_type: SessionType,
    pub device_id: Option<String>,
    pub created_at: u64,
    pub last_activity: u64,
    pub bytes_in: u64,
    pub bytes_out: u64,
    pub state: SessionState,
    pub idle_timeout_ms: u64,
    pub pty_enabled: bool,
    pub pty_cols: u16,
    pub pty_rows: u16,
    pub pty_term: String,
    pub expect: ExpectConfig,
    pub lock: SessionLock,
}

/// What an accepted open request resolves to before the backend connects.
#[derive(Debug)]
pub struct ConnectPlan {
    pub protocol: Protocol,
    pub host: String,
    pub port: u16,
    pub pty: PtyOptions,
    pub connect_timeout_ms: u64,
    pub idle_timeout_ms: u64,
    pub session_type: SessionType,
    pub device_id: Option<String>,
    pub expect: ExpectConfig,
    pub buffer_max_bytes: usize,
    pub buffer_max_lines: usize,
    pub record_tx_events: bool,
}

/// The outcome of planning an open: reuse an existing console session, or
/// connect a new backend with the resolved parameters.
#[derive(Debug)]
pub enum OpenPlan {
    Existing(SessionOpenResponse),
    Connect(ConnectPlan),
}

/// The fixed advisory returned with every Telnet session.
pub fn telnet_security_warning() -> (r: String)
    ensures
        r@ == "Telnet is cleartext; credentials and data are not encrypted."@,
{
    "Telnet is cleartext; credentials and data are not encrypted.".to_owned()
}

/// The registry of sessions and the console-device index.
pub struct SessionRegistry {
    pub sessions: Vec<SessionMeta>,
    pub console_sessions: Vec<(String, String)>,
    pub session_config: SessionConfig,
    pub ssh_config: SshConfig,
    pub telnet_line_ending: TelnetLineEnding,
}

/// The index of the session with this id, if any.
pub open spec fn id_index(sessions: Seq<SessionMeta>, id: Seq<char>) -> Option<int>
    decreases sessions.len(),
{
    if sessions.len() == 0 {
        None
    } else if sessions[0].id@ == id {
        Some(0int)
    } else {
        match id_index(sessions.drop_first(), id) {
            Some(i) => Some(i + 1),
            None => None,
        }
    }
}

/// The index of a device in the console index, if any.
pub open spec fn device_index(console: Seq<(String, String)>, device: Seq<char>) -> Option<int>
    decreases console.len(),
{
    if console.len() == 0 {
        None
    } else if console[0].0@ == device {
        Some(0int)
    } else {
        match device_index(console.drop_first(), device) {
            Some(i) => Some(i + 1),
            None => None,
        }
    }
}

proof fn lemma_id_index_in_range(sessions: Seq<SessionMeta>, id: Seq<char>)
    ensures
        match id_index(sessions, id) {
            Some(i) => 0 <= i < sessions.len() && sessions[i].id@ == id,
            None => forall|j: int| 0 <= j < sessions.len() ==> (#[trigger] sessions[j].id@) != id,
        },
    decreases sessions.len(),
{
    if sessions.len() > 0 && sessions[0].id@ != id {
        let rest = sessions.drop_first();
        lemma_id_index_in_range(rest, id);
        assert(forall|j: int| 0 <= j < rest.len() ==> #[trigger] rest[j] == sessions[j + 1]);
        match id_index(sessions, id) {
            Some(i) => {
                assert(sessions[i] == rest[i - 1]);
            },
            None => {
                assert forall|j: int| 0 <= j < sessions.len() implies (#[trigger] sessions[j].id@)
                    != id by {
                    if j > 0 {
                        assert(sessions[j] == rest[j - 1]);
                    }
                }
            },
        }
    }
}

proof fn lemma_device_index_in_range(console: Seq<(String, String)>, device: Seq<char>)
    ensures
        match device_index(console, device) {
            Some(i) => 0 <= i < console.len() && console[i].0@ == device,
            None => forall|j: int| 0 <= j < console.len() ==> (#[trigger] console[j].0@) != device,
        },
    decreases console.len(),
{
    if console.len() > 0 && console[0].0@ != device {
        let rest = console.drop_first();
        lemma_device_index_in_range(rest, device);
        assert(forall|j: int| 0 <= j < rest.len() ==> #[trigger] rest[j] == console[j + 1]);
        match device_index(console, device) {
            Some(i) => {
                assert(console[i] == rest[i - 1]);
            },
            None => {
                assert forall|j: int| 0 <= j < console.len() implies (#[trigger] console[j].0@)
                    != device by {
                    if j > 0 {
                        assert(console[j] == rest[j - 1]);
                    }
                }
            },
        }
    }
}

/// The session type an open request resolves to.
pub open spec fn requested_session_type(session_type: Option<SessionType>) -> SessionType {
    match session_type {
        Some(t) => t,
        None => SessionType::Normal,
    }
}

/// Whether an open request short-circuits to an existing console session:
/// it asks for a console session on a device whose mapped session is live.
pub open spec fn open_reuses(
    reg: SessionRegistry,
    session_type: Option<SessionType>,
    device_id: Option<String>,
) -> bool {
    &&& requested_session_type(session_type) == SessionType::Console
    &&& device_id is Some
    &&& reg.console_reuse_id(device_id.unwrap()@) is Some
}

/// Whether an open request is admitted: a console request needs a device,
/// and unless a live console session is reused there must be room under
/// `max_sessions`.
pub open spec fn open_grants(
    reg: SessionRegistry,
    session_type: Option<SessionType>,
    device_id: Option<String>,
) -> bool {
    if requested_session_type(session_type) == SessionType::Console {
        match device_id {
            None => false,
            Some(d) => reg.console_reuse_id(d@) is Some || reg.sessions@.len()
                < reg.session_config.max_sessions,
        }
    } else {
        reg.sessions@.len() < reg.session_config.max_sessions
    }
}

/// The console index after planning an open: unchanged, except that a stale
/// entry for the requested device (one whose session is gone) is evicted.
pub open spec fn console_after_open(
    reg: SessionRegistry,
    session_type: Option<SessionType>,
    device_id: Option<String>,
) -> Seq<(String, String)> {
    if requested_session_type(session_type) == SessionType::Console {
        match device_id {
            Some(d) => match device_index(reg.console_sessions@, d@) {
                Some(i) => if id_index(reg.sessions@, reg.console_sessions@[i].1@) is None {
                    reg.console_sessions@.remove(i)
                } else {
                    reg.console_sessions@
                },
                None => reg.console_sessions@,
            },
            None => reg.console_sessions@,
        }
    } else {
        reg.console_sessions@
    }
}

/// All fields of two session records agree except possibly the lock slot.
pub open spec fn meta_eq_except_lock(a: SessionMeta, b: SessionMeta) -> bool {
    &&& a.id == b.id
    &&& a.protocol == b.protocol
    &&& a.host == b.host
    &&& a.port == b.port
    &&& a.session_type == b.session_type
    &&& a.device_id == b.device_id
    &&& a.created_at == b.created_at
    &&& a.last_activity == b.last_activity
    &&& a.bytes_in == b.bytes_in
    &&& a.bytes_out == b.bytes_out
    &&& a.state == b.state
    &&& a.idle_timeout_ms == b.idle_timeout_ms
    &&& a.pty_enabled == b.pty_enabled
    &&& a.pty_cols == b.pty_cols
    &&& a.pty_rows == b.pty_rows
    &&& a.pty_term == b.pty_term
    &&& a.expect == b.expect
}

/// The session list after a lock operation on entry `j`: only that entry's
/// lock slot changed, to `new_lock`.
pub open spec fn lock_updated_at(
    pre: Seq<SessionMeta>,
    post: Seq<SessionMeta>,
    j: int,
    new_lock: Option<crate::locks::LockModel>,
) -> bool {
    &&& 0 <= j < pre.len()
    &&& post.len() == pre.len()
    &&& (forall|k: int| 0 <= k < pre.len() && k != j ==> #[trigger] post[k] == pre[k])
    &&& meta_eq_except_lock(pre[j], post[j])
    &&& post[j].lock@ == new_lock
}

/// Appending a session with a fresh id leaves every other lookup alone and
/// makes the new id found at the end.
pub proof fn lemma_id_index_push(sessions: Seq<SessionMeta>, meta: SessionMeta, id: Seq<char>)
    ensures
        id_index(sessions.push(meta), id) == match id_index(sessions, id) {
            Some(i) => Some(i),
            None => if meta.id@ == id {
                Some(sessions.len() as int)
            } else {
                None::<int>
            },
        },
    decreases sessions.len(),
{
    let pushed = sessions.push(meta);
    if sessions.len() == 0 {
        assert(pushed.len() == 1);
        assert(pushed[0] == meta);
        assert(pushed.drop_first() =~= Seq::<SessionMeta>::empty());
    } else {
        assert(pushed[0] == sessions[0]);
        assert(pushed.drop_first() =~= sessions.drop_first().push(meta));
        lemma_id_index_push(sessions.drop_first(), meta, id);
        assert(id_index(pushed, id) == (if pushed[0].id@ == id {
            Some(0int)
        } else {
            match id_index(pushed.drop_first(), id) {
                Some(i) => Some(i + 1),
                None => None::<int>,
            }
        }));
        assert(id_index(sessions, id) == (if sessions[0].id@ == id {
            Some(0int)
        } else {
            match id_index(sessions.drop_first(), id) {
                Some(i) => Some(i + 1),
                None => None::<int>,
            }
        }));
        assert(sessions.len() == sessions.drop_first().len() + 1);
    }
}

impl SessionRegistry {
    /// The live session a device's console entry maps to, when both the
    /// entry and the session exist.
    pub open spec fn console_reuse_id(self, device: Seq<char>) -> Option<Seq<char>> {
        match device_index(self.console_sessions@, device) {
            Some(i) => if id_index(self.sessions@, self.console_sessions@[i].1@) is Some {
                Some(self.console_sessions@[i].1@)
            } else {
                None
            },
            None => None,
        }
    }

    /// An empty registry with the given configuration.
    pub fn new(
        session_config: SessionConfig,
        ssh_config: SshConfig,
        telnet_line_ending: TelnetLineEnding,
    ) -> (r: Self)
        ensures
            r.sessions@.len() == 0,
            r.console_sessions@.len() == 0,
            r.session_config == session_config,
            r.ssh_config == ssh_config,
            r.telnet_line_ending == telnet_line_ending,
    {
        SessionRegistry {
            sessions: Vec::new(),
            console_sessions: Vec::new(),
            session_config,
            ssh_config,
            telnet_line_ending,
        }
    }

    /// The index of the session with this id, or `not_found`.
    pub fn get_session(&self, session_id: &str) -> (r: ApiResult<usize>)
        ensures
            r is Ok <==> id_index(self.sessions@, session_id@) is Some,
            r is Ok ==> Some(r.unwrap() as int) == id_index(self.sessions@, session_id@)
                && r.unwrap() < self.sessions@.len() && self.sessions@[r.unwrap() as int].id@
                == session_id@,
            r is Err ==> r.unwrap_err().error_code == ErrorCode::NotFound
                && r.unwrap_err().message@ == "Session not found"@,
    {
        proof {
            lemma_id_index_in_range(self.sessions@, session_id@);
            assert(self.sessions@.skip(0) =~= self.sessions@);
        }
        let mut i: usize = 0;
        loop
            invariant
                i <= self.sessions@.len(),
                id_index(self.sessions@, session_id@) == match id_index(
                    self.sessions@.skip(i as int),
                    session_id@,
                ) {
                    Some(k) => Some(k + i),
                    None => None::<int>,
                },
            decreases self.sessions@.len() - i,
        {
            if i >= self.sessions.len() {
                proof {
                    assert(self.sessions@.skip(i as int) =~= Seq::<SessionMeta>::empty());
                }
                return Err(ApiError::new(ErrorCode::NotFound, "Session not found".to_owned()));
            }
            proof {
                assert(self.sessions@.skip(i as int)[0] == self.sessions@[i as int]);
                assert(self.sessions@.skip(i as int).drop_first() =~= self.sessions@.skip(i + 1));
            }
            if str_eq(self.sessions[i].id.as_str(), session_id) {
                return Ok(i);
            }
            i = i + 1;
        }
    }

    /// The console-index position of a device, if any.
    fn find_device(&self, device_id: &str) -> (r: Option<usize>)
        ensures
            match r {
                Some(i) => Some(i as int) == device_index(self.console_sessions@, device_id@) && i
                    < self.console_sessions@.len() && self.console_sessions@[i as int].0@
                    == device_id@,
                None => device_index(self.console_sessions@, device_id@) is None,
            },
    {
        proof {
            lemma_device_index_in_range(self.console_sessions@, device_id@);
            assert(self.console_sessions@.skip(0) =~= self.console_sessions@);
        }
        let mut i: usize = 0;
        loop
            invariant
                i <= self.console_sessions@.len(),
                device_index(self.console_sessions@, device_id@) == match device_index(
                    self.console_sessions@.skip(i as int),
                    device_id@,
                ) {
                    Some(k) => Some(k + i),
                    None => None::<int>,
                },
            decreases self.console_sessions@.len() - i,
        {
            if i >= self.console_sessions.len() {
                proof {
                    assert(self.console_sessions@.skip(i as int) =~= Seq::<
                        (String, String),
                    >::empty());
                }
                return None;
            }
            proof {
                let ghost console_entry = self.console_sessions@[i as int];
                assert(self.console_sessions@.skip(i as int)[0] == console_entry);
                assert(self.console_sessions@.skip(i as int).drop_first()
                    =~= self.console_sessions@.skip(i + 1));
            }
            if str_eq(self.console_sessions[i].0.as_str(), device_id) {
                return Some(i);
            }
            i = i + 1;
        }
    }

    /// Validate an open request, enforce console uniqueness and the session
    /// limit, and resolve every default.  A console request whose device
    /// already has a live session reuses it; a stale console mapping is
    /// evicted.  No session is registered yet.
    pub fn plan_open(&mut self, request: &SessionOpenRequest) -> (r: ApiResult<OpenPlan>)
        ensures
            r is Ok <==> open_grants(*old(self), request.session_type, request.device_id),
            (r matches Ok(OpenPlan::Existing(_))) <==> open_reuses(
                *old(self),
                request.session_type,
                request.device_id,
            ),
            final(self).console_sessions@ == console_after_open(
                *old(self),
                request.session_type,
                request.device_id,
            ),
            r is Err ==> r.unwrap_err().error_code == ErrorCode::InvalidArgument,
            r is Err ==> r.unwrap_err().message@ == (
            if requested_session_type(request.session_type) == SessionType::Console
                && request.device_id is None {
                "device_id is required for console sessions"@
            } else {
                "Too many sessions"@
            }),
            match r {
                Ok(OpenPlan::Existing(ref resp)) => {
                    &&& resp.session_id@ == old(self).console_reuse_id(
                        request.device_id.unwrap()@,
                    ).unwrap()
                    &&& resp.existing_session_id is Some
                    &&& resp.existing_session_id.unwrap()@ == resp.session_id@
                    &&& resp.lock_acquired is None
                    &&& id_index(old(self).sessions@, resp.session_id@) is Some
                    &&& ({
                        let j = id_index(old(self).sessions@, resp.session_id@).unwrap();
                        &&& old(self).sessions@[j].protocol == resp.protocol
                        &&& old(self).sessions@[j].pty_enabled == resp.pty_enabled
                    })
                    &&& (resp.protocol == Protocol::Telnet <==> resp.security_warning is Some)
                    &&& (resp.security_warning is Some ==> resp.security_warning.unwrap()@
                        == "Telnet is cleartext; credentials and data are not encrypted."@)
                },
                Ok(OpenPlan::Connect(ref plan)) => {
                    &&& old(self).sessions@.len() < old(self).session_config.max_sessions
                    &&& plan.protocol == request.protocol
                    &&& plan.host@ == request.host@
                    &&& plan.port == match request.port {
                        Some(p) => p,
                        None => if request.protocol == Protocol::Ssh {
                            22u16
                        } else {
                            23u16
                        },
                    }
                    &&& plan.connect_timeout_ms == ({
                        let from_req = match request.timeouts {
                            Some(ref t) => t.connect_timeout_ms,
                            None => None,
                        };
                        match from_req {
                            Some(ms) => ms,
                            None => 15000u64,
                        }
                    })
                    &&& plan.idle_timeout_ms == ({
                        let from_req = match request.timeouts {
                            Some(ref t) => t.idle_timeout_ms,
                            None => None,
                        };
                        match from_req {
                            Some(ms) => ms,
                            None => old(self).session_config.idle_timeout_ms,
                        }
                    })
                    &&& plan.buffer_max_bytes == old(self).session_config.output_buffer_max_bytes
                    &&& plan.buffer_max_lines == old(self).session_config.output_buffer_max_lines
                    &&& plan.record_tx_events == old(self).session_config.record_tx_events
                    &&& plan.session_type == match request.session_type {
                        Some(t) => t,
                        None => SessionType::Normal,
                    }
                    &&& (plan.session_type == SessionType::Console ==> plan.device_id is Some)
                },
                Err(_) => true,
            },
            final(self).sessions@ == old(self).sessions@,
            final(self).session_config == old(self).session_config,
            final(self).ssh_config == old(self).ssh_config,
            final(self).telnet_line_ending == old(self).telnet_line_ending,
    {
        let session_type = match request.session_type {
            Some(t) => t,
            None => SessionType::Normal,
        };
        let mut device_id: Option<String> = None;
        if session_type == SessionType::Console {
            let device = match &request.device_id {
                Some(d) => d.clone(),
                None => {
                    return Err(
                        ApiError::new(
                            ErrorCode::InvalidArgument,
                            "device_id is required for console sessions".to_owned(),
                        ),
                    );
                },
            };
            if let Some(entry_index) = self.find_device(device.as_str()) {
                let existing_id = self.console_sessions[entry_index].1.clone();
                match self.get_session(existing_id.as_str()) {
                    Ok(session_index) => {
                        let existing = &self.sessions[session_index];
                        let warning = if existing.protocol == Protocol::Telnet {
                            Some(telnet_security_warning())
                        } else {
                            None
                        };
                        return Ok(
                            OpenPlan::Existing(
                                SessionOpenResponse {
                                    session_id: existing_id.clone(),
                                    protocol: existing.protocol,
                                    pty_enabled: existing.pty_enabled,
                                    server_banner: None,
                                    security_warning: warning,
                                    lock_acquired: None,
                                    existing_session_id: Some(existing_id),
                                },
                            ),
                        );
                    },
                    Err(_) => {
                        self.console_sessions.remove(entry_index);
                    },
                }
            }
            device_id = Some(device);
        } else {
            device_id = match &request.device_id {
                Some(d) => Some(d.clone()),
                None => None,
            };
        }
        if self.sessions.len() >= self.session_config.max_sessions {
            return Err(ApiError::new(ErrorCode::InvalidArgument, "Too many sessions".to_owned()));
        }
        let pty = match &request.pty {
            Some(p) => p.clone(),
            None => PtyOptions::default(),
        };
        let port = match request.port {
            Some(p) => p,
            None => match request.protocol {
                Protocol::Ssh => 22,
                Protocol::Telnet => 23,
            },
        };
        let connect_timeout_ms = match &request.timeouts {
            Some(t) => match t.connect_timeout_ms {
                Some(ms) => ms,
                None => 15000,
            },
            None => 15000,
        };
        let idle_timeout_ms = match &request.timeouts {
            Some(t) => match t.idle_timeout_ms {
                Some(ms) => ms,
                None => self.session_config.idle_timeout_ms,
            },
            None => self.session_config.idle_timeout_ms,
        };
        let expect = match &request.expect {
            Some(e) => e.clone(),
            None => ExpectConfig::default(),
        };
        Ok(
            OpenPlan::Connect(
                ConnectPlan {
                    protocol: request.protocol,
                    host: request.host.clone(),
                    port,
                    pty,
                    connect_timeout_ms,
                    idle_timeout_ms,
                    session_type,
                    device_id,
                    expect,
                    buffer_max_bytes: self.session_config.output_buffer_max_bytes,
                    buffer_max_lines: self.session_config.output_buffer_max_lines,
                    record_tx_events: self.session_config.record_tx_events,
                },
            ),
        )
    }

    /// Record a session whose backend connected, index it under its device
    /// when it is a console session, and return the open response.
    pub fn register_session(&mut self, id: String, plan: ConnectPlan, now: u64) -> (r:
        SessionOpenResponse)
        ensures
            final(self).sessions@.len() == old(self).sessions@.len() + 1,
            final(self).sessions@ == old(self).sessions@.push(
                final(self).sessions@.last(),
            ),
            ({
                let entry = final(self).sessions@.last();
                &&& entry.id@ == id@
                &&& entry.protocol == plan.protocol
                &&& entry.host@ == plan.host@
                &&& entry.port == plan.port
                &&& entry.session_type == plan.session_type
                &&& entry.created_at == now
                &&& entry.last_activity == now
                &&& entry.bytes_in == 0
                &&& entry.bytes_out == 0
                &&& entry.state == SessionState::Open
                &&& entry.idle_timeout_ms == plan.idle_timeout_ms
                &&& entry.lock@ is None
            }),
            r.session_id@ == id@,
            r.protocol == plan.protocol,
            r.pty_enabled == plan.pty.enabled,
            r.existing_session_id is None,
            r.lock_acquired is None,
            (plan.protocol == Protocol::Telnet <==> r.security_warning is Some),
            r.security_warning is Some ==> r.security_warning.unwrap()@
                == "Telnet is cleartext; credentials and data are not encrypted."@,
            final(self).session_config == old(self).session_config,
            final(self).ssh_config == old(self).ssh_config,
            final(self).telnet_line_ending == old(self).telnet_line_ending,
    {
        let warning = if plan.protocol == Protocol::Telnet {
            Some(telnet_security_warning())
        } else {
            None
        };
        let meta = SessionMeta {
            id: id.clone(),
            protocol: plan.protocol,
            host: plan.host,
            port: plan.port,
            session_type: plan.session_type,
            device_id: plan.device_id,
            created_at: now,
            last_activity: now,
            bytes_in: 0,
            bytes_out: 0,
            state: SessionState::Open,
            idle_timeout_ms: plan.idle_timeout_ms,
            pty_enabled: plan.pty.enabled,
            pty_cols: plan.pty.cols,
            pty_rows: plan.pty.rows,
            pty_term: plan.pty.term,
            expect: plan.expect,
            lock: SessionLock::new(),
        };
        let is_console = meta.session_type == SessionType::Console;
        let device_copy: Option<String> = match &meta.device_id {
            Some(d) => Some(d.clone()),
            None => None,
        };
        self.sessions.push(meta);
        if is_console {
            if let Some(device) = device_copy {
                self.console_sessions.push((device, id.clone()));
            }
        }
        SessionOpenResponse {
            session_id: id,
            protocol: plan.protocol,
            pty_enabled: plan.pty.enabled,
            server_banner: None,
            security_warning: warning,
            lock_acquired: None,
            existing_session_id: None,
        }
    }

    /// Start closing: a session that is already closed is left as is (the
    /// close is a no-op); otherwise it moves to the closing state and the
    /// caller closes the backend before calling `finish_close`.
    pub fn begin_close(&mut self, session_id: &str) -> (r: ApiResult<bool>)
        ensures
            r is Err <==> id_index(old(self).sessions@, session_id@) is None,
            r is Err ==> r.unwrap_err().error_code == ErrorCode::NotFound
                && r.unwrap_err().message@ == "Session not found"@ && *final(self) == *old(self),
            r == Ok::<bool, ApiError>(false) <==> (match id_index(
                old(self).sessions@,
                session_id@,
            ) {
                Some(i) => old(self).sessions@[i].state == SessionState::Closed,
                None => false,
            }),
            r == Ok::<bool, ApiError>(false) ==> *final(self) == *old(self),
            r == Ok::<bool, ApiError>(true) ==> ({
                let i = id_index(old(self).sessions@, session_id@).unwrap();
                &&& id_index(old(self).sessions@, session_id@) is Some
                &&& final(self).sessions@ == old(self).sessions@.update(
                    i,
                    SessionMeta { state: SessionState::Closing, ..old(self).sessions@[i] },
                )
            }),
            final(self).console_sessions@ == old(self).console_sessions@,
            final(self).session_config == old(self).session_config,
            final(self).ssh_config == old(self).ssh_config,
            final(self).telnet_line_ending == old(self).telnet_line_ending,
    {
        let index = self.get_session(session_id)?;
        if self.sessions[index].state == SessionState::Closed {
            return Ok(false);
        }
        let entry = &mut self.sessions[index];
        entry.state = SessionState::Closing;
        proof {
            assert(final(self).sessions@ =~= old(self).sessions@.update(
                index as int,
                SessionMeta {
                    state: SessionState::Closing,
                    ..old(self).sessions@[index as int]
                },
            ));
        }
        Ok(true)
    }

    /// Finish closing: mark the session closed — the terminal state of the
    /// monotone open → closing → closed chain — and evict it from the
    /// session map and, for a console session, its device entry from the
    /// console index.  Every other entry of both maps is untouched.
    pub fn finish_close(&mut self, session_id: &str)
        ensures
            final(self).sessions@ == (match id_index(old(self).sessions@, session_id@) {
                Some(j) => old(self).sessions@.remove(j),
                None => old(self).sessions@,
            }),
            final(self).console_sessions@ == (match id_index(old(self).sessions@, session_id@) {
                Some(j) => {
                    let meta = old(self).sessions@[j];
                    if meta.session_type == SessionType::Console && meta.device_id is Some {
                        match device_index(old(self).console_sessions@, meta.device_id.unwrap()@) {
                            Some(k) => old(self).console_sessions@.remove(k),
                            None => old(self).console_sessions@,
                        }
                    } else {
                        old(self).console_sessions@
                    }
                },
                None => old(self).console_sessions@,
            }),
            final(self).session_config == old(self).session_config,
            final(self).ssh_config == old(self).ssh_config,
            final(self).telnet_line_ending == old(self).telnet_line_ending,
    {
        let found = self.get_session(session_id);
        match found {
            Ok(index) => {
                self.sessions[index].state = SessionState::Closed;
                proof {
                    assert(self.sessions@.remove(index as int) =~= old(
                        self,
                    ).sessions@.remove(index as int));
                }
                let meta = self.sessions.remove(index);
                if meta.session_type == SessionType::Console {
                    if let Some(device) = &meta.device_id {
                        if let Some(entry_index) = self.find_device(device.as_str()) {
                            self.console_sessions.remove(entry_index);
                        }
                    }
                }
            },
            Err(_) => {},
        }
    }

    /// Snapshot every session's metadata.
    pub fn list_sessions(&self) -> (r: SessionListResponse)
        ensures
            r.sessions@.len() == self.sessions@.len(),
            forall|i: int|
                0 <= i < self.sessions@.len() ==> {
                    let entry = #[trigger] r.sessions@[i];
                    let meta = self.sessions@[i];
                    &&& entry.session_id@ == meta.id@
                    &&& entry.protocol == meta.protocol
                    &&& entry.host@ == meta.host@
                    &&& entry.port == meta.port
                    &&& entry.created_at == meta.created_at
                    &&& entry.last_activity_at == meta.last_activity
                    &&& entry.bytes_in == meta.bytes_in
                    &&& entry.bytes_out == meta.bytes_out
                    &&& entry.state == meta.state
                    &&& entry.session_type == meta.session_type
                },
    {
        let mut entries: Vec<SessionListEntry> = Vec::new();
        let mut i: usize = 0;
        while i < self.sessions.len()
            invariant
                i <= self.sessions@.len(),
                entries@.len() == i,
                forall|j: int|
                    0 <= j < i ==> {
                        let entry = #[trigger] entries@[j];
                        let meta = self.sessions@[j];
                        &&& entry.session_id@ == meta.id@
                        &&& entry.protocol == meta.protocol
                        &&& entry.host@ == meta.host@
                        &&& entry.port == meta.port
                        &&& entry.created_at == meta.created_at
                        &&& entry.last_activity_at == meta.last_activity
                        &&& entry.bytes_in == meta.bytes_in
                        &&& entry.bytes_out == meta.bytes_out
                        &&& entry.state == meta.state
                        &&& entry.session_type == meta.session_type
                    },
            decreases self.sessions@.len() - i,
        {
            let meta = &self.sessions[i];
            let device: Option<String> = match &meta.device_id {
                Some(d) => Some(d.clone()),
                None => None,
            };
            entries.push(
                SessionListEntry {
                    session_id: meta.id.clone(),
                    protocol: meta.protocol,
                    host: meta.host.clone(),
                    port: meta.port,
                    created_at: meta.created_at,
                    last_activity_at: meta.last_activity,
                    bytes_in: meta.bytes_in,
                    bytes_out: meta.bytes_out,
                    state: meta.state,
                    session_type: meta.session_type,
                    device_id: device,
                },
            );
            i = i + 1;
        }
        SessionListResponse { sessions: entries }
    }

    /// The ids of every session whose idle timeout has elapsed.
    pub fn idle_session_ids(&self, now: u64) -> (r: Vec<String>)
        ensures
            r.deep_view() == idle_ids_spec(self.sessions@, now),
    {
        let mut ids: Vec<String> = Vec::new();
        let mut i: usize = 0;
        proof {
            assert(ids.deep_view() =~= Seq::<Seq<char>>::empty());
            assert(self.sessions@.skip(0) =~= self.sessions@);
        }
        while i < self.sessions.len()
            invariant
                i <= self.sessions@.len(),
                idle_ids_spec(self.sessions@, now) == ids.deep_view() + idle_ids_spec(
                    self.sessions@.skip(i as int),
                    now,
                ),
            decreases self.sessions@.len() - i,
        {
            let meta = &self.sessions[i];
            let elapsed = if now >= meta.last_activity {
                now - meta.last_activity
            } else {
                0
            };
            let ghost pre = ids.deep_view();
            let is_idle = meta.idle_timeout_ms > 0 && elapsed > meta.idle_timeout_ms;
            if is_idle {
                ids.push(meta.id.clone());
                proof {
                    assert(ids.deep_view() =~= pre + seq![self.sessions@[i as int].id@]);
                }
            }
            i = i + 1;
            proof {
                assert(self.sessions@.skip(i - 1).drop_first() =~= self.sessions@.skip(i as int));
                assert(self.sessions@.skip(i - 1)[0] == self.sessions@[i - 1]);
                let tail_ids = idle_ids_spec(self.sessions@.skip(i as int), now);
                if is_idle {
                    assert((pre + seq![self.sessions@[i - 1].id@]) + tail_ids =~= pre + (seq![
                        self.sessions@[i - 1].id@,
                    ] + tail_ids));
                } else {
                    assert(pre + (Seq::<Seq<char>>::empty() + tail_ids) =~= pre + tail_ids);
                }
            }
        }
        proof {
            assert(self.sessions@.skip(self.sessions@.len() as int) =~= Seq::<
                SessionMeta,
            >::empty());
            assert(ids.deep_view() + Seq::<Seq<char>>::empty() =~= ids.deep_view());
        }
        ids
    }

    /// Mutable access to one session's record; everything else in the
    /// registry is untouched.
    pub fn session_mut(&mut self, i: usize) -> (r: &mut SessionMeta)
        requires
            i < old(self).sessions@.len(),
        ensures
            *r == old(self).sessions@[i as int],
            final(self).sessions@ == old(self).sessions@.update(i as int, *final(r)),
            final(self).console_sessions@ == old(self).console_sessions@,
            final(self).session_config == old(self).session_config,
            final(self).ssh_config == old(self).ssh_config,
            final(self).telnet_line_ending == old(self).telnet_line_ending,
    {
        &mut self.sessions[i]
    }

    /// Account a successful backend write: `bytes_out` grows by the count
    /// and the session is touched.
    pub fn record_write(&mut self, index: usize, bytes_written: u64, now: u64)
        requires
            index < old(self).sessions@.len(),
        ensures
            final(self).sessions@.len() == old(self).sessions@.len(),
            final(self).sessions@[index as int].bytes_out == crate::locks::sat_add(
                old(self).sessions@[index as int].bytes_out,
                bytes_written,
            ),
            final(self).sessions@[index as int].last_activity == now,
            forall|j: int|
                0 <= j < old(self).sessions@.len() && j != index ==> final(self).sessions@[j]
                    == #[trigger] old(self).sessions@[j],
            final(self).console_sessions@ == old(self).console_sessions@,
            final(self).session_config == old(self).session_config,
    {
        let meta = &mut self.sessions[index];
        meta.bytes_out = if meta.bytes_out <= u64::MAX - bytes_written {
            meta.bytes_out + bytes_written
        } else {
            u64::MAX
        };
        meta.last_activity = now;
    }

    /// Account bytes the reader appended: `bytes_in` grows by the count
    /// and the session is touched.
    pub fn record_output(&mut self, index: usize, byte_count: u64, now: u64)
        requires
            index < old(self).sessions@.len(),
        ensures
            final(self).sessions@.len() == old(self).sessions@.len(),
            final(self).sessions@[index as int].bytes_in == crate::locks::sat_add(
                old(self).sessions@[index as int].bytes_in,
                byte_count,
            ),
            final(self).sessions@[index as int].last_activity == now,
            forall|j: int|
                0 <= j < old(self).sessions@.len() && j != index ==> final(self).sessions@[j]
                    == #[trigger] old(self).sessions@[j],
            final(self).console_sessions@ == old(self).console_sessions@,
            final(self).session_config == old(self).session_config,
    {
        let meta = &mut self.sessions[index];
        meta.bytes_in = if meta.bytes_in <= u64::MAX - byte_count {
            meta.bytes_in + byte_count
        } else {
            u64::MAX
        };
        meta.last_activity = now;
    }

    /// Read access to one session's record.
    pub fn session_at(&self, i: usize) -> (r: &SessionMeta)
        requires
            i < self.sessions@.len(),
        ensures
            *r == self.sessions@[i as int],
    {
        &self.sessions[i]
    }
}

/// The ids of the idle sessions, in registry order.
pub open spec fn idle_ids_spec(sessions: Seq<SessionMeta>, now: u64) -> Seq<Seq<char>>
    decreases sessions.len(),
{
    if sessions.len() == 0 {
        Seq::empty()
    } else {
        (if session_is_idle(sessions[0], now) {
            seq![sessions[0].id@]
        } else {
            Seq::<Seq<char>>::empty()
        }) + idle_ids_spec(sessions.drop_first(), now)
    }
}

/// Whether a session's idle timeout has elapsed at `now`.
pub open spec fn session_is_idle(meta: SessionMeta, now: u64) -> bool {
    &&& meta.idle_timeout_ms > 0
    &&& (if now >= meta.last_activity {
        now - meta.last_activity
    } else {
        0int
    }) > meta.idle_timeout_ms
}


} // verus!
