//! The tool facade: validation and routing of the four tool methods onto
//! the registry, split around the outside work.
//!
//! Opening, closing, resizing and writing all touch a backend, which the
//! host program owns; for those the facade validates and decides, hands a
//! directive back, and finishes the bookkeeping in a second call once the
//! backend work is done.  Everything else completes here.

use vstd::prelude::*;

use crate::errors::{ApiError, ApiResult, ErrorCode};
use crate::exec::{
    build_exec_command, build_marker_regex, default_marker_prefix, default_marker_suffix,
    fallback_marker_pair, fresh_token,
};
use crate::keys::{key_bytes, Protocol};
use crate::manager::{ConnectPlan, OpenPlan, SessionRegistry};
use crate::pattern::Pattern;
use crate::read::ReadParams;
use crate::session::{
    ConfigAction, Encoding, IoAction, ReadMode, RcMode, SessionAction, SessionConfigRequest,
    SessionConfigResponse, SessionIoRequest, SessionOpenRequest, SessionOpenResponse,
    SessionReadRequest, SessionRequest, SessionResponse, SessionTailRequest,
    session_capabilities,
};
use crate::telnet::{normalize_telnet_line_endings, TelnetLineEnding};
use crate::text::parse_cursor;

verus! {

/// Default TTL of a lock acquired together with an open, and of `lock`
/// calls that give none.
pub const DEFAULT_LOCK_TTL_MS: u64 = 60000;

/// Relies on SystemTime::now: the milliseconds elapsed since the Unix
/// epoch at the moment of the call.  Nothing is assumed about the value.
#[verifier::external_body]
pub fn now_ms() -> (r: u64) {
    match std::time::SystemTime::now().duration_since(std::time::UNIX_EPOCH) {
        Ok(elapsed) => elapsed.as_millis() as u64,
        Err(_) => 0,
    }
}

/// What `handle_session` decided: a finished response, or backend work the
/// host program must do before the matching `finish_*` call.
#[derive(Debug)]
pub enum SessionStep {
    Done(SessionResponse),
    NeedOpen {
        plan: ConnectPlan,
        acquire_lock: bool,
        lock_ttl_ms: u64,
        task_id: Option<String>,
    },
    NeedClose { session_id: String, force: bool },
}

/// An empty session response for an action.
fn blank_session_response(action: SessionAction) -> (r: SessionResponse)
    ensures
        r.action == action,
        r.success == true,
        r.session_id is None,
        r.protocol is None,
        r.pty_enabled is None,
        r.security_warning is None,
        r.lock_acquired is None,
        r.existing_session_id is None,
        r.sessions is None,
        r.capabilities is None,
        r.lock_holder is None,
        r.lock_expires_at is None,
        r.message is None,
{
    SessionResponse {
        action,
        success: true,
        session_id: None,
        protocol: None,
        pty_enabled: None,
        security_warning: None,
        lock_acquired: None,
        existing_session_id: None,
        sessions: None,
        capabilities: None,
        lock_holder: None,
        lock_expires_at: None,
        message: None,
    }
}

/// Route one session lifecycle request.  Lock, unlock, heartbeat, status
/// and list complete here; open and close of a live session return the
/// backend work to do.
pub fn handle_session(registry: &mut SessionRegistry, req: SessionRequest, now: u64) -> (r:
    ApiResult<SessionStep>)
    ensures
        r is Err ==> (r.unwrap_err().error_code == ErrorCode::InvalidArgument
            || r.unwrap_err().error_code == ErrorCode::NotFound),
        req.action == SessionAction::Open && req.protocol is None ==> r is Err
            && r.unwrap_err().error_code == ErrorCode::InvalidArgument,
        req.action == SessionAction::Open && req.host is None ==> r is Err
            && r.unwrap_err().error_code == ErrorCode::InvalidArgument,
        req.action == SessionAction::Open && req.acquire_lock == Some(true) && req.task_id is None
            ==> r is Err && r.unwrap_err().error_code == ErrorCode::InvalidArgument,
        (req.action == SessionAction::Close || req.action == SessionAction::Lock || req.action
            == SessionAction::Unlock || req.action == SessionAction::Heartbeat || req.action
            == SessionAction::Status) && req.session_id is None ==> r is Err
            && r.unwrap_err().error_code == ErrorCode::InvalidArgument,
        (req.action == SessionAction::Lock || req.action == SessionAction::Unlock || req.action
            == SessionAction::Heartbeat) && req.task_id is None ==> r is Err
            && r.unwrap_err().error_code == ErrorCode::InvalidArgument,
        req.action == SessionAction::List ==> r is Ok && (r.unwrap() matches SessionStep::Done(
            resp,
        ) && resp.action == SessionAction::List && resp.success && resp.sessions is Some
            && resp.capabilities is Some),
        req.action == SessionAction::Lock && r is Ok ==> (r.unwrap() matches SessionStep::Done(
            resp,
        ) && resp.action == SessionAction::Lock && resp.lock_acquired == Some(true)
            && resp.lock_holder is Some && resp.lock_expires_at is Some),
        req.action == SessionAction::Open && r is Ok ==> (r.unwrap() matches SessionStep::Done(
            resp,
        ) && resp.action == SessionAction::Open && resp.existing_session_id is Some) || (
        r.unwrap() matches SessionStep::NeedOpen { .. }),
        req.action == SessionAction::Close && r is Ok ==> (r.unwrap() matches SessionStep::Done(
            resp,
        ) && resp.action == SessionAction::Close) || (r.unwrap() matches SessionStep::NeedClose {
            ..
        }),
        req.action == SessionAction::Open ==> ((r is Ok) <==> (req.protocol is Some
            && req.host is Some && !(req.acquire_lock == Some(true) && req.task_id is None)
            && crate::manager::open_grants(*old(registry), req.session_type, req.device_id))),
        req.action == SessionAction::Close ==> ((r is Ok) <==> (req.session_id is Some
            && crate::manager::id_index(old(registry).sessions@, req.session_id.unwrap()@)
            is Some)),
        req.action == SessionAction::Status ==> ((r is Ok) <==> (req.session_id is Some
            && crate::manager::id_index(old(registry).sessions@, req.session_id.unwrap()@)
            is Some)),
        req.action == SessionAction::Lock ==> ((r is Ok) <==> (req.session_id is Some
            && req.task_id is Some && (match crate::manager::id_index(
            old(registry).sessions@,
            req.session_id.unwrap()@,
        ) {
            Some(j) => crate::locks::lock_transition(
                old(registry).sessions@[j].lock@,
                req.task_id.unwrap()@,
                match req.lock_ttl_ms {
                    Some(ttl) => ttl,
                    None => DEFAULT_LOCK_TTL_MS,
                },
                now,
            ).1,
            None => false,
        }))),
        req.action == SessionAction::Unlock ==> ((r is Ok) <==> (req.session_id is Some
            && req.task_id is Some && (match crate::manager::id_index(
            old(registry).sessions@,
            req.session_id.unwrap()@,
        ) {
            Some(j) => crate::locks::unlock_transition(
                old(registry).sessions@[j].lock@,
                req.task_id.unwrap()@,
                now,
            ).1,
            None => false,
        }))),
        req.action == SessionAction::Heartbeat ==> ((r is Ok) <==> (req.session_id is Some
            && req.task_id is Some && (match crate::manager::id_index(
            old(registry).sessions@,
            req.session_id.unwrap()@,
        ) {
            Some(j) => crate::locks::heartbeat_transition(
                old(registry).sessions@[j].lock@,
                req.task_id.unwrap()@,
                req.lock_ttl_ms,
                now,
            ).1,
            None => false,
        }))),
        req.action == SessionAction::Lock && req.session_id is Some && req.task_id is Some
            && crate::manager::id_index(old(registry).sessions@, req.session_id.unwrap()@)
            is Some ==> ({
            let j = crate::manager::id_index(
                old(registry).sessions@,
                req.session_id.unwrap()@,
            ).unwrap();
            let transition = crate::locks::lock_transition(
                old(registry).sessions@[j].lock@,
                req.task_id.unwrap()@,
                match req.lock_ttl_ms {
                    Some(ttl) => ttl,
                    None => DEFAULT_LOCK_TTL_MS,
                },
                now,
            );
            &&& crate::manager::lock_updated_at(
                old(registry).sessions@,
                final(registry).sessions@,
                j,
                transition.0,
            )
            &&& final(registry).console_sessions@ == old(registry).console_sessions@
            &&& (r is Ok ==> (r.unwrap() matches SessionStep::Done(resp)
                && resp.lock_holder.unwrap()@ == req.task_id.unwrap()@ && resp.lock_expires_at
                == Some(transition.0.unwrap().expires_at)))
        }),
        req.action == SessionAction::Unlock && req.session_id is Some && req.task_id is Some
            && crate::manager::id_index(old(registry).sessions@, req.session_id.unwrap()@)
            is Some ==> ({
            let j = crate::manager::id_index(
                old(registry).sessions@,
                req.session_id.unwrap()@,
            ).unwrap();
            &&& crate::manager::lock_updated_at(
                old(registry).sessions@,
                final(registry).sessions@,
                j,
                crate::locks::unlock_transition(
                    old(registry).sessions@[j].lock@,
                    req.task_id.unwrap()@,
                    now,
                ).0,
            )
            &&& final(registry).console_sessions@ == old(registry).console_sessions@
        }),
        req.action == SessionAction::Heartbeat && req.session_id is Some && req.task_id is Some
            && crate::manager::id_index(old(registry).sessions@, req.session_id.unwrap()@)
            is Some ==> ({
            let j = crate::manager::id_index(
                old(registry).sessions@,
                req.session_id.unwrap()@,
            ).unwrap();
            let transition = crate::locks::heartbeat_transition(
                old(registry).sessions@[j].lock@,
                req.task_id.unwrap()@,
                req.lock_ttl_ms,
                now,
            );
            &&& crate::manager::lock_updated_at(
                old(registry).sessions@,
                final(registry).sessions@,
                j,
                transition.0,
            )
            &&& final(registry).console_sessions@ == old(registry).console_sessions@
            &&& (r is Ok ==> (r.unwrap() matches SessionStep::Done(resp)
                && resp.lock_holder.unwrap()@ == req.task_id.unwrap()@ && resp.lock_expires_at
                == Some(transition.0.unwrap().expires_at)))
        }),
        req.action == SessionAction::Status && req.session_id is Some
            && crate::manager::id_index(old(registry).sessions@, req.session_id.unwrap()@)
            is Some ==> ({
            let j = crate::manager::id_index(
                old(registry).sessions@,
                req.session_id.unwrap()@,
            ).unwrap();
            let pruned = crate::locks::prune_spec(old(registry).sessions@[j].lock@, now);
            &&& crate::manager::lock_updated_at(
                old(registry).sessions@,
                final(registry).sessions@,
                j,
                pruned,
            )
            &&& final(registry).console_sessions@ == old(registry).console_sessions@
            &&& (r is Ok ==> (r.unwrap() matches SessionStep::Done(resp) && (match pruned {
                Some(info) => resp.lock_holder is Some && resp.lock_holder.unwrap()@
                    == info.task_id && resp.lock_expires_at == Some(info.expires_at),
                None => resp.lock_holder is None && resp.lock_expires_at is None,
            })))
        }),
{
    match req.action {
        SessionAction::Open => {
            let protocol = match req.protocol {
                Some(p) => p,
                None => {
                    return Err(
                        ApiError::new(
                            ErrorCode::InvalidArgument,
                            "protocol is required".to_owned(),
                        ),
                    );
                },
            };
            let host = match req.host {
                Some(h) => h,
                None => {
                    return Err(
                        ApiError::new(ErrorCode::InvalidArgument, "host is required".to_owned()),
                    );
                },
            };
            let acquire_lock = match req.acquire_lock {
                Some(b) => b,
                None => false,
            };
            if acquire_lock && req.task_id.is_none() {
                return Err(
                    ApiError::new(
                        ErrorCode::InvalidArgument,
                        "task_id is required to acquire a lock".to_owned(),
                    ),
                );
            }
            let open_req = SessionOpenRequest {
                protocol,
                host,
                port: req.port,
                username: req.username,
                auth: req.auth,
                pty: req.pty,
                timeouts: req.timeouts,
                ssh_options: req.ssh_options,
                expect: req.expect,
                session_type: req.session_type,
                device_id: req.device_id,
                acquire_lock: req.acquire_lock,
                lock_ttl_ms: req.lock_ttl_ms,
                task_id: req.task_id.clone(),
            };
            let plan = registry.plan_open(&open_req)?;
            match plan {
                OpenPlan::Existing(resp) => {
                    let mut response = resp;
                    if acquire_lock {
                        response.lock_acquired = Some(false);
                    }
                    Ok(SessionStep::Done(open_response_to_session_response(response)))
                },
                OpenPlan::Connect(connect) => {
                    let lock_ttl_ms = match req.lock_ttl_ms {
                        Some(ttl) => ttl,
                        None => DEFAULT_LOCK_TTL_MS,
                    };
                    Ok(
                        SessionStep::NeedOpen {
                            plan: connect,
                            acquire_lock,
                            lock_ttl_ms,
                            task_id: req.task_id,
                        },
                    )
                },
            }
        },
        SessionAction::Close => {
            let session_id = match req.session_id {
                Some(id) => id,
                None => {
                    return Err(
                        ApiError::new(
                            ErrorCode::InvalidArgument,
                            "session_id is required".to_owned(),
                        ),
                    );
                },
            };
            let force = match req.force {
                Some(f) => f,
                None => false,
            };
            let started = registry.begin_close(session_id.as_str())?;
            if started {
                Ok(SessionStep::NeedClose { session_id, force })
            } else {
                let mut response = blank_session_response(SessionAction::Close);
                response.session_id = Some(session_id);
                Ok(SessionStep::Done(response))
            }
        },
        SessionAction::List => {
            let list = registry.list_sessions();
            let mut response = blank_session_response(SessionAction::List);
            response.sessions = Some(list.sessions);
            response.capabilities = Some(session_capabilities());
            Ok(SessionStep::Done(response))
        },
        SessionAction::Lock => {
            let (session_id, task_id) = require_session_and_task(&req)?;
            let ttl_ms = match req.lock_ttl_ms {
                Some(ttl) => ttl,
                None => DEFAULT_LOCK_TTL_MS,
            };
            let index = registry.get_session(session_id.as_str())?;
            let info = registry.session_mut(index).lock.lock(task_id.as_str(), ttl_ms, now)?;
            let mut response = blank_session_response(SessionAction::Lock);
            response.session_id = Some(session_id);
            response.lock_acquired = Some(true);
            response.lock_holder = Some(info.task_id);
            response.lock_expires_at = Some(info.expires_at);
            Ok(SessionStep::Done(response))
        },
        SessionAction::Unlock => {
            let (session_id, task_id) = require_session_and_task(&req)?;
            let index = registry.get_session(session_id.as_str())?;
            registry.session_mut(index).lock.unlock(task_id.as_str(), now)?;
            let mut response = blank_session_response(SessionAction::Unlock);
            response.session_id = Some(session_id);
            Ok(SessionStep::Done(response))
        },
        SessionAction::Heartbeat => {
            let (session_id, task_id) = require_session_and_task(&req)?;
            let index = registry.get_session(session_id.as_str())?;
            let info = registry.session_mut(index).lock.heartbeat(
                task_id.as_str(),
                req.lock_ttl_ms,
                now,
            )?;
            let mut response = blank_session_response(SessionAction::Heartbeat);
            response.session_id = Some(session_id);
            response.lock_holder = Some(info.task_id);
            response.lock_expires_at = Some(info.expires_at);
            Ok(SessionStep::Done(response))
        },
        SessionAction::Status => {
            let session_id = match req.session_id {
                Some(id) => id,
                None => {
                    return Err(
                        ApiError::new(
                            ErrorCode::InvalidArgument,
                            "session_id is required".to_owned(),
                        ),
                    );
                },
            };
            let index = registry.get_session(session_id.as_str())?;
            let info = registry.session_mut(index).lock.lock_status(now);
            let mut response = blank_session_response(SessionAction::Status);
            response.session_id = Some(session_id);
            match info {
                Some(lock) => {
                    response.lock_holder = Some(lock.task_id);
                    response.lock_expires_at = Some(lock.expires_at);
                },
                None => {},
            }
            Ok(SessionStep::Done(response))
        },
    }
}

/// Both ids a lock-family action needs.
fn require_session_and_task(req: &SessionRequest) -> (r: ApiResult<(String, String)>)
    ensures
        r is Ok <==> (req.session_id is Some && req.task_id is Some),
        r is Ok ==> r.unwrap().0@ == req.session_id.unwrap()@ && r.unwrap().1@
            == req.task_id.unwrap()@,
        r is Err ==> r.unwrap_err().error_code == ErrorCode::InvalidArgument,
{
    let session_id = match &req.session_id {
        Some(id) => id.clone(),
        None => {
            return Err(
                ApiError::new(ErrorCode::InvalidArgument, "session_id is required".to_owned()),
            );
        },
    };
    let task_id = match &req.task_id {
        Some(id) => id.clone(),
        None => {
            return Err(
                ApiError::new(ErrorCode::InvalidArgument, "task_id is required".to_owned()),
            );
        },
    };
    Ok((session_id, task_id))
}

/// Lift an open response into the session tool's response shape.
pub fn open_response_to_session_response(resp: SessionOpenResponse) -> (r: SessionResponse)
    ensures
        r.action == SessionAction::Open,
        r.success == true,
        r.session_id == Some(resp.session_id),
        r.protocol == Some(resp.protocol),
        r.pty_enabled == Some(resp.pty_enabled),
        r.security_warning == resp.security_warning,
        r.lock_acquired == resp.lock_acquired,
        r.existing_session_id == resp.existing_session_id,
{
    SessionResponse {
        action: SessionAction::Open,
        success: true,
        session_id: Some(resp.session_id),
        protocol: Some(resp.protocol),
        pty_enabled: Some(resp.pty_enabled),
        security_warning: resp.security_warning,
        lock_acquired: resp.lock_acquired,
        existing_session_id: resp.existing_session_id,
        sessions: None,
        capabilities: None,
        lock_holder: None,
        lock_expires_at: None,
        message: None,
    }
}

/// Finish an open whose backend connected: register the session and, when
/// asked together with the open, acquire the lock on the fresh session.
pub fn finish_open(
    registry: &mut SessionRegistry,
    id: String,
    plan: ConnectPlan,
    acquire_lock: bool,
    lock_ttl_ms: u64,
    task_id: Option<String>,
    now: u64,
) -> (r: ApiResult<SessionResponse>)
    ensures
        r is Ok ==> r.unwrap().action == SessionAction::Open && r.unwrap().success,
        r is Ok && acquire_lock ==> r.unwrap().lock_acquired == Some(true),
        r is Ok ==> final(registry).sessions@.len() == old(registry).sessions@.len() + 1,
        r is Ok ==> r.unwrap().session_id is Some && r.unwrap().session_id.unwrap()@ == id@,
        crate::manager::id_index(old(registry).sessions@, id@) is None ==> ((r is Ok) <==> (
        !acquire_lock || task_id is Some)),
        crate::manager::id_index(old(registry).sessions@, id@) is None && r is Ok
            && acquire_lock ==> final(registry).sessions@[old(registry).sessions@.len() as int].lock@
            == crate::locks::lock_transition(
            None::<crate::locks::LockModel>,
            task_id.unwrap()@,
            lock_ttl_ms,
            now,
        ).0,
{
    let mut response = registry.register_session(id, plan, now);
    proof {
        crate::manager::lemma_id_index_push(
            old(registry).sessions@,
            registry.sessions@.last(),
            response.session_id@,
        );
        assert(registry.sessions@ =~= old(registry).sessions@.push(registry.sessions@.last()));
    }
    if acquire_lock {
        let task = match task_id {
            Some(t) => t,
            None => {
                return Err(
                    ApiError::new(
                        ErrorCode::InvalidArgument,
                        "task_id is required to acquire a lock".to_owned(),
                    ),
                );
            },
        };
        let index = registry.get_session(response.session_id.as_str())?;
        registry.session_mut(index).lock.lock(task.as_str(), lock_ttl_ms, now)?;
        response.lock_acquired = Some(true);
    }
    Ok(open_response_to_session_response(response))
}

/// Finish a close whose backend shut down: evict the session and answer.
pub fn finish_close_session(registry: &mut SessionRegistry, session_id: String) -> (r:
    SessionResponse)
    ensures
        r.action == SessionAction::Close,
        r.success == true,
        r.session_id is Some && r.session_id.unwrap()@ == session_id@,
        final(registry).sessions@ == (match crate::manager::id_index(
            old(registry).sessions@,
            session_id@,
        ) {
            Some(j) => old(registry).sessions@.remove(j),
            None => old(registry).sessions@,
        }),
        final(registry).console_sessions@ == (match crate::manager::id_index(
            old(registry).sessions@,
            session_id@,
        ) {
            Some(j) => {
                let meta = old(registry).sessions@[j];
                if meta.session_type == crate::session::SessionType::Console && meta.device_id
                    is Some {
                    match crate::manager::device_index(
                        old(registry).console_sessions@,
                        meta.device_id.unwrap()@,
                    ) {
                        Some(k) => old(registry).console_sessions@.remove(k),
                        None => old(registry).console_sessions@,
                    }
                } else {
                    old(registry).console_sessions@
                }
            },
            None => old(registry).console_sessions@,
        }),
{
    registry.finish_close(session_id.as_str());
    let mut response = blank_session_response(SessionAction::Close);
    response.session_id = Some(session_id);
    response
}

/// Whether an optional cursor string parses: absent, or a non-empty run of
/// decimal digits whose value fits in 64 bits.
pub open spec fn cursor_ok(cursor: Option<String>) -> bool {
    match cursor {
        None => true,
        Some(c) => {
            let b = vstd::utf8::encode_utf8(c@);
            b.len() > 0 && crate::text::all_digits(b) && crate::text::digits_value(b) <= u64::MAX
        },
    }
}

/// Whether an optional pattern string compiles.
pub open spec fn pattern_ok(pattern: Option<String>) -> bool {
    match pattern {
        None => true,
        Some(p) => crate::pattern::regex_valid(p@),
    }
}

/// Whether every input-hint pattern compiles.
pub open spec fn hints_ok(hints: Option<crate::session::InputHints>) -> bool {
    match hints {
        None => true,
        Some(h) => match h.wait_for_regexes {
            None => true,
            Some(ps) => forall|i: int|
                0 <= i < ps@.len() ==> crate::pattern::regex_valid(#[trigger] ps@[i]@),
        },
    }
}

/// Whether a cursor read request is admissible: the cursor parses and every
/// given pattern compiles.
pub open spec fn read_request_ok(
    cursor: Option<String>,
    until_regex: Option<String>,
    hints: Option<crate::session::InputHints>,
) -> bool {
    cursor_ok(cursor) && pattern_ok(until_regex) && hints_ok(hints)
}

/// What the I/O tool decided for a write: the exact bytes to hand to the
/// backend (already normalized for the session's line-ending policy) or
/// the refusal.
#[derive(Debug)]
pub enum IoStep {
    NeedWrite { index: usize, bytes: Vec<u8>, sensitive: bool },
    NeedRead { index: usize, params: ReadParams },
    NeedTail { index: usize, request: SessionTailRequest },
}

/// Validate an I/O request and prepare the backend work: a write becomes
/// the normalized bytes to send (after the lock check), a read becomes the
/// resolved read parameters.
pub fn handle_session_io(
    registry: &mut SessionRegistry,
    req: SessionIoRequest,
    telnet_line_ending: TelnetLineEnding,
    default_read_timeout_ms: u64,
    now: u64,
) -> (r: ApiResult<IoStep>)
    ensures
        req.action == IoAction::Write && req.data is Some && req.key is Some ==> r is Err,
        req.action == IoAction::Write && req.data is None && req.key is None ==> r is Err,
        r is Ok && req.action == IoAction::Write ==> r.unwrap() matches IoStep::NeedWrite { .. },
        r is Ok <==> (crate::manager::id_index(old(registry).sessions@, req.session_id@)
            is Some && (match req.action {
            IoAction::Write => ({
                let j = crate::manager::id_index(
                    old(registry).sessions@,
                    req.session_id@,
                ).unwrap();
                let meta = old(registry).sessions@[j];
                &&& crate::locks::write_access_allowed(
                    meta.lock@,
                    meta.session_type,
                    match req.task_id {
                        Some(ref t) => Some(t@),
                        None => None,
                    },
                    now,
                )
                &&& !(req.data is Some && req.key is Some)
                &&& (req.data is Some || req.key is Some)
                &&& (match req.data {
                    Some(ref d) => match req.encoding {
                        Some(Encoding::Base64) => crate::encoding::base64_decoding(d@) is Some,
                        _ => true,
                    },
                    None => true,
                })
            }),
            IoAction::Read => (match req.mode {
                Some(ReadMode::Tail) => true,
                _ => read_request_ok(req.cursor, req.until_regex, req.input_hints),
            }),
        })),
        r is Ok && req.action == IoAction::Read ==> (match req.mode {
            Some(ReadMode::Tail) => (r.unwrap() matches IoStep::NeedTail { index, ref request }
                && Some(index as int) == crate::manager::id_index(
                old(registry).sessions@,
                req.session_id@,
            ) && request.session_id@ == req.session_id@ && request.max_bytes == req.max_bytes
                && request.max_lines == req.max_lines && request.encoding == req.encoding),
            _ => (r.unwrap() matches IoStep::NeedRead { index, ref params }
                && Some(index as int) == crate::manager::id_index(
                old(registry).sessions@,
                req.session_id@,
            ) && params.timeout_ms == (match req.timeout_ms {
                Some(ms) => ms,
                None => default_read_timeout_ms,
            }) && params.max_bytes == (match req.max_bytes {
                Some(b) => b,
                None => 65536usize,
            }) && params.include_match == (match req.include_match {
                Some(b) => b,
                None => true,
            }) && params.until_idle_ms == req.until_idle_ms && (req.until_regex is Some
                <==> params.until_regex is Some) && (req.until_regex is Some
                ==> params.until_regex.unwrap()@ == req.until_regex.unwrap()@) && (req.cursor
                is None ==> params.cursor is None) && (req.cursor is Some ==> params.cursor
                is Some && params.cursor.unwrap() == crate::text::digits_value(
                vstd::utf8::encode_utf8(req.cursor.unwrap()@),
            ))),
        }),
        r is Ok && req.action == IoAction::Write ==> (r.unwrap() matches IoStep::NeedWrite {
            index,
            ref bytes,
            sensitive,
        } && {
            let session = crate::manager::id_index(old(registry).sessions@, req.session_id@);
            let protocol = old(registry).sessions@[session.unwrap()].protocol;
            let raw = match req.data {
                Some(ref data) => match req.encoding {
                    Some(Encoding::Base64) => crate::encoding::base64_decoding(
                        data@,
                    ).unwrap(),
                    _ => vstd::utf8::encode_utf8(data@),
                },
                None => crate::keys::key_bytes_spec(protocol, req.key.unwrap()),
            };
            &&& session is Some
            &&& index == session.unwrap()
            &&& sensitive == (req.sensitive == Some(true))
            &&& bytes@ == if protocol == Protocol::Telnet {
                crate::telnet::normalize_line_endings_spec(raw, telnet_line_ending)
            } else {
                raw
            }
        }),
{
    let index = registry.get_session(req.session_id.as_str())?;
    match req.action {
        IoAction::Write => {
            let task_ref: Option<&str> = match &req.task_id {
                Some(t) => Some(t.as_str()),
                None => None,
            };
            let session_type = registry.session_at(index).session_type;
            registry.session_mut(index).lock.ensure_write_access(task_ref, session_type, now)?;
            if req.data.is_some() && req.key.is_some() {
                return Err(
                    ApiError::new(
                        ErrorCode::InvalidArgument,
                        "Specify either data or key, not both".to_owned(),
                    ),
                );
            }
            let sensitive = match req.sensitive {
                Some(s) => s,
                None => false,
            };
            let protocol = registry.session_at(index).protocol;
            let raw: Vec<u8> = if let Some(data) = &req.data {
                let encoding = match req.encoding {
                    Some(e) => e,
                    None => Encoding::Utf8,
                };
                crate::encoding::decode_payload(data.as_str(), encoding)?
            } else if let Some(key) = req.key {
                key_bytes(protocol, key)?
            } else {
                return Err(
                    ApiError::new(
                        ErrorCode::InvalidArgument,
                        "data or key is required".to_owned(),
                    ),
                );
            };
            let bytes = if protocol == Protocol::Telnet {
                normalize_telnet_line_endings(raw.as_slice(), telnet_line_ending)
            } else {
                raw
            };
            Ok(IoStep::NeedWrite { index, bytes, sensitive })
        },
        IoAction::Read => {
            let mode = match req.mode {
                Some(m) => m,
                None => ReadMode::Cursor,
            };
            match mode {
                ReadMode::Cursor => {
                    let read_req = SessionReadRequest {
                        session_id: req.session_id,
                        cursor: req.cursor,
                        timeout_ms: req.timeout_ms,
                        max_bytes: req.max_bytes,
                        until_regex: req.until_regex,
                        include_match: req.include_match,
                        until_idle_ms: req.until_idle_ms,
                        encoding: req.encoding,
                        input_hints: req.input_hints,
                    };
                    let params = resolve_read_params(&read_req, default_read_timeout_ms)?;
                    Ok(IoStep::NeedRead { index, params })
                },
                ReadMode::Tail => {
                    let request = SessionTailRequest {
                        session_id: req.session_id,
                        max_bytes: req.max_bytes,
                        max_lines: req.max_lines,
                        encoding: req.encoding,
                    };
                    Ok(IoStep::NeedTail { index, request })
                },
            }
        },
    }
}

/// Resolve a cursor read request: parse the cursor, compile the terminator
/// and hint patterns, and fill in the defaults (the configured read
/// timeout, a 64 KiB budget, include the match).
pub fn resolve_read_params(req: &SessionReadRequest, default_read_timeout_ms: u64) -> (r:
    ApiResult<ReadParams>)
    ensures
        r is Ok <==> read_request_ok(req.cursor, req.until_regex, req.input_hints),
        r is Err ==> r.unwrap_err().error_code == ErrorCode::InvalidArgument,
        r is Ok ==> ({
            let params = r.unwrap();
            &&& params.timeout_ms == match req.timeout_ms {
                Some(ms) => ms,
                None => default_read_timeout_ms,
            }
            &&& params.max_bytes == match req.max_bytes {
                Some(b) => b,
                None => 65536usize,
            }
            &&& params.include_match == match req.include_match {
                Some(b) => b,
                None => true,
            }
            &&& params.until_idle_ms == req.until_idle_ms
            &&& (req.until_regex is Some <==> params.until_regex is Some)
            &&& (req.until_regex is Some ==> params.until_regex.unwrap()@
                == req.until_regex.unwrap()@)
            &&& (req.cursor is None ==> params.cursor is None)
            &&& (req.cursor is Some ==> params.cursor is Some && params.cursor.unwrap()
                == crate::text::digits_value(vstd::utf8::encode_utf8(req.cursor.unwrap()@)))
            &&& ((match req.input_hints {
                Some(ref h) => h.wait_for_regexes is Some,
                None => false,
            }) <==> params.input_hints is Some)
            &&& (params.input_hints is Some ==> ({
                let ps = req.input_hints.unwrap().wait_for_regexes.unwrap();
                params.input_hints.unwrap()@.len() == ps@.len() && (forall|i: int|
                    0 <= i < ps@.len() ==> (#[trigger] params.input_hints.unwrap()@[i]@)
                        == ps@[i]@)
            }))
        }),
{
    let cursor: Option<u64> = match &req.cursor {
        Some(text) => Some(parse_cursor(text.as_str())?),
        None => None,
    };
    let until_regex: Option<Pattern> = match &req.until_regex {
        Some(pattern) => Some(Pattern::new(pattern.as_str())?),
        None => None,
    };
    let input_hints = crate::exec::compile_input_hints(&req.input_hints)?;
    let timeout_ms = match req.timeout_ms {
        Some(ms) => ms,
        None => default_read_timeout_ms,
    };
    let max_bytes = match req.max_bytes {
        Some(b) => b,
        None => 65536,
    };
    let include_match = match req.include_match {
        Some(b) => b,
        None => true,
    };
    Ok(
        ReadParams {
            cursor,
            timeout_ms,
            max_bytes,
            until_regex,
            include_match,
            until_idle_ms: req.until_idle_ms,
            input_hints,
        },
    )
}

/// Route one configuration request.  Resize returns the backend work;
/// expect and get complete here.
#[derive(Debug)]
pub enum ConfigStep {
    Done(SessionConfigResponse),
    NeedResize { index: usize, cols: u16, rows: u16 },
}

/// Validate and route a configuration request.
pub fn handle_session_config(registry: &mut SessionRegistry, req: SessionConfigRequest) -> (r:
    ApiResult<ConfigStep>)
    ensures
        r is Ok <==> (crate::manager::id_index(old(registry).sessions@, req.session_id@)
            is Some && (match req.action {
            ConfigAction::Resize => req.cols is Some && req.rows is Some,
            ConfigAction::Expect => req.expect is Some,
            ConfigAction::Get => true,
        })),
        r is Err ==> (r.unwrap_err().error_code == ErrorCode::InvalidArgument
            || r.unwrap_err().error_code == ErrorCode::NotFound),
        (req.action == ConfigAction::Resize || req.action == ConfigAction::Get)
            ==> *final(registry) == *old(registry),
        r is Ok && req.action == ConfigAction::Resize ==> (r.unwrap()
            matches ConfigStep::NeedResize { index, cols, rows } && Some(index as int)
            == crate::manager::id_index(old(registry).sessions@, req.session_id@) && cols
            == req.cols.unwrap() && rows == req.rows.unwrap()),
        r is Ok && req.action == ConfigAction::Expect ==> (r.unwrap() matches ConfigStep::Done(
            resp,
        ) && resp.success && ({
            let j = crate::manager::id_index(
                old(registry).sessions@,
                req.session_id@,
            ).unwrap();
            final(registry).sessions@ == old(registry).sessions@.update(
                j,
                (crate::manager::SessionMeta {
                    expect: req.expect.unwrap(),
                    ..old(registry).sessions@[j]
                }),
            )
        })),
        r is Ok && req.action == ConfigAction::Get ==> (r.unwrap() matches ConfigStep::Done(
            resp,
        ) && resp.success && ({
            let j = crate::manager::id_index(
                old(registry).sessions@,
                req.session_id@,
            ).unwrap();
            let meta = old(registry).sessions@[j];
            &&& resp.expect is Some
            &&& crate::session::expect_view_eq(meta.expect, resp.expect.unwrap())
            &&& resp.cols == if meta.pty_enabled {
                Some(meta.pty_cols)
            } else {
                None::<u16>
            }
            &&& resp.rows == if meta.pty_enabled {
                Some(meta.pty_rows)
            } else {
                None::<u16>
            }
        })),
{
    let index = registry.get_session(req.session_id.as_str())?;
    match req.action {
        ConfigAction::Resize => {
            let cols = match req.cols {
                Some(c) => c,
                None => {
                    return Err(
                        ApiError::new(ErrorCode::InvalidArgument, "cols is required".to_owned()),
                    );
                },
            };
            let rows = match req.rows {
                Some(rw) => rw,
                None => {
                    return Err(
                        ApiError::new(ErrorCode::InvalidArgument, "rows is required".to_owned()),
                    );
                },
            };
            Ok(ConfigStep::NeedResize { index, cols, rows })
        },
        ConfigAction::Expect => {
            let expect = match req.expect {
                Some(e) => e,
                None => {
                    return Err(
                        ApiError::new(
                            ErrorCode::InvalidArgument,
                            "expect is required".to_owned(),
                        ),
                    );
                },
            };
            registry.session_mut(index).expect = expect;
            Ok(
                ConfigStep::Done(
                    SessionConfigResponse { success: true, cols: None, rows: None, expect: None },
                ),
            )
        },
        ConfigAction::Get => {
            let meta = registry.session_at(index);
            let (cols, rows) = if meta.pty_enabled {
                (Some(meta.pty_cols), Some(meta.pty_rows))
            } else {
                (None, None)
            };
            let expect = crate::session::copy_expect_config(&meta.expect);
            Ok(
                ConfigStep::Done(
                    SessionConfigResponse { success: true, cols, rows, expect: Some(expect) },
                ),
            )
        },
    }
}

/// Finish a resize whose backend succeeded: record the new dimensions.
pub fn finish_resize(registry: &mut SessionRegistry, index: usize, cols: u16, rows: u16) -> (r:
    SessionConfigResponse)
    requires
        index < old(registry).sessions@.len(),
    ensures
        r.success == true,
        final(registry).sessions@[index as int].pty_cols == cols,
        final(registry).sessions@[index as int].pty_rows == rows,
    {
    let meta = registry.session_mut(index);
    meta.pty_cols = cols;
    meta.pty_rows = rows;
    SessionConfigResponse { success: true, cols: None, rows: None, expect: None }
}

/// Everything the exec loop needs before its first read: the wrapped
/// command to write, the markers, the terminator pattern, and the resolved
/// timeouts.
#[derive(Debug)]
pub struct ExecPlan {
    pub index: usize,
    pub command: String,
    pub rc_enabled: bool,
    pub marker_prefix: String,
    pub marker_suffix: String,
    pub fallback_marker: Option<(String, String)>,
    pub until_regex: Option<Pattern>,
    pub timeout_ms: u64,
    pub until_idle_ms: Option<u64>,
    pub error_regexes: Vec<Pattern>,
    pub prompt_regex_present: bool,
}

/// Whether an exec request is admitted: the session exists, the caller has
/// write access, the prompt and error patterns of the expect configuration
/// in use compile, and (when exit-code capture is on) so does the marker
/// terminator derived from the request's markers and the fallback token.
/// The expect configuration an exec request works with: the request's own,
/// else the session's stored one.
pub open spec fn exec_expect_used(
    reg: SessionRegistry,
    req: crate::session::SessionExecRequest,
    j: int,
) -> crate::session::ExpectConfig {
    match req.expect {
        Some(e) => e,
        None => reg.sessions@[j].expect,
    }
}

pub open spec fn exec_admissible(
    reg: SessionRegistry,
    req: crate::session::SessionExecRequest,
    fallback_token: Seq<char>,
    now: u64,
) -> bool {
    match crate::manager::id_index(reg.sessions@, req.session_id@) {
        Some(j) => {
            let meta = reg.sessions@[j];
            let expect_used = exec_expect_used(reg, req, j);
            &&& crate::locks::write_access_allowed(
                meta.lock@,
                meta.session_type,
                match req.task_id {
                    Some(t) => Some(t@),
                    None => None,
                },
                now,
            )
            &&& (match expect_used.prompt_regex {
                Some(p) => crate::pattern::regex_valid(p@),
                None => true,
            })
            &&& (match expect_used.error_regexes {
                Some(ps) => forall|i: int|
                    0 <= i < ps@.len() ==> crate::pattern::regex_valid(#[trigger] ps@[i]@),
                None => true,
            })
            &&& (crate::exec::exec_rc_enabled(req.rc_mode)
                ==> crate::pattern::regex_valid(crate::exec::combined_marker_pattern_spec(
                crate::exec::exec_marker_prefix_spec(req.rc_mode),
                crate::exec::exec_marker_suffix_spec(req.rc_mode),
                crate::exec::exec_fallback_pair_spec(req.rc_mode, fallback_token),
            )))
        },
        None => false,
    }
}

/// Validate an exec request and prepare the marker protocol: check write
/// access, resolve the markers (deriving the fallback pair from the given
/// token when the defaults are in use), wrap the command, and compile the
/// terminator.  The token comes from the caller so that the whole plan is a
/// function of its arguments.
pub fn plan_exec(
    registry: &mut SessionRegistry,
    req: &crate::session::SessionExecRequest,
    default_exec_timeout_ms: u64,
    fallback_token: &str,
    now: u64,
) -> (r: ApiResult<ExecPlan>)
    ensures
        r is Ok <==> exec_admissible(*old(registry), *req, fallback_token@, now),
        r is Err ==> r.unwrap_err().error_code == ErrorCode::InvalidArgument
            || r.unwrap_err().error_code == ErrorCode::NotFound,
        r is Ok ==> ({
            let plan = r.unwrap();
            &&& Some(plan.index as int) == crate::manager::id_index(
                old(registry).sessions@,
                req.session_id@,
            )
            &&& plan.rc_enabled == crate::exec::exec_rc_enabled(req.rc_mode)
            &&& plan.marker_prefix@ == crate::exec::exec_marker_prefix_spec(req.rc_mode)
            &&& plan.marker_suffix@ == crate::exec::exec_marker_suffix_spec(req.rc_mode)
            &&& (match plan.fallback_marker {
                Some(ref pair) => Some((pair.0@, pair.1@)),
                None => None,
            }) == crate::exec::exec_fallback_pair_spec(req.rc_mode, fallback_token@)
            &&& plan.timeout_ms == match req.timeout_ms {
                Some(ms) => ms,
                None => default_exec_timeout_ms,
            }
            &&& plan.until_idle_ms == req.until_idle_ms
            &&& plan.command@ == crate::exec::exec_command_spec(
                req.cmd@,
                plan.rc_enabled,
                plan.marker_prefix@,
                plan.marker_suffix@,
                match plan.fallback_marker {
                    Some(ref pair) => Some((pair.0@, pair.1@)),
                    None => None,
                },
            )
            &&& (plan.rc_enabled ==> plan.until_regex is Some
                && plan.until_regex.unwrap()@ == crate::exec::combined_marker_pattern_spec(
                plan.marker_prefix@,
                plan.marker_suffix@,
                match plan.fallback_marker {
                    Some(ref pair) => Some((pair.0@, pair.1@)),
                    None => None,
                },
            ))
        }),
{
    let index = registry.get_session(req.session_id.as_str())?;
    let task_ref: Option<&str> = match &req.task_id {
        Some(t) => Some(t.as_str()),
        None => None,
    };
    let session_type = registry.session_at(index).session_type;
    let expect_owned: crate::session::ExpectConfig = match &req.expect {
        Some(e) => crate::session::copy_expect_config(e),
        None => crate::session::copy_expect_config(&registry.session_at(index).expect),
    };
    registry.session_mut(index).lock.ensure_write_access(task_ref, session_type, now)?;
    let (rc_enabled, uses_default_markers, marker_prefix, marker_suffix) = match &req.rc_mode {
        Some(m) => {
            let enabled = match m.enabled {
                Some(b) => b,
                None => true,
            };
            let uses_default = m.marker_prefix.is_none() && m.marker_suffix.is_none();
            let prefix = match &m.marker_prefix {
                Some(p) => p.clone(),
                None => default_marker_prefix(),
            };
            let suffix = match &m.marker_suffix {
                Some(sfx) => sfx.clone(),
                None => default_marker_suffix(),
            };
            (enabled, uses_default, prefix, suffix)
        },
        None => (true, true, default_marker_prefix(), default_marker_suffix()),
    };
    let fallback_marker: Option<(String, String)> = if rc_enabled && uses_default_markers {
        Some(fallback_marker_pair(fallback_token))
    } else {
        None
    };
    let ghost expect_used = exec_expect_used(*old(registry), *req, index as int);
    proof {
        assert(crate::session::expect_view_eq(expect_used, expect_owned));
    }
    let prompt_regex: Option<Pattern> = match &expect_owned.prompt_regex {
        Some(pattern) => Some(Pattern::new(pattern.as_str())?),
        None => None,
    };
    let prompt_regex_present = prompt_regex.is_some();
    let mut error_regexes: Vec<Pattern> = Vec::new();
    if let Some(patterns) = &expect_owned.error_regexes {
        let ghost spec_patterns = expect_used.error_regexes.unwrap();
        proof {
            assert(spec_patterns.deep_view() == patterns.deep_view());
        }
        let mut i: usize = 0;
        while i < patterns.len()
            invariant
                i <= patterns@.len(),
                Some(index as int) == crate::manager::id_index(
                    old(registry).sessions@,
                    req.session_id@,
                ),
                expect_used == exec_expect_used(*old(registry), *req, index as int),
                expect_used.error_regexes is Some,
                spec_patterns == expect_used.error_regexes.unwrap(),
                spec_patterns.deep_view() == patterns.deep_view(),
                forall|j: int|
                    0 <= j < i ==> crate::pattern::regex_valid(#[trigger] patterns@[j]@),
            decreases patterns@.len() - i,
        {
            let compiled = match Pattern::new(patterns[i].as_str()) {
                Ok(p) => p,
                Err(e) => {
                    proof {
                        assert(spec_patterns.deep_view().len() == spec_patterns@.len());
                        assert(patterns.deep_view().len() == patterns@.len());
                        assert(spec_patterns@.len() == patterns@.len());
                        assert(spec_patterns@[i as int]@ == patterns@[i as int]@) by {
                            assert(spec_patterns.deep_view()[i as int] == spec_patterns@[
                                i as int
                            ]@);
                            assert(patterns.deep_view()[i as int] == patterns@[i as int]@);
                        }
                        assert(!(forall|j: int|
                            0 <= j < spec_patterns@.len() ==> crate::pattern::regex_valid(
                                #[trigger] spec_patterns@[j]@,
                            ))) by {
                            assert(!crate::pattern::regex_valid(spec_patterns@[i as int]@));
                        }
                    }
                    return Err(e);
                },
            };
            error_regexes.push(compiled);
            i = i + 1;
        }
        proof {
            assert(spec_patterns.deep_view().len() == spec_patterns@.len());
            assert(patterns.deep_view().len() == patterns@.len());
            assert forall|j: int| 0 <= j < spec_patterns@.len() implies
                crate::pattern::regex_valid(#[trigger] spec_patterns@[j]@) by {
                assert(spec_patterns.deep_view()[j] == spec_patterns@[j]@);
                assert(patterns.deep_view()[j] == patterns@[j]@);
            }
        }
    }
    let until_regex: Option<Pattern> = if rc_enabled {
        let fallback_ref: Option<&(String, String)> = match &fallback_marker {
            Some(pair) => Some(pair),
            None => None,
        };
        Some(
            build_marker_regex(marker_prefix.as_str(), marker_suffix.as_str(), fallback_ref)?,
        )
    } else {
        prompt_regex
    };
    let command = build_exec_command(
        req.cmd.as_str(),
        rc_enabled,
        marker_prefix.as_str(),
        marker_suffix.as_str(),
        match &fallback_marker {
            Some(pair) => Some(pair),
            None => None,
        },
    );
    let timeout_ms = match req.timeout_ms {
        Some(ms) => ms,
        None => default_exec_timeout_ms,
    };
    Ok(
        ExecPlan {
            index,
            command,
            rc_enabled,
            marker_prefix,
            marker_suffix,
            fallback_marker,
            until_regex,
            timeout_ms,
            until_idle_ms: req.until_idle_ms,
            error_regexes,
            prompt_regex_present,
        },
    )
}

/// Draw a fresh fallback token and plan the exec with it.  The token is
/// random, so this function promises only what holds of every draw;
/// `plan_exec` itself is exact in the token.
pub fn plan_exec_fresh(
    registry: &mut SessionRegistry,
    req: &crate::session::SessionExecRequest,
    default_exec_timeout_ms: u64,
    now: u64,
) -> (r: ApiResult<ExecPlan>)
    ensures
        r is Err ==> r.unwrap_err().error_code == ErrorCode::InvalidArgument
            || r.unwrap_err().error_code == ErrorCode::NotFound,
        r is Ok ==> ({
            let plan = r.unwrap();
            &&& Some(plan.index as int) == crate::manager::id_index(
                old(registry).sessions@,
                req.session_id@,
            )
            &&& plan.rc_enabled == crate::exec::exec_rc_enabled(req.rc_mode)
            &&& plan.marker_prefix@ == crate::exec::exec_marker_prefix_spec(req.rc_mode)
            &&& plan.marker_suffix@ == crate::exec::exec_marker_suffix_spec(req.rc_mode)
            &&& (plan.fallback_marker is Some <==> (crate::exec::exec_rc_enabled(req.rc_mode)
                && crate::exec::exec_uses_default_markers(req.rc_mode)))
            &&& plan.timeout_ms == match req.timeout_ms {
                Some(ms) => ms,
                None => default_exec_timeout_ms,
            }
            &&& plan.until_idle_ms == req.until_idle_ms
            &&& plan.command@ == crate::exec::exec_command_spec(
                req.cmd@,
                plan.rc_enabled,
                plan.marker_prefix@,
                plan.marker_suffix@,
                match plan.fallback_marker {
                    Some(ref pair) => Some((pair.0@, pair.1@)),
                    None => None,
                },
            )
            &&& (plan.rc_enabled ==> plan.until_regex is Some
                && plan.until_regex.unwrap()@ == crate::exec::combined_marker_pattern_spec(
                plan.marker_prefix@,
                plan.marker_suffix@,
                match plan.fallback_marker {
                    Some(ref pair) => Some((pair.0@, pair.1@)),
                    None => None,
                },
            ))
        }),
{
    let token = crate::exec::fresh_token();
    plan_exec(registry, req, default_exec_timeout_ms, token.as_str(), now)
}

/// One parsed admin-socket call.
#[derive(Debug)]
pub enum ToolCall {
    Session(SessionRequest),
    Io(SessionIoRequest),
    Config(SessionConfigRequest),
    Exec(crate::session::SessionExecRequest),
}

/// Whether a call is permitted in read-only control mode: listing and
/// status of sessions, reads, and configuration gets — nothing that
/// writes, opens, closes, locks or executes.
pub fn is_readonly_control_request(call: &ToolCall) -> (r: bool)
    ensures
        r == match *call {
            ToolCall::Session(ref req) => req.action == SessionAction::List || req.action
                == SessionAction::Status,
            ToolCall::Io(ref req) => req.action == IoAction::Read,
            ToolCall::Config(ref req) => req.action == ConfigAction::Get,
            ToolCall::Exec(_) => false,
        },
{
    match call {
        ToolCall::Session(req) => req.action == SessionAction::List || req.action
            == SessionAction::Status,
        ToolCall::Io(req) => req.action == IoAction::Read,
        ToolCall::Config(req) => req.action == ConfigAction::Get,
        ToolCall::Exec(_) => false,
    }
}

} // verus!
