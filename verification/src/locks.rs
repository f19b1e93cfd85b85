//! Advisory task locks on a session, with TTL-based expiry.
//!
//! A lock is held iff `expires_at > now`; an expired lock is
//! indistinguishable from "unlocked" and is pruned on next observation.
//! Console sessions additionally require a lock holder for any write.

use vstd::prelude::*;

use crate::errors::{ApiError, ApiResult, ErrorCode};
use crate::session::SessionType;
use crate::text::str_eq;

verus! {

/// Who holds the lock, since when, until when, and the heartbeat interval
/// that renewals default to.
#[derive(Debug, Clone)]
pub struct LockInfo {
    pub task_id: String,
    pub acquired_at: u64,
    pub expires_at: u64,
    pub heartbeat_interval_ms: u64,
}

/// Spec-level image of a `LockInfo`.
pub struct LockModel {
    pub task_id: Seq<char>,
    pub acquired_at: u64,
    pub expires_at: u64,
    pub heartbeat_interval_ms: u64,
}

impl View for LockInfo {
    type V = LockModel;

    open spec fn view(&self) -> LockModel {
        LockModel {
            task_id: self.task_id@,
            acquired_at: self.acquired_at,
            expires_at: self.expires_at,
            heartbeat_interval_ms: self.heartbeat_interval_ms,
        }
    }
}

/// The advisory lock slot of one session.
#[derive(Debug)]
pub struct SessionLock {
    holder: Option<LockInfo>,
}

impl View for SessionLock {
    type V = Option<LockModel>;

    closed spec fn view(&self) -> Option<LockModel> {
        match self.holder {
            Some(ref info) => Some(info@),
            None => None,
        }
    }
}

/// Addition clamped to the 64-bit range.
pub open spec fn sat_add(a: u64, b: u64) -> u64 {
    if a + b <= u64::MAX {
        (a + b) as u64
    } else {
        u64::MAX
    }
}

/// TTLs clamp up to one millisecond.
pub open spec fn clamp_ttl(ttl: u64) -> u64 {
    if ttl >= 1 {
        ttl
    } else {
        1u64
    }
}

/// Expired locks read as absent.
pub open spec fn prune_spec(holder: Option<LockModel>, now: u64) -> Option<LockModel> {
    match holder {
        Some(info) => if info.expires_at <= now {
            None
        } else {
            Some(info)
        },
        None => None,
    }
}

/// What `lock` does: extend when the caller already holds it, refuse when
/// another task holds it, grant when free.  The second component is whether
/// the lock was granted.
pub open spec fn lock_transition(
    holder: Option<LockModel>,
    task: Seq<char>,
    ttl_raw: u64,
    now: u64,
) -> (Option<LockModel>, bool) {
    let pruned = prune_spec(holder, now);
    let ttl = clamp_ttl(ttl_raw);
    match pruned {
        Some(info) => if info.task_id == task {
            (
                Some(
                    LockModel {
                        expires_at: sat_add(now, ttl),
                        heartbeat_interval_ms: ttl,
                        ..info
                    },
                ),
                true,
            )
        } else {
            (pruned, false)
        },
        None => (
            Some(
                LockModel {
                    task_id: task,
                    acquired_at: now,
                    expires_at: sat_add(now, ttl),
                    heartbeat_interval_ms: ttl,
                },
            ),
            true,
        ),
    }
}

/// What `heartbeat` does: renew for the holder (defaulting the TTL to the
/// stored interval), refuse anyone else, refuse when unlocked.
pub open spec fn heartbeat_transition(
    holder: Option<LockModel>,
    task: Seq<char>,
    ttl_raw: Option<u64>,
    now: u64,
) -> (Option<LockModel>, bool) {
    let pruned = prune_spec(holder, now);
    match pruned {
        Some(info) => if info.task_id == task {
            let ttl = clamp_ttl(
                match ttl_raw {
                    Some(t) => t,
                    None => info.heartbeat_interval_ms,
                },
            );
            (
                Some(
                    LockModel {
                        expires_at: sat_add(now, ttl),
                        heartbeat_interval_ms: ttl,
                        ..info
                    },
                ),
                true,
            )
        } else {
            (pruned, false)
        },
        None => (None, false),
    }
}

/// What `unlock` does: clear for the holder, refuse anyone else, refuse
/// when unlocked.
pub open spec fn unlock_transition(holder: Option<LockModel>, task: Seq<char>, now: u64) -> (
    Option<LockModel>,
    bool,
) {
    let pruned = prune_spec(holder, now);
    match pruned {
        Some(info) => if info.task_id == task {
            (None, true)
        } else {
            (pruned, false)
        },
        None => (None, false),
    }
}

/// Whether a caller may write: the holder alone while a lock is active, and
/// on console sessions nobody without a lock.
pub open spec fn write_access_allowed(
    holder: Option<LockModel>,
    session_type: SessionType,
    task_id: Option<Seq<char>>,
    now: u64,
) -> bool {
    match prune_spec(holder, now) {
        Some(info) => task_id == Some(info.task_id),
        None => session_type != SessionType::Console,
    }
}

/// A field-by-field copy with an equal view.
fn copy_lock_info(info: &LockInfo) -> (r: LockInfo)
    ensures
        r@ == info@,
{
    LockInfo {
        task_id: info.task_id.clone(),
        acquired_at: info.acquired_at,
        expires_at: info.expires_at,
        heartbeat_interval_ms: info.heartbeat_interval_ms,
    }
}

impl SessionLock {
    /// An unlocked slot.
    pub fn new() -> (r: Self)
        ensures
            r@ is None,
    {
        SessionLock { holder: None }
    }

    /// Drop the lock if it has expired.
    pub fn prune_expired_lock(&mut self, now: u64)
        ensures
            final(self)@ == prune_spec(old(self)@, now),
    {
        let expired = match &self.holder {
            Some(info) => info.expires_at <= now,
            None => false,
        };
        if expired {
            self.holder = None;
        }
    }

    /// The current holder after pruning, if any.
    pub fn lock_status(&mut self, now: u64) -> (r: Option<LockInfo>)
        ensures
            final(self)@ == prune_spec(old(self)@, now),
            match r {
                Some(info) => final(self)@ == Some(info@),
                None => final(self)@ is None,
            },
    {
        self.prune_expired_lock(now);
        match &self.holder {
            Some(info) => Some(copy_lock_info(info)),
            None => None,
        }
    }

    /// Acquire or extend the lock for `task_id` with the given TTL.
    /// Fails with `invalid_argument` naming the holder when another task
    /// holds the lock.
    pub fn lock(&mut self, task_id: &str, ttl_ms: u64, now: u64) -> (r: ApiResult<LockInfo>)
        ensures
            final(self)@ == lock_transition(old(self)@, task_id@, ttl_ms, now).0,
            r is Ok <==> lock_transition(old(self)@, task_id@, ttl_ms, now).1,
            r is Ok ==> final(self)@ == Some(r.unwrap()@),
            r is Err ==> r.unwrap_err().error_code == ErrorCode::InvalidArgument,
            r is Err ==> r.unwrap_err().message@ == "Session locked by task "@
                + prune_spec(old(self)@, now).unwrap().task_id,
    {
        let ttl = if ttl_ms >= 1 {
            ttl_ms
        } else {
            1
        };
        self.prune_expired_lock(now);
        let expires_at = if now <= u64::MAX - ttl {
            now + ttl
        } else {
            u64::MAX
        };
        match &mut self.holder {
            Some(info) => {
                if str_eq(info.task_id.as_str(), task_id) {
                    info.expires_at = expires_at;
                    info.heartbeat_interval_ms = ttl;
                    Ok(copy_lock_info(info))
                } else {
                    Err(
                        ApiError::new(
                            ErrorCode::InvalidArgument,
                            "Session locked by task ".to_owned().concat(info.task_id.as_str()),
                        ),
                    )
                }
            },
            None => {
                let info = LockInfo {
                    task_id: task_id.to_owned(),
                    acquired_at: now,
                    expires_at,
                    heartbeat_interval_ms: ttl,
                };
                let copy = copy_lock_info(&info);
                self.holder = Some(info);
                Ok(copy)
            },
        }
    }

    /// Renew the lock for its holder; the TTL defaults to the stored
    /// heartbeat interval.
    pub fn heartbeat(&mut self, task_id: &str, ttl_ms: Option<u64>, now: u64) -> (r: ApiResult<
        LockInfo,
    >)
        ensures
            final(self)@ == heartbeat_transition(old(self)@, task_id@, ttl_ms, now).0,
            r is Ok <==> heartbeat_transition(old(self)@, task_id@, ttl_ms, now).1,
            r is Ok ==> final(self)@ == Some(r.unwrap()@),
            r is Err ==> r.unwrap_err().error_code == ErrorCode::InvalidArgument,
            r is Err ==> r.unwrap_err().message@ == match prune_spec(old(self)@, now) {
                Some(info) => "Session locked by task "@ + info.task_id,
                None => "Session is not locked"@,
            },
    {
        self.prune_expired_lock(now);
        match &mut self.holder {
            Some(info) => {
                if str_eq(info.task_id.as_str(), task_id) {
                    let raw = match ttl_ms {
                        Some(t) => t,
                        None => info.heartbeat_interval_ms,
                    };
                    let ttl = if raw >= 1 {
                        raw
                    } else {
                        1
                    };
                    info.heartbeat_interval_ms = ttl;
                    info.expires_at = if now <= u64::MAX - ttl {
                        now + ttl
                    } else {
                        u64::MAX
                    };
                    Ok(copy_lock_info(info))
                } else {
                    Err(
                        ApiError::new(
                            ErrorCode::InvalidArgument,
                            "Session locked by task ".to_owned().concat(info.task_id.as_str()),
                        ),
                    )
                }
            },
            None => Err(
                ApiError::new(ErrorCode::InvalidArgument, "Session is not locked".to_owned()),
            ),
        }
    }

    /// Release the lock; only the holder may.
    pub fn unlock(&mut self, task_id: &str, now: u64) -> (r: ApiResult<()>)
        ensures
            final(self)@ == unlock_transition(old(self)@, task_id@, now).0,
            r is Ok <==> unlock_transition(old(self)@, task_id@, now).1,
            r is Err ==> r.unwrap_err().error_code == ErrorCode::InvalidArgument,
            r is Err ==> r.unwrap_err().message@ == match prune_spec(old(self)@, now) {
                Some(info) => "Session locked by task "@ + info.task_id,
                None => "Session is not locked"@,
            },
    {
        self.prune_expired_lock(now);
        match &self.holder {
            Some(info) => {
                if str_eq(info.task_id.as_str(), task_id) {
                    self.holder = None;
                    Ok(())
                } else {
                    Err(
                        ApiError::new(
                            ErrorCode::InvalidArgument,
                            "Session locked by task ".to_owned().concat(info.task_id.as_str()),
                        ),
                    )
                }
            },
            None => Err(
                ApiError::new(ErrorCode::InvalidArgument, "Session is not locked".to_owned()),
            ),
        }
    }

    /// Enforce the write policy: succeeds exactly when
    /// `write_access_allowed` says so.
    pub fn ensure_write_access(
        &mut self,
        task_id: Option<&str>,
        session_type: SessionType,
        now: u64,
    ) -> (r: ApiResult<()>)
        ensures
            final(self)@ == prune_spec(old(self)@, now),
            r is Ok <==> write_access_allowed(
                old(self)@,
                session_type,
                match task_id {
                    Some(t) => Some(t@),
                    None => None,
                },
                now,
            ),
            r is Err ==> r.unwrap_err().error_code == ErrorCode::InvalidArgument,
            r is Err ==> r.unwrap_err().message@ == match prune_spec(old(self)@, now) {
                Some(info) => match task_id {
                    None => "task_id is required for locked sessions"@,
                    Some(_) => "Session locked by task "@ + info.task_id,
                },
                None => "Console sessions require a lock for write access"@,
            },
    {
        self.prune_expired_lock(now);
        match &self.holder {
            Some(info) => {
                match task_id {
                    None => Err(
                        ApiError::new(
                            ErrorCode::InvalidArgument,
                            "task_id is required for locked sessions".to_owned(),
                        ),
                    ),
                    Some(t) => {
                        if str_eq(info.task_id.as_str(), t) {
                            Ok(())
                        } else {
                            Err(
                                ApiError::new(
                                    ErrorCode::InvalidArgument,
                                    "Session locked by task ".to_owned().concat(
                                        info.task_id.as_str(),
                                    ),
                                ),
                            )
                        }
                    },
                }
            },
            None => {
                if session_type == SessionType::Console {
                    Err(
                        ApiError::new(
                            ErrorCode::InvalidArgument,
                            "Console sessions require a lock for write access".to_owned(),
                        ),
                    )
                } else {
                    Ok(())
                }
            },
        }
    }
}

/// Lock exclusion: once `lock` grants the lock to a task with a positive
/// TTL, that task has write access while the lock is unexpired, and any
/// other task — or an anonymous caller — is refused, whatever the session
/// type.
pub proof fn lemma_lock_exclusion(
    holder: Option<LockModel>,
    task: Seq<char>,
    ttl_ms: u64,
    now: u64,
    later: u64,
    other: Option<Seq<char>>,
    session_type: SessionType,
)
    requires
        lock_transition(holder, task, ttl_ms, now).1,
        now <= later < sat_add(now, clamp_ttl(ttl_ms)),
        other != Some(task),
    ensures
        write_access_allowed(lock_transition(holder, task, ttl_ms, now).0, session_type, Some(task), later),
        !write_access_allowed(lock_transition(holder, task, ttl_ms, now).0, session_type, other, later),
{
}

/// Console write guard: a console session with no active lock rejects
/// writes from every caller, named or anonymous.
pub proof fn lemma_console_requires_lock(
    holder: Option<LockModel>,
    task_id: Option<Seq<char>>,
    now: u64,
)
    requires
        prune_spec(holder, now) is None,
    ensures
        !write_access_allowed(holder, SessionType::Console, task_id, now),
{
}

} // verus!
