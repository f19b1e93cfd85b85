//! Deterministic assembly of the ssh command line.
//!
//! The argument list is a fixed sequence of segments: port, login name,
//! host-key policy, known-hosts file, config-file handling, pinned
//! authentication methods, caller extras, connect timeout, identity file,
//! the PTY flag, and the host last.

use vstd::prelude::*;

use crate::config::{ascii_lower_bytes, HostKeyPolicy, SshConfig};
use crate::errors::{ApiError, ApiResult};
use crate::session::{SshAuth, SshOptions};
use crate::text::{dec_chars_spec, format_cursor};
use vstd::string::StringSliceAdditionalSpecFns;

verus! {

/// Everything the argument builder looks at.
pub struct SshArgsConfig {
    pub host: String,
    pub port: u16,
    pub username: Option<String>,
    pub auth: Option<SshAuth>,
    pub options: Option<SshOptions>,
    pub ssh_config: SshConfig,
    pub key_path: Option<String>,
    pub connect_timeout_ms: u64,
    pub pty_enabled: bool,
}

/// `-p <port>`.
pub open spec fn seg_port(c: SshArgsConfig) -> Seq<Seq<char>> {
    seq!["-p"@, dec_chars_spec(c.port as u64)]
}

/// `-l <username>` when a login name was given.
pub open spec fn seg_user(c: SshArgsConfig) -> Seq<Seq<char>> {
    match c.username {
        Some(user) => seq!["-l"@, user@],
        None => Seq::empty(),
    }
}

/// The effective host-key policy value: the per-request option string
/// (matched case-insensitively) wins over the global policy; anything
/// unrecognised falls back to strict checking.
pub open spec fn policy_value_spec(c: SshArgsConfig) -> Seq<char> {
    let from_option = match c.options {
        Some(opts) => opts.host_key_policy,
        None => None,
    };
    match from_option {
        Some(p) => {
            let l = ascii_lower_bytes(vstd::utf8::encode_utf8(p@));
            if l == ascii_lower_bytes("acceptnew".spec_bytes()) || l == ascii_lower_bytes(
                "accept_new".spec_bytes(),
            ) || l == ascii_lower_bytes("accept-new".spec_bytes()) {
                "StrictHostKeyChecking=accept-new"@
            } else if l == ascii_lower_bytes("disabled".spec_bytes()) {
                "StrictHostKeyChecking=no"@
            } else {
                "StrictHostKeyChecking=yes"@
            }
        },
        None => match c.ssh_config.host_key_policy {
            HostKeyPolicy::Strict => "StrictHostKeyChecking=yes"@,
            HostKeyPolicy::AcceptNew => "StrictHostKeyChecking=accept-new"@,
            HostKeyPolicy::Disabled => "StrictHostKeyChecking=no"@,
        },
    }
}

/// `-o StrictHostKeyChecking=<value>`, always present.
pub open spec fn seg_policy(c: SshArgsConfig) -> Seq<Seq<char>> {
    seq!["-o"@, policy_value_spec(c)]
}

/// The effective known-hosts path: the non-empty per-request path, else
/// the global one.
pub open spec fn known_hosts_spec(c: SshArgsConfig) -> Seq<char> {
    let from_option = match c.options {
        Some(opts) => opts.known_hosts_path,
        None => None,
    };
    match from_option {
        Some(p) => if p@.len() > 0 {
            p@
        } else {
            c.ssh_config.known_hosts_path@
        },
        None => c.ssh_config.known_hosts_path@,
    }
}

/// `-o UserKnownHostsFile=<path>` when a known-hosts path is configured.
pub open spec fn seg_known_hosts(c: SshArgsConfig) -> Seq<Seq<char>> {
    if known_hosts_spec(c).len() > 0 {
        seq!["-o"@, "UserKnownHostsFile="@ + known_hosts_spec(c)]
    } else {
        Seq::empty()
    }
}

/// Whether the OpenSSH configuration file is consulted.
pub open spec fn use_config_spec(c: SshArgsConfig) -> bool {
    let from_option = match c.options {
        Some(opts) => opts.use_openssh_config,
        None => None,
    };
    match from_option {
        Some(b) => b,
        None => c.ssh_config.use_openssh_config,
    }
}

/// The effective config path: the non-empty per-request path, else the
/// global one.
pub open spec fn config_path_spec(c: SshArgsConfig) -> Seq<char> {
    let from_option = match c.options {
        Some(opts) => opts.config_path,
        None => None,
    };
    match from_option {
        Some(p) => if p@.len() > 0 {
            p@
        } else {
            c.ssh_config.config_path@
        },
        None => c.ssh_config.config_path@,
    }
}

/// `-F /dev/null` when config use is disabled; otherwise `-F <path>` if a
/// config path is set.
pub open spec fn seg_config_file(c: SshArgsConfig) -> Seq<Seq<char>> {
    if !use_config_spec(c) {
        seq!["-F"@, "/dev/null"@]
    } else if config_path_spec(c).len() > 0 {
        seq!["-F"@, config_path_spec(c)]
    } else {
        Seq::empty()
    }
}

/// `PreferredAuthentications` pinned to public-key for the agent method,
/// or to password methods for the password method.
pub open spec fn seg_auth(c: SshArgsConfig) -> Seq<Seq<char>> {
    let method = match c.auth {
        Some(auth) => auth.method,
        None => None,
    };
    match method {
        Some(m) => if m@ == "agent"@ {
            seq!["-o"@, "PreferredAuthentications=publickey"@]
        } else if m@ == "password"@ {
            seq!["-o"@, "PreferredAuthentications=password,keyboard-interactive"@]
        } else {
            Seq::empty()
        },
        None => Seq::empty(),
    }
}

/// Caller-supplied extra arguments, in order.
pub open spec fn seg_extra(c: SshArgsConfig) -> Seq<Seq<char>> {
    let extra = match c.options {
        Some(opts) => opts.extra_args,
        None => None,
    };
    match extra {
        Some(args) => args.deep_view(),
        None => Seq::empty(),
    }
}

/// The connect timeout in whole seconds, rounded up, at least one.
pub open spec fn timeout_secs_spec(ms: u64) -> int {
    let secs = ms / 1000 + if ms % 1000 != 0 {
        1int
    } else {
        0int
    };
    if secs >= 1 {
        secs
    } else {
        1int
    }
}

/// `-o ConnectTimeout=<secs>` when a connect timeout is set.
pub open spec fn seg_timeout(c: SshArgsConfig) -> Seq<Seq<char>> {
    if c.connect_timeout_ms > 0 {
        seq!["-o"@, "ConnectTimeout="@ + dec_chars_spec(timeout_secs_spec(c.connect_timeout_ms) as u64)]
    } else {
        Seq::empty()
    }
}

/// `-i <key-file>` when a private key was written.
pub open spec fn seg_key(c: SshArgsConfig) -> Seq<Seq<char>> {
    match c.key_path {
        Some(path) => seq!["-i"@, path@],
        None => Seq::empty(),
    }
}

/// `-tt` forces a PTY; `-T` disables allocation.
pub open spec fn seg_pty(c: SshArgsConfig) -> Seq<Seq<char>> {
    if c.pty_enabled {
        seq!["-tt"@]
    } else {
        seq!["-T"@]
    }
}

/// The whole argument list, host last.
pub open spec fn ssh_args_spec(c: SshArgsConfig) -> Seq<Seq<char>> {
    seg_port(c) + seg_user(c) + seg_policy(c) + seg_known_hosts(c) + seg_config_file(c) + seg_auth(
        c,
    ) + seg_extra(c) + seg_timeout(c) + seg_key(c) + seg_pty(c) + seq![c.host@]
}

/// Assemble the ssh argument list deterministically.
#[verifier::rlimit(100)]
pub fn build_ssh_args(config: &SshArgsConfig) -> (r: ApiResult<Vec<String>>)
    ensures
        r is Ok,
        r.unwrap().deep_view() == ssh_args_spec(*config),
{
    let mut args: Vec<String> = Vec::new();
    args.push("-p".to_owned());
    args.push(format_cursor(config.port as u64));
    proof {
        assert(args.deep_view() =~~= seg_port(*config));
    }
    if let Some(user) = &config.username {
        args.push("-l".to_owned());
        args.push(user.clone());
    }
    let ghost done_user = seg_port(*config) + seg_user(*config);
    proof {
        assert(args.deep_view() =~~= done_user);
    }
    args.push("-o".to_owned());
    let policy_from_option: Option<&String> = match &config.options {
        Some(opts) => match &opts.host_key_policy {
            Some(p) => Some(p),
            None => None,
        },
        None => None,
    };
    let policy_value: &str = match policy_from_option {
        Some(p) => {
            let b = p.as_str().as_bytes();
            if crate::config::eq_ignore_ascii_case_bytes(b, "acceptnew".as_bytes())
                || crate::config::eq_ignore_ascii_case_bytes(b, "accept_new".as_bytes())
                || crate::config::eq_ignore_ascii_case_bytes(b, "accept-new".as_bytes()) {
                "StrictHostKeyChecking=accept-new"
            } else if crate::config::eq_ignore_ascii_case_bytes(b, "disabled".as_bytes()) {
                "StrictHostKeyChecking=no"
            } else {
                "StrictHostKeyChecking=yes"
            }
        },
        None => match config.ssh_config.host_key_policy {
            HostKeyPolicy::Strict => "StrictHostKeyChecking=yes",
            HostKeyPolicy::AcceptNew => "StrictHostKeyChecking=accept-new",
            HostKeyPolicy::Disabled => "StrictHostKeyChecking=no",
        },
    };
    args.push(policy_value.to_owned());
    let ghost done_policy = done_user + seg_policy(*config);
    proof {
        assert(args.deep_view() =~~= done_policy);
    }
    let known_hosts_from_option: Option<&String> = match &config.options {
        Some(opts) => match &opts.known_hosts_path {
            Some(p) => Some(p),
            None => None,
        },
        None => None,
    };
    let known_hosts_path: &String = match known_hosts_from_option {
        Some(p) => if !p.as_str().is_empty() {
            p
        } else {
            &config.ssh_config.known_hosts_path
        },
        None => &config.ssh_config.known_hosts_path,
    };
    if !known_hosts_path.as_str().is_empty() {
        args.push("-o".to_owned());
        args.push("UserKnownHostsFile=".to_owned().concat(known_hosts_path.as_str()));
    }
    let ghost done_known = done_policy + seg_known_hosts(*config);
    proof {
        assert(args.deep_view() =~~= done_known);
    }
    let use_config = match &config.options {
        Some(opts) => match opts.use_openssh_config {
            Some(b) => b,
            None => config.ssh_config.use_openssh_config,
        },
        None => config.ssh_config.use_openssh_config,
    };
    if !use_config {
        args.push("-F".to_owned());
        args.push("/dev/null".to_owned());
    } else {
        let config_path_from_option: Option<&String> = match &config.options {
            Some(opts) => match &opts.config_path {
                Some(p) => Some(p),
                None => None,
            },
            None => None,
        };
        let config_path: &String = match config_path_from_option {
            Some(p) => if !p.as_str().is_empty() {
                p
            } else {
                &config.ssh_config.config_path
            },
            None => &config.ssh_config.config_path,
        };
        if !config_path.as_str().is_empty() {
            args.push("-F".to_owned());
            args.push(config_path.clone());
        }
    }
    let ghost done_config = done_known + seg_config_file(*config);
    proof {
        assert(args.deep_view() =~~= done_config);
    }
    if let Some(auth) = &config.auth {
        if let Some(method) = &auth.method {
            if crate::text::str_eq(method.as_str(), "agent") {
                args.push("-o".to_owned());
                args.push("PreferredAuthentications=publickey".to_owned());
            } else if crate::text::str_eq(method.as_str(), "password") {
                args.push("-o".to_owned());
                args.push("PreferredAuthentications=password,keyboard-interactive".to_owned());
            }
        }
    }
    let ghost done_auth = done_config + seg_auth(*config);
    proof {
        assert(args.deep_view() =~~= done_auth);
    }
    if let Some(opts) = &config.options {
        if let Some(extra) = &opts.extra_args {
            let mut k: usize = 0;
            while k < extra.len()
                invariant
                    k <= extra@.len(),
                    args.deep_view() == done_auth + extra@.take(k as int).map_values(
                        |s: String| s@,
                    ),
                decreases extra@.len() - k,
            {
                args.push(extra[k].clone());
                k = k + 1;
                proof {
                    assert(done_auth + extra@.take(k as int).map_values(|s: String| s@)
                        =~~= (done_auth + extra@.take(k - 1).map_values(|s: String| s@)).push(
                        extra@[k - 1]@,
                    ));
                }
            }
            proof {
                assert(extra@.take(extra@.len() as int) =~= extra@);
                assert(extra@.map_values(|s: String| s@) =~~= extra.deep_view());
            }
        }
    }
    let ghost done_extra = done_auth + seg_extra(*config);
    proof {
        assert(args.deep_view() =~~= done_extra);
    }
    if config.connect_timeout_ms > 0 {
        let ms = config.connect_timeout_ms;
        let mut seconds = ms / 1000;
        if ms % 1000 != 0 {
            seconds = seconds + 1;
        }
        if seconds < 1 {
            seconds = 1;
        }
        args.push("-o".to_owned());
        args.push("ConnectTimeout=".to_owned().concat(format_cursor(seconds).as_str()));
    }
    let ghost done_timeout = done_extra + seg_timeout(*config);
    proof {
        assert(args.deep_view() =~~= done_timeout);
    }
    if let Some(path) = &config.key_path {
        args.push("-i".to_owned());
        args.push(path.clone());
    }
    if config.pty_enabled {
        args.push("-tt".to_owned());
    } else {
        args.push("-T".to_owned());
    }
    args.push(config.host.clone());
    proof {
        assert(args.deep_view() =~~= ssh_args_spec(*config));
    }
    Ok(args)
}

} // verus!
