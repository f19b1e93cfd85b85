//! Service configuration: transports, session limits, SSH behaviour, and
//! the layering of command-line flags over loaded values.
//!
//! Reading configuration files and the environment is the host program's
//! concern; the layering rules themselves live here.

use vstd::prelude::*;

use vstd::string::StringSliceAdditionalSpecFns;

verus! {

/// Which transports the service runs.
#[derive(Debug, Clone, Copy, PartialEq, Eq, Structural)]
pub enum Transport {
    Stdio,
    Http,
    Both,
}

impl Default for Transport {
    fn default() -> (r: Self)
        ensures
            r == Transport::Stdio,
    {
        Transport::Stdio
    }
}

/// What the admin socket permits.
#[derive(Debug, Clone, Copy, PartialEq, Eq, Structural)]
pub enum ControlMode {
    Disabled,
    Readonly,
    Readwrite,
}

impl Default for ControlMode {
    fn default() -> (r: Self)
        ensures
            r == ControlMode::Readonly,
    {
        ControlMode::Readonly
    }
}

/// How SSH host keys are checked.
#[derive(Debug, Clone, Copy, PartialEq, Eq, Structural)]
pub enum HostKeyPolicy {
    Strict,
    AcceptNew,
    Disabled,
}

impl Default for HostKeyPolicy {
    fn default() -> (r: Self)
        ensures
            r == HostKeyPolicy::Strict,
    {
        HostKeyPolicy::Strict
    }
}

/// HTTP transport settings.
#[derive(Debug, Clone)]
pub struct HttpConfig {
    pub listen: String,
    pub auth_token: String,
}

impl Default for HttpConfig {
    fn default() -> (r: Self)
        ensures
            r.listen@ == "127.0.0.1:8765"@,
            r.auth_token@ == Seq::<char>::empty(),
    {
        HttpConfig { listen: "127.0.0.1:8765".to_owned(), auth_token: String::new() }
    }
}

/// Admin socket settings.  An empty path means the host program resolves
/// the platform default at startup.
#[derive(Debug, Clone)]
pub struct ControlConfig {
    pub control_socket_path: String,
    pub control_mode: ControlMode,
    pub control_auth_token: String,
}

impl Default for ControlConfig {
    fn default() -> (r: Self)
        ensures
            r.control_socket_path@ == Seq::<char>::empty(),
            r.control_mode == ControlMode::Readonly,
            r.control_auth_token@ == Seq::<char>::empty(),
    {
        ControlConfig {
            control_socket_path: String::new(),
            control_mode: ControlMode::Readonly,
            control_auth_token: String::new(),
        }
    }
}

/// Transport-level settings.
#[derive(Debug, Clone)]
pub struct ServerConfig {
    pub transport: Transport,
    pub http: HttpConfig,
    pub control: ControlConfig,
}

impl Default for ServerConfig {
    fn default() -> (r: Self)
        ensures
            r.transport == Transport::Stdio,
            r.http.listen@ == "127.0.0.1:8765"@,
            r.http.auth_token@ == Seq::<char>::empty(),
            r.control.control_socket_path@ == Seq::<char>::empty(),
            r.control.control_mode == ControlMode::Readonly,
    {
        ServerConfig {
            transport: Transport::Stdio,
            http: HttpConfig::default(),
            control: ControlConfig::default(),
        }
    }
}

/// Session limits and defaults.
#[derive(Debug, Clone)]
pub struct SessionConfig {
    pub max_sessions: usize,
    pub idle_timeout_ms: u64,
    pub output_buffer_max_lines: usize,
    pub output_buffer_max_bytes: usize,
    pub record_tx_events: bool,
    pub default_exec_timeout_ms: u64,
    pub default_read_timeout_ms: u64,
}

impl Default for SessionConfig {
    fn default() -> (r: Self)
        ensures
            r.max_sessions == 100,
            r.idle_timeout_ms == 0,
            r.output_buffer_max_lines == 20000,
            r.output_buffer_max_bytes == 2097152,
            r.record_tx_events == false,
            r.default_exec_timeout_ms == 60000,
            r.default_read_timeout_ms == 2000,
    {
        SessionConfig {
            max_sessions: 100,
            idle_timeout_ms: 0,
            output_buffer_max_lines: 20000,
            output_buffer_max_bytes: 2097152,
            record_tx_events: false,
            default_exec_timeout_ms: 60000,
            default_read_timeout_ms: 2000,
        }
    }
}

/// Global SSH behaviour.
#[derive(Debug, Clone)]
pub struct SshConfig {
    pub openssh_path: String,
    pub use_openssh_config: bool,
    pub config_path: String,
    pub host_key_policy: HostKeyPolicy,
    pub known_hosts_path: String,
}

impl Default for SshConfig {
    fn default() -> (r: Self)
        ensures
            r.openssh_path@ == "ssh"@,
            r.use_openssh_config == true,
            r.config_path@ == Seq::<char>::empty(),
            r.host_key_policy == HostKeyPolicy::Strict,
            r.known_hosts_path@ == Seq::<char>::empty(),
    {
        SshConfig {
            openssh_path: "ssh".to_owned(),
            use_openssh_config: true,
            config_path: String::new(),
            host_key_policy: HostKeyPolicy::Strict,
            known_hosts_path: String::new(),
        }
    }
}

/// Global Telnet behaviour.
#[derive(Debug, Clone)]
pub struct TelnetConfig {
    pub telnet_path: String,
    pub line_ending: crate::telnet::TelnetLineEnding,
}

impl Default for TelnetConfig {
    fn default() -> (r: Self)
        ensures
            r.telnet_path@ == "telnet"@,
            r.line_ending == crate::telnet::TelnetLineEnding::Cr,
    {
        TelnetConfig {
            telnet_path: "telnet".to_owned(),
            line_ending: crate::telnet::TelnetLineEnding::Cr,
        }
    }
}

/// Log level and format.
#[derive(Debug, Clone)]
pub struct LoggingConfig {
    pub level: String,
    pub format: String,
}

impl Default for LoggingConfig {
    fn default() -> (r: Self)
        ensures
            r.level@ == "info"@,
            r.format@ == "text"@,
    {
        LoggingConfig { level: "info".to_owned(), format: "text".to_owned() }
    }
}

/// The whole configuration.
#[derive(Debug, Clone)]
pub struct Config {
    pub server: ServerConfig,
    pub session: SessionConfig,
    pub ssh: SshConfig,
    pub telnet: TelnetConfig,
    pub logging: LoggingConfig,
}

impl Default for Config {
    fn default() -> (r: Self)
        ensures
            r.server.transport == Transport::Stdio,
            r.session.max_sessions == 100,
            r.ssh.host_key_policy == HostKeyPolicy::Strict,
            r.telnet.line_ending == crate::telnet::TelnetLineEnding::Cr,
    {
        Config {
            server: ServerConfig::default(),
            session: SessionConfig::default(),
            ssh: SshConfig::default(),
            telnet: TelnetConfig::default(),
            logging: LoggingConfig::default(),
        }
    }
}

/// Flags of the serve command.
#[derive(Debug, Clone)]
pub struct ServeArgs {
    pub config: Option<String>,
    pub transport: Option<Transport>,
    pub http_listen: Option<String>,
    pub auth_token: Option<String>,
    pub control_socket: Option<String>,
    pub control_mode: Option<ControlMode>,
    pub log_level: Option<String>,
}

/// Flags of the session-listing client command.
#[derive(Debug, Clone)]
pub struct ControlClientArgs {
    pub control_socket: Option<String>,
}

/// Flags of the tail client command.
#[derive(Debug, Clone)]
pub struct ControlTailArgs {
    pub session_id: String,
    pub max_bytes: usize,
    pub max_lines: Option<usize>,
    pub encoding: Option<String>,
    pub control_socket: Option<String>,
}

/// Flags of the attach client command.
#[derive(Debug, Clone)]
pub struct ControlAttachArgs {
    pub session_id: Option<String>,
    pub max_bytes: usize,
    pub control_socket: Option<String>,
}

/// The program's subcommands.
#[derive(Debug, Clone)]
pub enum Command {
    Serve(ServeArgs),
    Mcp(ServeArgs),
    Sessions(ControlClientArgs),
    Tail(ControlTailArgs),
    Attach(ControlAttachArgs),
}

/// The parsed command line.
#[derive(Debug, Clone)]
pub struct Cli {
    pub command: Command,
}

impl Config {
    /// Lay the serve flags over the configuration: each given flag wins
    /// over the loaded value; absent flags change nothing.
    pub fn apply_cli(&mut self, args: &ServeArgs)
        ensures
            final(self).server.transport == match args.transport {
                Some(t) => t,
                None => old(self).server.transport,
            },
            final(self).server.http.listen@ == match args.http_listen {
                Some(ref l) => l@,
                None => old(self).server.http.listen@,
            },
            final(self).server.http.auth_token@ == match args.auth_token {
                Some(ref t) => t@,
                None => old(self).server.http.auth_token@,
            },
            final(self).server.control.control_socket_path@ == match args.control_socket {
                Some(ref p) => p@,
                None => old(self).server.control.control_socket_path@,
            },
            final(self).server.control.control_mode == match args.control_mode {
                Some(m) => m,
                None => old(self).server.control.control_mode,
            },
            final(self).logging.level@ == match args.log_level {
                Some(ref l) => l@,
                None => old(self).logging.level@,
            },
            final(self).server.control.control_auth_token@ == old(
                self,
            ).server.control.control_auth_token@,
            final(self).logging.format@ == old(self).logging.format@,
            final(self).session == old(self).session,
            final(self).ssh == old(self).ssh,
            final(self).telnet == old(self).telnet,
    {
        if let Some(transport) = &args.transport {
            self.server.transport = *transport;
        }
        if let Some(listen) = &args.http_listen {
            self.server.http.listen = listen.clone();
        }
        if let Some(token) = &args.auth_token {
            self.server.http.auth_token = token.clone();
        }
        if let Some(path) = &args.control_socket {
            self.server.control.control_socket_path = path.clone();
        }
        if let Some(mode) = &args.control_mode {
            self.server.control.control_mode = *mode;
        }
        if let Some(level) = &args.log_level {
            self.logging.level = level.clone();
        }
    }
}

/// Lowercasing of the ASCII letters; other bytes are untouched.
pub open spec fn ascii_lower_byte(b: u8) -> u8 {
    if 65 <= b <= 90 {
        (b + 32) as u8
    } else {
        b
    }
}

/// Bytewise ASCII lowercasing.
pub open spec fn ascii_lower_bytes(s: Seq<u8>) -> Seq<u8> {
    s.map_values(|b: u8| ascii_lower_byte(b))
}

/// Whether two byte strings are equal once ASCII letters are lowercased.
pub fn eq_ignore_ascii_case_bytes(a: &[u8], b: &[u8]) -> (r: bool)
    ensures
        r == (ascii_lower_bytes(a@) == ascii_lower_bytes(b@)),
{
    if a.len() != b.len() {
        proof {
            assert(ascii_lower_bytes(a@).len() == a@.len());
            assert(ascii_lower_bytes(b@).len() == b@.len());
        }
        return false;
    }
    let mut i: usize = 0;
    while i < a.len()
        invariant
            i <= a@.len(),
            a@.len() == b@.len(),
            forall|j: int|
                0 <= j < i ==> ascii_lower_byte(a@[j]) == ascii_lower_byte(b@[j]),
        decreases a@.len() - i,
    {
        let mut x = a[i];
        let mut y = b[i];
        if 65 <= x && x <= 90 {
            x = x + 32;
        }
        if 65 <= y && y <= 90 {
            y = y + 32;
        }
        if x != y {
            proof {
                assert(ascii_lower_bytes(a@)[i as int] != ascii_lower_bytes(b@)[i as int]);
            }
            return false;
        }
        i = i + 1;
    }
    proof {
        assert(ascii_lower_bytes(a@) =~= ascii_lower_bytes(b@));
    }
    true
}

/// What a transport name parses to, case-insensitively.
pub open spec fn parse_transport_spec(b: Seq<u8>) -> Option<Transport> {
    let l = ascii_lower_bytes(b);
    if l == ascii_lower_bytes("stdio".spec_bytes()) {
        Some(Transport::Stdio)
    } else if l == ascii_lower_bytes("http".spec_bytes()) {
        Some(Transport::Http)
    } else if l == ascii_lower_bytes("both".spec_bytes()) {
        Some(Transport::Both)
    } else {
        None
    }
}

/// Parse a transport name: `stdio`, `http` or `both`, in any letter case.
pub fn parse_transport(value: &str) -> (r: Option<Transport>)
    ensures
        r == parse_transport_spec(value.spec_bytes()),
{
    let bytes = value.as_bytes();
    if eq_ignore_ascii_case_bytes(bytes, "stdio".as_bytes()) {
        Some(Transport::Stdio)
    } else if eq_ignore_ascii_case_bytes(bytes, "http".as_bytes()) {
        Some(Transport::Http)
    } else if eq_ignore_ascii_case_bytes(bytes, "both".as_bytes()) {
        Some(Transport::Both)
    } else {
        None
    }
}

/// What a control-mode name parses to, case-insensitively.
pub open spec fn parse_control_mode_spec(b: Seq<u8>) -> Option<ControlMode> {
    let l = ascii_lower_bytes(b);
    if l == ascii_lower_bytes("disabled".spec_bytes()) {
        Some(ControlMode::Disabled)
    } else if l == ascii_lower_bytes("readonly".spec_bytes()) {
        Some(ControlMode::Readonly)
    } else if l == ascii_lower_bytes("readwrite".spec_bytes()) {
        Some(ControlMode::Readwrite)
    } else {
        None
    }
}

/// Parse a control-mode name: `disabled`, `readonly` or `readwrite`, in
/// any letter case.
pub fn parse_control_mode(value: &str) -> (r: Option<ControlMode>)
    ensures
        r == parse_control_mode_spec(value.spec_bytes()),
{
    let bytes = value.as_bytes();
    if eq_ignore_ascii_case_bytes(bytes, "disabled".as_bytes()) {
        Some(ControlMode::Disabled)
    } else if eq_ignore_ascii_case_bytes(bytes, "readonly".as_bytes()) {
        Some(ControlMode::Readonly)
    } else if eq_ignore_ascii_case_bytes(bytes, "readwrite".as_bytes()) {
        Some(ControlMode::Readwrite)
    } else {
        None
    }
}

} // verus!
