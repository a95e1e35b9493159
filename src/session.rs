//! Remote session decisions.
//!
//! A `Session` holds the connection state for one target host and decides,
//! for each request, what the transport must do next. The transport itself
//! (TCP, handshake, authentication, exec channels) is driven by the caller,
//! which reports each outcome back; the session then settles the result and
//! the next state. At most one request is in flight per session.
use vstd::prelude::*;
use vstd::string::*;
use core::time::Duration;
use crate::config::EC2Config;
use crate::error::OpsCLIError;
use crate::inventory::{inventory_of, parse_container_status, records_view, ContainerStatus};
use crate::text::{decimal, decimal_of};
use crate::policy::{classify, normalized_of, verdict_of, Classification, Verdict};

verus! {

/// Connection state of a session.
#[derive(Debug, Clone, Copy, PartialEq, Eq, Structural)]
pub enum SessionState {
    Disconnected,
    Connecting,
    Connected,
}

/// Transport work that the caller must perform next.
#[derive(Debug, Clone, Copy, PartialEq, Eq, Structural)]
pub enum Io {
    /// No transport work.
    Nothing,
    /// Open TCP to the host on port 22 with a 30 s read timeout, perform the
    /// handshake and authenticate with the user's private key, then report
    /// with `connect_finished`.
    OpenTransport,
    /// Run the command on a new exec channel, then report with
    /// `execute_finished`.
    RunCommand,
    /// Close the transport, best effort.
    CloseTransport,
}

/// What an attempt to connect came to.
pub enum ConnectOutcome {
    /// The TCP connection or its timeout setting failed.
    TcpFailed(String),
    /// The protocol handshake failed.
    HandshakeFailed(String),
    /// The public-key authentication call failed.
    AuthFailed(String),
    /// Handshake and authentication call returned; `authenticated` is what
    /// the session reported when asked whether authentication succeeded.
    Established { authenticated: bool },
}

/// What running one command came to.
pub enum ExecOutcome {
    /// The command ran and exited.
    Completed { stdout: String, stderr: String, exit_code: i32 },
    /// Opening, writing, reading or closing the channel failed.
    Failed(String),
    /// The requested timeout elapsed before the command exited.
    TimedOut,
}

/// Result of SSH command execution.
pub struct SSHCommandResult {
    pub stdout: String,
    pub stderr: String,
    pub exit_code: i32,
    pub command: String,
    pub execution_time: Duration,
}

impl SSHCommandResult {
    /// The containers that a listing run printed, or, when the command exited
    /// non-zero, an error carrying its stderr.
    pub fn containers(&self) -> (r: Result<Vec<ContainerStatus>, String>)
        ensures
            self.exit_code != 0 ==> (r matches Err(m) && m@ == "docker ps failed: "@ + self.stderr@),
            self.exit_code == 0 ==> (r matches Ok(v) && records_view(v@) == inventory_of(self.stdout@)),
    {
        if self.exit_code != 0 {
            let mut m = String::from_str("docker ps failed: ");
            m.append(self.stderr.as_str());
            return Err(m);
        }
        Ok(parse_container_status(self.stdout.as_str()))
    }

    /// The log text that a logs run printed: stdout, or stderr when stdout is
    /// empty; or, when the command exited non-zero, an error carrying stderr.
    pub fn logs_text(&self) -> (r: Result<String, String>)
        ensures
            self.exit_code != 0 ==> (r matches Err(m) && m@ == "docker logs failed: "@ + self.stderr@),
            self.exit_code == 0 ==> (r matches Ok(t) && t@ == if self.stdout@.len() == 0 {
                self.stderr@
            } else {
                self.stdout@
            }),
    {
        if self.exit_code != 0 {
            let mut m = String::from_str("docker logs failed: ");
            m.append(self.stderr.as_str());
            return Err(m);
        }
        if self.stdout.as_str().unicode_len() == 0 {
            Ok(self.stderr.clone())
        } else {
            Ok(self.stdout.clone())
        }
    }
}

/// State and transport work after a connect request.
pub open spec fn connect_step(s: SessionState) -> (SessionState, Io) {
    if s == SessionState::Connected {
        (SessionState::Connected, Io::Nothing)
    } else {
        (SessionState::Connecting, Io::OpenTransport)
    }
}

/// Whether a connect outcome means the session is usable.
pub open spec fn connect_succeeded(o: ConnectOutcome) -> bool {
    o == ConnectOutcome::Established { authenticated: true }
}

/// State after a connect outcome.
pub open spec fn connect_outcome_state(success: bool) -> SessionState {
    if success {
        SessionState::Connected
    } else {
        SessionState::Disconnected
    }
}

/// The message of the connection error for an outcome, on `host`.
pub open spec fn connect_error_message(host: Seq<char>, o: ConnectOutcome) -> Seq<char> {
    match o {
        ConnectOutcome::TcpFailed(cause) => "cannot connect to "@ + host + ": "@ + cause@,
        ConnectOutcome::HandshakeFailed(cause) => "SSH handshake failed: "@ + cause@,
        ConnectOutcome::AuthFailed(cause) => "SSH authentication failed: "@ + cause@,
        ConnectOutcome::Established { .. } => "SSH authentication failed"@,
    }
}

/// State and transport work when a request to run a command with the given
/// verdict arrives; `None` when the policy refuses it (no transport work).
pub open spec fn execute_step(s: SessionState, validate: bool, verdict: Verdict) -> Option<
    (SessionState, Io),
> {
    if validate && verdict is Rejected {
        None
    } else if s == SessionState::Connected {
        Some((SessionState::Connected, Io::RunCommand))
    } else {
        Some((SessionState::Connecting, Io::OpenTransport))
    }
}

/// Whether an exec outcome is a timeout.
pub open spec fn is_timeout(o: ExecOutcome) -> bool {
    o is TimedOut
}

/// State and transport work after an exec outcome.
pub open spec fn exec_step(s: SessionState, timed_out: bool) -> (SessionState, Io) {
    if timed_out {
        (SessionState::Disconnected, Io::CloseTransport)
    } else {
        (s, Io::Nothing)
    }
}

/// State and transport work after a disconnect request.
pub open spec fn disconnect_step(s: SessionState) -> (SessionState, Io) {
    if s == SessionState::Disconnected {
        (SessionState::Disconnected, Io::Nothing)
    } else {
        (SessionState::Disconnected, Io::CloseTransport)
    }
}

/// Message of the error for a command the policy refused.
pub open spec fn policy_message(reason: Seq<char>) -> Seq<char> {
    "blocked by command policy: "@ + reason
}

/// Message of the error for a command that timed out.
pub open spec fn timeout_message() -> Seq<char> {
    "command timed out"@
}

/// Connection decisions for one target host.
pub struct Session {
    state: SessionState,
    target: EC2Config,
}

impl Session {
    /// The connection state.
    pub closed spec fn state_view(&self) -> SessionState {
        self.state
    }

    /// The target host's descriptor.
    pub closed spec fn target_view(&self) -> EC2Config {
        self.target
    }

    /// A session for `target`, not connected.
    pub fn new(target: EC2Config) -> (r: Session)
        ensures
            r.state_view() == SessionState::Disconnected,
            r.target_view() == target,
    {
        Session { state: SessionState::Disconnected, target }
    }

    /// The connection state.
    pub fn state(&self) -> (r: SessionState)
        ensures
            r == self.state_view(),
    {
        self.state
    }

    /// Whether the session is connected.
    pub fn is_connected(&self) -> (r: bool)
        ensures
            r == (self.state_view() == SessionState::Connected),
    {
        self.state == SessionState::Connected
    }

    /// The target host's descriptor.
    pub fn target(&self) -> (r: &EC2Config)
        ensures
            *r == self.target_view(),
    {
        &self.target
    }

    /// Asks to connect: no transport work when already connected, else open it.
    pub fn connect(&mut self) -> (io: Io)
        ensures
            (final(self).state_view(), io) == connect_step(old(self).state_view()),
            final(self).target_view() == old(self).target_view(),
    {
        if self.state == SessionState::Connected {
            Io::Nothing
        } else {
            self.state = SessionState::Connecting;
            Io::OpenTransport
        }
    }

    /// Settles a connect attempt. Success only when the session reports that
    /// authentication succeeded; any failure leaves the session disconnected
    /// and gives a connection error carrying the cause.
    pub fn connect_finished(&mut self, outcome: ConnectOutcome) -> (r: Result<(), OpsCLIError>)
        ensures
            final(self).state_view() == connect_outcome_state(connect_succeeded(outcome)),
            final(self).target_view() == old(self).target_view(),
            connect_succeeded(outcome) ==> r is Ok,
            !connect_succeeded(outcome) ==> match r {
                Err(OpsCLIError::SSHConnection(m)) => m@ == connect_error_message(
                    old(self).target_view().host@,
                    outcome,
                ),
                _ => false,
            },
    {
        let msg = match outcome {
            ConnectOutcome::Established { authenticated } => {
                if authenticated {
                    self.state = SessionState::Connected;
                    return Ok(());
                }
                String::from_str("SSH authentication failed")
            },
            ConnectOutcome::TcpFailed(cause) => {
                let mut m = String::from_str("cannot connect to ");
                m.append(self.target.host.as_str());
                m.append(": ");
                m.append(cause.as_str());
                m
            },
            ConnectOutcome::HandshakeFailed(cause) => {
                let mut m = String::from_str("SSH handshake failed: ");
                m.append(cause.as_str());
                m
            },
            ConnectOutcome::AuthFailed(cause) => {
                let mut m = String::from_str("SSH authentication failed: ");
                m.append(cause.as_str());
                m
            },
        };
        self.state = SessionState::Disconnected;
        Err(OpsCLIError::SSHConnection(msg))
    }

    /// Asks to run `command`. With `validate`, a command the policy rejects
    /// gives a policy error that names the rule, with no transport work and
    /// no change of state. Otherwise the command runs at once when connected,
    /// after connecting when not.
    pub fn begin_execute(&mut self, command: &str, validate: bool) -> (r: Result<Io, OpsCLIError>)
        ensures
            final(self).target_view() == old(self).target_view(),
            ({
                let verdict = verdict_of(command@, normalized_of(command@));
                match execute_step(old(self).state_view(), validate, verdict) {
                    None => final(self).state_view() == old(self).state_view() && match r {
                        Err(OpsCLIError::Policy(m)) => match verdict {
                            Verdict::Rejected(reason) => m@ == policy_message(reason),
                            _ => false,
                        },
                        _ => false,
                    },
                    Some((s, io)) => final(self).state_view() == s && r == Ok::<Io, OpsCLIError>(io),
                }
            }),
    {
        if validate {
            match classify(command) {
                Classification::Rejected(reason) => {
                    let mut m = String::from_str("blocked by command policy: ");
                    m.append(reason.as_str());
                    return Err(OpsCLIError::Policy(m));
                },
                _ => {},
            }
        }
        if self.state == SessionState::Connected {
            Ok(Io::RunCommand)
        } else {
            self.state = SessionState::Connecting;
            Ok(Io::OpenTransport)
        }
    }

    /// Settles one run of `command`. A completed run gives its result and
    /// keeps the state; a channel failure gives an execution error; a timeout
    /// gives a timeout error and tears the session down, since its state is
    /// unknown.
    pub fn execute_finished(&mut self, command: &str, outcome: ExecOutcome, elapsed: Duration) -> (r: (
        Result<SSHCommandResult, OpsCLIError>,
        Io,
    ))
        ensures
            (final(self).state_view(), r.1) == exec_step(old(self).state_view(), is_timeout(outcome)),
            final(self).target_view() == old(self).target_view(),
            match outcome {
                ExecOutcome::Completed { stdout, stderr, exit_code } => match r.0 {
                    Ok(res) => res.stdout@ == stdout@ && res.stderr@ == stderr@ && res.exit_code
                        == exit_code && res.command@ == command@ && res.execution_time == elapsed,
                    Err(_) => false,
                },
                ExecOutcome::Failed(cause) => match r.0 {
                    Err(OpsCLIError::CommandExecution(m)) => m@ == cause@,
                    _ => false,
                },
                ExecOutcome::TimedOut => match r.0 {
                    Err(OpsCLIError::Timeout(m)) => m@ == timeout_message(),
                    _ => false,
                },
            },
    {
        match outcome {
            ExecOutcome::Completed { stdout, stderr, exit_code } => {
                let result = SSHCommandResult {
                    stdout,
                    stderr,
                    exit_code,
                    command: String::from_str(command),
                    execution_time: elapsed,
                };
                (Ok(result), Io::Nothing)
            },
            ExecOutcome::Failed(cause) => (Err(OpsCLIError::CommandExecution(cause)), Io::Nothing),
            ExecOutcome::TimedOut => {
                self.state = SessionState::Disconnected;
                (Err(OpsCLIError::Timeout(String::from_str("command timed out"))), Io::CloseTransport)
            },
        }
    }

    /// Asks to disconnect: always ends disconnected; the transport is closed
    /// only when there is one. Safe when never connected.
    pub fn disconnect(&mut self) -> (io: Io)
        ensures
            (final(self).state_view(), io) == disconnect_step(old(self).state_view()),
            final(self).target_view() == old(self).target_view(),
    {
        let io = if self.state == SessionState::Disconnected {
            Io::Nothing
        } else {
            Io::CloseTransport
        };
        self.state = SessionState::Disconnected;
        io
    }

    /// Points the session at another host: any existing connection is torn
    /// down and discarded, never reused against the new host.
    pub fn retarget(&mut self, target: EC2Config) -> (io: Io)
        ensures
            (final(self).state_view(), io) == disconnect_step(old(self).state_view()),
            final(self).target_view() == target,
    {
        let io = self.disconnect();
        self.target = target;
        io
    }
}

/// The command line that runs a Docker subcommand.
pub open spec fn docker_line(sub: Seq<char>) -> Seq<char> {
    "docker "@ + sub
}

/// The Docker subcommand that lists containers, tab-separated, optionally
/// filtered by name.
pub open spec fn status_subcommand(name: Option<Seq<char>>) -> Seq<char> {
    "ps -a"@ + match name {
        Some(n) => " --filter \"name="@ + n + "\""@,
        None => Seq::empty(),
    } + " --format \"{{.ID}}\\t{{.Names}}\\t{{.Status}}\\t{{.Ports}}\""@
}

/// The Docker subcommand that prints a container's logs, optionally only the
/// last `tail` lines.
pub open spec fn logs_subcommand(name: Seq<char>, tail: Option<u32>) -> Seq<char> {
    "logs "@ + match tail {
        Some(n) => "--tail "@ + decimal_of(n as nat),
        None => Seq::empty(),
    } + "  "@ + name
}

/// The command line that runs Docker subcommand `sub`.
pub fn docker_command(sub: &str) -> (r: String)
    ensures
        r@ == docker_line(sub@),
{
    let mut r = String::from_str("docker ");
    r.append(sub);
    r
}

/// The command line that lists containers in the inventory format.
pub fn container_status_command(name: Option<&str>) -> (r: String)
    ensures
        r@ == docker_line(status_subcommand(match name {
            Some(n) => Some(n@),
            None => None,
        })),
{
    let mut sub = String::from_str("ps -a");
    match name {
        Some(n) => {
            sub.append(" --filter \"name=");
            sub.append(n);
            sub.append("\"");
        },
        None => {},
    }
    sub.append(" --format \"{{.ID}}\\t{{.Names}}\\t{{.Status}}\\t{{.Ports}}\"");
    docker_command(sub.as_str())
}

/// The command line that prints a container's logs. Following the log
/// stream is refused: a streamed channel has no cancellation path here.
pub fn container_logs_command(name: &str, tail: Option<u32>, follow: bool) -> (r: Result<String, OpsCLIError>)
    ensures
        follow ==> r matches Err(OpsCLIError::Validation(_)),
        !follow ==> (r matches Ok(c) && c@ == docker_line(logs_subcommand(name@, tail))),
{
    if follow {
        return Err(OpsCLIError::Validation(String::from_str("following logs is not supported")));
    }
    let mut sub = String::from_str("logs ");
    match tail {
        Some(n) => {
            sub.append("--tail ");
            let digits = decimal(n as u64);
            sub.append(digits.as_str());
        },
        None => {},
    }
    sub.append("  ");
    sub.append(name);
    Ok(docker_command(sub.as_str()))
}

/// Connecting twice in a row performs transport work once: after a connect
/// request that succeeded, a second request does none and the session stays
/// connected; a request on a connected session changes nothing.
pub proof fn lemma_connect_idempotent(s: SessionState)
    ensures
        connect_step(connect_outcome_state(true)) == (SessionState::Connected, Io::Nothing),
        s == SessionState::Connected ==> connect_step(s) == (s, Io::Nothing),
{
}

/// Disconnecting a session that is not connected is a no-op, and
/// disconnecting twice does transport work at most once.
pub proof fn lemma_disconnect_idempotent(s: SessionState)
    ensures
        disconnect_step(SessionState::Disconnected) == (SessionState::Disconnected, Io::Nothing),
        disconnect_step(disconnect_step(s).0) == (SessionState::Disconnected, Io::Nothing),
{
}

/// A command the policy rejects, asked with validation, causes no transport
/// work and leaves the state as it was.
pub proof fn lemma_rejected_no_io(s: SessionState, command: Seq<char>, normalized: Seq<char>)
    requires
        verdict_of(command, normalized) is Rejected,
    ensures
        execute_step(s, true, verdict_of(command, normalized)) is None,
{
}

/// A timed-out run leaves the session disconnected, and the next request
/// must open the transport again.
pub proof fn lemma_timeout_disconnects(s: SessionState, validate: bool, verdict: Verdict)
    requires
        !(validate && verdict is Rejected),
    ensures
        exec_step(s, true) == (SessionState::Disconnected, Io::CloseTransport),
        execute_step(exec_step(s, true).0, validate, verdict) == Some(
            (SessionState::Connecting, Io::OpenTransport),
        ),
{
}

} // verus!
