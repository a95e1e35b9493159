use optima_ops::config::EC2Config;
use optima_ops::error::OpsCLIError;
use optima_ops::session::{
    container_logs_command, container_status_command, docker_command, ConnectOutcome,
    ExecOutcome, Io, Session, SessionState,
};
use std::time::Duration;

fn target() -> EC2Config {
    EC2Config {
        host: "ec2-prod.optima.shop".to_string(),
        user: "ec2-user".to_string(),
        key_path: "~/.ssh/key".to_string(),
    }
}

#[test]
fn connect_twice_opens_transport_once() {
    let mut s = Session::new(target());
    assert_eq!(s.connect(), Io::OpenTransport);
    assert!(s.connect_finished(ConnectOutcome::Established { authenticated: true }).is_ok());
    assert_eq!(s.state(), SessionState::Connected);
    assert_eq!(s.connect(), Io::Nothing);
    assert_eq!(s.state(), SessionState::Connected);
}

#[test]
fn disconnect_when_never_connected_is_noop() {
    let mut s = Session::new(target());
    assert_eq!(s.disconnect(), Io::Nothing);
    assert_eq!(s.state(), SessionState::Disconnected);
    assert_eq!(s.disconnect(), Io::Nothing);
}

#[test]
fn disconnect_closes_live_transport() {
    let mut s = Session::new(target());
    s.connect();
    s.connect_finished(ConnectOutcome::Established { authenticated: true }).unwrap();
    assert_eq!(s.disconnect(), Io::CloseTransport);
    assert!(!s.is_connected());
}

#[test]
fn rejected_command_does_no_io() {
    let mut s = Session::new(target());
    match s.begin_execute("docker ps; rm -rf /", true) {
        Err(OpsCLIError::Policy(m)) => {
            assert_eq!(m, "blocked by command policy: contains dangerous operation: rm ")
        }
        _ => panic!("expected a policy error"),
    }
    assert_eq!(s.state(), SessionState::Disconnected);
}

#[test]
fn unvalidated_command_skips_policy() {
    let mut s = Session::new(target());
    assert_eq!(s.begin_execute("banana", false).unwrap(), Io::OpenTransport);
    assert_eq!(s.state(), SessionState::Connecting);
}

#[test]
fn accepted_command_runs_when_connected() {
    let mut s = Session::new(target());
    assert_eq!(s.begin_execute("docker ps", true).unwrap(), Io::OpenTransport);
    s.connect_finished(ConnectOutcome::Established { authenticated: true }).unwrap();
    assert_eq!(s.begin_execute("docker ps", true).unwrap(), Io::RunCommand);
    let (r, io) = s.execute_finished(
        "docker ps",
        ExecOutcome::Completed {
            stdout: "out".to_string(),
            stderr: String::new(),
            exit_code: 0,
        },
        Duration::from_millis(7),
    );
    let r = r.unwrap();
    assert_eq!(io, Io::Nothing);
    assert_eq!(r.stdout, "out");
    assert_eq!(r.exit_code, 0);
    assert_eq!(r.command, "docker ps");
    assert_eq!(r.execution_time, Duration::from_millis(7));
    assert!(s.is_connected());
}

#[test]
fn timeout_tears_session_down() {
    let mut s = Session::new(target());
    s.connect();
    s.connect_finished(ConnectOutcome::Established { authenticated: true }).unwrap();
    let (r, io) = s.execute_finished("uptime", ExecOutcome::TimedOut, Duration::from_secs(5));
    assert!(matches!(r, Err(OpsCLIError::Timeout(_))));
    assert_eq!(io, Io::CloseTransport);
    assert_eq!(s.state(), SessionState::Disconnected);
    assert_eq!(s.begin_execute("uptime", true).unwrap(), Io::OpenTransport);
}

#[test]
fn channel_failure_is_execution_error() {
    let mut s = Session::new(target());
    s.connect();
    s.connect_finished(ConnectOutcome::Established { authenticated: true }).unwrap();
    let (r, io) = s.execute_finished(
        "uptime",
        ExecOutcome::Failed("channel closed".to_string()),
        Duration::from_secs(1),
    );
    match r {
        Err(OpsCLIError::CommandExecution(m)) => assert_eq!(m, "channel closed"),
        _ => panic!("expected an execution error"),
    }
    assert_eq!(io, Io::Nothing);
}

#[test]
fn connect_failures_leave_disconnected() {
    let mut s = Session::new(target());
    s.connect();
    match s.connect_finished(ConnectOutcome::TcpFailed("refused".to_string())) {
        Err(OpsCLIError::SSHConnection(m)) => {
            assert_eq!(m, "cannot connect to ec2-prod.optima.shop: refused")
        }
        _ => panic!("expected a connection error"),
    }
    assert_eq!(s.state(), SessionState::Disconnected);
    s.connect();
    match s.connect_finished(ConnectOutcome::Established { authenticated: false }) {
        Err(OpsCLIError::SSHConnection(m)) => assert_eq!(m, "SSH authentication failed"),
        _ => panic!("expected a connection error"),
    }
    s.connect();
    assert!(matches!(
        s.connect_finished(ConnectOutcome::HandshakeFailed("bad banner".to_string())),
        Err(OpsCLIError::SSHConnection(_))
    ));
    s.connect();
    match s.connect_finished(ConnectOutcome::AuthFailed("denied".to_string())) {
        Err(OpsCLIError::SSHConnection(m)) => assert_eq!(m, "SSH authentication failed: denied"),
        _ => panic!("expected a connection error"),
    }
    assert!(!s.is_connected());
}

#[test]
fn retarget_discards_connection() {
    let mut s = Session::new(target());
    s.connect();
    s.connect_finished(ConnectOutcome::Established { authenticated: true }).unwrap();
    let other = EC2Config {
        host: "shared.optima.onl".to_string(),
        user: "ec2-user".to_string(),
        key_path: "~/.ssh/key".to_string(),
    };
    assert_eq!(s.retarget(other), Io::CloseTransport);
    assert_eq!(s.target().host, "shared.optima.onl");
    assert_eq!(s.state(), SessionState::Disconnected);
}

#[test]
fn command_lines() {
    assert_eq!(docker_command("ps"), "docker ps");
    assert_eq!(
        container_status_command(None),
        "docker ps -a --format \"{{.ID}}\\t{{.Names}}\\t{{.Status}}\\t{{.Ports}}\""
    );
    assert_eq!(
        container_status_command(Some("web")),
        "docker ps -a --filter \"name=web\" --format \"{{.ID}}\\t{{.Names}}\\t{{.Status}}\\t{{.Ports}}\""
    );
    assert_eq!(
        container_logs_command("web", Some(100), false).unwrap(),
        "docker logs --tail 100  web"
    );
    assert_eq!(container_logs_command("web", None, false).unwrap(), "docker logs   web");
    assert!(matches!(
        container_logs_command("web", None, true),
        Err(OpsCLIError::Validation(_))
    ));
}

#[test]
fn result_listing_and_logs() {
    let ok = optima_ops::session::SSHCommandResult {
        stdout: "a\tweb\tUp 2 hours\t80/tcp\n".to_string(),
        stderr: String::new(),
        exit_code: 0,
        command: "docker ps".to_string(),
        execution_time: Duration::from_millis(3),
    };
    let listed = ok.containers().unwrap();
    assert_eq!(listed.len(), 1);
    assert_eq!(listed[0].name, "web");
    assert_eq!(ok.logs_text().unwrap(), "a\tweb\tUp 2 hours\t80/tcp\n");
    let quiet = optima_ops::session::SSHCommandResult {
        stdout: String::new(),
        stderr: "line on stderr".to_string(),
        exit_code: 0,
        command: "docker logs web".to_string(),
        execution_time: Duration::from_millis(3),
    };
    assert_eq!(quiet.logs_text().unwrap(), "line on stderr");
    let failed = optima_ops::session::SSHCommandResult {
        stdout: String::new(),
        stderr: "no such container".to_string(),
        exit_code: 1,
        command: "docker logs x".to_string(),
        execution_time: Duration::from_millis(3),
    };
    assert_eq!(failed.logs_text().unwrap_err(), "docker logs failed: no such container");
    assert_eq!(failed.containers().unwrap_err(), "docker ps failed: no such container");
}
