use russhd_pty::config::{AccessWarning, Cli, Config, ConfigError, DEFAULT_PORT, GRACE};
use russhd_pty::logging::{to_stderr, to_stdout, Level, DEFAULT_FILTER};
use russhd_pty::net::{IpAddr, SocketAddr};
use russhd_pty::shutdown::{stopped, wait_for_shutdown_signal, StopEvent, StopStep, Stopper};

fn cli(command: &str, names: &[&str]) -> Cli {
    Cli {
        port: DEFAULT_PORT,
        listen: IpAddr::localhost(),
        allow_ssh_usernames: names.iter().map(|n| n.to_string()).collect(),
        command: command.to_string(),
    }
}

fn config(command: &str, names: &[&str]) -> Config {
    match Config::from_cli(cli(command, names)) {
        Ok(config) => config,
        Err(e) => panic!("{}", e.message()),
    }
}

#[test]
fn command_is_split_like_a_shell_does() {
    assert_eq!(config("htop", &[]).argv, vec!["htop"]);
    assert_eq!(
        config("sh -c 'echo \"a b\"; exit 3'", &[]).argv,
        vec!["sh", "-c", "echo \"a b\"; exit 3"]
    );
    assert_eq!(config("a\\ b  c # rest", &[]).argv, vec!["a b", "c"]);
    assert_eq!(config("''", &[]).argv, vec![""]);
}

#[test]
fn unbalanced_quotes_are_an_error() {
    let e = Config::from_cli(cli("sh -c 'oops", &[])).unwrap_err();
    assert_eq!(e, ConfigError::UnparsableCommand);
    assert_eq!(e.message(), "failed to parse command string (unbalanced quotes?)");
}

#[test]
fn empty_command_is_an_error() {
    for command in ["", "   ", "# nothing"] {
        let e = Config::from_cli(cli(command, &[])).unwrap_err();
        assert_eq!(e, ConfigError::EmptyCommand);
        assert_eq!(e.message(), "command string parsed to an empty argv; nothing to run");
    }
}

#[test]
fn words_decide_like_the_command_string() {
    let words = Some(vec!["top".to_string(), "-b".to_string()]);
    let config = Config::from_words(cli("ignored", &[]), words).unwrap();
    assert_eq!(config.argv, vec!["top", "-b"]);
    assert_eq!(
        Config::from_words(cli("top", &[]), None).unwrap_err(),
        ConfigError::UnparsableCommand
    );
    assert_eq!(
        Config::from_words(cli("top", &[]), Some(vec![])).unwrap_err(),
        ConfigError::EmptyCommand
    );
}

#[test]
fn address_and_grace_are_taken_over() {
    let mut args = cli("top", &[]);
    args.port = 2200;
    args.listen = IpAddr::V4([0, 0, 0, 0]);
    let config = Config::from_cli(args).unwrap();
    assert_eq!(
        config.addr,
        SocketAddr { ip: IpAddr::V4([0, 0, 0, 0]), port: 2200 }
    );
    assert_eq!(config.grace, GRACE);
    assert_eq!(GRACE, 5);
    assert_eq!(DEFAULT_PORT, 2222);
    assert!(config.exposed());
}

#[test]
fn no_list_allows_everyone() {
    let config = config("top", &[]);
    assert!(config.allowed_usernames.is_none());
    for user in ["alice", "root", ""] {
        assert!(config.username_allowed(user));
    }
    assert_eq!(config.access_warning(), AccessWarning::AuthenticationDisabled);
}

#[test]
fn list_allows_exactly_the_listed() {
    let config = config("top", &["alice", "bob"]);
    assert!(config.username_allowed("alice"));
    assert!(config.username_allowed("bob"));
    for user in ["Alice", "alic", "alicee", "", "carol", "alice,bob"] {
        assert!(!config.username_allowed(user));
    }
    assert_eq!(config.access_warning(), AccessWarning::NoCredentialCheck);
}

#[test]
fn list_order_and_repetition_do_not_matter() {
    let a = config("top", &["x", "y", "x", "x"]);
    let b = config("top", &["y", "x"]);
    assert_eq!(a.allowed_usernames.as_ref().map(|n| n.len()), Some(2));
    for user in ["x", "y", "z"] {
        assert_eq!(a.username_allowed(user), b.username_allowed(user));
    }
}

#[test]
fn an_empty_name_can_be_listed() {
    let config = config("top", &[""]);
    assert!(config.username_allowed(""));
    assert!(!config.username_allowed("alice"));
}

#[test]
fn loopback_is_not_exposed() {
    let loopback = [
        IpAddr::localhost(),
        IpAddr::V4([127, 255, 0, 9]),
        IpAddr::V6([0, 0, 0, 0, 0, 0, 0, 1]),
    ];
    for ip in loopback {
        assert!(ip.is_loopback());
    }
    let other = [
        IpAddr::V4([128, 0, 0, 1]),
        IpAddr::V4([0, 0, 0, 127]),
        IpAddr::V6([0, 0, 0, 0, 0, 0, 0, 0]),
        IpAddr::V6([0, 0, 0, 0, 0, 0xffff, 0x7f00, 1]),
    ];
    for ip in other {
        assert!(!ip.is_loopback());
    }
    assert!(!config("top", &[]).exposed());
}

#[test]
fn teardown_outlasts_grace() {
    let config = config("top", &[]);
    assert_eq!(config.teardown_budget(), 7);
    assert!(config.teardown_budget() > config.grace);
}

#[test]
fn every_level_has_one_stream() {
    assert_eq!(DEFAULT_FILTER, "info,russhd_pty=debug");
    for level in [Level::Error, Level::Warn] {
        assert!(to_stderr(level));
        assert!(!to_stdout(level));
    }
    for level in [Level::Info, Level::Debug, Level::Trace] {
        assert!(to_stdout(level));
        assert!(!to_stderr(level));
    }
}

#[test]
fn only_a_signal_stops() {
    let first = wait_for_shutdown_signal(true);
    match stopped(first, StopEvent::Interrupt { failed: true }) {
        StopStep::WaitOn(next) => {
            assert_eq!(next, Stopper::TerminateOnly);
            assert_eq!(stopped(next, StopEvent::Terminate), StopStep::Stop);
        }
        StopStep::Stop => panic!("stopped without a signal"),
    }
}

#[test]
fn shutdown_waits_for_what_it_can() {
    assert_eq!(wait_for_shutdown_signal(true), Stopper::InterruptOrTerminate);
    assert_eq!(wait_for_shutdown_signal(false), Stopper::InterruptOnly);
    let failed = StopEvent::Interrupt { failed: true };
    let came = StopEvent::Interrupt { failed: false };
    assert_eq!(
        stopped(Stopper::InterruptOrTerminate, failed),
        StopStep::WaitOn(Stopper::TerminateOnly)
    );
    assert_eq!(stopped(Stopper::InterruptOnly, failed), StopStep::WaitOn(Stopper::Nobody));
    for stopper in [Stopper::InterruptOrTerminate, Stopper::InterruptOnly] {
        assert_eq!(stopped(stopper, came), StopStep::Stop);
    }
    for stopper in [Stopper::InterruptOrTerminate, Stopper::TerminateOnly] {
        assert_eq!(stopped(stopper, StopEvent::Terminate), StopStep::Stop);
    }
}
