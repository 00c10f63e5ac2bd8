use russhd_pty::lines::{emit_lines, split_lines};
use russhd_pty::platform::Platform;
use russhd_pty::pump::{
    End, MasterPhase, MasterPump, MasterStep, ReadEvent, StderrPump, MASTER_BUF, STDERR_BUF,
};
use russhd_pty::session::{
    is_pty_hangup, map_signal, relay_exit, spawn, ExitReport, ExitStatus, Session, Sig,
};
use russhd_pty::supervise::{ChildEvent, Effect, KillSignal, Phase, Supervisor, Wait};
use russhd_pty::text::{to_decimal, trim_line_end};

const SESSION: Session = Session { channel: 2, grace: 5, pid: 4711 };
const EXITED: ExitStatus = ExitStatus { code: Some(3), signal: None };

#[test]
fn decimal_numbers() {
    for n in [0, 7, 10, 99, 100, 2147483647, -1, -10, -2147483648] {
        assert_eq!(to_decimal(n), n.to_string());
    }
}

#[test]
fn line_ends_are_trimmed() {
    for s in ["", "\n", "a\n", "a\r\n", "\r\na\n\r\r\n", "a \t", "h\u{e9}\r", "a\nb", "\r\r"] {
        assert_eq!(trim_line_end(s), s.trim_end_matches(['\n', '\r']));
    }
}

#[test]
fn signals_have_their_ssh_names() {
    let host = Platform::host();
    for (number, sig) in [
        (libc::SIGABRT, Sig::ABRT),
        (libc::SIGALRM, Sig::ALRM),
        (libc::SIGFPE, Sig::FPE),
        (libc::SIGHUP, Sig::HUP),
        (libc::SIGILL, Sig::ILL),
        (libc::SIGINT, Sig::INT),
        (libc::SIGKILL, Sig::KILL),
        (libc::SIGPIPE, Sig::PIPE),
        (libc::SIGQUIT, Sig::QUIT),
        (libc::SIGSEGV, Sig::SEGV),
        (libc::SIGTERM, Sig::TERM),
        (libc::SIGUSR1, Sig::USR1),
    ] {
        assert_eq!(map_signal(&host, number), sig);
    }
    assert_eq!(map_signal(&host, 64), Sig::Custom("SIG64".to_string()));
    assert_eq!(map_signal(&host, 0), Sig::Custom("SIG0".to_string()));
    assert_eq!(map_signal(&host, -5), Sig::Custom("SIG-5".to_string()));
}

#[test]
fn signal_names_differ() {
    let host = Platform::host();
    for a in -3..70 {
        for b in -3..70 {
            assert_eq!(a == b, map_signal(&host, a) == map_signal(&host, b));
        }
    }
}

#[test]
fn exit_codes_are_kept() {
    let host = Platform::host();
    for code in [0, 1, 3, 255] {
        let status = ExitStatus { code: Some(code), signal: None };
        assert_eq!(relay_exit(&host, status), Some(ExitReport::Status(code as u32)));
    }
    let both = ExitStatus { code: Some(-1), signal: Some(9) };
    assert_eq!(relay_exit(&host, both), Some(ExitReport::Status(u32::MAX)));
}

#[test]
fn death_by_signal_is_reported() {
    let status = ExitStatus { code: None, signal: Some(libc::SIGKILL) };
    assert_eq!(
        relay_exit(&Platform::host(), status),
        Some(ExitReport::Signal {
            sig: Sig::KILL,
            core_dumped: false,
            message: "killed by signal".to_string(),
            language: String::new(),
        })
    );
    let neither = ExitStatus { code: None, signal: None };
    assert_eq!(relay_exit(&Platform::host(), neither), None);
}

#[test]
fn hangup_is_one_error_number() {
    let host = Platform::host();
    assert!(is_pty_hangup(&host, Some(libc::EIO)));
    assert!(!is_pty_hangup(&host, Some(libc::EBADF)));
    assert!(!is_pty_hangup(&host, None));
}

#[test]
fn tasks_start_fresh() {
    let tasks = spawn(SESSION);
    assert_eq!(tasks.master.phase, MasterPhase::Reading);
    assert!(tasks.stderr.pending.is_empty());
    assert!(!tasks.stderr.stopped);
    assert_eq!(tasks.supervisor.session, SESSION);
    assert_eq!(tasks.supervisor.phase, Phase::Watching);
}

#[test]
fn lines_keep_every_byte() {
    let mut pending = b"ab".to_vec();
    let lines = split_lines(&mut pending, b"c\n\nde\nf");
    assert_eq!(lines, vec![b"abc\n".to_vec(), b"\n".to_vec(), b"de\n".to_vec()]);
    assert_eq!(pending, b"f");
    let all: Vec<u8> = [lines.concat(), pending].concat();
    assert_eq!(all, b"abc\n\nde\nf");
}

#[test]
fn lines_end_in_their_only_newline() {
    let mut pending = Vec::new();
    for line in split_lines(&mut pending, b"x\r\ny\n\nz") {
        assert_eq!(line.iter().position(|b| *b == b'\n'), Some(line.len() - 1));
    }
    assert!(!pending.contains(&b'\n'));
}

#[test]
fn log_lines_are_decoded_and_trimmed() {
    let mut pending = Vec::new();
    let chunk = b"plain\nwindows\r\n\r\n\r\n  spaced \n\xff\xfe?\nh\xc3\xa9\nopen";
    assert_eq!(
        emit_lines(&mut pending, chunk),
        vec!["plain", "windows", "", "", "  spaced ", "\u{fffd}\u{fffd}?", "h\u{e9}"]
    );
    assert_eq!(pending, b"open");
}

#[test]
fn chunks_do_not_matter() {
    let stream = b"one\ntwo\r\n\nthree \xe2\x82\xac\nrest";
    let mut whole = Vec::new();
    let expected = emit_lines(&mut whole, stream);
    for size in 1..stream.len() {
        let mut pending = Vec::new();
        let mut lines = Vec::new();
        for chunk in stream.chunks(size) {
            lines.extend(emit_lines(&mut pending, chunk));
        }
        assert_eq!(lines, expected);
        assert_eq!(pending, whole);
    }
}

#[test]
fn buffer_sizes() {
    assert_eq!(MASTER_BUF, 32 * 1024);
    assert_eq!(STDERR_BUF, 8 * 1024);
}

#[test]
fn output_is_forwarded() {
    let host = Platform::host();
    let mut pump = MasterPump::new();
    let mut sent: Vec<u8> = Vec::new();
    for chunk in [b"he".to_vec(), b"llo\xff".to_vec(), b"!".to_vec()] {
        match pump.after_read(&host, ReadEvent::Data(chunk)) {
            MasterStep::Send(bytes) => sent.extend(bytes),
            step => panic!("{:?}", step),
        }
        assert!(matches!(pump.after_send(true), MasterStep::Read));
    }
    assert_eq!(sent, b"hello\xff!");
    let step = pump.after_read(&host, ReadEvent::Failed(Some(libc::EIO)));
    assert!(matches!(step, MasterStep::Stop(End::Hangup)));
    assert_eq!(pump.phase, MasterPhase::Stopped);
}

#[test]
fn output_ends_with_the_client() {
    let host = Platform::host();
    let mut pump = MasterPump::new();
    let mut handed: Vec<u8> = Vec::new();
    for (chunk, sent) in [(b"ab", true), (b"cd", false), (b"ef", true)] {
        if pump.phase == MasterPhase::Stopped {
            break;
        }
        if let MasterStep::Send(bytes) = pump.after_read(&host, ReadEvent::Data(chunk.to_vec())) {
            handed.extend(bytes);
            let _ = pump.after_send(sent);
        }
    }
    assert_eq!(handed, b"abcd");
    assert_eq!(pump.phase, MasterPhase::Stopped);
}

#[test]
fn master_pump_tells_its_ends_apart() {
    let host = Platform::host();
    for (event, end) in [
        (ReadEvent::Cancelled, End::Cancelled),
        (ReadEvent::Data(vec![]), End::EndOfStream),
        (ReadEvent::Failed(Some(libc::EIO)), End::Hangup),
        (ReadEvent::Failed(Some(libc::EBADF)), End::ReadError),
        (ReadEvent::Failed(None), End::ReadError),
    ] {
        let mut pump = MasterPump::new();
        match pump.after_read(&host, event) {
            MasterStep::Stop(found) => assert_eq!(found, end),
            step => panic!("{:?}", step),
        }
    }
    let mut pump = MasterPump::new();
    let _ = pump.after_read(&host, ReadEvent::Data(vec![1]));
    assert!(matches!(pump.after_send(false), MasterStep::Stop(End::ClientGone)));
    assert_eq!(pump.phase, MasterPhase::Stopped);
}

#[test]
fn stderr_is_logged_with_its_last_line() {
    let host = Platform::host();
    let mut pump = StderrPump::new();
    let step = pump.after_read(&host, ReadEvent::Data(b"one\ntw".to_vec()));
    assert_eq!(step.lines, vec!["one"]);
    assert_eq!(step.end, None);
    let step = pump.after_read(&host, ReadEvent::Data(b"o\nthree\r".to_vec()));
    assert_eq!(step.lines, vec!["two"]);
    let step = pump.after_read(&host, ReadEvent::Data(vec![]));
    // An unfinished line is logged as it is.
    assert_eq!(step.lines, vec!["three\r"]);
    assert_eq!(step.end, Some(End::EndOfStream));
    assert!(pump.stopped);
    assert!(pump.pending.is_empty());
}

#[test]
fn stderr_pump_tells_its_ends_apart() {
    let host = Platform::host();
    for (event, end) in [
        (ReadEvent::Cancelled, End::Cancelled),
        (ReadEvent::Failed(Some(libc::EIO)), End::Hangup),
        (ReadEvent::Failed(Some(libc::EBADF)), End::ReadError),
    ] {
        let mut pump = StderrPump::new();
        let step = pump.after_read(&host, event);
        assert_eq!(step.end, Some(end));
        assert!(step.lines.is_empty());
    }
}

#[test]
fn exit_is_relayed_before_the_channel_closes() {
    let mut supervisor = Supervisor::new(SESSION);
    assert_eq!(supervisor.waits_for(), Wait::ChildOrCancel);
    assert_eq!(
        supervisor.step(ChildEvent::Exited(EXITED)),
        vec![Effect::Relay(EXITED), Effect::Eof, Effect::Close, Effect::Cancel]
    );
    assert_eq!(supervisor.waits_for(), Wait::Nothing);
}

#[test]
fn session_ends_cancelled() {
    for last in [ChildEvent::Exited(EXITED), ChildEvent::WaitFailed] {
        let mut supervisor = Supervisor::new(SESSION);
        assert_eq!(supervisor.step(last).last(), Some(&Effect::Cancel));
        // A session that was cancelled is not cancelled again.
        let mut supervisor = Supervisor::new(SESSION);
        let mut trace = supervisor.step(ChildEvent::Cancelled);
        trace.extend(supervisor.step(last));
        assert!(!trace.contains(&Effect::Cancel));
    }
}

#[test]
fn failed_wait_closes_without_a_report() {
    let mut supervisor = Supervisor::new(SESSION);
    assert_eq!(
        supervisor.step(ChildEvent::WaitFailed),
        vec![Effect::Eof, Effect::Close, Effect::Cancel]
    );
    assert_eq!(supervisor.phase, Phase::Done);
}

#[test]
fn cancellation_hangs_up_and_waits() {
    let mut supervisor = Supervisor::new(SESSION);
    assert_eq!(
        supervisor.step(ChildEvent::Cancelled),
        vec![Effect::Kill { pgid: 4711, signal: KillSignal::Hangup }]
    );
    assert_eq!(supervisor.waits_for(), Wait::ChildWithin(5));
    assert_eq!(
        supervisor.step(ChildEvent::Exited(EXITED)),
        vec![Effect::Eof, Effect::Close]
    );
    assert_eq!(supervisor.waits_for(), Wait::Nothing);
}

#[test]
fn kill_follows_hangup_and_grace() {
    for last in [ChildEvent::Exited(EXITED), ChildEvent::WaitFailed] {
        let mut supervisor = Supervisor::new(SESSION);
        let mut trace = supervisor.step(ChildEvent::Cancelled);
        trace.extend(supervisor.step(ChildEvent::GraceExpired));
        assert_eq!(supervisor.waits_for(), Wait::Child);
        trace.extend(supervisor.step(last));
        assert_eq!(
            trace,
            vec![
                Effect::Kill { pgid: 4711, signal: KillSignal::Hangup },
                Effect::Kill { pgid: 4711, signal: KillSignal::Kill },
                Effect::Eof,
                Effect::Close,
            ]
        );
        assert_eq!(supervisor.phase, Phase::Done);
    }
}
