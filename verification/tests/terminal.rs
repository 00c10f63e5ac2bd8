use russhd_pty::platform::Platform;
use russhd_pty::pty::{
    open_pty, set_cloexec, set_nonblocking, spawn_child, succeeded, winsize, ChildOp, Fd, FdOp,
    FlagStep, Winsize,
};
use russhd_pty::transfer::{bytes_moved, read_fd, Attempt, ReadStep, WriteAll, WriteStep};

#[test]
fn window_size_has_columns_before_rows() {
    assert_eq!(
        winsize(80, 24, 640, 480),
        Winsize { ws_row: 24, ws_col: 80, ws_xpixel: 640, ws_ypixel: 480 }
    );
}

#[test]
fn only_minus_one_is_a_failure() {
    assert!(!succeeded(-1));
    for rc in [0, 1, -2, i32::MAX, i32::MIN] {
        assert!(succeeded(rc));
    }
}

#[test]
fn flags_of_the_host_are_those_of_libc() {
    let host = Platform::host();
    assert_eq!(host.fd_cloexec, libc::FD_CLOEXEC);
    assert_eq!(host.o_nonblock, libc::O_NONBLOCK);
    assert_eq!(host.eio, libc::EIO);
    assert_eq!(host.signals.sigpipe, libc::SIGPIPE);
    assert_eq!(host.signals.sigusr1, libc::SIGUSR1);
    assert_eq!(set_cloexec(&host, 0), FlagStep::Write(libc::FD_CLOEXEC));
    assert_eq!(set_nonblocking(&host, 0), FlagStep::Write(libc::O_NONBLOCK));
}

#[test]
fn setting_a_flag_keeps_the_others() {
    let mut platform = Platform::host();
    platform.fd_cloexec = 1;
    platform.o_nonblock = 0x800;
    assert_eq!(set_nonblocking(&platform, 0x8002), FlagStep::Write(0x8802));
    assert_eq!(set_nonblocking(&platform, 0x8802), FlagStep::Write(0x8802));
    assert_eq!(set_cloexec(&platform, 2), FlagStep::Write(3));
    assert_eq!(set_cloexec(&platform, -1), FlagStep::Fail);
    assert_eq!(set_nonblocking(&platform, -1), FlagStep::Fail);
}

#[test]
fn master_is_made_private_and_non_blocking() {
    assert_eq!(
        open_pty(),
        vec![FdOp::SetCloexec(Fd::Master), FdOp::SetNonblocking(Fd::Master)]
    );
}

#[test]
fn child_gets_terminal_and_stderr_pipe() {
    let argv = vec!["sh".to_string(), "-c".to_string(), "true".to_string()];
    let plan = spawn_child(&argv, "vt100");
    assert_eq!(plan.program, "sh");
    assert_eq!(plan.args, vec!["-c", "true"]);
    assert_eq!(plan.term, "vt100");
    assert_eq!(
        plan.prepare,
        vec![
            FdOp::SetCloexec(Fd::StderrRead),
            FdOp::SetNonblocking(Fd::StderrRead),
            FdOp::SetCloexec(Fd::Slave),
            FdOp::SetCloexec(Fd::StderrWrite),
        ]
    );
    assert_eq!(
        plan.hook,
        vec![
            ChildOp::NewSession,
            ChildOp::ControllingTerminal(Fd::Slave),
            ChildOp::Duplicate { from: Fd::Slave, onto: 0 },
            ChildOp::Duplicate { from: Fd::Slave, onto: 1 },
            ChildOp::Duplicate { from: Fd::StderrWrite, onto: 2 },
        ]
    );
}

#[test]
fn a_lone_program_has_no_arguments() {
    let plan = spawn_child(&vec!["htop".to_string()], "");
    assert_eq!(plan.program, "htop");
    assert!(plan.args.is_empty());
    assert_eq!(plan.term, "");
}

#[test]
fn negative_results_moved_nothing() {
    assert_eq!(bytes_moved(-1), None);
    assert_eq!(bytes_moved(0), Some(0));
    assert_eq!(bytes_moved(17), Some(17));
}

#[test]
fn reads_are_retried_only_when_not_ready() {
    assert_eq!(read_fd(Attempt::WouldBlock), ReadStep::Retry);
    assert_eq!(read_fd(Attempt::Moved(0)), ReadStep::Return(0));
    assert_eq!(read_fd(Attempt::Moved(9)), ReadStep::Return(9));
    assert_eq!(read_fd(Attempt::NotReady), ReadStep::Fail);
    assert_eq!(read_fd(Attempt::Failed), ReadStep::Fail);
}

#[test]
fn all_data_goes_out_in_order() {
    let data = b"hello world";
    let mut write = WriteAll::new(data);
    let mut out: Vec<u8> = Vec::new();
    for (attempt, step) in [
        (Attempt::Moved(3), WriteStep::Write),
        (Attempt::WouldBlock, WriteStep::Write),
        (Attempt::Moved(0), WriteStep::Write),
        (Attempt::Moved(8), WriteStep::Done),
    ] {
        assert_eq!(write.next(), WriteStep::Write);
        if let Attempt::Moved(n) = attempt {
            out.extend_from_slice(&write.rest()[..n]);
        }
        assert_eq!(write.write_all_fd(attempt), step);
    }
    assert_eq!(out, data);
    assert!(write.rest().is_empty());
    assert_eq!(write.next(), WriteStep::Done);
}

#[test]
fn failed_writes_give_up() {
    for attempt in [Attempt::NotReady, Attempt::Failed] {
        let mut write = WriteAll::new(b"abc");
        assert_eq!(write.write_all_fd(Attempt::Moved(1)), WriteStep::Write);
        assert_eq!(write.write_all_fd(attempt), WriteStep::Fail);
        assert_eq!(write.rest(), b"bc");
    }
}

#[test]
fn nothing_to_write_is_done() {
    assert_eq!(WriteAll::new(b"").next(), WriteStep::Done);
}
