use std::sync::Arc;

use russhd_pty::config::{Cli, Config};
use russhd_pty::net::{IpAddr, SocketAddr};
use russhd_pty::pty::Winsize;
use russhd_pty::server::{
    dim, pix, server_settings, Auth, ChannelState, ClientHandler, PtyStep, Refusal, Reply, Server,
    ShellOutcome, ShellStep, SpawnEvent,
};
use russhd_pty::session::Session;

type Handler = ClientHandler<&'static str, &'static str, &'static str, &'static str>;

fn handler(names: &[&str]) -> Handler {
    let config = Config::from_cli(Cli {
        port: 2222,
        listen: IpAddr::localhost(),
        allow_ssh_usernames: names.iter().map(|n| n.to_string()).collect(),
        command: "top -b".to_string(),
    })
    .unwrap();
    let peer = SocketAddr { ip: IpAddr::localhost(), port: 50000 };
    let handler = Server::new(Arc::new(config)).new_client(Some(peer));
    assert_eq!(handler.peer, Some(peer));
    assert!(handler.channels.is_empty());
    handler
}

fn size(cols: u16, rows: u16, xpix: u16, ypix: u16) -> Winsize {
    Winsize { ws_row: rows, ws_col: cols, ws_xpixel: xpix, ws_ypixel: ypix }
}

fn rejected() -> Auth {
    Auth::Reject { proceed_with_methods: None, partial_success: false }
}

#[test]
fn dimensions_are_clamped() {
    assert_eq!(dim(0, 80), 80);
    assert_eq!(dim(1, 80), 1);
    assert_eq!(dim(65535, 80), 65535);
    assert_eq!(dim(65536, 80), 65535);
    assert_eq!(dim(u32::MAX, 24), 65535);
    assert_eq!(pix(0), 0);
    assert_eq!(pix(65535), 65535);
    assert_eq!(pix(65536), 65535);
    assert_eq!(pix(u32::MAX), 65535);
}

#[test]
fn larger_requests_give_no_smaller_windows() {
    let mut last = (0, 0);
    for v in [1, 2, 80, 65534, 65535, 65536, 70000, u32::MAX] {
        let now = (dim(v, 80), pix(v));
        assert!(last.0 <= now.0 && last.1 <= now.1);
        last = now;
    }
}

#[test]
fn silence_does_not_end_a_connection() {
    let settings = server_settings();
    assert_eq!(settings.inactivity_timeout, None);
    assert_eq!(settings.keepalive_interval, Some(60));
    assert_eq!(settings.keepalive_max, 3);
    assert_eq!(settings.auth_rejection_time, 1);
    assert_eq!(settings.auth_rejection_time_initial, Some(0));
}

#[test]
fn every_method_lets_the_name_decide() {
    let listed = handler(&["alice"]);
    for (user, auth) in [("alice", Auth::Accept), ("bob", rejected())] {
        assert_eq!(listed.authorize(user), auth);
        assert_eq!(listed.auth_none(user), auth);
        assert_eq!(listed.auth_password(user, "secret"), auth);
        assert_eq!(listed.auth_publickey(user), auth);
        assert_eq!(listed.auth_keyboard_interactive(user, ""), auth);
    }
    assert_eq!(handler(&[]).auth_none("bob"), Auth::Accept);
}

#[test]
fn default_terminal() {
    let st: ChannelState<(), (), (), u8> = ChannelState::new(7);
    assert_eq!(st.term, "xterm");
    assert_eq!((st.cols, st.rows, st.pixw, st.pixh), (80, 24, 0, 0));
    assert!(st.master.is_none() && st.slave.is_none() && st.writer.is_none());
    assert!(!st.started);
    assert_eq!(st.cancel, 7);
    assert_eq!(st.ensure_pty(), Some(size(80, 24, 0, 0)));
    assert_eq!(st.apply_winsize(), None);
}

#[test]
fn environment_is_ignored() {
    let h = handler(&[]);
    assert_eq!(h.env_request(1, "TERM", "vt52"), Reply::Silent);
}

#[test]
fn pty_is_opened_once_and_then_resized() {
    let mut h = handler(&[]);
    assert!(h.channel_open_session(1, "writer", "cancel"));
    let step = h.pty_request(1, "vt100", 100, 0, 5, 70000, "other");
    assert_eq!(step, PtyStep::Open(size(100, 24, 5, 65535)));
    let step = h.pty_opened(1, Some(("master", "slave")));
    assert_eq!(step, PtyStep::Ready(size(100, 24, 5, 65535)));
    // An empty terminal type changes nothing.
    let step = h.pty_request(1, "", 0, 50, 0, 0, "other");
    assert_eq!(step, PtyStep::Ready(size(80, 50, 0, 0)));
    let st = &h.channels[&1];
    assert_eq!(st.term, "vt100");
    assert_eq!(st.slave, Some("slave"));
    assert_eq!(st.cancel, "cancel");
}

#[test]
fn failed_pty_is_reported() {
    let mut h = handler(&[]);
    h.channel_open_session(1, "writer", "cancel");
    let _ = h.pty_request(1, "vt100", 1, 1, 1, 1, "other");
    assert_eq!(h.pty_opened(1, None), PtyStep::Failed);
    assert_eq!(h.data(1), None);
    // It may be asked for again.
    let step = h.pty_request(1, "vt100", 1, 1, 1, 1, "other");
    assert_eq!(step, PtyStep::Open(size(1, 1, 1, 1)));
}

#[test]
fn pty_request_makes_an_unknown_channel() {
    let mut h = handler(&[]);
    let step = h.pty_request(9, "vt100", 10, 20, 0, 0, "cancel");
    assert_eq!(step, PtyStep::Open(size(10, 20, 0, 0)));
    let _ = h.pty_opened(9, Some(("master", "slave")));
    // No writer came with it, so no shell starts.
    match h.shell_request(9) {
        ShellStep::Refuse(refusal) => assert_eq!(refusal, Refusal::NoWriter),
        step => panic!("{:?}", step),
    }
    assert!(matches!(h.shell_request(9), ShellStep::Refuse(Refusal::NoWriter)));
}

#[test]
fn latest_window_size_wins() {
    let mut h = handler(&[]);
    h.channel_open_session(1, "writer", "cancel");
    let step = h.window_change_request(1, 10, 10, 10, 10);
    assert_eq!(step.apply, None);
    assert_eq!(step.reply, Reply::Success);
    match h.shell_request(1) {
        ShellStep::Open(found) => assert_eq!(found, size(10, 10, 10, 10)),
        step => panic!("{:?}", step),
    }
    let _ = h.shell_pty_opened(1, Some(("master", "slave")));
    let _ = h.window_change_request(1, 30, 30, 30, 30);
    let step = h.window_change_request(1, 0, 0, 0, 0);
    assert_eq!(step.apply, Some(size(80, 24, 0, 0)));
    assert_eq!(step.reply, Reply::Success);
    let step = h.window_change_request(8, 1, 1, 1, 1);
    assert_eq!(step.apply, None);
    assert_eq!(step.reply, Reply::Success);
    assert!(!h.channels.contains_key(&8));
}

#[test]
fn shell_runs_the_configured_command() {
    let mut h = handler(&[]);
    h.channel_open_session(1, "writer", "cancel");
    let _ = h.pty_request(1, "vt100", 100, 40, 0, 0, "other");
    let _ = h.pty_opened(1, Some(("master", "slave")));
    match h.shell_request(1) {
        ShellStep::Spawn { slave, writer, plan } => {
            assert_eq!(slave, "slave");
            assert_eq!(writer, "writer");
            assert_eq!(plan.program, "top");
            assert_eq!(plan.args, vec!["-b"]);
            assert_eq!(plan.term, "vt100");
        }
        step => panic!("{:?}", step),
    }
    assert_eq!(
        h.shell_spawned(1, SpawnEvent::Running(Some(42))),
        ShellOutcome::Started {
            session: Session { channel: 1, grace: 5, pid: 42 },
            master: &"master",
            cancel: &"cancel",
        }
    );
    assert_eq!(h.data(1), Some(&"master"));
    assert_eq!(h.data_failed(1), Some(&"cancel"));
    match h.shell_request(1) {
        ShellStep::Refuse(refusal) => assert_eq!(refusal, Refusal::AlreadyStarted),
        step => panic!("{:?}", step),
    }
}

#[test]
fn shell_without_pty_request_gets_one() {
    let mut h = handler(&[]);
    h.channel_open_session(1, "writer", "cancel");
    match h.shell_request(1) {
        ShellStep::Open(found) => assert_eq!(found, size(80, 24, 0, 0)),
        step => panic!("{:?}", step),
    }
    match h.shell_pty_opened(1, None) {
        ShellStep::Refuse(refusal) => assert_eq!(refusal, Refusal::PtyFailed),
        step => panic!("{:?}", step),
    }
    assert!(matches!(h.shell_request(1), ShellStep::Open(_)));
    match h.shell_pty_opened(1, Some(("master", "slave"))) {
        ShellStep::Spawn { plan, .. } => assert_eq!(plan.term, "xterm"),
        step => panic!("{:?}", step),
    }
    assert_eq!(
        h.shell_spawned(1, SpawnEvent::Running(None)),
        ShellOutcome::Started {
            session: Session { channel: 1, grace: 5, pid: 0 },
            master: &"master",
            cancel: &"cancel",
        }
    );
}

#[test]
fn unknown_channel_starts_no_shell() {
    let mut h = handler(&[]);
    match h.shell_request(3) {
        ShellStep::Refuse(refusal) => assert_eq!(refusal, Refusal::UnknownChannel),
        step => panic!("{:?}", step),
    }
    assert!(h.channels.is_empty());
}

#[test]
fn slave_is_handed_out_once() {
    for (event, outcome) in [
        (SpawnEvent::Failed, ShellOutcome::Refuse(Refusal::SpawnFailed)),
        (SpawnEvent::NoStderr, ShellOutcome::Abort),
    ] {
        let mut h = handler(&[]);
        h.channel_open_session(1, "writer", "cancel");
        let _ = h.shell_request(1);
        let step = h.shell_pty_opened(1, Some(("master", "slave")));
        assert!(matches!(step, ShellStep::Spawn { .. }));
        assert_eq!(h.shell_spawned(1, event), outcome);
        assert!(!h.channels[&1].started);
        // Asked again, the channel is refused; others are not touched.
        h.channel_open_session(2, "writer", "cancel");
        match h.shell_request(1) {
            ShellStep::Refuse(refusal) => assert_eq!(refusal, Refusal::NoWriter),
            step => panic!("{:?}", step),
        }
        assert!(matches!(h.shell_request(2), ShellStep::Open(_)));
    }
}

#[test]
fn one_child_per_channel() {
    let mut h = handler(&[]);
    h.channel_open_session(1, "writer", "cancel");
    let mut children = 0;
    for _ in 0..4 {
        if let PtyStep::Open(_) = h.pty_request(1, "vt100", 90, 30, 0, 0, "other") {
            let _ = h.pty_opened(1, Some(("master", "slave")));
        }
            if let ShellStep::Spawn { .. } = h.shell_request(1) {
            children += 1;
            let _ = h.shell_spawned(1, SpawnEvent::Running(Some(7)));
        }
        let _ = h.window_change_request(1, 1, 2, 3, 4);
    }
    assert_eq!(children, 1);
}

#[test]
fn exec_is_refused() {
    let h = handler(&[]);
    let refusal = h.exec_request(1, b"uname -a\xff");
    assert_eq!(refusal.command, "uname -a\u{fffd}");
    assert_eq!(refusal.reply, Reply::Failure);
    assert!(refusal.disconnect);
    assert_eq!(refusal.reason, "exec is not permitted");
}

#[test]
fn end_of_input_goes_nowhere() {
    let mut h = handler(&[]);
    h.channel_open_session(1, "writer", "cancel");
    assert_eq!(h.channel_eof(1), None);
    assert!(h.channels.contains_key(&1));
}

#[test]
fn closing_a_channel_cancels_only_its_session() {
    let mut h = handler(&[]);
    h.channel_open_session(1, "writer", "first");
    h.channel_open_session(2, "writer", "second");
    assert_eq!(h.channel_close(1), Some("first"));
    assert_eq!(h.channel_close(1), None);
    assert_eq!(h.data_failed(1), None);
    assert_eq!(h.data_failed(2), Some(&"second"));
    assert_eq!(h.data(2), None);
}

#[test]
fn disconnecting_cancels_every_session() {
    let mut h = handler(&[]);
    for (id, cancel) in [(1, "a"), (2, "b"), (7, "c")] {
        h.channel_open_session(id, "writer", cancel);
    }
    let mut cancels = h.disconnect();
    cancels.sort();
    assert_eq!(cancels, vec!["a", "b", "c"]);
    assert!(h.channels.is_empty());
    assert!(h.disconnect().is_empty());
}
