//! The SSH layer: what a connection keeps of each session channel, and how it
//! answers the client's requests.
//!
//! A channel gets a PTY on `pty-req`, or else on `shell`; `shell` starts the
//! configured command, and `exec` is refused. Work on descriptors and processes
//! is done outside: a request that needs some says what, and is told the result.
//! The descriptors, the client's writer and the cancellation handle of a channel
//! are kept here without being looked into.
use std::collections::HashMap;
use std::sync::Arc;
use vstd::prelude::*;
use crate::config::Config;
use crate::net::SocketAddr;
use crate::pty::{ChildPlan, Winsize};
use crate::session::Session;

verus! {

/// Terminal type of a channel without `pty-req`.
pub const DEFAULT_TERM: &'static str = "xterm";

/// Columns where the client does not say.
pub const DEFAULT_COLS: u16 = 80;

/// Rows where the client does not say.
pub const DEFAULT_ROWS: u16 = 24;

/// The columns or rows that a client's number stands for: zero means
/// "unspecified", and the largest that fits stands for all above it.
pub open spec fn dimension(v: u32, default: u16) -> u16 {
    if v == 0 {
        default
    } else if v > u16::MAX {
        u16::MAX
    } else {
        v as u16
    }
}

/// The pixels that a client's number stands for: the largest that fits stands
/// for all above it.
pub open spec fn pixels(v: u32) -> u16 {
    if v > u16::MAX {
        u16::MAX
    } else {
        v as u16
    }
}

/// Clamps a number of columns or rows; zero means "unspecified".
pub fn dim(v: u32, default: u16) -> (r: u16)
    ensures
        r == dimension(v, default),
{
    if v == 0 {
        default
    } else if v > 0xffff {
        0xffff
    } else {
        v as u16
    }
}

/// Clamps a number of pixels; zero ("unknown") is kept.
pub fn pix(v: u32) -> (r: u16)
    ensures
        r == pixels(v),
{
    if v > 0xffff {
        0xffff
    } else {
        v as u16
    }
}

/// Whether a size is one that a terminal can have as it is.
pub open spec fn fits(cols: u32, rows: u32, pixw: u32, pixh: u32) -> bool {
    &&& 1 <= cols <= u16::MAX
    &&& 1 <= rows <= u16::MAX
    &&& pixw <= u16::MAX
    &&& pixh <= u16::MAX
}

/// How the server treats its connections; times are in seconds.
#[derive(Clone, Copy, Debug, PartialEq, Eq, Structural)]
pub struct ServerSettings {
    /// Delay of a rejected authentication.
    pub auth_rejection_time: u64,
    /// Delay of the first rejected authentication.
    pub auth_rejection_time_initial: Option<u64>,
    /// Silence after which a connection is dropped.
    pub inactivity_timeout: Option<u64>,
    /// Time between keepalives.
    pub keepalive_interval: Option<u64>,
    /// Unanswered keepalives after which a connection is dropped.
    pub keepalive_max: usize,
}

/// The settings of the daemon. A passive viewer may be silent for long, so
/// silence does not end a connection; keepalives find dead peers.
pub fn server_settings() -> (r: ServerSettings)
    ensures
        r == (ServerSettings {
            auth_rejection_time: 1,
            auth_rejection_time_initial: Some(0),
            inactivity_timeout: None,
            keepalive_interval: Some(60),
            keepalive_max: 3,
        }),
{
    ServerSettings {
        auth_rejection_time: 1,
        auth_rejection_time_initial: Some(0),
        inactivity_timeout: None,
        keepalive_interval: Some(60),
        keepalive_max: 3,
    }
}

/// An authentication method.
#[derive(Clone, Copy, Debug, PartialEq, Eq, Structural)]
pub enum Method {
    /// No credential.
    Nothing,
    /// A password.
    Password,
    /// A public key.
    PublicKey,
    /// The client's host.
    HostBased,
    /// Questions and answers.
    KeyboardInteractive,
}

/// The answer to an authentication attempt.
#[derive(Debug, PartialEq, Eq)]
pub enum Auth {
    /// Let the client in.
    Accept,
    /// Turn the client away.
    Reject {
        /// Methods that the client may go on with.
        proceed_with_methods: Option<Vec<Method>>,
        /// Whether the attempt counts as one of several steps.
        partial_success: bool,
    },
}

/// The answer to a channel request.
#[derive(Clone, Copy, Debug, PartialEq, Eq, Structural)]
pub enum Reply {
    /// `channel-success`
    Success,
    /// `channel-failure`
    Failure,
    /// None.
    Silent,
}

/// What a `pty-req` asks for.
#[derive(Clone, Copy, Debug, PartialEq, Eq, Structural)]
pub enum PtyStep {
    /// Open a PTY of this size and report it.
    Open(Winsize),
    /// The PTY is there: give it this size and answer success.
    Ready(Winsize),
    /// There is no PTY: answer failure.
    Failed,
}

/// What a `window-change` asks for.
#[derive(Clone, Copy, Debug, PartialEq, Eq, Structural)]
pub struct WindowStep {
    /// The size to give to the PTY, where there is one.
    pub apply: Option<Winsize>,
    /// The answer.
    pub reply: Reply,
}

/// Why a shell does not start.
#[derive(Clone, Copy, Debug, PartialEq, Eq, Structural)]
pub enum Refusal {
    /// The channel was never opened.
    UnknownChannel,
    /// The channel's shell was started before.
    AlreadyStarted,
    /// No PTY could be allocated.
    PtyFailed,
    /// The channel has no writer to the client.
    NoWriter,
    /// The command could not be started.
    SpawnFailed,
}

/// What a `shell` asks for.
#[derive(Debug)]
pub enum ShellStep<S, W> {
    /// Answer failure.
    Refuse(Refusal),
    /// Open a PTY of this size and report it.
    Open(Winsize),
    /// Start the command and report it.
    Spawn {
        /// The child's side of the PTY.
        slave: S,
        /// The writer to the client, for the session.
        writer: W,
        /// How to start it.
        plan: ChildPlan,
    },
}

/// What came of starting the command.
#[derive(Clone, Copy, Debug, PartialEq, Eq, Structural)]
pub enum SpawnEvent {
    /// It did not start.
    Failed,
    /// It runs, but its stderr cannot be read.
    NoStderr,
    /// It runs, with this pid where it is known.
    Running(Option<u32>),
}

/// What to do once the command was started, or was not.
#[derive(Debug, PartialEq, Eq)]
pub enum ShellOutcome<'a, M, C> {
    /// Answer failure.
    Refuse(Refusal),
    /// Fail the connection.
    Abort,
    /// Run a session and answer success.
    Started {
        /// The session.
        session: Session,
        /// The daemon's side of its PTY.
        master: &'a M,
        /// Cancels it.
        cancel: &'a C,
    },
}

/// The answer to an `exec`: the channel request fails and the client is
/// disconnected.
#[derive(Debug)]
pub struct ExecRefusal {
    /// The command that was asked for, for the log.
    pub command: String,
    /// The answer.
    pub reply: Reply,
    /// Whether to disconnect the client.
    pub disconnect: bool,
    /// The reason to give.
    pub reason: String,
}

/// What a connection keeps of a session channel: `M` and `S` are the two sides
/// of a PTY, `W` writes to the client, and `C` cancels the session.
#[derive(Debug)]
pub struct ChannelState<M, S, W, C> {
    /// Terminal type.
    pub term: String,
    /// Columns.
    pub cols: u16,
    /// Rows.
    pub rows: u16,
    /// Width in pixels.
    pub pixw: u16,
    /// Height in pixels.
    pub pixh: u16,
    /// The daemon's side of the PTY, once there is one.
    pub master: Option<M>,
    /// The child's side of the PTY, until a child gets it.
    pub slave: Option<S>,
    /// The writer to the client, until a session gets it.
    pub writer: Option<W>,
    /// Whether the command was started.
    pub started: bool,
    /// Cancels the session.
    pub cancel: C,
}

/// A session channel.
pub struct ChannelModel<M, S, W, C> {
    /// Terminal type.
    pub term: Seq<char>,
    /// Columns.
    pub cols: u16,
    /// Rows.
    pub rows: u16,
    /// Width in pixels.
    pub pixw: u16,
    /// Height in pixels.
    pub pixh: u16,
    /// The daemon's side of the PTY, once there is one.
    pub master: Option<M>,
    /// The child's side of the PTY, until a child gets it.
    pub slave: Option<S>,
    /// The writer to the client, until a session gets it.
    pub writer: Option<W>,
    /// Whether the command was started.
    pub started: bool,
    /// Cancels the session.
    pub cancel: C,
}

/// What can happen to a session channel while it is open.
pub enum Request<M, S> {
    /// A `pty-req`: terminal type, columns, rows, width and height.
    Pty(Seq<char>, u32, u32, u32, u32),
    /// The PTY of a `pty-req`, where there is one.
    PtyOpened(Option<(M, S)>),
    /// A `window-change`: columns, rows, width and height.
    WindowChange(u32, u32, u32, u32),
    /// A `shell`.
    Shell,
    /// The PTY of a `shell`, where there is one.
    ShellPtyOpened(Option<(M, S)>),
    /// What came of starting the command.
    Spawned(SpawnEvent),
}

impl<M, S, W, C> View for ChannelState<M, S, W, C> {
    type V = ChannelModel<M, S, W, C>;

    open spec fn view(&self) -> ChannelModel<M, S, W, C> {
        ChannelModel {
            term: self.term@,
            cols: self.cols,
            rows: self.rows,
            pixw: self.pixw,
            pixh: self.pixh,
            master: self.master,
            slave: self.slave,
            writer: self.writer,
            started: self.started,
            cancel: self.cancel,
        }
    }
}

impl<M, S, W, C> ChannelModel<M, S, W, C> {
    /// A channel that nothing was asked of.
    pub open spec fn fresh(cancel: C) -> Self {
        ChannelModel {
            term: DEFAULT_TERM@,
            cols: DEFAULT_COLS,
            rows: DEFAULT_ROWS,
            pixw: 0,
            pixh: 0,
            master: None,
            slave: None,
            writer: None,
            started: false,
            cancel,
        }
    }

    /// A slave comes with a master, a slave that is gone has taken the writer
    /// with it, and a started command has taken both.
    pub open spec fn wf(self) -> bool {
        &&& self.slave is Some ==> self.master is Some
        &&& self.master is Some && self.slave is None ==> self.writer is None
        &&& self.started ==> self.master is Some && self.slave is None && self.writer is None
    }

    /// The window size.
    pub open spec fn size(self) -> Winsize {
        Winsize {
            ws_row: self.rows,
            ws_col: self.cols,
            ws_xpixel: self.pixw,
            ws_ypixel: self.pixh,
        }
    }

    /// The channel with the size that a client asks for.
    pub open spec fn resized(self, cols: u32, rows: u32, pixw: u32, pixh: u32) -> Self {
        ChannelModel {
            cols: dimension(cols, DEFAULT_COLS),
            rows: dimension(rows, DEFAULT_ROWS),
            pixw: pixels(pixw),
            pixh: pixels(pixh),
            ..self
        }
    }

    /// The channel with the terminal type that a client asks for; an empty one
    /// changes nothing.
    pub open spec fn retermed(self, term: Seq<char>) -> Self {
        if term.len() == 0 {
            self
        } else {
            ChannelModel { term, ..self }
        }
    }

    /// The channel with a PTY.
    pub open spec fn with_pty(self, master: M, slave: S) -> Self {
        ChannelModel { master: Some(master), slave: Some(slave), ..self }
    }

    /// The channel once its slave and its writer are handed out.
    pub open spec fn spent(self) -> Self {
        ChannelModel { slave: None, writer: None, ..self }
    }

    /// The channel once its command runs.
    pub open spec fn running(self) -> Self {
        ChannelModel { started: true, ..self }
    }

    /// The channel after a request.
    pub open spec fn after(self, request: Request<M, S>) -> Self {
        match request {
            Request::Pty(term, cols, rows, pixw, pixh) => self.retermed(term).resized(
                cols,
                rows,
                pixw,
                pixh,
            ),
            Request::PtyOpened(Some((master, slave))) => self.with_pty(master, slave),
            Request::WindowChange(cols, rows, pixw, pixh) => self.resized(cols, rows, pixw, pixh),
            Request::Shell => if self.started || self.master is None {
                self
            } else {
                self.spent()
            },
            Request::ShellPtyOpened(Some((master, slave))) => self.with_pty(master, slave).spent(),
            Request::Spawned(SpawnEvent::Running(_)) => self.running(),
            _ => self,
        }
    }

    /// The channel after a run of requests.
    pub open spec fn after_all(self, requests: Seq<Request<M, S>>) -> Self
        decreases requests.len(),
    {
        if requests.len() == 0 {
            self
        } else {
            self.after_all(requests.drop_last()).after(requests.last())
        }
    }

    /// Whether a request brings the channel to start the command.
    pub open spec fn spawns(self, request: Request<M, S>) -> bool {
        match request {
            Request::Shell => !self.started && self.master is Some && self.writer is Some,
            Request::ShellPtyOpened(Some(_)) => self.writer is Some,
            _ => false,
        }
    }

    /// The step that starts the command on a channel with a PTY, handing out
    /// its slave and its writer; without a writer there is no start.
    pub open spec fn starts(self, argv: Seq<Seq<char>>, step: ShellStep<S, W>) -> bool {
        match self.writer {
            None => step == ShellStep::<S, W>::Refuse(Refusal::NoWriter),
            Some(w) => {
                &&& step matches ShellStep::Spawn { slave, writer, plan }
                &&& Some(slave) == self.slave
                &&& writer == w
                &&& plan.runs(argv, self.term)
            },
        }
    }
}

impl<M, S, W, C> ChannelState<M, S, W, C> {
    /// A channel that nothing was asked of.
    pub fn new(cancel: C) -> (r: Self)
        ensures
            r@ == ChannelModel::<M, S, W, C>::fresh(cancel),
    {
        ChannelState {
            term: DEFAULT_TERM.to_string(),
            cols: DEFAULT_COLS,
            rows: DEFAULT_ROWS,
            pixw: 0,
            pixh: 0,
            master: None,
            slave: None,
            writer: None,
            started: false,
            cancel,
        }
    }

    /// The stored window size.
    fn winsize(&self) -> (r: Winsize)
        ensures
            r == self@.size(),
    {
        crate::pty::winsize(self.cols, self.rows, self.pixw, self.pixh)
    }

    fn resize(&mut self, cols: u32, rows: u32, pixw: u32, pixh: u32)
        ensures
            final(self)@ == old(self)@.resized(cols, rows, pixw, pixh),
    {
        self.cols = dim(cols, DEFAULT_COLS);
        self.rows = dim(rows, DEFAULT_ROWS);
        self.pixw = pix(pixw);
        self.pixh = pix(pixh);
    }

    /// The size of the PTY to open, unless there is one already.
    pub fn ensure_pty(&self) -> (r: Option<Winsize>)
        ensures
            r == if self@.master is Some {
                None
            } else {
                Some(self@.size())
            },
    {
        match &self.master {
            Some(_) => None,
            None => Some(self.winsize()),
        }
    }

    /// The size to give to the PTY, if there is one.
    pub fn apply_winsize(&self) -> (r: Option<Winsize>)
        ensures
            r == if self@.master is Some {
                Some(self@.size())
            } else {
                None
            },
    {
        match &self.master {
            Some(_) => Some(self.winsize()),
            None => None,
        }
    }

    /// Hands out what starting the command takes.
    fn claim(&mut self, argv: &Vec<String>) -> (r: ShellStep<S, W>)
        requires
            argv@.len() > 0,
            old(self)@.slave is None ==> old(self)@.writer is None,
        ensures
            old(self)@.starts(crate::text::strings(argv@), r),
            final(self)@ == old(self)@.spent(),
    {
        let taken = self.slave.take();
        match (taken, self.writer.take()) {
            (Some(slave), Some(writer)) => {
                let plan = crate::pty::spawn_child(argv, self.term.as_str());
                ShellStep::Spawn { slave, writer, plan }
            },
            _ => ShellStep::Refuse(Refusal::NoWriter),
        }
    }
}

/// The server: one per daemon.
#[derive(Clone, Debug)]
pub struct Server {
    /// The configuration, shared with all connections.
    pub config: Arc<Config>,
}

impl Server {
    /// A server for a configuration.
    pub fn new(config: Arc<Config>) -> (r: Server)
        ensures
            r.config == config,
    {
        Server { config }
    }

    /// A handler for a new connection.
    pub fn new_client<M, S, W, C>(&self, peer: Option<SocketAddr>) -> (r: ClientHandler<M, S, W, C>)
        ensures
            r.config == self.config,
            r.peer == peer,
            r.chans() == Map::<u32, ChannelModel<M, S, W, C>>::empty(),
            self.config.wf() ==> r.wf(),
    {
        let r = ClientHandler { config: self.config.clone(), peer, channels: HashMap::new() };
        assert(r.chans() =~= Map::<u32, ChannelModel<M, S, W, C>>::empty());
        r
    }
}

/// One connection and its session channels.
#[derive(Debug)]
pub struct ClientHandler<M, S, W, C> {
    /// The configuration.
    pub config: Arc<Config>,
    /// The client's address.
    pub peer: Option<SocketAddr>,
    /// The session channels.
    pub channels: HashMap<u32, ChannelState<M, S, W, C>>,
}

/// A connection's channels.
pub type Channels<M, S, W, C> = Map<u32, ChannelModel<M, S, W, C>>;

impl<M, S, W, C> ClientHandler<M, S, W, C> {
    /// The session channels.
    pub open spec fn chans(&self) -> Channels<M, S, W, C> {
        self.channels@.map_values(|st: ChannelState<M, S, W, C>| st@)
    }

    /// The configuration and all channels are well-formed.
    pub open spec fn wf(&self) -> bool {
        &&& self.config.wf()
        &&& forall|id: u32| #[trigger] self.chans().contains_key(id) ==> self.chans()[id].wf()
    }

    /// Only the channels differ.
    pub open spec fn same_client(&self, other: &Self) -> bool {
        self.config == other.config && self.peer == other.peer
    }

    /// The channel that a request is about: the one that is there, or a new one.
    pub open spec fn entry(&self, channel: u32, cancel: C) -> ChannelModel<M, S, W, C> {
        if self.chans().contains_key(channel) {
            self.chans()[channel]
        } else {
            ChannelModel::fresh(cancel)
        }
    }

    fn put(&mut self, channel: u32, st: ChannelState<M, S, W, C>)
        ensures
            final(self).chans() == old(self).chans().insert(channel, st@),
            final(self).same_client(old(self)),
    {
        broadcast use vstd::std_specs::hash::group_hash_axioms;

        let _ = self.channels.insert(channel, st);
        assert(self.chans() =~= old(self).chans().insert(channel, st@));
    }

    fn take(&mut self, channel: u32) -> (r: Option<ChannelState<M, S, W, C>>)
        ensures
            final(self).chans() == old(self).chans().remove(channel),
            final(self).same_client(old(self)),
            match r {
                Some(st) => old(self).chans().contains_key(channel) && st@ == old(
                    self,
                ).chans()[channel],
                None => !old(self).chans().contains_key(channel),
            },
    {
        broadcast use vstd::std_specs::hash::group_hash_axioms;

        let r = self.channels.remove(&channel);
        assert(self.chans() =~= old(self).chans().remove(channel));
        r
    }

    fn find(&self, channel: u32) -> (r: Option<&ChannelState<M, S, W, C>>)
        ensures
            match r {
                Some(st) => self.chans().contains_key(channel) && st@ == self.chans()[channel],
                None => !self.chans().contains_key(channel),
            },
    {
        broadcast use vstd::std_specs::hash::group_hash_axioms;

        self.channels.get(&channel)
    }

    /// Applies the policy on user names. A user who is turned away has no other
    /// method to go on with, since none would change the name.
    pub fn authorize(&self, user: &str) -> (r: Auth)
        ensures
            r == if self.config.allows(user@) {
                Auth::Accept
            } else {
                Auth::Reject { proceed_with_methods: None, partial_success: false }
            },
    {
        if self.config.username_allowed(user) {
            Auth::Accept
        } else {
            Auth::Reject { proceed_with_methods: None, partial_success: false }
        }
    }
}

impl<M, S, W, C> ClientHandler<M, S, W, C> {
    /// Without a credential, the name decides.
    pub fn auth_none(&self, user: &str) -> (r: Auth)
        ensures
            r == if self.config.allows(user@) {
                Auth::Accept
            } else {
                Auth::Reject { proceed_with_methods: None, partial_success: false }
            },
    {
        self.authorize(user)
    }

    /// Whatever the password, the name decides.
    pub fn auth_password(&self, user: &str, _password: &str) -> (r: Auth)
        ensures
            r == if self.config.allows(user@) {
                Auth::Accept
            } else {
                Auth::Reject { proceed_with_methods: None, partial_success: false }
            },
    {
        self.authorize(user)
    }

    /// Whatever the key, the name decides.
    pub fn auth_publickey(&self, user: &str) -> (r: Auth)
        ensures
            r == if self.config.allows(user@) {
                Auth::Accept
            } else {
                Auth::Reject { proceed_with_methods: None, partial_success: false }
            },
    {
        self.authorize(user)
    }

    /// Whatever the answers, the name decides.
    pub fn auth_keyboard_interactive(&self, user: &str, _submethods: &str) -> (r: Auth)
        ensures
            r == if self.config.allows(user@) {
                Auth::Accept
            } else {
                Auth::Reject { proceed_with_methods: None, partial_success: false }
            },
    {
        self.authorize(user)
    }

    /// Takes in a new session channel; it is always accepted.
    pub fn channel_open_session(&mut self, channel: u32, writer: W, cancel: C) -> (r: bool)
        ensures
            r,
            final(self).chans() == old(self).chans().insert(
                channel,
                ChannelModel { writer: Some(writer), ..ChannelModel::fresh(cancel) },
            ),
            final(self).same_client(old(self)),
            old(self).wf() ==> final(self).wf(),
    {
        let mut st: ChannelState<M, S, W, C> = ChannelState::new(cancel);
        st.writer = Some(writer);
        self.put(channel, st);
        true
    }

    /// An environment variable from the client: it is ignored.
    pub fn env_request(&self, _channel: u32, _name: &str, _value: &str) -> (r: Reply)
        ensures
            r == Reply::Silent,
    {
        Reply::Silent
    }

    /// Records a `pty-req` and sees to it that there is a PTY. `cancel` is for
    /// the channel where it is not known yet.
    pub fn pty_request(
        &mut self,
        channel: u32,
        term: &str,
        col_width: u32,
        row_height: u32,
        pix_width: u32,
        pix_height: u32,
        cancel: C,
    ) -> (r: PtyStep)
        ensures
            ({
                let asked = old(self).entry(channel, cancel).retermed(term@).resized(
                    col_width,
                    row_height,
                    pix_width,
                    pix_height,
                );
                &&& final(self).chans() == old(self).chans().insert(channel, asked)
                &&& r == if asked.master is Some {
                    PtyStep::Ready(asked.size())
                } else {
                    PtyStep::Open(asked.size())
                }
            }),
            final(self).chans()[channel] == old(self).entry(channel, cancel).after(
                Request::Pty(term@, col_width, row_height, pix_width, pix_height),
            ),
            fits(col_width, row_height, pix_width, pix_height) ==> ({
                let size = Winsize {
                    ws_row: row_height as u16,
                    ws_col: col_width as u16,
                    ws_xpixel: pix_width as u16,
                    ws_ypixel: pix_height as u16,
                };
                r == PtyStep::Open(size) || r == PtyStep::Ready(size)
            }),
            final(self).same_client(old(self)),
            old(self).wf() ==> final(self).wf(),
    {
        let mut st = match self.take(channel) {
            Some(st) => st,
            None => ChannelState::new(cancel),
        };
        if !term.is_empty() {
            st.term = term.to_string();
        }
        st.resize(col_width, row_height, pix_width, pix_height);
        let r = match st.ensure_pty() {
            Some(size) => PtyStep::Open(size),
            None => PtyStep::Ready(st.winsize()),
        };
        self.put(channel, st);
        proof {
            let asked = old(self).entry(channel, cancel).retermed(term@).resized(
                col_width,
                row_height,
                pix_width,
                pix_height,
            );
            assert(self.chans() =~= old(self).chans().insert(channel, asked));
        }
        r
    }

    /// Takes in the PTY that a `pty-req` asked for, or learns that there is none.
    pub fn pty_opened(&mut self, channel: u32, pty: Option<(M, S)>) -> (r: PtyStep)
        requires
            old(self).chans().contains_key(channel),
            old(self).chans()[channel].master is None,
        ensures
            match pty {
                Some((master, slave)) => {
                    &&& final(self).chans() == old(self).chans().insert(
                        channel,
                        old(self).chans()[channel].with_pty(master, slave),
                    )
                    &&& r == PtyStep::Ready(old(self).chans()[channel].size())
                },
                None => {
                    &&& final(self).chans() == old(self).chans()
                    &&& r == PtyStep::Failed
                },
            },
            final(self).chans()[channel] == old(self).chans()[channel].after(
                Request::PtyOpened(pty),
            ),
            final(self).same_client(old(self)),
            old(self).wf() ==> final(self).wf(),
    {
        match (pty, self.take(channel)) {
            (Some((master, slave)), Some(mut st)) => {
                st.master = Some(master);
                st.slave = Some(slave);
                let size = st.winsize();
                self.put(channel, st);
                assert(self.chans() =~= old(self).chans().insert(
                    channel,
                    old(self).chans()[channel].with_pty(master, slave),
                ));
                PtyStep::Ready(size)
            },
            (None, Some(st)) => {
                self.put(channel, st);
                assert(self.chans() =~= old(self).chans());
                PtyStep::Failed
            },
            (_, None) => PtyStep::Failed,
        }
    }

    /// Records a `window-change`. It always succeeds, also on a channel that is
    /// not known.
    pub fn window_change_request(
        &mut self,
        channel: u32,
        col_width: u32,
        row_height: u32,
        pix_width: u32,
        pix_height: u32,
    ) -> (r: WindowStep)
        ensures
            r.reply == Reply::Success,
            if old(self).chans().contains_key(channel) {
                let asked = old(self).chans()[channel].resized(
                    col_width,
                    row_height,
                    pix_width,
                    pix_height,
                );
                &&& final(self).chans() == old(self).chans().insert(channel, asked)
                &&& r.apply == if asked.master is Some {
                    Some(asked.size())
                } else {
                    None
                }
            } else {
                &&& final(self).chans() == old(self).chans()
                &&& r.apply is None
            },
            old(self).chans().contains_key(channel) ==> final(self).chans()[channel] == old(
                self,
            ).chans()[channel].after(
                Request::WindowChange(col_width, row_height, pix_width, pix_height),
            ),
            old(self).chans().contains_key(channel) && old(self).chans()[channel].master is Some
                && fits(col_width, row_height, pix_width, pix_height) ==> r.apply == Some(
                Winsize {
                    ws_row: row_height as u16,
                    ws_col: col_width as u16,
                    ws_xpixel: pix_width as u16,
                    ws_ypixel: pix_height as u16,
                },
            ),
            final(self).same_client(old(self)),
            old(self).wf() ==> final(self).wf(),
    {
        match self.take(channel) {
            Some(mut st) => {
                st.resize(col_width, row_height, pix_width, pix_height);
                let apply = st.apply_winsize();
                self.put(channel, st);
                assert(self.chans() =~= old(self).chans().insert(channel, st@));
                WindowStep { apply, reply: Reply::Success }
            },
            None => {
                assert(self.chans() =~= old(self).chans());
                WindowStep { apply: None, reply: Reply::Success }
            },
        }
    }

    /// Begins a `shell`: an unknown or a started channel is refused, a channel
    /// without a PTY asks for one, and a channel with one asks for the command.
    /// After a start that failed the channel has no writer, and is refused.
    pub fn shell_request(&mut self, channel: u32) -> (r: ShellStep<S, W>)
        requires
            old(self).wf(),
        ensures
            if !old(self).chans().contains_key(channel) {
                &&& r == ShellStep::<S, W>::Refuse(Refusal::UnknownChannel)
                &&& final(self).chans() == old(self).chans()
            } else if old(self).chans()[channel].started {
                &&& r == ShellStep::<S, W>::Refuse(Refusal::AlreadyStarted)
                &&& final(self).chans() == old(self).chans()
            } else if old(self).chans()[channel].master is None {
                &&& r == ShellStep::<S, W>::Open(old(self).chans()[channel].size())
                &&& final(self).chans() == old(self).chans()
            } else {
                &&& old(self).chans()[channel].starts(old(self).config.command(), r)
                &&& final(self).chans() == old(self).chans().insert(
                    channel,
                    old(self).chans()[channel].spent(),
                )
            },
            old(self).chans().contains_key(channel) ==> {
                &&& final(self).chans()[channel] == old(self).chans()[channel].after(
                    Request::Shell,
                )
                &&& r is Spawn <==> old(self).chans()[channel].spawns(Request::Shell)
            },
            final(self).same_client(old(self)),
            old(self).wf() ==> final(self).wf(),
    {
        let mut st = match self.take(channel) {
            Some(st) => st,
            None => {
                assert(self.chans() =~= old(self).chans());
                return ShellStep::Refuse(Refusal::UnknownChannel);
            },
        };
        let r = if st.started {
            ShellStep::Refuse(Refusal::AlreadyStarted)
        } else {
            match st.ensure_pty() {
                Some(size) => ShellStep::Open(size),
                None => st.claim(&self.config.argv),
            }
        };
        self.put(channel, st);
        assert(self.chans() =~= old(self).chans().insert(channel, st@));
        proof {
            let before = old(self).chans()[channel];
            if before.started || before.master is None {
                assert(self.chans() =~= old(self).chans());
            }
        }
        r
    }

    /// Takes in the PTY that a `shell` asked for, or learns that there is none.
    pub fn shell_pty_opened(&mut self, channel: u32, pty: Option<(M, S)>) -> (r: ShellStep<S, W>)
        requires
            old(self).config.wf(),
            old(self).chans().contains_key(channel),
            old(self).chans()[channel].master is None,
        ensures
            match pty {
                Some((master, slave)) => {
                    let opened = old(self).chans()[channel].with_pty(master, slave);
                    &&& opened.starts(old(self).config.command(), r)
                    &&& final(self).chans() == old(self).chans().insert(channel, opened.spent())
                },
                None => {
                    &&& r == ShellStep::<S, W>::Refuse(Refusal::PtyFailed)
                    &&& final(self).chans() == old(self).chans()
                },
            },
            final(self).chans()[channel] == old(self).chans()[channel].after(
                Request::ShellPtyOpened(pty),
            ),
            r is Spawn <==> old(self).chans()[channel].spawns(Request::ShellPtyOpened(pty)),
            final(self).same_client(old(self)),
            old(self).wf() ==> final(self).wf(),
    {
        match (pty, self.take(channel)) {
            (Some((master, slave)), Some(mut st)) => {
                st.master = Some(master);
                st.slave = Some(slave);
                let r = st.claim(&self.config.argv);
                self.put(channel, st);
                assert(self.chans() =~= old(self).chans().insert(channel, st@));
                r
            },
            (None, Some(st)) => {
                self.put(channel, st);
                assert(self.chans() =~= old(self).chans());
                ShellStep::Refuse(Refusal::PtyFailed)
            },
            (_, None) => ShellStep::Refuse(Refusal::PtyFailed),
        }
    }

    /// Learns what came of starting the command.
    pub fn shell_spawned(&mut self, channel: u32, event: SpawnEvent) -> (r: ShellOutcome<'_, M, C>)
        requires
            old(self).chans().contains_key(channel),
            old(self).chans()[channel].master is Some,
            old(self).chans()[channel].slave is None,
            old(self).chans()[channel].writer is None,
        ensures
            match event {
                SpawnEvent::Failed => {
                    &&& r == ShellOutcome::<'_, M, C>::Refuse(Refusal::SpawnFailed)
                    &&& final(self).chans() == old(self).chans()
                },
                SpawnEvent::NoStderr => {
                    &&& r == ShellOutcome::<'_, M, C>::Abort
                    &&& final(self).chans() == old(self).chans()
                },
                SpawnEvent::Running(pid) => {
                    &&& r matches ShellOutcome::Started { session, master, cancel }
                    &&& session == (Session {
                        channel,
                        grace: old(self).config.grace,
                        pid: match pid {
                            Some(p) => p,
                            None => 0,
                        },
                    })
                    &&& Some(*master) == old(self).chans()[channel].master
                    &&& *cancel == old(self).chans()[channel].cancel
                    &&& final(self).chans() == old(self).chans().insert(
                        channel,
                        old(self).chans()[channel].running(),
                    )
                },
            },
            final(self).chans()[channel] == old(self).chans()[channel].after(
                Request::Spawned(event),
            ),
            final(self).same_client(old(self)),
            old(self).wf() ==> final(self).wf(),
    {
        match event {
            SpawnEvent::Failed => ShellOutcome::Refuse(Refusal::SpawnFailed),
            SpawnEvent::NoStderr => ShellOutcome::Abort,
            SpawnEvent::Running(pid) => {
                let pid: u32 = match pid {
                    Some(p) => p,
                    None => 0,
                };
                if let Some(mut st) = self.take(channel) {
                    st.started = true;
                    self.put(channel, st);
                    assert(self.chans() =~= old(self).chans().insert(channel, st@));
                }
                let session = Session { channel, grace: self.config.grace, pid };
                match self.find(channel) {
                    Some(st) => match &st.master {
                        Some(master) => ShellOutcome::Started { session, master, cancel: &st.cancel },
                        None => ShellOutcome::Abort,
                    },
                    None => ShellOutcome::Abort,
                }
            },
        }
    }

    /// Refuses a command from the client: only the configured one is ever run.
    pub fn exec_request(&self, _channel: u32, data: &[u8]) -> (r: ExecRefusal)
        ensures
            r.command@ == crate::text::utf8_lossy(data@),
            r.reply == Reply::Failure,
            r.disconnect,
            r.reason@ == "exec is not permitted"@,
            vstd::utf8::valid_utf8(data@) ==> r.command@ == vstd::utf8::decode_utf8(data@),
    {
        ExecRefusal {
            command: crate::text::from_utf8_lossy(data),
            reply: Reply::Failure,
            disconnect: true,
            reason: "exec is not permitted".to_string(),
        }
    }

    /// Where to write what the client sends: to the channel's PTY, if it has one.
    pub fn data(&self, channel: u32) -> (r: Option<&M>)
        ensures
            match r {
                Some(master) => self.chans().contains_key(channel)
                    && self.chans()[channel].master == Some(*master),
                None => self.chans().contains_key(channel) ==> self.chans()[channel].master is None,
            },
    {
        match self.find(channel) {
            Some(st) => st.master.as_ref(),
            None => None,
        }
    }

    /// What to cancel when writing to a channel's PTY failed: its session.
    pub fn data_failed(&self, channel: u32) -> (r: Option<&C>)
        ensures
            match r {
                Some(cancel) => self.chans().contains_key(channel) && self.chans()[channel].cancel
                    == *cancel,
                None => !self.chans().contains_key(channel),
            },
    {
        match self.find(channel) {
            Some(st) => Some(&st.cancel),
            None => None,
        }
    }

    /// The client sends no more input. The session goes on: there is nothing to
    /// cancel.
    pub fn channel_eof(&self, _channel: u32) -> (r: Option<&C>)
        ensures
            r is None,
    {
        None
    }

    /// Forgets a channel and says what to cancel: its session.
    pub fn channel_close(&mut self, channel: u32) -> (r: Option<C>)
        ensures
            final(self).chans() == old(self).chans().remove(channel),
            final(self).same_client(old(self)),
            old(self).wf() ==> final(self).wf(),
            match r {
                Some(cancel) => old(self).chans().contains_key(channel) && old(
                    self,
                ).chans()[channel].cancel == cancel,
                None => !old(self).chans().contains_key(channel),
            },
    {
        match self.take(channel) {
            Some(st) => Some(st.cancel),
            None => None,
        }
    }

    /// The connection is gone: forgets all channels and says what to cancel, the
    /// session of each of them.
    pub fn disconnect(&mut self) -> (r: Vec<C>)
        ensures
            final(self).chans() == Map::<u32, ChannelModel<M, S, W, C>>::empty(),
            final(self).same_client(old(self)),
            exists|ids: Seq<u32>| cancels_all(old(self).chans(), ids, r@),
            r@.len() == old(self).chans().dom().len(),
    {
        broadcast use vstd::std_specs::hash::group_hash_axioms;

        let ghost start = self.chans();
        let ghost order = vstd::std_specs::iter::IteratorSpec::remaining(
            &self.channels.keys(),
        ).unref();
        let mut ids: Vec<u32> = Vec::new();
        for id in it: self.channels.keys()
            invariant
                it.seq().unref() == order,
                ids@ == order.take(it.index() as int),
        {
            ids.push(*id);
            assert(ids@ =~= order.take(it.index() + 1));
        }
        assert(ids@ =~= order);
        assert(self.chans().dom() =~= self.channels@.dom());
        let mut r: Vec<C> = Vec::new();
        let mut i: usize = 0;
        assert(start =~= start.remove_keys(order.take(0).to_set()));
        while i < ids.len()
            invariant
                i <= ids.len(),
                ids@ == order,
                order.no_duplicates(),
                order.to_set() == start.dom(),
                self.same_client(old(self)),
                self.chans() == start.remove_keys(order.take(i as int).to_set()),
                r@ == order.take(i as int).map_values(|id: u32| start[id].cancel),
            decreases ids.len() - i,
        {
            let ghost done = order.take(i as int);
            assert(order.take(i + 1) =~= done.push(order[i as int]));
            assert(order.to_set().contains(order[i as int]));
            assert(!done.contains(order[i as int]));
            if let Some(st) = self.take(ids[i]) {
                r.push(st.cancel);
            }
            assert(r@ =~= order.take(i + 1).map_values(|id: u32| start[id].cancel));
            assert(self.chans() =~= start.remove_keys(order.take(i + 1).to_set())) by {
                assert forall|id: u32| order.take(i + 1).to_set().contains(id) <==> (
                done.to_set().contains(id) || id == order[i as int]) by {
                    if id == order[i as int] {
                        assert(order.take(i + 1)[i as int] == id);
                    } else if done.to_set().contains(id) {
                        let k = choose|k: int| 0 <= k < done.len() && done[k] == id;
                        assert(order.take(i + 1)[k] == id);
                    }
                }
            }
            i += 1;
        }
        assert(order.take(order.len() as int) =~= order);
        assert(self.chans() =~= Map::<u32, ChannelModel<M, S, W, C>>::empty());
        assert(cancels_all(start, order, r@));
        r
    }
}

/// `cancels` holds the cancellation handle of every channel once, in the order
/// of `ids`.
pub open spec fn cancels_all<M, S, W, C>(
    channels: Channels<M, S, W, C>,
    ids: Seq<u32>,
    cancels: Seq<C>,
) -> bool {
    &&& ids.no_duplicates()
    &&& ids.to_set() == channels.dom()
    &&& cancels == ids.map_values(|id: u32| channels[id].cancel)
}

/// Numbers of columns and rows that fit are taken as they are, all others stand
/// for the default or the largest that fits; none comes out as zero.
pub proof fn law_dimensions_fit(v: u32, default: u16)
    ensures
        default > 0 ==> dimension(v, default) > 0,
        1 <= v <= u16::MAX ==> dimension(v, default) == v,
        v == 0 ==> dimension(v, default) == default,
        v > u16::MAX ==> dimension(v, default) == u16::MAX,
{
}

/// A larger request never gives a smaller window.
pub proof fn law_dimensions_are_monotonic(a: u32, b: u32, default: u16)
    requires
        0 < a <= b,
    ensures
        dimension(a, default) <= dimension(b, default),
        pixels(a) <= pixels(b),
{
}

/// The latest size wins, whatever was asked for before.
pub proof fn law_latest_size_wins<M, S, W, C>(
    c: ChannelModel<M, S, W, C>,
    a: (u32, u32, u32, u32),
    b: (u32, u32, u32, u32),
)
    ensures
        c.resized(a.0, a.1, a.2, a.3).resized(b.0, b.1, b.2, b.3) == c.resized(
            b.0,
            b.1,
            b.2,
            b.3,
        ),
{
}

/// Without a `pty-req` the terminal is an `xterm` of 80 columns and 24 rows.
pub proof fn law_default_terminal<M, S, W, C>(cancel: C)
    ensures
        ChannelModel::<M, S, W, C>::fresh(cancel).term == "xterm"@,
        ChannelModel::<M, S, W, C>::fresh(cancel).size() == (Winsize {
            ws_row: 24,
            ws_col: 80,
            ws_xpixel: 0,
            ws_ypixel: 0,
        }),
        ChannelModel::<M, S, W, C>::fresh(cancel).wf(),
{
}

/// A channel whose slave was handed out.
pub open spec fn slave_gone<M, S, W, C>(c: ChannelModel<M, S, W, C>) -> bool {
    c.master is Some && c.slave is None
}

/// A slave is handed out once: after that no request on the channel brings
/// another, since a PTY is only opened where there is none; a `shell` is then
/// refused.
pub proof fn law_slave_is_handed_out_once<M, S, W, C>(
    c: ChannelModel<M, S, W, C>,
    argv: Seq<Seq<char>>,
    step: ShellStep<S, W>,
    term: Seq<char>,
    size: (u32, u32, u32, u32),
)
    requires
        c.master is Some,
    ensures
        slave_gone(c.spent()),
        slave_gone(c) ==> slave_gone(c.retermed(term)),
        slave_gone(c) ==> slave_gone(c.resized(size.0, size.1, size.2, size.3)),
        slave_gone(c) ==> slave_gone(c.running()),
        slave_gone(c) && c.starts(argv, step) ==> !(step is Spawn),
        slave_gone(c) && c.wf() && c.starts(argv, step) ==> step == ShellStep::<S, W>::Refuse(
            Refusal::NoWriter,
        ),
{
}

/// One child per channel: of all the requests on a channel, at most one starts
/// the command.
pub proof fn law_one_child_per_channel<M, S, W, C>(
    c: ChannelModel<M, S, W, C>,
    requests: Seq<Request<M, S>>,
    i: int,
    j: int,
)
    requires
        0 <= i < j < requests.len(),
        c.after_all(requests.take(i)).spawns(requests[i]),
    ensures
        !c.after_all(requests.take(j)).spawns(requests[j]),
{
    lemma_writer_is_spent(c, requests, i, j);
}

/// Once the command was to be started, the channel's writer is gone for good.
proof fn lemma_writer_is_spent<M, S, W, C>(
    c: ChannelModel<M, S, W, C>,
    requests: Seq<Request<M, S>>,
    i: int,
    j: int,
)
    requires
        0 <= i < j <= requests.len(),
        c.after_all(requests.take(i)).spawns(requests[i]),
    ensures
        c.after_all(requests.take(j)).writer is None,
    decreases j,
{
    assert(requests.take(j).drop_last() =~= requests.take(j - 1));
    if j > i + 1 {
        lemma_writer_is_spent(c, requests, i, j - 1);
    }
}

/// The client does not choose what is run: whatever it asked for before, a
/// start runs the configured command.
pub proof fn law_command_is_the_configured_one<M, S, W, C>(
    c: ChannelModel<M, S, W, C>,
    argv: Seq<Seq<char>>,
    step: ShellStep<S, W>,
)
    requires
        c.starts(argv, step),
        step is Spawn,
    ensures
        seq![step->plan.program@] + crate::text::strings(step->plan.args@) == argv,
        step->plan.term@ == c.term,
{
}

/// Pixels that fit are taken as they are, zero too; the largest that fits stands
/// for all above it.
pub proof fn law_pixels_fit(v: u32)
    ensures
        v <= u16::MAX ==> pixels(v) == v,
        v > u16::MAX ==> pixels(v) == u16::MAX,
{
}

/// Whatever a channel's state, running or not, a size that is asked for is the
/// size that it has, and nothing else of it changes.
pub proof fn law_a_channel_takes_the_size_asked_for<M, S, W, C>(
    c: ChannelModel<M, S, W, C>,
    cols: u32,
    rows: u32,
    pixw: u32,
    pixh: u32,
)
    requires
        1 <= cols <= u16::MAX,
        1 <= rows <= u16::MAX,
        pixw <= u16::MAX,
        pixh <= u16::MAX,
    ensures
        ({
            let r = c.resized(cols, rows, pixw, pixh);
            &&& r.size().ws_col == cols
            &&& r.size().ws_row == rows
            &&& r.size().ws_xpixel == pixw
            &&& r.size().ws_ypixel == pixh
            &&& r.term == c.term
            &&& r.master == c.master
            &&& r.slave == c.slave
            &&& r.writer == c.writer
            &&& r.started == c.started
            &&& r.cancel == c.cancel
        }),
{
}

/// The same of sizes that do not fit, each number for itself: zero columns and
/// rows are the default, and what is too large is the largest that fits.
pub proof fn law_odd_sizes_are_fitted<M, S, W, C>(
    c: ChannelModel<M, S, W, C>,
    cols: u32,
    rows: u32,
    pixw: u32,
    pixh: u32,
)
    ensures
        ({
            let size = c.resized(cols, rows, pixw, pixh).size();
            &&& cols == 0 ==> size.ws_col == 80
            &&& rows == 0 ==> size.ws_row == 24
            &&& 1 <= cols <= u16::MAX ==> size.ws_col == cols
            &&& 1 <= rows <= u16::MAX ==> size.ws_row == rows
            &&& pixw <= u16::MAX ==> size.ws_xpixel == pixw
            &&& pixh <= u16::MAX ==> size.ws_ypixel == pixh
            &&& cols > u16::MAX ==> size.ws_col == u16::MAX
            &&& rows > u16::MAX ==> size.ws_row == u16::MAX
            &&& pixw > u16::MAX ==> size.ws_xpixel == u16::MAX
            &&& pixh > u16::MAX ==> size.ws_ypixel == u16::MAX
        }),
{
}

/// Whether a request brings a size.
pub open spec fn brings_size<M, S>(
    request: Request<M, S>,
    cols: u32,
    rows: u32,
    pixw: u32,
    pixh: u32,
) -> bool {
    ||| request == Request::<M, S>::WindowChange(cols, rows, pixw, pixh)
    ||| request matches Request::Pty(_, c, r, w, h) && c == cols && r == rows && w == pixw && h
        == pixh
}

/// Of all the sizes in a run of requests the last one holds, whatever else was
/// asked for before and after, and whether the command runs or not.
pub proof fn law_last_size_holds<M, S, W, C>(
    c: ChannelModel<M, S, W, C>,
    requests: Seq<Request<M, S>>,
    i: int,
    cols: u32,
    rows: u32,
    pixw: u32,
    pixh: u32,
)
    requires
        0 <= i < requests.len(),
        brings_size(requests[i], cols, rows, pixw, pixh),
        forall|j: int|
            i < j < requests.len() ==> !(#[trigger] requests[j] is Pty) && !(
            requests[j] is WindowChange),
        1 <= cols <= u16::MAX,
        1 <= rows <= u16::MAX,
        pixw <= u16::MAX,
        pixh <= u16::MAX,
    ensures
        c.after_all(requests).size().ws_col == cols,
        c.after_all(requests).size().ws_row == rows,
        c.after_all(requests).size().ws_xpixel == pixw,
        c.after_all(requests).size().ws_ypixel == pixh,
    decreases requests.len(),
{
    let before = requests.drop_last();
    if i < before.len() {
        assert(before[i] == requests[i]);
        assert forall|j: int| i < j < before.len() implies !(#[trigger] before[j] is Pty) && !(
        before[j] is WindowChange) by {
            assert(before[j] == requests[j]);
        }
        assert(!(requests[requests.len() - 1] is Pty));
        law_last_size_holds(c, before, i, cols, rows, pixw, pixh);
    }
}

/// Of all the terminal types in a run of requests the last one that is not empty
/// holds.
pub proof fn law_last_terminal_type_holds<M, S, W, C>(
    c: ChannelModel<M, S, W, C>,
    requests: Seq<Request<M, S>>,
    i: int,
)
    requires
        0 <= i < requests.len(),
        requests[i] matches Request::Pty(term, _, _, _, _) && term.len() > 0,
        forall|j: int|
            i < j < requests.len() ==> (#[trigger] requests[j] matches Request::Pty(term, _, _, _, _)
                ==> term.len() == 0),
    ensures
        c.after_all(requests).term == requests[i]->Pty_0,
    decreases requests.len(),
{
    let before = requests.drop_last();
    if i < before.len() {
        assert(before[i] == requests[i]);
        assert forall|j: int| i < j < before.len() implies (#[trigger] before[j] matches
            Request::Pty(term, _, _, _, _) ==> term.len() == 0) by {
            assert(before[j] == requests[j]);
        }
        assert(requests[requests.len() - 1] == requests.last());
        law_last_terminal_type_holds(c, before, i);
    }
}

/// No request changes what cancels a channel's session, takes back a start, or
/// takes away a PTY.
pub proof fn law_a_channel_keeps_its_session<M, S, W, C>(
    c: ChannelModel<M, S, W, C>,
    requests: Seq<Request<M, S>>,
)
    ensures
        c.after_all(requests).cancel == c.cancel,
        c.started ==> c.after_all(requests).started,
        c.master is Some ==> c.after_all(requests).master is Some,
        c.writer is None ==> c.after_all(requests).writer is None,
        !c.started && c.after_all(requests).started ==> exists|i: int|
            0 <= i < requests.len() && #[trigger] requests[i] is Spawned,
    decreases requests.len(),
{
    if requests.len() > 0 {
        let before = requests.drop_last();
        law_a_channel_keeps_its_session(c, before);
        if !c.started && c.after_all(requests).started {
            if c.after_all(before).started {
                let i = choose|i: int| 0 <= i < before.len() && #[trigger] before[i] is Spawned;
                assert(requests[i] is Spawned);
            } else {
                assert(requests[requests.len() - 1] is Spawned);
            }
        }
    }
}

/// What each request does to a channel, beside sizes and terminal types: a PTY
/// that was opened is there, one that was not changes nothing; a command that
/// runs is started, one that does not changes nothing.
pub proof fn law_outcomes_change_the_channel<M, S, W, C>(
    c: ChannelModel<M, S, W, C>,
    master: M,
    slave: S,
    pid: Option<u32>,
)
    ensures
        ({
            let opened = c.after(Request::PtyOpened(Some((master, slave))));
            &&& opened.master == Some(master)
            &&& opened.slave == Some(slave)
            &&& opened.writer == c.writer
            &&& opened.started == c.started
            &&& opened.term == c.term
            &&& opened.size() == c.size()
        }),
        ({
            let claimed = c.after(Request::ShellPtyOpened(Some((master, slave))));
            &&& claimed.master == Some(master)
            &&& claimed.slave is None
            &&& claimed.writer is None
            &&& claimed.started == c.started
            &&& claimed.term == c.term
            &&& claimed.size() == c.size()
        }),
        ({
            let running = c.after(Request::Spawned(SpawnEvent::Running(pid)));
            &&& running.started
            &&& running.master == c.master
            &&& running.slave == c.slave
            &&& running.writer == c.writer
            &&& running.term == c.term
            &&& running.size() == c.size()
        }),
        c.after(Request::PtyOpened(None)) == c,
        c.after(Request::ShellPtyOpened(None)) == c,
        c.after(Request::Spawned(SpawnEvent::Failed)) == c,
        c.after(Request::Spawned(SpawnEvent::NoStderr)) == c,
{
}

/// A `shell` on a channel that is not started and can write to the client always
/// comes to a start, at once where there is a PTY and else as soon as there is
/// one; on any other channel it never does.
pub proof fn law_a_shell_starts_the_command<M, S, W, C>(
    c: ChannelModel<M, S, W, C>,
    master: M,
    slave: S,
)
    ensures
        c.spawns(Request::Shell) <==> !c.started && c.master is Some && c.writer is Some,
        c.spawns(Request::ShellPtyOpened(Some((master, slave)))) <==> c.writer is Some,
        !c.spawns(Request::ShellPtyOpened(None)),
        c.started || c.master is None ==> c.after(Request::Shell) == c,
        c.spawns(Request::Shell) ==> c.after(Request::Shell).writer is None && c.after(
            Request::Shell,
        ).slave is None && c.after(Request::Shell).master == c.master && c.after(
            Request::Shell,
        ).term == c.term && c.after(Request::Shell).size() == c.size() && !c.after(
            Request::Shell,
        ).started,
{
}

/// A start hands out the channel's own slave and writer, and runs the command on
/// a terminal of the channel's type; without a writer it is refused for that
/// reason and no other.
pub proof fn law_a_start_hands_out_what_is_there<M, S, W, C>(
    c: ChannelModel<M, S, W, C>,
    argv: Seq<Seq<char>>,
    step: ShellStep<S, W>,
)
    requires
        c.starts(argv, step),
    ensures
        step is Spawn <==> c.writer is Some,
        step is Spawn ==> Some(step->slave) == c.slave && Some(step->writer) == c.writer,
        step is Spawn ==> argv.len() == step->plan.args@.len() + 1 && argv[0]
            == step->plan.program@ && step->plan.term@ == c.term,
        step is Spawn ==> forall|i: int|
            0 <= i < step->plan.args@.len() ==> argv[i + 1] == #[trigger] step->plan.args@[i]@,
        step is Spawn ==> step->plan.runs(argv, c.term),
        c.writer is None ==> step == ShellStep::<S, W>::Refuse(Refusal::NoWriter),
{
    if step is Spawn {
        crate::pty::law_plan_is_for_the_command(&step->plan, argv, c.term);
    }
}

/// A channel that nothing was asked of has no PTY, no writer and no command.
pub proof fn law_a_new_channel_is_idle<M, S, W, C>(cancel: C)
    ensures
        ({
            let c = ChannelModel::<M, S, W, C>::fresh(cancel);
            &&& c.master is None
            &&& c.slave is None
            &&& c.writer is None
            &&& !c.started
            &&& c.cancel == cancel
        }),
{
}

/// A terminal type that is not empty is taken as it is, an empty one changes
/// nothing, and nothing else of the channel changes.
pub proof fn law_terminal_types_are_taken_as_they_are<M, S, W, C>(
    c: ChannelModel<M, S, W, C>,
    term: Seq<char>,
)
    ensures
        term.len() > 0 ==> c.retermed(term).term == term,
        term.len() == 0 ==> c.retermed(term) == c,
        c.retermed(term).size() == c.size(),
        c.retermed(term).master == c.master,
        c.retermed(term).slave == c.slave,
        c.retermed(term).writer == c.writer,
        c.retermed(term).started == c.started,
        c.retermed(term).cancel == c.cancel,
{
}

/// What a request is about: the channel that is there, or else a new one.
pub proof fn law_known_channels_are_found<M, S, W, C>(
    handler: &ClientHandler<M, S, W, C>,
    channel: u32,
    cancel: C,
)
    ensures
        handler.chans().contains_key(channel) <==> handler.channels@.contains_key(channel),
        handler.channels@.contains_key(channel) ==> handler.entry(channel, cancel)
            == handler.channels@[channel]@,
        !handler.channels@.contains_key(channel) ==> handler.entry(channel, cancel)
            == ChannelModel::<M, S, W, C>::fresh(cancel),
{
}

/// What is said of a channel is what is kept of it.
pub proof fn law_the_view_is_the_channel<M, S, W, C>(st: ChannelState<M, S, W, C>)
    ensures
        st@.term == st.term@,
        st@.cols == st.cols,
        st@.rows == st.rows,
        st@.pixw == st.pixw,
        st@.pixh == st.pixh,
        st@.master == st.master,
        st@.slave == st.slave,
        st@.writer == st.writer,
        st@.started == st.started,
        st@.cancel == st.cancel,
        st@.size().ws_col == st.cols,
        st@.size().ws_row == st.rows,
        st@.size().ws_xpixel == st.pixw,
        st@.size().ws_ypixel == st.pixh,
{
}

/// A lost connection cancels the session of every channel, and none twice.
pub proof fn law_every_session_is_cancelled<M, S, W, C>(
    channels: Channels<M, S, W, C>,
    ids: Seq<u32>,
    cancels: Seq<C>,
    id: u32,
)
    requires
        cancels_all(channels, ids, cancels),
    ensures
        cancels.len() == ids.len(),
        ids.no_duplicates(),
        channels.contains_key(id) ==> exists|i: int|
            0 <= i < cancels.len() && ids[i] == id && #[trigger] cancels[i] == channels[id].cancel,
        forall|i: int|
            0 <= i < cancels.len() ==> channels.contains_key(ids[i]) && #[trigger] cancels[i]
                == channels[ids[i]].cancel,
{
    if channels.contains_key(id) {
        assert(ids.to_set().contains(id));
        let i = choose|i: int| 0 <= i < ids.len() && ids[i] == id;
        assert(cancels[i] == channels[id].cancel);
    }
    assert forall|i: int| 0 <= i < cancels.len() implies channels.contains_key(ids[i]) && #[trigger]
    cancels[i] == channels[ids[i]].cancel by {
        assert(ids.to_set().contains(ids[i]));
    }
}

/// No request touches the configuration or the client's address, and what holds
/// of a well-formed connection holds of each of its channels.
pub proof fn law_a_connection_stays_the_same<M, S, W, C>(
    a: &ClientHandler<M, S, W, C>,
    b: &ClientHandler<M, S, W, C>,
    channel: u32,
)
    ensures
        a.same_client(b) <==> a.config == b.config && a.peer == b.peer,
        a.wf() && a.channels@.contains_key(channel) ==> {
            let st = a.channels@[channel];
            &&& st.slave is Some ==> st.master is Some
            &&& st.started ==> st.master is Some && st.slave is None && st.writer is None
            &&& st.master is Some && st.slave is None ==> st.writer is None
        },
        a.wf() ==> a.config.argv@.len() > 0,
{
    if a.wf() && a.channels@.contains_key(channel) {
        assert(a.chans().contains_key(channel));
        assert(a.chans()[channel] == a.channels@[channel]@);
    }
}

} // verus!
