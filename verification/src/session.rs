//! One shell session: what its tasks start from, and how the child's exit is
//! told to the client.
use vstd::prelude::*;
use vstd::string::StringExecFns;
use crate::platform::{Platform, SignalNumbers};
use crate::pump::{MasterPump, StderrPump};
use crate::supervise::Supervisor;

verus! {

/// What the tasks of one shell session need to know.
#[derive(Clone, Copy, Debug, PartialEq, Eq, Structural)]
pub struct Session {
    /// The session's channel.
    pub channel: u32,
    /// Seconds between `SIGHUP` and `SIGKILL`.
    pub grace: u64,
    /// Child pid, which is also its process group.
    pub pid: u32,
}

/// The tasks of one shell session, before their first event.
#[derive(Debug)]
pub struct Tasks {
    /// PTY master to client.
    pub master: MasterPump,
    /// Child stderr to log.
    pub stderr: StderrPump,
    /// The child's supervisor.
    pub supervisor: Supervisor,
}

/// Sets up the tasks of a session.
pub fn spawn(s: Session) -> (r: Tasks)
    ensures
        r.master.starts(),
        r.stderr.starts(),
        r.supervisor.starts(s),
        r.master.phase == crate::pump::MasterPhase::Reading,
        r.stderr.pending@.len() == 0 && !r.stderr.stopped,
        r.supervisor.session == s && r.supervisor.phase == crate::supervise::Phase::Watching,
{
    Tasks {
        master: MasterPump::new(),
        stderr: StderrPump::new(),
        supervisor: Supervisor::new(s),
    }
}

/// How a child ended: with an exit code, or by a signal.
#[derive(Clone, Copy, Debug, PartialEq, Eq, Structural)]
pub struct ExitStatus {
    /// The exit code, where the child exited by itself.
    pub code: Option<i32>,
    /// The signal that ended the child, where one did.
    pub signal: Option<i32>,
}

/// A signal by its SSH name.
#[derive(Debug, PartialEq, Eq)]
pub enum Sig {
    /// `SIGABRT`
    ABRT,
    /// `SIGALRM`
    ALRM,
    /// `SIGFPE`
    FPE,
    /// `SIGHUP`
    HUP,
    /// `SIGILL`
    ILL,
    /// `SIGINT`
    INT,
    /// `SIGKILL`
    KILL,
    /// `SIGPIPE`
    PIPE,
    /// `SIGQUIT`
    QUIT,
    /// `SIGSEGV`
    SEGV,
    /// `SIGTERM`
    TERM,
    /// `SIGUSR1`
    USR1,
    /// Any other signal.
    Custom(String),
}

/// The signals that SSH names, and the others by their text.
#[verifier::ext_equal]
pub enum SigName {
    /// `SIGABRT`
    ABRT,
    /// `SIGALRM`
    ALRM,
    /// `SIGFPE`
    FPE,
    /// `SIGHUP`
    HUP,
    /// `SIGILL`
    ILL,
    /// `SIGINT`
    INT,
    /// `SIGKILL`
    KILL,
    /// `SIGPIPE`
    PIPE,
    /// `SIGQUIT`
    QUIT,
    /// `SIGSEGV`
    SEGV,
    /// `SIGTERM`
    TERM,
    /// `SIGUSR1`
    USR1,
    /// Any other signal.
    Custom(Seq<char>),
}

impl View for Sig {
    type V = SigName;

    open spec fn view(&self) -> SigName {
        match *self {
            Sig::ABRT => SigName::ABRT,
            Sig::ALRM => SigName::ALRM,
            Sig::FPE => SigName::FPE,
            Sig::HUP => SigName::HUP,
            Sig::ILL => SigName::ILL,
            Sig::INT => SigName::INT,
            Sig::KILL => SigName::KILL,
            Sig::PIPE => SigName::PIPE,
            Sig::QUIT => SigName::QUIT,
            Sig::SEGV => SigName::SEGV,
            Sig::TERM => SigName::TERM,
            Sig::USR1 => SigName::USR1,
            Sig::Custom(name) => SigName::Custom(name@),
        }
    }
}

/// The name of a signal number: a number without an SSH name is written out
/// behind `SIG`.
pub open spec fn signal_name(n: SignalNumbers, sig: i32) -> SigName {
    if sig == n.sigabrt {
        SigName::ABRT
    } else if sig == n.sigalrm {
        SigName::ALRM
    } else if sig == n.sigfpe {
        SigName::FPE
    } else if sig == n.sighup {
        SigName::HUP
    } else if sig == n.sigill {
        SigName::ILL
    } else if sig == n.sigint {
        SigName::INT
    } else if sig == n.sigkill {
        SigName::KILL
    } else if sig == n.sigpipe {
        SigName::PIPE
    } else if sig == n.sigquit {
        SigName::QUIT
    } else if sig == n.sigsegv {
        SigName::SEGV
    } else if sig == n.sigterm {
        SigName::TERM
    } else if sig == n.sigusr1 {
        SigName::USR1
    } else {
        SigName::Custom(seq!['S', 'I', 'G'] + crate::text::decimal(sig as int))
    }
}

/// Maps a signal number to its SSH name.
pub fn map_signal(platform: &Platform, sig: i32) -> (r: Sig)
    ensures
        r@ == signal_name(platform.signals, sig),
{
    let n = &platform.signals;
    if sig == n.sigabrt {
        Sig::ABRT
    } else if sig == n.sigalrm {
        Sig::ALRM
    } else if sig == n.sigfpe {
        Sig::FPE
    } else if sig == n.sighup {
        Sig::HUP
    } else if sig == n.sigill {
        Sig::ILL
    } else if sig == n.sigint {
        Sig::INT
    } else if sig == n.sigkill {
        Sig::KILL
    } else if sig == n.sigpipe {
        Sig::PIPE
    } else if sig == n.sigquit {
        Sig::QUIT
    } else if sig == n.sigsegv {
        Sig::SEGV
    } else if sig == n.sigterm {
        Sig::TERM
    } else if sig == n.sigusr1 {
        Sig::USR1
    } else {
        let mut name: String = "SIG".to_string();
        proof {
            reveal_strlit("SIG");
            assert(name@ =~= seq!['S', 'I', 'G']);
        }
        name.append(crate::text::to_decimal(sig).as_str());
        Sig::Custom(name)
    }
}

/// What the client is told about the child's end.
#[derive(Debug, PartialEq, Eq)]
pub enum ExitReport {
    /// `exit-status` with this code.
    Status(u32),
    /// `exit-signal`
    Signal {
        /// The signal.
        sig: Sig,
        /// Whether a core was dumped.
        core_dumped: bool,
        /// The message for the user.
        message: String,
        /// The language of the message.
        language: String,
    },
}

/// The report that a child's end calls for: its exit code, as an unsigned
/// number, before its signal.
pub open spec fn reports(platform: Platform, status: ExitStatus, r: Option<ExitReport>) -> bool {
    match (status.code, status.signal) {
        (Some(code), _) => r == Some(ExitReport::Status(code as u32)),
        (None, Some(number)) => {
            r matches Some(ExitReport::Signal { sig, core_dumped, message, language })
                && sig@ == signal_name(platform.signals, number) && !core_dumped && message@
                == "killed by signal"@ && language@ == Seq::<char>::empty()
        },
        (None, None) => r is None,
    }
}

/// What to tell the client about the child's end, if there is anything to tell.
pub fn relay_exit(platform: &Platform, status: ExitStatus) -> (r: Option<ExitReport>)
    ensures
        reports(*platform, status, r),
        r matches Some(ExitReport::Status(_)) <==> status.code is Some,
        r matches Some(ExitReport::Signal { .. }) <==> status.code is None && status.signal is Some,
{
    if let Some(code) = status.code {
        Some(ExitReport::Status(#[verifier::truncate] (code as u32)))
    } else if let Some(number) = status.signal {
        Some(
            ExitReport::Signal {
                sig: map_signal(platform, number),
                core_dumped: false,
                message: "killed by signal".to_string(),
                language: String::new(),
            },
        )
    } else {
        None
    }
}

/// Whether a read error means that the other side of the PTY hung up, which is
/// the normal end of its stream.
pub open spec fn hangup(platform: Platform, errno: Option<i32>) -> bool {
    errno == Some(platform.eio)
}

/// Whether a read error means that the other side of the PTY hung up.
pub fn is_pty_hangup(platform: &Platform, errno: Option<i32>) -> (r: bool)
    ensures
        r == hangup(*platform, errno),
{
    match errno {
        Some(e) => e == platform.eio,
        None => false,
    }
}

proof fn lemma_decimal_nat_digits(n: nat)
    ensures
        decimal_digits(crate::text::decimal_nat(n)),
    decreases n,
{
    if n >= 10 {
        lemma_decimal_nat_digits(n / 10);
    }
}

spec fn decimal_digits(s: Seq<char>) -> bool {
    s.len() > 0 && forall|i: int| 0 <= i < s.len() ==> '0' <= #[trigger] s[i] <= '9'
}

proof fn lemma_decimal_nat_injective(a: nat, b: nat)
    requires
        crate::text::decimal_nat(a) == crate::text::decimal_nat(b),
    ensures
        a == b,
    decreases a,
{
    let x = crate::text::decimal_nat(a);
    let y = crate::text::decimal_nat(b);
    lemma_decimal_nat_digits(a / 10);
    lemma_decimal_nat_digits(b / 10);
    assert(x.last() == crate::text::digit(a % 10));
    assert(y.last() == crate::text::digit(b % 10));
    if a >= 10 && b >= 10 {
        assert(x.drop_last() =~= crate::text::decimal_nat(a / 10));
        assert(y.drop_last() =~= crate::text::decimal_nat(b / 10));
        lemma_decimal_nat_injective(a / 10, b / 10);
    }
}

/// Different signals are told to the client under different names.
pub proof fn law_signal_names_differ(platform: Platform, a: i32, b: i32)
    requires
        platform.wf(),
        a != b,
    ensures
        signal_name(platform.signals, a) != signal_name(platform.signals, b),
{
    let x = crate::text::decimal(a as int);
    let y = crate::text::decimal(b as int);
    if seq!['S', 'I', 'G'] + x == seq!['S', 'I', 'G'] + y {
        assert(x =~= (seq!['S', 'I', 'G'] + x).skip(3));
        assert(y =~= (seq!['S', 'I', 'G'] + y).skip(3));
        let m = if a < 0 {
            -(a as int)
        } else {
            a as int
        } as nat;
        let n = if b < 0 {
            -(b as int)
        } else {
            b as int
        } as nat;
        lemma_decimal_nat_digits(m);
        lemma_decimal_nat_digits(n);
        assert((a < 0) == (x[0] == '-'));
        assert((b < 0) == (y[0] == '-'));
        if a < 0 {
            assert(crate::text::decimal_nat(m) =~= x.skip(1));
            assert(crate::text::decimal_nat(n) =~= y.skip(1));
        }
        lemma_decimal_nat_injective(m, n);
    }
}

/// A child that exits by itself is reported with its exit code, whatever else is
/// known of it: a code that is not negative as it is, a negative one as the
/// unsigned number with the same bits.
pub proof fn law_exit_codes_are_kept(platform: Platform, status: ExitStatus, r: Option<ExitReport>)
    requires
        reports(platform, status, r),
        status.code is Some,
    ensures
        r matches Some(ExitReport::Status(code)) && code == if status.code->0 >= 0 {
            status.code->0 as int
        } else {
            status.code->0 + 0x1_0000_0000
        },
{
    let code = status.code->0;
    assert(code < 0 ==> (code as u32) == code + 0x1_0000_0000) by (bit_vector);
}

/// A child that a signal ended is reported with that signal, under its name, and
/// never with an exit status.
pub proof fn law_death_by_signal_is_reported_as_such(
    platform: Platform,
    status: ExitStatus,
    r: Option<ExitReport>,
)
    requires
        reports(platform, status, r),
        status.code is None,
        status.signal is Some,
    ensures
        !(r matches Some(ExitReport::Status(_))),
        r matches Some(ExitReport::Signal { sig, core_dumped, message, language }) && sig@
            == signal_name(platform.signals, status.signal->0) && !core_dumped && message@
            == "killed by signal"@ && language@.len() == 0,
{
}

/// A child that is neither known to have exited nor to have been ended by a
/// signal is not reported.
pub proof fn law_unknown_end_is_not_reported(
    platform: Platform,
    status: ExitStatus,
    r: Option<ExitReport>,
)
    requires
        reports(platform, status, r),
    ensures
        r is None <==> status.code is None && status.signal is None,
{
}

/// The signals that SSH names are told under those names.
pub proof fn law_named_signals_have_their_names(platform: Platform, number: i32, sig: Sig)
    requires
        platform.wf(),
        sig@ == signal_name(platform.signals, number),
    ensures
        sig is HUP <==> number == 1,
        sig is INT <==> number == 2,
        sig is QUIT <==> number == 3,
        sig is ILL <==> number == 4,
        sig is ABRT <==> number == 6,
        sig is FPE <==> number == 8,
        sig is KILL <==> number == 9,
        sig is SEGV <==> number == 11,
        sig is ALRM <==> number == 14,
        sig is TERM <==> number == 15,
        sig is PIPE <==> number == platform.signals.sigpipe,
        sig is USR1 <==> number == platform.signals.sigusr1,
{
    let n = platform.signals;
    let all = n.all();
    assert(all[7] == n.sigpipe && all[11] == n.sigusr1);
    assert(all[0] == n.sigabrt && all[1] == n.sigalrm && all[2] == n.sigfpe && all[3] == n.sighup);
    assert(all[4] == n.sigill && all[5] == n.sigint && all[6] == n.sigkill && all[8] == n.sigquit);
    assert(all[9] == n.sigsegv && all[10] == n.sigterm);
}

/// Every other signal is told as `SIG` and its number in decimal.
pub proof fn law_other_signals_have_their_numbers(platform: Platform, number: i32, sig: Sig)
    requires
        sig@ == signal_name(platform.signals, number),
    ensures
        sig is Custom <==> !platform.signals.all().contains(number),
        sig matches Sig::Custom(name) ==> {
            let digits = name@.skip(3);
            &&& name@.len() > 3
            &&& name@.take(3) == seq!['S', 'I', 'G']
            &&& number >= 0 ==> crate::text::numeral(digits) && crate::text::number(digits)
                == number
            &&& number < 0 ==> digits[0] == '-' && crate::text::numeral(digits.skip(1))
                && crate::text::number(digits.skip(1)) == -number
        },
{
    let n = platform.signals;
    let all = n.all();
    assert(all[7] == n.sigpipe && all[11] == n.sigusr1);
    assert(all[0] == n.sigabrt && all[1] == n.sigalrm && all[2] == n.sigfpe && all[3] == n.sighup);
    assert(all[4] == n.sigill && all[5] == n.sigint && all[6] == n.sigkill && all[8] == n.sigquit);
    assert(all[9] == n.sigsegv && all[10] == n.sigterm);
    if sig is Custom {
        let name = sig->Custom_0@;
        let digits = crate::text::decimal(number as int);
        crate::text::law_integers_read_back(number as int);
        assert(name == seq!['S', 'I', 'G'] + digits);
        assert(name.skip(3) =~= digits);
        assert(name.take(3) =~= seq!['S', 'I', 'G']);
    }
}

/// The one error that means a hangup is the system's `EIO`.
pub proof fn law_only_eio_is_a_hangup(platform: Platform, errno: i32)
    ensures
        hangup(platform, Some(errno)) <==> errno == platform.eio,
        !hangup(platform, None),
{
}

} // verus!
