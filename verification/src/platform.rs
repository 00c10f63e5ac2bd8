//! The numbers that the operating system gives to signals, errors and flags.
use vstd::prelude::*;

verus! {

/// The numbers of the signals that SSH has a name for.
#[derive(Clone, Copy, Debug, PartialEq, Eq)]
pub struct SignalNumbers {
    /// `SIGABRT`
    pub sigabrt: i32,
    /// `SIGALRM`
    pub sigalrm: i32,
    /// `SIGFPE`
    pub sigfpe: i32,
    /// `SIGHUP`
    pub sighup: i32,
    /// `SIGILL`
    pub sigill: i32,
    /// `SIGINT`
    pub sigint: i32,
    /// `SIGKILL`
    pub sigkill: i32,
    /// `SIGPIPE`
    pub sigpipe: i32,
    /// `SIGQUIT`
    pub sigquit: i32,
    /// `SIGSEGV`
    pub sigsegv: i32,
    /// `SIGTERM`
    pub sigterm: i32,
    /// `SIGUSR1`
    pub sigusr1: i32,
}

impl SignalNumbers {
    /// The numbers in the order of their fields.
    pub open spec fn all(self) -> Seq<i32> {
        seq![
            self.sigabrt,
            self.sigalrm,
            self.sigfpe,
            self.sighup,
            self.sigill,
            self.sigint,
            self.sigkill,
            self.sigpipe,
            self.sigquit,
            self.sigsegv,
            self.sigterm,
            self.sigusr1,
        ]
    }

    /// The numbers are positive and tell the signals apart, those on which all
    /// Unix systems agree have their usual value, and `SIGPIPE` and `SIGUSR1`
    /// have one of the values that are in use.
    pub open spec fn wf(self) -> bool {
        &&& forall|i: int| 0 <= i < self.all().len() ==> self.all()[i] > 0
        &&& self.all().no_duplicates()
        &&& self.sighup == 1
        &&& self.sigint == 2
        &&& self.sigquit == 3
        &&& self.sigill == 4
        &&& self.sigabrt == 6
        &&& self.sigfpe == 8
        &&& self.sigkill == 9
        &&& self.sigsegv == 11
        &&& self.sigalrm == 14
        &&& self.sigterm == 15
        &&& self.sigpipe == 13 || self.sigpipe == 7
        &&& self.sigusr1 == 10 || self.sigusr1 == 16 || self.sigusr1 == 18 || self.sigusr1 == 25
            || self.sigusr1 == 30
    }
}

/// The numbers of the system that the daemon runs on.
#[derive(Clone, Copy, Debug, PartialEq, Eq)]
pub struct Platform {
    /// Signal numbers.
    pub signals: SignalNumbers,
    /// `EIO`, which reading a PTY master gives once the other side is closed.
    pub eio: i32,
    /// `FD_CLOEXEC`
    pub fd_cloexec: i32,
    /// `O_NONBLOCK`
    pub o_nonblock: i32,
}

/// Reads the signal constants of `libc`. Claims of them that they are positive
/// and distinct, and the values on which its Unix targets agree; `SIGPIPE` and
/// `SIGUSR1` differ between targets, so each is only claimed to be one of the
/// values in the source of `libc` for Unix targets.
#[verifier::external_body]
fn libc_signals() -> (r: SignalNumbers)
    ensures
        r.wf(),
{
    SignalNumbers {
        sigabrt: libc::SIGABRT,
        sigalrm: libc::SIGALRM,
        sigfpe: libc::SIGFPE,
        sighup: libc::SIGHUP,
        sigill: libc::SIGILL,
        sigint: libc::SIGINT,
        sigkill: libc::SIGKILL,
        sigpipe: libc::SIGPIPE,
        sigquit: libc::SIGQUIT,
        sigsegv: libc::SIGSEGV,
        sigterm: libc::SIGTERM,
        sigusr1: libc::SIGUSR1,
    }
}

/// The values that `libc` gives to `EIO` on its Unix targets: 5, and others on
/// Emscripten, the Hurd and Haiku.
pub open spec fn is_eio(n: i32) -> bool {
    n == 5 || n == 29 || n == 0x4000_0005 || n == -0x7fff_ffff
}

/// The values that `libc` gives to `FD_CLOEXEC` on its Unix targets: 1, and
/// another on Redox.
pub open spec fn is_fd_cloexec(n: i32) -> bool {
    n == 1 || n == 0x0100_0000
}

/// The values that `libc` gives to `O_NONBLOCK` on its Unix targets.
pub open spec fn is_o_nonblock(n: i32) -> bool {
    n == 4 || n == 8 || n == 0x10 || n == 0x80 || n == 0x800 || n == 0x4000 || n == 0x4_0000
}

/// Reads `libc::EIO`, whose value depends on the target: claims that it is one
/// of those in the source of `libc` for Unix targets.
#[verifier::external_body]
fn libc_eio() -> (r: i32)
    ensures
        is_eio(r),
{
    libc::EIO
}

/// Reads `libc::FD_CLOEXEC`, whose value depends on the target: claims that it
/// is one of those in the source of `libc` for Unix targets.
#[verifier::external_body]
fn libc_fd_cloexec() -> (r: i32)
    ensures
        is_fd_cloexec(r),
{
    libc::FD_CLOEXEC
}

/// Reads `libc::O_NONBLOCK`, whose value depends on the target: claims that it
/// is one of those in the source of `libc` for Unix targets.
#[verifier::external_body]
fn libc_o_nonblock() -> (r: i32)
    ensures
        is_o_nonblock(r),
{
    libc::O_NONBLOCK
}

impl Platform {
    /// What holds of the numbers on every system.
    pub open spec fn wf(self) -> bool {
        &&& self.signals.wf()
        &&& is_eio(self.eio)
        &&& is_fd_cloexec(self.fd_cloexec)
        &&& is_o_nonblock(self.o_nonblock)
    }

    /// The numbers of the system that this program was built for.
    pub fn host() -> (r: Platform)
        ensures
            r.wf(),
    {
        Platform {
            signals: libc_signals(),
            eio: libc_eio(),
            fd_cloexec: libc_fd_cloexec(),
            o_nonblock: libc_o_nonblock(),
        }
    }
}

} // verus!
