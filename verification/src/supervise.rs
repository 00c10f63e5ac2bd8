//! The supervisor of a session's child: it reports the child's exit, or, once
//! the session is cancelled, hangs up on the child and kills it if it stays.
use vstd::prelude::*;
use crate::session::{ExitStatus, Session};

verus! {

/// How far the supervision of a child has come.
#[derive(Clone, Copy, Debug, PartialEq, Eq, Structural)]
pub enum Phase {
    /// The child runs and the session lives.
    Watching,
    /// `SIGHUP` was sent, and the grace period runs.
    HangingUp,
    /// `SIGKILL` was sent.
    Killing,
    /// Nothing is left to do.
    Done,
}

/// What a supervisor is told.
#[derive(Clone, Copy, Debug, PartialEq, Eq, Structural)]
pub enum ChildEvent {
    /// The child ended.
    Exited(ExitStatus),
    /// Waiting for the child failed.
    WaitFailed,
    /// The client went away, or the daemon shuts down.
    Cancelled,
    /// The grace period is over and the child is still there.
    GraceExpired,
}

/// The signals that a supervisor sends.
#[derive(Clone, Copy, Debug, PartialEq, Eq, Structural)]
pub enum KillSignal {
    /// `SIGHUP`
    Hangup,
    /// `SIGKILL`
    Kill,
}

/// What a supervisor asks for.
#[derive(Clone, Copy, Debug, PartialEq, Eq, Structural)]
pub enum Effect {
    /// Tell the client how the child ended.
    Relay(ExitStatus),
    /// Send `eof` on the channel.
    Eof,
    /// Close the channel.
    Close,
    /// Cancel the other tasks of the session.
    Cancel,
    /// Send a signal to a process group.
    Kill {
        /// The process group.
        pgid: i32,
        /// The signal.
        signal: KillSignal,
    },
}

/// What a supervisor waits for.
#[derive(Clone, Copy, Debug, PartialEq, Eq, Structural)]
pub enum Wait {
    /// The end of the child or the cancellation of the session.
    ChildOrCancel,
    /// The end of the child, for this many seconds.
    ChildWithin(u64),
    /// The end of the child.
    Child,
    /// Nothing.
    Nothing,
}

/// Whether an event can come in a phase.
pub open spec fn admits(phase: Phase, event: ChildEvent) -> bool {
    match event {
        ChildEvent::Exited(_) | ChildEvent::WaitFailed => phase != Phase::Done,
        ChildEvent::Cancelled => phase == Phase::Watching,
        ChildEvent::GraceExpired => phase == Phase::HangingUp,
    }
}

/// The phase after an event.
pub open spec fn next_phase(event: ChildEvent) -> Phase {
    match event {
        ChildEvent::Exited(_) | ChildEvent::WaitFailed => Phase::Done,
        ChildEvent::Cancelled => Phase::HangingUp,
        ChildEvent::GraceExpired => Phase::Killing,
    }
}

/// What is to be done on an event, in order. The exit is reported, and the
/// other tasks cancelled, only while the session lives.
pub open spec fn effects(phase: Phase, pgid: i32, event: ChildEvent) -> Seq<Effect> {
    match event {
        ChildEvent::Exited(status) => if phase == Phase::Watching {
            seq![Effect::Relay(status), Effect::Eof, Effect::Close, Effect::Cancel]
        } else {
            seq![Effect::Eof, Effect::Close]
        },
        ChildEvent::WaitFailed => if phase == Phase::Watching {
            seq![Effect::Eof, Effect::Close, Effect::Cancel]
        } else {
            seq![Effect::Eof, Effect::Close]
        },
        ChildEvent::Cancelled => seq![Effect::Kill { pgid, signal: KillSignal::Hangup }],
        ChildEvent::GraceExpired => seq![Effect::Kill { pgid, signal: KillSignal::Kill }],
    }
}

/// What a supervisor waits for in a phase.
pub open spec fn awaited(session: Session, phase: Phase) -> Wait {
    match phase {
        Phase::Watching => Wait::ChildOrCancel,
        Phase::HangingUp => Wait::ChildWithin(session.grace),
        Phase::Killing => Wait::Child,
        Phase::Done => Wait::Nothing,
    }
}

/// Supervises one child.
#[derive(Clone, Copy, Debug)]
pub struct Supervisor {
    /// The session.
    pub session: Session,
    /// How far it has come.
    pub phase: Phase,
}

impl Supervisor {
    /// The state before the first event.
    pub open spec fn starts(self, session: Session) -> bool {
        self.session == session && self.phase == Phase::Watching
    }

    /// The process group of the child, which leads its own session.
    pub open spec fn pgid(self) -> i32 {
        self.session.pid as i32
    }

    /// Starts to watch a child.
    pub fn new(session: Session) -> (r: Supervisor)
        ensures
            r.starts(session),
    {
        Supervisor { session, phase: Phase::Watching }
    }

    /// Takes in an event and says what to do about it, in order.
    pub fn step(&mut self, event: ChildEvent) -> (r: Vec<Effect>)
        requires
            admits(old(self).phase, event),
        ensures
            r@ == effects(old(self).phase, old(self).pgid(), event),
            event is Cancelled ==> r@ == seq![
                Effect::Kill { pgid: old(self).session.pid as i32, signal: KillSignal::Hangup },
            ],
            event is GraceExpired ==> r@ == seq![
                Effect::Kill { pgid: old(self).session.pid as i32, signal: KillSignal::Kill },
            ],
            final(self).phase == next_phase(event),
            final(self).session == old(self).session,
    {
        let pgid: i32 = #[verifier::truncate] (self.session.pid as i32);
        let watching = self.phase == Phase::Watching;
        let mut r: Vec<Effect> = Vec::new();
        match event {
            ChildEvent::Exited(status) => {
                if watching {
                    r.push(Effect::Relay(status));
                }
                r.push(Effect::Eof);
                r.push(Effect::Close);
                if watching {
                    r.push(Effect::Cancel);
                }
                self.phase = Phase::Done;
            },
            ChildEvent::WaitFailed => {
                r.push(Effect::Eof);
                r.push(Effect::Close);
                if watching {
                    r.push(Effect::Cancel);
                }
                self.phase = Phase::Done;
            },
            ChildEvent::Cancelled => {
                r.push(Effect::Kill { pgid, signal: KillSignal::Hangup });
                self.phase = Phase::HangingUp;
            },
            ChildEvent::GraceExpired => {
                r.push(Effect::Kill { pgid, signal: KillSignal::Kill });
                self.phase = Phase::Killing;
            },
        }
        assert(r@ =~= effects(old(self).phase, old(self).pgid(), event));
        r
    }

    /// What to wait for next.
    pub fn waits_for(&self) -> (r: Wait)
        ensures
            r == match self.phase {
                Phase::Watching => Wait::ChildOrCancel,
                Phase::HangingUp => Wait::ChildWithin(self.session.grace),
                Phase::Killing => Wait::Child,
                Phase::Done => Wait::Nothing,
            },
            r == awaited(self.session, self.phase),
    {
        match self.phase {
            Phase::Watching => Wait::ChildOrCancel,
            Phase::HangingUp => Wait::ChildWithin(self.session.grace),
            Phase::Killing => Wait::Child,
            Phase::Done => Wait::Nothing,
        }
    }
}

/// The phase of a supervisor after a run of events.
pub open spec fn phase_after(events: Seq<ChildEvent>) -> Phase {
    if events.len() == 0 {
        Phase::Watching
    } else {
        next_phase(events.last())
    }
}

/// A run of events that a supervisor can see from its start.
pub open spec fn possible(events: Seq<ChildEvent>) -> bool
    decreases events.len(),
{
    events.len() == 0 || (possible(events.drop_last()) && admits(
        phase_after(events.drop_last()),
        events.last(),
    ))
}

/// All that a supervisor asks for in a run of events.
pub open spec fn trace(pgid: i32, events: Seq<ChildEvent>) -> Seq<Effect>
    decreases events.len(),
{
    if events.len() == 0 {
        seq![]
    } else {
        trace(pgid, events.drop_last()) + effects(
            phase_after(events.drop_last()),
            pgid,
            events.last(),
        )
    }
}

/// The end of a child, in whatever way it is learnt.
pub open spec fn ends(event: ChildEvent) -> bool {
    event is Exited || event is WaitFailed
}

/// A supervisor sees at most three events, and every run that it can see is
/// the beginning of: the child's end; or cancellation, then the child's end;
/// or cancellation, the end of the grace period, then the child's end.
pub proof fn law_runs_are_short(events: Seq<ChildEvent>)
    requires
        possible(events),
    ensures
        events.len() <= 3,
        events.len() >= 1 ==> ends(events[0]) || events[0] is Cancelled,
        events.len() >= 2 ==> events[0] is Cancelled && (ends(events[1])
            || events[1] is GraceExpired),
        events.len() == 3 ==> events[1] is GraceExpired && ends(events[2]),
    decreases events.len(),
{
    if events.len() > 0 {
        law_runs_are_short(events.drop_last());
    }
}

/// What a supervisor asks for in each run that it can see.
proof fn lemma_trace(pgid: i32, events: Seq<ChildEvent>)
    requires
        possible(events),
    ensures
        events.len() == 0 ==> trace(pgid, events) == Seq::<Effect>::empty(),
        events.len() == 1 ==> trace(pgid, events) == effects(Phase::Watching, pgid, events[0]),
        events.len() == 2 ==> trace(pgid, events) == seq![
            Effect::Kill { pgid, signal: KillSignal::Hangup },
        ] + effects(Phase::HangingUp, pgid, events[1]),
        events.len() == 3 ==> trace(pgid, events) == seq![
            Effect::Kill { pgid, signal: KillSignal::Hangup },
            Effect::Kill { pgid, signal: KillSignal::Kill },
            Effect::Eof,
            Effect::Close,
        ],
{
    law_runs_are_short(events);
    reveal_with_fuel(trace, 4);
    let before = events.drop_last();
    if events.len() == 1 {
        assert(before =~= seq![]);
    } else if events.len() == 2 {
        assert(before.drop_last() =~= seq![]);
    } else if events.len() == 3 {
        assert(before.drop_last().drop_last() =~= seq![]);
    }
}

/// The channel is closed at place `i` and nowhere else: `eof`, then `close`,
/// with nothing behind them but the cancellation of the other tasks.
pub open spec fn closes_at(t: Seq<Effect>, i: int) -> bool {
    &&& 0 <= i < t.len() - 1
    &&& t[i] == Effect::Eof
    &&& t[i + 1] == Effect::Close
    &&& forall|j: int|
        #![trigger t[j]]
        0 <= j < t.len() && j != i && j != i + 1 ==> t[j] != Effect::Eof && t[j] != Effect::Close
    &&& forall|j: int| i + 1 < j < t.len() ==> t[j] == Effect::Cancel
}

/// Every run that comes to its end closes the channel once: `eof`, then
/// `close`, with nothing behind them but the cancellation of the other tasks,
/// and neither of them before.
pub proof fn law_channel_is_closed_once(pgid: i32, events: Seq<ChildEvent>)
    requires
        possible(events),
        phase_after(events) == Phase::Done,
    ensures
        exists|i: int| closes_at(trace(pgid, events), i),
{
    law_runs_are_short(events);
    lemma_trace(pgid, events);
    let t = trace(pgid, events);
    if events.len() == 1 {
        assert(closes_at(t, if events[0] is Exited { 1 } else { 0 }));
    } else {
        assert(closes_at(t, events.len() - 1));
    }
}

/// The client learns how the child ended exactly when the child ended before
/// the session was cancelled, and it learns it before anything else.
pub proof fn law_exit_is_relayed_first(pgid: i32, events: Seq<ChildEvent>, status: ExitStatus)
    requires
        possible(events),
    ensures
        trace(pgid, events).contains(Effect::Relay(status)) <==> events == seq![
            ChildEvent::Exited(status),
        ],
        events == seq![ChildEvent::Exited(status)] ==> trace(pgid, events)[0] == Effect::Relay(
            status,
        ),
{
    law_runs_are_short(events);
    lemma_trace(pgid, events);
    if events.len() == 1 && events[0] == ChildEvent::Exited(status) {
        assert(events =~= seq![ChildEvent::Exited(status)]);
        assert(trace(pgid, events)[0] == Effect::Relay(status));
    }
}

/// A child is killed only after it was hung up on and its grace period ended,
/// and only the process group that the session's pid stands for is ever
/// signalled.
pub proof fn law_kill_follows_hangup_and_grace(pgid: i32, events: Seq<ChildEvent>, i: int)
    requires
        possible(events),
        0 <= i < trace(pgid, events).len(),
        trace(pgid, events)[i] is Kill,
    ensures
        trace(pgid, events)[i]->pgid == pgid,
        trace(pgid, events)[i]->signal == KillSignal::Kill ==> i == 1 && trace(pgid, events)[0]
            == (Effect::Kill { pgid, signal: KillSignal::Hangup }) && events.len() >= 2
            && events[1] is GraceExpired,
{
    law_runs_are_short(events);
    lemma_trace(pgid, events);
}

/// When a supervisor is done, its session is cancelled and so its other tasks
/// end: either it was cancelled before, which is what the run began with, or
/// cancelling it is the last thing that the supervisor asks for.
pub proof fn law_session_ends_cancelled(pgid: i32, events: Seq<ChildEvent>)
    requires
        possible(events),
        phase_after(events) == Phase::Done,
    ensures
        events[0] is Cancelled || (trace(pgid, events).len() > 0 && trace(pgid, events).last()
            == Effect::Cancel),
        events[0] is Cancelled ==> !trace(pgid, events).contains(Effect::Cancel),
{
    law_runs_are_short(events);
    lemma_trace(pgid, events);
}

/// A cancelled session always hangs up on its child, before anything else.
pub proof fn law_cancellation_hangs_up(pgid: i32, events: Seq<ChildEvent>)
    requires
        possible(events),
        events.contains(ChildEvent::Cancelled),
    ensures
        trace(pgid, events).len() > 0,
        trace(pgid, events)[0] == (Effect::Kill { pgid, signal: KillSignal::Hangup }),
{
    law_runs_are_short(events);
    lemma_trace(pgid, events);
}

/// The moment that the grace period ends, the child's process group is killed:
/// a run that ends there has `SIGKILL` as its last effect, and had none before.
pub proof fn law_grace_period_ends_in_a_kill(pgid: i32, events: Seq<ChildEvent>)
    requires
        possible(events),
        events.len() > 0,
        events.last() is GraceExpired,
    ensures
        trace(pgid, events).len() == trace(pgid, events.drop_last()).len() + 1,
        trace(pgid, events).last() == (Effect::Kill { pgid, signal: KillSignal::Kill }),
        !trace(pgid, events.drop_last()).contains(
            Effect::Kill { pgid, signal: KillSignal::Kill },
        ),
{
    law_runs_are_short(events);
    lemma_trace(pgid, events);
    lemma_trace(pgid, events.drop_last());
}

/// The moment that the session is cancelled, its child is hung up on.
pub proof fn law_cancellation_hangs_up_at_once(pgid: i32, events: Seq<ChildEvent>)
    requires
        possible(events),
        events.len() > 0,
        events.last() is Cancelled,
    ensures
        trace(pgid, events) == seq![Effect::Kill { pgid, signal: KillSignal::Hangup }],
{
    law_runs_are_short(events);
    lemma_trace(pgid, events);
}

/// No signal is sent to a child that has ended, whatever went before.
pub proof fn law_ended_child_is_not_signalled(
    phase: Phase,
    pgid: i32,
    event: ChildEvent,
    i: int,
)
    requires
        event is Exited || event is WaitFailed,
        0 <= i < effects(phase, pgid, event).len(),
    ensures
        !(effects(phase, pgid, event)[i] is Kill),
{
}

/// A run without the end of the grace period sends no `SIGKILL`, and one
/// without cancellation no signal at all.
pub proof fn law_no_signal_without_cause(pgid: i32, events: Seq<ChildEvent>, i: int)
    requires
        possible(events),
        0 <= i < trace(pgid, events).len(),
        trace(pgid, events)[i] is Kill,
    ensures
        exists|j: int| 0 <= j < events.len() && events[j] is Cancelled,
        trace(pgid, events)[i]->signal == KillSignal::Kill ==> exists|j: int|
            0 <= j < events.len() && events[j] is GraceExpired,
        trace(pgid, events)[i]->signal == KillSignal::Hangup ==> i == 0,
{
    law_runs_are_short(events);
    lemma_trace(pgid, events);
    assert(events[0] is Cancelled);
    if trace(pgid, events)[i]->signal == KillSignal::Kill {
        assert(events[1] is GraceExpired);
    }
}

/// All that is done in every run that comes to its end: a child that ends by
/// itself is reported, its channel closed and its session cancelled; one of a
/// cancelled session is hung up on, killed if its grace period ends first, and
/// its channel closed.
pub proof fn law_whole_runs(pgid: i32, events: Seq<ChildEvent>)
    requires
        possible(events),
        events.len() > 0,
        events.last() is Exited || events.last() is WaitFailed,
    ensures
        events.len() == 1 && events[0] is Exited ==> trace(pgid, events) == seq![
            Effect::Relay(events[0]->Exited_0),
            Effect::Eof,
            Effect::Close,
            Effect::Cancel,
        ],
        events.len() == 1 && events[0] is WaitFailed ==> trace(pgid, events) == seq![
            Effect::Eof,
            Effect::Close,
            Effect::Cancel,
        ],
        events.len() == 2 ==> trace(pgid, events) == seq![
            Effect::Kill { pgid, signal: KillSignal::Hangup },
            Effect::Eof,
            Effect::Close,
        ],
        events.len() == 3 ==> trace(pgid, events) == seq![
            Effect::Kill { pgid, signal: KillSignal::Hangup },
            Effect::Kill { pgid, signal: KillSignal::Kill },
            Effect::Eof,
            Effect::Close,
        ],
{
    law_runs_are_short(events);
    lemma_trace(pgid, events);
    if events.len() == 2 {
        assert(trace(pgid, events) =~= seq![
            Effect::Kill { pgid, signal: KillSignal::Hangup },
            Effect::Eof,
            Effect::Close,
        ]);
    }
}

/// A child that ends can be told of at any time, a cancellation until there was
/// one, and the end of the grace period after a cancellation.
pub proof fn law_every_run_goes_on(events: Seq<ChildEvent>, status: ExitStatus)
    requires
        possible(events),
    ensures
        possible(events.push(ChildEvent::Exited(status))) <==> !exists|i: int|
            0 <= i < events.len() && ends(#[trigger] events[i]),
        possible(events.push(ChildEvent::WaitFailed)) <==> !exists|i: int|
            0 <= i < events.len() && ends(#[trigger] events[i]),
        possible(events.push(ChildEvent::Cancelled)) <==> events.len() == 0,
        possible(events.push(ChildEvent::GraceExpired)) <==> events.len() == 1 && events[0]
            is Cancelled,
{
    law_runs_are_short(events);
    assert(events.push(ChildEvent::Exited(status)).drop_last() =~= events);
    assert(events.push(ChildEvent::WaitFailed).drop_last() =~= events);
    assert(events.push(ChildEvent::Cancelled).drop_last() =~= events);
    assert(events.push(ChildEvent::GraceExpired).drop_last() =~= events);
    if events.len() > 0 {
        assert(ends(events[events.len() - 1]) == ends(events.last()));
    }
}

/// What a supervisor waits for goes by what it was told last: at first for the
/// child or a cancellation, after a cancellation for the child during the whole
/// grace period and no longer, after that for the child, and at the end for
/// nothing.
pub proof fn law_waiting_goes_by_the_last_event(session: Session, events: Seq<ChildEvent>)
    requires
        possible(events),
    ensures
        events.len() == 0 ==> awaited(session, phase_after(events)) == Wait::ChildOrCancel,
        events.len() > 0 && events.last() is Cancelled ==> awaited(session, phase_after(events))
            == Wait::ChildWithin(session.grace),
        events.len() > 0 && events.last() is GraceExpired ==> awaited(session, phase_after(events))
            == Wait::Child,
        events.len() > 0 && (events.last() is Exited || events.last() is WaitFailed) ==> awaited(
            session,
            phase_after(events),
        ) == Wait::Nothing,
{
}

/// The process group that is signalled is the child's pid, read as a signed
/// number.
pub proof fn law_process_group_is_the_pid(supervisor: Supervisor)
    ensures
        supervisor.session.pid <= i32::MAX ==> supervisor.pgid() == supervisor.session.pid,
        supervisor.session.pid > i32::MAX ==> supervisor.pgid() == supervisor.session.pid
            - 0x1_0000_0000,
{
    let pid = supervisor.session.pid;
    assert(pid > 0x7fff_ffff ==> (pid as i32) == pid - 0x1_0000_0000) by (bit_vector);
}

/// A supervisor starts with its session as it is, watching.
pub proof fn law_supervisor_starts_with_its_session(supervisor: Supervisor, session: Session)
    requires
        supervisor.starts(session),
    ensures
        supervisor.session.pid == session.pid,
        supervisor.session.grace == session.grace,
        supervisor.session.channel == session.channel,
        supervisor.phase == Phase::Watching,
{
}

} // verus!
