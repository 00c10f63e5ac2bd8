//! PTY allocation and child processes: window sizes, descriptor flags and the
//! plan after which the configured command is started.
//!
//! Every descriptor that the daemon keeps open for a session, that is PTY masters
//! and its ends of stderr pipes, is marked close-on-exec, so that it cannot leak
//! into the child of another session. The exception is a slave that waits for its
//! `shell`: it is marked only when its own child is started. The child's own
//! three descriptors are duplicates, which do not inherit the mark.
use vstd::prelude::*;
use crate::platform::Platform;

verus! {

/// A terminal's size.
#[derive(Clone, Copy, Debug, PartialEq, Eq, Structural)]
pub struct Winsize {
    /// Rows, in characters.
    pub ws_row: u16,
    /// Columns, in characters.
    pub ws_col: u16,
    /// Width in pixels.
    pub ws_xpixel: u16,
    /// Height in pixels.
    pub ws_ypixel: u16,
}

/// Builds a window size from columns and rows plus pixel dimensions.
pub fn winsize(cols: u16, rows: u16, xpix: u16, ypix: u16) -> (r: Winsize)
    ensures
        r.ws_col == cols,
        r.ws_row == rows,
        r.ws_xpixel == xpix,
        r.ws_ypixel == ypix,
{
    Winsize { ws_row: rows, ws_col: cols, ws_xpixel: xpix, ws_ypixel: ypix }
}

/// Whether a system call that returns -1 on failure succeeded.
pub fn succeeded(rc: i32) -> (r: bool)
    ensures
        r == (rc != -1),
{
    rc != -1
}

/// What to do once the flags of a descriptor were asked for.
#[derive(Clone, Copy, Debug, PartialEq, Eq, Structural)]
pub enum FlagStep {
    /// Give up with the error of the call.
    Fail,
    /// Set the flags to this.
    Write(i32),
}

/// The step that adds a flag to what was read, where reading gave -1 on failure.
pub open spec fn with_flag(flags: i32, flag: i32) -> FlagStep {
    if flags == -1 {
        FlagStep::Fail
    } else {
        FlagStep::Write(flags | flag)
    }
}

/// Marks a descriptor close-on-exec, given the descriptor flags that were read.
pub fn set_cloexec(platform: &Platform, flags: i32) -> (r: FlagStep)
    ensures
        r == with_flag(flags, platform.fd_cloexec),
{
    if succeeded(flags) {
        FlagStep::Write(flags | platform.fd_cloexec)
    } else {
        FlagStep::Fail
    }
}

/// Makes a descriptor non-blocking, given the status flags that were read.
pub fn set_nonblocking(platform: &Platform, flags: i32) -> (r: FlagStep)
    ensures
        r == with_flag(flags, platform.o_nonblock),
{
    if succeeded(flags) {
        FlagStep::Write(flags | platform.o_nonblock)
    } else {
        FlagStep::Fail
    }
}

/// The descriptors of a session.
#[derive(Clone, Copy, Debug, PartialEq, Eq, Structural)]
pub enum Fd {
    /// The daemon's side of the PTY.
    Master,
    /// The child's side of the PTY.
    Slave,
    /// The daemon's end of the stderr pipe.
    StderrRead,
    /// The child's end of the stderr pipe.
    StderrWrite,
}

/// A change to a descriptor's flags.
#[derive(Clone, Copy, Debug, PartialEq, Eq, Structural)]
pub enum FdOp {
    /// Mark it close-on-exec.
    SetCloexec(Fd),
    /// Make it non-blocking.
    SetNonblocking(Fd),
}

/// What the child does between fork and exec.
#[derive(Clone, Copy, Debug, PartialEq, Eq, Structural)]
pub enum ChildOp {
    /// Lead a new session and process group.
    NewSession,
    /// Make this its controlling terminal.
    ControllingTerminal(Fd),
    /// Duplicate a descriptor onto a number.
    Duplicate {
        /// The descriptor.
        from: Fd,
        /// The number.
        onto: i32,
    },
}

/// What is done to a new PTY.
pub open spec fn pty_ops() -> Seq<FdOp> {
    seq![FdOp::SetCloexec(Fd::Master), FdOp::SetNonblocking(Fd::Master)]
}

/// What is done to the descriptors before a child is forked.
pub open spec fn child_fd_ops() -> Seq<FdOp> {
    seq![
        FdOp::SetCloexec(Fd::StderrRead),
        FdOp::SetNonblocking(Fd::StderrRead),
        FdOp::SetCloexec(Fd::Slave),
        FdOp::SetCloexec(Fd::StderrWrite),
    ]
}

/// What a child does between fork and exec.
pub open spec fn child_ops() -> Seq<ChildOp> {
    seq![
        ChildOp::NewSession,
        ChildOp::ControllingTerminal(Fd::Slave),
        ChildOp::Duplicate { from: Fd::Slave, onto: 0 },
        ChildOp::Duplicate { from: Fd::Slave, onto: 1 },
        ChildOp::Duplicate { from: Fd::StderrWrite, onto: 2 },
    ]
}

/// The changes to make to a new PTY, in order; the first that fails makes the
/// allocation fail.
pub fn open_pty() -> (r: Vec<FdOp>)
    ensures
        r@ == pty_ops(),
{
    let r: Vec<FdOp> = vec![FdOp::SetCloexec(Fd::Master), FdOp::SetNonblocking(Fd::Master)];
    assert(r@ =~= pty_ops());
    r
}

/// How to start a child, once a pipe for its stderr is open. Its environment is
/// the daemon's, but for `TERM`.
#[derive(Debug)]
pub struct ChildPlan {
    /// The changes to make to the descriptors, in order; the first that fails
    /// makes the start fail.
    pub prepare: Vec<FdOp>,
    /// What the child does between fork and exec, in order; the first that fails
    /// makes the start fail.
    pub hook: Vec<ChildOp>,
    /// The program.
    pub program: String,
    /// Its arguments.
    pub args: Vec<String>,
    /// The value of `TERM`.
    pub term: String,
}

impl ChildPlan {
    /// The plan that runs a command on a terminal.
    pub open spec fn runs(&self, argv: Seq<Seq<char>>, term: Seq<char>) -> bool {
        &&& self.prepare@ == child_fd_ops()
        &&& self.hook@ == child_ops()
        &&& seq![self.program@] + crate::text::strings(self.args@) == argv
        &&& self.term@ == term
    }
}

/// How to start the command `argv` on a terminal of type `term`.
pub fn spawn_child(argv: &Vec<String>, term: &str) -> (r: ChildPlan)
    requires
        argv@.len() > 0,
    ensures
        r.runs(crate::text::strings(argv@), term@),
{
    let prepare: Vec<FdOp> = vec![
        FdOp::SetCloexec(Fd::StderrRead),
        FdOp::SetNonblocking(Fd::StderrRead),
        FdOp::SetCloexec(Fd::Slave),
        FdOp::SetCloexec(Fd::StderrWrite),
    ];
    assert(prepare@ =~= child_fd_ops());
    let hook: Vec<ChildOp> = vec![
        ChildOp::NewSession,
        ChildOp::ControllingTerminal(Fd::Slave),
        ChildOp::Duplicate { from: Fd::Slave, onto: 0 },
        ChildOp::Duplicate { from: Fd::Slave, onto: 1 },
        ChildOp::Duplicate { from: Fd::StderrWrite, onto: 2 },
    ];
    assert(hook@ =~= child_ops());
    let mut args: Vec<String> = Vec::new();
    let mut i: usize = 1;
    while i < argv.len()
        invariant
            1 <= i <= argv.len(),
            args@ == argv@.subrange(1, i as int),
        decreases argv.len() - i,
    {
        args.push(argv[i].clone());
        assert(argv@.subrange(1, i + 1) =~= argv@.subrange(1, i as int).push(argv@[i as int]));
        i += 1;
    }
    let program = argv[0].clone();
    assert(seq![program@] + crate::text::strings(args@) =~= crate::text::strings(argv@));
    ChildPlan { prepare, hook, program, args, term: term.to_string() }
}

/// An open descriptor: what it refers to, and whether exec closes it.
pub struct Descriptor {
    /// What it refers to.
    pub file: int,
    /// Whether exec closes it.
    pub cloexec: bool,
}

/// The numbers of a session's descriptors.
pub struct Numbers {
    /// The daemon's side of the PTY.
    pub master: int,
    /// The child's side of the PTY.
    pub slave: int,
    /// The daemon's end of the stderr pipe.
    pub stderr_read: int,
    /// The child's end of the stderr pipe.
    pub stderr_write: int,
}

impl Numbers {
    /// The number of a descriptor.
    pub open spec fn of(self, fd: Fd) -> int {
        match fd {
            Fd::Master => self.master,
            Fd::Slave => self.slave,
            Fd::StderrRead => self.stderr_read,
            Fd::StderrWrite => self.stderr_write,
        }
    }
}

/// A process's descriptors after changes to their flags.
pub open spec fn after_fd_ops(
    table: Map<int, Descriptor>,
    numbers: Numbers,
    ops: Seq<FdOp>,
) -> Map<int, Descriptor>
    decreases ops.len(),
{
    if ops.len() == 0 {
        table
    } else {
        let before = after_fd_ops(table, numbers, ops.drop_last());
        match ops.last() {
            FdOp::SetCloexec(fd) => before.insert(
                numbers.of(fd),
                Descriptor { cloexec: true, ..before[numbers.of(fd)] },
            ),
            FdOp::SetNonblocking(_) => before,
        }
    }
}

/// A process's descriptors after a child's own steps: a duplicate replaces what
/// was at its place, and exec does not close it. A descriptor duplicated onto
/// itself stays as it is.
pub open spec fn after_child_ops(
    table: Map<int, Descriptor>,
    numbers: Numbers,
    ops: Seq<ChildOp>,
) -> Map<int, Descriptor>
    decreases ops.len(),
{
    if ops.len() == 0 {
        table
    } else {
        let before = after_child_ops(table, numbers, ops.drop_last());
        match ops.last() {
            ChildOp::Duplicate { from, onto } => if numbers.of(from) == onto {
                before
            } else {
                before.insert(
                    onto as int,
                    Descriptor { file: before[numbers.of(from)].file, cloexec: false },
                )
            },
            _ => before,
        }
    }
}

/// A process's descriptors after exec.
pub open spec fn after_exec(table: Map<int, Descriptor>) -> Map<int, Descriptor> {
    table.restrict(Set::new(|n: int| table.contains_key(n) && !table[n].cloexec))
}

/// The daemon's rule: exec closes every descriptor but the standard ones and
/// those in `except`.
pub open spec fn disciplined(table: Map<int, Descriptor>, except: Set<int>) -> bool {
    forall|n: int|
        #![trigger table[n]]
        table.contains_key(n) && n > 2 && !except.contains(n) ==> table[n].cloexec
}

/// A new PTY's master joins the descriptors that exec closes, and its slave those
/// that wait for their child.
pub proof fn law_master_does_not_leak(
    table: Map<int, Descriptor>,
    numbers: Numbers,
    waiting: Set<int>,
)
    requires
        disciplined(table, waiting.union(set![numbers.master, numbers.slave])),
    ensures
        disciplined(
            after_fd_ops(table, numbers, pty_ops()),
            waiting.union(set![numbers.slave]),
        ),
{
    reveal_with_fuel(after_fd_ops, 3);
    let ops = pty_ops();
    assert(ops.drop_last().drop_last() =~= seq![]);
    let done = after_fd_ops(table, numbers, ops);
    let before = waiting.union(set![numbers.master, numbers.slave]);
    let after = waiting.union(set![numbers.slave]);
    assert forall|n: int|
        #![trigger done[n]]
        done.contains_key(n) && n > 2 && !after.contains(n) implies done[n].cloexec by {
        if n != numbers.master {
            assert(table.contains_key(n) && done[n] == table[n]);
            assert(!before.contains(n));
        }
    }
}

/// What a child starts with, where the slaves in `waiting` wait for a child of
/// their own: its side of the PTY as standard input and output, its end of the
/// stderr pipe as standard error, and nothing else but slaves that wait. No PTY
/// master and no reading end of a stderr pipe is among them. And before it is
/// forked, all of the daemon's descriptors but the standard ones and the waiting
/// slaves are closed by any exec.
pub proof fn law_child_gets_nothing_but_waiting_slaves(
    table: Map<int, Descriptor>,
    numbers: Numbers,
    waiting: Set<int>,
)
    requires
        forall|n: int| table.contains_key(n) ==> n >= 0,
        numbers.slave > 2,
        numbers.stderr_read > 2,
        numbers.stderr_write > 2,
        table.contains_key(numbers.slave),
        table.contains_key(numbers.stderr_write),
        disciplined(
            table,
            waiting.union(set![numbers.slave, numbers.stderr_read, numbers.stderr_write]),
        ),
    ensures
        ({
            let parent = after_fd_ops(table, numbers, child_fd_ops());
            let child = after_exec(after_child_ops(parent, numbers, child_ops()));
            let terminal = Descriptor { file: table[numbers.slave].file, cloexec: false };
            let errors = Descriptor { file: table[numbers.stderr_write].file, cloexec: false };
            &&& disciplined(parent, waiting)
            &&& child.contains_key(0) && child[0] == terminal
            &&& child.contains_key(1) && child[1] == terminal
            &&& child.contains_key(2) && child[2] == errors
            &&& forall|n: int| #[trigger]
                child.contains_key(n) ==> n == 0 || n == 1 || n == 2 || (waiting.contains(n)
                    && table.contains_key(n) && child[n] == table[n] && n != numbers.slave && n
                    != numbers.stderr_read && n != numbers.stderr_write)
        }),
{
    reveal_with_fuel(after_fd_ops, 5);
    reveal_with_fuel(after_child_ops, 6);
    let ops = child_fd_ops();
    assert(ops.drop_last().drop_last().drop_last().drop_last() =~= seq![]);
    let parent = after_fd_ops(table, numbers, ops);
    let except = waiting.union(set![numbers.slave, numbers.stderr_read, numbers.stderr_write]);
    assert forall|n: int|
        #![trigger parent[n]]
        parent.contains_key(n) && n > 2 && !waiting.contains(n) implies parent[n].cloexec by {
        if n != numbers.slave && n != numbers.stderr_read && n != numbers.stderr_write {
            assert(table.contains_key(n) && parent[n] == table[n]);
            assert(!except.contains(n));
        }
    }
    let steps = child_ops();
    assert(steps.drop_last().drop_last().drop_last().drop_last().drop_last() =~= seq![]);
    let forked = after_child_ops(parent, numbers, steps);
    let terminal = Descriptor { file: table[numbers.slave].file, cloexec: false };
    let errors = Descriptor { file: table[numbers.stderr_write].file, cloexec: false };
    assert(parent[numbers.slave].file == table[numbers.slave].file);
    assert(parent[numbers.stderr_write].file == table[numbers.stderr_write].file);
    assert(forked[0] == terminal && forked[1] == terminal && forked[2] == errors);
    let child = after_exec(forked);
    assert forall|n: int| #[trigger] child.contains_key(n) implies n == 0 || n == 1 || n == 2 || (
    waiting.contains(n) && table.contains_key(n) && child[n] == table[n] && n != numbers.slave && n
        != numbers.stderr_read && n != numbers.stderr_write) by {
        assert(forked.contains_key(n) && !forked[n].cloexec);
        if n != 0 && n != 1 && n != 2 {
            assert(parent.contains_key(n) && parent[n] == forked[n]);
            assert(n == numbers.stderr_read || table.contains_key(n));
        }
    }
}

/// Where no slave waits, a started child has three descriptors and no others:
/// its side of the PTY as standard input and output, its end of the stderr pipe
/// as standard error.
pub proof fn law_child_gets_three_descriptors(table: Map<int, Descriptor>, numbers: Numbers)
    requires
        forall|n: int| table.contains_key(n) ==> n >= 0,
        numbers.slave > 2,
        numbers.stderr_read > 2,
        numbers.stderr_write > 2,
        table.contains_key(numbers.slave),
        table.contains_key(numbers.stderr_write),
        disciplined(table, set![numbers.slave, numbers.stderr_read, numbers.stderr_write]),
    ensures
        ({
            let parent = after_fd_ops(table, numbers, child_fd_ops());
            let child = after_exec(after_child_ops(parent, numbers, child_ops()));
            let terminal = Descriptor { file: table[numbers.slave].file, cloexec: false };
            let errors = Descriptor { file: table[numbers.stderr_write].file, cloexec: false };
            child == map![0int => terminal, 1int => terminal, 2int => errors]
        }),
{
    let nobody = Set::<int>::empty();
    let own = set![numbers.slave, numbers.stderr_read, numbers.stderr_write];
    assert(nobody.union(own) =~= own);
    law_child_gets_nothing_but_waiting_slaves(table, numbers, nobody);
    let parent = after_fd_ops(table, numbers, child_fd_ops());
    let child = after_exec(after_child_ops(parent, numbers, child_ops()));
    let terminal = Descriptor { file: table[numbers.slave].file, cloexec: false };
    let errors = Descriptor { file: table[numbers.stderr_write].file, cloexec: false };
    assert(child =~= map![0int => terminal, 1int => terminal, 2int => errors]);
}

/// A flag that is set stays, and the others are left as they are; setting it
/// again changes nothing.
pub proof fn law_setting_a_flag_keeps_the_others(flags: i32, flag: i32)
    ensures
        (flags | flag) & flag == flag,
        (flags | flag) & !flag == flags & !flag,
        (flags | flag) | flag == flags | flag,
{
    assert((flags | flag) & flag == flag) by (bit_vector);
    assert((flags | flag) & !flag == flags & !flag) by (bit_vector);
    assert((flags | flag) | flag == flags | flag) by (bit_vector);
}

/// What a plan for a command leaves the started child with, whatever the command
/// and the terminal type: where no slave waits, its side of the PTY as standard
/// input and output, its end of the stderr pipe as standard error, and no other
/// descriptor.
pub proof fn law_planned_child_is_on_its_terminal(
    plan: &ChildPlan,
    argv: Seq<Seq<char>>,
    term: Seq<char>,
    table: Map<int, Descriptor>,
    numbers: Numbers,
)
    requires
        plan.runs(argv, term),
        forall|n: int| table.contains_key(n) ==> n >= 0,
        numbers.slave > 2,
        numbers.stderr_read > 2,
        numbers.stderr_write > 2,
        table.contains_key(numbers.slave),
        table.contains_key(numbers.stderr_write),
        disciplined(table, set![numbers.slave, numbers.stderr_read, numbers.stderr_write]),
    ensures
        after_exec(
            after_child_ops(
                after_fd_ops(table, numbers, plan.prepare@),
                numbers,
                plan.hook@,
            ),
        ) == map![
            0int => (Descriptor { file: table[numbers.slave].file, cloexec: false }),
            1int => (Descriptor { file: table[numbers.slave].file, cloexec: false }),
            2int => (Descriptor { file: table[numbers.stderr_write].file, cloexec: false }),
        ],
{
    law_child_gets_three_descriptors(table, numbers);
}

/// The same of a plan where slaves wait: the child gets none of the daemon's
/// other descriptors.
pub proof fn law_planned_child_gets_nothing_but_waiting_slaves(
    plan: &ChildPlan,
    argv: Seq<Seq<char>>,
    term: Seq<char>,
    table: Map<int, Descriptor>,
    numbers: Numbers,
    waiting: Set<int>,
    n: int,
)
    requires
        plan.runs(argv, term),
        forall|n: int| table.contains_key(n) ==> n >= 0,
        numbers.slave > 2,
        numbers.stderr_read > 2,
        numbers.stderr_write > 2,
        table.contains_key(numbers.slave),
        table.contains_key(numbers.stderr_write),
        disciplined(
            table,
            waiting.union(set![numbers.slave, numbers.stderr_read, numbers.stderr_write]),
        ),
        after_exec(
            after_child_ops(after_fd_ops(table, numbers, plan.prepare@), numbers, plan.hook@),
        ).contains_key(n),
    ensures
        n == 0 || n == 1 || n == 2 || waiting.contains(n),
        n > 2 ==> n != numbers.slave && n != numbers.stderr_read && n != numbers.stderr_write,
        disciplined(after_fd_ops(table, numbers, plan.prepare@), waiting),
{
    law_child_gets_nothing_but_waiting_slaves(table, numbers, waiting);
}

/// A planned child leads a session of its own before it takes a controlling
/// terminal, and the terminal that it takes is its side of the PTY.
pub proof fn law_child_leads_its_session_before_it_takes_its_terminal(
    plan: &ChildPlan,
    argv: Seq<Seq<char>>,
    term: Seq<char>,
)
    requires
        plan.runs(argv, term),
    ensures
        exists|i: int, j: int|
            0 <= i < j < plan.hook@.len() && #[trigger] plan.hook@[i] == ChildOp::NewSession
                && #[trigger] plan.hook@[j] == ChildOp::ControllingTerminal(Fd::Slave),
        forall|j: int|
            0 <= j < plan.hook@.len() && #[trigger] plan.hook@[j] is ControllingTerminal
                ==> plan.hook@[j] == ChildOp::ControllingTerminal(Fd::Slave),
{
    assert(plan.hook@[0] == ChildOp::NewSession);
    assert(plan.hook@[1] == ChildOp::ControllingTerminal(Fd::Slave));
}

/// A plan runs the first word of the command with the others as its arguments,
/// in order, on a terminal of the type that was asked for.
pub proof fn law_plan_is_for_the_command(
    plan: &ChildPlan,
    argv: Seq<Seq<char>>,
    term: Seq<char>,
)
    requires
        plan.runs(argv, term),
    ensures
        argv.len() == plan.args@.len() + 1,
        argv[0] == plan.program@,
        forall|i: int| 0 <= i < plan.args@.len() ==> argv[i + 1] == #[trigger] plan.args@[i]@,
        term == plan.term@,
{
    let words = seq![plan.program@] + crate::text::strings(plan.args@);
    assert(words.len() == plan.args@.len() + 1);
    assert forall|i: int| 0 <= i < plan.args@.len() implies argv[i + 1] == #[trigger]
    plan.args@[i]@ by {
        assert(words[i + 1] == crate::text::strings(plan.args@)[i]);
    }
}

/// The daemon's ends of a PTY and of a stderr pipe are made non-blocking, and the
/// child's ends are not.
pub proof fn law_only_the_daemons_ends_do_not_block(
    plan: &ChildPlan,
    argv: Seq<Seq<char>>,
    term: Seq<char>,
)
    requires
        plan.runs(argv, term),
    ensures
        pty_ops().contains(FdOp::SetNonblocking(Fd::Master)),
        plan.prepare@.contains(FdOp::SetNonblocking(Fd::StderrRead)),
        forall|i: int|
            0 <= i < pty_ops().len() && #[trigger] pty_ops()[i] is SetNonblocking ==> pty_ops()[i]
                == FdOp::SetNonblocking(Fd::Master),
        forall|i: int|
            0 <= i < plan.prepare@.len() && #[trigger] plan.prepare@[i] is SetNonblocking
                ==> plan.prepare@[i] == FdOp::SetNonblocking(Fd::StderrRead),
{
    assert(pty_ops()[1] == FdOp::SetNonblocking(Fd::Master));
    assert(plan.prepare@[1] == FdOp::SetNonblocking(Fd::StderrRead));
}

/// Opening a PTY changes no descriptor's mark but the master's.
pub proof fn law_opening_a_pty_marks_only_its_master(
    table: Map<int, Descriptor>,
    numbers: Numbers,
    n: int,
)
    requires
        n != numbers.master,
    ensures
        after_fd_ops(table, numbers, pty_ops()).contains_key(n) == table.contains_key(n),
        table.contains_key(n) ==> after_fd_ops(table, numbers, pty_ops())[n] == table[n],
        after_fd_ops(table, numbers, pty_ops())[numbers.master].cloexec,
        after_fd_ops(table, numbers, pty_ops())[numbers.master].file == table[numbers.master].file,
{
    reveal_with_fuel(after_fd_ops, 3);
    assert(pty_ops().drop_last().drop_last() =~= seq![]);
}

/// Adding a flag fails exactly where the flags could not be read; else it sets
/// the flag and leaves all others as they were.
pub proof fn law_adding_a_flag_changes_nothing_else(flags: i32, flag: i32)
    ensures
        with_flag(flags, flag) is Fail <==> flags == -1,
        with_flag(flags, flag) matches FlagStep::Write(new) ==> new & flag == flag && new & !flag
            == flags & !flag,
{
    law_setting_a_flag_keeps_the_others(flags, flag);
}

} // verus!
