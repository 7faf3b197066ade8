use vstd::prelude::*;
use crate::schedule::initial_schedule;

use vstd::string::StringExecFns;

use crate::handler::ConnectAddr;

verus! {

/// The probe is bounded by this many seconds in total; an elapsed probe
/// maps to the timeout sentinel.
pub const PROBE_DEADLINE_SECS: u64 = 10;

/// The default host a health probe dials; externally observable, so it is
/// kept stable.
pub fn probe_host() -> (h: String)
    ensures
        h@ == "www.google.com"@,
{
    String::from_str("www.google.com")
}

/// The port the health probe dials on.
pub fn probe_port() -> (p: u16)
    ensures
        p == 80,
{
    80
}

/// The bytes of the probe request, `HEAD / HTTP/1.1` and an empty header
/// block.  A probe must exercise both the send and the receive path: an
/// accepted connection alone does not prove the path is usable.
pub open spec fn probe_request_bytes() -> Seq<u8> {
    seq![
        0x48u8, 0x45, 0x41, 0x44, 0x20, 0x2f, 0x20, 0x48, 0x54, 0x54, 0x50, 0x2f, 0x31,
        0x2e, 0x31, 0x0d, 0x0a, 0x0d, 0x0a,
    ]
}

/// Builds the probe request that is written after a probe dial succeeds;
/// a single byte read back counts the probe as a success.
pub fn probe_request() -> (r: Vec<u8>)
    ensures
        r@ == probe_request_bytes(),
{
    let r: Vec<u8> = vec![
        0x48u8, 0x45, 0x41, 0x44, 0x20, 0x2f, 0x20, 0x48, 0x54, 0x54, 0x50, 0x2f, 0x31,
        0x2e, 0x31, 0x0d, 0x0a, 0x0d, 0x0a,
    ];
    proof {
        assert(r@ =~= probe_request_bytes());
    }
    r
}

/// The per-flow state of a failover handler that the dial path reads:
/// how many children it owns, the per-attempt timeout, the probe cadence,
/// whether the schedule keeps every child or only the best one, and the
/// current schedule.
pub struct FailoverState {
    pub n_children: usize,
    pub fail_timeout_secs: u32,
    pub check_interval_secs: u32,
    pub failover: bool,
    pub schedule: Vec<usize>,
}

impl FailoverState {
    /// Every schedule entry names a child.
    pub open spec fn wf(self) -> bool {
        forall|k: int|
            0 <= k < self.schedule@.len() ==> (#[trigger] self.schedule@[k]) < self.n_children
    }

    /// A new failover handler starts on the identity schedule, so it is
    /// usable before the first probe cycle completes.
    pub fn new(
        n_children: usize,
        fail_timeout_secs: u32,
        check_interval_secs: u32,
        failover: bool,
    ) -> (s: FailoverState)
        ensures
            s.n_children == n_children,
            s.fail_timeout_secs == fail_timeout_secs,
            s.check_interval_secs == check_interval_secs,
            s.failover == failover,
            s.schedule@.len() == n_children,
            forall|i: int| 0 <= i < n_children ==> s.schedule@[i] == i,
            s.wf(),
    {
        FailoverState {
            n_children,
            fail_timeout_secs,
            check_interval_secs,
            failover,
            schedule: initial_schedule(n_children),
        }
    }

    /// Installs the schedule a probe cycle rebuilt.  Readers copy the
    /// schedule out before dialing; writers replace it wholesale.
    pub fn install_schedule(&mut self, schedule: Vec<usize>)
        requires
            forall|k: int|
                0 <= k < schedule@.len() ==> (#[trigger] schedule@[k]) < old(self).n_children,
        ensures
            final(self).schedule == schedule,
            final(self).n_children == old(self).n_children,
            final(self).fail_timeout_secs == old(self).fail_timeout_secs,
            final(self).check_interval_secs == old(self).check_interval_secs,
            final(self).failover == old(self).failover,
            final(self).wf(),
    {
        self.schedule = schedule;
    }
}

/// What a dial loop does next: attempt one child, give up because a
/// schedule entry is corrupt, or report that every child was tried.
#[derive(Clone, Copy, Debug, PartialEq, Eq, Structural)]
pub enum DialStep {
    Try { child: usize },
    Invalid,
    Exhausted,
}

/// How a whole dial run ends when each child either succeeds or fails.
#[derive(Clone, Copy, Debug, PartialEq, Eq, Structural)]
pub enum DialVerdict {
    Success { child: usize },
    Invalid,
    Exhausted,
}

/// The verdict of running the serial dial loop over a schedule, with `n`
/// children and `ok[c]` telling whether an attempt on child `c` succeeds
/// (a timeout counts as a failure).
pub open spec fn dial_result(schedule: Seq<usize>, n: nat, ok: Seq<bool>) -> DialVerdict
    decreases schedule.len(),
{
    if schedule.len() == 0 {
        DialVerdict::Exhausted
    } else if schedule[0] >= n {
        DialVerdict::Invalid
    } else if ok[schedule[0] as int] {
        DialVerdict::Success { child: schedule[0] }
    } else {
        dial_result(schedule.drop_first(), n, ok)
    }
}

/// How many child attempts the serial dial loop makes before it returns.
pub open spec fn dial_attempts(schedule: Seq<usize>, n: nat, ok: Seq<bool>) -> nat
    decreases schedule.len(),
{
    if schedule.len() == 0 {
        0
    } else if schedule[0] >= n {
        0
    } else if ok[schedule[0] as int] {
        1
    } else {
        1 + dial_attempts(schedule.drop_first(), n, ok)
    }
}

/// The serial dial loop of the failover handler: one snapshot of the
/// schedule, walked front to back, one bounded attempt per entry.  The
/// loop around it attempts the child that `next_step` names and calls
/// `advance` when the attempt fails or times out.
pub struct SerialDial {
    pub schedule: Vec<usize>,
    pub n_children: usize,
    pub pos: usize,
}

impl SerialDial {
    pub open spec fn wf(self) -> bool {
        self.pos <= self.schedule@.len()
    }

    /// The schedule entries not yet attempted.
    pub open spec fn remaining(self) -> Seq<usize> {
        self.schedule@.skip(self.pos as int)
    }

    /// Starts a dial run over one snapshot of the schedule.
    pub fn begin(schedule: Vec<usize>, n_children: usize) -> (s: SerialDial)
        ensures
            s.wf(),
            s.remaining() == schedule@,
            s.n_children == n_children,
    {
        let s = SerialDial { schedule, n_children, pos: 0 };
        proof {
            assert(s.remaining() =~= s.schedule@);
        }
        s
    }

    /// What to do next: try the first remaining entry if it names a
    /// child, refuse a corrupt entry, or report exhaustion.
    pub fn next_step(&self) -> (step: DialStep)
        requires
            self.wf(),
        ensures
            self.remaining().len() == 0 ==> step == DialStep::Exhausted,
            self.remaining().len() > 0 && self.remaining()[0] >= self.n_children ==> step
                == DialStep::Invalid,
            self.remaining().len() > 0 && self.remaining()[0] < self.n_children ==> step
                == (DialStep::Try { child: self.remaining()[0] }),
    {
        if self.pos >= self.schedule.len() {
            DialStep::Exhausted
        } else if self.schedule[self.pos] >= self.n_children {
            DialStep::Invalid
        } else {
            DialStep::Try { child: self.schedule[self.pos] }
        }
    }

    /// The attempted child failed or timed out: move to the next entry.
    pub fn advance(&mut self)
        requires
            old(self).wf(),
            old(self).remaining().len() > 0,
        ensures
            final(self).wf(),
            final(self).remaining() == old(self).remaining().drop_first(),
            final(self).n_children == old(self).n_children,
            final(self).schedule == old(self).schedule,
    {
        let n = self.schedule.len();
        proof {
            assert(self.pos < n);
            assert(self.schedule@.skip(self.pos + 1) =~= self.schedule@.skip(
                self.pos as int,
            ).drop_first());
        }
        self.pos = self.pos + 1;
    }
}

/// The dial path returns the first scheduled child whose attempt
/// succeeds: everything scheduled before position `p` fails, the child at
/// `p` succeeds, and the run ends on exactly that child.
pub proof fn lemma_dial_returns_first_success(
    schedule: Seq<usize>,
    n: nat,
    ok: Seq<bool>,
    p: int,
)
    requires
        forall|k: int| 0 <= k < schedule.len() ==> (#[trigger] schedule[k]) < n,
        0 <= p < schedule.len(),
        ok[schedule[p] as int],
        forall|q: int| 0 <= q < p ==> !ok[(#[trigger] schedule[q]) as int],
    ensures
        dial_result(schedule, n, ok) == (DialVerdict::Success { child: schedule[p] }),
    decreases schedule.len(),
{
    if p > 0 {
        lemma_dial_returns_first_success(schedule.drop_first(), n, ok, p - 1);
    }
}

/// When every scheduled attempt fails the dial path reports exhaustion —
/// it never invents a success and never keeps a flow waiting forever.
pub proof fn lemma_dial_exhausts(schedule: Seq<usize>, n: nat, ok: Seq<bool>)
    requires
        forall|k: int| 0 <= k < schedule.len() ==> (#[trigger] schedule[k]) < n,
        forall|q: int| 0 <= q < schedule.len() ==> !ok[(#[trigger] schedule[q]) as int],
    ensures
        dial_result(schedule, n, ok) == DialVerdict::Exhausted,
    decreases schedule.len(),
{
    if schedule.len() > 0 {
        lemma_dial_exhausts(schedule.drop_first(), n, ok);
    }
}

/// A dial run makes at most one bounded attempt per schedule entry, so
/// with a per-attempt timeout of `fail_timeout` it blocks for at most
/// `|schedule| * fail_timeout`.
pub proof fn lemma_dial_attempts_bounded(schedule: Seq<usize>, n: nat, ok: Seq<bool>)
    ensures
        dial_attempts(schedule, n, ok) <= schedule.len(),
    decreases schedule.len(),
{
    if schedule.len() > 0 {
        lemma_dial_attempts_bounded(schedule.drop_first(), n, ok);
    }
}

/// Holds the health-check task between construction and the first dial,
/// which spawns it.
pub struct TaskSlot<T> {
    pub task: Option<T>,
}

/// The contract of `TaskSlot::take`: the caller gets whatever was held
/// and the slot is empty afterwards.
pub open spec fn take_post<T>(before: TaskSlot<T>, after: TaskSlot<T>, r: Option<T>) -> bool {
    r == before.task && after.task is None
}

impl<T> TaskSlot<T> {
    /// Stores the task at construction; an absent task means health
    /// checking is disabled.
    pub fn new(task: Option<T>) -> (s: TaskSlot<T>)
        ensures
            s.task == task,
    {
        TaskSlot { task }
    }

    /// Takes the held task, leaving the slot empty.
    pub fn take(&mut self) -> (r: Option<T>)
        ensures
            take_post(*old(self), *final(self), r),
    {
        self.task.take()
    }
}

/// The health-check task is spawned at most once.  Concurrent first calls
/// are serialised by the mutex around the slot, so any two spawns would
/// have to come from two takes in sequence — and only the first of those
/// can yield the task.
pub proof fn lemma_spawn_at_most_once<T>(
    s0: TaskSlot<T>,
    s1: TaskSlot<T>,
    s2: TaskSlot<T>,
    r1: Option<T>,
    r2: Option<T>,
)
    requires
        take_post(s0, s1, r1),
        take_post(s1, s2, r2),
    ensures
        !(r1 is Some && r2 is Some),
{
}


/// The kind name this handler reports for telemetry.
pub fn name() -> (n: String)
    ensures
        n@ == "failover"@,
{
    String::from_str("failover")
}

/// A composite handler opens no observable upstream socket of its own.
pub fn connect_addr() -> (r: Option<ConnectAddr>)
    ensures
        r is None,
{
    None
}

} // verus!
