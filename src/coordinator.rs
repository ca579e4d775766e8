use vstd::prelude::*;

use crate::dispatch::{dispatch, is_click_event, reaction_of, Event, Reaction};

verus! {

/// An operation on the toggle lock.
#[derive(Clone, Copy, Debug, PartialEq, Eq, Structural)]
pub enum GateOp {
    /// A click spawned a reaction task, which now waits for the backend.
    Request,
    /// A waiting reaction task tries to take the backend.
    Begin,
    /// The reaction task that holds the backend is done with it.
    Finish,
}

/// The toggle lock as a mathematical value.
pub struct GateView {
    pub pending: nat,
    pub active: bool,
}

pub open spec fn gate_start() -> GateView {
    GateView { pending: 0, active: false }
}

/// Whether `op` in state `g` hands the backend to a waiting reaction.
pub open spec fn starts(g: GateView, op: GateOp) -> bool {
    op == GateOp::Begin && !g.active && g.pending > 0
}

/// Whether `op` in state `g` ends the toggle that holds the backend.
pub open spec fn ends(g: GateView, op: GateOp) -> bool {
    op == GateOp::Finish && g.active
}

pub open spec fn gate_step(g: GateView, op: GateOp) -> GateView {
    match op {
        GateOp::Request => GateView { pending: g.pending + 1, active: g.active },
        GateOp::Begin => if starts(g, op) {
            GateView { pending: (g.pending - 1) as nat, active: true }
        } else {
            g
        },
        GateOp::Finish => GateView { pending: g.pending, active: false },
    }
}

/// The toggle lock after the operations `ops`, from a fresh one.
pub open spec fn run(ops: Seq<GateOp>) -> GateView
    decreases ops.len(),
{
    if ops.len() == 0 {
        gate_start()
    } else {
        gate_step(run(ops.drop_last()), ops.last())
    }
}

/// How many toggles the operations `ops` started.
pub open spec fn started(ops: Seq<GateOp>) -> int
    decreases ops.len(),
{
    if ops.len() == 0 {
        0
    } else {
        started(ops.drop_last()) + if starts(run(ops.drop_last()), ops.last()) {
            1int
        } else {
            0int
        }
    }
}

/// How many toggles the operations `ops` ended.
pub open spec fn ended(ops: Seq<GateOp>) -> int
    decreases ops.len(),
{
    if ops.len() == 0 {
        0
    } else {
        ended(ops.drop_last()) + if ends(run(ops.drop_last()), ops.last()) {
            1int
        } else {
            0int
        }
    }
}

/// How many reaction tasks the operations `ops` spawned.
pub open spec fn requested(ops: Seq<GateOp>) -> int
    decreases ops.len(),
{
    if ops.len() == 0 {
        0
    } else {
        requested(ops.drop_last()) + if ops.last() == GateOp::Request {
            1int
        } else {
            0int
        }
    }
}

/// Serialises the reaction tasks on the light backend: a task takes the
/// backend only when no other holds it.
pub struct ToggleGate {
    pending: u64,
    active: bool,
}

impl View for ToggleGate {
    type V = GateView;

    closed spec fn view(&self) -> GateView {
        GateView { pending: self.pending as nat, active: self.active }
    }
}

impl ToggleGate {
    pub fn new() -> (r: ToggleGate)
        ensures
            r@ == gate_start(),
    {
        ToggleGate { pending: 0, active: false }
    }

    /// Number of reaction tasks waiting for the backend.
    pub fn pending(&self) -> (r: u64)
        ensures
            r as nat == self@.pending,
    {
        self.pending
    }

    /// Whether a toggle holds the backend.
    pub fn is_active(&self) -> (r: bool)
        ensures
            r == self@.active,
    {
        self.active
    }

    /// Records a reaction task that waits for the backend.
    pub fn request(&mut self)
        requires
            old(self)@.pending < u64::MAX,
        ensures
            final(self)@ == gate_step(old(self)@, GateOp::Request),
    {
        self.pending = self.pending + 1;
    }

    /// Hands the backend to one waiting task if nobody holds it; returns
    /// whether it did.
    pub fn try_begin(&mut self) -> (r: bool)
        ensures
            r == starts(old(self)@, GateOp::Begin),
            final(self)@ == gate_step(old(self)@, GateOp::Begin),
    {
        if !self.active && self.pending > 0 {
            self.active = true;
            self.pending = self.pending - 1;
            true
        } else {
            false
        }
    }

    /// Releases the backend, whatever the toggle's outcome; returns whether a
    /// toggle held it.
    pub fn finish(&mut self) -> (r: bool)
        ensures
            r == ends(old(self)@, GateOp::Finish),
            final(self)@ == gate_step(old(self)@, GateOp::Finish),
    {
        let was = self.active;
        self.active = false;
        was
    }
}

/// Dispatches one event of the session; a click also records the reaction
/// task that it spawns.
pub fn handle_event(gate: &mut ToggleGate, e: &Event) -> (r: Reaction)
    requires
        old(gate)@.pending < u64::MAX,
    ensures
        r == reaction_of(*e),
        is_click_event(*e) ==> final(gate)@ == gate_step(old(gate)@, GateOp::Request),
        !is_click_event(*e) ==> final(gate)@ == old(gate)@,
{
    let r = dispatch(e);
    if let Reaction::Toggle = r {
        gate.request();
    }
    r
}

/// Under any interleaving of spawned reactions, attempts and releases, at
/// most one toggle holds the backend at any time, exactly when the lock says
/// so, and every spawned reaction either still waits or has started.
pub proof fn lemma_mutual_exclusion(ops: Seq<GateOp>)
    ensures
        0 <= started(ops) - ended(ops) <= 1,
        run(ops).active <==> started(ops) - ended(ops) == 1,
        requested(ops) == run(ops).pending + started(ops),
    decreases ops.len(),
{
    if ops.len() > 0 {
        lemma_mutual_exclusion(ops.drop_last());
    }
}

/// A click that arrives while no toggle is in flight and none waits leads to
/// exactly one toggle: the next attempt starts it, and a further attempt
/// starts nothing until it is released.
pub proof fn lemma_click_toggles_once(g: GateView)
    requires
        !g.active,
        g.pending == 0,
    ensures
        starts(gate_step(g, GateOp::Request), GateOp::Begin),
        gate_step(gate_step(g, GateOp::Request), GateOp::Begin) == (GateView {
            pending: 0,
            active: true,
        }),
        !starts(gate_step(gate_step(g, GateOp::Request), GateOp::Begin), GateOp::Begin),
{
}

/// What the process waits for.
#[derive(Clone, Copy, Debug, PartialEq, Eq, Structural)]
pub enum Phase {
    /// The event pump runs.
    AwaitPump,
    /// The pump has ended; the handshake task is joined next.
    AwaitSequencer,
    /// Both long-running tasks ended normally.
    Done,
    /// A long-running task failed or could not be joined.
    Failed,
}

/// How a joined task ended.
#[derive(Clone, Copy, Debug, PartialEq, Eq, Structural)]
pub enum TaskEnd {
    Completed,
    JoinFailed,
}

pub open spec fn spec_after_join(p: Phase, end: TaskEnd) -> Phase {
    match p {
        Phase::AwaitPump => if end == TaskEnd::Completed {
            Phase::AwaitSequencer
        } else {
            Phase::Failed
        },
        Phase::AwaitSequencer => if end == TaskEnd::Completed {
            Phase::Done
        } else {
            Phase::Failed
        },
        _ => p,
    }
}

/// The completion policy: the pump is joined first, then the handshake task;
/// a failed join ends the process with an error.
pub fn after_join(p: Phase, end: TaskEnd) -> (r: Phase)
    ensures
        r == spec_after_join(p, end),
{
    match p {
        Phase::AwaitPump => match end {
            TaskEnd::Completed => Phase::AwaitSequencer,
            TaskEnd::JoinFailed => Phase::Failed,
        },
        Phase::AwaitSequencer => match end {
            TaskEnd::Completed => Phase::Done,
            TaskEnd::JoinFailed => Phase::Failed,
        },
        _ => p,
    }
}

} // verus!
