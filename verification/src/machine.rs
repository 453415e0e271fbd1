//! Runs: a machine that asks, surroundings that answer.
//!
//! Provisioning and the launcher's run are both machines of one shape. In
//! each phase the machine waits for one request to be answered, and the
//! reply decides the next phase and the effect of the turn. A run is a
//! series of such exchanges on a [`Disk`]; what is proved of the launcher is
//! stated over runs.

use vstd::prelude::*;
use crate::disk::{carried_out, Disk};
use crate::protocol::{EffectView, ReplyView, RequestView};

verus! {

/// A machine whose phase says what it waits for and how it goes on.
pub trait Machine: Sized {
    /// The request that the machine in this phase waits to have answered.
    spec fn pending(self) -> RequestView;

    /// The next phase and the effect of the turn on `reply`; `None` where
    /// `reply` does not answer the pending request.
    spec fn next(self, reply: ReplyView) -> Option<(Self, EffectView)>;
}

/// One exchange: the reply that the pending request got, and the disk as
/// carrying it out has left it.
pub struct Exchange {
    pub reply: ReplyView,
    pub disk: Disk,
}

/// The phase that the machine started in `start` is in after the first `n`
/// exchanges of `steps`; `None` once a reply was not one to take.
pub open spec fn phase_at<M: Machine>(start: M, steps: Seq<Exchange>, n: nat) -> Option<M>
    decreases n,
{
    if n == 0 {
        Some(start)
    } else {
        match phase_at(start, steps, (n - 1) as nat) {
            Some(phase) => match phase.next(steps[n - 1].reply) {
                Some(turn) => Some(turn.0),
                None => None,
            },
            None => None,
        }
    }
}

/// The request that the `i`-th exchange of `steps` carries out: the one
/// that the machine is waiting on after the exchanges before it.
pub open spec fn request_at<M: Machine>(start: M, steps: Seq<Exchange>, i: nat) -> Option<
    RequestView,
> {
    match phase_at(start, steps, i) {
        Some(phase) => Some(phase.pending()),
        None => None,
    }
}

/// The effect of the turn that the machine takes on the `i`-th reply.
pub open spec fn effect_at<M: Machine>(start: M, steps: Seq<Exchange>, i: nat) -> Option<
    EffectView,
> {
    match phase_at(start, steps, i) {
        Some(phase) => match phase.next(steps[i as int].reply) {
            Some(turn) => Some(turn.1),
            None => None,
        },
        None => None,
    }
}

/// The disk after the first `n` exchanges of `steps`, begun on `disk`.
pub open spec fn disk_at(disk: Disk, steps: Seq<Exchange>, n: nat) -> Disk {
    if n == 0 {
        disk
    } else {
        steps[n - 1].disk
    }
}

/// Whether `steps` is a run of the machine from the phase `start` on
/// `disk`: each exchange carries out the request that the machine is then
/// waiting on, on the disk as the exchange before has left it, and the
/// machine takes the reply.
pub open spec fn is_run<M: Machine>(start: M, disk: Disk, steps: Seq<Exchange>) -> bool {
    forall|i: nat|
        #![trigger steps[i as int]]
        i < steps.len() ==> {
            &&& phase_at(start, steps, i) matches Some(phase)
            &&& carried_out(disk_at(disk, steps, i), phase.pending(), steps[i as int].reply,
                steps[i as int].disk)
            &&& phase.next(steps[i as int].reply) is Some
        }
}

/// Whether `steps` is a run from `start` on `disk` that has come to its
/// end: the machine asks for nothing more.
pub open spec fn is_complete_run<M: Machine>(start: M, disk: Disk, steps: Seq<Exchange>) -> bool {
    &&& is_run(start, disk, steps)
    &&& phase_at(start, steps, steps.len()) matches Some(phase)
    &&& phase.pending() is Finish
}

/// Whether the `i`-th exchange of `steps` is a turn of the machine: the
/// machine is in some phase, the exchange carries out what that phase waits
/// on, and the reply leads the machine to its next phase, with an effect.
pub open spec fn is_turn<M: Machine>(start: M, disk: Disk, steps: Seq<Exchange>, i: nat) -> bool {
    &&& phase_at(start, steps, i) matches Some(phase)
    &&& carried_out(
        disk_at(disk, steps, i),
        phase.pending(),
        steps[i as int].reply,
        steps[i as int].disk,
    )
    &&& phase.next(steps[i as int].reply) matches Some(turn)
    &&& phase_at(start, steps, i + 1) == Some(turn.0)
    &&& effect_at(start, steps, i) == Some(turn.1)
}

/// Every exchange of a run is a turn of the machine.
pub proof fn run_unfolds<M: Machine>(start: M, disk: Disk, steps: Seq<Exchange>)
    requires
        is_run(start, disk, steps),
    ensures
        forall|i: nat|
            #![trigger phase_at(start, steps, i)]
            i < steps.len() ==> is_turn(start, disk, steps, i),
{
    assert forall|i: nat| i < steps.len() implies is_turn(start, disk, steps, i) by {
        let _ = steps[i as int];
        assert(phase_at(start, steps, ((i + 1) - 1) as nat) == phase_at(start, steps, i));
    }
}

/// Whether nothing in `steps` failed.
pub open spec fn all_went_well(steps: Seq<Exchange>) -> bool {
    forall|i: int| 0 <= i < steps.len() ==> !((#[trigger] steps[i]).reply is Failed)
}

/// Whether the run prints nothing: no turn's effect holds a line.
pub open spec fn is_silent<M: Machine>(start: M, steps: Seq<Exchange>) -> bool {
    forall|i: nat|
        #![trigger effect_at(start, steps, i)]
        i < steps.len() ==> (effect_at(start, steps, i) matches Some(effect)
            && effect.lines.len() == 0)
}

} // verus!
