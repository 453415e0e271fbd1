//! The launcher's run, from the heading to the end.
//!
//! A run prints the heading and looks for the companion executable. Where
//! that is missing the run says so, pauses, and ends: nothing is
//! provisioned and nothing is started. Where it is there, the
//! configuration is provisioned, the start is announced, and the companion
//! is started. A start that worked ends the run at once; one that failed is
//! reported and followed by a pause.

use vstd::prelude::*;
use vstd::string::*;
use crate::disk::Disk;
use crate::machine::{is_complete_run, is_run, Exchange, Machine};
use crate::names::EXECUTABLE;
use crate::protocol::{answers, saying, silently, Effect, EffectView, Reply, ReplyView, Request,
    RequestView, UnexpectedReply};
use crate::provision;
use crate::text::{banner, guidance, missing_executable, missing_executable_text, pause_prompt,
    start_failed, start_failed_text, started, starting, starting_text, BANNER, GUIDANCE,
    PAUSE_PROMPT, STARTED};

verus! {

/// Where a run stands: which answer the launcher is waiting for.
#[derive(Debug, Clone, Copy, PartialEq, Eq, Structural)]
pub enum Phase {
    /// It has asked whether the companion executable exists.
    ExecutableProbe,
    /// The configuration is being provisioned.
    Provisioning(provision::Phase),
    /// It has asked for the companion to be started.
    Spawn,
    /// It has paused, for the console to be read before it closes.
    Acknowledgement,
    /// The run is over.
    Finished,
}

/// The question whether the companion executable exists.
pub open spec fn probe_executable() -> RequestView {
    RequestView::Probe { path: EXECUTABLE@ }
}

/// The order to start the companion.
pub open spec fn spawn_executable() -> RequestView {
    RequestView::Spawn { program: EXECUTABLE@ }
}

/// The request that a run in `phase` is waiting to have answered.
pub open spec fn pending(phase: Phase) -> RequestView {
    match phase {
        Phase::ExecutableProbe => probe_executable(),
        Phase::Provisioning(inner) => provision::pending(inner),
        Phase::Spawn => spawn_executable(),
        Phase::Acknowledgement => RequestView::ReadLine,
        Phase::Finished => RequestView::Finish,
    }
}

/// How a run opens: with the heading, and the question whether the
/// companion executable exists.
pub open spec fn opening() -> (Phase, EffectView) {
    (Phase::ExecutableProbe, saying(BANNER@, probe_executable()))
}

/// The pause that follows the lines `report`: they are printed, then the
/// prompt, and the launcher waits for a line.
pub open spec fn pause_after(report: Seq<Seq<char>>) -> (Phase, EffectView) {
    (
        Phase::Acknowledgement,
        EffectView { lines: report.push(PAUSE_PROMPT@), request: RequestView::ReadLine },
    )
}

/// A turn of provisioning as a turn of the run. While provisioning goes on,
/// the run hands its effect on unchanged. Once it is complete, the run
/// prints what provisioning had to say, announces the start, and asks for
/// the companion to be started.
pub open spec fn carry_on(turn: (provision::Phase, EffectView)) -> (Phase, EffectView) {
    if turn.0 == provision::Phase::Complete {
        (
            Phase::Spawn,
            EffectView {
                lines: turn.1.lines.push(starting_text(EXECUTABLE@)),
                request: spawn_executable(),
            },
        )
    } else {
        (Phase::Provisioning(turn.0), turn.1)
    }
}

/// The phase that follows `phase` on `reply`, and the effect of the turn;
/// `None` where `reply` does not answer what `phase` waits for.
pub open spec fn next(phase: Phase, reply: ReplyView) -> Option<(Phase, EffectView)> {
    match (phase, reply) {
        (Phase::ExecutableProbe, ReplyView::Exists(found)) => Some(
            if found {
                carry_on(provision::opening())
            } else {
                pause_after(seq![missing_executable_text(EXECUTABLE@), GUIDANCE@])
            },
        ),
        (Phase::Provisioning(inner), _) => match provision::next(inner, reply) {
            Some(turn) => Some(carry_on(turn)),
            None => None,
        },
        (Phase::Spawn, ReplyView::Succeeded) => Some(
            (Phase::Finished, saying(STARTED@, RequestView::Finish)),
        ),
        (Phase::Spawn, ReplyView::Failed { error }) => Some(
            pause_after(seq![start_failed_text(error)]),
        ),
        (Phase::Acknowledgement, ReplyView::LineRead) => Some(
            (Phase::Finished, silently(RequestView::Finish)),
        ),
        _ => None,
    }
}

impl Machine for Phase {
    open spec fn pending(self) -> RequestView {
        pending(self)
    }

    open spec fn next(self, reply: ReplyView) -> Option<(Phase, EffectView)> {
        next(self, reply)
    }
}

/// A run takes every reply that answers what it waits on, and no other.
pub proof fn takes_every_answer(phase: Phase, reply: ReplyView)
    ensures
        next(phase, reply) is Some <==> answers(pending(phase), reply),
{
}

/// What a turn of a run asks for is what the phase it leads to waits on.
pub proof fn asks_what_it_awaits(phase: Phase, reply: ReplyView)
    requires
        next(phase, reply) is Some,
    ensures
        next(phase, reply) matches Some(turn) && turn.1.request == pending(turn.0),
{
}

/// The most exchanges that a run in `phase` can still have.
pub open spec fn turns_left(phase: Phase) -> nat {
    match phase {
        Phase::ExecutableProbe => 7,
        Phase::Provisioning(inner) => provision::turns_left(inner) + 2,
        Phase::Spawn => 2,
        Phase::Acknowledgement => 1,
        Phase::Finished => 0,
    }
}

/// Each turn brings the end of the run nearer.
pub proof fn turn_nears_end(phase: Phase, reply: ReplyView)
    requires
        next(phase, reply) is Some,
    ensures
        next(phase, reply) matches Some(turn) && turns_left(turn.0) < turns_left(phase),
{
}

/// Whether `steps` is a run of the launcher begun on `disk`, as far as it
/// has come.
pub open spec fn is_launch(disk: Disk, steps: Seq<Exchange>) -> bool {
    is_run(opening().0, disk, steps)
}

/// Whether `steps` is a run of the launcher begun on `disk` that has come
/// to its end.
pub open spec fn is_whole_launch(disk: Disk, steps: Seq<Exchange>) -> bool {
    is_complete_run(opening().0, disk, steps)
}

fn pause(report: Effect) -> (turn: (Phase, Effect))
    ensures
        (turn.0, turn.1@) == pause_after(report@.lines),
{
    let mut effect = report;
    effect.then_say(pause_prompt());
    effect.request = Request::ReadLine;
    (Phase::Acknowledgement, effect)
}

fn proceed(turn: (provision::Phase, Effect)) -> (after: (Phase, Effect))
    ensures
        (after.0, after.1@) == carry_on((turn.0, turn.1@)),
{
    let (inner, mut effect) = turn;
    match inner {
        provision::Phase::Complete => {
            effect.then_say(starting(EXECUTABLE));
            effect.request = Request::Spawn { program: String::from_str(EXECUTABLE) };
            (Phase::Spawn, effect)
        },
        _ => (Phase::Provisioning(inner), effect),
    }
}

/// Opens a run.
pub fn begin() -> (turn: (Phase, Effect))
    ensures
        (turn.0, turn.1@) == opening(),
{
    let probe = Request::Probe { path: String::from_str(EXECUTABLE) };
    (Phase::ExecutableProbe, Effect::saying(banner(), probe))
}

/// Takes one turn of a run: from `phase`, on hearing `reply`.
///
/// Returns the next phase and the effect of the turn, as [`next`] gives
/// them, and [`UnexpectedReply`] exactly where `reply` does not answer the
/// request that `phase` waits on.
pub fn step(phase: Phase, reply: Reply) -> (turn: Result<(Phase, Effect), UnexpectedReply>)
    ensures
        match next(phase, reply@) {
            Some((after, effect)) => turn matches Ok((p, e)) && p == after && e@ == effect,
            None => turn is Err,
        },
{
    match phase {
        Phase::ExecutableProbe => match reply {
            Reply::Exists(true) => Ok(proceed(provision::begin())),
            Reply::Exists(false) => {
                let mut report = Effect::saying(missing_executable(EXECUTABLE), Request::Finish);
                report.then_say(guidance());
                assert(report@.lines =~= seq![missing_executable_text(EXECUTABLE@), GUIDANCE@]);
                Ok(pause(report))
            },
            _ => Err(UnexpectedReply),
        },
        Phase::Provisioning(inner) => match provision::step(inner, reply) {
            Ok(turn) => Ok(proceed(turn)),
            Err(refused) => Err(refused),
        },
        Phase::Spawn => match reply {
            Reply::Succeeded => Ok((Phase::Finished, Effect::saying(started(), Request::Finish))),
            Reply::Failed { error } => Ok(
                pause(Effect::saying(start_failed(error.as_str()), Request::Finish)),
            ),
            _ => Err(UnexpectedReply),
        },
        Phase::Acknowledgement => match reply {
            Reply::LineRead => Ok((Phase::Finished, Effect::silent(Request::Finish))),
            _ => Err(UnexpectedReply),
        },
        Phase::Finished => Err(UnexpectedReply),
    }
}

} // verus!
