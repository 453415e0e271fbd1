//! Making sure that the configuration exists.
//!
//! Provisioning looks for the configuration directory and makes it where it
//! is missing, then looks for the configuration file and writes the default
//! configuration where that is missing. What is already there is left alone
//! and passed over without a word. A failure is reported on the console and
//! never stops provisioning: the next step is taken all the same.

use vstd::prelude::*;
use vstd::string::*;
use crate::disk::Disk;
use crate::machine::{is_complete_run, Exchange, Machine};
use crate::names::{CONFIG_DIR, config_file_path, config_file_path_text, default_config,
    default_config_bytes};
use crate::protocol::{answers, saying, silently, Effect, EffectView, Reply, ReplyView, Request,
    RequestView, UnexpectedReply};
use crate::text::{dir_created, dir_created_text, dir_failed, dir_failed_text, file_created,
    file_created_text, file_failed, file_failed_text};

verus! {

/// Where provisioning stands: which answer it is waiting for.
#[derive(Debug, Clone, Copy, PartialEq, Eq, Structural)]
pub enum Phase {
    /// It has asked whether the configuration directory exists.
    DirProbe,
    /// It has asked for the configuration directory to be made.
    DirCreation,
    /// It has asked whether the configuration file exists.
    FileProbe,
    /// It has asked for the configuration file to be written.
    FileCreation,
    /// It is through, and waits for nothing.
    Complete,
}

/// The question whether the configuration directory exists.
pub open spec fn probe_dir() -> RequestView {
    RequestView::Probe { path: CONFIG_DIR@ }
}

/// The order to make the configuration directory.
pub open spec fn create_dir() -> RequestView {
    RequestView::CreateDir { path: CONFIG_DIR@ }
}

/// The question whether the configuration file exists.
pub open spec fn probe_file() -> RequestView {
    RequestView::Probe { path: config_file_path_text() }
}

/// The order to write the default configuration into the configuration file.
pub open spec fn write_file() -> RequestView {
    RequestView::WriteNewFile { path: config_file_path_text(), contents: default_config_bytes() }
}

/// The request that provisioning in `phase` is waiting to have answered.
pub open spec fn pending(phase: Phase) -> RequestView {
    match phase {
        Phase::DirProbe => probe_dir(),
        Phase::DirCreation => create_dir(),
        Phase::FileProbe => probe_file(),
        Phase::FileCreation => write_file(),
        Phase::Complete => RequestView::Finish,
    }
}

/// How provisioning opens: without a word, by asking whether the
/// configuration directory exists.
pub open spec fn opening() -> (Phase, EffectView) {
    (Phase::DirProbe, silently(probe_dir()))
}

/// The phase that follows `phase` on `reply`, and the effect of the turn;
/// `None` where `reply` does not answer what `phase` waits for.
///
/// A directory or a file that exists is passed over in silence. One that is
/// missing is asked for; the outcome is reported in one line, and a failure
/// leads on exactly as a success does.
pub open spec fn next(phase: Phase, reply: ReplyView) -> Option<(Phase, EffectView)> {
    match (phase, reply) {
        (Phase::DirProbe, ReplyView::Exists(found)) => Some(
            if found {
                (Phase::FileProbe, silently(probe_file()))
            } else {
                (Phase::DirCreation, silently(create_dir()))
            },
        ),
        (Phase::DirCreation, ReplyView::Succeeded) => Some(
            (Phase::FileProbe, saying(dir_created_text(CONFIG_DIR@), probe_file())),
        ),
        (Phase::DirCreation, ReplyView::Failed { error }) => Some(
            (Phase::FileProbe, saying(dir_failed_text(error), probe_file())),
        ),
        (Phase::FileProbe, ReplyView::Exists(found)) => Some(
            if found {
                (Phase::Complete, silently(RequestView::Finish))
            } else {
                (Phase::FileCreation, silently(write_file()))
            },
        ),
        (Phase::FileCreation, ReplyView::Succeeded) => Some(
            (Phase::Complete, saying(file_created_text(config_file_path_text()), RequestView::Finish)),
        ),
        (Phase::FileCreation, ReplyView::Failed { error }) => Some(
            (Phase::Complete, saying(file_failed_text(error), RequestView::Finish)),
        ),
        _ => None,
    }
}

impl Machine for Phase {
    open spec fn pending(self) -> RequestView {
        pending(self)
    }

    open spec fn next(self, reply: ReplyView) -> Option<(Phase, EffectView)> {
        next(self, reply)
    }
}

/// Provisioning takes every reply that answers what it waits on, and no
/// other.
pub proof fn takes_every_answer(phase: Phase, reply: ReplyView)
    ensures
        next(phase, reply) is Some <==> answers(pending(phase), reply),
{
}

/// What a turn of provisioning asks for is what the phase it leads to waits
/// on.
pub proof fn asks_what_it_awaits(phase: Phase, reply: ReplyView)
    requires
        next(phase, reply) is Some,
    ensures
        next(phase, reply) matches Some(turn) && turn.1.request == pending(turn.0),
{
}

/// The most exchanges that provisioning in `phase` can still have.
pub open spec fn turns_left(phase: Phase) -> nat {
    match phase {
        Phase::DirProbe => 4,
        Phase::DirCreation => 3,
        Phase::FileProbe => 2,
        Phase::FileCreation => 1,
        Phase::Complete => 0,
    }
}

/// Each turn brings the end of provisioning nearer.
pub proof fn turn_nears_end(phase: Phase, reply: ReplyView)
    requires
        next(phase, reply) is Some,
    ensures
        next(phase, reply) matches Some(turn) && turns_left(turn.0) < turns_left(phase),
{
}

/// Whether `steps` is one whole provisioning, begun on `disk`.
pub open spec fn is_provisioning(disk: Disk, steps: Seq<Exchange>) -> bool {
    is_complete_run(opening().0, disk, steps)
}

fn ask_dir_probe() -> (request: Request)
    ensures
        request@ == probe_dir(),
{
    Request::Probe { path: String::from_str(CONFIG_DIR) }
}

fn ask_dir_creation() -> (request: Request)
    ensures
        request@ == create_dir(),
{
    Request::CreateDir { path: String::from_str(CONFIG_DIR) }
}

fn ask_file_probe() -> (request: Request)
    ensures
        request@ == probe_file(),
{
    Request::Probe { path: config_file_path() }
}

fn ask_file_creation() -> (request: Request)
    ensures
        request@ == write_file(),
{
    Request::WriteNewFile { path: config_file_path(), contents: default_config() }
}

/// Opens provisioning.
pub fn begin() -> (turn: (Phase, Effect))
    ensures
        (turn.0, turn.1@) == opening(),
{
    (Phase::DirProbe, Effect::silent(ask_dir_probe()))
}

/// Takes one turn of provisioning: from `phase`, on hearing `reply`.
///
/// Returns the next phase and the effect of the turn, as [`next`] gives
/// them, and [`UnexpectedReply`] exactly where `reply` does not answer the
/// request that `phase` waits on.
pub fn step(phase: Phase, reply: Reply) -> (turn: Result<(Phase, Effect), UnexpectedReply>)
    ensures
        match next(phase, reply@) {
            Some((after, effect)) => turn matches Ok((p, e)) && p == after && e@ == effect,
            None => turn is Err,
        },
{
    match phase {
        Phase::DirProbe => match reply {
            Reply::Exists(true) => Ok((Phase::FileProbe, Effect::silent(ask_file_probe()))),
            Reply::Exists(false) => Ok((Phase::DirCreation, Effect::silent(ask_dir_creation()))),
            _ => Err(UnexpectedReply),
        },
        Phase::DirCreation => match reply {
            Reply::Succeeded => Ok(
                (Phase::FileProbe, Effect::saying(dir_created(CONFIG_DIR), ask_file_probe())),
            ),
            Reply::Failed { error } => Ok(
                (Phase::FileProbe, Effect::saying(dir_failed(error.as_str()), ask_file_probe())),
            ),
            _ => Err(UnexpectedReply),
        },
        Phase::FileProbe => match reply {
            Reply::Exists(true) => Ok((Phase::Complete, Effect::silent(Request::Finish))),
            Reply::Exists(false) => Ok((Phase::FileCreation, Effect::silent(ask_file_creation()))),
            _ => Err(UnexpectedReply),
        },
        Phase::FileCreation => match reply {
            Reply::Succeeded => {
                let path = config_file_path();
                Ok((Phase::Complete, Effect::saying(file_created(path.as_str()), Request::Finish)))
            },
            Reply::Failed { error } => Ok(
                (Phase::Complete, Effect::saying(file_failed(error.as_str()), Request::Finish)),
            ),
            _ => Err(UnexpectedReply),
        },
        Phase::Complete => Err(UnexpectedReply),
    }
}

} // verus!
