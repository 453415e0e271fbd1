//! What holds of every run.

use vstd::prelude::*;
use crate::disk::{Disk, Entry};
use crate::launch;
use crate::machine::{all_went_well, disk_at, effect_at, is_run, is_silent, phase_at, request_at,
    run_unfolds, Exchange};
use crate::names::{config_file_path_text, default_config_bytes, CONFIG_DIR, EXECUTABLE};
use crate::protocol::{saying, ReplyView, RequestView};
use crate::provision;
use crate::text::{dir_failed_text, STARTED};

verus! {

/// The configuration directory and the configuration file are two paths.
proof fn dir_and_file_differ()
    ensures
        CONFIG_DIR@ != config_file_path_text(),
{
    reveal_strlit("config");
    reveal_strlit("/");
    reveal_strlit("config.json");
    assert(CONFIG_DIR@.len() == 6);
    assert(config_file_path_text().len() == 18);
}

/// After `n` exchanges of a provisioning, at most four less `n` can follow.
proof fn provisioning_is_short(disk: Disk, steps: Seq<Exchange>, n: nat)
    requires
        is_run(provision::opening().0, disk, steps),
        n <= steps.len(),
    ensures
        phase_at(provision::opening().0, steps, n) matches Some(phase) && n
            + provision::turns_left(phase) <= 4,
    decreases n,
{
    if n > 0 {
        provisioning_is_short(disk, steps, (n - 1) as nat);
        run_unfolds(provision::opening().0, disk, steps);
    }
}

/// After `n` exchanges of a run, at most seven less `n` can follow.
proof fn launch_nears_end(disk: Disk, steps: Seq<Exchange>, n: nat)
    requires
        launch::is_launch(disk, steps),
        n <= steps.len(),
    ensures
        phase_at(launch::opening().0, steps, n) matches Some(phase) && n + launch::turns_left(
            phase,
        ) <= 7,
    decreases n,
{
    if n > 0 {
        launch_nears_end(disk, steps, (n - 1) as nat);
        run_unfolds(launch::opening().0, disk, steps);
    }
}

/// Provisioning twice is provisioning once. After a provisioning in which
/// nothing failed, the configuration directory and the configuration file
/// exist. A second provisioning on the disk as the first has left it asks
/// two questions, whether the directory and whether the file exists, makes
/// and writes nothing, prints nothing, and leaves the disk as it found it.
pub proof fn provisioning_twice(disk: Disk, first: Seq<Exchange>, second: Seq<Exchange>)
    requires
        provision::is_provisioning(disk, first),
        all_went_well(first),
        provision::is_provisioning(disk_at(disk, first, first.len()), second),
    ensures
        disk_at(disk, first, first.len()).holds(CONFIG_DIR@),
        disk_at(disk, first, first.len()).holds(config_file_path_text()),
        second.len() == 2,
        request_at(provision::opening().0, second, 0) == Some(provision::probe_dir()),
        request_at(provision::opening().0, second, 1) == Some(provision::probe_file()),
        is_silent(provision::opening().0, second),
        disk_at(disk_at(disk, first, first.len()), second, second.len()) == disk_at(
            disk,
            first,
            first.len(),
        ),
{
    let start = provision::opening().0;
    let between = disk_at(disk, first, first.len());
    dir_and_file_differ();
    provisioning_is_short(disk, first, first.len());
    provisioning_is_short(between, second, second.len());
    run_unfolds(start, disk, first);
    run_unfolds(start, between, second);
}

/// A fresh configuration file holds the default configuration and nothing
/// else. Where no configuration file exists beforehand, the last thing that
/// provisioning does is to write it; unless that failed, the file exists
/// afterwards and its contents are the default configuration, byte for byte.
pub proof fn fresh_file_holds_default(disk: Disk, steps: Seq<Exchange>)
    requires
        provision::is_provisioning(disk, steps),
        !disk.holds(config_file_path_text()),
        !(steps.last().reply is Failed),
    ensures
        request_at(provision::opening().0, steps, (steps.len() - 1) as nat) == Some(
            provision::write_file(),
        ),
        disk_at(disk, steps, steps.len()).holds(config_file_path_text()),
        disk_at(disk, steps, steps.len()).entries[config_file_path_text()] == (Entry::File {
            contents: default_config_bytes(),
        }),
{
    dir_and_file_differ();
    provisioning_is_short(disk, steps, steps.len());
    run_unfolds(provision::opening().0, disk, steps);
}

/// Provisioning keeps what it finds. Whatever exists on the disk
/// beforehand, the configuration directory and the configuration file
/// among it, exists afterwards and is what it was; and nothing comes to
/// exist but, at most, the configuration directory and the configuration
/// file.
pub proof fn provisioning_keeps_what_exists(disk: Disk, steps: Seq<Exchange>, path: Seq<char>)
    requires
        provision::is_provisioning(disk, steps),
    ensures
        disk.holds(path) ==> disk_at(disk, steps, steps.len()).holds(path) && disk_at(
            disk,
            steps,
            steps.len(),
        ).entries[path] == disk.entries[path],
        path != CONFIG_DIR@ && path != config_file_path_text() ==> (disk_at(
            disk,
            steps,
            steps.len(),
        ).holds(path) <==> disk.holds(path)),
{
    dir_and_file_differ();
    provisioning_is_short(disk, steps, steps.len());
    run_unfolds(provision::opening().0, disk, steps);
    let last = (steps.len() - 1) as nat;
    if steps.last().reply is Failed && path != config_file_path_text() {
        disk_at(disk, steps, steps.len()).agreement_elsewhere(
            disk_at(disk, steps, last),
            config_file_path_text(),
            path,
        );
    }
}

/// Without the companion executable nothing is provisioned and nothing is
/// started. A run on a disk that does not hold the executable asks whether
/// it exists, pauses, and is over: it has at most these two exchanges, and
/// the disk stays as it was.
pub proof fn missing_executable_ends_run(disk: Disk, steps: Seq<Exchange>)
    requires
        launch::is_launch(disk, steps),
        !disk.holds(EXECUTABLE@),
    ensures
        steps.len() <= 2,
        steps.len() >= 1 ==> request_at(launch::opening().0, steps, 0) == Some(
            launch::probe_executable(),
        ),
        steps.len() == 2 ==> request_at(launch::opening().0, steps, 1) == Some(
            RequestView::ReadLine,
        ),
        forall|n: nat| n <= steps.len() ==> disk_at(disk, steps, n) == disk,
{
    runs_are_short(disk, steps);
    run_unfolds(launch::opening().0, disk, steps);
}

/// No failure in provisioning keeps the companion from being started. A
/// run on a disk that holds the executable, followed to its end, asks for
/// the companion to be started, whatever became of the configuration
/// directory and the configuration file. That request is the last of the
/// run where the start worked, and the last but one, before the pause,
/// where it failed.
pub proof fn failures_do_not_stop_the_start(disk: Disk, steps: Seq<Exchange>)
    requires
        launch::is_whole_launch(disk, steps),
        disk.holds(EXECUTABLE@),
    ensures
        steps.len() >= 4,
        request_at(
            launch::opening().0,
            steps,
            if steps.last().reply is LineRead {
                (steps.len() - 2) as nat
            } else {
                (steps.len() - 1) as nat
            },
        ) == Some(launch::spawn_executable()),
{
    runs_are_short(disk, steps);
    run_unfolds(launch::opening().0, disk, steps);
}

/// A configuration directory that could not be made is reported and
/// passed over. In a run followed to its end, the failure to make the
/// directory is answered by one line that holds the error, and by the
/// question whether the configuration file exists; and the request to
/// start the companion comes after it.
pub proof fn failed_directory_is_passed_over(
    disk: Disk,
    steps: Seq<Exchange>,
    i: nat,
    error: Seq<char>,
)
    requires
        launch::is_whole_launch(disk, steps),
        i < steps.len(),
        request_at(launch::opening().0, steps, i) == Some(provision::create_dir()),
        steps[i as int].reply == (ReplyView::Failed { error }),
    ensures
        effect_at(launch::opening().0, steps, i) == Some(
            saying(dir_failed_text(error), provision::probe_file()),
        ),
        exists|j: nat|
            i < j < steps.len() && request_at(launch::opening().0, steps, j) == Some(
                launch::spawn_executable(),
            ),
{
    let start = launch::opening().0;
    dir_and_file_differ();
    runs_are_short(disk, steps);
    run_unfolds(start, disk, steps);
    assert(request_at(start, steps, 0) == Some(launch::probe_executable()));
    assert(disk.holds(EXECUTABLE@));
    failures_do_not_stop_the_start(disk, steps);
    let at: nat = if steps.last().reply is LineRead {
        (steps.len() - 2) as nat
    } else {
        (steps.len() - 1) as nat
    };
    assert(i < at < steps.len() && request_at(start, steps, at) == Some(
        launch::spawn_executable(),
    ));
}

/// The companion finds its configuration. In every run, unless something
/// failed before, the configuration directory and the configuration file
/// exist at the moment at which the companion is to be started.
pub proof fn companion_finds_configuration(disk: Disk, steps: Seq<Exchange>, i: nat)
    requires
        launch::is_launch(disk, steps),
        i < steps.len(),
        request_at(launch::opening().0, steps, i) matches Some(request) && request is Spawn,
        all_went_well(steps.take(i as int)),
    ensures
        disk_at(disk, steps, i).holds(CONFIG_DIR@),
        disk_at(disk, steps, i).holds(config_file_path_text()),
{
    dir_and_file_differ();
    runs_are_short(disk, steps);
    run_unfolds(launch::opening().0, disk, steps);
    assert forall|j: int| 0 <= j < i implies !(steps[j].reply is Failed) by {
        assert(steps.take(i as int)[j] == steps[j]);
    }
}

/// A companion that was started is not waited for. In every run, the
/// exchange in which the companion was started is the last one: the turn
/// that follows reports the start and asks for nothing more.
pub proof fn started_companion_is_not_awaited(disk: Disk, steps: Seq<Exchange>, i: nat)
    requires
        launch::is_launch(disk, steps),
        i < steps.len(),
        request_at(launch::opening().0, steps, i) matches Some(request) && request is Spawn,
        steps[i as int].reply is Succeeded,
    ensures
        i + 1 == steps.len(),
        effect_at(launch::opening().0, steps, i) == Some(
            saying(STARTED@, RequestView::Finish),
        ),
        phase_at(launch::opening().0, steps, steps.len()) == Some(launch::Phase::Finished),
{
    run_unfolds(launch::opening().0, disk, steps);
}

/// Every run ends. A run of the launcher has at most seven exchanges: the
/// question for the executable, two questions and two actions of
/// provisioning, the start, and a pause.
pub proof fn runs_are_short(disk: Disk, steps: Seq<Exchange>)
    requires
        launch::is_launch(disk, steps),
    ensures
        steps.len() <= 7,
{
    launch_nears_end(disk, steps, steps.len());
}

} // verus!
