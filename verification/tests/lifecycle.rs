use kpm::error::KpmError;
use kpm::flow::{Effect, Outcome, Output, Stage, Step, Task};
use kpm::gateway::{Arg, Command, Reply, Request};
use kpm::protocol::NOT_FOUND;
use kpm::lifecycle::{
    ensure_kpm_dir, load_kpm_modules, remove_all_kpms, start_kpm_watcher, unload_kpm,
};

type End = Option<Result<Output, KpmError>>;

/// Runs a flow against the reports of a scripted driver and records what it
/// asked for. The end is `None` where the script ran out first.
fn drive(mut step: Step, script: Vec<Outcome>) -> (Vec<Effect>, End) {
    let mut asked = Vec::new();
    let mut script = script.into_iter();
    loop {
        match step {
            Step::Finish(end) => return (asked, Some(end)),
            Step::Perform(flow, effect) => {
                asked.push(effect);
                match script.next() {
                    Some(outcome) => step = flow.resume(outcome),
                    None => return (asked, None),
                }
            },
        }
    }
}

fn answer(rc: i32) -> Outcome {
    Outcome::Reply(Reply { rc, buffer: vec![] })
}

fn version(rc: i32, token: &[u8]) -> Outcome {
    let mut buffer = vec![0u8; 4096];
    buffer[..token.len()].copy_from_slice(token);
    Outcome::Reply(Reply { rc, buffer })
}

fn entries(list: &[&[u8]]) -> Outcome {
    Outcome::Entries(list.iter().map(|p| p.to_vec()).collect())
}

fn version_call() -> Effect {
    Effect::Invoke(Request {
        command: Command::Version,
        arg1: Arg::Scratch(4096),
        arg2: Arg::Length(4096),
    })
}

fn load_call(path: &[u8]) -> Effect {
    let mut text = path.to_vec();
    text.push(0);
    Effect::Invoke(Request { command: Command::Load, arg1: Arg::Text(text), arg2: Arg::Zero })
}

fn unload_call(name: &[u8]) -> Effect {
    let mut text = name.to_vec();
    text.push(0);
    Effect::Invoke(Request { command: Command::Unload, arg1: Arg::Text(text), arg2: Arg::Zero })
}

fn remove(path: &[u8]) -> Effect {
    Effect::RemoveFile(path.to_vec())
}

// The directory guardian.

#[test]
fn ensure_creates_then_reads_then_rewrites() {
    let (asked, end) =
        drive(ensure_kpm_dir(), vec![Outcome::Done, Outcome::Mode(0o040755), Outcome::Done]);
    assert_eq!(asked, vec![Effect::CreateDir, Effect::ReadMode, Effect::SetMode(0o777)]);
    assert_eq!(end, Some(Ok(Output::Done)));
}

#[test]
fn ensure_leaves_a_sufficient_mode_alone() {
    let (asked, end) = drive(ensure_kpm_dir(), vec![Outcome::Done, Outcome::Mode(0o040777)]);
    assert_eq!(asked, vec![Effect::CreateDir, Effect::ReadMode]);
    assert_eq!(end, Some(Ok(Output::Done)));
}

#[test]
fn ensure_run_again_finds_nothing_to_do() {
    let (first, _) =
        drive(ensure_kpm_dir(), vec![Outcome::Done, Outcome::Mode(0o040700), Outcome::Done]);
    assert_eq!(first.last(), Some(&Effect::SetMode(0o777)));
    let (second, end) = drive(ensure_kpm_dir(), vec![Outcome::Done, Outcome::Mode(0o040777)]);
    assert_eq!(second, vec![Effect::CreateDir, Effect::ReadMode]);
    assert_eq!(end, Some(Ok(Output::Done)));
}

#[test]
fn ensure_fails_with_the_file_system() {
    assert_eq!(
        drive(ensure_kpm_dir(), vec![Outcome::Failed]),
        (vec![Effect::CreateDir], Some(Err(KpmError::FileSystem)))
    );
    assert_eq!(
        drive(ensure_kpm_dir(), vec![Outcome::Done, Outcome::Failed]),
        (vec![Effect::CreateDir, Effect::ReadMode], Some(Err(KpmError::FileSystem)))
    );
    assert_eq!(
        drive(ensure_kpm_dir(), vec![Outcome::Done, Outcome::Mode(0), Outcome::Failed]),
        (
            vec![Effect::CreateDir, Effect::ReadMode, Effect::SetMode(0o777)],
            Some(Err(KpmError::FileSystem))
        )
    );
}

// Unload of one module.

#[test]
fn unload_asks_the_kernel_then_deletes_the_file() {
    let (asked, end) = drive(
        unload_kpm("foo"),
        vec![
            answer(0),
            entries(&[b"/data/adb/kpm/a.kpm", b"/data/adb/kpm/foo.kpm"]),
            Outcome::Done,
        ],
    );
    assert_eq!(asked, vec![unload_call(b"foo"), Effect::ListDir, remove(b"/data/adb/kpm/foo.kpm")]);
    assert_eq!(end, Some(Ok(Output::Done)));
}

#[test]
fn unload_without_a_file_still_asks_the_kernel_and_does_not_fail() {
    let (asked, end) = drive(
        unload_kpm("foo"),
        vec![answer(0), entries(&[b"/data/adb/kpm/a.kpm", b"/data/adb/kpm/foo.txt"])],
    );
    assert_eq!(asked, vec![unload_call(b"foo"), Effect::ListDir]);
    assert_eq!(end, Some(Ok(Output::Done)));
    let (asked, end) = drive(unload_kpm("foo"), vec![answer(0), entries(&[])]);
    assert_eq!(asked, vec![unload_call(b"foo"), Effect::ListDir]);
    assert_eq!(end, Some(Ok(Output::Done)));
}

#[test]
fn unload_without_a_directory_does_not_fail() {
    let (asked, end) = drive(unload_kpm("foo"), vec![answer(0), Outcome::Absent]);
    assert_eq!(asked, vec![unload_call(b"foo"), Effect::ListDir]);
    assert_eq!(end, Some(Ok(Output::Done)));
}

#[test]
fn unload_hands_the_kernel_error_on_and_touches_no_file() {
    for (rc, errno) in [(-1, 1), (-3, 3), (-16, 16), (-22, 22), (i32::MIN, 2_147_483_648)] {
        let (asked, end) = drive(unload_kpm("foo"), vec![answer(rc)]);
        assert_eq!(asked, vec![unload_call(b"foo")]);
        assert_eq!(end, Some(Err(KpmError::Kernel { errno })));
    }
}

#[test]
fn unload_of_a_module_that_is_not_loaded_is_success() {
    let (asked, end) = drive(unload_kpm("foo"), vec![answer(-2)]);
    assert_eq!(asked, vec![unload_call(b"foo")]);
    assert_eq!(end, Some(Ok(Output::Done)));
}

#[test]
fn unload_of_a_module_that_is_not_loaded_touches_no_file() {
    let (asked, end) = drive(
        unload_kpm("foo"),
        vec![answer(-2), entries(&[b"/data/adb/kpm/foo.kpm"]), Outcome::Done],
    );
    assert_eq!(asked, vec![unload_call(b"foo")]);
    assert_eq!(end, Some(Ok(Output::Done)));
}

#[test]
fn unload_twice_is_success_twice() {
    let (_, first) = drive(
        unload_kpm("foo"),
        vec![answer(0), entries(&[b"/data/adb/kpm/foo.kpm"]), Outcome::Done],
    );
    let (_, second) = drive(unload_kpm("foo"), vec![answer(-(NOT_FOUND as i32))]);
    assert_eq!(first, Some(Ok(Output::Done)));
    assert_eq!(second, Some(Ok(Output::Done)));
}

#[test]
fn unload_does_not_mind_a_failed_deletion() {
    let (asked, end) = drive(
        unload_kpm("foo"),
        vec![answer(0), entries(&[b"/data/adb/kpm/foo.kpm"]), Outcome::Failed],
    );
    assert_eq!(asked.len(), 3);
    assert_eq!(end, Some(Ok(Output::Done)));
}

#[test]
fn unload_fails_where_the_directory_cannot_be_read() {
    let (asked, end) = drive(unload_kpm("foo"), vec![answer(0), Outcome::Failed]);
    assert_eq!(asked, vec![unload_call(b"foo"), Effect::ListDir]);
    assert_eq!(end, Some(Err(KpmError::FileSystem)));
}

#[test]
fn unload_of_a_name_with_a_nul_asks_nobody() {
    assert_eq!(drive(unload_kpm("fo\0o"), vec![]), (vec![], Some(Err(KpmError::Encoding))));
}

#[test]
fn unload_takes_a_positive_result_as_success() {
    let (_, end) = drive(unload_kpm("foo"), vec![answer(5), Outcome::Absent]);
    assert_eq!(end, Some(Ok(Output::Done)));
}

// The quarantine sweep.

#[test]
fn sweep_unloads_each_module_once_and_deletes_its_file() {
    let listing = || entries(&[b"/data/adb/kpm/a.kpm", b"/data/adb/kpm/b.kpm"]);
    let (asked, end) = drive(
        remove_all_kpms(),
        vec![
            listing(),
            answer(0),
            listing(),
            Outcome::Done,
            answer(0),
            entries(&[b"/data/adb/kpm/b.kpm"]),
            Outcome::Done,
        ],
    );
    assert_eq!(
        asked,
        vec![
            Effect::ListDir,
            unload_call(b"a"),
            Effect::ListDir,
            remove(b"/data/adb/kpm/a.kpm"),
            unload_call(b"b"),
            Effect::ListDir,
            remove(b"/data/adb/kpm/b.kpm"),
        ]
    );
    assert_eq!(end, Some(Ok(Output::Swept { unloaded: 2, failed: 0 })));
}

#[test]
fn sweep_goes_on_after_a_failed_unload() {
    let listing = || entries(&[b"/data/adb/kpm/a.kpm", b"/data/adb/kpm/b.kpm"]);
    let (asked, end) = drive(
        remove_all_kpms(),
        vec![listing(), answer(-16), answer(0), listing(), Outcome::Done],
    );
    assert_eq!(
        asked,
        vec![
            Effect::ListDir,
            unload_call(b"a"),
            unload_call(b"b"),
            Effect::ListDir,
            remove(b"/data/adb/kpm/b.kpm"),
        ]
    );
    assert_eq!(end, Some(Ok(Output::Swept { unloaded: 1, failed: 1 })));
}

#[test]
fn sweep_counts_a_module_that_is_not_loaded_as_done_and_leaves_its_file() {
    let (asked, end) = drive(
        remove_all_kpms(),
        vec![
            entries(&[b"/data/adb/kpm/a.kpm", b"/data/adb/kpm/b.kpm", b"/data/adb/kpm/c.kpm"]),
            answer(-2),
            answer(-16),
            answer(0),
            entries(&[b"/data/adb/kpm/a.kpm", b"/data/adb/kpm/b.kpm", b"/data/adb/kpm/c.kpm"]),
            Outcome::Done,
        ],
    );
    assert_eq!(
        asked,
        vec![
            Effect::ListDir,
            unload_call(b"a"),
            unload_call(b"b"),
            unload_call(b"c"),
            Effect::ListDir,
            remove(b"/data/adb/kpm/c.kpm"),
        ]
    );
    assert_eq!(end, Some(Ok(Output::Swept { unloaded: 2, failed: 1 })));
}

#[test]
fn sweep_completes_where_every_unload_fails() {
    let (asked, end) = drive(
        remove_all_kpms(),
        vec![
            entries(&[b"/data/adb/kpm/a.kpm", b"/data/adb/kpm/b.kpm"]),
            answer(-1),
            answer(-1),
        ],
    );
    assert_eq!(asked, vec![Effect::ListDir, unload_call(b"a"), unload_call(b"b")]);
    assert_eq!(end, Some(Ok(Output::Swept { unloaded: 0, failed: 2 })));
}

#[test]
fn sweep_passes_over_other_files() {
    let (asked, end) = drive(
        remove_all_kpms(),
        vec![
            entries(&[b"/data/adb/kpm/c.txt", b"/data/adb/kpm/a.kpm", b"/data/adb/kpm/.kpm"]),
            answer(0),
            Outcome::Absent,
        ],
    );
    assert_eq!(asked, vec![Effect::ListDir, unload_call(b"a"), Effect::ListDir]);
    assert_eq!(end, Some(Ok(Output::Swept { unloaded: 1, failed: 0 })));
}

#[test]
fn sweep_of_an_empty_or_missing_directory_does_nothing() {
    assert_eq!(
        drive(remove_all_kpms(), vec![entries(&[])]),
        (vec![Effect::ListDir], Some(Ok(Output::Swept { unloaded: 0, failed: 0 })))
    );
    assert_eq!(
        drive(remove_all_kpms(), vec![Outcome::Absent]),
        (vec![Effect::ListDir], Some(Ok(Output::Swept { unloaded: 0, failed: 0 })))
    );
}

#[test]
fn sweep_fails_where_the_directory_cannot_be_read() {
    assert_eq!(
        drive(remove_all_kpms(), vec![Outcome::Failed]),
        (vec![Effect::ListDir], Some(Err(KpmError::FileSystem)))
    );
}

#[test]
fn sweep_counts_a_failed_search_and_goes_on() {
    let (asked, end) = drive(
        remove_all_kpms(),
        vec![
            entries(&[b"/data/adb/kpm/a.kpm", b"/data/adb/kpm/b.kpm"]),
            answer(0),
            Outcome::Failed,
            answer(0),
            Outcome::Absent,
        ],
    );
    assert_eq!(
        asked,
        vec![
            Effect::ListDir,
            unload_call(b"a"),
            Effect::ListDir,
            unload_call(b"b"),
            Effect::ListDir,
        ]
    );
    assert_eq!(end, Some(Ok(Output::Swept { unloaded: 1, failed: 1 })));
}

// The bulk load at boot.

#[test]
fn bulk_load_loads_the_module_files_and_nothing_else() {
    for (first, second, ok, failed) in
        [(0, 0, 2, 0), (0, -22, 1, 1), (-22, 0, 1, 1), (-8, -8, 0, 2)]
    {
        let (asked, end) = drive(
            load_kpm_modules(),
            vec![
                version(0, b"0.10"),
                Outcome::Done,
                Outcome::Mode(0o040777),
                entries(&[b"/data/adb/kpm/a.kpm", b"/data/adb/kpm/b.kpm", b"/data/adb/kpm/c.txt"]),
                answer(first),
                answer(second),
            ],
        );
        assert_eq!(
            asked,
            vec![
                version_call(),
                Effect::CreateDir,
                Effect::ReadMode,
                Effect::ListDir,
                load_call(b"/data/adb/kpm/a.kpm"),
                load_call(b"/data/adb/kpm/b.kpm"),
            ]
        );
        assert_eq!(end, Some(Ok(Output::Loaded { ok, failed })));
    }
}

#[test]
fn bulk_load_counts_a_load_that_finds_nothing_as_failed() {
    let (_, end) = drive(
        load_kpm_modules(),
        vec![
            version(0, b"0.10"),
            Outcome::Done,
            Outcome::Mode(0o777),
            entries(&[b"/data/adb/kpm/a.kpm"]),
            answer(-2),
        ],
    );
    assert_eq!(end, Some(Ok(Output::Loaded { ok: 0, failed: 1 })));
}

#[test]
fn bulk_load_stops_at_a_failed_version_check() {
    assert_eq!(
        drive(load_kpm_modules(), vec![version(0, b"Error: none")]),
        (vec![version_call()], Some(Ok(Output::Disabled(KpmError::InvalidVersion))))
    );
    assert_eq!(
        drive(load_kpm_modules(), vec![version(0, b"")]),
        (vec![version_call()], Some(Ok(Output::Disabled(KpmError::InvalidVersion))))
    );
    assert_eq!(
        drive(load_kpm_modules(), vec![version(-1, b"0.10")]),
        (vec![version_call()], Some(Ok(Output::Disabled(KpmError::Kernel { errno: 1 }))))
    );
}

#[test]
fn bulk_load_puts_the_directory_in_order_first() {
    let (asked, end) = drive(
        load_kpm_modules(),
        vec![
            version(0, b"0.10"),
            Outcome::Done,
            Outcome::Mode(0o040750),
            Outcome::Done,
            entries(&[]),
        ],
    );
    assert_eq!(
        asked,
        vec![
            version_call(),
            Effect::CreateDir,
            Effect::ReadMode,
            Effect::SetMode(0o777),
            Effect::ListDir,
        ]
    );
    assert_eq!(end, Some(Ok(Output::Loaded { ok: 0, failed: 0 })));
}

#[test]
fn bulk_load_fails_with_the_file_system() {
    let (_, end) = drive(load_kpm_modules(), vec![version(0, b"0.10"), Outcome::Failed]);
    assert_eq!(end, Some(Err(KpmError::FileSystem)));
    let (asked, end) = drive(
        load_kpm_modules(),
        vec![version(0, b"0.10"), Outcome::Done, Outcome::Mode(0o777), Outcome::Failed],
    );
    assert_eq!(asked.last(), Some(&Effect::ListDir));
    assert_eq!(end, Some(Err(KpmError::FileSystem)));
}

#[test]
fn bulk_load_without_a_directory_loads_nothing() {
    let (_, end) = drive(
        load_kpm_modules(),
        vec![version(0, b"0.10"), Outcome::Done, Outcome::Mode(0o777), Outcome::Absent],
    );
    assert_eq!(end, Some(Ok(Output::Loaded { ok: 0, failed: 0 })));
}

#[test]
fn bulk_load_counts_a_path_that_is_not_text_as_failed() {
    let (asked, end) = drive(
        load_kpm_modules(),
        vec![
            version(0, b"0.10"),
            Outcome::Done,
            Outcome::Mode(0o777),
            entries(&[b"/data/adb/kpm/\xff.kpm", b"/data/adb/kpm/a.kpm"]),
            answer(0),
        ],
    );
    assert_eq!(asked.len(), 5);
    assert_eq!(asked[4], load_call(b"/data/adb/kpm/a.kpm"));
    assert_eq!(end, Some(Ok(Output::Loaded { ok: 1, failed: 1 })));
}

#[test]
fn bulk_load_deletes_nothing() {
    let (asked, _) = drive(
        load_kpm_modules(),
        vec![
            version(0, b"0.10"),
            Outcome::Done,
            Outcome::Mode(0o777),
            entries(&[b"/data/adb/kpm/a.kpm"]),
            answer(0),
        ],
    );
    assert!(asked.iter().all(|effect| !matches!(effect, Effect::RemoveFile(_))));
}

// Startup.

#[test]
fn startup_watches_a_host_that_is_not_in_safe_mode() {
    let (asked, end) = drive(
        start_kpm_watcher(),
        vec![
            version(0, b"0.10"),
            Outcome::Done,
            Outcome::Mode(0o040777),
            Outcome::Flag(false),
            Outcome::Done,
        ],
    );
    assert_eq!(
        asked,
        vec![
            version_call(),
            Effect::CreateDir,
            Effect::ReadMode,
            Effect::QuerySafeMode,
            Effect::Watch,
        ]
    );
    assert_eq!(end, Some(Ok(Output::Watching)));
}

#[test]
fn startup_sweeps_a_host_in_safe_mode_and_does_not_watch() {
    let (asked, end) = drive(
        start_kpm_watcher(),
        vec![
            version(0, b"0.10"),
            Outcome::Done,
            Outcome::Mode(0o040700),
            Outcome::Done,
            Outcome::Flag(true),
            entries(&[b"/data/adb/kpm/a.kpm", b"/data/adb/kpm/b.kpm"]),
            answer(-3),
            answer(0),
            entries(&[b"/data/adb/kpm/a.kpm", b"/data/adb/kpm/b.kpm"]),
            Outcome::Done,
        ],
    );
    assert_eq!(
        asked,
        vec![
            version_call(),
            Effect::CreateDir,
            Effect::ReadMode,
            Effect::SetMode(0o777),
            Effect::QuerySafeMode,
            Effect::ListDir,
            unload_call(b"a"),
            unload_call(b"b"),
            Effect::ListDir,
            remove(b"/data/adb/kpm/b.kpm"),
        ]
    );
    assert_eq!(end, Some(Ok(Output::Swept { unloaded: 1, failed: 1 })));
}

#[test]
fn startup_with_a_failed_version_check_does_nothing_and_is_no_error() {
    assert_eq!(
        drive(start_kpm_watcher(), vec![version(0, b"Error")]),
        (vec![version_call()], Some(Ok(Output::Disabled(KpmError::InvalidVersion))))
    );
    assert_eq!(
        drive(start_kpm_watcher(), vec![version(-38, b"")]),
        (vec![version_call()], Some(Ok(Output::Disabled(KpmError::Kernel { errno: 38 }))))
    );
}

#[test]
fn startup_fails_where_the_directory_cannot_be_put_in_order() {
    let (_, end) = drive(start_kpm_watcher(), vec![version(0, b"0.10"), Outcome::Failed]);
    assert_eq!(end, Some(Err(KpmError::FileSystem)));
    let (_, end) = drive(
        start_kpm_watcher(),
        vec![version(0, b"0.10"), Outcome::Done, Outcome::Mode(0), Outcome::Failed],
    );
    assert_eq!(end, Some(Err(KpmError::FileSystem)));
}

#[test]
fn startup_fails_where_the_watch_cannot_be_registered() {
    let (_, end) = drive(
        start_kpm_watcher(),
        vec![
            version(0, b"0.10"),
            Outcome::Done,
            Outcome::Mode(0o777),
            Outcome::Flag(false),
            Outcome::Failed,
        ],
    );
    assert_eq!(end, Some(Err(KpmError::Watch)));
}

#[test]
fn startup_fails_where_the_sweep_cannot_read_the_directory() {
    let (_, end) = drive(
        start_kpm_watcher(),
        vec![
            version(0, b"0.10"),
            Outcome::Done,
            Outcome::Mode(0o777),
            Outcome::Flag(true),
            Outcome::Failed,
        ],
    );
    assert_eq!(end, Some(Err(KpmError::FileSystem)));
}

// The driver's part.

#[test]
fn flows_begin_where_they_should() {
    match start_kpm_watcher() {
        Step::Perform(flow, _) => {
            assert_eq!(flow.task(), Task::Startup);
            assert_eq!(flow.stage(), Stage::Version);
        },
        other => panic!("ended at once: {:?}", other),
    }
    match unload_kpm("foo") {
        Step::Perform(flow, _) => {
            assert_eq!(flow.task(), Task::Unload);
            assert_eq!(flow.stage(), Stage::Calling);
        },
        other => panic!("ended at once: {:?}", other),
    }
}

#[test]
fn a_report_of_the_wrong_kind_ends_a_flow() {
    let out_of_order = Some(Err(KpmError::OutOfOrder));
    assert_eq!(drive(ensure_kpm_dir(), vec![Outcome::Mode(0o777)]).1, out_of_order);
    assert_eq!(drive(ensure_kpm_dir(), vec![Outcome::Done, Outcome::Done]).1, out_of_order);
    assert_eq!(drive(unload_kpm("foo"), vec![Outcome::Done]).1, out_of_order);
    assert_eq!(drive(unload_kpm("foo"), vec![answer(0), answer(0)]).1, out_of_order);
    assert_eq!(drive(remove_all_kpms(), vec![Outcome::Done]).1, out_of_order);
    assert_eq!(drive(load_kpm_modules(), vec![Outcome::Flag(true)]).1, out_of_order);
    assert_eq!(
        drive(
            start_kpm_watcher(),
            vec![version(0, b"0.10"), Outcome::Done, Outcome::Mode(0o777), Outcome::Done]
        )
        .1,
        out_of_order
    );
}
