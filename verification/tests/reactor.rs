use kpm::client::load_kpm;
use kpm::error::KpmError;
use kpm::flow::{Effect, Step};
use kpm::gateway::{Arg, Command, Request};
use kpm::lifecycle::unload_kpm;
use kpm::reactor::{handle_kpm_event, Action, EventKind, FsEvent};

fn event(kind: EventKind, list: &[&[u8]]) -> FsEvent {
    FsEvent { kind, paths: list.iter().map(|p| p.to_vec()).collect() }
}

fn call_of(step: Step) -> Request {
    match step {
        Step::Perform(_, Effect::Invoke(request)) => request,
        other => panic!("no call: {:?}", other),
    }
}

#[test]
fn a_created_module_file_is_loaded_once() {
    let actions = handle_kpm_event(&event(EventKind::Create, &[b"/data/adb/kpm/foo.kpm"]));
    assert_eq!(actions, vec![Action::Load(b"/data/adb/kpm/foo.kpm".to_vec())]);
    let request = match &actions[0] {
        Action::Load(path) => call_of(load_kpm(path)),
        other => panic!("no load: {:?}", other),
    };
    assert_eq!(
        request,
        Request {
            command: Command::Load,
            arg1: Arg::Text(b"/data/adb/kpm/foo.kpm\0".to_vec()),
            arg2: Arg::Zero,
        }
    );
}

#[test]
fn a_removed_module_file_is_unloaded_once() {
    let actions = handle_kpm_event(&event(EventKind::Remove, &[b"/data/adb/kpm/foo.kpm"]));
    assert_eq!(actions, vec![Action::Unload("foo".to_string())]);
    let request = match &actions[0] {
        Action::Unload(name) => call_of(unload_kpm(name)),
        other => panic!("no unload: {:?}", other),
    };
    assert_eq!(
        request,
        Request { command: Command::Unload, arg1: Arg::Text(b"foo\0".to_vec()), arg2: Arg::Zero }
    );
}

#[test]
fn a_modified_file_leads_to_nothing() {
    assert_eq!(handle_kpm_event(&event(EventKind::Modify, &[b"/data/adb/kpm/foo.kpm"])), vec![]);
}

#[test]
fn any_other_event_leads_to_nothing() {
    assert_eq!(handle_kpm_event(&event(EventKind::Other, &[b"/data/adb/kpm/foo.kpm"])), vec![]);
}

#[test]
fn a_created_file_of_another_kind_is_left_alone() {
    assert_eq!(handle_kpm_event(&event(EventKind::Create, &[b"/data/adb/kpm/c.txt"])), vec![]);
    assert_eq!(handle_kpm_event(&event(EventKind::Create, &[b"/data/adb/kpm/.kpm"])), vec![]);
    assert_eq!(handle_kpm_event(&event(EventKind::Create, &[b"/data/adb/kpm/foo.kpm.tmp"])), vec![]);
    assert_eq!(handle_kpm_event(&event(EventKind::Create, &[])), vec![]);
}

#[test]
fn a_removed_file_of_another_kind_is_left_alone() {
    assert_eq!(handle_kpm_event(&event(EventKind::Remove, &[b"/data/adb/kpm/c.txt"])), vec![]);
    assert_eq!(handle_kpm_event(&event(EventKind::Remove, &[b"/data/adb/kpm/foo"])), vec![]);
    assert_eq!(handle_kpm_event(&event(EventKind::Remove, &[b"/data/adb/kpm/\xff.kpm"])), vec![]);
}

#[test]
fn every_path_of_an_event_is_looked_at() {
    let created = event(
        EventKind::Create,
        &[b"/data/adb/kpm/a.kpm", b"/data/adb/kpm/c.txt", b"/data/adb/kpm/b.kpm"],
    );
    assert_eq!(
        handle_kpm_event(&created),
        vec![
            Action::Load(b"/data/adb/kpm/a.kpm".to_vec()),
            Action::Load(b"/data/adb/kpm/b.kpm".to_vec()),
        ]
    );
    let removed = event(
        EventKind::Remove,
        &[b"/data/adb/kpm/a.kpm", b"/data/adb/kpm/c.txt", b"/data/adb/kpm/b.x.kpm"],
    );
    assert_eq!(
        handle_kpm_event(&removed),
        vec![Action::Unload("a".to_string()), Action::Unload("b.x".to_string())]
    );
}

#[test]
fn a_created_module_file_that_is_not_text_is_handed_on_and_refused_there() {
    let actions = handle_kpm_event(&event(EventKind::Create, &[b"/data/adb/kpm/\xff.kpm"]));
    assert_eq!(actions, vec![Action::Load(b"/data/adb/kpm/\xff.kpm".to_vec())]);
    assert_eq!(load_kpm(b"/data/adb/kpm/\xff.kpm"), Step::Finish(Err(KpmError::BadPath)));
}

#[test]
fn identities_keep_their_text() {
    let removed = event(EventKind::Remove, &["/data/adb/kpm/模块.kpm".as_bytes()]);
    assert_eq!(handle_kpm_event(&removed), vec![Action::Unload("模块".to_string())]);
}
