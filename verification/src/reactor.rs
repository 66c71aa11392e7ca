//! The event reactor: what each event of the watch on the module directory
//! leads to.

use vstd::prelude::*;
use vstd::slice::*;
use vstd::utf8::*;

use crate::codec::utf8_text;
use crate::modfile::{byte_views, is_module_file, module_file};
use crate::plan::{filter_take_step, identity, identity_of, stem_or_empty};

verus! {

/// What happened to the paths of a file-system event.
#[derive(Clone, Copy, Debug, PartialEq, Eq, Structural)]
pub enum EventKind {
    Create,
    Modify,
    Remove,
    /// Anything else: an access, a change the watcher could not classify.
    Other,
}

/// One event from the watch on the module directory.
#[derive(Debug, PartialEq, Eq)]
pub struct FsEvent {
    pub kind: EventKind,
    pub paths: Vec<Vec<u8>>,
}

/// What the reactor wants done in answer to an event. A failure of either
/// is for the log only; the watch goes on.
#[derive(Debug, PartialEq, Eq)]
pub enum Action {
    /// Load the module file at this path: `load_kpm` builds the call.
    Load(Vec<u8>),
    /// Unload the module of this identity: `unload_kpm` begins the flow.
    Unload(String),
}

pub enum ActionView {
    Load(Seq<u8>),
    Unload(Seq<char>),
}

impl View for Action {
    type V = ActionView;

    open spec fn view(&self) -> ActionView {
        match *self {
            Action::Load(path) => ActionView::Load(path@),
            Action::Unload(name) => ActionView::Unload(name@),
        }
    }
}

/// A list of actions, each taken by its view.
pub open spec fn action_views(actions: Seq<Action>) -> Seq<ActionView> {
    actions.map_values(|action: Action| action@)
}

/// The created paths that are loaded: the module files.
pub open spec fn loads() -> spec_fn(Seq<u8>) -> bool {
    |path: Seq<u8>| module_file(path)
}

/// The removed paths whose module is unloaded: the module files with an
/// identity.
pub open spec fn unloads() -> spec_fn(Seq<u8>) -> bool {
    |path: Seq<u8>| identity_of(path) is Some
}

pub open spec fn as_load() -> spec_fn(Seq<u8>) -> ActionView {
    |path: Seq<u8>| ActionView::Load(path)
}

pub open spec fn as_unload() -> spec_fn(Seq<u8>) -> ActionView {
    |path: Seq<u8>| ActionView::Unload(decode_utf8(stem_or_empty()(path)))
}

/// What an event of this kind on these paths leads to: a load for each
/// created module file, an unload for each removed one, and nothing for a
/// change to a file or for any other event.
pub open spec fn event_actions(kind: EventKind, paths: Seq<Seq<u8>>) -> Seq<ActionView> {
    match kind {
        EventKind::Create => paths.filter(loads()).map_values(as_load()),
        EventKind::Remove => paths.filter(unloads()).map_values(as_unload()),
        _ => Seq::empty(),
    }
}

/// Dispatches one event of the watch by its kind.
pub fn handle_kpm_event(evt: &FsEvent) -> (r: Vec<Action>)
    ensures
        action_views(r@) == event_actions(evt.kind, byte_views(evt.paths@)),
{
    let ghost all = byte_views(evt.paths@);
    let mut actions: Vec<Action> = Vec::new();
    match evt.kind {
        EventKind::Create => {
            let mut i: usize = 0;
            proof {
                reveal(Seq::filter);
                assert(all.take(0).filter(loads()) =~= Seq::empty());
                assert(action_views(actions@) =~= Seq::<Seq<u8>>::empty().map_values(as_load()));
            }
            while i < evt.paths.len()
                invariant
                    i <= evt.paths.len(),
                    all == byte_views(evt.paths@),
                    action_views(actions@) == all.take(i as int).filter(loads()).map_values(
                        as_load(),
                    ),
                decreases evt.paths.len() - i,
            {
                let path = evt.paths[i].as_slice();
                proof {
                    filter_take_step(all, loads(), i as int);
                    assert(all[i as int] == path@);
                }
                if is_module_file(path) {
                    let ghost before = action_views(actions@);
                    let ghost kept = all.take(i as int).filter(loads());
                    actions.push(Action::Load(slice_to_vec(path)));
                    assert(action_views(actions@) =~= before.push(ActionView::Load(path@)));
                    assert(kept.push(path@).map_values(as_load()) =~= kept.map_values(
                        as_load(),
                    ).push(ActionView::Load(path@)));
                }
                i = i + 1;
            }
            assert(all.take(i as int) == all);
        },
        EventKind::Remove => {
            let mut i: usize = 0;
            proof {
                reveal(Seq::filter);
                assert(all.take(0).filter(unloads()) =~= Seq::empty());
                assert(action_views(actions@) =~= Seq::<Seq<u8>>::empty().map_values(
                    as_unload(),
                ));
            }
            while i < evt.paths.len()
                invariant
                    i <= evt.paths.len(),
                    all == byte_views(evt.paths@),
                    action_views(actions@) == all.take(i as int).filter(unloads()).map_values(
                        as_unload(),
                    ),
                decreases evt.paths.len() - i,
            {
                let path = evt.paths[i].as_slice();
                proof {
                    filter_take_step(all, unloads(), i as int);
                    assert(all[i as int] == path@);
                }
                match identity(path) {
                    Some(name) => match utf8_text(name) {
                        Some(text) => {
                            let ghost before = action_views(actions@);
                            let ghost kept = all.take(i as int).filter(unloads());
                            let ghost action = ActionView::Unload(text@);
                            actions.push(Action::Unload(text));
                            assert(action_views(actions@) =~= before.push(action));
                            assert(kept.push(path@).map_values(as_unload()) =~= kept.map_values(
                                as_unload(),
                            ).push(action));
                        },
                        None => {},
                    },
                    None => {},
                }
                i = i + 1;
            }
            assert(all.take(i as int) == all);
        },
        _ => {
            assert(action_views(actions@) =~= Seq::empty());
        },
    }
    actions
}

/// The event of one path: the creation of a module file leads to exactly
/// one load, of that path; the removal of a module file to exactly one
/// unload, of its module; a change to a file, or anything done to any other
/// file, to nothing.
pub proof fn event_of_one_path(kind: EventKind, path: Seq<u8>)
    ensures
        event_actions(kind, seq![path]) == match kind {
            EventKind::Create => if module_file(path) {
                seq![ActionView::Load(path)]
            } else {
                Seq::empty()
            },
            EventKind::Remove => match identity_of(path) {
                Some(name) => seq![ActionView::Unload(decode_utf8(name))],
                None => Seq::empty(),
            },
            _ => Seq::empty(),
        },
{
    let one = seq![path];
    assert(one.take(0) =~= Seq::empty());
    assert(one.take(1) =~= one);
    reveal(Seq::filter);
    assert(Seq::<Seq<u8>>::empty().filter(loads()) =~= Seq::empty());
    assert(Seq::<Seq<u8>>::empty().filter(unloads()) =~= Seq::empty());
    match kind {
        EventKind::Create => {
            filter_take_step(one, loads(), 0);
            let kept = one.filter(loads());
            if module_file(path) {
                assert(kept =~= seq![path]);
                assert(kept.map_values(as_load()) =~= seq![ActionView::Load(path)]);
            } else {
                assert(kept.map_values(as_load()) =~= Seq::empty());
            }
        },
        EventKind::Remove => {
            filter_take_step(one, unloads(), 0);
            let kept = one.filter(unloads());
            match identity_of(path) {
                Some(name) => {
                    assert(kept =~= seq![path]);
                    assert(kept.map_values(as_unload()) =~= seq![
                        ActionView::Unload(decode_utf8(name)),
                    ]);
                },
                None => {
                    assert(kept.map_values(as_unload()) =~= Seq::empty());
                },
            }
        },
        _ => {},
    }
}

} // verus!
