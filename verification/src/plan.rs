//! Work lists: what a bulk load and a sweep make of one snapshot of the module
//! directory.

use vstd::prelude::*;
use vstd::slice::*;
use vstd::utf8::*;

use crate::codec::{has_nul, holds_nul, utf8_text};
use crate::modfile::{byte_views, file_stem, file_stem_of, is_module_file, module_file};

verus! {

/// A path can be handed to the kernel if it is text without a NUL.
pub open spec fn loadable(path: Seq<u8>) -> bool {
    valid_utf8(path) && !has_nul(path)
}

/// The module files that a bulk load hands to the kernel.
pub open spec fn to_load() -> spec_fn(Seq<u8>) -> bool {
    |path: Seq<u8>| module_file(path) && loadable(path)
}

/// The module files that a bulk load must give up on unseen.
pub open spec fn not_to_load() -> spec_fn(Seq<u8>) -> bool {
    |path: Seq<u8>| module_file(path) && !loadable(path)
}

/// The paths that a bulk load over `entries` loads, in order.
pub open spec fn load_plan(entries: Seq<Seq<u8>>) -> Seq<Seq<u8>> {
    entries.filter(to_load())
}

/// How many module files among `entries` a bulk load counts as failed
/// without a call.
pub open spec fn load_rejects(entries: Seq<Seq<u8>>) -> nat {
    entries.filter(not_to_load()).len()
}

/// The identity of the module that a path stands for: what precedes the
/// module extension in the name of a module file, where that is text.
pub open spec fn identity_of(path: Seq<u8>) -> Option<Seq<u8>> {
    if module_file(path) {
        match file_stem_of(path) {
            Some(stem) => if valid_utf8(stem) {
                Some(stem)
            } else {
                None
            },
            None => None,
        }
    } else {
        None
    }
}

/// The module files whose module a sweep unloads.
pub open spec fn to_sweep() -> spec_fn(Seq<u8>) -> bool {
    |path: Seq<u8>| identity_of(path) matches Some(name) && !has_nul(name)
}

/// The module files whose identity cannot be handed to the kernel.
pub open spec fn not_to_sweep() -> spec_fn(Seq<u8>) -> bool {
    |path: Seq<u8>| identity_of(path) matches Some(name) && has_nul(name)
}

/// The file stem of a path, or nothing where it has none.
pub open spec fn stem_or_empty() -> spec_fn(Seq<u8>) -> Seq<u8> {
    |path: Seq<u8>|
        match file_stem_of(path) {
            Some(stem) => stem,
            None => Seq::empty(),
        }
}

/// The identities that a sweep over `entries` unloads, in order. A module
/// file whose stem is not text is passed over.
pub open spec fn sweep_plan(entries: Seq<Seq<u8>>) -> Seq<Seq<u8>> {
    entries.filter(to_sweep()).map_values(stem_or_empty())
}

/// How many module files among `entries` a sweep counts as failed without a
/// call.
pub open spec fn sweep_rejects(entries: Seq<Seq<u8>>) -> nat {
    entries.filter(not_to_sweep()).len()
}

/// The work lists that come out of a snapshot hold only what can be sent.
pub proof fn plans_are_sendable(entries: Seq<Seq<u8>>)
    ensures
        forall|i: int|
            0 <= i < load_plan(entries).len() ==> loadable(#[trigger] load_plan(entries)[i]),
        forall|i: int|
            0 <= i < sweep_plan(entries).len() ==> !has_nul(#[trigger] sweep_plan(entries)[i]),
        load_plan(entries).len() + load_rejects(entries) <= entries.len(),
        sweep_plan(entries).len() + sweep_rejects(entries) <= entries.len(),
{
    assert forall|i: int| 0 <= i < load_plan(entries).len() implies loadable(
        #[trigger] load_plan(entries)[i],
    ) by {
        entries.lemma_filter_pred(to_load(), i);
    }
    let kept = entries.filter(to_sweep());
    assert forall|i: int| 0 <= i < sweep_plan(entries).len() implies !has_nul(
        #[trigger] sweep_plan(entries)[i],
    ) by {
        entries.lemma_filter_pred(to_sweep(), i);
        assert(sweep_plan(entries)[i] == stem_or_empty()(kept[i]));
    }
    partition_fits(entries, to_load(), not_to_load());
    partition_fits(entries, to_sweep(), not_to_sweep());
}

/// Two filters that no element passes together keep no more than there is.
pub proof fn partition_fits<A>(s: Seq<A>, p: spec_fn(A) -> bool, q: spec_fn(A) -> bool)
    requires
        forall|a: A| !(#[trigger] p(a) && q(a)),
    ensures
        s.filter(p).len() + s.filter(q).len() <= s.len(),
    decreases s.len(),
{
    reveal(Seq::filter);
    if s.len() > 0 {
        partition_fits(s.drop_last(), p, q);
    }
}

/// Filtering one element more either appends it or changes nothing.
pub proof fn filter_take_step<A>(s: Seq<A>, pred: spec_fn(A) -> bool, i: int)
    requires
        0 <= i < s.len(),
    ensures
        s.take(i + 1).filter(pred) == if pred(s[i]) {
            s.take(i).filter(pred).push(s[i])
        } else {
            s.take(i).filter(pred)
        },
{
    reveal(Seq::filter);
    assert(s.take(i + 1).drop_last() =~= s.take(i));
}

/// Derives the identity of a module from the path of its file.
pub fn identity(path: &[u8]) -> (r: Option<&[u8]>)
    ensures
        r is Some <==> identity_of(path@) is Some,
        r matches Some(name) ==> identity_of(path@) == Some(name@),
{
    if !is_module_file(path) {
        return None;
    }
    match file_stem(path) {
        Some(stem) => if utf8_text(stem).is_some() {
            Some(stem)
        } else {
            None
        },
        None => None,
    }
}

/// Picks from the entries of the module directory the paths to load, and
/// counts the module files that cannot be loaded.
pub fn plan_bulk_load(entries: &[Vec<u8>]) -> (r: (Vec<Vec<u8>>, usize))
    ensures
        byte_views(r.0@) == load_plan(byte_views(entries@)),
        r.1 == load_rejects(byte_views(entries@)),
        r.0@.len() + r.1 <= entries@.len(),
{
    let ghost all = byte_views(entries@);
    let mut queue: Vec<Vec<u8>> = Vec::new();
    let mut rejected: usize = 0;
    let mut i: usize = 0;
    proof {
        reveal(Seq::filter);
        assert(all.take(0).filter(to_load()) =~= Seq::empty());
        assert(all.take(0).filter(not_to_load()) =~= Seq::empty());
        assert(byte_views(queue@) =~= Seq::empty());
    }
    while i < entries.len()
        invariant
            i <= entries.len(),
            all == byte_views(entries@),
            byte_views(queue@) == all.take(i as int).filter(to_load()),
            rejected == all.take(i as int).filter(not_to_load()).len(),
            queue@.len() + rejected <= i,
        decreases entries.len() - i,
    {
        let path = entries[i].as_slice();
        proof {
            filter_take_step(all, to_load(), i as int);
            filter_take_step(all, not_to_load(), i as int);
            assert(all[i as int] == path@);
        }
        if is_module_file(path) {
            let sendable = utf8_text(path).is_some() && !holds_nul(path);
            if sendable {
                let ghost before = byte_views(queue@);
                queue.push(slice_to_vec(path));
                assert(byte_views(queue@) =~= before.push(path@));
            } else {
                rejected = rejected + 1;
            }
        }
        i = i + 1;
    }
    assert(all.take(i as int) == all);
    (queue, rejected)
}

/// Picks from the entries of the module directory the identities to unload,
/// and counts the module files whose identity cannot be sent.
pub fn plan_sweep(entries: &[Vec<u8>]) -> (r: (Vec<Vec<u8>>, usize))
    ensures
        byte_views(r.0@) == sweep_plan(byte_views(entries@)),
        r.1 == sweep_rejects(byte_views(entries@)),
        r.0@.len() + r.1 <= entries@.len(),
{
    let ghost all = byte_views(entries@);
    let mut queue: Vec<Vec<u8>> = Vec::new();
    let mut rejected: usize = 0;
    let mut i: usize = 0;
    proof {
        reveal(Seq::filter);
        assert(all.take(0).filter(to_sweep()) =~= Seq::empty());
        assert(all.take(0).filter(not_to_sweep()) =~= Seq::empty());
        assert(byte_views(queue@) =~= Seq::<Seq<u8>>::empty().map_values(stem_or_empty()));
    }
    while i < entries.len()
        invariant
            i <= entries.len(),
            all == byte_views(entries@),
            byte_views(queue@) == all.take(i as int).filter(to_sweep()).map_values(
                stem_or_empty(),
            ),
            rejected == all.take(i as int).filter(not_to_sweep()).len(),
            queue@.len() + rejected <= i,
        decreases entries.len() - i,
    {
        let path = entries[i].as_slice();
        proof {
            filter_take_step(all, to_sweep(), i as int);
            filter_take_step(all, not_to_sweep(), i as int);
            assert(all[i as int] == path@);
        }
        match identity(path) {
            Some(name) => {
                if holds_nul(name) {
                    rejected = rejected + 1;
                } else {
                    let ghost before = byte_views(queue@);
                    let ghost kept = all.take(i as int).filter(to_sweep());
                    queue.push(slice_to_vec(name));
                    assert(byte_views(queue@) =~= before.push(name@));
                    assert(kept.push(path@).map_values(stem_or_empty()) =~= kept.map_values(
                        stem_or_empty(),
                    ).push(name@));
                }
            },
            None => {},
        }
        i = i + 1;
    }
    assert(all.take(i as int) == all);
    (queue, rejected)
}

} // verus!
