//! Module files: how the path of a file tells whether it holds a module, and
//! which. Paths are byte strings, taken as directory enumeration and the
//! watcher give them: a directory, a separator, a file name. Nothing is
//! stripped from the end of a path and nothing in it is resolved, so a path
//! that ends in a separator or in `/.` names no file here, even where the
//! platform would read a file name out of it.

use vstd::prelude::*;
use vstd::slice::*;

verus! {

/// The directory that holds the module files.
pub const KPM_DIR: &'static str = "/data/adb/kpm";

/// `/`, which parts a directory from what lies in it.
pub const SEPARATOR: u8 = 0x2f;

/// `.`, which parts a file's stem from its extension.
pub const DOT: u8 = 0x2e;

/// The extension that marks a file as a module: `kpm`.
pub open spec fn module_extension() -> Seq<u8> {
    seq![0x6bu8, 0x70u8, 0x6du8]
}

/// Where the final component of `path` begins, looking back from `end`: just
/// after the last separator, or at the start if there is none.
pub open spec fn name_start(path: Seq<u8>, end: int) -> int
    decreases end,
{
    if end <= 0 || end > path.len() || path[end - 1] == SEPARATOR {
        end
    } else {
        name_start(path, end - 1)
    }
}

/// What follows the last separator of `path`.
pub open spec fn base_name(path: Seq<u8>) -> Seq<u8> {
    path.skip(name_start(path, path.len() as int))
}

/// The index of the last dot before `end`, or -1 if there is none.
pub open spec fn last_dot(name: Seq<u8>, end: int) -> int
    decreases end,
{
    if end <= 0 || end > name.len() {
        -1
    } else if name[end - 1] == DOT {
        end - 1
    } else {
        last_dot(name, end - 1)
    }
}

/// The name of the file that `path` leads to: what follows its last
/// separator. The path is taken as directory enumeration gives it, with the
/// file name at its very end: trailing separators and a trailing `/.` are
/// not stripped. So a path that ends in a separator, in `.` or in `..` names
/// no file.
pub open spec fn file_name_of(path: Seq<u8>) -> Option<Seq<u8>> {
    let name = base_name(path);
    if name.len() == 0 || name == seq![DOT] || name == seq![DOT, DOT] {
        None
    } else {
        Some(name)
    }
}

/// The file name without its extension: what precedes the last dot, or the
/// whole name where it holds no dot or only a leading one.
pub open spec fn file_stem_of(path: Seq<u8>) -> Option<Seq<u8>> {
    match file_name_of(path) {
        None => None,
        Some(name) => {
            let dot = last_dot(name, name.len() as int);
            if dot <= 0 {
                Some(name)
            } else {
                Some(name.take(dot))
            }
        },
    }
}

/// The extension of the file name: what follows the last dot, unless the name
/// holds no dot or only a leading one.
pub open spec fn extension_of(path: Seq<u8>) -> Option<Seq<u8>> {
    match file_name_of(path) {
        None => None,
        Some(name) => {
            let dot = last_dot(name, name.len() as int);
            if dot <= 0 {
                None
            } else {
                Some(name.skip(dot + 1))
            }
        },
    }
}

/// Whether `path` leads to a module file: its extension is `kpm`.
pub open spec fn module_file(path: Seq<u8>) -> bool {
    extension_of(path) == Some(module_extension())
}

/// Whether the module file at `path` is the one of the module `name`.
pub open spec fn backs(name: Seq<u8>, path: Seq<u8>) -> bool {
    module_file(path) && file_stem_of(path) == Some(name)
}

/// A list of byte strings, each taken as a sequence.
pub open spec fn byte_views(list: Seq<Vec<u8>>) -> Seq<Seq<u8>> {
    list.map_values(|bytes: Vec<u8>| bytes@)
}

/// Where the last dot of `name` stands, if it has one.
fn find_last_dot(name: &[u8]) -> (r: Option<usize>)
    ensures
        match r {
            Some(dot) => dot < name@.len() && dot == last_dot(name@, name@.len() as int),
            None => last_dot(name@, name@.len() as int) == -1,
        },
{
    let mut end: usize = name.len();
    while end > 0 && name[end - 1] != DOT
        invariant
            end <= name.len(),
            last_dot(name@, name@.len() as int) == last_dot(name@, end as int),
        decreases end,
    {
        end = end - 1;
    }
    if end == 0 {
        None
    } else {
        Some(end - 1)
    }
}

/// The name of the file that `path` leads to: what follows its last
/// separator. Nothing is stripped from the end of the path, so one that ends
/// in a separator, in `.` or in `..` names no file.
pub fn file_name(path: &[u8]) -> (r: Option<&[u8]>)
    ensures
        r is Some <==> file_name_of(path@) is Some,
        r matches Some(name) ==> file_name_of(path@) == Some(name@),
{
    let mut start: usize = path.len();
    while start > 0 && path[start - 1] != SEPARATOR
        invariant
            start <= path.len(),
            name_start(path@, path@.len() as int) == name_start(path@, start as int),
        decreases start,
    {
        start = start - 1;
    }
    let name = slice_subrange(path, start, path.len());
    assert(name@ == base_name(path@));
    let n = name.len();
    if n == 0 {
        None
    } else if n == 1 && name[0] == DOT {
        assert(name@ =~= seq![DOT]);
        None
    } else if n == 2 && name[0] == DOT && name[1] == DOT {
        assert(name@ =~= seq![DOT, DOT]);
        None
    } else {
        assert(name@ != seq![DOT]) by {
            if name@ == seq![DOT] {
                assert(name@.len() == 1 && name@[0] == DOT);
            }
        }
        assert(name@ != seq![DOT, DOT]) by {
            if name@ == seq![DOT, DOT] {
                assert(name@.len() == 2 && name@[0] == DOT && name@[1] == DOT);
            }
        }
        Some(name)
    }
}

/// The file name of `path` without its extension.
pub fn file_stem(path: &[u8]) -> (r: Option<&[u8]>)
    ensures
        r is Some <==> file_stem_of(path@) is Some,
        r matches Some(stem) ==> file_stem_of(path@) == Some(stem@),
{
    match file_name(path) {
        None => None,
        Some(name) => match find_last_dot(name) {
            None => Some(name),
            Some(dot) => if dot == 0 {
                Some(name)
            } else {
                Some(slice_subrange(name, 0, dot))
            },
        },
    }
}

/// The extension of the file name of `path`.
pub fn extension(path: &[u8]) -> (r: Option<&[u8]>)
    ensures
        r is Some <==> extension_of(path@) is Some,
        r matches Some(ext) ==> extension_of(path@) == Some(ext@),
{
    match file_name(path) {
        None => None,
        Some(name) => match find_last_dot(name) {
            None => None,
            Some(dot) => {
                let end = name.len();
                if dot == 0 {
                    None
                } else {
                    Some(slice_subrange(name, dot + 1, end))
                }
            },
        },
    }
}

/// Whether `path` leads to a module file.
pub fn is_module_file(path: &[u8]) -> (r: bool)
    ensures
        r == module_file(path@),
{
    match extension(path) {
        None => false,
        Some(ext) => {
            if ext.len() == 3 && ext[0] == 0x6b && ext[1] == 0x70 && ext[2] == 0x6d {
                assert(ext@ =~= module_extension());
                true
            } else {
                assert(ext@ != module_extension()) by {
                    if ext@ == module_extension() {
                        assert(ext@.len() == 3 && ext@[0] == 0x6bu8 && ext@[1] == 0x70u8 && ext@[2]
                            == 0x6du8);
                    }
                }
                false
            }
        },
    }
}

/// Whether two byte strings are the same.
pub fn same_bytes(a: &[u8], b: &[u8]) -> (r: bool)
    ensures
        r == (a@ == b@),
{
    if a.len() != b.len() {
        return false;
    }
    let mut i: usize = 0;
    while i < a.len()
        invariant
            i <= a.len(),
            a.len() == b.len(),
            forall|j: int| 0 <= j < i ==> a@[j] == b@[j],
        decreases a.len() - i,
    {
        if a[i] != b[i] {
            return false;
        }
        i = i + 1;
    }
    assert(a@ =~= b@);
    true
}

/// The index of the first entry at or after `from` that is the module file of
/// the module `name`, if there is one.
pub open spec fn backing_index(name: Seq<u8>, entries: Seq<Seq<u8>>, from: int) -> Option<int>
    decreases entries.len() - from,
{
    if from < 0 || from >= entries.len() {
        None
    } else if backs(name, entries[from]) {
        Some(from)
    } else {
        backing_index(name, entries, from + 1)
    }
}

/// `backing_index` finds a module file of `name`, finds the first one, and
/// finds none only where there is none.
pub proof fn backing_index_is_first(name: Seq<u8>, entries: Seq<Seq<u8>>, from: int)
    requires
        0 <= from,
    ensures
        match backing_index(name, entries, from) {
            Some(at) => from <= at < entries.len() && backs(name, entries[at]) && forall|j: int|
                from <= j < at ==> !backs(name, #[trigger] entries[j]),
            None => forall|j: int| from <= j < entries.len() ==> !backs(name, #[trigger] entries[j]),
        },
    decreases entries.len() - from,
{
    if from < entries.len() && !backs(name, entries[from]) {
        backing_index_is_first(name, entries, from + 1);
    }
}

/// Finds the module file of the module `name` among the entries of the module
/// directory: the first entry with the module extension whose stem is `name`.
pub fn find_kpm_file(name: &[u8], entries: &[Vec<u8>]) -> (r: Option<usize>)
    ensures
        match r {
            Some(at) => backing_index(name@, byte_views(entries@), 0) == Some(at as int),
            None => backing_index(name@, byte_views(entries@), 0) is None,
        },
        r matches Some(at) ==> at < entries@.len() && backs(name@, entries@[at as int]@),
{
    let ghost all = byte_views(entries@);
    let mut i: usize = 0;
    while i < entries.len()
        invariant
            i <= entries.len(),
            all == byte_views(entries@),
            backing_index(name@, all, 0) == backing_index(name@, all, i as int),
        decreases entries.len() - i,
    {
        let path = entries[i].as_slice();
        assert(all[i as int] == path@);
        if is_module_file(path) {
            match file_stem(path) {
                Some(stem) => {
                    if same_bytes(stem, name) {
                        return Some(i);
                    }
                },
                None => {},
            }
        }
        i = i + 1;
    }
    None
}

/// The path of the file that holds the module `name` in the directory `dir`.
pub open spec fn path_of_module(dir: Seq<u8>, name: Seq<u8>) -> Seq<u8> {
    dir + seq![SEPARATOR] + name + seq![DOT] + module_extension()
}

/// The final component begins at `start` if a separator stands before it and
/// none within it.
pub proof fn name_starts_at(path: Seq<u8>, start: int, end: int)
    requires
        0 <= start <= end <= path.len(),
        start == 0 || path[start - 1] == SEPARATOR,
        forall|k: int| start <= k < end ==> path[k] != SEPARATOR,
    ensures
        name_start(path, end) == start,
    decreases end - start,
{
    if start < end {
        name_starts_at(path, start, end - 1);
    }
}

/// The last dot stands at `dot` if one stands there and none after it.
pub proof fn last_dot_at(name: Seq<u8>, dot: int, end: int)
    requires
        0 <= dot < end <= name.len(),
        name[dot] == DOT,
        forall|k: int| dot < k < end ==> name[k] != DOT,
    ensures
        last_dot(name, end) == dot,
    decreases end - dot,
{
    if dot + 1 < end {
        last_dot_at(name, dot, end - 1);
    }
}

/// Where `last_dot` finds a dot, a dot stands there.
pub proof fn last_dot_is_a_dot(name: Seq<u8>, end: int)
    requires
        end <= name.len(),
    ensures
        last_dot(name, end) >= 0 ==> last_dot(name, end) < end && name[last_dot(name, end)]
            == DOT,
    decreases end,
{
    if end > 0 && name[end - 1] != DOT {
        last_dot_is_a_dot(name, end - 1);
    }
}

/// Identity and file name determine each other. The file that holds the
/// module `name` is a module file with `name` as its stem, in whatever
/// directory it lies; and a module file holds the module `name` only if its
/// file name is `name` followed by a dot and the module extension.
pub proof fn identity_is_one_to_one(dir: Seq<u8>, name: Seq<u8>, path: Seq<u8>)
    requires
        name.len() > 0,
        forall|k: int| 0 <= k < name.len() ==> name[k] != SEPARATOR,
    ensures
        backs(name, path_of_module(dir, name)),
        backs(name, path) ==> base_name(path) == name + seq![DOT] + module_extension(),
{
    let own = path_of_module(dir, name);
    let file = name + seq![DOT] + module_extension();
    let start = dir.len() as int + 1;
    assert(own[start - 1] == SEPARATOR);
    assert forall|k: int| start <= k < own.len() implies own[k] != SEPARATOR by {
        assert(own[k] == file[k - start]);
    }
    name_starts_at(own, start, own.len() as int);
    assert(base_name(own) =~= file);
    assert(file.len() == name.len() + 4);
    assert(file != seq![DOT]);
    assert(file != seq![DOT, DOT]);
    let dot = name.len() as int;
    assert(file[dot] == DOT);
    last_dot_at(file, dot, file.len() as int);
    assert(file.take(dot) =~= name);
    assert(file.skip(dot + 1) =~= module_extension());
    if backs(name, path) {
        let other = base_name(path);
        let at = last_dot(other, other.len() as int);
        last_dot_is_a_dot(other, other.len() as int);
        assert(other =~= other.take(at) + seq![DOT] + other.skip(at + 1));
    }
}

} // verus!
