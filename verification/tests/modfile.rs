use kpm::modfile::{
    extension, file_name, file_stem, find_kpm_file, is_module_file, same_bytes, KPM_DIR,
};
use kpm::plan::{identity, plan_bulk_load, plan_sweep};
use std::path::Path;

fn paths(list: &[&[u8]]) -> Vec<Vec<u8>> {
    list.iter().map(|p| p.to_vec()).collect()
}

#[test]
fn module_directory() {
    assert_eq!(KPM_DIR, "/data/adb/kpm");
}

#[test]
fn file_name_is_what_follows_the_last_separator() {
    assert_eq!(file_name(b"/data/adb/kpm/foo.kpm"), Some(&b"foo.kpm"[..]));
    assert_eq!(file_name(b"foo.kpm"), Some(&b"foo.kpm"[..]));
    assert_eq!(file_name(b"/foo"), Some(&b"foo"[..]));
    assert_eq!(file_name(b"a/b/.hidden"), Some(&b".hidden"[..]));
}

#[test]
fn some_paths_name_no_file() {
    assert_eq!(file_name(b""), None);
    assert_eq!(file_name(b"/"), None);
    assert_eq!(file_name(b"/data/adb/kpm/"), None);
    assert_eq!(file_name(b".."), None);
    assert_eq!(file_name(b"/data/.."), None);
    assert_eq!(file_name(b"."), None);
    assert_eq!(file_name(b"/data/."), None);
}

#[test]
fn extension_follows_the_last_dot() {
    assert_eq!(extension(b"/data/adb/kpm/foo.kpm"), Some(&b"kpm"[..]));
    assert_eq!(extension(b"foo.tar.gz"), Some(&b"gz"[..]));
    assert_eq!(extension(b"foo."), Some(&b""[..]));
    assert_eq!(extension(b"..."), Some(&b""[..]));
    assert_eq!(extension(b"..kpm"), Some(&b"kpm"[..]));
}

#[test]
fn some_names_have_no_extension() {
    assert_eq!(extension(b"foo"), None);
    assert_eq!(extension(b".kpm"), None);
    assert_eq!(extension(b"/data/adb/kpm/.kpm"), None);
    assert_eq!(extension(b"dir.d/foo"), None);
    assert_eq!(extension(b""), None);
    assert_eq!(extension(b".."), None);
    assert_eq!(extension(b"foo.kpm/"), None);
}

#[test]
fn stem_precedes_the_last_dot() {
    assert_eq!(file_stem(b"/data/adb/kpm/foo.kpm"), Some(&b"foo"[..]));
    assert_eq!(file_stem(b"foo.tar.kpm"), Some(&b"foo.tar"[..]));
    assert_eq!(file_stem(b"foo"), Some(&b"foo"[..]));
    assert_eq!(file_stem(b".kpm"), Some(&b".kpm"[..]));
    assert_eq!(file_stem(b"foo."), Some(&b"foo"[..]));
    assert_eq!(file_stem(b"..kpm"), Some(&b"."[..]));
    assert_eq!(file_stem(b""), None);
    assert_eq!(file_stem(b"/data/"), None);
    assert_eq!(file_stem(b".."), None);
}

#[test]
fn path_analysis_agrees_with_the_platform() {
    for text in [
        "/data/adb/kpm/foo.kpm",
        "foo.kpm",
        "foo.tar.kpm",
        ".kpm",
        "..kpm",
        "foo.",
        "foo",
        "...",
        "/data/adb/kpm/a.b.c",
        "/data/adb/kpm/.hidden.kpm",
        "x/y.kpm",
        "c.txt",
    ] {
        let path = Path::new(text);
        let name = path.file_name().map(|s| s.to_str().unwrap().as_bytes());
        let stem = path.file_stem().map(|s| s.to_str().unwrap().as_bytes());
        let ext = path.extension().map(|s| s.to_str().unwrap().as_bytes());
        assert_eq!(file_name(text.as_bytes()), name, "{}", text);
        assert_eq!(file_stem(text.as_bytes()), stem, "{}", text);
        assert_eq!(extension(text.as_bytes()), ext, "{}", text);
    }
}

#[test]
fn module_files_carry_the_module_extension() {
    assert!(is_module_file(b"/data/adb/kpm/foo.kpm"));
    assert!(is_module_file(b"a.kpm"));
    assert!(is_module_file(b"a.b.kpm"));
    assert!(!is_module_file(b"c.txt"));
    assert!(!is_module_file(b".kpm"));
    assert!(!is_module_file(b"kpm"));
    assert!(!is_module_file(b"a.KPM"));
    assert!(!is_module_file(b"a.kpm.bak"));
    assert!(!is_module_file(b"a.kpmx"));
    assert!(!is_module_file(b"a.kp"));
    assert!(!is_module_file(b"/data/adb/kpm/"));
    assert!(!is_module_file(b""));
}

#[test]
fn same_bytes_compares_content() {
    assert!(same_bytes(b"foo", b"foo"));
    assert!(same_bytes(b"", b""));
    assert!(!same_bytes(b"foo", b"fop"));
    assert!(!same_bytes(b"foo", b"fo"));
    assert!(!same_bytes(b"", b"a"));
}

#[test]
fn find_kpm_file_finds_the_first_file_of_the_module() {
    let entries = paths(&[
        b"/data/adb/kpm/a.kpm",
        b"/data/adb/kpm/foo.txt",
        b"/data/adb/kpm/foo.kpm",
        b"/data/adb/kpm/b.kpm",
        b"/other/foo.kpm",
    ]);
    assert_eq!(find_kpm_file(b"foo", &entries), Some(2));
    assert_eq!(find_kpm_file(b"a", &entries), Some(0));
    assert_eq!(find_kpm_file(b"b", &entries), Some(3));
}

#[test]
fn find_kpm_file_finds_nothing_where_there_is_no_such_file() {
    let entries = paths(&[b"/data/adb/kpm/a.kpm", b"/data/adb/kpm/foo.txt", b"/data/adb/kpm/foo"]);
    assert_eq!(find_kpm_file(b"foo", &entries), None);
    assert_eq!(find_kpm_file(b"", &entries), None);
    assert_eq!(find_kpm_file(b"a.kpm", &entries), None);
    assert_eq!(find_kpm_file(b"a", &[]), None);
}

#[test]
fn identity_is_the_stem_of_a_module_file() {
    assert_eq!(identity(b"/data/adb/kpm/foo.kpm"), Some(&b"foo"[..]));
    assert_eq!(identity(b"a.b.kpm"), Some(&b"a.b"[..]));
    assert_eq!(identity(b"c.txt"), None);
    assert_eq!(identity(b".kpm"), None);
    assert_eq!(identity(b"foo"), None);
}

#[test]
fn identity_must_be_text() {
    assert_eq!(identity(b"/data/adb/kpm/\xff\xfe.kpm"), None);
    assert_eq!(identity("/data/adb/kpm/模块.kpm".as_bytes()), Some("模块".as_bytes()));
}

#[test]
fn bulk_plan_keeps_the_module_files_in_order() {
    let entries = paths(&[
        b"/data/adb/kpm/a.kpm",
        b"/data/adb/kpm/c.txt",
        b"/data/adb/kpm/b.kpm",
        b"/data/adb/kpm/.kpm",
    ]);
    let (queue, rejected) = plan_bulk_load(&entries);
    assert_eq!(queue, paths(&[b"/data/adb/kpm/a.kpm", b"/data/adb/kpm/b.kpm"]));
    assert_eq!(rejected, 0);
}

#[test]
fn bulk_plan_counts_the_module_files_it_cannot_send() {
    let entries = paths(&[
        b"/data/adb/kpm/\xff.kpm",
        b"/data/adb/kpm/a.kpm",
        b"/data/adb/kpm/x\0y.kpm",
        b"/data/adb/kpm/\xff.txt",
    ]);
    let (queue, rejected) = plan_bulk_load(&entries);
    assert_eq!(queue, paths(&[b"/data/adb/kpm/a.kpm"]));
    assert_eq!(rejected, 2);
}

#[test]
fn sweep_plan_keeps_the_identities_in_order() {
    let entries = paths(&[
        b"/data/adb/kpm/a.kpm",
        b"/data/adb/kpm/c.txt",
        b"/data/adb/kpm/b.kpm",
        b"/data/adb/kpm/\xff.kpm",
        b"/data/adb/kpm/x\0y.kpm",
    ]);
    let (queue, rejected) = plan_sweep(&entries);
    assert_eq!(queue, paths(&[b"a", b"b"]));
    assert_eq!(rejected, 1);
}

#[test]
fn plans_of_an_empty_directory_are_empty() {
    assert_eq!(plan_bulk_load(&[]), (vec![], 0));
    assert_eq!(plan_sweep(&[]), (vec![], 0));
}

#[test]
fn the_file_of_a_module_is_found_under_its_name() {
    for name in ["foo", "a.b", ".", "x y", "模块", "kpm"] {
        let path = format!("/data/adb/kpm/{}.kpm", name).into_bytes();
        assert!(is_module_file(&path));
        assert_eq!(file_stem(&path), Some(name.as_bytes()));
        assert_eq!(identity(&path), Some(name.as_bytes()));
        assert_eq!(find_kpm_file(name.as_bytes(), &[path.clone()]), Some(0));
        assert_eq!(find_kpm_file(b"other", &[path]), None);
    }
}

#[test]
fn nothing_is_stripped_from_the_end_of_a_path() {
    assert_eq!(file_name(b"/data/adb/kpm/foo.kpm/"), None);
    assert_eq!(file_name(b"/data/adb/kpm/foo.kpm/."), None);
    assert_eq!(file_name(b"/data/adb/kpm/foo.kpm//"), None);
    assert!(!is_module_file(b"/data/adb/kpm/foo.kpm/"));
    assert!(!is_module_file(b"/data/adb/kpm/foo.kpm/."));
    assert_eq!(identity(b"/data/adb/kpm/foo.kpm/"), None);
}
