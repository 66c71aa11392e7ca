use kpm::guardian::{required_mode_change, REQUIRED_MODE};

#[test]
fn required_mode_is_everything_for_everyone() {
    assert_eq!(REQUIRED_MODE, 0o777);
}

#[test]
fn a_sufficient_mode_is_left_alone() {
    assert_eq!(required_mode_change(0o777), None);
    assert_eq!(required_mode_change(0o040777), None);
    assert_eq!(required_mode_change(0o041777), None);
    assert_eq!(required_mode_change(u32::MAX), None);
}

#[test]
fn an_insufficient_mode_is_rewritten() {
    assert_eq!(required_mode_change(0o755), Some(0o777));
    assert_eq!(required_mode_change(0o040755), Some(0o777));
    assert_eq!(required_mode_change(0o775), Some(0o777));
    assert_eq!(required_mode_change(0o776), Some(0o777));
    assert_eq!(required_mode_change(0o700), Some(0o777));
    assert_eq!(required_mode_change(0), Some(0o777));
    assert_eq!(required_mode_change(0o7000), Some(0o777));
}

#[test]
fn the_rewritten_mode_needs_no_rewriting() {
    for mode in [0u32, 0o755, 0o040700, 0o100644, 0o7000] {
        if let Some(fix) = required_mode_change(mode) {
            assert_eq!(required_mode_change((mode & !0o7777) | fix), None);
            assert_eq!(required_mode_change(mode | fix), None);
        }
    }
}
