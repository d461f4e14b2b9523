use pexe_runner::CachePartition;
use pexe_runner::LaunchError;
use pexe_runner::classify;

#[test]
fn world_readable_executable_selects_other() {
    // other has read+execute: partition Other, world-accessible mode.
    assert_eq!(classify(0o755, 10, 20), Ok((CachePartition::Other, 0o777)));
}

#[test]
fn other_takes_precedence_over_group_and_user() {
    // All principals could run it; the widest audience wins regardless of
    // the owner and group bits also being set.
    assert_eq!(classify(0o777, 1, 2), Ok((CachePartition::Other, 0o777)));
    assert_eq!(classify(0o775, 1, 2), Ok((CachePartition::Other, 0o777)));
}

#[test]
fn group_readable_executable_selects_group() {
    // No other read+execute pair, but the group has both.
    assert_eq!(
        classify(0o750, 10, 20),
        Ok((CachePartition::Group(20), 0o770))
    );
}

#[test]
fn group_needs_both_read_and_execute() {
    // Group execute without group read falls through to the owner.
    assert_eq!(classify(0o710, 10, 20), Ok((CachePartition::User(10), 0o700)));
    // Group read without group execute falls through too.
    assert_eq!(classify(0o740, 10, 20), Ok((CachePartition::User(10), 0o700)));
}

#[test]
fn other_needs_both_read_and_execute() {
    // Other execute without other read is not enough for the Other
    // partition; group read+execute catches it instead.
    assert_eq!(
        classify(0o751, 10, 20),
        Ok((CachePartition::Group(20), 0o770))
    );
}

#[test]
fn owner_executable_selects_user() {
    assert_eq!(classify(0o700, 10, 20), Ok((CachePartition::User(10), 0o700)));
    assert_eq!(classify(0o100, 10, 20), Ok((CachePartition::User(10), 0o700)));
}

#[test]
fn no_execute_bit_is_permission_denied() {
    assert_eq!(classify(0o644, 10, 20), Err(LaunchError::PermissionDenied));
    assert_eq!(classify(0o000, 10, 20), Err(LaunchError::PermissionDenied));
    // Read bits everywhere still do not make it executable.
    assert_eq!(classify(0o444, 10, 20), Err(LaunchError::PermissionDenied));
}

#[test]
fn setuid_style_high_bits_are_ignored() {
    // Only the rwx bits decide; higher mode bits change nothing.
    assert_eq!(classify(0o4755, 10, 20), Ok((CachePartition::Other, 0o777)));
}
