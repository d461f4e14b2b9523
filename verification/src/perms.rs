//! Permission classifier: decides, from an artifact's permission bits alone,
//! which cache partition a translated artifact belongs to and which directory
//! mode that partition's cache entries must carry.

use vstd::prelude::*;

use crate::LaunchError;

verus! {

/// Execute-by-others bit of a Unix permission mode.
pub const OTHER_EXECUTE: u32 = 0o0001;
/// Read-by-others bit.
pub const OTHER_READ: u32 = 0o0004;
/// Execute-by-group bit.
pub const GROUP_EXECUTE: u32 = 0o0010;
/// Read-by-group bit.
pub const GROUP_READ: u32 = 0o0040;
/// Execute-by-owner bit.
pub const USER_EXECUTE: u32 = 0o0100;

/// Directory mode for the world-accessible partition: rwx for everyone.
pub const MODE_ALL: u32 = 0o0777;
/// Directory mode for group partitions: rwx for owner and group only.
pub const MODE_OWNER_GROUP: u32 = 0o0770;
/// Directory mode for user partitions: rwx for the owner only.
pub const MODE_OWNER: u32 = 0o0700;

/// The cache subtree a translated artifact is stored under, keyed by which
/// principal is entitled to execute the original artifact. `Group` and `User`
/// carry the current group or user id, which becomes a path segment.
#[derive(Clone, Copy, PartialEq, Eq, Structural, Debug)]
pub enum CachePartition {
    /// Anybody may read and execute the artifact.
    Other,
    /// The owning group may read and execute the artifact.
    Group(u32),
    /// Only the owner may execute the artifact.
    User(u32),
}

/// The permission bits grant both read and execute to others.
pub open spec fn other_rx(mode: u32) -> bool {
    mode & (OTHER_READ | OTHER_EXECUTE) == OTHER_READ | OTHER_EXECUTE
}

/// The permission bits grant both read and execute to the group.
pub open spec fn group_rx(mode: u32) -> bool {
    mode & (GROUP_READ | GROUP_EXECUTE) == GROUP_READ | GROUP_EXECUTE
}

/// The permission bits grant execute to the owner.
pub open spec fn user_x(mode: u32) -> bool {
    mode & USER_EXECUTE == USER_EXECUTE
}

/// What `classify` returns for given permission bits and ids: the partition
/// with the widest audience still entitled to execute the artifact, together
/// with the directory mode all of that partition's cache entries must carry.
pub open spec fn classify_spec(mode: u32, uid: u32, gid: u32) -> Result<
    (CachePartition, u32),
    LaunchError,
> {
    if other_rx(mode) {
        Ok((CachePartition::Other, MODE_ALL))
    } else if group_rx(mode) {
        Ok((CachePartition::Group(gid), MODE_OWNER_GROUP))
    } else if user_x(mode) {
        Ok((CachePartition::User(uid), MODE_OWNER))
    } else {
        Err(LaunchError::PermissionDenied)
    }
}

/// Select the cache partition and directory mode for an artifact from its
/// permission bits. The selection is a total function of the bits: world
/// read+execute wins over group read+execute, which wins over owner execute;
/// an artifact executable by no principal is rejected, so a translation is
/// never cached on behalf of someone who could not run the original.
pub fn classify(mode: u32, uid: u32, gid: u32) -> (r: Result<(CachePartition, u32), LaunchError>)
    ensures
        r == classify_spec(mode, uid, gid),
        other_rx(mode) ==> r == Ok::<_, LaunchError>((CachePartition::Other, MODE_ALL)),
        !other_rx(mode) && group_rx(mode) ==> r == Ok::<_, LaunchError>(
            (CachePartition::Group(gid), MODE_OWNER_GROUP),
        ),
        !other_rx(mode) && !group_rx(mode) && user_x(mode) ==> r == Ok::<_, LaunchError>(
            (CachePartition::User(uid), MODE_OWNER),
        ),
        !other_rx(mode) && !group_rx(mode) && !user_x(mode) ==> r == Err::<(CachePartition, u32), _>(
            LaunchError::PermissionDenied,
        ),
{
    if mode & (OTHER_READ | OTHER_EXECUTE) == OTHER_READ | OTHER_EXECUTE {
        Ok((CachePartition::Other, MODE_ALL))
    } else if mode & (GROUP_READ | GROUP_EXECUTE) == GROUP_READ | GROUP_EXECUTE {
        Ok((CachePartition::Group(gid), MODE_OWNER_GROUP))
    } else if mode & USER_EXECUTE == USER_EXECUTE {
        Ok((CachePartition::User(uid), MODE_OWNER))
    } else {
        Err(LaunchError::PermissionDenied)
    }
}

} // verus!
