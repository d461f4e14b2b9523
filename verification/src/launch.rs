//! The front half of the launcher pipeline: classify the artifact's
//! permission bits, then resolve its content-addressed cache location.

use vstd::prelude::*;

use crate::LaunchError;
use crate::cache::CachePlan;
use crate::cache::cache_plan_ok;
use crate::cache::resolve;
use crate::digest::sha512_hex_of;
use crate::perms::CachePartition;
use crate::perms::classify;
use crate::perms::classify_spec;

verus! {

/// A classified artifact together with its resolved cache location: the
/// partition it caches under, the directory mode every entry of that
/// partition carries, and the directory and path plan.
pub struct Prepared {
    /// The partition the artifact caches under.
    pub partition: CachePartition,
    /// The partition's directory mode, also applied to the translated
    /// artifact after a successful translation.
    pub dir_mode: u32,
    /// The directories to ensure and the entry paths.
    pub plan: CachePlan,
}

/// Classify an artifact and resolve where its translation is cached: an
/// artifact nobody may execute is rejected before anything touches the
/// cache; otherwise the entry lands in the partition the permission bits
/// select, keyed by the digest of the artifact's bytes.
pub fn prepare(
    mode_bits: u32,
    uid: u32,
    gid: u32,
    base: &str,
    artifact: &[u8],
    name: &str,
) -> (r: Result<Prepared, LaunchError>)
    ensures
        r is Ok <==> classify_spec(mode_bits, uid, gid) is Ok,
        r is Err ==> r == Err::<Prepared, _>(LaunchError::PermissionDenied),
        r matches Ok(prep) ==> {
            &&& classify_spec(mode_bits, uid, gid) == Ok::<_, LaunchError>(
                (prep.partition, prep.dir_mode),
            )
            &&& cache_plan_ok(
                prep.plan,
                base@,
                prep.partition,
                prep.dir_mode,
                sha512_hex_of(artifact@),
                name@,
            )
        },
{
    match classify(mode_bits, uid, gid) {
        Ok((partition, dir_mode)) => {
            let plan = resolve(base, &partition, dir_mode, artifact, name);
            Ok(Prepared { partition, dir_mode, plan })
        },
        Err(e) => Err(e),
    }
}

} // verus!
