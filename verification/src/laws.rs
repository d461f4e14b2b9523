//! The cache's global guarantees, stated and proved once over the path and
//! classifier specifications.

use vstd::prelude::*;

use crate::LaunchError;
use crate::cache::CachePlan;
use crate::cache::cache_plan_ok;
use crate::cache::entry_dir_spec;
use crate::cache::partition_dir_spec;
use crate::cache::translated_name_spec;
use crate::cache::translated_path_spec;
use crate::digest::sha512_hex_of;
use crate::perms::CachePartition;
use crate::perms::MODE_ALL;
use crate::perms::MODE_OWNER;
use crate::perms::MODE_OWNER_GROUP;
use crate::perms::classify_spec;

verus! {

/// Sequences of equal length that differ somewhere stay distinct under any
/// shared prefix and suffix.
proof fn lemma_concat_mid_distinct(p: Seq<char>, a: Seq<char>, b: Seq<char>, s: Seq<char>)
    requires
        a.len() == b.len(),
        a != b,
    ensures
        p + a + s != p + b + s,
{
    assert(exists|i: int| 0 <= i < a.len() && a[i] != b[i]) by {
        if forall|i: int| 0 <= i < a.len() ==> a[i] == b[i] {
            assert(a =~= b);
        }
    }
    let i = choose|i: int| 0 <= i < a.len() && a[i] != b[i];
    assert((p + a + s)[p.len() + i] == a[i]);
    assert((p + b + s)[p.len() + i] == b[i]);
}

/// Law: the resolved cache location is deterministic in the artifact's
/// contents — hashing the same bytes twice yields the same entry directory
/// and the same translated path.
pub proof fn lemma_digest_deterministic(
    base: Seq<char>,
    p: CachePartition,
    a: Seq<u8>,
    b: Seq<u8>,
    name: Seq<char>,
)
    requires
        a == b,
    ensures
        entry_dir_spec(base, p, sha512_hex_of(a)) == entry_dir_spec(base, p, sha512_hex_of(b)),
        translated_path_spec(base, p, sha512_hex_of(a), name) == translated_path_spec(
            base,
            p,
            sha512_hex_of(b),
            name,
        ),
{
}

/// Law: distinct digests give distinct cache locations — within one
/// partition, two artifacts whose digests differ can never share an entry
/// directory or a translated path. Digest strings all have the fixed SHA-512
/// hex width, which `sha512_hex` guarantees of every digest it returns.
pub proof fn lemma_distinct_digests_distinct_paths(
    base: Seq<char>,
    p: CachePartition,
    d1: Seq<char>,
    d2: Seq<char>,
    name: Seq<char>,
)
    requires
        d1.len() == d2.len(),
        d1 != d2,
    ensures
        entry_dir_spec(base, p, d1) != entry_dir_spec(base, p, d2),
        translated_path_spec(base, p, d1, name) != translated_path_spec(base, p, d2, name),
{
    let pre = partition_dir_spec(base, p) + seq!['/'];
    let suffix = seq!['/'] + translated_name_spec(name);
    assert(entry_dir_spec(base, p, d1) =~= pre + d1 + Seq::<char>::empty());
    assert(entry_dir_spec(base, p, d2) =~= pre + d2 + Seq::<char>::empty());
    lemma_concat_mid_distinct(pre, d1, d2, Seq::<char>::empty());
    assert(translated_path_spec(base, p, d1, name) =~= pre + d1 + suffix);
    assert(translated_path_spec(base, p, d2, name) =~= pre + d2 + suffix);
    lemma_concat_mid_distinct(pre, d1, d2, suffix);
}

/// Law: a cache entry is exactly as accessible as its partition — under
/// `Other` every directory of the entry's chain below the cache root is
/// world-accessible, under `Group` they are open to owner and group only,
/// and under `User` to the owner only.
pub proof fn lemma_partition_modes(
    r: CachePlan,
    base: Seq<char>,
    mode_bits: u32,
    uid: u32,
    gid: u32,
    digest: Seq<char>,
    name: Seq<char>,
    part: CachePartition,
    dir_mode: u32,
)
    requires
        classify_spec(mode_bits, uid, gid) == Ok::<_, LaunchError>((part, dir_mode)),
        cache_plan_ok(r, base, part, dir_mode, digest, name),
    ensures
        part is Other ==> forall|i: int| 1 <= i < r.dirs@.len() ==> r.dirs@[i].mode == MODE_ALL,
        part is Group ==> forall|i: int|
            1 <= i < r.dirs@.len() ==> r.dirs@[i].mode == MODE_OWNER_GROUP,
        part is User ==> forall|i: int| 1 <= i < r.dirs@.len() ==> r.dirs@[i].mode == MODE_OWNER,
{
}

} // verus!
