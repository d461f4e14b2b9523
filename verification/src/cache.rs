//! Content-addressed cache store: maps a partition and an artifact digest to
//! the cache entry directory and the translated artifact's path inside it,
//! and plans which directories must exist with which permission mode.

use vstd::prelude::*;

use crate::digest::sha512_hex;
use crate::digest::sha512_hex_of;
use crate::numfmt::dec_rep;
use crate::numfmt::u32_to_dec;
use crate::perms::CachePartition;
use crate::perms::MODE_ALL;

verus! {

/// A path below a directory: the directory, a separator, the new segment.
pub open spec fn path_join(dir: Seq<char>, segment: Seq<char>) -> Seq<char> {
    dir + seq!['/'] + segment
}

/// The cache root below the base directory.
pub open spec fn cache_root_spec(base: Seq<char>) -> Seq<char> {
    path_join(base, "pexe-runner-cache"@)
}

/// The path segment that names a partition's subtree.
pub open spec fn partition_name(p: CachePartition) -> Seq<char> {
    match p {
        CachePartition::Other => "other"@,
        CachePartition::Group(_) => "group"@,
        CachePartition::User(_) => "user"@,
    }
}

/// The directory that holds one partition's entries: the partition-name
/// directory, with a further decimal group- or user-id directory below it for
/// the `Group` and `User` partitions.
pub open spec fn partition_dir_spec(base: Seq<char>, p: CachePartition) -> Seq<char> {
    let named = path_join(cache_root_spec(base), partition_name(p));
    match p {
        CachePartition::Other => named,
        CachePartition::Group(gid) => path_join(named, dec_rep(gid as nat)),
        CachePartition::User(uid) => path_join(named, dec_rep(uid as nat)),
    }
}

/// The cache entry directory for one digest.
pub open spec fn entry_dir_spec(base: Seq<char>, p: CachePartition, digest: Seq<char>) -> Seq<
    char,
> {
    path_join(partition_dir_spec(base, p), digest)
}

/// The index of the last '.' in a file name, or -1 if it has none.
pub open spec fn last_dot(name: Seq<char>) -> int
    decreases name.len(),
{
    if name.len() == 0 {
        -1
    } else if name[name.len() - 1] == '.' {
        name.len() - 1
    } else {
        last_dot(name.drop_last())
    }
}

/// The stem of a file name: everything before its last '.', or the whole name
/// when there is no '.' or the name only starts with one (a hidden file with
/// no further extension keeps its full name).
pub open spec fn stem_of(name: Seq<char>) -> Seq<char> {
    if last_dot(name) <= 0 {
        name
    } else {
        name.take(last_dot(name))
    }
}

/// The translated artifact's file name: the artifact's stem with the
/// translated extension in place of the original one.
pub open spec fn translated_name_spec(name: Seq<char>) -> Seq<char> {
    stem_of(name) + ".nexe"@
}

/// The full path of the translated artifact inside its cache entry.
pub open spec fn translated_path_spec(
    base: Seq<char>,
    p: CachePartition,
    digest: Seq<char>,
    name: Seq<char>,
) -> Seq<char> {
    path_join(entry_dir_spec(base, p, digest), translated_name_spec(name))
}

/// One directory the cache store needs, with the mode it must be created
/// with. Applying the mode again to a directory that already exists is
/// acceptable but not required; existing directories are never an error.
pub struct PlannedDir {
    /// Where the directory lives.
    pub path: String,
    /// The permission mode to create it with.
    pub mode: u32,
}

/// The resolved cache location for one artifact: the directories to ensure,
/// in creation order from the cache root down, and the entry paths.
pub struct CachePlan {
    /// Directories to ensure exist, ordered so that each one's parent comes
    /// earlier. The cache root itself comes first with a permissive mode; all
    /// later directories carry the partition's mode.
    pub dirs: Vec<PlannedDir>,
    /// The cache entry directory, keyed by the digest.
    pub entry_dir: String,
    /// The translated artifact's path; whether it exists is the cache-hit
    /// test.
    pub translated_path: String,
}

/// Everything `resolve_digest` promises about a finished plan.
pub open spec fn cache_plan_ok(
    r: CachePlan,
    base: Seq<char>,
    p: CachePartition,
    dir_mode: u32,
    digest: Seq<char>,
    name: Seq<char>,
) -> bool {
    let named = path_join(cache_root_spec(base), partition_name(p));
    &&& r.dirs@.len() == (if p is Other {
        3int
    } else {
        4int
    })
    &&& r.dirs@[0].path@ == cache_root_spec(base)
    &&& r.dirs@[0].mode == MODE_ALL
    &&& r.dirs@[1].path@ == named
    &&& r.dirs@[r.dirs@.len() - 2].path@ == partition_dir_spec(base, p)
    &&& r.dirs@[r.dirs@.len() - 1].path@ == entry_dir_spec(base, p, digest)
    &&& (forall|i: int| 1 <= i < r.dirs@.len() ==> r.dirs@[i].mode == dir_mode)
    &&& r.entry_dir@ == entry_dir_spec(base, p, digest)
    &&& r.translated_path@ == translated_path_spec(base, p, digest, name)
}

/// Join one more segment onto a directory path.
fn join_path(dir: &str, segment: &str) -> (r: String)
    ensures
        r@ == path_join(dir@, segment@),
{
    let mut s = String::from_str(dir);
    s.append("/");
    s.append(segment);
    proof {
        reveal_strlit("/");
        assert(s@ =~= path_join(dir@, segment@));
    }
    s
}

/// If a file name has a '.' at `d` and none after it, `d` is its last dot.
proof fn lemma_last_dot_at(name: Seq<char>, d: int)
    requires
        0 <= d < name.len(),
        name[d] == '.',
        forall|j: int| d < j < name.len() ==> name[j] != '.',
    ensures
        last_dot(name) == d,
    decreases name.len(),
{
    if d == name.len() - 1 {
    } else {
        assert(name.drop_last() =~= name.take(name.len() - 1));
        lemma_last_dot_at(name.drop_last(), d);
    }
}

/// A file name with no '.' at all has no last dot.
proof fn lemma_no_dot(name: Seq<char>)
    requires
        forall|j: int| 0 <= j < name.len() ==> name[j] != '.',
    ensures
        last_dot(name) == -1,
    decreases name.len(),
{
    if name.len() > 0 {
        assert(name.drop_last() =~= name.take(name.len() - 1));
        lemma_no_dot(name.drop_last());
    }
}

/// Build the translated artifact's file name from the original's.
pub fn translated_file_name(name: &str) -> (r: String)
    ensures
        r@ == translated_name_spec(name@),
{
    let n = name.unicode_len();
    let mut i: usize = n;
    let mut dot: usize = 0;
    let mut found = false;
    while i > 0
        invariant_except_break
            !found,
        invariant
            i <= n,
            n == name@.len(),
            forall|j: int| i <= j < n ==> name@[j] != '.',
        ensures
            found ==> dot < n && name@[dot as int] == '.' && (forall|j: int|
                dot < j < n ==> name@[j] != '.'),
            !found ==> forall|j: int| 0 <= j < n ==> name@[j] != '.',
        decreases i,
    {
        let c = name.get_char(i - 1);
        if c == '.' {
            dot = i - 1;
            found = true;
            break ;
        }
        i = i - 1;
    }
    proof {
        if found {
            lemma_last_dot_at(name@, dot as int);
        } else {
            lemma_no_dot(name@);
        }
    }
    let stem: &str = if found && dot > 0 {
        name.substring_char(0, dot)
    } else {
        name
    };
    proof {
        assert(stem@ == stem_of(name@));
    }
    let mut r = String::from_str(stem);
    r.append(".nexe");
    proof {
        reveal_strlit(".nexe");
        assert(r@ =~= translated_name_spec(name@));
    }
    r
}

/// Resolve the cache location for an already-computed digest: the chain of
/// directories to ensure (the shared cache root with a permissive mode, then
/// the partition's subtree, each level with the partition's own mode) and the
/// translated artifact's path inside the entry directory.
pub fn resolve_digest(
    base: &str,
    partition: &CachePartition,
    dir_mode: u32,
    digest: &str,
    name: &str,
) -> (r: CachePlan)
    ensures
        cache_plan_ok(r, base@, *partition, dir_mode, digest@, name@),
{
    let root = join_path(base, "pexe-runner-cache");
    proof {
        reveal_strlit("pexe-runner-cache");
        assert(root@ =~= cache_root_spec(base@));
    }
    let mut dirs: Vec<PlannedDir> = Vec::new();
    dirs.push(PlannedDir { path: root.clone(), mode: MODE_ALL });
    let named = match partition {
        CachePartition::Other => join_path(root.as_str(), "other"),
        CachePartition::Group(_) => join_path(root.as_str(), "group"),
        CachePartition::User(_) => join_path(root.as_str(), "user"),
    };
    proof {
        reveal_strlit("other");
        reveal_strlit("group");
        reveal_strlit("user");
        assert(named@ == path_join(cache_root_spec(base@), partition_name(*partition)));
    }
    dirs.push(PlannedDir { path: named.clone(), mode: dir_mode });
    let part_dir = match partition {
        CachePartition::Other => named,
        CachePartition::Group(gid) => join_path(named.as_str(), u32_to_dec(*gid).as_str()),
        CachePartition::User(uid) => join_path(named.as_str(), u32_to_dec(*uid).as_str()),
    };
    proof {
        assert(part_dir@ == partition_dir_spec(base@, *partition));
    }
    if !matches!(partition, CachePartition::Other) {
        dirs.push(PlannedDir { path: part_dir.clone(), mode: dir_mode });
    }
    let entry_dir = join_path(part_dir.as_str(), digest);
    dirs.push(PlannedDir { path: entry_dir.clone(), mode: dir_mode });
    let translated_path = join_path(entry_dir.as_str(), translated_file_name(name).as_str());
    CachePlan { dirs, entry_dir, translated_path }
}

/// Resolve the cache location for an artifact's raw bytes: computes the
/// digest of the full contents and places the entry under it, so that the
/// cache is addressed by content alone.
pub fn resolve(
    base: &str,
    partition: &CachePartition,
    dir_mode: u32,
    artifact: &[u8],
    name: &str,
) -> (r: CachePlan)
    ensures
        cache_plan_ok(r, base@, *partition, dir_mode, sha512_hex_of(artifact@), name@),
{
    let digest = sha512_hex(artifact);
    resolve_digest(base, partition, dir_mode, digest.as_str(), name)
}

/// The base directory the launcher caches under when nothing else is chosen.
pub fn default_cache_base() -> (r: &'static str)
    ensures
        r@ == "/tmp"@,
{
    "/tmp"
}

} // verus!
