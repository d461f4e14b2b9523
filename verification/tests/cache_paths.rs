use pexe_runner::CachePartition;
use pexe_runner::prepare;
use pexe_runner::resolve;
use pexe_runner::resolve_digest;
use pexe_runner::sha512_hex;
use pexe_runner::translated_file_name;
use pexe_runner::u32_to_dec;

const EMPTY_SHA512: &str = "cf83e1357eefb8bdf1542850d66d8007d620e4050b5715dc83f4a921d36ce9ce47d0d13c5d85f2b0ff8318d2877eec2f63b931bd47417a81a538327af927da3e";
const ABC_SHA512: &str = "ddaf35a193617abacc417349ae20413112e6fa4e89a97ea20a9eeee64b55d39a2192992a274fc1a836ba3c23a3feebbd454d4423643ce80e2a9ac94fa54ca49f";

#[test]
fn digest_matches_known_vectors() {
    // The trusted digest wrapper must produce the published SHA-512 values,
    // not anything derived from the input by lighter means.
    assert_eq!(sha512_hex(b""), EMPTY_SHA512);
    assert_eq!(sha512_hex(b"abc"), ABC_SHA512);
}

#[test]
fn decimal_formatting_is_exact() {
    assert_eq!(u32_to_dec(0), "0");
    assert_eq!(u32_to_dec(7), "7");
    assert_eq!(u32_to_dec(42), "42");
    assert_eq!(u32_to_dec(1000), "1000");
    assert_eq!(u32_to_dec(u32::MAX), "4294967295");
}

#[test]
fn translated_name_replaces_extension() {
    assert_eq!(translated_file_name("hello.pexe"), "hello.nexe");
    assert_eq!(translated_file_name("hello"), "hello.nexe");
    assert_eq!(translated_file_name("a.tar.gz"), "a.tar.nexe");
    // A hidden file with no further extension keeps its whole name.
    assert_eq!(translated_file_name(".hidden"), ".hidden.nexe");
    assert_eq!(translated_file_name(".config.pexe"), ".config.nexe");
    assert_eq!(translated_file_name("trailing."), "trailing.nexe");
}

#[test]
fn other_partition_layout() {
    let plan = resolve("/tmp", &CachePartition::Other, 0o777, b"abc", "prog.pexe");
    let entry = format!("/tmp/pexe-runner-cache/other/{}", ABC_SHA512);
    assert_eq!(plan.entry_dir, entry);
    assert_eq!(plan.translated_path, format!("{}/prog.nexe", entry));
    let dirs: Vec<(&str, u32)> = plan
        .dirs
        .iter()
        .map(|d| (d.path.as_str(), d.mode))
        .collect();
    assert_eq!(
        dirs,
        vec![
            ("/tmp/pexe-runner-cache", 0o777),
            ("/tmp/pexe-runner-cache/other", 0o777),
            (entry.as_str(), 0o777),
        ]
    );
}

#[test]
fn group_partition_layout() {
    let plan = resolve_digest("/tmp", &CachePartition::Group(1234), 0o770, ABC_SHA512, "p.pexe");
    let entry = format!("/tmp/pexe-runner-cache/group/1234/{}", ABC_SHA512);
    assert_eq!(plan.entry_dir, entry);
    assert_eq!(plan.translated_path, format!("{}/p.nexe", entry));
    assert_eq!(plan.dirs.len(), 4);
    assert_eq!(plan.dirs[0].path, "/tmp/pexe-runner-cache");
    assert_eq!(plan.dirs[0].mode, 0o777);
    assert_eq!(plan.dirs[1].path, "/tmp/pexe-runner-cache/group");
    assert_eq!(plan.dirs[1].mode, 0o770);
    assert_eq!(plan.dirs[2].path, "/tmp/pexe-runner-cache/group/1234");
    assert_eq!(plan.dirs[2].mode, 0o770);
    assert_eq!(plan.dirs[3].path, entry);
    assert_eq!(plan.dirs[3].mode, 0o770);
}

#[test]
fn user_partition_layout() {
    let plan = resolve_digest("/tmp", &CachePartition::User(7), 0o700, EMPTY_SHA512, "x.pexe");
    let entry = format!("/tmp/pexe-runner-cache/user/7/{}", EMPTY_SHA512);
    assert_eq!(plan.entry_dir, entry);
    assert_eq!(plan.translated_path, format!("{}/x.nexe", entry));
    assert_eq!(plan.dirs.len(), 4);
    assert_eq!(plan.dirs[2].path, "/tmp/pexe-runner-cache/user/7");
    assert_eq!(plan.dirs[2].mode, 0o700);
}

#[test]
fn same_bytes_same_path() {
    // Determinism: hashing the same bytes twice yields the same cache path.
    let a = resolve("/tmp", &CachePartition::Other, 0o777, b"same contents", "p.pexe");
    let b = resolve("/tmp", &CachePartition::Other, 0o777, b"same contents", "p.pexe");
    assert_eq!(a.translated_path, b.translated_path);
    assert_eq!(a.entry_dir, b.entry_dir);
}

#[test]
fn different_bytes_different_path() {
    let a = resolve("/tmp", &CachePartition::Other, 0o777, b"artifact one", "p.pexe");
    let b = resolve("/tmp", &CachePartition::Other, 0o777, b"artifact two", "p.pexe");
    assert_ne!(a.entry_dir, b.entry_dir);
    assert_ne!(a.translated_path, b.translated_path);
}

#[test]
fn prepare_composes_classifier_and_store() {
    let prep = prepare(0o755, 10, 20, "/tmp", b"abc", "prog.pexe").unwrap();
    assert_eq!(prep.partition, CachePartition::Other);
    assert_eq!(prep.dir_mode, 0o777);
    assert_eq!(
        prep.plan.translated_path,
        format!("/tmp/pexe-runner-cache/other/{}/prog.nexe", ABC_SHA512)
    );
}
