//! Launcher core for a content-addressed, permission-partitioned translation
//! cache: classifying an artifact's permission bits into a cache partition,
//! resolving the cache entry path from the artifact's digest, planning the
//! translator and sandbox-loader invocations, and mapping child exit statuses
//! to this process's exit code.

use vstd::prelude::*;

mod cache;
mod digest;
mod execute;
mod laws;
mod launch;
mod numfmt;
mod perms;
mod translate;

pub use cache::CachePlan;
pub use cache::PlannedDir;
pub use cache::cache_plan_ok;
pub use cache::cache_root_spec;
pub use cache::default_cache_base;
pub use cache::entry_dir_spec;
pub use cache::partition_dir_spec;
pub use cache::partition_name;
pub use cache::path_join;
pub use cache::resolve;
pub use cache::resolve_digest;
pub use cache::stem_of;
pub use cache::translated_file_name;
pub use cache::translated_name_spec;
pub use cache::translated_path_spec;
pub use digest::sha512_hex;
pub use digest::sha512_hex_of;
pub use execute::ExecPlan;
pub use execute::ToolPaths;
pub use execute::debug_note;
pub use execute::env_flag_enabled;
pub use execute::loader_args_spec;
pub use execute::plan_execution;
pub use execute::tool_paths;
pub use execute::tools_dir_spec;
pub use laws::lemma_digest_deterministic;
pub use laws::lemma_distinct_digests_distinct_paths;
pub use laws::lemma_partition_modes;
pub use launch::Prepared;
pub use launch::prepare;
pub use numfmt::dec_rep;
pub use numfmt::u32_to_dec;
pub use perms::CachePartition;
pub use perms::GROUP_EXECUTE;
pub use perms::GROUP_READ;
pub use perms::MODE_ALL;
pub use perms::MODE_OWNER;
pub use perms::MODE_OWNER_GROUP;
pub use perms::OTHER_EXECUTE;
pub use perms::OTHER_READ;
pub use perms::USER_EXECUTE;
pub use perms::classify;
pub use perms::classify_spec;
pub use perms::group_rx;
pub use perms::other_rx;
pub use perms::user_x;
pub use translate::CommandPlan;
pub use translate::TranslationResult;
pub use translate::exit_code_or_default;
pub use translate::is_translator_command;
pub use translate::map_translation_status;
pub use translate::plan_translation;
pub use translate::propagated_exit_code;
pub use translate::translator_args_spec;
pub use translate::translator_command;

verus! {

/// How a run of the launcher can fail before any child process is started.
#[derive(Clone, Copy, PartialEq, Eq, Structural, Debug)]
pub enum LaunchError {
    /// The artifact carries no execute permission recognized for any
    /// principal: nobody is entitled to run it, so nothing may be cached.
    PermissionDenied,
}

} // verus!
