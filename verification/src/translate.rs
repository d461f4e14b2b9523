//! Translation stage: decides whether the external translator must run, what
//! its exact command line is, and how its termination status is reported.

use vstd::prelude::*;

verus! {

/// A child process invocation: the program to run and its argument vector,
/// in order.
pub struct CommandPlan {
    /// The program name or path.
    pub program: String,
    /// The arguments, in the order they are passed.
    pub args: Vec<String>,
}

/// How one run of the external translator ended. Only `Success` durably
/// affects the cache; a failure carries everything the caller must report.
pub enum TranslationResult {
    /// The translator exited cleanly and the translated artifact is in place.
    Success,
    /// The translator exited non-zero or was killed. The caller must echo
    /// the captured streams, exit with `exit_code`, and must not run the
    /// sandbox stage.
    Failure {
        /// The child's exit code, or 1 if it terminated without one.
        exit_code: i32,
        /// Everything the translator wrote to its standard output.
        stdout_bytes: Vec<u8>,
        /// Everything the translator wrote to its standard error.
        stderr_bytes: Vec<u8>,
    },
}

/// The argument vector the translator is run with: cross-toolchain root,
/// source path, output path, and a fixed optimization level.
pub open spec fn translator_args_spec(
    sdk_root: Seq<char>,
    source: Seq<char>,
    dest: Seq<char>,
) -> Seq<Seq<char>> {
    seq!["--cross-path"@, sdk_root, source, "-o"@, dest, "--opt-level=2"@]
}

/// `c` is exactly the translator invocation for these paths.
pub open spec fn is_translator_command(
    c: CommandPlan,
    sdk_root: Seq<char>,
    source: Seq<char>,
    dest: Seq<char>,
) -> bool {
    &&& c.program@ == "rust_pnacl_trans"@
    &&& c.args.deep_view() == translator_args_spec(sdk_root, source, dest)
}

/// Build the translator's command line.
pub fn translator_command(sdk_root: &str, source: &str, dest: &str) -> (r: CommandPlan)
    ensures
        is_translator_command(r, sdk_root@, source@, dest@),
{
    let program = String::from_str("rust_pnacl_trans");
    let mut args: Vec<String> = Vec::new();
    args.push(String::from_str("--cross-path"));
    args.push(String::from_str(sdk_root));
    args.push(String::from_str(source));
    args.push(String::from_str("-o"));
    args.push(String::from_str(dest));
    args.push(String::from_str("--opt-level=2"));
    proof {
        assert(args.deep_view() =~= translator_args_spec(sdk_root@, source@, dest@));
    }
    CommandPlan { program, args }
}

/// The cache-miss gate: the translator runs exactly when the translated
/// artifact is not already present at its resolved path. On a cache hit
/// nothing is planned, so a present entry is never translated again.
pub fn plan_translation(dest_exists: bool, sdk_root: &str, source: &str, dest: &str) -> (r: Option<
    CommandPlan,
>)
    ensures
        dest_exists <==> r is None,
        r matches Some(c) ==> is_translator_command(c, sdk_root@, source@, dest@),
{
    if dest_exists {
        None
    } else {
        Some(translator_command(sdk_root, source, dest))
    }
}

/// The exit code this process propagates for a child status: the child's own
/// code when it exited normally, 1 when it was terminated without one.
pub open spec fn propagated_exit_code(code: Option<i32>) -> int {
    match code {
        Some(c) => c as int,
        None => 1,
    }
}

/// Map a child's optional exit code to the code this process exits with.
pub fn exit_code_or_default(code: Option<i32>) -> (r: i32)
    ensures
        r as int == propagated_exit_code(code),
{
    match code {
        Some(c) => c,
        None => 1,
    }
}

/// Map the translator's termination status to the stage's outcome. A clean
/// exit is a success and the caller then fixes the translated artifact's
/// mode; anything else carries the propagated exit code and both captured
/// streams back for reporting, and the artifact is treated as absent.
pub fn map_translation_status(
    exited_ok: bool,
    code: Option<i32>,
    stdout_bytes: Vec<u8>,
    stderr_bytes: Vec<u8>,
) -> (r: TranslationResult)
    ensures
        exited_ok <==> r is Success,
        !exited_ok ==> (r matches TranslationResult::Failure {
            exit_code: ec,
            stdout_bytes: so,
            stderr_bytes: se,
        } && ec as int == propagated_exit_code(code) && so@ == stdout_bytes@ && se@
            == stderr_bytes@),
{
    if exited_ok {
        TranslationResult::Success
    } else {
        TranslationResult::Failure {
            exit_code: exit_code_or_default(code),
            stdout_bytes,
            stderr_bytes,
        }
    }
}

} // verus!
