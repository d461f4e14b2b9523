//! Execution stage: locates the sandbox tools, assembles the loader's exact
//! argument vector (including the optional file-access and debug flags), and
//! decides whether the translated artifact's path is announced first.

use vstd::prelude::*;

use crate::cache::path_join;

verus! {

/// The directory the three sandbox tools live in.
pub open spec fn tools_dir_spec(sdk_root: Seq<char>) -> Seq<char> {
    path_join(sdk_root, "tools"@)
}

/// The three fixed tools the sandbox stage needs.
pub struct ToolPaths {
    /// The bootstrap helper that is actually spawned.
    pub bootstrap: String,
    /// The sandbox loader binary, handed to the bootstrap helper first.
    pub loader: String,
    /// The runtime core image the loader boots with.
    pub runtime_core: String,
}

/// Locate the three fixed tools under the toolchain root.
pub fn tool_paths(sdk_root: &str) -> (r: ToolPaths)
    ensures
        r.bootstrap@ == path_join(tools_dir_spec(sdk_root@), "nacl_helper_bootstrap_x86_64"@),
        r.loader@ == path_join(tools_dir_spec(sdk_root@), "sel_ldr_x86_64"@),
        r.runtime_core@ == path_join(tools_dir_spec(sdk_root@), "irt_core_x86_64.nexe"@),
{
    let mut tools = String::from_str(sdk_root);
    tools.append("/");
    tools.append("tools");
    proof {
        reveal_strlit("/");
        assert(tools@ =~= tools_dir_spec(sdk_root@));
    }
    let mut bootstrap = tools.clone();
    bootstrap.append("/");
    bootstrap.append("nacl_helper_bootstrap_x86_64");
    let mut loader = tools.clone();
    loader.append("/");
    loader.append("sel_ldr_x86_64");
    let mut runtime_core = tools.clone();
    runtime_core.append("/");
    runtime_core.append("irt_core_x86_64.nexe");
    proof {
        assert(bootstrap@ =~= path_join(
            tools_dir_spec(sdk_root@),
            "nacl_helper_bootstrap_x86_64"@,
        ));
        assert(loader@ =~= path_join(tools_dir_spec(sdk_root@), "sel_ldr_x86_64"@));
        assert(runtime_core@ =~= path_join(tools_dir_spec(sdk_root@), "irt_core_x86_64.nexe"@));
    }
    ToolPaths { bootstrap, loader, runtime_core }
}

/// The loader's argument vector: the loader binary, the fixed debug-address
/// placeholders, `-a` only when file access is allowed, `-g` only in debug
/// mode, the runtime core, the log sink, and after the separator the
/// translated artifact followed by every forwarded argument in its original
/// order.
pub open spec fn loader_args_spec(
    loader: Seq<char>,
    runtime_core: Seq<char>,
    translated: Seq<char>,
    allow_file_access: bool,
    debug: bool,
    forwarded: Seq<Seq<char>>,
) -> Seq<Seq<char>> {
    seq![loader, "--r_debug=0xXXXXXXXXXXXXXXXX"@, "--reserved_at_zero=0xXXXXXXXXXXXXXXXX"@] + (
    if allow_file_access {
        seq!["-a"@]
    } else {
        Seq::<Seq<char>>::empty()
    }) + (if debug {
        seq!["-g"@]
    } else {
        Seq::<Seq<char>>::empty()
    }) + seq!["-B"@, runtime_core, "-l"@, "/dev/null"@, "--"@, translated] + forwarded
}

/// The sandbox invocation: the bootstrap helper to spawn, its argument
/// vector, and whether the translated artifact's path is printed first. The
/// child inherits this process's output streams.
pub struct ExecPlan {
    /// The program to spawn: the bootstrap helper.
    pub program: String,
    /// The full argument vector handed to it.
    pub args: Vec<String>,
    /// Print the translated artifact's path before spawning.
    pub print_translated_path: bool,
}

/// Assemble the sandbox invocation for a translated artifact. The debug flag
/// both adds `-g` to the loader and announces the translated path; the
/// file-access flag only adds `-a`.
pub fn plan_execution(
    sdk_root: &str,
    translated: &str,
    allow_file_access: bool,
    debug: bool,
    forwarded: &Vec<String>,
) -> (r: ExecPlan)
    ensures
        r.program@ == path_join(tools_dir_spec(sdk_root@), "nacl_helper_bootstrap_x86_64"@),
        r.args.deep_view() == loader_args_spec(
            path_join(tools_dir_spec(sdk_root@), "sel_ldr_x86_64"@),
            path_join(tools_dir_spec(sdk_root@), "irt_core_x86_64.nexe"@),
            translated@,
            allow_file_access,
            debug,
            forwarded.deep_view(),
        ),
        r.print_translated_path == debug,
{
    let tools = tool_paths(sdk_root);
    let ghost loader_view = tools.loader@;
    let ghost core_view = tools.runtime_core@;
    let mut args: Vec<String> = Vec::new();
    args.push(tools.loader);
    args.push(String::from_str("--r_debug=0xXXXXXXXXXXXXXXXX"));
    args.push(String::from_str("--reserved_at_zero=0xXXXXXXXXXXXXXXXX"));
    if allow_file_access {
        args.push(String::from_str("-a"));
    }
    if debug {
        args.push(String::from_str("-g"));
    }
    args.push(String::from_str("-B"));
    args.push(tools.runtime_core);
    args.push(String::from_str("-l"));
    args.push(String::from_str("/dev/null"));
    args.push(String::from_str("--"));
    args.push(String::from_str(translated));
    proof {
        assert(args.deep_view() =~= loader_args_spec(
            loader_view,
            core_view,
            translated@,
            allow_file_access,
            debug,
            Seq::<Seq<char>>::empty(),
        ));
    }
    let ghost fwd = forwarded.deep_view();
    let n = forwarded.len();
    let mut k: usize = 0;
    while k < n
        invariant
            k <= n,
            n == forwarded@.len(),
            fwd == forwarded.deep_view(),
            args.deep_view() =~= loader_args_spec(
                loader_view,
                core_view,
                translated@,
                allow_file_access,
                debug,
                fwd.take(k as int),
            ),
        decreases n - k,
    {
        let ghost before = args.deep_view();
        args.push(forwarded[k].clone());
        proof {
            assert(args.deep_view() =~= before.push(fwd[k as int]));
            assert(fwd.take(k as int + 1) =~= fwd.take(k as int).push(fwd[k as int]));
            assert(before.push(fwd[k as int]) =~= loader_args_spec(
                loader_view,
                core_view,
                translated@,
                allow_file_access,
                debug,
                fwd.take(k as int + 1),
            ));
        }
        k = k + 1;
    }
    proof {
        assert(fwd.take(n as int) =~= fwd);
        assert(args.deep_view() =~= loader_args_spec(
            loader_view,
            core_view,
            translated@,
            allow_file_access,
            debug,
            fwd,
        ));
    }
    ExecPlan { program: tools.bootstrap, args, print_translated_path: debug }
}

/// An environment flag enables its feature when it is set to anything but
/// the literal "0"; unset means disabled.
pub fn env_flag_enabled(value: &Option<String>) -> (r: bool)
    ensures
        r == (value matches Some(v) && v@ != "0"@),
{
    match value {
        Some(v) => {
            let zero = String::from_str("0");
            !v.eq(&zero)
        },
        None => false,
    }
}

/// The note announcing the translated artifact's path in debug mode.
pub fn debug_note(translated: &str) -> (r: String)
    ensures
        r@ == "note: the nexe path is `"@ + translated@ + "`"@,
{
    let mut s = String::from_str("note: the nexe path is `");
    s.append(translated);
    s.append("`");
    s
}

} // verus!
