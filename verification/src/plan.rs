//! The files that a run makes, and the commands that make them.

use vstd::prelude::*;

use crate::context;
use crate::context::Context;
use crate::path;
use crate::process;
use crate::process::ProcessBuilder;
use crate::text;

verus! {

/// The files that are named after the package.
#[derive(Debug)]
pub struct PackageFiles {
    /// The name that they share.
    pub name: String,
    /// The merged profile.
    pub profdata_file: String,
    /// The pattern by which tests name their raw profiles.
    pub llvm_profile_file: String,
    /// Matches the raw profiles.
    pub profraw_glob: String,
}

/// The files that a run makes.
#[derive(Debug)]
pub struct Layout {
    /// Matches the raw profiles of earlier runs.
    pub stale_glob: String,
    /// The directory of the executables of doc tests.
    pub doctests_dir: String,
    /// Matches the executables of doc tests.
    pub doctest_glob: String,
    /// The files that are named after the package, if the workspace has a name.
    pub package: Option<PackageFiles>,
}

/// `files` are in `target_dir`, each under the package's name.
pub open spec fn is_named_after(target_dir: Seq<char>, files: PackageFiles) -> bool {
    &&& path::is_join(target_dir, files.name@ + ".profdata"@, files.profdata_file@)
    &&& path::is_join(target_dir, files.name@ + "-%m.profraw"@, files.llvm_profile_file@)
    &&& path::is_join(target_dir, files.name@ + "-*.profraw"@, files.profraw_glob@)
}

/// `layout` puts everything into `target_dir`. The package's name is that of the workspace's
/// root directory.
pub open spec fn is_layout(
    target_dir: Seq<char>,
    workspace_root: Seq<char>,
    layout: Layout,
) -> bool {
    &&& path::is_join(target_dir, "*.profraw"@, layout.stale_glob@)
    &&& path::is_join(target_dir, "doctestbins"@, layout.doctests_dir@)
    &&& path::is_join(layout.doctests_dir@, "*/rust_out"@, layout.doctest_glob@)
    &&& match layout.package {
        Some(files) => path::is_file_stem(workspace_root, Some(files.name@)) && is_named_after(
            target_dir,
            files,
        ),
        None => path::is_file_stem(workspace_root, None),
    }
}

/// The files in `target_dir` that are named after the package `name`.
pub fn package_files(target_dir: &str, name: String) -> (files: PackageFiles)
    ensures
        files.name == name,
        is_named_after(target_dir@, files),
{
    let profdata: String = text::concat(name.as_str(), ".profdata");
    let profile: String = text::concat(name.as_str(), "-%m.profraw");
    let profiles: String = text::concat(name.as_str(), "-*.profraw");
    PackageFiles {
        name,
        profdata_file: path::join(target_dir, profdata.as_str()),
        llvm_profile_file: path::join(target_dir, profile.as_str()),
        profraw_glob: path::join(target_dir, profiles.as_str()),
    }
}

impl Layout {
    /// The files of a run on the workspace in `workspace_root`.
    pub fn new(target_dir: &str, workspace_root: &str) -> (layout: Layout)
        ensures
            is_layout(target_dir@, workspace_root@, layout),
    {
        let doctests_dir: String = path::join(target_dir, "doctestbins");
        let doctest_glob: String = path::join(doctests_dir.as_str(), "*/rust_out");
        let package: Option<PackageFiles> = match path::file_stem(workspace_root) {
            Some(name) => Some(package_files(target_dir, name)),
            None => None,
        };
        Layout {
            stale_glob: path::join(target_dir, "*.profraw"),
            doctests_dir,
            doctest_glob,
            package,
        }
    }
}

/// The compiler's flags: those in the environment, then those that make it measure coverage.
/// Paths in the workspace are shown without its root.
pub open spec fn rustflags_value(var: Option<Seq<u8>>, workspace_root: Seq<char>) -> Seq<u8> {
    (match var {
        Some(flags) => flags,
        None => Seq::empty(),
    }) + text::utf8(" -Zinstrument-coverage --remap-path-prefix "@ + workspace_root + "/="@)
}

/// The flags of rustdoc: those in the environment, and with doc tests those that make it
/// measure coverage and keep what it builds.
pub open spec fn rustdocflags_value(
    var: Option<Seq<u8>>,
    doctests: bool,
    doctests_dir: Seq<char>,
) -> Option<Seq<u8>> {
    if doctests {
        Some(
            (match var {
                Some(flags) => flags,
                None => Seq::empty(),
            }) + text::utf8(
                " -Zinstrument-coverage -Zunstable-options --persist-doctests "@ + doctests_dir,
            ),
        )
    } else {
        var
    }
}

/// The words `a` and `b` as one.
fn extended(a: Option<Vec<u8>>, b: &str) -> (word: Vec<u8>)
    ensures
        word@ == (match process::optional_word(a) {
            Some(a) => a,
            None => Seq::empty(),
        }) + text::utf8(b@),
{
    let mut word: Vec<u8> = match a {
        Some(a) => a,
        None => Vec::new(),
    };
    let mut rest: Vec<u8> = text::word(b);
    word.append(&mut rest);
    word
}

/// The compiler's flags.
pub fn rustflags(var: Option<Vec<u8>>, workspace_root: &str) -> (flags: Vec<u8>)
    ensures
        flags@ == rustflags_value(process::optional_word(var), workspace_root@),
{
    // `--remap-path-prefix`, because macros are sometimes displayed with absolute paths.
    let added: String = text::concat(
        " -Zinstrument-coverage --remap-path-prefix ",
        workspace_root,
    );
    let added: String = text::concat(added.as_str(), "/=");
    extended(var, added.as_str())
}

/// The flags of rustdoc.
pub fn rustdocflags(var: Option<Vec<u8>>, doctests: bool, doctests_dir: &str) -> (flags: Option<
    Vec<u8>,
>)
    ensures
        process::optional_word(flags) == rustdocflags_value(
            process::optional_word(var),
            doctests,
            doctests_dir@,
        ),
{
    if doctests {
        let added: String = text::concat(
            " -Zinstrument-coverage -Zunstable-options --persist-doctests ",
            doctests_dir,
        );
        Some(extended(var, added.as_str()))
    } else {
        var
    }
}

/// How cargo is called to test: with a nightly toolchain, on the run's own target directory.
pub open spec fn cargo_test_args(cx: Context) -> Seq<Seq<u8>> {
    context::flag(!cx.nightly, "+nightly"@) + seq![
        text::utf8("test"@),
        text::utf8("--target-dir"@),
        text::utf8(cx.target_dir@),
    ]
}

/// The arguments of the cargo that builds and runs the tests.
pub open spec fn test_command_args(cx: Context) -> Seq<Seq<u8>> {
    cargo_test_args(cx) + context::cargo_options(cx)
}

/// `list` without the first of its words that is `word`.
pub open spec fn without_first(list: Seq<Seq<u8>>, word: Seq<u8>) -> Seq<Seq<u8>>
    decreases list.len(),
{
    if list.len() == 0 {
        list
    } else if list[0] == word {
        list.skip(1)
    } else {
        seq![list[0]] + without_first(list.skip(1), word)
    }
}

/// What stands in the command that runs the tests up to the flag for verbose output.
pub open spec fn args_with_verbose(cx: Context) -> Seq<Seq<u8>> {
    cargo_test_args(cx) + context::options_before_verbose(cx) + context::verbose_option(cx)
}

/// The same without the first word that is the flag for verbose output.
pub open spec fn args_without_verbose(cx: Context) -> Seq<Seq<u8>> {
    match cx.verbose {
        Some(verbose) => without_first(args_with_verbose(cx), text::utf8(verbose@)),
        None => args_with_verbose(cx),
    }
}

/// The arguments of the cargo that lists what was built for the tests: those of the one that
/// runs them, but for verbosity, and with two flags that make it run nothing and print messages.
/// The arguments for the test binary still come last.
pub open spec fn list_command_args(cx: Context) -> Seq<Seq<u8>> {
    args_without_verbose(cx) + context::unstable_options(cx) + seq![
        text::utf8("--no-run"@),
        text::utf8("--message-format=json"@),
    ] + context::test_args(text::words(cx.args.args@))
}

/// The environment of the cargo that builds and runs the tests.
pub open spec fn test_env(
    rustflags: Seq<u8>,
    llvm_profile_file: Seq<char>,
    rustdocflags: Option<Seq<u8>>,
) -> Seq<(Seq<char>, Seq<u8>)> {
    seq![
        ("RUSTFLAGS"@, rustflags),
        ("LLVM_PROFILE_FILE"@, text::utf8(llvm_profile_file)),
    ] + (match rustdocflags {
        Some(flags) => seq![("RUSTDOCFLAGS"@, flags)],
        None => Seq::empty(),
    })
}

/// The process that builds and runs the tests.
pub open spec fn test_process(
    cx: Context,
    env: Seq<(Seq<char>, Seq<u8>)>,
) -> process::ProcessView {
    process::ProcessView {
        args: test_command_args(cx),
        env,
        stdout_to_stderr: true,
        ..context::workspace_process(cx, cx.cargo@)
    }
}

/// The process that lists what was built for the tests, in the same environment. Its output is
/// captured.
pub open spec fn list_process(
    cx: Context,
    env: Seq<(Seq<char>, Seq<u8>)>,
) -> process::ProcessView {
    process::ProcessView {
        args: list_command_args(cx),
        env,
        stdout_capture: true,
        stderr_capture: true,
        ..context::workspace_process(cx, cx.cargo@)
    }
}

/// The call of cargo that testing and listing have in common.
fn cargo_test(
    cx: &Context,
    rustflags: Vec<u8>,
    llvm_profile_file: &str,
    rustdocflags: Option<Vec<u8>>,
) -> (cmd: ProcessBuilder)
    ensures
        cmd@ == (process::ProcessView {
            args: cargo_test_args(*cx),
            env: test_env(rustflags@, llvm_profile_file@, process::optional_word(rustdocflags)),
            ..context::workspace_process(*cx, cx.cargo@)
        }),
{
    let mut cmd: ProcessBuilder = cx.process(context::copy_word(&cx.cargo));
    if !cx.nightly {
        cmd.arg_text("+nightly");
    }
    cmd.env("RUSTFLAGS", rustflags);
    cmd.env("LLVM_PROFILE_FILE", text::word(llvm_profile_file));
    if let Some(flags) = rustdocflags {
        cmd.env("RUSTDOCFLAGS", flags);
    }
    assert(cmd@.env =~= test_env(
        rustflags@,
        llvm_profile_file@,
        process::optional_word(rustdocflags),
    ));
    cmd.arg_text("test");
    cmd.arg_text("--target-dir");
    cmd.arg_text(cx.target_dir.as_str());
    assert(cmd@.args =~= cargo_test_args(*cx));
    cmd
}

/// The process that builds and runs the tests.
pub fn test_command(
    cx: &Context,
    rustflags: Vec<u8>,
    llvm_profile_file: &str,
    rustdocflags: Option<Vec<u8>>,
) -> (cmd: ProcessBuilder)
    ensures
        cmd@ == test_process(
            *cx,
            test_env(rustflags@, llvm_profile_file@, process::optional_word(rustdocflags)),
        ),
{
    let mut cmd: ProcessBuilder = cargo_test(cx, rustflags, llvm_profile_file, rustdocflags);
    context::append_args(cx, &mut cmd);
    cmd.stdout_to_stderr();
    cmd
}

/// What is left without the first `word` is what stands before it and after it.
pub(crate) proof fn lemma_without_first(list: Seq<Seq<u8>>, word: Seq<u8>, at: int)
    requires
        0 <= at < list.len(),
        list[at] == word,
        forall|k: int| 0 <= k < at ==> list[k] != word,
    ensures
        without_first(list, word) == list.remove(at),
    decreases at,
{
    if at == 0 {
        assert(list.skip(1) =~= list.remove(0));
    } else {
        lemma_without_first(list.skip(1), word, at - 1);
        assert(seq![list[0]] + list.skip(1).remove(at - 1) =~= list.remove(at));
    }
}

/// Removes the first of the words that is `word`.
fn remove_first(list: &mut Vec<Vec<u8>>, word: &str)
    requires
        text::words(old(list)@).contains(text::utf8(word@)),
    ensures
        text::words(final(list)@) == without_first(text::words(old(list)@), text::utf8(word@)),
{
    let ghost before = text::words(list@);
    let ghost wanted = text::utf8(word@);
    let mut i: usize = 0;
    while !text::same_bytes(list[i].as_slice(), word.as_bytes())
        invariant
            before == text::words(list@),
            before.contains(wanted),
            wanted == text::utf8(word@),
            i < list.len(),
            forall|k: int| 0 <= k < i ==> before[k] != wanted,
        decreases list@.len() - i,
    {
        proof {
            assert(before[i as int] != wanted);
            let at = choose|at: int| 0 <= at < before.len() && before[at] == wanted;
            assert(at > i);
        }
        i += 1;
    }
    proof {
        assert(before[i as int] == wanted);
        lemma_without_first(before, wanted, i as int);
    }
    list.remove(i);
    assert(text::words(list@) =~= before.remove(i as int));
}

/// The process that lists what was built for the tests.
pub fn list_command(
    cx: &Context,
    rustflags: Vec<u8>,
    llvm_profile_file: &str,
    rustdocflags: Option<Vec<u8>>,
) -> (cmd: ProcessBuilder)
    ensures
        cmd@ == list_process(
            *cx,
            test_env(rustflags@, llvm_profile_file@, process::optional_word(rustdocflags)),
        ),
{
    broadcast use process::lemma_with_args_twice;

    let mut cmd: ProcessBuilder = cargo_test(cx, rustflags, llvm_profile_file, rustdocflags);
    context::append_options_before_verbose(cx, &mut cmd);
    if let Some(verbose) = &cx.verbose {
        cmd.arg_text(verbose.as_str());
        assert(cmd@.args =~= args_with_verbose(*cx));
        assert(cmd@.args.last() == text::utf8(verbose@));
        remove_first(&mut cmd.args, verbose.as_str());
    }
    assert(cmd@.args =~= args_without_verbose(*cx));
    context::append_unstable_options(cx, &mut cmd);
    let ghost before = cmd@;
    cmd.arg_text("--no-run");
    cmd.arg_text("--message-format=json");
    assert(cmd@ =~= before.with_args(
        seq![text::utf8("--no-run"@), text::utf8("--message-format=json"@)],
    ));
    context::append_test_args(cx, &mut cmd);
    cmd.stdout_capture();
    cmd.stderr_capture();
    assert(cmd@.args =~= list_command_args(*cx));
    cmd
}

/// The process that merges raw profiles.
pub open spec fn merge_process(
    cx: Context,
    profiles: Seq<Seq<u8>>,
    profdata_file: Seq<char>,
) -> process::ProcessView {
    context::workspace_process(cx, text::utf8(cx.llvm_profdata@)).with_args(
        seq![text::utf8("merge"@), text::utf8("-sparse"@)] + profiles + seq![
            text::utf8("-o"@),
            text::utf8(profdata_file),
        ],
    )
}

/// The process that merges raw profiles.
pub fn merge_command(cx: &Context, profiles: &Vec<Vec<u8>>, profdata_file: &str) -> (cmd:
    ProcessBuilder)
    ensures
        cmd@ == merge_process(*cx, text::words(profiles@), profdata_file@),
{
    let mut cmd: ProcessBuilder = cx.process(text::word(cx.llvm_profdata.as_str()));
    cmd.arg_text("merge");
    cmd.arg_text("-sparse");
    context::append_words(&mut cmd, profiles);
    cmd.arg_text("-o");
    cmd.arg_text(profdata_file);
    assert(cmd@ =~= merge_process(*cx, text::words(profiles@), profdata_file@));
    cmd
}

} // verus!
