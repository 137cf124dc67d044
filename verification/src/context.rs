//! What is known before the tests run, and the arguments that it gives to cargo.

use vstd::prelude::*;

use crate::args::Args;
use crate::color;
use crate::path;
use crate::process;
use crate::process::ProcessBuilder;
use crate::text;

verus! {

/// What is used of cargo's description of the workspace.
#[derive(Debug)]
pub struct Metadata {
    pub workspace_root: String,
    pub target_directory: String,
}

/// What is known before the tests run.
#[derive(Debug)]
pub struct Context {
    /// The command line.
    pub args: Args,
    /// The flag that asks cargo for verbose output.
    pub verbose: Option<String>,
    pub metadata: Metadata,
    /// The manifest of the package to test.
    pub manifest_path: Vec<u8>,
    /// The directory for everything that is built.
    pub target_dir: String,
    pub llvm_cov: String,
    pub llvm_profdata: String,
    pub cargo: Vec<u8>,
    /// Whether cargo is that of a nightly toolchain.
    pub nightly: bool,
}

/// The argument `name`, where `given`.
pub open spec fn flag(given: bool, name: Seq<char>) -> Seq<Seq<u8>> {
    if given {
        seq![text::utf8(name)]
    } else {
        Seq::empty()
    }
}

/// The arguments `name` and a value, for each of `values`.
pub open spec fn repeated(name: Seq<char>, values: Seq<Seq<char>>) -> Seq<Seq<u8>> {
    Seq::new(
        2 * values.len(),
        |i: int|
            if i % 2 == 0 {
                text::utf8(name)
            } else {
                text::utf8(values[i / 2])
            },
    )
}

/// The arguments `name` and a value, if there is a value.
pub open spec fn optional(name: Seq<char>, value: Option<Seq<char>>) -> Seq<Seq<u8>> {
    match value {
        Some(value) => seq![text::utf8(name), text::utf8(value)],
        None => Seq::empty(),
    }
}

/// The arguments for the test binary, set off by `--`.
pub open spec fn test_args(args: Seq<Seq<u8>>) -> Seq<Seq<u8>> {
    if args.len() > 0 {
        seq![text::utf8("--"@)] + args
    } else {
        Seq::empty()
    }
}

/// Which packages to test, and in which mode to build them.
pub open spec fn package_options(cx: Context) -> Seq<Seq<u8>> {
    flag(cx.args.no_fail_fast, "--no-fail-fast"@)
        + flag(cx.args.workspace, "--workspace"@)
        + repeated("--exclude"@, text::texts(cx.args.exclude@))
        + flag(cx.args.release, "--release"@)
}

/// Which features to build, and for which target.
pub open spec fn feature_options(cx: Context) -> Seq<Seq<u8>> {
    repeated("--features"@, text::texts(cx.args.features@))
        + flag(cx.args.all_features, "--all-features"@)
        + flag(cx.args.no_default_features, "--no-default-features"@)
        + optional("--target"@, process::optional_text(cx.args.target))
}

/// Which manifest to read, and how cargo treats the lock file and the terminal.
pub open spec fn manifest_options(cx: Context) -> Seq<Seq<u8>> {
    seq![text::utf8("--manifest-path"@), cx.manifest_path@]
        + optional("--color"@, match cx.args.color {
        Some(color) => Some(color::color_name(color)),
        None => None,
    })
        + flag(cx.args.frozen, "--frozen"@)
        + flag(cx.args.locked, "--locked"@)
}

/// What the command line asks of cargo, before verbosity.
pub open spec fn options_before_verbose(cx: Context) -> Seq<Seq<u8>> {
    package_options(cx) + feature_options(cx) + manifest_options(cx)
}

/// What the command line asks of cargo's verbosity.
pub open spec fn verbose_option(cx: Context) -> Seq<Seq<u8>> {
    match cx.verbose {
        Some(verbose) => seq![text::utf8(verbose@)],
        None => Seq::empty(),
    }
}

/// The unstable flags to cargo.
pub open spec fn unstable_options(cx: Context) -> Seq<Seq<u8>> {
    repeated("-Z"@, text::texts(cx.args.unstable_flags@))
}

/// Everything that the command line asks of cargo.
pub open spec fn cargo_options(cx: Context) -> Seq<Seq<u8>> {
    options_before_verbose(cx) + verbose_option(cx) + unstable_options(cx) + test_args(
        text::words(cx.args.args@),
    )
}

/// `process` runs in the workspace, and shows its environment where output is verbose.
pub open spec fn workspace_process(cx: Context, program: Seq<u8>) -> process::ProcessView {
    process::ProcessView {
        dir: Some(cx.metadata.workspace_root@),
        display_env_vars: cx.verbose is Some,
        ..process::plain_process(program, Seq::empty())
    }
}

/// A copy of an operating system string.
pub(crate) fn copy_word(word: &Vec<u8>) -> (copy: Vec<u8>)
    ensures
        copy@ == word@,
{
    vstd::slice::slice_to_vec(word.as_slice())
}

/// Adds `name` and a value to `cmd`, for each of `values`.
pub(crate) fn append_repeated(cmd: &mut ProcessBuilder, name: &str, values: &Vec<String>)
    ensures
        final(cmd)@ == old(cmd)@.with_args(repeated(name@, text::texts(values@))),
{
    let ghost before = cmd@;
    let mut i: usize = 0;
    assert(cmd@ =~= before.with_args(repeated(name@, text::texts(values@.take(0)))));
    while i < values.len()
        invariant
            i <= values@.len(),
            cmd@ == before.with_args(repeated(name@, text::texts(values@.take(i as int)))),
        decreases values@.len() - i,
    {
        cmd.arg_text(name);
        cmd.arg_text(values[i].as_str());
        assert(cmd@ =~= before.with_args(
            repeated(name@, text::texts(values@.take(i + 1))),
        ));
        i += 1;
    }
    assert(values@.take(i as int) =~= values@);
}

/// Adds words to the arguments of `cmd`.
pub(crate) fn append_words(cmd: &mut ProcessBuilder, list: &Vec<Vec<u8>>)
    ensures
        final(cmd)@ == old(cmd)@.with_args(text::words(list@)),
{
    let ghost before = cmd@;
    let mut i: usize = 0;
    assert(cmd@ =~= before.with_args(text::words(list@.take(0))));
    while i < list.len()
        invariant
            i <= list@.len(),
            cmd@ == before.with_args(text::words(list@.take(i as int))),
        decreases list@.len() - i,
    {
        cmd.arg(copy_word(&list[i]));
        assert(cmd@ =~= before.with_args(text::words(list@.take(i + 1))));
        i += 1;
    }
    assert(list@.take(i as int) =~= list@);
}

/// Adds `name` to the arguments of `cmd`, where `given`.
fn append_flag(cmd: &mut ProcessBuilder, given: bool, name: &str)
    ensures
        final(cmd)@ == old(cmd)@.with_args(flag(given, name@)),
{
    let ghost before = cmd@;
    if given {
        cmd.arg_text(name);
    }
    assert(cmd@ =~= before.with_args(flag(given, name@)));
}

/// Adds `name` and a value to the arguments of `cmd`, if there is a value.
fn append_optional(cmd: &mut ProcessBuilder, name: &str, value: Option<&str>)
    ensures
        final(cmd)@ == old(cmd)@.with_args(
            optional(
                name@,
                match value {
                    Some(value) => Some(value@),
                    None => None,
                },
            ),
        ),
{
    let ghost before = cmd@;
    if let Some(value) = value {
        cmd.arg_text(name);
        cmd.arg_text(value);
        assert(cmd@ =~= before.with_args(seq![text::utf8(name@), text::utf8(value@)]));
    } else {
        assert(cmd@ =~= before.with_args(Seq::empty()));
    }
}

/// Adds a flag with its value, an operating system string, to the arguments of `cmd`.
fn append_pair(cmd: &mut ProcessBuilder, name: &str, value: &Vec<u8>)
    ensures
        final(cmd)@ == old(cmd)@.with_args(seq![text::utf8(name@), value@]),
{
    let ghost before = cmd@;
    cmd.arg_text(name);
    cmd.arg(copy_word(value));
    assert(cmd@ =~= before.with_args(seq![text::utf8(name@), value@]));
}

/// Adds the package options to the arguments of `cmd`.
fn append_package_options(cx: &Context, cmd: &mut ProcessBuilder)
    ensures
        final(cmd)@ == old(cmd)@.with_args(package_options(*cx)),
{
    let ghost before = cmd@;
    append_flag(cmd, cx.args.no_fail_fast, "--no-fail-fast");
    append_flag(cmd, cx.args.workspace, "--workspace");
    append_repeated(cmd, "--exclude", &cx.args.exclude);
    append_flag(cmd, cx.args.release, "--release");
    assert(cmd@ =~= before.with_args(package_options(*cx)));
}

/// Adds the feature options to the arguments of `cmd`.
fn append_feature_options(cx: &Context, cmd: &mut ProcessBuilder)
    ensures
        final(cmd)@ == old(cmd)@.with_args(feature_options(*cx)),
{
    let ghost before = cmd@;
    append_repeated(cmd, "--features", &cx.args.features);
    append_flag(cmd, cx.args.all_features, "--all-features");
    append_flag(cmd, cx.args.no_default_features, "--no-default-features");
    append_optional(cmd, "--target", match &cx.args.target {
        Some(target) => Some(target.as_str()),
        None => None,
    });
    assert(cmd@ =~= before.with_args(feature_options(*cx)));
}

/// Adds the manifest options to the arguments of `cmd`.
fn append_manifest_options(cx: &Context, cmd: &mut ProcessBuilder)
    ensures
        final(cmd)@ == old(cmd)@.with_args(manifest_options(*cx)),
{
    let ghost before = cmd@;
    append_pair(cmd, "--manifest-path", &cx.manifest_path);
    append_optional(cmd, "--color", match cx.args.color {
        Some(color) => Some(color.cargo_color()),
        None => None,
    });
    append_flag(cmd, cx.args.frozen, "--frozen");
    append_flag(cmd, cx.args.locked, "--locked");
    assert(cmd@ =~= before.with_args(manifest_options(*cx)));
}

/// Adds the options that stand before verbosity to the arguments of `cmd`.
pub(crate) fn append_options_before_verbose(cx: &Context, cmd: &mut ProcessBuilder)
    ensures
        final(cmd)@ == old(cmd)@.with_args(options_before_verbose(*cx)),
{
    broadcast use process::lemma_with_args_twice;

    append_package_options(cx, cmd);
    append_feature_options(cx, cmd);
    append_manifest_options(cx, cmd);
}

/// Adds the unstable flags to the arguments of `cmd`.
pub(crate) fn append_unstable_options(cx: &Context, cmd: &mut ProcessBuilder)
    ensures
        final(cmd)@ == old(cmd)@.with_args(unstable_options(*cx)),
{
    append_repeated(cmd, "-Z", &cx.args.unstable_flags);
}

/// Adds the arguments for the test binary to those of `cmd`.
pub(crate) fn append_test_args(cx: &Context, cmd: &mut ProcessBuilder)
    ensures
        final(cmd)@ == old(cmd)@.with_args(test_args(text::words(cx.args.args@))),
{
    let ghost before = cmd@;
    if !cx.args.args.is_empty() {
        cmd.arg_text("--");
        append_words(cmd, &cx.args.args);
    }
    assert(cmd@ =~= before.with_args(test_args(text::words(cx.args.args@))));
}

/// Passes on to cargo what the command line asks of it.
pub fn append_args(cx: &Context, cmd: &mut ProcessBuilder)
    ensures
        final(cmd)@ == old(cmd)@.with_args(cargo_options(*cx)),
{
    broadcast use process::lemma_with_args_twice;

    append_options_before_verbose(cx, cmd);
    let ghost quiet = cmd@;
    if let Some(verbose) = &cx.verbose {
        cmd.arg_text(verbose.as_str());
    }
    assert(cmd@ =~= quiet.with_args(verbose_option(*cx)));
    append_unstable_options(cx, cmd);
    append_test_args(cx, cmd);
}

impl std::ops::Deref for Context {
    type Target = Args;

    /// The command line.
    fn deref(&self) -> (args: &Args)
        ensures
            *args == self.args,
    {
        &self.args
    }
}

impl Context {
    /// There is at most one format, each option that needs a format or a directory has it, and
    /// what follows from the command line and the workspace is as it should be.
    pub open spec fn is_consistent(self) -> bool {
        &&& self.args.json ==> !self.args.lcov && !self.args.text && !self.args.html
        &&& self.args.lcov ==> !self.args.text && !self.args.html
        &&& self.args.text ==> !self.args.html
        &&& self.args.open ==> self.args.html
        &&& self.args.html ==> self.args.output_dir is Some
        &&& self.args.output_dir is Some ==> self.args.text || self.args.html
        &&& self.args.summary_only ==> !self.args.text && !self.args.html
        &&& self.args.output_path is Some ==> !self.args.html && self.args.output_dir is None
        &&& self.args.output_path is Some ==> self.args.json || self.args.lcov || self.args.text
        &&& self.verbose is None <==> self.args.verbose == 0
        &&& path::is_join(
            self.metadata.target_directory@,
            "llvm-cov-target"@,
            self.target_dir@,
        )
    }

    /// A process that runs in the workspace.
    pub fn process(&self, program: Vec<u8>) -> (cmd: ProcessBuilder)
        ensures
            cmd@ == workspace_process(*self, program@),
    {
        let mut cmd = ProcessBuilder::new(program);
        cmd.dir(self.metadata.workspace_root.as_str());
        if self.verbose.is_some() {
            cmd.display_env_vars();
        }
        cmd
    }
}

} // verus!
