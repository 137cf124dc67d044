//! What a setup finds out, from its first question to its last.

use vstd::prelude::*;

use crate::args::Args;
use crate::color;
use crate::color::Coloring;
use crate::context::Context;
use crate::context::Metadata;
use crate::error::Error;
use crate::path;
use crate::process;
use crate::session;
use crate::setup;
use crate::setup::Progress;
use crate::setup::Reply;
use crate::setup::Setup;
use crate::setup::Stage;
use crate::text;
use crate::toolchain;

verus! {

/// What a setup gets to see of the system, as far as the context depends on it.
pub struct Observed {
    /// The colour choice in the environment.
    pub color: Option<Seq<char>>,
    /// The manifest of the package in the current directory.
    pub manifest: Seq<char>,
    pub metadata: Metadata,
    /// The cargo named in the environment.
    pub cargo: Option<Seq<u8>>,
    /// Cargo's version.
    pub version: Seq<char>,
    /// What the compiler prints as its sysroot, if it can be asked.
    pub sysroot: Option<Seq<char>>,
    /// The compiler named in the environment.
    pub rustc: Option<Seq<u8>>,
    /// The compiler's version report.
    pub host: Seq<char>,
    /// Whether `llvm-cov` is there.
    pub has_llvm_cov: bool,
    /// Whether `llvm-profdata` is there.
    pub has_llvm_profdata: bool,
    /// Whether `rustfilt` runs.
    pub runs_rustfilt: bool,
}

/// `reply`, to the question of the given stage, tells what is observed.
pub open spec fn tells(stage: Stage, reply: Reply, seen: Observed) -> bool {
    match (stage, reply) {
        (Stage::Color, Reply::Var(var)) => process::optional_text(var) == seen.color,
        (Stage::Manifest, Reply::Output(manifest)) => manifest@ == seen.manifest,
        (Stage::Metadata, Reply::Metadata(metadata)) => metadata == seen.metadata,
        (Stage::Cargo, Reply::VarOs(var)) => process::optional_word(var) == seen.cargo,
        (Stage::Version, Reply::Output(version)) => version@ == seen.version,
        (Stage::SysrootRustc | Stage::HostRustc, Reply::VarOs(var)) => process::optional_word(var)
            == seen.rustc,
        (Stage::Sysroot, Reply::Output(output)) => seen.sysroot == Some(output@),
        (Stage::Host, Reply::Output(output)) => output@ == seen.host,
        (Stage::LlvmCov, Reply::Exists(there)) => there == seen.has_llvm_cov,
        (Stage::LlvmProfdata, Reply::Exists(there)) => there == seen.has_llvm_profdata,
        (Stage::Rustfilt, Reply::Done) => seen.runs_rustfilt,
        _ => true,
    }
}

/// The colour choice: that of the command line, else that of the environment.
pub open spec fn color_of(args: Args, seen: Observed) -> Option<Coloring> {
    match (args.color, seen.color) {
        (Some(choice), _) => Some(choice),
        (None, Some(name)) => color::color_named(name),
        (None, None) => None,
    }
}

/// The colour choice in the environment is one, where it counts.
pub open spec fn has_valid_color(args: Args, seen: Observed) -> bool {
    args.color is None && seen.color is Some ==> color::color_named(seen.color->0) is Some
}

/// The manifest: that of the command line, else that of the current directory.
pub open spec fn manifest_of(args: Args, seen: Observed) -> Seq<u8> {
    match args.manifest_path {
        Some(manifest) => manifest@,
        None => text::utf8(seen.manifest),
    }
}

/// Cargo: that of the environment if it is nightly, else the usual one.
pub open spec fn cargo_of(seen: Observed) -> Seq<u8> {
    if toolchain::is_nightly(seen.version) {
        toolchain::cargo_program(seen.cargo)
    } else {
        text::utf8("cargo"@)
    }
}

/// The two tools of `cx` are those of the compiler.
pub open spec fn has_tools(exe_suffix: Seq<char>, seen: Observed, cx: Context) -> bool {
    let sysroot = text::trimmed(seen.sysroot->0);
    toolchain::host_in(text::lines_of(seen.host)) matches Some(host) && {
        &&& seen.sysroot is Some
        &&& toolchain::is_tool(sysroot, host, "llvm-cov"@ + exe_suffix, cx.llvm_cov@)
        &&& toolchain::is_tool(sysroot, host, "llvm-profdata"@ + exe_suffix, cx.llvm_profdata@)
    }
}

/// Everything that a run needs is installed: the two tools, and `rustfilt` for a report that
/// shows the source.
pub open spec fn is_equipped(args: Args, seen: Observed) -> bool {
    &&& seen.has_llvm_cov
    &&& seen.has_llvm_profdata
    &&& setup::settled(args).shows() ==> seen.runs_rustfilt
}

/// `cx` is the context of a run that the command line asks for on the observed system.
pub open spec fn is_context_of(
    args: Args,
    exe_suffix: Seq<char>,
    seen: Observed,
    cx: Context,
) -> bool {
    &&& !args.lacks_format()
    &&& has_valid_color(args, seen)
    &&& cx.args == Args {
        color: color_of(args, seen),
        output_dir: cx.args.output_dir,
        ..setup::settled(args)
    }
    &&& setup::is_output_dir(
        setup::settled(args),
        seen.metadata.target_directory@,
        cx.args.output_dir,
    )
    &&& process::optional_text(cx.verbose) == setup::verbose_flag_of(args.verbose)
    &&& cx.metadata == seen.metadata
    &&& cx.manifest_path@ == manifest_of(args, seen)
    &&& path::is_join(
        seen.metadata.target_directory@,
        "llvm-cov-target"@,
        cx.target_dir@,
    )
    &&& has_tools(exe_suffix, seen, cx)
    &&& is_equipped(args, seen)
    &&& cx.cargo@ == cargo_of(seen)
    &&& cx.nightly == toolchain::is_nightly(seen.version)
}

/// How far a setup has come.
pub open spec fn rank(stage: Stage) -> int {
    match stage {
        Stage::Color => 0,
        Stage::Manifest => 1,
        Stage::Metadata => 2,
        Stage::Cargo => 3,
        Stage::Version => 4,
        Stage::SysrootRustc => 5,
        Stage::Sysroot => 6,
        Stage::HostRustc => 7,
        Stage::Host => 8,
        Stage::LlvmCov => 9,
        Stage::LlvmProfdata => 10,
        Stage::Rustfilt => 11,
    }
}

/// What a setup knows at its stage agrees with the command line and with what is observed.
pub open spec fn agrees(args: Args, exe_suffix: Seq<char>, seen: Observed, at: Setup) -> bool {
    let cx = at.cx;
    let n = rank(at.stage);
    &&& !args.lacks_format()
    &&& at.exe_suffix@ == exe_suffix
    &&& process::optional_text(cx.verbose) == setup::verbose_flag_of(args.verbose)
    &&& cx.args == Args {
        color: if n > 0 {
            color_of(args, seen)
        } else {
            args.color
        },
        output_dir: cx.args.output_dir,
        ..setup::settled(args)
    }
    &&& n == 0 ==> args.color is None
    &&& n > 0 ==> has_valid_color(args, seen)
    &&& n == 1 ==> args.manifest_path is None
    &&& n > 1 ==> cx.manifest_path@ == manifest_of(args, seen)
    &&& n <= 2 ==> cx.args.output_dir == setup::settled(args).output_dir
    &&& n > 2 ==> {
        &&& cx.metadata == seen.metadata
        &&& setup::is_output_dir(
            setup::settled(args),
            seen.metadata.target_directory@,
            cx.args.output_dir,
        )
        &&& path::is_join(
            seen.metadata.target_directory@,
            "llvm-cov-target"@,
            cx.target_dir@,
        )
    }
    &&& n == 4 ==> cx.cargo@ == toolchain::cargo_program(seen.cargo)
    &&& n > 4 ==> cx.cargo@ == cargo_of(seen) && cx.nightly == toolchain::is_nightly(seen.version)
    &&& n > 6 ==> seen.sysroot is Some && at.sysroot@ == text::trimmed(seen.sysroot->0)
    &&& n == 8 ==> at.rustc@ == toolchain::rustc_program(seen.rustc)
    &&& n > 8 ==> has_tools(exe_suffix, seen, cx)
    &&& n > 9 ==> seen.has_llvm_cov
    &&& n > 10 ==> seen.has_llvm_profdata
}

/// Why a setup may end without a context.
pub open spec fn is_refusal(args: Args, seen: Observed, error: Error) -> bool {
    match error {
        Error::InvalidColor(name) => args.color is None && seen.color == Some(name@)
            && color::color_named(name@) is None,
        Error::OutputPathWithoutFormat => args.lacks_format(),
        Error::NoSysroot => seen.sysroot is None,
        Error::NoHost { rustc, output } => {
            &&& rustc@ == text::shown(toolchain::rustc_program(seen.rustc))
            &&& output@ == seen.host
            &&& toolchain::host_in(text::lines_of(seen.host)) is None
        },
        Error::NoLlvmTools { nightly } => {
            &&& nightly == toolchain::is_nightly(seen.version)
            &&& !seen.has_llvm_cov || !seen.has_llvm_profdata
        },
        Error::NoRustfilt { html } => {
            &&& setup::settled(args).shows() && !seen.runs_rustfilt
            &&& html == setup::settled(args).html
        },
    }
}

/// `pre` is answered with what is observed, and goes on as `r` says.
pub open spec fn is_answered(
    seen: Observed,
    pre: Setup,
    reply: Reply,
    r: Result<Progress, Error>,
) -> bool {
    &&& pre.awaits(reply)
    &&& tells(pre.stage, reply, seen)
    &&& setup::is_outcome(pre, reply, r)
    &&& setup::keeps_the_rest(pre, r)
}

/// Each of the setups is answered with what is observed and goes on as the next one.
pub open spec fn is_dialogue(
    seen: Observed,
    setups: Seq<Setup>,
    replies: Seq<Reply>,
    outcomes: Seq<Result<Progress, Error>>,
) -> bool {
    &&& setups.len() == replies.len() == outcomes.len()
    &&& forall|i: int|
        0 <= i < setups.len() ==> #[trigger] is_answered(seen, setups[i], replies[i], outcomes[i])
    &&& forall|i: int|
        0 <= i < setups.len() - 1 ==> (#[trigger] outcomes[i] is Ok && outcomes[i]->Ok_0 is Ask
            && setup::next_of(outcomes[i]) == setups[i + 1])
}

/// A setup begins in agreement with the command line.
pub proof fn lemma_setup_begins_in_agreement(
    args: Args,
    exe_suffix: String,
    seen: Observed,
    beginning: Result<Progress, Error>,
)
    requires
        setup::is_beginning(args, exe_suffix, beginning),
        beginning is Ok,
    ensures
        agrees(args, exe_suffix@, seen, setup::next_of(beginning)),
{
    if args.color is Some {
        let cx = setup::next_of(beginning).cx;
        lemma_forward_to_workspace(args, exe_suffix@, seen, cx, beginning);
    }
}

/// A setup is refused from the beginning exactly if a file to write into is given without one of
/// the formats that can be written into it.
pub proof fn lemma_output_path_needs_a_format(
    args: Args,
    exe_suffix: String,
    beginning: Result<Progress, Error>,
)
    requires
        setup::is_beginning(args, exe_suffix, beginning),
    ensures
        beginning is Err <==> args.output_path is Some && !(args.json || args.lcov || args.text),
        beginning matches Err(error) ==> error is OutputPathWithoutFormat,
        beginning matches Ok(progress) ==> progress is Ask,
{
}

/// A setup goes on from `pre` in agreement to a later stage, to the context, or to a reason to
/// refuse.
pub open spec fn is_forward(
    args: Args,
    exe_suffix: Seq<char>,
    seen: Observed,
    pre: Setup,
    r: Result<Progress, Error>,
) -> bool {
    match r {
        Ok(Progress::Ask(next, _, _)) => agrees(args, exe_suffix, seen, next) && rank(pre.stage)
            < rank(next.stage),
        Ok(Progress::Ready(cx)) => is_context_of(args, exe_suffix, seen, cx),
        Err(error) => is_refusal(args, seen, error),
    }
}

/// To the questions for the manifest and for the workspace.
proof fn lemma_forward_to_workspace(
    args: Args,
    exe_suffix: Seq<char>,
    seen: Observed,
    cx: Context,
    r: Result<Progress, Error>,
)
    requires
        !args.lacks_format(),
        has_valid_color(args, seen),
        setup::seeks_workspace(cx, r),
        setup::next_of(r).exe_suffix@ == exe_suffix,
        cx.args == (Args { color: color_of(args, seen), ..setup::settled(args) }),
        process::optional_text(cx.verbose) == setup::verbose_flag_of(args.verbose),
    ensures
        r is Ok,
        r->Ok_0 is Ask,
        agrees(args, exe_suffix, seen, setup::next_of(r)),
        rank(setup::next_of(r).stage) > 0,
{
    assert(cx.args.manifest_path == args.manifest_path);
}

/// From the question for the colour choice.
proof fn lemma_forward_from_color(
    args: Args,
    exe_suffix: Seq<char>,
    seen: Observed,
    pre: Setup,
    reply: Reply,
    r: Result<Progress, Error>,
)
    requires
        agrees(args, exe_suffix, seen, pre),
        is_answered(seen, pre, reply, r),
        pre.stage == Stage::Color,
    ensures
        is_forward(args, exe_suffix, seen, pre, r),
{
    match reply {
        Reply::Var(None) => {
            lemma_forward_to_workspace(args, exe_suffix, seen, pre.cx, r);
        },
        Reply::Var(Some(name)) => {
            if let Some(choice) = color::color_named(name@) {
                let colored = Args { color: Some(choice), ..pre.cx.args };
                let cx = Context { args: colored, ..pre.cx };
                lemma_forward_to_workspace(args, exe_suffix, seen, cx, r);
            }
        },
        _ => {},
    }
}

/// From the question for the manifest.
proof fn lemma_forward_from_manifest(
    args: Args,
    exe_suffix: Seq<char>,
    seen: Observed,
    pre: Setup,
    reply: Reply,
    r: Result<Progress, Error>,
)
    requires
        agrees(args, exe_suffix, seen, pre),
        is_answered(seen, pre, reply, r),
        pre.stage == Stage::Manifest,
    ensures
        is_forward(args, exe_suffix, seen, pre, r),
{
}

/// From the question for the workspace.
proof fn lemma_forward_from_metadata(
    args: Args,
    exe_suffix: Seq<char>,
    seen: Observed,
    pre: Setup,
    reply: Reply,
    r: Result<Progress, Error>,
)
    requires
        agrees(args, exe_suffix, seen, pre),
        is_answered(seen, pre, reply, r),
        pre.stage == Stage::Metadata,
    ensures
        is_forward(args, exe_suffix, seen, pre, r),
{
}

/// From the questions for cargo and its version.
proof fn lemma_forward_from_cargo(
    args: Args,
    exe_suffix: Seq<char>,
    seen: Observed,
    pre: Setup,
    reply: Reply,
    r: Result<Progress, Error>,
)
    requires
        agrees(args, exe_suffix, seen, pre),
        is_answered(seen, pre, reply, r),
        pre.stage == Stage::Cargo || pre.stage == Stage::Version,
    ensures
        is_forward(args, exe_suffix, seen, pre, r),
{
}

/// From the questions for the compiler and its sysroot.
proof fn lemma_forward_from_rustc(
    args: Args,
    exe_suffix: Seq<char>,
    seen: Observed,
    pre: Setup,
    reply: Reply,
    r: Result<Progress, Error>,
)
    requires
        agrees(args, exe_suffix, seen, pre),
        is_answered(seen, pre, reply, r),
        pre.stage == Stage::SysrootRustc || pre.stage == Stage::Sysroot || pre.stage
            == Stage::HostRustc,
    ensures
        is_forward(args, exe_suffix, seen, pre, r),
{
}

/// From the question for the host.
proof fn lemma_forward_from_host(
    args: Args,
    exe_suffix: Seq<char>,
    seen: Observed,
    pre: Setup,
    reply: Reply,
    r: Result<Progress, Error>,
)
    requires
        agrees(args, exe_suffix, seen, pre),
        is_answered(seen, pre, reply, r),
        pre.stage == Stage::Host,
    ensures
        is_forward(args, exe_suffix, seen, pre, r),
{
}

/// From the questions for the tools.
proof fn lemma_forward_from_tools(
    args: Args,
    exe_suffix: Seq<char>,
    seen: Observed,
    pre: Setup,
    reply: Reply,
    r: Result<Progress, Error>,
)
    requires
        agrees(args, exe_suffix, seen, pre),
        is_answered(seen, pre, reply, r),
        pre.stage == Stage::LlvmCov || pre.stage == Stage::LlvmProfdata || pre.stage
            == Stage::Rustfilt,
    ensures
        is_forward(args, exe_suffix, seen, pre, r),
{
}

/// Each answer that tells what is observed brings a setup forward: it stays in agreement, and
/// comes to a later stage, to the context, or to a reason to refuse.
pub proof fn lemma_setup_goes_forward(
    args: Args,
    exe_suffix: Seq<char>,
    seen: Observed,
    pre: Setup,
    reply: Reply,
    r: Result<Progress, Error>,
)
    requires
        agrees(args, exe_suffix, seen, pre),
        is_answered(seen, pre, reply, r),
    ensures
        is_forward(args, exe_suffix, seen, pre, r),
{
    match pre.stage {
        Stage::Color => lemma_forward_from_color(args, exe_suffix, seen, pre, reply, r),
        Stage::Manifest => lemma_forward_from_manifest(args, exe_suffix, seen, pre, reply, r),
        Stage::Metadata => lemma_forward_from_metadata(args, exe_suffix, seen, pre, reply, r),
        Stage::Cargo | Stage::Version => lemma_forward_from_cargo(
            args,
            exe_suffix,
            seen,
            pre,
            reply,
            r,
        ),
        Stage::SysrootRustc | Stage::Sysroot | Stage::HostRustc => lemma_forward_from_rustc(
            args,
            exe_suffix,
            seen,
            pre,
            reply,
            r,
        ),
        Stage::Host => lemma_forward_from_host(args, exe_suffix, seen, pre, reply, r),
        _ => lemma_forward_from_tools(args, exe_suffix, seen, pre, reply, r),
    }
}

/// A setup that is answered with what is observed ends with the context that the command line
/// and the system determine, or with a reason to refuse, after at most one question for each
/// stage.
pub proof fn lemma_setup_finds_context(
    args: Args,
    exe_suffix: String,
    seen: Observed,
    beginning: Result<Progress, Error>,
    setups: Seq<Setup>,
    replies: Seq<Reply>,
    outcomes: Seq<Result<Progress, Error>>,
)
    requires
        setup::is_beginning(args, exe_suffix, beginning),
        beginning is Ok,
        0 < setups.len(),
        setups[0] == setup::next_of(beginning),
        is_dialogue(seen, setups, replies, outcomes),
    ensures
        setups.len() <= 12,
        outcomes.last() matches Ok(Progress::Ready(cx)) ==> is_context_of(
            args,
            exe_suffix@,
            seen,
            cx,
        ),
        outcomes.last() matches Err(error) ==> is_refusal(args, seen, error),
{
    let last = setups.len() - 1;
    lemma_setup_begins_in_agreement(args, exe_suffix, seen, beginning);
    lemma_setup_agrees_at(args, exe_suffix@, seen, setups, replies, outcomes, last);
    assert(is_answered(seen, setups[last], replies[last], outcomes[last]));
    lemma_setup_goes_forward(
        args,
        exe_suffix@,
        seen,
        setups[last],
        replies[last],
        outcomes[last],
    );
}

/// There is a reason to refuse: a file to write into without a format for it, a colour choice that
/// is none, a compiler that does not say where it is or what its host is, or a tool that is
/// missing.
pub open spec fn is_refusable(args: Args, seen: Observed) -> bool {
    ||| args.lacks_format()
    ||| !has_valid_color(args, seen)
    ||| seen.sysroot is None
    ||| toolchain::host_in(text::lines_of(seen.host)) is None
    ||| !is_equipped(args, seen)
}

/// How it is explained that the question of the given stage has no answer.
pub open spec fn explanation(args: Args, stage: Stage) -> Option<Error> {
    match stage {
        Stage::Sysroot => Some(Error::NoSysroot),
        Stage::Rustfilt => Some(Error::NoRustfilt { html: setup::settled(args).html }),
        _ => None,
    }
}

/// A setup that goes on with a question explains a failure to answer it by what the question is
/// for, and asks for `rustfilt` only if a report shows the source.
pub proof fn lemma_failures_are_explained(
    args: Args,
    pre: Setup,
    reply: Reply,
    r: Result<Progress, Error>,
)
    requires
        pre.awaits(reply),
        setup::is_outcome(pre, reply, r),
        pre.cx.args.html == setup::settled(args).html,
        pre.cx.args.text == setup::settled(args).text,
    ensures
        r matches Ok(Progress::Ask(next, _, failure)) ==> {
            &&& failure == explanation(args, next.stage)
            &&& next.stage == Stage::Rustfilt ==> setup::settled(args).shows()
        },
{
}

/// The command line that a setup works with has the flags of the settled one.
pub(crate) proof fn lemma_flags_are_settled(
    args: Args,
    exe_suffix: Seq<char>,
    seen: Observed,
    at: Setup,
)
    requires
        agrees(args, exe_suffix, seen, at),
    ensures
        at.cx.args.html == setup::settled(args).html,
        at.cx.args.text == setup::settled(args).text,
{
}

/// A setup that has begun and is answered with what is observed is refused only for a reason, and
/// finds a context only if there is none.
pub proof fn lemma_setup_is_refused_for_a_reason(
    args: Args,
    exe_suffix: String,
    seen: Observed,
    beginning: Result<Progress, Error>,
    setups: Seq<Setup>,
    replies: Seq<Reply>,
    outcomes: Seq<Result<Progress, Error>>,
)
    requires
        setup::is_beginning(args, exe_suffix, beginning),
        beginning is Ok,
        0 < setups.len(),
        setups[0] == setup::next_of(beginning),
        is_dialogue(seen, setups, replies, outcomes),
    ensures
        !is_refusable(args, seen) ==> outcomes.last() is Ok,
        is_refusable(args, seen) ==> !(outcomes.last() matches Ok(Progress::Ready(_))),
{
    lemma_setup_finds_context(args, exe_suffix, seen, beginning, setups, replies, outcomes);
}

/// A setup that is answered with what is observed is in agreement at each of its stages.
proof fn lemma_setup_agrees_at(
    args: Args,
    exe_suffix: Seq<char>,
    seen: Observed,
    setups: Seq<Setup>,
    replies: Seq<Reply>,
    outcomes: Seq<Result<Progress, Error>>,
    n: int,
)
    requires
        0 <= n < setups.len(),
        agrees(args, exe_suffix, seen, setups[0]),
        is_dialogue(seen, setups, replies, outcomes),
    ensures
        agrees(args, exe_suffix, seen, setups[n]),
        n <= rank(setups[n].stage),
    decreases n,
{
    if n > 0 {
        let k = n - 1;
        lemma_setup_agrees_at(args, exe_suffix, seen, setups, replies, outcomes, k);
        assert(is_answered(seen, setups[k], replies[k], outcomes[k]));
        lemma_setup_goes_forward(
            args,
            exe_suffix,
            seen,
            setups[k],
            replies[k],
            outcomes[k],
        );
        assert(outcomes[k] is Ok);
    }
}

/// Every context that a setup finds for a consistent command line is consistent: there is at most
/// one format, and each option that needs a format or a directory has it.
pub proof fn lemma_context_is_consistent(
    args: Args,
    exe_suffix: Seq<char>,
    seen: Observed,
    cx: Context,
)
    requires
        args.is_consistent(),
        is_context_of(args, exe_suffix, seen, cx),
    ensures
        cx.is_consistent(),
{
}

/// A run can start with the context that a setup finds: a report to be opened has a directory.
pub proof fn lemma_context_can_start(
    args: Args,
    exe_suffix: Seq<char>,
    seen: Observed,
    cx: Context,
)
    requires
        is_context_of(args, exe_suffix, seen, cx),
    ensures
        session::opens(cx) ==> cx.args.output_dir is Some,
{
}

/// Reports in "html" format go into the directory `llvm-cov` of the target directory, unless
/// another is asked for.
pub proof fn lemma_html_has_a_directory(
    args: Args,
    exe_suffix: Seq<char>,
    seen: Observed,
    cx: Context,
)
    requires
        is_context_of(args, exe_suffix, seen, cx),
        args.html || args.open,
    ensures
        args.output_dir is Some ==> cx.args.output_dir == args.output_dir,
        args.output_dir is None ==> exists|dir: Seq<char>| #[trigger]
            path::is_join(seen.metadata.target_directory@, "llvm-cov"@, dir)
                && process::optional_word(cx.args.output_dir) == Some(text::utf8(dir)),
{
}

} // verus!
