//! What each stage of a setup asks, and what it makes of the answer.

use vstd::prelude::*;

use crate::args::Args;
use crate::color;
use crate::color::Coloring;
use crate::context::Context;
use crate::context::Metadata;
use crate::error::Error;
use crate::path;
use crate::process::ProcessView;
use crate::setup;
use crate::setup::Progress;
use crate::setup::Reply;
use crate::setup::Request;
use crate::setup::RequestView;
use crate::setup::Setup;
use crate::setup::Stage;
use crate::setup_laws;
use crate::setup_laws::Observed;
use crate::system::System;
use crate::text;
use crate::toolchain;

verus! {

/// `cmd` runs `program` with `args` and nothing else set, and its output is captured.
pub open spec fn is_reading(
    cmd: ProcessView,
    program: Seq<u8>,
    args: Seq<Seq<u8>>,
    dir: Option<Seq<char>>,
) -> bool {
    &&& cmd.program == program
    &&& cmd.args == args
    &&& cmd.env.len() == 0
    &&& cmd.dir == dir
    &&& cmd.stdout_capture
    &&& !cmd.stdout_to_stderr && !cmd.stderr_capture && !cmd.display_env_vars
}

/// The setup goes on at `stage` with a request, and with `failure` to explain why it fails.
pub open spec fn asks_next(
    r: Result<Progress, Error>,
    stage: Stage,
    failure: Option<Error>,
) -> bool {
    r matches Ok(Progress::Ask(next, _, explanation)) && next.stage == stage && explanation
        == failure
}

/// What the setup asks.
pub open spec fn request_of(r: Result<Progress, Error>) -> RequestView {
    r->Ok_0->Ask_1@
}

/// What the setup knows when it goes on.
pub open spec fn known(r: Result<Progress, Error>) -> Context {
    r->Ok_0->Ask_0.cx
}

/// The setup goes on to the workspace: with the manifest that the command line names, or by
/// asking cargo for that of the current directory. It still knows what it knew.
pub open spec fn turns_to_workspace(cx: Context, r: Result<Progress, Error>) -> bool {
    &&& cx.args.manifest_path matches Some(manifest) ==> {
        &&& asks_next(r, Stage::Metadata, None)
        &&& request_of(r) == RequestView::Metadata(manifest@)
        &&& known(r).manifest_path@ == manifest@
        &&& known(r) == Context { manifest_path: known(r).manifest_path, ..cx }
    }
    &&& cx.args.manifest_path is None ==> {
        &&& asks_next(r, Stage::Manifest, None)
        &&& request_of(r) matches RequestView::Read(cmd) && is_reading(
            cmd,
            text::utf8("cargo"@),
            seq![
                text::utf8("locate-project"@),
                text::utf8("--message-format"@),
                text::utf8("plain"@),
            ],
            None,
        )
        &&& known(r) == cx
    }
}

/// The processes of a setup are what they are called with.
proof fn lemma_readings(program: Seq<u8>, root: Seq<char>)
    ensures
        is_reading(
            toolchain::locate_process(),
            text::utf8("cargo"@),
            seq![
                text::utf8("locate-project"@),
                text::utf8("--message-format"@),
                text::utf8("plain"@),
            ],
            None,
        ),
        is_reading(
            toolchain::version_process(program, root),
            program,
            seq![text::utf8("version"@)],
            Some(root),
        ),
        is_reading(
            toolchain::sysroot_process(program),
            program,
            seq![text::utf8("--print"@), text::utf8("sysroot"@)],
            None,
        ),
        is_reading(
            toolchain::nightly_sysroot_process(),
            text::utf8("rustup"@),
            seq![
                text::utf8("run"@),
                text::utf8("nightly"@),
                text::utf8("rustc"@),
                text::utf8("--print"@),
                text::utf8("sysroot"@),
            ],
            None,
        ),
        is_reading(
            toolchain::host_process(program),
            program,
            seq![text::utf8("--version"@), text::utf8("--verbose"@)],
            None,
        ),
        is_reading(
            toolchain::rustfilt_process(),
            text::utf8("rustfilt"@),
            seq![text::utf8("-V"@)],
            None,
        ),
{
    assert(toolchain::locate_process().args =~= seq![
        text::utf8("locate-project"@),
        text::utf8("--message-format"@),
        text::utf8("plain"@),
    ]);
    assert(toolchain::version_process(program, root).args =~= seq![text::utf8("version"@)]);
    assert(toolchain::sysroot_process(program).args =~= seq![
        text::utf8("--print"@),
        text::utf8("sysroot"@),
    ]);
    assert(toolchain::nightly_sysroot_process().args =~= seq![
        text::utf8("run"@),
        text::utf8("nightly"@),
        text::utf8("rustc"@),
        text::utf8("--print"@),
        text::utf8("sysroot"@),
    ]);
    assert(toolchain::host_process(program).args =~= seq![
        text::utf8("--version"@),
        text::utf8("--verbose"@),
    ]);
    assert(toolchain::rustfilt_process().args =~= seq![text::utf8("-V"@)]);
}

/// Turning to the workspace is asking for it.
proof fn lemma_turns_to_workspace(cx: Context, r: Result<Progress, Error>)
    requires
        setup::seeks_workspace(cx, r),
    ensures
        turns_to_workspace(cx, r),
{
    lemma_readings(Seq::empty(), Seq::empty());
}

/// The flag for verbose output is a dash and as many letters `v` as verbose output is asked for,
/// and there is none if it is not.
pub proof fn lemma_verbose_flag_counts(times: u8)
    ensures
        setup::verbose_flag_of(times) is None <==> times == 0,
        setup::verbose_flag_of(times) matches Some(flag) ==> {
            &&& flag.len() == times + 1
            &&& flag[0] == '-'
            &&& forall|i: int| 1 <= i <= times ==> #[trigger] flag[i] == 'v'
        },
{
    reveal_strlit("-");
}

/// `--open` asks for "html" too; a directory for reports is dropped exactly if neither "text" nor
/// "html" is asked for; and nothing else of the command line changes.
pub proof fn lemma_settling(args: Args)
    ensures
        setup::settled(args).html <==> args.html || args.open,
        setup::settled(args).output_dir == (if args.text || args.html || args.open {
            args.output_dir
        } else {
            None
        }),
        setup::settled(args) == (Args {
            html: setup::settled(args).html,
            output_dir: setup::settled(args).output_dir,
            ..args
        }),
{
}

/// A setup begins by refusing a file to write into without a format for it; else it asks for the
/// colour choice in the environment exactly if the command line makes none, and otherwise turns
/// to the workspace. It works with the settled command line.
pub proof fn lemma_beginning(args: Args, exe_suffix: String, r: Result<Progress, Error>)
    requires
        setup::is_beginning(args, exe_suffix, r),
    ensures
        ({
            let refused = args.output_path is Some && !args.json && !args.lcov && !args.text;
            &&& r is Err <==> refused
            &&& r matches Err(error) ==> error is OutputPathWithoutFormat
            &&& !refused ==> {
                &&& known(r).args == setup::settled(args)
                &&& (match known(r).verbose {
                    Some(flag) => setup::verbose_flag_of(args.verbose) == Some(flag@),
                    None => setup::verbose_flag_of(args.verbose) is None,
                })
                &&& r->Ok_0->Ask_0.exe_suffix == exe_suffix
                &&& args.color is None ==> asks_next(r, Stage::Color, None) && request_of(r)
                    == RequestView::Var("CARGO_TERM_COLOR"@)
                &&& args.color is Some ==> turns_to_workspace(known(r), r)
            }
        }),
{
    if r is Ok && args.color is Some {
        lemma_turns_to_workspace(known(r), r);
    }
}

/// `cx` with a colour choice.
pub open spec fn colored(cx: Context, choice: Coloring) -> Context {
    Context { args: Args { color: Some(choice), ..cx.args }, ..cx }
}

/// Without a colour choice in the environment there is none.
pub proof fn lemma_no_color_stage(pre: Setup, r: Result<Progress, Error>)
    requires
        pre.stage == Stage::Color,
        setup::is_outcome(pre, Reply::Var(None), r),
    ensures
        turns_to_workspace(pre.cx, r),
{
    lemma_turns_to_workspace(pre.cx, r);
}

/// A colour choice is taken.
proof fn lemma_valid_color_stage(
    pre: Setup,
    name: String,
    choice: Coloring,
    r: Result<Progress, Error>,
)
    requires
        pre.stage == Stage::Color,
        setup::is_outcome(pre, Reply::Var(Some(name)), r),
        color::color_named(name@) == Some(choice),
    ensures
        turns_to_workspace(colored(pre.cx, choice), r),
{
    assert(setup::seeks_workspace(colored(pre.cx, choice), r));
    lemma_turns_to_workspace(colored(pre.cx, choice), r);
}

/// The colour choice in the environment is taken if it is one of the three names, and the setup
/// is refused if it is any other text.
pub proof fn lemma_color_stage(pre: Setup, name: String, r: Result<Progress, Error>)
    requires
        pre.stage == Stage::Color,
        setup::is_outcome(pre, Reply::Var(Some(name)), r),
    ensures
        name@ == "auto"@ ==> turns_to_workspace(colored(pre.cx, Coloring::Auto), r),
        name@ == "always"@ ==> turns_to_workspace(colored(pre.cx, Coloring::Always), r),
        name@ == "never"@ ==> turns_to_workspace(colored(pre.cx, Coloring::Never), r),
        name@ != "auto"@ && name@ != "always"@ && name@ != "never"@ ==> (
        r matches Err(Error::InvalidColor(found)) && found@ == name@),
{
    color::lemma_color_names_differ();
    if name@ == "auto"@ {
        lemma_valid_color_stage(pre, name, Coloring::Auto, r);
    } else if name@ == "always"@ {
        lemma_valid_color_stage(pre, name, Coloring::Always, r);
    } else if name@ == "never"@ {
        lemma_valid_color_stage(pre, name, Coloring::Never, r);
    }
}

/// The manifest that cargo prints is taken as it is.
pub proof fn lemma_manifest_stage(pre: Setup, manifest: String, r: Result<Progress, Error>)
    requires
        pre.stage == Stage::Manifest,
        setup::is_outcome(pre, Reply::Output(manifest), r),
    ensures
        asks_next(r, Stage::Metadata, None),
        request_of(r) == RequestView::Metadata(text::utf8(manifest@)),
        known(r).manifest_path@ == text::utf8(manifest@),
        known(r) == (Context { manifest_path: known(r).manifest_path, ..pre.cx }),
{
}

/// The target directory of the run is `llvm-cov-target` in that of the workspace. Reports in
/// "html" format go into `llvm-cov` there unless a directory is given, which is never replaced;
/// other reports get no directory. Next comes the cargo of the environment.
pub proof fn lemma_metadata_stage(pre: Setup, metadata: Metadata, r: Result<Progress, Error>)
    requires
        pre.stage == Stage::Metadata,
        setup::is_outcome(pre, Reply::Metadata(metadata), r),
    ensures
        asks_next(r, Stage::Cargo, None),
        request_of(r) == RequestView::VarOs("CARGO"@),
        known(r).metadata == metadata,
        path::is_join(metadata.target_directory@, "llvm-cov-target"@, known(r).target_dir@),
        pre.cx.args.output_dir is Some || !pre.cx.args.html ==> known(r).args.output_dir
            == pre.cx.args.output_dir,
        pre.cx.args.output_dir is None && pre.cx.args.html ==> (known(r).args.output_dir matches Some(
            dir,
        ) && exists|name: Seq<char>|
            dir@ == text::utf8(name) && #[trigger] path::is_join(
                metadata.target_directory@,
                "llvm-cov"@,
                name,
            )),
        known(r) == (Context {
            args: Args { output_dir: known(r).args.output_dir, ..pre.cx.args },
            metadata,
            target_dir: known(r).target_dir,
            ..pre.cx
        }),
{
}

/// Cargo is the one that the environment names, or `cargo` if it names none; it is asked for its
/// version in the workspace.
pub proof fn lemma_cargo_stage(pre: Setup, var: Option<Vec<u8>>, r: Result<Progress, Error>)
    requires
        pre.stage == Stage::Cargo,
        setup::is_outcome(pre, Reply::VarOs(var), r),
    ensures
        asks_next(r, Stage::Version, None),
        var matches Some(program) ==> known(r).cargo@ == program@,
        var is None ==> known(r).cargo@ == text::utf8("cargo"@),
        request_of(r) matches RequestView::Read(cmd) && is_reading(
            cmd,
            known(r).cargo@,
            seq![text::utf8("version"@)],
            Some(pre.cx.metadata.workspace_root@),
        ),
        known(r) == (Context { cargo: known(r).cargo, ..pre.cx }),
{
    lemma_readings(known(r).cargo@, pre.cx.metadata.workspace_root@);
}

/// A version is that of a nightly toolchain exactly if `-nightly` or `-dev` stands somewhere in
/// it.
pub proof fn lemma_nightly_versions(version: Seq<char>)
    ensures
        toolchain::is_nightly(version) <==> {
            ||| exists|i: int, j: int|
                0 <= i <= j <= version.len() && #[trigger] version.subrange(i, j) == "-nightly"@
            ||| exists|i: int, j: int|
                0 <= i <= j <= version.len() && #[trigger] version.subrange(i, j) == "-dev"@
        },
{
    text::lemma_occurs(version, "-nightly"@);
    text::lemma_occurs(version, "-dev"@);
}

/// With the version of a nightly toolchain, cargo stays the one that it is and the compiler of the
/// environment is asked for. With any other, that is one in which neither `-nightly` nor `-dev`
/// stands, the usual cargo takes its place, and the nightly compiler is asked for its sysroot.
pub proof fn lemma_version_stage(pre: Setup, version: String, r: Result<Progress, Error>)
    requires
        pre.stage == Stage::Version,
        setup::is_outcome(pre, Reply::Output(version), r),
    ensures
        known(r).nightly <==> {
            ||| exists|i: int, j: int|
                0 <= i <= j <= version@.len() && #[trigger] version@.subrange(i, j) == "-nightly"@
            ||| exists|i: int, j: int|
                0 <= i <= j <= version@.len() && #[trigger] version@.subrange(i, j) == "-dev"@
        },
        known(r).nightly ==> {
            &&& asks_next(r, Stage::SysrootRustc, None)
            &&& request_of(r) == RequestView::VarOs("RUSTC"@)
            &&& known(r).cargo@ == pre.cx.cargo@
        },
        !known(r).nightly ==> {
            &&& asks_next(r, Stage::Sysroot, Some(Error::NoSysroot))
            &&& request_of(r) matches RequestView::Read(cmd) && is_reading(
                cmd,
                text::utf8("rustup"@),
                seq![
                    text::utf8("run"@),
                    text::utf8("nightly"@),
                    text::utf8("rustc"@),
                    text::utf8("--print"@),
                    text::utf8("sysroot"@),
                ],
                None,
            )
            &&& known(r).cargo@ == text::utf8("cargo"@)
        },
        known(r) == (Context {
            cargo: known(r).cargo,
            nightly: known(r).nightly,
            ..pre.cx
        }),
{
    lemma_nightly_versions(version@);
    lemma_readings(Seq::empty(), Seq::empty());
}

/// The compiler that is asked for its sysroot is the one that the environment names, or `rustc`
/// if it names none.
pub proof fn lemma_sysroot_rustc_stage(
    pre: Setup,
    var: Option<Vec<u8>>,
    r: Result<Progress, Error>,
)
    requires
        pre.stage == Stage::SysrootRustc,
        setup::is_outcome(pre, Reply::VarOs(var), r),
    ensures
        asks_next(r, Stage::Sysroot, Some(Error::NoSysroot)),
        request_of(r) matches RequestView::Read(cmd) && is_reading(
            cmd,
            match var {
                Some(program) => program@,
                None => text::utf8("rustc"@),
            },
            seq![text::utf8("--print"@), text::utf8("sysroot"@)],
            None,
        ),
        known(r) == pre.cx,
{
    match var {
        Some(program) => lemma_readings(program@, Seq::empty()),
        None => lemma_readings(text::utf8("rustc"@), Seq::empty()),
    }
}

/// The sysroot is what the compiler prints, but for white space around it: nothing but white
/// space is cut off, and none is left at either end.
pub proof fn lemma_sysroot_stage(pre: Setup, output: String, r: Result<Progress, Error>)
    requires
        pre.stage == Stage::Sysroot,
        setup::is_outcome(pre, Reply::Output(output), r),
    ensures
        asks_next(r, Stage::HostRustc, None),
        request_of(r) == RequestView::VarOs("RUSTC"@),
        known(r) == pre.cx,
        is_without_white_space_around(output@, r->Ok_0->Ask_0.sysroot@),
{
    lemma_trimmed(output@);
}

/// `part` is all of `whole` but the white space around it.
pub open spec fn is_without_white_space_around(whole: Seq<char>, part: Seq<char>) -> bool {
    &&& exists|i: int, j: int|
        {
            &&& 0 <= i <= j <= whole.len()
            &&& part == #[trigger] whole.subrange(i, j)
            &&& forall|k: int| 0 <= k < i ==> text::is_white_space(#[trigger] whole[k])
            &&& forall|k: int| j <= k < whole.len() ==> text::is_white_space(#[trigger] whole[k])
        }
    &&& part.len() > 0 ==> !text::is_white_space(part[0]) && !text::is_white_space(part.last())
}

/// What is cut off at the start.
proof fn lemma_trimmed_start(whole: Seq<char>) -> (i: int)
    ensures
        0 <= i <= whole.len(),
        text::trimmed_start(whole) == whole.skip(i),
        forall|k: int| 0 <= k < i ==> text::is_white_space(#[trigger] whole[k]),
        i < whole.len() ==> !text::is_white_space(whole[i]),
    decreases whole.len(),
{
    if whole.len() > 0 && text::is_white_space(whole[0]) {
        let rest = whole.skip(1);
        let i = lemma_trimmed_start(rest);
        assert(rest.skip(i) =~= whole.skip(i + 1));
        assert forall|k: int| 0 <= k < i + 1 implies text::is_white_space(#[trigger] whole[k]) by {
            if k > 0 {
                assert(rest[k - 1] == whole[k]);
            }
        }
        i + 1
    } else {
        assert(whole.skip(0) =~= whole);
        0
    }
}

/// What is cut off at the end.
proof fn lemma_trimmed_end(whole: Seq<char>) -> (j: int)
    ensures
        0 <= j <= whole.len(),
        text::trimmed_end(whole) == whole.take(j),
        forall|k: int| j <= k < whole.len() ==> text::is_white_space(#[trigger] whole[k]),
        j > 0 ==> !text::is_white_space(whole[j - 1]),
    decreases whole.len(),
{
    if whole.len() > 0 && text::is_white_space(whole.last()) {
        let rest = whole.drop_last();
        let j = lemma_trimmed_end(rest);
        assert(rest.take(j) =~= whole.take(j));
        assert forall|k: int| j <= k < whole.len() implies text::is_white_space(
            #[trigger] whole[k],
        ) by {
            if k < rest.len() {
                assert(rest[k] == whole[k]);
            }
        }
        j
    } else {
        assert(whole.take(whole.len() as int) =~= whole);
        whole.len() as int
    }
}

/// Trimming cuts off all of the white space at either end, and nothing else.
pub proof fn lemma_trimmed(whole: Seq<char>)
    ensures
        is_without_white_space_around(whole, text::trimmed(whole)),
{
    let i = lemma_trimmed_start(whole);
    let rest = whole.skip(i);
    let n = lemma_trimmed_end(rest);
    let part = rest.take(n);
    assert(part =~= whole.subrange(i, i + n));
    assert forall|k: int| i + n <= k < whole.len() implies text::is_white_space(
        #[trigger] whole[k],
    ) by {
        assert(rest[k - i] == whole[k]);
    }
    if part.len() > 0 {
        assert(part[0] == whole[i]);
        assert(part.last() == rest[n - 1]);
    }
}

/// The compiler that is asked for its host is the one that the environment names, or `rustc` if
/// it names none.
pub proof fn lemma_host_rustc_stage(pre: Setup, var: Option<Vec<u8>>, r: Result<Progress, Error>)
    requires
        pre.stage == Stage::HostRustc,
        setup::is_outcome(pre, Reply::VarOs(var), r),
    ensures
        asks_next(r, Stage::Host, None),
        var matches Some(program) ==> r->Ok_0->Ask_0.rustc@ == program@,
        var is None ==> r->Ok_0->Ask_0.rustc@ == text::utf8("rustc"@),
        request_of(r) matches RequestView::Read(cmd) && is_reading(
            cmd,
            r->Ok_0->Ask_0.rustc@,
            seq![text::utf8("--version"@), text::utf8("--verbose"@)],
            None,
        ),
        known(r) == pre.cx,
{
    lemma_readings(r->Ok_0->Ask_0.rustc@, Seq::empty());
}

/// `line` reports the host.
pub open spec fn names_host(line: Seq<char>, host: Seq<char>) -> bool {
    line == "host: "@ + host
}

/// `host` is what the first line of `lines` reports that reports a host.
pub open spec fn is_first_host(lines: Seq<Seq<char>>, host: Seq<char>) -> bool {
    exists|i: int|
        0 <= i < lines.len() && #[trigger] names_host(lines[i], host) && forall|k: int, other: Seq<
            char,
        >|
            0 <= k < i ==> !#[trigger] names_host(lines[k], other)
}

/// A line reports a host exactly if it begins so.
proof fn lemma_begins(line: Seq<char>)
    ensures
        text::begins_with(line, "host: "@) ==> names_host(line, line.skip("host: "@.len() as int)),
        forall|host: Seq<char>| #[trigger]
            names_host(line, host) ==> text::begins_with(line, "host: "@),
{
    let start = "host: "@;
    if text::begins_with(line, start) {
        assert(line =~= line.subrange(0, start.len() as int) + line.skip(start.len() as int));
    }
    assert forall|host: Seq<char>| #[trigger] names_host(line, host) implies text::begins_with(
        line,
        start,
    ) by {
        assert(line.subrange(0, start.len() as int) =~= start);
    }
}

/// The host is what follows `host: ` on the first line that begins so, and there is none exactly
/// if no line does.
pub proof fn lemma_first_host(lines: Seq<Seq<char>>)
    ensures
        toolchain::host_in(lines) matches Some(host) ==> is_first_host(lines, host),
        toolchain::host_in(lines) is None ==> forall|k: int, other: Seq<char>|
            0 <= k < lines.len() ==> !#[trigger] names_host(lines[k], other),
    decreases lines.len(),
{
    if lines.len() > 0 {
        lemma_begins(lines[0]);
        let rest = lines.skip(1);
        if text::begins_with(lines[0], "host: "@) {
            assert(names_host(lines[0], lines[0].skip("host: "@.len() as int)));
        } else {
            lemma_first_host(rest);
            match toolchain::host_in(lines) {
                Some(host) => {
                    let i = choose|i: int|
                        0 <= i < rest.len() && #[trigger] names_host(rest[i], host) && forall|
                            k: int,
                            other: Seq<char>,
                        |
                            0 <= k < i ==> !#[trigger] names_host(rest[k], other);
                    assert(names_host(lines[i + 1], host));
                    assert forall|k: int, other: Seq<char>| 0 <= k < i + 1 implies !(
                    #[trigger] names_host(lines[k], other)) by {
                        if k > 0 {
                            assert(rest[k - 1] == lines[k]);
                            assert(!names_host(rest[k - 1], other));
                        }
                    }
                },
                None => {
                    assert forall|k: int, other: Seq<char>| 0 <= k < lines.len() implies !(
                    #[trigger] names_host(lines[k], other)) by {
                        if k > 0 {
                            assert(rest[k - 1] == lines[k]);
                            assert(!names_host(rest[k - 1], other));
                        }
                    }
                },
            }
        }
    }
}

/// `file` is the tool `name` in the directory of the compiler's tools.
pub open spec fn is_in_tools(
    sysroot: Seq<char>,
    host: Seq<char>,
    name: Seq<char>,
    file: Seq<char>,
) -> bool {
    exists|dir: Seq<char>| #[trigger]
        path::is_join(sysroot, "lib/rustlib/"@ + host + "/bin"@, dir) && path::is_join(
            dir,
            name,
            file,
        )
}

/// Both tools are taken from the sysroot, under the host that the compiler reports first, and with
/// the suffix of programs; without a host the setup is refused. First it is asked whether
/// `llvm-cov` is there.
pub proof fn lemma_host_stage(pre: Setup, output: String, r: Result<Progress, Error>)
    requires
        pre.stage == Stage::Host,
        setup::is_outcome(pre, Reply::Output(output), r),
    ensures
        r matches Err(error) ==> {
            &&& forall|k: int, other: Seq<char>|
                0 <= k < text::lines_of(output@).len() ==> !#[trigger] names_host(
                    text::lines_of(output@)[k],
                    other,
                )
            &&& error matches Error::NoHost { rustc, output: found } && rustc@ == text::shown(
                pre.rustc@,
            ) && found@ == output@
        },
        r is Ok ==> {
            &&& asks_next(r, Stage::LlvmCov, None)
            &&& request_of(r) == RequestView::Exists(known(r).llvm_cov@)
            &&& exists|host: Seq<char>| #[trigger]
                is_first_host(text::lines_of(output@), host) && is_in_tools(
                    pre.sysroot@,
                    host,
                    "llvm-cov"@ + pre.exe_suffix@,
                    known(r).llvm_cov@,
                ) && is_in_tools(
                    pre.sysroot@,
                    host,
                    "llvm-profdata"@ + pre.exe_suffix@,
                    known(r).llvm_profdata@,
                )
            &&& known(r) == Context {
                llvm_cov: known(r).llvm_cov,
                llvm_profdata: known(r).llvm_profdata,
                ..pre.cx
            }
        },
{
    lemma_first_host(text::lines_of(output@));
    if let Some(host) = toolchain::host_in(text::lines_of(output@)) {
        assert(is_first_host(text::lines_of(output@), host));
    }
}

/// A tool that is missing refuses the setup, and names the toolchain that lacks it. After
/// `llvm-cov` comes `llvm-profdata`; after that `rustfilt` exactly if a report shows the source,
/// and otherwise the context is complete.
pub proof fn lemma_tool_stages(pre: Setup, there: bool, r: Result<Progress, Error>)
    requires
        pre.stage == Stage::LlvmCov || pre.stage == Stage::LlvmProfdata,
        setup::is_outcome(pre, Reply::Exists(there), r),
    ensures
        !there ==> (r matches Err(Error::NoLlvmTools { nightly }) && nightly == pre.cx.nightly),
        there && pre.stage == Stage::LlvmCov ==> {
            &&& asks_next(r, Stage::LlvmProfdata, None)
            &&& request_of(r) == RequestView::Exists(pre.cx.llvm_profdata@)
            &&& known(r) == pre.cx
        },
        there && pre.stage == Stage::LlvmProfdata && (pre.cx.args.text || pre.cx.args.html) ==> {
            &&& asks_next(
                r,
                Stage::Rustfilt,
                Some(Error::NoRustfilt { html: pre.cx.args.html }),
            )
            &&& request_of(r) matches RequestView::Run(cmd) && is_reading(
                cmd,
                text::utf8("rustfilt"@),
                seq![text::utf8("-V"@)],
                None,
            )
            &&& known(r) == pre.cx
        },
        there && pre.stage == Stage::LlvmProfdata && !pre.cx.args.text && !pre.cx.args.html ==> (
        r matches Ok(Progress::Ready(cx)) && cx == pre.cx),
{
    lemma_readings(Seq::empty(), Seq::empty());
}

/// Once `rustfilt` runs, the context is complete as it is.
pub proof fn lemma_rustfilt_stage(pre: Setup, r: Result<Progress, Error>)
    requires
        pre.stage == Stage::Rustfilt,
        setup::is_outcome(pre, Reply::Done, r),
    ensures
        r matches Ok(Progress::Ready(cx)) && cx == pre.cx,
{
}

/// What a stage does not find out, it does not change: the suffix of programs never, the compiler
/// and the sysroot only at their own stages.
pub proof fn lemma_stages_keep_the_rest(pre: Setup, r: Result<Progress, Error>)
    requires
        setup::keeps_the_rest(pre, r),
    ensures
        r matches Ok(Progress::Ask(next, _, _)) ==> {
            &&& next.exe_suffix == pre.exe_suffix
            &&& pre.stage == Stage::HostRustc || next.rustc == pre.rustc
            &&& pre.stage == Stage::Sysroot || next.sysroot == pre.sysroot
        },
{
}

/// A setup is refused exactly for these reasons: a file to write into without a format for it, a
/// colour choice in the environment that counts and is none of the three names, no sysroot, no
/// line that reports a host, a tool that is missing, or no `rustfilt` where a report shows the
/// source.
pub proof fn lemma_refusals(args: Args, seen: Observed)
    ensures
        setup_laws::is_refusable(args, seen) <==> {
            ||| args.output_path is Some && !args.json && !args.lcov && !args.text
            ||| args.color is None && (seen.color matches Some(name) && name != "auto"@ && name
                != "always"@ && name != "never"@)
            ||| seen.sysroot is None
            ||| forall|k: int, other: Seq<char>|
                0 <= k < text::lines_of(seen.host).len() ==> !#[trigger] names_host(
                    text::lines_of(seen.host)[k],
                    other,
                )
            ||| !seen.has_llvm_cov
            ||| !seen.has_llvm_profdata
            ||| (args.text || args.html || args.open) && !seen.runs_rustfilt
        },
{
    let lines = text::lines_of(seen.host);
    lemma_first_host(lines);
    if let Some(host) = toolchain::host_in(lines) {
        let i = choose|i: int|
            0 <= i < lines.len() && #[trigger] names_host(lines[i], host) && forall|
                k: int,
                other: Seq<char>,
            |
                0 <= k < i ==> !#[trigger] names_host(lines[k], other);
        assert(names_host(lines[i], host));
    }
}

/// The context of a run holds the command line with "html" for `--open`, the colour choice of the
/// command line or else of the environment, the manifest of the command line or else of the
/// current directory, the workspace, and the cargo of the environment if that is of a nightly
/// toolchain and the usual one if not.
pub proof fn lemma_contexts(args: Args, exe_suffix: Seq<char>, seen: Observed, cx: Context)
    requires
        setup_laws::is_context_of(args, exe_suffix, seen, cx),
    ensures
        cx.args.html <==> args.html || args.open,
        args.color is Some ==> cx.args.color == args.color,
        args.color is None && seen.color is None ==> cx.args.color is None,
        args.color is None && seen.color == Some("auto"@) ==> cx.args.color == Some(Coloring::Auto),
        args.color is None && seen.color == Some("always"@) ==> cx.args.color == Some(
            Coloring::Always,
        ),
        args.color is None && seen.color == Some("never"@) ==> cx.args.color == Some(
            Coloring::Never,
        ),
        cx.args == (Args {
            html: cx.args.html,
            color: cx.args.color,
            output_dir: cx.args.output_dir,
            ..args
        }),
        cx.metadata == seen.metadata,
        args.manifest_path matches Some(manifest) ==> cx.manifest_path@ == manifest@,
        args.manifest_path is None ==> cx.manifest_path@ == text::utf8(seen.manifest),
        path::is_join(seen.metadata.target_directory@, "llvm-cov-target"@, cx.target_dir@),
        cx.nightly <==> {
            ||| exists|i: int, j: int|
                0 <= i <= j <= seen.version.len() && #[trigger] seen.version.subrange(i, j)
                    == "-nightly"@
            ||| exists|i: int, j: int|
                0 <= i <= j <= seen.version.len() && #[trigger] seen.version.subrange(i, j)
                    == "-dev"@
        },
        !cx.nightly ==> cx.cargo@ == text::utf8("cargo"@),
        cx.nightly && seen.cargo is None ==> cx.cargo@ == text::utf8("cargo"@),
        cx.nightly && seen.cargo is Some ==> cx.cargo@ == seen.cargo->0,
{
    lemma_nightly_versions(seen.version);
    color::lemma_color_names_differ();
}

/// A request is shown as what it is, with the name, process or path that it holds.
pub proof fn lemma_requests_are_shown(request: Request)
    ensures
        match request {
            Request::Var(name) => request@ == RequestView::Var(name@),
            Request::VarOs(name) => request@ == RequestView::VarOs(name@),
            Request::Read(cmd) => request@ == RequestView::Read(cmd@),
            Request::Run(cmd) => request@ == RequestView::Run(cmd@),
            Request::Metadata(manifest) => request@ == RequestView::Metadata(manifest@),
            Request::Exists(file) => request@ == RequestView::Exists(file@),
        },
{
}

/// What is known of a system is observed of it as it is.
pub proof fn lemma_systems_are_observed(system: System)
    ensures
        system.color matches Some(name) ==> system@.color == Some(name@),
        system.color is None ==> system@.color is None,
        system@.manifest == system.manifest@,
        system@.metadata == system.metadata,
        system.cargo matches Some(program) ==> system@.cargo == Some(program@),
        system.cargo is None ==> system@.cargo is None,
        system@.version == system.version@,
        system.rustc matches Some(program) ==> system@.rustc == Some(program@),
        system.rustc is None ==> system@.rustc is None,
        system.sysroot matches Some(output) ==> system@.sysroot == Some(output@),
        system.sysroot is None ==> system@.sysroot is None,
        system@.host == system.host@,
        system@.has_llvm_cov == system.has_llvm_cov,
        system@.has_llvm_profdata == system.has_llvm_profdata,
        system@.runs_rustfilt == system.runs_rustfilt,
{
}

/// Each request has its own kind of reply.
pub proof fn lemma_requests_have_their_replies(at: Setup, reply: Reply)
    ensures
        at.awaits(reply) <==> match reply {
            Reply::Var(_) => at.stage == Stage::Color,
            Reply::VarOs(_) => at.stage == Stage::Cargo || at.stage == Stage::SysrootRustc
                || at.stage == Stage::HostRustc,
            Reply::Output(_) => at.stage == Stage::Manifest || at.stage == Stage::Version
                || at.stage == Stage::Sysroot || at.stage == Stage::Host,
            Reply::Done => at.stage == Stage::Rustfilt,
            Reply::Metadata(_) => at.stage == Stage::Metadata,
            Reply::Exists(_) => at.stage == Stage::LlvmCov || at.stage == Stage::LlvmProfdata,
        },
{
}

} // verus!
