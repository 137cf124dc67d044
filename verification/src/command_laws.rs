//! What the commands of a run are made of, word by word.

use vstd::prelude::*;

use crate::args::Args;
use crate::color::Coloring;
use crate::context;
use crate::context::Context;
use crate::option_laws;
use crate::option_laws::one;
use crate::plan;
use crate::report;
use crate::report::Format;
use crate::text;

verus! {

/// A process of a run is started in the root directory of the workspace, and its variables are
/// shown exactly if output is verbose.
pub proof fn lemma_processes_run_in_the_workspace(cx: Context, program: Seq<u8>)
    ensures
        ({
            let cmd = context::workspace_process(cx, program);
            &&& cmd.program == program
            &&& cmd.args.len() == 0
            &&& cmd.env.len() == 0
            &&& cmd.dir == Some(cx.metadata.workspace_root@)
            &&& !cmd.stdout_to_stderr && !cmd.stdout_capture && !cmd.stderr_capture
            &&& cmd.display_env_vars <==> cx.verbose is Some
        }),
{
}

/// The tests are built and run by cargo, on the nightly toolchain, in the run's own target
/// directory, with everything that the command line asks of cargo; what they print goes to
/// standard error.
pub proof fn lemma_test_command(cx: Context, env: Seq<(Seq<char>, Seq<u8>)>)
    ensures
        ({
            let cmd = plan::test_process(cx, env);
            let own = seq![
                text::utf8("test"@),
                text::utf8("--target-dir"@),
                text::utf8(cx.target_dir@),
            ];
            &&& cmd.program == cx.cargo@
            &&& cmd.env == env
            &&& cmd.dir == Some(cx.metadata.workspace_root@)
            &&& cmd.stdout_to_stderr && !cmd.stdout_capture && !cmd.stderr_capture
            &&& cmd.display_env_vars <==> cx.verbose is Some
            &&& cx.nightly ==> cmd.args == own + context::cargo_options(cx)
            &&& !cx.nightly ==> cmd.args == seq![text::utf8("+nightly"@)] + own
                + context::cargo_options(cx)
        }),
{
    let own = seq![text::utf8("test"@), text::utf8("--target-dir"@), text::utf8(cx.target_dir@)];
    if cx.nightly {
        assert(plan::cargo_test_args(cx) =~= own);
    } else {
        assert(plan::cargo_test_args(cx) =~= seq![text::utf8("+nightly"@)] + own);
    }
}

/// The flags for coverage are put behind the user's, which stay as they are, and are there also
/// without any of the user's. Rustdoc gets them exactly if doc tests are asked for.
pub proof fn lemma_flags_are_extended(own: Seq<u8>, root: Seq<char>, dir: Seq<char>)
    ensures
        plan::rustflags_value(None, root) == text::utf8(
            " -Zinstrument-coverage --remap-path-prefix "@ + root + "/="@,
        ),
        plan::rustflags_value(Some(own), root) == own + plan::rustflags_value(None, root),
        plan::rustdocflags_value(None, true, dir) == Some(
            text::utf8(" -Zinstrument-coverage -Zunstable-options --persist-doctests "@ + dir),
        ),
        plan::rustdocflags_value(Some(own), true, dir) == Some(
            own + plan::rustdocflags_value(None, true, dir)->0,
        ),
        plan::rustdocflags_value(None, false, dir) is None,
        plan::rustdocflags_value(Some(own), false, dir) == Some(own),
{
    let none = Seq::<u8>::empty();
    let compiler = text::utf8(" -Zinstrument-coverage --remap-path-prefix "@ + root + "/="@);
    let rustdoc = text::utf8(
        " -Zinstrument-coverage -Zunstable-options --persist-doctests "@ + dir,
    );
    assert(none + compiler =~= compiler);
    assert(none + rustdoc =~= rustdoc);
}

/// `at` is where `word` stands first in `list`.
pub open spec fn is_first(list: Seq<Seq<u8>>, word: Seq<u8>, at: int) -> bool {
    &&& 0 <= at < list.len()
    &&& list[at] == word
    &&& forall|k: int| 0 <= k < at ==> list[k] != word
}

/// A word in a list stands somewhere first.
proof fn lemma_some_is_first(list: Seq<Seq<u8>>, word: Seq<u8>, at: int) -> (first: int)
    requires
        0 <= at < list.len(),
        list[at] == word,
    ensures
        is_first(list, word, first),
        first <= at,
    decreases at,
{
    if exists|k: int| 0 <= k < at && list[k] == word {
        let k = choose|k: int| 0 <= k < at && list[k] == word;
        lemma_some_is_first(list, word, k)
    } else {
        at
    }
}

/// `words` with the two flags that make cargo list what it has built, before the last `own`
/// words.
pub open spec fn with_listing_flags(words: Seq<Seq<u8>>, own: int) -> Seq<Seq<u8>> {
    words.take(words.len() - own) + seq![
        text::utf8("--no-run"@),
        text::utf8("--message-format=json"@),
    ] + words.skip(words.len() - own)
}

/// What stands before and in the arguments for the test binary.
proof fn lemma_listing_parts(
    words: Seq<Seq<u8>>,
    a: Seq<Seq<u8>>,
    b: Seq<Seq<u8>>,
    c: Seq<Seq<u8>>,
    own: int,
)
    requires
        words == a + b + c,
        own == c.len(),
    ensures
        with_listing_flags(words, own) == a + b + seq![
            text::utf8("--no-run"@),
            text::utf8("--message-format=json"@),
        ] + c,
{
    assert(words.take(words.len() - own) =~= a + b);
    assert(words.skip(words.len() - own) =~= c);
}

/// What is listed is what was built for the tests: the command is the one that tests, in the same
/// environment, without the first word that is its flag for verbose output, and with two flags
/// more, which stand before the arguments for the test binary. Its output is captured.
pub proof fn lemma_list_command(cx: Context, env: Seq<(Seq<char>, Seq<u8>)>)
    ensures
        ({
            let test = plan::test_process(cx, env);
            let list = plan::list_process(cx, env);
            let own = option_laws::test_args_len(cx);
            &&& list.program == test.program
            &&& list.env == test.env
            &&& list.dir == test.dir
            &&& list.display_env_vars == test.display_env_vars
            &&& !list.stdout_to_stderr && list.stdout_capture && list.stderr_capture
            &&& cx.verbose is None ==> list.args == with_listing_flags(test.args, own)
            &&& cx.verbose matches Some(verbose) ==> exists|at: int| #[trigger]
                is_first(test.args, text::utf8(verbose@), at) && list.args == with_listing_flags(
                    test.args.remove(at),
                    own,
                )
        }),
{
    let test = plan::test_process(cx, env).args;
    let list = plan::list_process(cx, env).args;
    let start = plan::args_with_verbose(cx);
    let flags = context::unstable_options(cx);
    let last = context::test_args(text::words(cx.args.args@));
    let own = option_laws::test_args_len(cx);
    lemma_test_parts(cx);
    match cx.verbose {
        Some(verbose) => {
            let word = text::utf8(verbose@);
            let at = lemma_some_is_first(start, word, start.len() - 1);
            plan::lemma_without_first(start, word, at);
            lemma_remove_from_first(start, flags, last, at, word);
            lemma_listing_parts(test.remove(at), start.remove(at), flags, last, own);
            assert(is_first(test, word, at));
        },
        None => {
            lemma_listing_parts(test, start, flags, last, own);
        },
    }
}

/// The parts of the command that tests.
proof fn lemma_test_parts(cx: Context)
    ensures
        plan::test_command_args(cx) == plan::args_with_verbose(cx) + context::unstable_options(cx)
            + context::test_args(text::words(cx.args.args@)),
        context::test_args(text::words(cx.args.args@)).len() == option_laws::test_args_len(cx),
        cx.verbose matches Some(verbose) ==> plan::args_with_verbose(cx).len() > 0
            && plan::args_with_verbose(cx).last() == text::utf8(verbose@),
{
    let (a, b, c) = (
        plan::cargo_test_args(cx),
        context::options_before_verbose(cx),
        context::verbose_option(cx),
    );
    let (d, e) = (
        context::unstable_options(cx),
        context::test_args(text::words(cx.args.args@)),
    );
    assert(a + (b + c + d + e) =~= a + b + c + d + e);
}

/// A word that stands first in the first of three lists stands first in all of them.
proof fn lemma_remove_from_first(
    a: Seq<Seq<u8>>,
    b: Seq<Seq<u8>>,
    c: Seq<Seq<u8>>,
    at: int,
    word: Seq<u8>,
)
    requires
        is_first(a, word, at),
    ensures
        is_first(a + b + c, word, at),
        (a + b + c).remove(at) == a.remove(at) + b + c,
{
    assert((a + b + c).remove(at) =~= a.remove(at) + b + c);
}

/// Raw profiles are merged by `llvm-profdata`, all of them and in their order, into the given
/// file.
pub proof fn lemma_merge_command(cx: Context, profiles: Seq<Seq<u8>>, profdata_file: Seq<char>)
    ensures
        ({
            let cmd = plan::merge_process(cx, profiles, profdata_file);
            let n = profiles.len() as int;
            &&& cmd.program == text::utf8(cx.llvm_profdata@)
            &&& cmd.env.len() == 0
            &&& cmd.dir == Some(cx.metadata.workspace_root@)
            &&& !cmd.stdout_to_stderr && !cmd.stdout_capture && !cmd.stderr_capture
            &&& cmd.display_env_vars <==> cx.verbose is Some
            &&& cmd.args.len() == n + 4
            &&& cmd.args[0] == text::utf8("merge"@)
            &&& cmd.args[1] == text::utf8("-sparse"@)
            &&& forall|i: int| 0 <= i < n ==> cmd.args[2 + i] == #[trigger] profiles[i]
            &&& cmd.args[n + 2] == text::utf8("-o"@)
            &&& cmd.args[n + 3] == text::utf8(profdata_file)
        }),
{
}

/// How many words name the subcommand.
pub open spec fn subcommand_len(format: Format) -> int {
    if format == Format::Summary {
        1
    } else {
        2
    }
}

/// The report is an export of the data, without the source.
pub open spec fn is_export(format: Format) -> bool {
    format == Format::Json || format == Format::LCov
}

/// The report shows the source.
pub open spec fn is_show(format: Format) -> bool {
    format == Format::Text || format == Format::Html
}

/// `llvm-cov` is told about colours.
pub open spec fn tells_color(format: Format, args: Args) -> bool {
    !is_export(format) && (args.color == Some(Coloring::Always) || args.color == Some(
        Coloring::Never,
    ))
}

/// Some files are left out.
pub open spec fn leaves_files_out(args: Args) -> bool {
    !args.disable_default_ignore_filename_regex || args.ignore_filename_regex is Some
}

/// Where the profile is named.
pub open spec fn profile_at(format: Format, args: Args) -> int {
    subcommand_len(format) + one(tells_color(format, args))
}

/// Where the files to leave out are named.
pub open spec fn ignore_at(format: Format, args: Args, files: Seq<Seq<char>>) -> int {
    profile_at(format, args) + 1 + 2 * files.len()
}

/// Where the details of the report are given.
pub open spec fn detail_at(format: Format, args: Args, files: Seq<Seq<char>>) -> int {
    ignore_at(format, args, files) + 2 * one(leaves_files_out(args))
}

/// How many words give the details of the report.
pub open spec fn detail_len(format: Format, args: Args) -> int {
    if is_show(format) {
        4 + one(args.output_dir is Some)
    } else {
        one(is_export(format) && args.summary_only)
    }
}

/// The report is asked for in the given format, and with the given colours.
pub open spec fn has_format_words(words: Seq<Seq<u8>>, format: Format, args: Args) -> bool {
    let color = words[subcommand_len(format)];
    &&& format == Format::Summary ==> words[0] == text::utf8("report"@)
    &&& format == Format::Json ==> words[0] == text::utf8("export"@) && words[1] == text::utf8(
        "-format=text"@,
    )
    &&& format == Format::LCov ==> words[0] == text::utf8("export"@) && words[1] == text::utf8(
        "-format=lcov"@,
    )
    &&& format == Format::Text ==> words[0] == text::utf8("show"@) && words[1] == text::utf8(
        "-format=text"@,
    )
    &&& format == Format::Html ==> words[0] == text::utf8("show"@) && words[1] == text::utf8(
        "-format=html"@,
    )
    &&& !is_export(format) && args.color == Some(Coloring::Always) ==> color == text::utf8(
        "-use-color=1"@,
    )
    &&& !is_export(format) && args.color == Some(Coloring::Never) ==> color == text::utf8(
        "-use-color=0"@,
    )
}

/// The files to leave out are those of the user's expression, and of the default one unless that
/// is disabled.
pub open spec fn has_ignore_words(words: Seq<Seq<u8>>, at: int, args: Args) -> bool {
    let default = "rustc/|.cargo/(registry|git)/|.rustup/toolchains/|test(s)?/|target/llvm-cov-target/"@;
    &&& leaves_files_out(args) ==> words[at] == text::utf8("-ignore-filename-regex"@)
    &&& args.ignore_filename_regex matches Some(own) ==> words[at + 1] == text::utf8(
        if args.disable_default_ignore_filename_regex {
            own@
        } else {
            own@ + "|"@ + default
        },
    )
    &&& args.ignore_filename_regex is None && !args.disable_default_ignore_filename_regex
        ==> words[at + 1] == text::utf8(default)
}

/// A report that shows the source shows all of it, with demangled names, in the directory for
/// reports if there is one. Exported data is cut down to a summary if that is asked.
pub open spec fn has_detail_words(words: Seq<Seq<u8>>, at: int, format: Format, args: Args) -> bool {
    &&& is_show(format) ==> {
        &&& words[at] == text::utf8("-show-instantiations"@)
        &&& words[at + 1] == text::utf8("-show-line-counts-or-regions"@)
        &&& words[at + 2] == text::utf8("-show-expansions"@)
        &&& words[at + 3] == text::utf8("-Xdemangler=rustfilt"@)
        &&& args.output_dir matches Some(dir) ==> words[at + 4] == text::utf8(
            "-output-dir="@ + text::shown(dir@),
        )
    }
    &&& is_export(format) && args.summary_only ==> words[at] == text::utf8("-summary-only"@)
}

/// The words before the profile.
proof fn lemma_format_words(format: Format, args: Args)
    ensures
        ({
            let words = text::as_words(report::subcommand(format)) + report::at_most_one(
                report::color_flag(format, args.color),
            );
            &&& words.len() == profile_at(format, args)
            &&& has_format_words(words, format, args)
        }),
{
}

/// The words that name the objects.
proof fn lemma_object_words(files: Seq<Seq<char>>)
    ensures
        context::repeated("-object"@, files).len() == 2 * files.len(),
        option_laws::has_pairs(context::repeated("-object"@, files), 0, "-object"@, files),
{
}

/// The words that name the files to leave out.
proof fn lemma_ignore_words(args: Args)
    ensures
        ({
            let words = context::optional("-ignore-filename-regex"@, report::ignore_regex(args));
            &&& words.len() == 2 * one(leaves_files_out(args))
            &&& has_ignore_words(words, 0, args)
        }),
{
}

/// The words that give the details.
proof fn lemma_detail_words(format: Format, args: Args)
    ensures
        report::detail_options(format, args).len() == detail_len(format, args),
        has_detail_words(report::detail_options(format, args), 0, format, args),
{
}

/// A list that is made of the parts of a report command has the words of each.
proof fn lemma_report_words_of_parts(
    format: Format,
    args: Args,
    profile: Seq<u8>,
    files: Seq<Seq<char>>,
    words: Seq<Seq<u8>>,
    a: Seq<Seq<u8>>,
    c: Seq<Seq<u8>>,
    d: Seq<Seq<u8>>,
    e: Seq<Seq<u8>>,
)
    requires
        words == a + seq![profile] + c + d + e,
        a.len() == profile_at(format, args),
        has_format_words(a, format, args),
        c.len() == 2 * files.len(),
        option_laws::has_pairs(c, 0, "-object"@, files),
        d.len() == 2 * one(leaves_files_out(args)),
        has_ignore_words(d, 0, args),
        e.len() == detail_len(format, args),
        has_detail_words(e, 0, format, args),
    ensures
        words.len() == detail_at(format, args, files) + detail_len(format, args),
        has_format_words(words, format, args),
        words[profile_at(format, args)] == profile,
        option_laws::has_pairs(words, profile_at(format, args) + 1, "-object"@, files),
        has_ignore_words(words, ignore_at(format, args, files), args),
        has_detail_words(words, detail_at(format, args, files), format, args),
{
    let start = profile_at(format, args) + 1;
    assert forall|j: int| start <= j < start + c.len() implies #[trigger] words[j] == c[j - start] by {
    }
    option_laws::lemma_pairs_in(words, c, start, 0, "-object"@, files);
}

/// A report is made by `llvm-cov` in the workspace; its output is captured exactly if it goes into
/// a file. The command names the format, the colours, the profile, every object, the files to
/// leave out and the details, each as it is asked and nothing besides.
pub proof fn lemma_report_command(
    format: Format,
    cx: Context,
    profdata_file: Seq<char>,
    files: Seq<Seq<char>>,
)
    ensures
        ({
            let cmd = report::report_process(format, cx, profdata_file, files);
            let args = cx.args;
            &&& cmd.program == text::utf8(cx.llvm_cov@)
            &&& cmd.env.len() == 0
            &&& cmd.dir == Some(cx.metadata.workspace_root@)
            &&& cmd.stdout_capture <==> cx.args.output_path is Some
            &&& !cmd.stdout_to_stderr && !cmd.stderr_capture
            &&& cmd.display_env_vars <==> cx.verbose is Some
            &&& cmd.args.len() == detail_at(format, args, files) + detail_len(format, args)
            &&& has_format_words(cmd.args, format, args)
            &&& cmd.args[profile_at(format, args)] == text::utf8(
                "-instr-profile="@ + profdata_file,
            )
            &&& option_laws::has_pairs(
                cmd.args,
                profile_at(format, args) + 1,
                "-object"@,
                files,
            )
            &&& has_ignore_words(cmd.args, ignore_at(format, args, files), args)
            &&& has_detail_words(cmd.args, detail_at(format, args, files), format, args)
        }),
{
    lemma_format_words(format, cx.args);
    lemma_object_words(files);
    lemma_ignore_words(cx.args);
    lemma_detail_words(format, cx.args);
    let words = report::report_args(format, cx.args, profdata_file, files);
    assert(report::report_process(format, cx, profdata_file, files).args =~= words);
    lemma_report_words_of_parts(
        format,
        cx.args,
        text::utf8("-instr-profile="@ + profdata_file),
        files,
        words,
        text::as_words(report::subcommand(format)) + report::at_most_one(
            report::color_flag(format, cx.args.color),
        ),
        context::repeated("-object"@, files),
        context::optional("-ignore-filename-regex"@, report::ignore_regex(cx.args)),
        report::detail_options(format, cx.args),
    );
}

/// The command of a report, with other options on the command line.
pub open spec fn report_words(
    format: Format,
    cx: Context,
    args: Args,
    profdata_file: Seq<char>,
    files: Seq<Seq<char>>,
) -> Seq<Seq<u8>> {
    report::report_process(format, Context { args, ..cx }, profdata_file, files).args
}

/// `--summary-only` adds `-summary-only` to the end of the command of each export, "json" and
/// "lcov" alike, and nothing to that of any other report.
pub proof fn lemma_summary_only_is_one_word(
    format: Format,
    cx: Context,
    profdata_file: Seq<char>,
    files: Seq<Seq<char>>,
)
    ensures
        ({
            let on = Args { summary_only: true, ..cx.args };
            let off = Args { summary_only: false, ..cx.args };
            let with = report_words(format, cx, on, profdata_file, files);
            let without = report_words(format, cx, off, profdata_file, files);
            &&& format == Format::Json || format == Format::LCov ==> {
                &&& with == without.push(text::utf8("-summary-only"@))
                &&& with.last() == text::utf8("-summary-only"@)
            }
            &&& format != Format::Json && format != Format::LCov ==> with == without
        }),
{
    let on = Args { summary_only: true, ..cx.args };
    let off = Args { summary_only: false, ..cx.args };
    lemma_details_come_last(format, cx, on, off, profdata_file, files);
    if format == Format::Json || format == Format::LCov {
        assert(report::detail_options(format, on) =~= report::detail_options(format, off).push(
            text::utf8("-summary-only"@),
        ));
        assert(report_words(format, cx, on, profdata_file, files) =~= report_words(
            format,
            cx,
            off,
            profdata_file,
            files,
        ).push(text::utf8("-summary-only"@)));
    }
}

/// A directory for reports adds one word to the end of the command of each report that shows the
/// source, and nothing to that of any other.
pub proof fn lemma_output_dir_is_one_word(
    format: Format,
    cx: Context,
    dir: Vec<u8>,
    profdata_file: Seq<char>,
    files: Seq<Seq<char>>,
)
    ensures
        ({
            let on = Args { output_dir: Some(dir), ..cx.args };
            let off = Args { output_dir: None, ..cx.args };
            let with = report_words(format, cx, on, profdata_file, files);
            let without = report_words(format, cx, off, profdata_file, files);
            &&& format == Format::Text || format == Format::Html ==> with == without.push(
                text::utf8("-output-dir="@ + text::shown(dir@)),
            )
            &&& format != Format::Text && format != Format::Html ==> with == without
        }),
{
    let on = Args { output_dir: Some(dir), ..cx.args };
    let off = Args { output_dir: None, ..cx.args };
    lemma_details_come_last(format, cx, on, off, profdata_file, files);
    if format == Format::Text || format == Format::Html {
        let word = text::utf8("-output-dir="@ + text::shown(dir@));
        assert(report::detail_options(format, on) =~= report::detail_options(format, off).push(
            word,
        ));
        assert(report_words(format, cx, on, profdata_file, files) =~= report_words(
            format,
            cx,
            off,
            profdata_file,
            files,
        ).push(word));
    }
}

/// Command lines that differ only in details have commands that differ only in their details.
proof fn lemma_details_come_last(
    format: Format,
    cx: Context,
    on: Args,
    off: Args,
    profdata_file: Seq<char>,
    files: Seq<Seq<char>>,
)
    requires
        on.color == off.color,
        on.ignore_filename_regex == off.ignore_filename_regex,
        on.disable_default_ignore_filename_regex == off.disable_default_ignore_filename_regex,
    ensures
        exists|start: Seq<Seq<u8>>|
            report_words(format, cx, on, profdata_file, files) == #[trigger] (start
                + report::detail_options(format, on)) && report_words(
                format,
                cx,
                off,
                profdata_file,
                files,
            ) == start + report::detail_options(format, off),
{
    let start = text::as_words(report::subcommand(format)) + report::at_most_one(
        report::color_flag(format, off.color),
    ) + seq![text::utf8("-instr-profile="@ + profdata_file)] + context::repeated(
        "-object"@,
        files,
    ) + context::optional("-ignore-filename-regex"@, report::ignore_regex(off));
    assert(report_words(format, cx, on, profdata_file, files) =~= start + report::detail_options(
        format,
        on,
    ));
    assert(report_words(format, cx, off, profdata_file, files) =~= start + report::detail_options(
        format,
        off,
    ));
}

/// The format is decided by the first of `--json`, `--lcov`, `--text` and `--html` that is given,
/// and by nothing else.
pub proof fn lemma_format_is_first_asked(args: Args)
    ensures
        ({
            let format = report::format_of(args);
            &&& args.json ==> format == Format::Json
            &&& !args.json && args.lcov ==> format == Format::LCov
            &&& !args.json && !args.lcov && args.text ==> format == Format::Text
            &&& !args.json && !args.lcov && !args.text && args.html ==> format == Format::Html
            &&& !args.json && !args.lcov && !args.text && !args.html ==> format == Format::Summary
        }),
{
}

} // verus!
