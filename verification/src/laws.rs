//! What holds of the library as a whole.

use vstd::prelude::*;

use crate::args::Args;
use crate::color;
use crate::color::Coloring;
use crate::context;
use crate::context::Context;
use crate::plan;
use crate::report;
use crate::report::Format;
use crate::setup;
use crate::text;

verus! {

/// Reading the name of a colour choice gives back the choice.
pub proof fn lemma_color_name_is_read_back(choice: Coloring)
    ensures
        color::color_named(color::color_name(choice)) == Some(choice),
{
    color::lemma_color_names_differ();
}

/// A text is read as a colour choice only if it is the name of that choice.
pub proof fn lemma_only_color_names_are_read(name: Seq<char>, choice: Coloring)
    requires
        color::color_named(name) == Some(choice),
    ensures
        color::color_name(choice) == name,
{
}

/// Text that is turned into an operating system string is shown as it was.
pub proof fn lemma_text_is_shown(text: Seq<char>)
    ensures
        text::shown(text::utf8(text)) == text,
{
    vstd::utf8::encode_utf8_valid_utf8(text);
    vstd::utf8::encode_utf8_decode_utf8(text);
}

/// Settling a command line once is enough.
pub proof fn lemma_settled_once(args: Args)
    ensures
        setup::settled(setup::settled(args)) == setup::settled(args),
{
}

/// What the command line demands of the flags still holds once it is settled.
pub proof fn lemma_settled_is_consistent(args: Args)
    requires
        args.is_consistent(),
    ensures
        setup::settled(args).is_consistent(),
{
}

/// The format is the one that is asked for: each flag gives its format and no other does,
/// `--open` gives "html", and without a flag there is only a summary.
pub proof fn lemma_format_is_as_asked(args: Args)
    requires
        args.is_consistent(),
    ensures
        ({
            let format = report::format_of(setup::settled(args));
            &&& format == Format::Json <==> args.json
            &&& format == Format::LCov <==> args.lcov
            &&& format == Format::Text <==> args.text
            &&& format == Format::Html <==> args.html || args.open
            &&& format == Format::Summary <==> !args.json && !args.lcov && !args.text
                && !args.html && !args.open
        }),
{
}

/// Without a report that shows the source, a directory for reports has no effect.
pub proof fn lemma_output_dir_needs_source(args: Args, dir: Option<Vec<u8>>)
    requires
        !args.text && !args.html && !args.open,
    ensures
        setup::settled(Args { output_dir: dir, ..args }) == setup::settled(args),
{
}

/// Only exported data can be cut down to a summary: for every other format the flag has no
/// effect.
pub proof fn lemma_summary_only_needs_export(
    format: Format,
    args: Args,
    summary_only: bool,
    profdata_file: Seq<char>,
    files: Seq<Seq<char>>,
)
    requires
        format != Format::Json && format != Format::LCov,
    ensures
        report::report_args(format, Args { summary_only, ..args }, profdata_file, files)
            == report::report_args(format, args, profdata_file, files),
{
    let other = Args { summary_only, ..args };
    assert(report::ignore_regex(other) == report::ignore_regex(args));
    assert(report::detail_options(format, other) == report::detail_options(format, args));
}

/// `llvm-cov export` is told nothing about colours, whatever the choice is.
pub proof fn lemma_export_has_no_color(
    format: Format,
    args: Args,
    color: Option<Coloring>,
    profdata_file: Seq<char>,
    files: Seq<Seq<char>>,
)
    requires
        format == Format::Json || format == Format::LCov,
    ensures
        report::color_flag(format, color) is None,
        report::report_args(format, Args { color, ..args }, profdata_file, files)
            == report::report_args(format, args, profdata_file, files),
{
    let other = Args { color, ..args };
    assert(report::ignore_regex(other) == report::ignore_regex(args));
    assert(report::detail_options(format, other) == report::detail_options(format, args));
}

/// A choice to colour always or never reaches both cargo and, but for exports, `llvm-cov`.
pub proof fn lemma_color_is_propagated(
    cx: Context,
    choice: Coloring,
    format: Format,
    profdata_file: Seq<char>,
    files: Seq<Seq<char>>,
)
    requires
        cx.args.color == Some(choice),
        format != Format::Json && format != Format::LCov,
    ensures
        exists|i: int|
            0 <= i && i + 1 < context::cargo_options(cx).len() && context::cargo_options(cx)[i]
                == text::utf8("--color"@) && #[trigger] context::cargo_options(cx)[i + 1]
                == text::utf8(color::color_name(choice)),
        choice == Coloring::Always ==> report::report_args(
            format,
            cx.args,
            profdata_file,
            files,
        ).contains(text::utf8("-use-color=1"@)),
        choice == Coloring::Never ==> report::report_args(
            format,
            cx.args,
            profdata_file,
            files,
        ).contains(text::utf8("-use-color=0"@)),
{
    let options = context::cargo_options(cx);
    let at = context::package_options(cx).len() as int + context::feature_options(cx).len() + 2;
    assert(options[at] == text::utf8("--color"@));
    assert(options[at + 1] == text::utf8(color::color_name(choice)));
    let arguments = report::report_args(format, cx.args, profdata_file, files);
    let after = report::subcommand(format).len() as int;
    if choice == Coloring::Always {
        assert(arguments[after] == text::utf8("-use-color=1"@));
    }
    if choice == Coloring::Never {
        assert(arguments[after] == text::utf8("-use-color=0"@));
    }
}

/// Files are left out of a report by the user's expression and by the default one, unless that
/// is disabled; with neither nothing is left out.
pub proof fn lemma_ignored_files(args: Args)
    ensures
        args.ignore_filename_regex matches Some(own) ==> {
            &&& report::ignore_regex(args) is Some
            &&& text::begins_with(report::ignore_regex(args)->0, own@)
        },
        !args.disable_default_ignore_filename_regex ==> {
            &&& report::ignore_regex(args) is Some
            &&& text::ends_with(
                report::ignore_regex(args)->0,
                report::DEFAULT_IGNORE_FILENAME_REGEX@,
            )
        },
        args.disable_default_ignore_filename_regex && args.ignore_filename_regex is None
            ==> report::ignore_regex(args) is None,
{
    if let Some(own) = args.ignore_filename_regex {
        let regex = report::ignore_regex(args)->0;
        assert(regex.subrange(0, own@.len() as int) =~= own@);
    }
    if !args.disable_default_ignore_filename_regex {
        let regex = report::ignore_regex(args)->0;
        let default = report::DEFAULT_IGNORE_FILENAME_REGEX@;
        assert(regex.subrange(regex.len() - default.len(), regex.len() as int) =~= default);
    }
}

/// The test binary gets the caller's arguments and nothing else: in testing and in listing they
/// come last, after `--`, and there is no `--` without them.
pub proof fn lemma_test_args_come_last(cx: Context)
    ensures
        ({
            let test = plan::test_command_args(cx);
            let list = plan::list_command_args(cx);
            let own = text::words(cx.args.args@);
            own.len() > 0 ==> {
                &&& test.len() > own.len()
                &&& test.skip(test.len() - own.len()) == own
                &&& test[test.len() - own.len() - 1] == text::utf8("--"@)
                &&& list.len() > own.len()
                &&& list.skip(list.len() - own.len()) == own
                &&& list[list.len() - own.len() - 1] == text::utf8("--"@)
            }
        }),
        cx.args.args@.len() == 0 ==> context::test_args(text::words(cx.args.args@)).len() == 0,
{
    let test = plan::test_command_args(cx);
    let list = plan::list_command_args(cx);
    let own = text::words(cx.args.args@);
    if own.len() > 0 {
        assert(test.skip(test.len() - own.len()) =~= own);
        assert(list.skip(list.len() - own.len()) =~= own);
    }
}

/// Cargo is told to use the nightly toolchain exactly if it does not belong to one, and then
/// first of all.
pub proof fn lemma_nightly_is_asked_for(cx: Context)
    ensures
        plan::test_command_args(cx)[0] == (if cx.nightly {
            text::utf8("test"@)
        } else {
            text::utf8("+nightly"@)
        }),
{
}

/// A list without the word that was added to it is what it was, if it did not hold the word.
proof fn lemma_without_added_word(first: Seq<Seq<u8>>, word: Seq<u8>)
    requires
        !first.contains(word),
    ensures
        plan::without_first(first + seq![word], word) == first,
    decreases first.len(),
{
    let all = first + seq![word];
    if first.len() == 0 {
        assert(all.skip(1) =~= first);
    } else {
        assert(first[0] != word);
        assert forall|w: Seq<u8>| first.skip(1).contains(w) implies first.contains(w) by {
            let i = choose|i: int| 0 <= i < first.skip(1).len() && first.skip(1)[i] == w;
            assert(first[i + 1] == w);
        }
        lemma_without_added_word(first.skip(1), word);
        assert(all.skip(1) =~= first.skip(1) + seq![word]);
        assert(seq![first[0]] + first.skip(1) =~= first);
    }
}

/// What the tests were built with is what is listed: the two commands have the same program,
/// environment and directory, and the same arguments, but that only testing is verbose, and that
/// listing has two flags of its own before the arguments for the test binary. The values that the
/// command line gives to other options must not look like the flag for verbose output.
pub proof fn lemma_listing_matches_test(cx: Context, env: Seq<(Seq<char>, Seq<u8>)>)
    requires
        cx.verbose matches Some(verbose) ==> !(plan::cargo_test_args(cx)
            + context::options_before_verbose(cx)).contains(text::utf8(verbose@)),
    ensures
        ({
            let test = plan::test_process(cx, env);
            let list = plan::list_process(cx, env);
            let before = plan::cargo_test_args(cx) + context::options_before_verbose(cx);
            let own = context::test_args(text::words(cx.args.args@));
            &&& list.program == test.program
            &&& list.env == test.env
            &&& list.dir == test.dir
            &&& list.display_env_vars == test.display_env_vars
            &&& test.args == before + context::verbose_option(cx) + context::unstable_options(cx)
                + own
            &&& list.args == before + context::unstable_options(cx) + seq![
                text::utf8("--no-run"@),
                text::utf8("--message-format=json"@),
            ] + own
        }),
{
    let before = plan::cargo_test_args(cx) + context::options_before_verbose(cx);
    assert(plan::test_command_args(cx) =~= before + context::verbose_option(cx)
        + context::unstable_options(cx) + context::test_args(text::words(cx.args.args@)));
    match cx.verbose {
        Some(verbose) => {
            lemma_without_added_word(before, text::utf8(verbose@));
        },
        None => {
            assert(plan::args_with_verbose(cx) =~= before);
        },
    }
}

} // verus!
