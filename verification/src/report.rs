//! The formats of coverage reports, and the `llvm-cov` commands that make them.

use vstd::prelude::*;

use crate::args::Args;
use crate::color::Coloring;
use crate::context;
use crate::context::Context;
use crate::process;
use crate::process::ProcessBuilder;
use crate::text;

verus! {

/// The source files that no report is about, unless they are asked for: those of the compiler,
/// of dependencies and of tests.
pub const DEFAULT_IGNORE_FILENAME_REGEX: &'static str =
    "rustc/|.cargo/(registry|git)/|.rustup/toolchains/|test(s)?/|target/llvm-cov-target/";

/// The format of a coverage report.
#[derive(Clone, Copy, Debug, PartialEq, Eq, Structural)]
pub enum Format {
    /// `llvm-cov report`
    Summary,
    /// `llvm-cov export -format=text`
    Json,
    /// `llvm-cov export -format=lcov`
    LCov,
    /// `llvm-cov show -format=text`
    Text,
    /// `llvm-cov show -format=html`
    Html,
}

/// The format that the command line asks for.
pub open spec fn format_of(args: Args) -> Format {
    if args.json {
        Format::Json
    } else if args.lcov {
        Format::LCov
    } else if args.text {
        Format::Text
    } else if args.html {
        Format::Html
    } else {
        Format::Summary
    }
}

/// The subcommand of `llvm-cov` that makes a report of the format.
pub open spec fn subcommand(format: Format) -> Seq<Seq<char>> {
    match format {
        Format::Summary => seq!["report"@],
        Format::Json => seq!["export"@, "-format=text"@],
        Format::LCov => seq!["export"@, "-format=lcov"@],
        Format::Text => seq!["show"@, "-format=text"@],
        Format::Html => seq!["show"@, "-format=html"@],
    }
}

/// The flag that tells `llvm-cov` about colours. `llvm-cov export` knows none.
pub open spec fn color_flag(format: Format, color: Option<Coloring>) -> Option<Seq<char>> {
    if format == Format::Json || format == Format::LCov {
        None
    } else {
        match color {
            Some(Coloring::Always) => Some("-use-color=1"@),
            Some(Coloring::Never) => Some("-use-color=0"@),
            _ => None,
        }
    }
}

/// One argument, or none.
pub open spec fn at_most_one(arg: Option<Seq<char>>) -> Seq<Seq<u8>> {
    match arg {
        Some(arg) => seq![text::utf8(arg)],
        None => Seq::empty(),
    }
}

/// The regular expression for the files to leave out: the user's, then the default one, unless
/// that is disabled.
pub open spec fn ignore_regex(args: Args) -> Option<Seq<char>> {
    match args.ignore_filename_regex {
        Some(own) => Some(
            if args.disable_default_ignore_filename_regex {
                own@
            } else {
                own@ + "|"@ + DEFAULT_IGNORE_FILENAME_REGEX@
            },
        ),
        None => if args.disable_default_ignore_filename_regex {
            None
        } else {
            Some(DEFAULT_IGNORE_FILENAME_REGEX@)
        },
    }
}

/// What the format adds to the arguments: how much of the source to show and where to write it,
/// or whether a summary is enough.
pub open spec fn detail_options(format: Format, args: Args) -> Seq<Seq<u8>> {
    match format {
        Format::Text | Format::Html => seq![
            text::utf8("-show-instantiations"@),
            text::utf8("-show-line-counts-or-regions"@),
            text::utf8("-show-expansions"@),
            text::utf8("-Xdemangler=rustfilt"@),
        ] + at_most_one(
            match args.output_dir {
                Some(dir) => Some("-output-dir="@ + text::shown(dir@)),
                None => None,
            },
        ),
        Format::Json | Format::LCov => context::flag(args.summary_only, "-summary-only"@),
        Format::Summary => Seq::empty(),
    }
}

/// The arguments of `llvm-cov` for a report on the given objects.
pub open spec fn report_args(
    format: Format,
    args: Args,
    profdata_file: Seq<char>,
    files: Seq<Seq<char>>,
) -> Seq<Seq<u8>> {
    text::as_words(subcommand(format))
        + at_most_one(color_flag(format, args.color))
        + seq![text::utf8("-instr-profile="@ + profdata_file)]
        + context::repeated("-object"@, files)
        + context::optional("-ignore-filename-regex"@, ignore_regex(args))
        + detail_options(format, args)
}

/// The process that makes a report; its output is captured if it goes into a file.
pub open spec fn report_process(
    format: Format,
    cx: Context,
    profdata_file: Seq<char>,
    files: Seq<Seq<char>>,
) -> process::ProcessView {
    process::ProcessView {
        stdout_capture: cx.args.output_path is Some,
        ..context::workspace_process(cx, text::utf8(cx.llvm_cov@)).with_args(
            report_args(format, cx.args, profdata_file, files),
        )
    }
}

/// Adds the detail options to the arguments of `cmd`.
fn append_detail_options(format: Format, args: &Args, cmd: &mut ProcessBuilder)
    ensures
        final(cmd)@ == old(cmd)@.with_args(detail_options(format, *args)),
{
    let ghost before = cmd@;
    match format {
        Format::Text | Format::Html => {
            cmd.arg_text("-show-instantiations");
            cmd.arg_text("-show-line-counts-or-regions");
            cmd.arg_text("-show-expansions");
            cmd.arg_text("-Xdemangler=rustfilt");
            if let Some(dir) = &args.output_dir {
                let dir: String = text::show(dir.as_slice());
                let option: String = text::concat("-output-dir=", dir.as_str());
                cmd.arg_text(option.as_str());
            }
        },
        Format::Json | Format::LCov => {
            if args.summary_only {
                cmd.arg_text("-summary-only");
            }
        },
        Format::Summary => {},
    }
    assert(cmd@ =~= before.with_args(detail_options(format, *args)));
}

/// Adds the files to leave out to the arguments of `cmd`.
fn append_ignore_regex(args: &Args, cmd: &mut ProcessBuilder)
    ensures
        final(cmd)@ == old(cmd)@.with_args(
            context::optional("-ignore-filename-regex"@, ignore_regex(*args)),
        ),
{
    let ghost before = cmd@;
    if args.disable_default_ignore_filename_regex {
        if let Some(own) = &args.ignore_filename_regex {
            cmd.arg_text("-ignore-filename-regex");
            cmd.arg_text(own.as_str());
        }
    } else {
        cmd.arg_text("-ignore-filename-regex");
        if let Some(own) = &args.ignore_filename_regex {
            let start: String = text::concat(own.as_str(), "|");
            let both: String = text::concat(start.as_str(), DEFAULT_IGNORE_FILENAME_REGEX);
            cmd.arg_text(both.as_str());
        } else {
            cmd.arg_text(DEFAULT_IGNORE_FILENAME_REGEX);
        }
    }
    assert(cmd@ =~= before.with_args(
        context::optional("-ignore-filename-regex"@, ignore_regex(*args)),
    ));
}

impl Format {
    /// The format that the command line asks for.
    pub fn from_args(args: &Args) -> (format: Format)
        ensures
            format == format_of(*args),
    {
        if args.json {
            Format::Json
        } else if args.lcov {
            Format::LCov
        } else if args.text {
            Format::Text
        } else if args.html {
            Format::Html
        } else {
            Format::Summary
        }
    }

    /// The subcommand of `llvm-cov` that makes a report of the format.
    pub fn llvm_cov_args(self) -> (list: &'static [&'static str])
        ensures
            text::literals(list@) == subcommand(self),
    {
        let list: &'static [&'static str] = match self {
            Format::Summary => &["report"],
            Format::Json => &["export", "-format=text"],
            Format::LCov => &["export", "-format=lcov"],
            Format::Text => &["show", "-format=text"],
            Format::Html => &["show", "-format=html"],
        };
        assert(text::literals(list@) =~= subcommand(self));
        list
    }

    /// The flag that tells `llvm-cov` about colours, if it is to be told.
    pub fn use_color(self, color: Option<Coloring>) -> (flag: Option<&'static str>)
        ensures
            match flag {
                Some(flag) => color_flag(self, color) == Some(flag@),
                None => color_flag(self, color) is None,
            },
    {
        if matches!(self, Format::Json | Format::LCov) {
            // `llvm-cov export` doesn't have `-use-color` flag.
            // https://llvm.org/docs/CommandGuide/llvm-cov.html#llvm-cov-export
            return None;
        }
        match color {
            Some(Coloring::Auto) | None => None,
            Some(Coloring::Always) => Some("-use-color=1"),
            Some(Coloring::Never) => Some("-use-color=0"),
        }
    }

    /// The process that makes a report on the objects in `files`.
    pub fn report(self, cx: &Context, profdata_file: &str, files: &Vec<String>) -> (cmd:
        ProcessBuilder)
        ensures
            cmd@ == report_process(self, *cx, profdata_file@, text::texts(files@)),
    {
        broadcast use process::lemma_with_args_twice;

        let mut cmd: ProcessBuilder = cx.process(text::word(cx.llvm_cov.as_str()));
        cmd.args(self.llvm_cov_args());
        let ghost before = cmd@;
        if let Some(flag) = self.use_color(cx.args.color) {
            cmd.arg_text(flag);
        }
        assert(cmd@ =~= before.with_args(at_most_one(color_flag(self, cx.args.color))));
        let ghost before = cmd@;
        let profile: String = text::concat("-instr-profile=", profdata_file);
        cmd.arg_text(profile.as_str());
        assert(cmd@ =~= before.with_args(seq![text::utf8("-instr-profile="@ + profdata_file@)]));
        context::append_repeated(&mut cmd, "-object", files);
        append_ignore_regex(&cx.args, &mut cmd);
        append_detail_options(self, &cx.args, &mut cmd);
        if cx.args.output_path.is_some() {
            cmd.stdout_capture();
        }
        cmd
    }
}

} // verus!
