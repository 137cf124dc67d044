//! What is read out of the output of other programs, and what is said to the user.

use vstd::prelude::*;

use crate::args::Args;
use crate::color;
use crate::color::Coloring;
use crate::error;
use crate::error::Error;
use crate::objects;
use crate::objects::Artifact;
use crate::objects::Candidate;
use crate::path;
use crate::process::ProcessBuilder;
use crate::process::ProcessView;
use crate::text;

verus! {

/// Text and operating system strings are taken as they are: lists item by item, text as its UTF-8,
/// and bytes that are UTF-8 as the text that they stand for.
pub proof fn lemma_text_is_taken_as_it_is(
    text: Seq<char>,
    bytes: Seq<u8>,
    strings: Seq<String>,
    vectors: Seq<Vec<u8>>,
)
    ensures
        text::utf8(text) == vstd::utf8::encode_utf8(text),
        vstd::utf8::valid_utf8(bytes) ==> text::shown(bytes) == vstd::utf8::decode_utf8(bytes),
        text::texts(strings).len() == strings.len(),
        forall|i: int| 0 <= i < strings.len() ==> text::texts(strings)[i] == (
        #[trigger] strings[i])@,
        text::words(vectors).len() == vectors.len(),
        forall|i: int| 0 <= i < vectors.len() ==> text::words(vectors)[i] == (
        #[trigger] vectors[i])@,
{
}

/// `line` without the carriage return that belongs to its line ending.
pub open spec fn cleaned(line: Seq<char>) -> Seq<char> {
    if line.len() > 0 && line[line.len() - 1] == '\r' {
        line.subrange(0, line.len() - 1)
    } else {
        line
    }
}

/// Text up to a line feed is a line, without a carriage return at its end, and the lines of the
/// rest follow it. A last line does without a line feed, and keeps its carriage return.
pub proof fn lemma_lines(line: Seq<char>, rest: Seq<char>)
    requires
        forall|i: int| 0 <= i < line.len() ==> line[i] != '\n',
    ensures
        text::lines_of(line + seq!['\n'] + rest) == seq![cleaned(line)] + text::lines_of(rest),
        line.len() > 0 ==> text::lines_of(line) == seq![line],
        line.len() == 0 ==> text::lines_of(line).len() == 0,
{
    let all = line + seq!['\n'] + rest;
    text::lemma_until_line_feed(all, line.len() as int);
    assert(all.take(line.len() as int) =~= line);
    assert(all.skip(line.len() as int + 1) =~= rest);
    assert(text::without_carriage_return(line) =~= cleaned(line));
    text::lemma_until_line_feed(line, line.len() as int);
    assert(line.take(line.len() as int) =~= line);
}

/// One line, or none if it is empty.
pub open spec fn unless_empty(line: Seq<char>) -> Seq<Seq<char>> {
    if line.len() > 0 {
        seq![line]
    } else {
        Seq::empty()
    }
}

/// The messages of a line and more lines.
proof fn lemma_filter_first(line: Seq<char>, rest: Seq<Seq<char>>)
    ensures
        (seq![line] + rest).filter(objects::holds_message()) == unless_empty(line) + rest.filter(
            objects::holds_message(),
        ),
{
    let holds = objects::holds_message();
    Seq::filter_distributes_over_add(seq![line], rest, holds);
    lemma_filter_one(line);
}

/// The messages of a line.
proof fn lemma_filter_one(line: Seq<char>)
    ensures
        seq![line].filter(objects::holds_message()) == unless_empty(line),
{
    reveal(Seq::filter);
    let holds = objects::holds_message();
    let none = Seq::<Seq<char>>::empty();
    assert(seq![line] =~= none.push(line));
    none.lemma_filter_push(line, holds);
    assert(none.filter(holds) =~= none);
    assert(none.push(line) =~= seq![line]);
}

/// Every line of cargo's output that is not empty is a message, in the order of the lines, and
/// there are no others.
pub proof fn lemma_messages(line: Seq<char>, rest: Seq<char>)
    requires
        forall|i: int| 0 <= i < line.len() ==> line[i] != '\n',
    ensures
        objects::messages_of(line + seq!['\n'] + rest) == unless_empty(cleaned(line))
            + objects::messages_of(rest),
        objects::messages_of(line) == unless_empty(line),
{
    lemma_lines(line, rest);
    lemma_filter_first(cleaned(line), text::lines_of(rest));
    if line.len() > 0 {
        lemma_filter_one(line);
    } else {
        reveal(Seq::filter);
        assert(text::lines_of(line) =~= Seq::<Seq<char>>::empty());
    }
}

/// The objects of several artifacts are those of each, in order.
pub proof fn lemma_objects_of_all(first: Seq<Artifact>, second: Seq<Artifact>)
    ensures
        objects::objects_of(first + second) == objects::objects_of(first) + objects::objects_of(
            second,
        ),
    decreases second.len(),
{
    if second.len() == 0 {
        assert(first + second =~= first);
        assert(objects::objects_of(first) + objects::objects_of(second) =~= objects::objects_of(
            first,
        ));
    } else {
        lemma_objects_of_all(first, second.drop_last());
        assert((first + second).drop_last() =~= first + second.drop_last());
        assert(objects::objects_of(first) + objects::objects_of(second.drop_last())
            + objects::objects_in(second.last()) =~= objects::objects_of(first)
            + objects::objects_of(second));
    }
}

/// The objects of one artifact.
proof fn lemma_objects_of_single(artifact: Artifact)
    ensures
        objects::objects_of(seq![artifact]) == objects::objects_in(artifact),
{
    reveal_with_fuel(objects::objects_of, 2);
    assert(seq![artifact].drop_last() =~= Seq::<Artifact>::empty());
    assert(Seq::<Seq<char>>::empty() + objects::objects_in(artifact) =~= objects::objects_in(
        artifact,
    ));
}

/// An artifact that was not built for testing has no objects, and one without files has none.
pub proof fn lemma_only_tests_have_objects(artifact: Artifact)
    ensures
        !(artifact.profile matches Some(profile) && profile.test) ==> objects::objects_of(
            seq![artifact],
        ).len() == 0,
        artifact.filenames@.len() == 0 ==> objects::objects_of(seq![artifact]).len() == 0,
{
    lemma_objects_of_single(artifact);
    reveal(Seq::filter);
}

/// `name` is that of debug symbols.
pub open spec fn names_symbols(name: Seq<char>) -> bool {
    exists|stem: Seq<char>| name == #[trigger] (stem + "dSYM"@)
}

/// Debug symbols are known by the end of their name.
proof fn lemma_names_symbols(name: Seq<char>)
    ensures
        names_symbols(name) <==> text::ends_with(name, "dSYM"@),
{
    let end = "dSYM"@;
    if text::ends_with(name, end) {
        let stem = name.take(name.len() - end.len());
        assert(name =~= stem + end);
    }
    if names_symbols(name) {
        let stem = choose|stem: Seq<char>| name == #[trigger] (stem + end);
        assert(name.subrange(name.len() - end.len(), name.len() as int) =~= end);
    }
}

/// One more file of an artifact that was built for testing is one more object, unless it is debug
/// symbols; the others stay.
pub proof fn lemma_one_more_file(artifact: Artifact, longer: Artifact, name: Seq<char>)
    requires
        artifact.profile matches Some(profile) && profile.test,
        longer.profile == artifact.profile,
        text::texts(longer.filenames@) == text::texts(artifact.filenames@).push(name),
    ensures
        names_symbols(name) ==> objects::objects_of(seq![longer]) == objects::objects_of(
            seq![artifact],
        ),
        !names_symbols(name) ==> objects::objects_of(seq![longer]) == objects::objects_of(
            seq![artifact],
        ).push(name),
{
    lemma_objects_of_single(artifact);
    lemma_objects_of_single(longer);
    lemma_names_symbols(name);
    text::texts(artifact.filenames@).lemma_filter_push(name, objects::names_object());
}

/// One more candidate is one more doc test exactly if it can be executed; the others stay.
pub proof fn lemma_one_more_candidate(candidates: Seq<Candidate>, candidate: Candidate)
    ensures
        candidate.executable ==> objects::doctests_in(candidates.push(candidate))
            == objects::doctests_in(candidates).push(text::shown(candidate.path@)),
        !candidate.executable ==> objects::doctests_in(candidates.push(candidate))
            == objects::doctests_in(candidates),
        objects::doctests_in(Seq::empty()).len() == 0,
{
    reveal(Seq::filter);
    candidates.lemma_filter_push(candidate, objects::is_executable());
    if candidate.executable {
        assert(objects::doctests_in(candidates.push(candidate)) =~= objects::doctests_in(
            candidates,
        ).push(text::shown(candidate.path@)));
    }
}

/// The three colour choices have three names, and no other text is one.
pub proof fn lemma_color_names(name: Seq<char>)
    ensures
        color::color_name(Coloring::Auto) == "auto"@,
        color::color_name(Coloring::Always) == "always"@,
        color::color_name(Coloring::Never) == "never"@,
        name == "auto"@ ==> color::color_named(name) == Some(Coloring::Auto),
        name == "always"@ ==> color::color_named(name) == Some(Coloring::Always),
        name == "never"@ ==> color::color_named(name) == Some(Coloring::Never),
        name != "auto"@ && name != "always"@ && name != "never"@ ==> color::color_named(
            name,
        ) is None,
{
    color::lemma_color_names_differ();
}

/// Every error says what is wrong, and holds what was found; where something is to be installed,
/// it says how, for the toolchain and the flag that are in use.
pub proof fn lemma_error_messages(found: String, output: String)
    ensures
        error::message_of(Error::InvalidColor(found))
            == "must be auto, always, or never, but found `"@ + found@ + "`"@,
        error::message_of(Error::OutputPathWithoutFormat)
            == "--output-path can only be used together with --json, --lcov, or --text"@,
        error::message_of(Error::NoSysroot) == "failed to find sysroot"@,
        error::message_of(Error::NoHost { rustc: found, output })
            == "unexpected version output from `"@ + found@ + "`: "@ + output@,
        error::message_of(Error::NoLlvmTools { nightly: true })
            == "failed to find llvm-tools-preview, please install llvm-tools-preview with `rustup component add llvm-tools-preview"@
            + ""@ + "`"@,
        error::message_of(Error::NoLlvmTools { nightly: false })
            == "failed to find llvm-tools-preview, please install llvm-tools-preview with `rustup component add llvm-tools-preview"@
            + " --toolchain nightly"@ + "`"@,
        error::message_of(Error::NoRustfilt { html: true }) == "--html"@
            + " flag requires rustfilt, please install rustfilt with `cargo install rustfilt`"@,
        error::message_of(Error::NoRustfilt { html: false }) == "--text"@
            + " flag requires rustfilt, please install rustfilt with `cargo install rustfilt`"@,
{
}

/// A report shows the source exactly if "text" or "html" is asked for.
pub proof fn lemma_showing_the_source(args: Args)
    ensures
        args.shows() <==> args.text || args.html,
{
}

/// The command line may not ask for two formats, for a summary of a report that shows the source,
/// for a file without a format that can be written into one, or for a directory for reports that
/// do not use one.
pub proof fn lemma_consistent_command_lines(args: Args)
    ensures
        args.is_consistent() <==> {
            let shows = args.text || args.html || args.open;
            &&& !(args.json && args.lcov) && !(args.json && shows) && !(args.lcov && shows)
            &&& !(args.text && (args.html || args.open))
            &&& !(args.summary_only && shows)
            &&& args.output_path is Some ==> !args.html && !args.open && (args.json || args.lcov
                || args.text)
            &&& args.output_dir is Some ==> !args.json && !args.lcov && args.output_path is None
        },
{
}

/// What is shown of a process to be started is what it holds.
pub proof fn lemma_processes_are_shown(cmd: ProcessBuilder)
    ensures
        cmd@.program == cmd.program@,
        cmd@.args.len() == cmd.args@.len(),
        forall|i: int| 0 <= i < cmd.args@.len() ==> cmd@.args[i] == (#[trigger] cmd.args@[i])@,
        cmd@.env.len() == cmd.env@.len(),
        forall|i: int|
            0 <= i < cmd.env@.len() ==> cmd@.env[i] == ((#[trigger] cmd.env@[i]).0@, cmd.env@[i].1@),
        cmd.dir matches Some(dir) ==> cmd@.dir == Some(dir@),
        cmd.dir is None ==> cmd@.dir is None,
        cmd@.stdout_to_stderr == cmd.stdout_to_stderr,
        cmd@.stdout_capture == cmd.stdout_capture,
        cmd@.stderr_capture == cmd.stderr_capture,
        cmd@.display_env_vars == cmd.display_env_vars,
{
}

/// Each step in describing a process adds what it names at the end, or sets what it names, and
/// leaves the rest.
pub proof fn lemma_processes_grow(
    cmd: ProcessView,
    arg: Seq<u8>,
    args: Seq<Seq<u8>>,
    name: Seq<char>,
)
    ensures
        cmd.with_arg(arg) == (ProcessView { args: cmd.args.push(arg), ..cmd }),
        cmd.with_args(args) == (ProcessView { args: cmd.args + args, ..cmd }),
        cmd.with_env(name, arg) == (ProcessView { env: cmd.env.push((name, arg)), ..cmd }),
        cmd.in_dir(name) == (ProcessView { dir: Some(name), ..cmd }),
        cmd.captured() == (ProcessView { stdout_capture: true, ..cmd }),
{
}

/// A relative path that is adjoined to an ordinary one follows it, with nothing but one separator
/// between them.
pub proof fn lemma_joined_paths(base: Seq<char>, name: Seq<char>, joined: Seq<char>)
    requires
        path::is_join(base, name, joined),
        base.len() > 0,
        !path::is_separator(base.last(), true),
        !path::is_twice_rooted(base),
        !(path::has_drive(base) && base.len() == 2),
        name.len() > 0,
        !path::is_rooted(name),
        !path::has_drive(name),
    ensures
        joined == base + seq!['/'] + name || joined == base + seq!['\\'] + name,
{
}

/// What follows the last separator.
proof fn lemma_after_separator(dir: Seq<char>, name: Seq<char>, windows: bool)
    requires
        forall|i: int| 0 <= i < name.len() ==> !path::is_separator(name[i], windows),
    ensures
        path::after_separator(dir + seq!['/'] + name, windows) == name,
    decreases name.len(),
{
    let all = dir + seq!['/'] + name;
    if name.len() == 0 {
        assert(all.last() == '/');
        assert(path::after_separator(all, windows) =~= name);
    } else {
        assert(all.drop_last() =~= dir + seq!['/'] + name.drop_last());
        lemma_after_separator(dir, name.drop_last(), windows);
        assert(name.drop_last().push(name.last()) =~= name);
        assert(all.last() == name.last());
    }
}

/// A name without a dot has no last one.
proof fn lemma_no_dot(name: Seq<char>)
    requires
        forall|i: int| 0 <= i < name.len() ==> name[i] != '.',
    ensures
        path::last_dot(name) == -1,
    decreases name.len(),
{
    if name.len() > 0 {
        lemma_no_dot(name.drop_last());
    }
}

/// The profiles of a workspace carry the name of its root directory: the last name in its path,
/// where that has no dot.
pub proof fn lemma_package_name(dir: Seq<char>, name: Seq<char>, found: Option<Seq<char>>)
    requires
        path::is_file_stem(dir + seq!['/'] + name, found),
        !path::is_twice_rooted(dir + seq!['/'] + name),
        !path::has_drive(dir + seq!['/'] + name),
        name.len() > 0,
        forall|i: int| 0 <= i < name.len() ==> !path::is_separator(name[i], true) && name[i] != '.',
    ensures
        found == Some(name),
{
    let all = dir + seq!['/'] + name;
    assert(all.last() == name.last());
    assert(name[name.len() - 1] == name.last());
    lemma_after_separator(dir, name, false);
    lemma_after_separator(dir, name, true);
    lemma_no_dot(name);
    assert(all.skip(0) =~= all);
    assert(name[0] != '.');
}

} // verus!
