//! What each turn of a run does, and what it asks.

use vstd::prelude::*;

use crate::args::Args;
use crate::command_laws;
use crate::context::Context;
use crate::objects;
use crate::objects::Artifact;
use crate::objects::Candidate;
use crate::option_laws::one;
use crate::path;
use crate::plan;
use crate::plan::Layout;
use crate::process::ProcessView;
use crate::report;
use crate::report::Format;
use crate::session;
use crate::session::Answer;
use crate::session::Next;
use crate::session::Query;
use crate::session::QueryView;
use crate::session::Session;
use crate::session::Stage;
use crate::session::Task;
use crate::session::TaskView;
use crate::session::Turn;
use crate::session_laws;
use crate::session_laws::Observed;
use crate::text;

verus! {

/// The run goes on with `query`, at `stage` and with `files` as the objects found, and keeps
/// everything else.
pub open spec fn asks_next(
    pre: Session,
    turn: Turn,
    stage: Stage,
    files: Seq<Seq<char>>,
    query: QueryView,
) -> bool {
    turn.next matches Next::Ask(next, asked) && {
        &&& next.cx == pre.cx
        &&& next.layout == pre.layout
        &&& next.stage == stage
        &&& text::texts(next.files@) == files
        &&& asked@ == query
    }
}

/// Tasks are done as they are listed.
pub proof fn lemma_tasks_in_order(list: Seq<Task>)
    ensures
        session::tasks_of(list).len() == list.len(),
        forall|i: int| 0 <= i < list.len() ==> session::tasks_of(list)[i] == #[trigger] list[i]@,
{
}

/// The files of a run are all in its target directory. Raw profiles of earlier runs are those of
/// any name; the profiles of this run carry the name of the workspace's root directory, and the
/// pattern that finds them differs from the one that names them only in its wildcard.
pub proof fn lemma_layout(target_dir: Seq<char>, workspace_root: Seq<char>, layout: Layout)
    requires
        plan::is_layout(target_dir, workspace_root, layout),
    ensures
        path::is_join(target_dir, "*.profraw"@, layout.stale_glob@),
        path::is_join(target_dir, "doctestbins"@, layout.doctests_dir@),
        path::is_join(layout.doctests_dir@, "*/rust_out"@, layout.doctest_glob@),
        layout.package matches Some(files) ==> {
            &&& path::is_file_stem(workspace_root, Some(files.name@))
            &&& path::is_join(target_dir, files.name@ + ".profdata"@, files.profdata_file@)
            &&& path::is_join(target_dir, files.name@ + "-%m.profraw"@, files.llvm_profile_file@)
            &&& path::is_join(target_dir, files.name@ + "-*.profraw"@, files.profraw_glob@)
        },
        layout.package is None ==> path::is_file_stem(workspace_root, None),
{
}

/// A run begins by making its target directory, and by emptying the directory for reports if
/// there is one. Then it looks for raw profiles of earlier runs.
pub proof fn lemma_start_makes_room(cx: Context, turn: Turn)
    requires
        session::is_start(cx, turn),
    ensures
        ({
            let tasks = session::tasks_of(turn.tasks@);
            &&& tasks.len() == 1 + 2 * one(cx.args.output_dir is Some)
            &&& tasks[0] == TaskView::CreateDirAll(text::utf8(cx.target_dir@))
            &&& cx.args.output_dir matches Some(dir) ==> tasks[1] == TaskView::RemoveDirAll(dir@)
                && tasks[2] == TaskView::CreateDirAll(dir@)
        }),
        turn.next matches Next::Ask(first, query) && {
            &&& first.cx == cx
            &&& first.stage == Stage::Stale
            &&& first.files@.len() == 0
            &&& plan::is_layout(cx.target_dir@, cx.metadata.workspace_root@, first.layout)
            &&& query@ == QueryView::Glob(first.layout.stale_glob@)
        },
{
    if turn.next is Ask {
        let files = turn.next->Ask_0.files@;
        assert(text::texts(files).len() == files.len());
    }
}

/// Before the tests, every raw profile of earlier runs is removed, then the directory for doc
/// tests is emptied exactly if they are asked for, and then the merged profile is removed, always.
/// Next come the flags in the environment. Without a name for the profiles the run stops instead.
pub proof fn lemma_leftovers_are_cleared(pre: Session, stale: Vec<Vec<u8>>, turn: Turn)
    requires
        pre.stage == Stage::Stale,
        session::is_turn(pre, Answer::Paths(stale), turn),
    ensures
        ({
            let tasks = session::tasks_of(turn.tasks@);
            let n = stale@.len() as int;
            let m = n + 2 * one(pre.cx.args.doctests);
            &&& tasks.len() == m + one(pre.layout.package is Some)
            &&& forall|i: int|
                0 <= i < n ==> #[trigger] tasks[i] == TaskView::RemoveFile(stale@[i]@)
            &&& pre.cx.args.doctests ==> {
                &&& tasks[n] == TaskView::RemoveDirAll(text::utf8(pre.layout.doctests_dir@))
                &&& tasks[n + 1] == TaskView::CreateDir(text::utf8(pre.layout.doctests_dir@))
            }
            &&& pre.layout.package matches Some(package) ==> {
                &&& tasks[m] == TaskView::RemoveFile(text::utf8(package.profdata_file@))
                &&& asks_next(
                    pre,
                    turn,
                    Stage::Flags,
                    text::texts(pre.files@),
                    QueryView::VarsOs("RUSTFLAGS"@, "RUSTDOCFLAGS"@),
                )
            }
            &&& pre.layout.package is None ==> turn.next is NoPackageName
        }),
{
}

/// The merged profile of earlier runs is removed last, whatever the command line asks.
pub proof fn lemma_merged_profile_is_removed(pre: Session, stale: Vec<Vec<u8>>, turn: Turn)
    requires
        pre.stage == Stage::Stale,
        pre.layout.package is Some,
        session::is_turn(pre, Answer::Paths(stale), turn),
    ensures
        session::tasks_of(turn.tasks@).last() == TaskView::RemoveFile(
            text::utf8(pre.layout.package->0.profdata_file@),
        ),
{
}

/// The bytes of a variable, if it is set.
pub open spec fn bytes_of(var: Option<Vec<u8>>) -> Seq<u8> {
    match var {
        Some(bytes) => bytes@,
        None => Seq::empty(),
    }
}

/// With doc tests there are always flags for rustdoc, also if the environment has none; without
/// them, there are some only if the environment has.
pub proof fn lemma_doctests_have_flags(
    cx: Context,
    layout: Layout,
    rustflags: Option<Seq<u8>>,
    rustdocflags: Option<Seq<u8>>,
)
    ensures
        ({
            let env = session::variables(cx, layout, rustflags, rustdocflags);
            &&& cx.args.doctests ==> env.len() == 3
            &&& !cx.args.doctests ==> env.len() == 2 + one(rustdocflags is Some)
        }),
{
}

/// `env` instruments the tests: the compiler's flags are the user's, followed by those for
/// coverage, whatever the user's are; profiles go where the layout says; and the flags of rustdoc
/// are the user's, followed by those for coverage exactly if doc tests are asked for, also if the
/// user has none.
pub open spec fn is_instrumented(
    cx: Context,
    layout: Layout,
    rustflags: Option<Vec<u8>>,
    rustdocflags: Option<Vec<u8>>,
    env: Seq<(Seq<char>, Seq<u8>)>,
) -> bool {
    &&& env.len() == 2 + one(cx.args.doctests || rustdocflags is Some)
    &&& env[0] == (
        "RUSTFLAGS"@,
        bytes_of(rustflags) + text::utf8(
            " -Zinstrument-coverage --remap-path-prefix "@ + cx.metadata.workspace_root@ + "/="@,
        ),
    )
    &&& env[1] == ("LLVM_PROFILE_FILE"@, text::utf8(layout.package->0.llvm_profile_file@))
    &&& cx.args.doctests ==> env[2] == (
        "RUSTDOCFLAGS"@,
        bytes_of(rustdocflags) + text::utf8(
            " -Zinstrument-coverage -Zunstable-options --persist-doctests "@
                + layout.doctests_dir@,
        ),
    )
    &&& !cx.args.doctests && rustdocflags is Some ==> env[2] == (
        "RUSTDOCFLAGS"@,
        bytes_of(rustdocflags),
    )
}

/// The tests are run once, instrumented, and then what was built is listed in the very same
/// environment.
pub proof fn lemma_tests_are_instrumented(
    pre: Session,
    rustflags: Option<Vec<u8>>,
    rustdocflags: Option<Vec<u8>>,
    turn: Turn,
)
    requires
        pre.stage == Stage::Flags,
        session::is_turn(pre, Answer::VarsOs(rustflags, rustdocflags), turn),
    ensures
        session::tasks_of(turn.tasks@).len() == 1,
        session::tasks_of(turn.tasks@)[0] matches TaskView::Run(test) && {
            &&& is_instrumented(pre.cx, pre.layout, rustflags, rustdocflags, test.env)
            &&& test == plan::test_process(pre.cx, test.env)
            &&& asks_next(
                pre,
                turn,
                Stage::Listing,
                text::texts(pre.files@),
                QueryView::Read(plan::list_process(pre.cx, test.env)),
            )
        },
{
}

/// What cargo says it has built is read message by message; nothing is done meanwhile.
pub proof fn lemma_messages_are_parsed(pre: Session, output: String, turn: Turn)
    requires
        pre.stage == Stage::Listing,
        session::is_turn(pre, Answer::Output(output), turn),
    ensures
        session::tasks_of(turn.tasks@).len() == 0,
        asks_next(
            pre,
            turn,
            Stage::Parsing,
            text::texts(pre.files@),
            QueryView::Parse(objects::messages_of(output@)),
        ),
{
}

/// The objects are those in cargo's messages. Doc tests are looked for exactly if they are asked
/// for; then, or else at once, the raw profiles of this run are.
pub proof fn lemma_objects_are_gathered(pre: Session, artifacts: Vec<Artifact>, turn: Turn)
    requires
        pre.stage == Stage::Parsing,
        session::is_turn(pre, Answer::Artifacts(artifacts), turn),
    ensures
        session::tasks_of(turn.tasks@).len() == 0,
        pre.cx.args.doctests ==> asks_next(
            pre,
            turn,
            Stage::Doctests,
            objects::objects_of(artifacts@),
            QueryView::Candidates(pre.layout.doctest_glob@),
        ),
        !pre.cx.args.doctests ==> asks_next(
            pre,
            turn,
            Stage::Profiles,
            objects::objects_of(artifacts@),
            QueryView::Glob(pre.layout.package->0.profraw_glob@),
        ),
{
}

/// Doc tests are added to the objects that are already there.
pub proof fn lemma_doctests_are_added(pre: Session, candidates: Vec<Candidate>, turn: Turn)
    requires
        pre.stage == Stage::Doctests,
        session::is_turn(pre, Answer::Candidates(candidates), turn),
    ensures
        session::tasks_of(turn.tasks@).len() == 0,
        asks_next(
            pre,
            turn,
            Stage::Profiles,
            text::texts(pre.files@) + objects::doctests_in(candidates@),
            QueryView::Glob(pre.layout.package->0.profraw_glob@),
        ),
{
}

/// The command line asks for a report in "html" format.
pub open spec fn asks_for_html(cx: Context) -> bool {
    cx.args.html && !cx.args.json && !cx.args.lcov && !cx.args.text
}

/// The process that makes a report on the objects that `pre` has found.
pub open spec fn report_on(pre: Session, format: Format) -> ProcessView {
    report::report_process(
        format,
        pre.cx,
        pre.layout.package->0.profdata_file@,
        text::texts(pre.files@),
    )
}

/// `process` makes a report in the format that the command line asks for.
pub open spec fn is_asked_report(pre: Session, process: ProcessView) -> bool {
    let args = pre.cx.args;
    &&& args.json ==> process == report_on(pre, Format::Json)
    &&& !args.json && args.lcov ==> process == report_on(pre, Format::LCov)
    &&& !args.json && !args.lcov && args.text ==> process == report_on(pre, Format::Text)
    &&& asks_for_html(pre.cx) ==> process == report_on(pre, Format::Html)
    &&& !args.json && !args.lcov && !args.text && !args.html ==> process == report_on(
        pre,
        Format::Summary,
    )
}

/// The profiles are merged first, all of them. Without a file to write into, the report that is
/// asked for is then printed; directly after every report in "html" format a summary of the same
/// objects and profile is printed too, whether or not the report is opened; and opening it comes
/// last. With a file, the report is read instead.
pub proof fn lemma_reports_follow_the_merge(pre: Session, profiles: Vec<Vec<u8>>, turn: Turn)
    requires
        pre.stage == Stage::Profiles,
        session::is_turn(pre, Answer::Paths(profiles), turn),
    ensures
        ({
            let tasks = session::tasks_of(turn.tasks@);
            let html = asks_for_html(pre.cx);
            &&& tasks[0] == TaskView::Run(
                plan::merge_process(
                    pre.cx,
                    text::words(profiles@),
                    pre.layout.package->0.profdata_file@,
                ),
            )
            &&& pre.cx.args.output_path is None ==> {
                &&& turn.next is Finished
                &&& tasks.len() == 2 + one(html) + one(html && pre.cx.args.open)
                &&& tasks[1] is Run
                &&& is_asked_report(pre, tasks[1]->Run_0)
                &&& html ==> tasks[2] == TaskView::Run(report_on(pre, Format::Summary))
                &&& html ==> (tasks[2]->Run_0).args[0] == text::utf8("report"@)
                &&& html && pre.cx.args.open ==> tasks[3] == TaskView::Open(
                    pre.cx.args.output_dir->0@,
                    "index.html"@,
                )
            }
            &&& pre.cx.args.output_path is Some ==> {
                &&& tasks.len() == 1
                &&& turn.next matches Next::Ask(next, query) && query@ matches QueryView::Read(
                    asked,
                ) && {
                    &&& is_asked_report(pre, asked)
                    &&& asks_next(
                        pre,
                        turn,
                        Stage::Report,
                        text::texts(pre.files@),
                        QueryView::Read(asked),
                    )
                }
            }
        }),
{
    if pre.cx.args.output_path is None && asks_for_html(pre.cx) {
        command_laws::lemma_report_command(
            Format::Summary,
            pre.cx,
            pre.layout.package->0.profdata_file@,
            text::texts(pre.files@),
        );
    }
}

/// There is one report, and a second one, the summary, exactly if the first is in "html" format;
/// only the opening after them depends on `--open`.
pub proof fn lemma_number_of_reports(cx: Context, layout: Layout, files: Seq<Seq<char>>)
    ensures
        session::report_tasks(cx, layout, files).len() == 1 + one(asks_for_html(cx)) + one(
            asks_for_html(cx) && cx.args.open,
        ),
{
}

/// Whether a summary follows a report in "html" format does not depend on whether the report is
/// opened: the tasks are the same, but for the opening at the end.
pub proof fn lemma_opening_changes_nothing_else(
    pre: Session,
    unopened: Session,
    profiles: Vec<Vec<u8>>,
    turn: Turn,
    other: Turn,
)
    requires
        pre.stage == Stage::Profiles,
        pre.cx.args.output_path is None,
        pre.cx.args.open,
        asks_for_html(pre.cx),
        unopened == (Session {
            cx: Context {
                args: Args { open: false, ..pre.cx.args },
                ..pre.cx
            },
            ..pre
        }),
        session::is_turn(pre, Answer::Paths(profiles), turn),
        session::is_turn(unopened, Answer::Paths(profiles), other),
    ensures
        session::tasks_of(turn.tasks@) == session::tasks_of(other.tasks@).push(
            TaskView::Open(pre.cx.args.output_dir->0@, "index.html"@),
        ),
{
    lemma_reports_follow_the_merge(pre, profiles, turn);
    lemma_reports_follow_the_merge(unopened, profiles, other);
    lemma_opening_leaves_reports(pre.cx, unopened.cx, pre, Format::Html);
    lemma_opening_leaves_reports(pre.cx, unopened.cx, pre, Format::Summary);
    assert(session::tasks_of(turn.tasks@) =~= session::tasks_of(other.tasks@).push(
        TaskView::Open(pre.cx.args.output_dir->0@, "index.html"@),
    ));
}

/// Opening a report is none of the options of the commands.
proof fn lemma_opening_leaves_reports(cx: Context, unopened: Context, pre: Session, format: Format)
    requires
        unopened == (Context { args: Args { open: false, ..cx.args }, ..cx }),
    ensures
        report::report_process(
            format,
            cx,
            pre.layout.package->0.profdata_file@,
            text::texts(pre.files@),
        ) == report::report_process(
            format,
            unopened,
            pre.layout.package->0.profdata_file@,
            text::texts(pre.files@),
        ),
{
    assert(report::detail_options(format, cx.args) == report::detail_options(
        format,
        unopened.args,
    ));
    assert(report::ignore_regex(cx.args) == report::ignore_regex(unopened.args));
}

/// A report that goes into a file is written into it as it is. Only after one in "html" format a
/// summary is read too.
pub proof fn lemma_reports_are_written(pre: Session, report: String, turn: Turn)
    requires
        pre.stage == Stage::Report,
        session::is_turn(pre, Answer::Output(report), turn),
    ensures
        session::tasks_of(turn.tasks@) == seq![
            TaskView::WriteFile(pre.cx.args.output_path->0@, report@),
        ],
        !asks_for_html(pre.cx) ==> turn.next is Finished,
        asks_for_html(pre.cx) ==> asks_next(
            pre,
            turn,
            Stage::Summary,
            text::texts(pre.files@),
            QueryView::Read(report_on(pre, Format::Summary)),
        ),
{
}

/// A summary that goes into a file is written into it as it is, and the report is opened after it
/// exactly if that is asked.
pub proof fn lemma_summaries_are_written(pre: Session, summary: String, turn: Turn)
    requires
        pre.stage == Stage::Summary,
        session::is_turn(pre, Answer::Output(summary), turn),
    ensures
        ({
            let tasks = session::tasks_of(turn.tasks@);
            let opened = asks_for_html(pre.cx) && pre.cx.args.open;
            &&& turn.next is Finished
            &&& tasks.len() == 1 + one(opened)
            &&& tasks[0] == TaskView::WriteFile(pre.cx.args.output_path->0@, summary@)
            &&& opened ==> tasks[1] == TaskView::Open(pre.cx.args.output_dir->0@, "index.html"@)
        }),
{
}

/// In the script of a run without a file to write into, a report in "html" format is directly
/// followed by the summary of the same objects and profile, whether or not it is opened.
pub proof fn lemma_summary_follows_html(cx: Context, layout: Layout, seen: Observed)
    requires
        asks_for_html(cx),
        cx.args.output_path is None,
    ensures
        ({
            let script = session_laws::script(cx, layout, seen);
            let files = session_laws::reported_files(cx, seen);
            let profile = layout.package->0.profdata_file@;
            let at = script.len() - 2 - one(cx.args.open);
            &&& at > 0
            &&& script[at] == TaskView::Run(
                report::report_process(Format::Html, cx, profile, files),
            )
            &&& script[at + 1] == TaskView::Run(
                report::report_process(Format::Summary, cx, profile, files),
            )
        }),
{
}

/// A run can begin unless it is to open a report that has no directory.
pub proof fn lemma_opening_is_of_html(cx: Context)
    ensures
        session::opens(cx) <==> asks_for_html(cx) && cx.args.open,
{
}

/// A task is shown as what it is, with the paths, text and process that it holds.
pub proof fn lemma_tasks_are_shown(task: Task)
    ensures
        match task {
            Task::CreateDirAll(dir) => task@ == TaskView::CreateDirAll(dir@),
            Task::RemoveDirAll(dir) => task@ == TaskView::RemoveDirAll(dir@),
            Task::CreateDir(dir) => task@ == TaskView::CreateDir(dir@),
            Task::RemoveFile(file) => task@ == TaskView::RemoveFile(file@),
            Task::Run(cmd) => task@ == TaskView::Run(cmd@),
            Task::WriteFile(file, content) => task@ == TaskView::WriteFile(file@, content@),
            Task::Open(dir, page) => task@ == TaskView::Open(dir@, page@),
        },
{
}

/// A question is shown as what it is, with the pattern, names, process or messages that it holds.
pub proof fn lemma_queries_are_shown(query: Query)
    ensures
        match query {
            Query::Glob(pattern) => query@ == QueryView::Glob(pattern@),
            Query::VarsOs(first, second) => query@ == QueryView::VarsOs(first@, second@),
            Query::Read(cmd) => query@ == QueryView::Read(cmd@),
            Query::Parse(messages) => query@ matches QueryView::Parse(list) && list.len()
                == messages@.len() && forall|i: int|
                0 <= i < list.len() ==> #[trigger] list[i] == messages@[i]@,
            Query::Candidates(pattern) => query@ == QueryView::Candidates(pattern@),
        },
{
}

/// Each question has its own kind of answer.
pub proof fn lemma_questions_have_their_answers(at: Session, answer: Answer)
    ensures
        at.awaits(answer) <==> match answer {
            Answer::Paths(_) => at.stage == Stage::Stale || at.stage == Stage::Profiles,
            Answer::VarsOs(_, _) => at.stage == Stage::Flags,
            Answer::Output(_) => at.stage == Stage::Listing || at.stage == Stage::Report
                || at.stage == Stage::Summary,
            Answer::Artifacts(_) => at.stage == Stage::Parsing,
            Answer::Candidates(_) => at.stage == Stage::Doctests,
        },
{
}

} // verus!
