//! What a run does, from its first task to its last.

use vstd::prelude::*;

use crate::context::Context;
use crate::objects;
use crate::objects::Artifact;
use crate::objects::Candidate;
use crate::plan;
use crate::plan::Layout;
use crate::process;
use crate::report;
use crate::report::Format;
use crate::session;
use crate::session::Answer;
use crate::session::Next;
use crate::session::Session;
use crate::session::Stage;
use crate::session::TaskView;
use crate::session::Turn;
use crate::text;

verus! {

/// What a run gets to see.
pub struct Observed {
    /// The raw profiles of earlier runs.
    pub stale: Seq<Seq<u8>>,
    pub rustflags: Option<Seq<u8>>,
    pub rustdocflags: Option<Seq<u8>>,
    /// What cargo has built.
    pub artifacts: Seq<Artifact>,
    /// What is in the places of doc tests.
    pub candidates: Seq<Candidate>,
    /// The raw profiles of this run.
    pub profiles: Seq<Seq<u8>>,
    /// The report, if it goes into a file.
    pub report: Seq<char>,
    /// The summary after it.
    pub summary: Seq<char>,
}

/// `answer`, to the question of the given stage, tells what is observed.
pub open spec fn tells(stage: Stage, answer: Answer, seen: Observed) -> bool {
    match (stage, answer) {
        (Stage::Stale, Answer::Paths(stale)) => text::words(stale@) == seen.stale,
        (Stage::Flags, Answer::VarsOs(rustflags, rustdocflags)) => process::optional_word(rustflags)
            == seen.rustflags && process::optional_word(rustdocflags) == seen.rustdocflags,
        (Stage::Parsing, Answer::Artifacts(artifacts)) => artifacts@ == seen.artifacts,
        (Stage::Doctests, Answer::Candidates(candidates)) => candidates@ == seen.candidates,
        (Stage::Profiles, Answer::Paths(profiles)) => text::words(profiles@) == seen.profiles,
        (Stage::Report, Answer::Output(report)) => report@ == seen.report,
        (Stage::Summary, Answer::Output(summary)) => summary@ == seen.summary,
        _ => true,
    }
}

/// The objects that the reports are about: those that cargo has built for testing, and the doc
/// tests where they are asked for.
pub open spec fn reported_files(cx: Context, seen: Observed) -> Seq<Seq<char>> {
    objects::objects_of(seen.artifacts) + (if cx.args.doctests {
        objects::doctests_in(seen.candidates)
    } else {
        Seq::empty()
    })
}

/// The tasks up to the tests: an empty place for everything that the run makes.
pub open spec fn clearing(cx: Context, layout: Layout, seen: Observed) -> Seq<TaskView> {
    session::prepare_tasks(cx) + (session::remove_tasks(seen.stale) + session::doctest_tasks(
        cx,
        layout,
    )).push(TaskView::RemoveFile(text::utf8(layout.package->0.profdata_file@)))
}

/// The tasks up to the objects: after clearing, the tests.
pub open spec fn testing(cx: Context, layout: Layout, seen: Observed) -> Seq<TaskView> {
    clearing(cx, layout, seen) + seq![
        TaskView::Run(
            plan::test_process(
                cx,
                session::variables(cx, layout, seen.rustflags, seen.rustdocflags),
            ),
        ),
    ]
}

/// The tasks up to the reports: after the tests, the profiles are merged.
pub open spec fn merging(cx: Context, layout: Layout, seen: Observed) -> Seq<TaskView> {
    testing(cx, layout, seen) + seq![
        TaskView::Run(
            plan::merge_process(cx, seen.profiles, layout.package->0.profdata_file@),
        ),
    ]
}

/// The last tasks: reports are printed, or written into a file, and opened.
pub open spec fn reporting(cx: Context, layout: Layout, seen: Observed) -> Seq<TaskView> {
    match cx.args.output_path {
        None => session::report_tasks(cx, layout, reported_files(cx, seen)),
        Some(file) => seq![TaskView::WriteFile(file@, seen.report)] + (if report::format_of(
            cx.args,
        ) == Format::Html {
            seq![TaskView::WriteFile(file@, seen.summary)]
        } else {
            Seq::empty()
        }) + session::open_tasks(cx),
    }
}

/// All tasks of a run, in order.
pub open spec fn script(cx: Context, layout: Layout, seen: Observed) -> Seq<TaskView> {
    merging(cx, layout, seen) + reporting(cx, layout, seen)
}

/// The tasks of a run before the question of the given stage.
pub open spec fn script_until(
    stage: Stage,
    cx: Context,
    layout: Layout,
    seen: Observed,
) -> Seq<TaskView> {
    match stage {
        Stage::Stale => session::prepare_tasks(cx),
        Stage::Flags => clearing(cx, layout, seen),
        Stage::Listing | Stage::Parsing | Stage::Doctests | Stage::Profiles => testing(
            cx,
            layout,
            seen,
        ),
        Stage::Report => merging(cx, layout, seen),
        Stage::Summary => merging(cx, layout, seen) + seq![
            TaskView::WriteFile(cx.args.output_path->0@, seen.report),
        ],
    }
}

/// The objects that a run knows of at its stage agree with what is observed.
pub open spec fn agrees(seen: Observed, at: Session) -> bool {
    let files = text::texts(at.files@);
    &&& match at.stage {
        Stage::Stale | Stage::Flags | Stage::Listing | Stage::Parsing => true,
        Stage::Doctests => at.cx.args.doctests && files == objects::objects_of(seen.artifacts),
        Stage::Profiles | Stage::Report | Stage::Summary => files == reported_files(at.cx, seen),
    }
    &&& at.stage == Stage::Summary ==> report::format_of(at.cx.args) == Format::Html
}

/// `pre` is answered with what is observed, and goes on as `turn` says.
pub open spec fn is_answered(seen: Observed, pre: Session, answer: Answer, turn: Turn) -> bool {
    &&& pre.wf()
    &&& pre.awaits(answer)
    &&& tells(pre.stage, answer, seen)
    &&& session::is_turn(pre, answer, turn)
    &&& turn.next matches Next::Ask(next, _) ==> next.wf()
}

/// How far a run has come.
pub open spec fn rank(stage: Stage) -> int {
    match stage {
        Stage::Stale => 0,
        Stage::Flags => 1,
        Stage::Listing => 2,
        Stage::Parsing => 3,
        Stage::Doctests => 4,
        Stage::Profiles => 5,
        Stage::Report => 6,
        Stage::Summary => 7,
    }
}

/// Each answer that tells what is observed brings a run forward by the next tasks of its script:
/// to a later stage or to its end. Only a workspace without a name stops it before.
pub proof fn lemma_run_goes_forward(seen: Observed, pre: Session, answer: Answer, turn: Turn)
    requires
        agrees(seen, pre),
        is_answered(seen, pre, answer, turn),
    ensures
        ({
            let done = script_until(pre.stage, pre.cx, pre.layout, seen) + session::tasks_of(
                turn.tasks@,
            );
            match turn.next {
                Next::Ask(next, _) => {
                    &&& next.cx == pre.cx
                    &&& next.layout == pre.layout
                    &&& agrees(seen, next)
                    &&& rank(pre.stage) < rank(next.stage)
                    &&& done == script_until(next.stage, pre.cx, pre.layout, seen)
                },
                Next::Finished => done == script(pre.cx, pre.layout, seen),
                Next::NoPackageName => pre.stage == Stage::Stale && pre.layout.package is None,
            }
        }),
{
    let (cx, layout) = (pre.cx, pre.layout);
    let tasks = session::tasks_of(turn.tasks@);
    let before = script_until(pre.stage, cx, layout, seen);
    match pre.stage {
        Stage::Stale => {},
        Stage::Flags => {},
        Stage::Listing => {
            assert(before + tasks =~= before);
        },
        Stage::Parsing => {
            assert(before + tasks =~= before);
            if !cx.args.doctests {
                assert(reported_files(cx, seen) =~= objects::objects_of(seen.artifacts));
            }
        },
        Stage::Doctests => {
            assert(before + tasks =~= before);
        },
        Stage::Profiles => {
            if cx.args.output_path is None {
                assert(before + tasks =~= script(cx, layout, seen));
            }
        },
        Stage::Report => {
            if report::format_of(cx.args) != Format::Html {
                assert(before + tasks =~= script(cx, layout, seen));
            }
        },
        Stage::Summary => {
            assert(before + tasks =~= script(cx, layout, seen));
        },
    }
}

/// Each of the sessions is answered with what is observed and goes on as the next one.
pub open spec fn is_dialogue(
    seen: Observed,
    sessions: Seq<Session>,
    answers: Seq<Answer>,
    turns: Seq<Turn>,
) -> bool {
    &&& sessions.len() == answers.len() == turns.len()
    &&& forall|i: int|
        0 <= i < sessions.len() ==> #[trigger] is_answered(seen, sessions[i], answers[i], turns[i])
    &&& forall|i: int|
        0 <= i < sessions.len() - 1 ==> (#[trigger] turns[i].next is Ask && turns[i].next->Ask_0
            == sessions[i + 1])
}

/// The tasks of all turns, in order.
pub open spec fn all_tasks(turns: Seq<Turn>) -> Seq<TaskView>
    decreases turns.len(),
{
    if turns.len() == 0 {
        Seq::empty()
    } else {
        all_tasks(turns.drop_last()) + session::tasks_of(turns.last().tasks@)
    }
}

/// A run that is answered with what is observed does, when it is over, exactly the tasks of its
/// script, in order; and it is over, or has stopped for want of a name, after at most one
/// question for each stage.
pub proof fn lemma_run_follows_script(
    cx: Context,
    seen: Observed,
    start: Turn,
    sessions: Seq<Session>,
    answers: Seq<Answer>,
    turns: Seq<Turn>,
)
    requires
        session::is_start(cx, start),
        0 < sessions.len(),
        sessions[0] == start.next->Ask_0,
        is_dialogue(seen, sessions, answers, turns),
    ensures
        sessions.len() <= 8,
        turns.last().next is Finished ==> session::tasks_of(start.tasks@) + all_tasks(turns)
            == script(cx, sessions[0].layout, seen),
        turns.last().next is NoPackageName ==> sessions.len() == 1
            && sessions[0].layout.package is None,
{
    let last = sessions.len() - 1;
    lemma_run_agrees_at(seen, sessions, answers, turns, last);
    assert(is_answered(seen, sessions[last], answers[last], turns[last]));
    lemma_run_goes_forward(seen, sessions[last], answers[last], turns[last]);
    assert(turns.drop_last() =~= turns.take(last));
    let begun = session::prepare_tasks(cx);
    assert(begun + all_tasks(turns) =~= begun + all_tasks(turns.take(last)) + session::tasks_of(
        turns[last].tasks@,
    ));
}

/// A run that is answered with what is observed has done its script up to each of its stages.
proof fn lemma_run_agrees_at(
    seen: Observed,
    sessions: Seq<Session>,
    answers: Seq<Answer>,
    turns: Seq<Turn>,
    n: int,
)
    requires
        0 <= n < sessions.len(),
        sessions[0].stage == Stage::Stale,
        is_dialogue(seen, sessions, answers, turns),
    ensures
        sessions[n].cx == sessions[0].cx,
        sessions[n].layout == sessions[0].layout,
        agrees(seen, sessions[n]),
        n <= rank(sessions[n].stage),
        session::prepare_tasks(sessions[0].cx) + all_tasks(turns.take(n)) == script_until(
            sessions[n].stage,
            sessions[0].cx,
            sessions[0].layout,
            seen,
        ),
    decreases n,
{
    let begun = session::prepare_tasks(sessions[0].cx);
    if n == 0 {
        assert(begun + all_tasks(turns.take(0)) =~= begun);
    } else {
        let k = n - 1;
        lemma_run_agrees_at(seen, sessions, answers, turns, k);
        assert(is_answered(seen, sessions[k], answers[k], turns[k]));
        lemma_run_goes_forward(seen, sessions[k], answers[k], turns[k]);
        assert(turns[k].next is Ask);
        assert(turns.take(n).drop_last() =~= turns.take(k));
        assert(begun + all_tasks(turns.take(n)) =~= begun + all_tasks(turns.take(k))
            + session::tasks_of(turns[k].tasks@));
    }
}

/// Without a file to write into, reports are printed and nothing is written into a file. With
/// one, every report is captured, and what it says goes into that file.
pub proof fn lemma_reports_are_printed_or_saved(
    cx: Context,
    layout: Layout,
    seen: Observed,
    format: Format,
)
    ensures
        session::reported_by(cx, layout, format, reported_files(cx, seen)).stdout_capture
            == cx.args.output_path is Some,
        cx.args.output_path is None ==> {
            &&& forall|i: int|
                0 <= i < script(cx, layout, seen).len() ==> !(#[trigger] script(
                    cx,
                    layout,
                    seen,
                )[i] is WriteFile)
            &&& script(cx, layout, seen).contains(
                TaskView::Run(
                    session::reported_by(
                        cx,
                        layout,
                        report::format_of(cx.args),
                        reported_files(cx, seen),
                    ),
                ),
            )
        },
        cx.args.output_path matches Some(file) ==> script(cx, layout, seen).contains(
            TaskView::WriteFile(file@, seen.report),
        ),
{
    let all = script(cx, layout, seen);
    let at = merging(cx, layout, seen).len() as int;
    match cx.args.output_path {
        None => {
            assert(all[at] == TaskView::Run(
                session::reported_by(
                    cx,
                    layout,
                    report::format_of(cx.args),
                    reported_files(cx, seen),
                ),
            ));
        },
        Some(file) => {
            assert(all[at] == TaskView::WriteFile(file@, seen.report));
        },
    }
}

/// Opening a report in a browser is the last thing that a run does, and it is done exactly if
/// the format is "html" and it is asked for.
pub proof fn lemma_opening_comes_last(cx: Context, layout: Layout, seen: Observed)
    ensures
        session::opens(cx) <==> script(cx, layout, seen).last() is Open,
        forall|i: int|
            0 <= i < script(cx, layout, seen).len() - 1 ==> !(#[trigger] script(
                cx,
                layout,
                seen,
            )[i] is Open),
{
}

/// The doc tests leave no trace in a run that does not ask for them.
pub proof fn lemma_doctests_are_optional(
    cx: Context,
    layout: Layout,
    seen: Observed,
    candidates: Seq<Candidate>,
)
    requires
        !cx.args.doctests,
    ensures
        reported_files(cx, Observed { candidates, ..seen }) == reported_files(cx, seen),
        session::doctest_tasks(cx, layout) == Seq::<TaskView>::empty(),
        plan::rustdocflags_value(seen.rustdocflags, cx.args.doctests, layout.doctests_dir@)
            == seen.rustdocflags,
{
}

} // verus!
