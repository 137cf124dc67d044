//! A run: from clearing away what earlier runs have left, over testing, to the reports.
//!
//! [`Session`] lays down what is to be done next and then asks a question, again and again,
//! until the run is over. Tasks are done in order, and a task or a question that fails ends the
//! run.

use vstd::prelude::*;

use crate::context;
use crate::context::Context;
use crate::objects;
use crate::objects::Artifact;
use crate::objects::Candidate;
use crate::plan;
use crate::plan::Layout;
use crate::process;
use crate::process::ProcessBuilder;
use crate::report;
use crate::report::Format;
use crate::text;

verus! {

/// Something to be done.
#[derive(Debug)]
pub enum Task {
    /// Create a directory and its parents, where they are missing.
    CreateDirAll(Vec<u8>),
    /// Remove a directory and what is in it, if it exists.
    RemoveDirAll(Vec<u8>),
    /// Create a directory.
    CreateDir(Vec<u8>),
    /// Remove a file, if it exists.
    RemoveFile(Vec<u8>),
    /// Run a process to its end.
    Run(ProcessBuilder),
    /// Write a text into a file.
    WriteFile(Vec<u8>, String),
    /// Open the page of the given name in a directory.
    Open(Vec<u8>, String),
}

/// What a [`Task`] does.
#[verifier::ext_equal]
pub enum TaskView {
    CreateDirAll(Seq<u8>),
    RemoveDirAll(Seq<u8>),
    CreateDir(Seq<u8>),
    RemoveFile(Seq<u8>),
    Run(process::ProcessView),
    WriteFile(Seq<u8>, Seq<char>),
    Open(Seq<u8>, Seq<char>),
}

impl View for Task {
    type V = TaskView;

    open spec fn view(&self) -> TaskView {
        match self {
            Task::CreateDirAll(dir) => TaskView::CreateDirAll(dir@),
            Task::RemoveDirAll(dir) => TaskView::RemoveDirAll(dir@),
            Task::CreateDir(dir) => TaskView::CreateDir(dir@),
            Task::RemoveFile(file) => TaskView::RemoveFile(file@),
            Task::Run(cmd) => TaskView::Run(cmd@),
            Task::WriteFile(file, content) => TaskView::WriteFile(file@, content@),
            Task::Open(dir, page) => TaskView::Open(dir@, page@),
        }
    }
}

/// What a list of tasks does.
pub open spec fn tasks_of(list: Seq<Task>) -> Seq<TaskView> {
    Seq::new(list.len(), |i: int| list[i]@)
}

/// Something to be found out.
#[derive(Debug)]
pub enum Query {
    /// The paths that match a pattern.
    Glob(String),
    /// The values of two environment variables.
    VarsOs(String, String),
    /// What a process prints.
    Read(ProcessBuilder),
    /// What cargo's messages say.
    Parse(Vec<String>),
    /// The paths that match a pattern, and which of them can be executed.
    Candidates(String),
}

/// What a [`Query`] asks.
#[verifier::ext_equal]
pub enum QueryView {
    Glob(Seq<char>),
    VarsOs(Seq<char>, Seq<char>),
    Read(process::ProcessView),
    Parse(Seq<Seq<char>>),
    Candidates(Seq<char>),
}

impl View for Query {
    type V = QueryView;

    open spec fn view(&self) -> QueryView {
        match self {
            Query::Glob(pattern) => QueryView::Glob(pattern@),
            Query::VarsOs(first, second) => QueryView::VarsOs(first@, second@),
            Query::Read(cmd) => QueryView::Read(cmd@),
            Query::Parse(messages) => QueryView::Parse(text::texts(messages@)),
            Query::Candidates(pattern) => QueryView::Candidates(pattern@),
        }
    }
}

/// An answer to a [`Query`].
#[derive(Debug)]
pub enum Answer {
    Paths(Vec<Vec<u8>>),
    VarsOs(Option<Vec<u8>>, Option<Vec<u8>>),
    Output(String),
    Artifacts(Vec<Artifact>),
    Candidates(Vec<Candidate>),
}

/// What is being waited for.
#[derive(Clone, Copy, Debug, PartialEq, Eq, Structural)]
pub enum Stage {
    /// The raw profiles of earlier runs.
    Stale,
    /// The flags in the environment.
    Flags,
    /// Cargo's messages about what it has built.
    Listing,
    /// What the messages say.
    Parsing,
    /// The doc tests.
    Doctests,
    /// The raw profiles of this run.
    Profiles,
    /// The report that goes into a file.
    Report,
    /// The summary that goes into a file after a report in "html" format.
    Summary,
}

/// A run that waits for an answer.
#[derive(Debug)]
pub struct Session {
    pub cx: Context,
    pub layout: Layout,
    pub stage: Stage,
    /// The objects found so far.
    pub files: Vec<String>,
}

/// How a run goes on after the tasks of a turn.
#[derive(Debug)]
pub enum Next {
    /// With a question.
    Ask(Session, Query),
    /// Not at all: it is over.
    Finished,
    /// Not at all: the root directory of the workspace has no name to call the profiles by.
    NoPackageName,
}

/// A part of a run: tasks, and what follows them.
#[derive(Debug)]
pub struct Turn {
    pub tasks: Vec<Task>,
    pub next: Next,
}

/// The report is opened in a browser in the end.
pub open spec fn opens(cx: Context) -> bool {
    report::format_of(cx.args) == Format::Html && cx.args.open
}

impl Session {
    /// A report to be opened has a directory, and the files named after the package are known
    /// when they are needed.
    pub open spec fn wf(self) -> bool {
        &&& opens(self.cx) ==> self.cx.args.output_dir is Some
        &&& self.stage != Stage::Stale ==> self.layout.package is Some
        &&& self.stage == Stage::Report || self.stage == Stage::Summary
            ==> self.cx.args.output_path is Some
    }

    /// `answer` answers the question that the run waits for.
    pub open spec fn awaits(self, answer: Answer) -> bool {
        match self.stage {
            Stage::Stale | Stage::Profiles => answer is Paths,
            Stage::Flags => answer is VarsOs,
            Stage::Listing | Stage::Report | Stage::Summary => answer is Output,
            Stage::Parsing => answer is Artifacts,
            Stage::Doctests => answer is Candidates,
        }
    }
}

/// The first tasks: the target directory, and an empty directory for reports.
pub open spec fn prepare_tasks(cx: Context) -> Seq<TaskView> {
    seq![TaskView::CreateDirAll(text::utf8(cx.target_dir@))] + (match cx.args.output_dir {
        Some(dir) => seq![TaskView::RemoveDirAll(dir@), TaskView::CreateDirAll(dir@)],
        None => Seq::empty(),
    })
}

/// Removing files, one after the other.
pub open spec fn remove_tasks(files: Seq<Seq<u8>>) -> Seq<TaskView> {
    Seq::new(files.len(), |i: int| TaskView::RemoveFile(files[i]))
}

/// An empty directory for the executables of doc tests, where they are asked for.
pub open spec fn doctest_tasks(cx: Context, layout: Layout) -> Seq<TaskView> {
    if cx.args.doctests {
        seq![
            TaskView::RemoveDirAll(text::utf8(layout.doctests_dir@)),
            TaskView::CreateDir(text::utf8(layout.doctests_dir@)),
        ]
    } else {
        Seq::empty()
    }
}

/// The variables that are set for the tests, given the flags in the environment.
pub open spec fn variables(
    cx: Context,
    layout: Layout,
    rustflags: Option<Seq<u8>>,
    rustdocflags: Option<Seq<u8>>,
) -> Seq<(Seq<char>, Seq<u8>)> {
    plan::test_env(
        plan::rustflags_value(rustflags, cx.metadata.workspace_root@),
        layout.package->0.llvm_profile_file@,
        plan::rustdocflags_value(rustdocflags, cx.args.doctests, layout.doctests_dir@),
    )
}

/// The process that makes a report of the given format.
pub open spec fn reported_by(
    cx: Context,
    layout: Layout,
    format: Format,
    files: Seq<Seq<char>>,
) -> process::ProcessView {
    report::report_process(format, cx, layout.package->0.profdata_file@, files)
}

/// Opening the report, where that is asked for.
pub open spec fn open_tasks(cx: Context) -> Seq<TaskView> {
    if opens(cx) {
        seq![TaskView::Open(cx.args.output_dir->0@, "index.html"@)]
    } else {
        Seq::empty()
    }
}

/// The reports, where they are not to go into a file. A summary follows a report in "html"
/// format.
pub open spec fn report_tasks(cx: Context, layout: Layout, files: Seq<Seq<char>>) -> Seq<
    TaskView,
> {
    let format = report::format_of(cx.args);
    seq![TaskView::Run(reported_by(cx, layout, format, files))] + (if format == Format::Html {
        seq![TaskView::Run(reported_by(cx, layout, Format::Summary, files))]
    } else {
        Seq::empty()
    }) + open_tasks(cx)
}

/// The run goes on with a question, at the given stage and with the given objects.
pub open spec fn goes_on(
    pre: Session,
    next: Next,
    stage: Stage,
    files: Seq<Seq<char>>,
    query: QueryView,
) -> bool {
    next matches Next::Ask(session, asked) && {
        &&& session.cx == pre.cx
        &&& session.layout == pre.layout
        &&& session.stage == stage
        &&& text::texts(session.files@) == files
        &&& asked@ == query
    }
}

/// `turn` is how a run begins.
pub open spec fn is_start(cx: Context, turn: Turn) -> bool {
    &&& tasks_of(turn.tasks@) == prepare_tasks(cx)
    &&& turn.next matches Next::Ask(session, query) && {
        &&& session.wf()
        &&& session.cx == cx
        &&& plan::is_layout(cx.target_dir@, cx.metadata.workspace_root@, session.layout)
        &&& session.stage == Stage::Stale
        &&& text::texts(session.files@) == Seq::<Seq<char>>::empty()
        &&& query@ == QueryView::Glob(session.layout.stale_glob@)
    }
}

/// What comes of an answer: `turn` is how the run `pre` goes on, given `answer`.
pub open spec fn is_turn(pre: Session, answer: Answer, turn: Turn) -> bool {
    let (cx, layout) = (pre.cx, pre.layout);
    let package = layout.package->0;
    let files = text::texts(pre.files@);
    let tasks = tasks_of(turn.tasks@);
    match (pre.stage, answer) {
        (Stage::Stale, Answer::Paths(stale)) => {
            let cleared = remove_tasks(text::words(stale@)) + doctest_tasks(cx, layout);
            if layout.package is Some {
                &&& tasks == cleared.push(
                    TaskView::RemoveFile(text::utf8(package.profdata_file@)),
                )
                &&& goes_on(
                    pre,
                    turn.next,
                    Stage::Flags,
                    files,
                    QueryView::VarsOs("RUSTFLAGS"@, "RUSTDOCFLAGS"@),
                )
            } else {
                tasks == cleared && turn.next is NoPackageName
            }
        },
        (Stage::Flags, Answer::VarsOs(rustflags, rustdocflags)) => {
            let env = variables(
                cx,
                layout,
                process::optional_word(rustflags),
                process::optional_word(rustdocflags),
            );
            &&& tasks == seq![TaskView::Run(plan::test_process(cx, env))]
            &&& goes_on(
                pre,
                turn.next,
                Stage::Listing,
                files,
                QueryView::Read(plan::list_process(cx, env)),
            )
        },
        (Stage::Listing, Answer::Output(output)) => {
            &&& tasks == Seq::<TaskView>::empty()
            &&& goes_on(
                pre,
                turn.next,
                Stage::Parsing,
                files,
                QueryView::Parse(objects::messages_of(output@)),
            )
        },
        (Stage::Parsing, Answer::Artifacts(artifacts)) => {
            &&& tasks == Seq::<TaskView>::empty()
            &&& if cx.args.doctests {
                goes_on(
                    pre,
                    turn.next,
                    Stage::Doctests,
                    objects::objects_of(artifacts@),
                    QueryView::Candidates(layout.doctest_glob@),
                )
            } else {
                goes_on(
                    pre,
                    turn.next,
                    Stage::Profiles,
                    objects::objects_of(artifacts@),
                    QueryView::Glob(package.profraw_glob@),
                )
            }
        },
        (Stage::Doctests, Answer::Candidates(candidates)) => {
            &&& tasks == Seq::<TaskView>::empty()
            &&& goes_on(
                pre,
                turn.next,
                Stage::Profiles,
                files + objects::doctests_in(candidates@),
                QueryView::Glob(package.profraw_glob@),
            )
        },
        (Stage::Profiles, Answer::Paths(profiles)) => {
            let merge = seq![
                TaskView::Run(
                    plan::merge_process(cx, text::words(profiles@), package.profdata_file@),
                ),
            ];
            if cx.args.output_path is None {
                tasks == merge + report_tasks(cx, layout, files) && turn.next is Finished
            } else {
                &&& tasks == merge
                &&& goes_on(
                    pre,
                    turn.next,
                    Stage::Report,
                    files,
                    QueryView::Read(
                        reported_by(cx, layout, report::format_of(cx.args), files),
                    ),
                )
            }
        },
        (Stage::Report, Answer::Output(report)) => {
            &&& tasks == seq![TaskView::WriteFile(cx.args.output_path->0@, report@)]
            &&& if report::format_of(cx.args) == Format::Html {
                goes_on(
                    pre,
                    turn.next,
                    Stage::Summary,
                    files,
                    QueryView::Read(reported_by(cx, layout, Format::Summary, files)),
                )
            } else {
                turn.next is Finished
            }
        },
        (Stage::Summary, Answer::Output(summary)) => {
            &&& tasks == seq![TaskView::WriteFile(cx.args.output_path->0@, summary@)]
                + open_tasks(cx)
            &&& turn.next is Finished
        },
        _ => true,
    }
}

/// Adding a task to a list adds what it does.
proof fn lemma_tasks_push(list: Seq<Task>, task: Task)
    ensures
        tasks_of(list.push(task)) == tasks_of(list).push(task@),
{
    assert(tasks_of(list.push(task)) =~= tasks_of(list).push(task@));
}

impl Session {
    /// Whether a run can begin: a report to be opened needs a directory.
    pub fn can_start(cx: &Context) -> (r: bool)
        ensures
            r == (opens(*cx) ==> cx.args.output_dir is Some),
            !r <==> cx.args.html && !cx.args.json && !cx.args.lcov && !cx.args.text && cx.args.open
                && cx.args.output_dir is None,
    {
        !matches!(Format::from_args(&cx.args), Format::Html) || !cx.args.open
            || cx.args.output_dir.is_some()
    }

    /// Begins a run.
    pub fn start(cx: Context) -> (turn: Turn)
        requires
            opens(cx) ==> cx.args.output_dir is Some,
        ensures
            is_start(cx, turn),
    {
        let layout: Layout = Layout::new(
            cx.target_dir.as_str(),
            cx.metadata.workspace_root.as_str(),
        );
        let mut tasks: Vec<Task> = Vec::new();
        tasks.push(Task::CreateDirAll(text::word(cx.target_dir.as_str())));
        if let Some(dir) = &cx.args.output_dir {
            tasks.push(Task::RemoveDirAll(context::copy_word(dir)));
            tasks.push(Task::CreateDirAll(context::copy_word(dir)));
        }
        assert(tasks_of(tasks@) =~= prepare_tasks(cx));
        let query: Query = Query::Glob(layout.stale_glob.clone());
        let files: Vec<String> = Vec::new();
        assert(text::texts(files@) =~= Seq::<Seq<char>>::empty());
        let session = Session { cx, layout, stage: Stage::Stale, files };
        Turn { tasks, next: Next::Ask(session, query) }
    }

    /// Whether `answer` answers the question that the run waits for.
    pub fn accepts(&self, answer: &Answer) -> (r: bool)
        ensures
            r == self.awaits(*answer),
    {
        match self.stage {
            Stage::Stale | Stage::Profiles => matches!(answer, Answer::Paths(_)),
            Stage::Flags => matches!(answer, Answer::VarsOs(_, _)),
            Stage::Listing | Stage::Report | Stage::Summary => matches!(answer, Answer::Output(_)),
            Stage::Parsing => matches!(answer, Answer::Artifacts(_)),
            Stage::Doctests => matches!(answer, Answer::Candidates(_)),
        }
    }

    /// Goes on with the raw profiles of earlier runs.
    fn clear(self, stale: Vec<Vec<u8>>) -> (turn: Turn)
        requires
            self.wf(),
            self.stage == Stage::Stale,
        ensures
            is_turn(self, Answer::Paths(stale), turn),
            turn.next matches Next::Ask(session, _) ==> session.wf(),
    {
        let mut tasks: Vec<Task> = Vec::new();
        let mut i: usize = 0;
        let ghost files = text::words(stale@);
        assert(tasks_of(tasks@) =~= remove_tasks(files.take(0)));
        while i < stale.len()
            invariant
                files == text::words(stale@),
                i <= stale@.len(),
                tasks_of(tasks@) == remove_tasks(files.take(i as int)),
            decreases stale@.len() - i,
        {
            let task: Task = Task::RemoveFile(context::copy_word(&stale[i]));
            proof {
                lemma_tasks_push(tasks@, task);
            }
            tasks.push(task);
            assert(tasks_of(tasks@) =~= remove_tasks(files.take(i + 1)));
            i += 1;
        }
        assert(files.take(i as int) =~= files);
        if self.cx.args.doctests {
            let dir: &str = self.layout.doctests_dir.as_str();
            tasks.push(Task::RemoveDirAll(text::word(dir)));
            tasks.push(Task::CreateDir(text::word(dir)));
        }
        assert(tasks_of(tasks@) =~= remove_tasks(files) + doctest_tasks(self.cx, self.layout));
        let profdata: Option<Vec<u8>> = match &self.layout.package {
            Some(package) => Some(text::word(package.profdata_file.as_str())),
            None => None,
        };
        match profdata {
            Some(profdata) => {
                let task: Task = Task::RemoveFile(profdata);
                proof {
                    lemma_tasks_push(tasks@, task);
                }
                tasks.push(task);
                let query: Query = Query::VarsOs("RUSTFLAGS".to_owned(), "RUSTDOCFLAGS".to_owned());
                let session = Session { stage: Stage::Flags, ..self };
                Turn { tasks, next: Next::Ask(session, query) }
            },
            None => Turn { tasks, next: Next::NoPackageName },
        }
    }

    /// Goes on with the flags in the environment.
    fn test(self, rustflags: Option<Vec<u8>>, rustdocflags: Option<Vec<u8>>) -> (turn: Turn)
        requires
            self.wf(),
            self.stage == Stage::Flags,
        ensures
            is_turn(self, Answer::VarsOs(rustflags, rustdocflags), turn),
            turn.next matches Next::Ask(session, _) ==> session.wf(),
    {
        let ghost env = variables(
            self.cx,
            self.layout,
            process::optional_word(rustflags),
            process::optional_word(rustdocflags),
        );
        let rustflags: Vec<u8> = plan::rustflags(
            rustflags,
            self.cx.metadata.workspace_root.as_str(),
        );
        let rustdocflags: Option<Vec<u8>> = plan::rustdocflags(
            rustdocflags,
            self.cx.args.doctests,
            self.layout.doctests_dir.as_str(),
        );
        let package: &plan::PackageFiles = self.layout.package.as_ref().unwrap();
        let profile: &str = package.llvm_profile_file.as_str();
        let list: ProcessBuilder = plan::list_command(
            &self.cx,
            context::copy_word(&rustflags),
            profile,
            match &rustdocflags {
                Some(flags) => Some(context::copy_word(flags)),
                None => None,
            },
        );
        let test: ProcessBuilder = plan::test_command(&self.cx, rustflags, profile, rustdocflags);
        assert(test@ == plan::test_process(self.cx, env));
        assert(list@ == plan::list_process(self.cx, env));
        let mut tasks: Vec<Task> = Vec::new();
        tasks.push(Task::Run(test));
        assert(tasks_of(tasks@) =~= seq![TaskView::Run(plan::test_process(self.cx, env))]);
        let session = Session { stage: Stage::Listing, ..self };
        Turn { tasks, next: Next::Ask(session, Query::Read(list)) }
    }

    /// Goes on to the raw profiles of this run, with `files` as the objects found.
    fn seek_profiles(self, files: Vec<String>) -> (turn: Turn)
        requires
            self.wf(),
            self.layout.package is Some,
        ensures
            tasks_of(turn.tasks@) == Seq::<TaskView>::empty(),
            goes_on(
                self,
                turn.next,
                Stage::Profiles,
                text::texts(files@),
                QueryView::Glob(self.layout.package->0.profraw_glob@),
            ),
            turn.next matches Next::Ask(session, _) ==> session.wf(),
    {
        let query: Query = Query::Glob(self.layout.package.as_ref().unwrap().profraw_glob.clone());
        let tasks: Vec<Task> = Vec::new();
        assert(tasks_of(tasks@) =~= Seq::<TaskView>::empty());
        let session = Session { stage: Stage::Profiles, files, ..self };
        Turn { tasks, next: Next::Ask(session, query) }
    }

    /// Goes on with what cargo has built.
    fn gather(self, artifacts: Vec<Artifact>) -> (turn: Turn)
        requires
            self.wf(),
            self.stage == Stage::Parsing,
        ensures
            is_turn(self, Answer::Artifacts(artifacts), turn),
            turn.next matches Next::Ask(session, _) ==> session.wf(),
    {
        let files: Vec<String> = objects::objects(&artifacts);
        if self.cx.args.doctests {
            let query: Query = Query::Candidates(self.layout.doctest_glob.clone());
            let tasks: Vec<Task> = Vec::new();
            assert(tasks_of(tasks@) =~= Seq::<TaskView>::empty());
            let session = Session { stage: Stage::Doctests, files, ..self };
            Turn { tasks, next: Next::Ask(session, query) }
        } else {
            self.seek_profiles(files)
        }
    }

    /// The process that makes a report of the given format.
    fn report(&self, format: Format) -> (cmd: ProcessBuilder)
        requires
            self.layout.package is Some,
        ensures
            cmd@ == reported_by(self.cx, self.layout, format, text::texts(self.files@)),
    {
        let package: &plan::PackageFiles = self.layout.package.as_ref().unwrap();
        format.report(&self.cx, package.profdata_file.as_str(), &self.files)
    }

    /// Adds opening the report to `tasks`, where that is asked for.
    fn append_open(&self, tasks: &mut Vec<Task>)
        requires
            self.wf(),
        ensures
            tasks_of(final(tasks)@) == tasks_of(old(tasks)@) + open_tasks(self.cx),
    {
        let ghost before = tasks@;
        if matches!(Format::from_args(&self.cx.args), Format::Html) && self.cx.args.open {
            let dir: Vec<u8> = context::copy_word(self.cx.args.output_dir.as_ref().unwrap());
            tasks.push(Task::Open(dir, "index.html".to_owned()));
        }
        assert(tasks_of(tasks@) =~= tasks_of(before) + open_tasks(self.cx));
    }

    /// Goes on with the raw profiles of this run.
    fn merge(self, profiles: Vec<Vec<u8>>) -> (turn: Turn)
        requires
            self.wf(),
            self.stage == Stage::Profiles,
        ensures
            is_turn(self, Answer::Paths(profiles), turn),
            turn.next matches Next::Ask(session, _) ==> session.wf(),
    {
        let package: &plan::PackageFiles = self.layout.package.as_ref().unwrap();
        let merge: ProcessBuilder = plan::merge_command(
            &self.cx,
            &profiles,
            package.profdata_file.as_str(),
        );
        let ghost merging = seq![TaskView::Run(merge@)];
        let mut tasks: Vec<Task> = Vec::new();
        tasks.push(Task::Run(merge));
        assert(tasks_of(tasks@) =~= merging);
        let format: Format = Format::from_args(&self.cx.args);
        let report: ProcessBuilder = self.report(format);
        if self.cx.args.output_path.is_some() {
            let session = Session { stage: Stage::Report, ..self };
            return Turn { tasks, next: Next::Ask(session, Query::Read(report)) };
        }
        tasks.push(Task::Run(report));
        if matches!(format, Format::Html) {
            tasks.push(Task::Run(self.report(Format::Summary)));
        }
        self.append_open(&mut tasks);
        assert(tasks_of(tasks@) =~= merging + report_tasks(
            self.cx,
            self.layout,
            text::texts(self.files@),
        ));
        Turn { tasks, next: Next::Finished }
    }

    /// Goes on with a report that goes into a file.
    fn save(self, report: String) -> (turn: Turn)
        requires
            self.wf(),
            self.stage == Stage::Report || self.stage == Stage::Summary,
        ensures
            is_turn(self, Answer::Output(report), turn),
            turn.next matches Next::Ask(session, _) ==> session.wf(),
    {
        let file: Vec<u8> = context::copy_word(self.cx.args.output_path.as_ref().unwrap());
        let ghost saving = seq![TaskView::WriteFile(file@, report@)];
        let mut tasks: Vec<Task> = Vec::new();
        tasks.push(Task::WriteFile(file, report));
        assert(tasks_of(tasks@) =~= saving);
        if matches!(self.stage, Stage::Summary) {
            self.append_open(&mut tasks);
            return Turn { tasks, next: Next::Finished };
        }
        if matches!(Format::from_args(&self.cx.args), Format::Html) {
            let query: Query = Query::Read(self.report(Format::Summary));
            let session = Session { stage: Stage::Summary, ..self };
            Turn { tasks, next: Next::Ask(session, query) }
        } else {
            Turn { tasks, next: Next::Finished }
        }
    }

    /// Goes on with the answer to the question that the run waits for.
    pub fn advance(self, answer: Answer) -> (turn: Turn)
        requires
            self.wf(),
            self.awaits(answer),
        ensures
            is_turn(self, answer, turn),
            turn.next matches Next::Ask(session, _) ==> session.wf(),
    {
        match (self.stage, answer) {
            (Stage::Stale, Answer::Paths(stale)) => self.clear(stale),
            (Stage::Flags, Answer::VarsOs(rustflags, rustdocflags)) => self.test(
                rustflags,
                rustdocflags,
            ),
            (Stage::Listing, Answer::Output(output)) => {
                let query: Query = Query::Parse(objects::messages(output.as_str()));
                let tasks: Vec<Task> = Vec::new();
                assert(tasks_of(tasks@) =~= Seq::<TaskView>::empty());
                let session = Session { stage: Stage::Parsing, ..self };
                Turn { tasks, next: Next::Ask(session, query) }
            },
            (Stage::Parsing, Answer::Artifacts(artifacts)) => self.gather(artifacts),
            (Stage::Doctests, Answer::Candidates(candidates)) => {
                let Session { cx, layout, stage, files } = self;
                let mut files: Vec<String> = files;
                objects::append_doctests(&mut files, &candidates);
                let session = Session { cx, layout, stage, files: Vec::new() };
                session.seek_profiles(files)
            },
            (Stage::Profiles, Answer::Paths(profiles)) => self.merge(profiles),
            (Stage::Report, Answer::Output(report)) => self.save(report),
            (Stage::Summary, Answer::Output(summary)) => self.save(summary),
            // No other answer is awaited.
            (_, _) => Turn { tasks: Vec::new(), next: Next::Finished },
        }
    }
}

} // verus!
