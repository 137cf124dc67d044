use cargo_llvm_cov::args::Args;
use cargo_llvm_cov::context::{Context, Metadata};
use cargo_llvm_cov::objects::{append_doctests, messages, objects, Artifact, Candidate, Profile};
use cargo_llvm_cov::process::ProcessBuilder;
use cargo_llvm_cov::session::{Answer, Next, Query, Session, Task};
use cargo_llvm_cov::text::word;

fn context() -> Context {
    Context {
        args: Args {
            json: false,
            lcov: false,
            text: false,
            html: false,
            open: false,
            summary_only: false,
            output_path: None,
            output_dir: None,
            ignore_filename_regex: None,
            disable_default_ignore_filename_regex: true,
            doctests: false,
            no_fail_fast: false,
            workspace: false,
            exclude: vec![],
            release: false,
            features: vec![],
            all_features: false,
            no_default_features: false,
            target: None,
            manifest_path: None,
            verbose: 0,
            color: None,
            frozen: false,
            locked: false,
            unstable_flags: vec![],
            args: vec![],
        },
        verbose: None,
        metadata: Metadata { workspace_root: "/w".to_string(), target_directory: "/t".to_string() },
        manifest_path: word("/m"),
        target_dir: "t/".to_string(),
        llvm_cov: "llvm-cov".to_string(),
        llvm_profdata: "llvm-profdata".to_string(),
        cargo: word("cargo"),
        nightly: true,
    }
}

fn text(bytes: &[u8]) -> String {
    String::from_utf8_lossy(bytes).into_owned()
}

fn command(cmd: &ProcessBuilder) -> String {
    let mut line = text(&cmd.program);
    for arg in &cmd.args {
        line.push(' ');
        line.push_str(&text(arg));
    }
    line
}

fn task(task: &Task) -> String {
    match task {
        Task::CreateDirAll(dir) => format!("create_dir_all {}", text(dir)),
        Task::RemoveDirAll(dir) => format!("remove_dir_all {}", text(dir)),
        Task::CreateDir(dir) => format!("create_dir {}", text(dir)),
        Task::RemoveFile(file) => format!("remove_file {}", text(file)),
        Task::Run(cmd) => format!("run {}", command(cmd)),
        Task::WriteFile(file, content) => format!("write {} {}", text(file), content),
        Task::Open(dir, page) => format!("open {} {}", text(dir), page),
    }
}

fn artifact(test: Option<bool>, files: &[&str]) -> Artifact {
    Artifact {
        profile: test.map(|test| Profile { test }),
        filenames: files.iter().map(|file| file.to_string()).collect(),
    }
}

/// Does a whole run. Returns its tasks and questions, and whether it came to its end.
fn drive(cx: Context) -> (Vec<String>, bool) {
    let mut log = vec![];
    let mut turn = Session::start(cx);
    loop {
        log.extend(turn.tasks.iter().map(task));
        let (session, query) = match turn.next {
            Next::Ask(session, query) => (session, query),
            Next::Finished => return (log, true),
            Next::NoPackageName => return (log, false),
        };
        let answer = match query {
            Query::Glob(pattern) => {
                log.push(format!("? glob {}", pattern));
                let stale = pattern == "t/*.profraw";
                Answer::Paths(if stale { vec![word("s1"), word("s2")] } else { vec![word("p")] })
            }
            Query::VarsOs(first, second) => {
                log.push(format!("? vars {} {}", first, second));
                Answer::VarsOs(Some(word("-C x")), None)
            }
            Query::Read(cmd) => {
                assert!(cmd.stdout_capture);
                log.push(format!("? read {}", command(&cmd)));
                Answer::Output("{1}\n\n{2}\r\n".to_string())
            }
            Query::Parse(list) => {
                assert_eq!(list, vec!["{1}", "{2}"]);
                Answer::Artifacts(vec![
                    artifact(Some(true), &["a", "a.dSYM"]),
                    artifact(Some(false), &["b"]),
                    artifact(None, &["c"]),
                ])
            }
            Query::Candidates(pattern) => {
                log.push(format!("? candidates {}", pattern));
                Answer::Candidates(vec![
                    Candidate { path: word("no"), executable: false },
                    Candidate { path: vec![b'd', 0xff], executable: true },
                ])
            }
        };
        assert!(session.accepts(&answer));
        turn = session.advance(answer);
    }
}

#[test]
fn plain_run() {
    let (log, finished) = drive(context());
    assert!(finished);
    assert_eq!(
        log,
        vec![
            "create_dir_all t/",
            "? glob t/*.profraw",
            "remove_file s1",
            "remove_file s2",
            "remove_file t/w.profdata",
            "? vars RUSTFLAGS RUSTDOCFLAGS",
            "run cargo test --target-dir t/ --manifest-path /m",
            "? read cargo test --target-dir t/ --manifest-path /m --no-run --message-format=json",
            "? glob t/w-*.profraw",
            "run llvm-profdata merge -sparse p -o t/w.profdata",
            "run llvm-cov report -instr-profile=t/w.profdata -object a",
        ]
    );
}

#[test]
fn flags_reach_the_tests() {
    let turn = Session::start(context());
    let Next::Ask(session, _) = turn.next else { panic!() };
    let Next::Ask(session, _) = session.advance(Answer::Paths(vec![])).next else { panic!() };
    let turn = session.advance(Answer::VarsOs(Some(word("-C x")), Some(word("y"))));
    let Task::Run(cmd) = &turn.tasks[0] else { panic!() };
    assert_eq!(
        cmd.env,
        vec![
            (
                "RUSTFLAGS".to_string(),
                word("-C x -Zinstrument-coverage --remap-path-prefix /w/=")
            ),
            ("LLVM_PROFILE_FILE".to_string(), word("t/w-%m.profraw")),
            ("RUSTDOCFLAGS".to_string(), word("y")),
        ]
    );
    assert!(cmd.stdout_to_stderr);
    assert_eq!(cmd.dir.as_deref(), Some("/w"));
}

#[test]
fn html_run_with_doctests_and_browser() {
    let mut cx = context();
    cx.args.html = true;
    cx.args.open = true;
    cx.args.doctests = true;
    cx.args.output_dir = Some(word("out"));
    let (log, finished) = drive(cx);
    assert!(finished);
    let dir = format!("t/doctestbins{}*/rust_out", std::path::MAIN_SEPARATOR);
    let show = "-show-instantiations -show-line-counts-or-regions -show-expansions \
                -Xdemangler=rustfilt -output-dir=out";
    assert_eq!(
        log,
        vec![
            "create_dir_all t/".to_string(),
            "remove_dir_all out".to_string(),
            "create_dir_all out".to_string(),
            "? glob t/*.profraw".to_string(),
            "remove_file s1".to_string(),
            "remove_file s2".to_string(),
            "remove_dir_all t/doctestbins".to_string(),
            "create_dir t/doctestbins".to_string(),
            "remove_file t/w.profdata".to_string(),
            "? vars RUSTFLAGS RUSTDOCFLAGS".to_string(),
            "run cargo test --target-dir t/ --manifest-path /m".to_string(),
            "? read cargo test --target-dir t/ --manifest-path /m --no-run --message-format=json"
                .to_string(),
            format!("? candidates {}", dir),
            "? glob t/w-*.profraw".to_string(),
            "run llvm-profdata merge -sparse p -o t/w.profdata".to_string(),
            format!(
                "run llvm-cov show -format=html -instr-profile=t/w.profdata -object a \
                 -object d\u{fffd} {}",
                show
            ),
            "run llvm-cov report -instr-profile=t/w.profdata -object a -object d\u{fffd}"
                .to_string(),
            "open out index.html".to_string(),
        ]
    );
}

#[test]
fn json_run_into_a_file() {
    let mut cx = context();
    cx.args.json = true;
    cx.args.output_path = Some(word("cov.json"));
    let (log, finished) = drive(cx);
    assert!(finished);
    assert_eq!(
        log[log.len() - 3..],
        [
            "run llvm-profdata merge -sparse p -o t/w.profdata",
            "? read llvm-cov export -format=text -instr-profile=t/w.profdata -object a",
            "write cov.json {1}\n\n{2}\r\n",
        ]
    );
}

#[test]
fn html_run_into_a_file() {
    let mut cx = context();
    cx.args.html = true;
    cx.args.output_path = Some(word("f"));
    let (log, finished) = drive(cx);
    assert!(finished);
    assert_eq!(log.iter().filter(|line| line.starts_with("write f ")).count(), 2);
    assert_eq!(
        log[log.len() - 2],
        "? read llvm-cov report -instr-profile=t/w.profdata -object a"
    );
}

#[test]
fn a_workspace_without_a_name_stops_the_run() {
    let mut cx = context();
    cx.metadata.workspace_root = "/".to_string();
    let (log, finished) = drive(cx);
    assert!(!finished);
    assert_eq!(log.last().unwrap(), "remove_file s2");
}

#[test]
fn reports_to_be_opened_need_a_directory() {
    let mut cx = context();
    assert!(Session::can_start(&cx));
    cx.args.open = true;
    assert!(Session::can_start(&cx));
    cx.args.html = true;
    assert!(!Session::can_start(&cx));
    cx.args.output_dir = Some(word("out"));
    assert!(Session::can_start(&cx));
}

#[test]
fn only_fitting_answers_are_accepted() {
    let Next::Ask(session, _) = Session::start(context()).next else { panic!() };
    assert!(session.accepts(&Answer::Paths(vec![])));
    assert!(!session.accepts(&Answer::Output(String::new())));
    assert!(!session.accepts(&Answer::VarsOs(None, None)));
    assert!(!session.accepts(&Answer::Artifacts(vec![])));
    assert!(!session.accepts(&Answer::Candidates(vec![])));
}

#[test]
fn messages_are_lines_that_are_not_empty() {
    assert!(messages("").is_empty());
    assert!(messages("\n\r\n").is_empty());
    assert_eq!(messages("a\n\nb"), vec!["a", "b"]);
    assert_eq!(messages("a\r\n b\r"), vec!["a", " b\r"]);
}

#[test]
fn objects_are_test_binaries_without_debug_symbols() {
    let list = vec![
        artifact(Some(true), &["x", "x.dSYM", "dSYM", "ydSY"]),
        artifact(None, &["z"]),
        artifact(Some(false), &["z"]),
        artifact(Some(true), &["last"]),
    ];
    assert_eq!(objects(&list), vec!["x", "ydSY", "last"]);
    assert!(objects(&vec![]).is_empty());
}

#[test]
fn doctests_are_executables() {
    let mut files = vec!["first".to_string()];
    append_doctests(
        &mut files,
        &vec![
            Candidate { path: word("a"), executable: true },
            Candidate { path: word("b"), executable: false },
            Candidate { path: vec![0xc3, 0x28], executable: true },
        ],
    );
    assert_eq!(files, vec!["first", "a", "\u{fffd}("]);
}
