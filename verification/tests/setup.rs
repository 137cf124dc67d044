use cargo_llvm_cov::args::Args;
use cargo_llvm_cov::color::Coloring;
use cargo_llvm_cov::context::{Context, Metadata};
use cargo_llvm_cov::error::Error;
use cargo_llvm_cov::process::ProcessBuilder;
use cargo_llvm_cov::setup::{settle, verbose_flag, Progress, Reply, Request, Setup, Stage};
use cargo_llvm_cov::system::System;
use cargo_llvm_cov::text::word;
use cargo_llvm_cov::toolchain::{cargo, host, nightly, rustc, sysroot};

fn no_args() -> Args {
    Args {
        json: false,
        lcov: false,
        text: false,
        html: false,
        open: false,
        summary_only: false,
        output_path: None,
        output_dir: None,
        ignore_filename_regex: None,
        disable_default_ignore_filename_regex: false,
        doctests: false,
        no_fail_fast: false,
        workspace: false,
        exclude: vec![],
        release: false,
        features: vec![],
        all_features: false,
        no_default_features: false,
        target: None,
        manifest_path: None,
        verbose: 0,
        color: None,
        frozen: false,
        locked: false,
        unstable_flags: vec![],
        args: vec![],
    }
}

fn joined(base: &str, path: &str) -> String {
    format!("{}{}{}", base, std::path::MAIN_SEPARATOR, path)
}

fn command(cmd: &ProcessBuilder) -> String {
    let mut line = String::from_utf8_lossy(&cmd.program).into_owned();
    for arg in &cmd.args {
        line.push(' ');
        line.push_str(&String::from_utf8_lossy(arg));
    }
    assert!(cmd.stdout_capture && !cmd.stderr_capture && !cmd.stdout_to_stderr);
    assert!(cmd.env.is_empty());
    line
}

fn next(progress: Progress) -> (Setup, Request, Option<Error>) {
    match progress {
        Progress::Ask(setup, request, failure) => (setup, request, failure),
        Progress::Ready(_) => panic!("no question is left"),
    }
}

fn go_on(setup: Setup, reply: Reply) -> Progress {
    assert!(setup.accepts(&reply));
    setup.resume(reply).unwrap()
}

fn metadata() -> Metadata {
    Metadata { workspace_root: "/w".to_string(), target_directory: "/w/target".to_string() }
}

/// Answers all questions of a setup, on a nightly toolchain or another one. Returns what was
/// asked and the context.
fn drive(args: Args, is_nightly: bool) -> (Vec<String>, Context) {
    let mut asked = vec![];
    let mut progress = Setup::begin(args, ".exe".to_string()).unwrap();
    loop {
        let (setup, request, failure) = match progress {
            Progress::Ask(setup, request, failure) => (setup, request, failure),
            Progress::Ready(cx) => return (asked, cx),
        };
        let failure = failure.map_or(String::new(), |error| format!(" or {}", error.message()));
        let stage = setup.stage;
        let (question, reply) = match request {
            Request::Var(name) => {
                let value = if name == "CARGO_TERM_COLOR" { Some("never".to_string()) } else { None };
                (format!("var {}", name), Reply::Var(value))
            }
            Request::VarOs(name) => {
                let value = if name == "CARGO" { Some(word("/c/cargo")) } else { None };
                (format!("var_os {}", name), Reply::VarOs(value))
            }
            Request::Read(cmd) => {
                let reply = match stage {
                    Stage::Manifest => "/w/p/Cargo.toml",
                    Stage::Version if is_nightly => "cargo 1.54.0-nightly (44456677b 2021-06-12)",
                    Stage::Version => "cargo 1.53.0 (4369396ce 2021-04-27)",
                    Stage::Sysroot => " /s\n",
                    _ => "rustc 1.54.0\nbinary: rustc\r\nhost: h-o-s-t\r\nrelease: 1",
                };
                let dir = cmd.dir.clone().map_or(String::new(), |dir| format!(" in {}", dir));
                (format!("read {}{}", command(&cmd), dir), Reply::Output(reply.to_string()))
            }
            Request::Run(cmd) => (format!("run {}", command(&cmd)), Reply::Done),
            Request::Metadata(manifest) => (
                format!("metadata {}", String::from_utf8(manifest).unwrap()),
                Reply::Metadata(metadata()),
            ),
            Request::Exists(file) => (format!("exists {}", file), Reply::Exists(true)),
        };
        asked.push(format!("{}{}", question, failure));
        progress = go_on(setup, reply);
    }
}

#[test]
fn nightly_setup() {
    let mut args = no_args();
    args.open = true;
    args.verbose = 3;
    let (asked, cx) = drive(args, true);
    let bin = joined("/s", "lib/rustlib/h-o-s-t/bin");
    let llvm_cov = joined(&bin, "llvm-cov.exe");
    let llvm_profdata = joined(&bin, "llvm-profdata.exe");
    assert_eq!(
        asked,
        vec![
            "var CARGO_TERM_COLOR".to_string(),
            "read cargo locate-project --message-format plain".to_string(),
            "metadata /w/p/Cargo.toml".to_string(),
            "var_os CARGO".to_string(),
            "read /c/cargo version in /w".to_string(),
            "var_os RUSTC".to_string(),
            "read rustc --print sysroot or failed to find sysroot".to_string(),
            "var_os RUSTC".to_string(),
            "read rustc --version --verbose".to_string(),
            format!("exists {}", llvm_cov),
            format!("exists {}", llvm_profdata),
            "run rustfilt -V or --html flag requires rustfilt, please install rustfilt with \
             `cargo install rustfilt`"
                .to_string(),
        ]
    );
    assert!(cx.args.html && cx.args.open);
    assert_eq!(cx.args.output_dir, Some(word(&joined("/w/target", "llvm-cov"))));
    assert_eq!(cx.args.color, Some(Coloring::Never));
    assert_eq!(cx.verbose.as_deref(), Some("-vvv"));
    assert_eq!(cx.manifest_path, word("/w/p/Cargo.toml"));
    assert_eq!(cx.args.manifest_path, None);
    assert_eq!(cx.metadata.workspace_root, "/w");
    assert_eq!(cx.target_dir, joined("/w/target", "llvm-cov-target"));
    assert_eq!(cx.llvm_cov, llvm_cov);
    assert_eq!(cx.llvm_profdata, llvm_profdata);
    assert_eq!(cx.cargo, word("/c/cargo"));
    assert!(cx.nightly);
}

#[test]
fn stable_setup() {
    let mut args = no_args();
    args.json = true;
    args.color = Some(Coloring::Auto);
    args.manifest_path = Some(vec![0xff]);
    args.output_dir = Some(word("o"));
    let mut progress = Setup::begin(args, String::new()).unwrap();
    let mut asked = vec![];
    let cx = loop {
        let (setup, request, failure) = match progress {
            Progress::Ask(setup, request, failure) => (setup, request, failure),
            Progress::Ready(cx) => break cx,
        };
        assert_eq!(failure.is_some(), setup.stage == Stage::Sysroot);
        asked.push(setup.stage);
        let reply = match request {
            Request::Metadata(manifest) => {
                assert_eq!(manifest, vec![0xff]);
                Reply::Metadata(metadata())
            }
            Request::VarOs(_) => Reply::VarOs(Some(word("/x"))),
            Request::Read(cmd) => match setup.stage {
                Stage::Version => Reply::Output("cargo 1.53.0".to_string()),
                Stage::Sysroot => {
                    assert_eq!(command(&cmd), "rustup run nightly rustc --print sysroot");
                    Reply::Output("/s".to_string())
                }
                _ => {
                    assert_eq!(command(&cmd), "/x --version --verbose");
                    Reply::Output("host: h".to_string())
                }
            },
            Request::Exists(_) => Reply::Exists(true),
            other => panic!("{:?}", other),
        };
        progress = go_on(setup, reply);
    };
    assert_eq!(
        asked,
        vec![
            Stage::Metadata,
            Stage::Cargo,
            Stage::Version,
            Stage::Sysroot,
            Stage::HostRustc,
            Stage::Host,
            Stage::LlvmCov,
            Stage::LlvmProfdata,
        ]
    );
    assert!(!cx.nightly);
    assert_eq!(cx.cargo, word("cargo"));
    assert_eq!(cx.args.output_dir, None);
    assert_eq!(cx.args.color, Some(Coloring::Auto));
    assert_eq!(cx.verbose, None);
    assert_eq!(cx.manifest_path, vec![0xff]);
}

#[test]
fn colors_in_the_environment() {
    let (setup, _, _) = next(Setup::begin(no_args(), String::new()).unwrap());
    assert!(!setup.accepts(&Reply::VarOs(None)));
    let error = setup.resume(Reply::Var(Some("blue".to_string()))).unwrap_err();
    assert_eq!(error.message(), "must be auto, always, or never, but found `blue`");
    let (setup, _, _) = next(Setup::begin(no_args(), String::new()).unwrap());
    let (setup, _, _) = next(go_on(setup, Reply::Var(None)));
    assert_eq!(setup.cx.args.color, None);
    assert_eq!(setup.stage, Stage::Manifest);
}

fn until(stage: Stage, is_nightly: bool, args: Args) -> Setup {
    let (mut setup, _, _) = next(Setup::begin(args, String::new()).unwrap());
    while setup.stage != stage {
        let reply = match setup.stage {
            Stage::Color => Reply::Var(None),
            Stage::Manifest => Reply::Output("/m".to_string()),
            Stage::Metadata => Reply::Metadata(metadata()),
            Stage::Version if is_nightly => Reply::Output("1-dev".to_string()),
            Stage::Version => Reply::Output("1".to_string()),
            Stage::Sysroot => Reply::Output("/s".to_string()),
            Stage::Host => Reply::Output("host: h".to_string()),
            Stage::Cargo | Stage::SysrootRustc | Stage::HostRustc => Reply::VarOs(None),
            Stage::LlvmCov | Stage::LlvmProfdata => Reply::Exists(true),
            Stage::Rustfilt => Reply::Done,
        };
        setup = next(go_on(setup, reply)).0;
    }
    setup
}

#[test]
fn missing_tools_are_reported() {
    for stage in [Stage::LlvmCov, Stage::LlvmProfdata] {
        let error = until(stage, true, no_args()).resume(Reply::Exists(false)).unwrap_err();
        assert_eq!(
            error.message(),
            "failed to find llvm-tools-preview, please install llvm-tools-preview with \
             `rustup component add llvm-tools-preview`"
        );
        let error = until(stage, false, no_args()).resume(Reply::Exists(false)).unwrap_err();
        assert_eq!(
            error.message(),
            "failed to find llvm-tools-preview, please install llvm-tools-preview with \
             `rustup component add llvm-tools-preview --toolchain nightly`"
        );
    }
}

#[test]
fn missing_rustfilt_is_explained() {
    let mut args = no_args();
    args.text = true;
    let setup = until(Stage::LlvmProfdata, true, args);
    let (_, _, failure) = next(go_on(setup, Reply::Exists(true)));
    assert_eq!(
        failure.unwrap().message(),
        "--text flag requires rustfilt, please install rustfilt with `cargo install rustfilt`"
    );
}

#[test]
fn missing_host_is_reported() {
    let setup = until(Stage::Host, true, no_args());
    let error = setup.resume(Reply::Output("rustc 1\nhost:x".to_string())).unwrap_err();
    assert_eq!(
        error.message(),
        "unexpected version output from `rustc`: rustc 1\nhost:x"
    );
}

#[test]
fn hosts_are_found() {
    let found = |output: &str| host(&word("rustc"), output).ok();
    assert_eq!(found(""), None);
    assert_eq!(found(" host: a"), None);
    assert_eq!(found("host: "), Some("".to_string()));
    assert_eq!(found("host: a\nhost: b"), Some("a".to_string()));
    assert_eq!(found("x\n\nhost: a\r\ny"), Some("a".to_string()));
    assert_eq!(found("x\r\nhost: a\r"), Some("a\r".to_string()));
    let error = host(&vec![b'r', 0xff], "no").unwrap_err();
    assert_eq!(error.message(), "unexpected version output from `r\u{fffd}`: no");
}

#[test]
fn sysroots_are_trimmed() {
    assert_eq!(sysroot("/s"), "/s");
    assert_eq!(sysroot(" \t/a b\u{a0}\u{3000}\r\n"), "/a b");
    assert_eq!(sysroot("\n \u{2009}"), "");
    assert_eq!(sysroot("\u{200b}x"), "\u{200b}x");
}

#[test]
fn white_space_is_that_of_unicode() {
    for c in '\0'..=char::MAX {
        let text = format!("{}x{}", c, c);
        assert_eq!(sysroot(&text), text.trim());
    }
}

#[test]
fn toolchains_are_recognised() {
    assert!(nightly("cargo 1.54.0-nightly (44456677b 2021-06-12)"));
    assert!(nightly("-dev"));
    assert!(!nightly("cargo 1.53.0 nightly dev"));
    assert!(!nightly(""));
    assert_eq!(cargo(None), word("cargo"));
    assert_eq!(cargo(Some(word("x"))), word("x"));
    assert_eq!(rustc(None), word("rustc"));
    assert_eq!(rustc(Some(word("y"))), word("y"));
}

#[test]
fn verbosity_is_spelled_out() {
    assert_eq!(verbose_flag(0), None);
    assert_eq!(verbose_flag(1).unwrap(), "-v");
    assert_eq!(verbose_flag(4).unwrap(), "-vvvv");
    assert_eq!(verbose_flag(255).unwrap().len(), 256);
}

#[test]
fn command_lines_are_settled() {
    let mut args = no_args();
    args.open = true;
    args.output_dir = Some(word("o"));
    let args = settle(args);
    assert!(args.html && args.open);
    assert_eq!(args.output_dir, Some(word("o")));
    let again = settle(args);
    assert!(again.html && again.open);
    assert_eq!(again.output_dir, Some(word("o")));
    let mut args = no_args();
    args.output_dir = Some(word("o"));
    assert_eq!(settle(args).output_dir, None);
    let mut args = no_args();
    args.text = true;
    args.output_dir = Some(word("o"));
    let args = settle(args);
    assert_eq!(args.output_dir, Some(word("o")));
    assert!(!args.html);
}

#[test]
fn output_paths_need_a_format() {
    let mut args = no_args();
    args.output_path = Some(word("o.txt"));
    let error = Setup::begin(args, String::new()).unwrap_err();
    assert!(matches!(error, Error::OutputPathWithoutFormat));
    assert_eq!(
        error.message(),
        "--output-path can only be used together with --json, --lcov, or --text"
    );
    for html in [true, false] {
        let mut args = no_args();
        args.html = html;
        args.open = !html;
        args.output_path = Some(word("o.txt"));
        assert!(Setup::begin(args, String::new()).is_err());
    }
    for format in 0..3 {
        let mut args = no_args();
        args.json = format == 0;
        args.lcov = format == 1;
        args.text = format == 2;
        args.output_path = Some(word("o.txt"));
        let (_, cx) = drive(args, true);
        assert_eq!(cx.args.output_path, Some(word("o.txt")));
        assert_eq!(cx.args.output_dir, None);
        assert!(!cx.args.html && !cx.args.open);
    }
}

#[test]
fn contexts_are_consistent() {
    let mut args = no_args();
    args.html = true;
    args.output_dir = Some(word("o"));
    let (_, cx) = drive(args, false);
    assert_eq!(cx.args.output_dir, Some(word("o")));
    assert!(!cx.args.json && !cx.args.lcov && !cx.args.text && !cx.args.open);
    assert_eq!(cx.verbose, None);
    let mut args = no_args();
    args.summary_only = true;
    args.output_dir = Some(word("o"));
    let (_, cx) = drive(args, false);
    assert_eq!(cx.args.output_dir, None);
    assert!(cx.args.summary_only && !cx.args.text && !cx.args.html);
    assert_eq!(cx.target_dir, joined("/w/target", "llvm-cov-target"));
}

fn system() -> System {
    System {
        color: Some("always".to_string()),
        manifest: "/w/p/Cargo.toml".to_string(),
        metadata: metadata(),
        cargo: Some(word("/c/cargo")),
        version: "cargo 1.54.0-nightly".to_string(),
        rustc: None,
        sysroot: Some("/s\n".to_string()),
        host: "rustc 1.54.0\nhost: h\n".to_string(),
        has_llvm_cov: true,
        has_llvm_profdata: true,
        runs_rustfilt: true,
    }
}

#[test]
fn known_systems_give_contexts() {
    let mut args = no_args();
    args.open = true;
    args.verbose = 2;
    let cx = Context::new(args, String::new(), &system()).unwrap();
    assert!(cx.args.html && cx.args.open);
    assert_eq!(cx.args.output_dir, Some(word(&joined("/w/target", "llvm-cov"))));
    assert_eq!(cx.args.color, Some(Coloring::Always));
    assert_eq!(cx.verbose.as_deref(), Some("-vv"));
    assert_eq!(cx.manifest_path, word("/w/p/Cargo.toml"));
    assert_eq!(cx.target_dir, joined("/w/target", "llvm-cov-target"));
    assert_eq!(cx.llvm_cov, joined(&joined("/s", "lib/rustlib/h/bin"), "llvm-cov"));
    assert_eq!(cx.llvm_profdata, joined(&joined("/s", "lib/rustlib/h/bin"), "llvm-profdata"));
    assert_eq!(cx.cargo, word("/c/cargo"));
    assert!(cx.nightly);
    let stable = System { version: "cargo 1.53.0".to_string(), ..system() };
    let cx = Context::new(no_args(), String::new(), &stable).unwrap();
    assert_eq!(cx.cargo, word("cargo"));
    assert!(!cx.nightly);
}

#[test]
fn unfit_systems_are_refused() {
    let refusal = |system: System| Context::new(no_args(), String::new(), &system).unwrap_err();
    let error = refusal(System { color: Some("blue".to_string()), ..system() });
    assert!(matches!(error, Error::InvalidColor(_)));
    let error = refusal(System { sysroot: None, ..system() });
    assert!(matches!(error, Error::NoSysroot));
    assert_eq!(error.message(), "failed to find sysroot");
    let error = refusal(System { host: String::new(), ..system() });
    assert!(matches!(error, Error::NoHost { .. }));
    let error = refusal(System { has_llvm_cov: false, ..system() });
    assert!(matches!(error, Error::NoLlvmTools { nightly: true }));
    let error = refusal(System { has_llvm_profdata: false, ..system() });
    assert!(matches!(error, Error::NoLlvmTools { nightly: true }));
    let mut args = no_args();
    args.output_path = Some(word("o.txt"));
    let error = Context::new(args, String::new(), &system()).unwrap_err();
    assert!(matches!(error, Error::OutputPathWithoutFormat));
    let bare = System { runs_rustfilt: false, ..system() };
    assert!(Context::new(no_args(), String::new(), &bare).is_ok());
    let mut args = no_args();
    args.text = true;
    let error = Context::new(args, String::new(), &bare).unwrap_err();
    assert!(matches!(error, Error::NoRustfilt { html: false }));
}
