use cargo_llvm_cov::args::Args;
use cargo_llvm_cov::color::Coloring;
use cargo_llvm_cov::context::{append_args, Context, Metadata};
use cargo_llvm_cov::error::Error;
use cargo_llvm_cov::plan::{
    list_command, merge_command, package_files, rustdocflags, rustflags, test_command, Layout,
};
use cargo_llvm_cov::process::ProcessBuilder;
use cargo_llvm_cov::report::{Format, DEFAULT_IGNORE_FILENAME_REGEX};
use cargo_llvm_cov::text::word;

fn no_args() -> Args {
    Args {
        json: false,
        lcov: false,
        text: false,
        html: false,
        open: false,
        summary_only: false,
        output_path: None,
        output_dir: None,
        ignore_filename_regex: None,
        disable_default_ignore_filename_regex: false,
        doctests: false,
        no_fail_fast: false,
        workspace: false,
        exclude: vec![],
        release: false,
        features: vec![],
        all_features: false,
        no_default_features: false,
        target: None,
        manifest_path: None,
        verbose: 0,
        color: None,
        frozen: false,
        locked: false,
        unstable_flags: vec![],
        args: vec![],
    }
}

fn context(args: Args) -> Context {
    Context {
        args,
        verbose: None,
        metadata: Metadata {
            workspace_root: "/w".to_string(),
            target_directory: "/w/target".to_string(),
        },
        manifest_path: word("/w/Cargo.toml"),
        target_dir: "/w/target/llvm-cov-target".to_string(),
        llvm_cov: "/s/bin/llvm-cov".to_string(),
        llvm_profdata: "/s/bin/llvm-profdata".to_string(),
        cargo: word("cargo"),
        nightly: true,
    }
}

fn shown(cmd: &ProcessBuilder) -> Vec<String> {
    cmd.args.iter().map(|arg| String::from_utf8_lossy(arg).into_owned()).collect()
}

fn strings(list: &[&str]) -> Vec<String> {
    list.iter().map(|s| s.to_string()).collect()
}

#[test]
fn color_names_are_read_back() {
    for choice in [Coloring::Auto, Coloring::Always, Coloring::Never] {
        assert_eq!(Coloring::from_str(choice.cargo_color()).unwrap(), choice);
    }
    assert_eq!(Coloring::Auto.cargo_color(), "auto");
    assert_eq!(Coloring::Always.cargo_color(), "always");
    assert_eq!(Coloring::Never.cargo_color(), "never");
}

#[test]
fn other_colors_are_refused() {
    for name in ["", "Auto", "auto ", "neve", "neverr"] {
        let error = Coloring::from_str(name).unwrap_err();
        assert!(matches!(&error, Error::InvalidColor(found) if found == name));
        assert_eq!(
            error.message(),
            format!("must be auto, always, or never, but found `{}`", name)
        );
    }
}

#[test]
fn formats_follow_the_flags() {
    let mut args = no_args();
    assert_eq!(Format::from_args(&args), Format::Summary);
    args.html = true;
    assert_eq!(Format::from_args(&args), Format::Html);
    args.text = true;
    assert_eq!(Format::from_args(&args), Format::Text);
    args.lcov = true;
    assert_eq!(Format::from_args(&args), Format::LCov);
    args.json = true;
    assert_eq!(Format::from_args(&args), Format::Json);
}

#[test]
fn formats_have_their_subcommands() {
    assert_eq!(Format::Summary.llvm_cov_args(), &["report"]);
    assert_eq!(Format::Json.llvm_cov_args(), &["export", "-format=text"]);
    assert_eq!(Format::LCov.llvm_cov_args(), &["export", "-format=lcov"]);
    assert_eq!(Format::Text.llvm_cov_args(), &["show", "-format=text"]);
    assert_eq!(Format::Html.llvm_cov_args(), &["show", "-format=html"]);
}

#[test]
fn exports_have_no_color() {
    for color in [None, Some(Coloring::Auto), Some(Coloring::Always), Some(Coloring::Never)] {
        assert_eq!(Format::Json.use_color(color), None);
        assert_eq!(Format::LCov.use_color(color), None);
    }
    for format in [Format::Summary, Format::Text, Format::Html] {
        assert_eq!(format.use_color(None), None);
        assert_eq!(format.use_color(Some(Coloring::Auto)), None);
        assert_eq!(format.use_color(Some(Coloring::Always)), Some("-use-color=1"));
        assert_eq!(format.use_color(Some(Coloring::Never)), Some("-use-color=0"));
    }
}

#[test]
fn summary_report() {
    let cx = context(no_args());
    let cmd = Format::Summary.report(&cx, "/t/w.profdata", &strings(&["/t/a", "/t/b"]));
    assert_eq!(cmd.program, b"/s/bin/llvm-cov".to_vec());
    assert_eq!(
        shown(&cmd),
        strings(&[
            "report",
            "-instr-profile=/t/w.profdata",
            "-object",
            "/t/a",
            "-object",
            "/t/b",
            "-ignore-filename-regex",
            "rustc/|.cargo/(registry|git)/|.rustup/toolchains/|test(s)?/|target/llvm-cov-target/",
        ])
    );
    assert_eq!(cmd.dir.as_deref(), Some("/w"));
    assert!(!cmd.stdout_capture && !cmd.stderr_capture && !cmd.stdout_to_stderr);
    assert!(!cmd.display_env_vars);
    assert!(cmd.env.is_empty());
}

#[test]
fn html_report() {
    let mut args = no_args();
    args.html = true;
    args.color = Some(Coloring::Always);
    args.output_dir = Some(word("/out"));
    args.ignore_filename_regex = Some("gen/".to_string());
    args.summary_only = true;
    let mut cx = context(args);
    cx.verbose = Some("-v".to_string());
    let cmd = Format::Html.report(&cx, "p", &vec![]);
    assert_eq!(
        shown(&cmd),
        vec![
            "show".to_string(),
            "-format=html".to_string(),
            "-use-color=1".to_string(),
            "-instr-profile=p".to_string(),
            "-ignore-filename-regex".to_string(),
            format!("gen/|{}", DEFAULT_IGNORE_FILENAME_REGEX),
            "-show-instantiations".to_string(),
            "-show-line-counts-or-regions".to_string(),
            "-show-expansions".to_string(),
            "-Xdemangler=rustfilt".to_string(),
            "-output-dir=/out".to_string(),
        ]
    );
    assert!(cmd.display_env_vars);
}

#[test]
fn output_directories_are_shown() {
    let mut args = no_args();
    args.text = true;
    args.disable_default_ignore_filename_regex = true;
    args.output_dir = Some(vec![b'o', 0xff, b'p']);
    let cmd = Format::Text.report(&context(args), "p", &vec![]);
    assert_eq!(shown(&cmd).last().unwrap(), "-output-dir=o\u{fffd}p");
    assert!(!shown(&cmd).contains(&"-ignore-filename-regex".to_string()));
}

#[test]
fn export_into_a_file() {
    let mut args = no_args();
    args.lcov = true;
    args.summary_only = true;
    args.disable_default_ignore_filename_regex = true;
    args.ignore_filename_regex = Some("x".to_string());
    args.color = Some(Coloring::Always);
    args.output_path = Some(word("lcov.info"));
    let cmd = Format::LCov.report(&context(args), "p", &strings(&["o"]));
    assert_eq!(
        shown(&cmd),
        strings(&[
            "export",
            "-format=lcov",
            "-instr-profile=p",
            "-object",
            "o",
            "-ignore-filename-regex",
            "x",
            "-summary-only",
        ])
    );
    assert!(cmd.stdout_capture);
}

fn full_args() -> Args {
    let mut args = no_args();
    args.no_fail_fast = true;
    args.workspace = true;
    args.exclude = strings(&["a", "b"]);
    args.release = true;
    args.features = strings(&["f g"]);
    args.all_features = true;
    args.no_default_features = true;
    args.target = Some("t".to_string());
    args.color = Some(Coloring::Never);
    args.frozen = true;
    args.locked = true;
    args.unstable_flags = strings(&["z1", "z2"]);
    args.args = vec![word("--nocapture"), vec![0xfe]];
    args
}

#[test]
fn cargo_gets_the_command_line() {
    let mut cx = context(full_args());
    cx.verbose = Some("-vv".to_string());
    let mut cmd = ProcessBuilder::new(word("cargo"));
    cmd.arg_text("first");
    append_args(&cx, &mut cmd);
    let expected: Vec<Vec<u8>> = [
        "first",
        "--no-fail-fast",
        "--workspace",
        "--exclude",
        "a",
        "--exclude",
        "b",
        "--release",
        "--features",
        "f g",
        "--all-features",
        "--no-default-features",
        "--target",
        "t",
        "--manifest-path",
        "/w/Cargo.toml",
        "--color",
        "never",
        "--frozen",
        "--locked",
        "-vv",
        "-Z",
        "z1",
        "-Z",
        "z2",
        "--",
        "--nocapture",
    ]
    .iter()
    .map(|arg| word(arg))
    .chain(vec![vec![0xfeu8]])
    .collect();
    assert_eq!(cmd.args, expected);
}

#[test]
fn cargo_gets_no_more_than_the_manifest() {
    let mut cmd = ProcessBuilder::new(word("cargo"));
    append_args(&context(no_args()), &mut cmd);
    assert_eq!(shown(&cmd), strings(&["--manifest-path", "/w/Cargo.toml"]));
}

#[test]
fn test_and_listing_differ_in_verbosity() {
    let mut args = no_args();
    args.args = vec![word("-v")];
    let mut cx = context(args);
    cx.nightly = false;
    cx.verbose = Some("-v".to_string());
    let cmd = test_command(&cx, word("RF"), "/t/w-%m.profraw", Some(word("RD")));
    assert_eq!(
        shown(&cmd),
        strings(&[
            "+nightly",
            "test",
            "--target-dir",
            "/w/target/llvm-cov-target",
            "--manifest-path",
            "/w/Cargo.toml",
            "-v",
            "--",
            "-v",
        ])
    );
    let env: Vec<(String, Vec<u8>)> = vec![
        ("RUSTFLAGS".to_string(), word("RF")),
        ("LLVM_PROFILE_FILE".to_string(), word("/t/w-%m.profraw")),
        ("RUSTDOCFLAGS".to_string(), word("RD")),
    ];
    assert_eq!(cmd.env, env);
    assert!(cmd.stdout_to_stderr && !cmd.stdout_capture && !cmd.stderr_capture);
    let list = list_command(&cx, word("RF"), "/t/w-%m.profraw", Some(word("RD")));
    assert_eq!(
        shown(&list),
        strings(&[
            "+nightly",
            "test",
            "--target-dir",
            "/w/target/llvm-cov-target",
            "--manifest-path",
            "/w/Cargo.toml",
            "--no-run",
            "--message-format=json",
            "--",
            "-v",
        ])
    );
    assert_eq!(list.env, env);
    assert_eq!(list.program, cmd.program);
    assert_eq!(list.dir, cmd.dir);
    assert!(!list.stdout_to_stderr && list.stdout_capture && list.stderr_capture);
}

#[test]
fn the_first_word_like_the_verbose_flag_goes() {
    let mut args = no_args();
    args.exclude = strings(&["-v"]);
    args.unstable_flags = strings(&["-v"]);
    args.args = vec![word("-v")];
    let mut cx = context(args);
    cx.verbose = Some("-v".to_string());
    assert_eq!(
        shown(&list_command(&cx, word(""), "p", None)),
        strings(&[
            "test",
            "--target-dir",
            "/w/target/llvm-cov-target",
            "--exclude",
            "--manifest-path",
            "/w/Cargo.toml",
            "-v",
            "-Z",
            "-v",
            "--no-run",
            "--message-format=json",
            "--",
            "-v",
        ])
    );
}

#[test]
fn test_binaries_get_nothing_but_their_arguments() {
    let mut args = no_args();
    args.args = vec![word("--nocapture")];
    let cx = context(args);
    let test = test_command(&cx, word(""), "p", None);
    let list = list_command(&cx, word(""), "p", None);
    for cmd in [&test, &list] {
        let words = shown(cmd);
        let at = words.iter().position(|word| word == "--").unwrap();
        assert_eq!(words[at + 1..], ["--nocapture"]);
    }
    assert!(shown(&list).contains(&"--no-run".to_string()));
    assert!(!shown(&test).contains(&"--no-run".to_string()));
}

#[test]
fn flags_are_extended() {
    assert_eq!(
        rustflags(None, "/w"),
        word(" -Zinstrument-coverage --remap-path-prefix /w/=")
    );
    let mut expected = vec![0xffu8];
    expected.extend(word(" -Zinstrument-coverage --remap-path-prefix /w/="));
    assert_eq!(rustflags(Some(vec![0xff]), "/w"), expected);
    assert_eq!(rustdocflags(None, false, "/d"), None);
    assert_eq!(rustdocflags(Some(word("x")), false, "/d"), Some(word("x")));
    assert_eq!(
        rustdocflags(Some(word("x")), true, "/d"),
        Some(word(
            "x -Zinstrument-coverage -Zunstable-options --persist-doctests /d"
        ))
    );
    assert_eq!(
        rustdocflags(None, true, "/d"),
        Some(word(
            " -Zinstrument-coverage -Zunstable-options --persist-doctests /d"
        ))
    );
}

#[test]
fn profiles_are_merged() {
    let cmd = merge_command(&context(no_args()), &vec![word("a"), word("b")], "w.profdata");
    assert_eq!(cmd.program, word("/s/bin/llvm-profdata"));
    assert_eq!(shown(&cmd), strings(&["merge", "-sparse", "a", "b", "-o", "w.profdata"]));
    assert_eq!(cmd.dir.as_deref(), Some("/w"));
}

#[test]
fn layout_on_this_system() {
    let sep = std::path::MAIN_SEPARATOR;
    let layout = Layout::new("/t", "/home/me/my.project");
    assert_eq!(layout.stale_glob, format!("/t{}*.profraw", sep));
    assert_eq!(layout.doctests_dir, format!("/t{}doctestbins", sep));
    assert_eq!(layout.doctest_glob, format!("/t{}doctestbins{}*/rust_out", sep, sep));
    let package = layout.package.unwrap();
    assert_eq!(package.name, "my");
    assert_eq!(package.profdata_file, format!("/t{}my.profdata", sep));
    assert_eq!(package.llvm_profile_file, format!("/t{}my-%m.profraw", sep));
    assert_eq!(package.profraw_glob, format!("/t{}my-*.profraw", sep));
}

#[test]
fn packages_are_named_after_their_directory() {
    let name = |root: &str| Layout::new("t", root).package.map(|files| files.name);
    assert_eq!(name("/"), None);
    assert_eq!(name(""), None);
    assert_eq!(name("."), None);
    assert_eq!(name("/a/.."), None);
    assert_eq!(name("/a"), Some("a".to_string()));
    assert_eq!(name("/a//"), Some("a".to_string()));
    assert_eq!(name("/a/./"), Some("a".to_string()));
    assert_eq!(name("a/.b"), Some(".b".to_string()));
    assert_eq!(name("a/.b.c"), Some(".b".to_string()));
    assert_eq!(name("a/b.c.d"), Some("b.c".to_string()));
    assert_eq!(name("a/..."), Some("..".to_string()));
    assert_eq!(name("//server/share/ws.x"), Some("ws".to_string()));
    assert_eq!(name("//server/share/ws/."), Some("ws".to_string()));
    assert_eq!(name("//server/share/.."), None);
}

#[test]
fn separators_are_not_doubled() {
    assert_eq!(package_files("t/", "n".to_string()).profdata_file, "t/n.profdata");
    assert_eq!(package_files("", "n".to_string()).profdata_file, "n.profdata");
}

#[test]
fn bases_may_begin_with_two_separators() {
    let sep = std::path::MAIN_SEPARATOR;
    let files = package_files("//x/y", "n".to_string());
    assert_eq!(files.profdata_file, format!("//x/y{}n.profdata", sep));
}

#[test]
fn absolute_paths_stay_as_they_are() {
    let files = package_files("/t", "/n".to_string());
    assert_eq!(files.name, "/n");
    assert_eq!(files.profdata_file, "/n.profdata");
}

#[test]
fn contexts_give_the_command_line() {
    let cx = context(Args { lcov: true, ..no_args() });
    assert!(cx.lcov);
    assert!(!cx.json);
    assert_eq!(Format::from_args(&cx), Format::LCov);
}
