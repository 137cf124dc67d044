//! Finding out what has to be known before the tests run.
//!
//! [`Setup`] asks one question at a time and goes on with the answer, until it has a [`Context`]
//! or knows that there is none to be had.

use vstd::prelude::*;

use crate::args::Args;
use crate::color;
use crate::color::Coloring;
use crate::context;
use crate::context::Context;
use crate::context::Metadata;
use crate::error::Error;
use crate::path;
use crate::process;
use crate::process::ProcessBuilder;
use crate::text;
use crate::toolchain;

verus! {

/// Something to be found out.
#[derive(Debug)]
pub enum Request {
    /// The value of an environment variable that is text.
    Var(String),
    /// The value of an environment variable.
    VarOs(String),
    /// What a process prints.
    Read(ProcessBuilder),
    /// Whether a process succeeds.
    Run(ProcessBuilder),
    /// Cargo's description of the workspace of a manifest.
    Metadata(Vec<u8>),
    /// Whether there is a file of this path.
    Exists(String),
}

/// What a [`Request`] asks.
#[verifier::ext_equal]
pub enum RequestView {
    Var(Seq<char>),
    VarOs(Seq<char>),
    Read(process::ProcessView),
    Run(process::ProcessView),
    Metadata(Seq<u8>),
    Exists(Seq<char>),
}

impl View for Request {
    type V = RequestView;

    open spec fn view(&self) -> RequestView {
        match self {
            Request::Var(name) => RequestView::Var(name@),
            Request::VarOs(name) => RequestView::VarOs(name@),
            Request::Read(cmd) => RequestView::Read(cmd@),
            Request::Run(cmd) => RequestView::Run(cmd@),
            Request::Metadata(manifest) => RequestView::Metadata(manifest@),
            Request::Exists(file) => RequestView::Exists(file@),
        }
    }
}

/// An answer to a [`Request`]. A request that fails has none: the failure ends the setup.
#[derive(Debug)]
pub enum Reply {
    Var(Option<String>),
    VarOs(Option<Vec<u8>>),
    /// What the process printed.
    Output(String),
    /// The process succeeded.
    Done,
    Metadata(Metadata),
    Exists(bool),
}

/// What is being waited for.
#[derive(Clone, Copy, Debug, PartialEq, Eq, Structural)]
pub enum Stage {
    /// The colour choice in the environment.
    Color,
    /// The manifest of the package in the current directory.
    Manifest,
    /// The description of the workspace.
    Metadata,
    /// The cargo named in the environment.
    Cargo,
    /// Cargo's version.
    Version,
    /// The compiler named in the environment, to be asked for its sysroot.
    SysrootRustc,
    /// The sysroot.
    Sysroot,
    /// The compiler named in the environment, to be asked for its host.
    HostRustc,
    /// The compiler's version report.
    Host,
    /// Whether `llvm-cov` is there.
    LlvmCov,
    /// Whether `llvm-profdata` is there.
    LlvmProfdata,
    /// Whether `rustfilt` runs.
    Rustfilt,
}

/// A setup that waits for an answer.
#[derive(Debug)]
pub struct Setup {
    pub stage: Stage,
    /// What is known so far; the rest is empty.
    pub cx: Context,
    /// How the names of programs end on this system.
    pub exe_suffix: String,
    /// The compiler in use, once it is known.
    pub rustc: Vec<u8>,
    /// Where the compiler is installed, once it is known.
    pub sysroot: String,
}

/// How a setup goes on.
#[derive(Debug)]
pub enum Progress {
    /// With a request. If it fails, the setup fails with the given error, if there is one, as
    /// the explanation.
    Ask(Setup, Request, Option<Error>),
    /// It has found out everything.
    Ready(Context),
}

/// The flag that asks cargo for verbose output, `times` times.
pub open spec fn verbose_flag_of(times: u8) -> Option<Seq<char>> {
    if times == 0 {
        None
    } else {
        Some("-"@ + Seq::new(times as nat, |i: int| 'v'))
    }
}

/// The flag that asks cargo for verbose output, `times` times.
pub fn verbose_flag(times: u8) -> (flag: Option<String>)
    ensures
        process::optional_text(flag) == verbose_flag_of(times),
{
    if times == 0 {
        return None;
    }
    let mut flag: String = "-".to_owned();
    let mut i: u8 = 0;
    assert(flag@ =~= "-"@ + Seq::new(0, |k: int| 'v'));
    while i < times
        invariant
            i <= times,
            flag@ == "-"@ + Seq::new(i as nat, |k: int| 'v'),
        decreases times - i,
    {
        flag.append("v");
        proof {
            reveal_strlit("v");
            assert("v"@ =~= seq!['v']);
            assert(flag@ =~= "-"@ + Seq::new((i + 1) as nat, |k: int| 'v'));
        }
        i += 1;
    }
    Some(flag)
}

/// The command line with what follows from it: `--open` asks for "html", and a directory for
/// reports has no effect unless a report shows the source.
pub open spec fn settled(args: Args) -> Args {
    Args {
        html: args.html || args.open,
        output_dir: if args.shows() || args.open {
            args.output_dir
        } else {
            None
        },
        ..args
    }
}

/// The command line with what follows from it.
pub fn settle(args: Args) -> (r: Args)
    ensures
        r == settled(args),
{
    let html: bool = args.html || args.open;
    if args.text || html {
        Args { html, ..args }
    } else {
        // If the format flag is not specified, `--output-dir` is no-op.
        Args { html, output_dir: None, ..args }
    }
}

/// `cx` is what the command line alone tells.
pub open spec fn is_draft(args: Args, cx: Context) -> bool {
    &&& cx.args == settled(args)
    &&& process::optional_text(cx.verbose) == verbose_flag_of(args.verbose)
}

/// `dir` is the directory for reports: the one asked for, or for "html" one in the target
/// directory.
pub open spec fn is_output_dir(
    args: Args,
    target_directory: Seq<char>,
    dir: Option<Vec<u8>>,
) -> bool {
    if args.output_dir is None && args.html {
        exists|default: Seq<char>| #[trigger]
            path::is_join(target_directory, "llvm-cov"@, default) && process::optional_word(dir)
                == Some(text::utf8(default))
    } else {
        dir == args.output_dir
    }
}

impl Setup {
    /// `reply` answers the request that the setup waits for.
    pub open spec fn awaits(self, reply: Reply) -> bool {
        match self.stage {
            Stage::Color => reply is Var,
            Stage::Cargo | Stage::SysrootRustc | Stage::HostRustc => reply is VarOs,
            Stage::Manifest | Stage::Version | Stage::Sysroot | Stage::Host => reply is Output,
            Stage::Metadata => reply is Metadata,
            Stage::LlvmCov | Stage::LlvmProfdata => reply is Exists,
            Stage::Rustfilt => reply is Done,
        }
    }
}

/// The setup goes on with a request, at the given stage.
pub open spec fn asks(
    r: Result<Progress, Error>,
    stage: Stage,
    request: RequestView,
    failure: Option<Error>,
) -> bool {
    r matches Ok(Progress::Ask(next, asked, explanation)) && next.stage == stage && asked@
        == request && explanation == failure
}

/// The setup as it is after `r`.
pub open spec fn next_of(r: Result<Progress, Error>) -> Setup {
    r->Ok_0->Ask_0
}

/// With `cx` known, the setup goes on to the description of the workspace, and asks for the
/// manifest first if the command line names none.
pub open spec fn seeks_workspace(cx: Context, r: Result<Progress, Error>) -> bool {
    let next = next_of(r);
    match cx.args.manifest_path {
        Some(manifest) => {
            &&& asks(r, Stage::Metadata, RequestView::Metadata(manifest@), None)
            &&& next.cx == Context { manifest_path: next.cx.manifest_path, ..cx }
            &&& next.cx.manifest_path@ == manifest@
        },
        None => {
            &&& asks(r, Stage::Manifest, RequestView::Read(toolchain::locate_process()), None)
            &&& next.cx == cx
        },
    }
}

/// `r` is how a setup begins: with the colour choice in the environment if the command line makes
/// none, else with the workspace. A file to write into without a format for it is refused.
pub open spec fn is_beginning(
    args: Args,
    exe_suffix: String,
    r: Result<Progress, Error>,
) -> bool {
    if args.lacks_format() {
        r == Err::<Progress, Error>(Error::OutputPathWithoutFormat)
    } else {
        let next = next_of(r);
        &&& is_draft(args, next.cx)
        &&& next.exe_suffix == exe_suffix
        &&& if args.color is None {
            asks(r, Stage::Color, RequestView::Var("CARGO_TERM_COLOR"@), None)
        } else {
            seeks_workspace(next.cx, r)
        }
    }
}

/// What comes of a reply: `r` is how the setup `pre` goes on, given `reply`.
pub open spec fn is_outcome(pre: Setup, reply: Reply, r: Result<Progress, Error>) -> bool {
    let next = next_of(r);
    match (pre.stage, reply) {
        (Stage::Color, Reply::Var(None)) => seeks_workspace(pre.cx, r),
        (Stage::Color, Reply::Var(Some(name))) => match color::color_named(name@) {
            Some(choice) => seeks_workspace(
                Context { args: Args { color: Some(choice), ..pre.cx.args }, ..pre.cx },
                r,
            ),
            None => r matches Err(Error::InvalidColor(found)) && found@ == name@,
        },
        (Stage::Manifest, Reply::Output(manifest)) => {
            &&& asks(
                r,
                Stage::Metadata,
                RequestView::Metadata(text::utf8(manifest@)),
                None,
            )
            &&& next.cx == Context { manifest_path: next.cx.manifest_path, ..pre.cx }
            &&& next.cx.manifest_path@ == text::utf8(manifest@)
        },
        (Stage::Metadata, Reply::Metadata(metadata)) => {
            &&& asks(r, Stage::Cargo, RequestView::VarOs("CARGO"@), None)
            &&& is_located(pre.cx, metadata, next.cx)
        },
        (Stage::Cargo, Reply::VarOs(var)) => {
            let cargo = toolchain::cargo_program(process::optional_word(var));
            &&& asks(
                r,
                Stage::Version,
                RequestView::Read(
                    toolchain::version_process(cargo, pre.cx.metadata.workspace_root@),
                ),
                None,
            )
            &&& next.cx == Context { cargo: next.cx.cargo, ..pre.cx }
            &&& next.cx.cargo@ == cargo
        },
        (Stage::Version, Reply::Output(version)) => {
            let nightly = toolchain::is_nightly(version@);
            &&& if nightly {
                asks(r, Stage::SysrootRustc, RequestView::VarOs("RUSTC"@), None)
            } else {
                asks(
                    r,
                    Stage::Sysroot,
                    RequestView::Read(toolchain::nightly_sysroot_process()),
                    Some(Error::NoSysroot),
                )
            }
            &&& next.cx == Context { cargo: next.cx.cargo, nightly, ..pre.cx }
            &&& next.cx.cargo@ == (if nightly {
                pre.cx.cargo@
            } else {
                text::utf8("cargo"@)
            })
        },
        (Stage::SysrootRustc, Reply::VarOs(var)) => {
            let rustc = toolchain::rustc_program(process::optional_word(var));
            &&& asks(
                r,
                Stage::Sysroot,
                RequestView::Read(toolchain::sysroot_process(rustc)),
                Some(Error::NoSysroot),
            )
            &&& next.cx == pre.cx
        },
        (Stage::Sysroot, Reply::Output(output)) => {
            &&& asks(r, Stage::HostRustc, RequestView::VarOs("RUSTC"@), None)
            &&& next.cx == pre.cx
            &&& next.sysroot@ == text::trimmed(output@)
        },
        (Stage::HostRustc, Reply::VarOs(var)) => {
            let rustc = toolchain::rustc_program(process::optional_word(var));
            &&& asks(r, Stage::Host, RequestView::Read(toolchain::host_process(rustc)), None)
            &&& next.cx == pre.cx
            &&& next.rustc@ == rustc
        },
        (Stage::Host, Reply::Output(output)) => match toolchain::host_in(
            text::lines_of(output@),
        ) {
            Some(host) => {
                &&& asks(r, Stage::LlvmCov, RequestView::Exists(next.cx.llvm_cov@), None)
                &&& next.cx == Context {
                    llvm_cov: next.cx.llvm_cov,
                    llvm_profdata: next.cx.llvm_profdata,
                    ..pre.cx
                }
                &&& toolchain::is_tool(
                    pre.sysroot@,
                    host,
                    "llvm-cov"@ + pre.exe_suffix@,
                    next.cx.llvm_cov@,
                )
                &&& toolchain::is_tool(
                    pre.sysroot@,
                    host,
                    "llvm-profdata"@ + pre.exe_suffix@,
                    next.cx.llvm_profdata@,
                )
            },
            None => r matches Err(Error::NoHost { rustc, output: found }) && rustc@ == text::shown(
                pre.rustc@,
            ) && found@ == output@,
        },
        (Stage::LlvmCov, Reply::Exists(there)) => if there {
            &&& asks(r, Stage::LlvmProfdata, RequestView::Exists(pre.cx.llvm_profdata@), None)
            &&& next.cx == pre.cx
        } else {
            r == Err::<Progress, Error>(Error::NoLlvmTools { nightly: pre.cx.nightly })
        },
        (Stage::LlvmProfdata, Reply::Exists(there)) => if !there {
            r == Err::<Progress, Error>(Error::NoLlvmTools { nightly: pre.cx.nightly })
        } else if pre.cx.args.shows() {
            &&& asks(
                r,
                Stage::Rustfilt,
                RequestView::Run(toolchain::rustfilt_process()),
                Some(Error::NoRustfilt { html: pre.cx.args.html }),
            )
            &&& next.cx == pre.cx
        } else {
            r == Ok::<Progress, Error>(Progress::Ready(pre.cx))
        },
        (Stage::Rustfilt, Reply::Done) => r == Ok::<Progress, Error>(Progress::Ready(pre.cx)),
        _ => true,
    }
}

/// What a reply leaves as it is.
pub open spec fn keeps_the_rest(pre: Setup, r: Result<Progress, Error>) -> bool {
    r matches Ok(Progress::Ask(next, _, _)) ==> {
        &&& next.exe_suffix == pre.exe_suffix
        &&& pre.stage != Stage::HostRustc ==> next.rustc == pre.rustc
        &&& pre.stage != Stage::Sysroot ==> next.sysroot == pre.sysroot
    }
}

/// What the command line alone tells.
fn draft(args: Args) -> (cx: Context)
    ensures
        is_draft(args, cx),
{
    let verbose: Option<String> = verbose_flag(args.verbose);
    Context {
        args: settle(args),
        verbose,
        metadata: Metadata { workspace_root: String::new(), target_directory: String::new() },
        manifest_path: Vec::new(),
        target_dir: String::new(),
        llvm_cov: String::new(),
        llvm_profdata: String::new(),
        cargo: Vec::new(),
        nightly: false,
    }
}

/// The command line with the directory for reports filled in.
fn with_output_dir(args: Args, target_directory: &str) -> (r: Args)
    ensures
        r == (Args { output_dir: r.output_dir, ..args }),
        is_output_dir(args, target_directory@, r.output_dir),
{
    if args.output_dir.is_none() && args.html {
        let default: String = path::join(target_directory, "llvm-cov");
        let output_dir: Option<Vec<u8>> = Some(text::word(default.as_str()));
        Args { output_dir, ..args }
    } else {
        args
    }
}

/// `next` is `cx` with what the description of the workspace tells.
pub open spec fn is_located(cx: Context, metadata: Metadata, next: Context) -> bool {
    &&& next == Context {
        args: Args { output_dir: next.args.output_dir, ..cx.args },
        metadata,
        target_dir: next.target_dir,
        ..cx
    }
    &&& is_output_dir(cx.args, metadata.target_directory@, next.args.output_dir)
    &&& path::is_join(metadata.target_directory@, "llvm-cov-target"@, next.target_dir@)
}

/// What is known once the workspace has been described.
fn located(cx: Context, metadata: Metadata) -> (next: Context)
    ensures
        is_located(cx, metadata, next),
{
    // If RUSTFLAGS changes, all dependencies are compiled again. So the actual target
    // directory is a subdirectory of the usual one.
    let target_dir: String = path::join(metadata.target_directory.as_str(), "llvm-cov-target");
    let args: Args = with_output_dir(cx.args, metadata.target_directory.as_str());
    Context { args, metadata, target_dir, ..cx }
}

impl Setup {
    /// Begins with the command line, on a system where the names of programs end in
    /// `exe_suffix`.
    pub fn begin(args: Args, exe_suffix: String) -> (r: Result<Progress, Error>)
        ensures
            is_beginning(args, exe_suffix, r),
    {
        if args.output_path.is_some() && !args.json && !args.lcov && !args.text {
            return Err(Error::OutputPathWithoutFormat);
        }
        let undecided: bool = args.color.is_none();
        let cx: Context = draft(args);
        let setup = Setup {
            stage: Stage::Color,
            cx,
            exe_suffix,
            rustc: Vec::new(),
            sysroot: String::new(),
        };
        if undecided {
            Ok(Progress::Ask(setup, Request::Var("CARGO_TERM_COLOR".to_owned()), None))
        } else {
            Ok(setup.seek_workspace())
        }
    }

    /// Goes on to the description of the workspace.
    fn seek_workspace(self) -> (progress: Progress)
        ensures
            seeks_workspace(self.cx, Ok(progress)),
            progress matches Progress::Ask(next, _, _) && next.exe_suffix == self.exe_suffix
                && next.rustc == self.rustc && next.sysroot == self.sysroot,
    {
        let manifest: Option<Vec<u8>> = match &self.cx.args.manifest_path {
            Some(manifest) => Some(context::copy_word(manifest)),
            None => None,
        };
        match manifest {
            Some(manifest) => self.seek_metadata(manifest),
            None => {
                let mut setup: Setup = self;
                setup.stage = Stage::Manifest;
                Progress::Ask(setup, Request::Read(toolchain::locate()), None)
            },
        }
    }

    /// Asks for the description of the workspace of `manifest`.
    fn seek_metadata(self, manifest: Vec<u8>) -> (progress: Progress)
        ensures
            asks(Ok(progress), Stage::Metadata, RequestView::Metadata(manifest@), None),
            progress matches Progress::Ask(next, _, _) && next.cx == (Context {
                manifest_path: manifest,
                ..self.cx
            }) && next.exe_suffix == self.exe_suffix && next.rustc == self.rustc && next.sysroot
                == self.sysroot,
    {
        let mut setup: Setup = self;
        let request: Request = Request::Metadata(context::copy_word(&manifest));
        setup.cx.manifest_path = manifest;
        setup.stage = Stage::Metadata;
        Progress::Ask(setup, request, None)
    }

    /// Whether `reply` answers the request that the setup waits for.
    pub fn accepts(&self, reply: &Reply) -> (r: bool)
        ensures
            r == self.awaits(*reply),
    {
        match self.stage {
            Stage::Color => matches!(reply, Reply::Var(_)),
            Stage::Cargo | Stage::SysrootRustc | Stage::HostRustc => matches!(
                reply,
                Reply::VarOs(_)
            ),
            Stage::Manifest | Stage::Version | Stage::Sysroot | Stage::Host => matches!(
                reply,
                Reply::Output(_)
            ),
            Stage::Metadata => matches!(reply, Reply::Metadata(_)),
            Stage::LlvmCov | Stage::LlvmProfdata => matches!(reply, Reply::Exists(_)),
            Stage::Rustfilt => matches!(reply, Reply::Done),
        }
    }
}

impl Setup {
    /// Goes on with the colour choice in the environment.
    fn with_color(self, var: Option<String>) -> (r: Result<Progress, Error>)
        requires
            self.stage == Stage::Color,
        ensures
            is_outcome(self, Reply::Var(var), r),
            keeps_the_rest(self, r),
    {
        if let Some(name) = var {
            match Coloring::from_str(name.as_str()) {
                Ok(choice) => {
                    let cx = self.cx;
                    let args = Args { color: Some(choice), ..cx.args };
                    let cx = Context { args, ..cx };
                    Ok(Setup { cx, ..self }.seek_workspace())
                },
                Err(error) => Err(error),
            }
        } else {
            Ok(self.seek_workspace())
        }
    }

    /// Goes on with the description of the workspace.
    fn with_metadata(self, metadata: Metadata) -> (r: Result<Progress, Error>)
        requires
            self.stage == Stage::Metadata,
        ensures
            is_outcome(self, Reply::Metadata(metadata), r),
            keeps_the_rest(self, r),
    {
        let cx: Context = located(self.cx, metadata);
        let setup = Setup { stage: Stage::Cargo, cx, ..self };
        Ok(Progress::Ask(setup, Request::VarOs("CARGO".to_owned()), None))
    }

    /// Goes on with the cargo named in the environment.
    fn with_cargo(self, var: Option<Vec<u8>>) -> (r: Result<Progress, Error>)
        requires
            self.stage == Stage::Cargo,
        ensures
            is_outcome(self, Reply::VarOs(var), r),
            keeps_the_rest(self, r),
    {
        let mut setup: Setup = self;
        setup.cx.cargo = toolchain::cargo(var);
        let request: Request = Request::Read(
            toolchain::version(
                context::copy_word(&setup.cx.cargo),
                setup.cx.metadata.workspace_root.as_str(),
            ),
        );
        setup.stage = Stage::Version;
        Ok(Progress::Ask(setup, request, None))
    }

    /// Goes on with cargo's version.
    fn with_version(self, version: String) -> (r: Result<Progress, Error>)
        requires
            self.stage == Stage::Version,
        ensures
            is_outcome(self, Reply::Output(version), r),
            keeps_the_rest(self, r),
    {
        let mut setup: Setup = self;
        setup.cx.nightly = toolchain::nightly(version.as_str());
        if setup.cx.nightly {
            setup.stage = Stage::SysrootRustc;
            Ok(Progress::Ask(setup, Request::VarOs("RUSTC".to_owned()), None))
        } else {
            setup.cx.cargo = text::word("cargo");
            setup.stage = Stage::Sysroot;
            Ok(
                Progress::Ask(
                    setup,
                    Request::Read(toolchain::print_nightly_sysroot()),
                    Some(Error::NoSysroot),
                ),
            )
        }
    }

    /// Goes on with the compiler to be asked for its sysroot.
    fn with_sysroot_rustc(self, var: Option<Vec<u8>>) -> (r: Result<Progress, Error>)
        requires
            self.stage == Stage::SysrootRustc,
        ensures
            is_outcome(self, Reply::VarOs(var), r),
            keeps_the_rest(self, r),
    {
        let mut setup: Setup = self;
        setup.stage = Stage::Sysroot;
        let request: Request = Request::Read(toolchain::print_sysroot(toolchain::rustc(var)));
        Ok(Progress::Ask(setup, request, Some(Error::NoSysroot)))
    }

    /// Goes on with the compiler to be asked for its host.
    fn with_host_rustc(self, var: Option<Vec<u8>>) -> (r: Result<Progress, Error>)
        requires
            self.stage == Stage::HostRustc,
        ensures
            is_outcome(self, Reply::VarOs(var), r),
            keeps_the_rest(self, r),
    {
        let mut setup: Setup = self;
        setup.stage = Stage::Host;
        setup.rustc = toolchain::rustc(var);
        let request: Request = Request::Read(
            toolchain::print_version(context::copy_word(&setup.rustc)),
        );
        Ok(Progress::Ask(setup, request, None))
    }

    /// Goes on with the compiler's version report.
    fn with_host(self, output: String) -> (r: Result<Progress, Error>)
        requires
            self.stage == Stage::Host,
        ensures
            is_outcome(self, Reply::Output(output), r),
            keeps_the_rest(self, r),
    {
        let mut setup: Setup = self;
        let host: String = match toolchain::host(&setup.rustc, output.as_str()) {
            Ok(host) => host,
            Err(error) => {
                return Err(error);
            },
        };
        setup.cx.llvm_cov = toolchain::tool(
            setup.sysroot.as_str(),
            host.as_str(),
            "llvm-cov",
            setup.exe_suffix.as_str(),
        );
        setup.cx.llvm_profdata = toolchain::tool(
            setup.sysroot.as_str(),
            host.as_str(),
            "llvm-profdata",
            setup.exe_suffix.as_str(),
        );
        setup.stage = Stage::LlvmCov;
        let file: String = setup.cx.llvm_cov.clone();
        Ok(Progress::Ask(setup, Request::Exists(file), None))
    }

    /// Goes on with whether a tool is there.
    fn with_tool(self, there: bool) -> (r: Result<Progress, Error>)
        requires
            self.stage == Stage::LlvmCov || self.stage == Stage::LlvmProfdata,
        ensures
            is_outcome(self, Reply::Exists(there), r),
            keeps_the_rest(self, r),
    {
        if !there {
            return Err(Error::NoLlvmTools { nightly: self.cx.nightly });
        }
        let mut setup: Setup = self;
        if matches!(setup.stage, Stage::LlvmCov) {
            setup.stage = Stage::LlvmProfdata;
            let file: String = setup.cx.llvm_profdata.clone();
            Ok(Progress::Ask(setup, Request::Exists(file), None))
        } else if setup.cx.args.show() {
            setup.stage = Stage::Rustfilt;
            let html: bool = setup.cx.args.html;
            Ok(
                Progress::Ask(
                    setup,
                    Request::Run(toolchain::probe_rustfilt()),
                    Some(Error::NoRustfilt { html }),
                ),
            )
        } else {
            Ok(Progress::Ready(setup.cx))
        }
    }

    /// Goes on with the answer to the request that the setup waits for.
    pub fn resume(self, reply: Reply) -> (r: Result<Progress, Error>)
        requires
            self.awaits(reply),
        ensures
            is_outcome(self, reply, r),
            keeps_the_rest(self, r),
    {
        match (self.stage, reply) {
            (Stage::Color, Reply::Var(var)) => self.with_color(var),
            (Stage::Manifest, Reply::Output(manifest)) => Ok(
                self.seek_metadata(text::word(manifest.as_str())),
            ),
            (Stage::Metadata, Reply::Metadata(metadata)) => self.with_metadata(metadata),
            (Stage::Cargo, Reply::VarOs(var)) => self.with_cargo(var),
            (Stage::Version, Reply::Output(version)) => self.with_version(version),
            (Stage::SysrootRustc, Reply::VarOs(var)) => self.with_sysroot_rustc(var),
            (Stage::Sysroot, Reply::Output(output)) => {
                let mut setup: Setup = self;
                setup.sysroot = toolchain::sysroot(output.as_str());
                setup.stage = Stage::HostRustc;
                Ok(Progress::Ask(setup, Request::VarOs("RUSTC".to_owned()), None))
            },
            (Stage::HostRustc, Reply::VarOs(var)) => self.with_host_rustc(var),
            (Stage::Host, Reply::Output(output)) => self.with_host(output),
            (Stage::LlvmCov, Reply::Exists(there)) => self.with_tool(there),
            (Stage::LlvmProfdata, Reply::Exists(there)) => self.with_tool(there),
            // All that is left to wait for is `rustfilt`.
            (_, _) => Ok(Progress::Ready(self.cx)),
        }
    }
}

} // verus!
