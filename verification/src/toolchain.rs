//! The toolchain: which programs it consists of and what their output says of it.

use vstd::prelude::*;

use crate::error::Error;
use crate::path;
use crate::process;
use crate::process::ProcessBuilder;
use crate::text;

verus! {

/// The program to run as cargo.
pub open spec fn cargo_program(var: Option<Seq<u8>>) -> Seq<u8> {
    match var {
        Some(program) => program,
        None => text::utf8("cargo"@),
    }
}

/// The program to run as the compiler.
pub open spec fn rustc_program(var: Option<Seq<u8>>) -> Seq<u8> {
    match var {
        Some(program) => program,
        None => text::utf8("rustc"@),
    }
}

/// The program to run as cargo: the one that the environment names, if it names one.
pub fn cargo(var: Option<Vec<u8>>) -> (program: Vec<u8>)
    ensures
        program@ == cargo_program(process::optional_word(var)),
        program@ == (match var {
            Some(given) => given@,
            None => text::utf8("cargo"@),
        }),
{
    match var {
        Some(program) => program,
        None => text::word("cargo"),
    }
}

/// The program to run as the compiler: the one that the environment names, if it names one.
pub fn rustc(var: Option<Vec<u8>>) -> (program: Vec<u8>)
    ensures
        program@ == rustc_program(process::optional_word(var)),
        program@ == (match var {
            Some(given) => given@,
            None => text::utf8("rustc"@),
        }),
{
    match var {
        Some(program) => program,
        None => text::word("rustc"),
    }
}

/// `version` is that of a nightly or development toolchain.
pub open spec fn is_nightly(version: Seq<char>) -> bool {
    text::occurs_in(version, "-nightly"@) || text::occurs_in(version, "-dev"@)
}

/// Whether cargo's version is that of a nightly or development toolchain.
pub fn nightly(version: &str) -> (r: bool)
    ensures
        r == is_nightly(version@),
        r <==> {
            ||| exists|i: int, j: int|
                0 <= i <= j <= version@.len() && #[trigger] version@.subrange(i, j) == "-nightly"@
            ||| exists|i: int, j: int|
                0 <= i <= j <= version@.len() && #[trigger] version@.subrange(i, j) == "-dev"@
        },
{
    proof {
        text::lemma_occurs(version@, "-nightly"@);
        text::lemma_occurs(version@, "-dev"@);
    }
    text::contains(version, "-nightly") || text::contains(version, "-dev")
}

/// Where the compiler is installed, from what it prints when asked: all of that but the white
/// space around it.
pub fn sysroot(output: &str) -> (dir: String)
    ensures
        dir@ == text::trimmed(output@),
{
    text::trim(output)
}

/// What follows `host: ` on the first line that begins so.
pub open spec fn host_in(lines: Seq<Seq<char>>) -> Option<Seq<char>>
    decreases lines.len(),
{
    if lines.len() == 0 {
        None
    } else if text::begins_with(lines[0], "host: "@) {
        Some(lines[0].skip("host: "@.len() as int))
    } else {
        host_in(lines.skip(1))
    }
}

/// The host triple that the compiler reports with its version.
pub fn host(rustc: &Vec<u8>, output: &str) -> (r: Result<String, Error>)
    ensures
        match r {
            Ok(host) => host_in(text::lines_of(output@)) == Some(host@),
            Err(error) => {
                &&& host_in(text::lines_of(output@)) is None
                &&& error matches Error::NoHost { rustc: program, output: found }
                    && program@ == text::shown(rustc@) && found@ == output@
            },
        },
{
    let lines: Vec<String> = text::lines(output);
    let ghost all = text::lines_of(output@);
    let mut i: usize = 0;
    assert(all.skip(0) =~= all);
    while i < lines.len()
        invariant
            text::texts(lines@) == all,
            i <= lines@.len(),
            all == text::lines_of(output@),
            host_in(all.skip(i as int)) == host_in(all),
        decreases lines@.len() - i,
    {
        assert(all[i as int] == lines@[i as int]@);
        assert(all.skip(i as int).skip(1) =~= all.skip(i + 1));
        if let Some(host) = text::strip_prefix(lines[i].as_str(), "host: ") {
            return Ok(host);
        }
        i += 1;
    }
    Err(Error::NoHost { rustc: text::show(rustc.as_slice()), output: output.to_owned() })
}

/// A process that runs `program` with arguments that are text, and whose output is captured.
pub open spec fn reading(program: Seq<u8>, args: Seq<Seq<char>>) -> process::ProcessView {
    process::plain_process(program, text::as_words(args)).captured()
}

/// A process that runs `program` with `args`, and whose output is captured.
fn read(program: Vec<u8>, args: &[&str]) -> (cmd: ProcessBuilder)
    ensures
        cmd@ == reading(program@, text::literals(args@)),
{
    let mut cmd: ProcessBuilder = ProcessBuilder::new(program);
    cmd.args(args);
    cmd.stdout_capture();
    assert(cmd@ =~= reading(program@, text::literals(args@)));
    cmd
}

/// The process that prints the manifest of the package in the current directory.
pub open spec fn locate_process() -> process::ProcessView {
    reading(text::utf8("cargo"@), seq!["locate-project"@, "--message-format"@, "plain"@])
}

/// The process that prints the manifest of the package in the current directory.
pub fn locate() -> (cmd: ProcessBuilder)
    ensures
        cmd@ == locate_process(),
{
    let args: [&'static str; 3] = ["locate-project", "--message-format", "plain"];
    assert(text::literals(args@) =~= seq!["locate-project"@, "--message-format"@, "plain"@]);
    read(text::word("cargo"), &args)
}

/// The process that prints cargo's version, as it is in the workspace.
pub open spec fn version_process(cargo: Seq<u8>, workspace_root: Seq<char>) -> process::ProcessView {
    reading(cargo, seq!["version"@]).in_dir(workspace_root)
}

/// The process that prints cargo's version, as it is in the workspace.
pub fn version(cargo: Vec<u8>, workspace_root: &str) -> (cmd: ProcessBuilder)
    ensures
        cmd@ == version_process(cargo@, workspace_root@),
{
    let args: [&'static str; 1] = ["version"];
    assert(text::literals(args@) =~= seq!["version"@]);
    let mut cmd: ProcessBuilder = read(cargo, &args);
    cmd.dir(workspace_root);
    cmd
}

/// The process that prints where the compiler is installed.
pub open spec fn sysroot_process(rustc: Seq<u8>) -> process::ProcessView {
    reading(rustc, seq!["--print"@, "sysroot"@])
}

/// The process that prints where the nightly compiler is installed.
pub open spec fn nightly_sysroot_process() -> process::ProcessView {
    reading(
        text::utf8("rustup"@),
        seq!["run"@, "nightly"@, "rustc"@, "--print"@, "sysroot"@],
    )
}

/// The process that prints where the compiler is installed.
pub fn print_sysroot(rustc: Vec<u8>) -> (cmd: ProcessBuilder)
    ensures
        cmd@ == sysroot_process(rustc@),
{
    let args: [&'static str; 2] = ["--print", "sysroot"];
    assert(text::literals(args@) =~= seq!["--print"@, "sysroot"@]);
    read(rustc, &args)
}

/// The process that prints where the nightly compiler is installed.
pub fn print_nightly_sysroot() -> (cmd: ProcessBuilder)
    ensures
        cmd@ == nightly_sysroot_process(),
{
    let args: [&'static str; 5] = ["run", "nightly", "rustc", "--print", "sysroot"];
    assert(text::literals(args@) =~= seq![
        "run"@,
        "nightly"@,
        "rustc"@,
        "--print"@,
        "sysroot"@,
    ]);
    read(text::word("rustup"), &args)
}

/// The process that prints the compiler's version report.
pub open spec fn host_process(rustc: Seq<u8>) -> process::ProcessView {
    reading(rustc, seq!["--version"@, "--verbose"@])
}

/// The process that prints the compiler's version report.
pub fn print_version(rustc: Vec<u8>) -> (cmd: ProcessBuilder)
    ensures
        cmd@ == host_process(rustc@),
{
    let args: [&'static str; 2] = ["--version", "--verbose"];
    assert(text::literals(args@) =~= seq!["--version"@, "--verbose"@]);
    read(rustc, &args)
}

/// The process that shows whether `rustfilt` is installed.
pub open spec fn rustfilt_process() -> process::ProcessView {
    reading(text::utf8("rustfilt"@), seq!["-V"@])
}

/// The process that shows whether `rustfilt` is installed.
pub fn probe_rustfilt() -> (cmd: ProcessBuilder)
    ensures
        cmd@ == rustfilt_process(),
{
    let args: [&'static str; 1] = ["-V"];
    assert(text::literals(args@) =~= seq!["-V"@]);
    read(text::word("rustfilt"), &args)
}

/// The directory of the tools that come with a compiler, seen from where it is installed.
pub open spec fn tools_dir(host: Seq<char>) -> Seq<char> {
    "lib/rustlib/"@ + host + "/bin"@
}

/// `file` is the tool of the given name that comes with the compiler for `host` in `sysroot`.
pub open spec fn is_tool(
    sysroot: Seq<char>,
    host: Seq<char>,
    name: Seq<char>,
    file: Seq<char>,
) -> bool {
    exists|dir: Seq<char>| #[trigger]
        path::is_join(sysroot, tools_dir(host), dir) && path::is_join(dir, name, file)
}

/// The tool of the given name that comes with the compiler for `host` in `sysroot`.
pub fn tool(sysroot: &str, host: &str, name: &str, exe_suffix: &str) -> (file: String)
    ensures
        is_tool(sysroot@, host@, name@ + exe_suffix@, file@),
{
    let dir: String = text::concat("lib/rustlib/", host);
    let dir: String = text::concat(dir.as_str(), "/bin");
    let dir: String = path::join(sysroot, dir.as_str());
    assert(path::is_join(sysroot@, tools_dir(host@), dir@));
    let name: String = text::concat(name, exe_suffix);
    path::join(dir.as_str(), name.as_str())
}

} // verus!
