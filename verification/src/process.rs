//! Processes to be started: program, arguments, environment and directory.

use vstd::prelude::*;

use crate::text;

verus! {

/// A process to be started.
#[derive(Debug)]
pub struct ProcessBuilder {
    /// The program to execute.
    pub program: Vec<u8>,
    /// The arguments, in order.
    pub args: Vec<Vec<u8>>,
    /// The environment variables to set, in order; a later value of a name replaces an earlier.
    pub env: Vec<(String, Vec<u8>)>,
    /// The directory to run in; the current one if there is none.
    pub dir: Option<String>,
    /// Whether standard output goes to standard error.
    pub stdout_to_stderr: bool,
    /// Whether standard output is captured.
    pub stdout_capture: bool,
    /// Whether standard error is captured.
    pub stderr_capture: bool,
    /// Whether the environment variables are part of what is shown of the process.
    pub display_env_vars: bool,
}

/// What a [`ProcessBuilder`] stands for.
#[verifier::ext_equal]
pub struct ProcessView {
    pub program: Seq<u8>,
    pub args: Seq<Seq<u8>>,
    pub env: Seq<(Seq<char>, Seq<u8>)>,
    pub dir: Option<Seq<char>>,
    pub stdout_to_stderr: bool,
    pub stdout_capture: bool,
    pub stderr_capture: bool,
    pub display_env_vars: bool,
}

/// The text in an optional string.
pub open spec fn optional_text(text: Option<String>) -> Option<Seq<char>> {
    match text {
        Some(text) => Some(text@),
        None => None,
    }
}

/// The operating system string in an optional byte vector.
pub open spec fn optional_word(word: Option<Vec<u8>>) -> Option<Seq<u8>> {
    match word {
        Some(word) => Some(word@),
        None => None,
    }
}

/// The variables that a list of pairs sets.
pub open spec fn settings(list: Seq<(String, Vec<u8>)>) -> Seq<(Seq<char>, Seq<u8>)> {
    Seq::new(list.len(), |i: int| (list[i].0@, list[i].1@))
}

/// A process that runs `program` with `args`, with nothing else set.
pub open spec fn plain_process(program: Seq<u8>, args: Seq<Seq<u8>>) -> ProcessView {
    ProcessView {
        program,
        args,
        env: Seq::empty(),
        dir: None,
        stdout_to_stderr: false,
        stdout_capture: false,
        stderr_capture: false,
        display_env_vars: false,
    }
}

impl View for ProcessBuilder {
    type V = ProcessView;

    open spec fn view(&self) -> ProcessView {
        ProcessView {
            program: self.program@,
            args: text::words(self.args@),
            env: settings(self.env@),
            dir: optional_text(self.dir),
            stdout_to_stderr: self.stdout_to_stderr,
            stdout_capture: self.stdout_capture,
            stderr_capture: self.stderr_capture,
            display_env_vars: self.display_env_vars,
        }
    }
}

impl ProcessView {
    /// The process with one more argument.
    pub open spec fn with_arg(self, arg: Seq<u8>) -> ProcessView {
        ProcessView { args: self.args.push(arg), ..self }
    }

    /// The process with more arguments.
    pub open spec fn with_args(self, args: Seq<Seq<u8>>) -> ProcessView {
        ProcessView { args: self.args + args, ..self }
    }

    /// The process with one more environment variable.
    pub open spec fn with_env(self, name: Seq<char>, value: Seq<u8>) -> ProcessView {
        ProcessView { env: self.env.push((name, value)), ..self }
    }

    /// The process in a directory.
    pub open spec fn in_dir(self, dir: Seq<char>) -> ProcessView {
        ProcessView { dir: Some(dir), ..self }
    }

    /// The process with its standard output captured.
    pub open spec fn captured(self) -> ProcessView {
        ProcessView { stdout_capture: true, ..self }
    }
}

/// Adding arguments twice is adding both lists at once.
pub(crate) broadcast proof fn lemma_with_args_twice(
    cmd: ProcessView,
    first: Seq<Seq<u8>>,
    second: Seq<Seq<u8>>,
)
    ensures
        #[trigger] cmd.with_args(first).with_args(second) == cmd.with_args(first + second),
{
    assert(cmd.args + first + second =~= cmd.args + (first + second));
}

impl ProcessBuilder {
    /// A process that runs `program`, without arguments.
    pub fn new(program: Vec<u8>) -> (cmd: ProcessBuilder)
        ensures
            cmd@ == plain_process(program@, Seq::empty()),
    {
        let cmd = ProcessBuilder {
            program,
            args: Vec::new(),
            env: Vec::new(),
            dir: None,
            stdout_to_stderr: false,
            stdout_capture: false,
            stderr_capture: false,
            display_env_vars: false,
        };
        assert(cmd@ =~= plain_process(program@, Seq::empty()));
        cmd
    }

    /// Adds an argument.
    pub fn arg(&mut self, arg: Vec<u8>)
        ensures
            final(self)@ == old(self)@.with_arg(arg@),
    {
        proof {
            text::lemma_words_push(self.args@, arg);
        }
        self.args.push(arg);
    }

    /// Adds an argument that is text.
    pub fn arg_text(&mut self, arg: &str)
        ensures
            final(self)@ == old(self)@.with_arg(text::utf8(arg@)),
    {
        self.arg(text::word(arg));
    }

    /// Adds arguments that are text.
    pub fn args(&mut self, args: &[&str])
        ensures
            final(self)@ == old(self)@.with_args(text::as_words(text::literals(args@))),
    {
        let ghost before = self@;
        let mut i: usize = 0;
        assert(self@ =~= before.with_args(text::as_words(text::literals(args@.take(0)))));
        while i < args.len()
            invariant
                i <= args@.len(),
                self@ == before.with_args(text::as_words(text::literals(args@.take(i as int)))),
            decreases args@.len() - i,
        {
            self.arg_text(args[i]);
            assert(self@ =~= before.with_args(
                text::as_words(text::literals(args@.take(i + 1))),
            ));
            i += 1;
        }
        assert(args@.take(i as int) =~= args@);
    }

    /// Sets an environment variable.
    pub fn env(&mut self, name: &str, value: Vec<u8>)
        ensures
            final(self)@ == old(self)@.with_env(name@, value@),
    {
        let name: String = name.to_owned();
        let ghost before = self.env@;
        self.env.push((name, value));
        assert(settings(self.env@) =~= settings(before).push((name@, value@)));
    }

    /// Sets the directory to run in.
    pub fn dir(&mut self, dir: &str)
        ensures
            final(self)@ == old(self)@.in_dir(dir@),
    {
        self.dir = Some(dir.to_owned());
    }

    /// Captures standard output.
    pub fn stdout_capture(&mut self)
        ensures
            final(self)@ == old(self)@.captured(),
    {
        self.stdout_capture = true;
    }

    /// Captures standard error.
    pub fn stderr_capture(&mut self)
        ensures
            final(self)@ == (ProcessView { stderr_capture: true, ..old(self)@ }),
    {
        self.stderr_capture = true;
    }

    /// Sends standard output to standard error.
    pub fn stdout_to_stderr(&mut self)
        ensures
            final(self)@ == (ProcessView { stdout_to_stderr: true, ..old(self)@ }),
    {
        self.stdout_to_stderr = true;
    }

    /// Makes the environment variables part of what is shown of the process.
    pub fn display_env_vars(&mut self)
        ensures
            final(self)@ == (ProcessView { display_env_vars: true, ..old(self)@ }),
    {
        self.display_env_vars = true;
    }
}

} // verus!
