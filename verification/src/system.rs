//! The context of a run on a system of which everything is already known.

use vstd::prelude::*;

use crate::args::Args;
use crate::context;
use crate::context::Context;
use crate::context::Metadata;
use crate::error::Error;
use crate::process;
use crate::setup;
use crate::setup::Progress;
use crate::setup::Reply;
use crate::setup::Setup;
use crate::setup::Stage;
use crate::setup_laws;
use crate::setup_laws::Observed;

verus! {

/// What a setup can ask about a system.
#[derive(Debug)]
pub struct System {
    /// The colour choice in the environment.
    pub color: Option<String>,
    /// The manifest of the package in the current directory.
    pub manifest: String,
    pub metadata: Metadata,
    /// The cargo named in the environment.
    pub cargo: Option<Vec<u8>>,
    /// Cargo's version.
    pub version: String,
    /// The compiler named in the environment.
    pub rustc: Option<Vec<u8>>,
    /// What the compiler prints as its sysroot, if it can be asked.
    pub sysroot: Option<String>,
    /// The compiler's version report.
    pub host: String,
    /// Whether `llvm-cov` is there.
    pub has_llvm_cov: bool,
    /// Whether `llvm-profdata` is there.
    pub has_llvm_profdata: bool,
    /// Whether `rustfilt` runs.
    pub runs_rustfilt: bool,
}

impl View for System {
    type V = Observed;

    open spec fn view(&self) -> Observed {
        Observed {
            color: process::optional_text(self.color),
            manifest: self.manifest@,
            metadata: self.metadata,
            cargo: process::optional_word(self.cargo),
            version: self.version@,
            sysroot: process::optional_text(self.sysroot),
            rustc: process::optional_word(self.rustc),
            host: self.host@,
            has_llvm_cov: self.has_llvm_cov,
            has_llvm_profdata: self.has_llvm_profdata,
            runs_rustfilt: self.runs_rustfilt,
        }
    }
}

/// A copy of an operating system string, if there is one.
fn copy_optional(word: &Option<Vec<u8>>) -> (copy: Option<Vec<u8>>)
    ensures
        process::optional_word(copy) == process::optional_word(*word),
{
    match word {
        Some(word) => Some(context::copy_word(word)),
        None => None,
    }
}

impl System {
    /// The answer to the question of the given stage, unless the process that it needs fails.
    fn reply(&self, stage: Stage) -> (reply: Option<Reply>)
        ensures
            match reply {
                Some(reply) => {
                    &&& forall|setup: Setup|
                        setup.stage == stage ==> #[trigger] setup.awaits(reply)
                    &&& setup_laws::tells(stage, reply, self@)
                },
                None => {
                    ||| stage == Stage::Sysroot && self.sysroot is None
                    ||| stage == Stage::Rustfilt && !self.runs_rustfilt
                },
            },
    {
        match stage {
            Stage::Color => Some(Reply::Var(self.color.clone())),
            Stage::Manifest => Some(Reply::Output(self.manifest.clone())),
            Stage::Metadata => Some(
                Reply::Metadata(
                    Metadata {
                        workspace_root: self.metadata.workspace_root.clone(),
                        target_directory: self.metadata.target_directory.clone(),
                    },
                ),
            ),
            Stage::Cargo => Some(Reply::VarOs(copy_optional(&self.cargo))),
            Stage::Version => Some(Reply::Output(self.version.clone())),
            Stage::SysrootRustc | Stage::HostRustc => Some(
                Reply::VarOs(copy_optional(&self.rustc)),
            ),
            Stage::Sysroot => match &self.sysroot {
                Some(sysroot) => Some(Reply::Output(sysroot.clone())),
                None => None,
            },
            Stage::Host => Some(Reply::Output(self.host.clone())),
            Stage::LlvmCov => Some(Reply::Exists(self.has_llvm_cov)),
            Stage::LlvmProfdata => Some(Reply::Exists(self.has_llvm_profdata)),
            Stage::Rustfilt => if self.runs_rustfilt {
                Some(Reply::Done)
            } else {
                None
            },
        }
    }
}

impl Context {
    /// The context of the run that the command line asks for on `system`, where the names of
    /// programs end in `exe_suffix`.
    pub fn new(args: Args, exe_suffix: String, system: &System) -> (r: Result<Context, Error>)
        ensures
            r is Err <==> setup_laws::is_refusable(args, system@),
            match r {
                Ok(cx) => {
                    &&& setup_laws::is_context_of(args, exe_suffix@, system@, cx)
                    &&& args.is_consistent() ==> cx.is_consistent()
                },
                Err(error) => setup_laws::is_refusal(args, system@, error),
            },
    {
        let ghost (asked, suffix, seen) = (args, exe_suffix, system@);
        let begun: Result<Progress, Error> = Setup::begin(args, exe_suffix);
        proof {
            if begun is Ok {
                setup_laws::lemma_setup_begins_in_agreement(asked, suffix, seen, begun);
            }
        }
        let mut progress: Progress = match begun {
            Ok(progress) => progress,
            Err(error) => {
                return Err(error);
            },
        };
        loop
            invariant
                asked == args,
                suffix == exe_suffix,
                seen == system@,
                match progress {
                    Progress::Ask(setup, _, failure) => {
                        &&& setup_laws::agrees(asked, suffix@, seen, setup)
                        &&& failure == setup_laws::explanation(asked, setup.stage)
                        &&& setup.stage == Stage::Rustfilt ==> setup::settled(asked).shows()
                    },
                    Progress::Ready(cx) => setup_laws::is_context_of(asked, suffix@, seen, cx),
                },
            decreases
                    match progress {
                        Progress::Ask(setup, _, _) => 12 - setup_laws::rank(setup.stage),
                        Progress::Ready(_) => 0,
                    },
        {
            match progress {
                Progress::Ready(cx) => {
                    proof {
                        if asked.is_consistent() {
                            setup_laws::lemma_context_is_consistent(asked, suffix@, seen, cx);
                        }
                    }
                    return Ok(cx);
                },
                Progress::Ask(setup, _, failure) => match system.reply(setup.stage) {
                    Some(reply) => {
                        let ghost (pre, answer) = (setup, reply);
                        let outcome: Result<Progress, Error> = setup.resume(reply);
                        proof {
                            setup_laws::lemma_setup_goes_forward(
                                asked,
                                suffix@,
                                seen,
                                pre,
                                answer,
                                outcome,
                            );
                            setup_laws::lemma_flags_are_settled(asked, suffix@, seen, pre);
                            setup_laws::lemma_failures_are_explained(asked, pre, answer, outcome);
                        }
                        match outcome {
                            Ok(next) => {
                                progress = next;
                            },
                            Err(error) => {
                                return Err(error);
                            },
                        }
                    },
                    None => {
                        return Err(failure.unwrap());
                    },
                },
            }
        }
    }
}

} // verus!
