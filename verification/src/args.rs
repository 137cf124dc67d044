//! The command line, and what it asks for.

use vstd::prelude::*;

use crate::color::Coloring;

verus! {

/// The command line of `cargo llvm-cov`.
#[derive(Debug)]
pub struct Args {
    /// Export coverage data in "json" format.
    pub json: bool,
    /// Export coverage data in "lcov" format.
    pub lcov: bool,
    /// Generate coverage reports in "text" format.
    pub text: bool,
    /// Generate coverage reports in "html" format.
    pub html: bool,
    /// Generate coverage reports in "html" format and open them in a browser.
    pub open: bool,
    /// Export only summary information for each file in the coverage data.
    pub summary_only: bool,
    /// A file to write coverage data into. It needs one of the formats "json", "lcov" and "text".
    pub output_path: Option<Vec<u8>>,
    /// A directory to write coverage reports into.
    pub output_dir: Option<Vec<u8>>,
    /// Skip source files with paths that match this regular expression.
    pub ignore_filename_regex: Option<String>,
    /// Do not skip the source files that are skipped by default.
    pub disable_default_ignore_filename_regex: bool,
    /// Include doc tests.
    pub doctests: bool,
    /// Run all tests regardless of failure.
    pub no_fail_fast: bool,
    /// Test all packages in the workspace.
    pub workspace: bool,
    /// Packages to exclude from the test.
    pub exclude: Vec<String>,
    /// Build artifacts in release mode.
    pub release: bool,
    /// Features to activate.
    pub features: Vec<String>,
    /// Activate all available features.
    pub all_features: bool,
    /// Do not activate the `default` feature.
    pub no_default_features: bool,
    /// The target triple to build for.
    pub target: Option<String>,
    /// Path to `Cargo.toml`.
    pub manifest_path: Option<Vec<u8>>,
    /// How often verbose output was asked for.
    pub verbose: u8,
    /// When to colour the output.
    pub color: Option<Coloring>,
    /// Require `Cargo.lock` and the cache to be up to date.
    pub frozen: bool,
    /// Require `Cargo.lock` to be up to date.
    pub locked: bool,
    /// Unstable flags to cargo.
    pub unstable_flags: Vec<String>,
    /// Arguments for the test binary.
    pub args: Vec<Vec<u8>>,
}

impl Args {
    /// Whether a report is asked for that shows the source, in "text" or "html" format.
    pub open spec fn shows(self) -> bool {
        self.text || self.html
    }

    /// A file to write into is given without any of the formats that can be written into one.
    pub open spec fn lacks_format(self) -> bool {
        self.output_path is Some && !self.json && !self.lcov && !self.text
    }

    /// The flags that choose a format exclude each other, and those that need one have it, as
    /// the command line demands.
    pub open spec fn is_consistent(self) -> bool {
        &&& self.json ==> !self.lcov && !self.text && !self.html && !self.open
        &&& self.lcov ==> !self.text && !self.html && !self.open
        &&& self.text ==> !self.html && !self.open
        &&& self.summary_only ==> !self.text && !self.html && !self.open
        &&& self.output_path is Some ==> !self.html && !self.open
        &&& !self.lacks_format()
        &&& self.output_dir is Some ==> !self.json && !self.lcov && self.output_path is None
    }

    /// Whether a report is asked for that shows the source.
    pub fn show(&self) -> (r: bool)
        ensures
            r == self.shows(),
            r == (self.text || self.html),
    {
        self.text || self.html
    }
}

} // verus!
