//! What can be wrong with the request or with the tools that it needs.

use vstd::prelude::*;

use crate::text;

verus! {

/// Why a request cannot be carried out.
#[derive(Debug)]
pub enum Error {
    /// A colour choice that is none of the three; holds the text that was found.
    InvalidColor(String),
    /// `--output-path` without `--json`, `--lcov` or `--text`.
    OutputPathWithoutFormat,
    /// The compiler did not say where it is installed.
    NoSysroot,
    /// The compiler's version report names no host. Holds the compiler and its report.
    NoHost { rustc: String, output: String },
    /// The LLVM tools are not installed, for the toolchain in use or for nightly.
    NoLlvmTools { nightly: bool },
    /// `rustfilt` does not run, and `--html` or `--text` needs it.
    NoRustfilt { html: bool },
}

/// The text that reports `error` to the user.
pub open spec fn message_of(error: Error) -> Seq<char> {
    match error {
        Error::InvalidColor(found) => "must be auto, always, or never, but found `"@ + found@ + "`"@,
        Error::OutputPathWithoutFormat => "--output-path can only be used together with --json, --lcov, or --text"@,
        Error::NoSysroot => "failed to find sysroot"@,
        Error::NoHost { rustc, output } => "unexpected version output from `"@ + rustc@ + "`: "@
            + output@,
        Error::NoLlvmTools { nightly } => "failed to find llvm-tools-preview, please install llvm-tools-preview with `rustup component add llvm-tools-preview"@
            + (if nightly {
            ""@
        } else {
            " --toolchain nightly"@
        }) + "`"@,
        Error::NoRustfilt { html } => (if html {
            "--html"@
        } else {
            "--text"@
        })
            + " flag requires rustfilt, please install rustfilt with `cargo install rustfilt`"@,
    }
}

impl Error {
    /// The text that reports the error to the user.
    pub fn message(&self) -> (message: String)
        ensures
            message@ == message_of(*self),
    {
        match self {
            Error::InvalidColor(found) => {
                let start: String = text::concat(
                    "must be auto, always, or never, but found `",
                    found.as_str(),
                );
                text::concat(start.as_str(), "`")
            },
            Error::OutputPathWithoutFormat => "--output-path can only be used together with --json, --lcov, or --text".to_owned(),
            Error::NoSysroot => "failed to find sysroot".to_owned(),
            Error::NoHost { rustc, output } => {
                let start: String = text::concat("unexpected version output from `", rustc.as_str());
                let start: String = text::concat(start.as_str(), "`: ");
                text::concat(start.as_str(), output.as_str())
            },
            Error::NoLlvmTools { nightly } => {
                let start: String = text::concat(
                    "failed to find llvm-tools-preview, please install llvm-tools-preview with `rustup component add llvm-tools-preview",
                    if *nightly { "" } else { " --toolchain nightly" },
                );
                text::concat(start.as_str(), "`")
            },
            Error::NoRustfilt { html } => text::concat(
                if *html { "--html" } else { "--text" },
                " flag requires rustfilt, please install rustfilt with `cargo install rustfilt`",
            ),
        }
    }
}

} // verus!
