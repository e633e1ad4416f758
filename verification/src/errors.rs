//! Error taxonomy of the engine.
//!
//! Configuration errors, toolchain-state errors, build errors and I/O errors
//! are all fatal to the invocation; the unsupported-channel case is not an
//! error at all (the engine degrades to plain delegation with a warning).

use vstd::prelude::*;

use vstd::string::StringExecFns;

verus! {

/// A fatal failure of the engine. Each variant records the input that
/// produced it, so a caller can render an exact message.
#[derive(Debug)]
pub enum Error {
    /// The source override environment variable is required (Dev channel)
    /// but was not set.
    MissingSourceOverride,
    /// No source override was set and the toolchain's own sysroot holds no
    /// bundled standard-library source archive (Nightly channel).
    BundledSourceMissing,
    /// A custom target spec path does not exist; carries the identifier as
    /// the user supplied it.
    SpecNotFound(String),
    /// A custom target spec file exists but is not a valid structured
    /// platform description; carries the identifier as supplied.
    SpecParse(String),
    /// The per-project configuration block is malformed; carries a detail.
    MalformedConfig(String),
    /// The active toolchain could not be queried; carries a detail.
    ToolchainState(String),
    /// The build tool exited with a non-zero status while compiling the
    /// sysroot; carries the exit code (or -1 when killed by a signal).
    BuildFailed(i32),
    /// A filesystem operation failed; carries a detail.
    Io(String),
    /// The cache lock could not be acquired within the bounded wait;
    /// carries the lock path.
    LockTimeout(String),
}

/// The human-readable message of each error.
pub open spec fn spec_message(e: &Error) -> Seq<char> {
    match e {
        Error::MissingSourceOverride => "the RUST_SOURCE_DIR environment variable must be set and point to the Rust source directory when working with the 'dev' channel"@,
        Error::BundledSourceMissing => "no standard-library source found in the toolchain sysroot"@,
        Error::SpecNotFound(p) => "target spec file not found: "@ + p@,
        Error::SpecParse(p) => "could not parse target spec file: "@ + p@,
        Error::MalformedConfig(d) => "malformed project configuration: "@ + d@,
        Error::ToolchainState(d) => "failed to query the toolchain: "@ + d@,
        Error::BuildFailed(_) => "the sysroot build failed"@,
        Error::Io(d) => "input/output error: "@ + d@,
        Error::LockTimeout(p) => "timed out waiting for the cache lock: "@ + p@,
    }
}

impl Error {
    /// Renders the message that the top level prints after `error: `.
    pub fn describe(&self) -> (r: String)
        ensures
            r@ == spec_message(self),
    {
        match self {
            Error::MissingSourceOverride => "the RUST_SOURCE_DIR environment variable must be set and point to the Rust source directory when working with the 'dev' channel".to_owned(),
            Error::BundledSourceMissing => "no standard-library source found in the toolchain sysroot".to_owned(),
            Error::SpecNotFound(p) => {
                let mut s = "target spec file not found: ".to_owned();
                s.append(p.as_str());
                s
            },
            Error::SpecParse(p) => {
                let mut s = "could not parse target spec file: ".to_owned();
                s.append(p.as_str());
                s
            },
            Error::MalformedConfig(d) => {
                let mut s = "malformed project configuration: ".to_owned();
                s.append(d.as_str());
                s
            },
            Error::ToolchainState(d) => {
                let mut s = "failed to query the toolchain: ".to_owned();
                s.append(d.as_str());
                s
            },
            Error::BuildFailed(_) => "the sysroot build failed".to_owned(),
            Error::Io(d) => {
                let mut s = "input/output error: ".to_owned();
                s.append(d.as_str());
                s
            },
            Error::LockTimeout(p) => {
                let mut s = "timed out waiting for the cache lock: ".to_owned();
                s.append(p.as_str());
                s
            },
        }
    }
}

} // verus!
