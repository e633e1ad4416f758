//! Sysroot synthesis and cache engine.
//!
//! Builds a private, per-target copy of the standard library ("sysroot"),
//! caches it on disk keyed by a fingerprint of everything that affects the
//! build, and delegates to the ordinary build tool with `--sysroot` pointing
//! at the cache.

use vstd::prelude::*;

pub mod cache;
pub mod config;
pub mod errors;
pub mod fingerprint;
mod json;
pub mod rustc;
pub mod sysroot;
pub mod xargo;

use crate::fingerprint::FnvHasher;
use crate::rustc::Target;
use vstd::utf8::encode_utf8;

verus! {

/// The working directory of the invocation, captured once and threaded
/// through target resolution (custom target specs are looked up relative
/// to it).
pub struct CurrentDirectory {
    pub path: String,
}

impl CurrentDirectory {
    /// Wraps an already-obtained working directory path.
    pub fn new(path: String) -> (r: CurrentDirectory)
        ensures
            r.path@ == path@,
    {
        CurrentDirectory { path }
    }

    pub fn path(&self) -> (r: &String)
        ensures
            r@ == self.path@,
    {
        &self.path
    }
}

/// How this invocation compiles: against the host's own platform (Native)
/// or against an explicit non-host target (Cross).
///
/// The two variants use separate cache roots. A cross build must keep
/// `lib/rustlib/<host>` identical to the compiler's own sysroot, while a
/// native build wants a custom one there; giving each mode its own root
/// also keeps a native build from ever blocking on an unrelated cross
/// build's lock.
pub enum CompilationMode {
    Cross(Target),
    Native(String),
}

/// Byte encoding of the optional custom spec document.
pub open spec fn opt_doc_bytes(d: Option<String>) -> Seq<u8> {
    match d {
        Option::None => seq![0u8],
        Option::Some(c) => seq![1u8] + encode_utf8(c@),
    }
}

/// The hashable identity of a compilation mode: a variant tag, the
/// condensed triple, and (for Cross) the custom spec document, so that two
/// modes hash alike exactly when they would build alike.
pub open spec fn mode_bytes(m: &CompilationMode) -> Seq<u8> {
    match m {
        CompilationMode::Native(t) => seq![0u8] + encode_utf8(t@),
        CompilationMode::Cross(t) => seq![1u8] + encode_utf8(t.triple@) + seq![0xffu8]
            + opt_doc_bytes(t.spec_doc),
    }
}

/// Two optional documents carry the same text.
pub open spec fn opt_doc_like(a: Option<String>, b: Option<String>) -> bool {
    match (a, b) {
        (Option::None, Option::None) => true,
        (Option::Some(x), Option::Some(y)) => x@ == y@,
        _ => false,
    }
}

/// Two modes carry the same variant and the same texts.
pub open spec fn mode_like(a: &CompilationMode, b: &CompilationMode) -> bool {
    match (a, b) {
        (CompilationMode::Native(x), CompilationMode::Native(y)) => x@ == y@,
        (CompilationMode::Cross(s), CompilationMode::Cross(t)) => s.triple@ == t.triple@ && s.orig@
            == t.orig@ && opt_doc_like(s.spec_doc, t.spec_doc),
        _ => false,
    }
}

/// Modes that are alike have equal hashable identities.
pub proof fn lemma_mode_bytes_like(a: &CompilationMode, b: &CompilationMode)
    requires
        mode_like(a, b),
    ensures
        mode_bytes(a) == mode_bytes(b),
{
}

impl CompilationMode {
    /// The condensed target triple (no path components, no extension),
    /// used for cache-path construction.
    pub open spec fn spec_triple(&self) -> Seq<char> {
        match self {
            CompilationMode::Cross(t) => t.triple@,
            CompilationMode::Native(t) => t@,
        }
    }

    /// The target identifier as the user supplied it.
    pub open spec fn spec_orig_triple(&self) -> Seq<char> {
        match self {
            CompilationMode::Cross(t) => t.orig@,
            CompilationMode::Native(t) => t@,
        }
    }

    /// Feeds the mode's hashable identity to the hasher.
    pub fn hash(&self, hasher: &mut FnvHasher)
        requires
            old(hasher).wf(),
        ensures
            final(hasher).wf(),
            final(hasher).bytes() == old(hasher).bytes() + mode_bytes(self),
    {
        match self {
            CompilationMode::Native(t) => {
                hasher.write_u8(0);
                hasher.write_str(t.as_str());
                proof {
                    assert(hasher.bytes() =~= old(hasher).bytes() + mode_bytes(self));
                }
            },
            CompilationMode::Cross(t) => {
                hasher.write_u8(1);
                hasher.write_str(t.triple.as_str());
                hasher.write_u8(0xff);
                match &t.spec_doc {
                    None => {
                        hasher.write_u8(0);
                    },
                    Some(c) => {
                        hasher.write_u8(1);
                        hasher.write_str(c.as_str());
                    },
                }
                proof {
                    assert(hasher.bytes() =~= old(hasher).bytes() + mode_bytes(self));
                }
            },
        }
    }

    /// The condensed target triple (removes any `.json` extension and path
    /// components).
    pub fn triple(&self) -> (r: &String)
        ensures
            r@ == self.spec_triple(),
    {
        match self {
            CompilationMode::Cross(t) => t.triple(),
            CompilationMode::Native(t) => t,
        }
    }

    /// The original target triple as supplied (perhaps a spec-file path).
    pub fn orig_triple(&self) -> (r: &String)
        ensures
            r@ == self.spec_orig_triple(),
    {
        match self {
            CompilationMode::Cross(t) => t.orig_triple(),
            CompilationMode::Native(t) => t,
        }
    }

    pub fn is_native(&self) -> (r: bool)
        ensures
            r == (self is Native),
    {
        match self {
            CompilationMode::Native(_) => true,
            _ => false,
        }
    }
}

} // verus!
