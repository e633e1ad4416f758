//! Cache directory keys, the rebuild decision, and the promotion rule.
//!
//! One cache directory exists per compilation-mode identity. Native and
//! Cross modes use disjoint roots, so a native host build and a cross build
//! never contend for the same lock. Inside a root live the synthesized
//! sysroot tree and a marker file holding the last-known-good fingerprint;
//! both are touched only under an exclusive advisory lock on the root's
//! sentinel file, which the caller holds around the whole critical section.

use vstd::prelude::*;

use crate::config::config_like;
use crate::config::CrateConfig;
use crate::errors::Error;
use crate::fingerprint::lemma_fingerprint_deterministic;
use crate::fingerprint::spec_fingerprint;
use crate::mode_like;
use crate::rustc::meta_like;
use crate::rustc::ToolchainMeta;
use crate::CompilationMode;
use vstd::string::StringExecFns;

verus! {

/// Root of the sysroot cache for mode `m` under the tool's home directory.
pub open spec fn spec_cache_root(home: Seq<char>, m: &CompilationMode) -> Seq<char> {
    match m {
        CompilationMode::Native(t) => home + "/native/"@ + t@,
        CompilationMode::Cross(t) => home + "/cross/"@ + t.triple@,
    }
}

/// The sentinel file whose advisory lock guards a cache root.
pub open spec fn spec_lock_path(root: Seq<char>) -> Seq<char> {
    root + "/.sysroot-lock"@
}

/// The marker file holding the stored fingerprint of a cache root.
pub open spec fn spec_marker_path(root: Seq<char>) -> Seq<char> {
    root + "/.fingerprint"@
}

/// Builds the cache root path for `m`.
pub fn cache_root(home: &str, m: &CompilationMode) -> (r: String)
    ensures
        r@ == spec_cache_root(home@, m),
{
    let mut s = home.to_owned();
    match m {
        CompilationMode::Native(t) => {
            s.append("/native/");
            s.append(t.as_str());
        },
        CompilationMode::Cross(t) => {
            s.append("/cross/");
            s.append(t.triple.as_str());
        },
    }
    proof {
        assert(s@ =~= spec_cache_root(home@, m));
    }
    s
}

/// Builds the lock-sentinel path for a cache root.
pub fn lock_path(root: &str) -> (r: String)
    ensures
        r@ == spec_lock_path(root@),
{
    let mut s = root.to_owned();
    s.append("/.sysroot-lock");
    s
}

/// Builds the fingerprint-marker path for a cache root.
pub fn marker_path(root: &str) -> (r: String)
    ensures
        r@ == spec_marker_path(root@),
{
    let mut s = root.to_owned();
    s.append("/.fingerprint");
    s
}

/// Appending the same suffix to different paths keeps them different.
pub proof fn lemma_append_keeps_distinct(a: Seq<char>, b: Seq<char>, suffix: Seq<char>)
    requires
        a != b,
    ensures
        a + suffix != b + suffix,
{
    if a + suffix == b + suffix {
        assert((a + suffix).len() == a.len() + suffix.len());
        assert((b + suffix).len() == b.len() + suffix.len());
        assert(a.len() == b.len());
        assert forall|i: int| 0 <= i < a.len() implies a[i] == b[i] by {
            assert((a + suffix)[i] == a[i]);
            assert((b + suffix)[i] == b[i]);
        }
        assert(a =~= b);
    }
}

/// Mode separation: for the same home directory and the same triple, the
/// Native-mode cache root and the Cross-mode cache root never collide, and
/// neither do their lock sentinels — so a native build never waits on a
/// cross build's lock, nor the reverse.
pub proof fn lemma_mode_separation(home: Seq<char>, native: &CompilationMode, cross: &CompilationMode)
    requires
        native is Native,
        cross is Cross,
    ensures
        spec_cache_root(home, native) != spec_cache_root(home, cross),
        spec_lock_path(spec_cache_root(home, native)) != spec_lock_path(
            spec_cache_root(home, cross),
        ),
{
    let n = spec_cache_root(home, native);
    let c = spec_cache_root(home, cross);
    reveal_strlit("/native/");
    reveal_strlit("/cross/");
    assert(n[home.len() as int + 1] == 'n');
    assert(c[home.len() as int + 1] == 'c');
    assert(n != c);
    lemma_append_keeps_distinct(n, c, "/.sysroot-lock"@);
}

/// True when the cache must be rebuilt: no stored fingerprint, or a stored
/// one that differs in any byte from the freshly computed one. There is no
/// partial invalidation.
pub open spec fn spec_needs_rebuild(stored: Option<u64>, current: u64) -> bool {
    stored != Some(current)
}

/// The rebuild decision, taken while the lock is held.
pub fn needs_rebuild(stored: Option<u64>, current: u64) -> (r: bool)
    ensures
        r == spec_needs_rebuild(stored, current),
{
    match stored {
        Some(f) => f != current,
        None => true,
    }
}

/// The externally visible content of a cache root: the fingerprint marker
/// and the artifact files under its library path.
pub struct CacheContent {
    /// Stored fingerprint, absent until a first successful build.
    pub marker: Option<u64>,
    /// Artifact file names in the cache's library path.
    pub artifacts: Vec<String>,
}

/// What the Sysroot Builder reported for a rebuild attempt.
pub enum BuildOutcome {
    /// The build tool succeeded; these are the artifacts it produced, held
    /// in a temporary location outside the cache.
    Built(Vec<String>),
    /// The build tool exited with this non-zero status.
    Failed(i32),
}

/// What a cache root holds after the critical section: unchanged on any
/// failure, the new artifacts plus the new marker on success.
pub open spec fn spec_promote(
    content: CacheContent,
    outcome: BuildOutcome,
    current: u64,
) -> CacheContent {
    match outcome {
        BuildOutcome::Built(arts) => CacheContent { marker: Some(current), artifacts: arts },
        BuildOutcome::Failed(_) => content,
    }
}

/// Promotion rule of the critical section. A successful build replaces the
/// whole content and writes the new fingerprint, in one step; a failed
/// build changes nothing and surfaces a build error. The caller performs
/// the success case by building into a temporary directory and renaming it
/// into place, so no other process ever observes a half-written cache.
pub fn promote(content: CacheContent, outcome: BuildOutcome, current: u64) -> (r: (
    CacheContent,
    Option<Error>,
))
    ensures
        r.0 == spec_promote(content, outcome, current),
        match outcome {
            BuildOutcome::Built(_) => r.1 is None,
            BuildOutcome::Failed(code) => r.1 matches Some(Error::BuildFailed(c)) && c == code,
        },
{
    match outcome {
        BuildOutcome::Built(arts) => (CacheContent { marker: Some(current), artifacts: arts }, None),
        BuildOutcome::Failed(code) => (content, Some(Error::BuildFailed(code))),
    }
}

/// Cache promotion atomicity: whatever the cache held before, a failed
/// build leaves the marker and the artifact tree exactly as they were.
pub proof fn lemma_failed_build_preserves_cache(content: CacheContent, code: i32, current: u64)
    ensures
        spec_promote(content, BuildOutcome::Failed(code), current) == content,
{
}

/// Idempotence: immediately after a successful rebuild the stored
/// fingerprint equals the computed one, so a second invocation with
/// unchanged inputs decides against rebuilding and proceeds straight to
/// delegation.
pub proof fn lemma_rebuild_idempotent(
    content: CacheContent,
    arts: Vec<String>,
    current: u64,
)
    ensures
        !spec_needs_rebuild(
            spec_promote(content, BuildOutcome::Built(arts), current).marker,
            current,
        ),
{
}

/// The two previous laws across separate processes: one invocation
/// rebuilds successfully and promotes; a second invocation whose inputs
/// carry the same values — though constructed in another process —
/// computes the same fingerprint and therefore performs no rebuild work.
pub proof fn lemma_second_invocation_skips_rebuild(
    content: CacheContent,
    arts: Vec<String>,
    m1: &CompilationMode,
    flags1: Seq<char>,
    cfg1: CrateConfig,
    meta1: ToolchainMeta,
    m2: &CompilationMode,
    flags2: Seq<char>,
    cfg2: CrateConfig,
    meta2: ToolchainMeta,
)
    requires
        mode_like(m1, m2),
        flags1 == flags2,
        config_like(cfg1, cfg2),
        meta_like(meta1, meta2),
    ensures
        !spec_needs_rebuild(
            spec_promote(
                content,
                BuildOutcome::Built(arts),
                spec_fingerprint(m1, flags1, cfg1, meta1),
            ).marker,
            spec_fingerprint(m2, flags2, cfg2, meta2),
        ),
{
    lemma_fingerprint_deterministic(m1, flags1, cfg1, meta1, m2, flags2, cfg2, meta2);
}

} // verus!
