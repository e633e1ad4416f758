//! The engine's top-level decisions.
//!
//! One invocation probes the toolchain, reads the project configuration,
//! and then decides: delegate untouched (unsupported channel, or no target
//! requested), fail with a configuration error, or consult a sysroot cache
//! — in which case every path, the fingerprint, the ephemeral manifest and
//! the rewritten flag environment are fixed here, and the caller only has
//! to lock, compare, build and delegate.

use vstd::prelude::*;

use crate::cache::cache_root;
use crate::cache::lock_path;
use crate::cache::marker_path;
use crate::cache::spec_cache_root;
use crate::cache::spec_lock_path;
use crate::cache::spec_marker_path;
use crate::config::CrateConfig;
use crate::errors::Error;
use crate::fingerprint::compute_fingerprint;
use crate::fingerprint::spec_fingerprint;
use crate::json::json_document;
use crate::rustc::condensed;
use crate::rustc::resolve_src;
use crate::rustc::Channel;
use crate::rustc::SrcResolution;
use crate::rustc::Target;
use crate::rustc::ToolchainMeta;
use crate::sysroot::lib_path;
use crate::sysroot::spec_lib_path;
use crate::sysroot::spec_stub_manifest;
use crate::sysroot::spec_with_sysroot;
use crate::sysroot::stub_manifest;
use crate::sysroot::with_sysroot;
use crate::CompilationMode;
use vstd::string::StringExecFns;

verus! {

/// The tool's home directory: the configured custom cache root, or the
/// default below the workspace's target directory.
pub open spec fn spec_home(workspace_root: Seq<char>, cfg: CrateConfig) -> Seq<char> {
    match cfg.sysroot {
        Option::Some(p) => p@,
        Option::None => workspace_root + "/target/sysroot"@,
    }
}

/// Resolves the home directory for this invocation.
pub fn home(workspace_root: &str, cfg: &CrateConfig) -> (r: String)
    ensures
        r@ == spec_home(workspace_root@, *cfg),
{
    match &cfg.sysroot {
        Some(p) => p.clone(),
        None => {
            let mut s = workspace_root.to_owned();
            s.append("/target/sysroot");
            s
        },
    }
}

/// Compilation Mode resolution. `explicit` is the requested target
/// identifier, from the CLI flag or else from the configuration: absent
/// means nothing to do (plain delegation); equal to the host means a
/// Native rebuild of the host's own standard library; anything else is a
/// Cross target, resolved as a builtin name or a custom spec file.
pub fn resolve_mode(
    explicit: Option<String>,
    host: &String,
    is_builtin: bool,
    spec_contents: Option<String>,
) -> (r: Result<Option<CompilationMode>, Error>)
    ensures
        match r {
            Ok(None) => explicit is None,
            Ok(Some(CompilationMode::Native(h))) => explicit matches Some(t) && t@ == host@ && h@
                == host@,
            Ok(Some(CompilationMode::Cross(tt))) => explicit matches Some(t) && t@ != host@
                && tt.wf() && tt.orig@ == t@ && (is_builtin ==> tt.triple@ == t@ && tt.spec_doc
                is None) && (!is_builtin ==> tt.spec_doc == spec_contents && tt.triple@
                == condensed(t@)),
            Err(e) => explicit matches Some(t) && t@ != host@ && !is_builtin && match e {
                Error::SpecNotFound(p) => spec_contents is None && p@ == t@,
                Error::SpecParse(p) => (spec_contents matches Some(c) && !json_document(c@)) && p@
                    == t@,
                _ => false,
            },
        },
{
    match explicit {
        None => Ok(None),
        Some(t) => {
            if t == *host {
                Ok(Some(CompilationMode::Native(host.clone())))
            } else {
                match Target::new(t.as_str(), is_builtin, spec_contents) {
                    Ok(tt) => Ok(Some(CompilationMode::Cross(tt))),
                    Err(e) => Err(e),
                }
            }
        },
    }
}

/// The requested target identifier: the CLI flag wins, else the
/// configuration's default target.
pub open spec fn explicit_target(target_flag: Option<String>, cfg: CrateConfig) -> Option<String> {
    if target_flag is Some {
        target_flag
    } else {
        cfg.target
    }
}

/// What this invocation must do.
pub enum SessionPlan {
    /// Delegate to the ordinary build tool with the flag environment
    /// untouched; `warn_unsupported` asks for the unsupported-channel
    /// warning first.
    Delegate { warn_unsupported: bool },
    /// Consult (and possibly rebuild) the sysroot cache described by the
    /// fields, then delegate with `flags`.
    UseCache {
        cmode: CompilationMode,
        /// The located standard-library source tree.
        src: String,
        cache_root: String,
        lock_path: String,
        marker_path: String,
        /// Where the compiled artifacts belong inside the cache.
        lib_dir: String,
        current_fingerprint: u64,
        /// Manifest of the ephemeral package to build.
        manifest: String,
        /// The flag environment with `--sysroot` pointing at the cache.
        flags: String,
    },
}

/// Decides the whole session from the probed facts. Stable/Beta channels
/// are detected up front and delegate with a warning, before any other
/// check; then the standard-library source is resolved; then the mode; a
/// resolved mode fixes the cache paths, the fingerprint, the ephemeral
/// manifest and the rewritten flag environment.
pub fn plan_session(
    meta: &ToolchainMeta,
    env_src_override: Option<String>,
    bundled_src: Option<String>,
    target_flag: Option<String>,
    target_is_builtin: bool,
    spec_contents: Option<String>,
    cfg: &CrateConfig,
    workspace_root: &str,
    rustflags: &str,
) -> (r: Result<SessionPlan, Error>)
    ensures
        match r {
            Ok(SessionPlan::Delegate { warn_unsupported }) => (warn_unsupported <==> (meta.channel
                == Channel::Stable || meta.channel == Channel::Beta)) && (!warn_unsupported
                ==> explicit_target(target_flag, *cfg) is None && !(meta.channel == Channel::Dev
                && env_src_override is None) && !(meta.channel == Channel::Nightly
                && env_src_override is None && bundled_src is None)),
            Ok(
                SessionPlan::UseCache {
                    cmode,
                    src,
                    cache_root,
                    lock_path,
                    marker_path,
                    lib_dir,
                    current_fingerprint,
                    manifest,
                    flags,
                },
            ) => ({
                let explicit = explicit_target(target_flag, *cfg);
                let home_dir = spec_home(workspace_root@, *cfg);
                &&& (meta.channel == Channel::Dev || meta.channel == Channel::Nightly)
                &&& (if env_src_override is Some {
                    src@ == env_src_override->Some_0@
                } else {
                    meta.channel == Channel::Nightly && src@ == bundled_src->Some_0@
                })
                &&& match cmode {
                    CompilationMode::Native(h) => explicit matches Some(t) && t@ == meta.host@
                        && h@ == meta.host@,
                    CompilationMode::Cross(tt) => explicit matches Some(t) && t@ != meta.host@
                        && tt.wf() && tt.orig@ == t@ && (target_is_builtin ==> tt.triple@ == t@
                        && tt.spec_doc is None) && (!target_is_builtin ==> tt.spec_doc
                        == spec_contents && tt.triple@ == condensed(t@)),
                }
                &&& cache_root@ == spec_cache_root(home_dir, &cmode)
                &&& lock_path@ == spec_lock_path(cache_root@)
                &&& marker_path@ == spec_marker_path(cache_root@)
                &&& lib_dir@ == spec_lib_path(cache_root@, cmode.spec_triple())
                &&& current_fingerprint == spec_fingerprint(&cmode, rustflags@, *cfg, *meta)
                &&& manifest@ == spec_stub_manifest(src@, cfg.dependencies@)
                &&& flags@ == spec_with_sysroot(rustflags@, cache_root@)
            }),
            Err(e) => (meta.channel == Channel::Dev || meta.channel == Channel::Nightly) && match e {
                Error::MissingSourceOverride => meta.channel == Channel::Dev && env_src_override
                    is None,
                Error::BundledSourceMissing => meta.channel == Channel::Nightly && env_src_override
                    is None && bundled_src is None,
                Error::SpecNotFound(p) => explicit_target(target_flag, *cfg) matches Some(t) && t@
                    != meta.host@ && !target_is_builtin && spec_contents is None && p@ == t@,
                Error::SpecParse(p) => explicit_target(target_flag, *cfg) matches Some(t) && t@
                    != meta.host@ && !target_is_builtin && (spec_contents matches Some(c)
                    && !json_document(c@)) && p@ == t@,
                _ => false,
            },
        },
{
    let src = match resolve_src(meta.channel, env_src_override, bundled_src) {
        Ok(SrcResolution::Unsupported) => {
            return Ok(SessionPlan::Delegate { warn_unsupported: true });
        },
        Ok(SrcResolution::Tree(p)) => p,
        Err(e) => {
            return Err(e);
        },
    };
    let explicit = match target_flag {
        Some(t) => Some(t),
        None => match &cfg.target {
            Some(t) => Some(t.clone()),
            None => None,
        },
    };
    let cmode = match resolve_mode(explicit, &meta.host, target_is_builtin, spec_contents) {
        Ok(Some(m)) => m,
        Ok(None) => {
            return Ok(SessionPlan::Delegate { warn_unsupported: false });
        },
        Err(e) => {
            return Err(e);
        },
    };
    let home_dir = home(workspace_root, cfg);
    let root = cache_root(home_dir.as_str(), &cmode);
    let lock = lock_path(root.as_str());
    let marker = marker_path(root.as_str());
    let lib = lib_path(root.as_str(), cmode.triple().as_str());
    let fp = compute_fingerprint(&cmode, rustflags, cfg, meta);
    let manifest = stub_manifest(src.as_str(), &cfg.dependencies);
    let flags = with_sysroot(rustflags, root.as_str());
    Ok(
        SessionPlan::UseCache {
            cmode,
            src,
            cache_root: root,
            lock_path: lock,
            marker_path: marker,
            lib_dir: lib,
            current_fingerprint: fp,
            manifest,
            flags,
        },
    )
}

/// Exit-status forwarding of the Delegate Invoker: the child's exit code
/// verbatim, or 1 when the child was terminated without a code.
pub fn forward_exit_code(code: Option<i32>) -> (r: i32)
    ensures
        code matches Some(c) ==> r == c,
        code is None ==> r == 1,
{
    match code {
        Some(c) => c,
        None => 1,
    }
}

} // verus!
