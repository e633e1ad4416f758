//! Sysroot Builder support: the shape of the synthesized sysroot and the
//! ephemeral package that drives the build tool.
//!
//! A rebuild materializes a throwaway package whose dependency list is
//! exactly the requested standard-library crates, compiles it against the
//! target, and copies the artifacts into the cache's library path, which
//! mirrors the toolchain's own `lib/rustlib/<triple>/lib` convention.

use vstd::prelude::*;

use crate::config::Dependency;
use vstd::string::StringExecFns;

verus! {

/// The library path inside a cache root where artifacts for `triple` live.
pub open spec fn spec_lib_path(root: Seq<char>, triple: Seq<char>) -> Seq<char> {
    root + "/lib/rustlib/"@ + triple + "/lib"@
}

/// Builds the artifact directory path for `triple` under `root`.
pub fn lib_path(root: &str, triple: &str) -> (r: String)
    ensures
        r@ == spec_lib_path(root@, triple@),
{
    let mut s = root.to_owned();
    s.append("/lib/rustlib/");
    s.append(triple);
    s.append("/lib");
    proof {
        assert(s@ =~= spec_lib_path(root@, triple@));
    }
    s
}

/// A feature list rendered as quoted, comma-terminated entries.
pub open spec fn quoted_list(fs: Seq<String>) -> Seq<char>
    decreases fs.len(),
{
    if fs.len() == 0 {
        Seq::<char>::empty()
    } else {
        quoted_list(fs.drop_last()) + "\""@ + fs.last()@ + "\","@
    }
}

/// The manifest section declaring one standard-library dependency as a
/// path dependency into the located source tree.
pub open spec fn dep_section(src: Seq<char>, d: Dependency) -> Seq<char> {
    "\n[dependencies."@ + d.name@ + "]\npath = \""@ + src + "/"@ + d.name@ + "\"\nfeatures = ["@
        + quoted_list(d.features@) + "]\n"@
}

/// All dependency sections, in the order the configuration lists them.
pub open spec fn dep_sections(src: Seq<char>, ds: Seq<Dependency>) -> Seq<char>
    decreases ds.len(),
{
    if ds.len() == 0 {
        Seq::<char>::empty()
    } else {
        dep_sections(src, ds.drop_last()) + dep_section(src, ds.last())
    }
}

/// The full manifest of the ephemeral package: a fixed header, then one
/// section per requested crate.
pub open spec fn spec_stub_manifest(src: Seq<char>, ds: Seq<Dependency>) -> Seq<char> {
    "[package]\nname = \"sysroot\"\nversion = \"0.0.0\"\nedition = \"2021\"\n\n[lib]\nname = \"sysroot\"\npath = \"lib.rs\"\n"@
        + dep_sections(src, ds)
}

/// Renders the manifest of the ephemeral package whose only purpose is to
/// depend on each requested standard-library crate, sourced from `src`.
pub fn stub_manifest(src: &str, deps: &Vec<Dependency>) -> (r: String)
    ensures
        r@ == spec_stub_manifest(src@, deps@),
{
    let mut s =
        "[package]\nname = \"sysroot\"\nversion = \"0.0.0\"\nedition = \"2021\"\n\n[lib]\nname = \"sysroot\"\npath = \"lib.rs\"\n".to_owned();
    let n = deps.len();
    let mut i: usize = 0;
    while i < n
        invariant
            n == deps@.len(),
            i <= n,
            s@ == spec_stub_manifest(src@, deps@.subrange(0, i as int)),
        decreases n - i,
    {
        let d = &deps[i];
        let ghost before = s@;
        s.append("\n[dependencies.");
        s.append(d.name.as_str());
        s.append("]\npath = \"");
        s.append(src);
        s.append("/");
        s.append(d.name.as_str());
        s.append("\"\nfeatures = [");
        let nf = d.features.len();
        let mut k: usize = 0;
        while k < nf
            invariant
                nf == d.features@.len(),
                s@ == before + "\n[dependencies."@ + d.name@ + "]\npath = \""@ + src@ + "/"@
                    + d.name@ + "\"\nfeatures = ["@ + quoted_list(d.features@.subrange(0, k as int)),
                k <= nf,
            decreases nf - k,
        {
            s.append("\"");
            s.append(d.features[k].as_str());
            s.append("\",");
            proof {
                let fpre = d.features@.subrange(0, k + 1 as int);
                assert(fpre.drop_last() =~= d.features@.subrange(0, k as int));
                assert(fpre.last() == d.features@[k as int]);
                assert(s@ =~= before + "\n[dependencies."@ + d.name@ + "]\npath = \""@ + src@ + "/"@
                    + d.name@ + "\"\nfeatures = ["@ + quoted_list(fpre));
            }
            k = k + 1;
        }
        s.append("]\n");
        proof {
            assert(d.features@.subrange(0, nf as int) =~= d.features@);
            let dpre = deps@.subrange(0, i + 1 as int);
            assert(dpre.drop_last() =~= deps@.subrange(0, i as int));
            assert(dpre.last() == deps@[i as int]);
            assert(s@ =~= spec_stub_manifest(src@, dpre));
        }
        i = i + 1;
    }
    proof {
        assert(deps@.subrange(0, n as int) =~= deps@);
    }
    s
}

/// The compiler-flag environment with the cache's sysroot appended: the
/// user's own flags pass through unmodified, then `--sysroot` points every
/// compiler invocation at the cache root.
pub open spec fn spec_with_sysroot(flags: Seq<char>, root: Seq<char>) -> Seq<char> {
    if flags.len() == 0 {
        "--sysroot="@ + root
    } else {
        flags + " --sysroot="@ + root
    }
}

/// Appends the sysroot override to the flag environment.
pub fn with_sysroot(flags: &str, root: &str) -> (r: String)
    ensures
        r@ == spec_with_sysroot(flags@, root@),
{
    if flags.is_empty() {
        let mut s = "--sysroot=".to_owned();
        s.append(root);
        s
    } else {
        let mut s = flags.to_owned();
        s.append(" --sysroot=");
        s.append(root);
        proof {
            assert(s@ =~= spec_with_sysroot(flags@, root@));
        }
        s
    }
}

} // verus!
