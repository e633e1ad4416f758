//! Per-project configuration: which standard-library crates go into the
//! synthesized sysroot, plus optional overrides for the cache root and the
//! default cross target. Parsed once per invocation from the project's
//! manifest metadata and immutable afterwards.

use vstd::prelude::*;

use crate::fingerprint::FnvHasher;
use vstd::utf8::encode_utf8;

verus! {

/// One standard-library crate to compile, with its feature flags.
pub struct Dependency {
    pub name: String,
    pub features: Vec<String>,
}

/// The resolved configuration block.
pub struct CrateConfig {
    /// Custom cache root, overriding the default below the workspace's
    /// target directory.
    pub sysroot: Option<String>,
    /// Default cross-target identifier, used when no target flag is given.
    pub target: Option<String>,
    /// The standard-library crates to build into the sysroot.
    pub dependencies: Vec<Dependency>,
}

impl CrateConfig {
    /// The configuration used when the project supplies none: build core,
    /// alloc and std with no extra features, no overrides.
    pub fn new_default() -> (r: CrateConfig)
        ensures
            r.sysroot is None,
            r.target is None,
            r.dependencies@.len() == 3,
            r.dependencies@[0].name@ == "core"@ && r.dependencies@[0].features@.len() == 0,
            r.dependencies@[1].name@ == "alloc"@ && r.dependencies@[1].features@.len() == 0,
            r.dependencies@[2].name@ == "std"@ && r.dependencies@[2].features@.len() == 0,
    {
        let mut deps: Vec<Dependency> = Vec::new();
        deps.push(Dependency { name: "core".to_owned(), features: Vec::new() });
        deps.push(Dependency { name: "alloc".to_owned(), features: Vec::new() });
        deps.push(Dependency { name: "std".to_owned(), features: Vec::new() });
        CrateConfig { sysroot: None, target: None, dependencies: deps }
    }
}

/// Byte encoding of a feature list, one feature per `0xfc`-terminated run.
/// (`0xfc`..`0xff` never occur inside UTF-8 text, so the runs cannot bleed
/// into each other.)
pub open spec fn features_bytes(fs: Seq<String>) -> Seq<u8>
    decreases fs.len(),
{
    if fs.len() == 0 {
        Seq::<u8>::empty()
    } else {
        features_bytes(fs.drop_last()) + encode_utf8(fs.last()@) + seq![0xfcu8]
    }
}

/// Byte encoding of one dependency: name, then its features.
pub open spec fn dep_bytes(d: Dependency) -> Seq<u8> {
    encode_utf8(d.name@) + seq![0xfdu8] + features_bytes(d.features@) + seq![0xfeu8]
}

/// Byte encoding of the dependency list.
pub open spec fn deps_bytes(ds: Seq<Dependency>) -> Seq<u8>
    decreases ds.len(),
{
    if ds.len() == 0 {
        Seq::<u8>::empty()
    } else {
        deps_bytes(ds.drop_last()) + dep_bytes(ds.last())
    }
}

/// Everything in the configuration that affects the compiled output: the
/// crate list with features. (The cache-root and default-target overrides
/// change where things go, not what is built.)
pub open spec fn config_bytes(c: CrateConfig) -> Seq<u8> {
    deps_bytes(c.dependencies@)
}

/// Two dependencies carry the same name and feature texts.
pub open spec fn dep_like(a: Dependency, b: Dependency) -> bool {
    &&& a.name@ == b.name@
    &&& a.features@.len() == b.features@.len()
    &&& forall|i: int| 0 <= i < a.features@.len() ==> a.features@[i]@ == b.features@[i]@
}

/// Two configurations request the same crates with the same features.
pub open spec fn config_like(a: CrateConfig, b: CrateConfig) -> bool {
    &&& a.dependencies@.len() == b.dependencies@.len()
    &&& forall|i: int|
        0 <= i < a.dependencies@.len() ==> dep_like(a.dependencies@[i], b.dependencies@[i])
}

/// Feature lists with equal texts encode to equal bytes.
pub proof fn lemma_features_bytes_like(a: Seq<String>, b: Seq<String>)
    requires
        a.len() == b.len(),
        forall|i: int| 0 <= i < a.len() ==> a[i]@ == b[i]@,
    ensures
        features_bytes(a) == features_bytes(b),
    decreases a.len(),
{
    if a.len() > 0 {
        assert(forall|i: int| 0 <= i < a.drop_last().len() ==> a.drop_last()[i]@ == b.drop_last()[i]@);
        lemma_features_bytes_like(a.drop_last(), b.drop_last());
        assert(a.last()@ == b.last()@);
    }
}

/// Dependency lists that are alike encode to equal bytes.
pub proof fn lemma_deps_bytes_like(a: Seq<Dependency>, b: Seq<Dependency>)
    requires
        a.len() == b.len(),
        forall|i: int| 0 <= i < a.len() ==> dep_like(a[i], b[i]),
    ensures
        deps_bytes(a) == deps_bytes(b),
    decreases a.len(),
{
    if a.len() > 0 {
        assert(forall|i: int|
            0 <= i < a.drop_last().len() ==> dep_like(a.drop_last()[i], b.drop_last()[i]));
        lemma_deps_bytes_like(a.drop_last(), b.drop_last());
        assert(dep_like(a.last(), b.last()));
        lemma_features_bytes_like(a.last().features@, b.last().features@);
    }
}

impl CrateConfig {
    /// Feeds the configuration's output-affecting content to the hasher.
    pub fn hash(&self, hasher: &mut FnvHasher)
        requires
            old(hasher).wf(),
        ensures
            final(hasher).wf(),
            final(hasher).bytes() == old(hasher).bytes() + config_bytes(*self),
    {
        let n = self.dependencies.len();
        let mut i: usize = 0;
        while i < n
            invariant
                n == self.dependencies@.len(),
                i <= n,
                hasher.wf(),
                hasher.bytes() == old(hasher).bytes() + deps_bytes(
                    self.dependencies@.subrange(0, i as int),
                ),
            decreases n - i,
        {
            let d = &self.dependencies[i];
            let ghost before = hasher.bytes();
            hasher.write_str(d.name.as_str());
            hasher.write_u8(0xfd);
            let nf = d.features.len();
            let mut k: usize = 0;
            while k < nf
                invariant
                    nf == d.features@.len(),
                    k <= nf,
                    hasher.wf(),
                    hasher.bytes() == before + encode_utf8(d.name@) + seq![0xfdu8]
                        + features_bytes(d.features@.subrange(0, k as int)),
                decreases nf - k,
            {
                hasher.write_str(d.features[k].as_str());
                hasher.write_u8(0xfc);
                proof {
                    let fpre = d.features@.subrange(0, k + 1 as int);
                    assert(fpre.drop_last() =~= d.features@.subrange(0, k as int));
                    assert(fpre.last() == d.features@[k as int]);
                    assert(hasher.bytes() =~= before + encode_utf8(d.name@) + seq![0xfdu8]
                        + features_bytes(fpre));
                }
                k = k + 1;
            }
            hasher.write_u8(0xfe);
            proof {
                assert(d.features@.subrange(0, nf as int) =~= d.features@);
                let dpre = self.dependencies@.subrange(0, i + 1 as int);
                assert(dpre.drop_last() =~= self.dependencies@.subrange(0, i as int));
                assert(dpre.last() == self.dependencies@[i as int]);
                assert(hasher.bytes() =~= old(hasher).bytes() + deps_bytes(dpre));
            }
            i = i + 1;
        }
        proof {
            assert(self.dependencies@.subrange(0, n as int) =~= self.dependencies@);
        }
    }
}

} // verus!
