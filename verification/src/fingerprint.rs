//! Fingerprint engine.
//!
//! A sysroot cache entry is valid exactly when the fingerprint stored in its
//! marker file equals the fingerprint freshly computed from everything that
//! affects the build output. The hash must be deterministic across separate
//! process invocations, so it is computed by a fully specified FNV-1a fold
//! over an explicit byte encoding of the inputs — no memory addresses,
//! timestamps or per-process seeds are involved.

use vstd::prelude::*;

use crate::config::config_bytes;
use crate::config::config_like;
use crate::config::lemma_deps_bytes_like;
use crate::config::CrateConfig;
use crate::rustc::meta_bytes;
use crate::rustc::meta_like;
use crate::rustc::ToolchainMeta;
use crate::lemma_mode_bytes_like;
use crate::mode_bytes;
use crate::mode_like;
use crate::CompilationMode;
use vstd::utf8::encode_utf8;

verus! {

/// FNV-1a 64-bit offset basis.
pub const FNV_OFFSET: u64 = 0xcbf29ce484222325;

/// FNV-1a 64-bit prime.
pub const FNV_PRIME: u64 = 0x100000001b3;

/// One FNV-1a step: xor the byte in, then multiply by the prime mod 2^64.
pub open spec fn fnv_step(h: u64, b: u8) -> u64 {
    vstd::wrapping::u64_specs::wrapping_mul(h ^ (b as u64), FNV_PRIME)
}

/// Folds `fnv_step` over `bs`, starting from `h`.
pub open spec fn fnv_acc(h: u64, bs: Seq<u8>) -> u64
    decreases bs.len(),
{
    if bs.len() == 0 {
        h
    } else {
        fnv_acc(fnv_step(h, bs[0]), bs.drop_first())
    }
}

/// The FNV-1a hash of a byte sequence.
pub open spec fn fnv(bs: Seq<u8>) -> u64 {
    fnv_acc(FNV_OFFSET, bs)
}

/// Appending one byte to the input advances the fold by one step.
pub proof fn lemma_fnv_acc_push(h: u64, bs: Seq<u8>, b: u8)
    ensures
        fnv_acc(h, bs.push(b)) == fnv_step(fnv_acc(h, bs), b),
    decreases bs.len(),
{
    if bs.len() == 0 {
        assert(bs.push(b)[0] == b);
        assert(bs.push(b).drop_first() =~= Seq::<u8>::empty());
        assert(fnv_acc(fnv_step(h, b), Seq::<u8>::empty()) == fnv_step(h, b));
        assert(fnv_acc(h, bs) == h);
    } else {
        assert(bs.push(b)[0] == bs[0]);
        assert(bs.push(b).drop_first() =~= bs.drop_first().push(b));
        lemma_fnv_acc_push(fnv_step(h, bs[0]), bs.drop_first(), b);
        assert(fnv_acc(h, bs.push(b)) == fnv_acc(
            fnv_step(h, bs[0]),
            bs.drop_first().push(b),
        ));
        assert(fnv_acc(h, bs) == fnv_acc(fnv_step(h, bs[0]), bs.drop_first()));
    }
}

/// An incremental FNV-1a hasher over bytes. The ghost `written` field
/// records everything fed in, so `finish` can promise exactly which
/// sequence the returned value is the hash of.
pub struct FnvHasher {
    state: u64,
    written: Ghost<Seq<u8>>,
}

impl FnvHasher {
    /// The bytes fed to the hasher so far.
    pub closed spec fn bytes(&self) -> Seq<u8> {
        self.written@
    }

    /// The running state is the fold of the bytes written so far.
    pub closed spec fn wf(&self) -> bool {
        self.state == fnv(self.written@)
    }

    pub fn new() -> (r: FnvHasher)
        ensures
            r.wf(),
            r.bytes() == Seq::<u8>::empty(),
    {
        FnvHasher { state: FNV_OFFSET, written: Ghost(Seq::empty()) }
    }

    pub fn write_u8(&mut self, b: u8)
        requires
            old(self).wf(),
        ensures
            final(self).wf(),
            final(self).bytes() == old(self).bytes().push(b),
    {
        proof {
            lemma_fnv_acc_push(FNV_OFFSET, self.written@, b);
        }
        self.state = (self.state ^ (b as u64)).wrapping_mul(FNV_PRIME);
        self.written = Ghost(self.written@.push(b));
    }

    pub fn write(&mut self, data: &[u8])
        requires
            old(self).wf(),
        ensures
            final(self).wf(),
            final(self).bytes() == old(self).bytes() + data@,
    {
        let n = data.len();
        let mut i: usize = 0;
        while i < n
            invariant
                n == data@.len(),
                i <= n,
                self.wf(),
                self.bytes() == old(self).bytes() + data@.subrange(0, i as int),
            decreases n - i,
        {
            let b = data[i];
            self.write_u8(b);
            proof {
                assert(old(self).bytes() + data@.subrange(0, i + 1 as int) =~= (old(
                    self,
                ).bytes() + data@.subrange(0, i as int)).push(data@[i as int]));
            }
            i = i + 1;
        }
        proof {
            assert(data@.subrange(0, n as int) =~= data@);
        }
    }

    /// Feeds the UTF-8 bytes of `s`: afterwards the written sequence has
    /// grown by `encode_utf8(s@)`.
    pub fn write_str(&mut self, s: &str)
        requires
            old(self).wf(),
        ensures
            final(self).wf(),
            final(self).bytes() == old(self).bytes() + vstd::utf8::encode_utf8(s@),
    {
        self.write(s.as_bytes());
    }

    /// The FNV-1a hash of everything written so far.
    pub fn finish(&self) -> (r: u64)
        requires
            self.wf(),
        ensures
            r == fnv(self.bytes()),
    {
        self.state
    }
}

/// The canonical encoding of everything that affects sysroot build output,
/// in a fixed order: compilation mode, compiler-flag environment, crate
/// configuration, toolchain identity. `0xff` never occurs in UTF-8 text,
/// so the separators cannot be forged from inside a field.
pub open spec fn fingerprint_bytes(
    m: &CompilationMode,
    flags: Seq<char>,
    cfg: CrateConfig,
    meta: ToolchainMeta,
) -> Seq<u8> {
    mode_bytes(m) + seq![0xffu8] + encode_utf8(flags) + seq![0xffu8] + config_bytes(cfg)
        + seq![0xffu8] + meta_bytes(meta)
}

/// The fingerprint stored in (and compared against) a cache directory's
/// marker file.
pub open spec fn spec_fingerprint(
    m: &CompilationMode,
    flags: Seq<char>,
    cfg: CrateConfig,
    meta: ToolchainMeta,
) -> u64 {
    fnv(fingerprint_bytes(m, flags, cfg, meta))
}

/// Computes the fingerprint of this invocation's inputs.
pub fn compute_fingerprint(
    m: &CompilationMode,
    rustflags: &str,
    cfg: &CrateConfig,
    meta: &ToolchainMeta,
) -> (r: u64)
    ensures
        r == spec_fingerprint(m, rustflags@, *cfg, *meta),
{
    let mut h = FnvHasher::new();
    m.hash(&mut h);
    h.write_u8(0xff);
    h.write_str(rustflags);
    h.write_u8(0xff);
    cfg.hash(&mut h);
    h.write_u8(0xff);
    meta.hash(&mut h);
    proof {
        assert(h.bytes() =~= fingerprint_bytes(m, rustflags@, *cfg, *meta));
    }
    h.finish()
}

/// Fingerprint determinism: two invocations — in separate processes, on
/// separate machines — whose compilation mode, compiler-flag environment,
/// crate configuration and toolchain identity carry the same values
/// compute byte-identical fingerprints. The hash is a pure fold over an
/// explicit encoding of those values and of nothing else.
pub proof fn lemma_fingerprint_deterministic(
    m1: &CompilationMode,
    flags1: Seq<char>,
    cfg1: CrateConfig,
    meta1: ToolchainMeta,
    m2: &CompilationMode,
    flags2: Seq<char>,
    cfg2: CrateConfig,
    meta2: ToolchainMeta,
)
    requires
        mode_like(m1, m2),
        flags1 == flags2,
        config_like(cfg1, cfg2),
        meta_like(meta1, meta2),
    ensures
        spec_fingerprint(m1, flags1, cfg1, meta1) == spec_fingerprint(m2, flags2, cfg2, meta2),
{
    lemma_mode_bytes_like(m1, m2);
    lemma_deps_bytes_like(cfg1.dependencies@, cfg2.dependencies@);
}

} // verus!
