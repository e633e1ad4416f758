//! Target descriptor resolution and toolchain facts.
//!
//! A target identifier is either a toolchain-builtin platform name, used
//! verbatim, or a path to a custom platform-description file. For cache-path
//! purposes the identifier is condensed: directory components and a `.json`
//! extension are stripped. Two spec files with the same base name in
//! different directories therefore collide in the cache; this mirrors the
//! established condensing rule and is kept as a known limitation.

use vstd::prelude::*;

use crate::errors::Error;
use crate::fingerprint::FnvHasher;
use crate::json::json_document;
use crate::json::json_parses;
use vstd::string::StrSliceExecFns;
use vstd::utf8::encode_utf8;

verus! {

/// Release channel of the active compiler.
#[derive(Clone, Copy, PartialEq, Eq, Structural, Debug)]
pub enum Channel {
    Dev,
    Nightly,
    Beta,
    Stable,
}

/// Facts about the active toolchain, probed once per invocation.
pub struct ToolchainMeta {
    /// Full version string of the compiler.
    pub version: String,
    pub channel: Channel,
    /// The triple of the platform the compiler itself runs on.
    pub host: String,
}

/// Tag byte of a release channel in the fingerprint encoding.
pub open spec fn channel_byte(c: Channel) -> u8 {
    match c {
        Channel::Dev => 0,
        Channel::Nightly => 1,
        Channel::Beta => 2,
        Channel::Stable => 3,
    }
}

/// The hashable identity of the toolchain: version text, channel, host.
pub open spec fn meta_bytes(m: ToolchainMeta) -> Seq<u8> {
    encode_utf8(m.version@) + seq![0xffu8, channel_byte(m.channel)] + encode_utf8(m.host@)
}

/// Two probed toolchains carry the same facts.
pub open spec fn meta_like(a: ToolchainMeta, b: ToolchainMeta) -> bool {
    a.version@ == b.version@ && a.channel == b.channel && a.host@ == b.host@
}

impl ToolchainMeta {
    /// Feeds the toolchain's hashable identity to the hasher.
    pub fn hash(&self, hasher: &mut FnvHasher)
        requires
            old(hasher).wf(),
        ensures
            final(hasher).wf(),
            final(hasher).bytes() == old(hasher).bytes() + meta_bytes(*self),
    {
        hasher.write_str(self.version.as_str());
        hasher.write_u8(0xff);
        let tag: u8 = match self.channel {
            Channel::Dev => 0,
            Channel::Nightly => 1,
            Channel::Beta => 2,
            Channel::Stable => 3,
        };
        hasher.write_u8(tag);
        hasher.write_str(self.host.as_str());
        proof {
            assert(hasher.bytes() =~= old(hasher).bytes() + meta_bytes(*self));
        }
    }
}

/// A path separator, on either convention.
pub open spec fn is_sep(c: char) -> bool {
    c == '/' || c == '\\'
}

/// Index just after the last path separator of `s` (0 when there is none).
pub open spec fn base_start(s: Seq<char>) -> int
    decreases s.len(),
{
    if s.len() == 0 {
        0
    } else if is_sep(s[s.len() - 1]) {
        s.len() as int
    } else {
        base_start(s.drop_last())
    }
}

/// Any cut at or after which nothing is a separator, and whose preceding
/// character (if any) is one, is exactly `base_start`.
pub proof fn lemma_base_start_unique(s: Seq<char>, i: int)
    requires
        0 <= i <= s.len(),
        forall|j: int| i <= j < s.len() ==> !is_sep(s[j]),
        i > 0 ==> is_sep(s[i - 1]),
    ensures
        base_start(s) == i,
    decreases s.len(),
{
    if s.len() == 0 {
    } else if is_sep(s[s.len() - 1]) {
        assert(i == s.len());
    } else {
        assert(i < s.len());
        assert forall|j: int| i <= j < s.drop_last().len() implies !is_sep(s.drop_last()[j]) by {
            assert(s.drop_last()[j] == s[j]);
        }
        if i > 0 {
            assert(s.drop_last()[i - 1] == s[i - 1]);
        }
        lemma_base_start_unique(s.drop_last(), i);
    }
}

/// Whether `s` ends in a `.json` extension.
pub open spec fn has_json_ext(s: Seq<char>) -> bool {
    &&& s.len() >= 5
    &&& s[s.len() - 5] == '.'
    &&& s[s.len() - 4] == 'j'
    &&& s[s.len() - 3] == 's'
    &&& s[s.len() - 2] == 'o'
    &&& s[s.len() - 1] == 'n'
}

/// `s` without a trailing `.json` extension, if it has one.
pub open spec fn strip_json_ext(s: Seq<char>) -> Seq<char> {
    if has_json_ext(s) {
        s.subrange(0, s.len() - 5)
    } else {
        s
    }
}

/// The condensed form of a target identifier: directory components and a
/// `.json` extension removed.
pub open spec fn condensed(s: Seq<char>) -> Seq<char> {
    strip_json_ext(s.subrange(base_start(s), s.len() as int))
}

/// Condenses a target identifier for cache-path purposes.
pub fn condense_triple(s: &str) -> (r: String)
    ensures
        r@ == condensed(s@),
{
    let n = s.unicode_len();
    let mut i: usize = n;
    while i > 0 && !sep_char(s.get_char(i - 1))
        invariant
            n == s@.len(),
            i <= n,
            forall|j: int| i <= j < n ==> !is_sep(s@[j]),
        decreases i,
    {
        i = i - 1;
    }
    proof {
        lemma_base_start_unique(s@, i as int);
    }
    let base = s.substring_char(i, n);
    let m = n - i;
    if m >= 5 && base.get_char(m - 5) == '.' && base.get_char(m - 4) == 'j' && base.get_char(
        m - 3,
    ) == 's' && base.get_char(m - 2) == 'o' && base.get_char(m - 1) == 'n' {
        let stem = base.substring_char(0, m - 5);
        proof {
            assert(stem@ =~= condensed(s@));
        }
        stem.to_owned()
    } else {
        proof {
            assert(base@ =~= condensed(s@));
        }
        base.to_owned()
    }
}

/// Exec mirror of `is_sep`.
fn sep_char(c: char) -> (r: bool)
    ensures
        r == is_sep(c),
{
    c == '/' || c == '\\'
}

/// A resolved non-host compilation target.
pub struct Target {
    /// Condensed identifier, used for cache paths.
    pub triple: String,
    /// The identifier exactly as the user supplied it, forwarded to the
    /// compiler (which may need the literal spec-file path).
    pub orig: String,
    /// The text of the custom platform-description file, when the
    /// identifier named one; None for a builtin platform.
    pub spec_doc: Option<String>,
}

impl Target {
    /// A builtin target carries its name verbatim; a custom target carries
    /// the condensed identifier and a document that parses.
    pub open spec fn wf(&self) -> bool {
        match self.spec_doc {
            Option::None => self.triple@ == self.orig@,
            Option::Some(c) => self.triple@ == condensed(self.orig@) && json_document(c@),
        }
    }

    /// Resolves a non-host target identifier. `is_builtin` reports whether
    /// the toolchain lists the identifier among its builtin platforms;
    /// `spec_contents` is the text of the identifier-named spec file, or
    /// None when no such file exists. Succeeds exactly for a builtin name
    /// or an existing file that parses.
    pub fn new(identifier: &str, is_builtin: bool, spec_contents: Option<String>) -> (r: Result<
        Target,
        Error,
    >)
        ensures
            r is Ok <==> (is_builtin || (spec_contents matches Some(c) && json_document(c@))),
            match r {
                Ok(t) => {
                    &&& t.wf()
                    &&& t.orig@ == identifier@
                    &&& (is_builtin ==> t.triple@ == identifier@ && t.spec_doc is None)
                    &&& (!is_builtin ==> t.spec_doc == spec_contents && t.triple@ == condensed(
                        identifier@,
                    ))
                },
                Err(e) => match e {
                    Error::SpecNotFound(p) => !is_builtin && spec_contents is None && p@
                        == identifier@,
                    Error::SpecParse(p) => !is_builtin && (spec_contents matches Some(c)
                        && !json_document(c@)) && p@ == identifier@,
                    _ => false,
                },
            },
    {
        if is_builtin {
            Ok(Target { triple: identifier.to_owned(), orig: identifier.to_owned(), spec_doc: None })
        } else {
            match spec_contents {
                None => Err(Error::SpecNotFound(identifier.to_owned())),
                Some(doc) => {
                    if json_parses(doc.as_str()) {
                        Ok(
                            Target {
                                triple: condense_triple(identifier),
                                orig: identifier.to_owned(),
                                spec_doc: Some(doc),
                            },
                        )
                    } else {
                        Err(Error::SpecParse(identifier.to_owned()))
                    }
                },
            }
        }
    }

    /// The condensed triple, used for cache-path construction.
    pub fn triple(&self) -> (r: &String)
        ensures
            r@ == self.triple@,
    {
        &self.triple
    }

    /// The identifier as supplied, used when forwarding to the compiler.
    pub fn orig_triple(&self) -> (r: &String)
        ensures
            r@ == self.orig@,
    {
        &self.orig
    }
}

/// Where the standard-library source tree was found.
pub enum SrcResolution {
    /// Stable and Beta toolchains cannot build a custom sysroot: the engine
    /// must warn and delegate without touching any cache.
    Unsupported,
    /// Path of the source tree to build from.
    Tree(String),
}

/// Resolves the standard-library source tree. On Dev the environment
/// override is required; on Nightly the override wins, else the source
/// archive bundled in the toolchain's sysroot; Stable/Beta are unsupported.
pub fn resolve_src(channel: Channel, env_override: Option<String>, bundled: Option<String>) -> (r:
    Result<SrcResolution, Error>)
    ensures
        r is Ok <==> !(channel == Channel::Dev && env_override is None) && !(channel
            == Channel::Nightly && env_override is None && bundled is None),
        match r {
            Ok(SrcResolution::Unsupported) => channel == Channel::Stable || channel
                == Channel::Beta,
            Ok(SrcResolution::Tree(p)) => (channel == Channel::Dev || channel == Channel::Nightly)
                && (if env_override is Some {
                p == env_override->Some_0
            } else {
                channel == Channel::Nightly && p == bundled->Some_0
            }),
            Err(Error::MissingSourceOverride) => channel == Channel::Dev && env_override is None,
            Err(Error::BundledSourceMissing) => channel == Channel::Nightly && env_override is None
                && bundled is None,
            Err(_) => false,
        },
{
    match channel {
        Channel::Stable => Ok(SrcResolution::Unsupported),
        Channel::Beta => Ok(SrcResolution::Unsupported),
        Channel::Dev => match env_override {
            Some(p) => Ok(SrcResolution::Tree(p)),
            None => Err(Error::MissingSourceOverride),
        },
        Channel::Nightly => match env_override {
            Some(p) => Ok(SrcResolution::Tree(p)),
            None => match bundled {
                Some(p) => Ok(SrcResolution::Tree(p)),
                None => Err(Error::BundledSourceMissing),
            },
        },
    }
}

} // verus!
