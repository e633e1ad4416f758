use xargo_lib::cache::cache_root;
use xargo_lib::cache::lock_path;
use xargo_lib::cache::marker_path;
use xargo_lib::cache::needs_rebuild;
use xargo_lib::cache::promote;
use xargo_lib::cache::BuildOutcome;
use xargo_lib::cache::CacheContent;
use xargo_lib::config::CrateConfig;
use xargo_lib::config::Dependency;
use xargo_lib::errors::Error;
use xargo_lib::fingerprint::compute_fingerprint;
use xargo_lib::fingerprint::FnvHasher;
use xargo_lib::rustc::condense_triple;
use xargo_lib::rustc::resolve_src;
use xargo_lib::rustc::Channel;
use xargo_lib::rustc::SrcResolution;
use xargo_lib::rustc::Target;
use xargo_lib::rustc::ToolchainMeta;
use xargo_lib::xargo::forward_exit_code;
use xargo_lib::xargo::home;
use xargo_lib::xargo::plan_session;
use xargo_lib::xargo::resolve_mode;
use xargo_lib::xargo::SessionPlan;
use xargo_lib::CompilationMode;
use xargo_lib::CurrentDirectory;

fn nightly_meta() -> ToolchainMeta {
    ToolchainMeta {
        version: String::from("rustc 1.90.0-nightly"),
        channel: Channel::Nightly,
        host: String::from("x86_64-unknown-linux-gnu"),
    }
}

fn stable_meta() -> ToolchainMeta {
    ToolchainMeta {
        version: String::from("rustc 1.90.0"),
        channel: Channel::Stable,
        host: String::from("x86_64-unknown-linux-gnu"),
    }
}

#[test]
fn condense_keeps_builtin_triple() {
    assert_eq!(condense_triple("x86_64-unknown-linux-gnu"), "x86_64-unknown-linux-gnu");
}

#[test]
fn condense_strips_extension() {
    assert_eq!(condense_triple("my-target.json"), "my-target");
}

#[test]
fn condense_strips_directories() {
    assert_eq!(condense_triple("targets/inner/my-target.json"), "my-target");
    assert_eq!(condense_triple("targets\\my-target.json"), "my-target");
}

#[test]
fn condense_without_extension() {
    assert_eq!(condense_triple("targets/my-target"), "my-target");
}

#[test]
fn condense_empty_and_bare_extension() {
    assert_eq!(condense_triple(""), "");
    assert_eq!(condense_triple(".json"), "");
}

#[test]
fn condense_collision_between_directories() {
    // Documented limitation: the same base name in two directories condenses
    // to the same cache key.
    assert_eq!(condense_triple("a/spec.json"), condense_triple("b/spec.json"));
}

#[test]
fn fnv_known_vectors() {
    let h = FnvHasher::new();
    assert_eq!(h.finish(), 0xcbf29ce484222325);
    let mut h = FnvHasher::new();
    h.write_str("a");
    assert_eq!(h.finish(), 0xaf63dc4c8601ec8c);
    let mut h = FnvHasher::new();
    h.write_str("foobar");
    assert_eq!(h.finish(), 0x85944171f73967e8);
}

#[test]
fn fnv_write_matches_write_u8() {
    let mut a = FnvHasher::new();
    a.write(&[1, 2, 3]);
    let mut b = FnvHasher::new();
    b.write_u8(1);
    b.write_u8(2);
    b.write_u8(3);
    assert_eq!(a.finish(), b.finish());
}

#[test]
fn fingerprint_deterministic_across_reconstruction() {
    // Two fully independent constructions of equal inputs hash alike.
    let run = || {
        let mode = CompilationMode::Native(String::from("x86_64-unknown-linux-gnu"));
        let cfg = CrateConfig::new_default();
        let meta = nightly_meta();
        compute_fingerprint(&mode, "-C target-cpu=native", &cfg, &meta)
    };
    assert_eq!(run(), run());
}

#[test]
fn fingerprint_sensitive_to_inputs() {
    let mode = CompilationMode::Native(String::from("x86_64-unknown-linux-gnu"));
    let cfg = CrateConfig::new_default();
    let meta = nightly_meta();
    let base = compute_fingerprint(&mode, "", &cfg, &meta);
    let flagged = compute_fingerprint(&mode, "-C opt-level=3", &cfg, &meta);
    assert_ne!(base, flagged);
    let other_meta = ToolchainMeta {
        version: String::from("rustc 1.91.0-nightly"),
        channel: Channel::Nightly,
        host: String::from("x86_64-unknown-linux-gnu"),
    };
    assert_ne!(base, compute_fingerprint(&mode, "", &cfg, &other_meta));
}

#[test]
fn target_builtin_needs_no_file() {
    let t = Target::new("aarch64-unknown-none", true, None).unwrap();
    assert_eq!(t.triple(), "aarch64-unknown-none");
    assert_eq!(t.orig_triple(), "aarch64-unknown-none");
    assert!(t.spec_doc.is_none());
}

#[test]
fn target_custom_spec_parses() {
    let doc = String::from("{ \"llvm-target\": \"aarch64-unknown-none\", \"arch\": \"aarch64\" }");
    let t = Target::new("targets/my-device.json", false, Some(doc.clone())).unwrap();
    assert_eq!(t.triple(), "my-device");
    assert_eq!(t.orig_triple(), "targets/my-device.json");
    assert_eq!(t.spec_doc.as_deref(), Some(doc.as_str()));
}

#[test]
fn target_custom_spec_invalid() {
    let doc = String::from("not a structured document");
    match Target::new("bad.json", false, Some(doc)) {
        Err(Error::SpecParse(p)) => assert_eq!(p, "bad.json"),
        _ => panic!("expected a parse error"),
    }
}

#[test]
fn target_custom_spec_missing() {
    match Target::new("absent.json", false, None) {
        Err(Error::SpecNotFound(p)) => assert_eq!(p, "absent.json"),
        _ => panic!("expected a not-found error"),
    }
}

#[test]
fn src_resolution_by_channel() {
    assert!(matches!(
        resolve_src(Channel::Stable, None, None),
        Ok(SrcResolution::Unsupported)
    ));
    assert!(matches!(
        resolve_src(Channel::Beta, Some(String::from("/s")), None),
        Ok(SrcResolution::Unsupported)
    ));
    match resolve_src(Channel::Dev, Some(String::from("/over")), None) {
        Ok(SrcResolution::Tree(p)) => assert_eq!(p, "/over"),
        _ => panic!("expected the override"),
    }
    assert!(matches!(
        resolve_src(Channel::Dev, None, Some(String::from("/bundled"))),
        Err(Error::MissingSourceOverride)
    ));
    match resolve_src(Channel::Nightly, None, Some(String::from("/bundled"))) {
        Ok(SrcResolution::Tree(p)) => assert_eq!(p, "/bundled"),
        _ => panic!("expected the bundled source"),
    }
    match resolve_src(Channel::Nightly, Some(String::from("/over")), Some(String::from("/bundled"))) {
        Ok(SrcResolution::Tree(p)) => assert_eq!(p, "/over"),
        _ => panic!("expected the override to win"),
    }
    assert!(matches!(
        resolve_src(Channel::Nightly, None, None),
        Err(Error::BundledSourceMissing)
    ));
}

#[test]
fn mode_resolution() {
    let host = String::from("x86_64-unknown-linux-gnu");
    assert!(matches!(resolve_mode(None, &host, false, None), Ok(None)));
    match resolve_mode(Some(host.clone()), &host, false, None) {
        Ok(Some(CompilationMode::Native(h))) => assert_eq!(h, host),
        _ => panic!("expected native mode"),
    }
    match resolve_mode(Some(String::from("aarch64-unknown-none")), &host, true, None) {
        Ok(Some(m @ CompilationMode::Cross(_))) => {
            assert!(!m.is_native());
            assert_eq!(m.triple(), "aarch64-unknown-none");
            assert_eq!(m.orig_triple(), "aarch64-unknown-none");
        },
        _ => panic!("expected cross mode"),
    }
}

#[test]
fn mode_accessors_on_custom_spec() {
    let doc = String::from("{}");
    let t = Target::new("specs/device.json", false, Some(doc)).unwrap();
    let m = CompilationMode::Cross(t);
    assert_eq!(m.triple(), "device");
    assert_eq!(m.orig_triple(), "specs/device.json");
    assert!(!m.is_native());
    let n = CompilationMode::Native(String::from("host"));
    assert!(n.is_native());
    assert_eq!(n.triple(), "host");
    assert_eq!(n.orig_triple(), "host");
}

#[test]
fn mode_hash_distinguishes_native_from_cross() {
    let native = CompilationMode::Native(String::from("t"));
    let t = Target::new("t", true, None).unwrap();
    let cross = CompilationMode::Cross(t);
    let mut ha = FnvHasher::new();
    native.hash(&mut ha);
    let mut hb = FnvHasher::new();
    cross.hash(&mut hb);
    assert_ne!(ha.finish(), hb.finish());
}

#[test]
fn cache_roots_separate_modes() {
    let host = String::from("x86_64-unknown-linux-gnu");
    let native = CompilationMode::Native(host.clone());
    let t = Target::new("x86_64-unknown-linux-gnu", true, None).unwrap();
    let cross = CompilationMode::Cross(t);
    let rn = cache_root("/home/u/.cache", &native);
    let rc = cache_root("/home/u/.cache", &cross);
    assert_eq!(rn, "/home/u/.cache/native/x86_64-unknown-linux-gnu");
    assert_eq!(rc, "/home/u/.cache/cross/x86_64-unknown-linux-gnu");
    assert_ne!(rn, rc);
    assert_ne!(lock_path(&rn), lock_path(&rc));
    assert_ne!(marker_path(&rn), marker_path(&rc));
}

#[test]
fn rebuild_decision() {
    assert!(needs_rebuild(None, 7));
    assert!(needs_rebuild(Some(6), 7));
    assert!(!needs_rebuild(Some(7), 7));
}

#[test]
fn failed_build_preserves_cache() {
    let content = CacheContent { marker: Some(41), artifacts: vec![String::from("libcore.rlib")] };
    let (after, err) = promote(content, BuildOutcome::Failed(101), 42);
    assert_eq!(after.marker, Some(41));
    assert_eq!(after.artifacts, vec![String::from("libcore.rlib")]);
    match err {
        Some(Error::BuildFailed(code)) => assert_eq!(code, 101),
        _ => panic!("expected a build error"),
    }
}

#[test]
fn successful_build_promotes_then_matches() {
    let content = CacheContent { marker: None, artifacts: Vec::new() };
    let arts = vec![String::from("libcore.rlib"), String::from("libstd.rlib")];
    let (after, err) = promote(content, BuildOutcome::Built(arts.clone()), 42);
    assert!(err.is_none());
    assert_eq!(after.marker, Some(42));
    assert_eq!(after.artifacts, arts);
    // A second invocation with unchanged inputs performs no rebuild work.
    assert!(!needs_rebuild(after.marker, 42));
}

#[test]
fn stable_channel_warns_and_delegates() {
    let meta = stable_meta();
    let cfg = CrateConfig::new_default();
    let plan = plan_session(&meta, None, None, None, false, None, &cfg, "/ws", "").unwrap();
    assert!(matches!(plan, SessionPlan::Delegate { warn_unsupported: true }));
}

#[test]
fn no_target_delegates_plainly() {
    let meta = nightly_meta();
    let cfg = CrateConfig::new_default();
    let plan = plan_session(
        &meta,
        Some(String::from("/rust/src")),
        None,
        None,
        false,
        None,
        &cfg,
        "/ws",
        "",
    )
    .unwrap();
    assert!(matches!(plan, SessionPlan::Delegate { warn_unsupported: false }));
}

#[test]
fn nightly_cross_build_plan() {
    let meta = nightly_meta();
    let cfg = CrateConfig::new_default();
    let plan = plan_session(
        &meta,
        Some(String::from("/rust/src")),
        None,
        Some(String::from("aarch64-unknown-none")),
        true,
        None,
        &cfg,
        "/ws",
        "",
    )
    .unwrap();
    match plan {
        SessionPlan::UseCache {
            cmode,
            src,
            cache_root,
            lock_path,
            marker_path,
            lib_dir,
            current_fingerprint,
            manifest,
            flags,
        } => {
            assert!(!cmode.is_native());
            assert_eq!(src, "/rust/src");
            assert_eq!(cache_root, "/ws/target/sysroot/cross/aarch64-unknown-none");
            assert_eq!(lock_path, format!("{}/.sysroot-lock", cache_root));
            assert_eq!(marker_path, format!("{}/.fingerprint", cache_root));
            assert_eq!(
                lib_dir,
                "/ws/target/sysroot/cross/aarch64-unknown-none/lib/rustlib/aarch64-unknown-none/lib"
            );
            assert_eq!(flags, format!("--sysroot={}", cache_root));
            let expected = "[package]\nname = \"sysroot\"\nversion = \"0.0.0\"\nedition = \"2021\"\n\n[lib]\nname = \"sysroot\"\npath = \"lib.rs\"\n\n[dependencies.core]\npath = \"/rust/src/core\"\nfeatures = []\n\n[dependencies.alloc]\npath = \"/rust/src/alloc\"\nfeatures = []\n\n[dependencies.std]\npath = \"/rust/src/std\"\nfeatures = []\n";
            assert_eq!(manifest, expected);
            let again = compute_fingerprint(&cmode, "", &cfg, &meta);
            assert_eq!(current_fingerprint, again);
        },
        _ => panic!("expected a cache plan"),
    }
}

#[test]
fn nonexistent_spec_path_fails_before_any_cache() {
    let meta = nightly_meta();
    let cfg = CrateConfig::new_default();
    let r = plan_session(
        &meta,
        Some(String::from("/rust/src")),
        None,
        Some(String::from("missing-spec.json")),
        false,
        None,
        &cfg,
        "/ws",
        "",
    );
    match r {
        Err(Error::SpecNotFound(p)) => assert_eq!(p, "missing-spec.json"),
        _ => panic!("expected a configuration error naming the path"),
    }
}

#[test]
fn config_default_target_used_when_no_flag() {
    let meta = nightly_meta();
    let mut cfg = CrateConfig::new_default();
    cfg.target = Some(String::from("aarch64-unknown-none"));
    let plan = plan_session(
        &meta,
        Some(String::from("/rust/src")),
        None,
        None,
        true,
        None,
        &cfg,
        "/ws",
        "",
    )
    .unwrap();
    match plan {
        SessionPlan::UseCache { cmode, .. } => {
            assert_eq!(cmode.triple(), "aarch64-unknown-none");
        },
        _ => panic!("expected a cache plan"),
    }
}

#[test]
fn custom_sysroot_root_overrides_home() {
    let mut cfg = CrateConfig::new_default();
    cfg.sysroot = Some(String::from("/opt/sysroots"));
    assert_eq!(home("/ws", &cfg), "/opt/sysroots");
    let cfg = CrateConfig::new_default();
    assert_eq!(home("/ws", &cfg), "/ws/target/sysroot");
}

#[test]
fn manifest_quotes_features() {
    let deps = vec![Dependency {
        name: String::from("std"),
        features: vec![String::from("panic_immediate_abort"), String::from("backtrace")],
    }];
    let m = xargo_lib::sysroot::stub_manifest("/s", &deps);
    assert!(m.contains(
        "\n[dependencies.std]\npath = \"/s/std\"\nfeatures = [\"panic_immediate_abort\",\"backtrace\",]\n"
    ));
}

#[test]
fn sysroot_flag_spacing() {
    assert_eq!(xargo_lib::sysroot::with_sysroot("", "/c"), "--sysroot=/c");
    assert_eq!(xargo_lib::sysroot::with_sysroot("-C x", "/c"), "-C x --sysroot=/c");
}

#[test]
fn error_messages() {
    assert_eq!(
        Error::SpecNotFound(String::from("t.json")).describe(),
        "target spec file not found: t.json"
    );
    assert_eq!(
        Error::SpecParse(String::from("t.json")).describe(),
        "could not parse target spec file: t.json"
    );
    assert_eq!(Error::BuildFailed(3).describe(), "the sysroot build failed");
    assert_eq!(
        Error::MissingSourceOverride.describe(),
        "the RUST_SOURCE_DIR environment variable must be set and point to the Rust source directory when working with the 'dev' channel"
    );
    assert_eq!(
        Error::LockTimeout(String::from("/c/.sysroot-lock")).describe(),
        "timed out waiting for the cache lock: /c/.sysroot-lock"
    );
    assert_eq!(Error::Io(String::from("disk full")).describe(), "input/output error: disk full");
    assert_eq!(
        Error::MalformedConfig(String::from("bad key")).describe(),
        "malformed project configuration: bad key"
    );
    assert_eq!(
        Error::ToolchainState(String::from("no rustc")).describe(),
        "failed to query the toolchain: no rustc"
    );
    assert_eq!(
        Error::BundledSourceMissing.describe(),
        "no standard-library source found in the toolchain sysroot"
    );
}

#[test]
fn exit_code_forwarding() {
    assert_eq!(forward_exit_code(Some(0)), 0);
    assert_eq!(forward_exit_code(Some(101)), 101);
    assert_eq!(forward_exit_code(None), 1);
}

#[test]
fn current_directory_round_trip() {
    let cd = CurrentDirectory::new(String::from("/ws/project"));
    assert_eq!(cd.path(), "/ws/project");
}

#[test]
fn default_config_crates() {
    let cfg = CrateConfig::new_default();
    assert!(cfg.sysroot.is_none());
    assert!(cfg.target.is_none());
    let names: Vec<&str> = cfg.dependencies.iter().map(|d| d.name.as_str()).collect();
    assert_eq!(names, vec!["core", "alloc", "std"]);
    assert!(cfg.dependencies.iter().all(|d| d.features.is_empty()));
}
