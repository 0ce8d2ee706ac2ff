use perseus_size_opt::{
    is_shallow_enough, nesting_depth_of, optimize_entry_point, optimize_manifest, optimized_document,
    with_wee_alloc, BuildManifest, DependencyDecl, Lto, OptLevel, PackageOverride, SizeOpts, SizeOptsError, GET_MANIFEST_FAILED, READ_LIB_FAILED,
    WEE_ALLOC_DEF, WRITE_LIB_FAILED, WRITE_MANIFEST_FAILED,
};

const FULL: &str = r#"[package]
name = "perseus-engine"
version = "0.3.0"
edition = "2018"

[dependencies]
serde = "1"
wee_alloc = "0.3"

[lib]
crate-type = ["staticlib"]

[profile.release]
opt-level = 2
debug = true

[profile.release.package.foo]
opt-level = 1
"#;

const BARE: &str = r#"[package]
name = "perseus-engine"
version = "0.3.0"

[dependencies]
serde = "1"
"#;

fn opts(wee_alloc: bool, lto: bool, opt_level: &str, codegen_units: u16, patch: bool) -> SizeOpts {
    SizeOpts {
        wee_alloc,
        lto,
        opt_level: opt_level.to_string(),
        codegen_units,
        enable_fluent_bundle_patch: patch,
    }
}

fn applied(text: &str, o: &SizeOpts) -> BuildManifest {
    BuildManifest::parse(text).ok().expect("manifest parses").apply(o)
}

fn dependency_version(m: &BuildManifest, name: &str) -> Option<String> {
    for (k, d) in &m.dependencies {
        if k == name {
            return match d {
                DependencyDecl::Simple(v) => Some(v.clone()),
                DependencyDecl::Kept(_) => Some(String::from("<kept>")),
            };
        }
    }
    None
}

fn dependency_names(m: &BuildManifest) -> Vec<String> {
    m.dependencies.iter().map(|(k, _)| k.clone()).collect()
}

fn check_preset(o: SizeOpts, wee_alloc: bool, lto: bool, level: &str, units: u16, patch: bool) {
    assert_eq!(o.wee_alloc, wee_alloc);
    assert_eq!(o.lto, lto);
    assert_eq!(o.opt_level, level);
    assert_eq!(o.codegen_units, units);
    assert_eq!(o.enable_fluent_bundle_patch, patch);
}

#[test]
fn presets_hold_their_values() {
    check_preset(SizeOpts::default(), true, true, "z", 1, true);
    check_preset(SizeOpts::default_2018(), true, true, "z", 1, false);
    check_preset(SizeOpts::default_no_lto(), true, false, "z", 1, true);
    check_preset(SizeOpts::only_wee_alloc(), true, false, "3", 16, true);
    check_preset(SizeOpts::no_wee_alloc(), false, true, "z", 1, true);
}

#[test]
fn every_preset_sets_the_release_profile() {
    let presets = vec![
        SizeOpts::default(),
        SizeOpts::default_2018(),
        SizeOpts::default_no_lto(),
        SizeOpts::only_wee_alloc(),
        SizeOpts::no_wee_alloc(),
    ];
    for o in presets {
        for text in [FULL, BARE] {
            let m = applied(text, &o);
            let p = m.release.expect("release profile");
            assert!(matches!(&p.opt_level, Some(OptLevel::Level(l)) if *l == o.opt_level));
            if o.lto {
                assert!(matches!(p.lto, Some(Lto::Fat)));
            } else {
                assert!(matches!(p.lto, Some(Lto::ThinLocal)));
            }
            assert_eq!(p.codegen_units, Some(o.codegen_units));
        }
    }
}

#[test]
fn patch_replaces_the_override_table() {
    let m = applied(FULL, &SizeOpts::default());
    let p = m.release.expect("release profile");
    assert_eq!(p.package.len(), 1);
    assert_eq!(p.package[0].0, "fluent-bundle");
    assert!(matches!(p.package[0].1, PackageOverride::OptLevel(2)));
}

#[test]
fn without_patch_the_override_table_is_kept() {
    let m = applied(FULL, &SizeOpts::default_2018());
    let p = m.release.expect("release profile");
    assert_eq!(p.package.len(), 1);
    assert_eq!(p.package[0].0, "foo");
    assert!(matches!(p.package[0].1, PackageOverride::Kept(_)));
}

#[test]
fn without_allocator_dependencies_and_entry_point_are_untouched() {
    let o = SizeOpts::no_wee_alloc();
    let before = BuildManifest::parse(FULL).ok().expect("manifest parses");
    let names = dependency_names(&before);
    let m = before.apply(&o);
    assert_eq!(dependency_names(&m), names);
    assert_eq!(dependency_version(&m, "wee_alloc"), Some(String::from("<kept>")));
    let m = applied(BARE, &o);
    assert_eq!(dependency_names(&m), vec![String::from("serde")]);
    assert_eq!(optimize_entry_point(&o, "pub fn main() {}\n"), None);
}

#[test]
fn allocator_is_added_and_prefixed() {
    let o = SizeOpts::default();
    let m = applied(BARE, &o);
    assert_eq!(dependency_names(&m), vec![String::from("serde"), String::from("wee_alloc")]);
    assert_eq!(dependency_version(&m, "wee_alloc"), Some(String::from("0.4")));
    let source = "pub fn main() {}\n";
    let expected = format!("{}\n{}", WEE_ALLOC_DEF, source);
    assert_eq!(optimize_entry_point(&o, source), Some(expected.clone()));
    assert_eq!(with_wee_alloc(source), expected);
    assert!(expected.starts_with("#[global_allocator]\nstatic ALLOC: wee_alloc::WeeAlloc"));
}

#[test]
fn allocator_overrides_an_existing_version() {
    let m = applied(FULL, &SizeOpts::default());
    assert_eq!(dependency_names(&m), vec![String::from("serde"), String::from("wee_alloc")]);
    assert_eq!(dependency_version(&m, "wee_alloc"), Some(String::from("0.4")));
}

#[test]
fn prefix_of_empty_entry_point() {
    assert_eq!(with_wee_alloc(""), format!("{}\n", WEE_ALLOC_DEF));
}

#[test]
fn crate_type_is_always_reset() {
    for o in [SizeOpts::default(), opts(false, false, "3", 16, false)] {
        for text in [FULL, BARE] {
            let m = applied(text, &o);
            let lib = m.lib.expect("library target");
            assert_eq!(lib.crate_type, vec![String::from("cdylib"), String::from("rlib")]);
        }
    }
}

#[test]
fn missing_release_profile_is_made() {
    let m = applied(BARE, &opts(false, true, "s", 4, false));
    let p = m.release.expect("release profile");
    assert!(p.other.is_none());
    assert!(p.package.is_empty());
    assert!(matches!(&p.opt_level, Some(OptLevel::Level(l)) if l == "s"));
    assert!(matches!(p.lto, Some(Lto::Fat)));
    assert_eq!(p.codegen_units, Some(4));
}

#[test]
fn existing_release_profile_keeps_other_settings() {
    let text = optimize_manifest(&SizeOpts::default(), FULL).ok().expect("optimized");
    assert!(text.contains("debug = true"));
}

#[test]
fn unparsable_manifest_fails_to_load() {
    let r = optimize_manifest(&SizeOpts::default(), "this is [not toml");
    assert!(matches!(r, Err(SizeOptsError::GetManifestFailed { .. })));
    let r = BuildManifest::parse("[package\nname = 1");
    assert!(matches!(r, Err(SizeOptsError::GetManifestFailed { .. })));
}

#[test]
fn allocator_only_scenario() {
    let o = SizeOpts::only_wee_alloc();
    let m = applied(BARE, &o);
    let p = m.release.as_ref().expect("release profile");
    assert!(matches!(p.lto, Some(Lto::ThinLocal)));
    assert!(matches!(&p.opt_level, Some(OptLevel::Level(l)) if l == "3"));
    assert_eq!(p.codegen_units, Some(16));
    assert_eq!(p.package.len(), 1);
    assert_eq!(p.package[0].0, "fluent-bundle");
    assert_eq!(dependency_version(&m, "wee_alloc"), Some(String::from("0.4")));
    let source = "fn engine() {}";
    assert_eq!(
        optimize_entry_point(&o, source),
        Some(format!("{}\n{}", WEE_ALLOC_DEF, source))
    );
}

#[test]
fn optimized_manifest_text_holds_the_settings() {
    let text = optimize_manifest(&SizeOpts::default(), BARE).ok().expect("optimized");
    assert!(text.contains("opt-level = \"z\""));
    assert!(text.contains("lto = true"));
    assert!(text.contains("codegen-units = 1"));
    assert!(text.contains("wee_alloc = \"0.4\""));
    assert!(text.contains("serde = \"1\""));
    assert!(text.contains("crate-type = [\"cdylib\", \"rlib\"]"));
    assert!(text.contains("fluent-bundle"));
    assert!(text.contains("opt-level = 2"));
    let again = BuildManifest::parse(&text).ok().expect("output parses");
    let lib = again.lib.expect("library target");
    assert_eq!(lib.crate_type, vec![String::from("cdylib"), String::from("rlib")]);
}

#[test]
fn lto_off_is_written_false() {
    let text = optimize_manifest(&opts(false, false, "3", 16, false), BARE).ok().expect("optimized");
    assert!(text.contains("lto = false"));
    assert!(text.contains("opt-level = \"3\""));
    assert!(text.contains("codegen-units = 16"));
    assert!(!text.contains("wee_alloc"));
    assert!(!text.contains("fluent-bundle"));
}

#[test]
fn error_messages_name_the_file_and_remedy() {
    let r = optimize_manifest(&SizeOpts::default(), "=");
    match r {
        Err(e) => assert_eq!(e.message(), GET_MANIFEST_FAILED),
        Ok(_) => panic!("expected a load failure"),
    }
    assert!(GET_MANIFEST_FAILED.starts_with("couldn't get and parse `.perseus/Cargo.toml`"));
    assert!(WRITE_MANIFEST_FAILED.starts_with("couldn't update `.perseus/Cargo.toml`"));
    assert!(READ_LIB_FAILED.starts_with("couldn't read `.perseus/src/lib.rs`"));
    assert!(WRITE_LIB_FAILED.starts_with("couldn't update `.perseus/src/lib.rs`"));
    let io = SizeOptsError::WriteLibFailed { source: std::io::Error::new(std::io::ErrorKind::Other, "x") };
    assert_eq!(io.message(), WRITE_LIB_FAILED);
}

#[test]
fn deeply_nested_text_is_refused_unparsed() {
    let deep = format!("a = {}", "[".repeat(40000));
    assert!(!is_shallow_enough(&deep));
    let r = optimize_manifest(&SizeOpts::default(), &deep);
    assert!(matches!(r, Err(SizeOptsError::GetManifestFailed { .. })));
    assert!(matches!(BuildManifest::parse(&deep), Err(SizeOptsError::GetManifestFailed { .. })));
}

#[test]
fn nesting_bound_counts_depth() {
    assert!(is_shallow_enough(FULL));
    assert!(is_shallow_enough(""));
    assert!(is_shallow_enough(&"[".repeat(512)));
    assert!(!is_shallow_enough(&"{".repeat(513)));
    assert!(!is_shallow_enough(&format!("{}{}", "[".repeat(300), "{".repeat(213))));
    let flat: String = (0..600).map(|i| format!("[t{}]\nx = [1, [2]]\n", i)).collect();
    assert!(is_shallow_enough(&flat));
    assert_eq!(nesting_depth_of(&flat), 2);
    let dotted = format!("[package.metadata{}]\n", ".a".repeat(1000));
    assert!(!is_shallow_enough(&dotted));
    assert_eq!(nesting_depth_of("[a.b.c]\n[d]\n"), 3);
}

#[test]
fn nesting_depth_skips_strings_and_comments() {
    assert_eq!(nesting_depth_of("a = [\"]]]]\", [[["), 4);
    assert_eq!(nesting_depth_of("a = ['x]]', [["), 3);
    assert_eq!(nesting_depth_of("# [[[[\nb = 1"), 0);
    assert_eq!(nesting_depth_of("a = [\"\"\"\n]]]\n\"\"\", [["), 3);
    assert_eq!(nesting_depth_of("a = [\"\\\"]]\", ["), 2);
    assert_eq!(nesting_depth_of("v = \"1.2.3\"\n"), 0);
}

#[test]
fn flat_manifest_with_many_tables_is_optimized() {
    let mut text = String::from(BARE);
    for i in 0..600 {
        text.push_str(&format!("\n[package.metadata.t{}]\nx = [1]\n", i));
    }
    assert!(optimize_manifest(&SizeOpts::default(), &text).is_ok());
}

#[test]
fn optimized_document_holds_the_settings() {
    let doc = optimized_document(&SizeOpts::default(), FULL).ok().expect("optimized");
    let p = doc.profile.release.as_ref().expect("release profile");
    assert_eq!(p.opt_level, Some(cargo_toml::Value::String(String::from("z"))));
    assert_eq!(p.lto, Some(cargo_toml::LtoSetting::Fat));
    assert_eq!(p.codegen_units, Some(1));
    assert_eq!(p.package.len(), 1);
    let entry = p.package.get("fluent-bundle").expect("patch entry");
    assert_eq!(entry.get("opt-level"), Some(&cargo_toml::Value::Integer(2)));
    assert!(matches!(p.debug, Some(cargo_toml::DebugSetting::Full)));
    let alloc = doc.dependencies.get("wee_alloc");
    assert!(matches!(alloc, Some(cargo_toml::Dependency::Simple(v)) if v == "0.4"));
    assert!(doc.dependencies.contains_key("serde"));
    assert_eq!(doc.lib.expect("lib").crate_type, vec![String::from("cdylib"), String::from("rlib")]);
}

#[test]
fn optimized_document_keeps_untouched_content() {
    let doc = optimized_document(&SizeOpts::default_2018(), FULL).ok().expect("optimized");
    let package = doc.package.as_ref().expect("package section");
    assert_eq!(package.name, "perseus-engine");
    let p = doc.profile.release.as_ref().expect("release profile");
    let foo = p.package.get("foo").expect("kept override");
    assert_eq!(foo.get("opt-level"), Some(&cargo_toml::Value::Integer(1)));
    assert!(matches!(p.debug, Some(cargo_toml::DebugSetting::Full)));
    assert!(matches!(doc.dependencies.get("serde"), Some(cargo_toml::Dependency::Simple(v)) if v == "1"));
    let bare = optimized_document(&SizeOpts::no_wee_alloc(), BARE).ok().expect("optimized");
    let p = bare.profile.release.as_ref().expect("release profile");
    assert!(p.debug.is_none() && p.panic.is_none() && p.rpath.is_none());
    let lib = bare.lib.as_ref().expect("library target");
    assert!(lib.test && lib.doctest && lib.path.is_none());
    assert!(bare.dependencies.get("wee_alloc").is_none());
}
