
use redskull::recipe::{About, Build, Extra, Package, Preamble, Recipe, Requirement, Requirements, Source, Test};
use redskull::recipe_builder::RecipeBuilder;
use redskull::renderer::{MetaYamlRenderer, Renderer};
use redskull::sys_deps::{detect_host_deps, map_sys_crate, needs_bindgen, needs_c_compiler};


/// Helper to build a minimal valid recipe for testing.
#[allow(dead_code)]
pub fn minimal_recipe(name: &str, version: &str) -> Recipe {
    Recipe {
        preamble: Preamble { name: name.to_string(), version: version.to_string() },
        package: Package {},
        source: Source {
            url: format!("https://github.com/test/{name}/archive/v{version}.tar.gz"),
            filename: format!("{name}-{version}.tar.gz"),
            sha256: "deadbeef".repeat(8),
        },
        build: Build {
            name: name.to_string(),
            with_run_exports: true,
            max_pin: "x.x".to_string(),
            script: None,
        },
        requirements: Requirements { build: vec![], host: vec![], run: vec![] },
        test: Test { commands: vec![] },
        about: About {
            home: None,
            license: None,
            license_family: None,
            license_file: vec![],
            summary: None,
            dev_url: None,
            doc_url: None,
        },
        extra: Extra {
            additional_platforms: vec![],
            recipe_maintainers: vec![],
            identifiers: vec![],
            skip_platforms: vec![],
        },
    }
}

/// Render a recipe to meta.yaml string.
#[allow(dead_code)]
pub fn render(recipe: &Recipe) -> String {
    MetaYamlRenderer.render(recipe)
}

/// Assert that rendered output contains a substring.
#[allow(dead_code)]
pub fn assert_contains(output: &str, needle: &str, msg: &str) {
    assert!(output.contains(needle), "{msg}\nExpected to find: {needle}\nIn:\n{output}");
}

/// Assert that rendered output does NOT contain a substring.
#[allow(dead_code)]
pub fn assert_not_contains(output: &str, needle: &str, msg: &str) {
    assert!(!output.contains(needle), "{msg}\nExpected NOT to find: {needle}\nIn:\n{output}");
}



#[test]
fn test_simple_sys_mappings() {
    assert_eq!(map_sys_crate("openssl-sys"), vec![("openssl", Some("not osx"))]);
    assert_eq!(map_sys_crate("libz-sys"), vec![("zlib", None)]);
    assert_eq!(map_sys_crate("bzip2-sys"), vec![("bzip2", None)]);
    assert_eq!(map_sys_crate("lzma-sys"), vec![("xz", None)]);
    assert_eq!(map_sys_crate("libcurl-sys"), vec![("libcurl", None)]);
    assert_eq!(map_sys_crate("libsqlite3-sys"), vec![("sqlite", None)]);
}

#[test]
fn test_bundle_mapping_rust_htslib() {
    let deps = map_sys_crate("rust-htslib");
    let names: Vec<&str> = deps.iter().map(|(n, _)| *n).collect();
    assert!(names.contains(&"htslib"));
    assert!(names.contains(&"zlib"));
    assert!(names.contains(&"bzip2"));
    assert!(names.contains(&"xz"));
    assert!(names.contains(&"libdeflate"));
    assert!(names.contains(&"libcurl"));
}

#[test]
fn test_unknown_crate() {
    assert!(map_sys_crate("serde").is_empty());
    assert!(map_sys_crate("clap").is_empty());
}

#[test]
fn test_detect_host_deps() {
    let deps = detect_host_deps(&["serde", "openssl-sys", "clap", "libz-sys"]);
    assert_eq!(deps.len(), 2);
    assert!(deps.iter().any(|(n, _)| *n == "openssl"));
    assert!(deps.iter().any(|(n, _)| *n == "zlib"));
}

#[test]
fn test_needs_c_compiler() {
    assert!(needs_c_compiler(&["libz-sys", "serde"]));
    assert!(needs_c_compiler(&["cc", "serde"]));
    assert!(!needs_c_compiler(&["serde", "clap", "tokio"]));
}

#[test]
fn test_needs_bindgen() {
    assert!(needs_bindgen(&["bindgen", "serde"]));
    assert!(!needs_bindgen(&["serde", "clap"]));
}

#[test]
fn test_openssl_has_osx_selector() {
    let deps = map_sys_crate("openssl-sys");
    let openssl = deps.iter().find(|(n, _)| *n == "openssl").unwrap();
    assert_eq!(openssl.1, Some("not osx"));
}

#[test]
fn test_tier3_recipe_with_openssl() {
    let mut builder = RecipeBuilder::new("echtvar", "1.0.0");
    builder
        .github_source("brentp", "echtvar", "abc123")
        .license("MIT")
        .add_binary("echtvar")
        .bioconda(true)
        .cargo_bundle_licenses(true)
        .has_c_deps(true)
        .has_native_deps(true)
        .needs_pkg_config(true)
        .needs_make(true)
        .add_host_dep("openssl", Some("not osx"));

    let (recipe, script) = builder.build();
    let output = MetaYamlRenderer.render(&recipe);

    assert_contains(&output, "compiler('c')", "should have C compiler for native deps");
    assert_contains(&output, "- openssl  # [not osx]", "openssl with platform selector");
    assert_contains(&output, "pkg-config", "pkg-config for native deps");
    assert_contains(&output, "make", "make for native deps");
    // Host deps should be mirrored to run deps
    assert!(
        output.matches("openssl").count() >= 2,
        "openssl should appear in both host and run sections"
    );
    assert!(script.needs_build_sh(), "native deps need build.sh");
    let build_sh = script.to_build_sh();
    assert_contains(&build_sh, "CPPFLAGS", "should set CPPFLAGS");
    assert_contains(&build_sh, "LDFLAGS", "should set LDFLAGS");
}

#[test]
fn test_tier3_recipe_with_htslib_bundle() {
    let mut builder = RecipeBuilder::new("bamslice", "1.0.0");
    builder
        .github_source("test", "bamslice", "abc123")
        .license("MIT")
        .add_binary("bamslice")
        .bioconda(true)
        .cargo_bundle_licenses(true)
        .has_c_deps(true)
        .has_native_deps(true)
        .needs_bindgen(true);

    // Simulate rust-htslib detected in deps
    let host_deps = redskull::sys_deps::map_sys_crate("rust-htslib");
    for (dep, selector) in &host_deps {
        builder.add_host_dep(dep, *selector);
    }

    let (recipe, script) = builder.build();
    let output = MetaYamlRenderer.render(&recipe);

    assert_contains(&output, "htslib", "should have htslib");
    assert_contains(&output, "zlib", "should have zlib from bundle");
    assert_contains(&output, "bzip2", "should have bzip2 from bundle");
    let build_sh = script.to_build_sh();
    assert_contains(&build_sh, "BINDGEN_EXTRA_CLANG_ARGS", "bindgen env var");
    assert_contains(&build_sh, "CPPFLAGS", "compiler flags");
}
