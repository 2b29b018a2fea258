use redskull::recipe::{About, Build, Extra, Package, Preamble, Recipe, Requirement, Requirements, Source, Test};
use redskull::recipe_builder::RecipeBuilder;
use redskull::renderer::{MetaYamlRenderer, Renderer};


/// Helper to build a minimal valid recipe for testing.
#[allow(dead_code)]
pub fn minimal_recipe(name: &str, version: &str) -> Recipe {
    Recipe {
        preamble: Preamble { name: name.to_string(), version: version.to_string() },
        package: Package {},
        source: Source {
            url: format!("https://github.com/test/{name}/archive/v{version}.tar.gz"),
            filename: format!("{name}-{version}.tar.gz"),
            sha256: "deadbeef".repeat(8),
        },
        build: Build {
            name: name.to_string(),
            with_run_exports: true,
            max_pin: "x.x".to_string(),
            script: None,
        },
        requirements: Requirements { build: vec![], host: vec![], run: vec![] },
        test: Test { commands: vec![] },
        about: About {
            home: None,
            license: None,
            license_family: None,
            license_file: vec![],
            summary: None,
            dev_url: None,
            doc_url: None,
        },
        extra: Extra {
            additional_platforms: vec![],
            recipe_maintainers: vec![],
            identifiers: vec![],
            skip_platforms: vec![],
        },
    }
}

/// Render a recipe to meta.yaml string.
#[allow(dead_code)]
pub fn render(recipe: &Recipe) -> String {
    MetaYamlRenderer.render(recipe)
}

/// Assert that rendered output contains a substring.
#[allow(dead_code)]
pub fn assert_contains(output: &str, needle: &str, msg: &str) {
    assert!(output.contains(needle), "{msg}\nExpected to find: {needle}\nIn:\n{output}");
}

/// Assert that rendered output does NOT contain a substring.
#[allow(dead_code)]
pub fn assert_not_contains(output: &str, needle: &str, msg: &str) {
    assert!(!output.contains(needle), "{msg}\nExpected NOT to find: {needle}\nIn:\n{output}");
}


#[test]
fn test_tier2_recipe_structure() {
    let mut builder = RecipeBuilder::new("fgumi", "1.0.0");
    builder
        .github_source("fulcrumgenomics", "fgumi", "abc123")
        .license("MIT")
        .add_binary("fgumi")
        .bioconda(true)
        .cargo_bundle_licenses(true)
        .add_maintainer("nh13")
        .add_maintainer("tfenne");

    let (recipe, script) = builder.build();
    let output = MetaYamlRenderer.render(&recipe);

    // CBL in build deps
    assert_contains(&output, "cargo-bundle-licenses", "should have CBL");
    // THIRDPARTY.yml in license_file list
    assert_contains(&output, "    - THIRDPARTY.yml", "THIRDPARTY.yml as list item");
    assert_contains(&output, "    - LICENSE", "LICENSE as list item");
    // Platforms
    assert_contains(&output, "linux-aarch64", "linux-aarch64 platform");
    assert_contains(&output, "osx-arm64", "osx-arm64 platform");
    // run_exports with x.x
    assert_contains(&output, "max_pin=\"x.x\"", "max_pin x.x");
    // build.sh needed (has CBL)
    assert!(script.needs_build_sh());
    let build_sh = script.to_build_sh();
    assert_contains(&build_sh, "cargo-bundle-licenses", "CBL in build.sh");
    // No compiler('c') for pure Rust with CBL
    assert_not_contains(&output, "compiler('c')", "no C compiler for pure Rust");
}

/// Smoke test: build recipes for a sample of Tier 2 crate names.
/// Network-free — just verifies builder doesn't panic with synthetic data.
#[test]
fn test_tier2_batch_builder_smoke() {
    let crates = [
        "rasusa",
        "fgumi",
        "fg-stitch",
        "fqtk",
        "fasten",
        "bed2gtf",
        "bigtools",
        "galah",
        "ontime",
        "simpleaf",
    ];
    for name in crates {
        let mut builder = RecipeBuilder::new(name, "1.0.0");
        builder
            .github_source("test", name, "0000")
            .license("MIT")
            .add_binary(name)
            .bioconda(true)
            .cargo_bundle_licenses(true);
        let (recipe, _script) = builder.build();
        let output = MetaYamlRenderer.render(&recipe);
        assert!(!output.is_empty(), "empty output for {name}");
    }
}
