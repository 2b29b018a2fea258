use redskull::crate_inspector::{lock_names_of, CargoMetadata, TomlValue};
use redskull::license_family::guess_license_family;
use redskull::recipe::{About, Build, BuildToolNeeds, Requirement, Requirements, Source};
use redskull::recipe_builder::RecipeBuilder;
use redskull::renderer::{MetaYamlRenderer, Renderer};
use redskull::source::{looks_like_version_tag, GitHubRepo};
use redskull::workflow::{
    apply_crate_binaries, apply_maintainers, apply_metadata, apply_source_tree,
    choose_github_tag, choose_source, crates_io_checksum, direct_dependency_names,
    fetched_text, github_builder, github_version, initial_crate_version,
    member_manifest_paths, members_need_tree, needs_member_search, select_member,
    CrateMetadata, GraphQlAnswer, SourceChoice, TagStep, WorkflowError,
};

fn strings(v: &[&str]) -> Vec<String> {
    v.iter().map(|x| x.to_string()).collect()
}

fn repo(owner: &str, name: &str) -> GitHubRepo {
    GitHubRepo { owner: owner.to_string(), name: name.to_string() }
}

fn meta(text: &str) -> CargoMetadata {
    match CargoMetadata::from_toml_str(text) {
        Ok(m) => m,
        Err(e) => panic!("{}", e.message()),
    }
}

#[test]
fn source_choice_follows_request_and_fallback() {
    let url = Some("https://github.com/BurntSushi/ripgrep");
    match choose_source(false, url, false) {
        SourceChoice::GitHub(r) => {
            assert_eq!(r.owner, "BurntSushi");
            assert_eq!(r.name, "ripgrep");
        }
        SourceChoice::CratesIo => panic!("expected GitHub"),
    }
    assert!(matches!(choose_source(true, url, false), SourceChoice::CratesIo));
    assert!(matches!(choose_source(false, url, true), SourceChoice::CratesIo));
    assert!(matches!(choose_source(false, None, false), SourceChoice::CratesIo));
    assert!(matches!(
        choose_source(false, Some("https://gitlab.com/a/b"), false),
        SourceChoice::CratesIo
    ));
}

#[test]
fn github_tag_chain() {
    assert!(matches!(
        choose_github_tag(Some("v2.0.0"), &GraphQlAnswer::NotAsked),
        TagStep::Use(t) if t == "v2.0.0"
    ));
    assert!(matches!(choose_github_tag(None, &GraphQlAnswer::NotAsked), TagStep::AskGraphQl));
    assert!(matches!(choose_github_tag(None, &GraphQlAnswer::Failed), TagStep::AskRest));
    assert!(matches!(choose_github_tag(None, &GraphQlAnswer::Best(None)), TagStep::AskRest));
    assert!(matches!(
        choose_github_tag(None, &GraphQlAnswer::Best(Some("v1.4.0".to_string()))),
        TagStep::Use(t) if t == "v1.4.0"
    ));
}

#[test]
fn versions_and_checksums() {
    assert_eq!(github_version(None, "v1.2.3"), "1.2.3");
    assert_eq!(github_version(Some("9.9.9"), "v1.2.3"), "9.9.9");
    assert_eq!(initial_crate_version(None, "0.5.0"), "0.5.0");
    assert_eq!(initial_crate_version(Some("0.4.1"), "0.5.0"), "0.4.1");
    assert_eq!(crates_io_checksum("given", Some("computed")), "computed");
    assert_eq!(crates_io_checksum("given", None), "given");
    assert_eq!(
        WorkflowError::NoValidVersion("fqtk".to_string()).message(),
        "No valid version found for fqtk"
    );
}

#[test]
fn member_search_steps() {
    let ws = meta("[workspace]\nmembers = [\"crates/*\", \"cli\"]\n");
    assert!(needs_member_search(&ws));
    let pkg = meta("[package]\nname = \"tool\"\nversion = \"0.1.0\"\n");
    assert!(!needs_member_search(&pkg));
    assert!(members_need_tree(&strings(&["crates/*", "cli"])));
    assert!(!members_need_tree(&strings(&["a", "b"])));
    assert_eq!(
        member_manifest_paths(&strings(&["cli", "crates/core"])),
        vec!["cli/Cargo.toml", "crates/core/Cargo.toml"]
    );
    let fetched = vec![
        ("cli/Cargo.toml".to_string(), "one".to_string()),
        ("cli/Cargo.toml".to_string(), "two".to_string()),
    ];
    assert_eq!(fetched_text(&fetched, "cli/Cargo.toml"), Some("one".to_string()));
    assert_eq!(fetched_text(&fetched, "core/Cargo.toml"), None);
}

#[test]
fn member_selection_error_names_target() {
    let members = vec![
        ("cli".to_string(), meta("[package]\nname = \"tool-cli\"\n")),
        ("lib".to_string(), meta("[package]\nname = \"tool\"\n")),
    ];
    assert_eq!(select_member("tool", &members).ok(), Some(1));
    match select_member("other", &members) {
        Err(e) => assert_eq!(
            e.message(),
            "Workspace has no member matching 'other'. Use --recipe-name to specify which crate to build."
        ),
        Ok(i) => panic!("unexpected member {i}"),
    }
}

#[test]
fn metadata_docs_fall_back_to_readme() {
    let m = CrateMetadata {
        license: Some("MIT".to_string()),
        description: Some("A tool".to_string()),
        homepage: None,
        repository: Some("https://github.com/o/tool".to_string()),
        documentation: None,
    };
    let r = repo("o", "tool");
    let mut b = RecipeBuilder::new("tool", "1.2.3");
    apply_metadata(&mut b, &m, Some((&r, "v1.2.3")), "1.2.3");
    let (recipe, _) = b.build();
    assert_eq!(recipe.about.license.as_deref(), Some("MIT"));
    assert_eq!(recipe.about.summary.as_deref(), Some("A tool"));
    assert_eq!(
        recipe.about.doc_url.as_deref(),
        Some("https://github.com/o/tool/blob/v{{ version }}/README.md")
    );

    let with_docs = CrateMetadata { documentation: Some("https://docs.rs/tool".to_string()), ..m };
    let mut b = RecipeBuilder::new("tool", "1.2.3");
    apply_metadata(&mut b, &with_docs, Some((&r, "v1.2.3")), "1.2.3");
    assert_eq!(b.build().0.about.doc_url.as_deref(), Some("https://docs.rs/tool"));
}

#[test]
fn crate_binaries_fall_back_to_crate_id() {
    let mut b = RecipeBuilder::new("tool", "1.0.0");
    apply_crate_binaries(&mut b, "tool", None, &Vec::new());
    assert_eq!(b.build().0.test.commands, vec!["tool --help"]);

    let root = meta("[package]\nname = \"tool\"\n\n[[bin]]\nname = \"tl\"\n");
    let mut b = RecipeBuilder::new("tool", "1.0.0");
    apply_crate_binaries(&mut b, "tool", Some(&root), &Vec::new());
    assert_eq!(b.build().0.test.commands, vec!["tl --help"]);

    let ws = meta("[workspace]\nmembers = [\"cli\"]\n");
    let members = vec![("cli".to_string(), meta("[package]\nname = \"tool\"\n"))];
    let mut b = RecipeBuilder::new("tool", "1.0.0");
    apply_crate_binaries(&mut b, "tool", Some(&ws), &members);
    let (recipe, script) = b.build();
    assert_eq!(recipe.test.commands, vec!["tool --help"]);
    assert!(script.to_build_sh().contains("--path cli"));

    let mut b = RecipeBuilder::new("tool", "1.0.0");
    apply_crate_binaries(&mut b, "missing", Some(&ws), &members);
    assert_eq!(b.build().0.test.commands, vec!["missing --help"]);
}

#[test]
fn direct_dependencies_include_build_deps() {
    let m = meta(
        "[package]\nname = \"t\"\n\n[dependencies]\nlibz-sys = \"1\"\nserde = \"1\"\n\n[build-dependencies]\ncc = \"1\"\n",
    );
    assert_eq!(direct_dependency_names(&m), vec!["libz-sys", "serde", "cc"]);
}

#[test]
fn source_tree_sets_license_files_and_hints() {
    let mut b = RecipeBuilder::new("tool", "1.0.0");
    let files = strings(&["README.md", "LICENSE-MIT", "LICENSE-APACHE", "src/main.rs", "docs/LICENSE"]);
    let hints = apply_source_tree(&mut b, &files);
    assert!(hints.is_empty());
    assert_eq!(b.build().0.about.license_file, vec!["LICENSE-APACHE", "LICENSE-MIT"]);

    let mut b = RecipeBuilder::new("tool", "1.0.0");
    let hints = apply_source_tree(&mut b, &strings(&["scripts/plot.R"]));
    assert_eq!(hints.len(), 1);
    assert_eq!(hints[0].package, "r-base");
    assert_eq!(b.build().0.about.license_file, vec!["LICENSE"]);
}

#[test]
fn maintainers_are_appended_in_order() {
    let mut b = RecipeBuilder::new("tool", "1.0.0");
    apply_maintainers(&mut b, &strings(&["a", "b"]));
    assert_eq!(b.build().0.extra.recipe_maintainers, vec!["a", "b"]);
}

#[test]
fn github_builder_uses_resolved_source_and_manifest() {
    let pkg = meta(
        "[package]\nname = \"tool\"\nlicense = \"MIT\"\ndescription = \"Does things\"\n",
    );
    let r = repo("o", "tool");
    let b = github_builder(
        "tool",
        "1.2.3",
        &pkg,
        None,
        &r,
        "v1.2.3",
        Some("crates/tool"),
        "https://github.com/o/tool/archive/v{{ version }}.tar.gz",
        "abc",
    );
    let (recipe, script) = b.build();
    assert_eq!(recipe.source.url, "https://github.com/o/tool/archive/v{{ version }}.tar.gz");
    assert_eq!(recipe.source.sha256, "abc");
    assert_eq!(recipe.about.license.as_deref(), Some("MIT"));
    assert_eq!(recipe.about.license_family.as_deref(), Some("MIT"));
    assert_eq!(recipe.about.summary.as_deref(), Some("Does things"));
    assert_eq!(recipe.about.home, None);
    assert_eq!(
        recipe.about.doc_url.as_deref(),
        Some("https://github.com/o/tool/blob/v{{ version }}/README.md")
    );
    assert!(script.to_build_sh().contains("--path crates/tool"));
}

#[test]
fn prefixed_version_tags_are_version_like() {
    assert!(looks_like_version_tag("tool-v1.2.3"));
    assert!(looks_like_version_tag("v.1.9.4"));
    assert!(!looks_like_version_tag("tool-vx"));
    assert!(!looks_like_version_tag("release"));
}

#[test]
fn license_family_spelled_as_listed() {
    assert_eq!(guess_license_family("Public Domain"), "PUBLIC-DOMAIN");
    assert_eq!(guess_license_family("BSD-3-Clause"), "BSD");
    assert_eq!(guess_license_family("Apache 2.0"), "APACHE");
    assert_eq!(guess_license_family("M.I.T"), "MIT");
    assert_eq!(guess_license_family("M I\tT\n"), "MIT");
    assert_eq!(guess_license_family("MI\rT"), "OTHER");
}

#[test]
fn crates_io_source_url_is_templated() {
    let mut b = RecipeBuilder::new("fqtk", "0.3.1");
    b.crates_io_source("/api/v1/crates/fqtk/0.3.1/download", "abc123sha");
    let recipe = b.build().0;
    assert_eq!(
        recipe.source.url,
        "https://crates.io/api/v1/crates/{{ name }}/{{ version }}/download"
    );
    assert_eq!(recipe.source.sha256, "abc123sha");
    let out = MetaYamlRenderer.render(&recipe);
    assert!(out.contains(&format!("  fn: {}\n", recipe.source.filename)));
}

#[test]
fn source_block_has_filename_line() {
    let src = Source {
        url: "https://example.org/a.tar.gz".to_string(),
        filename: "a-1.0.tar.gz".to_string(),
        sha256: "ff".to_string(),
    };
    let mut out = String::from("x");
    MetaYamlRenderer.render_source(&mut out, &src);
    assert_eq!(
        out,
        "xsource:\n  url: https://example.org/a.tar.gz\n  fn: a-1.0.tar.gz\n  sha256: ff\n\n"
    );
    let bare = Source { filename: String::new(), ..src };
    let mut out = String::new();
    MetaYamlRenderer.render_source(&mut out, &bare);
    assert_eq!(out, "source:\n  url: https://example.org/a.tar.gz\n  sha256: ff\n\n");
}

#[test]
fn bindgen_needs_c_compiler_and_stdlib() {
    let no_tools = BuildToolNeeds { pkg_config: false, make: false, cmake: false };
    let reqs = Requirements::for_rust_crate(false, false, false, true, &no_tools);
    let names: Vec<&str> = reqs.build.iter().map(|r| r.name.as_str()).collect();
    assert!(names.contains(&"{{ compiler('c') }}"));
    assert!(names.contains(&"{{ stdlib('c') }}"));
    assert!(names.contains(&"clangdev"));
    assert!(!names.contains(&"{{ compiler('cxx') }}"));
}

#[test]
fn license_family_emitted_only_when_asked() {
    let mut b = RecipeBuilder::new("t", "1.0.0");
    b.license("GPL-3.0-only");
    assert_eq!(b.build().0.about.license_family.as_deref(), Some("GPL3"));
    let mut b = RecipeBuilder::new("t", "1.0.0");
    b.license("GPL-3.0-only").emit_license_family(false);
    assert_eq!(b.build().0.about.license_family, None);
    let mut b = RecipeBuilder::new("t", "1.0.0");
    b.emit_license_family(false).license("MIT").emit_license_family(true);
    assert_eq!(b.build().0.about.license_family.as_deref(), Some("MIT"));
}

#[test]
fn toml_value_and_lock_names() {
    let doc = TomlValue::Table(vec![(
        "package".to_string(),
        TomlValue::Array(vec![
            TomlValue::Table(vec![("name".to_string(), TomlValue::Str("a".to_string()))]),
            TomlValue::Int(3),
            TomlValue::Table(vec![("name".to_string(), TomlValue::Str("b".to_string()))]),
        ]),
    )]);
    assert_eq!(lock_names_of(&doc), vec!["a", "b"]);
    let m = CargoMetadata::from_value(TomlValue::Table(vec![(
        "package".to_string(),
        TomlValue::Table(vec![("name".to_string(), TomlValue::Str("p".to_string()))]),
    )]));
    assert_eq!(m.package_name(), Some("p".to_string()));
    assert!(m.has_package());
    assert!(!m.is_workspace());
}

#[test]
fn renderer_sections_append_exact_text() {
    let mut out = String::new();
    let req = Requirement {
        name: "openssl".to_string(),
        version: Some(">=3".to_string()),
        selector: Some("not osx".to_string()),
    };
    MetaYamlRenderer.render_requirement(&mut out, &req);
    assert_eq!(out, "    - openssl >=3  # [not osx]\n");

    let about = About {
        home: Some("https://h".to_string()),
        license: Some("MIT".to_string()),
        license_family: None,
        license_file: vec!["LICENSE".to_string(), "THIRDPARTY.yml".to_string()],
        summary: Some("s".to_string()),
        dev_url: None,
        doc_url: None,
    };
    let mut out = String::new();
    MetaYamlRenderer.render_about(&mut out, &about);
    assert_eq!(
        out,
        "about:\n  home: https://h\n  license: MIT\n  license_file:\n    - LICENSE\n    - THIRDPARTY.yml\n  summary: s\n\n"
    );

    let build = Build {
        name: "t".to_string(),
        with_run_exports: true,
        max_pin: "x".to_string(),
        script: Some("a\nb".to_string()),
    };
    let mut out = String::new();
    MetaYamlRenderer.render_build(&mut out, &build);
    assert_eq!(
        out,
        "build:\n  number: 0\n  script: |\n    a\n    b\n  run_exports:\n    - {{ pin_subpackage(\"t\", max_pin=\"x\") }}\n\n"
    );
}

#[test]
fn build_requirement_names_are_distinct() {
    let tools = BuildToolNeeds { pkg_config: true, make: true, cmake: true };
    let reqs = Requirements::for_rust_crate(true, true, true, true, &tools);
    let names: Vec<&str> = reqs.build.iter().map(|r| r.name.as_str()).collect();
    assert_eq!(
        names,
        vec![
            "{{ compiler('c') }}",
            "{{ compiler('cxx') }}",
            "{{ stdlib('c') }}",
            "{{ compiler('rust') }}",
            "cargo-bundle-licenses",
            "clangdev",
            "pkg-config",
            "make",
            "cmake",
        ]
    );
    assert!(reqs.build.iter().all(|r| r.version.is_none() && r.selector.is_none()));
    assert!(reqs.host.is_empty() && reqs.run.is_empty());
}
