use redskull::build_script::BuildScript;
use redskull::conda::{normalized_pkg_name, package_url, pkg_name_candidates};
use redskull::crate_inspector::{
    detect_license_files, license_files_from, parse_cargo_lock_str, resolve_workspace_members,
    CargoMetadata, CrateError,
};
use redskull::github_graphql::{
    best_version_tag, discovery_from_json, discovery_query, files_from_json, files_query,
    graphql_request, parse_tree_entries, tree_entries_fragment, GraphQlError, RepoDiscovery,
};
use redskull::json::JsonValue;
use redskull::pipeline::{
    choose_recipe_name, configure_builder, find_workspace_member, get_software_version,
    next_version_index, recipe_document, resolve_effective_deps, select_maintainers,
    RecipeOptions,
};
use redskull::recipe_builder::RecipeBuilder;
use redskull::renderer::{MetaYamlRenderer, Renderer};
use redskull::runtime_deps::{detect_runtime_hints, runtime_hints_from};
use redskull::source::GitHubRepo;

fn s(x: &str) -> JsonValue {
    JsonValue::Str(x.to_string())
}

fn obj(fields: Vec<(&str, JsonValue)>) -> JsonValue {
    JsonValue::Object(fields.into_iter().map(|(k, v)| (k.to_string(), v)).collect())
}

fn strings(v: &[&str]) -> Vec<String> {
    v.iter().map(|x| x.to_string()).collect()
}

#[test]
fn cargo_lock_names_in_order() {
    let lock = "version = 3\n\n[[package]]\nname = \"b\"\n\n[[package]]\nname = \"a\"\n\n[[package]]\nversion = \"1\"\n";
    assert_eq!(parse_cargo_lock_str(lock).unwrap(), vec!["b", "a"]);
    match parse_cargo_lock_str("[[") {
        Err(CrateError::InvalidCargoLock(_)) => {}
        _ => panic!("expected InvalidCargoLock"),
    }
}

#[test]
fn cargo_toml_errors_and_messages() {
    let e = CargoMetadata::from_toml_str("name = ").err().unwrap();
    assert!(matches!(e, CrateError::InvalidCargoToml(_)));
    assert!(e.message().starts_with("Failed to parse Cargo.toml: "));
}

#[test]
fn dependencies_come_in_table_order() {
    let meta = CargoMetadata::from_toml_str(
        "[dependencies]\nzeta = \"1\"\nalpha = { version = \"1\", optional = true }\n[build-dependencies]\ncc = { version = \"1\", optional = true }\n",
    )
    .unwrap();
    assert_eq!(
        meta.dependencies(),
        vec![("alpha".to_string(), true), ("zeta".to_string(), false)]
    );
    assert_eq!(meta.build_dependencies(), vec!["cc"]);
    assert_eq!(meta.package_name(), None);
    assert!(meta.binary_names().is_empty());
    assert!(!meta.has_package());
}

#[test]
fn workspace_field_table_without_flag_is_none() {
    let ws = CargoMetadata::from_toml_str("[workspace.package]\nlicense = \"MIT\"\n").unwrap();
    let member = CargoMetadata::from_toml_str(
        "[package]\nname = \"m\"\nlicense = { workspace = false }\nversion = 3\n",
    )
    .unwrap();
    assert_eq!(member.license(Some(&ws)), None);
    assert_eq!(member.version(Some(&ws)), None);
    let member = CargoMetadata::from_toml_str("[package]\nlicense.workspace = true\n").unwrap();
    assert_eq!(member.license(Some(&ws)), Some("MIT".to_string()));
    assert_eq!(member.homepage(Some(&ws)), None);
}

#[test]
fn workspace_members_keep_strings_only() {
    let meta =
        CargoMetadata::from_toml_str("[workspace]\nmembers = [\"a\", 3, \"crates/*\"]\n").unwrap();
    assert_eq!(meta.workspace_members(), vec!["a", "crates/*"]);
    assert!(meta.is_workspace());
}

#[test]
fn literal_members_are_unchanged_and_globs_dedup() {
    let members = strings(&["x", "x", "y"]);
    assert_eq!(resolve_workspace_members(&members, &strings(&["x/Cargo.toml"])), members);
    let members = strings(&["crates/foo", "crates/*", "cr*"]);
    let tree = strings(&["crates/foo/Cargo.toml", "crates/bar/Cargo.toml", "crates/a/b/Cargo.toml"]);
    assert_eq!(
        resolve_workspace_members(&members, &tree),
        vec!["crates/foo", "crates/bar"]
    );
}

#[test]
fn license_files_sorted_case_insensitive() {
    let files = strings(&["license.txt", "COPYING", "Licence-MIT", "docs/LICENSE", "README"]);
    assert_eq!(detect_license_files(&files), vec!["COPYING", "Licence-MIT", "license.txt"]);
    let pairs = vec![
        ("b".to_string(), "LICENSE-B".to_string()),
        ("a".to_string(), "LICENSE-A".to_string()),
        ("a".to_string(), "LICENSE-A".to_string()),
    ];
    assert_eq!(license_files_from(&pairs), vec!["a", "a", "b"]);
}

#[test]
fn runtime_hints_use_lower_case_paths() {
    let files = strings(&["scripts/PLOT.R", "x/renv.lock"]);
    let hints = detect_runtime_hints(&files);
    assert_eq!(hints.len(), 1);
    assert_eq!(hints[0].package, "r-base");
    assert_eq!(hints[0].reason, "found 1 R script(s): scripts/PLOT.R");
    let pairs = vec![("DESCRIPTION".to_string(), "description".to_string())];
    let hints = runtime_hints_from(&pairs);
    assert_eq!(hints[0].reason, "found DESCRIPTION file (R package)");
    let pairs = vec![("a/requirements.txt".to_string(), "a/requirements.txt".to_string())];
    let hints = runtime_hints_from(&pairs);
    assert_eq!((hints[0].package, hints[0].reason.as_str()), ("python", "found requirements.txt file"));
}

#[test]
fn runtime_hints_list_at_most_three_scripts() {
    let files = strings(&["a.py", "b.py", "c.py", "d.py", "setup.py"]);
    let hints = detect_runtime_hints(&files);
    assert_eq!(hints[0].reason, "found 4 Python script(s): a.py, b.py, c.py");
}

#[test]
fn conda_name_candidates() {
    assert_eq!(pkg_name_candidates("rust-htslib"), vec!["rust-htslib", "rust_htslib"]);
    assert_eq!(pkg_name_candidates("a_b-c"), vec!["a_b-c", "a_b_c", "a-b-c"]);
    assert_eq!(pkg_name_candidates("zlib"), vec!["zlib"]);
    let c = pkg_name_candidates("a_b-c");
    assert_eq!(normalized_pkg_name("a_b-c", &c, &vec![false, true]), "a_b_c");
    assert_eq!(normalized_pkg_name("a_b-c", &c, &vec![false, false, false]), "a_b-c");
    assert_eq!(normalized_pkg_name("a_b-c", &c, &vec![]), "a_b-c");
    assert_eq!(package_url("conda-forge", "zlib"), "https://api.anaconda.org/package/conda-forge/zlib");
}

#[test]
fn tree_fragment_nests() {
    assert_eq!(tree_entries_fragment(0), "entries { name type }");
    assert_eq!(
        tree_entries_fragment(1),
        "entries { name type object { ... on Tree { entries { name type } } } }"
    );
    let q = discovery_query("v1");
    assert!(q.contains("rootCargo: object(expression: \"v1:Cargo.toml\")"));
    assert!(q.contains("tree: object(expression: \"v1:\")"));
}

fn tree_entry(name: &str, ty: &str, object: Option<JsonValue>) -> JsonValue {
    let mut fields = vec![("name", s(name)), ("type", s(ty))];
    if let Some(o) = object {
        fields.push(("object", o));
    }
    obj(fields)
}

#[test]
fn graphql_tree_is_flattened() {
    let inner = obj(vec![(
        "entries",
        JsonValue::Array(vec![tree_entry("main.rs", "blob", None)]),
    )]);
    let tree = obj(vec![(
        "entries",
        JsonValue::Array(vec![
            tree_entry("LICENSE", "blob", None),
            tree_entry("src", "tree", Some(inner)),
            tree_entry("sub", "commit", None),
            obj(vec![("type", s("blob"))]),
        ]),
    )]);
    assert_eq!(
        parse_tree_entries(Some(&tree), ""),
        vec!["LICENSE", "src", "src/main.rs", "sub"]
    );
    assert_eq!(parse_tree_entries(Some(&tree), "x"), vec!["x/LICENSE", "x/src", "x/src/main.rs", "x/sub"]);
    assert!(parse_tree_entries(None, "").is_empty());
}

#[test]
fn graphql_discovery_reading() {
    let repo = GitHubRepo { owner: "o".to_string(), name: "n".to_string() };
    let errors = obj(vec![(
        "errors",
        JsonValue::Array(vec![obj(vec![("message", s("bad"))]), obj(vec![("message", s("worse"))])]),
    )]);
    match discovery_from_json(&repo, &errors) {
        Err(GraphQlError::QueryErrors(who, msgs)) => {
            assert_eq!(who, "o/n");
            assert_eq!(msgs, "bad; worse");
        }
        _ => panic!("expected QueryErrors"),
    }
    let e = discovery_from_json(&repo, &obj(vec![])).err().unwrap();
    assert!(matches!(e, GraphQlError::NoRepositoryData));
    assert_eq!(e.message(), "No repository data in GraphQL response");
    let data = obj(vec![
        (
            "releases",
            obj(vec![(
                "nodes",
                JsonValue::Array(vec![
                    obj(vec![("tagName", s("v2.0.0")), ("isDraft", JsonValue::Bool(true))]),
                    obj(vec![("tagName", s("v1.0.0-rc.1"))]),
                    obj(vec![("tagName", s("latest"))]),
                ]),
            )]),
        ),
        (
            "refs",
            obj(vec![(
                "nodes",
                JsonValue::Array(vec![obj(vec![("name", s("v1.0.0-rc.1"))]), obj(vec![("name", s("v0.9.0"))])]),
            )]),
        ),
        ("rootCargo", obj(vec![("text", s("[package]"))])),
        (
            "tree",
            obj(vec![("entries", JsonValue::Array(vec![tree_entry("Cargo.toml", "blob", None)]))]),
        ),
    ]);
    let json = obj(vec![("errors", JsonValue::Array(vec![])), ("data", obj(vec![("repository", data)]))]);
    let d = discovery_from_json(&repo, &json).unwrap();
    assert_eq!(d.release_tags, vec!["v1.0.0-rc.1"]);
    assert_eq!(d.ref_tags, vec!["v0.9.0"]);
    assert_eq!(d.tree, vec!["Cargo.toml"]);
    assert_eq!(d.root_cargo_toml, Some("[package]".to_string()));
    assert_eq!(best_version_tag(&d), Some("v1.0.0-rc.1".to_string()));
}

#[test]
fn best_version_tag_cases() {
    let d = |r: &[&str], t: &[&str]| RepoDiscovery {
        release_tags: strings(r),
        ref_tags: strings(t),
        tree: vec![],
        root_cargo_toml: None,
    };
    assert_eq!(best_version_tag(&d(&["v1.0.0"], &["v1.0.0"])), Some("v1.0.0".to_string()));
    assert_eq!(best_version_tag(&d(&["v1.0.0"], &["v1.1.0"])), Some("v1.1.0".to_string()));
    assert_eq!(best_version_tag(&d(&["v1.2.0"], &["v1.1.0"])), Some("v1.2.0".to_string()));
    assert_eq!(best_version_tag(&d(&[], &["v1.1.0"])), Some("v1.1.0".to_string()));
    assert_eq!(best_version_tag(&d(&[], &[])), None);
}

#[test]
fn graphql_files() {
    let q = files_query("v1", &strings(&["a/Cargo.toml", "b/Cargo.toml"]));
    assert_eq!(
        q,
        "query($owner: String!, $repo: String!) {\n  repository(owner: $owner, name: $repo) {\n  file_0: object(expression: \"v1:a/Cargo.toml\") {\n    ... on Blob { text }\n  }\n  file_1: object(expression: \"v1:b/Cargo.toml\") {\n    ... on Blob { text }\n  }\n  }\n}"
    );
    let data = obj(vec![("file_1", obj(vec![("text", s("B"))])), ("file_0", JsonValue::Null)]);
    let json = obj(vec![("data", obj(vec![("repository", data)]))]);
    let files = files_from_json(&json, &strings(&["a", "b"])).unwrap();
    assert_eq!(files, vec![("b".to_string(), "B".to_string())]);
    assert!(files_from_json(&obj(vec![]), &strings(&["a"])).is_err());
    let repo = GitHubRepo { owner: "o".to_string(), name: "n".to_string() };
    match graphql_request("q", &repo) {
        JsonValue::Object(fields) => {
            assert_eq!(fields[0].0, "query");
            assert_eq!(fields[1].0, "variables");
        }
        _ => panic!("expected an object"),
    }
}

#[test]
fn software_version_strings() {
    assert_eq!(get_software_version("1.0", Some("0123456789abcdef"), Some(true)), "1.0-01234567-dirty");
    assert_eq!(get_software_version("1.0", None, Some(false)), "1.0");
    assert_eq!(get_software_version("1.0", None, None), "1.0");
}

#[test]
fn effective_deps_prefer_lockfile() {
    let lock = strings(&["zeta", "alpha", "zeta", "beta", "alpha"]);
    assert_eq!(resolve_effective_deps(Some(&lock), &strings(&["x"])), vec!["alpha", "beta", "zeta"]);
    assert_eq!(resolve_effective_deps(None, &strings(&["x", "x"])), vec!["x", "x"]);
    assert!(resolve_effective_deps(Some(&vec![]), &strings(&["x"])).is_empty());
}

#[test]
fn workspace_member_selection() {
    let a = CargoMetadata::from_toml_str("[package]\nname = \"a-cli\"\n[[bin]]\nname = \"tool\"\n").unwrap();
    let b = CargoMetadata::from_toml_str("[package]\nname = \"tool\"\n").unwrap();
    let c = CargoMetadata::from_toml_str("[package]\nname = \"c\"\n").unwrap();
    let metas = vec![("m/a".to_string(), a), ("m/b".to_string(), b), ("m/c".to_string(), c)];
    assert_eq!(find_workspace_member("tool", &metas), Some(1));
    assert_eq!(find_workspace_member("a-cli", &metas), Some(0));
    assert_eq!(find_workspace_member("c", &metas), Some(2));
    assert_eq!(find_workspace_member("none", &metas), None);
    let metas2 = vec![(
        "x".to_string(),
        CargoMetadata::from_toml_str("[package]\nname = \"x\"\n[[bin]]\nname = \"tool\"\n").unwrap(),
    )];
    assert_eq!(find_workspace_member("tool", &metas2), Some(0));
}

#[test]
fn maintainers_selection() {
    let authors = strings(&["alice", "github:org:team", "bob"]);
    assert_eq!(select_maintainers(&authors, &vec![]), vec!["alice", "bob"]);
    assert_eq!(select_maintainers(&authors, &strings(&["carol"])), vec!["carol"]);
}

#[test]
fn small_decisions() {
    assert_eq!(choose_recipe_name(Some("x"), Some("y".to_string()), "z"), "x");
    assert_eq!(choose_recipe_name(None, Some("y".to_string()), "z"), "y");
    assert_eq!(choose_recipe_name(None, None, "z"), "z");
    assert_eq!(next_version_index(None, 3), Some(0));
    assert_eq!(next_version_index(Some(1), 3), Some(2));
    assert_eq!(next_version_index(Some(2), 3), None);
    assert_eq!(next_version_index(None, 0), None);
}

fn options() -> RecipeOptions {
    RecipeOptions {
        bioconda: true,
        cargo_bundle_licenses: None,
        host_dep: strings(&["extra-lib"]),
        run_dep: strings(&["samtools"]),
        test_command: vec![],
        skip_platform: strings(&["osx"]),
        max_pin: Some("x".to_string()),
        cargo_net_git_fetch: false,
        test_version: true,
        strip: true,
        license_family: Some(false),
        identifier: strings(&["doi:10.1/x"]),
        workspace_path: None,
    }
}

#[test]
fn configure_builder_applies_options_and_deps() {
    let mut builder = RecipeBuilder::new("tool", "1.0.0");
    builder.github_source("o", "tool", "abc").license("MIT").add_binary("tool");
    let hosts = configure_builder(&mut builder, &options(), &["openssl-sys", "libz-sys", "serde"]);
    assert_eq!(hosts, vec![("openssl", Some("not osx")), ("zlib", None)]);
    let (recipe, script) = builder.build();
    let out = MetaYamlRenderer.render(&recipe);
    assert!(out.contains("{{ compiler('c') }}"));
    assert!(out.contains("{{ stdlib('c') }}"));
    assert!(out.contains("cargo-bundle-licenses"));
    assert!(out.contains("- openssl  # [not osx]"));
    assert!(out.contains("- extra-lib"));
    assert!(out.contains("- samtools"));
    assert!(out.contains("max_pin=\"x\""));
    assert!(out.contains("tool --version"));
    assert!(!out.contains("license_family"));
    assert!(out.contains("doi:10.1/x"));
    assert!(recipe.build.script.is_none());
    assert!(script.needs_build_sh());
    assert!(script.to_build_sh().contains("${STRIP}"));
    let run_names: Vec<&str> = recipe.requirements.run.iter().map(|r| r.name.as_str()).collect();
    assert_eq!(run_names, vec!["openssl", "zlib", "extra-lib", "samtools"]);
}

#[test]
fn recipe_document_appends_build_sh() {
    let mut builder = RecipeBuilder::new("tool", "1.0.0");
    builder.github_source("o", "tool", "abc").add_binary("tool");
    let (recipe, script) = builder.build();
    let doc = recipe_document(&recipe, &script);
    assert_eq!(doc, MetaYamlRenderer.render(&recipe));
    let mut builder = RecipeBuilder::new("tool", "1.0.0");
    builder.github_source("o", "tool", "abc").add_binary("tool").bioconda(true);
    let (recipe, script) = builder.build();
    let doc = recipe_document(&recipe, &script);
    assert!(doc.contains("---\n# build.sh\n"));
    assert!(doc.ends_with(&script.to_build_sh()));
    let plain = BuildScript::new();
    assert!(!plain.needs_build_sh());
}

#[test]
fn builder_laws_on_examples() {
    let mut builder = RecipeBuilder::new("t", "1");
    builder.add_host_dep("h", Some("linux")).add_test_command("t run").add_binary("t");
    let (recipe, script) = builder.build();
    let host: Vec<(&str, Option<&str>)> =
        recipe.requirements.host.iter().map(|r| (r.name.as_str(), r.selector.as_deref())).collect();
    let run: Vec<(&str, Option<&str>)> =
        recipe.requirements.run.iter().map(|r| (r.name.as_str(), r.selector.as_deref())).collect();
    assert_eq!(host, vec![("h", Some("linux"))]);
    assert_eq!(run, vec![("h", Some("linux"))]);
    assert_eq!(recipe.test.commands, vec!["t run"]);
    assert_eq!(recipe.build.script.is_none(), script.needs_build_sh());
}
