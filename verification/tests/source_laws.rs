use redskull::json::JsonValue;
use redskull::source::{
    api_tarball_url, candidate_tags, choose_latest_tag, compare_version_strings, crates_io_url,
    github_archive_url, has_prerelease_marker, is_prerelease_tag, is_valid_sha256,
    latest_github_release_from, looks_like_version_tag, raw_file_url, readme_doc_url,
    release_tag_from_json, resolve_with_archive, sha256_hex, tag_archive_url, tag_name_from_json,
    tag_to_jinja_template, tag_to_version, tree_api_url, tree_paths_from_json, GitHubRepo,
    SourceError,
};

fn s(x: &str) -> JsonValue {
    JsonValue::Str(x.to_string())
}

fn obj(fields: Vec<(&str, JsonValue)>) -> JsonValue {
    JsonValue::Object(fields.into_iter().map(|(k, v)| (k.to_string(), v)).collect())
}

fn repo(owner: &str, name: &str) -> GitHubRepo {
    GitHubRepo { owner: owner.to_string(), name: name.to_string() }
}

#[test]
fn from_url_rejects_non_github_urls() {
    match GitHubRepo::from_url("https://gitlab.com/owner/repo") {
        Err(SourceError::NotGitHubUrl(u)) => assert_eq!(u, "https://gitlab.com/owner/repo"),
        _ => panic!("expected NotGitHubUrl"),
    }
    let e = GitHubRepo::from_url("https://gitlab.com/x").err().unwrap();
    assert_eq!(e.message(), "URL is not a GitHub URL: https://gitlab.com/x");
}

#[test]
fn from_url_without_slash_is_unparseable() {
    match GitHubRepo::from_url("github.com///") {
        Err(SourceError::UnparseableGitHubUrl(u)) => assert_eq!(u, "github.com"),
        _ => panic!("expected UnparseableGitHubUrl"),
    }
    let e = GitHubRepo::from_url("github.com.git").err().unwrap();
    assert_eq!(e.message(), "Cannot parse GitHub URL: github.com");
}

#[test]
fn from_url_trims_repeated_suffixes() {
    let r = GitHubRepo::from_url("https://github.com/owner/repo.git.git").unwrap();
    assert_eq!((r.owner.as_str(), r.name.as_str()), ("owner", "repo"));
    let r = GitHubRepo::from_url("https://github.com/owner/repo///").unwrap();
    assert_eq!((r.owner.as_str(), r.name.as_str()), ("owner", "repo"));
    // a slash after .git keeps the .git from being trimmed first
    let r = GitHubRepo::from_url("https://github.com/owner/repo.git/").unwrap();
    assert_eq!(r.name, "repo");
    let r = GitHubRepo::from_url("github.com/repo").unwrap();
    assert_eq!((r.owner.as_str(), r.name.as_str()), ("github.com", "repo"));
}

#[test]
fn repo_home_round_trip_examples() {
    for (owner, name) in [("bacpop", "ska.rust"), ("a", "b"), ("fg-labs", "redskull")] {
        let url = format!("https://github.com/{owner}/{name}");
        for suffix in ["", "/", ".git"] {
            let r = GitHubRepo::from_url(&format!("{url}{suffix}")).unwrap();
            assert_eq!(r.owner, owner);
            assert_eq!(r.name, name);
        }
    }
}

#[test]
fn url_builders() {
    let r = repo("o", "n");
    assert_eq!(tag_archive_url(&r, "v1.0"), "https://github.com/o/n/archive/v1.0.tar.gz");
    assert_eq!(github_archive_url(&r, "1.0", "v"), "https://github.com/o/n/archive/v1.0.tar.gz");
    assert_eq!(api_tarball_url(&r, "v1"), "https://api.github.com/repos/o/n/tarball/v1");
    assert_eq!(
        tree_api_url(&r, "v1"),
        "https://api.github.com/repos/o/n/git/trees/v1?recursive=1"
    );
    assert_eq!(
        raw_file_url(&r, "v1", "Cargo.toml"),
        "https://raw.githubusercontent.com/o/n/v1/Cargo.toml"
    );
    assert_eq!(
        readme_doc_url(&r, "v1.2.3", "1.2.3"),
        "https://github.com/o/n/blob/v{{ version }}/README.md"
    );
    assert_eq!(crates_io_url("https://crates.io", "/api/v1/x"), "https://crates.io/api/v1/x");
}

#[test]
fn jinja_template_replaces_every_occurrence() {
    assert_eq!(tag_to_jinja_template("v1.2.3", "1.2.3"), "v{{ version }}");
    assert_eq!(tag_to_jinja_template("1.0-1.0", "1.0"), "{{ version }}-{{ version }}");
    assert_eq!(tag_to_jinja_template("release", "1.0"), "release");
}

#[test]
fn candidate_tags_prefer_v_prefix() {
    assert_eq!(candidate_tags("0.3.1", None), vec!["v0.3.1", "0.3.1"]);
    assert_eq!(candidate_tags("0.3.1", Some("tool-0.3.1")), vec!["tool-0.3.1"]);
}

#[test]
fn tag_version_edge_cases() {
    assert_eq!(tag_to_version("version1"), "ersion1");
    assert_eq!(tag_to_version(""), "");
    assert_eq!(tag_to_version("v."), "");
    assert!(!looks_like_version_tag("v."));
    assert!(!looks_like_version_tag("vv1"));
    assert!(looks_like_version_tag("9"));
}

#[test]
fn prerelease_detection_ignores_case() {
    assert!(is_prerelease_tag("V1.0.0-RC1"));
    assert!(is_prerelease_tag("1.0.BETA"));
    assert!(!is_prerelease_tag("v1.0.0"));
    assert!(has_prerelease_marker("1.0-dev"));
    assert!(!has_prerelease_marker("1.0-DEV"));
}

#[test]
fn version_comparison_is_numeric_and_lexicographic() {
    assert!(compare_version_strings("1.10.0", "1.9.0"));
    assert!(!compare_version_strings("1.9.0", "1.10.0"));
    assert!(compare_version_strings("1.2.3.1", "1.2.3"));
    assert!(!compare_version_strings("1.2.3-rc1", "1.2.3"));
    assert!(compare_version_strings("+5", "4"));
    assert!(compare_version_strings("99999999999999999999.1", "0.2"));
    assert!(!compare_version_strings("", ""));
}

#[test]
fn version_comparison_is_a_strict_order() {
    let vs = ["1.0", "1.0.0", "0.9", "2", "1.0-2", "abc", ""];
    for a in vs {
        assert!(!compare_version_strings(a, a));
        for b in vs {
            if compare_version_strings(a, b) {
                assert!(!compare_version_strings(b, a));
            }
            for c in vs {
                if compare_version_strings(a, b) && compare_version_strings(b, c) {
                    assert!(compare_version_strings(a, c));
                }
            }
        }
    }
}

#[test]
fn sha256_hex_known_digests() {
    let empty = sha256_hex(b"");
    assert_eq!(empty, "e3b0c44298fc1c149afbf4c8996fb92427ae41e4649b934ca495991b7852b855");
    let abc = sha256_hex(b"abc");
    assert_eq!(abc, "ba7816bf8f01cfea414140de5dae2223b00361a396177a9cb410ff61f20015ad");
    assert!(is_valid_sha256(&abc));
}

#[test]
fn sha256_validity() {
    assert!(is_valid_sha256(&"AbCdEf01".repeat(8)));
    assert!(!is_valid_sha256(&"a".repeat(63)));
    assert!(!is_valid_sha256(&"g".repeat(64)));
    assert!(!is_valid_sha256(&"é".repeat(32)));
}

#[test]
fn resolve_with_archive_templates_and_hashes() {
    let r = repo("fulcrumgenomics", "fqtk");
    let res = resolve_with_archive(&r, "0.3.1", "v0.3.1", false, b"abc");
    assert_eq!(res.url_template, "https://github.com/fulcrumgenomics/fqtk/archive/v{{ version }}.tar.gz");
    assert_eq!(res.sha256, "ba7816bf8f01cfea414140de5dae2223b00361a396177a9cb410ff61f20015ad");
    assert_eq!(res.tag, "v0.3.1");
    let res = resolve_with_archive(&r, "0.3.1", "0.3.1", true, b"");
    assert_eq!(
        res.url_template,
        "https://github.com/fulcrumgenomics/fqtk/archive/refs/tags/{{ version }}.tar.gz"
    );
}

#[test]
fn choose_latest_prefers_newer_tag() {
    assert_eq!(choose_latest_tag(Some("v1.2.0"), Some("v1.10.0")), Some("v1.10.0".to_string()));
    assert_eq!(choose_latest_tag(Some("v1.2.0"), Some("1.2.0")), Some("v1.2.0".to_string()));
    assert_eq!(choose_latest_tag(None, Some("1.0")), Some("1.0".to_string()));
    assert_eq!(choose_latest_tag(Some("1.0"), None), Some("1.0".to_string()));
    assert_eq!(choose_latest_tag(None, None), None);
}

#[test]
fn releases_and_tags_bodies() {
    let releases = JsonValue::Array(vec![
        obj(vec![("tag_name", s("v2.0.0")), ("prerelease", JsonValue::Bool(true))]),
        obj(vec![("tag_name", s("v1.9.0")), ("draft", JsonValue::Bool(true))]),
        obj(vec![("tag_name", s("nightly"))]),
        obj(vec![("tag_name", s("v1.8.0-rc.1"))]),
        obj(vec![("tag_name", s("v1.7.0"))]),
        obj(vec![("tag_name", s("v1.6.0"))]),
    ]);
    assert_eq!(release_tag_from_json(Some(&releases)), Some("v1.7.0".to_string()));
    let tags = JsonValue::Array(vec![obj(vec![("name", s("latest"))]), obj(vec![("name", s("v1.10.0"))])]);
    assert_eq!(tag_name_from_json(Some(&tags)), Some("v1.10.0".to_string()));
    assert_eq!(tag_name_from_json(Some(&s("x"))), None);
    let r = repo("o", "n");
    assert_eq!(latest_github_release_from(&r, Some(&releases), Some(&tags)).unwrap(), "v1.10.0");
    assert_eq!(latest_github_release_from(&r, Some(&releases), None).unwrap(), "v1.7.0");
    let err = latest_github_release_from(&r, None, None).err().unwrap();
    assert_eq!(
        err.message(),
        "No version-like tags found for o/n. Use --tag to specify the release tag manually."
    );
}

#[test]
fn tree_paths_from_trees_api() {
    let body = obj(vec![(
        "tree",
        JsonValue::Array(vec![
            obj(vec![("path", s("LICENSE"))]),
            obj(vec![("type", s("blob"))]),
            obj(vec![("path", s("src/main.rs"))]),
        ]),
    )]);
    assert_eq!(tree_paths_from_json(&body), vec!["LICENSE", "src/main.rs"]);
    assert!(tree_paths_from_json(&obj(vec![])).is_empty());
}
