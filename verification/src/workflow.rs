//! The choices of a recipe run, in the order the run meets them: which
//! source to download, which tag and version to build, which manifest and
//! workspace member describe the crate, and how their metadata fills the
//! builder. The caller makes the requests these choices ask for and hands
//! back what came of them.
use vstd::prelude::*;

use crate::crate_inspector::{
    binary_names_of, opt_string, package_field, string_views, toml_get, CargoMetadata, TomlValue,
};
use crate::github_graphql::RepoDiscovery;
use crate::pipeline::{find_workspace_member, member_for, metas_of};
use crate::recipe_builder::{github_filename, new_builder, BuilderView, RecipeBuilder};
use crate::source::{
    jinja_tag, readme_doc_url, repo_home, repo_parts, tag_to_version, version_of_tag, GitHubRepo,
};
use crate::crate_inspector::{detect_license_files, license_candidates, sort_strings, upper_pairs};
use crate::runtime_deps::{detect_runtime_hints, lowered_pairs, runtime_hints, RuntimeHint};
use crate::text::{contains_char, has_char, has_sub, text_eq};

verus! {

/// Why a run stopped.
#[derive(Debug)]
pub enum WorkflowError {
    /// No published version of the crate had fetchable dependencies; holds the crate id.
    NoValidVersion(String),
    /// No workspace member matches the target name; holds the name.
    NoMatchingMember(String),
}

impl WorkflowError {
    /// A one-line description of the error.
    pub fn message(&self) -> (r: String)
        ensures
            r@ == (match self {
                WorkflowError::NoValidVersion(id) => "No valid version found for "@ + id@,
                WorkflowError::NoMatchingMember(t) => "Workspace has no member matching '"@ + t@
                    + "'. Use --recipe-name to specify which crate to build."@,
            }),
    {
        match self {
            WorkflowError::NoValidVersion(id) => {
                let mut r = String::from_str("No valid version found for ");
                r.append(id.as_str());
                r
            },
            WorkflowError::NoMatchingMember(t) => {
                let mut r = String::from_str("Workspace has no member matching '");
                r.append(t.as_str());
                r.append("'. Use --recipe-name to specify which crate to build.");
                r
            },
        }
    }
}

/// Where the archive of a crate comes from.
pub enum SourceChoice {
    /// The crates.io tarball.
    CratesIo,
    /// The release archive of this GitHub repository.
    GitHub(GitHubRepo),
}

/// The source to download: crates.io when it was asked for, when the crate
/// names no GitHub repository, or after the GitHub download failed; the
/// GitHub repository otherwise.
pub fn choose_source(crates_io: bool, repository: Option<&str>, github_failed: bool) -> (r:
    SourceChoice)
    ensures
        crates_io || github_failed ==> r is CratesIo,
        !crates_io && !github_failed ==> match repository {
            Some(u) => if has_sub(u@, "github.com"@) && repo_parts(u@) is Some {
                r matches SourceChoice::GitHub(repo) && repo.owner@ == repo_parts(u@).unwrap().0
                    && repo.name@ == repo_parts(u@).unwrap().1
            } else {
                r is CratesIo
            },
            None => r is CratesIo,
        },
{
    if crates_io || github_failed {
        return SourceChoice::CratesIo;
    }
    match repository {
        Some(u) => match GitHubRepo::from_url(u) {
            Ok(repo) => SourceChoice::GitHub(repo),
            Err(_) => SourceChoice::CratesIo,
        },
        None => SourceChoice::CratesIo,
    }
}

/// The crate version to try first: the one asked for, else the newest.
pub fn initial_crate_version(crate_version: Option<&str>, max_version: &str) -> (r: String)
    ensures
        r@ == (match crate_version {
            Some(v) => v@,
            None => max_version@,
        }),
{
    match crate_version {
        Some(v) => String::from_str(v),
        None => String::from_str(max_version),
    }
}

/// The checksum to record for a crates.io source: the one computed from the
/// downloaded archive when the download succeeded, else the one crates.io
/// gave.
pub fn crates_io_checksum(provided: &str, computed: Option<&str>) -> (r: String)
    ensures
        r@ == (match computed {
            Some(c) => c@,
            None => provided@,
        }),
{
    match computed {
        Some(c) => String::from_str(c),
        None => String::from_str(provided),
    }
}

/// What the GraphQL discovery of the latest tag gave.
pub enum GraphQlAnswer {
    /// The query was not made yet.
    NotAsked,
    /// The query failed.
    Failed,
    /// The query answered with this best version tag, if any.
    Best(Option<String>),
}

/// The next step in choosing the tag of a GitHub-only crate.
pub enum TagStep {
    /// Build from this tag.
    Use(String),
    /// Ask GraphQL for the releases and tags.
    AskGraphQl,
    /// Ask the REST API for the latest release.
    AskRest,
}

/// The tag of a GitHub-only crate: the one asked for; else the best tag the
/// GraphQL discovery found; else, when GraphQL failed or found none, the
/// latest release from the REST API.
pub fn choose_github_tag(tag_override: Option<&str>, graphql: &GraphQlAnswer) -> (r: TagStep)
    ensures
        tag_override matches Some(t) ==> (r matches TagStep::Use(x) && x@ == t@),
        tag_override is None ==> match graphql {
            GraphQlAnswer::NotAsked => r is AskGraphQl,
            GraphQlAnswer::Failed => r is AskRest,
            GraphQlAnswer::Best(None) => r is AskRest,
            GraphQlAnswer::Best(Some(t)) => r matches TagStep::Use(x) && x@ == t@,
        },
{
    match tag_override {
        Some(t) => TagStep::Use(String::from_str(t)),
        None => match graphql {
            GraphQlAnswer::NotAsked => TagStep::AskGraphQl,
            GraphQlAnswer::Failed => TagStep::AskRest,
            GraphQlAnswer::Best(None) => TagStep::AskRest,
            GraphQlAnswer::Best(Some(t)) => TagStep::Use(t.clone()),
        },
    }
}

/// The version built from a tag: the one asked for, else the tag without its
/// version prefix.
pub fn github_version(version_override: Option<&str>, tag: &str) -> (r: String)
    ensures
        r@ == (match version_override {
            Some(v) => v@,
            None => version_of_tag(tag@),
        }),
{
    match version_override {
        Some(v) => String::from_str(v),
        None => tag_to_version(tag),
    }
}

/// The root Cargo.toml that the discovery query returned, if it succeeded and
/// returned one; the caller fetches it over REST otherwise.
pub fn discovered_root_toml(discovery: Option<&RepoDiscovery>) -> (r: Option<String>)
    ensures
        opt_string(r) == (match discovery {
            Some(d) => opt_string(d.root_cargo_toml),
            None => None,
        }),
{
    match discovery {
        Some(d) => match &d.root_cargo_toml {
            Some(t) => Some(t.clone()),
            None => None,
        },
        None => None,
    }
}

/// A workspace root without a package of its own: the crate to build is one
/// of its members.
pub open spec fn workspace_only(doc: TomlValue) -> bool {
    toml_get(doc, "workspace"@) is Some && toml_get(doc, "package"@) is None
}

/// Whether the crate to build must be looked for among the workspace members.
pub fn needs_member_search(root: &CargoMetadata) -> (r: bool)
    ensures
        r == workspace_only(root@),
{
    root.is_workspace() && !root.has_package()
}

/// Whether any member pattern is a glob, so that the file tree is needed.
pub fn members_need_tree(members: &Vec<String>) -> (r: bool)
    ensures
        r == exists|i: int| 0 <= i < members@.len() && has_char(#[trigger] members@[i]@, '*'),
{
    let mut i: usize = 0;
    while i < members.len()
        invariant
            i <= members.len(),
            forall|k: int| 0 <= k < i ==> !has_char(#[trigger] members@[k]@, '*'),
        decreases members.len() - i,
    {
        if contains_char(members[i].as_str(), '*') {
            return true;
        }
        i = i + 1;
    }
    false
}

/// The manifest path of each member, in order.
pub fn member_manifest_paths(members: &Vec<String>) -> (r: Vec<String>)
    ensures
        string_views(r@) == string_views(members@).map_values(
            |m: Seq<char>| m + "/Cargo.toml"@,
        ),
{
    let mut out: Vec<String> = Vec::new();
    let mut i: usize = 0;
    while i < members.len()
        invariant
            i <= members.len(),
            string_views(out@) == string_views(members@).map_values(
                |m: Seq<char>| m + "/Cargo.toml"@,
            ).take(i as int),
        decreases members.len() - i,
    {
        let mut p = members[i].clone();
        p.append("/Cargo.toml");
        let ghost before = out@;
        out.push(p);
        assert(string_views(out@) =~= string_views(before).push(members@[i as int]@
            + "/Cargo.toml"@));
        assert(string_views(members@).map_values(|m: Seq<char>| m + "/Cargo.toml"@).take(i + 1)
            =~= string_views(members@).map_values(|m: Seq<char>| m + "/Cargo.toml"@).take(
            i as int,
        ).push(members@[i as int]@ + "/Cargo.toml"@));
        i = i + 1;
    }
    assert(string_views(members@).map_values(|m: Seq<char>| m + "/Cargo.toml"@).take(
        members.len() as int,
    ) =~= string_views(members@).map_values(|m: Seq<char>| m + "/Cargo.toml"@));
    out
}

/// The index of the first fetched file with the given path, or the number of
/// files when there is none.
pub open spec fn fetched_index(files: Seq<(Seq<char>, Seq<char>)>, path: Seq<char>) -> int
    decreases files.len(),
{
    if files.len() == 0 {
        0
    } else if files[0].0 == path {
        0
    } else {
        1 + fetched_index(files.drop_first(), path)
    }
}

/// The contents fetched for a path, if the batch query returned it; the
/// caller fetches the file over REST otherwise.
pub fn fetched_text(files: &Vec<(String, String)>, path: &str) -> (r: Option<String>)
    ensures
        ({
            let fv = files@.map_values(|p: (String, String)| (p.0@, p.1@));
            let k = fetched_index(fv, path@);
            match r {
                Some(t) => k < fv.len() && t@ == fv[k].1,
                None => k >= fv.len(),
            }
        }),
{
    let ghost fv = files@.map_values(|p: (String, String)| (p.0@, p.1@));
    let mut i: usize = 0;
    assert(fv.skip(0) =~= fv);
    while i < files.len()
        invariant
            i <= files.len(),
            fv == files@.map_values(|p: (String, String)| (p.0@, p.1@)),
            fetched_index(fv, path@) == i + fetched_index(fv.skip(i as int), path@),
        decreases files.len() - i,
    {
        assert(fv.skip(i as int)[0] == fv[i as int]);
        if text_eq(files[i].0.as_str(), path) {
            return Some(files[i].1.clone());
        }
        assert(fv.skip(i as int).drop_first() =~= fv.skip(i + 1));
        i = i + 1;
    }
    None
}

/// The member to build for a target name, or the error that none matches.
pub fn select_member(target: &str, members: &Vec<(String, CargoMetadata)>) -> (r: Result<
    usize,
    WorkflowError,
>)
    ensures
        match member_for(target@, metas_of(members@)) {
            Some(i) => r == Ok::<usize, WorkflowError>(i as usize) && i < members@.len(),
            None => r matches Err(WorkflowError::NoMatchingMember(t)) && t@ == target@,
        },
{
    match find_workspace_member(target, members) {
        Some(i) => {
            proof {
                crate::pipeline::lemma_member_for_bounds(target@, metas_of(members@));
            }
            Ok(i)
        },
        None => Err(WorkflowError::NoMatchingMember(String::from_str(target))),
    }
}

/// The package metadata a recipe takes, as plain values.
pub struct MetadataView {
    pub license: Option<Seq<char>>,
    pub description: Option<Seq<char>>,
    pub homepage: Option<Seq<char>>,
    pub repository: Option<Seq<char>>,
    pub documentation: Option<Seq<char>>,
}

/// The package metadata a recipe takes: from crates.io or from a manifest.
pub struct CrateMetadata {
    pub license: Option<String>,
    pub description: Option<String>,
    pub homepage: Option<String>,
    pub repository: Option<String>,
    pub documentation: Option<String>,
}

impl View for CrateMetadata {
    type V = MetadataView;

    open spec fn view(&self) -> MetadataView {
        MetadataView {
            license: opt_string(self.license),
            description: opt_string(self.description),
            homepage: opt_string(self.homepage),
            repository: opt_string(self.repository),
            documentation: opt_string(self.documentation),
        }
    }
}

/// The metadata of a package manifest, its fields inherited from the
/// workspace manifest where it says so.
pub open spec fn manifest_metadata(doc: TomlValue, ws: Option<TomlValue>) -> MetadataView {
    MetadataView {
        license: package_field(doc, "license"@, ws),
        description: package_field(doc, "description"@, ws),
        homepage: package_field(doc, "homepage"@, ws),
        repository: package_field(doc, "repository"@, ws),
        documentation: package_field(doc, "documentation"@, ws),
    }
}

/// Read the metadata of a package manifest.
pub fn metadata_from_manifest(pkg: &CargoMetadata, ws: Option<&CargoMetadata>) -> (r: CrateMetadata)
    ensures
        r@ == manifest_metadata(
            pkg@,
            match ws {
                Some(w) => Some(w@),
                None => None,
            },
        ),
{
    CrateMetadata {
        license: pkg.license(ws),
        description: pkg.description(ws),
        homepage: pkg.homepage(ws),
        repository: pkg.repository(ws),
        documentation: pkg.documentation(ws),
    }
}

/// The README URL of a repository at a tag, with the version templated.
pub open spec fn readme_url(owner: Seq<char>, name: Seq<char>, tag: Seq<char>, version: Seq<char>) -> Seq<char> {
    repo_home(owner, name) + "/blob/"@ + jinja_tag(tag, version) + "/README.md"@
}

/// A builder with the given license, description (as the summary), homepage
/// and repository set, each replacing the builder's.
pub open spec fn with_fields(b: BuilderView, m: MetadataView) -> BuilderView {
    BuilderView {
        license: match m.license {
            Some(x) => Some(x),
            None => b.license,
        },
        summary: match m.description {
            Some(x) => Some(x),
            None => b.summary,
        },
        homepage: match m.homepage {
            Some(x) => Some(x),
            None => b.homepage,
        },
        repository: match m.repository {
            Some(x) => Some(x),
            None => b.repository,
        },
        ..b
    }
}

/// A builder with its documentation URL set: the given one, else the README
/// when there is one, else unchanged.
pub open spec fn with_documentation(
    b: BuilderView,
    doc: Option<Seq<char>>,
    readme: Option<Seq<char>>,
) -> BuilderView {
    BuilderView {
        documentation: match doc {
            Some(x) => Some(x),
            None => match readme {
                Some(u) => Some(u),
                None => b.documentation,
            },
        },
        ..b
    }
}

/// A builder with the metadata set: each given field replaces the builder's,
/// the description being the summary; without a documentation URL, the
/// README of the repository at the tag, when the source is on GitHub.
pub open spec fn with_metadata(
    b: BuilderView,
    m: MetadataView,
    readme: Option<Seq<char>>,
) -> BuilderView {
    with_documentation(with_fields(b, m), m.documentation, readme)
}

/// The README fallback of a source: for a GitHub source at a tag, its README.
pub open spec fn readme_of(github: Option<(&GitHubRepo, &str)>, version: Seq<char>) -> Option<
    Seq<char>,
> {
    match github {
        Some((r, t)) => Some(readme_url(r.owner@, r.name@, t@, version)),
        None => None,
    }
}

fn apply_fields(builder: &mut RecipeBuilder, m: &CrateMetadata)
    ensures
        final(builder)@ == with_fields(old(builder)@, m@),
{
    match &m.license {
        Some(x) => {
            builder.license(x.as_str());
        },
        None => {},
    }
    match &m.description {
        Some(x) => {
            builder.summary(x.as_str());
        },
        None => {},
    }
    match &m.homepage {
        Some(x) => {
            builder.homepage(x.as_str());
        },
        None => {},
    }
    match &m.repository {
        Some(x) => {
            builder.repository(x.as_str());
        },
        None => {},
    }
}

fn apply_documentation(
    builder: &mut RecipeBuilder,
    doc: &Option<String>,
    github: Option<(&GitHubRepo, &str)>,
    version: &str,
)
    ensures
        final(builder)@ == with_documentation(old(builder)@, opt_string(*doc), readme_of(github, version@)),
{
    match doc {
        Some(x) => {
            builder.documentation(x.as_str());
        },
        None => match github {
            Some((repo, tag)) => {
                let url = readme_doc_url(repo, tag, version);
                builder.documentation(url.as_str());
            },
            None => {},
        },
    }
}

/// Set a package's metadata on a builder; the documentation falls back to
/// the README of the GitHub repository at the tag when there is one.
pub fn apply_metadata(
    builder: &mut RecipeBuilder,
    m: &CrateMetadata,
    github: Option<(&GitHubRepo, &str)>,
    version: &str,
)
    ensures
        final(builder)@ == with_metadata(old(builder)@, m@, readme_of(github, version@)),
{
    apply_fields(builder, m);
    apply_documentation(builder, &m.documentation, github, version);
}

fn add_binaries(builder: &mut RecipeBuilder, names: &Vec<String>)
    ensures
        final(builder)@ == (BuilderView {
            binaries: old(builder)@.binaries + string_views(names@),
            ..old(builder)@
        }),
{
    let ghost start = builder@;
    let mut i: usize = 0;
    while i < names.len()
        invariant
            i <= names.len(),
            builder@ == (BuilderView {
                binaries: start.binaries + string_views(names@).take(i as int),
                ..start
            }),
        decreases names.len() - i,
    {
        builder.add_binary(names[i].as_str());
        assert(string_views(names@).take(i + 1) =~= string_views(names@).take(i as int).push(
            names@[i as int]@,
        ));
        assert(builder@.binaries =~= start.binaries + string_views(names@).take(i + 1));
        i = i + 1;
    }
    assert(string_views(names@).take(names.len() as int) =~= string_views(names@));
}

/// The workspace path and binaries of a crate from crates.io: without a root
/// manifest (not fetched, or not parsed), the crate id as the binary; for a
/// root that is a package, its binaries; for a workspace-only root, the
/// member the crate id selects with its binaries, or the crate id as the
/// binary when none does.
pub open spec fn crate_binaries(
    crate_id: Seq<char>,
    root: Option<TomlValue>,
    members: Seq<(String, CargoMetadata)>,
) -> (Option<Seq<char>>, Seq<Seq<char>>) {
    match root {
        None => (None, seq![crate_id]),
        Some(doc) => if !workspace_only(doc) {
            (None, binary_names_of(doc))
        } else {
            match member_for(crate_id, metas_of(members)) {
                Some(i) => (Some(members[i].0@), binary_names_of(members[i].1@)),
                None => (None, seq![crate_id]),
            }
        },
    }
}

/// Set the workspace path and the binaries of a crate from crates.io on a
/// builder, from its root manifest and the members that were read.
pub fn apply_crate_binaries(
    builder: &mut RecipeBuilder,
    crate_id: &str,
    root: Option<&CargoMetadata>,
    members: &Vec<(String, CargoMetadata)>,
)
    ensures
        ({
            let (ws, bins) = crate_binaries(
                crate_id@,
                match root {
                    Some(m) => Some(m@),
                    None => None,
                },
                members@,
            );
            final(builder)@ == (BuilderView {
                workspace_path: match ws {
                    Some(p) => Some(p),
                    None => old(builder)@.workspace_path,
                },
                binaries: old(builder)@.binaries + bins,
                ..old(builder)@
            })
        }),
{
    match root {
        None => {
            let ghost before = builder@;
            builder.add_binary(crate_id);
            assert(before.binaries.push(crate_id@) =~= before.binaries + seq![crate_id@]);
        },
        Some(doc) => {
            if !needs_member_search(doc) {
                let bins = doc.binary_names();
                add_binaries(builder, &bins);
            } else {
                match find_workspace_member(crate_id, members) {
                    Some(i) => {
                        proof {
                            crate::pipeline::lemma_member_for_bounds(crate_id@, metas_of(members@));
                        }
                        builder.workspace_path(members[i].0.as_str());
                        let bins = members[i].1.binary_names();
                        add_binaries(builder, &bins);
                    },
                    None => {
                        let ghost before = builder@;
                        builder.add_binary(crate_id);
                        assert(before.binaries.push(crate_id@) =~= before.binaries + seq![crate_id@]);
                    },
                }
            }
        },
    }
}

/// The builder of a GitHub-only crate: the recipe name and version, the
/// resolved source, the package metadata (documentation falling back to the
/// README at the tag), the workspace member path when one was selected, and
/// the package's binaries.
pub open spec fn github_builder_view(
    recipe_name: Seq<char>,
    version: Seq<char>,
    pkg: TomlValue,
    ws: Option<TomlValue>,
    owner: Seq<char>,
    name: Seq<char>,
    tag: Seq<char>,
    workspace_path: Option<Seq<char>>,
    url_template: Seq<char>,
    sha256: Seq<char>,
) -> BuilderView {
    let b = with_metadata(
        BuilderView {
            source_url: url_template,
            source_filename: github_filename(recipe_name),
            source_sha256: sha256,
            ..new_builder(recipe_name, version)
        },
        manifest_metadata(pkg, ws),
        Some(readme_url(owner, name, tag, version)),
    );
    BuilderView {
        workspace_path: match workspace_path {
            Some(p) => Some(p),
            None => b.workspace_path,
        },
        binaries: binary_names_of(pkg),
        ..b
    }
}

/// Start the builder of a GitHub-only crate from what was resolved and read.
pub fn github_builder(
    recipe_name: &str,
    version: &str,
    pkg: &CargoMetadata,
    ws: Option<&CargoMetadata>,
    repo: &GitHubRepo,
    tag: &str,
    workspace_path: Option<&str>,
    url_template: &str,
    sha256: &str,
) -> (r: RecipeBuilder)
    ensures
        r@ == github_builder_view(
            recipe_name@,
            version@,
            pkg@,
            match ws {
                Some(w) => Some(w@),
                None => None,
            },
            repo.owner@,
            repo.name@,
            tag@,
            match workspace_path {
                Some(p) => Some(p@),
                None => None,
            },
            url_template@,
            sha256@,
        ),
{
    let mut builder = RecipeBuilder::new(recipe_name, version);
    builder.github_source_resolved(url_template, sha256);
    let m = metadata_from_manifest(pkg, ws);
    apply_metadata(&mut builder, &m, Some((repo, tag)), version);
    match workspace_path {
        Some(p) => {
            builder.workspace_path(p);
        },
        None => {},
    }
    let bins = pkg.binary_names();
    add_binaries(&mut builder, &bins);
    assert(builder@.binaries =~= binary_names_of(pkg@));
    builder
}

/// The direct dependencies of a manifest: its dependencies, then its build
/// dependencies.
pub open spec fn direct_deps_of(doc: TomlValue) -> Seq<Seq<char>> {
    crate::crate_inspector::dep_pairs(toml_get(doc, "dependencies"@)).map_values(
        |p: (Seq<char>, bool)| p.0,
    ) + crate::crate_inspector::dep_pairs(toml_get(doc, "build-dependencies"@)).map_values(
        |p: (Seq<char>, bool)| p.0,
    )
}

/// The names of a manifest's dependencies followed by its build dependencies.
pub fn direct_dependency_names(meta: &CargoMetadata) -> (r: Vec<String>)
    ensures
        string_views(r@) == direct_deps_of(meta@),
{
    let deps = meta.dependencies();
    let mut out: Vec<String> = Vec::new();
    let ghost dv = crate::crate_inspector::dep_views(deps@);
    let mut i: usize = 0;
    while i < deps.len()
        invariant
            i <= deps.len(),
            dv == crate::crate_inspector::dep_views(deps@),
            string_views(out@) == dv.map_values(|p: (Seq<char>, bool)| p.0).take(i as int),
        decreases deps.len() - i,
    {
        let ghost before = out@;
        out.push(deps[i].0.clone());
        assert(string_views(out@) =~= string_views(before).push(deps@[i as int].0@));
        assert(dv.map_values(|p: (Seq<char>, bool)| p.0).take(i + 1) =~= dv.map_values(
            |p: (Seq<char>, bool)| p.0,
        ).take(i as int).push(dv[i as int].0));
        i = i + 1;
    }
    assert(dv.map_values(|p: (Seq<char>, bool)| p.0).take(deps.len() as int) =~= dv.map_values(
        |p: (Seq<char>, bool)| p.0,
    ));
    let build = meta.build_dependencies();
    let ghost first = out@;
    let mut j: usize = 0;
    while j < build.len()
        invariant
            j <= build.len(),
            string_views(out@) == string_views(first) + string_views(build@).take(j as int),
        decreases build.len() - j,
    {
        let ghost before = out@;
        out.push(build[j].clone());
        assert(string_views(out@) =~= string_views(before).push(build@[j as int]@));
        assert(string_views(build@).take(j + 1) =~= string_views(build@).take(j as int).push(
            build@[j as int]@,
        ));
        j = j + 1;
    }
    assert(string_views(build@).take(build.len() as int) =~= string_views(build@));
    out
}

/// The file tree that the discovery query returned, if it succeeded; the
/// caller fetches the tree over REST otherwise.
pub fn discovered_tree(discovery: Option<&RepoDiscovery>) -> (r: Option<Vec<String>>)
    ensures
        match discovery {
            Some(d) => r matches Some(t) && string_views(t@) == string_views(d.tree@),
            None => r is None,
        },
{
    match discovery {
        Some(d) => {
            let mut out: Vec<String> = Vec::new();
            let mut i: usize = 0;
            while i < d.tree.len()
                invariant
                    i <= d.tree.len(),
                    string_views(out@) == string_views(d.tree@).take(i as int),
                decreases d.tree.len() - i,
            {
                let ghost before = out@;
                out.push(d.tree[i].clone());
                assert(string_views(out@) =~= string_views(before).push(d.tree@[i as int]@));
                assert(string_views(d.tree@).take(i + 1) =~= string_views(d.tree@).take(
                    i as int,
                ).push(d.tree@[i as int]@));
                i = i + 1;
            }
            assert(string_views(d.tree@).take(d.tree.len() as int) =~= string_views(d.tree@));
            Some(out)
        },
        None => None,
    }
}

/// The license files of a source tree: the detected root-level license
/// files, sorted, when there are any; otherwise the builder's own.
pub open spec fn tree_license_files(current: Seq<Seq<char>>, files: Seq<Seq<char>>) -> Seq<
    Seq<char>,
> {
    let found = sort_strings(license_candidates(upper_pairs(files)));
    if found.len() > 0 {
        found
    } else {
        current
    }
}

/// Read a source tree: set the license files found in it on the builder and
/// return the runtime dependency hints it gives, for the caller to report.
pub fn apply_source_tree(builder: &mut RecipeBuilder, files: &[String]) -> (r: Vec<RuntimeHint>)
    ensures
        r.deep_view() == runtime_hints(lowered_pairs(files@.map_values(|p: String| p@))),
        final(builder)@ == (BuilderView {
            license_files: tree_license_files(
                old(builder)@.license_files,
                files@.map_values(|p: String| p@),
            ),
            ..old(builder)@
        }),
{
    let hints = detect_runtime_hints(files);
    let license_files = detect_license_files(files);
    assert(license_files.deep_view() =~= string_views(license_files@));
    assert(string_views(license_files@).len() == license_files@.len());
    if license_files.len() > 0 {
        builder.license_files(license_files);
    }
    hints
}

/// Add maintainers to a builder, in order.
pub fn apply_maintainers(builder: &mut RecipeBuilder, names: &Vec<String>)
    ensures
        final(builder)@ == (BuilderView {
            maintainers: old(builder)@.maintainers + string_views(names@),
            ..old(builder)@
        }),
{
    let ghost start = builder@;
    let mut i: usize = 0;
    while i < names.len()
        invariant
            i <= names.len(),
            builder@ == (BuilderView {
                maintainers: start.maintainers + string_views(names@).take(i as int),
                ..start
            }),
        decreases names.len() - i,
    {
        builder.add_maintainer(names[i].as_str());
        assert(string_views(names@).take(i + 1) =~= string_views(names@).take(i as int).push(
            names@[i as int]@,
        ));
        assert(builder@.maintainers =~= start.maintainers + string_views(names@).take(i + 1));
        i = i + 1;
    }
    assert(string_views(names@).take(names.len() as int) =~= string_views(names@));
}

} // verus!
