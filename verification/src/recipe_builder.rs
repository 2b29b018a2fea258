//! Builder for conda recipes from crate metadata.
//! Uses &mut self pattern for ergonomic conditional field setting.
//! build() consumes self and returns both Recipe and BuildScript.
use vstd::prelude::*;

use crate::build_script::{BuildScript, BuildScriptView, install_cmd, spec_needs_build_sh};
use crate::license_family::{guess_license_family, license_family_of};
use crate::recipe::{About, AboutView, Build, BuildToolNeeds, BuildView, Extra, ExtraView,
    Package, Preamble, Recipe, RecipeView, ReqView, Requirements, RequirementsView, Source, Test,
    commands_with, opt_req, rust_build_reqs, selected_req, simple_req, str_views};
use crate::text::text_eq;

verus! {

pub struct RecipeBuilder {
    name: String,
    version: String,
    source_url: String,
    source_filename: String,
    source_sha256: String,
    license: Option<String>,
    license_files: Vec<String>,
    summary: Option<String>,
    homepage: Option<String>,
    repository: Option<String>,
    documentation: Option<String>,
    binaries: Vec<String>,
    maintainers: Vec<String>,
    use_cbl: bool,
    is_bioconda: bool,
    has_c_deps: bool,
    has_cxx_deps: bool,
    has_native_deps: bool,
    use_bindgen: bool,
    needs_pkg_config: bool,
    needs_make: bool,
    needs_cmake: bool,
    host_deps: Vec<(String, Option<String>)>,
    run_deps: Vec<(String, Option<String>)>,
    max_pin: String,
    additional_platforms: Vec<String>,
    skip_platforms: Vec<String>,
    workspace_path: Option<String>,
    test_command_overrides: Vec<String>,
    use_version_test: bool,
    emit_license_family: Option<bool>,
    cargo_net_git_fetch: bool,
    strip_binaries: bool,
    identifiers: Vec<String>,
}

/// The settings of a recipe builder as plain values.
pub struct BuilderView {
    pub name: Seq<char>,
    pub version: Seq<char>,
    pub source_url: Seq<char>,
    pub source_filename: Seq<char>,
    pub source_sha256: Seq<char>,
    pub license: Option<Seq<char>>,
    pub license_files: Seq<Seq<char>>,
    pub summary: Option<Seq<char>>,
    pub homepage: Option<Seq<char>>,
    pub repository: Option<Seq<char>>,
    pub documentation: Option<Seq<char>>,
    pub binaries: Seq<Seq<char>>,
    pub maintainers: Seq<Seq<char>>,
    pub use_cbl: bool,
    pub is_bioconda: bool,
    pub has_c_deps: bool,
    pub has_cxx_deps: bool,
    pub has_native_deps: bool,
    pub use_bindgen: bool,
    pub needs_pkg_config: bool,
    pub needs_make: bool,
    pub needs_cmake: bool,
    pub host_deps: Seq<(Seq<char>, Option<Seq<char>>)>,
    pub run_deps: Seq<(Seq<char>, Option<Seq<char>>)>,
    pub max_pin: Seq<char>,
    pub additional_platforms: Seq<Seq<char>>,
    pub skip_platforms: Seq<Seq<char>>,
    pub workspace_path: Option<Seq<char>>,
    pub test_command_overrides: Seq<Seq<char>>,
    pub use_version_test: bool,
    pub emit_license_family: Option<bool>,
    pub cargo_net_git_fetch: bool,
    pub strip_binaries: bool,
    pub identifiers: Seq<Seq<char>>,
}

impl View for RecipeBuilder {
    type V = BuilderView;

    closed spec fn view(&self) -> BuilderView {
        BuilderView {
            name: self.name@,
            version: self.version@,
            source_url: self.source_url@,
            source_filename: self.source_filename@,
            source_sha256: self.source_sha256@,
            license: self.license.deep_view(),
            license_files: self.license_files.deep_view(),
            summary: self.summary.deep_view(),
            homepage: self.homepage.deep_view(),
            repository: self.repository.deep_view(),
            documentation: self.documentation.deep_view(),
            binaries: self.binaries.deep_view(),
            maintainers: self.maintainers.deep_view(),
            use_cbl: self.use_cbl,
            is_bioconda: self.is_bioconda,
            has_c_deps: self.has_c_deps,
            has_cxx_deps: self.has_cxx_deps,
            has_native_deps: self.has_native_deps,
            use_bindgen: self.use_bindgen,
            needs_pkg_config: self.needs_pkg_config,
            needs_make: self.needs_make,
            needs_cmake: self.needs_cmake,
            host_deps: self.host_deps.deep_view(),
            run_deps: self.run_deps.deep_view(),
            max_pin: self.max_pin@,
            additional_platforms: self.additional_platforms.deep_view(),
            skip_platforms: self.skip_platforms.deep_view(),
            workspace_path: self.workspace_path.deep_view(),
            test_command_overrides: self.test_command_overrides.deep_view(),
            use_version_test: self.use_version_test,
            emit_license_family: self.emit_license_family,
            cargo_net_git_fetch: self.cargo_net_git_fetch,
            strip_binaries: self.strip_binaries,
            identifiers: self.identifiers.deep_view(),
        }
    }
}

/// A new builder: everything empty or off, `max_pin` of `x.x`.
pub open spec fn new_builder(name: Seq<char>, version: Seq<char>) -> BuilderView {
    BuilderView {
        name,
        version,
        source_url: seq![],
        source_filename: seq![],
        source_sha256: seq![],
        license: None,
        license_files: seq![],
        summary: None,
        homepage: None,
        repository: None,
        documentation: None,
        binaries: seq![],
        maintainers: seq![],
        use_cbl: false,
        is_bioconda: false,
        has_c_deps: false,
        has_cxx_deps: false,
        has_native_deps: false,
        use_bindgen: false,
        needs_pkg_config: false,
        needs_make: false,
        needs_cmake: false,
        host_deps: seq![],
        run_deps: seq![],
        max_pin: "x.x"@,
        additional_platforms: seq![],
        skip_platforms: seq![],
        workspace_path: None,
        test_command_overrides: seq![],
        use_version_test: false,
        emit_license_family: None,
        cargo_net_git_fetch: false,
        strip_binaries: false,
        identifiers: seq![],
    }
}

/// The source file name of a GitHub archive.
pub open spec fn github_filename(name: Seq<char>) -> Seq<char> {
    name + "-{{ version }}.tar.gz"@
}

/// The license files of the recipe: the given ones, or `LICENSE`, with
/// `THIRDPARTY.yml` added when cargo-bundle-licenses runs and it is not there.
pub open spec fn recipe_license_files(b: BuilderView) -> Seq<Seq<char>> {
    if b.license_files.len() == 0 {
        seq!["LICENSE"@] + (if b.use_cbl { seq!["THIRDPARTY.yml"@] } else { seq![] })
    } else {
        b.license_files + (if b.use_cbl && !b.license_files.contains("THIRDPARTY.yml"@) {
            seq!["THIRDPARTY.yml"@]
        } else {
            seq![]
        })
    }
}

/// The build script settings that a builder hands on.
pub open spec fn builder_script(b: BuilderView) -> BuildScriptView {
    BuildScriptView {
        use_locked: true,
        use_cbl: b.use_cbl,
        use_bindgen: b.use_bindgen,
        native_deps: b.has_native_deps,
        workspace_path: b.workspace_path,
        force_build_sh: b.is_bioconda,
        cargo_net_git_fetch: b.cargo_net_git_fetch,
        strip_binaries: b.strip_binaries,
        binary_names: b.binaries,
    }
}

/// The inline script: the install command unless a build.sh is needed.
pub open spec fn builder_inline_script(b: BuilderView) -> Option<Seq<char>> {
    if spec_needs_build_sh(builder_script(b)) {
        None
    } else {
        Some(install_cmd(builder_script(b)))
    }
}

/// Each dependency as a requirement.
pub open spec fn dep_reqs(deps: Seq<(Seq<char>, Option<Seq<char>>)>) -> Seq<ReqView> {
    deps.map_values(|d: (Seq<char>, Option<Seq<char>>)| selected_req(d.0, d.1))
}

/// The requirements: the Rust build requirements, the host dependencies, and
/// the host dependencies again followed by the run dependencies as run
/// requirements.
pub open spec fn builder_requirements(b: BuilderView) -> RequirementsView {
    RequirementsView {
        build: rust_build_reqs(
            b.use_cbl,
            b.has_c_deps,
            b.has_cxx_deps,
            b.use_bindgen,
            b.needs_pkg_config,
            b.needs_make,
            b.needs_cmake,
        ),
        host: dep_reqs(b.host_deps),
        run: dep_reqs(b.host_deps) + dep_reqs(b.run_deps),
    }
}

/// The test commands: the overrides when there are any, else one command per
/// binary (`--version` or `--help`).
pub open spec fn builder_test_commands(b: BuilderView) -> Seq<Seq<char>> {
    if b.test_command_overrides.len() > 0 {
        b.test_command_overrides
    } else if b.binaries.len() == 0 {
        seq![]
    } else if b.use_version_test {
        commands_with(b.binaries, " --version"@)
    } else {
        commands_with(b.binaries, " --help"@)
    }
}

/// The additional platforms: for bioconda without any given, linux-aarch64
/// and osx-arm64.
pub open spec fn builder_platforms(b: BuilderView) -> Seq<Seq<char>> {
    if b.is_bioconda && b.additional_platforms.len() == 0 {
        seq!["linux-aarch64"@, "osx-arm64"@]
    } else {
        b.additional_platforms
    }
}

/// The license family of the recipe: the family guessed from the license,
/// unless emitting it was turned off.
pub open spec fn builder_license_family(b: BuilderView) -> Option<Seq<char>> {
    if b.emit_license_family != Some(false) {
        match b.license {
            Some(l) => Some(license_family_of(l)),
            None => None,
        }
    } else {
        None
    }
}

/// The recipe that a builder produces.
pub open spec fn builder_recipe(b: BuilderView) -> RecipeView {
    RecipeView {
        name: b.name,
        version: b.version,
        url: b.source_url,
        filename: b.source_filename,
        sha256: b.source_sha256,
        build: BuildView {
            name: b.name,
            with_run_exports: b.is_bioconda,
            max_pin: b.max_pin,
            script: builder_inline_script(b),
        },
        requirements: builder_requirements(b),
        test_commands: builder_test_commands(b),
        about: AboutView {
            home: b.homepage,
            license: b.license,
            license_family: builder_license_family(b),
            license_file: recipe_license_files(b),
            summary: b.summary,
            dev_url: b.repository,
            doc_url: b.documentation,
        },
        extra: ExtraView {
            additional_platforms: builder_platforms(b),
            recipe_maintainers: b.maintainers,
            identifiers: b.identifiers,
            skip_platforms: b.skip_platforms,
        },
    }
}

fn str_vec(items: &Vec<String>) -> (r: Vec<&str>)
    ensures
        str_views(r@) == items.deep_view(),
{
    let mut r: Vec<&str> = Vec::new();
    let mut i: usize = 0;
    while i < items.len()
        invariant
            i <= items.len(),
            str_views(r@) == items.deep_view().take(i as int),
        decreases items.len() - i,
    {
        let x = items[i].as_str();
        assert(x@ == items.deep_view()[i as int]);
        let ghost before = r@;
        r.push(x);
        assert(r@ == before.push(x));
        assert(str_views(r@) =~= str_views(before).push(x@));
        assert(str_views(r@) =~= items.deep_view().take(i + 1));
        i = i + 1;
    }
    assert(items.deep_view().take(items.len() as int) =~= items.deep_view());
    r
}

fn has_entry(items: &Vec<String>, s: &str) -> (r: bool)
    ensures
        r == items.deep_view().contains(s@),
{
    let mut i: usize = 0;
    while i < items.len()
        invariant
            i <= items.len(),
            forall|k: int| 0 <= k < i ==> items.deep_view()[k] != s@,
        decreases items.len() - i,
    {
        if text_eq(items[i].as_str(), s) {
            assert(items.deep_view()[i as int] == s@);
            return true;
        }
        i = i + 1;
    }
    false
}

fn to_requirements(deps: &Vec<(String, Option<String>)>, reqs: &mut Requirements, host: bool)
    ensures
        host ==> final(reqs).host.deep_view() == old(reqs).host.deep_view() + dep_reqs(deps.deep_view()),
        final(reqs).run.deep_view() == old(reqs).run.deep_view() + dep_reqs(deps.deep_view()),
        !host ==> final(reqs).host.deep_view() == old(reqs).host.deep_view(),
        final(reqs).build.deep_view() == old(reqs).build.deep_view(),
{
    let ghost dv = deps.deep_view();
    let mut i: usize = 0;
    while i < deps.len()
        invariant
            i <= deps.len(),
            dv == deps.deep_view(),
            host ==> reqs.host.deep_view() == old(reqs).host.deep_view() + dep_reqs(dv.take(i as int)),
            !host ==> reqs.host.deep_view() == old(reqs).host.deep_view(),
            reqs.run.deep_view() == old(reqs).run.deep_view() + dep_reqs(dv.take(i as int)),
            reqs.build.deep_view() == old(reqs).build.deep_view(),
        decreases deps.len() - i,
    {
        let (name, selector) = &deps[i];
        let sel: Option<&str> = match selector {
            Some(s) => Some(s.as_str()),
            None => None,
        };
        assert(sel.deep_view() == dv[i as int].1);
        if host {
            reqs.add_host(name.as_str(), sel);
        }
        reqs.add_run(name.as_str(), sel);
        assert(dep_reqs(dv.take(i + 1)) =~= dep_reqs(dv.take(i as int)).push(
            selected_req(dv[i as int].0, dv[i as int].1),
        ));
        i = i + 1;
    }
    assert(dv.take(deps.len() as int) =~= dv);
}

impl RecipeBuilder {
    pub fn new(name: &str, version: &str) -> (r: Self)
        ensures
            r@ == new_builder(name@, version@),
    {
        let r = Self {
            name: String::from_str(name),
            version: String::from_str(version),
            source_url: String::new(),
            source_filename: String::new(),
            source_sha256: String::new(),
            license: None,
            license_files: Vec::new(),
            summary: None,
            homepage: None,
            repository: None,
            documentation: None,
            binaries: Vec::new(),
            maintainers: Vec::new(),
            use_cbl: false,
            is_bioconda: false,
            has_c_deps: false,
            has_cxx_deps: false,
            has_native_deps: false,
            use_bindgen: false,
            needs_pkg_config: false,
            needs_make: false,
            needs_cmake: false,
            host_deps: Vec::new(),
            run_deps: Vec::new(),
            max_pin: String::from_str("x.x"),
            additional_platforms: Vec::new(),
            skip_platforms: Vec::new(),
            workspace_path: None,
            test_command_overrides: Vec::new(),
            use_version_test: false,
            emit_license_family: None,
            cargo_net_git_fetch: false,
            strip_binaries: false,
            identifiers: Vec::new(),
        };
        assert(r.license_files.deep_view() =~= seq![]);
        assert(r.binaries.deep_view() =~= seq![]);
        assert(r.maintainers.deep_view() =~= seq![]);
        assert(r.host_deps.deep_view() =~= seq![]);
        assert(r.run_deps.deep_view() =~= seq![]);
        assert(r.additional_platforms.deep_view() =~= seq![]);
        assert(r.skip_platforms.deep_view() =~= seq![]);
        assert(r.test_command_overrides.deep_view() =~= seq![]);
        assert(r.identifiers.deep_view() =~= seq![]);
        r
    }

    /// Source from the `v`-prefixed release archive of a GitHub repository.
    pub fn github_source(&mut self, owner: &str, repo: &str, sha256: &str) -> (r: &mut Self)
        ensures
            r@ == (BuilderView {
                source_url: "https://github.com/"@ + owner@ + "/"@ + repo@
                    + "/archive/v{{ version }}.tar.gz"@,
                source_filename: github_filename(old(self)@.name),
                source_sha256: sha256@,
                ..old(self)@
            }),
            *final(self) == *final(r),
    {
        let mut url = String::from_str("https://github.com/");
        url.append(owner);
        url.append("/");
        url.append(repo);
        url.append("/archive/v{{ version }}.tar.gz");
        let mut filename = self.name.clone();
        filename.append("-{{ version }}.tar.gz");
        self.source_url = url;
        self.source_filename = filename;
        self.source_sha256 = String::from_str(sha256);
        self
    }

    /// Set source from a pre-resolved GitHub URL template and SHA256.
    /// Use this when the URL template and SHA256 have been computed from the actual archive.
    pub fn github_source_resolved(&mut self, url_template: &str, sha256: &str) -> (r: &mut Self)
        ensures
            r@ == (BuilderView {
                source_url: url_template@,
                source_filename: github_filename(old(self)@.name),
                source_sha256: sha256@,
                ..old(self)@
            }),
            *final(self) == *final(r),
    {
        let mut filename = self.name.clone();
        filename.append("-{{ version }}.tar.gz");
        self.source_url = String::from_str(url_template);
        self.source_filename = filename;
        self.source_sha256 = String::from_str(sha256);
        self
    }

    /// Source from crates.io: the download URL with the crate name and the
    /// version templated (`{{ name }}`, `{{ version }}`), so it follows new
    /// releases; the download path of the current version is not needed.
    pub fn crates_io_source(&mut self, _dl_path: &str, sha256: &str) -> (r: &mut Self)
        ensures
            r@ == (BuilderView {
                source_url: "https://crates.io/api/v1/crates/{{ name }}/{{ version }}/download"@,
                source_filename: old(self)@.name + ".{{ version }}.tar.gz"@,
                source_sha256: sha256@,
                ..old(self)@
            }),
            *final(self) == *final(r),
    {
        let url = String::from_str("https://crates.io/api/v1/crates/{{ name }}/{{ version }}/download");
        let mut filename = self.name.clone();
        filename.append(".{{ version }}.tar.gz");
        self.source_url = url;
        self.source_filename = filename;
        self.source_sha256 = String::from_str(sha256);
        self
    }

    /// The license; its family is guessed from it when the recipe is built.
    pub fn license(&mut self, license: &str) -> (r: &mut Self)
        ensures
            r@ == (BuilderView { license: Some(license@), ..old(self)@ }),
            *final(self) == *final(r),
    {
        self.license = Some(String::from_str(license));
        self
    }

    pub fn license_files(&mut self, files: Vec<String>) -> (r: &mut Self)
        ensures
            r@ == (BuilderView { license_files: files.deep_view(), ..old(self)@ }),
            *final(self) == *final(r),
    {
        self.license_files = files;
        self
    }

    pub fn summary(&mut self, s: &str) -> (r: &mut Self)
        ensures
            r@ == (BuilderView { summary: Some(s@), ..old(self)@ }),
            *final(self) == *final(r),
    {
        self.summary = Some(String::from_str(s));
        self
    }

    pub fn homepage(&mut self, u: &str) -> (r: &mut Self)
        ensures
            r@ == (BuilderView { homepage: Some(u@), ..old(self)@ }),
            *final(self) == *final(r),
    {
        self.homepage = Some(String::from_str(u));
        self
    }

    pub fn repository(&mut self, u: &str) -> (r: &mut Self)
        ensures
            r@ == (BuilderView { repository: Some(u@), ..old(self)@ }),
            *final(self) == *final(r),
    {
        self.repository = Some(String::from_str(u));
        self
    }

    pub fn documentation(&mut self, u: &str) -> (r: &mut Self)
        ensures
            r@ == (BuilderView { documentation: Some(u@), ..old(self)@ }),
            *final(self) == *final(r),
    {
        self.documentation = Some(String::from_str(u));
        self
    }

    pub fn add_binary(&mut self, name: &str) -> (r: &mut Self)
        ensures
            r@ == (BuilderView { binaries: old(self)@.binaries.push(name@), ..old(self)@ }),
            *final(self) == *final(r),
    {
        self.binaries.push(String::from_str(name));
        assert(self.binaries.deep_view() =~= old(self)@.binaries.push(name@));
        self
    }

    pub fn add_maintainer(&mut self, name: &str) -> (r: &mut Self)
        ensures
            r@ == (BuilderView { maintainers: old(self)@.maintainers.push(name@), ..old(self)@ }),
            *final(self) == *final(r),
    {
        self.maintainers.push(String::from_str(name));
        assert(self.maintainers.deep_view() =~= old(self)@.maintainers.push(name@));
        self
    }

    pub fn cargo_bundle_licenses(&mut self, v: bool) -> (r: &mut Self)
        ensures
            r@ == (BuilderView { use_cbl: v, ..old(self)@ }),
            *final(self) == *final(r),
    {
        self.use_cbl = v;
        self
    }

    pub fn bioconda(&mut self, v: bool) -> (r: &mut Self)
        ensures
            r@ == (BuilderView { is_bioconda: v, ..old(self)@ }),
            *final(self) == *final(r),
    {
        self.is_bioconda = v;
        self
    }

    pub fn has_c_deps(&mut self, v: bool) -> (r: &mut Self)
        ensures
            r@ == (BuilderView { has_c_deps: v, ..old(self)@ }),
            *final(self) == *final(r),
    {
        self.has_c_deps = v;
        self
    }

    pub fn has_cxx_deps(&mut self, v: bool) -> (r: &mut Self)
        ensures
            r@ == (BuilderView { has_cxx_deps: v, ..old(self)@ }),
            *final(self) == *final(r),
    {
        self.has_cxx_deps = v;
        self
    }

    pub fn has_native_deps(&mut self, v: bool) -> (r: &mut Self)
        ensures
            r@ == (BuilderView { has_native_deps: v, ..old(self)@ }),
            *final(self) == *final(r),
    {
        self.has_native_deps = v;
        self
    }

    pub fn needs_bindgen(&mut self, v: bool) -> (r: &mut Self)
        ensures
            r@ == (BuilderView { use_bindgen: v, ..old(self)@ }),
            *final(self) == *final(r),
    {
        self.use_bindgen = v;
        self
    }

    pub fn needs_pkg_config(&mut self, v: bool) -> (r: &mut Self)
        ensures
            r@ == (BuilderView { needs_pkg_config: v, ..old(self)@ }),
            *final(self) == *final(r),
    {
        self.needs_pkg_config = v;
        self
    }

    pub fn needs_make(&mut self, v: bool) -> (r: &mut Self)
        ensures
            r@ == (BuilderView { needs_make: v, ..old(self)@ }),
            *final(self) == *final(r),
    {
        self.needs_make = v;
        self
    }

    pub fn needs_cmake(&mut self, v: bool) -> (r: &mut Self)
        ensures
            r@ == (BuilderView { needs_cmake: v, ..old(self)@ }),
            *final(self) == *final(r),
    {
        self.needs_cmake = v;
        self
    }

    pub fn max_pin(&mut self, pin: &str) -> (r: &mut Self)
        ensures
            r@ == (BuilderView { max_pin: pin@, ..old(self)@ }),
            *final(self) == *final(r),
    {
        self.max_pin = String::from_str(pin);
        self
    }

    pub fn workspace_path(&mut self, path: &str) -> (r: &mut Self)
        ensures
            r@ == (BuilderView { workspace_path: Some(path@), ..old(self)@ }),
            *final(self) == *final(r),
    {
        self.workspace_path = Some(String::from_str(path));
        self
    }

    pub fn add_host_dep(&mut self, name: &str, selector: Option<&str>) -> (r: &mut Self)
        ensures
            r@ == (BuilderView {
                host_deps: old(self)@.host_deps.push((name@, selector.deep_view())),
                ..old(self)@
            }),
            *final(self) == *final(r),
    {
        let sel: Option<String> = match selector {
            Some(s) => Some(String::from_str(s)),
            None => None,
        };
        self.host_deps.push((String::from_str(name), sel));
        assert(self.host_deps.deep_view() =~= old(self)@.host_deps.push((name@, selector.deep_view())));
        self
    }

    pub fn add_run_dep(&mut self, name: &str, selector: Option<&str>) -> (r: &mut Self)
        ensures
            r@ == (BuilderView {
                run_deps: old(self)@.run_deps.push((name@, selector.deep_view())),
                ..old(self)@
            }),
            *final(self) == *final(r),
    {
        let sel: Option<String> = match selector {
            Some(s) => Some(String::from_str(s)),
            None => None,
        };
        self.run_deps.push((String::from_str(name), sel));
        assert(self.run_deps.deep_view() =~= old(self)@.run_deps.push((name@, selector.deep_view())));
        self
    }

    pub fn add_platform(&mut self, platform: &str) -> (r: &mut Self)
        ensures
            r@ == (BuilderView {
                additional_platforms: old(self)@.additional_platforms.push(platform@),
                ..old(self)@
            }),
            *final(self) == *final(r),
    {
        self.additional_platforms.push(String::from_str(platform));
        assert(self.additional_platforms.deep_view() =~= old(self)@.additional_platforms.push(platform@));
        self
    }

    pub fn skip_platform(&mut self, platform: &str) -> (r: &mut Self)
        ensures
            r@ == (BuilderView {
                skip_platforms: old(self)@.skip_platforms.push(platform@),
                ..old(self)@
            }),
            *final(self) == *final(r),
    {
        self.skip_platforms.push(String::from_str(platform));
        assert(self.skip_platforms.deep_view() =~= old(self)@.skip_platforms.push(platform@));
        self
    }

    /// Override the auto-generated test commands.
    /// When overrides are provided, they replace the default `binary --help` commands.
    pub fn add_test_command(&mut self, cmd: &str) -> (r: &mut Self)
        ensures
            r@ == (BuilderView {
                test_command_overrides: old(self)@.test_command_overrides.push(cmd@),
                ..old(self)@
            }),
            *final(self) == *final(r),
    {
        self.test_command_overrides.push(String::from_str(cmd));
        assert(self.test_command_overrides.deep_view() =~= old(self)@.test_command_overrides.push(cmd@));
        self
    }

    /// Use `--version` instead of `--help` for auto-generated test commands.
    pub fn use_version_test(&mut self, v: bool) -> (r: &mut Self)
        ensures
            r@ == (BuilderView { use_version_test: v, ..old(self)@ }),
            *final(self) == *final(r),
    {
        self.use_version_test = v;
        self
    }

    /// Control whether `license_family` is emitted.
    /// Defaults to `true` unless explicitly disabled.
    pub fn emit_license_family(&mut self, v: bool) -> (r: &mut Self)
        ensures
            r@ == (BuilderView { emit_license_family: Some(v), ..old(self)@ }),
            *final(self) == *final(r),
    {
        self.emit_license_family = Some(v);
        self
    }

    pub fn cargo_net_git_fetch(&mut self, v: bool) -> (r: &mut Self)
        ensures
            r@ == (BuilderView { cargo_net_git_fetch: v, ..old(self)@ }),
            *final(self) == *final(r),
    {
        self.cargo_net_git_fetch = v;
        self
    }

    pub fn strip_binaries(&mut self, v: bool) -> (r: &mut Self)
        ensures
            r@ == (BuilderView { strip_binaries: v, ..old(self)@ }),
            *final(self) == *final(r),
    {
        self.strip_binaries = v;
        self
    }

    pub fn add_identifier(&mut self, id: &str) -> (r: &mut Self)
        ensures
            r@ == (BuilderView { identifiers: old(self)@.identifiers.push(id@), ..old(self)@ }),
            *final(self) == *final(r),
    {
        self.identifiers.push(String::from_str(id));
        assert(self.identifiers.deep_view() =~= old(self)@.identifiers.push(id@));
        self
    }

    /// Consume the builder and produce both a Recipe and a BuildScript.
    pub fn build(self) -> (r: (Recipe, BuildScript))
        ensures
            r.0.deep_view() == builder_recipe(self@),
            r.1@ == builder_script(self@),
    {
        let ghost b = self@;
        // Build script (consuming builder pattern)
        let script = build_script_of(&self);
        let requirements = build_requirements(&self);
        let test = build_test(&self);
        // Determine license files
        let license_file = build_license_files(self.license_files, self.use_cbl);
        // Inline script for simple recipes
        let build_script_inline = if script.needs_build_sh() {
            None
        } else {
            Some(script.inline_script())
        };
        assert(build_script_inline.deep_view() == builder_inline_script(b));
        // Determine whether to emit license_family
        let emit_family = match self.emit_license_family {
            Some(v) => v,
            None => true,
        };
        let license_family = if emit_family {
            match &self.license {
                Some(l) => Some(guess_license_family(l.as_str())),
                None => None,
            }
        } else {
            None
        };
        let additional_platforms = build_platforms(self.additional_platforms, self.is_bioconda);
        let recipe = Recipe {
            preamble: Preamble { name: self.name.clone(), version: self.version },
            package: Package {  },
            source: Source {
                url: self.source_url,
                filename: self.source_filename,
                sha256: self.source_sha256,
            },
            build: Build {
                name: self.name,
                with_run_exports: self.is_bioconda,
                max_pin: self.max_pin,
                script: build_script_inline,
            },
            requirements,
            test,
            about: About {
                home: self.homepage,
                license: self.license,
                license_family,
                license_file,
                summary: self.summary,
                dev_url: self.repository,
                doc_url: self.documentation,
            },
            extra: Extra {
                additional_platforms,
                recipe_maintainers: self.maintainers,
                identifiers: self.identifiers,
                skip_platforms: self.skip_platforms,
            },
        };
        (recipe, script)
    }
}

fn build_license_files(files: Vec<String>, use_cbl: bool) -> (r: Vec<String>)
    ensures
        r.deep_view() == (if files.deep_view().len() == 0 {
            seq!["LICENSE"@] + (if use_cbl { seq!["THIRDPARTY.yml"@] } else { seq![] })
        } else {
            files.deep_view() + (if use_cbl && !files.deep_view().contains("THIRDPARTY.yml"@) {
                seq!["THIRDPARTY.yml"@]
            } else {
                seq![]
            })
        }),
{
    let ghost fv = files.deep_view();
    if files.len() == 0 {
        let mut out: Vec<String> = Vec::new();
        out.push(String::from_str("LICENSE"));
        if use_cbl {
            out.push(String::from_str("THIRDPARTY.yml"));
        }
        assert(out.deep_view() =~= seq!["LICENSE"@] + (if use_cbl { seq!["THIRDPARTY.yml"@] } else { seq![] }));
        out
    } else {
        let has_third_party = has_entry(&files, "THIRDPARTY.yml");
        let mut out = files;
        if use_cbl && !has_third_party {
            out.push(String::from_str("THIRDPARTY.yml"));
        }
        assert(out.deep_view() =~= fv + (if use_cbl && !fv.contains("THIRDPARTY.yml"@) {
            seq!["THIRDPARTY.yml"@]
        } else {
            seq![]
        }));
        out
    }
}

fn build_script_of(b: &RecipeBuilder) -> (r: BuildScript)
    ensures
        r@ == builder_script(b@),
{
    let mut s = BuildScript::new().locked(true).cargo_bundle_licenses(b.use_cbl).needs_bindgen(
        b.use_bindgen,
    ).has_native_deps(b.has_native_deps).force_build_sh(b.is_bioconda).cargo_net_git_fetch(
        b.cargo_net_git_fetch,
    ).strip_binaries(b.strip_binaries).binaries(b.binaries.clone());
    match &b.workspace_path {
        Some(path) => {
            s = s.workspace_path(path.as_str());
        },
        None => {},
    }
    s
}

fn build_requirements(b: &RecipeBuilder) -> (r: Requirements)
    ensures
        r.deep_view() == builder_requirements(b@),
{
    let build_tools = BuildToolNeeds {
        pkg_config: b.needs_pkg_config,
        make: b.needs_make,
        cmake: b.needs_cmake,
    };
    let mut requirements = Requirements::for_rust_crate(
        b.use_cbl,
        b.has_c_deps,
        b.has_cxx_deps,
        b.use_bindgen,
        &build_tools,
    );
    // Mirror host deps as run deps (shared libraries needed at runtime)
    to_requirements(&b.host_deps, &mut requirements, true);
    to_requirements(&b.run_deps, &mut requirements, false);
    assert(requirements.deep_view().host =~= dep_reqs(b@.host_deps));
    assert(requirements.deep_view().run =~= dep_reqs(b@.host_deps) + dep_reqs(b@.run_deps));
    requirements
}

fn build_test(b: &RecipeBuilder) -> (r: Test)
    ensures
        r.commands.deep_view() == builder_test_commands(b@),
{
    // Test commands: use overrides if provided, otherwise generate from binaries
    if b.test_command_overrides.len() > 0 {
        Test { commands: b.test_command_overrides.clone() }
    } else if b.binaries.len() == 0 {
        let t = Test { commands: Vec::new() };
        assert(t.commands.deep_view() =~= seq![]);
        t
    } else {
        let refs = str_vec(&b.binaries);
        assert(str_views(refs@) == b@.binaries);
        if b.use_version_test {
            Test::from_binaries_version(refs.as_slice())
        } else {
            Test::from_binaries(refs.as_slice())
        }
    }
}

fn build_platforms(platforms: Vec<String>, is_bioconda: bool) -> (r: Vec<String>)
    ensures
        r.deep_view() == (if is_bioconda && platforms.deep_view().len() == 0 {
            seq!["linux-aarch64"@, "osx-arm64"@]
        } else {
            platforms.deep_view()
        }),
{
    if is_bioconda && platforms.len() == 0 {
        let mut p: Vec<String> = Vec::new();
        p.push(String::from_str("linux-aarch64"));
        p.push(String::from_str("osx-arm64"));
        assert(p.deep_view() =~= seq!["linux-aarch64"@, "osx-arm64"@]);
        p
    } else {
        platforms
    }
}

/// Every host dependency of a builder appears, with its selector, both among
/// the host and among the run requirements of the recipe it builds (shared
/// libraries are needed at run time too).
pub proof fn law_host_deps_mirrored_in_run(b: BuilderView, i: int)
    requires
        0 <= i < b.host_deps.len(),
    ensures
        builder_recipe(b).requirements.host.contains(
            selected_req(b.host_deps[i].0, b.host_deps[i].1),
        ),
        builder_recipe(b).requirements.run.contains(
            selected_req(b.host_deps[i].0, b.host_deps[i].1),
        ),
{
    let req = selected_req(b.host_deps[i].0, b.host_deps[i].1);
    let host = dep_reqs(b.host_deps);
    assert(host[i] == req);
    assert((host + dep_reqs(b.run_deps))[i] == req);
}

/// A built recipe carries an inline script exactly when its build script
/// needs no build.sh, and bioconda recipes always get a build.sh.
pub proof fn law_inline_script_iff_no_build_sh(b: BuilderView)
    ensures
        builder_recipe(b).build.script is None <==> spec_needs_build_sh(builder_script(b)),
        b.is_bioconda ==> spec_needs_build_sh(builder_script(b)),
{
}

/// Test command overrides replace the generated test commands.
pub proof fn law_test_overrides_replace_defaults(b: BuilderView)
    requires
        b.test_command_overrides.len() > 0,
    ensures
        builder_recipe(b).test_commands == b.test_command_overrides,
{
}

/// No requirement of the list has a name of length `n`.
spec fn no_name_of_len(s: Seq<ReqView>, n: nat) -> bool {
    forall|k: int| 0 <= k < s.len() ==> (#[trigger] s[k]).name.len() != n
}

proof fn lemma_no_name_of_len_concat(a: Seq<ReqView>, b: Seq<ReqView>, n: nat)
    requires
        no_name_of_len(a, n),
        no_name_of_len(b, n),
    ensures
        no_name_of_len(a + b, n),
{
    assert forall|k: int| 0 <= k < (a + b).len() implies (#[trigger] (a + b)[k]).name.len() != n by {
        if k < a.len() {
            assert((a + b)[k] == a[k]);
        } else {
            assert((a + b)[k] == b[k - a.len()]);
        }
    }
}

proof fn lemma_contains_left(a: Seq<ReqView>, b: Seq<ReqView>, x: ReqView)
    requires
        a.contains(x),
    ensures
        (a + b).contains(x),
{
    let k = choose|k: int| 0 <= k < a.len() && a[k] == x;
    assert((a + b)[k] == x);
}

proof fn lemma_contains_right(a: Seq<ReqView>, b: Seq<ReqView>, x: ReqView)
    requires
        b.contains(x),
    ensures
        (a + b).contains(x),
{
    let k = choose|k: int| 0 <= k < b.len() && b[k] == x;
    assert((a + b)[a.len() + k] == x);
}

proof fn lemma_name_len(cond: bool, name: Seq<char>, n: nat)
    requires
        name.len() != n,
    ensures
        no_name_of_len(opt_req(cond, name), n),
{
}

/// The C standard library is a build requirement exactly when a C or C++
/// compiler is, that is when the crate links C or C++ code or runs bindgen;
/// the Rust compiler always is.
pub proof fn law_stdlib_with_c_or_cxx(
    cbl: bool,
    c: bool,
    cxx: bool,
    bindgen: bool,
    pkg_config: bool,
    make: bool,
    cmake: bool,
)
    ensures
        rust_build_reqs(cbl, c, cxx, bindgen, pkg_config, make, cmake).contains(
            simple_req("{{ stdlib('c') }}"@),
        ) <==> (c || cxx || bindgen),
        (c || bindgen) ==> rust_build_reqs(cbl, c, cxx, bindgen, pkg_config, make, cmake).contains(
            simple_req("{{ compiler('c') }}"@),
        ),
        rust_build_reqs(cbl, c, cxx, bindgen, pkg_config, make, cmake).contains(
            simple_req("{{ compiler('rust') }}"@),
        ),
{
    let stdlib = simple_req("{{ stdlib('c') }}"@);
    let rust = simple_req("{{ compiler('rust') }}"@);
    let ccomp = simple_req("{{ compiler('c') }}"@);
    let a1 = opt_req(c || bindgen, "{{ compiler('c') }}"@);
    let a2 = opt_req(cxx, "{{ compiler('cxx') }}"@);
    let a3 = opt_req(c || cxx || bindgen, "{{ stdlib('c') }}"@);
    let a4 = opt_req(true, "{{ compiler('rust') }}"@);
    let a5 = opt_req(cbl, "cargo-bundle-licenses"@);
    let a6 = opt_req(bindgen, "clangdev"@);
    let a7 = opt_req(pkg_config, "pkg-config"@);
    let a8 = opt_req(make, "make"@);
    let a9 = opt_req(cmake, "cmake"@);
    let p3 = a1 + a2 + a3;
    let p4 = p3 + a4;
    let p5 = p4 + a5;
    let p6 = p5 + a6;
    let p7 = p6 + a7;
    let p8 = p7 + a8;
    let reqs = p8 + a9;
    assert(reqs == rust_build_reqs(cbl, c, cxx, bindgen, pkg_config, make, cmake));
    assert(a4[0] == rust);
    lemma_contains_right(p3, a4, rust);
    lemma_contains_left(p4, a5, rust);
    lemma_contains_left(p5, a6, rust);
    lemma_contains_left(p6, a7, rust);
    lemma_contains_left(p7, a8, rust);
    lemma_contains_left(p8, a9, rust);
    if c || bindgen {
        assert(a1[0] == ccomp);
        lemma_contains_left(a1, a2, ccomp);
        lemma_contains_left(a1 + a2, a3, ccomp);
        lemma_contains_left(p3, a4, ccomp);
        lemma_contains_left(p4, a5, ccomp);
        lemma_contains_left(p5, a6, ccomp);
        lemma_contains_left(p6, a7, ccomp);
        lemma_contains_left(p7, a8, ccomp);
        lemma_contains_left(p8, a9, ccomp);
    }
    if c || cxx || bindgen {
        assert(a3[0] == stdlib);
        lemma_contains_right(a1 + a2, a3, stdlib);
        lemma_contains_left(p3, a4, stdlib);
        lemma_contains_left(p4, a5, stdlib);
        lemma_contains_left(p5, a6, stdlib);
        lemma_contains_left(p6, a7, stdlib);
        lemma_contains_left(p7, a8, stdlib);
        lemma_contains_left(p8, a9, stdlib);
    } else {
        reveal_strlit("{{ stdlib('c') }}");
        reveal_strlit("{{ compiler('rust') }}");
        reveal_strlit("cargo-bundle-licenses");
        reveal_strlit("clangdev");
        reveal_strlit("pkg-config");
        reveal_strlit("make");
        reveal_strlit("cmake");
        assert(a1 =~= seq![]);
        assert(a2 =~= seq![]);
        assert(a3 =~= seq![]);
        lemma_name_len(true, "{{ compiler('rust') }}"@, 17);
        lemma_name_len(cbl, "cargo-bundle-licenses"@, 17);
        lemma_name_len(bindgen, "clangdev"@, 17);
        lemma_name_len(pkg_config, "pkg-config"@, 17);
        lemma_name_len(make, "make"@, 17);
        lemma_name_len(cmake, "cmake"@, 17);
        assert(no_name_of_len(p3, 17));
        lemma_no_name_of_len_concat(p3, a4, 17);
        lemma_no_name_of_len_concat(p4, a5, 17);
        lemma_no_name_of_len_concat(p5, a6, 17);
        lemma_no_name_of_len_concat(p6, a7, 17);
        lemma_no_name_of_len_concat(p7, a8, 17);
        lemma_no_name_of_len_concat(p8, a9, 17);
        if reqs.contains(stdlib) {
            let k = choose|k: int| 0 <= k < reqs.len() && reqs[k] == stdlib;
            assert(reqs[k].name.len() != 17);
        }
    }
}

/// The license family of the last license set is emitted unless emitting it
/// was explicitly turned off (it is on by default, bioconda or not).
pub proof fn law_license_family_emitted_by_default(b: BuilderView)
    ensures
        b.emit_license_family != Some(false) ==> builder_recipe(b).about.license_family == match b.license {
            Some(l) => Some(license_family_of(l)),
            None => None,
        },
        b.emit_license_family == Some(false) ==> builder_recipe(b).about.license_family is None,
{
}

/// After `emit_license_family(v)`, the recipe carries the family of the
/// license when `v` holds and none otherwise.
pub proof fn law_emit_license_family(b: BuilderView, v: bool)
    ensures
        builder_recipe(BuilderView { emit_license_family: Some(v), ..b }).about.license_family
            == if v {
            match b.license {
                Some(l) => Some(license_family_of(l)),
                None => None,
            }
        } else {
            None
        },
{
}

} // verus!
