//! Recipe data model for conda meta.yaml / recipe.yaml.
use vstd::prelude::*;

verus! {

/// Jinja2 preamble with name and version variables.
pub struct Preamble {
    pub name: String,
    pub version: String,
}

pub struct Package {}

pub struct Source {
    pub url: String,
    pub filename: String,
    pub sha256: String,
}

pub struct Build {
    pub name: String,
    pub with_run_exports: bool,
    pub max_pin: String,
    /// If Some, use inline script instead of build.sh.
    pub script: Option<String>,
}

pub struct Requirement {
    pub name: String,
    pub version: Option<String>,
    /// Platform selector, e.g. "not osx", "not win", "not arm64".
    pub selector: Option<String>,
}

pub struct Requirements {
    pub build: Vec<Requirement>,
    pub host: Vec<Requirement>,
    pub run: Vec<Requirement>,
}

pub struct Test {
    pub commands: Vec<String>,
}

pub struct About {
    pub home: Option<String>,
    pub license: Option<String>,
    pub license_family: Option<String>,
    /// List of license files (rendered as YAML list when multiple).
    pub license_file: Vec<String>,
    pub summary: Option<String>,
    pub dev_url: Option<String>,
    pub doc_url: Option<String>,
}

pub struct Extra {
    pub additional_platforms: Vec<String>,
    pub recipe_maintainers: Vec<String>,
    pub identifiers: Vec<String>,
    pub skip_platforms: Vec<String>,
}

pub struct Recipe {
    pub preamble: Preamble,
    pub package: Package,
    pub source: Source,
    pub build: Build,
    pub requirements: Requirements,
    pub test: Test,
    pub about: About,
    pub extra: Extra,
}

/// Configuration for which build tools to include in requirements.
pub struct BuildToolNeeds {
    pub pkg_config: bool,
    pub make: bool,
    pub cmake: bool,
}

/// A requirement as plain sequences.
pub struct ReqView {
    pub name: Seq<char>,
    pub version: Option<Seq<char>>,
    pub selector: Option<Seq<char>>,
}

/// The build section as plain values.
pub struct BuildView {
    pub name: Seq<char>,
    pub with_run_exports: bool,
    pub max_pin: Seq<char>,
    pub script: Option<Seq<char>>,
}

/// The requirements sections as plain values.
pub struct RequirementsView {
    pub build: Seq<ReqView>,
    pub host: Seq<ReqView>,
    pub run: Seq<ReqView>,
}

/// The about section as plain values.
pub struct AboutView {
    pub home: Option<Seq<char>>,
    pub license: Option<Seq<char>>,
    pub license_family: Option<Seq<char>>,
    pub license_file: Seq<Seq<char>>,
    pub summary: Option<Seq<char>>,
    pub dev_url: Option<Seq<char>>,
    pub doc_url: Option<Seq<char>>,
}

/// The extra section as plain values.
pub struct ExtraView {
    pub additional_platforms: Seq<Seq<char>>,
    pub recipe_maintainers: Seq<Seq<char>>,
    pub identifiers: Seq<Seq<char>>,
    pub skip_platforms: Seq<Seq<char>>,
}

/// A whole recipe as plain values.
pub struct RecipeView {
    pub name: Seq<char>,
    pub version: Seq<char>,
    pub url: Seq<char>,
    pub filename: Seq<char>,
    pub sha256: Seq<char>,
    pub build: BuildView,
    pub requirements: RequirementsView,
    pub test_commands: Seq<Seq<char>>,
    pub about: AboutView,
    pub extra: ExtraView,
}

impl DeepView for Requirement {
    type V = ReqView;

    open spec fn deep_view(&self) -> ReqView {
        ReqView {
            name: self.name@,
            version: self.version.deep_view(),
            selector: self.selector.deep_view(),
        }
    }
}

impl DeepView for Build {
    type V = BuildView;

    open spec fn deep_view(&self) -> BuildView {
        BuildView {
            name: self.name@,
            with_run_exports: self.with_run_exports,
            max_pin: self.max_pin@,
            script: self.script.deep_view(),
        }
    }
}

impl DeepView for Requirements {
    type V = RequirementsView;

    open spec fn deep_view(&self) -> RequirementsView {
        RequirementsView {
            build: self.build.deep_view(),
            host: self.host.deep_view(),
            run: self.run.deep_view(),
        }
    }
}

impl DeepView for About {
    type V = AboutView;

    open spec fn deep_view(&self) -> AboutView {
        AboutView {
            home: self.home.deep_view(),
            license: self.license.deep_view(),
            license_family: self.license_family.deep_view(),
            license_file: self.license_file.deep_view(),
            summary: self.summary.deep_view(),
            dev_url: self.dev_url.deep_view(),
            doc_url: self.doc_url.deep_view(),
        }
    }
}

impl DeepView for Extra {
    type V = ExtraView;

    open spec fn deep_view(&self) -> ExtraView {
        ExtraView {
            additional_platforms: self.additional_platforms.deep_view(),
            recipe_maintainers: self.recipe_maintainers.deep_view(),
            identifiers: self.identifiers.deep_view(),
            skip_platforms: self.skip_platforms.deep_view(),
        }
    }
}

impl DeepView for Recipe {
    type V = RecipeView;

    open spec fn deep_view(&self) -> RecipeView {
        RecipeView {
            name: self.preamble.name@,
            version: self.preamble.version@,
            url: self.source.url@,
            filename: self.source.filename@,
            sha256: self.source.sha256@,
            build: self.build.deep_view(),
            requirements: self.requirements.deep_view(),
            test_commands: self.test.commands.deep_view(),
            about: self.about.deep_view(),
            extra: self.extra.deep_view(),
        }
    }
}

/// A requirement with only a name.
pub open spec fn simple_req(name: Seq<char>) -> ReqView {
    ReqView { name, version: None, selector: None }
}

/// Each binary followed by `suffix`.
pub open spec fn commands_with(binaries: Seq<Seq<char>>, suffix: Seq<char>) -> Seq<Seq<char>> {
    binaries.map_values(|b: Seq<char>| b + suffix)
}

/// The views of a slice of strings.
pub open spec fn str_views(s: Seq<&str>) -> Seq<Seq<char>> {
    s.map_values(|x: &str| x@)
}

fn commands_from(binaries: &[&str], suffix: &str) -> (r: Vec<String>)
    ensures
        r.deep_view() == commands_with(str_views(binaries@), suffix@),
{
    let mut r: Vec<String> = Vec::new();
    let mut i: usize = 0;
    while i < binaries.len()
        invariant
            i <= binaries.len(),
            r.deep_view() == commands_with(str_views(binaries@), suffix@).take(i as int),
        decreases binaries.len() - i,
    {
        let b: &str = binaries[i];
        let mut c = String::from_str(b);
        c.append(suffix);
        let ghost cv = c@;
        assert(str_views(binaries@)[i as int] == b@);
        assert(commands_with(str_views(binaries@), suffix@)[i as int] == cv);
        let ghost before = r.deep_view();
        r.push(c);
        assert(r.deep_view() =~= before.push(cv));
        assert(r.deep_view() =~= commands_with(str_views(binaries@), suffix@).take(i + 1));
        i = i + 1;
    }
    assert(commands_with(str_views(binaries@), suffix@).take(binaries.len() as int)
        =~= commands_with(str_views(binaries@), suffix@));
    r
}

impl Test {
    /// `<binary> --help` for each binary.
    pub fn from_binaries(binaries: &[&str]) -> (r: Self)
        ensures
            r.commands.deep_view() == commands_with(str_views(binaries@), " --help"@),
    {
        Self { commands: commands_from(binaries, " --help") }
    }

    /// `<binary> --version` for each binary.
    pub fn from_binaries_version(binaries: &[&str]) -> (r: Self)
        ensures
            r.commands.deep_view() == commands_with(str_views(binaries@), " --version"@),
    {
        Self { commands: commands_from(binaries, " --version") }
    }
}

impl Requirement {
    /// A requirement with only a name.
    pub fn simple(name: &str) -> (r: Self)
        ensures
            r.deep_view() == simple_req(name@),
    {
        Self { name: String::from_str(name), version: None, selector: None }
    }
}

/// `name` as a requirement when `cond` holds, else nothing.
pub open spec fn opt_req(cond: bool, name: Seq<char>) -> Seq<ReqView> {
    if cond {
        seq![simple_req(name)]
    } else {
        seq![]
    }
}

/// The build requirements of a Rust crate: the C compiler when the crate
/// links C code or runs bindgen, the C++ compiler when it links C++ code, the
/// C standard library whenever either compiler is there,
/// the Rust compiler always, then cargo-bundle-licenses, clangdev for bindgen
/// and the build tools that are asked for.
pub open spec fn rust_build_reqs(
    cbl: bool,
    c: bool,
    cxx: bool,
    bindgen: bool,
    pkg_config: bool,
    make: bool,
    cmake: bool,
) -> Seq<ReqView> {
    opt_req(c || bindgen, "{{ compiler('c') }}"@) + opt_req(cxx, "{{ compiler('cxx') }}"@)
        + opt_req(c || cxx || bindgen, "{{ stdlib('c') }}"@,
    ) + opt_req(true, "{{ compiler('rust') }}"@) + opt_req(cbl, "cargo-bundle-licenses"@)
        + opt_req(bindgen, "clangdev"@) + opt_req(pkg_config, "pkg-config"@) + opt_req(
        make,
        "make"@,
    ) + opt_req(cmake, "cmake"@)
}

/// A requirement with a name and an optional selector.
pub open spec fn selected_req(name: Seq<char>, selector: Option<Seq<char>>) -> ReqView {
    ReqView { name, version: None, selector }
}

fn opt_string(s: Option<&str>) -> (r: Option<String>)
    ensures
        r.deep_view() == s.deep_view(),
{
    match s {
        Some(x) => Some(String::from_str(x)),
        None => None,
    }
}

fn push_if(v: &mut Vec<Requirement>, cond: bool, name: &str)
    ensures
        final(v).deep_view() == old(v).deep_view() + opt_req(cond, name@),
{
    if cond {
        v.push(Requirement::simple(name));
    }
    assert(v.deep_view() =~= old(v).deep_view() + opt_req(cond, name@));
}

impl Requirements {
    /// Create requirements for a Rust crate.
    ///
    /// * `cargo_bundle_licenses` - include CBL in build deps
    /// * `has_c_deps` - crate links C code (adds compiler('c'))
    /// * `has_cxx_deps` - crate links C++ code (adds compiler('cxx'))
    /// * `has_bindgen` - crate uses bindgen (adds clangdev)
    /// * `build_tools` - which build tools to include (pkg-config, make, cmake)
    pub fn for_rust_crate(
        cargo_bundle_licenses: bool,
        has_c_deps: bool,
        has_cxx_deps: bool,
        has_bindgen: bool,
        build_tools: &BuildToolNeeds,
    ) -> (r: Self)
        ensures
            r.deep_view() == (RequirementsView {
                build: rust_build_reqs(
                    cargo_bundle_licenses,
                    has_c_deps,
                    has_cxx_deps,
                    has_bindgen,
                    build_tools.pkg_config,
                    build_tools.make,
                    build_tools.cmake,
                ),
                host: seq![],
                run: seq![],
            }),
    {
        let mut build: Vec<Requirement> = Vec::new();
        push_if(&mut build, has_c_deps || has_bindgen, "{{ compiler('c') }}");
        push_if(&mut build, has_cxx_deps, "{{ compiler('cxx') }}");
        push_if(&mut build, has_c_deps || has_cxx_deps || has_bindgen, "{{ stdlib('c') }}");
        push_if(&mut build, true, "{{ compiler('rust') }}");
        push_if(&mut build, cargo_bundle_licenses, "cargo-bundle-licenses");
        push_if(&mut build, has_bindgen, "clangdev");
        push_if(&mut build, build_tools.pkg_config, "pkg-config");
        push_if(&mut build, build_tools.make, "make");
        push_if(&mut build, build_tools.cmake, "cmake");
        let r = Self { build, host: Vec::new(), run: Vec::new() };
        assert(r.deep_view().build =~= rust_build_reqs(
            cargo_bundle_licenses,
            has_c_deps,
            has_cxx_deps,
            has_bindgen,
            build_tools.pkg_config,
            build_tools.make,
            build_tools.cmake,
        ));
        assert(r.deep_view().host =~= seq![]);
        assert(r.deep_view().run =~= seq![]);
        r
    }

    /// Appends a host requirement.
    pub fn add_host(&mut self, name: &str, selector: Option<&str>)
        ensures
            final(self).build.deep_view() == old(self).build.deep_view(),
            final(self).run.deep_view() == old(self).run.deep_view(),
            final(self).host.deep_view() == old(self).host.deep_view().push(
                selected_req(name@, selector.deep_view()),
            ),
    {
        self.host.push(
            Requirement { name: String::from_str(name), version: None, selector: opt_string(selector) },
        );
        assert(self.host.deep_view() =~= old(self).host.deep_view().push(
            selected_req(name@, selector.deep_view()),
        ));
    }

    /// Appends a run requirement.
    pub fn add_run(&mut self, name: &str, selector: Option<&str>)
        ensures
            final(self).build.deep_view() == old(self).build.deep_view(),
            final(self).host.deep_view() == old(self).host.deep_view(),
            final(self).run.deep_view() == old(self).run.deep_view().push(
                selected_req(name@, selector.deep_view()),
            ),
    {
        self.run.push(
            Requirement { name: String::from_str(name), version: None, selector: opt_string(selector) },
        );
        assert(self.run.deep_view() =~= old(self).run.deep_view().push(
            selected_req(name@, selector.deep_view()),
        ));
    }
}


/// The position of a build requirement name in the order the build
/// requirements of a Rust crate are listed; 9 for any other name.
pub open spec fn build_req_rank(n: Seq<char>) -> int {
    if n == "{{ compiler('c') }}"@ {
        0
    } else if n == "{{ compiler('cxx') }}"@ {
        1
    } else if n == "{{ stdlib('c') }}"@ {
        2
    } else if n == "{{ compiler('rust') }}"@ {
        3
    } else if n == "cargo-bundle-licenses"@ {
        4
    } else if n == "clangdev"@ {
        5
    } else if n == "pkg-config"@ {
        6
    } else if n == "make"@ {
        7
    } else if n == "cmake"@ {
        8
    } else {
        9
    }
}

/// Requirements with only a name, whose names come in strictly increasing
/// rank, all below `k`.
#[verifier::opaque]
pub open spec fn ranked_below(reqs: Seq<ReqView>, k: int) -> bool {
    &&& forall|i: int| 0 <= i < reqs.len() ==> #[trigger] reqs[i] == simple_req(reqs[i].name)
    &&& forall|i: int, j: int|
        0 <= i < j < reqs.len() ==> build_req_rank(#[trigger] reqs[i].name) < build_req_rank(
            #[trigger] reqs[j].name,
        )
    &&& forall|i: int| 0 <= i < reqs.len() ==> build_req_rank(#[trigger] reqs[i].name) < k
}

proof fn lemma_ranked_push(reqs: Seq<ReqView>, cond: bool, name: Seq<char>, k: int)
    requires
        ranked_below(reqs, k),
        build_req_rank(name) == k,
    ensures
        ranked_below(reqs + opt_req(cond, name), k + 1),
{
    reveal(ranked_below);
    let out = reqs + opt_req(cond, name);
    assert forall|i: int| 0 <= i < reqs.len() implies #[trigger] out[i] == reqs[i] by {}
    if cond {
        assert(out[reqs.len() as int] == simple_req(name));
    }
}

proof fn lemma_build_req_ranks()
    ensures
        build_req_rank("{{ compiler('c') }}"@) == 0,
        build_req_rank("{{ compiler('cxx') }}"@) == 1,
        build_req_rank("{{ stdlib('c') }}"@) == 2,
        build_req_rank("{{ compiler('rust') }}"@) == 3,
        build_req_rank("cargo-bundle-licenses"@) == 4,
        build_req_rank("clangdev"@) == 5,
        build_req_rank("pkg-config"@) == 6,
        build_req_rank("make"@) == 7,
        build_req_rank("cmake"@) == 8,
{
    reveal_strlit("{{ compiler('c') }}");
    reveal_strlit("{{ compiler('cxx') }}");
    reveal_strlit("{{ stdlib('c') }}");
    reveal_strlit("{{ compiler('rust') }}");
    reveal_strlit("cargo-bundle-licenses");
    reveal_strlit("clangdev");
    reveal_strlit("pkg-config");
    reveal_strlit("make");
    reveal_strlit("cmake");
    assert("{{ compiler('c') }}"@.len() == 19);
    assert("{{ compiler('cxx') }}"@.len() == 21);
    assert("{{ stdlib('c') }}"@.len() == 17);
    assert("{{ compiler('rust') }}"@.len() == 22);
    assert("cargo-bundle-licenses"@.len() == 21);
    assert("clangdev"@.len() == 8);
    assert("pkg-config"@.len() == 10);
    assert("make"@.len() == 4);
    assert("cmake"@.len() == 5);
    assert("{{ compiler('cxx') }}"@ != "{{ compiler('c') }}"@);
    assert("{{ stdlib('c') }}"@ != "{{ compiler('c') }}"@);
    assert("{{ stdlib('c') }}"@ != "{{ compiler('cxx') }}"@);
    assert("{{ compiler('rust') }}"@ != "{{ compiler('c') }}"@);
    assert("{{ compiler('rust') }}"@ != "{{ compiler('cxx') }}"@);
    assert("{{ compiler('rust') }}"@ != "{{ stdlib('c') }}"@);
    assert("cargo-bundle-licenses"@ != "{{ compiler('c') }}"@);
    assert("cargo-bundle-licenses"@[0] != "{{ compiler('cxx') }}"@[0]);
    assert("cargo-bundle-licenses"@ != "{{ compiler('cxx') }}"@);
    assert("cargo-bundle-licenses"@ != "{{ stdlib('c') }}"@);
    assert("cargo-bundle-licenses"@ != "{{ compiler('rust') }}"@);
    assert("clangdev"@ != "{{ compiler('c') }}"@);
    assert("clangdev"@ != "{{ compiler('cxx') }}"@);
    assert("clangdev"@ != "{{ stdlib('c') }}"@);
    assert("clangdev"@ != "{{ compiler('rust') }}"@);
    assert("clangdev"@ != "cargo-bundle-licenses"@);
    assert("pkg-config"@ != "{{ compiler('c') }}"@);
    assert("pkg-config"@ != "{{ compiler('cxx') }}"@);
    assert("pkg-config"@ != "{{ stdlib('c') }}"@);
    assert("pkg-config"@ != "{{ compiler('rust') }}"@);
    assert("pkg-config"@ != "cargo-bundle-licenses"@);
    assert("pkg-config"@ != "clangdev"@);
    assert("make"@ != "{{ compiler('c') }}"@);
    assert("make"@ != "{{ compiler('cxx') }}"@);
    assert("make"@ != "{{ stdlib('c') }}"@);
    assert("make"@ != "{{ compiler('rust') }}"@);
    assert("make"@ != "cargo-bundle-licenses"@);
    assert("make"@ != "clangdev"@);
    assert("make"@ != "pkg-config"@);
    assert("cmake"@ != "{{ compiler('c') }}"@);
    assert("cmake"@ != "{{ compiler('cxx') }}"@);
    assert("cmake"@ != "{{ stdlib('c') }}"@);
    assert("cmake"@ != "{{ compiler('rust') }}"@);
    assert("cmake"@ != "cargo-bundle-licenses"@);
    assert("cmake"@ != "clangdev"@);
    assert("cmake"@ != "pkg-config"@);
    assert("cmake"@ != "make"@);
}

/// The build requirements of a Rust crate name each requirement once, with
/// no version and no selector.
pub proof fn law_build_reqs_distinct(
    cbl: bool,
    c: bool,
    cxx: bool,
    bindgen: bool,
    pkg_config: bool,
    make: bool,
    cmake: bool,
)
    ensures
        ({
            let reqs = rust_build_reqs(cbl, c, cxx, bindgen, pkg_config, make, cmake);
            &&& forall|i: int, j: int|
                0 <= i < j < reqs.len() ==> #[trigger] reqs[i].name != #[trigger] reqs[j].name
            &&& forall|i: int|
                0 <= i < reqs.len() ==> (#[trigger] reqs[i]).version is None && reqs[i].selector is None
        }),
{
    lemma_build_req_ranks();
    let s0: Seq<ReqView> = seq![];
    assert(ranked_below(s0, 0)) by {
        reveal(ranked_below);
    }
    let s1 = s0 + opt_req(c || bindgen, "{{ compiler('c') }}"@);
    lemma_ranked_push(s0, c || bindgen, "{{ compiler('c') }}"@, 0);
    let s2 = s1 + opt_req(cxx, "{{ compiler('cxx') }}"@);
    lemma_ranked_push(s1, cxx, "{{ compiler('cxx') }}"@, 1);
    let s3 = s2 + opt_req(c || cxx || bindgen, "{{ stdlib('c') }}"@);
    lemma_ranked_push(s2, c || cxx || bindgen, "{{ stdlib('c') }}"@, 2);
    let s4 = s3 + opt_req(true, "{{ compiler('rust') }}"@);
    lemma_ranked_push(s3, true, "{{ compiler('rust') }}"@, 3);
    let s5 = s4 + opt_req(cbl, "cargo-bundle-licenses"@);
    lemma_ranked_push(s4, cbl, "cargo-bundle-licenses"@, 4);
    let s6 = s5 + opt_req(bindgen, "clangdev"@);
    lemma_ranked_push(s5, bindgen, "clangdev"@, 5);
    let s7 = s6 + opt_req(pkg_config, "pkg-config"@);
    lemma_ranked_push(s6, pkg_config, "pkg-config"@, 6);
    let s8 = s7 + opt_req(make, "make"@);
    lemma_ranked_push(s7, make, "make"@, 7);
    let s9 = s8 + opt_req(cmake, "cmake"@);
    lemma_ranked_push(s8, cmake, "cmake"@, 8);
    assert(s1 =~= opt_req(c || bindgen, "{{ compiler('c') }}"@));
    let reqs = rust_build_reqs(cbl, c, cxx, bindgen, pkg_config, make, cmake);
    assert(reqs =~= s9);
    reveal(ranked_below);
    assert forall|i: int| 0 <= i < reqs.len() implies (#[trigger] reqs[i]).version is None
        && reqs[i].selector is None by {
        assert(s9[i] == simple_req(s9[i].name));
    }
}

} // verus!
