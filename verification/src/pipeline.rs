//! The decisions of a recipe run that sit between its network requests:
//! the version string, the dependency list, the workspace member to build,
//! the maintainers, and the options applied to the builder.
use vstd::prelude::*;

use crate::crate_inspector::{
    binary_names_of, TomlValue, is_sorted, lemma_insert_pos_bounds, lemma_sort_strings, package_name_of,
    sort_strings, sorted_insert_position, string_views, CargoMetadata,
};
use crate::build_script::{build_sh_text, spec_needs_build_sh, BuildScript};
use crate::recipe::Recipe;
use crate::recipe_builder::{BuilderView, RecipeBuilder};
use crate::renderer::{meta_yaml, MetaYamlRenderer, Renderer};
use crate::sys_deps::{
    all_packages, any_name, detect_host_deps, links_c, links_cxx, name_views, needs_bindgen,
    needs_c_compiler, needs_cmake, needs_cxx_compiler, needs_make, needs_pkg_config,
    sorted_first_entries, uses_cmake, uses_make, uses_pkg_config, Pkg, PkgSpec,
    law_make_iff_host_deps, law_make_implies_c_compiler, law_c_compiler_table,
    law_cxx_compiler_table, law_pkg_config_table, law_cmake_table, law_make_table,
};
use crate::text::{has_prefix, lemma_lex_total, lemma_lex_transitive, lex_lt, slice, starts_with,
    text_eq};

verus! {

/// The software version: the package version, then the first eight
/// characters of the git commit when known, then `-dirty` when the tree had
/// uncommitted changes.
pub open spec fn software_version(
    pkg_version: Seq<char>,
    git_hash: Option<Seq<char>>,
    dirty: Option<bool>,
) -> Seq<char> {
    (match git_hash {
        Some(h) => pkg_version + "-"@ + h.take(8),
        None => pkg_version,
    }) + (if dirty == Some(true) {
        "-dirty"@
    } else {
        ""@
    })
}

/// Get a software version string including the git commit hash and dirty
/// state, or the package version alone when no git information is known.
pub fn get_software_version(pkg_version: &str, git_commit_hash: Option<&str>, git_dirty: Option<
    bool,
>) -> (r: String)
    requires
        git_commit_hash matches Some(h) ==> h@.len() >= 8 && forall|i: int|
            0 <= i < 8 ==> (h@[i] as int) < 128,
    ensures
        r@ == software_version(
            pkg_version@,
            match git_commit_hash {
                Some(h) => Some(h@),
                None => None,
            },
            git_dirty,
        ),
{
    let mut r = String::from_str(pkg_version);
    match git_commit_hash {
        Some(h) => {
            r.append("-");
            r.append(slice(h, 0, 8));
            assert(h@.subrange(0, 8) =~= h@.take(8));
        },
        None => {},
    }
    proof {
        reveal_strlit("");
    }
    if git_dirty == Some(true) {
        r.append("-dirty");
    } else {
        assert(r@ + ""@ =~= r@);
    }
    r
}

/// The maintainers of a recipe: the ones given on the command line when there
/// are any, otherwise the crate's authors that are not `github:` teams.
pub open spec fn recipe_maintainers(authors: Seq<Seq<char>>, cli: Seq<Seq<char>>) -> Seq<
    Seq<char>,
> {
    if cli.len() > 0 {
        cli
    } else {
        authors.filter(|a: Seq<char>| !has_prefix(a, "github:"@))
    }
}

/// Choose the recipe maintainers from the crate's authors and the command line.
pub fn select_maintainers(authors: &Vec<String>, cli: &Vec<String>) -> (r: Vec<String>)
    ensures
        string_views(r@) == recipe_maintainers(string_views(authors@), string_views(cli@)),
{
    if cli.len() > 0 {
        return cli.clone();
    }
    let ghost av = string_views(authors@);
    let mut out: Vec<String> = Vec::new();
    let mut i: usize = 0;
    assert(av.take(0) =~= seq![]);
    while i < authors.len()
        invariant
            i <= authors.len(),
            av == string_views(authors@),
            string_views(out@) == av.take(i as int).filter(|a: Seq<char>| !has_prefix(a, "github:"@)),
        decreases authors.len() - i,
    {
        let a = authors[i].as_str();
        assert(av.take(i + 1).drop_last() =~= av.take(i as int));
        assert(av.take(i + 1).last() == a@);
        let ghost before = out@;
        if !starts_with(a, "github:") {
            out.push(authors[i].clone());
            assert(string_views(out@) =~= string_views(before).push(a@));
        }
        proof {
            av.take(i as int).lemma_filter_push(a@, |a: Seq<char>| !has_prefix(a, "github:"@));
            assert(av.take(i as int).push(a@) =~= av.take(i + 1));
        }
        i = i + 1;
    }
    assert(av.take(authors.len() as int) =~= av);
    out
}

/// The index of the first manifest satisfying `p`, or the length when none does.
pub open spec fn first_index(metas: Seq<CargoMetadata>, p: spec_fn(TomlValue) -> bool) -> int
    decreases metas.len(),
{
    if metas.len() == 0 {
        0
    } else if p(metas[0]@) {
        0
    } else {
        1 + first_index(metas.drop_first(), p)
    }
}

/// The index of the workspace member to build for a target name: the first
/// whose package is named so, otherwise the first with a binary so named.
pub open spec fn member_for(target: Seq<char>, metas: Seq<CargoMetadata>) -> Option<int> {
    let i = first_index(metas, |d: TomlValue| package_name_of(d) == Some(target));
    let j = first_index(metas, |d: TomlValue| binary_names_of(d).contains(target));
    if i < metas.len() {
        Some(i)
    } else if j < metas.len() {
        Some(j)
    } else {
        None
    }
}

proof fn lemma_first_index(metas: Seq<CargoMetadata>, p: spec_fn(TomlValue) -> bool, j: int)
    requires
        0 <= j <= metas.len(),
        forall|k: int| 0 <= k < j ==> !p(#[trigger] metas[k]@),
        j == metas.len() || p(metas[j]@),
    ensures
        first_index(metas, p) == j,
    decreases j,
{
    if j > 0 {
        assert forall|k: int| 0 <= k < j - 1 implies !p(#[trigger] metas.drop_first()[k]@) by {
            assert(metas.drop_first()[k] == metas[k + 1]);
        }
        lemma_first_index(metas.drop_first(), p, j - 1);
    }
}

fn names_contain(names: &Vec<String>, target: &str) -> (r: bool)
    ensures
        r == string_views(names@).contains(target@),
{
    let mut i: usize = 0;
    while i < names.len()
        invariant
            i <= names.len(),
            forall|k: int| 0 <= k < i ==> names@[k]@ != target@,
        decreases names.len() - i,
    {
        if text_eq(names[i].as_str(), target) {
            assert(string_views(names@)[i as int] == target@);
            return true;
        }
        i = i + 1;
    }
    assert forall|k: int| 0 <= k < string_views(names@).len() implies string_views(names@)[k]
        != target@ by {
        assert(string_views(names@)[k] == names@[k]@);
    }
    false
}

/// The manifests of a list of members given with their paths.
pub open spec fn metas_of(members: Seq<(String, CargoMetadata)>) -> Seq<CargoMetadata> {
    members.map_values(|p: (String, CargoMetadata)| p.1)
}

/// Find the workspace member to build for a target name among the members
/// whose manifests were read (each with its path): the first whose package
/// has that name, otherwise the first that has a binary of that name.
pub fn find_workspace_member(target: &str, members: &Vec<(String, CargoMetadata)>) -> (r: Option<
    usize,
>)
    ensures
        match r {
            Some(i) => member_for(target@, metas_of(members@)) == Some(i as int),
            None => member_for(target@, metas_of(members@)) is None,
        },
{
    let ghost mv = metas_of(members@);
    let ghost pn = |d: TomlValue| package_name_of(d) == Some(target@);
    let ghost pb = |d: TomlValue| binary_names_of(d).contains(target@);
    let mut i: usize = 0;
    while i < members.len()
        invariant
            i <= members.len(),
            mv == metas_of(members@),
            pn == (|d: TomlValue| package_name_of(d) == Some(target@)),
            forall|k: int| 0 <= k < i ==> !pn(#[trigger] mv[k]@),
        decreases members.len() - i,
    {
        assert(mv[i as int] == members@[i as int].1);
        let name = members[i].1.package_name();
        let matched = match &name {
            Some(n) => text_eq(n.as_str(), target),
            None => false,
        };
        if matched {
            proof {
                lemma_first_index(mv, pn, i as int);
            }
            return Some(i);
        }
        i = i + 1;
    }
    proof {
        lemma_first_index(mv, pn, mv.len() as int);
    }
    let mut j: usize = 0;
    while j < members.len()
        invariant
            j <= members.len(),
            mv == metas_of(members@),
            pb == (|d: TomlValue| binary_names_of(d).contains(target@)),
            first_index(mv, pn) == mv.len(),
            pn == (|d: TomlValue| package_name_of(d) == Some(target@)),
            forall|k: int| 0 <= k < j ==> !pb(#[trigger] mv[k]@),
        decreases members.len() - j,
    {
        assert(mv[j as int] == members@[j as int].1);
        let bins = members[j].1.binary_names();
        if names_contain(&bins, target) {
            proof {
                lemma_first_index(mv, pb, j as int);
            }
            return Some(j);
        }
        j = j + 1;
    }
    proof {
        lemma_first_index(mv, pb, mv.len() as int);
    }
    None
}
/// A sorted list without the repeats of adjacent equal elements.
pub open spec fn dedup_adjacent(s: Seq<Seq<char>>) -> Seq<Seq<char>>
    decreases s.len(),
{
    if s.len() <= 1 {
        s
    } else {
        let d = dedup_adjacent(s.drop_last());
        if s.last() == s[s.len() - 2] {
            d
        } else {
            d.push(s.last())
        }
    }
}

/// Each element sorts strictly before every later one.
pub open spec fn strictly_sorted(s: Seq<Seq<char>>) -> bool {
    forall|i: int, j: int| 0 <= i < j < s.len() ==> lex_lt(#[trigger] s[i], #[trigger] s[j])
}

/// The dependency names to look for system libraries in: the package names
/// of the lockfile, sorted and without repeats, when one was read; the
/// direct dependencies otherwise.
pub open spec fn effective_deps(lock: Option<Seq<Seq<char>>>, direct: Seq<Seq<char>>) -> Seq<
    Seq<char>,
> {
    match lock {
        Some(names) => dedup_adjacent(sort_strings(names)),
        None => direct,
    }
}

proof fn lemma_dedup_adjacent(s: Seq<Seq<char>>)
    requires
        is_sorted(s),
    ensures
        strictly_sorted(dedup_adjacent(s)),
        forall|x: Seq<char>| dedup_adjacent(s).contains(x) <==> s.contains(x),
        s.len() > 0 ==> dedup_adjacent(s).len() > 0 && dedup_adjacent(s).last() == s.last(),
    decreases s.len(),
{
    if s.len() > 1 {
        let t = s.drop_last();
        assert forall|i: int, j: int| 0 <= i < j < t.len() implies !lex_lt(
            #[trigger] t[j],
            #[trigger] t[i],
        ) by {
            assert(t[i] == s[i] && t[j] == s[j]);
        }
        lemma_dedup_adjacent(t);
        let d = dedup_adjacent(t);
        let x = s.last();
        assert(t.last() == s[s.len() - 2]);
        assert forall|y: Seq<char>| t.contains(y) implies s.contains(y) by {
            let k = choose|k: int| 0 <= k < t.len() && t[k] == y;
            assert(s[k] == y);
        }
        assert forall|y: Seq<char>| s.contains(y) && y != x implies t.contains(y) by {
            let k = choose|k: int| 0 <= k < s.len() && s[k] == y;
            assert(k < s.len() - 1);
            assert(t[k] == y);
        }
        assert(t.contains(t.last()));
        if x != s[s.len() - 2] {
            let e = d.push(x);
            assert(!lex_lt(x, s[s.len() - 2]));
            lemma_lex_total(x, s[s.len() - 2]);
            assert(lex_lt(d.last(), x));
            assert forall|i: int, j: int| 0 <= i < j < e.len() implies lex_lt(
                #[trigger] e[i],
                #[trigger] e[j],
            ) by {
                if j < d.len() {
                    assert(e[i] == d[i] && e[j] == d[j]);
                } else {
                    assert(e[j] == x);
                    if i < d.len() - 1 {
                        assert(e[i] == d[i]);
                        assert(lex_lt(d[i], d[d.len() - 1]));
                        lemma_lex_transitive(d[i], d.last(), x);
                    } else {
                        assert(e[i] == d.last());
                    }
                }
            }
            assert forall|y: Seq<char>| e.contains(y) <==> s.contains(y) by {
                if e.contains(y) {
                    let k = choose|k: int| 0 <= k < e.len() && e[k] == y;
                    if k < d.len() {
                        assert(d[k] == y);
                        assert(d.contains(y));
                    } else {
                        assert(s[s.len() - 1] == y);
                    }
                }
                if s.contains(y) {
                    if y == x {
                        assert(e[d.len() as int] == y);
                    } else {
                        assert(d.contains(y));
                        let k = choose|k: int| 0 <= k < d.len() && d[k] == y;
                        assert(e[k] == y);
                    }
                }
            }
        }
    }
}

/// Resolve the dependency list to feed into system-library detection: the
/// package names read from the lockfile, sorted and without repeats, when
/// there was one and it parsed (the full resolved graph catches transitive
/// `-sys` crates); the direct dependencies otherwise.
pub fn resolve_effective_deps(lock_names: Option<&Vec<String>>, direct_deps: &[String]) -> (r: Vec<
    String,
>)
    ensures
        string_views(r@) == effective_deps(
            match lock_names {
                Some(v) => Some(string_views(v@)),
                None => None,
            },
            string_views(direct_deps@),
        ),
        lock_names is Some ==> strictly_sorted(string_views(r@)),
        lock_names matches Some(v) ==> forall|x: Seq<char>|
            string_views(r@).contains(x) <==> string_views(v@).contains(x),
{
    let names = match lock_names {
        Some(v) => v,
        None => {
            let mut out: Vec<String> = Vec::new();
            let mut i: usize = 0;
            while i < direct_deps.len()
                invariant
                    i <= direct_deps.len(),
                    string_views(out@) == string_views(direct_deps@).take(i as int),
                decreases direct_deps.len() - i,
            {
                let ghost before = out@;
                out.push(direct_deps[i].clone());
                assert(string_views(out@) =~= string_views(before).push(direct_deps@[i as int]@));
                assert(string_views(direct_deps@).take(i + 1) =~= string_views(direct_deps@).take(
                    i as int,
                ).push(direct_deps@[i as int]@));
                i = i + 1;
            }
            assert(string_views(direct_deps@).take(direct_deps.len() as int) =~= string_views(
                direct_deps@,
            ));
            return out;
        },
    };
    let ghost nv = string_views(names@);
    let mut sorted: Vec<String> = Vec::new();
    let mut i: usize = 0;
    assert(nv.take(0) =~= seq![]);
    while i < names.len()
        invariant
            i <= names.len(),
            nv == string_views(names@),
            string_views(sorted@) == sort_strings(nv.take(i as int)),
        decreases names.len() - i,
    {
        let x = names[i].as_str();
        let k = sorted_insert_position(&sorted, x);
        let ghost before = string_views(sorted@);
        proof {
            lemma_insert_pos_bounds(before, x@);
        }
        sorted.insert(k, names[i].clone());
        assert(string_views(sorted@) =~= before.insert(k as int, x@));
        assert(nv.take(i + 1).drop_last() =~= nv.take(i as int));
        assert(nv.take(i + 1).last() == x@);
        i = i + 1;
    }
    assert(nv.take(names.len() as int) =~= nv);
    let ghost sv = string_views(sorted@);
    let mut out: Vec<String> = Vec::new();
    let mut j: usize = 0;
    assert(sv.take(0) =~= seq![]);
    while j < sorted.len()
        invariant
            j <= sorted.len(),
            sv == string_views(sorted@),
            string_views(out@) == dedup_adjacent(sv.take(j as int)),
        decreases sorted.len() - j,
    {
        let ghost cur = sv.take(j + 1);
        assert(cur.drop_last() =~= sv.take(j as int));
        assert(cur.last() == sorted@[j as int]@);
        if j == 0 || !text_eq(sorted[j].as_str(), sorted[j - 1].as_str()) {
            let ghost before = out@;
            out.push(sorted[j].clone());
            assert(string_views(out@) =~= string_views(before).push(sorted@[j as int]@));
            if j > 0 {
                assert(cur[cur.len() - 2] == sorted@[j - 1]@);
            } else {
                assert(sv.take(0) =~= seq![]);
                assert(string_views(out@) =~= cur);
            }
        } else {
            assert(cur[cur.len() - 2] == sorted@[j - 1]@);
        }
        j = j + 1;
    }
    assert(sv.take(sorted.len() as int) =~= sv);
    proof {
        lemma_sort_strings(nv);
        lemma_dedup_adjacent(sv);
        assert forall|x: Seq<char>| sv.contains(x) <==> nv.contains(x) by {
            vstd::seq_lib::to_multiset_contains(sv, x);
            vstd::seq_lib::to_multiset_contains(nv, x);
        }
    }
    out
}

/// The options of a run that shape every recipe it builds.
pub struct RecipeOptions {
    pub bioconda: bool,
    /// Use cargo-bundle-licenses; defaults to `bioconda`.
    pub cargo_bundle_licenses: Option<bool>,
    pub host_dep: Vec<String>,
    pub run_dep: Vec<String>,
    pub test_command: Vec<String>,
    pub skip_platform: Vec<String>,
    pub max_pin: Option<String>,
    pub cargo_net_git_fetch: bool,
    pub test_version: bool,
    pub strip: bool,
    pub license_family: Option<bool>,
    pub identifier: Vec<String>,
    pub workspace_path: Option<String>,
}

/// Names without a platform selector.
pub open spec fn unselected(names: Seq<Seq<char>>) -> Seq<PkgSpec> {
    names.map_values(|n: Seq<char>| (n, None::<Seq<char>>))
}

/// A builder after the options and what the dependencies need were applied:
/// the flags set, the detected host packages and then the given ones added
/// as host dependencies, the given run dependencies, skipped platforms, test
/// commands and identifiers appended, and the pin, the license family choice
/// and the workspace path replaced where given.
pub open spec fn configured(
    b: BuilderView,
    o: RecipeOptions,
    names: Seq<Seq<char>>,
    hosts: Seq<PkgSpec>,
) -> BuilderView {
    BuilderView {
        is_bioconda: o.bioconda,
        use_cbl: match o.cargo_bundle_licenses {
            Some(v) => v,
            None => o.bioconda,
        },
        has_c_deps: any_name(names, |n: Seq<char>| links_c(n)),
        has_cxx_deps: any_name(names, |n: Seq<char>| links_cxx(n)),
        has_native_deps: hosts.len() > 0 || o.host_dep.len() > 0,
        use_bindgen: any_name(names, |n: Seq<char>| n == "bindgen"@),
        needs_pkg_config: any_name(names, |n: Seq<char>| uses_pkg_config(n)),
        needs_make: any_name(names, |n: Seq<char>| uses_make(n)),
        needs_cmake: any_name(names, |n: Seq<char>| uses_cmake(n)),
        cargo_net_git_fetch: o.cargo_net_git_fetch,
        strip_binaries: o.strip,
        use_version_test: o.test_version,
        max_pin: match o.max_pin {
            Some(p) => p@,
            None => b.max_pin,
        },
        emit_license_family: match o.license_family {
            Some(e) => Some(e),
            None => b.emit_license_family,
        },
        workspace_path: match o.workspace_path {
            Some(p) => Some(p@),
            None => b.workspace_path,
        },
        host_deps: b.host_deps + hosts + unselected(string_views(o.host_dep@)),
        run_deps: b.run_deps + unselected(string_views(o.run_dep@)),
        skip_platforms: b.skip_platforms + string_views(o.skip_platform@),
        test_command_overrides: b.test_command_overrides + string_views(o.test_command@),
        identifiers: b.identifiers + string_views(o.identifier@),
        ..b
    }
}

fn add_unselected_host_deps(builder: &mut RecipeBuilder, deps: &Vec<String>)
    ensures
        final(builder)@ == (BuilderView {
            host_deps: old(builder)@.host_deps + unselected(string_views(deps@)),
            ..old(builder)@
        }),
{
    let ghost start = builder@;
    let mut i: usize = 0;
    while i < deps.len()
        invariant
            i <= deps.len(),
            builder@ == (BuilderView {
                host_deps: start.host_deps + unselected(string_views(deps@)).take(i as int),
                ..start
            }),
        decreases deps.len() - i,
    {
        builder.add_host_dep(deps[i].as_str(), None);
        assert(unselected(string_views(deps@)).take(i + 1) =~= unselected(string_views(deps@)).take(
            i as int,
        ).push((deps@[i as int]@, None)));
        assert(builder@.host_deps =~= start.host_deps + unselected(string_views(deps@)).take(i + 1));
        i = i + 1;
    }
    assert(unselected(string_views(deps@)).take(deps.len() as int) =~= unselected(
        string_views(deps@),
    ));
}

fn add_unselected_run_deps(builder: &mut RecipeBuilder, deps: &Vec<String>)
    ensures
        final(builder)@ == (BuilderView {
            run_deps: old(builder)@.run_deps + unselected(string_views(deps@)),
            ..old(builder)@
        }),
{
    let ghost start = builder@;
    let mut i: usize = 0;
    while i < deps.len()
        invariant
            i <= deps.len(),
            builder@ == (BuilderView {
                run_deps: start.run_deps + unselected(string_views(deps@)).take(i as int),
                ..start
            }),
        decreases deps.len() - i,
    {
        builder.add_run_dep(deps[i].as_str(), None);
        assert(unselected(string_views(deps@)).take(i + 1) =~= unselected(string_views(deps@)).take(
            i as int,
        ).push((deps@[i as int]@, None)));
        assert(builder@.run_deps =~= start.run_deps + unselected(string_views(deps@)).take(i + 1));
        i = i + 1;
    }
    assert(unselected(string_views(deps@)).take(deps.len() as int) =~= unselected(
        string_views(deps@),
    ));
}

fn add_skip_platforms(builder: &mut RecipeBuilder, items: &Vec<String>)
    ensures
        final(builder)@ == (BuilderView {
            skip_platforms: old(builder)@.skip_platforms + string_views(items@),
            ..old(builder)@
        }),
{
    let ghost start = builder@;
    let mut k: usize = 0;
    while k < items.len()
        invariant
            k <= items.len(),
            builder@ == (BuilderView {
                skip_platforms: start.skip_platforms + string_views(items@).take(k as int),
                ..start
            }),
        decreases items.len() - k,
    {
        builder.skip_platform(items[k].as_str());
        assert(string_views(items@).take(k + 1) =~= string_views(items@).take(k as int).push(
            items@[k as int]@,
        ));
        assert(builder@.skip_platforms =~= start.skip_platforms + string_views(items@).take(k + 1));
        k = k + 1;
    }
    assert(string_views(items@).take(items.len() as int) =~= string_views(items@));
}

fn add_test_commands(builder: &mut RecipeBuilder, items: &Vec<String>)
    ensures
        final(builder)@ == (BuilderView {
            test_command_overrides: old(builder)@.test_command_overrides + string_views(items@),
            ..old(builder)@
        }),
{
    let ghost start = builder@;
    let mut k: usize = 0;
    while k < items.len()
        invariant
            k <= items.len(),
            builder@ == (BuilderView {
                test_command_overrides: start.test_command_overrides + string_views(items@).take(
                    k as int,
                ),
                ..start
            }),
        decreases items.len() - k,
    {
        builder.add_test_command(items[k].as_str());
        assert(string_views(items@).take(k + 1) =~= string_views(items@).take(k as int).push(
            items@[k as int]@,
        ));
        assert(builder@.test_command_overrides =~= start.test_command_overrides + string_views(
            items@,
        ).take(k + 1));
        k = k + 1;
    }
    assert(string_views(items@).take(items.len() as int) =~= string_views(items@));
}

fn add_identifiers(builder: &mut RecipeBuilder, items: &Vec<String>)
    ensures
        final(builder)@ == (BuilderView {
            identifiers: old(builder)@.identifiers + string_views(items@),
            ..old(builder)@
        }),
{
    let ghost start = builder@;
    let mut k: usize = 0;
    while k < items.len()
        invariant
            k <= items.len(),
            builder@ == (BuilderView {
                identifiers: start.identifiers + string_views(items@).take(k as int),
                ..start
            }),
        decreases items.len() - k,
    {
        builder.add_identifier(items[k].as_str());
        assert(string_views(items@).take(k + 1) =~= string_views(items@).take(k as int).push(
            items@[k as int]@,
        ));
        assert(builder@.identifiers =~= start.identifiers + string_views(items@).take(k + 1));
        k = k + 1;
    }
    assert(string_views(items@).take(items.len() as int) =~= string_views(items@));
}

fn add_host_packages(builder: &mut RecipeBuilder, pkgs: &Vec<Pkg>)
    ensures
        final(builder)@ == (BuilderView {
            host_deps: old(builder)@.host_deps + pkgs.deep_view(),
            ..old(builder)@
        }),
{
    let ghost start = builder@;
    let mut i: usize = 0;
    while i < pkgs.len()
        invariant
            i <= pkgs.len(),
            builder@ == (BuilderView {
                host_deps: start.host_deps + pkgs.deep_view().take(i as int),
                ..start
            }),
        decreases pkgs.len() - i,
    {
        let (dep, selector) = pkgs[i];
        builder.add_host_dep(dep, selector);
        assert(pkgs.deep_view().take(i + 1) =~= pkgs.deep_view().take(i as int).push(
            (dep@, selector.deep_view()),
        ));
        assert(builder@.host_deps =~= start.host_deps + pkgs.deep_view().take(i + 1));
        i = i + 1;
    }
    assert(pkgs.deep_view().take(pkgs.len() as int) =~= pkgs.deep_view());
}

/// The flags that follow from the dependency names.
pub open spec fn dep_flags(b: BuilderView, names: Seq<Seq<char>>, native: bool) -> BuilderView {
    BuilderView {
        has_c_deps: any_name(names, |n: Seq<char>| links_c(n)),
        has_cxx_deps: any_name(names, |n: Seq<char>| links_cxx(n)),
        has_native_deps: native,
        use_bindgen: any_name(names, |n: Seq<char>| n == "bindgen"@),
        needs_pkg_config: any_name(names, |n: Seq<char>| uses_pkg_config(n)),
        needs_make: any_name(names, |n: Seq<char>| uses_make(n)),
        needs_cmake: any_name(names, |n: Seq<char>| uses_cmake(n)),
        ..b
    }
}

/// The flags and single-valued settings that follow from the options.
pub open spec fn option_flags(b: BuilderView, o: RecipeOptions) -> BuilderView {
    BuilderView {
        is_bioconda: o.bioconda,
        use_cbl: match o.cargo_bundle_licenses {
            Some(v) => v,
            None => o.bioconda,
        },
        cargo_net_git_fetch: o.cargo_net_git_fetch,
        strip_binaries: o.strip,
        use_version_test: o.test_version,
        max_pin: match o.max_pin {
            Some(p) => p@,
            None => b.max_pin,
        },
        emit_license_family: match o.license_family {
            Some(e) => Some(e),
            None => b.emit_license_family,
        },
        workspace_path: match o.workspace_path {
            Some(p) => Some(p@),
            None => b.workspace_path,
        },
        ..b
    }
}

fn apply_option_flags(builder: &mut RecipeBuilder, opts: &RecipeOptions)
    ensures
        final(builder)@ == option_flags(old(builder)@, *opts),
{
    let use_cbl = match opts.cargo_bundle_licenses {
        Some(v) => v,
        None => opts.bioconda,
    };
    builder.bioconda(opts.bioconda);
    builder.cargo_bundle_licenses(use_cbl);
    builder.cargo_net_git_fetch(opts.cargo_net_git_fetch);
    builder.strip_binaries(opts.strip);
    builder.use_version_test(opts.test_version);
    match &opts.max_pin {
        Some(pin) => {
            builder.max_pin(pin.as_str());
        },
        None => {},
    }
    match opts.license_family {
        Some(emit) => {
            builder.emit_license_family(emit);
        },
        None => {},
    }
    match &opts.workspace_path {
        Some(p) => {
            builder.workspace_path(p.as_str());
        },
        None => {},
    }
}

fn apply_dep_flags(builder: &mut RecipeBuilder, dep_names: &[&str], native: bool)
    ensures
        final(builder)@ == dep_flags(old(builder)@, name_views(dep_names@), native),
{
    let has_c = needs_c_compiler(dep_names);
    let has_cxx = needs_cxx_compiler(dep_names);
    let has_bindgen = needs_bindgen(dep_names);
    let pkg_config = needs_pkg_config(dep_names);
    let make = needs_make(dep_names);
    let cmake = needs_cmake(dep_names);
    builder.has_c_deps(has_c);
    builder.has_cxx_deps(has_cxx);
    builder.has_native_deps(native);
    builder.needs_bindgen(has_bindgen);
    builder.needs_pkg_config(pkg_config);
    builder.needs_make(make);
    builder.needs_cmake(cmake);
}

/// Apply a run's options, and what the dependency names need, to a builder;
/// the host packages that were detected are returned.
pub fn configure_builder(builder: &mut RecipeBuilder, opts: &RecipeOptions, dep_names: &[&str]) -> (r:
    Vec<Pkg>)
    ensures
        sorted_first_entries(r.deep_view(), all_packages(name_views(dep_names@))),
        final(builder)@ == configured(old(builder)@, *opts, name_views(dep_names@), r.deep_view()),
        final(builder)@.has_native_deps == (any_name(
            name_views(dep_names@),
            |n: Seq<char>| uses_make(n),
        ) || opts.host_dep@.len() > 0),
{
    let host_deps = detect_host_deps(dep_names);
    apply_option_flags(builder, opts);
    apply_dep_flags(builder, dep_names, host_deps.len() > 0 || opts.host_dep.len() > 0);
    add_host_packages(builder, &host_deps);
    add_unselected_host_deps(builder, &opts.host_dep);
    add_unselected_run_deps(builder, &opts.run_dep);
    add_skip_platforms(builder, &opts.skip_platform);
    add_test_commands(builder, &opts.test_command);
    add_identifiers(builder, &opts.identifier);
    assert(builder@.host_deps =~= old(builder)@.host_deps + host_deps.deep_view() + unselected(
        string_views(opts.host_dep@),
    ));
    proof {
        law_native_deps(old(builder)@, *opts, name_views(dep_names@), host_deps.deep_view());
    }
    host_deps
}

/// Configuring keeps what the builder had and adds to it: every host
/// dependency it had stays first, then every detected host package, then
/// every given host dependency without a selector; every given run
/// dependency follows the run dependencies it had. A dependency built with
/// make also calls for a C compiler and for native flags, and without an
/// explicit choice cargo-bundle-licenses follows bioconda.
pub proof fn law_configured_keeps_and_adds(
    b: BuilderView,
    o: RecipeOptions,
    names: Seq<Seq<char>>,
    hosts: Seq<PkgSpec>,
)
    requires
        sorted_first_entries(hosts, all_packages(names)),
    ensures
        ({
            let c = configured(b, o, names, hosts);
            &&& forall|i: int| 0 <= i < b.host_deps.len() ==> c.host_deps[i] == b.host_deps[i]
            &&& forall|j: int|
                0 <= j < hosts.len() ==> c.host_deps[b.host_deps.len() + j] == hosts[j]
            &&& forall|j: int|
                0 <= j < o.host_dep@.len() ==> c.host_deps[b.host_deps.len() + hosts.len() + j]
                    == (o.host_dep@[j]@, None::<Seq<char>>)
            &&& c.host_deps.len() == b.host_deps.len() + hosts.len() + o.host_dep@.len()
            &&& forall|i: int| 0 <= i < b.run_deps.len() ==> c.run_deps[i] == b.run_deps[i]
            &&& forall|j: int|
                0 <= j < o.run_dep@.len() ==> c.run_deps[b.run_deps.len() + j] == (
                    o.run_dep@[j]@,
                    None::<Seq<char>>,
                )
            &&& c.run_deps.len() == b.run_deps.len() + o.run_dep@.len()
            &&& c.needs_make ==> c.has_c_deps && c.has_native_deps
            &&& o.cargo_bundle_licenses is None ==> c.use_cbl == o.bioconda
        }),
{
    law_native_deps(b, o, names, hosts);
    if any_name(names, |n: Seq<char>| uses_make(n)) {
        law_make_implies_c_compiler(names);
    }
    let c = configured(b, o, names, hosts);
    let hv = string_views(o.host_dep@);
    let rv = string_views(o.run_dep@);
    assert(hv.len() == o.host_dep@.len());
    assert(rv.len() == o.run_dep@.len());
    assert forall|j: int| 0 <= j < o.host_dep@.len() implies c.host_deps[b.host_deps.len()
        + hosts.len() + j] == (o.host_dep@[j]@, None::<Seq<char>>) by {
        assert(hv[j] == o.host_dep@[j]@);
    }
    assert forall|j: int| 0 <= j < o.run_dep@.len() implies c.run_deps[b.run_deps.len() + j] == (
        o.run_dep@[j]@,
        None::<Seq<char>>,
    ) by {
        assert(rv[j] == o.run_dep@[j]@);
    }
}

/// What the dependency names call for once configured: `cc` a C compiler,
/// `cxx` a C++ compiler, `openssl-sys` pkg-config, make, a C compiler and
/// native flags, `cmake` cmake; bindgen is used exactly when `bindgen` is a
/// dependency; and dependencies that are all `serde` call for none of these.
pub proof fn law_configured_dependency_flags(
    b: BuilderView,
    o: RecipeOptions,
    names: Seq<Seq<char>>,
    hosts: Seq<PkgSpec>,
)
    requires
        sorted_first_entries(hosts, all_packages(names)),
    ensures
        ({
            let c = configured(b, o, names, hosts);
            &&& names.contains("cc"@) ==> c.has_c_deps
            &&& names.contains("cxx"@) ==> c.has_cxx_deps
            &&& names.contains("openssl-sys"@) ==> c.needs_pkg_config && c.needs_make
                && c.has_c_deps && c.has_native_deps
            &&& names.contains("cmake"@) ==> c.needs_cmake
            &&& c.use_bindgen == names.contains("bindgen"@)
            &&& (forall|i: int| 0 <= i < names.len() ==> names[i] == "serde"@) ==> !c.has_c_deps
                && !c.has_cxx_deps && !c.use_bindgen && !c.needs_pkg_config && !c.needs_make
                && !c.needs_cmake && c.has_native_deps == (o.host_dep@.len() > 0)
        }),
{
    law_native_deps(b, o, names, hosts);
    law_c_compiler_table();
    law_cxx_compiler_table();
    law_pkg_config_table();
    law_cmake_table();
    law_make_table();
    let c = configured(b, o, names, hosts);
    if names.contains("cc"@) {
        let i = choose|i: int| 0 <= i < names.len() && names[i] == "cc"@;
        assert((|n: Seq<char>| links_c(n))(names[i]));
    }
    if names.contains("cxx"@) {
        let i = choose|i: int| 0 <= i < names.len() && names[i] == "cxx"@;
        assert((|n: Seq<char>| links_cxx(n))(names[i]));
    }
    if names.contains("openssl-sys"@) {
        let i = choose|i: int| 0 <= i < names.len() && names[i] == "openssl-sys"@;
        assert((|n: Seq<char>| uses_pkg_config(n))(names[i]));
        assert((|n: Seq<char>| uses_make(n))(names[i]));
        assert((|n: Seq<char>| links_c(n))(names[i]));
    }
    if names.contains("cmake"@) {
        let i = choose|i: int| 0 <= i < names.len() && names[i] == "cmake"@;
        assert((|n: Seq<char>| uses_cmake(n))(names[i]));
    }
    if names.contains("bindgen"@) {
        let i = choose|i: int| 0 <= i < names.len() && names[i] == "bindgen"@;
        assert((|n: Seq<char>| n == "bindgen"@)(names[i]));
    }
    if c.use_bindgen {
        let p = |n: Seq<char>| n == "bindgen"@;
        let i = choose|i: int| 0 <= i < names.len() && #[trigger] p(names[i]);
        assert(names[i] == "bindgen"@);
    }
    if forall|i: int| 0 <= i < names.len() ==> names[i] == "serde"@ {
        reveal_strlit("serde");
        reveal_strlit("bindgen");
        assert("serde"@.len() == 5);
        assert("bindgen"@.len() == 7);
        assert forall|i: int| 0 <= i < names.len() implies !links_c(#[trigger] names[i])
            && !links_cxx(names[i]) && names[i] != "bindgen"@ && !uses_pkg_config(names[i])
            && !uses_make(names[i]) && !uses_cmake(names[i]) by {
            assert(names[i] == "serde"@);
        }
    }
}

/// A configured builder has native dependencies exactly when some
/// dependency maps to a conda host package or some host dependency was
/// given, that is exactly when configuring added host dependencies.
pub proof fn law_native_deps(
    b: BuilderView,
    o: RecipeOptions,
    names: Seq<Seq<char>>,
    hosts: Seq<PkgSpec>,
)
    requires
        sorted_first_entries(hosts, all_packages(names)),
    ensures
        configured(b, o, names, hosts).has_native_deps == (any_name(
            names,
            |n: Seq<char>| uses_make(n),
        ) || o.host_dep@.len() > 0),
        configured(b, o, names, hosts).has_native_deps == (configured(b, o, names, hosts).host_deps.len()
            > b.host_deps.len()),
{
    law_make_iff_host_deps(names, hosts);
    assert(string_views(o.host_dep@).len() == o.host_dep@.len());
    assert(unselected(string_views(o.host_dep@)).len() == o.host_dep@.len());
}
/// What a run prints for a recipe: the meta.yaml, then, when one is needed,
/// a `---` line, a `# build.sh` line and the build.sh.
pub fn recipe_document(recipe: &Recipe, script: &BuildScript) -> (r: String)
    ensures
        r@ == meta_yaml(recipe.deep_view()) + (if spec_needs_build_sh(script@) {
            "---\n# build.sh\n"@ + build_sh_text(script@)
        } else {
            ""@
        }),
{
    let renderer = MetaYamlRenderer;
    let mut out = renderer.render(recipe);
    proof {
        reveal_strlit("");
    }
    if script.needs_build_sh() {
        out.append("---\n# build.sh\n");
        let sh = script.to_build_sh();
        out.append(sh.as_str());
    } else {
        assert(out@ + ""@ =~= out@);
    }
    out
}

/// The name of a recipe built from a GitHub repository: the override when
/// given, else the package name, else the repository name.
pub fn choose_recipe_name(name_override: Option<&str>, package_name: Option<String>, repo_name: &str) -> (r: String)
    ensures
        r@ == (match name_override {
            Some(n) => n@,
            None => match package_name {
                Some(p) => p@,
                None => repo_name@,
            },
        }),
{
    match name_override {
        Some(n) => String::from_str(n),
        None => match package_name {
            Some(p) => p,
            None => String::from_str(repo_name),
        },
    }
}

/// The next published version to try after the dependencies of one could not
/// be fetched: the first one after none was tried, else the one after the
/// last tried; none when there is no further version.
pub fn next_version_index(tried: Option<usize>, count: usize) -> (r: Option<usize>)
    ensures
        ({
            let next: int = match tried {
                Some(i) => i + 1,
                None => 0,
            };
            if next >= count {
                r is None
            } else {
                r == Some(next as usize)
            }
        }),
{
    let next: usize = match tried {
        Some(i) => {
            if i >= count {
                return None;
            }
            i + 1
        },
        None => 0,
    };
    if next >= count {
        None
    } else {
        Some(next)
    }
}

proof fn lemma_first_index_bounds(metas: Seq<CargoMetadata>, p: spec_fn(TomlValue) -> bool)
    ensures
        0 <= first_index(metas, p) <= metas.len(),
    decreases metas.len(),
{
    if metas.len() > 0 && !p(metas[0]@) {
        lemma_first_index_bounds(metas.drop_first(), p);
    }
}

/// The member chosen for a target is one of the members.
pub proof fn lemma_member_for_bounds(target: Seq<char>, metas: Seq<CargoMetadata>)
    ensures
        member_for(target, metas) matches Some(i) ==> 0 <= i < metas.len(),
{
    lemma_first_index_bounds(metas, |d: TomlValue| package_name_of(d) == Some(target));
    lemma_first_index_bounds(metas, |d: TomlValue| binary_names_of(d).contains(target));
}

} // verus!
