//! Mapping from Rust crate dependencies to conda host packages.
//!
//! Includes:
//! - Direct `-sys` crate -> conda package mappings
//! - "Bundle" mappings for wrapper crates that pull multiple system deps
//! - Platform selector annotations (e.g., openssl excluded on macOS)
//! - Build tool detection (C/C++ compilers, pkg-config, make, cmake, clangdev)
use vstd::prelude::*;

use crate::text::{lex_lt, text_eq, less_than, lemma_lex_irreflexive,
    lemma_lex_total, lemma_lex_transitive};

verus! {

/// A conda package name with an optional platform selector, as plain sequences.
pub type PkgSpec = (Seq<char>, Option<Seq<char>>);

/// A conda package name with an optional platform selector.
pub type Pkg = (&'static str, Option<&'static str>);

/// The conda host packages, with platform selectors, that a crate links to.
pub open spec fn sys_packages(name: Seq<char>) -> Seq<PkgSpec> {
    if name == "openssl-sys"@ {
        seq![("openssl"@, Some("not osx"@))]
    } else if name == "curl-sys"@ || name == "libcurl-sys"@ {
        seq![("libcurl"@, None)]
    } else if name == "libsqlite3-sys"@ {
        seq![("sqlite"@, None)]
    } else if name == "libz-sys"@ {
        seq![("zlib"@, None)]
    } else if name == "bzip2-sys"@ {
        seq![("bzip2"@, None)]
    } else if name == "lzma-sys"@ {
        seq![("xz"@, None)]
    } else if name == "gsl-sys"@ {
        seq![("gsl"@, None)]
    } else if name == "blas-sys"@ || name == "openblas-sys"@ {
        seq![("openblas"@, None)]
    } else if name == "cblas-sys"@ {
        seq![("libcblas"@, None)]
    } else if name == "lapack-sys"@ {
        seq![("liblapack"@, None)]
    } else if name == "libgit2-sys"@ {
        seq![("libgit2"@, None)]
    } else if name == "protobuf-src"@ || name == "protoc-grpcio"@ {
        seq![("protobuf"@, None)]
    } else if name == "rust-htslib"@ || name == "hts-sys"@ {
        seq![
            ("htslib"@, None),
            ("zlib"@, None),
            ("bzip2"@, None),
            ("xz"@, None),
            ("libdeflate"@, None),
            ("libcurl"@, None),
        ]
    } else {
        seq![]
    }
}

/// Returns (conda_package_name, optional_platform_selector) pairs
/// for a given Rust crate name. Returns empty vec for unknown crates.
///
/// Crates that link a system library map to the conda package of that
/// library; this includes the compression crates `libz-sys`, `bzip2-sys` and
/// `lzma-sys`, which map to `zlib`, `bzip2` and `xz` even though they can
/// vendor their sources (they are listed among the vendored crates too, so
/// they also call for a C compiler). `openssl` carries the `not osx`
/// selector because macOS uses the system SSL; `rust-htslib`/`hts-sys` pull
/// in htslib and its transitive deps.
pub fn map_sys_crate(crate_name: &str) -> (r: Vec<Pkg>)
    ensures
        r.deep_view() == sys_packages(crate_name@),
{
    let r: Vec<Pkg> = if text_eq(crate_name, "openssl-sys") {
        vec![("openssl", Some("not osx"))]
    } else if text_eq(crate_name, "curl-sys") || text_eq(crate_name, "libcurl-sys") {
        vec![("libcurl", None)]
    } else if text_eq(crate_name, "libsqlite3-sys") {
        vec![("sqlite", None)]
    } else if text_eq(crate_name, "libz-sys") {
        vec![("zlib", None)]
    } else if text_eq(crate_name, "bzip2-sys") {
        vec![("bzip2", None)]
    } else if text_eq(crate_name, "lzma-sys") {
        vec![("xz", None)]
    } else if text_eq(crate_name, "gsl-sys") {
        vec![("gsl", None)]
    } else if text_eq(crate_name, "blas-sys") || text_eq(crate_name, "openblas-sys") {
        vec![("openblas", None)]
    } else if text_eq(crate_name, "cblas-sys") {
        vec![("libcblas", None)]
    } else if text_eq(crate_name, "lapack-sys") {
        vec![("liblapack", None)]
    } else if text_eq(crate_name, "libgit2-sys") {
        vec![("libgit2", None)]
    } else if text_eq(crate_name, "protobuf-src") || text_eq(crate_name, "protoc-grpcio") {
        vec![("protobuf", None)]
    } else if text_eq(crate_name, "rust-htslib") || text_eq(crate_name, "hts-sys") {
        vec![
            ("htslib", None),
            ("zlib", None),
            ("bzip2", None),
            ("xz", None),
            ("libdeflate", None),
            ("libcurl", None),
        ]
    } else {
        vec![]
    };
    assert(r.deep_view() =~= sys_packages(crate_name@));
    r
}

/// The packages of every name in `names`, in order.
pub open spec fn all_packages(names: Seq<Seq<char>>) -> Seq<PkgSpec>
    decreases names.len(),
{
    if names.len() == 0 {
        seq![]
    } else {
        all_packages(names.drop_last()) + sys_packages(names.last())
    }
}

/// `e` is the first entry of `flat` with the name `e.0`.
pub open spec fn is_first_entry(flat: Seq<PkgSpec>, e: PkgSpec) -> bool {
    exists|j: int|
        0 <= j < flat.len() && flat[j] == e && forall|k: int| 0 <= k < j ==> flat[k].0 != e.0
}

/// The names of `r` are in strictly increasing order.
pub open spec fn strictly_sorted(r: Seq<PkgSpec>) -> bool {
    forall|i: int, j: int| 0 <= i < j < r.len() ==> lex_lt(r[i].0, r[j].0)
}

/// `r` holds, sorted by name, the first entry of `flat` for each name in it.
pub open spec fn sorted_first_entries(r: Seq<PkgSpec>, flat: Seq<PkgSpec>) -> bool {
    &&& strictly_sorted(r)
    &&& forall|i: int| 0 <= i < r.len() ==> #[trigger] is_first_entry(flat, r[i])
    &&& forall|j: int| 0 <= j < flat.len() ==> has_name(r, #[trigger] flat[j].0)
}

/// Some entry of `r` has the name `n`.
pub open spec fn has_name(r: Seq<PkgSpec>, n: Seq<char>) -> bool {
    exists|i: int| 0 <= i < r.len() && #[trigger] r[i].0 == n
}

/// The views of a slice of names.
pub open spec fn name_views(names: Seq<&str>) -> Seq<Seq<char>> {
    names.map_values(|n: &str| n@)
}

proof fn lemma_first_entry_push(flat: Seq<PkgSpec>, e: PkgSpec, x: PkgSpec)
    requires
        is_first_entry(flat, e),
    ensures
        is_first_entry(flat.push(x), e),
{
    let j = choose|j: int|
        0 <= j < flat.len() && flat[j] == e && forall|k: int| 0 <= k < j ==> flat[k].0 != e.0;
    assert(flat.push(x)[j] == e);
    assert forall|k: int| 0 <= k < j implies flat.push(x)[k].0 != e.0 by {
        assert(flat.push(x)[k] == flat[k]);
    }
}

/// Adds `x` to the sorted first-entry list `r` of `flat`, giving the list for
/// `flat.push(x)`.
fn insert_first_entry(r: &mut Vec<Pkg>, x: Pkg, Ghost(flat): Ghost<Seq<PkgSpec>>)
    requires
        sorted_first_entries(old(r).deep_view(), flat),
    ensures
        sorted_first_entries(final(r).deep_view(), flat.push(x.deep_view())),
{
    let ghost xv = x.deep_view();
    let ghost flat2 = flat.push(xv);
    let n = r.len();
    let mut i: usize = 0;
    while i < n
        invariant
            n == r.len(),
            i <= n,
            r.deep_view() == old(r).deep_view(),
            xv == x.deep_view(),
            flat2 == flat.push(xv),
            sorted_first_entries(r.deep_view(), flat),
            forall|k: int| 0 <= k < i ==> lex_lt(#[trigger] r.deep_view()[k].0, xv.0),
        ensures
            i <= n,
            r.deep_view() == old(r).deep_view(),
            sorted_first_entries(r.deep_view(), flat),
            forall|k: int| 0 <= k < i ==> lex_lt(#[trigger] r.deep_view()[k].0, xv.0),
            i < n ==> lex_lt(xv.0, r.deep_view()[i as int].0),
        decreases n - i,
    {
        let ghost rv = r.deep_view();
        let (name, _) = r[i];
        assert(rv[i as int].0 == name@);
        if text_eq(name, x.0) {
            // Already present: `x` is not a first entry.
            proof {
                assert forall|k: int| 0 <= k < rv.len() implies #[trigger] is_first_entry(flat2, rv[k]) by {
                    lemma_first_entry_push(flat, rv[k], xv);
                }
                assert forall|j: int| 0 <= j < flat2.len() implies has_name(rv, #[trigger] flat2[j].0) by {
                    if j == flat.len() {
                        assert(rv[i as int].0 == flat2[j].0);
                    } else {
                        assert(flat2[j] == flat[j]);
                    }
                }
            }
            return;
        }
        if less_than(x.0, name) {
            break;
        }
        proof {
            lemma_lex_total(name@, xv.0);
        }
        i = i + 1;
    }
    let ghost rv = r.deep_view();
    proof {
        // No entry of `r` has the name of `x`, so neither has any entry of `flat`.
        assert forall|k: int| 0 <= k < rv.len() implies rv[k].0 != xv.0 by {
            lemma_lex_irreflexive(xv.0);
            if k < i {
                assert(lex_lt(rv[k].0, xv.0));
            } else if k == i {
                assert(lex_lt(xv.0, rv[k].0));
            } else {
                assert(lex_lt(rv[i as int].0, rv[k].0));
                lemma_lex_transitive(xv.0, rv[i as int].0, rv[k].0);
            }
        }
    }
    r.insert(i, x);
    let ghost r2 = r.deep_view();
    proof {
        assert(r2 =~= rv.insert(i as int, xv));
        assert forall|a: int, b: int| 0 <= a < b < r2.len() implies lex_lt(r2[a].0, r2[b].0) by {
            if b < i {
            } else if a < i && b == i {
            } else if a < i && b > i {
                assert(r2[b] == rv[b - 1]);
                if b - 1 > i {
                    if i < n {
                        lemma_lex_transitive(xv.0, rv[i as int].0, rv[b - 1].0);
                    }
                }
                if i < n {
                    lemma_lex_transitive(rv[a].0, xv.0, rv[b - 1].0);
                }
            } else if a == i {
                assert(r2[b] == rv[b - 1]);
                if b - 1 > i {
                    lemma_lex_transitive(xv.0, rv[i as int].0, rv[b - 1].0);
                }
            } else {
                assert(r2[a] == rv[a - 1] && r2[b] == rv[b - 1]);
            }
        }
        assert forall|k: int| 0 <= k < r2.len() implies #[trigger] is_first_entry(flat2, r2[k]) by {
            if k == i {
                assert(flat2[flat.len() as int] == xv);
                assert forall|m: int| 0 <= m < flat.len() implies flat2[m].0 != xv.0 by {
                    assert(flat2[m] == flat[m]);
                    assert(has_name(rv, flat[m].0));
                    let w = choose|w: int| 0 <= w < rv.len() && #[trigger] rv[w].0 == flat[m].0;
                }
            } else if k < i {
                lemma_first_entry_push(flat, rv[k], xv);
            } else {
                assert(r2[k] == rv[k - 1]);
                lemma_first_entry_push(flat, rv[k - 1], xv);
            }
        }
        assert forall|j: int| 0 <= j < flat2.len() implies has_name(r2, #[trigger] flat2[j].0) by {
            if j == flat.len() {
                assert(r2[i as int].0 == flat2[j].0);
            } else {
                assert(flat2[j] == flat[j]);
                assert(has_name(rv, flat[j].0));
                let w = choose|w: int| 0 <= w < rv.len() && #[trigger] rv[w].0 == flat[j].0;
                if w < i {
                    assert(r2[w].0 == flat2[j].0);
                } else {
                    assert(r2[w + 1].0 == flat2[j].0);
                }
            }
        }
    }
}

/// Given a list of dependency crate names, returns all conda
/// host packages needed, with their platform selectors.
/// Deduplicates by package name: the result is sorted by name and keeps, for
/// each name, the first entry that the dependencies give.
pub fn detect_host_deps(dependency_names: &[&str]) -> (r: Vec<Pkg>)
    ensures
        sorted_first_entries(r.deep_view(), all_packages(name_views(dependency_names@))),
{
    let ghost names = name_views(dependency_names@);
    let mut r: Vec<Pkg> = Vec::new();
    let mut i: usize = 0;
    let ghost mut flat: Seq<PkgSpec> = seq![];
    while i < dependency_names.len()
        invariant
            i <= dependency_names.len(),
            names == name_views(dependency_names@),
            flat == all_packages(names.take(i as int)),
            sorted_first_entries(r.deep_view(), flat),
        decreases dependency_names.len() - i,
    {
        let pkgs = map_sys_crate(dependency_names[i]);
        let ghost pv = pkgs.deep_view();
        let ghost flat0 = flat;
        let mut j: usize = 0;
        while j < pkgs.len()
            invariant
                j <= pkgs.len(),
                pv == pkgs.deep_view(),
                flat == flat0 + pv.take(j as int),
                sorted_first_entries(r.deep_view(), flat),
            decreases pkgs.len() - j,
        {
            insert_first_entry(&mut r, pkgs[j], Ghost(flat));
            proof {
                assert(flat0 + pv.take(j + 1) =~= (flat0 + pv.take(j as int)).push(pv[j as int]));
                flat = flat.push(pv[j as int]);
            }
            j = j + 1;
        }
        proof {
            assert(names.take(i + 1).drop_last() =~= names.take(i as int));
            assert(names.take(i + 1).last() == dependency_names@[i as int]@);
            assert(pv.take(pv.len() as int) =~= pv);
        }
        i = i + 1;
    }
    proof {
        assert(names.take(dependency_names@.len() as int) =~= names);
    }
    r
}

} // verus!

verus! {

/// Some name of `names` satisfies `p`.
pub open spec fn any_name(names: Seq<Seq<char>>, p: spec_fn(Seq<char>) -> bool) -> bool {
    exists|i: int| 0 <= i < names.len() && #[trigger] p(names[i])
}

/// `-sys` crates that vendor their C sources and build them with the `cc`
/// crate by default, so they need a C compiler at build time.
pub open spec fn vendored_static(n: Seq<char>) -> bool {
    n == "libdeflate-sys"@ || n == "libz-sys"@ || n == "libz-ng-sys"@ || n == "bzip2-sys"@
        || n == "lzma-sys"@ || n == "lz4-sys"@ || n == "zstd-sys"@
}

/// The crate links C code.
pub open spec fn links_c(n: Seq<char>) -> bool {
    n == "cc"@ || sys_packages(n).len() > 0 || n == "mimalloc"@ || n == "libmimalloc-sys"@
        || vendored_static(n)
}

/// The crate needs a C++ compiler.
pub open spec fn links_cxx(n: Seq<char>) -> bool {
    n == "cxx"@ || n == "cxx-build"@ || n == "cpp"@ || n == "cmake"@ || n == "cmake-build"@
        || n == "rocksdb"@ || n == "rocksdb-sys"@ || n == "snappy-sys"@ || n == "leveldb-sys"@
        || n == "grpcio-sys"@ || n == "protobuf-src"@ || n == "rust-htslib"@ || n == "hts-sys"@
}

/// The crate locates a system library with pkg-config; `libz-sys` counts,
/// since it looks for a system zlib before building its own.
pub open spec fn uses_pkg_config(n: Seq<char>) -> bool {
    n == "openssl-sys"@ || n == "curl-sys"@ || n == "libcurl-sys"@ || n == "libsqlite3-sys"@
        || n == "libz-sys"@ || n == "gsl-sys"@ || n == "blas-sys"@ || n == "openblas-sys"@
        || n == "cblas-sys"@ || n == "lapack-sys"@ || n == "libgit2-sys"@ || n == "hts-sys"@
        || n == "rust-htslib"@
}

/// The crate is built with cmake.
pub open spec fn uses_cmake(n: Seq<char>) -> bool {
    n == "grpcio-sys"@ || n == "rocksdb-sys"@ || n == "snappy-sys"@ || n == "leveldb-sys"@
        || n == "libssh2-sys"@ || n == "cmake"@ || n == "cmake-build"@
}

/// The crate is built with make (it maps to a system host package).
pub open spec fn uses_make(n: Seq<char>) -> bool {
    sys_packages(n).len() > 0
}

/// Returns true if `crate_name` vendors its C sources and statically links by
/// default (so it needs a C compiler).
pub fn is_vendored_static_sys_crate(crate_name: &str) -> (r: bool)
    ensures
        r == vendored_static(crate_name@),
{
    text_eq(crate_name, "libdeflate-sys") || text_eq(crate_name, "libz-sys") || text_eq(
        crate_name,
        "libz-ng-sys",
    ) || text_eq(crate_name, "bzip2-sys") || text_eq(crate_name, "lzma-sys") || text_eq(
        crate_name,
        "lz4-sys",
    ) || text_eq(crate_name, "zstd-sys")
}

fn crate_links_c(name: &str) -> (r: bool)
    ensures
        r == links_c(name@),
{
    text_eq(name, "cc") || map_sys_crate(name).len() > 0 || text_eq(name, "mimalloc") || text_eq(
        name,
        "libmimalloc-sys",
    ) || is_vendored_static_sys_crate(name)
}

fn crate_links_cxx(n: &str) -> (r: bool)
    ensures
        r == links_cxx(n@),
{
    text_eq(n, "cxx") || text_eq(n, "cxx-build") || text_eq(n, "cpp") || text_eq(n, "cmake")
        || text_eq(n, "cmake-build") || text_eq(n, "rocksdb") || text_eq(n, "rocksdb-sys")
        || text_eq(n, "snappy-sys") || text_eq(n, "leveldb-sys") || text_eq(n, "grpcio-sys")
        || text_eq(n, "protobuf-src") || text_eq(n, "rust-htslib") || text_eq(n, "hts-sys")
}

fn crate_uses_pkg_config(n: &str) -> (r: bool)
    ensures
        r == uses_pkg_config(n@),
{
    text_eq(n, "openssl-sys") || text_eq(n, "curl-sys") || text_eq(n, "libcurl-sys") || text_eq(
        n,
        "libsqlite3-sys",
    ) || text_eq(n, "libz-sys") || text_eq(n, "gsl-sys") || text_eq(n, "blas-sys") || text_eq(
        n,
        "openblas-sys",
    ) || text_eq(n, "cblas-sys") || text_eq(n, "lapack-sys") || text_eq(n, "libgit2-sys")
        || text_eq(n, "hts-sys") || text_eq(n, "rust-htslib")
}

fn crate_uses_cmake(n: &str) -> (r: bool)
    ensures
        r == uses_cmake(n@),
{
    text_eq(n, "grpcio-sys") || text_eq(n, "rocksdb-sys") || text_eq(n, "snappy-sys") || text_eq(
        n,
        "leveldb-sys",
    ) || text_eq(n, "libssh2-sys") || text_eq(n, "cmake") || text_eq(n, "cmake-build")
}

/// Returns true if any dependency links C code.
/// Detects `-sys` crates, the `cc` build crate, and crates that bundle their own C sources.
pub fn needs_c_compiler(dependency_names: &[&str]) -> (r: bool)
    ensures
        r == any_name(name_views(dependency_names@), |n: Seq<char>| links_c(n)),
{
    let ghost names = name_views(dependency_names@);
    let mut i: usize = 0;
    while i < dependency_names.len()
        invariant
            i <= dependency_names.len(),
            names == name_views(dependency_names@),
            forall|k: int| 0 <= k < i ==> !links_c(#[trigger] names[k]),
        decreases dependency_names.len() - i,
    {
        if crate_links_c(dependency_names[i]) {
            assert((|n: Seq<char>| links_c(n))(names[i as int]));
            return true;
        }
        i = i + 1;
    }
    false
}

/// Returns true if any dependency requires a C++ compiler.
/// Detects the `cxx` bridge crate, `cxx-build`, `cpp`, and known C++-requiring `-sys` crates.
pub fn needs_cxx_compiler(dependency_names: &[&str]) -> (r: bool)
    ensures
        r == any_name(name_views(dependency_names@), |n: Seq<char>| links_cxx(n)),
{
    let ghost names = name_views(dependency_names@);
    let mut i: usize = 0;
    while i < dependency_names.len()
        invariant
            i <= dependency_names.len(),
            names == name_views(dependency_names@),
            forall|k: int| 0 <= k < i ==> !links_cxx(#[trigger] names[k]),
        decreases dependency_names.len() - i,
    {
        if crate_links_cxx(dependency_names[i]) {
            assert((|n: Seq<char>| links_cxx(n))(names[i as int]));
            return true;
        }
        i = i + 1;
    }
    false
}

/// Returns true if any dependency uses bindgen for FFI.
pub fn needs_bindgen(dependency_names: &[&str]) -> (r: bool)
    ensures
        r == any_name(name_views(dependency_names@), |n: Seq<char>| n == "bindgen"@),
{
    let ghost names = name_views(dependency_names@);
    let mut i: usize = 0;
    while i < dependency_names.len()
        invariant
            i <= dependency_names.len(),
            names == name_views(dependency_names@),
            forall|k: int| 0 <= k < i ==> #[trigger] names[k] != "bindgen"@,
        decreases dependency_names.len() - i,
    {
        if text_eq(dependency_names[i], "bindgen") {
            assert((|n: Seq<char>| n == "bindgen"@)(names[i as int]));
            return true;
        }
        i = i + 1;
    }
    false
}

/// Returns true if any dependency typically needs pkg-config to locate system libraries.
pub fn needs_pkg_config(dependency_names: &[&str]) -> (r: bool)
    ensures
        r == any_name(name_views(dependency_names@), |n: Seq<char>| uses_pkg_config(n)),
{
    let ghost names = name_views(dependency_names@);
    let mut i: usize = 0;
    while i < dependency_names.len()
        invariant
            i <= dependency_names.len(),
            names == name_views(dependency_names@),
            forall|k: int| 0 <= k < i ==> !uses_pkg_config(#[trigger] names[k]),
        decreases dependency_names.len() - i,
    {
        if crate_uses_pkg_config(dependency_names[i]) {
            assert((|n: Seq<char>| uses_pkg_config(n))(names[i as int]));
            return true;
        }
        i = i + 1;
    }
    false
}

/// Returns true if any dependency typically needs cmake to build.
pub fn needs_cmake(dependency_names: &[&str]) -> (r: bool)
    ensures
        r == any_name(name_views(dependency_names@), |n: Seq<char>| uses_cmake(n)),
{
    let ghost names = name_views(dependency_names@);
    let mut i: usize = 0;
    while i < dependency_names.len()
        invariant
            i <= dependency_names.len(),
            names == name_views(dependency_names@),
            forall|k: int| 0 <= k < i ==> !uses_cmake(#[trigger] names[k]),
        decreases dependency_names.len() - i,
    {
        if crate_uses_cmake(dependency_names[i]) {
            assert((|n: Seq<char>| uses_cmake(n))(names[i as int]));
            return true;
        }
        i = i + 1;
    }
    false
}

/// Returns true if any dependency typically needs make to build.
/// Most -sys crates use make; this is the broadest heuristic.
pub fn needs_make(dependency_names: &[&str]) -> (r: bool)
    ensures
        r == any_name(name_views(dependency_names@), |n: Seq<char>| uses_make(n)),
{
    let ghost names = name_views(dependency_names@);
    let mut i: usize = 0;
    while i < dependency_names.len()
        invariant
            i <= dependency_names.len(),
            names == name_views(dependency_names@),
            forall|k: int| 0 <= k < i ==> !uses_make(#[trigger] names[k]),
        decreases dependency_names.len() - i,
    {
        if map_sys_crate(dependency_names[i]).len() > 0 {
            assert((|n: Seq<char>| uses_make(n))(names[i as int]));
            return true;
        }
        i = i + 1;
    }
    false
}

proof fn lemma_all_packages_empty(names: Seq<Seq<char>>)
    ensures
        (all_packages(names).len() == 0) == !any_name(names, |n: Seq<char>| uses_make(n)),
    decreases names.len(),
{
    if names.len() > 0 {
        lemma_all_packages_empty(names.drop_last());
        let p = |n: Seq<char>| uses_make(n);
        if any_name(names.drop_last(), p) {
            let i = choose|i: int| 0 <= i < names.drop_last().len() && #[trigger] p(names.drop_last()[i]);
            assert(p(names[i]));
        }
        if any_name(names, p) {
            let i = choose|i: int| 0 <= i < names.len() && #[trigger] p(names[i]);
            if i < names.len() - 1 {
                assert(p(names.drop_last()[i]));
            }
        }
        assert(p(names[names.len() - 1]) == (sys_packages(names.last()).len() > 0));
    }
}

/// Law: make is needed exactly when some conda host package is detected.
pub proof fn law_make_iff_host_deps(names: Seq<Seq<char>>, hosts: Seq<PkgSpec>)
    requires
        sorted_first_entries(hosts, all_packages(names)),
    ensures
        (hosts.len() > 0) == any_name(names, |n: Seq<char>| uses_make(n)),
{
    lemma_all_packages_empty(names);
    let flat = all_packages(names);
    if flat.len() > 0 {
        assert(has_name(hosts, flat[0].0));
    }
    if hosts.len() > 0 {
        assert(is_first_entry(flat, hosts[0]));
    }
}

/// Law: a dependency that needs make also needs a C compiler.
pub proof fn law_make_implies_c_compiler(names: Seq<Seq<char>>)
    requires
        any_name(names, |n: Seq<char>| uses_make(n)),
    ensures
        any_name(names, |n: Seq<char>| links_c(n)),
{
    let p = |n: Seq<char>| uses_make(n);
    let i = choose|i: int| 0 <= i < names.len() && #[trigger] p(names[i]);
    assert((|n: Seq<char>| links_c(n))(names[i]));
}



/// The crates that link a system library, and the conda packages (with
/// platform selectors) each maps to; every other crate of the known lists,
/// such as the wrapper `git2` or the vendoring `zstd-sys`, maps to none.
pub proof fn law_sys_package_table()
    ensures
        sys_packages("openssl-sys"@) == seq![("openssl"@, Some("not osx"@))],
        sys_packages("curl-sys"@) == seq![("libcurl"@, None::<Seq<char>>)],
        sys_packages("libcurl-sys"@) == seq![("libcurl"@, None::<Seq<char>>)],
        sys_packages("libsqlite3-sys"@) == seq![("sqlite"@, None::<Seq<char>>)],
        sys_packages("libz-sys"@) == seq![("zlib"@, None::<Seq<char>>)],
        sys_packages("bzip2-sys"@) == seq![("bzip2"@, None::<Seq<char>>)],
        sys_packages("lzma-sys"@) == seq![("xz"@, None::<Seq<char>>)],
        sys_packages("gsl-sys"@) == seq![("gsl"@, None::<Seq<char>>)],
        sys_packages("blas-sys"@) == seq![("openblas"@, None::<Seq<char>>)],
        sys_packages("openblas-sys"@) == seq![("openblas"@, None::<Seq<char>>)],
        sys_packages("cblas-sys"@) == seq![("libcblas"@, None::<Seq<char>>)],
        sys_packages("lapack-sys"@) == seq![("liblapack"@, None::<Seq<char>>)],
        sys_packages("libgit2-sys"@) == seq![("libgit2"@, None::<Seq<char>>)],
        sys_packages("protobuf-src"@) == seq![("protobuf"@, None::<Seq<char>>)],
        sys_packages("protoc-grpcio"@) == seq![("protobuf"@, None::<Seq<char>>)],
        sys_packages("rust-htslib"@) == seq![
            ("htslib"@, None::<Seq<char>>),
            ("zlib"@, None::<Seq<char>>),
            ("bzip2"@, None::<Seq<char>>),
            ("xz"@, None::<Seq<char>>),
            ("libdeflate"@, None::<Seq<char>>),
            ("libcurl"@, None::<Seq<char>>),
        ],
        sys_packages("hts-sys"@) == seq![
            ("htslib"@, None::<Seq<char>>),
            ("zlib"@, None::<Seq<char>>),
            ("bzip2"@, None::<Seq<char>>),
            ("xz"@, None::<Seq<char>>),
            ("libdeflate"@, None::<Seq<char>>),
            ("libcurl"@, None::<Seq<char>>),
        ],
        sys_packages("libdeflate-sys"@) == Seq::<PkgSpec>::empty(),
        sys_packages("libz-ng-sys"@) == Seq::<PkgSpec>::empty(),
        sys_packages("lz4-sys"@) == Seq::<PkgSpec>::empty(),
        sys_packages("zstd-sys"@) == Seq::<PkgSpec>::empty(),
        sys_packages("cc"@) == Seq::<PkgSpec>::empty(),
        sys_packages("mimalloc"@) == Seq::<PkgSpec>::empty(),
        sys_packages("libmimalloc-sys"@) == Seq::<PkgSpec>::empty(),
        sys_packages("cxx"@) == Seq::<PkgSpec>::empty(),
        sys_packages("cxx-build"@) == Seq::<PkgSpec>::empty(),
        sys_packages("cpp"@) == Seq::<PkgSpec>::empty(),
        sys_packages("cmake"@) == Seq::<PkgSpec>::empty(),
        sys_packages("cmake-build"@) == Seq::<PkgSpec>::empty(),
        sys_packages("rocksdb"@) == Seq::<PkgSpec>::empty(),
        sys_packages("rocksdb-sys"@) == Seq::<PkgSpec>::empty(),
        sys_packages("snappy-sys"@) == Seq::<PkgSpec>::empty(),
        sys_packages("leveldb-sys"@) == Seq::<PkgSpec>::empty(),
        sys_packages("grpcio-sys"@) == Seq::<PkgSpec>::empty(),
        sys_packages("libssh2-sys"@) == Seq::<PkgSpec>::empty(),
        sys_packages("serde"@) == Seq::<PkgSpec>::empty(),
        sys_packages("git2"@) == Seq::<PkgSpec>::empty(),
        sys_packages("openssl"@) == Seq::<PkgSpec>::empty(),
        sys_packages("bindgen"@) == Seq::<PkgSpec>::empty(),
        sys_packages("clap"@) == Seq::<PkgSpec>::empty(),
        sys_packages("zstd"@) == Seq::<PkgSpec>::empty(),
        sys_packages("curl"@) == Seq::<PkgSpec>::empty(),
{
    reveal_strlit("bindgen");
    reveal_strlit("blas-sys");
    reveal_strlit("bzip2-sys");
    reveal_strlit("cblas-sys");
    reveal_strlit("cc");
    reveal_strlit("clap");
    reveal_strlit("cmake");
    reveal_strlit("cmake-build");
    reveal_strlit("cpp");
    reveal_strlit("curl");
    reveal_strlit("curl-sys");
    reveal_strlit("cxx");
    reveal_strlit("cxx-build");
    reveal_strlit("git2");
    reveal_strlit("grpcio-sys");
    reveal_strlit("gsl-sys");
    reveal_strlit("hts-sys");
    reveal_strlit("lapack-sys");
    reveal_strlit("leveldb-sys");
    reveal_strlit("libcurl-sys");
    reveal_strlit("libdeflate-sys");
    reveal_strlit("libgit2-sys");
    reveal_strlit("libmimalloc-sys");
    reveal_strlit("libsqlite3-sys");
    reveal_strlit("libssh2-sys");
    reveal_strlit("libz-ng-sys");
    reveal_strlit("libz-sys");
    reveal_strlit("lz4-sys");
    reveal_strlit("lzma-sys");
    reveal_strlit("mimalloc");
    reveal_strlit("openblas-sys");
    reveal_strlit("openssl");
    reveal_strlit("openssl-sys");
    reveal_strlit("protobuf-src");
    reveal_strlit("protoc-grpcio");
    reveal_strlit("rocksdb");
    reveal_strlit("rocksdb-sys");
    reveal_strlit("rust-htslib");
    reveal_strlit("serde");
    reveal_strlit("snappy-sys");
    reveal_strlit("zstd");
    reveal_strlit("zstd-sys");
    assert("bindgen"@.len() == 7);
    assert("blas-sys"@.len() == 8);
    assert("bzip2-sys"@.len() == 9);
    assert("cblas-sys"@.len() == 9);
    assert("cc"@.len() == 2);
    assert("clap"@.len() == 4);
    assert("cmake"@.len() == 5);
    assert("cmake-build"@.len() == 11);
    assert("cpp"@.len() == 3);
    assert("curl"@.len() == 4);
    assert("curl-sys"@.len() == 8);
    assert("cxx"@.len() == 3);
    assert("cxx-build"@.len() == 9);
    assert("git2"@.len() == 4);
    assert("grpcio-sys"@.len() == 10);
    assert("gsl-sys"@.len() == 7);
    assert("hts-sys"@.len() == 7);
    assert("lapack-sys"@.len() == 10);
    assert("leveldb-sys"@.len() == 11);
    assert("libcurl-sys"@.len() == 11);
    assert("libdeflate-sys"@.len() == 14);
    assert("libgit2-sys"@.len() == 11);
    assert("libmimalloc-sys"@.len() == 15);
    assert("libsqlite3-sys"@.len() == 14);
    assert("libssh2-sys"@.len() == 11);
    assert("libz-ng-sys"@.len() == 11);
    assert("libz-sys"@.len() == 8);
    assert("lz4-sys"@.len() == 7);
    assert("lzma-sys"@.len() == 8);
    assert("mimalloc"@.len() == 8);
    assert("openblas-sys"@.len() == 12);
    assert("openssl"@.len() == 7);
    assert("openssl-sys"@.len() == 11);
    assert("protobuf-src"@.len() == 12);
    assert("protoc-grpcio"@.len() == 13);
    assert("rocksdb"@.len() == 7);
    assert("rocksdb-sys"@.len() == 11);
    assert("rust-htslib"@.len() == 11);
    assert("serde"@.len() == 5);
    assert("snappy-sys"@.len() == 10);
    assert("zstd"@.len() == 4);
    assert("zstd-sys"@.len() == 8);
    assert("libcurl-sys"@[0] != "openssl-sys"@[0]);
    assert("libgit2-sys"@[0] != "openssl-sys"@[0]);
    assert("openssl-sys"@[0] != "rust-htslib"@[0]);
    assert("curl-sys"@[0] != "libz-sys"@[0]);
    assert("curl-sys"@[0] != "lzma-sys"@[0]);
    assert("blas-sys"@[0] != "curl-sys"@[0]);
    assert("libcurl-sys"@[3] != "libgit2-sys"@[3]);
    assert("libcurl-sys"@[0] != "rust-htslib"@[0]);
    assert("libz-sys"@[1] != "lzma-sys"@[1]);
    assert("blas-sys"@[0] != "libz-sys"@[0]);
    assert("bzip2-sys"@[0] != "cblas-sys"@[0]);
    assert("blas-sys"@[0] != "lzma-sys"@[0]);
    assert("gsl-sys"@[0] != "hts-sys"@[0]);
    assert("openblas-sys"@[0] != "protobuf-src"@[0]);
    assert("libgit2-sys"@[0] != "rust-htslib"@[0]);
    assert("libdeflate-sys"@[3] != "libsqlite3-sys"@[3]);
    assert("libz-ng-sys"@[0] != "openssl-sys"@[0]);
    assert("libcurl-sys"@[3] != "libz-ng-sys"@[3]);
    assert("libgit2-sys"@[3] != "libz-ng-sys"@[3]);
    assert("libz-ng-sys"@[0] != "rust-htslib"@[0]);
    assert("gsl-sys"@[0] != "lz4-sys"@[0]);
    assert("hts-sys"@[0] != "lz4-sys"@[0]);
    assert("curl-sys"@[0] != "zstd-sys"@[0]);
    assert("libz-sys"@[0] != "zstd-sys"@[0]);
    assert("lzma-sys"@[0] != "zstd-sys"@[0]);
    assert("blas-sys"@[0] != "zstd-sys"@[0]);
    assert("curl-sys"@[0] != "mimalloc"@[0]);
    assert("libz-sys"@[0] != "mimalloc"@[0]);
    assert("lzma-sys"@[0] != "mimalloc"@[0]);
    assert("blas-sys"@[0] != "mimalloc"@[0]);
    assert("bzip2-sys"@[0] != "cxx-build"@[0]);
    assert("cblas-sys"@[1] != "cxx-build"@[1]);
    assert("cmake-build"@[0] != "openssl-sys"@[0]);
    assert("cmake-build"@[0] != "libcurl-sys"@[0]);
    assert("cmake-build"@[0] != "libgit2-sys"@[0]);
    assert("cmake-build"@[0] != "rust-htslib"@[0]);
    assert("gsl-sys"@[0] != "rocksdb"@[0]);
    assert("hts-sys"@[0] != "rocksdb"@[0]);
    assert("openssl-sys"@[0] != "rocksdb-sys"@[0]);
    assert("libcurl-sys"@[0] != "rocksdb-sys"@[0]);
    assert("libgit2-sys"@[0] != "rocksdb-sys"@[0]);
    assert("rocksdb-sys"@[1] != "rust-htslib"@[1]);
    assert("lapack-sys"@[0] != "snappy-sys"@[0]);
    assert("leveldb-sys"@[0] != "openssl-sys"@[0]);
    assert("leveldb-sys"@[1] != "libcurl-sys"@[1]);
    assert("leveldb-sys"@[1] != "libgit2-sys"@[1]);
    assert("leveldb-sys"@[0] != "rust-htslib"@[0]);
    assert("grpcio-sys"@[0] != "lapack-sys"@[0]);
    assert("libssh2-sys"@[0] != "openssl-sys"@[0]);
    assert("libcurl-sys"@[3] != "libssh2-sys"@[3]);
    assert("libgit2-sys"@[3] != "libssh2-sys"@[3]);
    assert("libssh2-sys"@[0] != "rust-htslib"@[0]);
    assert("gsl-sys"@[0] != "openssl"@[0]);
    assert("hts-sys"@[0] != "openssl"@[0]);
    assert("bindgen"@[0] != "gsl-sys"@[0]);
    assert("bindgen"@[0] != "hts-sys"@[0]);
}

/// A crate maps to conda host packages exactly when it locates its library
/// with pkg-config, or is one of the crates whose library is found without it
/// (`bzip2-sys`, `lzma-sys`, `protobuf-src`, `protoc-grpcio`).
pub proof fn law_host_packages_and_pkg_config(n: Seq<char>)
    ensures
        (sys_packages(n).len() > 0) == (uses_pkg_config(n) || n == "bzip2-sys"@ || n
            == "lzma-sys"@ || n == "protobuf-src"@ || n == "protoc-grpcio"@),
{
}

/// Which crates of the known lists need a C compiler: `cc`, the crates that
/// link a system library, those that vendor their C sources, and mimalloc.
pub proof fn law_c_compiler_table()
    ensures
        links_c("openssl-sys"@),
        links_c("curl-sys"@),
        links_c("libcurl-sys"@),
        links_c("libsqlite3-sys"@),
        links_c("libz-sys"@),
        links_c("bzip2-sys"@),
        links_c("lzma-sys"@),
        links_c("gsl-sys"@),
        links_c("blas-sys"@),
        links_c("openblas-sys"@),
        links_c("cblas-sys"@),
        links_c("lapack-sys"@),
        links_c("libgit2-sys"@),
        links_c("protobuf-src"@),
        links_c("protoc-grpcio"@),
        links_c("rust-htslib"@),
        links_c("hts-sys"@),
        links_c("libdeflate-sys"@),
        links_c("libz-ng-sys"@),
        links_c("lz4-sys"@),
        links_c("zstd-sys"@),
        links_c("cc"@),
        links_c("mimalloc"@),
        links_c("libmimalloc-sys"@),
        !links_c("cxx"@),
        !links_c("cxx-build"@),
        !links_c("cpp"@),
        !links_c("cmake"@),
        !links_c("cmake-build"@),
        !links_c("rocksdb"@),
        !links_c("rocksdb-sys"@),
        !links_c("snappy-sys"@),
        !links_c("leveldb-sys"@),
        !links_c("grpcio-sys"@),
        !links_c("libssh2-sys"@),
        !links_c("serde"@),
        !links_c("git2"@),
        !links_c("openssl"@),
        !links_c("bindgen"@),
        !links_c("clap"@),
        !links_c("zstd"@),
        !links_c("curl"@),
{
    reveal_strlit("bindgen");
    reveal_strlit("blas-sys");
    reveal_strlit("bzip2-sys");
    reveal_strlit("cblas-sys");
    reveal_strlit("cc");
    reveal_strlit("clap");
    reveal_strlit("cmake");
    reveal_strlit("cmake-build");
    reveal_strlit("cpp");
    reveal_strlit("curl");
    reveal_strlit("curl-sys");
    reveal_strlit("cxx");
    reveal_strlit("cxx-build");
    reveal_strlit("git2");
    reveal_strlit("grpcio-sys");
    reveal_strlit("gsl-sys");
    reveal_strlit("hts-sys");
    reveal_strlit("lapack-sys");
    reveal_strlit("leveldb-sys");
    reveal_strlit("libcurl-sys");
    reveal_strlit("libdeflate-sys");
    reveal_strlit("libgit2-sys");
    reveal_strlit("libmimalloc-sys");
    reveal_strlit("libsqlite3-sys");
    reveal_strlit("libssh2-sys");
    reveal_strlit("libz-ng-sys");
    reveal_strlit("libz-sys");
    reveal_strlit("lz4-sys");
    reveal_strlit("lzma-sys");
    reveal_strlit("mimalloc");
    reveal_strlit("openblas-sys");
    reveal_strlit("openssl");
    reveal_strlit("openssl-sys");
    reveal_strlit("protobuf-src");
    reveal_strlit("protoc-grpcio");
    reveal_strlit("rocksdb");
    reveal_strlit("rocksdb-sys");
    reveal_strlit("rust-htslib");
    reveal_strlit("serde");
    reveal_strlit("snappy-sys");
    reveal_strlit("zstd");
    reveal_strlit("zstd-sys");
    assert("bindgen"@.len() == 7);
    assert("blas-sys"@.len() == 8);
    assert("bzip2-sys"@.len() == 9);
    assert("cblas-sys"@.len() == 9);
    assert("cc"@.len() == 2);
    assert("clap"@.len() == 4);
    assert("cmake"@.len() == 5);
    assert("cmake-build"@.len() == 11);
    assert("cpp"@.len() == 3);
    assert("curl"@.len() == 4);
    assert("curl-sys"@.len() == 8);
    assert("cxx"@.len() == 3);
    assert("cxx-build"@.len() == 9);
    assert("git2"@.len() == 4);
    assert("grpcio-sys"@.len() == 10);
    assert("gsl-sys"@.len() == 7);
    assert("hts-sys"@.len() == 7);
    assert("lapack-sys"@.len() == 10);
    assert("leveldb-sys"@.len() == 11);
    assert("libcurl-sys"@.len() == 11);
    assert("libdeflate-sys"@.len() == 14);
    assert("libgit2-sys"@.len() == 11);
    assert("libmimalloc-sys"@.len() == 15);
    assert("libsqlite3-sys"@.len() == 14);
    assert("libssh2-sys"@.len() == 11);
    assert("libz-ng-sys"@.len() == 11);
    assert("libz-sys"@.len() == 8);
    assert("lz4-sys"@.len() == 7);
    assert("lzma-sys"@.len() == 8);
    assert("mimalloc"@.len() == 8);
    assert("openblas-sys"@.len() == 12);
    assert("openssl"@.len() == 7);
    assert("openssl-sys"@.len() == 11);
    assert("protobuf-src"@.len() == 12);
    assert("protoc-grpcio"@.len() == 13);
    assert("rocksdb"@.len() == 7);
    assert("rocksdb-sys"@.len() == 11);
    assert("rust-htslib"@.len() == 11);
    assert("serde"@.len() == 5);
    assert("snappy-sys"@.len() == 10);
    assert("zstd"@.len() == 4);
    assert("zstd-sys"@.len() == 8);
    assert("libcurl-sys"@[0] != "openssl-sys"@[0]);
    assert("libgit2-sys"@[0] != "openssl-sys"@[0]);
    assert("openssl-sys"@[0] != "rust-htslib"@[0]);
    assert("libz-ng-sys"@[0] != "openssl-sys"@[0]);
    assert("curl-sys"@[0] != "libz-sys"@[0]);
    assert("curl-sys"@[0] != "lzma-sys"@[0]);
    assert("blas-sys"@[0] != "curl-sys"@[0]);
    assert("curl-sys"@[0] != "zstd-sys"@[0]);
    assert("curl-sys"@[0] != "mimalloc"@[0]);
    assert("libcurl-sys"@[3] != "libgit2-sys"@[3]);
    assert("libcurl-sys"@[0] != "rust-htslib"@[0]);
    assert("libcurl-sys"@[3] != "libz-ng-sys"@[3]);
    assert("libdeflate-sys"@[3] != "libsqlite3-sys"@[3]);
    assert("libz-sys"@[1] != "lzma-sys"@[1]);
    assert("blas-sys"@[0] != "libz-sys"@[0]);
    assert("libz-sys"@[0] != "zstd-sys"@[0]);
    assert("libz-sys"@[0] != "mimalloc"@[0]);
    assert("bzip2-sys"@[0] != "cblas-sys"@[0]);
    assert("blas-sys"@[0] != "lzma-sys"@[0]);
    assert("lzma-sys"@[0] != "zstd-sys"@[0]);
    assert("lzma-sys"@[0] != "mimalloc"@[0]);
    assert("gsl-sys"@[0] != "hts-sys"@[0]);
    assert("gsl-sys"@[0] != "lz4-sys"@[0]);
    assert("blas-sys"@[0] != "zstd-sys"@[0]);
    assert("blas-sys"@[0] != "mimalloc"@[0]);
    assert("openblas-sys"@[0] != "protobuf-src"@[0]);
    assert("libgit2-sys"@[0] != "rust-htslib"@[0]);
    assert("libgit2-sys"@[3] != "libz-ng-sys"@[3]);
    assert("libz-ng-sys"@[0] != "rust-htslib"@[0]);
    assert("hts-sys"@[0] != "lz4-sys"@[0]);
    assert("mimalloc"@[0] != "zstd-sys"@[0]);
    assert("bzip2-sys"@[0] != "cxx-build"@[0]);
    assert("cblas-sys"@[1] != "cxx-build"@[1]);
    assert("cmake-build"@[0] != "openssl-sys"@[0]);
    assert("cmake-build"@[0] != "libcurl-sys"@[0]);
    assert("cmake-build"@[0] != "libgit2-sys"@[0]);
    assert("cmake-build"@[0] != "rust-htslib"@[0]);
    assert("cmake-build"@[0] != "libz-ng-sys"@[0]);
    assert("gsl-sys"@[0] != "rocksdb"@[0]);
    assert("hts-sys"@[0] != "rocksdb"@[0]);
    assert("lz4-sys"@[0] != "rocksdb"@[0]);
    assert("openssl-sys"@[0] != "rocksdb-sys"@[0]);
    assert("libcurl-sys"@[0] != "rocksdb-sys"@[0]);
    assert("libgit2-sys"@[0] != "rocksdb-sys"@[0]);
    assert("rocksdb-sys"@[1] != "rust-htslib"@[1]);
    assert("libz-ng-sys"@[0] != "rocksdb-sys"@[0]);
    assert("lapack-sys"@[0] != "snappy-sys"@[0]);
    assert("leveldb-sys"@[0] != "openssl-sys"@[0]);
    assert("leveldb-sys"@[1] != "libcurl-sys"@[1]);
    assert("leveldb-sys"@[1] != "libgit2-sys"@[1]);
    assert("leveldb-sys"@[0] != "rust-htslib"@[0]);
    assert("leveldb-sys"@[1] != "libz-ng-sys"@[1]);
    assert("grpcio-sys"@[0] != "lapack-sys"@[0]);
    assert("libssh2-sys"@[0] != "openssl-sys"@[0]);
    assert("libcurl-sys"@[3] != "libssh2-sys"@[3]);
    assert("libgit2-sys"@[3] != "libssh2-sys"@[3]);
    assert("libssh2-sys"@[0] != "rust-htslib"@[0]);
    assert("libssh2-sys"@[3] != "libz-ng-sys"@[3]);
    assert("gsl-sys"@[0] != "openssl"@[0]);
    assert("hts-sys"@[0] != "openssl"@[0]);
    assert("lz4-sys"@[0] != "openssl"@[0]);
    assert("bindgen"@[0] != "gsl-sys"@[0]);
    assert("bindgen"@[0] != "hts-sys"@[0]);
    assert("bindgen"@[0] != "lz4-sys"@[0]);
}

/// Which crates of the known lists need a C++ compiler.
pub proof fn law_cxx_compiler_table()
    ensures
        !links_cxx("openssl-sys"@),
        !links_cxx("curl-sys"@),
        !links_cxx("libcurl-sys"@),
        !links_cxx("libsqlite3-sys"@),
        !links_cxx("libz-sys"@),
        !links_cxx("bzip2-sys"@),
        !links_cxx("lzma-sys"@),
        !links_cxx("gsl-sys"@),
        !links_cxx("blas-sys"@),
        !links_cxx("openblas-sys"@),
        !links_cxx("cblas-sys"@),
        !links_cxx("lapack-sys"@),
        !links_cxx("libgit2-sys"@),
        links_cxx("protobuf-src"@),
        !links_cxx("protoc-grpcio"@),
        links_cxx("rust-htslib"@),
        links_cxx("hts-sys"@),
        !links_cxx("libdeflate-sys"@),
        !links_cxx("libz-ng-sys"@),
        !links_cxx("lz4-sys"@),
        !links_cxx("zstd-sys"@),
        !links_cxx("cc"@),
        !links_cxx("mimalloc"@),
        !links_cxx("libmimalloc-sys"@),
        links_cxx("cxx"@),
        links_cxx("cxx-build"@),
        links_cxx("cpp"@),
        links_cxx("cmake"@),
        links_cxx("cmake-build"@),
        links_cxx("rocksdb"@),
        links_cxx("rocksdb-sys"@),
        links_cxx("snappy-sys"@),
        links_cxx("leveldb-sys"@),
        links_cxx("grpcio-sys"@),
        !links_cxx("libssh2-sys"@),
        !links_cxx("serde"@),
        !links_cxx("git2"@),
        !links_cxx("openssl"@),
        !links_cxx("bindgen"@),
        !links_cxx("clap"@),
        !links_cxx("zstd"@),
        !links_cxx("curl"@),
{
    reveal_strlit("bindgen");
    reveal_strlit("blas-sys");
    reveal_strlit("bzip2-sys");
    reveal_strlit("cblas-sys");
    reveal_strlit("cc");
    reveal_strlit("clap");
    reveal_strlit("cmake");
    reveal_strlit("cmake-build");
    reveal_strlit("cpp");
    reveal_strlit("curl");
    reveal_strlit("curl-sys");
    reveal_strlit("cxx");
    reveal_strlit("cxx-build");
    reveal_strlit("git2");
    reveal_strlit("grpcio-sys");
    reveal_strlit("gsl-sys");
    reveal_strlit("hts-sys");
    reveal_strlit("lapack-sys");
    reveal_strlit("leveldb-sys");
    reveal_strlit("libcurl-sys");
    reveal_strlit("libdeflate-sys");
    reveal_strlit("libgit2-sys");
    reveal_strlit("libmimalloc-sys");
    reveal_strlit("libsqlite3-sys");
    reveal_strlit("libssh2-sys");
    reveal_strlit("libz-ng-sys");
    reveal_strlit("libz-sys");
    reveal_strlit("lz4-sys");
    reveal_strlit("lzma-sys");
    reveal_strlit("mimalloc");
    reveal_strlit("openblas-sys");
    reveal_strlit("openssl");
    reveal_strlit("openssl-sys");
    reveal_strlit("protobuf-src");
    reveal_strlit("protoc-grpcio");
    reveal_strlit("rocksdb");
    reveal_strlit("rocksdb-sys");
    reveal_strlit("rust-htslib");
    reveal_strlit("serde");
    reveal_strlit("snappy-sys");
    reveal_strlit("zstd");
    reveal_strlit("zstd-sys");
    assert("bindgen"@.len() == 7);
    assert("blas-sys"@.len() == 8);
    assert("bzip2-sys"@.len() == 9);
    assert("cblas-sys"@.len() == 9);
    assert("cc"@.len() == 2);
    assert("clap"@.len() == 4);
    assert("cmake"@.len() == 5);
    assert("cmake-build"@.len() == 11);
    assert("cpp"@.len() == 3);
    assert("curl"@.len() == 4);
    assert("curl-sys"@.len() == 8);
    assert("cxx"@.len() == 3);
    assert("cxx-build"@.len() == 9);
    assert("git2"@.len() == 4);
    assert("grpcio-sys"@.len() == 10);
    assert("gsl-sys"@.len() == 7);
    assert("hts-sys"@.len() == 7);
    assert("lapack-sys"@.len() == 10);
    assert("leveldb-sys"@.len() == 11);
    assert("libcurl-sys"@.len() == 11);
    assert("libdeflate-sys"@.len() == 14);
    assert("libgit2-sys"@.len() == 11);
    assert("libmimalloc-sys"@.len() == 15);
    assert("libsqlite3-sys"@.len() == 14);
    assert("libssh2-sys"@.len() == 11);
    assert("libz-ng-sys"@.len() == 11);
    assert("libz-sys"@.len() == 8);
    assert("lz4-sys"@.len() == 7);
    assert("lzma-sys"@.len() == 8);
    assert("mimalloc"@.len() == 8);
    assert("openblas-sys"@.len() == 12);
    assert("openssl"@.len() == 7);
    assert("openssl-sys"@.len() == 11);
    assert("protobuf-src"@.len() == 12);
    assert("protoc-grpcio"@.len() == 13);
    assert("rocksdb"@.len() == 7);
    assert("rocksdb-sys"@.len() == 11);
    assert("rust-htslib"@.len() == 11);
    assert("serde"@.len() == 5);
    assert("snappy-sys"@.len() == 10);
    assert("zstd"@.len() == 4);
    assert("zstd-sys"@.len() == 8);
    assert("cmake-build"@[0] != "openssl-sys"@[0]);
    assert("openssl-sys"@[0] != "rocksdb-sys"@[0]);
    assert("leveldb-sys"@[0] != "openssl-sys"@[0]);
    assert("openssl-sys"@[0] != "rust-htslib"@[0]);
    assert("cmake-build"@[0] != "libcurl-sys"@[0]);
    assert("libcurl-sys"@[0] != "rocksdb-sys"@[0]);
    assert("leveldb-sys"@[1] != "libcurl-sys"@[1]);
    assert("libcurl-sys"@[0] != "rust-htslib"@[0]);
    assert("bzip2-sys"@[0] != "cxx-build"@[0]);
    assert("gsl-sys"@[0] != "rocksdb"@[0]);
    assert("gsl-sys"@[0] != "hts-sys"@[0]);
    assert("openblas-sys"@[0] != "protobuf-src"@[0]);
    assert("cblas-sys"@[1] != "cxx-build"@[1]);
    assert("lapack-sys"@[0] != "snappy-sys"@[0]);
    assert("grpcio-sys"@[0] != "lapack-sys"@[0]);
    assert("cmake-build"@[0] != "libgit2-sys"@[0]);
    assert("libgit2-sys"@[0] != "rocksdb-sys"@[0]);
    assert("leveldb-sys"@[1] != "libgit2-sys"@[1]);
    assert("libgit2-sys"@[0] != "rust-htslib"@[0]);
    assert("cmake-build"@[0] != "rust-htslib"@[0]);
    assert("rocksdb-sys"@[1] != "rust-htslib"@[1]);
    assert("leveldb-sys"@[0] != "rust-htslib"@[0]);
    assert("hts-sys"@[0] != "rocksdb"@[0]);
    assert("cmake-build"@[0] != "libz-ng-sys"@[0]);
    assert("libz-ng-sys"@[0] != "rocksdb-sys"@[0]);
    assert("leveldb-sys"@[1] != "libz-ng-sys"@[1]);
    assert("libz-ng-sys"@[0] != "rust-htslib"@[0]);
    assert("lz4-sys"@[0] != "rocksdb"@[0]);
    assert("hts-sys"@[0] != "lz4-sys"@[0]);
    assert("cpp"@[1] != "cxx"@[1]);
    assert("cmake-build"@[0] != "rocksdb-sys"@[0]);
    assert("cmake-build"@[0] != "leveldb-sys"@[0]);
    assert("leveldb-sys"@[0] != "rocksdb-sys"@[0]);
    assert("grpcio-sys"@[0] != "snappy-sys"@[0]);
    assert("cmake-build"@[0] != "libssh2-sys"@[0]);
    assert("libssh2-sys"@[0] != "rocksdb-sys"@[0]);
    assert("leveldb-sys"@[1] != "libssh2-sys"@[1]);
    assert("libssh2-sys"@[0] != "rust-htslib"@[0]);
    assert("cmake"@[0] != "serde"@[0]);
    assert("openssl"@[0] != "rocksdb"@[0]);
    assert("hts-sys"@[0] != "openssl"@[0]);
    assert("bindgen"@[0] != "rocksdb"@[0]);
    assert("bindgen"@[0] != "hts-sys"@[0]);
}

/// Which crates of the known lists locate a system library with pkg-config.
pub proof fn law_pkg_config_table()
    ensures
        uses_pkg_config("openssl-sys"@),
        uses_pkg_config("curl-sys"@),
        uses_pkg_config("libcurl-sys"@),
        uses_pkg_config("libsqlite3-sys"@),
        uses_pkg_config("libz-sys"@),
        !uses_pkg_config("bzip2-sys"@),
        !uses_pkg_config("lzma-sys"@),
        uses_pkg_config("gsl-sys"@),
        uses_pkg_config("blas-sys"@),
        uses_pkg_config("openblas-sys"@),
        uses_pkg_config("cblas-sys"@),
        uses_pkg_config("lapack-sys"@),
        uses_pkg_config("libgit2-sys"@),
        !uses_pkg_config("protobuf-src"@),
        !uses_pkg_config("protoc-grpcio"@),
        uses_pkg_config("rust-htslib"@),
        uses_pkg_config("hts-sys"@),
        !uses_pkg_config("libdeflate-sys"@),
        !uses_pkg_config("libz-ng-sys"@),
        !uses_pkg_config("lz4-sys"@),
        !uses_pkg_config("zstd-sys"@),
        !uses_pkg_config("cc"@),
        !uses_pkg_config("mimalloc"@),
        !uses_pkg_config("libmimalloc-sys"@),
        !uses_pkg_config("cxx"@),
        !uses_pkg_config("cxx-build"@),
        !uses_pkg_config("cpp"@),
        !uses_pkg_config("cmake"@),
        !uses_pkg_config("cmake-build"@),
        !uses_pkg_config("rocksdb"@),
        !uses_pkg_config("rocksdb-sys"@),
        !uses_pkg_config("snappy-sys"@),
        !uses_pkg_config("leveldb-sys"@),
        !uses_pkg_config("grpcio-sys"@),
        !uses_pkg_config("libssh2-sys"@),
        !uses_pkg_config("serde"@),
        !uses_pkg_config("git2"@),
        !uses_pkg_config("openssl"@),
        !uses_pkg_config("bindgen"@),
        !uses_pkg_config("clap"@),
        !uses_pkg_config("zstd"@),
        !uses_pkg_config("curl"@),
{
    reveal_strlit("bindgen");
    reveal_strlit("blas-sys");
    reveal_strlit("bzip2-sys");
    reveal_strlit("cblas-sys");
    reveal_strlit("cc");
    reveal_strlit("clap");
    reveal_strlit("cmake");
    reveal_strlit("cmake-build");
    reveal_strlit("cpp");
    reveal_strlit("curl");
    reveal_strlit("curl-sys");
    reveal_strlit("cxx");
    reveal_strlit("cxx-build");
    reveal_strlit("git2");
    reveal_strlit("grpcio-sys");
    reveal_strlit("gsl-sys");
    reveal_strlit("hts-sys");
    reveal_strlit("lapack-sys");
    reveal_strlit("leveldb-sys");
    reveal_strlit("libcurl-sys");
    reveal_strlit("libdeflate-sys");
    reveal_strlit("libgit2-sys");
    reveal_strlit("libmimalloc-sys");
    reveal_strlit("libsqlite3-sys");
    reveal_strlit("libssh2-sys");
    reveal_strlit("libz-ng-sys");
    reveal_strlit("libz-sys");
    reveal_strlit("lz4-sys");
    reveal_strlit("lzma-sys");
    reveal_strlit("mimalloc");
    reveal_strlit("openblas-sys");
    reveal_strlit("openssl");
    reveal_strlit("openssl-sys");
    reveal_strlit("protobuf-src");
    reveal_strlit("protoc-grpcio");
    reveal_strlit("rocksdb");
    reveal_strlit("rocksdb-sys");
    reveal_strlit("rust-htslib");
    reveal_strlit("serde");
    reveal_strlit("snappy-sys");
    reveal_strlit("zstd");
    reveal_strlit("zstd-sys");
    assert("bindgen"@.len() == 7);
    assert("blas-sys"@.len() == 8);
    assert("bzip2-sys"@.len() == 9);
    assert("cblas-sys"@.len() == 9);
    assert("cc"@.len() == 2);
    assert("clap"@.len() == 4);
    assert("cmake"@.len() == 5);
    assert("cmake-build"@.len() == 11);
    assert("cpp"@.len() == 3);
    assert("curl"@.len() == 4);
    assert("curl-sys"@.len() == 8);
    assert("cxx"@.len() == 3);
    assert("cxx-build"@.len() == 9);
    assert("git2"@.len() == 4);
    assert("grpcio-sys"@.len() == 10);
    assert("gsl-sys"@.len() == 7);
    assert("hts-sys"@.len() == 7);
    assert("lapack-sys"@.len() == 10);
    assert("leveldb-sys"@.len() == 11);
    assert("libcurl-sys"@.len() == 11);
    assert("libdeflate-sys"@.len() == 14);
    assert("libgit2-sys"@.len() == 11);
    assert("libmimalloc-sys"@.len() == 15);
    assert("libsqlite3-sys"@.len() == 14);
    assert("libssh2-sys"@.len() == 11);
    assert("libz-ng-sys"@.len() == 11);
    assert("libz-sys"@.len() == 8);
    assert("lz4-sys"@.len() == 7);
    assert("lzma-sys"@.len() == 8);
    assert("mimalloc"@.len() == 8);
    assert("openblas-sys"@.len() == 12);
    assert("openssl"@.len() == 7);
    assert("openssl-sys"@.len() == 11);
    assert("protobuf-src"@.len() == 12);
    assert("protoc-grpcio"@.len() == 13);
    assert("rocksdb"@.len() == 7);
    assert("rocksdb-sys"@.len() == 11);
    assert("rust-htslib"@.len() == 11);
    assert("serde"@.len() == 5);
    assert("snappy-sys"@.len() == 10);
    assert("zstd"@.len() == 4);
    assert("zstd-sys"@.len() == 8);
    assert("libcurl-sys"@[0] != "openssl-sys"@[0]);
    assert("libgit2-sys"@[0] != "openssl-sys"@[0]);
    assert("openssl-sys"@[0] != "rust-htslib"@[0]);
    assert("curl-sys"@[0] != "libz-sys"@[0]);
    assert("blas-sys"@[0] != "curl-sys"@[0]);
    assert("libcurl-sys"@[3] != "libgit2-sys"@[3]);
    assert("libcurl-sys"@[0] != "rust-htslib"@[0]);
    assert("blas-sys"@[0] != "libz-sys"@[0]);
    assert("bzip2-sys"@[0] != "cblas-sys"@[0]);
    assert("curl-sys"@[0] != "lzma-sys"@[0]);
    assert("libz-sys"@[1] != "lzma-sys"@[1]);
    assert("blas-sys"@[0] != "lzma-sys"@[0]);
    assert("gsl-sys"@[0] != "hts-sys"@[0]);
    assert("libgit2-sys"@[0] != "rust-htslib"@[0]);
    assert("openblas-sys"@[0] != "protobuf-src"@[0]);
    assert("libdeflate-sys"@[3] != "libsqlite3-sys"@[3]);
    assert("libz-ng-sys"@[0] != "openssl-sys"@[0]);
    assert("libcurl-sys"@[3] != "libz-ng-sys"@[3]);
    assert("libgit2-sys"@[3] != "libz-ng-sys"@[3]);
    assert("libz-ng-sys"@[0] != "rust-htslib"@[0]);
    assert("gsl-sys"@[0] != "lz4-sys"@[0]);
    assert("hts-sys"@[0] != "lz4-sys"@[0]);
    assert("curl-sys"@[0] != "zstd-sys"@[0]);
    assert("libz-sys"@[0] != "zstd-sys"@[0]);
    assert("blas-sys"@[0] != "zstd-sys"@[0]);
    assert("curl-sys"@[0] != "mimalloc"@[0]);
    assert("libz-sys"@[0] != "mimalloc"@[0]);
    assert("blas-sys"@[0] != "mimalloc"@[0]);
    assert("cblas-sys"@[1] != "cxx-build"@[1]);
    assert("cmake-build"@[0] != "openssl-sys"@[0]);
    assert("cmake-build"@[0] != "libcurl-sys"@[0]);
    assert("cmake-build"@[0] != "libgit2-sys"@[0]);
    assert("cmake-build"@[0] != "rust-htslib"@[0]);
    assert("gsl-sys"@[0] != "rocksdb"@[0]);
    assert("hts-sys"@[0] != "rocksdb"@[0]);
    assert("openssl-sys"@[0] != "rocksdb-sys"@[0]);
    assert("libcurl-sys"@[0] != "rocksdb-sys"@[0]);
    assert("libgit2-sys"@[0] != "rocksdb-sys"@[0]);
    assert("rocksdb-sys"@[1] != "rust-htslib"@[1]);
    assert("lapack-sys"@[0] != "snappy-sys"@[0]);
    assert("leveldb-sys"@[0] != "openssl-sys"@[0]);
    assert("leveldb-sys"@[1] != "libcurl-sys"@[1]);
    assert("leveldb-sys"@[1] != "libgit2-sys"@[1]);
    assert("leveldb-sys"@[0] != "rust-htslib"@[0]);
    assert("grpcio-sys"@[0] != "lapack-sys"@[0]);
    assert("libssh2-sys"@[0] != "openssl-sys"@[0]);
    assert("libcurl-sys"@[3] != "libssh2-sys"@[3]);
    assert("libgit2-sys"@[3] != "libssh2-sys"@[3]);
    assert("libssh2-sys"@[0] != "rust-htslib"@[0]);
    assert("gsl-sys"@[0] != "openssl"@[0]);
    assert("hts-sys"@[0] != "openssl"@[0]);
    assert("bindgen"@[0] != "gsl-sys"@[0]);
    assert("bindgen"@[0] != "hts-sys"@[0]);
}

/// Which crates of the known lists are built with cmake.
pub proof fn law_cmake_table()
    ensures
        !uses_cmake("openssl-sys"@),
        !uses_cmake("curl-sys"@),
        !uses_cmake("libcurl-sys"@),
        !uses_cmake("libsqlite3-sys"@),
        !uses_cmake("libz-sys"@),
        !uses_cmake("bzip2-sys"@),
        !uses_cmake("lzma-sys"@),
        !uses_cmake("gsl-sys"@),
        !uses_cmake("blas-sys"@),
        !uses_cmake("openblas-sys"@),
        !uses_cmake("cblas-sys"@),
        !uses_cmake("lapack-sys"@),
        !uses_cmake("libgit2-sys"@),
        !uses_cmake("protobuf-src"@),
        !uses_cmake("protoc-grpcio"@),
        !uses_cmake("rust-htslib"@),
        !uses_cmake("hts-sys"@),
        !uses_cmake("libdeflate-sys"@),
        !uses_cmake("libz-ng-sys"@),
        !uses_cmake("lz4-sys"@),
        !uses_cmake("zstd-sys"@),
        !uses_cmake("cc"@),
        !uses_cmake("mimalloc"@),
        !uses_cmake("libmimalloc-sys"@),
        !uses_cmake("cxx"@),
        !uses_cmake("cxx-build"@),
        !uses_cmake("cpp"@),
        uses_cmake("cmake"@),
        uses_cmake("cmake-build"@),
        !uses_cmake("rocksdb"@),
        uses_cmake("rocksdb-sys"@),
        uses_cmake("snappy-sys"@),
        uses_cmake("leveldb-sys"@),
        uses_cmake("grpcio-sys"@),
        uses_cmake("libssh2-sys"@),
        !uses_cmake("serde"@),
        !uses_cmake("git2"@),
        !uses_cmake("openssl"@),
        !uses_cmake("bindgen"@),
        !uses_cmake("clap"@),
        !uses_cmake("zstd"@),
        !uses_cmake("curl"@),
{
    reveal_strlit("bindgen");
    reveal_strlit("blas-sys");
    reveal_strlit("bzip2-sys");
    reveal_strlit("cblas-sys");
    reveal_strlit("cc");
    reveal_strlit("clap");
    reveal_strlit("cmake");
    reveal_strlit("cmake-build");
    reveal_strlit("cpp");
    reveal_strlit("curl");
    reveal_strlit("curl-sys");
    reveal_strlit("cxx");
    reveal_strlit("cxx-build");
    reveal_strlit("git2");
    reveal_strlit("grpcio-sys");
    reveal_strlit("gsl-sys");
    reveal_strlit("hts-sys");
    reveal_strlit("lapack-sys");
    reveal_strlit("leveldb-sys");
    reveal_strlit("libcurl-sys");
    reveal_strlit("libdeflate-sys");
    reveal_strlit("libgit2-sys");
    reveal_strlit("libmimalloc-sys");
    reveal_strlit("libsqlite3-sys");
    reveal_strlit("libssh2-sys");
    reveal_strlit("libz-ng-sys");
    reveal_strlit("libz-sys");
    reveal_strlit("lz4-sys");
    reveal_strlit("lzma-sys");
    reveal_strlit("mimalloc");
    reveal_strlit("openblas-sys");
    reveal_strlit("openssl");
    reveal_strlit("openssl-sys");
    reveal_strlit("protobuf-src");
    reveal_strlit("protoc-grpcio");
    reveal_strlit("rocksdb");
    reveal_strlit("rocksdb-sys");
    reveal_strlit("rust-htslib");
    reveal_strlit("serde");
    reveal_strlit("snappy-sys");
    reveal_strlit("zstd");
    reveal_strlit("zstd-sys");
    assert("bindgen"@.len() == 7);
    assert("blas-sys"@.len() == 8);
    assert("bzip2-sys"@.len() == 9);
    assert("cblas-sys"@.len() == 9);
    assert("cc"@.len() == 2);
    assert("clap"@.len() == 4);
    assert("cmake"@.len() == 5);
    assert("cmake-build"@.len() == 11);
    assert("cpp"@.len() == 3);
    assert("curl"@.len() == 4);
    assert("curl-sys"@.len() == 8);
    assert("cxx"@.len() == 3);
    assert("cxx-build"@.len() == 9);
    assert("git2"@.len() == 4);
    assert("grpcio-sys"@.len() == 10);
    assert("gsl-sys"@.len() == 7);
    assert("hts-sys"@.len() == 7);
    assert("lapack-sys"@.len() == 10);
    assert("leveldb-sys"@.len() == 11);
    assert("libcurl-sys"@.len() == 11);
    assert("libdeflate-sys"@.len() == 14);
    assert("libgit2-sys"@.len() == 11);
    assert("libmimalloc-sys"@.len() == 15);
    assert("libsqlite3-sys"@.len() == 14);
    assert("libssh2-sys"@.len() == 11);
    assert("libz-ng-sys"@.len() == 11);
    assert("libz-sys"@.len() == 8);
    assert("lz4-sys"@.len() == 7);
    assert("lzma-sys"@.len() == 8);
    assert("mimalloc"@.len() == 8);
    assert("openblas-sys"@.len() == 12);
    assert("openssl"@.len() == 7);
    assert("openssl-sys"@.len() == 11);
    assert("protobuf-src"@.len() == 12);
    assert("protoc-grpcio"@.len() == 13);
    assert("rocksdb"@.len() == 7);
    assert("rocksdb-sys"@.len() == 11);
    assert("rust-htslib"@.len() == 11);
    assert("serde"@.len() == 5);
    assert("snappy-sys"@.len() == 10);
    assert("zstd"@.len() == 4);
    assert("zstd-sys"@.len() == 8);
    assert("openssl-sys"@[0] != "rocksdb-sys"@[0]);
    assert("leveldb-sys"@[0] != "openssl-sys"@[0]);
    assert("libssh2-sys"@[0] != "openssl-sys"@[0]);
    assert("cmake-build"@[0] != "openssl-sys"@[0]);
    assert("libcurl-sys"@[0] != "rocksdb-sys"@[0]);
    assert("leveldb-sys"@[1] != "libcurl-sys"@[1]);
    assert("libcurl-sys"@[3] != "libssh2-sys"@[3]);
    assert("cmake-build"@[0] != "libcurl-sys"@[0]);
    assert("grpcio-sys"@[0] != "lapack-sys"@[0]);
    assert("lapack-sys"@[0] != "snappy-sys"@[0]);
    assert("libgit2-sys"@[0] != "rocksdb-sys"@[0]);
    assert("leveldb-sys"@[1] != "libgit2-sys"@[1]);
    assert("libgit2-sys"@[3] != "libssh2-sys"@[3]);
    assert("cmake-build"@[0] != "libgit2-sys"@[0]);
    assert("rocksdb-sys"@[1] != "rust-htslib"@[1]);
    assert("leveldb-sys"@[0] != "rust-htslib"@[0]);
    assert("libssh2-sys"@[0] != "rust-htslib"@[0]);
    assert("cmake-build"@[0] != "rust-htslib"@[0]);
    assert("libz-ng-sys"@[0] != "rocksdb-sys"@[0]);
    assert("leveldb-sys"@[1] != "libz-ng-sys"@[1]);
    assert("libssh2-sys"@[3] != "libz-ng-sys"@[3]);
    assert("cmake-build"@[0] != "libz-ng-sys"@[0]);
    assert("cmake-build"@[0] != "rocksdb-sys"@[0]);
    assert("cmake-build"@[0] != "leveldb-sys"@[0]);
    assert("cmake-build"@[0] != "libssh2-sys"@[0]);
    assert("leveldb-sys"@[0] != "rocksdb-sys"@[0]);
    assert("libssh2-sys"@[0] != "rocksdb-sys"@[0]);
    assert("grpcio-sys"@[0] != "snappy-sys"@[0]);
    assert("leveldb-sys"@[1] != "libssh2-sys"@[1]);
    assert("cmake"@[0] != "serde"@[0]);
}

/// Which crates of the known lists are built with make: exactly those that
/// link a system library.
pub proof fn law_make_table()
    ensures
        uses_make("openssl-sys"@),
        uses_make("curl-sys"@),
        uses_make("libcurl-sys"@),
        uses_make("libsqlite3-sys"@),
        uses_make("libz-sys"@),
        uses_make("bzip2-sys"@),
        uses_make("lzma-sys"@),
        uses_make("gsl-sys"@),
        uses_make("blas-sys"@),
        uses_make("openblas-sys"@),
        uses_make("cblas-sys"@),
        uses_make("lapack-sys"@),
        uses_make("libgit2-sys"@),
        uses_make("protobuf-src"@),
        uses_make("protoc-grpcio"@),
        uses_make("rust-htslib"@),
        uses_make("hts-sys"@),
        !uses_make("libdeflate-sys"@),
        !uses_make("libz-ng-sys"@),
        !uses_make("lz4-sys"@),
        !uses_make("zstd-sys"@),
        !uses_make("cc"@),
        !uses_make("mimalloc"@),
        !uses_make("libmimalloc-sys"@),
        !uses_make("cxx"@),
        !uses_make("cxx-build"@),
        !uses_make("cpp"@),
        !uses_make("cmake"@),
        !uses_make("cmake-build"@),
        !uses_make("rocksdb"@),
        !uses_make("rocksdb-sys"@),
        !uses_make("snappy-sys"@),
        !uses_make("leveldb-sys"@),
        !uses_make("grpcio-sys"@),
        !uses_make("libssh2-sys"@),
        !uses_make("serde"@),
        !uses_make("git2"@),
        !uses_make("openssl"@),
        !uses_make("bindgen"@),
        !uses_make("clap"@),
        !uses_make("zstd"@),
        !uses_make("curl"@),
{
    reveal_strlit("bindgen");
    reveal_strlit("blas-sys");
    reveal_strlit("bzip2-sys");
    reveal_strlit("cblas-sys");
    reveal_strlit("cc");
    reveal_strlit("clap");
    reveal_strlit("cmake");
    reveal_strlit("cmake-build");
    reveal_strlit("cpp");
    reveal_strlit("curl");
    reveal_strlit("curl-sys");
    reveal_strlit("cxx");
    reveal_strlit("cxx-build");
    reveal_strlit("git2");
    reveal_strlit("grpcio-sys");
    reveal_strlit("gsl-sys");
    reveal_strlit("hts-sys");
    reveal_strlit("lapack-sys");
    reveal_strlit("leveldb-sys");
    reveal_strlit("libcurl-sys");
    reveal_strlit("libdeflate-sys");
    reveal_strlit("libgit2-sys");
    reveal_strlit("libmimalloc-sys");
    reveal_strlit("libsqlite3-sys");
    reveal_strlit("libssh2-sys");
    reveal_strlit("libz-ng-sys");
    reveal_strlit("libz-sys");
    reveal_strlit("lz4-sys");
    reveal_strlit("lzma-sys");
    reveal_strlit("mimalloc");
    reveal_strlit("openblas-sys");
    reveal_strlit("openssl");
    reveal_strlit("openssl-sys");
    reveal_strlit("protobuf-src");
    reveal_strlit("protoc-grpcio");
    reveal_strlit("rocksdb");
    reveal_strlit("rocksdb-sys");
    reveal_strlit("rust-htslib");
    reveal_strlit("serde");
    reveal_strlit("snappy-sys");
    reveal_strlit("zstd");
    reveal_strlit("zstd-sys");
    assert("bindgen"@.len() == 7);
    assert("blas-sys"@.len() == 8);
    assert("bzip2-sys"@.len() == 9);
    assert("cblas-sys"@.len() == 9);
    assert("cc"@.len() == 2);
    assert("clap"@.len() == 4);
    assert("cmake"@.len() == 5);
    assert("cmake-build"@.len() == 11);
    assert("cpp"@.len() == 3);
    assert("curl"@.len() == 4);
    assert("curl-sys"@.len() == 8);
    assert("cxx"@.len() == 3);
    assert("cxx-build"@.len() == 9);
    assert("git2"@.len() == 4);
    assert("grpcio-sys"@.len() == 10);
    assert("gsl-sys"@.len() == 7);
    assert("hts-sys"@.len() == 7);
    assert("lapack-sys"@.len() == 10);
    assert("leveldb-sys"@.len() == 11);
    assert("libcurl-sys"@.len() == 11);
    assert("libdeflate-sys"@.len() == 14);
    assert("libgit2-sys"@.len() == 11);
    assert("libmimalloc-sys"@.len() == 15);
    assert("libsqlite3-sys"@.len() == 14);
    assert("libssh2-sys"@.len() == 11);
    assert("libz-ng-sys"@.len() == 11);
    assert("libz-sys"@.len() == 8);
    assert("lz4-sys"@.len() == 7);
    assert("lzma-sys"@.len() == 8);
    assert("mimalloc"@.len() == 8);
    assert("openblas-sys"@.len() == 12);
    assert("openssl"@.len() == 7);
    assert("openssl-sys"@.len() == 11);
    assert("protobuf-src"@.len() == 12);
    assert("protoc-grpcio"@.len() == 13);
    assert("rocksdb"@.len() == 7);
    assert("rocksdb-sys"@.len() == 11);
    assert("rust-htslib"@.len() == 11);
    assert("serde"@.len() == 5);
    assert("snappy-sys"@.len() == 10);
    assert("zstd"@.len() == 4);
    assert("zstd-sys"@.len() == 8);
    assert("libcurl-sys"@[0] != "openssl-sys"@[0]);
    assert("libgit2-sys"@[0] != "openssl-sys"@[0]);
    assert("openssl-sys"@[0] != "rust-htslib"@[0]);
    assert("curl-sys"@[0] != "libz-sys"@[0]);
    assert("curl-sys"@[0] != "lzma-sys"@[0]);
    assert("blas-sys"@[0] != "curl-sys"@[0]);
    assert("libcurl-sys"@[3] != "libgit2-sys"@[3]);
    assert("libcurl-sys"@[0] != "rust-htslib"@[0]);
    assert("libz-sys"@[1] != "lzma-sys"@[1]);
    assert("blas-sys"@[0] != "libz-sys"@[0]);
    assert("bzip2-sys"@[0] != "cblas-sys"@[0]);
    assert("blas-sys"@[0] != "lzma-sys"@[0]);
    assert("gsl-sys"@[0] != "hts-sys"@[0]);
    assert("openblas-sys"@[0] != "protobuf-src"@[0]);
    assert("libgit2-sys"@[0] != "rust-htslib"@[0]);
    assert("libdeflate-sys"@[3] != "libsqlite3-sys"@[3]);
    assert("libz-ng-sys"@[0] != "openssl-sys"@[0]);
    assert("libcurl-sys"@[3] != "libz-ng-sys"@[3]);
    assert("libgit2-sys"@[3] != "libz-ng-sys"@[3]);
    assert("libz-ng-sys"@[0] != "rust-htslib"@[0]);
    assert("gsl-sys"@[0] != "lz4-sys"@[0]);
    assert("hts-sys"@[0] != "lz4-sys"@[0]);
    assert("curl-sys"@[0] != "zstd-sys"@[0]);
    assert("libz-sys"@[0] != "zstd-sys"@[0]);
    assert("lzma-sys"@[0] != "zstd-sys"@[0]);
    assert("blas-sys"@[0] != "zstd-sys"@[0]);
    assert("curl-sys"@[0] != "mimalloc"@[0]);
    assert("libz-sys"@[0] != "mimalloc"@[0]);
    assert("lzma-sys"@[0] != "mimalloc"@[0]);
    assert("blas-sys"@[0] != "mimalloc"@[0]);
    assert("bzip2-sys"@[0] != "cxx-build"@[0]);
    assert("cblas-sys"@[1] != "cxx-build"@[1]);
    assert("cmake-build"@[0] != "openssl-sys"@[0]);
    assert("cmake-build"@[0] != "libcurl-sys"@[0]);
    assert("cmake-build"@[0] != "libgit2-sys"@[0]);
    assert("cmake-build"@[0] != "rust-htslib"@[0]);
    assert("gsl-sys"@[0] != "rocksdb"@[0]);
    assert("hts-sys"@[0] != "rocksdb"@[0]);
    assert("openssl-sys"@[0] != "rocksdb-sys"@[0]);
    assert("libcurl-sys"@[0] != "rocksdb-sys"@[0]);
    assert("libgit2-sys"@[0] != "rocksdb-sys"@[0]);
    assert("rocksdb-sys"@[1] != "rust-htslib"@[1]);
    assert("lapack-sys"@[0] != "snappy-sys"@[0]);
    assert("leveldb-sys"@[0] != "openssl-sys"@[0]);
    assert("leveldb-sys"@[1] != "libcurl-sys"@[1]);
    assert("leveldb-sys"@[1] != "libgit2-sys"@[1]);
    assert("leveldb-sys"@[0] != "rust-htslib"@[0]);
    assert("grpcio-sys"@[0] != "lapack-sys"@[0]);
    assert("libssh2-sys"@[0] != "openssl-sys"@[0]);
    assert("libcurl-sys"@[3] != "libssh2-sys"@[3]);
    assert("libgit2-sys"@[3] != "libssh2-sys"@[3]);
    assert("libssh2-sys"@[0] != "rust-htslib"@[0]);
    assert("gsl-sys"@[0] != "openssl"@[0]);
    assert("hts-sys"@[0] != "openssl"@[0]);
    assert("bindgen"@[0] != "gsl-sys"@[0]);
    assert("bindgen"@[0] != "hts-sys"@[0]);
}

} // verus!
