//! Detect non-Rust runtime dependencies from source tree file patterns.
//! Scans file paths for indicators of R, Python, or other scripting languages
//! that would need corresponding conda run dependencies.
use vstd::prelude::*;

use crate::text::{after_last, after_last_char, contains, decimal, decimal_string, ends_with,
    has_sub, has_suffix, join, join_strs, lowercase, text_eq, to_lowercase};

verus! {

/// A detected runtime dependency hint.
pub struct RuntimeHint {
    /// Suggested conda package (e.g., "r-base", "python").
    pub package: &'static str,
    /// Human-readable reason for the suggestion.
    pub reason: String,
}

impl DeepView for RuntimeHint {
    type V = (Seq<char>, Seq<char>);

    open spec fn deep_view(&self) -> (Seq<char>, Seq<char>) {
        (self.package@, self.reason@)
    }
}

/// A path and its lower-case form.
pub type PathPair = (Seq<char>, Seq<char>);

/// A lower-cased path names an R script.
pub open spec fn is_r_script(lower: Seq<char>) -> bool {
    has_suffix(lower, ".r"@) || has_suffix(lower, ".rmd"@) || has_suffix(lower, ".rscript"@)
}

/// A lower-cased path names a Python script other than a setup.py or conf.py.
pub open spec fn is_py_script(lower: Seq<char>) -> bool {
    has_suffix(lower, ".py"@) && !has_sub(lower, "setup.py"@) && !has_sub(lower, "conf.py"@)
}

/// The paths, in order, whose lower-case form names an R script.
pub open spec fn r_script_paths(ps: Seq<PathPair>) -> Seq<Seq<char>>
    decreases ps.len(),
{
    if ps.len() == 0 {
        seq![]
    } else {
        r_script_paths(ps.drop_last()) + if is_r_script(ps.last().1) {
            seq![ps.last().0]
        } else {
            seq![]
        }
    }
}

/// The paths, in order, whose lower-case form names a Python script.
pub open spec fn py_script_paths(ps: Seq<PathPair>) -> Seq<Seq<char>>
    decreases ps.len(),
{
    if ps.len() == 0 {
        seq![]
    } else {
        py_script_paths(ps.drop_last()) + if is_py_script(ps.last().1) {
            seq![ps.last().0]
        } else {
            seq![]
        }
    }
}

/// The path names an R package DESCRIPTION file.
pub open spec fn is_r_description(p: Seq<char>) -> bool {
    p == "DESCRIPTION"@ || has_suffix(p, "/DESCRIPTION"@)
}

/// The path ends with renv.lock.
pub open spec fn is_renv_lock(p: Seq<char>) -> bool {
    has_suffix(p, "renv.lock"@)
}

/// The path's file name is requirements.txt.
pub open spec fn is_requirements_txt(p: Seq<char>) -> bool {
    after_last(p, '/') == "requirements.txt"@
}

/// Some path of the list satisfies `f`.
pub open spec fn any_path(ps: Seq<PathPair>, f: spec_fn(Seq<char>) -> bool) -> bool {
    exists|i: int| 0 <= i < ps.len() && f(#[trigger] ps[i].0)
}

/// Some path is an R package DESCRIPTION file.
pub open spec fn has_r_description(ps: Seq<PathPair>) -> bool {
    any_path(ps, |p: Seq<char>| is_r_description(p))
}

/// Some path ends with renv.lock.
pub open spec fn has_renv(ps: Seq<PathPair>) -> bool {
    any_path(ps, |p: Seq<char>| is_renv_lock(p))
}

/// Some path's file name is requirements.txt.
pub open spec fn has_requirements_txt(ps: Seq<PathPair>) -> bool {
    any_path(ps, |p: Seq<char>| is_requirements_txt(p))
}

proof fn lemma_any_path_step(ps: Seq<PathPair>, n: int, f: spec_fn(Seq<char>) -> bool)
    requires
        0 <= n < ps.len(),
    ensures
        any_path(ps.take(n + 1), f) == (any_path(ps.take(n), f) || f(ps[n].0)),
{
    let prev = ps.take(n);
    let cur = ps.take(n + 1);
    if any_path(prev, f) {
        let k = choose|k: int| 0 <= k < prev.len() && f(#[trigger] prev[k].0);
        assert(cur[k] == prev[k]);
    }
    if f(ps[n].0) {
        assert(cur[n] == ps[n]);
    }
    if any_path(cur, f) {
        let k = choose|k: int| 0 <= k < cur.len() && f(#[trigger] cur[k].0);
        if k < n {
            assert(cur[k] == prev[k]);
        }
    }
}

/// `found <count> <kind> script(s): <first three, comma separated>`
pub open spec fn scripts_reason(kind: Seq<char>, scripts: Seq<Seq<char>>) -> Seq<char> {
    "found "@ + decimal(scripts.len()) + " "@ + kind + " script(s): "@ + join(
        scripts.take(if scripts.len() < 3 { scripts.len() as int } else { 3 }),
        ", "@,
    )
}

/// The hints for a list of paths with their lower-case forms: r-base when
/// there are R scripts, a DESCRIPTION file or renv.lock; python when there
/// are Python scripts or a requirements.txt.
pub open spec fn runtime_hints(ps: Seq<PathPair>) -> Seq<(Seq<char>, Seq<char>)> {
    let rs = r_script_paths(ps);
    let pys = py_script_paths(ps);
    (if rs.len() > 0 || has_r_description(ps) || has_renv(ps) {
        seq![
            ("r-base"@, if rs.len() > 0 {
                scripts_reason("R"@, rs)
            } else if has_r_description(ps) {
                "found DESCRIPTION file (R package)"@
            } else {
                "found renv.lock file"@
            }),
        ]
    } else {
        seq![]
    }) + (if pys.len() > 0 || has_requirements_txt(ps) {
        seq![
            ("python"@, if pys.len() > 0 {
                scripts_reason("Python"@, pys)
            } else {
                "found requirements.txt file"@
            }),
        ]
    } else {
        seq![]
    })
}

/// The paths of a list, each paired with its lower-case form.
pub open spec fn lowered_pairs(paths: Seq<Seq<char>>) -> Seq<PathPair> {
    paths.map_values(|p: Seq<char>| (p, lowercase(p)))
}

fn scripts_reason_exec(kind: &str, scripts: &Vec<&str>) -> (r: String)
    ensures
        r@ == scripts_reason(kind@, scripts@.map_values(|x: &str| x@)),
{
    let ghost sv = scripts@.map_values(|x: &str| x@);
    let n = if scripts.len() < 3 {
        scripts.len()
    } else {
        3
    };
    let mut examples: Vec<&str> = Vec::new();
    let mut i: usize = 0;
    while i < n
        invariant
            i <= n <= scripts.len(),
            sv == scripts@.map_values(|x: &str| x@),
            examples@.map_values(|x: &str| x@) == sv.take(i as int),
        decreases n - i,
    {
        let ghost before = examples@;
        examples.push(scripts[i]);
        assert(examples@.map_values(|x: &str| x@) =~= before.map_values(|x: &str| x@).push(sv[i as int]));
        assert(sv.take(i + 1) =~= sv.take(i as int).push(sv[i as int]));
        i = i + 1;
    }
    let mut r = String::from_str("found ");
    let count = decimal_string(scripts.len());
    r.append(count.as_str());
    r.append(" ");
    r.append(kind);
    r.append(" script(s): ");
    let joined = join_strs(&examples, ", ");
    r.append(joined.as_str());
    r
}

/// The runtime hints for paths given with their lower-case forms.
pub fn runtime_hints_from(pairs: &Vec<(String, String)>) -> (r: Vec<RuntimeHint>)
    ensures
        r.deep_view() == runtime_hints(pairs.deep_view()),
{
    let ghost ps = pairs.deep_view();
    let mut r_scripts: Vec<&str> = Vec::new();
    let mut py_scripts: Vec<&str> = Vec::new();
    let mut has_desc = false;
    let mut renv = false;
    let mut req_txt = false;
    let mut i: usize = 0;
    while i < pairs.len()
        invariant
            i <= pairs.len(),
            ps == pairs.deep_view(),
            r_scripts@.map_values(|x: &str| x@) == r_script_paths(ps.take(i as int)),
            py_scripts@.map_values(|x: &str| x@) == py_script_paths(ps.take(i as int)),
            has_desc == has_r_description(ps.take(i as int)),
            renv == has_renv(ps.take(i as int)),
            req_txt == has_requirements_txt(ps.take(i as int)),
        decreases pairs.len() - i,
    {
        let ghost prev = ps.take(i as int);
        let ghost cur = ps.take(i + 1);
        assert(cur.drop_last() =~= prev);
        let p = pairs[i].0.as_str();
        let lower = pairs[i].1.as_str();
        assert(cur.last() == (p@, lower@));
        if ends_with(lower, ".r") || ends_with(lower, ".rmd") || ends_with(lower, ".rscript") {
            let ghost before = r_scripts@;
            r_scripts.push(p);
            assert(r_scripts@.map_values(|x: &str| x@) =~= before.map_values(|x: &str| x@).push(p@));
        }
        assert(r_scripts@.map_values(|x: &str| x@) =~= r_script_paths(cur));
        if ends_with(lower, ".py") && !contains(lower, "setup.py") && !contains(lower, "conf.py") {
            let ghost before = py_scripts@;
            py_scripts.push(p);
            assert(py_scripts@.map_values(|x: &str| x@) =~= before.map_values(|x: &str| x@).push(p@));
        }
        assert(py_scripts@.map_values(|x: &str| x@) =~= py_script_paths(cur));
        let d = text_eq(p, "DESCRIPTION") || ends_with(p, "/DESCRIPTION");
        let e = ends_with(p, "renv.lock");
        let t = text_eq(after_last_char(p, '/'), "requirements.txt");
        proof {
            assert(ps[i as int] == (p@, lower@));
            lemma_any_path_step(ps, i as int, |q: Seq<char>| is_r_description(q));
            lemma_any_path_step(ps, i as int, |q: Seq<char>| is_renv_lock(q));
            lemma_any_path_step(ps, i as int, |q: Seq<char>| is_requirements_txt(q));
        }
        has_desc = has_desc || d;
        renv = renv || e;
        req_txt = req_txt || t;
        i = i + 1;
    }
    assert(ps.take(pairs.len() as int) =~= ps);
    let mut hints: Vec<RuntimeHint> = Vec::new();
    if r_scripts.len() > 0 || has_desc || renv {
        let detail = if r_scripts.len() > 0 {
            scripts_reason_exec("R", &r_scripts)
        } else if has_desc {
            String::from_str("found DESCRIPTION file (R package)")
        } else {
            String::from_str("found renv.lock file")
        };
        hints.push(RuntimeHint { package: "r-base", reason: detail });
    }
    if py_scripts.len() > 0 || req_txt {
        let detail = if py_scripts.len() > 0 {
            scripts_reason_exec("Python", &py_scripts)
        } else {
            String::from_str("found requirements.txt file")
        };
        hints.push(RuntimeHint { package: "python", reason: detail });
    }
    assert(hints.deep_view() =~= runtime_hints(ps));
    hints
}

/// Scan a list of file paths for R/Python runtime dependency indicators.
/// Returns hints about potential run deps the user should consider adding.
pub fn detect_runtime_hints(file_paths: &[String]) -> (r: Vec<RuntimeHint>)
    ensures
        r.deep_view() == runtime_hints(lowered_pairs(file_paths@.map_values(|p: String| p@))),
{
    let ghost paths = file_paths@.map_values(|p: String| p@);
    let mut pairs: Vec<(String, String)> = Vec::new();
    let mut i: usize = 0;
    while i < file_paths.len()
        invariant
            i <= file_paths.len(),
            paths == file_paths@.map_values(|p: String| p@),
            pairs.deep_view() == lowered_pairs(paths).take(i as int),
        decreases file_paths.len() - i,
    {
        let p = file_paths[i].as_str();
        let lower = to_lowercase(p);
        let ghost before = pairs.deep_view();
        proof {
            assert(paths[i as int] == p@);
        }
        pairs.push((String::from_str(p), lower));
        assert(pairs.deep_view() =~= before.push((p@, lowercase(p@))));
        assert(lowered_pairs(paths).take(i + 1) =~= lowered_pairs(paths).take(i as int).push((p@, lowercase(p@))));
        i = i + 1;
    }
    assert(lowered_pairs(paths).take(file_paths.len() as int) =~= lowered_pairs(paths));
    runtime_hints_from(&pairs)
}

} // verus!
