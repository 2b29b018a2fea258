//! Build script generation for Rust conda recipes.
//! Supports both inline `script:` (simple recipes) and `build.sh` (complex recipes).
use vstd::prelude::*;

use crate::text::{opt_text, append_if, occurs_at};

verus! {

pub struct BuildScript {
    use_locked: bool,
    use_cbl: bool,
    use_bindgen: bool,
    native_deps: bool,
    workspace_path: Option<String>,
    force_build_sh: bool,
    cargo_net_git_fetch: bool,
    strip_binaries: bool,
    binary_names: Vec<String>,
}

/// The settings of a build script as plain values.
pub struct BuildScriptView {
    pub use_locked: bool,
    pub use_cbl: bool,
    pub use_bindgen: bool,
    pub native_deps: bool,
    pub workspace_path: Option<Seq<char>>,
    pub force_build_sh: bool,
    pub cargo_net_git_fetch: bool,
    pub strip_binaries: bool,
    pub binary_names: Seq<Seq<char>>,
}

impl View for BuildScript {
    type V = BuildScriptView;

    closed spec fn view(&self) -> BuildScriptView {
        BuildScriptView {
            use_locked: self.use_locked,
            use_cbl: self.use_cbl,
            use_bindgen: self.use_bindgen,
            native_deps: self.native_deps,
            workspace_path: self.workspace_path.deep_view(),
            force_build_sh: self.force_build_sh,
            cargo_net_git_fetch: self.cargo_net_git_fetch,
            strip_binaries: self.strip_binaries,
            binary_names: self.binary_names.deep_view(),
        }
    }
}

/// The settings of a new build script: locked install, nothing else.
pub open spec fn default_build_script() -> BuildScriptView {
    BuildScriptView {
        use_locked: true,
        use_cbl: false,
        use_bindgen: false,
        native_deps: false,
        workspace_path: None,
        force_build_sh: false,
        cargo_net_git_fetch: false,
        strip_binaries: false,
        binary_names: seq![],
    }
}

/// A separate build.sh is needed (rather than an inline `script:`).
pub open spec fn spec_needs_build_sh(b: BuildScriptView) -> bool {
    b.force_build_sh || b.use_cbl || b.use_bindgen || b.native_deps || b.workspace_path is Some
}

/// The `cargo install` command line.
pub open spec fn install_cmd(b: BuildScriptView) -> Seq<char> {
    "cargo install --no-track"@ + opt_text(b.use_locked, " --locked"@)
        + " --verbose --root \"${PREFIX}\" --path "@ + match b.workspace_path {
        Some(p) => p,
        None => "."@,
    }
}

/// The strip commands, one line per binary.
pub open spec fn strip_lines(bins: Seq<Seq<char>>) -> Seq<char>
    decreases bins.len(),
{
    if bins.len() == 0 {
        seq![]
    } else {
        strip_lines(bins.drop_last()) + "${STRIP} \"${PREFIX}/bin/"@ + bins.last()
            + "\" 2>/dev/null || true\n"@
    }
}

/// The text of build.sh.
pub open spec fn build_sh_text(b: BuildScriptView) -> Seq<char> {
    "#!/bin/bash\nset -euo pipefail\n\n"@ + "export RUST_BACKTRACE=1\n"@ + opt_text(
        b.cargo_net_git_fetch,
        "export CARGO_NET_GIT_FETCH_WITH_CLI=true\n"@,
    ) + "\n"@ + opt_text(b.native_deps, "export CPPFLAGS=\"${CPPFLAGS} -I${PREFIX}/include\"\n"@)
        + opt_text(b.native_deps, "export LDFLAGS=\"${LDFLAGS} -L${PREFIX}/lib\"\n"@) + opt_text(
        b.native_deps,
        "export CFLAGS=\"${CFLAGS} -O3\"\n\n"@,
    ) + opt_text(b.use_bindgen, "export BINDGEN_EXTRA_CLANG_ARGS=\"${CFLAGS} ${CPPFLAGS}\"\n\n"@)
        + opt_text(b.use_cbl, "cargo-bundle-licenses --format yaml --output THIRDPARTY.yml\n\n"@)
        + install_cmd(b) + "\n"@ + opt_text(
        b.strip_binaries && b.binary_names.len() > 0,
        "\n"@ + strip_lines(b.binary_names),
    )
}

impl Default for BuildScript {
    fn default() -> (r: Self)
        ensures
            r@ == default_build_script(),
    {
        let r = Self {
            use_locked: true,
            use_cbl: false,
            use_bindgen: false,
            native_deps: false,
            workspace_path: None,
            force_build_sh: false,
            cargo_net_git_fetch: false,
            strip_binaries: false,
            binary_names: Vec::new(),
        };
        assert(r@.binary_names =~= seq![]);
        r
    }
}

impl BuildScript {
    pub fn new() -> (r: Self)
        ensures
            r@ == default_build_script(),
    {
        Self::default()
    }

    pub fn locked(self, v: bool) -> (r: Self)
        ensures
            r@ == (BuildScriptView { use_locked: v, ..self@ }),
    {
        let mut s = self;
        s.use_locked = v;
        s
    }

    pub fn cargo_bundle_licenses(self, v: bool) -> (r: Self)
        ensures
            r@ == (BuildScriptView { use_cbl: v, ..self@ }),
    {
        let mut s = self;
        s.use_cbl = v;
        s
    }

    pub fn needs_bindgen(self, v: bool) -> (r: Self)
        ensures
            r@ == (BuildScriptView { use_bindgen: v, ..self@ }),
    {
        let mut s = self;
        s.use_bindgen = v;
        s
    }

    pub fn has_native_deps(self, v: bool) -> (r: Self)
        ensures
            r@ == (BuildScriptView { native_deps: v, ..self@ }),
    {
        let mut s = self;
        s.native_deps = v;
        s
    }

    pub fn workspace_path(self, path: &str) -> (r: Self)
        ensures
            r@ == (BuildScriptView { workspace_path: Some(path@), ..self@ }),
    {
        let mut s = self;
        s.workspace_path = Some(String::from_str(path));
        s
    }

    pub fn force_build_sh(self, v: bool) -> (r: Self)
        ensures
            r@ == (BuildScriptView { force_build_sh: v, ..self@ }),
    {
        let mut s = self;
        s.force_build_sh = v;
        s
    }

    pub fn cargo_net_git_fetch(self, v: bool) -> (r: Self)
        ensures
            r@ == (BuildScriptView { cargo_net_git_fetch: v, ..self@ }),
    {
        let mut s = self;
        s.cargo_net_git_fetch = v;
        s
    }

    pub fn strip_binaries(self, v: bool) -> (r: Self)
        ensures
            r@ == (BuildScriptView { strip_binaries: v, ..self@ }),
    {
        let mut s = self;
        s.strip_binaries = v;
        s
    }

    pub fn binaries(self, names: Vec<String>) -> (r: Self)
        ensures
            r@ == (BuildScriptView { binary_names: names.deep_view(), ..self@ }),
    {
        let mut s = self;
        s.binary_names = names;
        s
    }

    /// Whether this recipe needs a separate build.sh (vs inline script:).
    pub fn needs_build_sh(&self) -> (r: bool)
        ensures
            r == spec_needs_build_sh(self@),
    {
        self.force_build_sh || self.use_cbl || self.use_bindgen || self.native_deps
            || self.workspace_path.is_some()
    }

    /// Generate the cargo install command line.
    fn cargo_install_cmd(&self) -> (r: String)
        ensures
            r@ == install_cmd(self@),
    {
        let mut r = String::new();
        r.append("cargo install --no-track");
        append_if(&mut r, self.use_locked, " --locked");
        r.append(" --verbose --root \"${PREFIX}\" --path ");
        match &self.workspace_path {
            Some(p) => r.append(p.as_str()),
            None => r.append("."),
        }
        r
    }

    /// Generate inline script content (for simple recipes).
    pub fn inline_script(&self) -> (r: String)
        ensures
            r@ == install_cmd(self@),
    {
        self.cargo_install_cmd()
    }

    /// Generate build.sh content (for complex recipes).
    pub fn to_build_sh(&self) -> (out: String)
        ensures
            out@ == build_sh_text(self@),
    {
        let mut out = String::new();
        out.append("#!/bin/bash\nset -euo pipefail\n\n");
        out.append("export RUST_BACKTRACE=1\n");
        append_if(&mut out, self.cargo_net_git_fetch, "export CARGO_NET_GIT_FETCH_WITH_CLI=true\n");
        out.append("\n");
        append_if(&mut out, self.native_deps, "export CPPFLAGS=\"${CPPFLAGS} -I${PREFIX}/include\"\n");
        append_if(&mut out, self.native_deps, "export LDFLAGS=\"${LDFLAGS} -L${PREFIX}/lib\"\n");
        append_if(&mut out, self.native_deps, "export CFLAGS=\"${CFLAGS} -O3\"\n\n");
        append_if(
            &mut out,
            self.use_bindgen,
            "export BINDGEN_EXTRA_CLANG_ARGS=\"${CFLAGS} ${CPPFLAGS}\"\n\n",
        );
        append_if(
            &mut out,
            self.use_cbl,
            "cargo-bundle-licenses --format yaml --output THIRDPARTY.yml\n\n",
        );
        let cmd = self.cargo_install_cmd();
        out.append(cmd.as_str());
        out.append("\n");
        let ghost before = out@;
        if self.strip_binaries && self.binary_names.len() > 0 {
            out.append("\n");
            let ghost bins = self.binary_names.deep_view();
            let mut i: usize = 0;
            while i < self.binary_names.len()
                invariant
                    i <= self.binary_names.len(),
                    bins == self.binary_names.deep_view(),
                    out@ == before + "\n"@ + strip_lines(bins.take(i as int)),
                decreases self.binary_names.len() - i,
            {
                out.append("${STRIP} \"${PREFIX}/bin/");
                out.append(self.binary_names[i].as_str());
                out.append("\" 2>/dev/null || true\n");
                assert(bins.take(i + 1).drop_last() =~= bins.take(i as int));
                i = i + 1;
            }
            assert(bins.take(bins.len() as int) =~= bins);
        }
        assert(out@ =~= build_sh_text(self@));
        out
    }
}


/// `line` (ending in a line feed) stands on a line of its own in `text`.
pub open spec fn has_line(text: Seq<char>, line: Seq<char>) -> bool {
    exists|k: int| #[trigger] occurs_at(text, line, k) && (k == 0 || text[k - 1] == '\n')
}

/// The text is empty or ends with a line feed.
spec fn lf_ended(x: Seq<char>) -> bool {
    x.len() > 0 ==> x.last() == '\n'
}

proof fn lemma_line_after(x: Seq<char>, line: Seq<char>, y: Seq<char>)
    requires
        lf_ended(x),
    ensures
        has_line(x + line + y, line),
{
    let t = x + line + y;
    assert(t.subrange(x.len() as int, (x.len() + line.len()) as int) =~= line);
    if x.len() > 0 {
        assert(t[x.len() - 1] == x.last());
    }
    assert(occurs_at(t, line, x.len() as int));
}

proof fn lemma_lf_concat(x: Seq<char>, y: Seq<char>)
    requires
        lf_ended(x),
        lf_ended(y),
    ensures
        lf_ended(x + y),
{
    if y.len() > 0 {
        assert((x + y).last() == y.last());
    }
}

/// The text of build.sh up to the flag exports.
spec fn head_part(b: BuildScriptView) -> Seq<char> {
    "#!/bin/bash\nset -euo pipefail\n\n"@ + "export RUST_BACKTRACE=1\n"@ + opt_text(
        b.cargo_net_git_fetch,
        "export CARGO_NET_GIT_FETCH_WITH_CLI=true\n"@,
    ) + "\n"@
}

/// The text of build.sh up to the `cargo install` line.
spec fn setup_part(b: BuildScriptView) -> Seq<char> {
    head_part(b) + opt_text(b.native_deps, "export CPPFLAGS=\"${CPPFLAGS} -I${PREFIX}/include\"\n"@)
        + opt_text(b.native_deps, "export LDFLAGS=\"${LDFLAGS} -L${PREFIX}/lib\"\n"@) + opt_text(
        b.native_deps,
        "export CFLAGS=\"${CFLAGS} -O3\"\n\n"@,
    ) + opt_text(b.use_bindgen, "export BINDGEN_EXTRA_CLANG_ARGS=\"${CFLAGS} ${CPPFLAGS}\"\n\n"@)
        + opt_text(b.use_cbl, "cargo-bundle-licenses --format yaml --output THIRDPARTY.yml\n\n"@)
}

proof fn lemma_parts_end_in_lf(b: BuildScriptView)
    ensures
        lf_ended("#!/bin/bash\nset -euo pipefail\n\n"@ + "export RUST_BACKTRACE=1\n"@),
        lf_ended(head_part(b)),
        lf_ended(head_part(b) + opt_text(b.native_deps, "export CPPFLAGS=\"${CPPFLAGS} -I${PREFIX}/include\"\n"@)),
        lf_ended(head_part(b) + opt_text(b.native_deps, "export CPPFLAGS=\"${CPPFLAGS} -I${PREFIX}/include\"\n"@)
            + opt_text(b.native_deps, "export LDFLAGS=\"${LDFLAGS} -L${PREFIX}/lib\"\n"@)),
        lf_ended(head_part(b) + opt_text(b.native_deps, "export CPPFLAGS=\"${CPPFLAGS} -I${PREFIX}/include\"\n"@)
            + opt_text(b.native_deps, "export LDFLAGS=\"${LDFLAGS} -L${PREFIX}/lib\"\n"@) + opt_text(
            b.native_deps,
            "export CFLAGS=\"${CFLAGS} -O3\"\n\n"@,
        )),
        lf_ended(head_part(b) + opt_text(b.native_deps, "export CPPFLAGS=\"${CPPFLAGS} -I${PREFIX}/include\"\n"@)
            + opt_text(b.native_deps, "export LDFLAGS=\"${LDFLAGS} -L${PREFIX}/lib\"\n"@) + opt_text(
            b.native_deps,
            "export CFLAGS=\"${CFLAGS} -O3\"\n\n"@,
        ) + opt_text(b.use_bindgen, "export BINDGEN_EXTRA_CLANG_ARGS=\"${CFLAGS} ${CPPFLAGS}\"\n\n"@)),
        lf_ended(setup_part(b)),
{
    reveal_strlit("\n");
    reveal_strlit("export RUST_BACKTRACE=1\n");
    reveal_strlit("export CPPFLAGS=\"${CPPFLAGS} -I${PREFIX}/include\"\n");
    reveal_strlit("export LDFLAGS=\"${LDFLAGS} -L${PREFIX}/lib\"\n");
    reveal_strlit("export CFLAGS=\"${CFLAGS} -O3\"\n\n");
    reveal_strlit("export BINDGEN_EXTRA_CLANG_ARGS=\"${CFLAGS} ${CPPFLAGS}\"\n\n");
    reveal_strlit("cargo-bundle-licenses --format yaml --output THIRDPARTY.yml\n\n");
    let h = head_part(b);
    let a = "#!/bin/bash\nset -euo pipefail\n\n"@ + "export RUST_BACKTRACE=1\n"@;
    let g = opt_text(b.cargo_net_git_fetch, "export CARGO_NET_GIT_FETCH_WITH_CLI=true\n"@);
    reveal_strlit("#!/bin/bash\nset -euo pipefail\n\n");
    reveal_strlit("export CARGO_NET_GIT_FETCH_WITH_CLI=true\n");
    lemma_lf_concat("#!/bin/bash\nset -euo pipefail\n\n"@, "export RUST_BACKTRACE=1\n"@);
    lemma_lf_concat(a, g);
    lemma_lf_concat(a + g, "\n"@);
    let c1 = opt_text(b.native_deps, "export CPPFLAGS=\"${CPPFLAGS} -I${PREFIX}/include\"\n"@);
    let c2 = opt_text(b.native_deps, "export LDFLAGS=\"${LDFLAGS} -L${PREFIX}/lib\"\n"@);
    let c3 = opt_text(b.native_deps, "export CFLAGS=\"${CFLAGS} -O3\"\n\n"@);
    let c4 = opt_text(b.use_bindgen, "export BINDGEN_EXTRA_CLANG_ARGS=\"${CFLAGS} ${CPPFLAGS}\"\n\n"@);
    let c5 = opt_text(b.use_cbl, "cargo-bundle-licenses --format yaml --output THIRDPARTY.yml\n\n"@);
    lemma_lf_concat(h, c1);
    lemma_lf_concat(h + c1, c2);
    lemma_lf_concat(h + c1 + c2, c3);
    lemma_lf_concat(h + c1 + c2 + c3, c4);
    lemma_lf_concat(h + c1 + c2 + c3 + c4, c5);
}

proof fn lemma_line_prefix(x: Seq<char>, y: Seq<char>, line: Seq<char>)
    requires
        has_line(x, line),
    ensures
        has_line(x + y, line),
{
    let k = choose|k: int| #[trigger] occurs_at(x, line, k) && (k == 0 || x[k - 1] == '\n');
    assert((x + y).subrange(k, k + line.len()) =~= x.subrange(k, k + line.len()));
    if k > 0 {
        assert((x + y)[k - 1] == x[k - 1]);
    }
    assert(occurs_at(x + y, line, k));
}

/// build.sh is its setup, then the `cargo install` line, then the strip lines.
proof fn lemma_build_sh_parts(b: BuildScriptView)
    ensures
        build_sh_text(b) == setup_part(b) + (install_cmd(b) + "\n"@) + opt_text(
            b.strip_binaries && b.binary_names.len() > 0,
            "\n"@ + strip_lines(b.binary_names),
        ),
        setup_part(b) == head_part(b) + (setup_part(b).subrange(
            head_part(b).len() as int,
            setup_part(b).len() as int,
        )),
{
    assert(build_sh_text(b) =~= setup_part(b) + (install_cmd(b) + "\n"@) + opt_text(
        b.strip_binaries && b.binary_names.len() > 0,
        "\n"@ + strip_lines(b.binary_names),
    ));
    assert(setup_part(b) =~= head_part(b) + (setup_part(b).subrange(
        head_part(b).len() as int,
        setup_part(b).len() as int,
    )));
}

/// Every build.sh starts with the bash line, reports backtraces, and sets
/// git to fetch over the command line when that is asked for.
pub proof fn law_build_sh_head(b: BuildScriptView)
    ensures
        has_line(build_sh_text(b), "#!/bin/bash\n"@),
        has_line(build_sh_text(b), "export RUST_BACKTRACE=1\n"@),
        b.cargo_net_git_fetch ==> has_line(
            build_sh_text(b),
            "export CARGO_NET_GIT_FETCH_WITH_CLI=true\n"@,
        ),
{
    reveal_strlit("#!/bin/bash\nset -euo pipefail\n\n");
    reveal_strlit("#!/bin/bash\n");
    reveal_strlit("set -euo pipefail\n\n");
    lemma_parts_end_in_lf(b);
    lemma_build_sh_parts(b);
    let h = head_part(b);
    let a = "#!/bin/bash\nset -euo pipefail\n\n"@;
    let bt = "export RUST_BACKTRACE=1\n"@;
    let g = opt_text(b.cargo_net_git_fetch, "export CARGO_NET_GIT_FETCH_WITH_CLI=true\n"@);
    let rest0 = "set -euo pipefail\n\n"@ + bt + g + "\n"@;
    assert(h =~= seq![] + "#!/bin/bash\n"@ + rest0);
    lemma_line_after(seq![], "#!/bin/bash\n"@, rest0);
    assert(h =~= a + bt + (g + "\n"@));
    lemma_line_after(a, bt, g + "\n"@);
    if b.cargo_net_git_fetch {
        reveal_strlit("export CARGO_NET_GIT_FETCH_WITH_CLI=true\n");
        lemma_line_after(a + bt, g, "\n"@);
        lemma_line_prefix(h, seq![], g);
        assert(h + seq![] =~= h);
    }
    let t = build_sh_text(b);
    let tail = t.subrange(h.len() as int, t.len() as int);
    assert(t =~= h + tail);
    lemma_line_prefix(h, tail, "#!/bin/bash\n"@);
    lemma_line_prefix(h, tail, bt);
    if b.cargo_net_git_fetch {
        lemma_line_prefix(h, tail, g);
    }
}

/// A build.sh for a crate with native host libraries puts the prefix's
/// include directory on the preprocessor path, its lib directory on the
/// linker path and optimises C code, each on a line of its own.
pub proof fn law_native_flags_in_build_sh(b: BuildScriptView)
    requires
        b.native_deps,
    ensures
        has_line(build_sh_text(b), "export CPPFLAGS=\"${CPPFLAGS} -I${PREFIX}/include\"\n"@),
        has_line(build_sh_text(b), "export LDFLAGS=\"${LDFLAGS} -L${PREFIX}/lib\"\n"@),
        has_line(build_sh_text(b), "export CFLAGS=\"${CFLAGS} -O3\"\n"@),
{
    reveal_strlit("\n");
    reveal_strlit("export CFLAGS=\"${CFLAGS} -O3\"\n");
    reveal_strlit("export CFLAGS=\"${CFLAGS} -O3\"\n\n");
    lemma_parts_end_in_lf(b);
    let t = build_sh_text(b);
    let h = head_part(b);
    let cpp = "export CPPFLAGS=\"${CPPFLAGS} -I${PREFIX}/include\"\n"@;
    let ld = "export LDFLAGS=\"${LDFLAGS} -L${PREFIX}/lib\"\n"@;
    let cf = "export CFLAGS=\"${CFLAGS} -O3\"\n"@;
    assert("export CFLAGS=\"${CFLAGS} -O3\"\n\n"@ =~= cf + "\n"@);
    let r1 = t.subrange((h + cpp).len() as int, t.len() as int);
    assert(h + cpp + r1 =~= t);
    lemma_line_after(h, cpp, r1);
    let r2 = t.subrange((h + cpp + ld).len() as int, t.len() as int);
    assert(h + cpp + ld + r2 =~= t);
    lemma_line_after(h + cpp, ld, r2);
    let r3 = t.subrange((h + cpp + ld + cf).len() as int, t.len() as int);
    assert(h + cpp + ld + cf + r3 =~= t);
    lemma_line_after(h + cpp + ld, cf, r3);
}

/// A build.sh passes the C flags to clang when bindgen runs and bundles the
/// dependency licenses when cargo-bundle-licenses is used, each on a line of
/// its own.
#[verifier::spinoff_prover]
pub proof fn law_build_sh_tool_lines(b: BuildScriptView)
    ensures
        b.use_bindgen ==> has_line(
            build_sh_text(b),
            "export BINDGEN_EXTRA_CLANG_ARGS=\"${CFLAGS} ${CPPFLAGS}\"\n"@,
        ),
        b.use_cbl ==> has_line(
            build_sh_text(b),
            "cargo-bundle-licenses --format yaml --output THIRDPARTY.yml\n"@,
        ),
{
    lemma_parts_end_in_lf(b);
    lemma_build_sh_parts(b);
    let sp = setup_part(b);
    let inst = install_cmd(b) + "\n"@;
    let strip = opt_text(b.strip_binaries && b.binary_names.len() > 0, "\n"@ + strip_lines(b.binary_names));
    let x = head_part(b) + opt_text(b.native_deps, "export CPPFLAGS=\"${CPPFLAGS} -I${PREFIX}/include\"\n"@)
        + opt_text(b.native_deps, "export LDFLAGS=\"${LDFLAGS} -L${PREFIX}/lib\"\n"@) + opt_text(
        b.native_deps,
        "export CFLAGS=\"${CFLAGS} -O3\"\n\n"@,
    );
    let c4 = opt_text(b.use_bindgen, "export BINDGEN_EXTRA_CLANG_ARGS=\"${CFLAGS} ${CPPFLAGS}\"\n\n"@);
    let c5 = opt_text(b.use_cbl, "cargo-bundle-licenses --format yaml --output THIRDPARTY.yml\n\n"@);
    assert(sp == x + c4 + c5);
    if b.use_bindgen {
        reveal_strlit("\n");
        reveal_strlit("export BINDGEN_EXTRA_CLANG_ARGS=\"${CFLAGS} ${CPPFLAGS}\"\n");
        reveal_strlit("export BINDGEN_EXTRA_CLANG_ARGS=\"${CFLAGS} ${CPPFLAGS}\"\n\n");
        let l = "export BINDGEN_EXTRA_CLANG_ARGS=\"${CFLAGS} ${CPPFLAGS}\"\n"@;
        assert(sp =~= x + l + ("\n"@ + c5));
        lemma_line_after(x, l, "\n"@ + c5);
        lemma_line_prefix(sp, inst, l);
        lemma_line_prefix(sp + inst, strip, l);
    }
    if b.use_cbl {
        reveal_strlit("\n");
        reveal_strlit("cargo-bundle-licenses --format yaml --output THIRDPARTY.yml\n");
        reveal_strlit("cargo-bundle-licenses --format yaml --output THIRDPARTY.yml\n\n");
        let l = "cargo-bundle-licenses --format yaml --output THIRDPARTY.yml\n"@;
        assert(sp =~= (x + c4) + l + "\n"@);
        lemma_line_after(x + c4, l, "\n"@);
        lemma_line_prefix(sp, inst, l);
        lemma_line_prefix(sp + inst, strip, l);
    }
}

/// A build.sh always runs the `cargo install` command on a line of its own.
pub proof fn law_build_sh_install_line(b: BuildScriptView)
    ensures
        has_line(build_sh_text(b), install_cmd(b) + "\n"@),
{
    lemma_parts_end_in_lf(b);
    lemma_build_sh_parts(b);
    lemma_line_after(
        setup_part(b),
        install_cmd(b) + "\n"@,
        opt_text(b.strip_binaries && b.binary_names.len() > 0, "\n"@ + strip_lines(b.binary_names)),
    );
}

} // verus!
