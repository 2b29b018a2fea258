//! Rendering recipes to output formats.
use vstd::prelude::*;

use crate::recipe::{About, AboutView, Build, BuildView, Extra, ExtraView, Preamble, Recipe, RecipeView, ReqView, Requirement, Requirements, RequirementsView, Source, Test};
use crate::text::{contains_char, find_char_from, has_char, has_prefix, has_sub, has_suffix, occurs_at, opt_text, strip_cr, text_lines, lemma_index_of_bounds};

verus! {

/// Trait for rendering a Recipe to a string format.
pub trait Renderer {
    fn render(&self, recipe: &Recipe) -> String;
}

/// Renders a Recipe as conda-build meta.yaml (v0 format).
pub struct MetaYamlRenderer;

/// `    - <item>` lines, one per item.
pub open spec fn item_lines(items: Seq<Seq<char>>) -> Seq<char>
    decreases items.len(),
{
    if items.len() == 0 {
        seq![]
    } else {
        item_lines(items.drop_last()) + "    - "@ + items.last() + "\n"@
    }
}

/// `    <line>` lines, one per line.
pub open spec fn indented_lines(lines: Seq<Seq<char>>) -> Seq<char>
    decreases lines.len(),
{
    if lines.len() == 0 {
        seq![]
    } else {
        "    "@ + lines[0] + "\n"@ + indented_lines(lines.drop_first())
    }
}

/// `  <key>: <value>` when there is a value.
#[verifier::opaque]
pub open spec fn opt_line(key: Seq<char>, value: Option<Seq<char>>) -> Seq<char> {
    match value {
        Some(v) => "  "@ + key + ": "@ + v + "\n"@,
        None => seq![],
    }
}

/// A `  <key>:` header and its items, or nothing when there are no items.
pub open spec fn list_section(key: Seq<char>, items: Seq<Seq<char>>) -> Seq<char> {
    if items.len() == 0 {
        seq![]
    } else {
        "  "@ + key + ":\n"@ + item_lines(items)
    }
}

pub open spec fn preamble_text(name: Seq<char>, version: Seq<char>) -> Seq<char> {
    "{% set name = \""@ + name + "\" %}\n"@ + "{% set version = \""@ + version + "\" %}\n"@
        + "\n"@
}

pub open spec fn package_text() -> Seq<char> {
    "package:\n"@ + "  name: {{ name }}\n"@ + "  version: {{ version }}\n"@ + "\n"@
}

/// The source section: the URL, the archive's file name when there is one
/// (conda-build needs it to unpack archives whose URL has no extension), and
/// the checksum.
pub open spec fn source_text(url: Seq<char>, filename: Seq<char>, sha256: Seq<char>) -> Seq<char> {
    "source:\n"@ + "  url: "@ + url + "\n"@ + (if filename.len() > 0 {
        "  fn: "@ + filename + "\n"@
    } else {
        seq![]
    }) + "  sha256: "@ + sha256 + "\n"@ + "\n"@
}

/// The script of the build section: a `|` block of lines when it spans
/// several lines, else a single line.
pub open spec fn script_text(script: Option<Seq<char>>) -> Seq<char> {
    match script {
        Some(s) => if has_char(s, '\n') {
            "  script: |\n"@ + indented_lines(text_lines(s))
        } else {
            "  script: "@ + s + "\n"@
        },
        None => seq![],
    }
}

/// The build section: the build number, the script, and the run exports
/// pin when they are asked for.
pub open spec fn build_text(b: BuildView) -> Seq<char> {
    "build:\n"@ + "  number: 0\n"@ + script_text(b.script) + opt_text(
        b.with_run_exports,
        "  run_exports:\n"@ + "    - {{ pin_subpackage(\""@ + b.name + "\", max_pin=\""@
            + b.max_pin + "\") }}\n"@,
    ) + "\n"@
}

/// One requirement line: name, version, then the platform selector comment.
pub open spec fn req_line(q: ReqView) -> Seq<char> {
    "    - "@ + q.name + match q.version {
        Some(v) => " "@ + v,
        None => seq![],
    } + match q.selector {
        Some(sel) => "  # ["@ + sel + "]"@,
        None => seq![],
    } + "\n"@
}

pub open spec fn req_lines(qs: Seq<ReqView>) -> Seq<char>
    decreases qs.len(),
{
    if qs.len() == 0 {
        seq![]
    } else {
        req_lines(qs.drop_last()) + req_line(qs.last())
    }
}

pub open spec fn req_section(key: Seq<char>, qs: Seq<ReqView>) -> Seq<char> {
    if qs.len() == 0 {
        seq![]
    } else {
        "  "@ + key + ":\n"@ + req_lines(qs)
    }
}

pub open spec fn requirements_text(r: RequirementsView) -> Seq<char> {
    "requirements:\n"@ + req_section("build"@, r.build) + req_section("host"@, r.host)
        + req_section("run"@, r.run) + "\n"@
}

/// The test section, omitted when there are no commands.
pub open spec fn test_text(commands: Seq<Seq<char>>) -> Seq<char> {
    if commands.len() == 0 {
        seq![]
    } else {
        "test:\n"@ + "  commands:\n"@ + item_lines(commands) + "\n"@
    }
}

/// One license file as a scalar, several as a list.
#[verifier::opaque]
pub open spec fn license_file_text(files: Seq<Seq<char>>) -> Seq<char> {
    if files.len() == 0 {
        seq![]
    } else if files.len() == 1 {
        "  license_file: "@ + files[0] + "\n"@
    } else {
        "  license_file:\n"@ + item_lines(files)
    }
}

pub open spec fn about_text(a: AboutView) -> Seq<char> {
    "about:\n"@ + opt_line("home"@, a.home) + opt_line("license"@, a.license) + opt_line(
        "license_family"@,
        a.license_family,
    ) + license_file_text(a.license_file) + opt_line("summary"@, a.summary) + opt_line(
        "dev_url"@,
        a.dev_url,
    ) + opt_line("doc_url"@, a.doc_url) + "\n"@
}

/// The extra section, omitted when all of its lists are empty.
pub open spec fn extra_text(e: ExtraView) -> Seq<char> {
    if e.additional_platforms.len() == 0 && e.recipe_maintainers.len() == 0
        && e.identifiers.len() == 0 && e.skip_platforms.len() == 0 {
        seq![]
    } else {
        "extra:\n"@ + list_section("additional-platforms"@, e.additional_platforms)
            + list_section("recipe-maintainers"@, e.recipe_maintainers) + list_section(
            "identifiers"@,
            e.identifiers,
        ) + list_section("skip-platforms"@, e.skip_platforms) + "\n"@
    }
}

/// The meta.yaml text of a recipe.
pub open spec fn meta_yaml(r: RecipeView) -> Seq<char> {
    preamble_text(r.name, r.version) + package_text() + source_text(r.url, r.filename, r.sha256)
        + build_text(r.build) + requirements_text(r.requirements) + test_text(r.test_commands)
        + about_text(r.about) + extra_text(r.extra)
}

impl Renderer for MetaYamlRenderer {
    fn render(&self, recipe: &Recipe) -> (out: String)
        ensures
            out@ == meta_yaml(recipe.deep_view()),
    {
        let mut out = String::new();
        self.render_preamble(&mut out, &recipe.preamble);
        self.render_package(&mut out);
        self.render_source(&mut out, &recipe.source);
        self.render_build(&mut out, &recipe.build);
        self.render_requirements(&mut out, &recipe.requirements);
        self.render_test(&mut out, &recipe.test);
        self.render_about(&mut out, &recipe.about);
        self.render_extra(&mut out, &recipe.extra);
        assert(out@ =~= meta_yaml(recipe.deep_view()));
        out
    }
}

fn append_items(out: &mut String, items: &Vec<String>)
    ensures
        final(out)@ == old(out)@ + item_lines(items.deep_view()),
{
    let ghost v = items.deep_view();
    let mut i: usize = 0;
    while i < items.len()
        invariant
            i <= items.len(),
            v == items.deep_view(),
            out@ == old(out)@ + item_lines(v.take(i as int)),
        decreases items.len() - i,
    {
        out.append("    - ");
        out.append(items[i].as_str());
        out.append("\n");
        assert(v.take(i + 1).drop_last() =~= v.take(i as int));
        i = i + 1;
    }
    assert(v.take(items.len() as int) =~= v);
}

fn append_opt_line(out: &mut String, key: &str, value: &Option<String>)
    ensures
        final(out)@ == old(out)@ + opt_line(key@, value.deep_view()),
{
    reveal(opt_line);
    match value {
        Some(v) => {
            out.append("  ");
            out.append(key);
            out.append(": ");
            out.append(v.as_str());
            out.append("\n");
        },
        None => {},
    }
    assert(out@ =~= old(out)@ + opt_line(key@, value.deep_view()));
}

fn append_list_section(out: &mut String, key: &str, items: &Vec<String>)
    ensures
        final(out)@ == old(out)@ + list_section(key@, items.deep_view()),
{
    if items.len() > 0 {
        out.append("  ");
        out.append(key);
        out.append(":\n");
        append_items(out, items);
    }
    assert(out@ =~= old(out)@ + list_section(key@, items.deep_view()));
}

fn append_indented_lines(out: &mut String, s: &str)
    ensures
        final(out)@ == old(out)@ + indented_lines(text_lines(s@)),
{
    let n = s.unicode_len();
    let mut pos: usize = 0;
    assert(s@.skip(0) =~= s@);
    while pos < n
        invariant
            n == s@.len(),
            pos <= n,
            out@ + indented_lines(text_lines(s@.skip(pos as int))) == old(out)@ + indented_lines(
                text_lines(s@),
            ),
        decreases n - pos,
    {
        let ghost rest = s@.skip(pos as int);
        let e = find_char_from(s, '\n', pos);
        proof {
            lemma_index_of_bounds(rest, '\n');
        }
        if e == n {
            out.append("    ");
            out.append(s.substring_char(pos, n));
            out.append("\n");
            assert(text_lines(rest) == seq![rest]);
            assert(s@.subrange(pos as int, n as int) =~= rest);
            assert(indented_lines(seq![rest]) =~= "    "@ + rest + "\n"@ + indented_lines(
                seq![rest].drop_first(),
            ));
            assert(s@.skip(n as int) =~= Seq::<char>::empty());
            pos = n;
        } else {
            let line = s.substring_char(pos, e);
            out.append("    ");
            if e > pos && s.get_char(e - 1) == '\r' {
                out.append(s.substring_char(pos, e - 1));
                assert(s@.subrange(pos as int, e - 1) =~= line@.drop_last());
            } else {
                out.append(line);
            }
            out.append("\n");
            let ghost i = e - pos;
            assert(line@ =~= rest.take(i));
            assert(rest.skip(i + 1) =~= s@.skip(e + 1));
            assert(text_lines(rest) == seq![strip_cr(rest.take(i))] + text_lines(rest.skip(i + 1)));
            let ghost ls = text_lines(rest);
            assert(ls.drop_first() =~= text_lines(rest.skip(i + 1)));
            pos = e + 1;
        }
    }
    assert(text_lines(s@.skip(n as int)) =~= Seq::<Seq<char>>::empty()) by {
        assert(s@.skip(n as int).len() == 0);
    }
}

fn append_license_files(out: &mut String, files: &Vec<String>)
    ensures
        final(out)@ == old(out)@ + license_file_text(files.deep_view()),
{
    reveal(license_file_text);
    let n = files.len();
    if n == 1 {
        out.append("  license_file: ");
        out.append(files[0].as_str());
        out.append("\n");
    } else if n > 1 {
        out.append("  license_file:\n");
        append_items(out, files);
    }
    assert(out@ =~= old(out)@ + license_file_text(files.deep_view()));
}

fn append_req_lines(out: &mut String, reqs: &Vec<Requirement>)
    ensures
        final(out)@ == old(out)@ + req_lines(reqs.deep_view()),
{
    let ghost v = reqs.deep_view();
    let mut i: usize = 0;
    while i < reqs.len()
        invariant
            i <= reqs.len(),
            v == reqs.deep_view(),
            out@ == old(out)@ + req_lines(v.take(i as int)),
        decreases reqs.len() - i,
    {
        MetaYamlRenderer.render_requirement(out, &reqs[i]);
        assert(v.take(i + 1).drop_last() =~= v.take(i as int));
        i = i + 1;
    }
    assert(v.take(reqs.len() as int) =~= v);
}

fn append_req_section(out: &mut String, key: &str, reqs: &Vec<Requirement>)
    ensures
        final(out)@ == old(out)@ + req_section(key@, reqs.deep_view()),
{
    if reqs.len() > 0 {
        out.append("  ");
        out.append(key);
        out.append(":\n");
        append_req_lines(out, reqs);
    }
    assert(out@ =~= old(out)@ + req_section(key@, reqs.deep_view()));
}

impl MetaYamlRenderer {
    pub fn render_preamble(&self, out: &mut String, preamble: &Preamble)
        ensures
            final(out)@ == old(out)@ + preamble_text(preamble.name@, preamble.version@),
    {
        out.append("{% set name = \"");
        out.append(preamble.name.as_str());
        out.append("\" %}\n");
        out.append("{% set version = \"");
        out.append(preamble.version.as_str());
        out.append("\" %}\n");
        out.append("\n");
        assert(out@ =~= old(out)@ + preamble_text(preamble.name@, preamble.version@));
    }

    pub fn render_package(&self, out: &mut String)
        ensures
            final(out)@ == old(out)@ + package_text(),
    {
        out.append("package:\n");
        out.append("  name: {{ name }}\n");
        out.append("  version: {{ version }}\n");
        out.append("\n");
        assert(out@ =~= old(out)@ + package_text());
    }

    pub fn render_source(&self, out: &mut String, source: &Source)
        ensures
            final(out)@ == old(out)@ + source_text(source.url@, source.filename@, source.sha256@),
    {
        out.append("source:\n");
        out.append("  url: ");
        out.append(source.url.as_str());
        out.append("\n");
        let ghost after_url = out@;
        if source.filename.unicode_len() > 0 {
            out.append("  fn: ");
            out.append(source.filename.as_str());
            out.append("\n");
        } else {
            assert(out@ =~= after_url + seq![]);
        }
        out.append("  sha256: ");
        out.append(source.sha256.as_str());
        out.append("\n");
        out.append("\n");
        assert(out@ =~= old(out)@ + source_text(source.url@, source.filename@, source.sha256@));
    }

    pub fn render_build(&self, out: &mut String, build: &Build)
        ensures
            final(out)@ == old(out)@ + build_text(build.deep_view()),
    {
        out.append("build:\n");
        out.append("  number: 0\n");
        let ghost after_number = out@;
        match &build.script {
            Some(script) => {
                if contains_char(script.as_str(), '\n') {
                    out.append("  script: |\n");
                    append_indented_lines(out, script.as_str());
                } else {
                    out.append("  script: ");
                    out.append(script.as_str());
                    out.append("\n");
                }
            },
            None => {},
        }
        assert(out@ =~= after_number + script_text(build.deep_view().script));
        let ghost after_script = out@;
        if build.with_run_exports {
            out.append("  run_exports:\n");
            out.append("    - {{ pin_subpackage(\"");
            out.append(build.name.as_str());
            out.append("\", max_pin=\"");
            out.append(build.max_pin.as_str());
            out.append("\") }}\n");
        }
        out.append("\n");
        assert(out@ =~= old(out)@ + build_text(build.deep_view()));
    }

    pub fn render_requirement(&self, out: &mut String, req: &Requirement)
        ensures
            final(out)@ == old(out)@ + req_line(req.deep_view()),
    {
        out.append("    - ");
        out.append(req.name.as_str());
        match &req.version {
            Some(v) => {
                out.append(" ");
                out.append(v.as_str());
            },
            None => {},
        }
        match &req.selector {
            Some(sel) => {
                out.append("  # [");
                out.append(sel.as_str());
                out.append("]");
            },
            None => {},
        }
        out.append("\n");
        assert(out@ =~= old(out)@ + req_line(req.deep_view()));
    }

    pub fn render_requirements(&self, out: &mut String, requirements: &Requirements)
        ensures
            final(out)@ == old(out)@ + requirements_text(requirements.deep_view()),
    {
        out.append("requirements:\n");
        append_req_section(out, "build", &requirements.build);
        append_req_section(out, "host", &requirements.host);
        append_req_section(out, "run", &requirements.run);
        out.append("\n");
        assert(out@ =~= old(out)@ + requirements_text(requirements.deep_view()));
    }

    pub fn render_test(&self, out: &mut String, test: &Test)
        ensures
            final(out)@ == old(out)@ + test_text(test.commands.deep_view()),
    {
        if test.commands.len() == 0 {
            assert(out@ =~= old(out)@ + test_text(test.commands.deep_view()));
            return ;
        }
        out.append("test:\n");
        out.append("  commands:\n");
        append_items(out, &test.commands);
        out.append("\n");
        assert(out@ =~= old(out)@ + test_text(test.commands.deep_view()));
    }

    pub fn render_about(&self, out: &mut String, about: &About)
        ensures
            final(out)@ == old(out)@ + about_text(about.deep_view()),
    {
        let ghost a = about.deep_view();
        out.append("about:\n");
        let ghost p0 = out@;
        append_opt_line(out, "home", &about.home);
        append_opt_line(out, "license", &about.license);
        append_opt_line(out, "license_family", &about.license_family);
        assert(out@ == p0 + opt_line("home"@, a.home) + opt_line("license"@, a.license) + opt_line(
            "license_family"@,
            a.license_family,
        )) by {
            assert(out@ =~= p0 + opt_line("home"@, a.home) + opt_line("license"@, a.license) + opt_line(
                "license_family"@,
                a.license_family,
            ));
        }
        let ghost p1 = out@;
        append_license_files(out, &about.license_file);
        let ghost p2 = out@;
        append_opt_line(out, "summary", &about.summary);
        append_opt_line(out, "dev_url", &about.dev_url);
        append_opt_line(out, "doc_url", &about.doc_url);
        out.append("\n");
        assert(out@ == p2 + opt_line("summary"@, a.summary) + opt_line("dev_url"@, a.dev_url)
            + opt_line("doc_url"@, a.doc_url) + "\n"@) by {
            assert(out@ =~= p2 + opt_line("summary"@, a.summary) + opt_line("dev_url"@, a.dev_url)
                + opt_line("doc_url"@, a.doc_url) + "\n"@);
        }
        assert(out@ =~= old(out)@ + about_text(a));
    }

    pub fn render_extra(&self, out: &mut String, extra: &Extra)
        ensures
            final(out)@ == old(out)@ + extra_text(extra.deep_view()),
    {
        if extra.additional_platforms.len() == 0 && extra.recipe_maintainers.len() == 0
            && extra.identifiers.len() == 0 && extra.skip_platforms.len() == 0 {
            assert(out@ =~= old(out)@ + extra_text(extra.deep_view()));
            return ;
        }
        out.append("extra:\n");
        append_list_section(out, "additional-platforms", &extra.additional_platforms);
        append_list_section(out, "recipe-maintainers", &extra.recipe_maintainers);
        append_list_section(out, "identifiers", &extra.identifiers);
        append_list_section(out, "skip-platforms", &extra.skip_platforms);
        out.append("\n");
        assert(out@ =~= old(out)@ + extra_text(extra.deep_view()));
    }
}


/// The about section opens with `about:` and closes with the development URL
/// line and then the documentation URL line, each key with its own field,
/// followed by a blank line.
pub proof fn law_about_url_lines(a: AboutView)
    ensures
        has_prefix(about_text(a), "about:\n"@),
        match (a.dev_url, a.doc_url) {
            (Some(u), Some(d)) => has_suffix(
                about_text(a),
                "  dev_url: "@ + u + "\n  doc_url: "@ + d + "\n\n"@,
            ),
            (Some(u), None) => has_suffix(about_text(a), "  dev_url: "@ + u + "\n\n"@),
            (None, Some(d)) => has_suffix(about_text(a), "  doc_url: "@ + d + "\n\n"@),
            (None, None) => true,
        },
{
    reveal(opt_line);
    reveal_strlit("about:\n");
    reveal_strlit("  ");
    reveal_strlit(": ");
    reveal_strlit("\n");
    reveal_strlit("dev_url");
    reveal_strlit("doc_url");
    reveal_strlit("  dev_url: ");
    reveal_strlit("  doc_url: ");
    reveal_strlit("\n  doc_url: ");
    reveal_strlit("\n\n");
    let t = about_text(a);
    let head = "about:\n"@ + opt_line("home"@, a.home) + opt_line("license"@, a.license) + opt_line(
        "license_family"@,
        a.license_family,
    ) + license_file_text(a.license_file) + opt_line("summary"@, a.summary);
    assert(t.subrange(0, 7) =~= "about:\n"@);
    match (a.dev_url, a.doc_url) {
        (Some(u), Some(d)) => {
            let tail = "  dev_url: "@ + u + "\n  doc_url: "@ + d + "\n\n"@;
            assert(t =~= head + tail);
            assert(t.subrange(t.len() - tail.len(), t.len() as int) =~= tail);
        },
        (Some(u), None) => {
            let tail = "  dev_url: "@ + u + "\n\n"@;
            assert(t =~= head + tail);
            assert(t.subrange(t.len() - tail.len(), t.len() as int) =~= tail);
        },
        (None, Some(d)) => {
            let tail = "  doc_url: "@ + d + "\n\n"@;
            assert(t =~= head + tail);
            assert(t.subrange(t.len() - tail.len(), t.len() as int) =~= tail);
        },
        (None, None) => {},
    }
}

proof fn lemma_sub_end(x: Seq<char>, line: Seq<char>)
    ensures
        has_sub(x + line, line),
{
    let t = x + line;
    assert(t.subrange(x.len() as int, (x.len() + line.len()) as int) =~= line);
    assert(occurs_at(t, line, x.len() as int));
}

proof fn lemma_sub_extend(x: Seq<char>, y: Seq<char>, line: Seq<char>)
    requires
        has_sub(x, line),
    ensures
        has_sub(x + y, line),
{
    let k = choose|k: int| #[trigger] occurs_at(x, line, k);
    assert((x + y).subrange(k, k + line.len()) =~= x.subrange(k, k + line.len()));
    assert(occurs_at(x + y, line, k));
}

proof fn lemma_about_home_line(a: AboutView, v: Seq<char>)
    requires
        a.home == Some(v),
    ensures
        has_sub(about_text(a), "  home: "@ + v + "\n"@),
{
    reveal(opt_line);
    reveal_strlit("  ");
    reveal_strlit(": ");
    reveal_strlit("home");
    reveal_strlit("  home: ");
    let line = "  home: "@ + v + "\n"@;
    assert(opt_line("home"@, a.home) =~= line);
    lemma_sub_end("about:\n"@, line);
    lemma_sub_extend("about:\n"@ + opt_line("home"@, a.home), opt_line("license"@, a.license), line);
    lemma_sub_extend("about:\n"@ + opt_line("home"@, a.home) + opt_line("license"@, a.license), opt_line("license_family"@, a.license_family), line);
    lemma_sub_extend("about:\n"@ + opt_line("home"@, a.home) + opt_line("license"@, a.license) + opt_line("license_family"@, a.license_family), license_file_text(a.license_file), line);
    lemma_sub_extend("about:\n"@ + opt_line("home"@, a.home) + opt_line("license"@, a.license) + opt_line("license_family"@, a.license_family) + license_file_text(a.license_file), opt_line("summary"@, a.summary), line);
    lemma_sub_extend("about:\n"@ + opt_line("home"@, a.home) + opt_line("license"@, a.license) + opt_line("license_family"@, a.license_family) + license_file_text(a.license_file) + opt_line("summary"@, a.summary), opt_line("dev_url"@, a.dev_url), line);
    lemma_sub_extend("about:\n"@ + opt_line("home"@, a.home) + opt_line("license"@, a.license) + opt_line("license_family"@, a.license_family) + license_file_text(a.license_file) + opt_line("summary"@, a.summary) + opt_line("dev_url"@, a.dev_url), opt_line("doc_url"@, a.doc_url), line);
    lemma_sub_extend("about:\n"@ + opt_line("home"@, a.home) + opt_line("license"@, a.license) + opt_line("license_family"@, a.license_family) + license_file_text(a.license_file) + opt_line("summary"@, a.summary) + opt_line("dev_url"@, a.dev_url) + opt_line("doc_url"@, a.doc_url), "\n"@, line);
}

proof fn lemma_about_license_line(a: AboutView, v: Seq<char>)
    requires
        a.license == Some(v),
    ensures
        has_sub(about_text(a), "  license: "@ + v + "\n"@),
{
    reveal(opt_line);
    reveal_strlit("  ");
    reveal_strlit(": ");
    reveal_strlit("license");
    reveal_strlit("  license: ");
    let line = "  license: "@ + v + "\n"@;
    assert(opt_line("license"@, a.license) =~= line);
    lemma_sub_end("about:\n"@ + opt_line("home"@, a.home), line);
    lemma_sub_extend("about:\n"@ + opt_line("home"@, a.home) + opt_line("license"@, a.license), opt_line("license_family"@, a.license_family), line);
    lemma_sub_extend("about:\n"@ + opt_line("home"@, a.home) + opt_line("license"@, a.license) + opt_line("license_family"@, a.license_family), license_file_text(a.license_file), line);
    lemma_sub_extend("about:\n"@ + opt_line("home"@, a.home) + opt_line("license"@, a.license) + opt_line("license_family"@, a.license_family) + license_file_text(a.license_file), opt_line("summary"@, a.summary), line);
    lemma_sub_extend("about:\n"@ + opt_line("home"@, a.home) + opt_line("license"@, a.license) + opt_line("license_family"@, a.license_family) + license_file_text(a.license_file) + opt_line("summary"@, a.summary), opt_line("dev_url"@, a.dev_url), line);
    lemma_sub_extend("about:\n"@ + opt_line("home"@, a.home) + opt_line("license"@, a.license) + opt_line("license_family"@, a.license_family) + license_file_text(a.license_file) + opt_line("summary"@, a.summary) + opt_line("dev_url"@, a.dev_url), opt_line("doc_url"@, a.doc_url), line);
    lemma_sub_extend("about:\n"@ + opt_line("home"@, a.home) + opt_line("license"@, a.license) + opt_line("license_family"@, a.license_family) + license_file_text(a.license_file) + opt_line("summary"@, a.summary) + opt_line("dev_url"@, a.dev_url) + opt_line("doc_url"@, a.doc_url), "\n"@, line);
}

proof fn lemma_about_license_family_line(a: AboutView, v: Seq<char>)
    requires
        a.license_family == Some(v),
    ensures
        has_sub(about_text(a), "  license_family: "@ + v + "\n"@),
{
    reveal(opt_line);
    reveal_strlit("  ");
    reveal_strlit(": ");
    reveal_strlit("license_family");
    reveal_strlit("  license_family: ");
    let line = "  license_family: "@ + v + "\n"@;
    assert(opt_line("license_family"@, a.license_family) =~= line);
    lemma_sub_end("about:\n"@ + opt_line("home"@, a.home) + opt_line("license"@, a.license), line);
    lemma_sub_extend("about:\n"@ + opt_line("home"@, a.home) + opt_line("license"@, a.license) + opt_line("license_family"@, a.license_family), license_file_text(a.license_file), line);
    lemma_sub_extend("about:\n"@ + opt_line("home"@, a.home) + opt_line("license"@, a.license) + opt_line("license_family"@, a.license_family) + license_file_text(a.license_file), opt_line("summary"@, a.summary), line);
    lemma_sub_extend("about:\n"@ + opt_line("home"@, a.home) + opt_line("license"@, a.license) + opt_line("license_family"@, a.license_family) + license_file_text(a.license_file) + opt_line("summary"@, a.summary), opt_line("dev_url"@, a.dev_url), line);
    lemma_sub_extend("about:\n"@ + opt_line("home"@, a.home) + opt_line("license"@, a.license) + opt_line("license_family"@, a.license_family) + license_file_text(a.license_file) + opt_line("summary"@, a.summary) + opt_line("dev_url"@, a.dev_url), opt_line("doc_url"@, a.doc_url), line);
    lemma_sub_extend("about:\n"@ + opt_line("home"@, a.home) + opt_line("license"@, a.license) + opt_line("license_family"@, a.license_family) + license_file_text(a.license_file) + opt_line("summary"@, a.summary) + opt_line("dev_url"@, a.dev_url) + opt_line("doc_url"@, a.doc_url), "\n"@, line);
}

proof fn lemma_about_summary_line(a: AboutView, v: Seq<char>)
    requires
        a.summary == Some(v),
    ensures
        has_sub(about_text(a), "  summary: "@ + v + "\n"@),
{
    reveal(opt_line);
    reveal_strlit("  ");
    reveal_strlit(": ");
    reveal_strlit("summary");
    reveal_strlit("  summary: ");
    let line = "  summary: "@ + v + "\n"@;
    assert(opt_line("summary"@, a.summary) =~= line);
    lemma_sub_end("about:\n"@ + opt_line("home"@, a.home) + opt_line("license"@, a.license) + opt_line("license_family"@, a.license_family) + license_file_text(a.license_file), line);
    lemma_sub_extend("about:\n"@ + opt_line("home"@, a.home) + opt_line("license"@, a.license) + opt_line("license_family"@, a.license_family) + license_file_text(a.license_file) + opt_line("summary"@, a.summary), opt_line("dev_url"@, a.dev_url), line);
    lemma_sub_extend("about:\n"@ + opt_line("home"@, a.home) + opt_line("license"@, a.license) + opt_line("license_family"@, a.license_family) + license_file_text(a.license_file) + opt_line("summary"@, a.summary) + opt_line("dev_url"@, a.dev_url), opt_line("doc_url"@, a.doc_url), line);
    lemma_sub_extend("about:\n"@ + opt_line("home"@, a.home) + opt_line("license"@, a.license) + opt_line("license_family"@, a.license_family) + license_file_text(a.license_file) + opt_line("summary"@, a.summary) + opt_line("dev_url"@, a.dev_url) + opt_line("doc_url"@, a.doc_url), "\n"@, line);
}

proof fn lemma_about_dev_url_line(a: AboutView, v: Seq<char>)
    requires
        a.dev_url == Some(v),
    ensures
        has_sub(about_text(a), "  dev_url: "@ + v + "\n"@),
{
    reveal(opt_line);
    reveal_strlit("  ");
    reveal_strlit(": ");
    reveal_strlit("dev_url");
    reveal_strlit("  dev_url: ");
    let line = "  dev_url: "@ + v + "\n"@;
    assert(opt_line("dev_url"@, a.dev_url) =~= line);
    lemma_sub_end("about:\n"@ + opt_line("home"@, a.home) + opt_line("license"@, a.license) + opt_line("license_family"@, a.license_family) + license_file_text(a.license_file) + opt_line("summary"@, a.summary), line);
    lemma_sub_extend("about:\n"@ + opt_line("home"@, a.home) + opt_line("license"@, a.license) + opt_line("license_family"@, a.license_family) + license_file_text(a.license_file) + opt_line("summary"@, a.summary) + opt_line("dev_url"@, a.dev_url), opt_line("doc_url"@, a.doc_url), line);
    lemma_sub_extend("about:\n"@ + opt_line("home"@, a.home) + opt_line("license"@, a.license) + opt_line("license_family"@, a.license_family) + license_file_text(a.license_file) + opt_line("summary"@, a.summary) + opt_line("dev_url"@, a.dev_url) + opt_line("doc_url"@, a.doc_url), "\n"@, line);
}

proof fn lemma_about_doc_url_line(a: AboutView, v: Seq<char>)
    requires
        a.doc_url == Some(v),
    ensures
        has_sub(about_text(a), "  doc_url: "@ + v + "\n"@),
{
    reveal(opt_line);
    reveal_strlit("  ");
    reveal_strlit(": ");
    reveal_strlit("doc_url");
    reveal_strlit("  doc_url: ");
    let line = "  doc_url: "@ + v + "\n"@;
    assert(opt_line("doc_url"@, a.doc_url) =~= line);
    lemma_sub_end("about:\n"@ + opt_line("home"@, a.home) + opt_line("license"@, a.license) + opt_line("license_family"@, a.license_family) + license_file_text(a.license_file) + opt_line("summary"@, a.summary) + opt_line("dev_url"@, a.dev_url), line);
    lemma_sub_extend("about:\n"@ + opt_line("home"@, a.home) + opt_line("license"@, a.license) + opt_line("license_family"@, a.license_family) + license_file_text(a.license_file) + opt_line("summary"@, a.summary) + opt_line("dev_url"@, a.dev_url) + opt_line("doc_url"@, a.doc_url), "\n"@, line);
}

/// Each field of the about section that has a value appears as the line of
/// its own key: the home page under `home`, the license under `license`, the
/// family under `license_family`, the summary under `summary`, the
/// repository under `dev_url` and the documentation under `doc_url`.
pub proof fn law_about_field_lines(a: AboutView)
    ensures
        a.home matches Some(v) ==> has_sub(about_text(a), "  home: "@ + v + "\n"@),
        a.license matches Some(v) ==> has_sub(about_text(a), "  license: "@ + v + "\n"@),
        a.license_family matches Some(v) ==> has_sub(about_text(a), "  license_family: "@ + v + "\n"@),
        a.summary matches Some(v) ==> has_sub(about_text(a), "  summary: "@ + v + "\n"@),
        a.dev_url matches Some(v) ==> has_sub(about_text(a), "  dev_url: "@ + v + "\n"@),
        a.doc_url matches Some(v) ==> has_sub(about_text(a), "  doc_url: "@ + v + "\n"@),
{
    if let Some(v) = a.home {
        lemma_about_home_line(a, v);
    }
    if let Some(v) = a.license {
        lemma_about_license_line(a, v);
    }
    if let Some(v) = a.license_family {
        lemma_about_license_family_line(a, v);
    }
    if let Some(v) = a.summary {
        lemma_about_summary_line(a, v);
    }
    if let Some(v) = a.dev_url {
        lemma_about_dev_url_line(a, v);
    }
    if let Some(v) = a.doc_url {
        lemma_about_doc_url_line(a, v);
    }
}

} // verus!
