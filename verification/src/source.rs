//! Source URL generation, GitHub tag handling and sha256 checksums.
use sha2::{Digest, Sha256};
use vstd::prelude::*;

use crate::json::{
    bool_in, bool_or_false, get_member, items_in, items_of, opt_value, str_in,
    str_of, JsonValue,
};
use crate::text::{
    after_last, after_last_char, contains, has_prefix, has_sub, has_suffix, last_index_of,
    lemma_last_index_of_bounds, lowercase, replace, replace_all, rfind_char, slice, to_lowercase,
};

verus! {

/// Parsed GitHub repository info.
pub struct GitHubRepo {
    pub owner: String,
    pub name: String,
}

/// Why a URL could not be read as a GitHub repository.
#[derive(Debug)]
pub enum SourceError {
    /// The URL does not mention github.com; holds the URL.
    NotGitHubUrl(String),
    /// No `owner/name` could be split off; holds the trimmed URL.
    UnparseableGitHubUrl(String),
    /// Neither releases nor tags gave a version-like tag; holds `owner/name`.
    NoVersionTags(String),
}

impl SourceError {
    /// A one-line description of the error.
    pub fn message(&self) -> (r: String)
        ensures
            r@ == (match self {
                SourceError::NotGitHubUrl(u) => "URL is not a GitHub URL: "@ + u@,
                SourceError::UnparseableGitHubUrl(u) => "Cannot parse GitHub URL: "@ + u@,
                SourceError::NoVersionTags(u) => "No version-like tags found for "@ + u@
                    + ". Use --tag to specify the release tag manually."@,
            }),
    {
        match self {
            SourceError::NotGitHubUrl(u) => {
                let mut r = String::from_str("URL is not a GitHub URL: ");
                r.append(u.as_str());
                r
            },
            SourceError::UnparseableGitHubUrl(u) => {
                let mut r = String::from_str("Cannot parse GitHub URL: ");
                r.append(u.as_str());
                r
            },
            SourceError::NoVersionTags(u) => {
                let mut r = String::from_str("No version-like tags found for ");
                r.append(u.as_str());
                r.append(". Use --tag to specify the release tag manually.");
                r
            },
        }
    }
}

/// `s` without its trailing run of `c` (`str::trim_end_matches` with a char).
pub open spec fn trim_end_char(s: Seq<char>, c: char) -> Seq<char>
    decreases s.len(),
{
    if s.len() > 0 && s.last() == c {
        trim_end_char(s.drop_last(), c)
    } else {
        s
    }
}

/// `s` without its trailing repetitions of a non-empty `p`
/// (`str::trim_end_matches` with a string).
pub open spec fn trim_end_seq(s: Seq<char>, p: Seq<char>) -> Seq<char>
    decreases s.len(),
{
    if p.len() > 0 && has_suffix(s, p) {
        trim_end_seq(s.take(s.len() - p.len()), p)
    } else {
        s
    }
}

/// A URL without trailing slashes and then without trailing `.git`.
pub open spec fn trimmed_url(url: Seq<char>) -> Seq<char> {
    trim_end_seq(trim_end_char(url, '/'), ".git"@)
}

/// The `(owner, name)` read off the last two path segments of a trimmed URL;
/// none when it holds no `/`.
pub open spec fn repo_parts(url: Seq<char>) -> Option<(Seq<char>, Seq<char>)> {
    let t = trimmed_url(url);
    let i = last_index_of(t, '/');
    if i < 0 {
        None
    } else {
        Some((after_last(t.take(i), '/'), t.skip(i + 1)))
    }
}

fn trim_end_char_exec(s: &str, c: char) -> (r: &str)
    ensures
        r@ == trim_end_char(s@, c),
{
    let mut j = s.unicode_len();
    assert(s@.take(j as int) =~= s@);
    while j > 0 && s.get_char(j - 1) == c
        invariant
            j <= s@.len(),
            trim_end_char(s@, c) == trim_end_char(s@.take(j as int), c),
        decreases j,
    {
        assert(s@.take(j as int).drop_last() =~= s@.take(j - 1));
        j = j - 1;
    }
    slice(s, 0, j)
}

fn trim_end_str_exec<'a>(s: &'a str, p: &str) -> (r: &'a str)
    ensures
        r@ == trim_end_seq(s@, p@),
{
    let m = p.unicode_len();
    let mut j = s.unicode_len();
    assert(s@.take(j as int) =~= s@);
    if m == 0 {
        return s;
    }
    loop
        invariant
            m == p@.len(),
            m > 0,
            j <= s@.len(),
            trim_end_seq(s@, p@) == trim_end_seq(s@.take(j as int), p@),
        decreases j,
    {
        let t = slice(s, 0, j);
        if crate::text::ends_with(t, p) {
            assert(s@.take(j as int).take(j - m) =~= s@.take(j - m));
            j = j - m;
        } else {
            return t;
        }
    }
}

impl GitHubRepo {
    /// Parse owner/name from a GitHub URL.
    /// Handles trailing slashes, .git suffix, and various URL formats.
    pub fn from_url(url: &str) -> (r: Result<Self, SourceError>)
        ensures
            !has_sub(url@, "github.com"@) ==> (r matches Err(SourceError::NotGitHubUrl(u))
                && u@ == url@),
            has_sub(url@, "github.com"@) && repo_parts(url@) is None ==> (r matches Err(
                SourceError::UnparseableGitHubUrl(u),
            ) && u@ == trimmed_url(url@)),
            has_sub(url@, "github.com"@) && repo_parts(url@) is Some ==> (r matches Ok(repo)
                && repo.owner@ == repo_parts(url@).unwrap().0 && repo.name@ == repo_parts(url@).unwrap().1),
    {
        if !contains(url, "github.com") {
            return Err(SourceError::NotGitHubUrl(String::from_str(url)));
        }
        let t = trim_end_str_exec(trim_end_char_exec(url, '/'), ".git");
        let n = t.unicode_len();
        proof {
            lemma_last_index_of_bounds(t@, '/');
        }
        match rfind_char(t, '/') {
            None => Err(SourceError::UnparseableGitHubUrl(String::from_str(t))),
            Some(i) => {
                let name = slice(t, i + 1, n);
                let rest = slice(t, 0, i);
                assert(rest@ =~= t@.take(i as int));
                assert(name@ =~= t@.skip(i + 1));
                let owner = after_last_char(rest, '/');
                Ok(GitHubRepo { owner: String::from_str(owner), name: String::from_str(name) })
            },
        }
    }
}

/// `https://github.com/<owner>/<name>`
pub open spec fn repo_home(owner: Seq<char>, name: Seq<char>) -> Seq<char> {
    "https://github.com/"@ + owner + "/"@ + name
}

/// The archive URL of a repository for a version and a tag prefix.
pub open spec fn archive_url(owner: Seq<char>, name: Seq<char>, tag: Seq<char>) -> Seq<char> {
    repo_home(owner, name) + "/archive/"@ + tag + ".tar.gz"@
}

/// `https://github.com/<owner>/<name>` followed by `rest`.
fn repo_url_with(repo: &GitHubRepo, rest: &str) -> (r: String)
    ensures
        r@ == repo_home(repo.owner@, repo.name@) + rest@,
{
    let mut r = String::from_str("https://github.com/");
    r.append(repo.owner.as_str());
    r.append("/");
    r.append(repo.name.as_str());
    r.append(rest);
    r
}

/// Construct a GitHub archive URL for a given tag/version with a tag prefix.
pub fn github_archive_url(repo: &GitHubRepo, version: &str, tag_prefix: &str) -> (r: String)
    ensures
        r@ == archive_url(repo.owner@, repo.name@, tag_prefix@ + version@),
{
    let mut r = repo_url_with(repo, "/archive/");
    r.append(tag_prefix);
    r.append(version);
    r.append(".tar.gz");
    r
}

/// The public archive URL of a repository at a tag.
pub fn tag_archive_url(repo: &GitHubRepo, tag: &str) -> (r: String)
    ensures
        r@ == archive_url(repo.owner@, repo.name@, tag@),
{
    let mut r = repo_url_with(repo, "/archive/");
    r.append(tag);
    r.append(".tar.gz");
    r
}

/// `https://api.github.com/repos/<owner>/<name>` followed by `rest`.
pub open spec fn api_url(owner: Seq<char>, name: Seq<char>, rest: Seq<char>) -> Seq<char> {
    "https://api.github.com/repos/"@ + owner + "/"@ + name + rest
}

fn api_url_with(repo: &GitHubRepo, rest: &str) -> (r: String)
    ensures
        r@ == api_url(repo.owner@, repo.name@, rest@),
{
    let mut r = String::from_str("https://api.github.com/repos/");
    r.append(repo.owner.as_str());
    r.append("/");
    r.append(repo.name.as_str());
    r.append(rest);
    r
}

/// The API tarball endpoint of a repository at a tag (works for private
/// repositories when authenticated).
pub fn api_tarball_url(repo: &GitHubRepo, tag: &str) -> (r: String)
    ensures
        r@ == api_url(repo.owner@, repo.name@, "/tarball/"@ + tag@),
{
    let mut rest = String::from_str("/tarball/");
    rest.append(tag);
    api_url_with(repo, rest.as_str())
}

/// The Trees API URL listing a repository recursively at a tag.
pub fn tree_api_url(repo: &GitHubRepo, tag: &str) -> (r: String)
    ensures
        r@ == api_url(repo.owner@, repo.name@, "/git/trees/"@ + tag@ + "?recursive=1"@),
{
    let mut rest = String::from_str("/git/trees/");
    rest.append(tag);
    rest.append("?recursive=1");
    api_url_with(repo, rest.as_str())
}

/// The releases API URL (ten most recent).
pub fn releases_api_url(repo: &GitHubRepo) -> (r: String)
    ensures
        r@ == api_url(repo.owner@, repo.name@, "/releases?per_page=10"@),
{
    api_url_with(repo, "/releases?per_page=10")
}

/// The tags API URL (ten most recent).
pub fn tags_api_url(repo: &GitHubRepo) -> (r: String)
    ensures
        r@ == api_url(repo.owner@, repo.name@, "/tags?per_page=10"@),
{
    api_url_with(repo, "/tags?per_page=10")
}

/// The raw URL of a file of a repository at a tag.
pub fn raw_file_url(repo: &GitHubRepo, tag: &str, path: &str) -> (r: String)
    ensures
        r@ == "https://raw.githubusercontent.com/"@ + repo.owner@ + "/"@ + repo.name@ + "/"@
            + tag@ + "/"@ + path@,
{
    let mut r = String::from_str("https://raw.githubusercontent.com/");
    r.append(repo.owner.as_str());
    r.append("/");
    r.append(repo.name.as_str());
    r.append("/");
    r.append(tag);
    r.append("/");
    r.append(path);
    r
}

/// The jinja template of a tag: every occurrence of the version replaced by
/// `{{ version }}`; the tag itself when it does not contain the version.
pub open spec fn jinja_tag(tag: Seq<char>, version: Seq<char>) -> Seq<char> {
    if has_sub(tag, version) {
        replace_all(tag, version, "{{ version }}"@)
    } else {
        tag
    }
}

/// Replace the version portion of a tag with the jinja `{{ version }}` placeholder.
/// If the tag does not contain the version, returns the literal tag.
pub fn tag_to_jinja_template(tag: &str, version: &str) -> (r: String)
    ensures
        r@ == jinja_tag(tag@, version@),
{
    if contains(tag, version) {
        replace(tag, version, "{{ version }}")
    } else {
        String::from_str(tag)
    }
}

/// A README URL on GitHub for a repository at a tag, with the version part of
/// the tag templated so the URL follows new releases.
pub fn readme_doc_url(repo: &GitHubRepo, tag: &str, version: &str) -> (r: String)
    ensures
        r@ == repo_home(repo.owner@, repo.name@) + "/blob/"@ + jinja_tag(tag@, version@)
            + "/README.md"@,
{
    let template_tag = tag_to_jinja_template(tag, version);
    let mut r = repo_url_with(repo, "/blob/");
    r.append(template_tag.as_str());
    r.append("/README.md");
    r
}

/// The URL template of a GitHub source: the archive URL (under
/// `archive/refs/tags` when asked) with the version part of the tag templated.
pub open spec fn source_url_template(
    owner: Seq<char>,
    name: Seq<char>,
    tag: Seq<char>,
    version: Seq<char>,
    use_refs_tags: bool,
) -> Seq<char> {
    repo_home(owner, name) + "/"@ + (if use_refs_tags {
        "archive/refs/tags"@
    } else {
        "archive"@
    }) + "/"@ + jinja_tag(tag, version) + ".tar.gz"@
}

/// Construct a crates.io download URL.
pub fn crates_io_url(base_url: &str, dl_path: &str) -> (r: String)
    ensures
        r@ == base_url@ + dl_path@,
{
    let mut r = String::from_str(base_url);
    r.append(dl_path);
    r
}

/// The tags to try for a version: the override alone when given, otherwise
/// the `v`-prefixed version and then the bare version.
pub fn candidate_tags(version: &str, tag_override: Option<&str>) -> (r: Vec<String>)
    ensures
        tag_override is Some ==> r@.len() == 1 && r@[0]@ == tag_override.unwrap()@,
        tag_override is None ==> r@.len() == 2 && r@[0]@ == "v"@ + version@ && r@[1]@
            == version@,
{
    let mut r: Vec<String> = Vec::new();
    match tag_override {
        Some(t) => {
            r.push(String::from_str(t));
        },
        None => {
            let mut v = String::from_str("v");
            v.append(version);
            r.push(v);
            r.push(String::from_str(version));
        },
    }
    r
}

/// A tag without its version prefix: `v.` is stripped before `v`.
pub open spec fn version_of_tag(tag: Seq<char>) -> Seq<char> {
    if has_prefix(tag, "v."@) {
        tag.skip(2)
    } else if has_prefix(tag, "v"@) {
        tag.skip(1)
    } else {
        tag
    }
}

/// An ASCII decimal digit.
pub open spec fn is_digit(c: char) -> bool {
    '0' <= c && c <= '9'
}

/// Strip a version prefix (`v` or `v.`) from a tag to get a bare version string.
/// Handles `v1.2.3`, `v.1.2.3`, and bare `1.2.3` patterns.
pub fn tag_to_version(tag: &str) -> (r: String)
    ensures
        r@ == version_of_tag(tag@),
{
    let n = tag.unicode_len();
    if crate::text::starts_with(tag, "v.") {
        proof {
            reveal_strlit("v.");
        }
        String::from_str(slice(tag, 2, n))
    } else if crate::text::starts_with(tag, "v") {
        proof {
            reveal_strlit("v");
        }
        String::from_str(slice(tag, 1, n))
    } else {
        assert(tag@.subrange(0, n as int) =~= tag@);
        String::from_str(slice(tag, 0, n))
    }
}

/// A `-v` followed by a digit starts at position `i` of the tag (a tool
/// prefix such as `tool-v1.2.3`).
pub open spec fn prefixed_version_at(tag: Seq<char>, i: int) -> bool {
    0 <= i && i + 2 < tag.len() && tag[i] == '-' && tag[i + 1] == 'v' && is_digit(tag[i + 2])
}

/// The tag, without its version prefix, starts with a digit, or a tool
/// prefix ending in `-v` is followed by a digit.
pub open spec fn version_like(tag: Seq<char>) -> bool {
    (version_of_tag(tag).len() > 0 && is_digit(version_of_tag(tag)[0])) || exists|i: int|
        #[trigger] prefixed_version_at(tag, i)
}

/// Returns true if the given string looks like a version tag.
/// Matches patterns like `v1.2.3`, `1.2.3`, `v.1.2.3`, `tool-v1.2.3`, etc.
/// Returns false for tags like `latest`, `nightly`, `stable`.
pub fn looks_like_version_tag(tag: &str) -> (r: bool)
    ensures
        r == version_like(tag@),
{
    let v = tag_to_version(tag);
    let s = v.as_str();
    if s.unicode_len() > 0 && '0' <= s.get_char(0) && s.get_char(0) <= '9' {
        return true;
    }
    let n = tag.unicode_len();
    let mut i: usize = 0;
    while i < n && n - i > 2
        invariant
            n == tag@.len(),
            forall|k: int| 0 <= k < i ==> !prefixed_version_at(tag@, k),
        decreases n - i,
    {
        let c = tag.get_char(i + 2);
        if tag.get_char(i) == '-' && tag.get_char(i + 1) == 'v' && '0' <= c && c <= '9' {
            assert(prefixed_version_at(tag@, i as int));
            return true;
        }
        i = i + 1;
    }
    assert forall|k: int| !prefixed_version_at(tag@, k) by {
        if k >= i as int && prefixed_version_at(tag@, k) {
            assert(k + 2 < n);
            assert(i < n && n - i > 2);
        }
    }
    false
}

/// A lower-cased tag carries a pre-release marker.
pub open spec fn prerelease_marker(lower: Seq<char>) -> bool {
    has_sub(lower, "-alpha"@) || has_sub(lower, "-beta"@) || has_sub(lower, "-rc"@) || has_sub(
        lower,
        "-dev"@,
    ) || has_sub(lower, "-pre"@) || has_sub(lower, ".alpha"@) || has_sub(lower, ".beta"@)
        || has_sub(lower, ".rc"@)
}

/// Whether a lower-cased tag carries one of the pre-release markers
/// -alpha, -beta, -rc, -dev, -pre, .alpha, .beta, .rc.
pub fn has_prerelease_marker(lower: &str) -> (r: bool)
    ensures
        r == prerelease_marker(lower@),
{
    contains(lower, "-alpha") || contains(lower, "-beta") || contains(lower, "-rc") || contains(
        lower,
        "-dev",
    ) || contains(lower, "-pre") || contains(lower, ".alpha") || contains(lower, ".beta")
        || contains(lower, ".rc")
}

/// Returns true if the tag looks like a pre-release version.
/// Detects common pre-release suffixes: -alpha, -beta, -rc, -dev, -pre.
pub fn is_prerelease_tag(tag: &str) -> (r: bool)
    ensures
        r == prerelease_marker(lowercase(tag@)),
{
    let lower = to_lowercase(tag);
    has_prerelease_marker(lower.as_str())
}

/// A separator of version segments.
pub open spec fn is_version_sep(c: char) -> bool {
    c == '.' || c == '-'
}

/// The pieces of `s` between separators (what `split(['.', '-'])` yields).
pub open spec fn version_segments(s: Seq<char>) -> Seq<Seq<char>>
    decreases s.len(),
{
    if s.len() == 0 {
        seq![seq![]]
    } else {
        let prev = version_segments(s.drop_last());
        if is_version_sep(s.last()) {
            prev.push(seq![])
        } else {
            prev.update(prev.len() - 1, prev.last().push(s.last()))
        }
    }
}

/// The value of a string of decimal digits.
pub open spec fn digits_value(d: Seq<char>) -> nat
    decreases d.len(),
{
    if d.len() == 0 {
        0
    } else {
        digits_value(d.drop_last()) * 10 + (d.last() as int - '0' as int) as nat
    }
}

/// All characters are decimal digits.
pub open spec fn all_digits(d: Seq<char>) -> bool {
    forall|i: int| 0 <= i < d.len() ==> is_digit(#[trigger] d[i])
}

/// What `str::parse::<u64>` gives for a segment: an optional `+`, then one or
/// more digits whose value fits in a u64.
pub open spec fn parse_u64(seg: Seq<char>) -> Option<nat> {
    let d = if seg.len() > 0 && seg[0] == '+' {
        seg.drop_first()
    } else {
        seg
    };
    if d.len() > 0 && all_digits(d) && digits_value(d) <= u64::MAX {
        Some(digits_value(d))
    } else {
        None
    }
}

/// The numbers of the segments that parse, in order.
pub open spec fn parsed_segments(segs: Seq<Seq<char>>) -> Seq<nat>
    decreases segs.len(),
{
    if segs.len() == 0 {
        seq![]
    } else {
        parsed_segments(segs.drop_last()) + match parse_u64(segs.last()) {
            Some(v) => seq![v],
            None => seq![],
        }
    }
}

/// The numeric segments of a version string.
pub open spec fn version_numbers(s: Seq<char>) -> Seq<nat> {
    parsed_segments(version_segments(s))
}

/// `a` comes after `b` in the lexicographic order of sequences.
pub open spec fn seq_gt(a: Seq<nat>, b: Seq<nat>) -> bool
    decreases a.len(),
{
    if a.len() == 0 {
        false
    } else if b.len() == 0 {
        true
    } else if a[0] != b[0] {
        a[0] > b[0]
    } else {
        seq_gt(a.drop_first(), b.drop_first())
    }
}

proof fn lemma_digits_value_mono(d: Seq<char>, k: int)
    requires
        0 <= k <= d.len(),
    ensures
        digits_value(d.take(k)) <= digits_value(d),
    decreases d.len(),
{
    if k < d.len() {
        assert(d.drop_last().take(k) =~= d.take(k));
        lemma_digits_value_mono(d.drop_last(), k);
    } else {
        assert(d.take(k) =~= d);
    }
}

fn parse_u64_exec(seg: &str) -> (r: Option<u64>)
    ensures
        match r {
            Some(v) => parse_u64(seg@) == Some(v as nat),
            None => parse_u64(seg@) is None,
        },
{
    let n = seg.unicode_len();
    let start: usize = if n > 0 && seg.get_char(0) == '+' {
        1
    } else {
        0
    };
    let ghost d = seg@.skip(start as int);
    assert(d =~= (if seg@.len() > 0 && seg@[0] == '+' {
        seg@.drop_first()
    } else {
        seg@
    }));
    if start == n {
        return None;
    }
    let mut i = start;
    let mut v: u64 = 0;
    while i < n
        invariant
            start <= i <= n,
            n == seg@.len(),
            d == seg@.skip(start as int),
            d == (if seg@.len() > 0 && seg@[0] == '+' {
                seg@.drop_first()
            } else {
                seg@
            }),
            v == digits_value(d.take(i - start)),
            all_digits(d.take(i - start)),
        decreases n - i,
    {
        let c = seg.get_char(i);
        assert(d[i - start] == c);
        if !('0' <= c && c <= '9') {
            assert(!all_digits(d));
            return None;
        }
        let dig = (c as u32 - '0' as u32) as u64;
        let ghost next = d.take(i - start + 1);
        assert(next.drop_last() =~= d.take(i - start));
        assert(next.last() == c);
        if v > (u64::MAX - dig) / 10 {
            proof {
                lemma_digits_value_mono(d, i - start + 1);
                assert(digits_value(next) == v * 10 + dig);
            }
            return None;
        }
        v = v * 10 + dig;
        i = i + 1;
    }
    assert(d.take(n - start) =~= d);
    Some(v)
}

/// Numeric segments of a version string, split on `.` and `-`, keeping those
/// that parse as u64.
fn version_numbers_exec(s: &str) -> (r: Vec<u64>)
    ensures
        r@.map_values(|x: u64| x as nat) == version_numbers(s@),
{
    let n = s.unicode_len();
    let mut out: Vec<u64> = Vec::new();
    let mut start: usize = 0;
    let mut i: usize = 0;
    let ghost mut done: Seq<Seq<char>> = seq![];
    assert(s@.take(0) =~= seq![]);
    while i < n
        invariant
            start <= i <= n,
            n == s@.len(),
            version_segments(s@.take(i as int)) == done.push(s@.subrange(start as int, i as int)),
            out@.map_values(|x: u64| x as nat) == parsed_segments(done),
        decreases n - i,
    {
        let c = s.get_char(i);
        let ghost cur = s@.take(i + 1);
        assert(cur.drop_last() =~= s@.take(i as int));
        assert(cur.last() == c);
        if c == '.' || c == '-' {
            let seg = slice(s, start, i);
            let ghost before = out@;
            match parse_u64_exec(seg) {
                Some(v) => {
                    out.push(v);
                    assert(out@.map_values(|x: u64| x as nat) =~= before.map_values(
                        |x: u64| x as nat,
                    ) + seq![v as nat]);
                },
                None => {},
            }
            proof {
                let nd = done.push(s@.subrange(start as int, i as int));
                assert(nd.drop_last() =~= done);
                done = nd;
                assert(s@.subrange(i + 1, i + 1) =~= seq![]);
            }
            start = i + 1;
        } else {
            assert(s@.subrange(start as int, i + 1) =~= s@.subrange(start as int, i as int).push(c));
        }
        i = i + 1;
    }
    assert(s@.take(n as int) =~= s@);
    let seg = slice(s, start, n);
    let ghost before = out@;
    let ghost all = done.push(s@.subrange(start as int, n as int));
    assert(all.drop_last() =~= done);
    match parse_u64_exec(seg) {
        Some(v) => {
            out.push(v);
            assert(out@.map_values(|x: u64| x as nat) =~= before.map_values(|x: u64| x as nat)
                + seq![v as nat]);
        },
        None => {},
    }
    out
}

fn seq_gt_exec(a: &Vec<u64>, b: &Vec<u64>) -> (r: bool)
    ensures
        r == seq_gt(a@.map_values(|x: u64| x as nat), b@.map_values(|x: u64| x as nat)),
{
    let ghost av = a@.map_values(|x: u64| x as nat);
    let ghost bv = b@.map_values(|x: u64| x as nat);
    let mut i: usize = 0;
    assert(av.skip(0) =~= av);
    assert(bv.skip(0) =~= bv);
    loop
        invariant
            i <= a.len(),
            i <= b.len(),
            av == a@.map_values(|x: u64| x as nat),
            bv == b@.map_values(|x: u64| x as nat),
            seq_gt(av, bv) == seq_gt(av.skip(i as int), bv.skip(i as int)),
        decreases a.len() - i,
    {
        if i == a.len() {
            return false;
        }
        if i == b.len() {
            return true;
        }
        assert(av.skip(i as int)[0] == a@[i as int] as nat);
        assert(bv.skip(i as int)[0] == b@[i as int] as nat);
        if a[i] != b[i] {
            return a[i] > b[i];
        }
        assert(av.skip(i as int).drop_first() =~= av.skip(i + 1));
        assert(bv.skip(i as int).drop_first() =~= bv.skip(i + 1));
        i = i + 1;
    }
}

/// Compare two version strings, returning true if `a` is greater than `b`.
/// Splits on `.` and `-`, compares segments numerically where possible.
pub fn compare_version_strings(a: &str, b: &str) -> (r: bool)
    ensures
        r == seq_gt(version_numbers(a@), version_numbers(b@)),
{
    let sa = version_numbers_exec(a);
    let sb = version_numbers_exec(b);
    seq_gt_exec(&sa, &sb)
}

/// What SHA-256 gives for a byte string.
pub uninterp spec fn sha256(bytes: Seq<u8>) -> Seq<u8>;

/// Calls `sha2::Sha256::digest`; the contract claims only that the result is
/// the fixed SHA-256 digest of the bytes, named `sha256`, and that it is 32
/// bytes long, as a SHA-256 digest always is.
#[verifier::external_body]
fn sha256_digest(bytes: &[u8]) -> (r: Vec<u8>)
    ensures
        r@ == sha256(bytes@),
        r@.len() == 32,
{
    Sha256::digest(bytes).to_vec()
}

/// The lower-case hexadecimal digit of `d < 16`.
pub open spec fn hex_digit(d: int) -> char {
    "0123456789abcdef"@[d]
}

/// The lower-case hexadecimal form of bytes, two digits per byte.
pub open spec fn hex_of(b: Seq<u8>) -> Seq<char>
    decreases b.len(),
{
    if b.len() == 0 {
        seq![]
    } else {
        hex_of(b.drop_last()) + seq![hex_digit((b.last() / 16) as int), hex_digit((b.last() % 16) as int)]
    }
}

/// An ASCII hexadecimal digit, either case.
pub open spec fn is_hex_char(c: char) -> bool {
    is_digit(c) || ('a' <= c && c <= 'f') || ('A' <= c && c <= 'F')
}

/// 64 hexadecimal digits.
pub open spec fn valid_sha256(s: Seq<char>) -> bool {
    s.len() == 64 && forall|i: int| 0 <= i < s.len() ==> is_hex_char(#[trigger] s[i])
}

proof fn lemma_hex_of(b: Seq<u8>)
    ensures
        hex_of(b).len() == 2 * b.len(),
        forall|i: int| 0 <= i < hex_of(b).len() ==> is_hex_char(#[trigger] hex_of(b)[i]),
    decreases b.len(),
{
    reveal_strlit("0123456789abcdef");
    if b.len() > 0 {
        lemma_hex_of(b.drop_last());
        let prev = hex_of(b.drop_last());
        let hi = b.last() / 16;
        let lo = b.last() % 16;
        assert(is_hex_char(hex_digit(hi as int)));
        assert(is_hex_char(hex_digit(lo as int)));
        assert forall|i: int| 0 <= i < hex_of(b).len() implies is_hex_char(#[trigger] hex_of(b)[i]) by {
            if i < prev.len() {
                assert(hex_of(b)[i] == prev[i]);
            }
        }
    }
}

fn hex_lower(bytes: &Vec<u8>) -> (r: String)
    ensures
        r@ == hex_of(bytes@),
{
    let digits = "0123456789abcdef";
    proof {
        reveal_strlit("0123456789abcdef");
    }
    let mut r = String::new();
    let mut i: usize = 0;
    assert(bytes@.take(0) =~= seq![]);
    while i < bytes.len()
        invariant
            i <= bytes.len(),
            digits@ == "0123456789abcdef"@,
            digits@.len() == 16,
            r@ == hex_of(bytes@.take(i as int)),
        decreases bytes.len() - i,
    {
        let b = bytes[i];
        let hi = (b / 16) as usize;
        let lo = (b % 16) as usize;
        r.append(slice(digits, hi, hi + 1));
        r.append(slice(digits, lo, lo + 1));
        let ghost cur = bytes@.take(i + 1);
        assert(cur.drop_last() =~= bytes@.take(i as int));
        assert(cur.last() == b);
        assert(r@ =~= hex_of(cur));
        i = i + 1;
    }
    assert(bytes@.take(bytes.len() as int) =~= bytes@);
    r
}

/// Compute the SHA256 hex digest of bytes; the digest is always a valid one.
pub fn sha256_hex(bytes: &[u8]) -> (r: String)
    ensures
        r@ == hex_of(sha256(bytes@)),
        valid_sha256(r@),
{
    let digest = sha256_digest(bytes);
    proof {
        lemma_hex_of(digest@);
    }
    hex_lower(&digest)
}

/// Returns true if the given string looks like a valid SHA256 hex digest.
pub fn is_valid_sha256(hash: &str) -> (r: bool)
    ensures
        r == valid_sha256(hash@),
{
    let n = hash.unicode_len();
    if n != 64 {
        return false;
    }
    let mut i: usize = 0;
    while i < n
        invariant
            i <= n,
            n == hash@.len(),
            forall|k: int| 0 <= k < i ==> is_hex_char(#[trigger] hash@[k]),
        decreases n - i,
    {
        let c = hash.get_char(i);
        if !(('0' <= c && c <= '9') || ('a' <= c && c <= 'f') || ('A' <= c && c <= 'F')) {
            assert(!is_hex_char(hash@[i as int]));
            return false;
        }
        i = i + 1;
    }
    true
}

/// Resolved GitHub source info.
pub struct ResolvedGitHubSource {
    /// URL template with `{{ version }}` jinja placeholder.
    pub url_template: String,
    /// SHA256 hash of the archive.
    pub sha256: String,
    /// The resolved tag (e.g., "v0.3.1" or "0.3.1").
    pub tag: String,
}

/// The source resolved from the archive downloaded for a tag: the URL
/// template (the version part of the tag templated, under
/// `archive/refs/tags` when asked) and the archive's SHA256.
pub fn resolve_with_archive(
    repo: &GitHubRepo,
    version: &str,
    tag: &str,
    use_refs_tags: bool,
    archive: &[u8],
) -> (r: ResolvedGitHubSource)
    ensures
        r.url_template@ == source_url_template(
            repo.owner@,
            repo.name@,
            tag@,
            version@,
            use_refs_tags,
        ),
        r.sha256@ == hex_of(sha256(archive@)),
        r.tag@ == tag@,
{
    let hash = sha256_hex(archive);
    let template_tag = tag_to_jinja_template(tag, version);
    let mut url = repo_url_with(repo, "/");
    if use_refs_tags {
        url.append("archive/refs/tags");
    } else {
        url.append("archive");
    }
    url.append("/");
    url.append(template_tag.as_str());
    url.append(".tar.gz");
    ResolvedGitHubSource { url_template: url, sha256: hash, tag: String::from_str(tag) }
}

/// Of a release tag and a ref tag, the one to build from: the ref tag when
/// its version compares greater, otherwise the release tag.
pub open spec fn newer_of(release: Seq<char>, tag: Seq<char>) -> Seq<char> {
    if seq_gt(version_numbers(version_of_tag(tag)), version_numbers(version_of_tag(release))) {
        tag
    } else {
        release
    }
}

/// The tag to build from, given the first stable release tag and the first
/// stable ref tag that were found: the newer of the two when both were found.
pub open spec fn latest_tag_choice(release: Option<Seq<char>>, tag: Option<Seq<char>>) -> Option<
    Seq<char>,
> {
    match (release, tag) {
        (Some(r), Some(t)) => Some(newer_of(r, t)),
        (Some(r), None) => Some(r),
        (None, Some(t)) => Some(t),
        (None, None) => None,
    }
}

/// Pick between a release tag and a ref tag, preferring the newer version.
pub fn choose_latest_tag(release: Option<&str>, tag: Option<&str>) -> (r: Option<String>)
    ensures
        match r {
            Some(x) => latest_tag_choice(opt_view(release), opt_view(tag)) == Some(x@),
            None => latest_tag_choice(opt_view(release), opt_view(tag)) is None,
        },
{
    match (release, tag) {
        (Some(r), Some(t)) => {
            let rv = tag_to_version(r);
            let tv = tag_to_version(t);
            if compare_version_strings(tv.as_str(), rv.as_str()) {
                Some(String::from_str(t))
            } else {
                Some(String::from_str(r))
            }
        },
        (Some(r), None) => Some(String::from_str(r)),
        (None, Some(t)) => Some(String::from_str(t)),
        (None, None) => None,
    }
}

/// The view of an optional string.
pub open spec fn opt_view(o: Option<&str>) -> Option<Seq<char>> {
    match o {
        Some(s) => Some(s@),
        None => None,
    }
}

proof fn lemma_seq_gt_irreflexive(a: Seq<nat>)
    ensures
        !seq_gt(a, a),
    decreases a.len(),
{
    if a.len() > 0 {
        lemma_seq_gt_irreflexive(a.drop_first());
    }
}

proof fn lemma_seq_gt_asymmetric(a: Seq<nat>, b: Seq<nat>)
    requires
        seq_gt(a, b),
    ensures
        !seq_gt(b, a),
    decreases a.len(),
{
    if a.len() > 0 && b.len() > 0 && a[0] == b[0] {
        lemma_seq_gt_asymmetric(a.drop_first(), b.drop_first());
    }
}

proof fn lemma_seq_gt_transitive(a: Seq<nat>, b: Seq<nat>, c: Seq<nat>)
    requires
        seq_gt(a, b),
        seq_gt(b, c),
    ensures
        seq_gt(a, c),
    decreases a.len(),
{
    if c.len() > 0 && a[0] == b[0] && b[0] == c[0] {
        lemma_seq_gt_transitive(a.drop_first(), b.drop_first(), c.drop_first());
    }
}

proof fn lemma_seq_gt_total(a: Seq<nat>, b: Seq<nat>)
    requires
        a != b,
    ensures
        seq_gt(a, b) || seq_gt(b, a),
    decreases a.len(),
{
    if a.len() > 0 && b.len() > 0 && a[0] == b[0] {
        if a.drop_first() == b.drop_first() {
            assert(a =~= seq![a[0]] + a.drop_first());
            assert(b =~= seq![b[0]] + b.drop_first());
        }
        lemma_seq_gt_total(a.drop_first(), b.drop_first());
    } else if a.len() == 0 && b.len() == 0 {
        assert(a =~= b);
    }
}

/// Version comparison is a strict order: no version is greater than itself,
/// a greater version is never also smaller, and greater-than chains.
pub proof fn law_version_comparison_strict_order(a: Seq<char>, b: Seq<char>, c: Seq<char>)
    ensures
        !seq_gt(version_numbers(a), version_numbers(a)),
        seq_gt(version_numbers(a), version_numbers(b)) ==> !seq_gt(
            version_numbers(b),
            version_numbers(a),
        ),
        seq_gt(version_numbers(a), version_numbers(b)) && seq_gt(
            version_numbers(b),
            version_numbers(c),
        ) ==> seq_gt(version_numbers(a), version_numbers(c)),
{
    lemma_seq_gt_irreflexive(version_numbers(a));
    if seq_gt(version_numbers(a), version_numbers(b)) {
        lemma_seq_gt_asymmetric(version_numbers(a), version_numbers(b));
        if seq_gt(version_numbers(b), version_numbers(c)) {
            lemma_seq_gt_transitive(version_numbers(a), version_numbers(b), version_numbers(c));
        }
    }
}

/// Two versions with different numeric segments are always ordered one way
/// or the other.
pub proof fn law_version_comparison_total(a: Seq<char>, b: Seq<char>)
    requires
        version_numbers(a) != version_numbers(b),
    ensures
        seq_gt(version_numbers(a), version_numbers(b)) || seq_gt(
            version_numbers(b),
            version_numbers(a),
        ),
{
    lemma_seq_gt_total(version_numbers(a), version_numbers(b));
}

proof fn lemma_last_slash_at(s: Seq<char>, i: int)
    requires
        0 <= i < s.len(),
        s[i] == '/',
        forall|k: int| i < k < s.len() ==> s[k] != '/',
    ensures
        last_index_of(s, '/') == i,
{
    lemma_last_index_of_bounds(s, '/');
    let li = last_index_of(s, '/');
    if li > i {
        assert(s[li] == '/');
    }
    if li < i {
        assert(s[i] != '/');
    }
}

/// Trailing slashes do not change the repository read off a URL.
pub proof fn law_repo_parts_ignore_trailing_slash(url: Seq<char>)
    ensures
        repo_parts(url + "/"@) == repo_parts(url),
{
    reveal_strlit("/");
    let u = url + "/"@;
    assert(u.drop_last() =~= url);
    assert(trim_end_char(u, '/') == trim_end_char(url, '/'));
}

/// A trailing `.git` does not change the repository read off a URL that does
/// not end with a slash.
pub proof fn law_repo_parts_ignore_dot_git(url: Seq<char>)
    requires
        url.len() > 0 ==> url.last() != '/',
    ensures
        repo_parts(url + ".git"@) == repo_parts(url),
{
    reveal_strlit(".git");
    let u = url + ".git"@;
    assert(u.last() == 't');
    assert(trim_end_char(u, '/') == u);
    assert(trim_end_char(url, '/') == url);
    assert(u.subrange(u.len() - 4, u.len() as int) =~= ".git"@);
    assert(u.take(u.len() - 4) =~= url);
    assert(trim_end_seq(u, ".git"@) == trim_end_seq(url, ".git"@));
}

/// A repository's GitHub home URL mentions github.com and reads back as the
/// same owner and name, for names that hold no slash, are not empty and do
/// not end with `.git`, and owners that hold no slash.
pub proof fn law_repo_home_round_trip(owner: Seq<char>, name: Seq<char>)
    requires
        forall|k: int| 0 <= k < owner.len() ==> owner[k] != '/',
        forall|k: int| 0 <= k < name.len() ==> name[k] != '/',
        name.len() > 0,
        !has_suffix(name, ".git"@),
    ensures
        has_sub(repo_home(owner, name), "github.com"@),
        repo_parts(repo_home(owner, name)) == Some((owner, name)),
{
    reveal_strlit("https://github.com/");
    reveal_strlit("/");
    reveal_strlit(".git");
    reveal_strlit("github.com");
    let p = "https://github.com/"@;
    let u = repo_home(owner, name);
    let i0: int = (p.len() + owner.len()) as int;
    assert(u.len() == i0 + 1 + name.len());
    assert forall|k: int| 0 <= k < u.len() implies u[k] == (if k < p.len() {
        p[k]
    } else if k < i0 {
        owner[k - p.len()]
    } else if k == i0 {
        '/'
    } else {
        name[k - i0 - 1]
    }) by {}
    assert(u.subrange(8, 18) =~= "github.com"@);
    assert(crate::text::occurs_at(u, "github.com"@, 8));
    assert(u.last() != '/');
    assert(trim_end_char(u, '/') == u);
    if has_suffix(u, ".git"@) {
        if name.len() >= 4 {
            assert(name.subrange(name.len() - 4, name.len() as int) =~= u.subrange(
                u.len() - 4,
                u.len() as int,
            ));
        } else {
            let j = 3 - name.len();
            assert(u.subrange(u.len() - 4, u.len() as int)[j] == u[i0]);
        }
    }
    assert(trimmed_url(u) == u);
    lemma_last_slash_at(u, i0);
    let front = u.take(i0);
    assert forall|k: int| p.len() - 1 < k < front.len() implies front[k] != '/' by {}
    lemma_last_slash_at(front, p.len() - 1);
    assert(front.skip(p.len() as int) =~= owner);
    assert(u.skip(i0 + 1) =~= name);
}

/// A tag that looks like a version and carries no pre-release marker.
pub open spec fn stable_version_tag(t: Seq<char>) -> bool {
    version_like(t) && !prerelease_marker(lowercase(t))
}

fn stable_version_tag_exec(t: &str) -> (r: bool)
    ensures
        r == stable_version_tag(t@),
{
    looks_like_version_tag(t) && !is_prerelease_tag(t)
}

/// The first item, in order, for which `f` gives a tag, and that tag.
pub open spec fn first_tag(items: Seq<JsonValue>, f: spec_fn(JsonValue) -> Option<Seq<char>>) -> Option<
    Seq<char>,
>
    decreases items.len(),
{
    if items.len() == 0 {
        None
    } else {
        match f(items[0]) {
            Some(t) => Some(t),
            None => first_tag(items.drop_first(), f),
        }
    }
}

/// The tag of a release object of the releases API when it is neither a
/// pre-release nor a draft and its tag is a stable version tag.
pub open spec fn release_pick(release: JsonValue) -> Option<Seq<char>> {
    if bool_or_false(get_member(release, "prerelease"@)) || bool_or_false(
        get_member(release, "draft"@),
    ) {
        None
    } else {
        match str_of(get_member(release, "tag_name"@)) {
            Some(t) => if stable_version_tag(t) {
                Some(t)
            } else {
                None
            },
            None => None,
        }
    }
}

/// The name of a tag object of the tags API when it is a stable version tag.
pub open spec fn tag_pick(tag: JsonValue) -> Option<Seq<char>> {
    match str_of(get_member(tag, "name"@)) {
        Some(t) => if stable_version_tag(t) {
            Some(t)
        } else {
            None
        },
        None => None,
    }
}

/// What a response body of the releases or tags API offers: the first
/// item picked by `f`, none when the body is no array.
pub open spec fn body_tag(body: Option<JsonValue>, f: spec_fn(JsonValue) -> Option<Seq<char>>) -> Option<
    Seq<char>,
> {
    match items_of(body) {
        Some(items) => first_tag(items, f),
        None => None,
    }
}

/// The first stable, version-like release tag of a releases API response.
pub fn release_tag_from_json(body: Option<&JsonValue>) -> (r: Option<String>)
    ensures
        match r {
            Some(t) => body_tag(opt_value(body), |x: JsonValue| release_pick(x)) == Some(t@),
            None => body_tag(opt_value(body), |x: JsonValue| release_pick(x)) is None,
        },
{
    let items = match items_in(body) {
        Some(items) => items,
        None => return None,
    };
    let ghost f = |x: JsonValue| release_pick(x);
    let mut i: usize = 0;
    assert(items@.skip(0) =~= items@);
    while i < items.len()
        invariant
            i <= items.len(),
            items_of(opt_value(body)) == Some(items@),
            f == (|x: JsonValue| release_pick(x)),
            first_tag(items@, f) == first_tag(items@.skip(i as int), f),
        decreases items.len() - i,
    {
        let release = &items[i];
        assert(items@.skip(i as int)[0] == items@[i as int]);
        assert(items@.skip(i as int).drop_first() =~= items@.skip(i + 1));
        let pre = bool_in(release.get("prerelease"));
        let draft = bool_in(release.get("draft"));
        if !(pre || draft) {
            match str_in(release.get("tag_name")) {
                Some(tag) => {
                    if stable_version_tag_exec(tag) {
                        return Some(String::from_str(tag));
                    }
                },
                None => {},
            }
        }
        i = i + 1;
    }
    None
}

/// The first stable, version-like tag name of a tags API response.
pub fn tag_name_from_json(body: Option<&JsonValue>) -> (r: Option<String>)
    ensures
        match r {
            Some(t) => body_tag(opt_value(body), |x: JsonValue| tag_pick(x)) == Some(t@),
            None => body_tag(opt_value(body), |x: JsonValue| tag_pick(x)) is None,
        },
{
    let items = match items_in(body) {
        Some(items) => items,
        None => return None,
    };
    let ghost f = |x: JsonValue| tag_pick(x);
    let mut i: usize = 0;
    assert(items@.skip(0) =~= items@);
    while i < items.len()
        invariant
            i <= items.len(),
            items_of(opt_value(body)) == Some(items@),
            f == (|x: JsonValue| tag_pick(x)),
            first_tag(items@, f) == first_tag(items@.skip(i as int), f),
        decreases items.len() - i,
    {
        let tag_obj = &items[i];
        assert(items@.skip(i as int)[0] == items@[i as int]);
        assert(items@.skip(i as int).drop_first() =~= items@.skip(i + 1));
        match str_in(tag_obj.get("name")) {
            Some(tag) => {
                if stable_version_tag_exec(tag) {
                    return Some(String::from_str(tag));
                }
            },
            None => {},
        }
        i = i + 1;
    }
    None
}

/// The latest release tag of a repository, from the bodies of its releases
/// and tags API responses (none where a request failed): the newer of the
/// first stable release tag and the first stable tag.
pub fn latest_github_release_from(
    repo: &GitHubRepo,
    releases: Option<&JsonValue>,
    tags: Option<&JsonValue>,
) -> (r: Result<String, SourceError>)
    ensures
        match latest_tag_choice(
            body_tag(opt_value(releases), |x: JsonValue| release_pick(x)),
            body_tag(opt_value(tags), |x: JsonValue| tag_pick(x)),
        ) {
            Some(t) => r matches Ok(x) && x@ == t,
            None => r matches Err(SourceError::NoVersionTags(u)) && u@ == repo.owner@ + "/"@
                + repo.name@,
        },
{
    let release = release_tag_from_json(releases);
    let tag = tag_name_from_json(tags);
    let rr: Option<&str> = match &release {
        Some(x) => Some(x.as_str()),
        None => None,
    };
    let tt: Option<&str> = match &tag {
        Some(x) => Some(x.as_str()),
        None => None,
    };
    match choose_latest_tag(rr, tt) {
        Some(t) => Ok(t),
        None => {
            let mut u = String::from_str(repo.owner.as_str());
            u.append("/");
            u.append(repo.name.as_str());
            Err(SourceError::NoVersionTags(u))
        },
    }
}

/// The `path` of each entry of a Trees API response that has one, in order.
pub open spec fn tree_entry_paths(entries: Seq<JsonValue>) -> Seq<Seq<char>>
    decreases entries.len(),
{
    if entries.len() == 0 {
        seq![]
    } else {
        tree_entry_paths(entries.drop_last()) + match str_of(
            get_member(entries.last(), "path"@),
        ) {
            Some(p) => seq![p],
            None => seq![],
        }
    }
}

/// The file paths listed by a Trees API response; none when it has no
/// `tree` array.
pub fn tree_paths_from_json(body: &JsonValue) -> (r: Vec<String>)
    ensures
        r@.map_values(|s: String| s@) == (match items_of(get_member(*body, "tree"@)) {
            Some(entries) => tree_entry_paths(entries),
            None => seq![],
        }),
{
    let mut out: Vec<String> = Vec::new();
    let entries = match items_in(body.get("tree")) {
        Some(e) => e,
        None => return out,
    };
    let mut i: usize = 0;
    assert(entries@.take(0) =~= seq![]);
    while i < entries.len()
        invariant
            i <= entries.len(),
            items_of(get_member(*body, "tree"@)) == Some(entries@),
            out@.map_values(|s: String| s@) == tree_entry_paths(entries@.take(i as int)),
        decreases entries.len() - i,
    {
        let ghost cur = entries@.take(i + 1);
        assert(cur.drop_last() =~= entries@.take(i as int));
        assert(cur.last() == entries@[i as int]);
        let ghost before = out@;
        match str_in(entries[i].get("path")) {
            Some(p) => {
                out.push(String::from_str(p));
                assert(out@.map_values(|s: String| s@) =~= before.map_values(|s: String| s@)
                    + seq![p@]);
            },
            None => {},
        }
        i = i + 1;
    }
    assert(entries@.take(entries.len() as int) =~= entries@);
    out
}

} // verus!
