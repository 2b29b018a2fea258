//! Best guess of a conda `license_family` from a license name.
use vstd::prelude::*;

use crate::text::{contains, has_sub, slice, to_uppercase, trim, trim_text, uppercase};

verus! {

/// What `regex::Regex::new(pattern)` followed by `Regex::is_match(text)`
/// answers; `None` when the pattern does not compile.
pub uninterp spec fn regex_search(pattern: Seq<char>, text: Seq<char>) -> Option<bool>;

/// What `regex::Regex::new(pattern)` followed by `Regex::replace(text, rep)`
/// gives (the leftmost-first match replaced); `None` when the pattern does
/// not compile.
pub uninterp spec fn regex_replacement(pattern: Seq<char>, text: Seq<char>, rep: Seq<char>) -> Option<Seq<char>>;

/// Compiles `pattern` with `regex::Regex::new` and asks `Regex::is_match` of
/// `text`. The contract claims only that the answer is a fixed function of
/// the pattern and the text, named `regex_search`.
#[verifier::external_body]
fn regex_is_match(pattern: &str, text: &str) -> (r: Option<bool>)
    ensures
        r == regex_search(pattern@, text@),
{
    match regex::Regex::new(pattern) {
        Ok(re) => Some(re.is_match(text)),
        Err(_) => None,
    }
}

/// Compiles `pattern` with `regex::Regex::new` and calls `Regex::replace` on
/// `text`. The contract claims only that the result is a fixed function of
/// the pattern, the text and the replacement, named `regex_replacement`.
#[verifier::external_body]
fn regex_replace(pattern: &str, text: &str, rep: &str) -> (r: Option<String>)
    ensures
        r.deep_view() == regex_replacement(pattern@, text@, rep@),
{
    match regex::Regex::new(pattern) {
        Ok(re) => Some(re.replace(text, rep).into_owned()),
        Err(_) => None,
    }
}

/// The known license families, in the order they are tried.
pub open spec fn family_names() -> Seq<Seq<char>> {
    seq![
        "AGPL"@,
        "LGPL"@,
        "GPL3"@,
        "GPL2"@,
        "GPL"@,
        "BSD"@,
        "MIT"@,
        "APACHE"@,
        "PSF"@,
        "CC"@,
        "MOZILLA"@,
        "PUBLIC-DOMAIN"@,
        "PROPRIETARY"@,
        "OTHER"@,
        "NONE"@,
    ]
}

fn families() -> (r: Vec<&'static str>)
    ensures
        r@.map_values(|f: &str| f@) == family_names(),
{
    let r = vec![
        "AGPL",
        "LGPL",
        "GPL3",
        "GPL2",
        "GPL",
        "BSD",
        "MIT",
        "APACHE",
        "PSF",
        "CC",
        "MOZILLA",
        "PUBLIC-DOMAIN",
        "PROPRIETARY",
        "OTHER",
        "NONE",
    ];
    assert(r@.map_values(|f: &str| f@) =~= family_names());
    r
}

/// A regex search that counts a pattern that does not compile as no match.
pub open spec fn finds(pattern: Seq<char>, text: Seq<char>) -> bool {
    regex_search(pattern, text) == Some(true)
}

/// A regex replacement that leaves the text as it is when the pattern does
/// not compile.
pub open spec fn replaced(pattern: Seq<char>, text: Seq<char>, rep: Seq<char>) -> Seq<char> {
    match regex_replacement(pattern, text, rep) {
        Some(t) => t,
        None => text,
    }
}

/// Upper case, the long GPL spellings shortened, surrounding white space removed.
pub open spec fn normalized(s: Seq<char>) -> Seq<char> {
    trim(
        replaced(
            "AFFERO *"@,
            replaced("LESSER *"@, replaced("GENERAL PUBLIC LICENSE"@, uppercase(s), "GPL"@), "GPL"@),
            "GPL"@,
        ),
    )
}

/// An ASCII punctuation character (the class `[[:punct:]]`).
pub open spec fn is_punct(c: char) -> bool {
    ('!' <= c && c <= '/') || (':' <= c && c <= '@') || ('[' <= c && c <= '`') || ('{' <= c
        && c <= '~')
}

/// A white space character that cleaning removes: space, tab, line feed.
pub open spec fn is_cleaned_space(c: char) -> bool {
    c == ' ' || c == '\t' || c == '\n'
}

/// A character that cleaning removes.
pub open spec fn is_special(c: char) -> bool {
    is_punct(c) || is_cleaned_space(c)
}

/// The text without its punctuation, spaces, tabs and line feeds, other
/// characters kept in order.
pub open spec fn cleaned(s: Seq<char>) -> Seq<char> {
    s.filter(|c: char| !is_special(c))
}

/// The index of the first family that the name contains, else of the first
/// family that contains the name.
pub open spec fn family_by_containment(name: Seq<char>, families: Seq<Seq<char>>) -> Option<int> {
    let i = first_contained(families, name);
    let j = first_containing(families, name);
    if i < families.len() {
        Some(i)
    } else if j < families.len() {
        Some(j)
    } else {
        None
    }
}

/// The position of the first family that `name` contains, or the number of
/// families when there is none.
pub open spec fn first_contained(families: Seq<Seq<char>>, name: Seq<char>) -> int
    decreases families.len(),
{
    if families.len() == 0 {
        0
    } else if has_sub(name, families[0]) {
        0
    } else {
        1 + first_contained(families.drop_first(), name)
    }
}

/// The position of the first family that contains `name`, or the number of
/// families when there is none.
pub open spec fn first_containing(families: Seq<Seq<char>>, name: Seq<char>) -> int
    decreases families.len(),
{
    if families.len() == 0 {
        0
    } else if has_sub(families[0], name) {
        0
    } else {
        1 + first_containing(families.drop_first(), name)
    }
}

/// The family chosen once the GPL and CC tests are known: the family, as
/// spelled in the list, whose cleaned name the cleaned license name contains,
/// else whose cleaned name contains it, else OTHER.
pub open spec fn family_choice(gpl3: bool, gpl2: bool, cc: bool, name: Seq<char>) -> Seq<char> {
    if gpl3 {
        "GPL3"@
    } else if gpl2 {
        "GPL2"@
    } else if cc {
        "CC"@
    } else {
        match family_by_containment(name, cleaned_family_names()) {
            Some(i) => family_names()[i],
            None => "OTHER"@,
        }
    }
}

/// The license family that `guess_license_family` gives for a license name.
pub open spec fn license_family_of(license: Seq<char>) -> Seq<char> {
    let n = normalized(license);
    let sans = replaced("[A,L]GPL"@, n, ""@);
    family_choice(
        finds("GPL[^2]*>= *2"@, sans) || finds("GPL[^2]*3"@, sans),
        finds("GPL[^3]*2"@, sans),
        finds("CC\\w+"@, n),
        cleaned(n),
    )
}

/// The family names, each cleaned.
pub open spec fn cleaned_family_names() -> Seq<Seq<char>> {
    family_names().map_values(|f: Seq<char>| cleaned(f))
}

fn replaced_exec(pattern: &str, text: &str, rep: &str) -> (r: String)
    ensures
        r@ == replaced(pattern@, text@, rep@),
{
    match regex_replace(pattern, text, rep) {
        Some(t) => t,
        None => String::from_str(text),
    }
}

fn finds_exec(pattern: &str, text: &str) -> (r: bool)
    ensures
        r == finds(pattern@, text@),
{
    match regex_is_match(pattern, text) {
        Some(b) => b,
        None => false,
    }
}

/// True if family matches GPL3 or GPL >= 2, else False
fn match_gpl3(family: &str) -> (r: bool)
    ensures
        r == (finds("GPL[^2]*>= *2"@, family@) || finds("GPL[^2]*3"@, family@)),
{
    finds_exec("GPL[^2]*>= *2", family) || finds_exec("GPL[^2]*3", family)
}

/// Set to ALL CAPS, replace common GPL patterns, and strip
fn normalize(s: &str) -> (r: String)
    ensures
        r@ == normalized(s@),
{
    let s = to_uppercase(s);
    let s = replaced_exec("GENERAL PUBLIC LICENSE", s.as_str(), "GPL");
    let s = replaced_exec("LESSER *", s.as_str(), "GPL");
    let s = replaced_exec("AFFERO *", s.as_str(), "GPL");
    String::from_str(trim_text(s.as_str()))
}

/// Remove punctuation, spaces, tabs, and line feeds
fn remove_special_characters(s: &str) -> (r: String)
    ensures
        r@ == cleaned(s@),
{
    let n = s.unicode_len();
    let mut out = String::new();
    let mut i: usize = 0;
    assert(s@.take(0) =~= seq![]);
    while i < n
        invariant
            i <= n,
            n == s@.len(),
            out@ == cleaned(s@.take(i as int)),
        decreases n - i,
    {
        let c = s.get_char(i);
        let special = ('!' <= c && c <= '/') || (':' <= c && c <= '@') || ('[' <= c && c <= '`')
            || ('{' <= c && c <= '~') || c == ' ' || c == '\t' || c == '\n';
        let ghost before = out@;
        if !special {
            out.append(slice(s, i, i + 1));
        }
        proof {
            let t = s@.take(i + 1);
            assert(t.drop_last() =~= s@.take(i as int));
            assert(t.last() == c);
            s@.take(i as int).lemma_filter_push(c, |c: char| !is_special(c));
            assert(s@.take(i as int).push(c) =~= t);
            assert(s@.subrange(i as int, i + 1) =~= seq![c]);
        }
        i = i + 1;
    }
    assert(s@.take(n as int) =~= s@);
    out
}

/// The cleaned family names, in the order they are tried.
fn cleaned_families() -> (r: Vec<String>)
    ensures
        r.deep_view() == cleaned_family_names(),
{
    let names = families();
    let mut out: Vec<String> = Vec::new();
    let mut k: usize = 0;
    while k < names.len()
        invariant
            k <= names.len(),
            names@.map_values(|f: &str| f@) == family_names(),
            out.deep_view() == cleaned_family_names().take(k as int),
        decreases names.len() - k,
    {
        let c = remove_special_characters(names[k]);
        assert(family_names()[k as int] == names@[k as int]@);
        assert(cleaned_family_names()[k as int] == c@);
        let ghost before = out.deep_view();
        out.push(c);
        assert(out.deep_view() =~= before.push(cleaned_family_names()[k as int]));
        assert(cleaned_family_names().take(k + 1) =~= cleaned_family_names().take(k as int).push(
            cleaned_family_names()[k as int],
        ));
        k = k + 1;
    }
    assert(cleaned_family_names().take(names.len() as int) =~= cleaned_family_names());
    out
}

/// The family chosen from the outcome of the GPL and CC tests and the cleaned
/// license name: GPL3, GPL2 or CC when their test matched, else the first
/// family whose cleaned name the license name contains, else the first whose
/// cleaned name contains the license name, else OTHER; families are spelled
/// as in the list.
pub fn choose_family(gpl3: bool, gpl2: bool, cc: bool, name: &str) -> (r: String)
    ensures
        r@ == family_choice(gpl3, gpl2, cc, name@),
{
    if gpl3 {
        return String::from_str("GPL3");
    } else if gpl2 {
        return String::from_str("GPL2");
    } else if cc {
        return String::from_str("CC");
    }
    let names = families();
    let families = cleaned_families();
    let ghost fv = families.deep_view();
    let mut i: usize = 0;
    assert(fv.skip(0) =~= fv);
    while i < families.len()
        invariant
            i <= families.len(),
            fv == families.deep_view(),
            fv == cleaned_family_names(),
            names@.map_values(|f: &str| f@) == family_names(),
            !gpl3 && !gpl2 && !cc,
            first_contained(fv, name@) == i + first_contained(fv.skip(i as int), name@),
        decreases families.len() - i,
    {
        if contains(name, families[i].as_str()) {
            assert(fv.skip(i as int)[0] == fv[i as int]);
            assert(fv[i as int] == families[i as int]@);
            assert(first_contained(fv.skip(i as int), name@) == 0);
            assert(family_names()[i as int] == names@[i as int]@);
            return String::from_str(names[i]);
        }
        assert(!has_sub(name@, fv.skip(i as int)[0]));
        assert(fv.skip(i as int).drop_first() =~= fv.skip(i + 1));
        i = i + 1;
    }
    let mut j: usize = 0;
    assert(first_contained(fv.skip(families.len() as int), name@) == 0);
    while j < families.len()
        invariant
            j <= families.len(),
            fv == families.deep_view(),
            fv == cleaned_family_names(),
            names@.map_values(|f: &str| f@) == family_names(),
            !gpl3 && !gpl2 && !cc,
            first_contained(fv, name@) == fv.len(),
            first_containing(fv, name@) == j + first_containing(fv.skip(j as int), name@),
        decreases families.len() - j,
    {
        if contains(families[j].as_str(), name) {
            assert(fv.skip(j as int)[0] == fv[j as int]);
            assert(fv[j as int] == families[j as int]@);
            assert(first_containing(fv.skip(j as int), name@) == 0);
            assert(family_names()[j as int] == names@[j as int]@);
            return String::from_str(names[j]);
        }
        assert(!has_sub(fv.skip(j as int)[0], name@));
        assert(fv.skip(j as int).drop_first() =~= fv.skip(j + 1));
        j = j + 1;
    }
    String::from_str("OTHER")
}

/// Return best guess of `license_family` from the conda package index.
/// Note: Logic here is simple, and focuses on existing set of allowed families
pub fn guess_license_family(license_name: &str) -> (r: String)
    ensures
        r@ == license_family_of(license_name@),
        family_names().contains(r@),
{
    let license_name = normalize(license_name);
    // Handle GPL families as special cases
    // Remove AGPL and LGPL before looking for GPL2 and GPL3
    let sans_lgpl = replaced_exec("[A,L]GPL", license_name.as_str(), "");
    let gpl3 = match_gpl3(sans_lgpl.as_str());
    let gpl2 = finds_exec("GPL[^3]*2", sans_lgpl.as_str());
    let cc = finds_exec("CC\\w+", license_name.as_str());
    let cleaned_name = remove_special_characters(license_name.as_str());
    let r = choose_family(gpl3, gpl2, cc, cleaned_name.as_str());
    proof {
        lemma_choice_is_family(gpl3, gpl2, cc, cleaned_name@);
    }
    r
}

proof fn lemma_first_contained_bounds(families: Seq<Seq<char>>, name: Seq<char>)
    ensures
        0 <= first_contained(families, name) <= families.len(),
        0 <= first_containing(families, name) <= families.len(),
    decreases families.len(),
{
    if families.len() > 0 {
        lemma_first_contained_bounds(families.drop_first(), name);
    }
}

/// The family chosen is always one of the allowed family names, spelled as
/// in the list.
pub proof fn lemma_choice_is_family(gpl3: bool, gpl2: bool, cc: bool, name: Seq<char>)
    ensures
        family_names().contains(family_choice(gpl3, gpl2, cc, name)),
{
    lemma_first_contained_bounds(cleaned_family_names(), name);
    assert(family_names()[2] == "GPL3"@);
    assert(family_names()[3] == "GPL2"@);
    assert(family_names()[9] == "CC"@);
    assert(family_names()[13] == "OTHER"@);
    match family_by_containment(name, cleaned_family_names()) {
        Some(i) => {
            assert(family_names()[i] == family_choice(gpl3, gpl2, cc, name) || gpl3 || gpl2 || cc);
        },
        None => {},
    }
}

} // verus!
