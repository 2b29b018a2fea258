//! Conda channel package name normalization.
//!
//! Whether a package is on a channel is asked over the network by the
//! caller; the library says which names to ask about and which answer wins.
use vstd::prelude::*;

use crate::text::{contains_char, has_char, replace, replace_all};

verus! {

/// The URL that tells whether a package is on a channel.
pub fn package_url(channel: &str, pkg_name: &str) -> (r: String)
    ensures
        r@ == "https://api.anaconda.org/package/"@ + channel@ + "/"@ + pkg_name@,
{
    let mut r = String::from_str("https://api.anaconda.org/package/");
    r.append(channel);
    r.append("/");
    r.append(pkg_name);
    r
}

/// The names to try, in order: the name, its snake_case form when it holds a
/// `-`, and its kebab-case form when it holds a `_`.
pub open spec fn name_candidates(name: Seq<char>) -> Seq<Seq<char>> {
    seq![name] + (if has_char(name, '-') {
        seq![replace_all(name, "-"@, "_"@)]
    } else {
        seq![]
    }) + (if has_char(name, '_') {
        seq![replace_all(name, "_"@, "-"@)]
    } else {
        seq![]
    })
}

/// The names to look a package up under, in the order they are tried.
pub fn pkg_name_candidates(pkg_name: &str) -> (r: Vec<String>)
    ensures
        r@.map_values(|s: String| s@) == name_candidates(pkg_name@),
{
    let mut r: Vec<String> = Vec::new();
    r.push(String::from_str(pkg_name));
    if contains_char(pkg_name, '-') {
        r.push(replace(pkg_name, "-", "_"));
    }
    if contains_char(pkg_name, '_') {
        r.push(replace(pkg_name, "_", "-"));
    }
    assert(r@.map_values(|s: String| s@) =~= name_candidates(pkg_name@));
    r
}

/// The first candidate whose answer, among those given in order, is yes;
/// none when no given answer is.
pub open spec fn first_available(candidates: Seq<Seq<char>>, available: Seq<bool>) -> Option<
    Seq<char>,
>
    decreases candidates.len(),
{
    if candidates.len() == 0 || available.len() == 0 {
        None
    } else if available[0] {
        Some(candidates[0])
    } else {
        first_available(candidates.drop_first(), available.drop_first())
    }
}

/// The normalized name of a package: the first candidate found on the
/// channel, given the answers for the candidates asked so far, in order;
/// the name as it is when none was found.
pub fn normalized_pkg_name(pkg_name: &str, candidates: &Vec<String>, available: &Vec<bool>) -> (r:
    String)
    ensures
        r@ == (match first_available(candidates@.map_values(|s: String| s@), available@) {
            Some(c) => c,
            None => pkg_name@,
        }),
{
    let ghost cv = candidates@.map_values(|s: String| s@);
    let mut i: usize = 0;
    assert(cv.skip(0) =~= cv);
    assert(available@.skip(0) =~= available@);
    while i < candidates.len() && i < available.len()
        invariant
            i <= candidates.len(),
            i <= available.len(),
            cv == candidates@.map_values(|s: String| s@),
            first_available(cv, available@) == first_available(
                cv.skip(i as int),
                available@.skip(i as int),
            ),
        decreases candidates.len() - i,
    {
        assert(cv.skip(i as int)[0] == candidates@[i as int]@);
        assert(available@.skip(i as int)[0] == available@[i as int]);
        if available[i] {
            return candidates[i].clone();
        }
        assert(cv.skip(i as int).drop_first() =~= cv.skip(i + 1));
        assert(available@.skip(i as int).drop_first() =~= available@.skip(i + 1));
        i = i + 1;
    }
    assert(cv.skip(i as int).len() == 0 || available@.skip(i as int).len() == 0);
    String::from_str(pkg_name)
}

} // verus!
