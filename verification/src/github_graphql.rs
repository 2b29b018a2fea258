//! GitHub GraphQL queries and the reading of their responses.
//!
//! One discovery query fetches releases, tags, the recursive tree and the
//! root Cargo.toml; a second one fetches several files by alias.
use vstd::prelude::*;

use crate::json::{
    bool_in, bool_or_false, get_in, get_member, get_opt, items_in, items_of, member_index,
    opt_value, str_in, str_of, JsonValue,
};
use crate::source::{
    choose_latest_tag, latest_tag_choice, looks_like_version_tag, is_prerelease_tag, tag_pick, version_like, GitHubRepo,
};
use crate::text::{decimal, decimal_string, join, join_strs, text_eq};

verus! {

/// The file path of an entry under a directory prefix.
pub open spec fn joined_path(prefix: Seq<char>, name: Seq<char>) -> Seq<char> {
    if prefix.len() == 0 {
        name
    } else {
        prefix + "/"@ + name
    }
}

/// The flat file paths of a tree object of a GraphQL response: each entry's
/// path in order, and under a `tree` entry the paths of its object.
pub open spec fn tree_paths(node: JsonValue, prefix: Seq<char>) -> Seq<Seq<char>>
    decreases node, 0int,
{
    match node {
        JsonValue::Object(fields) => {
            let i = member_index(fields@, "entries"@);
            if 0 <= i < fields@.len() {
                match fields@[i].1 {
                    JsonValue::Array(items) => entries_paths(items@, prefix, items@.len() as int),
                    _ => seq![],
                }
            } else {
                seq![]
            }
        },
        _ => seq![],
    }
}

/// The paths of the first `n` entries of a tree.
pub open spec fn entries_paths(items: Seq<JsonValue>, prefix: Seq<char>, n: int) -> Seq<Seq<char>>
    decreases items, n,
{
    if n <= 0 || n > items.len() {
        seq![]
    } else {
        let entry = items[n - 1];
        entries_paths(items, prefix, n - 1) + match entry {
            JsonValue::Object(efields) => {
                let ni = member_index(efields@, "name"@);
                if 0 <= ni < efields@.len() {
                    match efields@[ni].1 {
                        JsonValue::Str(name) => {
                            let full = joined_path(prefix, name@);
                            let ti = member_index(efields@, "type"@);
                            let is_tree = 0 <= ti < efields@.len() && (match efields@[ti].1 {
                                JsonValue::Str(t) => t@ == "tree"@,
                                _ => false,
                            });
                            let oi = member_index(efields@, "object"@);
                            if is_tree && 0 <= oi < efields@.len() {
                                seq![full] + tree_paths(efields@[oi].1, full)
                            } else {
                                seq![full]
                            }
                        },
                        _ => seq![],
                    }
                } else {
                    seq![]
                }
            },
            _ => seq![],
        }
    }
}

/// The views of a list of strings.
pub open spec fn string_views(v: Seq<String>) -> Seq<Seq<char>> {
    v.map_values(|s: String| s@)
}

fn joined_path_exec(prefix: &str, name: &str) -> (r: String)
    ensures
        r@ == joined_path(prefix@, name@),
{
    if prefix.unicode_len() == 0 {
        String::from_str(name)
    } else {
        let mut r = String::from_str(prefix);
        r.append("/");
        r.append(name);
        r
    }
}

fn push_string(out: &mut Vec<String>, s: String)
    ensures
        string_views(final(out)@) == string_views(old(out)@).push(s@),
{
    let ghost before = out@;
    out.push(s);
    assert(string_views(out@) =~= string_views(before).push(s@));
}

fn append_tree_paths(node: &JsonValue, prefix: &str, out: &mut Vec<String>)
    ensures
        string_views(final(out)@) == string_views(old(out)@) + tree_paths(*node, prefix@),
    decreases *node,
{
    let ghost start = string_views(out@);
    let fields = match node {
        JsonValue::Object(fields) => fields,
        _ => {
            assert(string_views(out@) =~= start + seq![]);
            return;
        },
    };
    let items = match node.get("entries") {
        Some(JsonValue::Array(items)) => items,
        _ => {
            assert(string_views(out@) =~= start + seq![]);
            return;
        },
    };
    let ghost ei = member_index(fields@, "entries"@);
    proof {
        crate::json::lemma_member_index(fields@, "entries"@);
        assert(fields@[ei].1 == JsonValue::Array(*items));
    }
    let mut k: usize = 0;
    assert(string_views(out@) =~= start + entries_paths(items@, prefix@, 0));
    while k < items.len()
        invariant
            k <= items.len(),
            *node == JsonValue::Object(*fields),
            0 <= ei < fields@.len(),
            ei == member_index(fields@, "entries"@),
            fields@[ei].1 == JsonValue::Array(*items),
            string_views(out@) == start + entries_paths(items@, prefix@, k as int),
        decreases items.len() - k,
    {
        let entry = &items[k];
        let ghost before = string_views(out@);
        match entry {
            JsonValue::Object(efields) => {
                proof {
                    crate::json::lemma_member_index(efields@, "name"@);
                    crate::json::lemma_member_index(efields@, "type"@);
                    crate::json::lemma_member_index(efields@, "object"@);
                }
                match str_in(entry.get("name")) {
                    Some(name) => {
                        let full = joined_path_exec(prefix, name);
                        let is_tree = match str_in(entry.get("type")) {
                            Some(t) => text_eq(t, "tree"),
                            None => false,
                        };
                        if is_tree {
                            match entry.get("object") {
                                Some(obj) => {
                                    push_string(out, full.clone());
                                    proof {
                                        let oi = member_index(efields@, "object"@);
                                        assert(*obj == efields@[oi].1);
                                        let ev = items@[k as int];
                                        assert(decreases_to!(*node => (*node)->Object_0));
                                        assert(decreases_to!(*fields => fields@));
                                        assert(decreases_to!(fields@ => fields@[ei]));
                                        assert(decreases_to!(fields@[ei] => fields@[ei].1));
                                        assert(decreases_to!(fields@[ei].1 => (fields@[ei].1)->Array_0));
                                        assert(decreases_to!(*items => items@));
                                        assert(decreases_to!(items@ => ev));
                                        assert(ev == JsonValue::Object(*efields));
                                        assert(decreases_to!(ev => ev->Object_0));
                                        assert(decreases_to!(*efields => efields@));
                                        assert(decreases_to!(efields@ => efields@[oi]));
                                        assert(decreases_to!(efields@[oi] => efields@[oi].1));
                                        assert(decreases_to!(*node => *obj));
                                    }
                                    append_tree_paths(obj, full.as_str(), out);
                                },
                                None => {
                                    push_string(out, full);
                                },
                            }
                        } else {
                            push_string(out, full);
                        }
                    },
                    None => {},
                }
            },
            _ => {},
        }
        assert(string_views(out@) =~= start + entries_paths(items@, prefix@, k + 1));
        k = k + 1;
    }
}

/// Recursively parse tree entries from a GraphQL response into flat file paths.
pub fn parse_tree_entries(node: Option<&JsonValue>, prefix: &str) -> (r: Vec<String>)
    ensures
        string_views(r@) == (match node {
            Some(n) => tree_paths(*n, prefix@),
            None => seq![],
        }),
{
    let mut out: Vec<String> = Vec::new();
    match node {
        Some(n) => {
            append_tree_paths(n, prefix, &mut out);
            assert(string_views(out@) =~= tree_paths(*n, prefix@));
        },
        None => {
            assert(string_views(out@) =~= seq![]);
        },
    }
    out
}

/// Result of the initial discovery query: releases, tags, tree, and root Cargo.toml.
pub struct RepoDiscovery {
    /// Version-like release tags, most recent first.
    pub release_tags: Vec<String>,
    /// Version-like ref tags, most recent first.
    pub ref_tags: Vec<String>,
    /// All file paths in the repository (recursive tree).
    pub tree: Vec<String>,
    /// Root Cargo.toml contents, if present.
    pub root_cargo_toml: Option<String>,
}

/// Why a GraphQL response could not be read.
#[derive(Debug)]
pub enum GraphQlError {
    /// The response reported errors: `owner/name` and the joined messages.
    QueryErrors(String, String),
    /// The response holds no repository data.
    NoRepositoryData,
}

impl GraphQlError {
    /// A one-line description of the error.
    pub fn message(&self) -> (r: String)
        ensures
            r@ == (match self {
                GraphQlError::QueryErrors(repo, msgs) => "GraphQL errors for "@ + repo@ + ": "@
                    + msgs@,
                GraphQlError::NoRepositoryData => "No repository data in GraphQL response"@,
            }),
    {
        match self {
            GraphQlError::QueryErrors(repo, msgs) => {
                let mut r = String::from_str("GraphQL errors for ");
                r.append(repo.as_str());
                r.append(": ");
                r.append(msgs.as_str());
                r
            },
            GraphQlError::NoRepositoryData => String::from_str(
                "No repository data in GraphQL response",
            ),
        }
    }
}

/// The GraphQL tree entries fragment nested to a given depth.
pub open spec fn entries_fragment(depth: nat) -> Seq<char>
    decreases depth,
{
    if depth == 0 {
        "entries { name type }"@
    } else {
        "entries { name type object { ... on Tree { "@ + entries_fragment((depth - 1) as nat)
            + " } } }"@
    }
}

/// Build a GraphQL tree entries fragment to a given depth.
pub fn tree_entries_fragment(depth: usize) -> (r: String)
    ensures
        r@ == entries_fragment(depth as nat),
    decreases depth,
{
    if depth == 0 {
        return String::from_str("entries { name type }");
    }
    let inner = tree_entries_fragment(depth - 1);
    let mut r = String::from_str("entries { name type object { ... on Tree { ");
    r.append(inner.as_str());
    r.append(" } } }");
    r
}

/// The discovery query: releases, tags, root Cargo.toml and the tree five
/// levels deep, at a tag.
pub open spec fn discovery_query_text(tag: Seq<char>) -> Seq<char> {
    "query($owner: String!, $repo: String!) {\n  repository(owner: $owner, name: $repo) {\n    releases(first: 10, orderBy: {field: CREATED_AT, direction: DESC}) {\n      nodes { tagName isPrerelease isDraft }\n    }\n    refs(refPrefix: \"refs/tags/\", first: 10, orderBy: {field: TAG_COMMIT_DATE, direction: DESC}) {\n      nodes { name }\n    }\n    rootCargo: object(expression: \""@
        + tag + ":Cargo.toml\") {\n      ... on Blob { text }\n    }\n    tree: object(expression: \""@
        + tag + ":\") {\n      ... on Tree {\n        "@ + entries_fragment(5)
        + "\n      }\n    }\n  }\n}"@
}

/// The text of the discovery query at a tag.
pub fn discovery_query(tag: &str) -> (r: String)
    ensures
        r@ == discovery_query_text(tag@),
{
    let tree_fragment = tree_entries_fragment(5);
    let mut q = String::from_str(
        "query($owner: String!, $repo: String!) {\n  repository(owner: $owner, name: $repo) {\n    releases(first: 10, orderBy: {field: CREATED_AT, direction: DESC}) {\n      nodes { tagName isPrerelease isDraft }\n    }\n    refs(refPrefix: \"refs/tags/\", first: 10, orderBy: {field: TAG_COMMIT_DATE, direction: DESC}) {\n      nodes { name }\n    }\n    rootCargo: object(expression: \"",
    );
    q.append(tag);
    q.append(":Cargo.toml\") {\n      ... on Blob { text }\n    }\n    tree: object(expression: \"");
    q.append(tag);
    q.append(":\") {\n      ... on Tree {\n        ");
    q.append(tree_fragment.as_str());
    q.append("\n      }\n    }\n  }\n}");
    q
}

/// The aliased query of one file.
pub open spec fn file_query_text(i: nat, tag: Seq<char>, path: Seq<char>) -> Seq<char> {
    "  file_"@ + decimal(i) + ": object(expression: \""@ + tag + ":"@ + path
        + "\") {\n    ... on Blob { text }\n  }"@
}

/// The queries of the files, in order.
pub open spec fn file_queries_text(tag: Seq<char>, paths: Seq<Seq<char>>) -> Seq<Seq<char>> {
    Seq::new(paths.len(), |i: int| file_query_text(i as nat, tag, paths[i]))
}

/// The query fetching several files at a tag, one alias per file.
pub open spec fn files_query_text(tag: Seq<char>, paths: Seq<Seq<char>>) -> Seq<char> {
    "query($owner: String!, $repo: String!) {\n  repository(owner: $owner, name: $repo) {\n"@
        + join(file_queries_text(tag, paths), "\n"@) + "\n  }\n}"@
}

/// The text of the query fetching several files at a tag.
pub fn files_query(tag: &str, paths: &[String]) -> (r: String)
    ensures
        r@ == files_query_text(tag@, paths@.map_values(|s: String| s@)),
{
    let ghost pv = paths@.map_values(|s: String| s@);
    let mut queries: Vec<String> = Vec::new();
    let mut i: usize = 0;
    while i < paths.len()
        invariant
            i <= paths.len(),
            pv == paths@.map_values(|s: String| s@),
            string_views(queries@) == file_queries_text(tag@, pv).take(i as int),
        decreases paths.len() - i,
    {
        let mut q = String::from_str("  file_");
        let n = decimal_string(i);
        q.append(n.as_str());
        q.append(": object(expression: \"");
        q.append(tag);
        q.append(":");
        q.append(paths[i].as_str());
        q.append("\") {\n    ... on Blob { text }\n  }");
        let ghost before = queries@;
        queries.push(q);
        assert(string_views(queries@) =~= string_views(before).push(q@));
        assert(file_queries_text(tag@, pv).take(i + 1) =~= file_queries_text(tag@, pv).take(
            i as int,
        ).push(file_query_text(i as nat, tag@, pv[i as int])));
        i = i + 1;
    }
    assert(file_queries_text(tag@, pv).take(paths.len() as int) =~= file_queries_text(tag@, pv));
    let mut refs: Vec<&str> = Vec::new();
    let mut j: usize = 0;
    while j < queries.len()
        invariant
            j <= queries.len(),
            refs@.map_values(|x: &str| x@) == string_views(queries@).take(j as int),
        decreases queries.len() - j,
    {
        let ghost before = refs@;
        refs.push(queries[j].as_str());
        assert(refs@.map_values(|x: &str| x@) =~= before.map_values(|x: &str| x@).push(
            queries@[j as int]@,
        ));
        assert(string_views(queries@).take(j + 1) =~= string_views(queries@).take(j as int).push(
            queries@[j as int]@,
        ));
        j = j + 1;
    }
    assert(string_views(queries@).take(queries.len() as int) =~= string_views(queries@));
    let joined = join_strs(&refs, "\n");
    let mut r = String::from_str(
        "query($owner: String!, $repo: String!) {\n  repository(owner: $owner, name: $repo) {\n",
    );
    r.append(joined.as_str());
    r.append("\n  }\n}");
    r
}

/// The body of a GraphQL request: the query and the owner and name of the
/// repository as variables.
pub fn graphql_request(query: &str, repo: &GitHubRepo) -> (r: JsonValue)
    ensures
        r matches JsonValue::Object(fields) && fields@.len() == 2 && fields@[0].0@ == "query"@
            && fields@[1].0@ == "variables"@ && (fields@[0].1 matches JsonValue::Str(q) && q@
            == query@) && (fields@[1].1 matches JsonValue::Object(vars) && vars@.len() == 2
            && vars@[0].0@ == "owner"@ && vars@[1].0@ == "repo"@ && (vars@[0].1 matches JsonValue::Str(
            o,
        ) && o@ == repo.owner@) && (vars@[1].1 matches JsonValue::Str(n) && n@ == repo.name@)),
        get_member(r, "query"@) matches Some(JsonValue::Str(q)) && q@ == query@,
        get_opt(get_member(r, "variables"@), "owner"@) matches Some(JsonValue::Str(o)) && o@
            == repo.owner@,
        get_opt(get_member(r, "variables"@), "repo"@) matches Some(JsonValue::Str(n)) && n@
            == repo.name@,
{
    let mut vars: Vec<(String, JsonValue)> = Vec::new();
    vars.push((String::from_str("owner"), JsonValue::Str(repo.owner.clone())));
    vars.push((String::from_str("repo"), JsonValue::Str(repo.name.clone())));
    let mut fields: Vec<(String, JsonValue)> = Vec::new();
    fields.push((String::from_str("query"), JsonValue::Str(String::from_str(query))));
    fields.push((String::from_str("variables"), JsonValue::Object(vars)));
    proof {
        reveal_strlit("owner");
        reveal_strlit("repo");
        reveal_strlit("query");
        reveal_strlit("variables");
        assert(vars@.drop_last().drop_last() =~= seq![]);
        assert(fields@.drop_last().drop_last() =~= seq![]);
        assert(member_index(vars@.drop_last().drop_last(), "owner"@) == -1);
        assert(member_index(vars@.drop_last().drop_last(), "repo"@) == -1);
        assert(member_index(fields@.drop_last().drop_last(), "query"@) == -1);
        assert(member_index(fields@.drop_last().drop_last(), "variables"@) == -1);
        assert(vars@.drop_last().last().0@ == "owner"@);
        assert(fields@.drop_last().last().0@ == "query"@);
        assert(member_index(vars@.drop_last(), "owner"@) == 0);
        assert(member_index(fields@.drop_last(), "query"@) == 0);
        assert(member_index(vars@.drop_last(), "repo"@) == -1);
        assert(member_index(fields@.drop_last(), "variables"@) == -1);
    }
    JsonValue::Object(fields)
}

/// The tag of a release node when it is neither a pre-release nor a draft
/// and its tag looks like a version.
pub open spec fn release_node_tag(n: JsonValue) -> Option<Seq<char>> {
    if bool_or_false(get_member(n, "isPrerelease"@)) || bool_or_false(get_member(n, "isDraft"@)) {
        None
    } else {
        match str_of(get_member(n, "tagName"@)) {
            Some(t) => if version_like(t) {
                Some(t)
            } else {
                None
            },
            None => None,
        }
    }
}

/// What a node of the releases (`releases`) or of the tag refs contributes.
pub open spec fn node_tag(releases: bool, n: JsonValue) -> Option<Seq<char>> {
    if releases {
        release_node_tag(n)
    } else {
        tag_pick(n)
    }
}

/// The tags the nodes contribute, in order.
pub open spec fn collect_tags(items: Seq<JsonValue>, releases: bool) -> Seq<Seq<char>>
    decreases items.len(),
{
    if items.len() == 0 {
        seq![]
    } else {
        collect_tags(items.drop_last(), releases) + match node_tag(releases, items.last()) {
            Some(t) => seq![t],
            None => seq![],
        }
    }
}

/// The tags of the `nodes` of a connection of the repository data.
pub open spec fn connection_tags(data: JsonValue, key: Seq<char>, releases: bool) -> Seq<
    Seq<char>,
> {
    match items_of(get_opt(get_member(data, key), "nodes"@)) {
        Some(items) => collect_tags(items, releases),
        None => seq![],
    }
}

/// The repository data of a response.
pub open spec fn repository_data(json: JsonValue) -> Option<JsonValue> {
    get_opt(get_member(json, "data"@), "repository"@)
}

/// The errors a response reports, when it reports any.
pub open spec fn response_errors(json: JsonValue) -> Option<Seq<JsonValue>> {
    match items_of(get_member(json, "errors"@)) {
        Some(es) => if es.len() > 0 {
            Some(es)
        } else {
            None
        },
        None => None,
    }
}

/// The messages of the errors that have one, in order.
pub open spec fn error_messages(items: Seq<JsonValue>) -> Seq<Seq<char>>
    decreases items.len(),
{
    if items.len() == 0 {
        seq![]
    } else {
        error_messages(items.drop_last()) + match str_of(get_member(items.last(), "message"@)) {
            Some(m) => seq![m],
            None => seq![],
        }
    }
}

/// The view of an optional string.
pub open spec fn opt_string(o: Option<String>) -> Option<Seq<char>> {
    match o {
        Some(s) => Some(s@),
        None => None,
    }
}

fn collect_node_tags(connection: Option<&JsonValue>, releases: bool) -> (r: Vec<String>)
    ensures
        string_views(r@) == (match items_of(get_opt(opt_value(connection), "nodes"@)) {
            Some(items) => collect_tags(items, releases),
            None => seq![],
        }),
{
    let mut out: Vec<String> = Vec::new();
    let items = match items_in(get_in(connection, "nodes")) {
        Some(items) => items,
        None => {
            assert(string_views(out@) =~= seq![]);
            return out;
        },
    };
    let mut i: usize = 0;
    assert(items@.take(0) =~= seq![]);
    while i < items.len()
        invariant
            i <= items.len(),
            items_of(get_opt(opt_value(connection), "nodes"@)) == Some(items@),
            string_views(out@) == collect_tags(items@.take(i as int), releases),
        decreases items.len() - i,
    {
        let n = &items[i];
        let ghost cur = items@.take(i + 1);
        assert(cur.drop_last() =~= items@.take(i as int));
        assert(cur.last() == *n);
        let tag: Option<&str> = if releases {
            let pre = bool_in(n.get("isPrerelease"));
            let draft = bool_in(n.get("isDraft"));
            if pre || draft {
                None
            } else {
                match str_in(n.get("tagName")) {
                    Some(t) => if looks_like_version_tag(t) {
                        Some(t)
                    } else {
                        None
                    },
                    None => None,
                }
            }
        } else {
            match str_in(n.get("name")) {
                Some(t) => if looks_like_version_tag(t) && !is_prerelease_tag(t) {
                    Some(t)
                } else {
                    None
                },
                None => None,
            }
        };
        match tag {
            Some(t) => {
                push_string(&mut out, String::from_str(t));
            },
            None => {},
        }
        assert(string_views(out@) =~= collect_tags(cur, releases));
        i = i + 1;
    }
    assert(items@.take(items.len() as int) =~= items@);
    out
}

fn joined_error_messages(errors: &Vec<JsonValue>) -> (r: String)
    ensures
        r@ == join(error_messages(errors@), "; "@),
{
    let mut msgs: Vec<&str> = Vec::new();
    let mut i: usize = 0;
    assert(errors@.take(0) =~= seq![]);
    while i < errors.len()
        invariant
            i <= errors.len(),
            msgs@.map_values(|x: &str| x@) == error_messages(errors@.take(i as int)),
        decreases errors.len() - i,
    {
        let ghost cur = errors@.take(i + 1);
        assert(cur.drop_last() =~= errors@.take(i as int));
        assert(cur.last() == errors@[i as int]);
        let ghost before = msgs@;
        match str_in(errors[i].get("message")) {
            Some(m) => {
                msgs.push(m);
                assert(msgs@.map_values(|x: &str| x@) =~= before.map_values(|x: &str| x@).push(
                    m@,
                ));
            },
            None => {},
        }
        assert(msgs@.map_values(|x: &str| x@) =~= error_messages(cur));
        i = i + 1;
    }
    assert(errors@.take(errors.len() as int) =~= errors@);
    join_strs(&msgs, "; ")
}

/// Read the discovery query's response: the releases that are neither
/// pre-releases nor drafts and whose tag looks like a version, the tag refs
/// that look like stable versions, the flattened tree and the root
/// Cargo.toml; the reported errors, or the lack of repository data, as an
/// error.
pub fn discovery_from_json(repo: &GitHubRepo, json: &JsonValue) -> (r: Result<
    RepoDiscovery,
    GraphQlError,
>)
    ensures
        response_errors(*json) is Some ==> (r matches Err(GraphQlError::QueryErrors(who, msgs))
            && who@ == repo.owner@ + "/"@ + repo.name@ && msgs@ == join(
            error_messages(response_errors(*json).unwrap()),
            "; "@,
        )),
        response_errors(*json) is None && repository_data(*json) is None ==> (r matches Err(
            GraphQlError::NoRepositoryData,
        )),
        response_errors(*json) is None && repository_data(*json) is Some ==> (r matches Ok(d) && {
            let data = repository_data(*json).unwrap();
            &&& string_views(d.release_tags@) == connection_tags(data, "releases"@, true)
            &&& string_views(d.ref_tags@) == connection_tags(data, "refs"@, false)
            &&& string_views(d.tree@) == (match get_member(data, "tree"@) {
                Some(n) => tree_paths(n, seq![]),
                None => seq![],
            })
            &&& opt_string(d.root_cargo_toml) == str_of(
                get_opt(get_member(data, "rootCargo"@), "text"@),
            )
        }),
{
    match items_in(json.get("errors")) {
        Some(errors) => {
            if errors.len() > 0 {
                let msgs = joined_error_messages(errors);
                let mut who = String::from_str(repo.owner.as_str());
                who.append("/");
                who.append(repo.name.as_str());
                return Err(GraphQlError::QueryErrors(who, msgs));
            }
        },
        None => {},
    }
    let data = match get_in(json.get("data"), "repository") {
        Some(d) => d,
        None => {
            return Err(GraphQlError::NoRepositoryData);
        },
    };
    let release_tags = collect_node_tags(data.get("releases"), true);
    let ref_tags = collect_node_tags(data.get("refs"), false);
    let tree = parse_tree_entries(data.get("tree"), "");
    proof {
        reveal_strlit("");
        assert(""@ =~= Seq::<char>::empty());
    }
    assert(string_views(release_tags@) == connection_tags(*data, "releases"@, true));
    assert(string_views(ref_tags@) == connection_tags(*data, "refs"@, false));
    let root_cargo_toml = match str_in(get_in(data.get("rootCargo"), "text")) {
        Some(t) => Some(String::from_str(t)),
        None => None,
    };
    Ok(RepoDiscovery { release_tags, ref_tags, tree, root_cargo_toml })
}

/// The contents of the files a file query returned, paired with their paths
/// in the order asked; the files the response lacks are left out.
pub open spec fn fetched_files(data: JsonValue, paths: Seq<Seq<char>>, n: int) -> Seq<
    (Seq<char>, Seq<char>),
>
    decreases n,
{
    if n <= 0 || n > paths.len() {
        seq![]
    } else {
        fetched_files(data, paths, n - 1) + match str_of(
            get_opt(get_member(data, "file_"@ + decimal((n - 1) as nat)), "text"@),
        ) {
            Some(t) => seq![(paths[n - 1], t)],
            None => seq![],
        }
    }
}

/// The views of a list of pairs of strings.
pub open spec fn pair_views(v: Seq<(String, String)>) -> Seq<(Seq<char>, Seq<char>)> {
    v.map_values(|p: (String, String)| (p.0@, p.1@))
}

/// Read the response of a file query made for the given paths.
pub fn files_from_json(json: &JsonValue, paths: &[String]) -> (r: Result<
    Vec<(String, String)>,
    GraphQlError,
>)
    ensures
        repository_data(*json) is None ==> (r matches Err(GraphQlError::NoRepositoryData)),
        repository_data(*json) is Some ==> (r matches Ok(files) && pair_views(files@)
            == fetched_files(
            repository_data(*json).unwrap(),
            paths@.map_values(|s: String| s@),
            paths@.len() as int,
        )),
{
    let data = match get_in(json.get("data"), "repository") {
        Some(d) => d,
        None => {
            return Err(GraphQlError::NoRepositoryData);
        },
    };
    let ghost pv = paths@.map_values(|s: String| s@);
    let mut results: Vec<(String, String)> = Vec::new();
    let mut i: usize = 0;
    while i < paths.len()
        invariant
            i <= paths.len(),
            repository_data(*json) == Some(*data),
            pv == paths@.map_values(|s: String| s@),
            pair_views(results@) == fetched_files(*data, pv, i as int),
        decreases paths.len() - i,
    {
        let mut alias = String::from_str("file_");
        let n = decimal_string(i);
        alias.append(n.as_str());
        let ghost before = results@;
        match str_in(get_in(data.get(alias.as_str()), "text")) {
            Some(text) => {
                results.push((paths[i].clone(), String::from_str(text)));
                assert(pair_views(results@) =~= pair_views(before).push((pv[i as int], text@)));
            },
            None => {},
        }
        assert(pair_views(results@) =~= fetched_files(*data, pv, i + 1));
        i = i + 1;
    }
    Ok(results)
}

/// The first item of a list of strings.
pub open spec fn first_view(v: Seq<String>) -> Option<Seq<char>> {
    if v.len() > 0 {
        Some(v[0]@)
    } else {
        None
    }
}

/// Pick the best version tag from discovery results.
/// Compares release tags and ref tags, preferring the newer version.
pub fn best_version_tag(discovery: &RepoDiscovery) -> (r: Option<String>)
    ensures
        opt_string(r) == latest_tag_choice(
            first_view(discovery.release_tags@),
            first_view(discovery.ref_tags@),
        ),
{
    let release: Option<&str> = if discovery.release_tags.len() > 0 {
        Some(discovery.release_tags[0].as_str())
    } else {
        None
    };
    let tag: Option<&str> = if discovery.ref_tags.len() > 0 {
        Some(discovery.ref_tags[0].as_str())
    } else {
        None
    };
    match (release, tag) {
        (Some(r), Some(t)) => {
            if text_eq(r, t) {
                return Some(String::from_str(r));
            }
        },
        _ => {},
    }
    let c = choose_latest_tag(release, tag);
    match c {
        Some(x) => Some(x),
        None => None,
    }
}

} // verus!
