//! Inspect crate source to extract binary names, license files, and workspace info.
use vstd::prelude::*;

use crate::text::{
    contains_char, ends_with, find_char_from, has_char, has_prefix, has_suffix, index_of,
    less_than, lemma_lex_irreflexive,
    lemma_lex_transitive, lex_lt, slice, starts_with, text_eq, to_uppercase, uppercase,
};

verus! {

#[verifier::external_type_specification]
#[verifier::external_body]
pub struct ExTomlValue(toml::Value);

/// A TOML value. Floats and datetimes are kept as `Other`; a table keeps its
/// entries in the order the parser gives them.
pub enum TomlValue {
    Str(String),
    Int(i64),
    Bool(bool),
    Array(Vec<TomlValue>),
    Table(Vec<(String, TomlValue)>),
    Other,
}

/// What the toml crate parses a document into, as the library's value.
pub uninterp spec fn toml_document(text: Seq<char>) -> Option<TomlValue>;

/// Calls `str::parse::<toml::Value>` (toml's `from_str`) and converts the
/// value. The contract claims that parsing succeeds exactly when the fixed
/// document named `toml_document` exists, and that the value is that
/// document; the text of the error is left unsaid.
#[verifier::external_body]
fn parse_toml(text: &str) -> (r: Result<TomlValue, String>)
    ensures
        r is Ok <==> toml_document(text@) is Some,
        r matches Ok(v) ==> toml_document(text@) == Some(v),
{
    match text.parse::<toml::Value>() {
        Ok(v) => Ok(toml_value_of(&v)),
        Err(e) => Err(e.to_string()),
    }
}

/// Converts a toml value into the library's value, variant for variant; the
/// part of `parse_toml` that follows the call.
#[verifier::external_body]
fn toml_value_of(v: &toml::Value) -> TomlValue {
    match v {
        toml::Value::String(s) => TomlValue::Str(s.clone()),
        toml::Value::Integer(i) => TomlValue::Int(*i),
        toml::Value::Boolean(b) => TomlValue::Bool(*b),
        toml::Value::Array(a) => TomlValue::Array(a.iter().map(toml_value_of).collect()),
        toml::Value::Table(t) => TomlValue::Table(
            t.iter().map(|(k, x)| (k.clone(), toml_value_of(x))).collect(),
        ),
        _ => TomlValue::Other,
    }
}

/// The index of the first entry named `key`, or -1.
pub open spec fn entry_index(entries: Seq<(String, TomlValue)>, key: Seq<char>) -> int
    decreases entries.len(),
{
    if entries.len() == 0 {
        -1
    } else if entry_index(entries.drop_last(), key) >= 0 {
        entry_index(entries.drop_last(), key)
    } else if entries.last().0@ == key {
        entries.len() - 1
    } else {
        -1
    }
}

proof fn lemma_entry_index(entries: Seq<(String, TomlValue)>, key: Seq<char>)
    ensures
        -1 <= entry_index(entries, key) < entries.len(),
        entry_index(entries, key) >= 0 ==> entries[entry_index(entries, key)].0@ == key,
        forall|k: int|
            0 <= k < entries.len() && (entry_index(entries, key) < 0 || k < entry_index(
                entries,
                key,
            )) ==> (#[trigger] entries[k]).0@ != key,
    decreases entries.len(),
{
    if entries.len() > 0 {
        lemma_entry_index(entries.drop_last(), key);
        let prev = entries.drop_last();
        assert forall|k: int| 0 <= k < prev.len() implies #[trigger] entries[k] == prev[k] by {}
    }
}

/// The entry `key` of a table; none for other values or a missing key.
pub open spec fn toml_get(v: TomlValue, key: Seq<char>) -> Option<TomlValue> {
    match v {
        TomlValue::Table(entries) => {
            let i = entry_index(entries@, key);
            if i >= 0 {
                Some(entries@[i].1)
            } else {
                None
            }
        },
        _ => None,
    }
}

/// The entry `key` of an optional value.
pub open spec fn toml_get_opt(v: Option<TomlValue>, key: Seq<char>) -> Option<TomlValue> {
    match v {
        Some(x) => toml_get(x, key),
        None => None,
    }
}

/// The text of a string value.
pub open spec fn toml_str(v: Option<TomlValue>) -> Option<Seq<char>> {
    match v {
        Some(TomlValue::Str(s)) => Some(s@),
        _ => None,
    }
}

/// The value of a boolean.
pub open spec fn toml_bool(v: Option<TomlValue>) -> Option<bool> {
    match v {
        Some(TomlValue::Bool(b)) => Some(b),
        _ => None,
    }
}

/// The items of an array.
pub open spec fn toml_items(v: Option<TomlValue>) -> Option<Seq<TomlValue>> {
    match v {
        Some(TomlValue::Array(items)) => Some(items@),
        _ => None,
    }
}

/// The entries of a table.
pub open spec fn toml_entries(v: Option<TomlValue>) -> Option<Seq<(String, TomlValue)>> {
    match v {
        Some(TomlValue::Table(entries)) => Some(entries@),
        _ => None,
    }
}

/// The value behind an optional reference.
pub open spec fn opt_toml(v: Option<&TomlValue>) -> Option<TomlValue> {
    match v {
        Some(x) => Some(*x),
        None => None,
    }
}

impl TomlValue {
    /// The entry `key` of a table (`Value::get` with a key).
    pub fn get(&self, key: &str) -> (r: Option<&TomlValue>)
        ensures
            opt_toml(r) == toml_get(*self, key@),
    {
        match self {
            TomlValue::Table(entries) => {
                proof {
                    lemma_entry_index(entries@, key@);
                }
                let mut i: usize = 0;
                while i < entries.len()
                    invariant
                        *self == TomlValue::Table(*entries),
                        i <= entries.len(),
                        -1 <= entry_index(entries@, key@) < entries.len(),
                        entry_index(entries@, key@) >= 0 ==> entries@[entry_index(
                            entries@,
                            key@,
                        )].0@ == key@,
                        forall|k: int|
                            0 <= k < entries.len() && (entry_index(entries@, key@) < 0 || k
                                < entry_index(entries@, key@)) ==> (#[trigger] entries@[k]).0@
                                != key@,
                        entry_index(entries@, key@) < 0 || i <= entry_index(entries@, key@),
                    decreases entries.len() - i,
                {
                    if text_eq(entries[i].0.as_str(), key) {
                        assert(entries@[i as int].0@ == key@);
                        return Some(&entries[i].1);
                    }
                    i = i + 1;
                }
                None
            },
            _ => None,
        }
    }
}

/// The entry `key` of an optional value.
pub fn get_in<'a>(v: Option<&'a TomlValue>, key: &str) -> (r: Option<&'a TomlValue>)
    ensures
        opt_toml(r) == toml_get_opt(opt_toml(v), key@),
{
    match v {
        Some(x) => x.get(key),
        None => None,
    }
}

/// The text of an optional string value.
pub fn str_in<'a>(v: Option<&'a TomlValue>) -> (r: Option<&'a str>)
    ensures
        match r {
            Some(s) => toml_str(opt_toml(v)) == Some(s@),
            None => toml_str(opt_toml(v)) is None,
        },
{
    match v {
        Some(TomlValue::Str(s)) => Some(s.as_str()),
        _ => None,
    }
}

/// The value of an optional boolean.
pub fn bool_in(v: Option<&TomlValue>) -> (r: Option<bool>)
    ensures
        r == toml_bool(opt_toml(v)),
{
    match v {
        Some(TomlValue::Bool(b)) => Some(*b),
        _ => None,
    }
}

/// The items of an optional array.
pub fn items_in<'a>(v: Option<&'a TomlValue>) -> (r: Option<&'a Vec<TomlValue>>)
    ensures
        match r {
            Some(items) => toml_items(opt_toml(v)) == Some(items@),
            None => toml_items(opt_toml(v)) is None,
        },
{
    match v {
        Some(TomlValue::Array(items)) => Some(items),
        _ => None,
    }
}

/// The entries of an optional table.
pub fn entries_in<'a>(v: Option<&'a TomlValue>) -> (r: Option<&'a Vec<(String, TomlValue)>>)
    ensures
        match r {
            Some(entries) => toml_entries(opt_toml(v)) == Some(entries@),
            None => toml_entries(opt_toml(v)) is None,
        },
{
    match v {
        Some(TomlValue::Table(entries)) => Some(entries),
        _ => None,
    }
}

/// Why a manifest or lockfile could not be read; holds the parser's message.
#[derive(Debug)]
pub enum CrateError {
    /// A Cargo.toml that is not valid TOML.
    InvalidCargoToml(String),
    /// A Cargo.lock that is not valid TOML.
    InvalidCargoLock(String),
}

impl CrateError {
    /// A one-line description of the error.
    pub fn message(&self) -> (r: String)
        ensures
            r@ == (match self {
                CrateError::InvalidCargoToml(e) => "Failed to parse Cargo.toml: "@ + e@,
                CrateError::InvalidCargoLock(e) => "Failed to parse Cargo.lock: "@ + e@,
            }),
    {
        match self {
            CrateError::InvalidCargoToml(e) => {
                let mut r = String::from_str("Failed to parse Cargo.toml: ");
                r.append(e.as_str());
                r
            },
            CrateError::InvalidCargoLock(e) => {
                let mut r = String::from_str("Failed to parse Cargo.lock: ");
                r.append(e.as_str());
                r
            },
        }
    }
}

/// Parsed metadata from a crate's Cargo.toml.
pub struct CargoMetadata {
    parsed: TomlValue,
}

impl View for CargoMetadata {
    type V = TomlValue;

    closed spec fn view(&self) -> TomlValue {
        self.parsed
    }
}

/// The views of a list of strings.
pub open spec fn string_views(v: Seq<String>) -> Seq<Seq<char>> {
    v.map_values(|s: String| s@)
}

/// The view of an optional string.
pub open spec fn opt_string(o: Option<String>) -> Option<Seq<char>> {
    match o {
        Some(s) => Some(s@),
        None => None,
    }
}

/// The `name` strings of the tables of a list, in order.
pub open spec fn names_of(items: Seq<TomlValue>) -> Seq<Seq<char>>
    decreases items.len(),
{
    if items.len() == 0 {
        seq![]
    } else {
        names_of(items.drop_last()) + match toml_str(toml_get(items.last(), "name"@)) {
            Some(n) => seq![n],
            None => seq![],
        }
    }
}

/// The strings of a list, in order.
pub open spec fn strings_of(items: Seq<TomlValue>) -> Seq<Seq<char>>
    decreases items.len(),
{
    if items.len() == 0 {
        seq![]
    } else {
        strings_of(items.drop_last()) + match items.last() {
            TomlValue::Str(s) => seq![s@],
            _ => seq![],
        }
    }
}

/// The package name of a manifest.
pub open spec fn package_name_of(doc: TomlValue) -> Option<Seq<char>> {
    toml_str(toml_get_opt(toml_get(doc, "package"@), "name"@))
}

/// The binary names of a manifest: the names of its `[[bin]]` sections, or,
/// when they name none, the package name.
pub open spec fn binary_names_of(doc: TomlValue) -> Seq<Seq<char>> {
    let names = match toml_items(toml_get(doc, "bin"@)) {
        Some(bins) => names_of(bins),
        None => seq![],
    };
    if names.len() > 0 {
        names
    } else {
        match package_name_of(doc) {
            Some(n) => seq![n],
            None => seq![],
        }
    }
}

/// A `[package]` string field; one given as `field.workspace = true` comes
/// from the `[workspace.package]` of the workspace manifest, when there is one.
pub open spec fn package_field(doc: TomlValue, field: Seq<char>, ws: Option<TomlValue>) -> Option<
    Seq<char>,
> {
    match toml_get(doc, "package"@) {
        None => None,
        Some(pkg) => match toml_get(pkg, field) {
            None => None,
            Some(val) => if val is Table && toml_bool(toml_get(val, "workspace"@)) == Some(true) {
                match ws {
                    Some(w) => toml_str(
                        toml_get_opt(toml_get_opt(toml_get(w, "workspace"@), "package"@), field),
                    ),
                    None => None,
                }
            } else {
                toml_str(Some(val))
            },
        },
    }
}

/// Whether a dependency entry is marked optional.
pub open spec fn dep_optional(val: TomlValue) -> bool {
    match toml_bool(toml_get(val, "optional"@)) {
        Some(b) => b,
        None => false,
    }
}

/// The (name, optional) pairs of a dependency table, in table order.
pub open spec fn dep_pairs(table: Option<TomlValue>) -> Seq<(Seq<char>, bool)> {
    match toml_entries(table) {
        Some(entries) => entries.map_values(|e: (String, TomlValue)| (e.0@, dep_optional(e.1))),
        None => seq![],
    }
}

/// The views of a list of (name, flag) pairs.
pub open spec fn dep_views(v: Seq<(String, bool)>) -> Seq<(Seq<char>, bool)> {
    v.map_values(|p: (String, bool)| (p.0@, p.1))
}

/// The view of an optional manifest.
pub open spec fn opt_meta(m: Option<&CargoMetadata>) -> Option<TomlValue> {
    match m {
        Some(x) => Some(x@),
        None => None,
    }
}

fn names_of_exec(items: &Vec<TomlValue>) -> (r: Vec<String>)
    ensures
        string_views(r@) == names_of(items@),
{
    let mut out: Vec<String> = Vec::new();
    let mut i: usize = 0;
    assert(items@.take(0) =~= seq![]);
    while i < items.len()
        invariant
            i <= items.len(),
            string_views(out@) == names_of(items@.take(i as int)),
        decreases items.len() - i,
    {
        let ghost cur = items@.take(i + 1);
        assert(cur.drop_last() =~= items@.take(i as int));
        assert(cur.last() == items@[i as int]);
        let ghost before = out@;
        match str_in(items[i].get("name")) {
            Some(n) => {
                out.push(String::from_str(n));
                assert(string_views(out@) =~= string_views(before).push(n@));
            },
            None => {},
        }
        assert(string_views(out@) =~= names_of(cur));
        i = i + 1;
    }
    assert(items@.take(items.len() as int) =~= items@);
    out
}

fn strings_of_exec(items: &Vec<TomlValue>) -> (r: Vec<String>)
    ensures
        string_views(r@) == strings_of(items@),
{
    let mut out: Vec<String> = Vec::new();
    let mut i: usize = 0;
    assert(items@.take(0) =~= seq![]);
    while i < items.len()
        invariant
            i <= items.len(),
            string_views(out@) == strings_of(items@.take(i as int)),
        decreases items.len() - i,
    {
        let ghost cur = items@.take(i + 1);
        assert(cur.drop_last() =~= items@.take(i as int));
        assert(cur.last() == items@[i as int]);
        let ghost before = out@;
        match &items[i] {
            TomlValue::Str(s) => {
                out.push(s.clone());
                assert(string_views(out@) =~= string_views(before).push(s@));
            },
            _ => {},
        }
        assert(string_views(out@) =~= strings_of(cur));
        i = i + 1;
    }
    assert(items@.take(items.len() as int) =~= items@);
    out
}

impl CargoMetadata {
    /// The manifest whose parsed document is `v`.
    pub fn from_value(v: TomlValue) -> (r: Self)
        ensures
            r@ == v,
    {
        CargoMetadata { parsed: v }
    }

    /// Parse a Cargo.toml string.
    pub fn from_toml_str(s: &str) -> (r: Result<Self, CrateError>)
        ensures
            r is Ok <==> toml_document(s@) is Some,
            r matches Ok(m) ==> toml_document(s@) == Some(m@),
            r is Err ==> r matches Err(CrateError::InvalidCargoToml(_)),
    {
        match parse_toml(s) {
            Ok(parsed) => Ok(CargoMetadata { parsed }),
            Err(e) => Err(CrateError::InvalidCargoToml(e)),
        }
    }

    /// Returns the binary names defined in [[bin]] sections.
    /// Falls back to the package name if no [[bin]] sections exist.
    pub fn binary_names(&self) -> (r: Vec<String>)
        ensures
            string_views(r@) == binary_names_of(self@),
    {
        match items_in(self.parsed.get("bin")) {
            Some(bins) => {
                let names = names_of_exec(bins);
                if names.len() > 0 {
                    return names;
                }
            },
            None => {},
        }
        let mut out: Vec<String> = Vec::new();
        match self.package_name() {
            Some(name) => {
                out.push(name);
            },
            None => {},
        }
        assert(string_views(out@) =~= binary_names_of(self@));
        out
    }

    /// Returns workspace member paths, if this is a workspace root.
    /// Note: may contain glob patterns like `crates/*`.
    pub fn workspace_members(&self) -> (r: Vec<String>)
        ensures
            string_views(r@) == (match toml_items(
                toml_get_opt(toml_get(self@, "workspace"@), "members"@),
            ) {
                Some(items) => strings_of(items),
                None => seq![],
            }),
    {
        match items_in(get_in(self.parsed.get("workspace"), "members")) {
            Some(items) => strings_of_exec(items),
            None => {
                let out: Vec<String> = Vec::new();
                assert(string_views(out@) =~= seq![]);
                out
            },
        }
    }

    /// Returns the package name, if present.
    pub fn package_name(&self) -> (r: Option<String>)
        ensures
            opt_string(r) == package_name_of(self@),
    {
        match str_in(get_in(self.parsed.get("package"), "name")) {
            Some(n) => Some(String::from_str(n)),
            None => None,
        }
    }

    /// Returns true if this is a workspace root (has [workspace] section).
    pub fn is_workspace(&self) -> (r: bool)
        ensures
            r == toml_get(self@, "workspace"@) is Some,
    {
        self.parsed.get("workspace").is_some()
    }

    /// Returns true if this has a [package] section (is a buildable crate).
    pub fn has_package(&self) -> (r: bool)
        ensures
            r == toml_get(self@, "package"@) is Some,
    {
        self.parsed.get("package").is_some()
    }

    /// Returns the package version, if present.
    /// Handles `workspace = true` inheritance when `workspace_meta` is provided.
    pub fn version(&self, workspace_meta: Option<&Self>) -> (r: Option<String>)
        ensures
            opt_string(r) == package_field(self@, "version"@, opt_meta(workspace_meta)),
    {
        self.package_field_or_workspace("version", workspace_meta)
    }

    /// Returns the package license, if present.
    pub fn license(&self, workspace_meta: Option<&Self>) -> (r: Option<String>)
        ensures
            opt_string(r) == package_field(self@, "license"@, opt_meta(workspace_meta)),
    {
        self.package_field_or_workspace("license", workspace_meta)
    }

    /// Returns the package description, if present.
    pub fn description(&self, workspace_meta: Option<&Self>) -> (r: Option<String>)
        ensures
            opt_string(r) == package_field(self@, "description"@, opt_meta(workspace_meta)),
    {
        self.package_field_or_workspace("description", workspace_meta)
    }

    /// Returns the package homepage, if present.
    pub fn homepage(&self, workspace_meta: Option<&Self>) -> (r: Option<String>)
        ensures
            opt_string(r) == package_field(self@, "homepage"@, opt_meta(workspace_meta)),
    {
        self.package_field_or_workspace("homepage", workspace_meta)
    }

    /// Returns the package repository, if present.
    pub fn repository(&self, workspace_meta: Option<&Self>) -> (r: Option<String>)
        ensures
            opt_string(r) == package_field(self@, "repository"@, opt_meta(workspace_meta)),
    {
        self.package_field_or_workspace("repository", workspace_meta)
    }

    /// Returns the package documentation URL, if present.
    pub fn documentation(&self, workspace_meta: Option<&Self>) -> (r: Option<String>)
        ensures
            opt_string(r) == package_field(self@, "documentation"@, opt_meta(workspace_meta)),
    {
        self.package_field_or_workspace("documentation", workspace_meta)
    }

    /// Get a [package] string field, falling back to [workspace.package] if `workspace = true`.
    fn package_field_or_workspace(&self, field: &str, workspace_meta: Option<&Self>) -> (r: Option<
        String,
    >)
        ensures
            opt_string(r) == package_field(self@, field@, opt_meta(workspace_meta)),
    {
        let pkg = match self.parsed.get("package") {
            Some(p) => p,
            None => return None,
        };
        let val = match pkg.get(field) {
            Some(v) => v,
            None => return None,
        };
        match val {
            TomlValue::Table(_) => {
                if bool_in(val.get("workspace")) == Some(true) {
                    return match workspace_meta {
                        Some(ws) => match str_in(
                            get_in(get_in(ws.parsed.get("workspace"), "package"), field),
                        ) {
                            Some(v) => Some(String::from_str(v)),
                            None => None,
                        },
                        None => None,
                    };
                }
            },
            _ => {},
        }
        match str_in(Some(val)) {
            Some(v) => Some(String::from_str(v)),
            None => None,
        }
    }

    /// Returns dependency crate names from [dependencies].
    /// Returns pairs of (crate_name, is_optional).
    pub fn dependencies(&self) -> (r: Vec<(String, bool)>)
        ensures
            dep_views(r@) == dep_pairs(toml_get(self@, "dependencies"@)),
    {
        Self::parse_dep_table(self.parsed.get("dependencies"))
    }

    /// Returns build-dependency crate names from [build-dependencies].
    pub fn build_dependencies(&self) -> (r: Vec<String>)
        ensures
            string_views(r@) == dep_pairs(toml_get(self@, "build-dependencies"@)).map_values(
                |p: (Seq<char>, bool)| p.0,
            ),
    {
        let pairs = Self::parse_dep_table(self.parsed.get("build-dependencies"));
        let ghost pv = dep_views(pairs@);
        let mut out: Vec<String> = Vec::new();
        let mut i: usize = 0;
        while i < pairs.len()
            invariant
                i <= pairs.len(),
                pv == dep_views(pairs@),
                string_views(out@) == pv.map_values(|p: (Seq<char>, bool)| p.0).take(i as int),
            decreases pairs.len() - i,
        {
            let ghost before = out@;
            out.push(pairs[i].0.clone());
            assert(string_views(out@) =~= string_views(before).push(pairs@[i as int].0@));
            assert(pv.map_values(|p: (Seq<char>, bool)| p.0).take(i + 1) =~= pv.map_values(
                |p: (Seq<char>, bool)| p.0,
            ).take(i as int).push(pv[i as int].0));
            i = i + 1;
        }
        assert(pv.map_values(|p: (Seq<char>, bool)| p.0).take(pairs.len() as int) =~= pv.map_values(
            |p: (Seq<char>, bool)| p.0,
        ));
        out
    }

    /// Parse a dependency table (either [dependencies] or [build-dependencies]).
    fn parse_dep_table(table: Option<&TomlValue>) -> (r: Vec<(String, bool)>)
        ensures
            dep_views(r@) == dep_pairs(opt_toml(table)),
    {
        let mut out: Vec<(String, bool)> = Vec::new();
        let entries = match entries_in(table) {
            Some(e) => e,
            None => {
                assert(dep_views(out@) =~= seq![]);
                return out;
            },
        };
        let ghost want = entries@.map_values(
            |e: (String, TomlValue)| (e.0@, dep_optional(e.1)),
        );
        let mut i: usize = 0;
        while i < entries.len()
            invariant
                i <= entries.len(),
                toml_entries(opt_toml(table)) == Some(entries@),
                want == entries@.map_values(|e: (String, TomlValue)| (e.0@, dep_optional(e.1))),
                dep_views(out@) == want.take(i as int),
            decreases entries.len() - i,
        {
            let optional = match bool_in(entries[i].1.get("optional")) {
                Some(b) => b,
                None => false,
            };
            let ghost before = out@;
            out.push((entries[i].0.clone(), optional));
            assert(dep_views(out@) =~= dep_views(before).push(want[i as int]));
            assert(want.take(i + 1) =~= want.take(i as int).push(want[i as int]));
            i = i + 1;
        }
        assert(want.take(entries.len() as int) =~= want);
        out
    }
}

/// The package names of a lockfile's `[[package]]` entries, in order.
pub open spec fn lock_package_names(doc: TomlValue) -> Seq<Seq<char>> {
    match toml_items(toml_get(doc, "package"@)) {
        Some(items) => names_of(items),
        None => seq![],
    }
}

/// Parse the text of a Cargo.lock into the names of all the packages of the
/// resolved dependency graph.
pub fn parse_cargo_lock_str(text: &str) -> (r: Result<Vec<String>, CrateError>)
    ensures
        r is Ok <==> toml_document(text@) is Some,
        r matches Ok(names) ==> string_views(names@) == lock_package_names(
            toml_document(text@).unwrap(),
        ),
        r is Err ==> r matches Err(CrateError::InvalidCargoLock(_)),
{
    match parse_toml(text) {
        Ok(doc) => Ok(lock_names_of(&doc)),
        Err(e) => Err(CrateError::InvalidCargoLock(e)),
    }
}

/// The package names of a parsed lockfile's `[[package]]` entries, in order.
pub fn lock_names_of(doc: &TomlValue) -> (r: Vec<String>)
    ensures
        string_views(r@) == lock_package_names(*doc),
{
    match items_in(doc.get("package")) {
        Some(items) => names_of_exec(items),
        None => {
            let out: Vec<String> = Vec::new();
            assert(string_views(out@) =~= seq![]);
            out
        },
    }
}

/// The directory a tree path names when it is `<prefix><dir>/Cargo.toml`
/// with no further slash in `<dir>`.
pub open spec fn glob_dir(prefix: Seq<char>, p: Seq<char>) -> Option<Seq<char>> {
    let rest = p.skip(prefix.len() as int);
    if has_prefix(p, prefix) && has_suffix(rest, "/Cargo.toml"@) && !has_char(
        rest.take(rest.len() - 11),
        '/',
    ) {
        Some(p.take(p.len() - 11))
    } else {
        None
    }
}

/// `result` with the directories matched in the first `n` tree paths
/// appended, each one only when not already present.
pub open spec fn add_glob_matches(
    result: Seq<Seq<char>>,
    prefix: Seq<char>,
    tree: Seq<Seq<char>>,
    n: int,
) -> Seq<Seq<char>>
    decreases n,
{
    if n <= 0 || n > tree.len() {
        result
    } else {
        let r = add_glob_matches(result, prefix, tree, n - 1);
        match glob_dir(prefix, tree[n - 1]) {
            Some(d) => if r.contains(d) {
                r
            } else {
                r.push(d)
            },
            None => r,
        }
    }
}

/// The members resolved from the first `n` patterns: a pattern with a `*`
/// expands to the matching directories (the part before the first `*`
/// being the prefix), any other is kept as it is.
pub open spec fn resolve_members(members: Seq<Seq<char>>, tree: Seq<Seq<char>>, n: int) -> Seq<
    Seq<char>,
>
    decreases n,
{
    if n <= 0 || n > members.len() {
        seq![]
    } else {
        let r = resolve_members(members, tree, n - 1);
        let m = members[n - 1];
        if has_char(m, '*') {
            add_glob_matches(r, m.take(index_of(m, '*')), tree, tree.len() as int)
        } else {
            r.push(m)
        }
    }
}

fn contains_string(v: &Vec<String>, s: &str) -> (r: bool)
    ensures
        r == string_views(v@).contains(s@),
{
    let mut i: usize = 0;
    while i < v.len()
        invariant
            i <= v.len(),
            forall|k: int| 0 <= k < i ==> v@[k]@ != s@,
        decreases v.len() - i,
    {
        if text_eq(v[i].as_str(), s) {
            assert(string_views(v@)[i as int] == s@);
            return true;
        }
        i = i + 1;
    }
    assert forall|k: int| 0 <= k < string_views(v@).len() implies string_views(v@)[k] != s@ by {
        assert(string_views(v@)[k] == v@[k]@);
    }
    false
}

fn glob_dir_exec<'a>(prefix: &str, p: &'a str) -> (r: Option<&'a str>)
    ensures
        match r {
            Some(d) => glob_dir(prefix@, p@) == Some(d@),
            None => glob_dir(prefix@, p@) is None,
        },
{
    proof {
        reveal_strlit("/Cargo.toml");
    }
    if !starts_with(p, prefix) {
        return None;
    }
    let n = p.unicode_len();
    let plen = prefix.unicode_len();
    let rest = slice(p, plen, n);
    assert(rest@ =~= p@.skip(plen as int));
    if !ends_with(rest, "/Cargo.toml") {
        return None;
    }
    let rlen = rest.unicode_len();
    let inner = slice(rest, 0, rlen - 11);
    assert(inner@ =~= rest@.take(rlen - 11));
    if contains_char(inner, '/') {
        return None;
    }
    let d = slice(p, 0, n - 11);
    assert(d@ =~= p@.take(n - 11));
    Some(d)
}

/// Resolve workspace member patterns against a file tree.
/// Expands glob patterns like `crates/*` by finding directories that contain `Cargo.toml`.
/// Literal members are returned as-is.
pub fn resolve_workspace_members(members: &[String], tree: &[String]) -> (r: Vec<String>)
    ensures
        string_views(r@) == resolve_members(
            members@.map_values(|s: String| s@),
            tree@.map_values(|s: String| s@),
            members@.len() as int,
        ),
{
    let ghost mv = members@.map_values(|s: String| s@);
    let ghost tv = tree@.map_values(|s: String| s@);
    let mut result: Vec<String> = Vec::new();
    let mut i: usize = 0;
    while i < members.len()
        invariant
            i <= members.len(),
            mv == members@.map_values(|s: String| s@),
            tv == tree@.map_values(|s: String| s@),
            string_views(result@) == resolve_members(mv, tv, i as int),
        decreases members.len() - i,
    {
        let member = members[i].as_str();
        assert(mv[i as int] == member@);
        if contains_char(member, '*') {
            let star = find_char_from(member, '*', 0);
            assert(member@.skip(0) =~= member@);
            let prefix = slice(member, 0, star);
            assert(prefix@ =~= member@.take(index_of(member@, '*')));
            let ghost start = string_views(result@);
            let mut j: usize = 0;
            while j < tree.len()
                invariant
                    j <= tree.len(),
                    tv == tree@.map_values(|s: String| s@),
                    string_views(result@) == add_glob_matches(start, prefix@, tv, j as int),
                decreases tree.len() - j,
            {
                let path = tree[j].as_str();
                assert(tv[j as int] == path@);
                match glob_dir_exec(prefix, path) {
                    Some(dir) => {
                        if !contains_string(&result, dir) {
                            let ghost before = result@;
                            result.push(String::from_str(dir));
                            assert(string_views(result@) =~= string_views(before).push(dir@));
                        }
                    },
                    None => {},
                }
                j = j + 1;
            }
        } else {
            let ghost before = result@;
            result.push(members[i].clone());
            assert(string_views(result@) =~= string_views(before).push(member@));
        }
        i = i + 1;
    }
    result
}

proof fn lemma_literal_members(members: Seq<Seq<char>>, tree: Seq<Seq<char>>, n: int)
    requires
        0 <= n <= members.len(),
        forall|k: int| 0 <= k < members.len() ==> !has_char(#[trigger] members[k], '*'),
    ensures
        resolve_members(members, tree, n) == members.take(n),
    decreases n,
{
    if n > 0 {
        lemma_literal_members(members, tree, n - 1);
        assert(members.take(n) =~= members.take(n - 1).push(members[n - 1]));
    } else {
        assert(members.take(0) =~= seq![]);
    }
}

/// Literal members, with no `*`, are returned as they are, in order.
pub proof fn law_literal_members_unchanged(members: Seq<Seq<char>>, tree: Seq<Seq<char>>)
    requires
        forall|k: int| 0 <= k < members.len() ==> !has_char(#[trigger] members[k], '*'),
    ensures
        resolve_members(members, tree, members.len() as int) == members,
{
    lemma_literal_members(members, tree, members.len() as int);
    assert(members.take(members.len() as int) =~= members);
}

/// An upper-cased root-level file name that names a license file.
pub open spec fn license_pattern(upper: Seq<char>) -> bool {
    has_prefix(upper, "LICENSE"@) || has_prefix(upper, "LICENCE"@) || has_prefix(upper, "COPYING"@)
}

/// The file names, paired with their upper-case forms, that are root-level
/// license files, in order.
pub open spec fn license_candidates(ps: Seq<(Seq<char>, Seq<char>)>) -> Seq<Seq<char>>
    decreases ps.len(),
{
    if ps.len() == 0 {
        seq![]
    } else {
        license_candidates(ps.drop_last()) + if !has_char(ps.last().0, '/') && license_pattern(
            ps.last().1,
        ) {
            seq![ps.last().0]
        } else {
            seq![]
        }
    }
}

/// Where `x` goes in a sorted list: before the first element it sorts before.
pub open spec fn insert_pos(s: Seq<Seq<char>>, x: Seq<char>) -> int
    decreases s.len(),
{
    if s.len() == 0 {
        0
    } else if lex_lt(x, s[0]) {
        0
    } else {
        1 + insert_pos(s.drop_first(), x)
    }
}

/// The strings of a list in ascending order (an insertion sort, stable).
pub open spec fn sort_strings(v: Seq<Seq<char>>) -> Seq<Seq<char>>
    decreases v.len(),
{
    if v.len() == 0 {
        seq![]
    } else {
        let s = sort_strings(v.drop_last());
        s.insert(insert_pos(s, v.last()), v.last())
    }
}

/// No element sorts before one that comes earlier.
pub open spec fn is_sorted(s: Seq<Seq<char>>) -> bool {
    forall|i: int, j: int| 0 <= i < j < s.len() ==> !lex_lt(#[trigger] s[j], #[trigger] s[i])
}

proof fn lemma_insert_pos(s: Seq<Seq<char>>, x: Seq<char>, j: int)
    requires
        0 <= j <= s.len(),
        forall|k: int| 0 <= k < j ==> !lex_lt(x, #[trigger] s[k]),
        j == s.len() || lex_lt(x, s[j]),
    ensures
        insert_pos(s, x) == j,
    decreases j,
{
    if j > 0 {
        assert forall|k: int| 0 <= k < j - 1 implies !lex_lt(x, #[trigger] s.drop_first()[k]) by {
            assert(s.drop_first()[k] == s[k + 1]);
        }
        lemma_insert_pos(s.drop_first(), x, j - 1);
    }
}

pub(crate) proof fn lemma_insert_pos_bounds(s: Seq<Seq<char>>, x: Seq<char>)
    ensures
        0 <= insert_pos(s, x) <= s.len(),
        forall|k: int| 0 <= k < insert_pos(s, x) ==> !lex_lt(x, #[trigger] s[k]),
        insert_pos(s, x) < s.len() ==> lex_lt(x, s[insert_pos(s, x)]),
    decreases s.len(),
{
    if s.len() > 0 && !lex_lt(x, s[0]) {
        lemma_insert_pos_bounds(s.drop_first(), x);
        assert forall|k: int| 0 <= k < insert_pos(s, x) implies !lex_lt(x, #[trigger] s[k]) by {
            if k > 0 {
                assert(s[k] == s.drop_first()[k - 1]);
            }
        }
    }
}

pub proof fn lemma_sort_strings(v: Seq<Seq<char>>)
    ensures
        is_sorted(sort_strings(v)),
        sort_strings(v).to_multiset() == v.to_multiset(),
    decreases v.len(),
{
    broadcast use vstd::seq_lib::to_multiset_insert, vstd::seq_lib::to_multiset_build;

    if v.len() > 0 {
        lemma_sort_strings(v.drop_last());
        let s = sort_strings(v.drop_last());
        let x = v.last();
        let p = insert_pos(s, x);
        lemma_insert_pos_bounds(s, x);
        let t = s.insert(p, x);
        assert forall|i: int, j: int| 0 <= i < j < t.len() implies !lex_lt(
            #[trigger] t[j],
            #[trigger] t[i],
        ) by {
            if j < p {
                assert(t[i] == s[i] && t[j] == s[j]);
            } else if j == p {
                assert(t[i] == s[i]);
                assert(!lex_lt(x, s[i]));
            } else if i == p {
                assert(t[j] == s[j - 1]);
                lemma_lex_irreflexive(s[p]);
                if lex_lt(s[j - 1], x) {
                    if j - 1 > p {
                        assert(!lex_lt(s[j - 1], s[p]));
                    }
                    lemma_lex_transitive(s[j - 1], x, s[p]);
                }
            } else if i < p {
                assert(t[i] == s[i] && t[j] == s[j - 1]);
                assert(!lex_lt(s[j - 1], s[i]));
            } else {
                assert(t[i] == s[i - 1] && t[j] == s[j - 1]);
                assert(!lex_lt(s[j - 1], s[i - 1]));
            }
        }
        assert(sort_strings(v) == t);
        assert(v =~= v.drop_last().push(x));
        assert(t.to_multiset() == s.to_multiset().insert(x));
        assert(v.drop_last().push(x).to_multiset() == v.drop_last().to_multiset().insert(x));
    } else {
        assert(v =~= sort_strings(v));
    }
}

pub(crate) fn sorted_insert_position(found: &Vec<String>, x: &str) -> (r: usize)
    ensures
        r == insert_pos(string_views(found@), x@),
{
    let ghost sv = string_views(found@);
    let mut k: usize = 0;
    while k < found.len()
        invariant
            k <= found.len(),
            sv == string_views(found@),
            forall|m: int| 0 <= m < k ==> !lex_lt(x@, #[trigger] sv[m]),
        decreases found.len() - k,
    {
        assert(sv[k as int] == found@[k as int]@);
        if less_than(x, found[k].as_str()) {
            proof {
                lemma_insert_pos(sv, x@, k as int);
            }
            return k;
        }
        k = k + 1;
    }
    proof {
        lemma_insert_pos(sv, x@, k as int);
    }
    k
}

/// The root-level license files among file names given with their
/// upper-case forms, in ascending order.
pub fn license_files_from(pairs: &Vec<(String, String)>) -> (r: Vec<String>)
    ensures
        string_views(r@) == sort_strings(license_candidates(pairs.deep_view())),
        is_sorted(string_views(r@)),
        string_views(r@).to_multiset() == license_candidates(pairs.deep_view()).to_multiset(),
        forall|i: int|
            0 <= i < r@.len() ==> !has_char(#[trigger] string_views(r@)[i], '/'),
{
    let ghost ps = pairs.deep_view();
    let mut found: Vec<String> = Vec::new();
    let mut i: usize = 0;
    assert(ps.take(0) =~= seq![]);
    while i < pairs.len()
        invariant
            i <= pairs.len(),
            ps == pairs.deep_view(),
            string_views(found@) == sort_strings(license_candidates(ps.take(i as int))),
        decreases pairs.len() - i,
    {
        let name = pairs[i].0.as_str();
        let upper = pairs[i].1.as_str();
        let ghost cur = ps.take(i + 1);
        assert(cur.drop_last() =~= ps.take(i as int));
        assert(cur.last() == (name@, upper@));
        if !contains_char(name, '/') && (starts_with(upper, "LICENSE") || starts_with(
            upper,
            "LICENCE",
        ) || starts_with(upper, "COPYING")) {
            let k = sorted_insert_position(&found, name);
            let ghost before = string_views(found@);
            proof {
                lemma_insert_pos_bounds(before, name@);
            }
            found.insert(k, String::from_str(name));
            assert(string_views(found@) =~= before.insert(k as int, name@));
            let ghost cands = license_candidates(cur);
            assert(cands.drop_last() =~= license_candidates(ps.take(i as int)));
            assert(cands =~= license_candidates(ps.take(i as int)).push(name@));
        } else {
            assert(license_candidates(cur) =~= license_candidates(ps.take(i as int)));
        }
        i = i + 1;
    }
    assert(ps.take(pairs.len() as int) =~= ps);
    proof {
        lemma_sort_strings(license_candidates(ps));
        lemma_candidates_root_level(ps);
        let sv = string_views(found@);
        let cands = license_candidates(ps);
        assert forall|i: int| 0 <= i < found@.len() implies !has_char(
            #[trigger] string_views(found@)[i],
            '/',
        ) by {
            vstd::seq_lib::to_multiset_contains(sv, sv[i]);
            vstd::seq_lib::to_multiset_contains(cands, sv[i]);
            assert(sv.contains(sv[i]));
            let k = choose|k: int| 0 <= k < cands.len() && cands[k] == sv[i];
        }
    }
    found
}

proof fn lemma_candidates_root_level(ps: Seq<(Seq<char>, Seq<char>)>)
    ensures
        forall|k: int|
            0 <= k < license_candidates(ps).len() ==> !has_char(
                #[trigger] license_candidates(ps)[k],
                '/',
            ),
    decreases ps.len(),
{
    if ps.len() > 0 {
        lemma_candidates_root_level(ps.drop_last());
        let prev = license_candidates(ps.drop_last());
        assert forall|k: int| 0 <= k < license_candidates(ps).len() implies !has_char(
            #[trigger] license_candidates(ps)[k],
            '/',
        ) by {
            if k < prev.len() {
                assert(license_candidates(ps)[k] == prev[k]);
            }
        }
    }
}

/// The file names, each paired with its upper-case form.
pub open spec fn upper_pairs(names: Seq<Seq<char>>) -> Seq<(Seq<char>, Seq<char>)> {
    names.map_values(|n: Seq<char>| (n, uppercase(n)))
}

/// Given a list of file paths in the source archive, detect license files.
/// Only considers root-level files (no directory separators).
/// Matches common patterns: LICENSE, LICENSE.md, LICENSE.txt, LICENCE, COPYING,
/// LICENSE-MIT, LICENSE-APACHE, etc.
pub fn detect_license_files(file_names: &[String]) -> (r: Vec<String>)
    ensures
        string_views(r@) == sort_strings(
            license_candidates(upper_pairs(file_names@.map_values(|s: String| s@))),
        ),
        is_sorted(string_views(r@)),
        forall|i: int|
            0 <= i < r@.len() ==> !has_char(#[trigger] string_views(r@)[i], '/'),
{
    let ghost names = file_names@.map_values(|s: String| s@);
    let mut pairs: Vec<(String, String)> = Vec::new();
    let mut i: usize = 0;
    while i < file_names.len()
        invariant
            i <= file_names.len(),
            names == file_names@.map_values(|s: String| s@),
            pairs.deep_view() == upper_pairs(names).take(i as int),
        decreases file_names.len() - i,
    {
        let f = file_names[i].as_str();
        let upper = to_uppercase(f);
        let ghost before = pairs.deep_view();
        assert(names[i as int] == f@);
        pairs.push((String::from_str(f), upper));
        assert(pairs.deep_view() =~= before.push((f@, uppercase(f@))));
        assert(upper_pairs(names).take(i + 1) =~= upper_pairs(names).take(i as int).push(
            (f@, uppercase(f@)),
        ));
        i = i + 1;
    }
    assert(upper_pairs(names).take(file_names.len() as int) =~= upper_pairs(names));
    license_files_from(&pairs)
}

} // verus!
