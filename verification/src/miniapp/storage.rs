//! Where a MiniApp's files live under the MiniApps root, and the dependency list of
//! its `package.json`.

use vstd::prelude::*;
use std::path::PathBuf;
use crate::paths::{clone_path, decimal, decimal_text, planned, PathStart, PlannedPath};

verus! {

pub const META_JSON: &'static str = "meta.json";
pub const SOURCE_DIR: &'static str = "source";
pub const INDEX_HTML: &'static str = "index.html";
pub const STYLE_CSS: &'static str = "style.css";
pub const UI_JS: &'static str = "ui.js";
pub const WORKER_JS: &'static str = "worker.js";
pub const PACKAGE_JSON: &'static str = "package.json";
pub const ESM_DEPS_JSON: &'static str = "esm_dependencies.json";
pub const COMPILED_HTML: &'static str = "compiled.html";
pub const STORAGE_JSON: &'static str = "storage.json";
pub const VERSIONS_DIR: &'static str = "versions";
pub const DRAFTS_DIR: &'static str = ".drafts";
pub const DRAFTS_CLEANUP_PREFIX: &'static str = ".drafts.cleanup-";
pub const DRAFTS_CLEANUP_MARKER: &'static str = ".cleanup-pending";
pub const DRAFT_JSON: &'static str = "draft.json";
pub const CUSTOMIZATION_JSON: &'static str = ".customization.json";

fn text(s: &str) -> (r: String)
    ensures
        r@ == s@,
{
    String::from_str(s)
}

fn path_of(root: &PathBuf, parts: Vec<String>) -> (r: PlannedPath)
    ensures
        r.starts_at(*root),
        r.components == parts,
{
    planned(PathStart::Given(clone_path(root)), parts)
}

/// The files of one MiniApp under the MiniApps root.
#[derive(Debug)]
pub struct MiniAppStorageLayout {
    miniapps_root: PathBuf,
    app_id: String,
}

/// The name of a version file: `v<version>.json`.
pub open spec fn version_file_name(version: u32) -> Seq<char> {
    "v"@ + decimal(version as nat) + ".json"@
}

impl MiniAppStorageLayout {
    /// The MiniApps root.
    pub closed spec fn root(&self) -> PathBuf {
        self.miniapps_root
    }

    /// The MiniApp's id.
    pub closed spec fn id(&self) -> Seq<char> {
        self.app_id@
    }

    /// The layout of MiniApp `app_id` under `miniapps_root`.
    pub fn new(miniapps_root: &PathBuf, app_id: &str) -> (r: Self)
        ensures
            r.root() == *miniapps_root,
            r.id() == app_id@,
    {
        MiniAppStorageLayout { miniapps_root: clone_path(miniapps_root), app_id: text(app_id) }
    }

    fn in_app_dir(&self, names: Vec<String>) -> (r: PlannedPath)
        ensures
            r.starts_at(self.root()),
            r.parts() == seq![self.id()] + names@.map_values(|c: String| c@),
    {
        let ghost parts = names@.map_values(|c: String| c@);
        let mut all = Vec::new();
        all.push(self.app_id.clone());
        let n = names.len();
        let mut i: usize = 0;
        while i < n
            invariant
                n == names@.len(),
                0 <= i <= n,
                all@.map_values(|c: String| c@) == seq![self.app_id@] + parts.subrange(0, i as int),
                names@.map_values(|c: String| c@) == parts,
            decreases n - i,
        {
            let ghost before = all@;
            let next = names[i].clone();
            all.push(next);
            proof {
                assert(parts[i as int] == names@[i as int]@);
                assert(all@ == before.push(next));
                assert(all@.map_values(|c: String| c@) =~= before.map_values(|c: String| c@).push(next@));
                assert(all@.map_values(|c: String| c@) =~= seq![self.app_id@] + parts.subrange(0, i + 1));
            }
            i = i + 1;
        }
        assert(parts.subrange(0, n as int) =~= parts);
        path_of(&self.miniapps_root, all)
    }

    fn one(&self, name: &str) -> (r: PlannedPath)
        ensures
            r.starts_at(self.root()),
            r.parts() == seq![self.id(), name@],
    {
        let mut names = Vec::new();
        names.push(text(name));
        assert(names@.map_values(|c: String| c@) =~= seq![name@]);
        let r = self.in_app_dir(names);
        assert(seq![self.id()] + seq![name@] =~= seq![self.id(), name@]);
        r
    }

    /// The MiniApp's directory: `<root>/<app_id>`.
    pub fn app_dir(&self) -> (r: PlannedPath)
        ensures
            r.starts_at(self.root()),
            r.parts() == seq![self.id()],
    {
        let names: Vec<String> = Vec::new();
        assert(names@.map_values(|c: String| c@) =~= Seq::<Seq<char>>::empty());
        let r = self.in_app_dir(names);
        assert(seq![self.id()] + Seq::<Seq<char>>::empty() =~= seq![self.id()]);
        r
    }

    /// `<root>/<app_id>/source`.
    pub fn source_dir(&self) -> (r: PlannedPath)
        ensures
            r.starts_at(self.root()),
            r.parts() == seq![self.id(), "source"@],
    {
        self.one(SOURCE_DIR)
    }

    /// `<root>/<app_id>/meta.json`.
    pub fn meta_path(&self) -> (r: PlannedPath)
        ensures
            r.starts_at(self.root()),
            r.parts() == seq![self.id(), "meta.json"@],
    {
        self.one(META_JSON)
    }

    /// `<root>/<app_id>/compiled.html`.
    pub fn compiled_path(&self) -> (r: PlannedPath)
        ensures
            r.starts_at(self.root()),
            r.parts() == seq![self.id(), "compiled.html"@],
    {
        self.one(COMPILED_HTML)
    }

    /// `<root>/<app_id>/storage.json`.
    pub fn storage_path(&self) -> (r: PlannedPath)
        ensures
            r.starts_at(self.root()),
            r.parts() == seq![self.id(), "storage.json"@],
    {
        self.one(STORAGE_JSON)
    }

    /// `<root>/<app_id>/.customization.json`.
    pub fn customization_path(&self) -> (r: PlannedPath)
        ensures
            r.starts_at(self.root()),
            r.parts() == seq![self.id(), ".customization.json"@],
    {
        self.one(CUSTOMIZATION_JSON)
    }

    /// `<root>/<app_id>/source/<file_name>`.
    pub fn source_file_path(&self, file_name: &str) -> (r: PlannedPath)
        ensures
            r.starts_at(self.root()),
            r.parts() == seq![self.id(), "source"@, file_name@],
    {
        let mut names = Vec::new();
        names.push(text(SOURCE_DIR));
        names.push(text(file_name));
        assert(names@.map_values(|c: String| c@) =~= seq!["source"@, file_name@]);
        let r = self.in_app_dir(names);
        assert(seq![self.id()] + seq!["source"@, file_name@] =~= seq![self.id(), "source"@, file_name@]);
        r
    }

    /// `<root>/<app_id>/package.json`.
    pub fn package_json_path(&self) -> (r: PlannedPath)
        ensures
            r.starts_at(self.root()),
            r.parts() == seq![self.id(), "package.json"@],
    {
        self.one(PACKAGE_JSON)
    }

    /// `<root>/<app_id>/versions`.
    pub fn versions_dir(&self) -> (r: PlannedPath)
        ensures
            r.starts_at(self.root()),
            r.parts() == seq![self.id(), "versions"@],
    {
        self.one(VERSIONS_DIR)
    }

    /// `<root>/<app_id>/versions/v<version>.json`.
    pub fn version_path(&self, version: u32) -> (r: PlannedPath)
        ensures
            r.starts_at(self.root()),
            r.parts() == seq![self.id(), "versions"@, version_file_name(version)],
    {
        let file = text("v").concat(decimal_text(version).as_str()).concat(".json");
        let mut names = Vec::new();
        names.push(text(VERSIONS_DIR));
        names.push(file);
        assert(names@.map_values(|c: String| c@) =~= seq!["versions"@, version_file_name(version)]);
        let r = self.in_app_dir(names);
        assert(seq![self.id()] + seq!["versions"@, version_file_name(version)] =~= seq![
            self.id(),
            "versions"@,
            version_file_name(version),
        ]);
        r
    }

    /// The root of all drafts: `<root>/.drafts`.
    pub fn drafts_root(miniapps_root: &PathBuf) -> (r: PlannedPath)
        ensures
            r.starts_at(*miniapps_root),
            r.parts() == seq![".drafts"@],
    {
        let mut parts = Vec::new();
        parts.push(text(DRAFTS_DIR));
        let r = path_of(miniapps_root, parts);
        assert(r.parts() =~= seq![".drafts"@]);
        r
    }

    /// The drafts of one MiniApp: `<root>/.drafts/<app_id>`.
    pub fn app_drafts_dir(miniapps_root: &PathBuf, app_id: &str) -> (r: PlannedPath)
        ensures
            r.starts_at(*miniapps_root),
            r.parts() == seq![".drafts"@, app_id@],
    {
        let mut parts = Vec::new();
        parts.push(text(DRAFTS_DIR));
        parts.push(text(app_id));
        let r = path_of(miniapps_root, parts);
        assert(r.parts() =~= seq![".drafts"@, app_id@]);
        r
    }

    /// One draft: `<root>/.drafts/<app_id>/<draft_id>`.
    pub fn draft_dir(miniapps_root: &PathBuf, app_id: &str, draft_id: &str) -> (r: PlannedPath)
        ensures
            r.starts_at(*miniapps_root),
            r.parts() == seq![".drafts"@, app_id@, draft_id@],
    {
        let mut parts = Vec::new();
        parts.push(text(DRAFTS_DIR));
        parts.push(text(app_id));
        parts.push(text(draft_id));
        let r = path_of(miniapps_root, parts);
        assert(r.parts() =~= seq![".drafts"@, app_id@, draft_id@]);
        r
    }

    /// A draft's sources: `<root>/.drafts/<app_id>/<draft_id>/source`.
    pub fn draft_source_dir(miniapps_root: &PathBuf, app_id: &str, draft_id: &str) -> (r: PlannedPath)
        ensures
            r.starts_at(*miniapps_root),
            r.parts() == seq![".drafts"@, app_id@, draft_id@, "source"@],
    {
        let mut r = Self::draft_dir(miniapps_root, app_id, draft_id);
        let ghost before = r.components@;
        let last = text(SOURCE_DIR);
        r.components.push(last);
        assert(r.components@ == before.push(last));
        assert(r.parts() =~= before.map_values(|c: String| c@).push(last@));
        assert(r.parts() =~= seq![".drafts"@, app_id@, draft_id@, "source"@]);
        r
    }

    /// A draft's manifest: `<root>/.drafts/<app_id>/<draft_id>/draft.json`.
    pub fn draft_manifest_path(miniapps_root: &PathBuf, app_id: &str, draft_id: &str) -> (r: PlannedPath)
        ensures
            r.starts_at(*miniapps_root),
            r.parts() == seq![".drafts"@, app_id@, draft_id@, "draft.json"@],
    {
        let mut r = Self::draft_dir(miniapps_root, app_id, draft_id);
        let ghost before = r.components@;
        let last = text(DRAFT_JSON);
        r.components.push(last);
        assert(r.components@ == before.push(last));
        assert(r.parts() =~= before.map_values(|c: String| c@).push(last@));
        assert(r.parts() =~= seq![".drafts"@, app_id@, draft_id@, "draft.json"@]);
        r
    }

    /// A drafts root set aside for removal: `<root>/.drafts.cleanup-<cleanup_id>`.
    pub fn cleanup_drafts_root(miniapps_root: &PathBuf, cleanup_id: &str) -> (r: PlannedPath)
        ensures
            r.starts_at(*miniapps_root),
            r.parts() == seq![".drafts.cleanup-"@ + cleanup_id@],
    {
        let mut parts = Vec::new();
        parts.push(text(DRAFTS_CLEANUP_PREFIX).concat(cleanup_id));
        let r = path_of(miniapps_root, parts);
        assert(r.parts() =~= seq![".drafts.cleanup-"@ + cleanup_id@]);
        r
    }
}

/// An npm dependency of a MiniApp: a package and its version range.
#[derive(Debug, PartialEq, Eq)]
pub struct NpmDep {
    pub name: String,
    pub version: String,
}

/// An entry of the `dependencies` object of a `package.json`: the package and its
/// value, when that value is a string.
#[derive(Debug)]
pub struct DependencyEntry {
    pub name: String,
    pub version: Option<String>,
}

/// The dependency that an entry stands for: a value that is not a string allows
/// any version (`*`).
pub open spec fn dep_of_entry(e: DependencyEntry, d: NpmDep) -> bool {
    &&& d.name == e.name
    &&& d.version@ == (match e.version {
        Some(v) => v@,
        None => "*"@,
    })
}

/// The dependencies of a `package.json` from the entries of its `dependencies`
/// object, in their order; none when it has no such object.
pub fn npm_dependencies_from_entries(entries: Option<Vec<DependencyEntry>>) -> (r: Vec<NpmDep>)
    ensures
        entries is None ==> r@.len() == 0,
        entries matches Some(v) ==> r@.len() == v@.len() && forall|i: int|
            0 <= i < v@.len() ==> dep_of_entry(#[trigger] v@[i], r@[i]),
{
    let entries = match entries {
        Some(v) => v,
        None => return Vec::new(),
    };
    let mut deps: Vec<NpmDep> = Vec::new();
    let n = entries.len();
    let mut i: usize = 0;
    while i < n
        invariant
            n == entries@.len(),
            0 <= i <= n,
            deps@.len() == i,
            forall|j: int| 0 <= j < i ==> dep_of_entry(#[trigger] entries@[j], deps@[j]),
        decreases n - i,
    {
        let e = &entries[i];
        let version = match &e.version {
            Some(v) => v.clone(),
            None => text("*"),
        };
        deps.push(NpmDep { name: e.name.clone(), version });
        i = i + 1;
    }
    deps
}

#[verifier::external_type_specification]
#[verifier::external_body]
pub struct ExJsonError(serde_json::Error);

/// The entries of the object-valued member `member` of the JSON document `text`:
/// `None` when `text` is not a JSON document; `Some(None)` when the document is not
/// an object or has no such member or the member is not an object; otherwise each
/// key of the member, in the order of `serde_json`'s map, with its value when that
/// value is a JSON string.
pub uninterp spec fn json_member_entries(text: Seq<char>, member: Seq<char>) -> Option<
    Option<Seq<(Seq<char>, Option<Seq<char>>)>>,
>;

/// The entries as texts.
pub open spec fn entry_views(entries: Seq<DependencyEntry>) -> Seq<(Seq<char>, Option<Seq<char>>)> {
    entries.map_values(
        |e: DependencyEntry|
            (
                e.name@,
                match e.version {
                    Some(v) => Some(v@),
                    None => None,
                },
            ),
    )
}

/// `serde_json::from_str` into a `Value`, then the member `member` read as an
/// object (`Value::get`, `Value::as_object`) and each of its values read as a
/// string (`Value::as_str`). The keys of a `serde_json` map are distinct.
#[verifier::external_body]
fn json_member_string_entries(text: &str, member: &str) -> (r: Result<
    Option<Vec<DependencyEntry>>,
    serde_json::Error,
>)
    ensures
        match r {
            Err(_) => json_member_entries(text@, member@) is None,
            Ok(None) => json_member_entries(text@, member@) == Some(
                None::<Seq<(Seq<char>, Option<Seq<char>>)>>,
            ),
            Ok(Some(v)) => json_member_entries(text@, member@) == Some(Some(entry_views(v@)))
                && forall|i: int, j: int|
                0 <= i < v@.len() && 0 <= j < v@.len() && i != j ==> #[trigger] v@[i].name@ != #[trigger] v@[j].name@,
        },
{
    let value: serde_json::Value = serde_json::from_str(text)?;
    Ok(value.get(member).and_then(|m| m.as_object()).map(|object| {
        object.iter().map(|(name, v)| DependencyEntry {
            name: name.clone(),
            version: v.as_str().map(|t| t.to_string()),
        }).collect()
    }))
}

/// A `package.json` text that is not a JSON document.
#[derive(Debug)]
pub struct PackageJsonError {
    pub json: serde_json::Error,
}

/// The dependencies of a `package.json` text: an error when the text is not JSON,
/// none when it has no object-valued `dependencies` member, and otherwise one per
/// key of that member, whose version is the key's value when that is a string and
/// any version (`*`) when it is not.
pub fn parse_npm_dependencies(package_json: &str) -> (r: Result<Vec<NpmDep>, PackageJsonError>)
    ensures
        match json_member_entries(package_json@, "dependencies"@) {
            None => r is Err,
            Some(None) => r matches Ok(v) && v@.len() == 0,
            Some(Some(es)) => r matches Ok(v) && v@.len() == es.len() && names_distinct(v@) && forall|i: int|
                0 <= i < es.len() ==> (#[trigger] v@[i]).name@ == es[i].0 && v@[i].version@ == (match es[i].1 {
                    Some(t) => t,
                    None => "*"@,
                }),
        },
{
    match json_member_string_entries(package_json, "dependencies") {
        Err(json) => Err(PackageJsonError { json }),
        Ok(entries) => {
            let ghost g = entries;
            let deps = npm_dependencies_from_entries(entries);
            proof {
                if let Some(v) = g {
                    assert forall|i: int| 0 <= i < v@.len() implies (#[trigger] deps@[i]).name@ == entry_views(v@)[i].0
                        && deps@[i].version@ == (match entry_views(v@)[i].1 {
                        Some(t) => t,
                        None => "*"@,
                    }) by {
                        assert(dep_of_entry(v@[i], deps@[i]));
                    }
                    assert forall|i: int, j: int| 0 <= i < deps@.len() && 0 <= j < deps@.len() && i != j
                        implies #[trigger] deps@[i].name@ != #[trigger] deps@[j].name@ by {
                        assert(dep_of_entry(v@[i], deps@[i]));
                        assert(dep_of_entry(v@[j], deps@[j]));
                    }
                }
            }
            Ok(deps)
        },
    }
}

/// The dependency versions by package: a later entry of a package wins.
pub open spec fn dependency_map(deps: Seq<NpmDep>) -> Map<Seq<char>, Seq<char>>
    decreases deps.len(),
{
    if deps.len() == 0 {
        Map::empty()
    } else {
        dependency_map(deps.drop_last()).insert(deps.last().name@, deps.last().version@)
    }
}

/// No two dependencies name the same package.
pub open spec fn names_distinct(deps: Seq<NpmDep>) -> bool {
    forall|i: int, j: int| 0 <= i < deps.len() && 0 <= j < deps.len() && i != j ==> #[trigger] deps[i].name@ != #[trigger] deps[j].name@
}

#[verifier::external_type_specification]
#[verifier::external_body]
pub struct ExJsonValue(serde_json::Value);

#[verifier::external_type_specification]
#[verifier::external_body]
#[verifier::reject_recursive_types(K)]
#[verifier::reject_recursive_types(V)]
pub struct ExJsonMap<K, V>(serde_json::Map<K, V>);

/// A member of a JSON object as this library writes one: a string, a boolean, an
/// object whose members are all strings, or anything else.
pub enum JsonMember {
    Text(Seq<char>),
    Flag(bool),
    TextObject(Map<Seq<char>, Seq<char>>),
    Other,
}

/// What a JSON object map holds: each key with the shape of its value (a string,
/// a boolean, an object of strings with those strings, or another value).
pub uninterp spec fn json_object_members(m: serde_json::Map<String, serde_json::Value>) -> Map<
    Seq<char>,
    JsonMember,
>;

/// The members of an empty object.
pub open spec fn no_members() -> Map<Seq<char>, JsonMember> {
    Map::empty()
}

/// The text of a string member.
pub open spec fn member_text(m: JsonMember) -> Seq<char> {
    match m {
        JsonMember::Text(t) => t,
        _ => Seq::empty(),
    }
}

/// The shape of an object with the given members: an object of strings when every
/// member is a string, another value otherwise.
pub open spec fn object_member(members: Map<Seq<char>, JsonMember>) -> JsonMember {
    if forall|k: Seq<char>| #[trigger] members.contains_key(k) ==> members[k] is Text {
        JsonMember::TextObject(Map::new(|k: Seq<char>| members.contains_key(k), |k: Seq<char>| member_text(members[k])))
    } else {
        JsonMember::Other
    }
}

/// No member is of a shape other than a string, a boolean or an object of strings.
pub open spec fn all_members_known(members: Map<Seq<char>, JsonMember>) -> bool {
    forall|k: Seq<char>| #[trigger] members.contains_key(k) ==> !(members[k] is Other)
}

/// The JSON object value with the given members (`Value::Object`); members of
/// the known shapes determine it, since the keys of the object are kept sorted.
pub uninterp spec fn json_object_document(members: Map<Seq<char>, JsonMember>) -> serde_json::Value;

/// `serde_json::Map::new`: an empty object map.
#[verifier::external_body]
fn json_map_new() -> (r: serde_json::Map<String, serde_json::Value>)
    ensures
        json_object_members(r) == no_members(),
{
    serde_json::Map::new()
}

/// `serde_json::Map::insert` of `Value::String(value)` under `key`: the key now
/// holds that string, whatever it held before, and every other key keeps its value.
#[verifier::external_body]
fn json_map_insert_text(m: &mut serde_json::Map<String, serde_json::Value>, key: String, value: String)
    ensures
        json_object_members(*final(m)) == json_object_members(*old(m)).insert(key@, JsonMember::Text(value@)),
{
    m.insert(key, serde_json::Value::String(value));
}

/// `serde_json::Map::insert` of `Value::Bool(flag)` under `key`.
#[verifier::external_body]
fn json_map_insert_flag(m: &mut serde_json::Map<String, serde_json::Value>, key: String, flag: bool)
    ensures
        json_object_members(*final(m)) == json_object_members(*old(m)).insert(key@, JsonMember::Flag(flag)),
{
    m.insert(key, serde_json::Value::Bool(flag));
}

/// `serde_json::Map::insert` of `Value::Object(object)` under `key`.
#[verifier::external_body]
fn json_map_insert_object(
    m: &mut serde_json::Map<String, serde_json::Value>,
    key: String,
    object: serde_json::Map<String, serde_json::Value>,
)
    ensures
        json_object_members(*final(m)) == json_object_members(*old(m)).insert(
            key@,
            object_member(json_object_members(object)),
        ),
{
    m.insert(key, serde_json::Value::Object(object));
}

/// `Value::Object` of the map: the JSON object value with its members.
#[verifier::external_body]
fn json_object_value(m: serde_json::Map<String, serde_json::Value>) -> (r: serde_json::Value)
    requires
        all_members_known(json_object_members(m)),
    ensures
        r == json_object_document(json_object_members(m)),
{
    serde_json::Value::Object(m)
}

/// Each entry of `d` as a string member.
pub open spec fn text_members(d: Map<Seq<char>, Seq<char>>) -> Map<Seq<char>, JsonMember> {
    Map::new(|k: Seq<char>| d.contains_key(k), |k: Seq<char>| JsonMember::Text(d[k]))
}

/// The members of the `package.json` of MiniApp `app_id`: its package name, that
/// it is private, and its dependencies by package, a later entry winning.
pub open spec fn package_members(app_id: Seq<char>, deps: Seq<NpmDep>) -> Map<Seq<char>, JsonMember> {
    Map::empty().insert("name"@, JsonMember::Text("miniapp-"@ + app_id)).insert(
        "private"@,
        JsonMember::Flag(true),
    ).insert("dependencies"@, JsonMember::TextObject(dependency_map(deps)))
}

/// The `package.json` of MiniApp `app_id` with the given dependencies: the package
/// is `miniapp-<app_id>`, private, and a package listed twice keeps its last version.
pub fn build_package_json(app_id: &str, deps: &[NpmDep]) -> (r: serde_json::Value)
    ensures
        r == json_object_document(package_members(app_id@, deps@)),
{
    let mut dependencies = json_map_new();
    let n = deps.len();
    let mut i: usize = 0;
    assert(text_members(dependency_map(deps@.subrange(0, 0))) =~= no_members());
    while i < n
        invariant
            n == deps@.len(),
            0 <= i <= n,
            json_object_members(dependencies) == text_members(dependency_map(deps@.subrange(0, i as int))),
        decreases n - i,
    {
        let ghost before = dependency_map(deps@.subrange(0, i as int));
        assert(deps@.subrange(0, i + 1).drop_last() =~= deps@.subrange(0, i as int));
        json_map_insert_text(&mut dependencies, deps[i].name.clone(), deps[i].version.clone());
        assert(text_members(before.insert(deps@[i as int].name@, deps@[i as int].version@)) =~= text_members(
            before,
        ).insert(deps@[i as int].name@, JsonMember::Text(deps@[i as int].version@)));
        i = i + 1;
    }
    assert(deps@.subrange(0, n as int) =~= deps@);
    let ghost d = dependency_map(deps@);
    assert(object_member(text_members(d)) == JsonMember::TextObject(d)) by {
        assert(forall|k: Seq<char>| #[trigger] text_members(d).contains_key(k) ==> text_members(d)[k] is Text);
        assert(Map::new(
            |k: Seq<char>| text_members(d).contains_key(k),
            |k: Seq<char>| member_text(text_members(d)[k]),
        ) =~= d);
    }
    let mut document = json_map_new();
    json_map_insert_text(&mut document, text("name"), text("miniapp-").concat(app_id));
    json_map_insert_flag(&mut document, text("private"), true);
    json_map_insert_object(&mut document, text("dependencies"), dependencies);
    assert(json_object_members(document) == package_members(app_id@, deps@));
    proof {
        reveal_strlit("name");
        reveal_strlit("private");
        reveal_strlit("dependencies");
    }
    assert(all_members_known(json_object_members(document)));
    json_object_value(document)
}

} // verus!
