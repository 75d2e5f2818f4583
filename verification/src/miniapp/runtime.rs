//! The search plan for a JavaScript runtime (Bun or Node) on this machine.

use vstd::prelude::*;
use std::path::PathBuf;
use crate::paths::{clone_path, planned, PathStart, PlannedPath};
use crate::text::str_eq;

verus! {

/// A JavaScript runtime that can run MiniApps.
#[derive(Debug, Clone, Copy, PartialEq, Eq, Structural)]
pub enum RuntimeKind {
    Bun,
    Node,
}

/// A runtime found on this machine.
#[derive(Debug)]
pub struct DetectedRuntime {
    pub kind: RuntimeKind,
    pub path: PathBuf,
    pub version: String,
}

/// The executables to look for, in order of preference.
pub fn runtime_lookup_order() -> (r: Vec<&'static str>)
    ensures
        r@.len() == 2,
        r@[0]@ == "bun"@,
        r@[1]@ == "node"@,
{
    let mut order = Vec::new();
    order.push("bun");
    order.push("node");
    order
}

/// The runtime that an executable name stands for.
pub fn runtime_kind_for_executable(name: &str) -> (r: Option<RuntimeKind>)
    ensures
        name@ == "bun"@ ==> r == Some(RuntimeKind::Bun),
        name@ == "node"@ ==> r == Some(RuntimeKind::Node),
        name@ != "bun"@ && name@ != "node"@ ==> r is None,
{
    proof {
        reveal_strlit("bun");
        reveal_strlit("node");
        assert("bun"@.len() != "node"@.len());
    }
    if str_eq(name, "bun") {
        Some(RuntimeKind::Bun)
    } else if str_eq(name, "node") {
        Some(RuntimeKind::Node)
    } else {
        None
    }
}

fn text(s: &str) -> (r: String)
    ensures
        r@ == s@,
{
    String::from_str(s)
}

/// The executable `name` in the directory `dir`.
pub fn candidate_executable_path(dir: &PathBuf, name: &str) -> (r: PlannedPath)
    ensures
        r.starts_at(*dir),
        r.parts() == seq![name@],
{
    let mut parts = Vec::new();
    parts.push(text(name));
    let r = planned(PathStart::Given(clone_path(dir)), parts);
    assert(r.parts() =~= seq![name@]);
    r
}

/// The executable `name` in the `bin` directory of a version-manager version.
pub fn versioned_executable_candidate(version_dir: &PathBuf, name: &str) -> (r: PlannedPath)
    ensures
        r.starts_at(*version_dir),
        r.parts() == seq!["bin"@, name@],
{
    let mut parts = Vec::new();
    parts.push(text("bin"));
    parts.push(text(name));
    let r = planned(PathStart::Given(clone_path(version_dir)), parts);
    assert(r.parts() =~= seq!["bin"@, name@]);
    r
}

fn under(home: &PathBuf, first: &str, second: &str) -> (r: PlannedPath)
    ensures
        r.starts_at(*home),
        r.parts() == seq![first@, second@],
{
    let mut parts = Vec::new();
    parts.push(text(first));
    parts.push(text(second));
    let r = planned(PathStart::Given(clone_path(home)), parts);
    assert(r.parts() =~= seq![first@, second@]);
    r
}

fn fixed(path: &str) -> (r: PlannedPath)
    ensures
        r.starts_at_text(path@),
        r.parts().len() == 0,
{
    let r = planned(PathStart::Text(text(path)), Vec::new());
    assert(r.parts() =~= Seq::<Seq<char>>::empty());
    r
}

/// The directories looked in after `PATH`: the system ones, then those under the
/// home directory where runtimes install themselves.
pub fn candidate_dirs(home: Option<&PathBuf>) -> (r: Vec<PlannedPath>)
    ensures
        r@.len() == (if home is Some { 9int } else { 4 }),
        r@[0].starts_at_text("/opt/homebrew/bin"@) && r@[0].parts().len() == 0,
        r@[1].starts_at_text("/usr/local/bin"@) && r@[1].parts().len() == 0,
        r@[2].starts_at_text("/usr/bin"@) && r@[2].parts().len() == 0,
        r@[3].starts_at_text("/bin"@) && r@[3].parts().len() == 0,
        home matches Some(h) ==> {
            &&& r@[4].starts_at(*h) && r@[4].parts() == seq![".bun"@, "bin"@]
            &&& r@[5].starts_at(*h) && r@[5].parts() == seq![".volta"@, "bin"@]
            &&& r@[6].starts_at(*h) && r@[6].parts() == seq![".local"@, "bin"@]
            &&& r@[7].starts_at(*h) && r@[7].parts() == seq![".cargo"@, "bin"@]
            &&& r@[8].starts_at(*h) && r@[8].parts() == seq![".asdf"@, "shims"@]
        },
{
    let mut dirs = Vec::new();
    dirs.push(fixed("/opt/homebrew/bin"));
    dirs.push(fixed("/usr/local/bin"));
    dirs.push(fixed("/usr/bin"));
    dirs.push(fixed("/bin"));
    if let Some(home) = home {
        dirs.push(under(home, ".bun", "bin"));
        dirs.push(under(home, ".volta", "bin"));
        dirs.push(under(home, ".local", "bin"));
        dirs.push(under(home, ".cargo", "bin"));
        dirs.push(under(home, ".asdf", "shims"));
    }
    dirs
}

/// The roots of version managers that keep runtimes as `<version>/bin/<runtime>`.
pub fn version_manager_roots(home: Option<&PathBuf>) -> (r: Vec<PlannedPath>)
    ensures
        home is None ==> r@.len() == 0,
        home matches Some(h) ==> {
            &&& r@.len() == 3
            &&& r@[0].starts_at(*h) && r@[0].parts() == seq![".nvm"@, "versions"@, "node"@]
            &&& r@[1].starts_at(*h) && r@[1].parts() == seq![".fnm"@, "node-versions"@]
            &&& r@[2].starts_at(*h) && r@[2].parts() == seq![
                "Library"@,
                "Application Support"@,
                "fnm"@,
                "node-versions"@,
            ]
        },
{
    let home = match home {
        Some(h) => h,
        None => return Vec::new(),
    };
    let mut roots = Vec::new();
    let mut nvm = Vec::new();
    nvm.push(text(".nvm"));
    nvm.push(text("versions"));
    nvm.push(text("node"));
    let a = planned(PathStart::Given(clone_path(home)), nvm);
    assert(a.parts() =~= seq![".nvm"@, "versions"@, "node"@]);
    roots.push(a);
    roots.push(under(home, ".fnm", "node-versions"));
    let mut fnm = Vec::new();
    fnm.push(text("Library"));
    fnm.push(text("Application Support"));
    fnm.push(text("fnm"));
    fnm.push(text("node-versions"));
    let c = planned(PathStart::Given(clone_path(home)), fnm);
    assert(c.parts() =~= seq!["Library"@, "Application Support"@, "fnm"@, "node-versions"@]);
    roots.push(c);
    roots
}

} // verus!
