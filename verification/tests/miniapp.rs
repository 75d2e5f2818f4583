use bitfun_logic::miniapp::runtime::{
    candidate_dirs, candidate_executable_path, runtime_kind_for_executable, runtime_lookup_order,
    version_manager_roots, versioned_executable_candidate, RuntimeKind,
};
use bitfun_logic::miniapp::storage::{
    build_package_json, npm_dependencies_from_entries, parse_npm_dependencies, DependencyEntry,
    MiniAppStorageLayout, NpmDep,
};
use serde_json::Value;
use std::path::PathBuf;

fn root() -> PathBuf {
    PathBuf::from("/data/miniapps")
}

#[test]
fn layout_paths_live_under_the_app_directory() {
    let layout = MiniAppStorageLayout::new(&root(), "app-1");
    let app = root().join("app-1");
    assert_eq!(layout.app_dir().to_path_buf(), app);
    assert_eq!(layout.source_dir().to_path_buf(), app.join("source"));
    assert_eq!(layout.meta_path().to_path_buf(), app.join("meta.json"));
    assert_eq!(layout.compiled_path().to_path_buf(), app.join("compiled.html"));
    assert_eq!(layout.storage_path().to_path_buf(), app.join("storage.json"));
    assert_eq!(layout.customization_path().to_path_buf(), app.join(".customization.json"));
    assert_eq!(layout.source_file_path("ui.js").to_path_buf(), app.join("source").join("ui.js"));
    assert_eq!(layout.package_json_path().to_path_buf(), app.join("package.json"));
    assert_eq!(layout.versions_dir().to_path_buf(), app.join("versions"));
    assert_eq!(layout.version_path(0).to_path_buf(), app.join("versions").join("v0.json"));
    assert_eq!(layout.version_path(42).to_path_buf(), app.join("versions").join("v42.json"));
    assert_eq!(
        layout.version_path(u32::MAX).to_path_buf(),
        app.join("versions").join("v4294967295.json")
    );
}

#[test]
fn draft_paths_live_under_the_drafts_root() {
    let r = root();
    assert_eq!(MiniAppStorageLayout::drafts_root(&r).to_path_buf(), r.join(".drafts"));
    assert_eq!(
        MiniAppStorageLayout::app_drafts_dir(&r, "a").to_path_buf(),
        r.join(".drafts").join("a")
    );
    assert_eq!(
        MiniAppStorageLayout::draft_dir(&r, "a", "d").to_path_buf(),
        r.join(".drafts").join("a").join("d")
    );
    assert_eq!(
        MiniAppStorageLayout::draft_source_dir(&r, "a", "d").to_path_buf(),
        r.join(".drafts").join("a").join("d").join("source")
    );
    assert_eq!(
        MiniAppStorageLayout::draft_manifest_path(&r, "a", "d").to_path_buf(),
        r.join(".drafts").join("a").join("d").join("draft.json")
    );
    assert_eq!(
        MiniAppStorageLayout::cleanup_drafts_root(&r, "42").to_path_buf(),
        r.join(".drafts.cleanup-42")
    );
}

#[test]
fn runtimes_are_looked_up_bun_first() {
    assert_eq!(runtime_lookup_order(), vec!["bun", "node"]);
    assert_eq!(runtime_kind_for_executable("bun"), Some(RuntimeKind::Bun));
    assert_eq!(runtime_kind_for_executable("node"), Some(RuntimeKind::Node));
    assert_eq!(runtime_kind_for_executable("deno"), None);
}

#[test]
fn executable_candidates_join_names() {
    let dir = PathBuf::from("/usr/bin");
    assert_eq!(candidate_executable_path(&dir, "node").to_path_buf(), dir.join("node"));
    let v = PathBuf::from("/home/u/.nvm/versions/node/v20");
    assert_eq!(versioned_executable_candidate(&v, "node").to_path_buf(), v.join("bin").join("node"));
}

#[test]
fn candidate_dirs_with_and_without_home() {
    let without: Vec<PathBuf> = candidate_dirs(None).iter().map(|p| p.to_path_buf()).collect();
    assert_eq!(
        without,
        vec![
            PathBuf::from("/opt/homebrew/bin"),
            PathBuf::from("/usr/local/bin"),
            PathBuf::from("/usr/bin"),
            PathBuf::from("/bin"),
        ]
    );
    let home = PathBuf::from("/home/u");
    let with: Vec<PathBuf> = candidate_dirs(Some(&home)).iter().map(|p| p.to_path_buf()).collect();
    assert_eq!(with.len(), 9);
    assert_eq!(with[4], home.join(".bun").join("bin"));
    assert_eq!(with[8], home.join(".asdf").join("shims"));
}

#[test]
fn version_manager_roots_need_a_home() {
    assert!(version_manager_roots(None).is_empty());
    let home = PathBuf::from("/home/u");
    let roots: Vec<PathBuf> = version_manager_roots(Some(&home)).iter().map(|p| p.to_path_buf()).collect();
    assert_eq!(
        roots,
        vec![
            home.join(".nvm").join("versions").join("node"),
            home.join(".fnm").join("node-versions"),
            home.join("Library").join("Application Support").join("fnm").join("node-versions"),
        ]
    );
}

#[test]
fn dependencies_default_non_string_versions_to_any() {
    assert!(npm_dependencies_from_entries(None).is_empty());
    let deps = npm_dependencies_from_entries(Some(vec![
        DependencyEntry { name: "react".to_string(), version: Some("^18".to_string()) },
        DependencyEntry { name: "odd".to_string(), version: None },
    ]));
    assert_eq!(
        deps,
        vec![
            NpmDep { name: "react".to_string(), version: "^18".to_string() },
            NpmDep { name: "odd".to_string(), version: "*".to_string() },
        ]
    );
}

#[test]
fn package_json_keeps_the_last_version_of_a_package() {
    let manifest = build_package_json(
        "app-1",
        &[
            NpmDep { name: "a".to_string(), version: "1".to_string() },
            NpmDep { name: "b".to_string(), version: "2".to_string() },
            NpmDep { name: "a".to_string(), version: "3".to_string() },
        ],
    );
    let mut dependencies = serde_json::Map::new();
    dependencies.insert("a".to_string(), Value::String("3".to_string()));
    dependencies.insert("b".to_string(), Value::String("2".to_string()));
    let mut expected = serde_json::Map::new();
    expected.insert("name".to_string(), Value::String("miniapp-app-1".to_string()));
    expected.insert("private".to_string(), Value::Bool(true));
    expected.insert("dependencies".to_string(), Value::Object(dependencies));
    assert_eq!(manifest, Value::Object(expected));
    assert_eq!(
        manifest.to_string(),
        r#"{"dependencies":{"a":"3","b":"2"},"name":"miniapp-app-1","private":true}"#
    );
}

#[test]
fn package_json_text_that_is_not_json_is_an_error() {
    assert!(parse_npm_dependencies("{not json").is_err());
    assert!(parse_npm_dependencies("").is_err());
}

#[test]
fn package_json_without_object_dependencies_has_none() {
    assert_eq!(parse_npm_dependencies("{}").unwrap(), Vec::<NpmDep>::new());
    assert_eq!(parse_npm_dependencies("[1, 2]").unwrap(), Vec::<NpmDep>::new());
    assert_eq!(parse_npm_dependencies(r#"{"dependencies": ["react"]}"#).unwrap(), Vec::<NpmDep>::new());
    assert_eq!(parse_npm_dependencies(r#"{"dependencies": "react"}"#).unwrap(), Vec::<NpmDep>::new());
}

#[test]
fn package_json_dependencies_come_one_per_key() {
    let deps = parse_npm_dependencies(
        r#"{"name": "x", "dependencies": {"zeta": "^1.2.0", "alpha": 2, "mid": null}}"#,
    )
    .unwrap();
    assert_eq!(
        deps,
        vec![
            NpmDep { name: "alpha".to_string(), version: "*".to_string() },
            NpmDep { name: "mid".to_string(), version: "*".to_string() },
            NpmDep { name: "zeta".to_string(), version: "^1.2.0".to_string() },
        ]
    );
}

#[test]
fn built_manifest_dependencies_parse_back() {
    let manifest = build_package_json(
        "app-2",
        &[
            NpmDep { name: "react".to_string(), version: "^18".to_string() },
            NpmDep { name: "lodash".to_string(), version: "4".to_string() },
        ],
    );
    let text = manifest.to_string();
    let mut parsed = parse_npm_dependencies(&text).unwrap();
    parsed.sort_by(|a, b| a.name.cmp(&b.name));
    assert_eq!(
        parsed,
        vec![
            NpmDep { name: "lodash".to_string(), version: "4".to_string() },
            NpmDep { name: "react".to_string(), version: "^18".to_string() },
        ]
    );
}
