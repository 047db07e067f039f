//! Where packs are found and how they are installed.

use oneai_domain::coding_pack::coding_pack;
use oneai_domain::market::{
    builtin_pack_entries, clone_arguments, extract_pack_name_from_git_url, plan_install,
    read_pack_description, FoundPack, InstallPlan, LocalSource, PackInstallError, PackLoadError,
    PackRegistry, PackSource,
};

fn found(name: &str) -> FoundPack {
    FoundPack {
        name: name.to_string(),
        path: format!("/cache/{}", name),
        descriptions: vec![None, Some("a pack".to_string()), None],
    }
}

fn nothing() -> LocalSource {
    LocalSource {
        exists: false,
        is_dir: false,
        configured_name: None,
        file_name: String::new(),
        stem: None,
    }
}

#[test]
fn packs_of_the_library_are_known() {
    let registry = PackRegistry::new("/cache", &vec![]);
    assert_eq!(registry.cache_dir(), "/cache");
    assert_eq!(registry.list_all().len(), builtin_pack_entries().len());
    let builtin: Vec<&str> = registry.list_builtin().iter().map(|e| e.name.as_str()).collect();
    assert_eq!(builtin, vec!["coding", "research", "general"]);
    assert!(registry.list_installed().is_empty());
    assert_eq!(registry.get_entry("coding").unwrap().version, "0.1.0");
    assert_eq!(registry.get_entry("data").unwrap().version, "planned");
    assert!(registry.get_entry("nothing").is_none());
}

#[test]
fn installed_packs_never_take_the_place_of_known_ones() {
    let registry = PackRegistry::new("/cache", &vec![found("coding"), found("mine")]);
    assert!(registry.get_entry("coding").unwrap().is_builtin);
    let mine = registry.get_entry("mine").unwrap();
    assert_eq!(mine.description, "a pack");
    assert_eq!(mine.version, "local");
    assert_eq!(mine.tags, vec!["mine"]);
    assert_eq!(mine.source, PackSource::Local { path: "/cache/mine".to_string() });
    assert!(!mine.is_builtin);
    let installed: Vec<&str> = registry.list_installed().iter().map(|e| e.name.as_str()).collect();
    assert_eq!(installed, vec!["mine"]);
}

#[test]
fn a_pack_is_listed_once() {
    let found = vec![found("mine"), found("research"), found("data"), found("mine")];
    let registry = PackRegistry::new("/cache", &found);
    let names: Vec<&str> = registry.list_all().iter().map(|e| e.name.as_str()).collect();
    assert_eq!(names, vec!["coding", "research", "general", "writing", "data", "devops", "mine"]);
    let found: Vec<&str> = registry.search("").iter().map(|e| e.name.as_str()).collect();
    assert_eq!(found, names);
    let found: Vec<&str> = registry.search("MiNe").iter().map(|e| e.name.as_str()).collect();
    assert_eq!(found, vec!["mine"]);
}

#[test]
fn search_goes_over_names_descriptions_and_tags() {
    let registry = PackRegistry::new("/cache", &vec![]);
    let names = |query: &str| -> Vec<String> {
        registry.search(query).iter().map(|e| e.name.clone()).collect()
    };
    assert_eq!(names("RESEARCH"), vec!["research"]);
    assert_eq!(names("citation"), vec!["research"]);
    assert_eq!(names("visualization domain"), vec!["data"]);
    assert!(names("no such thing").is_empty());
    assert_eq!(names("").len(), 6);
}

#[test]
fn an_installed_pack_is_described_by_its_first_file() {
    assert_eq!(
        read_pack_description(&vec![None, Some("b".to_string()), Some("c".to_string())]),
        "b"
    );
    assert_eq!(read_pack_description(&vec![None]), "Installed domain pack");
}

#[test]
fn names_of_repositories() {
    assert_eq!(
        extract_pack_name_from_git_url("https://github.com/oneai-project/oneai-pack-research.git"),
        "oneai-pack-research"
    );
    assert_eq!(extract_pack_name_from_git_url("plain"), "plain");
    assert_eq!(extract_pack_name_from_git_url("a/b.git.git"), "b");
    assert_eq!(extract_pack_name_from_git_url("a/"), "");
}

#[test]
fn loading_by_name() {
    let registry = PackRegistry::new("/cache", &vec![]);
    assert_eq!(registry.load_installed("coding", "/p", &None).unwrap().name, "coding");
    assert_eq!(registry.load_installed("research", "/p", &None).unwrap().name, "research");
    let error = registry.load_installed("mine", "/p", &None).unwrap_err();
    assert_eq!(error, PackLoadError::NotFound("mine".to_string()));
    assert_eq!(error.message(), "Pack 'mine' not found");
    let error = registry.load_installed("mine", "/p", &Some(Err("bad".to_string()))).unwrap_err();
    assert_eq!(error.message(), "Failed to load pack 'mine': bad");
    let loaded = registry.load_installed("mine", "/p", &Some(Ok(coding_pack("/q")))).unwrap();
    assert_eq!(loaded.context_sources[0].project_dir.as_deref(), Some("/q"));
}

#[test]
fn installing_from_a_path() {
    let registry = PackRegistry::new("/cache", &vec![]);
    let source = PackSource::Local { path: "/packs/x.yaml".to_string() };
    let error = registry.install(&source, &nothing(), false, &None).unwrap_err();
    assert_eq!(error, PackInstallError::SourceNotFound("/packs/x.yaml".to_string()));
    assert_eq!(error.message(), "Source not found: /packs/x.yaml");

    let file = LocalSource {
        exists: true,
        file_name: "x.yaml".to_string(),
        stem: Some("x".to_string()),
        ..nothing()
    };
    assert_eq!(
        plan_install(&source, &file),
        InstallPlan::Copy { name: "x".to_string(), whole: false }
    );
    assert_eq!(registry.install(&source, &file, false, &None).unwrap(), "x");
    let error = registry.install(&source, &file, true, &None).unwrap_err();
    assert_eq!(error.message(), "Pack 'x' already installed");
    let error = registry.install(&source, &file, false, &Some("disk".to_string())).unwrap_err();
    assert_eq!(error.message(), "Copy failed: disk");

    let dir = LocalSource {
        exists: true,
        is_dir: true,
        configured_name: Some("named".to_string()),
        file_name: "x".to_string(),
        stem: None,
    };
    assert_eq!(
        plan_install(&source, &dir),
        InstallPlan::Copy { name: "named".to_string(), whole: true }
    );
    let unnamed = LocalSource { configured_name: None, ..dir };
    assert_eq!(registry.install(&source, &unnamed, false, &None).unwrap(), "x");
    let stemless = LocalSource { exists: true, ..nothing() };
    assert_eq!(registry.install(&source, &stemless, false, &None).unwrap(), "custom");
}

#[test]
fn installing_from_a_repository() {
    let registry = PackRegistry::new("/cache", &vec![]);
    let source = PackSource::Git {
        repo_url: "https://host/pack.git".to_string(),
        ref_: Some("v1".to_string()),
    };
    assert_eq!(registry.install(&source, &nothing(), false, &None).unwrap(), "pack");
    let error = registry.install(&source, &nothing(), false, &Some("net".to_string()));
    assert_eq!(error.unwrap_err().message(), "Git clone failed: net");
    assert_eq!(
        clone_arguments("u", &Some("v1".to_string()), "/d"),
        vec!["clone", "--branch", "v1", "u", "/d"]
    );
    assert_eq!(clone_arguments("u", &None, "/d"), vec!["clone", "u", "/d"]);
}

#[test]
fn the_registry_is_refused() {
    let registry = PackRegistry::new("/cache", &vec![]);
    let source = PackSource::Registry { name: "writing".to_string(), version: None };
    let error = registry.install(&source, &nothing(), false, &None).unwrap_err();
    assert_eq!(
        error.message(),
        "Not implemented: Registry installation for 'writing' vlatest is not yet implemented. Use Git or Local source."
    );
}

#[test]
fn what_is_found_on_disk_comes_behind_the_known_packs() {
    let found = vec![found("coding"), found("mine"), found("devops"), found("yours")];
    let registry = PackRegistry::new("/cache", &found);
    let builtin: Vec<&str> = registry.list_builtin().iter().map(|e| e.name.as_str()).collect();
    assert_eq!(builtin, vec!["coding", "research", "general"]);
    let all = registry.list_all();
    assert_eq!(all.len(), 8);
    for (entry, name) in all[6..].iter().zip(["mine", "yours"]) {
        assert_eq!(entry.name, name);
        assert_eq!(entry.version, "local");
        assert!(!entry.is_builtin);
    }
}
