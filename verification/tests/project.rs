//! Facts of a project and the file that tells an agent of them.

use oneai_domain::builtin_sources::instruction_names;
use oneai_domain::data::parse_toml;
use oneai_domain::project_info::{
    choose_content, compose_heuristic, plan_content, strip_code_fence, FormatError,
    FormatNames, ProjectInfoFormat, ProjectInfoOptions, ProjectProbe, ProjectSignals, CONTEXT_BLOCK_CAP,
};
use oneai_domain::project_probe::{
    convention_checks, dep_version, detect_build_system, detect_conventions, document_names,
    entry_candidates, file_excerpt, glob_expand, glob_match, inventory_docs, is_document,
    module_dirs, parse_pub_mod, pick_existing, pick_readme, plan_glob, probe_cargo, probe_cmake, probe_go, probe_make,
    probe_node, probe_python, readme_names, root_files, rust_module_entry, scan_git, split_pep508,
    truncate_chars, workspace_members, workspace_patterns, BuildSystem, GlobPlan, ManifestFacts, ManifestFiles,
};

fn no_files() -> ManifestFiles {
    ManifestFiles {
        cargo_toml: false,
        package_json: false,
        pyproject_toml: false,
        setup_py: false,
        requirements_txt: false,
        go_mod: false,
        makefile: false,
        cmake_lists: false,
    }
}

fn signals(dir: &str) -> ProjectSignals {
    ProjectSignals {
        project_dir: dir.to_string(),
        dir_name: Some("dir".to_string()),
        conventions: Vec::new(),
        module_map: Vec::new(),
        entry_points: Vec::new(),
        readme: String::new(),
        existing_instructions: None,
        doc_links: Vec::new(),
        file_tree: String::new(),
        git_branch: String::new(),
        git_commits: String::new(),
    }
}

fn cargo_probe(manifest: &str) -> ProjectProbe {
    let facts = probe_cargo(Some(manifest), Some("dir"));
    ProjectProbe::assemble(Some(BuildSystem::RustCargo), facts, signals("/p"))
}

fn third() -> FormatNames {
    FormatNames {
        word: "house".to_string(),
        filename: "HOUSE.md".to_string(),
        label: "House Agent (HOUSE.md)".to_string(),
    }
}

#[test]
fn formats_have_their_files() {
    assert_eq!(ProjectInfoFormat::Oneai.filename(), "ONEAI.md");
    assert_eq!(ProjectInfoFormat::Agents.filename(), "AGENTS.md");
    assert_eq!(ProjectInfoFormat::Claude(third()).filename(), "HOUSE.md");
    assert_eq!(ProjectInfoFormat::Claude(third()).label(), "House Agent (HOUSE.md)");
}

#[test]
fn formats_are_found_by_name() {
    let named = |s: &str| ProjectInfoFormat::from_name(s, &third());
    assert_eq!(named("oneai").unwrap(), ProjectInfoFormat::Oneai);
    assert_eq!(named(" AGENTS ").unwrap(), ProjectInfoFormat::Agents);
    assert_eq!(named("agent").unwrap(), ProjectInfoFormat::Agents);
    assert_eq!(named("House").unwrap(), ProjectInfoFormat::Claude(third()));
    assert_eq!(named("house.md").unwrap(), ProjectInfoFormat::Claude(third()));
    assert_eq!(named("housemd").unwrap(), ProjectInfoFormat::Claude(third()));
    assert!(named("nope").is_err());
}

#[test]
fn an_unknown_format_is_named() {
    let error = ProjectInfoFormat::from_name("Nope ", &third()).unwrap_err();
    assert_eq!(
        error.message(),
        "unknown project-info format 'nope'; expected one of: oneai, agents, house"
    );
    assert_eq!(
        error,
        FormatError::UnknownFormat {
            name: "nope".to_string(),
            known: vec!["oneai".to_string(), "agents".to_string(), "house".to_string()],
        }
    );
}

#[test]
fn pep508_split() {
    assert_eq!(split_pep508("requests>=2.0"), ("requests".into(), ">=2.0".into()));
    assert_eq!(split_pep508("numpy"), ("numpy".into(), "".into()));
    assert_eq!(
        split_pep508("foo-bar>=1; extra == \"x\""),
        ("foo-bar".into(), ">=1; extra == \"x\"".into())
    );
}

#[test]
fn pep508_names_may_hold_letters_of_any_script() {
    assert_eq!(split_pep508("módulo>=1"), ("módulo".into(), ">=1".into()));
}

#[test]
fn truncate_is_char_boundary_safe() {
    let s = "中文测试中".repeat(20);
    let t = truncate_chars(&s, 10);
    assert!(t.ends_with("… [truncated]"));
    let _ = t.chars().count();
}

#[test]
fn strip_fence_removes_wrapping() {
    assert_eq!(strip_code_fence("```markdown\n# hi\nbody\n```"), "# hi\nbody");
    assert_eq!(strip_code_fence("# plain"), "# plain");
    assert_eq!(strip_code_fence("```\nbody\n```"), "body");
}

#[test]
fn parse_pub_mod_extracts_name() {
    assert_eq!(parse_pub_mod("pub mod foo;"), Some("foo".into()));
    assert_eq!(parse_pub_mod("pub(crate) mod bar;"), Some("bar".into()));
    assert_eq!(parse_pub_mod("fn main() {}"), None);
}

#[test]
fn glob_expand_crates_star() {
    let names: Vec<String> =
        ["one", "two", "notacrate"].iter().map(|name| name.to_string()).collect();
    let got = glob_expand(&plan_glob("crates/*"), &names);
    assert_eq!(got.len(), 3);
    assert!(got.contains(&"crates/one".to_string()));
    assert_eq!(plan_glob("crates/one"), GlobPlan::Exact("crates/one".to_string()));
}

#[test]
fn globs_leave_out_what_does_not_match() {
    let names: Vec<String> =
        ["api-core", "core", "api-"].iter().map(|name| name.to_string()).collect();
    assert_eq!(glob_expand(&plan_glob("/api-*/src/"), &names), ["api-core/src", "api-/src"]);
    assert_eq!(glob_expand(&plan_glob("core"), &names), ["core"]);
}

#[test]
fn modules_are_the_members_or_the_project() {
    let found: Vec<String> = ["a", "b", "a"].iter().map(|path| path.to_string()).collect();
    let members = workspace_members(&found);
    assert_eq!(members, ["a", "b"]);
    assert_eq!(module_dirs(Some(BuildSystem::RustCargo), members.clone()), ["a", "b"]);
    assert_eq!(module_dirs(Some(BuildSystem::RustCargo), Vec::new()), [""]);
    assert!(module_dirs(Some(BuildSystem::GoModule), members).is_empty());
    assert!(module_dirs(None, Vec::new()).is_empty());
}

#[test]
fn a_member_is_listed_once_however_its_path_is_written() {
    let found: Vec<String> =
        ["a/b", "./a/b", "a//b/.", "a/c", "a/b/../c"].iter().map(|path| path.to_string()).collect();
    assert_eq!(workspace_members(&found), ["a/b", "a/c", "a/b/../c"]);
}

#[test]
fn globs_match_around_their_star() {
    assert!(glob_match("a*", "abc"));
    assert!(!glob_match("a*", "xabc"));
    assert!(glob_match("*c", "abc"));
}

#[test]
fn probe_cargo_workspace_with_module_map() {
    let root_cargo = r#"
[workspace]
members = ["crates/*"]
resolver = "2"

[workspace.dependencies]
serde = "1.0"
"#;
    assert_eq!(workspace_patterns(root_cargo), vec!["crates/*"]);
    let system = detect_build_system(&ManifestFiles { cargo_toml: true, ..no_files() });
    assert_eq!(system, Some(BuildSystem::RustCargo));
    let facts = probe_cargo(Some(root_cargo), Some("dir"));
    assert!(facts.commands.iter().any(|(_, c)| c.contains("cargo test --workspace")));

    let m = rust_module_entry(
        true,
        Some("[package]\nname = \"foo\"\nversion = \"0.1.0\"\ndescription = \"The foo crate\"\n"),
        Some("foo"),
        "crates/foo",
        Some("//! Foo does the thing.\n//! It is important.\npub mod bar;\npub mod baz;\n"),
    )
    .unwrap();
    assert_eq!(m.name, "foo");
    assert_eq!(m.description, "The foo crate");
    assert!(m.doc.contains("Foo does the thing"));
    assert_eq!(m.modules, vec!["bar".to_string(), "baz".to_string()]);
}

#[test]
fn readme_and_instructions_are_read() {
    let readme: Vec<Option<String>> = readme_names()
        .iter()
        .map(|name| if name == "README.md" { Some("# X\n\nA project.\n".to_string()) } else { None })
        .collect();
    assert!(pick_readme(&readme).contains("A project."));
    let existing = pick_existing(
        &instruction_names("HOUSE.md"),
        &vec![None, Some("manual rules".to_string()), None],
    );
    let (fname, content) = existing.expect("existing instructions");
    assert_eq!(fname, "HOUSE.md");
    assert_eq!(content, "manual rules");
}

#[test]
fn probe_inventories_docs() {
    let present: Vec<bool> =
        document_names().iter().map(|name| name == "ARCHITECTURE.md").collect();
    assert!(is_document("md"));
    let links = inventory_docs(&present, &vec!["docs/guide.md".to_string()]);
    assert!(links.contains(&"ARCHITECTURE.md".to_string()));
    assert!(links.contains(&"docs/guide.md".to_string()));
}

#[test]
fn context_block_is_bounded_and_labelled() {
    let probe = cargo_probe("[package]\nname=\"x\"\nversion=\"0\"\ndescription=\"d\"\n");
    let block = probe.context_block();
    assert!(block.contains("## Project"));
    assert!(block.contains("name: x"));
    assert!(block.len() <= CONTEXT_BLOCK_CAP + 64);
}

#[test]
fn build_init_prompt_mentions_principles() {
    let probe = cargo_probe("[package]\nname=\"x\"\nversion=\"0\"\n");
    let (system, user) = probe.build_init_prompt(&ProjectInfoFormat::Oneai);
    assert!(system.contains("Link, don't embed"));
    assert!(system.contains("ONEAI.md"));
    assert!(user.contains("Architecture & key design"));
}

#[test]
fn heuristic_generate_into_temp_cargo_project() {
    let cargo = r#"
[package]
name = "demo-pkg"
version = "0.1.0"
description = "A demo project"

[dependencies]
serde = "1.0"
tokio = { version = "1", features = ["full"] }
"#;
    let probe = cargo_probe(cargo);
    let opts = ProjectInfoOptions::default();
    let (content, by_model) = choose_content(None, &probe, &opts);
    let res = plan_content("/p/ONEAI.md", &opts, content, by_model, false);

    assert_eq!(res.filename, "ONEAI.md");
    assert!(!res.skipped);
    assert!(!res.overwritten);
    assert!(!res.llm_generated);
    assert!(res.content.contains("demo-pkg"));
    assert!(res.content.contains("cargo build"));
    assert!(res.content.contains("serde"));
    assert!(res.content.contains("Build, test, run"));
}

#[test]
fn skip_when_exists_unless_force() {
    let probe = cargo_probe("[package]\nname=\"x\"\nversion=\"0\"\n");
    let opts = ProjectInfoOptions::default();
    let content = compose_heuristic(&probe, &opts);
    let res = plan_content("/p/ONEAI.md", &opts, content.clone(), false, true);
    assert!(res.skipped);

    let opts = ProjectInfoOptions { force: true, ..Default::default() };
    let res = plan_content("/p/ONEAI.md", &opts, content, false, true);
    assert!(!res.skipped);
    assert!(res.overwritten);
    assert!(res.content.contains("cargo build"));
}

#[test]
fn files_of_other_formats() {
    let manifest = r#"{"name":"jsproj","version":"1.0.0","dependencies":{"react":"^18"}}"#;
    let facts = probe_node(Some(manifest), false, false);
    let probe = ProjectProbe::assemble(
        detect_build_system(&ManifestFiles { package_json: true, ..no_files() }),
        facts,
        signals("/p"),
    );

    let opts = ProjectInfoOptions { format: ProjectInfoFormat::Agents, ..Default::default() };
    let res = plan_content("/p/AGENTS.md", &opts, compose_heuristic(&probe, &opts), false, false);
    assert_eq!(res.filename, "AGENTS.md");
    assert!(res.content.contains("jsproj"));
    assert!(res.content.contains("react"));

    let opts =
        ProjectInfoOptions { format: ProjectInfoFormat::Claude(third()), ..Default::default() };
    let res = plan_content("/p/HOUSE.md", &opts, compose_heuristic(&probe, &opts), false, false);
    assert_eq!(res.filename, "HOUSE.md");
}

#[test]
fn unknown_project_still_emits() {
    let system = detect_build_system(&no_files());
    assert!(system.is_none());
    let probe = ProjectProbe::assemble(system, ManifestFacts::new(), signals("/p"));
    let content = compose_heuristic(&probe, &ProjectInfoOptions::default());
    assert!(content.contains("Overview"));
    assert!(content.contains("unrecognized"));
}

#[test]
fn llm_path_uses_model_output() {
    let probe = cargo_probe("[package]\nname=\"x\"\nversion=\"0\"\n");
    let opts = ProjectInfoOptions::default();
    let answer = "# X\n\nSynthesized by the model.\n\n## Build\n\n```bash\ncargo build\n```\n";
    let (content, by_model) = choose_content(Some(answer), &probe, &opts);
    assert!(by_model);
    assert!(content.contains("Synthesized by the model"));
    assert!(!content.starts_with("```"));
}

#[test]
fn llm_path_strips_wrapping_fence() {
    let probe = cargo_probe("[package]\nname=\"x\"\nversion=\"0\"\n");
    let opts = ProjectInfoOptions::default();
    let (content, by_model) =
        choose_content(Some("```markdown\n# X\nbody line\n```"), &probe, &opts);
    assert!(by_model);
    assert!(content.contains("body line"));
    assert!(!content.contains("```markdown"));
}

#[test]
fn llm_path_falls_back_when_empty() {
    let probe = cargo_probe("[package]\nname=\"x\"\nversion=\"0\"\n");
    let opts = ProjectInfoOptions::default();
    let (content, by_model) = choose_content(Some("   "), &probe, &opts);
    assert!(!by_model);
    assert!(content.contains("cargo build"));
}

#[test]
fn each_build_system_is_detected() {
    let system = |files: ManifestFiles| detect_build_system(&files);
    assert_eq!(
        system(ManifestFiles { cargo_toml: true, makefile: true, ..no_files() }),
        Some(BuildSystem::RustCargo)
    );
    assert_eq!(
        system(ManifestFiles { go_mod: true, ..no_files() }).unwrap().language(),
        "Go"
    );
    assert!(system(ManifestFiles { cmake_lists: true, ..no_files() }).is_some());
    assert!(system(ManifestFiles { setup_py: true, ..no_files() }).is_some());
}

#[test]
fn manifests_of_other_systems_are_read() {
    let python = probe_python(Some(
        "[project]\nname = \"pkg\"\nversion = \"2.0\"\ndependencies = [\"requests>=2.0\"]\n",
    ));
    assert_eq!(python.name, "pkg");
    assert!(python.key_dependencies.contains(&("requests".to_string(), ">=2.0".to_string())));

    let go = probe_go(Some("module example.com/mod\n\ngo 1.22\n"));
    assert!(go.name.contains("example.com/mod"));

    let make = probe_make(Some("build:\n\techo\n\ntest: build\n"));
    assert!(make.commands.iter().any(|(_, c)| c == "make build"));

    let cmake = probe_cmake(Some("project(demo CXX)"));
    assert_eq!(cmake.name, "demo");
}

#[test]
fn versions_of_dependencies() {
    let manifest = parse_toml("a = \"1\"\nb = { version = \"2\" }\nc = { path = \"../c\" }").unwrap();
    assert_eq!(dep_version(manifest.get("a").unwrap()), "1");
    assert_eq!(dep_version(manifest.get("b").unwrap()), "2");
    let other = dep_version(manifest.get("c").unwrap());
    assert_ne!(other, "1");
}

#[test]
fn conventions_are_found_by_their_files() {
    let checks = convention_checks();
    let present = vec![false; checks.len()];
    let none = detect_conventions(&present, None, None);
    assert!(none.is_empty());
    let rust = detect_conventions(&present, None, Some(BuildSystem::RustCargo));
    assert!(!rust.is_empty());
    let all = detect_conventions(&vec![true; checks.len()], None, None);
    assert!(all.len() >= checks.len());
}

#[test]
fn entry_points_and_excerpts() {
    let candidates = entry_candidates(Some(BuildSystem::RustCargo));
    assert!(candidates.contains(&"src/main.rs".to_string()));
    let code = "line\n".repeat(100);
    assert!(file_excerpt(&code).lines().count() <= 41);
}

#[test]
fn the_state_of_the_repository_is_taken_up() {
    let (branch, commits) = scan_git(Some("main\n"), Some("abc one\n"));
    assert_eq!(branch.trim(), "main");
    assert!(commits.contains("abc one"));
    let (branch, commits) = scan_git(None, None);
    assert_eq!(branch, "(not a git repo or no branch)");
    assert_eq!(commits, "(no commits)");
}

#[test]
fn a_cut_text_is_bounded() {
    assert_eq!(truncate_chars("short", 10), "short");
    let cut = truncate_chars(&"a".repeat(50), 10);
    assert!(cut.starts_with("aaaaaaaaaa"));
    assert!(cut.ends_with("… [truncated]"));
}

#[test]
fn a_crate_is_described_by_its_documentation() {
    let manifest = "[package]\nname = \"x\"\n";
    let code = "//! Does x.\n//! And more.\npub mod y;\n";
    let entry = rust_module_entry(true, Some(manifest), Some("dir"), "crates/x", Some(code)).unwrap();
    assert_eq!(entry.description, "Does x.");
    let bare = rust_module_entry(true, Some(manifest), Some("dir"), "crates/x", None).unwrap();
    assert_eq!(bare.description, "");
}

#[test]
fn only_the_project_itself_can_be_a_program() {
    assert_eq!(root_files(""), ["src/lib.rs", "src/main.rs"]);
    assert_eq!(root_files("crates/x"), ["src/lib.rs"]);
}
