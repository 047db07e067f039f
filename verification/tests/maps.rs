//! Maps of a repository.

use oneai_domain::context_source::{ContextSource, RefreshPolicy};
use oneai_domain::repo_map::{
    build_repo_map, enters_dir, extract_syms, format_map, go_syms, java_syms, js_syms, python_syms,
    rust_syms, sort_paths, takes_file, Language, MapEntry, RepoMapConfig, RepoMapSource,
    SourceFile, SymKind, Symbol,
};

#[test]
fn test_language_detection() {
    assert_eq!(Language::from_ext("rs"), Language::Rust);
    assert_eq!(Language::from_ext("py"), Language::Python);
    assert_eq!(Language::from_ext("ts"), Language::TypeScript);
    assert_eq!(Language::from_ext("go"), Language::Go);
    assert_eq!(Language::from_ext("txt"), Language::Unknown);
}

#[test]
fn test_rust_syms() {
    let code = "pub struct AppConfig { }\npub enum DecisionKind { }\nfn run_agent() { }\nmod cli;\nconst MAX: usize = 50;";
    let syms = rust_syms(code);
    assert!(syms.iter().any(|s| s.name == "AppConfig" && s.kind == SymKind::Struct));
    assert!(syms.iter().any(|s| s.name == "DecisionKind" && s.kind == SymKind::Enum));
    assert!(syms.iter().any(|s| s.name == "run_agent" && s.kind == SymKind::Fn));
    assert!(syms.iter().any(|s| s.name == "cli" && s.kind == SymKind::Module));
    assert!(syms.iter().any(|s| s.name == "MAX" && s.kind == SymKind::Const));
}

#[test]
fn test_python_syms() {
    let code = "class AgentConfig:\n    def __init__(self):\n        pass";
    let syms = python_syms(code);
    assert!(syms.iter().any(|s| s.name == "AgentConfig" && s.kind == SymKind::Class));
    assert!(syms.iter().any(|s| s.name == "__init__" && s.kind == SymKind::Fn));
}

#[test]
fn test_js_syms() {
    let code = "class AgentLoop { }\nfunction createAgent() { }\nconst runTask = ...";
    let syms = js_syms(code);
    assert!(syms.iter().any(|s| s.name == "AgentLoop" && s.kind == SymKind::Class));
    assert!(syms.iter().any(|s| s.name == "createAgent" && s.kind == SymKind::Fn));
}

#[test]
fn test_go_syms() {
    let code = "package agent\nfunc RunLoop() { }\ntype Config struct { }";
    let syms = go_syms(code);
    assert!(syms.iter().any(|s| s.name == "RunLoop" && s.kind == SymKind::Fn));
    assert!(syms.iter().any(|s| s.name == "Config" && s.kind == SymKind::Struct));
}

#[test]
fn test_java_syms() {
    let code = "class AgentLoop { }\ninterface Provider { }";
    let syms = java_syms(code);
    assert!(syms.iter().any(|s| s.name == "AgentLoop" && s.kind == SymKind::Class));
    assert!(syms.iter().any(|s| s.name == "Provider" && s.kind == SymKind::Interface));
}

#[test]
fn test_format_map() {
    let entries = vec![MapEntry {
        path: "src/main.rs".into(),
        symbols: vec![
            Symbol { kind: SymKind::Fn, name: "main".into(), sig: "fn main".into() },
            Symbol { kind: SymKind::Struct, name: "Config".into(), sig: "struct Config".into() },
        ],
    }];
    let out = format_map(&entries);
    assert!(out.contains("src/main.rs"));
    assert!(out.contains("fn main"));
    assert!(out.contains("struct Config"));
}

fn file(path: &str, ext: &str, content: Option<&str>) -> SourceFile {
    SourceFile {
        path: path.to_string(),
        ext: ext.to_string(),
        content: content.map(|c| c.to_string()),
    }
}

#[test]
fn test_repo_map_source() {
    let src = RepoMapSource::new("/Users/maxf/github/new/OneAI");
    assert_eq!(src.key(), "repo_map");
    assert_eq!(src.priority(), 8);
    assert_eq!(src.refresh_policy(), RefreshPolicy::OnChange);

    let files = vec![file("src/lib.rs", "rs", Some("pub struct A;\n"))];
    let content = build_repo_map(&files, src.config());
    assert!(content.contains("RepoMap"));
    assert!(content.contains("src/lib.rs"));
}

#[test]
fn test_config_defaults() {
    let cfg = RepoMapConfig::default();
    assert_eq!(cfg.max_chars, 8000);
    assert_eq!(cfg.max_files, 200);
    assert!(cfg.skip_dirs.contains(&"target".to_string()));
}

#[test]
fn a_map_keeps_its_bounds() {
    let config = RepoMapConfig { max_files: 1, ..RepoMapConfig::default() };
    let files = vec![
        file("a.rs", "rs", Some("fn a() {}\n")),
        file("b.rs", "rs", Some("fn b() {}\n")),
    ];
    let map = build_repo_map(&files, &config);
    assert!(map.contains("a.rs"));
    assert!(!map.contains("fn b"));
}

#[test]
fn a_file_that_cannot_be_read_is_passed_over() {
    let files = vec![file("a.rs", "rs", None), file("b.rs", "rs", Some("fn b() {}\n"))];
    let map = build_repo_map(&files, &RepoMapConfig::default());
    assert!(!map.contains("a.rs"));
    assert!(map.contains("b.rs"));
}

#[test]
fn paths_are_sorted() {
    let paths = vec!["b".to_string(), "a/z".to_string(), "a".to_string()];
    assert_eq!(sort_paths(&paths), vec!["a", "a/z", "b"]);
}

#[test]
fn some_directories_and_files_are_left_out() {
    let skip = vec!["target".to_string()];
    assert!(!enters_dir("target", &skip));
    assert!(!enters_dir(".git", &skip));
    assert!(enters_dir("src", &skip));
    assert!(takes_file("lib.rs", "rs"));
    assert!(!takes_file("notes.txt", "txt"));
}

#[test]
fn symbols_of_an_unknown_language_are_none() {
    assert!(extract_syms("fn main() {}", Language::Unknown).is_empty());
    assert_eq!(extract_syms("fn main() {}", Language::Rust).len(), 1);
}
