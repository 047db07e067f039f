//! Texts, structured data, tables and sets.

use oneai_domain::collections::{NameSet, Table};
use oneai_domain::data::{number_value, object, parse_json, parse_toml, text_value, DataValue};
use oneai_domain::text;

const SAMPLES: [&str; 9] = [
    "",
    " ",
    "hello world",
    "  two  spaces  ",
    "line one\nline two\r\n\nend",
    "çédille – dash",
    "a,b,,c",
    "aaa",
    "中文测试",
];

#[test]
fn trimming_and_lines_are_those_of_std() {
    for s in SAMPLES {
        assert_eq!(text::trim(s), s.trim());
        assert_eq!(text::trim_start(s), s.trim_start());
        assert_eq!(text::trim_end(s), s.trim_end());
        assert_eq!(text::is_blank(s), s.trim().is_empty());
        assert_eq!(text::lines(s), s.lines().collect::<Vec<&str>>());
        assert_eq!(text::trim_matches(s, 'a'), s.trim_matches('a'));
        assert_eq!(text::split(s, ','), s.split(',').collect::<Vec<&str>>());
        assert_eq!(text::len_bytes(s), s.len());
        assert_eq!(text::to_ascii_lowercase(s), s.to_ascii_lowercase());
    }
}

#[test]
fn searching_and_replacing_are_those_of_std() {
    for s in SAMPLES {
        for word in ["a", "aa", "line", "\n", "文"] {
            assert_eq!(text::contains(s, word), s.contains(word));
            assert_eq!(text::starts_with(s, word), s.starts_with(word));
            assert_eq!(text::ends_with(s, word), s.ends_with(word));
            assert_eq!(text::replace(s, word, "-"), s.replace(word, "-"));
            assert_eq!(text::trim_start_matches(s, word), s.trim_start_matches(word));
            assert_eq!(text::trim_end_matches(s, word), s.trim_end_matches(word));
            assert_eq!(
                text::strip_prefix(s, word),
                s.strip_prefix(word).map(|rest| rest.to_string())
            );
        }
    }
}

#[test]
fn texts_are_ordered_as_in_std() {
    for a in SAMPLES {
        for b in SAMPLES {
            assert_eq!(text::less(a, b), a < b);
            assert_eq!(text::same(a, b), a == b);
            assert_eq!(text::eq_ignore_ascii_case(a, b), a.eq_ignore_ascii_case(b));
        }
    }
}

#[test]
fn numbers_are_written_as_in_std() {
    for n in [0u64, 7, 10, 1234567890, u64::MAX] {
        assert_eq!(text::decimal(n), n.to_string());
    }
}

#[test]
fn parts_are_joined() {
    let parts = vec!["a".to_string(), "b".to_string(), "c".to_string()];
    assert_eq!(text::join(&parts, ", "), "a, b, c");
    assert_eq!(text::join_first(&parts, 2, "-"), "a-b");
    assert_eq!(text::prefix_all(&parts, "> "), vec!["> a", "> b", "> c"]);
    assert_eq!(text::wrap_all(&parts, "<", ">"), vec!["<a>", "<b>", "<c>"]);
    assert_eq!(text::flatten(&parts), "abc");
    assert_eq!(text::pad("ab", 4), "ab  ");
    assert_eq!(text::take_reaching("中文", 3), "中");
    assert!(text::list_contains(&parts, "b"));
}

#[test]
fn json_documents_are_read() {
    let value = parse_json(r#"{"b": [1, 2.5, true, null], "a": "x", "c": {"d": "e"}}"#).unwrap();
    assert_eq!(value.get("a").unwrap().as_str(), Some("x"));
    assert_eq!(value.get("c").unwrap().get("d").unwrap().as_str(), Some("e"));
    assert_eq!(value.text_or("missing", "other"), "other");
    assert_eq!(
        value.list_at("b").unwrap(),
        &vec![
            DataValue::Number("1".to_string()),
            DataValue::Number("2.5".to_string()),
            DataValue::Bool(true),
            DataValue::Null,
        ]
    );
    match value {
        DataValue::Object(entries) => {
            let keys: Vec<&str> = entries.iter().map(|e| e.0.as_str()).collect();
            assert_eq!(keys, vec!["a", "b", "c"]);
        }
        other => panic!("{:?}", other),
    }
    assert!(parse_json("{").is_none());
}

#[test]
fn toml_documents_are_read() {
    let value = parse_toml("a = 1\n[b]\nc = [\"x\"]\nd = true\n").unwrap();
    assert_eq!(value.get("a").unwrap(), &DataValue::Number("1".to_string()));
    assert_eq!(
        value.get("b").unwrap().list_at("c").unwrap(),
        &vec![DataValue::Text("x".to_string())]
    );
    assert!(parse_toml("a = ").is_none());
}

#[test]
fn objects_keep_their_keys_in_order() {
    let value = DataValue::fields().with("b", number_value(2)).with("a", text_value("one"));
    let same = object(vec![
        ("a".to_string(), text_value("one")),
        ("b".to_string(), number_value(2)),
    ]);
    assert_eq!(value, same);
    assert!(value.same(&same));
    assert_eq!(value.with("a", text_value("two")).get("a").unwrap().as_str(), Some("two"));
    let list = DataValue::items().item(text_value("x")).item(DataValue::Null);
    assert_eq!(list, DataValue::List(vec![text_value("x"), DataValue::Null]));
}

#[test]
fn tables_hold_one_value_for_a_key() {
    let mut table: Table<u64> = Table::new();
    table.insert("a".to_string(), 1);
    table.insert("b".to_string(), 2);
    table.insert("a".to_string(), 3);
    assert_eq!(table.len(), 2);
    assert_eq!(table.get("a"), Some(&3));
    assert_eq!(table.get("c"), None);
    assert!(table.contains_key("b"));
}

#[test]
fn sets_hold_a_name_once() {
    let a = NameSet::from_names(vec!["x".to_string(), "y".to_string(), "x".to_string()]);
    let b = NameSet::from_names(vec!["y".to_string(), "z".to_string()]);
    assert_eq!(a.len(), 2);
    let both = a.intersection(&b);
    assert_eq!(both.len(), 1);
    assert!(both.contains("y"));
    let all = a.union(&b);
    assert_eq!(all.len(), 3);
    assert!(all.contains("x") && all.contains("y") && all.contains("z"));
}

#[test]
fn lower_case_is_that_of_std() {
    for s in SAMPLES.iter().chain(["ABC", "ÉCOLE", "İ", "ΑΣ"].iter()) {
        assert_eq!(text::lower(s), s.to_lowercase());
    }
}

#[test]
fn paths_are_equal_where_those_of_std_are() {
    let paths = [
        "", ".", "/", "//", "/.", "./", "a", "./a", "a/", "a/.", "a//b", "a/b", "/a/b", "a/./b",
        "a/../b", "..", "./.", "././a", "/./a", "/a",
    ];
    for a in paths {
        for b in paths {
            assert_eq!(
                text::same_path(a, b),
                std::path::Path::new(a) == std::path::Path::new(b),
                "{} {}",
                a,
                b
            );
        }
    }
}

#[test]
fn tables_and_sets_are_equal_whatever_their_order() {
    let table = |pairs: &[(&str, u64)]| -> Table<u64> {
        Table::from_pairs(pairs.iter().map(|(key, value)| (key.to_string(), *value)).collect())
    };
    assert_eq!(table(&[("a", 1), ("b", 2)]), table(&[("b", 2), ("a", 1)]));
    assert_ne!(table(&[("a", 1), ("b", 2)]), table(&[("a", 2), ("b", 1)]));
    assert_ne!(table(&[("a", 1)]), table(&[("a", 1), ("b", 2)]));
    assert_ne!(table(&[("a", 1)]), table(&[("b", 1)]));
    let names = |list: &[&str]| NameSet::from_names(list.iter().map(|s| s.to_string()).collect());
    assert_eq!(names(&["x", "y"]), names(&["y", "x", "y"]));
    assert_ne!(names(&["x"]), names(&["x", "y"]));
    assert_ne!(names(&["x", "y"]), names(&["x"]));
}
