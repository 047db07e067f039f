//! A map of the code of a project: what each file defines.

use vstd::prelude::*;
use crate::builtin_sources;
use crate::context_source::{ContextSource, RefreshPolicy, RefreshPolicyView, SourceHandle};
use crate::duplicate::Duplicate;
use crate::patterns;
use crate::text;

verus! {

// ─── Languages ──────────────────────────────────────────────────────────────

/// A programming language.
#[derive(Debug, Clone, Copy, PartialEq, Eq, Structural)]
pub enum Language {
    Rust,
    Python,
    JavaScript,
    TypeScript,
    Go,
    Java,
    C,
    Cpp,
    Kotlin,
    Swift,
    Ruby,
    Php,
    Shell,
    Unknown,
}

impl DeepView for Language {
    type V = Language;

    open spec fn deep_view(&self) -> Language {
        *self
    }
}

impl Duplicate for Language {
    fn duplicate(&self) -> (copy: Self) {
        *self
    }
}

/// The language of the files with this extension.
pub open spec fn language_of(ext: Seq<char>) -> Language {
    if ext == "rs"@ {
        Language::Rust
    } else if ext == "py"@ || ext == "pyi"@ {
        Language::Python
    } else if ext == "js"@ || ext == "jsx"@ || ext == "mjs"@ {
        Language::JavaScript
    } else if ext == "ts"@ || ext == "tsx"@ {
        Language::TypeScript
    } else if ext == "go"@ {
        Language::Go
    } else if ext == "java"@ {
        Language::Java
    } else if ext == "c"@ || ext == "h"@ {
        Language::C
    } else if ext == "cpp"@ || ext == "hpp"@ {
        Language::Cpp
    } else if ext == "kt"@ {
        Language::Kotlin
    } else if ext == "swift"@ {
        Language::Swift
    } else if ext == "rb"@ {
        Language::Ruby
    } else if ext == "php"@ {
        Language::Php
    } else if ext == "sh"@ || ext == "bash"@ {
        Language::Shell
    } else {
        Language::Unknown
    }
}

impl Language {
    /// The language of the files with this extension.
    pub fn from_ext(ext: &str) -> (r: Self)
        ensures
            r == language_of(ext@),
    {
        if text::same(ext, "rs") {
            Language::Rust
        } else if text::same(ext, "py") || text::same(ext, "pyi") {
            Language::Python
        } else if text::same(ext, "js") || text::same(ext, "jsx") || text::same(ext, "mjs") {
            Language::JavaScript
        } else if text::same(ext, "ts") || text::same(ext, "tsx") {
            Language::TypeScript
        } else if text::same(ext, "go") {
            Language::Go
        } else if text::same(ext, "java") {
            Language::Java
        } else if text::same(ext, "c") || text::same(ext, "h") {
            Language::C
        } else if text::same(ext, "cpp") || text::same(ext, "hpp") {
            Language::Cpp
        } else if text::same(ext, "kt") {
            Language::Kotlin
        } else if text::same(ext, "swift") {
            Language::Swift
        } else if text::same(ext, "rb") {
            Language::Ruby
        } else if text::same(ext, "php") {
            Language::Php
        } else if text::same(ext, "sh") || text::same(ext, "bash") {
            Language::Shell
        } else {
            Language::Unknown
        }
    }
}

// ─── Symbols ────────────────────────────────────────────────────────────────

/// What a symbol is.
#[derive(Debug, Clone, Copy, PartialEq, Eq, Structural)]
pub enum SymKind {
    Fn,
    Struct,
    Enum,
    Class,
    Interface,
    Trait,
    Module,
    Import,
    Const,
    Type,
    Method,
    Field,
}

impl DeepView for SymKind {
    type V = SymKind;

    open spec fn deep_view(&self) -> SymKind {
        *self
    }
}

impl Duplicate for SymKind {
    fn duplicate(&self) -> (copy: Self) {
        *self
    }
}

impl SymKind {
    /// The word that stands before a symbol of this kind.
    pub open spec fn spec_tag(self) -> Seq<char> {
        match self {
            SymKind::Fn | SymKind::Method => "fn"@,
            SymKind::Struct => "struct"@,
            SymKind::Enum => "enum"@,
            SymKind::Class => "class"@,
            SymKind::Interface => "interface"@,
            SymKind::Trait => "trait"@,
            SymKind::Module => "mod"@,
            SymKind::Import => "import"@,
            SymKind::Const => "const"@,
            SymKind::Type => "type"@,
            SymKind::Field => "field"@,
        }
    }

    /// The word that stands before a symbol of this kind.
    pub fn tag(&self) -> (r: &'static str)
        ensures
            r@ == self.spec_tag(),
    {
        match self {
            SymKind::Fn => "fn",
            SymKind::Method => "fn",
            SymKind::Struct => "struct",
            SymKind::Enum => "enum",
            SymKind::Class => "class",
            SymKind::Interface => "interface",
            SymKind::Trait => "trait",
            SymKind::Module => "mod",
            SymKind::Import => "import",
            SymKind::Const => "const",
            SymKind::Type => "type",
            SymKind::Field => "field",
        }
    }
}

/// Something that a file defines.
#[derive(Debug, PartialEq)]
pub struct Symbol {
    pub kind: SymKind,
    pub name: String,
    /// How it is shown.
    pub sig: String,
}

/// The contents of a [`Symbol`].
#[verifier::ext_equal]
pub struct SymbolView {
    pub kind: SymKind,
    pub name: Seq<char>,
    pub sig: Seq<char>,
}

impl DeepView for Symbol {
    type V = SymbolView;

    open spec fn deep_view(&self) -> SymbolView {
        SymbolView {
            kind: self.kind,
            name: self.name.deep_view(),
            sig: self.sig.deep_view(),
        }
    }
}

impl Duplicate for Symbol {
    fn duplicate(&self) -> (copy: Self) {
        Symbol {
            kind: self.kind,
            name: self.name.duplicate(),
            sig: self.sig.duplicate(),
        }
    }
}

impl Clone for Symbol {
    fn clone(&self) -> (copy: Self)
        ensures
            copy.deep_view() == self.deep_view(),
    {
        self.duplicate()
    }
}

/// How symbols of one kind are found: by the first group of a regular
/// expression.
#[derive(Debug, PartialEq)]
pub struct SymRule {
    pub kind: SymKind,
    pub pattern: String,
    /// What stands before the name when it is shown.
    pub prefix: String,
}

/// The contents of a [`SymRule`].
#[verifier::ext_equal]
pub struct SymRuleView {
    pub kind: SymKind,
    pub pattern: Seq<char>,
    pub prefix: Seq<char>,
}

impl DeepView for SymRule {
    type V = SymRuleView;

    open spec fn deep_view(&self) -> SymRuleView {
        SymRuleView {
            kind: self.kind,
            pattern: self.pattern.deep_view(),
            prefix: self.prefix.deep_view(),
        }
    }
}

impl Duplicate for SymRule {
    fn duplicate(&self) -> (copy: Self) {
        SymRule {
            kind: self.kind,
            pattern: self.pattern.duplicate(),
            prefix: self.prefix.duplicate(),
        }
    }
}

impl Clone for SymRule {
    fn clone(&self) -> (copy: Self)
        ensures
            copy.deep_view() == self.deep_view(),
    {
        self.duplicate()
    }
}

/// A symbol as it is shown.
pub open spec fn signature(prefix: Seq<char>, name: Seq<char>) -> Seq<char> {
    prefix + " "@ + name
}

/// A symbol as it is shown.
pub fn fmt_sig(prefix: &str, name: &str) -> (r: String)
    ensures
        r@ == signature(prefix@, name@),
{
    let mut r = prefix.to_string();
    r.push_str(" ");
    r.push_str(name);
    r
}

/// What the expression of each rule finds in a line.
pub open spec fn line_captures(rules: Seq<SymRuleView>, line: Seq<char>) -> Seq<Option<Seq<char>>> {
    Seq::new(rules.len(), |i: int| patterns::first_group(rules[i].pattern, line))
}

/// The symbol of the first rule that found something.
pub open spec fn first_symbol(rules: Seq<SymRuleView>, found: Seq<Option<Seq<char>>>) -> Option<
    SymbolView,
>
    decreases rules.len(),
{
    if rules.len() == 0 {
        None
    } else {
        match found[0] {
            Some(name) => Some(
                SymbolView {
                    kind: rules[0].kind,
                    name,
                    sig: signature(rules[0].prefix, name),
                },
            ),
            None => first_symbol(rules.drop_first(), found.drop_first()),
        }
    }
}

/// The symbol that a line defines: none where it is blank or a comment.
pub open spec fn line_symbol(
    rules: Seq<SymRuleView>,
    comment: Seq<char>,
    line: Seq<char>,
) -> Option<
    SymbolView,
> {
    let code = text::trimmed(line);
    if comment.is_prefix_of(code) || code.len() == 0 {
        None
    } else {
        first_symbol(rules, line_captures(rules, code))
    }
}

/// The symbols that the lines define, in order.
pub open spec fn symbols(
    rules: Seq<SymRuleView>,
    comment: Seq<char>,
    lines: Seq<Seq<char>>,
) -> Seq<SymbolView>
    decreases lines.len(),
{
    if lines.len() == 0 {
        Seq::empty()
    } else {
        let before = symbols(rules, comment, lines.drop_last());
        match line_symbol(rules, comment, lines.last()) {
            Some(symbol) => before.push(symbol),
            None => before,
        }
    }
}

/// A rule.
fn rule(kind: SymKind, pattern: &str, prefix: &str) -> (r: SymRule)
    ensures
        r.deep_view() == (SymRuleView { kind, pattern: pattern@, prefix: prefix@ }),
{
    SymRule { kind, pattern: pattern.to_string(), prefix: prefix.to_string() }
}

/// The symbol of the first rule that found something, by what each rule found.
pub fn pick_symbol(rules: &Vec<SymRule>, found: &Vec<Option<String>>) -> (r: Option<Symbol>)
    requires
        found@.len() == rules@.len(),
    ensures
        r.deep_view() == first_symbol(rules.deep_view(), found.deep_view()),
{
    let ghost all = rules.deep_view();
    let ghost names = found.deep_view();
    let mut i: usize = 0;
    proof {
        assert(all.skip(0) =~= all);
        assert(names.skip(0) =~= names);
    }
    while i < rules.len()
        invariant
            i <= rules.len() == found.len(),
            all == rules.deep_view(),
            names == found.deep_view(),
            first_symbol(all, names) == first_symbol(all.skip(i as int), names.skip(i as int)),
        decreases rules.len() - i,
    {
        proof {
            assert(all.skip(i as int)[0] == all[i as int]);
            assert(names.skip(i as int)[0] == names[i as int]);
            assert(all[i as int] == rules@[i as int].deep_view());
            assert(names[i as int] == found@[i as int].deep_view());
            assert(all.skip(i as int).drop_first() =~= all.skip(i + 1));
            assert(names.skip(i as int).drop_first() =~= names.skip(i + 1));
        }
        if let Some(name) = &found[i] {
            return Some(
                Symbol {
                    kind: rules[i].kind,
                    name: name.clone(),
                    sig: fmt_sig(rules[i].prefix.as_str(), name.as_str()),
                },
            );
        }
        i = i + 1;
    }
    None
}

/// The symbol that a line defines: none where it is blank or a comment.
fn find_symbol(rules: &Vec<SymRule>, comment: &str, line: &str) -> (r: Option<Symbol>)
    ensures
        r.deep_view() == line_symbol(rules.deep_view(), comment@, line@),
{
    let code = text::trim(line);
    if text::starts_with(code.as_str(), comment) || text::is_blank(line) {
        return None;
    }
    let ghost expected = line_captures(rules.deep_view(), code@);
    let mut found: Vec<Option<String>> = Vec::new();
    let mut i: usize = 0;
    assert(found.deep_view() =~= expected.take(0));
    while i < rules.len()
        invariant
            i <= rules.len(),
            found.len() == i,
            expected == line_captures(rules.deep_view(), code@),
            found.deep_view() == expected.take(i as int),
        decreases rules.len() - i,
    {
        let ghost before = found.deep_view();
        assert(rules.deep_view()[i as int] == rules@[i as int].deep_view());
        let name = patterns::capture(rules[i].pattern.as_str(), code.as_str());
        found.push(name);
        assert(found.deep_view() =~= before.push(expected[i as int]));
        i = i + 1;
        assert(found.deep_view() =~= expected.take(i as int));
    }
    assert(expected.take(i as int) =~= expected);
    pick_symbol(rules, &found)
}

/// The symbols of a text.
fn find_symbols(rules: &Vec<SymRule>, comment: &str, code: &str) -> (r: Vec<Symbol>)
    ensures
        r.deep_view() == symbols(rules.deep_view(), comment@, text::line_seq(code@)),
{
    let lines = text::lines(code);
    let ghost all = lines.deep_view();
    let mut r: Vec<Symbol> = Vec::new();
    let mut i: usize = 0;
    while i < lines.len()
        invariant
            i <= lines.len(),
            all == lines.deep_view(),
            r.deep_view() == symbols(rules.deep_view(), comment@, all.take(i as int)),
        decreases lines.len() - i,
    {
        let ghost before = r.deep_view();
        assert(all.take(i + 1).drop_last() =~= all.take(i as int));
        assert(all[i as int] == lines@[i as int]@);
        if let Some(symbol) = find_symbol(rules, comment, lines[i].as_str()) {
            let ghost s = symbol.deep_view();
            r.push(symbol);
            assert(r.deep_view() =~= before.push(s));
        }
        i = i + 1;
    }
    assert(all.take(i as int) =~= all);
    r
}

/// Without rules nothing is found.
proof fn lemma_no_symbols(comment: Seq<char>, lines: Seq<Seq<char>>)
    ensures
        symbols(Seq::empty(), comment, lines) == Seq::<SymbolView>::empty(),
    decreases lines.len(),
{
    if lines.len() > 0 {
        lemma_no_symbols(comment, lines.drop_last());
    }
}

// ─── What is looked for ─────────────────────────────────────────────────────

/// What is looked for in Rust.
pub open spec fn rust_rules() -> Seq<SymRuleView> {
    seq![
        SymRuleView { kind: SymKind::Fn, pattern: "fn\\s+(\\w+)"@, prefix: "fn"@ },
        SymRuleView { kind: SymKind::Struct, pattern: "struct\\s+(\\w+)"@, prefix: "struct"@ },
        SymRuleView { kind: SymKind::Enum, pattern: "enum\\s+(\\w+)"@, prefix: "enum"@ },
        SymRuleView { kind: SymKind::Trait, pattern: "trait\\s+(\\w+)"@, prefix: "trait"@ },
        SymRuleView { kind: SymKind::Module, pattern: "mod\\s+(\\w+)"@, prefix: "mod"@ },
        SymRuleView { kind: SymKind::Const, pattern: "const\\s+(\\w+)"@, prefix: "const"@ },
        SymRuleView { kind: SymKind::Type, pattern: "type\\s+(\\w+)"@, prefix: "type"@ },
    ]
}

/// What is looked for in Python.
pub open spec fn python_rules() -> Seq<SymRuleView> {
    seq![
        SymRuleView { kind: SymKind::Class, pattern: "class\\s+(\\w+)"@, prefix: "class"@ },
        SymRuleView { kind: SymKind::Fn, pattern: "def\\s+(\\w+)"@, prefix: "def"@ },
    ]
}

/// What is looked for in JavaScript and TypeScript.
pub open spec fn js_rules() -> Seq<SymRuleView> {
    seq![
        SymRuleView { kind: SymKind::Fn, pattern: "function\\s+(\\w+)"@, prefix: "function"@ },
        SymRuleView { kind: SymKind::Class, pattern: "class\\s+(\\w+)"@, prefix: "class"@ },
        SymRuleView {
            kind: SymKind::Interface,
            pattern: "interface\\s+(\\w+)"@,
            prefix: "interface"@,
        },
        SymRuleView { kind: SymKind::Enum, pattern: "enum\\s+(\\w+)"@, prefix: "enum"@ },
        SymRuleView { kind: SymKind::Fn, pattern: "const\\s+(\\w+)\\s*="@, prefix: "const"@ },
    ]
}

/// What is looked for in Go.
pub open spec fn go_rules() -> Seq<SymRuleView> {
    seq![
        SymRuleView { kind: SymKind::Fn, pattern: "func\\s+(\\w+)"@, prefix: "func"@ },
        SymRuleView {
            kind: SymKind::Struct,
            pattern: "type\\s+(\\w+)\\s+struct"@,
            prefix: "type struct"@,
        },
        SymRuleView {
            kind: SymKind::Interface,
            pattern: "type\\s+(\\w+)\\s+interface"@,
            prefix: "type interface"@,
        },
        SymRuleView { kind: SymKind::Module, pattern: "package\\s+(\\w+)"@, prefix: "package"@ },
    ]
}

/// What is looked for in Java.
pub open spec fn java_rules() -> Seq<SymRuleView> {
    seq![
        SymRuleView { kind: SymKind::Class, pattern: "class\\s+(\\w+)"@, prefix: "class"@ },
        SymRuleView {
            kind: SymKind::Interface,
            pattern: "interface\\s+(\\w+)"@,
            prefix: "interface"@,
        },
        SymRuleView { kind: SymKind::Enum, pattern: "enum\\s+(\\w+)"@, prefix: "enum"@ },
    ]
}

/// What is looked for in C and C++.
pub open spec fn c_rules() -> Seq<SymRuleView> {
    seq![
        SymRuleView { kind: SymKind::Struct, pattern: "struct\\s+(\\w+)"@, prefix: "struct"@ },
        SymRuleView { kind: SymKind::Enum, pattern: "enum\\s+(\\w+)"@, prefix: "enum"@ },
        SymRuleView { kind: SymKind::Const, pattern: "#define\\s+(\\w+)"@, prefix: "#define"@ },
    ]
}

/// What is looked for in Kotlin.
pub open spec fn kotlin_rules() -> Seq<SymRuleView> {
    seq![
        SymRuleView { kind: SymKind::Fn, pattern: "fun\\s+(\\w+)"@, prefix: "fun"@ },
        SymRuleView { kind: SymKind::Class, pattern: "class\\s+(\\w+)"@, prefix: "class"@ },
        SymRuleView { kind: SymKind::Struct, pattern: "object\\s+(\\w+)"@, prefix: "object"@ },
    ]
}

/// What is looked for in Swift.
pub open spec fn swift_rules() -> Seq<SymRuleView> {
    seq![
        SymRuleView { kind: SymKind::Fn, pattern: "func\\s+(\\w+)"@, prefix: "func"@ },
        SymRuleView { kind: SymKind::Class, pattern: "class\\s+(\\w+)"@, prefix: "class"@ },
        SymRuleView { kind: SymKind::Struct, pattern: "struct\\s+(\\w+)"@, prefix: "struct"@ },
        SymRuleView { kind: SymKind::Trait, pattern: "protocol\\s+(\\w+)"@, prefix: "protocol"@ },
    ]
}

/// What is looked for in Ruby.
pub open spec fn ruby_rules() -> Seq<SymRuleView> {
    seq![
        SymRuleView { kind: SymKind::Class, pattern: "class\\s+(\\w+)"@, prefix: "class"@ },
        SymRuleView { kind: SymKind::Module, pattern: "module\\s+(\\w+)"@, prefix: "module"@ },
        SymRuleView { kind: SymKind::Method, pattern: "def\\s+(\\w+)"@, prefix: "def"@ },
    ]
}

/// What is looked for in PHP.
pub open spec fn php_rules() -> Seq<SymRuleView> {
    seq![
        SymRuleView { kind: SymKind::Class, pattern: "class\\s+(\\w+)"@, prefix: "class"@ },
        SymRuleView { kind: SymKind::Fn, pattern: "function\\s+(\\w+)"@, prefix: "function"@ },
    ]
}

/// What is looked for in the shell.
pub open spec fn shell_rules() -> Seq<SymRuleView> {
    seq![
        SymRuleView { kind: SymKind::Fn, pattern: "function\\s+(\\w+)"@, prefix: "function"@ },
    ]
}

/// What is looked for in a language.
pub open spec fn language_rules(language: Language) -> Seq<SymRuleView> {
    match language {
        Language::Rust => rust_rules(),
        Language::Python => python_rules(),
        Language::JavaScript | Language::TypeScript => js_rules(),
        Language::Go => go_rules(),
        Language::Java => java_rules(),
        Language::C | Language::Cpp => c_rules(),
        Language::Kotlin => kotlin_rules(),
        Language::Swift => swift_rules(),
        Language::Ruby => ruby_rules(),
        Language::Php => php_rules(),
        Language::Shell => shell_rules(),
        Language::Unknown => Seq::empty(),
    }
}

/// What a line of comment begins with in a language.
pub open spec fn comment_mark(language: Language) -> Seq<char> {
    match language {
        Language::Python | Language::Ruby | Language::Shell => "#"@,
        _ => "//"@,
    }
}

/// The symbols of a text in a language.
pub open spec fn symbols_of(language: Language, code: Seq<char>) -> Seq<SymbolView> {
    symbols(language_rules(language), comment_mark(language), text::line_seq(code))
}

/// The symbols of a text in Rust.
pub fn rust_syms(code: &str) -> (r: Vec<Symbol>)
    ensures
        r.deep_view() == symbols_of(Language::Rust, code@),
{
    let rules = vec![
        rule(SymKind::Fn, "fn\\s+(\\w+)", "fn"),
        rule(SymKind::Struct, "struct\\s+(\\w+)", "struct"),
        rule(SymKind::Enum, "enum\\s+(\\w+)", "enum"),
        rule(SymKind::Trait, "trait\\s+(\\w+)", "trait"),
        rule(SymKind::Module, "mod\\s+(\\w+)", "mod"),
        rule(SymKind::Const, "const\\s+(\\w+)", "const"),
        rule(SymKind::Type, "type\\s+(\\w+)", "type"),
    ];
    assert(rules.deep_view() =~= rust_rules());
    find_symbols(&rules, "//", code)
}

/// The symbols of a text in Python.
pub fn python_syms(code: &str) -> (r: Vec<Symbol>)
    ensures
        r.deep_view() == symbols_of(Language::Python, code@),
{
    let rules = vec![
        rule(SymKind::Class, "class\\s+(\\w+)", "class"),
        rule(SymKind::Fn, "def\\s+(\\w+)", "def"),
    ];
    assert(rules.deep_view() =~= python_rules());
    find_symbols(&rules, "#", code)
}

/// The symbols of a text in JavaScript and TypeScript.
pub fn js_syms(code: &str) -> (r: Vec<Symbol>)
    ensures
        r.deep_view() == symbols_of(Language::JavaScript, code@),
{
    let rules = vec![
        rule(SymKind::Fn, "function\\s+(\\w+)", "function"),
        rule(SymKind::Class, "class\\s+(\\w+)", "class"),
        rule(SymKind::Interface, "interface\\s+(\\w+)", "interface"),
        rule(SymKind::Enum, "enum\\s+(\\w+)", "enum"),
        rule(SymKind::Fn, "const\\s+(\\w+)\\s*=", "const"),
    ];
    assert(rules.deep_view() =~= js_rules());
    find_symbols(&rules, "//", code)
}

/// The symbols of a text in Go.
pub fn go_syms(code: &str) -> (r: Vec<Symbol>)
    ensures
        r.deep_view() == symbols_of(Language::Go, code@),
{
    let rules = vec![
        rule(SymKind::Fn, "func\\s+(\\w+)", "func"),
        rule(SymKind::Struct, "type\\s+(\\w+)\\s+struct", "type struct"),
        rule(SymKind::Interface, "type\\s+(\\w+)\\s+interface", "type interface"),
        rule(SymKind::Module, "package\\s+(\\w+)", "package"),
    ];
    assert(rules.deep_view() =~= go_rules());
    find_symbols(&rules, "//", code)
}

/// The symbols of a text in Java.
pub fn java_syms(code: &str) -> (r: Vec<Symbol>)
    ensures
        r.deep_view() == symbols_of(Language::Java, code@),
{
    let rules = vec![
        rule(SymKind::Class, "class\\s+(\\w+)", "class"),
        rule(SymKind::Interface, "interface\\s+(\\w+)", "interface"),
        rule(SymKind::Enum, "enum\\s+(\\w+)", "enum"),
    ];
    assert(rules.deep_view() =~= java_rules());
    find_symbols(&rules, "//", code)
}

/// The symbols of a text in C and C++.
pub fn c_syms(code: &str) -> (r: Vec<Symbol>)
    ensures
        r.deep_view() == symbols_of(Language::C, code@),
{
    let rules = vec![
        rule(SymKind::Struct, "struct\\s+(\\w+)", "struct"),
        rule(SymKind::Enum, "enum\\s+(\\w+)", "enum"),
        rule(SymKind::Const, "#define\\s+(\\w+)", "#define"),
    ];
    assert(rules.deep_view() =~= c_rules());
    find_symbols(&rules, "//", code)
}

/// The symbols of a text in Kotlin.
pub fn kotlin_syms(code: &str) -> (r: Vec<Symbol>)
    ensures
        r.deep_view() == symbols_of(Language::Kotlin, code@),
{
    let rules = vec![
        rule(SymKind::Fn, "fun\\s+(\\w+)", "fun"),
        rule(SymKind::Class, "class\\s+(\\w+)", "class"),
        rule(SymKind::Struct, "object\\s+(\\w+)", "object"),
    ];
    assert(rules.deep_view() =~= kotlin_rules());
    find_symbols(&rules, "//", code)
}

/// The symbols of a text in Swift.
pub fn swift_syms(code: &str) -> (r: Vec<Symbol>)
    ensures
        r.deep_view() == symbols_of(Language::Swift, code@),
{
    let rules = vec![
        rule(SymKind::Fn, "func\\s+(\\w+)", "func"),
        rule(SymKind::Class, "class\\s+(\\w+)", "class"),
        rule(SymKind::Struct, "struct\\s+(\\w+)", "struct"),
        rule(SymKind::Trait, "protocol\\s+(\\w+)", "protocol"),
    ];
    assert(rules.deep_view() =~= swift_rules());
    find_symbols(&rules, "//", code)
}

/// The symbols of a text in Ruby.
pub fn ruby_syms(code: &str) -> (r: Vec<Symbol>)
    ensures
        r.deep_view() == symbols_of(Language::Ruby, code@),
{
    let rules = vec![
        rule(SymKind::Class, "class\\s+(\\w+)", "class"),
        rule(SymKind::Module, "module\\s+(\\w+)", "module"),
        rule(SymKind::Method, "def\\s+(\\w+)", "def"),
    ];
    assert(rules.deep_view() =~= ruby_rules());
    find_symbols(&rules, "#", code)
}

/// The symbols of a text in PHP.
pub fn php_syms(code: &str) -> (r: Vec<Symbol>)
    ensures
        r.deep_view() == symbols_of(Language::Php, code@),
{
    let rules = vec![
        rule(SymKind::Class, "class\\s+(\\w+)", "class"),
        rule(SymKind::Fn, "function\\s+(\\w+)", "function"),
    ];
    assert(rules.deep_view() =~= php_rules());
    find_symbols(&rules, "//", code)
}

/// The symbols of a text in the shell.
pub fn shell_syms(code: &str) -> (r: Vec<Symbol>)
    ensures
        r.deep_view() == symbols_of(Language::Shell, code@),
{
    let rules = vec![
        rule(SymKind::Fn, "function\\s+(\\w+)", "function"),
    ];
    assert(rules.deep_view() =~= shell_rules());
    find_symbols(&rules, "#", code)
}

/// The symbols of a text in a language: none in an unknown one.
pub fn extract_syms(content: &str, lang: Language) -> (r: Vec<Symbol>)
    ensures
        r.deep_view() == symbols_of(lang, content@),
{
    match lang {
        Language::Rust => rust_syms(content),
        Language::Python => python_syms(content),
        Language::JavaScript | Language::TypeScript => js_syms(content),
        Language::Go => go_syms(content),
        Language::Java => java_syms(content),
        Language::C | Language::Cpp => c_syms(content),
        Language::Kotlin => kotlin_syms(content),
        Language::Swift => swift_syms(content),
        Language::Ruby => ruby_syms(content),
        Language::Php => php_syms(content),
        Language::Shell => shell_syms(content),
        Language::Unknown => {
            proof {
                lemma_no_symbols(comment_mark(Language::Unknown), text::line_seq(content@));
            }
            Vec::new()
        },
    }
}

/// A symbol is one that some rule gives: of its kind, and shown by its name
/// behind the word of the rule.
pub open spec fn given_by(rules: Seq<SymRuleView>, symbol: SymbolView) -> bool {
    exists|j: int|
        0 <= j < rules.len() && symbol.kind == rules[j].kind && symbol.sig
            == #[trigger] signature(rules[j].prefix, symbol.name)
}

/// A file defines at most one symbol a line, and each symbol is one that some
/// rule gives.
pub proof fn law_symbols_of_lines(
    rules: Seq<SymRuleView>,
    comment: Seq<char>,
    lines: Seq<Seq<char>>,
)
    ensures
        symbols(rules, comment, lines).len() <= lines.len(),
        forall|i: int|
            0 <= i < symbols(rules, comment, lines).len() ==> given_by(
                rules,
                #[trigger] symbols(rules, comment, lines)[i],
            ),
    decreases lines.len(),
{
    if lines.len() > 0 {
        let front = lines.drop_last();
        law_symbols_of_lines(rules, comment, front);
        let before = symbols(rules, comment, front);
        let all = symbols(rules, comment, lines);
        lemma_first_symbol(rules, line_captures(rules, text::trimmed(lines.last())));
        assert forall|i: int| 0 <= i < all.len() implies given_by(rules, #[trigger] all[i]) by {
            if i < before.len() {
                assert(all[i] == before[i]);
            }
        }
    }
}

proof fn lemma_first_symbol(rules: Seq<SymRuleView>, found: Seq<Option<Seq<char>>>)
    ensures
        first_symbol(rules, found) matches Some(symbol) ==> given_by(rules, symbol),
    decreases rules.len(),
{
    if rules.len() > 0 && found[0] is None {
        let rest = rules.drop_first();
        lemma_first_symbol(rest, found.drop_first());
        if let Some(symbol) = first_symbol(rules, found) {
            let j = choose|j: int|
                0 <= j < rest.len() && symbol.kind == rest[j].kind && symbol.sig
                    == #[trigger] signature(rest[j].prefix, symbol.name);
            assert(rest[j] == rules[j + 1]);
            assert(symbol.sig == signature(rules[j + 1].prefix, symbol.name));
        }
    } else if rules.len() > 0 {
        let symbol = first_symbol(rules, found)->0;
        assert(symbol.sig == signature(rules[0].prefix, symbol.name));
    }
}

// ─── Configuration ──────────────────────────────────────────────────────────

/// How large a map may be.
#[derive(Debug, PartialEq)]
pub struct RepoMapConfig {
    /// How many characters it is meant to have at most.
    pub max_chars: usize,
    /// How many files it shows at most.
    pub max_files: usize,
    /// How many symbols it shows of each file at most.
    pub max_syms_per_file: usize,
    /// Directories that are left out.
    pub skip_dirs: Vec<String>,
    /// Whether it shows what a file uses.
    pub include_imports: bool,
}

/// The contents of a [`RepoMapConfig`].
#[verifier::ext_equal]
pub struct RepoMapConfigView {
    pub max_chars: usize,
    pub max_files: usize,
    pub max_syms_per_file: usize,
    pub skip_dirs: Seq<Seq<char>>,
    pub include_imports: bool,
}

impl DeepView for RepoMapConfig {
    type V = RepoMapConfigView;

    open spec fn deep_view(&self) -> RepoMapConfigView {
        RepoMapConfigView {
            max_chars: self.max_chars,
            max_files: self.max_files,
            max_syms_per_file: self.max_syms_per_file,
            skip_dirs: self.skip_dirs.deep_view(),
            include_imports: self.include_imports,
        }
    }
}

impl Duplicate for RepoMapConfig {
    fn duplicate(&self) -> (copy: Self) {
        RepoMapConfig {
            max_chars: self.max_chars,
            max_files: self.max_files,
            max_syms_per_file: self.max_syms_per_file,
            skip_dirs: self.skip_dirs.duplicate(),
            include_imports: self.include_imports,
        }
    }
}

impl Clone for RepoMapConfig {
    fn clone(&self) -> (copy: Self)
        ensures
            copy.deep_view() == self.deep_view(),
    {
        self.duplicate()
    }
}

/// The usual directories that are left out.
pub open spec fn usual_skip_dirs() -> Seq<Seq<char>> {
    seq![
        "target"@,
        "node_modules"@,
        ".git"@,
        "dist"@,
        "build"@,
        "__pycache__"@,
        ".venv"@,
        "vendor"@,
        "out"@,
        ".next"@,
        ".cache"@,
        ".cargo"@,
        "debug"@,
        "release"@,
    ]
}

/// The usual size.
pub open spec fn usual_map_config() -> RepoMapConfigView {
    RepoMapConfigView {
        max_chars: 8000,
        max_files: 200,
        max_syms_per_file: 30,
        skip_dirs: usual_skip_dirs(),
        include_imports: true,
    }
}

impl Default for RepoMapConfig {
    fn default() -> (r: Self)
        ensures
            r.deep_view() == usual_map_config(),
    {
        RepoMapConfig {
            max_chars: 8000,
            max_files: 200,
            max_syms_per_file: 30,
            skip_dirs: text::texts(
                [
                    "target",
                    "node_modules",
                    ".git",
                    "dist",
                    "build",
                    "__pycache__",
                    ".venv",
                    "vendor",
                    "out",
                    ".next",
                    ".cache",
                    ".cargo",
                    "debug",
                    "release",
                ],
            ),
            include_imports: true,
        }
    }
}

// ─── Files ──────────────────────────────────────────────────────────────────

/// A directory of this name is looked into.
pub open spec fn enters(name: Seq<char>, skip: Seq<Seq<char>>) -> bool {
    !"."@.is_prefix_of(name) && !skip.contains(name)
}

/// Whether a directory of this name is looked into.
pub fn enters_dir(name: &str, skip: &Vec<String>) -> (r: bool)
    ensures
        r == enters(name@, skip.deep_view()),
{
    !text::starts_with(name, ".") && !text::list_contains(skip, name)
}

/// A file of this name, with this extension, is looked at.
pub open spec fn takes(name: Seq<char>, ext: Seq<char>) -> bool {
    !"."@.is_prefix_of(name) && language_of(ext) != Language::Unknown
}

/// Whether a file of this name, with this extension, is looked at.
pub fn takes_file(name: &str, ext: &str) -> (r: bool)
    ensures
        r == takes(name@, ext@),
{
    if text::starts_with(name, ".") {
        return false;
    }
    match Language::from_ext(ext) {
        Language::Unknown => false,
        _ => true,
    }
}

/// The texts stand in ascending order.
pub open spec fn ascending(items: Seq<Seq<char>>) -> bool {
    forall|i: int, j: int|
        0 <= i < j < items.len() ==> !text::text_before(#[trigger] items[j], #[trigger] items[i])
}

/// The paths in ascending order.
pub fn sort_paths(paths: &Vec<String>) -> (r: Vec<String>)
    ensures
        ascending(r.deep_view()),
        r.deep_view().to_multiset() == paths.deep_view().to_multiset(),
{
    let ghost all = paths.deep_view();
    let mut r: Vec<String> = Vec::new();
    let mut i: usize = 0;
    assert(r.deep_view() =~= all.take(0));
    while i < paths.len()
        invariant
            i <= paths.len(),
            all == paths.deep_view(),
            ascending(r.deep_view()),
            r.deep_view().to_multiset() == all.take(i as int).to_multiset(),
        decreases paths.len() - i,
    {
        let ghost before = r.deep_view();
        let ghost item = all[i as int];
        assert(item == paths@[i as int]@);
        let mut j: usize = r.len();
        while j > 0 && text::less(paths[i].as_str(), r[j - 1].as_str())
            invariant
                j <= r.len(),
                i < paths.len(),
                item == paths@[i as int]@,
                r.deep_view() == before,
                forall|k: int| j <= k < before.len() ==> text::text_before(item, #[trigger] before[k]),
            decreases j,
        {
            j = j - 1;
        }
        proof {
            if j > 0 {
                assert(before[j - 1] == r@[j - 1]@);
            }
        }
        r.insert(j, paths[i].clone());
        proof {
            let after = r.deep_view();
            assert(after =~= before.insert(j as int, item));
            vstd::seq_lib::to_multiset_insert(before, j as int, item);
            assert(all.take(i + 1) =~= all.take(i as int).push(item));
            all.take(i as int).to_multiset_ensures();
            assert forall|a: int, b: int| 0 <= a < b < after.len() implies !text::text_before(
                #[trigger] after[b],
                #[trigger] after[a],
            ) by {
                lemma_insert_ascending(before, j as int, item, a, b);
            }
        }
        i = i + 1;
    }
    assert(all.take(i as int) =~= all);
    r
}

proof fn lemma_insert_ascending(before: Seq<Seq<char>>, j: int, item: Seq<char>, a: int, b: int)
    requires
        ascending(before),
        0 <= j <= before.len(),
        j > 0 ==> !text::text_before(item, before[j - 1]),
        forall|k: int| j <= k < before.len() ==> text::text_before(item, #[trigger] before[k]),
        0 <= a < b <= before.len(),
    ensures
        !text::text_before(before.insert(j, item)[b], before.insert(j, item)[a]),
{
    let after = before.insert(j, item);
    let x = after[a];
    let y = after[b];
    if a < j && b < j {
        assert(x == before[a] && y == before[b]);
    } else if a < j && b == j {
        if a < j - 1 {
            if text::text_before(item, before[a]) {
                crate::data::lemma_text_before_total(before[j - 1], before[a]);
                if before[a] != before[j - 1] {
                    assert(!text::text_before(before[j - 1], before[a]));
                    crate::data::lemma_text_before_transitive(item, before[a], before[j - 1]);
                }
                assert(false);
            }
        }
    } else if a < j {
        assert(x == before[a] && y == before[b - 1]);
    } else if a == j {
        if text::text_before(before[b - 1], item) {
            crate::data::lemma_text_before_transitive(item, before[b - 1], item);
            lemma_not_before_itself(item);
        }
    } else {
        assert(x == before[a - 1] && y == before[b - 1]);
    }
}

proof fn lemma_not_before_itself(s: Seq<char>)
    ensures
        !text::text_before(s, s),
    decreases s.len(),
{
    if s.len() > 0 {
        lemma_not_before_itself(s.drop_first());
    }
}

// ─── The map ────────────────────────────────────────────────────────────────

/// A file of the map.
#[derive(Debug, PartialEq)]
pub struct MapEntry {
    /// Its path in the project.
    pub path: String,
    /// What it defines.
    pub symbols: Vec<Symbol>,
}

/// The contents of a [`MapEntry`].
#[verifier::ext_equal]
pub struct MapEntryView {
    pub path: Seq<char>,
    pub symbols: Seq<SymbolView>,
}

impl DeepView for MapEntry {
    type V = MapEntryView;

    open spec fn deep_view(&self) -> MapEntryView {
        MapEntryView {
            path: self.path.deep_view(),
            symbols: self.symbols.deep_view(),
        }
    }
}

impl Duplicate for MapEntry {
    fn duplicate(&self) -> (copy: Self) {
        MapEntry {
            path: self.path.duplicate(),
            symbols: self.symbols.duplicate(),
        }
    }
}

impl Clone for MapEntry {
    fn clone(&self) -> (copy: Self)
        ensures
            copy.deep_view() == self.deep_view(),
    {
        self.duplicate()
    }
}

/// A file as the map shows it, line after line.
pub open spec fn symbol_lines(symbols: Seq<SymbolView>) -> Seq<char>
    decreases symbols.len(),
{
    if symbols.len() == 0 {
        Seq::empty()
    } else {
        symbol_lines(symbols.drop_last()) + "  "@ + symbols.last().kind.spec_tag() + " "@
            + symbols.last().sig + "\n"@
    }
}

/// The map as a text.
pub open spec fn map_text(entries: Seq<MapEntryView>) -> Seq<char>
    decreases entries.len(),
{
    if entries.len() == 0 {
        "RepoMap - project code structure:\n\n"@
    } else {
        map_text(entries.drop_last()) + entries.last().path + ":\n"@ + symbol_lines(
            entries.last().symbols,
        ) + "\n"@
    }
}

/// The map as a text.
pub fn format_map(entries: &Vec<MapEntry>) -> (r: String)
    ensures
        r@ == map_text(entries.deep_view()),
{
    let ghost all = entries.deep_view();
    let mut r = "RepoMap - project code structure:\n\n".to_string();
    let mut i: usize = 0;
    while i < entries.len()
        invariant
            i <= entries.len(),
            all == entries.deep_view(),
            r@ == map_text(all.take(i as int)),
        decreases entries.len() - i,
    {
        assert(all.take(i + 1).drop_last() =~= all.take(i as int));
        assert(all[i as int] == entries@[i as int].deep_view());
        r.push_str(entries[i].path.as_str());
        r.push_str(":\n");
        let ghost head = r@;
        let symbols = &entries[i].symbols;
        let ghost list = symbols.deep_view();
        let mut j: usize = 0;
        assert(head + symbol_lines(list.take(0)) =~= head);
        while j < symbols.len()
            invariant
                j <= symbols.len(),
                list == symbols.deep_view(),
                r@ == head + symbol_lines(list.take(j as int)),
            decreases symbols.len() - j,
        {
            assert(list.take(j + 1).drop_last() =~= list.take(j as int));
            assert(list[j as int] == symbols@[j as int].deep_view());
            r.push_str("  ");
            r.push_str(symbols[j].kind.tag());
            r.push_str(" ");
            r.push_str(symbols[j].sig.as_str());
            r.push_str("\n");
            j = j + 1;
            assert(r@ =~= head + symbol_lines(list.take(j as int)));
        }
        assert(list.take(j as int) =~= list);
        r.push_str("\n");
        i = i + 1;
    }
    assert(all.take(i as int) =~= all);
    r
}

/// A file that was found.
#[derive(Debug, PartialEq)]
pub struct SourceFile {
    /// Its path in the project.
    pub path: String,
    /// The extension of its name.
    pub ext: String,
    /// Its text, where it could be read.
    pub content: Option<String>,
}

/// The contents of a [`SourceFile`].
#[verifier::ext_equal]
pub struct SourceFileView {
    pub path: Seq<char>,
    pub ext: Seq<char>,
    pub content: Option<Seq<char>>,
}

impl DeepView for SourceFile {
    type V = SourceFileView;

    open spec fn deep_view(&self) -> SourceFileView {
        SourceFileView {
            path: self.path.deep_view(),
            ext: self.ext.deep_view(),
            content: self.content.deep_view(),
        }
    }
}

impl Duplicate for SourceFile {
    fn duplicate(&self) -> (copy: Self) {
        SourceFile {
            path: self.path.duplicate(),
            ext: self.ext.duplicate(),
            content: self.content.duplicate(),
        }
    }
}

impl Clone for SourceFile {
    fn clone(&self) -> (copy: Self)
        ensures
            copy.deep_view() == self.deep_view(),
    {
        self.duplicate()
    }
}

/// A map that takes in one file after the other.
#[derive(Debug, PartialEq)]
pub struct RepoMapBuilder {
    /// The files it shows.
    pub entries: Vec<MapEntry>,
    /// The size that it is taken to have.
    pub total: usize,
    /// Whether it is full.
    pub full: bool,
}

/// The contents of a [`RepoMapBuilder`].
#[verifier::ext_equal]
pub struct RepoMapBuilderView {
    pub entries: Seq<MapEntryView>,
    pub total: usize,
    pub full: bool,
}

impl DeepView for RepoMapBuilder {
    type V = RepoMapBuilderView;

    open spec fn deep_view(&self) -> RepoMapBuilderView {
        RepoMapBuilderView {
            entries: self.entries.deep_view(),
            total: self.total,
            full: self.full,
        }
    }
}

impl Duplicate for RepoMapBuilder {
    fn duplicate(&self) -> (copy: Self) {
        RepoMapBuilder {
            entries: self.entries.duplicate(),
            total: self.total,
            full: self.full,
        }
    }
}

impl Clone for RepoMapBuilder {
    fn clone(&self) -> (copy: Self)
        ensures
            copy.deep_view() == self.deep_view(),
    {
        self.duplicate()
    }
}

/// The symbols of a file that the map shows.
pub open spec fn shown_symbols(config: RepoMapConfigView, found: Seq<SymbolView>) -> Seq<SymbolView> {
    let kept = found.filter(
        |symbol: SymbolView| config.include_imports || symbol.kind != SymKind::Import,
    );
    if kept.len() > config.max_syms_per_file {
        kept.take(config.max_syms_per_file as int)
    } else {
        kept
    }
}

/// The size that a file is taken to have in the map.
pub open spec fn entry_size(path: Seq<char>, symbols: nat) -> nat {
    text::byte_len(path) + symbols * 30 + 20
}

/// The map with a further file: where there is room, the file shows symbols,
/// and it is in a known language.
pub open spec fn with_file(
    config: RepoMapConfigView,
    map: RepoMapBuilderView,
    file: SourceFileView,
) -> RepoMapBuilderView {
    if map.full {
        map
    } else if map.entries.len() >= config.max_files {
        RepoMapBuilderView { full: true, ..map }
    } else if language_of(file.ext) == Language::Unknown || file.content is None {
        map
    } else {
        let symbols = shown_symbols(config, symbols_of(language_of(file.ext), file.content->0));
        let size = entry_size(file.path, symbols.len());
        if symbols.len() == 0 {
            map
        } else if map.total + size > config.max_chars {
            RepoMapBuilderView { full: true, ..map }
        } else {
            RepoMapBuilderView {
                entries: map.entries.push(MapEntryView { path: file.path, symbols }),
                total: (map.total + size) as usize,
                full: false,
            }
        }
    }
}

/// The map of no files.
pub open spec fn empty_map() -> RepoMapBuilderView {
    RepoMapBuilderView { entries: Seq::empty(), total: 0, full: false }
}

/// The map of these files, taken in one after the other.
pub open spec fn map_of(config: RepoMapConfigView, files: Seq<SourceFileView>) -> RepoMapBuilderView
    decreases files.len(),
{
    if files.len() == 0 {
        empty_map()
    } else {
        with_file(config, map_of(config, files.drop_last()), files.last())
    }
}

/// The symbols of a file that the map shows.
pub fn show_symbols(config: &RepoMapConfig, found: &Vec<Symbol>) -> (r: Vec<Symbol>)
    ensures
        r.deep_view() == shown_symbols(config.deep_view(), found.deep_view()),
{
    let ghost all = found.deep_view();
    let ghost keep = |symbol: SymbolView|
        config.deep_view().include_imports || symbol.kind != SymKind::Import;
    let mut kept: Vec<Symbol> = Vec::new();
    let mut i: usize = 0;
    proof {
        reveal(Seq::filter);
        assert(kept.deep_view() =~= all.take(0).filter(keep));
    }
    while i < found.len()
        invariant
            i <= found.len(),
            all == found.deep_view(),
            keep == (|symbol: SymbolView|
                config.deep_view().include_imports || symbol.kind != SymKind::Import),
            kept.deep_view() == all.take(i as int).filter(keep),
        decreases found.len() - i,
    {
        let ghost before = kept.deep_view();
        proof {
            reveal(Seq::filter);
            assert(all.take(i + 1).drop_last() =~= all.take(i as int));
            assert(all[i as int] == found@[i as int].deep_view());
        }
        let import = match found[i].kind {
            SymKind::Import => true,
            _ => false,
        };
        if config.include_imports || !import {
            kept.push(found[i].duplicate());
            assert(kept.deep_view() =~= before.push(all[i as int]));
        }
        i = i + 1;
    }
    assert(all.take(i as int) =~= all);
    let ghost whole = kept.deep_view();
    if kept.len() > config.max_syms_per_file {
        kept.truncate(config.max_syms_per_file);
        assert(kept.deep_view() =~= whole.take(config.max_syms_per_file as int));
    }
    kept
}

impl RepoMapBuilder {
    /// The map of no files.
    pub fn new() -> (r: Self)
        ensures
            r.deep_view() == empty_map(),
    {
        RepoMapBuilder { entries: Vec::new(), total: 0, full: false }
    }

    /// Whether further files can change the map.
    pub fn wants_more(&self) -> (r: bool)
        ensures
            r == !self.deep_view().full,
    {
        !self.full
    }

    /// Takes in the symbols that were found in a file of a known language.
    pub fn add_symbols(&mut self, config: &RepoMapConfig, path: &str, found: &Vec<Symbol>)
        ensures
            ({
                let symbols = shown_symbols(config.deep_view(), found.deep_view());
                let size = entry_size(path@, symbols.len());
                let map = old(self).deep_view();
                final(self).deep_view() == (if symbols.len() == 0 {
                    map
                } else if map.total + size > config.max_chars {
                    RepoMapBuilderView { full: true, ..map }
                } else {
                    RepoMapBuilderView {
                        entries: map.entries.push(MapEntryView { path: path@, symbols }),
                        total: (map.total + size) as usize,
                        ..map
                    }
                })
            }),
    {
        let symbols = show_symbols(config, found);
        if symbols.len() == 0 {
            return;
        }
        let size: u128 = text::len_bytes(path) as u128 + symbols.len() as u128 * 30 + 20;
        let room: u128 = config.max_chars as u128;
        if self.total as u128 + size > room {
            self.full = true;
            return;
        }
        let ghost before = self.entries.deep_view();
        let entry = MapEntry { path: path.to_string(), symbols };
        let ghost e = entry.deep_view();
        self.total = (self.total as u128 + size) as usize;
        self.entries.push(entry);
        assert(self.entries.deep_view() =~= before.push(e));
    }

    /// Takes in a file.
    pub fn add_file(&mut self, config: &RepoMapConfig, file: &SourceFile)
        ensures
            final(self).deep_view() == with_file(
                config.deep_view(),
                old(self).deep_view(),
                file.deep_view(),
            ),
    {
        if self.full {
            return;
        }
        if self.entries.len() >= config.max_files {
            self.full = true;
            return;
        }
        let language = Language::from_ext(file.ext.as_str());
        let known = match language {
            Language::Unknown => false,
            _ => true,
        };
        if !known {
            return;
        }
        if let Some(content) = &file.content {
            let found = extract_syms(content.as_str(), language);
            self.add_symbols(config, file.path.as_str(), &found);
        }
    }

    /// The map as a text.
    pub fn render(&self) -> (r: String)
        ensures
            r@ == map_text(self.deep_view().entries),
    {
        format_map(&self.entries)
    }
}

impl Default for RepoMapBuilder {
    fn default() -> (r: Self)
        ensures
            r.deep_view() == empty_map(),
    {
        RepoMapBuilder::new()
    }
}

/// The map of these files, as a text.
pub fn build_repo_map(files: &Vec<SourceFile>, config: &RepoMapConfig) -> (r: String)
    ensures
        r@ == map_text(map_of(config.deep_view(), files.deep_view()).entries),
{
    let ghost all = files.deep_view();
    let mut map = RepoMapBuilder::new();
    let mut i: usize = 0;
    while i < files.len()
        invariant
            i <= files.len(),
            all == files.deep_view(),
            map.deep_view() == map_of(config.deep_view(), all.take(i as int)),
        decreases files.len() - i,
    {
        assert(all.take(i + 1).drop_last() =~= all.take(i as int));
        assert(all[i as int] == files@[i as int].deep_view());
        map.add_file(config, &files[i]);
        i = i + 1;
    }
    assert(all.take(i as int) =~= all);
    map.render()
}

/// The sizes that the files of the map are taken to have, together.
pub open spec fn entries_size(entries: Seq<MapEntryView>) -> nat
    decreases entries.len(),
{
    if entries.len() == 0 {
        0
    } else {
        entries_size(entries.drop_last()) + entry_size(
            entries.last().path,
            entries.last().symbols.len(),
        )
    }
}

/// A map keeps to its bounds: it shows no more files and no more symbols of a
/// file than it may, no file without symbols, and the sizes of its files
/// together stay within the bound.
pub proof fn law_map_keeps_bounds(config: RepoMapConfigView, files: Seq<SourceFileView>)
    ensures
        ({
            let map = map_of(config, files);
            &&& map.entries.len() <= config.max_files
            &&& map.total == entries_size(map.entries)
            &&& map.total <= config.max_chars
            &&& forall|i: int|
                0 <= i < map.entries.len() ==> 0 < (
                #[trigger] map.entries[i]).symbols.len() <= config.max_syms_per_file
        }),
    decreases files.len(),
{
    if files.len() > 0 {
        law_map_keeps_bounds(config, files.drop_last());
        let before = map_of(config, files.drop_last());
        let map = map_of(config, files);
        if map.entries != before.entries {
            assert(map.entries.drop_last() =~= before.entries);
        }
    }
}

/// Once a map is full no further file changes it.
pub proof fn law_full_map_stays(
    config: RepoMapConfigView,
    files: Seq<SourceFileView>,
    more: Seq<SourceFileView>,
)
    requires
        map_of(config, files).full,
    ensures
        map_of(config, files + more) == map_of(config, files),
    decreases more.len(),
{
    if more.len() == 0 {
        assert(files + more =~= files);
    } else {
        law_full_map_stays(config, files, more.drop_last());
        assert((files + more).drop_last() =~= files + more.drop_last());
    }
}

/// The symbols of a file that are shown are the first of those that are kept, as many
/// as may be shown: all where there are no more. Imports are kept where they are wanted,
/// and everything else is.
pub proof fn law_first_symbols_are_shown(config: RepoMapConfigView, found: Seq<SymbolView>)
    ensures
        ({
            let shown = shown_symbols(config, found);
            let others = found.filter(|symbol: SymbolView| symbol.kind != SymKind::Import);
            &&& config.include_imports ==> shown.is_prefix_of(found)
            &&& config.include_imports && found.len() <= config.max_syms_per_file ==> shown == found
            &&& config.include_imports && found.len() > config.max_syms_per_file ==> shown.len()
                == config.max_syms_per_file
            &&& !config.include_imports ==> shown.is_prefix_of(others)
            &&& !config.include_imports && others.len() <= config.max_syms_per_file ==> shown
                == others
            &&& !config.include_imports && others.len() > config.max_syms_per_file ==> shown.len()
                == config.max_syms_per_file
        }),
{
    let keep = |symbol: SymbolView| config.include_imports || symbol.kind != SymKind::Import;
    let kept = found.filter(keep);
    let others = found.filter(|symbol: SymbolView| symbol.kind != SymKind::Import);
    if config.include_imports {
        lemma_filter_all(found, keep);
    } else {
        assert(keep =~= (|symbol: SymbolView| symbol.kind != SymKind::Import));
    }
    let shown = shown_symbols(config, found);
    assert(kept.take(shown.len() as int) =~= shown);
}

proof fn lemma_filter_all(found: Seq<SymbolView>, keep: spec_fn(SymbolView) -> bool)
    requires
        forall|symbol: SymbolView| #[trigger] keep(symbol),
    ensures
        found.filter(keep) == found,
    decreases found.len(),
{
    reveal(Seq::filter);
    if found.len() > 0 {
        lemma_filter_all(found.drop_last(), keep);
        assert(found.drop_last().push(found.last()) =~= found);
    }
}

/// A file that follows is taken in where the map is not full and may show one file more,
/// the file is in a known language and could be read, some symbol of it is shown, and
/// there is room: it comes last, with its path and the symbols that are shown. Where
/// there is no room the map is full. Any other file leaves the files as they are.
pub proof fn law_further_file(
    config: RepoMapConfigView,
    files: Seq<SourceFileView>,
    file: SourceFileView,
)
    ensures
        ({
            let before = map_of(config, files);
            let after = map_of(config, files.push(file));
            let symbols = shown_symbols(config, symbols_of(language_of(file.ext), file.content->0));
            let known = language_of(file.ext) != Language::Unknown && file.content is Some;
            let free = !before.full && before.entries.len() < config.max_files;
            let fits = before.total + text::byte_len(file.path) + 30 * symbols.len() + 20
                <= config.max_chars;
            &&& free && known && symbols.len() > 0 && fits ==> {
                &&& after.entries == before.entries.push(MapEntryView { path: file.path, symbols })
                &&& after.total == before.total + text::byte_len(file.path) + 30 * symbols.len()
                    + 20
                &&& !after.full
            }
            &&& free && known && symbols.len() > 0 && !fits ==> after.full && after.entries
                == before.entries
            &&& free && (!known || symbols.len() == 0) ==> after == before
            &&& !free ==> after.entries == before.entries && after.full
        }),
{
    assert(files.push(file).drop_last() =~= files);
}

/// Of no files the map is empty and takes the first.
pub proof fn law_map_of_no_files(config: RepoMapConfigView)
    ensures
        map_of(config, Seq::empty()).entries.len() == 0,
        map_of(config, Seq::empty()).total == 0,
        !map_of(config, Seq::empty()).full,
{
}

/// Where a map did not get full, it shows every file in a known language that could be
/// read and of which some symbol is shown, with all its symbols that are shown.
pub proof fn law_map_shows_every_file(
    config: RepoMapConfigView,
    files: Seq<SourceFileView>,
    i: int,
)
    requires
        0 <= i < files.len(),
        !map_of(config, files).full,
        language_of(files[i].ext) != Language::Unknown,
        files[i].content is Some,
        shown_symbols(
            config,
            symbols_of(language_of(files[i].ext), files[i].content->0),
        ).len() > 0,
    ensures
        map_of(config, files).entries.contains(
            MapEntryView {
                path: files[i].path,
                symbols: shown_symbols(
                    config,
                    symbols_of(language_of(files[i].ext), files[i].content->0),
                ),
            },
        ),
    decreases files.len(),
{
    let front = files.drop_last();
    let before = map_of(config, front);
    let map = map_of(config, files);
    let entry = MapEntryView {
        path: files[i].path,
        symbols: shown_symbols(
            config,
            symbols_of(language_of(files[i].ext), files[i].content->0),
        ),
    };
    if i < front.len() {
        assert(front[i] == files[i]);
        law_map_shows_every_file(config, front, i);
        let w = choose|w: int| 0 <= w < before.entries.len() && before.entries[w] == entry;
        assert(map.entries[w] == entry);
    } else {
        assert(files[i] == files.last());
        assert(map.entries[before.entries.len() as int] == entry);
    }
}

/// Every file that a map shows is one of those that were looked at.
pub proof fn law_map_shows_only_files(
    config: RepoMapConfigView,
    files: Seq<SourceFileView>,
    k: int,
)
    requires
        0 <= k < map_of(config, files).entries.len(),
    ensures
        exists|i: int|
            0 <= i < files.len() && (#[trigger] files[i]).path == map_of(
                config,
                files,
            ).entries[k].path && files[i].content is Some && map_of(config, files).entries[k].symbols
                == shown_symbols(
                config,
                symbols_of(language_of(files[i].ext), files[i].content->0),
            ),
    decreases files.len(),
{
    let front = files.drop_last();
    let before = map_of(config, front);
    let map = map_of(config, files);
    if k < before.entries.len() {
        law_map_shows_only_files(config, front, k);
        assert(map.entries[k] == before.entries[k]);
        let i = choose|i: int|
            0 <= i < front.len() && (#[trigger] front[i]).path == before.entries[k].path
                && front[i].content is Some && before.entries[k].symbols == shown_symbols(
                config,
                symbols_of(language_of(front[i].ext), front[i].content->0),
            );
        assert(files[i] == front[i]);
    } else {
        assert(files[files.len() - 1] == files.last());
    }
}

/// Every file of a map stands in its text, its path at the head, and below it every
/// symbol of it on a line of its own: the word of its kind, and then the symbol.
pub proof fn law_map_text_shows_all(entries: Seq<MapEntryView>, i: int, j: int)
    requires
        0 <= i < entries.len(),
    ensures
        text::occurs(map_text(entries), entries[i].path + ":\n"@),
        0 <= j < entries[i].symbols.len() ==> text::occurs(
            map_text(entries),
            "  "@ + entries[i].symbols[j].kind.spec_tag() + " "@ + entries[i].symbols[j].sig
                + "\n"@,
        ),
        "RepoMap - project code structure:\n\n"@.is_prefix_of(map_text(entries)),
    decreases entries.len(),
{
    let front = entries.drop_last();
    let last = entries.last();
    let whole = map_text(entries);
    let start = map_text(front);
    let head = "RepoMap - project code structure:\n\n"@;
    let lines = symbol_lines(last.symbols);
    if front.len() == 0 {
        assert(start =~= head);
    } else {
        law_map_text_shows_all(front, 0, 0);
    }
    assert(head =~= whole.take(head.len() as int)) by {
        assert(head =~= start.take(head.len() as int));
    }
    if i < front.len() {
        assert(front[i] == entries[i]);
        law_map_text_shows_all(front, i, j);
        text::lemma_occurs_inside(
            Seq::empty(),
            start,
            last.path + ":\n"@ + lines + "\n"@,
        );
        assert(Seq::<char>::empty() + start + (last.path + ":\n"@ + lines + "\n"@) =~= whole);
        text::lemma_occurs_through(whole, start, entries[i].path + ":\n"@);
        if 0 <= j < entries[i].symbols.len() {
            let symbol = entries[i].symbols[j];
            text::lemma_occurs_through(
                whole,
                start,
                "  "@ + symbol.kind.spec_tag() + " "@ + symbol.sig + "\n"@,
            );
        }
    } else {
        assert(entries[i] == last);
        text::lemma_occurs_inside(start, last.path + ":\n"@, lines + "\n"@);
        assert(start + (last.path + ":\n"@) + (lines + "\n"@) =~= whole);
        if 0 <= j < last.symbols.len() {
            let symbol = last.symbols[j];
            lemma_symbol_lines_show_all(last.symbols, j);
            text::lemma_occurs_inside(start + last.path + ":\n"@, lines, "\n"@);
            text::lemma_occurs_through(
                whole,
                lines,
                "  "@ + symbol.kind.spec_tag() + " "@ + symbol.sig + "\n"@,
            );
        }
    }
}

proof fn lemma_symbol_lines_show_all(symbols: Seq<SymbolView>, j: int)
    requires
        0 <= j < symbols.len(),
    ensures
        text::occurs(
            symbol_lines(symbols),
            "  "@ + symbols[j].kind.spec_tag() + " "@ + symbols[j].sig + "\n"@,
        ),
    decreases symbols.len(),
{
    let front = symbols.drop_last();
    let last = symbols.last();
    let line = "  "@ + last.kind.spec_tag() + " "@ + last.sig + "\n"@;
    let whole = symbol_lines(symbols);
    assert(symbol_lines(front) + line + Seq::<char>::empty() =~= whole);
    if j < front.len() {
        lemma_symbol_lines_show_all(front, j);
        assert(front[j] == symbols[j]);
        text::lemma_occurs_inside(Seq::empty(), symbol_lines(front), line);
        assert(Seq::<char>::empty() + symbol_lines(front) + line =~= whole);
        text::lemma_occurs_through(
            whole,
            symbol_lines(front),
            "  "@ + symbols[j].kind.spec_tag() + " "@ + symbols[j].sig + "\n"@,
        );
    } else {
        text::lemma_occurs_inside(symbol_lines(front), line, Seq::empty());
    }
}

/// A further file adds its part at the end of the text, and nothing else changes; and a
/// further symbol a line at the end of its part.
pub proof fn law_map_text_grows(
    entries: Seq<MapEntryView>,
    path: Seq<char>,
    symbols: Seq<SymbolView>,
    symbol: SymbolView,
)
    ensures
        map_text(entries).is_prefix_of(
            map_text(entries.push(MapEntryView { path, symbols })),
        ),
        map_text(entries.push(MapEntryView { path, symbols: Seq::empty() })) == map_text(entries)
            + path + ":\n\n"@,
        map_text(entries.push(MapEntryView { path, symbols: symbols.push(symbol) })) == map_text(
            entries.push(MapEntryView { path, symbols }),
        ).drop_last() + "  "@ + symbol.kind.spec_tag() + " "@ + symbol.sig + "\n\n"@,
{
    reveal_strlit(":\n\n");
    reveal_strlit(":\n");
    reveal_strlit("\n\n");
    reveal_strlit("\n");
    assert(":\n"@ + "\n"@ =~= ":\n\n"@);
    assert("\n"@ + "\n"@ =~= "\n\n"@);
    let one = MapEntryView { path, symbols };
    let more = MapEntryView { path, symbols: symbols.push(symbol) };
    let none = MapEntryView { path, symbols: Seq::empty() };
    let before = map_text(entries);
    assert(entries.push(one).drop_last() =~= entries);
    assert(entries.push(more).drop_last() =~= entries);
    assert(entries.push(none).drop_last() =~= entries);
    assert(symbols.push(symbol).drop_last() =~= symbols);
    let with_one = before + path + ":\n"@ + symbol_lines(symbols) + "\n"@;
    assert(map_text(entries.push(one)) =~= with_one);
    assert(before =~= with_one.take(before.len() as int));
    assert(with_one.drop_last() =~= before + path + ":\n"@ + symbol_lines(symbols));
    assert(map_text(entries.push(none)) =~= before + path + ":\n\n"@);
    assert(map_text(entries.push(more)) =~= before + path + ":\n"@ + symbol_lines(symbols)
        + "  "@ + symbol.kind.spec_tag() + " "@ + symbol.sig + "\n\n"@);
}

/// The symbols of a text are those of its lines, in order.
pub proof fn law_symbols_go_by_lines(
    rules: Seq<SymRuleView>,
    comment: Seq<char>,
    a: Seq<Seq<char>>,
    b: Seq<Seq<char>>,
)
    ensures
        symbols(rules, comment, a + b) == symbols(rules, comment, a) + symbols(rules, comment, b),
    decreases b.len(),
{
    if b.len() == 0 {
        assert(a + b =~= a);
        assert(symbols(rules, comment, a) + symbols(rules, comment, b) =~= symbols(
            rules,
            comment,
            a,
        ));
    } else {
        law_symbols_go_by_lines(rules, comment, a, b.drop_last());
        assert((a + b).drop_last() =~= a + b.drop_last());
        assert((a + b).last() == b.last());
        let front = symbols(rules, comment, a);
        let back = symbols(rules, comment, b.drop_last());
        if let Some(symbol) = line_symbol(rules, comment, b.last()) {
            assert((front + back).push(symbol) =~= front + back.push(symbol));
        }
    }
}

/// A line that is blank or a comment defines nothing. Any other defines what the first
/// rule finds whose expression is found in it without the white space around it, and
/// nothing where none is.
pub proof fn law_line_goes_by_the_first_rule(
    rules: Seq<SymRuleView>,
    comment: Seq<char>,
    line: Seq<char>,
    j: int,
)
    ensures
        comment.is_prefix_of(text::trimmed(line)) || text::trimmed(line).len() == 0 ==> symbols(
            rules,
            comment,
            seq![line],
        ).len() == 0,
        (forall|k: int|
            0 <= k < rules.len() ==> patterns::first_group(
                (#[trigger] rules[k]).pattern,
                text::trimmed(line),
            ) is None) ==> symbols(rules, comment, seq![line]).len() == 0,
        !comment.is_prefix_of(text::trimmed(line)) && text::trimmed(line).len() > 0 && 0 <= j
            < rules.len() && (forall|k: int|
            0 <= k < j ==> patterns::first_group(
                (#[trigger] rules[k]).pattern,
                text::trimmed(line),
            ) is None) ==> (patterns::first_group(rules[j].pattern, text::trimmed(line)) matches
            Some(name) ==> symbols(rules, comment, seq![line]) == seq![
            SymbolView { kind: rules[j].kind, name, sig: rules[j].prefix + " "@ + name },
        ]),
{
    let code = text::trimmed(line);
    let found = line_captures(rules, code);
    assert(seq![line].drop_last() =~= Seq::<Seq<char>>::empty());
    assert(seq![line].last() == line);
    reveal_with_fuel(symbols, 2);
    assert(symbols(rules, comment, seq![line]) =~= (match line_symbol(rules, comment, line) {
        Some(symbol) => seq![symbol],
        None => Seq::empty(),
    }));
    if forall|k: int|
        0 <= k < rules.len() ==> patterns::first_group((#[trigger] rules[k]).pattern, code)
            is None {
        assert forall|k: int| 0 <= k < found.len() implies (#[trigger] found[k]) is None by {
            assert(patterns::first_group(rules[k].pattern, code) is None);
        }
        lemma_nothing_found(rules, found);
    }
    if 0 <= j < rules.len() && (forall|k: int|
        0 <= k < j ==> patterns::first_group((#[trigger] rules[k]).pattern, code) is None)
        && patterns::first_group(rules[j].pattern, code) is Some {
        assert forall|k: int| 0 <= k < j implies (#[trigger] found[k]) is None by {
            assert(patterns::first_group(rules[k].pattern, code) is None);
        }
        lemma_first_found(rules, found, j);
    }
}

proof fn lemma_nothing_found(rules: Seq<SymRuleView>, found: Seq<Option<Seq<char>>>)
    requires
        rules.len() == found.len(),
        forall|k: int| 0 <= k < found.len() ==> (#[trigger] found[k]) is None,
    ensures
        first_symbol(rules, found) is None,
    decreases rules.len(),
{
    if rules.len() > 0 {
        assert(found[0] is None);
        let rest = found.drop_first();
        assert forall|k: int| 0 <= k < rest.len() implies (#[trigger] rest[k]) is None by {
            assert(found[k + 1] is None);
        }
        lemma_nothing_found(rules.drop_first(), rest);
    }
}

proof fn lemma_first_found(rules: Seq<SymRuleView>, found: Seq<Option<Seq<char>>>, j: int)
    requires
        rules.len() == found.len(),
        0 <= j < found.len(),
        found[j] is Some,
        forall|k: int| 0 <= k < j ==> (#[trigger] found[k]) is None,
    ensures
        first_symbol(rules, found) == Some(
            SymbolView {
                kind: rules[j].kind,
                name: found[j]->0,
                sig: rules[j].prefix + " "@ + found[j]->0,
            },
        ),
    decreases rules.len(),
{
    if j > 0 {
        assert(found[0] is None);
        let rest = found.drop_first();
        assert forall|k: int| 0 <= k < j - 1 implies (#[trigger] rest[k]) is None by {
            assert(found[k + 1] is None);
        }
        lemma_first_found(rules.drop_first(), rest, j - 1);
    }
}

/// A directory is looked into but where its name begins with a dot or is left out; and a
/// file is looked at where its name does not begin with a dot and its language is known.
pub proof fn law_what_is_looked_at(name: Seq<char>, skip: Seq<Seq<char>>, ext: Seq<char>)
    ensures
        name.len() > 0 && name[0] == '.' ==> !enters(name, skip) && !takes(name, ext),
        skip.contains(name) ==> !enters(name, skip),
        (name.len() == 0 || name[0] != '.') && !skip.contains(name) ==> enters(name, skip),
        language_of(ext) == Language::Unknown ==> !takes(name, ext),
        (name.len() == 0 || name[0] != '.') && language_of(ext) != Language::Unknown ==> takes(
            name,
            ext,
        ),
        skip.contains(name) && (name.len() == 0 || name[0] != '.') && language_of(ext)
            != Language::Unknown ==> takes(name, ext),
{
    reveal_strlit(".");
    assert("."@ =~= seq!['.']);
    if name.len() > 0 && name[0] == '.' {
        assert("."@ =~= name.take(1));
    }
    if "."@.is_prefix_of(name) {
        assert(name[0] == name.take(1)[0]);
    }
}

// ─── The source ─────────────────────────────────────────────────────────────

/// A map of the code of a project.
#[derive(Debug, PartialEq)]
pub struct RepoMapSource {
    project_dir: String,
    config: RepoMapConfig,
}

/// The contents of a [`RepoMapSource`].
#[verifier::ext_equal]
pub struct RepoMapSourceView {
    pub project_dir: Seq<char>,
    pub config: RepoMapConfigView,
}

impl DeepView for RepoMapSource {
    type V = RepoMapSourceView;

    closed spec fn deep_view(&self) -> RepoMapSourceView {
        RepoMapSourceView {
            project_dir: self.project_dir.deep_view(),
            config: self.config.deep_view(),
        }
    }
}

impl Duplicate for RepoMapSource {
    fn duplicate(&self) -> (copy: Self) {
        RepoMapSource {
            project_dir: self.project_dir.duplicate(),
            config: self.config.duplicate(),
        }
    }
}

impl Clone for RepoMapSource {
    fn clone(&self) -> (copy: Self)
        ensures
            copy.deep_view() == self.deep_view(),
    {
        self.duplicate()
    }
}

impl RepoMapSource {
    /// The source for a project, with a map of the usual size.
    pub fn new(project_dir: &str) -> (r: Self)
        ensures
            r.deep_view() == (RepoMapSourceView {
                project_dir: project_dir@,
                config: usual_map_config(),
            }),
    {
        RepoMapSource {
            project_dir: project_dir.to_string(),
            config: RepoMapConfig::default(),
        }
    }

    /// The source for a project, with a map of this size.
    pub fn with_config(project_dir: &str, config: RepoMapConfig) -> (r: Self)
        ensures
            r.deep_view() == (RepoMapSourceView {
                project_dir: project_dir@,
                config: config.deep_view(),
            }),
    {
        RepoMapSource { project_dir: project_dir.to_string(), config }
    }

    /// The size of the map.
    pub fn config(&self) -> (r: &RepoMapConfig)
        ensures
            r.deep_view() == self.deep_view().config,
    {
        &self.config
    }

    /// This source as a domain holds it.
    pub fn handle(&self) -> (r: SourceHandle)
        ensures
            r.deep_view() == builtin_sources::source_in(
                "repo_map"@,
                self.deep_view().project_dir,
                RefreshPolicyView::OnChange,
                8,
            ),
    {
        SourceHandle {
            key: "repo_map".to_string(),
            project_dir: Some(self.project_dir.clone()),
            refresh_policy: RefreshPolicy::OnChange,
            priority: 8,
        }
    }
}

impl ContextSource for RepoMapSource {
    open spec fn spec_key(&self) -> Seq<char> {
        "repo_map"@
    }

    fn key(&self) -> (key: &str) {
        "repo_map"
    }

    fn refresh_policy(&self) -> (policy: RefreshPolicy)
        ensures
            policy == RefreshPolicy::OnChange,
    {
        RefreshPolicy::OnChange
    }

    fn priority(&self) -> (n: u32)
        ensures
            n == 8,
    {
        8
    }
}

/// Each language is known by its own extensions, and by no others.
pub proof fn law_language_by_extension(ext: Seq<char>)
    ensures
        language_of(ext) == Language::Rust <==> ext == "rs"@,
        language_of(ext) == Language::Python <==> ext == "py"@ || ext == "pyi"@,
        language_of(ext) == Language::JavaScript <==> ext == "js"@ || ext == "jsx"@ || ext == "mjs"@,
        language_of(ext) == Language::TypeScript <==> ext == "ts"@ || ext == "tsx"@,
        language_of(ext) == Language::Go <==> ext == "go"@,
        language_of(ext) == Language::Java <==> ext == "java"@,
        language_of(ext) == Language::C <==> ext == "c"@ || ext == "h"@,
        language_of(ext) == Language::Cpp <==> ext == "cpp"@ || ext == "hpp"@,
        language_of(ext) == Language::Kotlin <==> ext == "kt"@,
        language_of(ext) == Language::Swift <==> ext == "swift"@,
        language_of(ext) == Language::Ruby <==> ext == "rb"@,
        language_of(ext) == Language::Php <==> ext == "php"@,
        language_of(ext) == Language::Shell <==> ext == "sh"@ || ext == "bash"@,
        language_of(ext) == Language::Unknown <==> ext != "rs"@ && ext != "py"@ && ext != "pyi"@ && ext != "js"@ && ext != "jsx"@ && ext != "mjs"@ && ext != "ts"@ && ext != "tsx"@ && ext != "go"@ && ext != "java"@ && ext != "c"@ && ext != "h"@ && ext != "cpp"@ && ext != "hpp"@ && ext != "kt"@ && ext != "swift"@ && ext != "rb"@ && ext != "php"@ && ext != "sh"@ && ext != "bash"@,
{
    reveal_strlit("rs");
    reveal_strlit("py");
    reveal_strlit("pyi");
    reveal_strlit("js");
    reveal_strlit("jsx");
    reveal_strlit("mjs");
    reveal_strlit("ts");
    reveal_strlit("tsx");
    reveal_strlit("go");
    reveal_strlit("java");
    reveal_strlit("c");
    reveal_strlit("h");
    reveal_strlit("cpp");
    reveal_strlit("hpp");
    reveal_strlit("kt");
    reveal_strlit("swift");
    reveal_strlit("rb");
    reveal_strlit("php");
    reveal_strlit("sh");
    reveal_strlit("bash");
    assert("rs"@[0] != "py"@[0]);
    assert("rs"@.len() != "pyi"@.len());
    assert("rs"@[0] != "js"@[0]);
    assert("rs"@.len() != "jsx"@.len());
    assert("rs"@.len() != "mjs"@.len());
    assert("rs"@[0] != "ts"@[0]);
    assert("rs"@.len() != "tsx"@.len());
    assert("rs"@[0] != "go"@[0]);
    assert("rs"@.len() != "java"@.len());
    assert("rs"@.len() != "c"@.len());
    assert("rs"@.len() != "h"@.len());
    assert("rs"@.len() != "cpp"@.len());
    assert("rs"@.len() != "hpp"@.len());
    assert("rs"@[0] != "kt"@[0]);
    assert("rs"@.len() != "swift"@.len());
    assert("rs"@[1] != "rb"@[1]);
    assert("rs"@.len() != "php"@.len());
    assert("rs"@[0] != "sh"@[0]);
    assert("rs"@.len() != "bash"@.len());
    assert("py"@.len() != "pyi"@.len());
    assert("py"@[0] != "js"@[0]);
    assert("py"@.len() != "jsx"@.len());
    assert("py"@.len() != "mjs"@.len());
    assert("py"@[0] != "ts"@[0]);
    assert("py"@.len() != "tsx"@.len());
    assert("py"@[0] != "go"@[0]);
    assert("py"@.len() != "java"@.len());
    assert("py"@.len() != "c"@.len());
    assert("py"@.len() != "h"@.len());
    assert("py"@.len() != "cpp"@.len());
    assert("py"@.len() != "hpp"@.len());
    assert("py"@[0] != "kt"@[0]);
    assert("py"@.len() != "swift"@.len());
    assert("py"@[0] != "rb"@[0]);
    assert("py"@.len() != "php"@.len());
    assert("py"@[0] != "sh"@[0]);
    assert("py"@.len() != "bash"@.len());
    assert("pyi"@.len() != "js"@.len());
    assert("pyi"@[0] != "jsx"@[0]);
    assert("pyi"@[0] != "mjs"@[0]);
    assert("pyi"@.len() != "ts"@.len());
    assert("pyi"@[0] != "tsx"@[0]);
    assert("pyi"@.len() != "go"@.len());
    assert("pyi"@.len() != "java"@.len());
    assert("pyi"@.len() != "c"@.len());
    assert("pyi"@.len() != "h"@.len());
    assert("pyi"@[0] != "cpp"@[0]);
    assert("pyi"@[0] != "hpp"@[0]);
    assert("pyi"@.len() != "kt"@.len());
    assert("pyi"@.len() != "swift"@.len());
    assert("pyi"@.len() != "rb"@.len());
    assert("pyi"@[1] != "php"@[1]);
    assert("pyi"@.len() != "sh"@.len());
    assert("pyi"@.len() != "bash"@.len());
    assert("js"@.len() != "jsx"@.len());
    assert("js"@.len() != "mjs"@.len());
    assert("js"@[0] != "ts"@[0]);
    assert("js"@.len() != "tsx"@.len());
    assert("js"@[0] != "go"@[0]);
    assert("js"@.len() != "java"@.len());
    assert("js"@.len() != "c"@.len());
    assert("js"@.len() != "h"@.len());
    assert("js"@.len() != "cpp"@.len());
    assert("js"@.len() != "hpp"@.len());
    assert("js"@[0] != "kt"@[0]);
    assert("js"@.len() != "swift"@.len());
    assert("js"@[0] != "rb"@[0]);
    assert("js"@.len() != "php"@.len());
    assert("js"@[0] != "sh"@[0]);
    assert("js"@.len() != "bash"@.len());
    assert("jsx"@[0] != "mjs"@[0]);
    assert("jsx"@.len() != "ts"@.len());
    assert("jsx"@[0] != "tsx"@[0]);
    assert("jsx"@.len() != "go"@.len());
    assert("jsx"@.len() != "java"@.len());
    assert("jsx"@.len() != "c"@.len());
    assert("jsx"@.len() != "h"@.len());
    assert("jsx"@[0] != "cpp"@[0]);
    assert("jsx"@[0] != "hpp"@[0]);
    assert("jsx"@.len() != "kt"@.len());
    assert("jsx"@.len() != "swift"@.len());
    assert("jsx"@.len() != "rb"@.len());
    assert("jsx"@[0] != "php"@[0]);
    assert("jsx"@.len() != "sh"@.len());
    assert("jsx"@.len() != "bash"@.len());
    assert("mjs"@.len() != "ts"@.len());
    assert("mjs"@[0] != "tsx"@[0]);
    assert("mjs"@.len() != "go"@.len());
    assert("mjs"@.len() != "java"@.len());
    assert("mjs"@.len() != "c"@.len());
    assert("mjs"@.len() != "h"@.len());
    assert("mjs"@[0] != "cpp"@[0]);
    assert("mjs"@[0] != "hpp"@[0]);
    assert("mjs"@.len() != "kt"@.len());
    assert("mjs"@.len() != "swift"@.len());
    assert("mjs"@.len() != "rb"@.len());
    assert("mjs"@[0] != "php"@[0]);
    assert("mjs"@.len() != "sh"@.len());
    assert("mjs"@.len() != "bash"@.len());
    assert("ts"@.len() != "tsx"@.len());
    assert("ts"@[0] != "go"@[0]);
    assert("ts"@.len() != "java"@.len());
    assert("ts"@.len() != "c"@.len());
    assert("ts"@.len() != "h"@.len());
    assert("ts"@.len() != "cpp"@.len());
    assert("ts"@.len() != "hpp"@.len());
    assert("ts"@[0] != "kt"@[0]);
    assert("ts"@.len() != "swift"@.len());
    assert("ts"@[0] != "rb"@[0]);
    assert("ts"@.len() != "php"@.len());
    assert("ts"@[0] != "sh"@[0]);
    assert("ts"@.len() != "bash"@.len());
    assert("tsx"@.len() != "go"@.len());
    assert("tsx"@.len() != "java"@.len());
    assert("tsx"@.len() != "c"@.len());
    assert("tsx"@.len() != "h"@.len());
    assert("tsx"@[0] != "cpp"@[0]);
    assert("tsx"@[0] != "hpp"@[0]);
    assert("tsx"@.len() != "kt"@.len());
    assert("tsx"@.len() != "swift"@.len());
    assert("tsx"@.len() != "rb"@.len());
    assert("tsx"@[0] != "php"@[0]);
    assert("tsx"@.len() != "sh"@.len());
    assert("tsx"@.len() != "bash"@.len());
    assert("go"@.len() != "java"@.len());
    assert("go"@.len() != "c"@.len());
    assert("go"@.len() != "h"@.len());
    assert("go"@.len() != "cpp"@.len());
    assert("go"@.len() != "hpp"@.len());
    assert("go"@[0] != "kt"@[0]);
    assert("go"@.len() != "swift"@.len());
    assert("go"@[0] != "rb"@[0]);
    assert("go"@.len() != "php"@.len());
    assert("go"@[0] != "sh"@[0]);
    assert("go"@.len() != "bash"@.len());
    assert("java"@.len() != "c"@.len());
    assert("java"@.len() != "h"@.len());
    assert("java"@.len() != "cpp"@.len());
    assert("java"@.len() != "hpp"@.len());
    assert("java"@.len() != "kt"@.len());
    assert("java"@.len() != "swift"@.len());
    assert("java"@.len() != "rb"@.len());
    assert("java"@.len() != "php"@.len());
    assert("java"@.len() != "sh"@.len());
    assert("java"@[0] != "bash"@[0]);
    assert("c"@[0] != "h"@[0]);
    assert("c"@.len() != "cpp"@.len());
    assert("c"@.len() != "hpp"@.len());
    assert("c"@.len() != "kt"@.len());
    assert("c"@.len() != "swift"@.len());
    assert("c"@.len() != "rb"@.len());
    assert("c"@.len() != "php"@.len());
    assert("c"@.len() != "sh"@.len());
    assert("c"@.len() != "bash"@.len());
    assert("h"@.len() != "cpp"@.len());
    assert("h"@.len() != "hpp"@.len());
    assert("h"@.len() != "kt"@.len());
    assert("h"@.len() != "swift"@.len());
    assert("h"@.len() != "rb"@.len());
    assert("h"@.len() != "php"@.len());
    assert("h"@.len() != "sh"@.len());
    assert("h"@.len() != "bash"@.len());
    assert("cpp"@[0] != "hpp"@[0]);
    assert("cpp"@.len() != "kt"@.len());
    assert("cpp"@.len() != "swift"@.len());
    assert("cpp"@.len() != "rb"@.len());
    assert("cpp"@[0] != "php"@[0]);
    assert("cpp"@.len() != "sh"@.len());
    assert("cpp"@.len() != "bash"@.len());
    assert("hpp"@.len() != "kt"@.len());
    assert("hpp"@.len() != "swift"@.len());
    assert("hpp"@.len() != "rb"@.len());
    assert("hpp"@[0] != "php"@[0]);
    assert("hpp"@.len() != "sh"@.len());
    assert("hpp"@.len() != "bash"@.len());
    assert("kt"@.len() != "swift"@.len());
    assert("kt"@[0] != "rb"@[0]);
    assert("kt"@.len() != "php"@.len());
    assert("kt"@[0] != "sh"@[0]);
    assert("kt"@.len() != "bash"@.len());
    assert("swift"@.len() != "rb"@.len());
    assert("swift"@.len() != "php"@.len());
    assert("swift"@.len() != "sh"@.len());
    assert("swift"@.len() != "bash"@.len());
    assert("rb"@.len() != "php"@.len());
    assert("rb"@[0] != "sh"@[0]);
    assert("rb"@.len() != "bash"@.len());
    assert("php"@.len() != "sh"@.len());
    assert("php"@.len() != "bash"@.len());
    assert("sh"@.len() != "bash"@.len());
}

/// The symbols of a text are those of its first line, by the rules and the comments of its
/// language, followed by those of the rest.
pub proof fn law_symbols_line_by_line(language: Language, line: Seq<char>, rest: Seq<char>)
    requires
        !line.contains('\n'),
        line.len() > 0 && line.last() != '\r',
    ensures
        symbols_of(language, line + seq!['\n'] + rest) == symbols_of(language, line)
            + symbols_of(language, rest),
        symbols_of(language, Seq::empty()).len() == 0,
        symbols_of(Language::Unknown, line).len() == 0,
{
    let rules = language_rules(language);
    let comment = comment_mark(language);
    text::law_lines(line, rest);
    law_symbols_go_by_lines(rules, comment, seq![line], text::line_seq(rest));
    let unknown = language_rules(Language::Unknown);
    assert(unknown.len() == 0);
    let lines = text::line_seq(line);
    assert(lines =~= seq![line]);
    assert(lines.drop_last() =~= Seq::<Seq<char>>::empty());
    assert(symbols(unknown, "//"@, lines.drop_last()).len() == 0);
    assert(line_symbol(unknown, "//"@, lines.last()) is None);
}

/// Comments begin with a hash in Python, Ruby and the shell, and with two strokes else.
pub proof fn law_comments_by_language(language: Language)
    ensures
        language == Language::Python || language == Language::Ruby || language == Language::Shell
            ==> comment_mark(language) == "#"@,
        language != Language::Python && language != Language::Ruby && language != Language::Shell
            ==> comment_mark(language) == "//"@,
        language_rules(Language::JavaScript) == language_rules(Language::TypeScript),
        language_rules(Language::C) == language_rules(Language::Cpp),
        language != Language::Unknown ==> language_rules(language).len() > 0,
{
}

} // verus!
