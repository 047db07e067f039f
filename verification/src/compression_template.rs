//! How a conversation is summarised when it outgrows its budget.

use vstd::prelude::*;
use crate::collections::{self, Table};
use crate::duplicate::Duplicate;
use crate::text;

verus! {

/// What the summariser is asked where a domain has no template.
pub const GENERIC_PROMPT: &'static str = "You are a conversation summarizer. Summarize the conversation below into a concise summary that captures the key facts, decisions, and context needed to continue the conversation.";

/// What stands before the fields to preserve.
pub const PRESERVE_BEFORE: &'static str = "\nIMPORTANT: You MUST preserve the following information in your summary:\n";

/// What stands behind the fields to preserve.
pub const PRESERVE_AFTER: &'static str = "\nDo not omit or abbreviate these fields — they are critical for continuing the task.";

/// What stands behind a text that was cut.
pub const CUT_NOTE: &'static str = "\n... [truncated due to domain compression policy]";

/// The template of the coding domain.
pub const CODING_COMPRESSION_TEMPLATE: &'static str = "You are a coding session summarizer. Summarize the conversation below into a structured summary following this exact format:\n\n# Session Summary\n## Goal: {{task_description}}\n## Constraints: {{constraints}}\n## Progress:\n  For each task step, list status (✅ completed / 🔄 in progress / ⏳ pending / ❌ failed)\n## Key Decisions: List all important architectural or design decisions made\n## Critical Files: List all file paths that were read, modified, or are relevant\n## Next Steps: What should be done next to continue the task\n## Errors/Issues: Any errors encountered and their resolution status\n\nBe concise but complete. Do NOT omit file paths or progress status — these are critical for continuing coding work.";

/// How the conversations of a domain are summarised.
#[derive(Debug, PartialEq)]
pub struct CompressionTemplate {
    /// What users call it.
    pub name: String,
    /// The fields that every summary holds.
    pub preserve_fields: Vec<String>,
    /// The prompt, in which `{{name}}` stands for a variable.
    pub template: String,
    /// How many characters of each type of content are kept.
    pub truncate_rules: Table<usize>,
    /// Variables of the prompt, with their values.
    pub default_variables: Table<String>,
}

/// The contents of a [`CompressionTemplate`].
#[verifier::ext_equal]
pub struct CompressionTemplateView {
    pub name: Seq<char>,
    pub preserve_fields: Seq<Seq<char>>,
    pub template: Seq<char>,
    pub truncate_rules: Seq<(Seq<char>, usize)>,
    pub default_variables: Seq<(Seq<char>, Seq<char>)>,
}

impl DeepView for CompressionTemplate {
    type V = CompressionTemplateView;

    open spec fn deep_view(&self) -> CompressionTemplateView {
        CompressionTemplateView {
            name: self.name.deep_view(),
            preserve_fields: self.preserve_fields.deep_view(),
            template: self.template.deep_view(),
            truncate_rules: self.truncate_rules.deep_view(),
            default_variables: self.default_variables.deep_view(),
        }
    }
}

impl Duplicate for CompressionTemplate {
    fn duplicate(&self) -> (copy: Self) {
        CompressionTemplate {
            name: self.name.duplicate(),
            preserve_fields: self.preserve_fields.duplicate(),
            template: self.template.duplicate(),
            truncate_rules: self.truncate_rules.duplicate(),
            default_variables: self.default_variables.duplicate(),
        }
    }
}

impl Clone for CompressionTemplate {
    fn clone(&self) -> (copy: Self)
        ensures
            copy.deep_view() == self.deep_view(),
    {
        self.duplicate()
    }
}

/// What the summariser is told of the fields to preserve.
pub open spec fn preserve_hint(fields: Seq<Seq<char>>) -> Seq<char> {
    if fields.len() == 0 {
        Seq::empty()
    } else {
        PRESERVE_BEFORE@ + text::joined(text::prefixed(fields, "  - "@), "\n"@) + PRESERVE_AFTER@
    }
}

/// The text with a value in place of every variable, one variable after the
/// other.
pub open spec fn filled(template: Seq<char>, variables: Seq<(Seq<char>, Seq<char>)>) -> Seq<char>
    decreases variables.len(),
{
    if variables.len() == 0 {
        template
    } else {
        text::replaced(
            filled(template, variables.drop_last()),
            "{{"@ + variables.last().0 + "}}"@,
            variables.last().1,
        )
    }
}

/// What the summariser is asked.
pub open spec fn summarization_prompt(template: CompressionTemplateView, task: Seq<char>) -> Seq<
    char,
> {
    if template.template.len() == 0 {
        GENERIC_PROMPT@ + preserve_hint(template.preserve_fields) + "\n\nTask: "@ + task
    } else {
        text::replaced(
            filled(template.template, template.default_variables),
            "{{task_description}}"@,
            task,
        ) + preserve_hint(template.preserve_fields)
    }
}

/// The content, where `rules` keep it whole, or else its first characters up to
/// the rule and a note that it was cut.
pub open spec fn truncated(
    rules: Seq<(Seq<char>, usize)>,
    content_type: Seq<char>,
    content: Seq<char>,
) -> Seq<char> {
    match collections::lookup(rules, content_type) {
        Some(max) => if content.len() > max {
            content.take(max as int) + CUT_NOTE@
        } else {
            content
        },
        None => content,
    }
}

impl CompressionTemplate {
    /// A template without rules.
    pub fn new(name: String) -> (r: Self)
        ensures
            r.deep_view() == (CompressionTemplateView {
                name: name@,
                preserve_fields: Seq::empty(),
                template: Seq::empty(),
                truncate_rules: Seq::empty(),
                default_variables: Seq::empty(),
            }),
    {
        CompressionTemplate {
            name,
            preserve_fields: Vec::new(),
            template: String::new(),
            truncate_rules: Table::new(),
            default_variables: Table::new(),
        }
    }

    /// What the summariser is asked, for a task.
    pub fn build_summarization_prompt(&self, task_description: &str) -> (r: String)
        ensures
            r@ == summarization_prompt(self.deep_view(), task_description@),
    {
        let mut hint = String::new();
        if self.preserve_fields.len() > 0 {
            hint.push_str(PRESERVE_BEFORE);
            let fields = text::prefix_all(&self.preserve_fields, "  - ");
            hint.push_str(text::join(&fields, "\n").as_str());
            hint.push_str(PRESERVE_AFTER);
        }
        assert(hint@ =~= preserve_hint(self.preserve_fields.deep_view()));
        let empty = text::same(self.template.as_str(), "");
        proof {
            reveal_strlit("");
            assert(empty ==> self.template@.len() == 0);
            assert(self.template@.len() == 0 ==> self.template@ =~= ""@);
        }
        if empty {
            let mut prompt = GENERIC_PROMPT.to_string();
            prompt.push_str(hint.as_str());
            prompt.push_str("\n\nTask: ");
            prompt.push_str(task_description);
            prompt
        } else {
            let ghost all = self.default_variables.deep_view();
            let mut prompt = self.template.clone();
            let mut i: usize = 0;
            while i < self.default_variables.len()
                invariant
                    i <= all.len(),
                    all == self.default_variables.deep_view(),
                    prompt@ == filled(self.template@, all.take(i as int)),
                decreases all.len() - i,
            {
                assert(all.take(i + 1).drop_last() =~= all.take(i as int));
                let mut variable = "{{".to_string();
                variable.push_str(self.default_variables.key_at(i));
                variable.push_str("}}");
                proof {
                    reveal_strlit("{{");
                }
                prompt = text::replace(
                    prompt.as_str(),
                    variable.as_str(),
                    self.default_variables.value_at(i).as_str(),
                );
                i = i + 1;
            }
            proof {
                assert(all.take(i as int) =~= all);
                reveal_strlit("{{task_description}}");
            }
            let mut whole = text::replace(
                prompt.as_str(),
                "{{task_description}}",
                task_description,
            );
            whole.push_str(hint.as_str());
            whole
        }
    }

    /// The content, cut where it has more characters than the rule for its type says.
    pub fn truncate_content(&self, content_type: &str, content: &str) -> (r: String)
        ensures
            r@ == truncated(self.deep_view().truncate_rules, content_type@, content@),
    {
        match self.truncate_rules.get(content_type) {
            Some(max) => {
                let all = text::chars(content);
                if all.len() > *max {
                    let mut kept = text::substring(&all, 0, *max);
                    kept.push_str(CUT_NOTE);
                    assert(kept@ =~= content@.take(*max as int) + CUT_NOTE@);
                    kept
                } else {
                    content.to_string()
                }
            },
            None => content.to_string(),
        }
    }
}

impl Default for CompressionTemplate {
    fn default() -> (r: Self)
        ensures
            r.deep_view() == (CompressionTemplateView {
                name: "default"@,
                preserve_fields: Seq::empty(),
                template: Seq::empty(),
                truncate_rules: Seq::empty(),
                default_variables: Seq::empty(),
            }),
    {
        CompressionTemplate::new("default".to_string())
    }
}

/// What is left of a content that was cut has as many characters as the rule says,
/// and starts the content.
pub proof fn law_truncated_length(
    rules: Seq<(Seq<char>, usize)>,
    content_type: Seq<char>,
    content: Seq<char>,
)
    ensures
        match collections::lookup(rules, content_type) {
            Some(max) => {
                let r = truncated(rules, content_type, content);
                &&& content.len() <= max ==> r == content
                &&& content.len() > max ==> r.len() == max + CUT_NOTE@.len()
                &&& content.len() > max ==> exists|kept: Seq<char>| #[trigger]
                    kept.is_prefix_of(content) && r == kept + CUT_NOTE@
            },
            None => truncated(rules, content_type, content) == content,
        },
{
    if let Some(max) = collections::lookup(rules, content_type) {
        if content.len() > max {
            assert(content.take(max as int).is_prefix_of(content));
        }
    }
}

/// Every field to preserve is named in what the summariser is asked, and so is
/// the task where there is no template.
pub proof fn law_prompt_names_fields(
    template: CompressionTemplateView,
    task: Seq<char>,
    field: Seq<char>,
)
    requires
        template.preserve_fields.contains(field),
    ensures
        text::occurs(summarization_prompt(template, task), field),
        template.template.len() == 0 ==> text::occurs(summarization_prompt(template, task), task),
{
    let fields = template.preserve_fields;
    let bullets = text::prefixed(fields, "  - "@);
    let i = choose|i: int| 0 <= i < fields.len() && fields[i] == field;
    assert(bullets[i] == "  - "@ + field);
    let list = text::joined(bullets, "\n"@);
    text::lemma_joined_holds(bullets, "\n"@, i);
    text::lemma_occurs_inside("  - "@, field, Seq::empty());
    assert("  - "@ + field + Seq::<char>::empty() =~= bullets[i]);
    text::lemma_occurs_through(list, bullets[i], field);
    text::lemma_occurs_inside(PRESERVE_BEFORE@, list, PRESERVE_AFTER@);
    let hint = preserve_hint(fields);
    text::lemma_occurs_through(hint, list, field);
    let prompt = summarization_prompt(template, task);
    if template.template.len() == 0 {
        text::lemma_occurs_inside(GENERIC_PROMPT@, hint, "\n\nTask: "@ + task);
        assert(GENERIC_PROMPT@ + hint + ("\n\nTask: "@ + task) =~= prompt);
        text::lemma_occurs_through(prompt, hint, field);
        text::lemma_occurs_inside(
            GENERIC_PROMPT@ + hint + "\n\nTask: "@,
            task,
            Seq::empty(),
        );
        assert(GENERIC_PROMPT@ + hint + "\n\nTask: "@ + task + Seq::<char>::empty() =~= prompt);
    } else {
        let front = text::replaced(
            filled(template.template, template.default_variables),
            "{{task_description}}"@,
            task,
        );
        text::lemma_occurs_inside(front, hint, Seq::empty());
        assert(front + hint + Seq::<char>::empty() =~= prompt);
        text::lemma_occurs_through(prompt, hint, field);
    }
}

/// The task takes the place of its variable in a template, and all else of the template
/// stays: it is what the summariser is asked, with the fields to preserve behind it.
pub proof fn law_task_takes_its_place(
    name: Seq<char>,
    fields: Seq<Seq<char>>,
    rules: Seq<(Seq<char>, usize)>,
    a: Seq<char>,
    b: Seq<char>,
    task: Seq<char>,
)
    requires
        !a.contains('{'),
        !b.contains('{'),
    ensures
        ({
            let template = CompressionTemplateView {
                name,
                preserve_fields: fields,
                template: a + "{{task_description}}"@ + b,
                truncate_rules: rules,
                default_variables: Seq::empty(),
            };
            &&& (a + task + b).is_prefix_of(summarization_prompt(template, task))
            &&& fields.len() == 0 ==> summarization_prompt(template, task) == a + task + b
        }),
{
    reveal_strlit("{{task_description}}");
    let variable = "{{task_description}}"@;
    assert(variable[0] == '{');
    text::lemma_replaced_at(a, variable, b, task);
    text::lemma_nothing_replaced(b, variable, task);
    let template = CompressionTemplateView {
        name,
        preserve_fields: fields,
        template: a + variable + b,
        truncate_rules: rules,
        default_variables: Seq::empty(),
    };
    let prompt = summarization_prompt(template, task);
    assert(prompt.take((a + task + b).len() as int) =~= a + task + b);
    if fields.len() == 0 {
        assert(prompt =~= a + task + b);
    }
}

/// A value takes the place of its variable in a template, and all else stays.
pub proof fn law_value_takes_its_place(
    a: Seq<char>,
    variable: Seq<char>,
    value: Seq<char>,
    b: Seq<char>,
)
    requires
        !a.contains('{'),
        !b.contains('{'),
    ensures
        filled(a + ("{{"@ + variable + "}}"@) + b, seq![(variable, value)]) == a + value + b,
        filled(a, Seq::empty()) == a,
{
    reveal_strlit("{{");
    let mark = "{{"@ + variable + "}}"@;
    let template = a + mark + b;
    assert(mark[0] == '{');
    text::lemma_replaced_at(a, mark, b, value);
    text::lemma_nothing_replaced(b, mark, value);
    let variables = seq![(variable, value)];
    assert(variables.drop_last() =~= Seq::<(Seq<char>, Seq<char>)>::empty());
    reveal_with_fuel(filled, 2);
}

/// The fields to preserve are named in their order, and nothing is said of fields where
/// there are none.
pub proof fn law_fields_are_named_in_order(template: CompressionTemplateView, task: Seq<char>)
    ensures
        text::in_order(summarization_prompt(template, task), template.preserve_fields),
        template.preserve_fields.len() == 0 && template.template.len() == 0
            ==> summarization_prompt(template, task) == GENERIC_PROMPT@ + "\n\nTask: "@ + task,
{
    let fields = template.preserve_fields;
    let hint = preserve_hint(fields);
    let prompt = summarization_prompt(template, task);
    let list = text::joined(text::prefixed(fields, "  - "@), "\n"@);
    if fields.len() > 0 {
        lemma_bullets_in_order(fields);
        assert(text::in_order(PRESERVE_BEFORE@, Seq::empty()));
        text::lemma_in_order_add(PRESERVE_BEFORE@, Seq::empty(), list, fields);
        assert(Seq::<Seq<char>>::empty() + fields =~= fields);
        text::lemma_in_order_before(PRESERVE_BEFORE@ + list, fields, PRESERVE_AFTER@);
        let front = if template.template.len() == 0 {
            GENERIC_PROMPT@
        } else {
            text::replaced(
                filled(template.template, template.default_variables),
                "{{task_description}}"@,
                task,
            )
        };
        assert(text::in_order(front, Seq::empty()));
        text::lemma_in_order_add(front, Seq::empty(), hint, fields);
        if template.template.len() == 0 {
            text::lemma_in_order_before(front + hint, fields, "\n\nTask: "@ + task);
            assert(front + hint + ("\n\nTask: "@ + task) =~= prompt);
        }
    } else if template.template.len() == 0 {
        assert(prompt =~= GENERIC_PROMPT@ + "\n\nTask: "@ + task);
    }
}

proof fn lemma_bullets_in_order(fields: Seq<Seq<char>>)
    ensures
        text::in_order(text::joined(text::prefixed(fields, "  - "@), "\n"@), fields),
    decreases fields.len(),
{
    let parts = text::prefixed(fields, "  - "@);
    if fields.len() > 0 {
        let front = fields.drop_last();
        let field = fields.last();
        lemma_bullets_in_order(front);
        assert(parts.drop_last() =~= text::prefixed(front, "  - "@));
        let start = if front.len() == 0 {
            Seq::empty()
        } else {
            text::joined(parts.drop_last(), "\n"@) + "\n"@
        };
        if front.len() > 0 {
            text::lemma_in_order_before(text::joined(parts.drop_last(), "\n"@), front, "\n"@);
        }
        text::lemma_in_order_before(start, front, "  - "@);
        text::lemma_in_order_piece(start + "  - "@, front, field);
        assert(front.push(field) =~= fields);
        assert(start + "  - "@ + field =~= text::joined(parts, "\n"@));
    }
}

} // verus!
