//! What a domain says of a tool in place of what the tool says of itself.
//!
//! A decorator changes what the model sees of a tool: its description, its
//! risk, and further parameters. What the tool does stays as it is.

use vstd::prelude::*;
use crate::collections::Keyed;
use crate::data::{self, DataValue, DataView};
use crate::duplicate::Duplicate;
use crate::text;
use crate::types::{PermissionLevel, RiskLevel};

verus! {

// ─── ToolDecorator ──────────────────────────────────────────────────────────

/// What a domain says of one tool.
#[derive(Debug, PartialEq)]
pub struct ToolDecorator {
    /// The tool.
    pub tool_name: String,
    /// The description in place of its own.
    pub description_override: Option<String>,
    /// The level in place of its own.
    pub permission_override: Option<PermissionLevel>,
    /// Parameters that are added to its own: a schema, or its properties alone.
    pub extra_params: DataValue,
}

/// The contents of a [`ToolDecorator`].
#[verifier::ext_equal]
pub struct ToolDecoratorView {
    pub tool_name: Seq<char>,
    pub description_override: Option<Seq<char>>,
    pub permission_override: Option<PermissionLevel>,
    pub extra_params: DataView,
}

impl DeepView for ToolDecorator {
    type V = ToolDecoratorView;

    open spec fn deep_view(&self) -> ToolDecoratorView {
        ToolDecoratorView {
            tool_name: self.tool_name.deep_view(),
            description_override: self.description_override.deep_view(),
            permission_override: self.permission_override.deep_view(),
            extra_params: self.extra_params.deep_view(),
        }
    }
}

impl Duplicate for ToolDecorator {
    fn duplicate(&self) -> (copy: Self) {
        ToolDecorator {
            tool_name: self.tool_name.duplicate(),
            description_override: self.description_override.duplicate(),
            permission_override: self.permission_override.duplicate(),
            extra_params: self.extra_params.duplicate(),
        }
    }
}

impl Clone for ToolDecorator {
    fn clone(&self) -> (copy: Self)
        ensures
            copy.deep_view() == self.deep_view(),
    {
        self.duplicate()
    }
}

/// A description of a tool, and a level where it is another.
pub open spec fn decorated(
    tool: Seq<char>,
    description: Seq<char>,
    level: Option<PermissionLevel>,
) -> ToolDecoratorView {
    ToolDecoratorView {
        tool_name: tool,
        description_override: Some(description),
        permission_override: level,
        extra_params: DataView::Object(Seq::empty()),
    }
}

impl Keyed for ToolDecorator {
    open spec fn key_of(contents: ToolDecoratorView) -> Seq<char> {
        contents.tool_name
    }

    fn key(&self) -> (key: &str) {
        self.tool_name.as_str()
    }
}

impl ToolDecorator {
    /// Replaces the description.
    pub fn with_description(tool_name: &str, description: &str) -> (r: Self)
        ensures
            r.deep_view() == decorated(tool_name@, description@, None),
    {
        ToolDecorator {
            tool_name: tool_name.to_string(),
            description_override: Some(description.to_string()),
            permission_override: None,
            extra_params: data::object(Vec::new()),
        }
    }

    /// Replaces the description and the level.
    pub fn with_description_and_permission(
        tool_name: &str,
        description: &str,
        permission: PermissionLevel,
    ) -> (r: Self)
        ensures
            r.deep_view() == (ToolDecoratorView {
                tool_name: tool_name@,
                description_override: Some(description@),
                permission_override: Some(permission),
                extra_params: DataView::Object(Seq::empty()),
            }),
    {
        ToolDecorator {
            tool_name: tool_name.to_string(),
            description_override: Some(description.to_string()),
            permission_override: Some(permission),
            extra_params: data::object(Vec::new()),
        }
    }
}

// ─── DecoratedTool ──────────────────────────────────────────────────────────

/// What a tool says of itself.
#[derive(Debug, PartialEq)]
pub struct ToolFace {
    pub name: String,
    pub description: String,
    /// The JSON schema of its parameters.
    pub parameters_schema: DataValue,
    pub risk_level: RiskLevel,
}

/// The contents of a [`ToolFace`].
#[verifier::ext_equal]
pub struct ToolFaceView {
    pub name: Seq<char>,
    pub description: Seq<char>,
    pub parameters_schema: DataView,
    pub risk_level: RiskLevel,
}

impl DeepView for ToolFace {
    type V = ToolFaceView;

    open spec fn deep_view(&self) -> ToolFaceView {
        ToolFaceView {
            name: self.name.deep_view(),
            description: self.description.deep_view(),
            parameters_schema: self.parameters_schema.deep_view(),
            risk_level: self.risk_level,
        }
    }
}

impl Duplicate for ToolFace {
    fn duplicate(&self) -> (copy: Self) {
        ToolFace {
            name: self.name.duplicate(),
            description: self.description.duplicate(),
            parameters_schema: self.parameters_schema.duplicate(),
            risk_level: self.risk_level,
        }
    }
}

impl Clone for ToolFace {
    fn clone(&self) -> (copy: Self)
        ensures
            copy.deep_view() == self.deep_view(),
    {
        self.duplicate()
    }
}

/// A tool and what a domain says of it.
#[derive(Debug, PartialEq)]
pub struct DecoratedTool {
    inner: ToolFace,
    decorator: ToolDecorator,
}

/// The contents of a [`DecoratedTool`].
#[verifier::ext_equal]
pub struct DecoratedToolView {
    pub inner: ToolFaceView,
    pub decorator: ToolDecoratorView,
}

impl DeepView for DecoratedTool {
    type V = DecoratedToolView;

    closed spec fn deep_view(&self) -> DecoratedToolView {
        DecoratedToolView {
            inner: self.inner.deep_view(),
            decorator: self.decorator.deep_view(),
        }
    }
}

impl Duplicate for DecoratedTool {
    fn duplicate(&self) -> (copy: Self) {
        DecoratedTool {
            inner: self.inner.duplicate(),
            decorator: self.decorator.duplicate(),
        }
    }
}

impl Clone for DecoratedTool {
    fn clone(&self) -> (copy: Self)
        ensures
            copy.deep_view() == self.deep_view(),
    {
        self.duplicate()
    }
}

/// The schema that further parameters make: they may be a schema themselves, or its
/// properties alone.
pub open spec fn schema_of(params: DataView) -> DataView {
    if params is Object && params.field("properties"@) is None {
        data::no_fields().with("properties"@, params)
    } else {
        params
    }
}

/// The schema that further parameters make.
fn as_schema(params: &DataValue) -> (r: DataValue)
    ensures
        r.deep_view() == schema_of(params.deep_view()),
{
    let bare = match params {
        DataValue::Object(_) => match params.get("properties") {
            Some(_) => false,
            None => true,
        },
        _ => false,
    };
    if bare {
        DataValue::fields().with("properties", params.duplicate())
    } else {
        params.duplicate()
    }
}

impl DecoratedToolView {
    /// What the model sees of the tool.
    pub open spec fn face(self) -> ToolFaceView {
        ToolFaceView {
            name: self.inner.name,
            description: match self.decorator.description_override {
                Some(description) => description,
                None => self.inner.description,
            },
            parameters_schema: if self.decorator.extra_params is Null
                || self.decorator.extra_params == DataView::Object(Seq::empty()) {
                self.inner.parameters_schema
            } else {
                merged_schemas(
                    self.inner.parameters_schema,
                    schema_of(self.decorator.extra_params),
                )
            },
            risk_level: match self.decorator.permission_override {
                Some(level) => level.risk(),
                None => self.inner.risk_level,
            },
        }
    }
}

impl DecoratedTool {
    /// The tool with what a domain says of it.
    pub fn new(inner: ToolFace, decorator: ToolDecorator) -> (r: Self)
        requires
            inner.name@ == decorator.tool_name@,
        ensures
            r.deep_view() == (DecoratedToolView {
                inner: inner.deep_view(),
                decorator: decorator.deep_view(),
            }),
    {
        DecoratedTool { inner, decorator }
    }

    /// What the domain says.
    pub fn decorator(&self) -> (r: &ToolDecorator)
        ensures
            r.deep_view() == self.deep_view().decorator,
    {
        &self.decorator
    }

    /// What the tool says of itself.
    pub fn inner(&self) -> (r: &ToolFace)
        ensures
            r.deep_view() == self.deep_view().inner,
    {
        &self.inner
    }

    /// The name of the tool.
    pub fn name(&self) -> (r: &str)
        ensures
            r@ == self.deep_view().face().name,
    {
        self.inner.name.as_str()
    }

    /// The description that the model sees.
    pub fn description(&self) -> (r: &str)
        ensures
            r@ == self.deep_view().face().description,
    {
        match &self.decorator.description_override {
            Some(description) => description.as_str(),
            None => self.inner.description.as_str(),
        }
    }

    /// The schema of the parameters that the model sees.
    pub fn parameters_schema(&self) -> (r: DataValue)
        ensures
            r.deep_view() == self.deep_view().face().parameters_schema,
    {
        let base = self.inner.parameters_schema.duplicate();
        let nothing_extra = match &self.decorator.extra_params {
            DataValue::Null => true,
            DataValue::Object(entries) => {
                proof {
                    data::lemma_entry_contents(*entries);
                    assert(entries@.len() == 0 ==> entries.deep_view() =~= Seq::empty());
                }
                entries.len() == 0
            },
            _ => false,
        };
        if nothing_extra {
            base
        } else {
            merge_tool_schemas(base, as_schema(&self.decorator.extra_params))
        }
    }

    /// The risk that counts.
    pub fn risk_level(&self) -> (r: RiskLevel)
        ensures
            r == self.deep_view().face().risk_level,
    {
        match self.decorator.permission_override {
            Some(level) => level.to_risk_level(),
            None => self.inner.risk_level,
        }
    }
}

// ─── Schemas ────────────────────────────────────────────────────────────────

/// The properties, with each of `extra` that they lack.
pub open spec fn added_properties(
    properties: Seq<(Seq<char>, DataView)>,
    extra: Seq<(Seq<char>, DataView)>,
) -> Seq<(Seq<char>, DataView)>
    decreases extra.len(),
{
    if extra.len() == 0 {
        properties
    } else if data::entry_of(properties, extra[0].0) is Some {
        added_properties(properties, extra.drop_first())
    } else {
        added_properties(
            data::with_entry(properties, extra[0].0, extra[0].1),
            extra.drop_first(),
        )
    }
}

/// The items, followed by each of `extra` that they lack.
pub open spec fn added_items(items: Seq<DataView>, extra: Seq<DataView>) -> Seq<DataView>
    decreases extra.len(),
{
    if extra.len() == 0 {
        items
    } else if items.contains(extra[0]) {
        added_items(items, extra.drop_first())
    } else {
        added_items(items.push(extra[0]), extra.drop_first())
    }
}

/// The entries, with each of `extra` but for those named `properties` and
/// `required`.
pub open spec fn with_other_entries(
    entries: Seq<(Seq<char>, DataView)>,
    extra: Seq<(Seq<char>, DataView)>,
) -> Seq<(Seq<char>, DataView)>
    decreases extra.len(),
{
    if extra.len() == 0 {
        entries
    } else if extra[0].0 == "properties"@ || extra[0].0 == "required"@ {
        with_other_entries(entries, extra.drop_first())
    } else {
        with_other_entries(
            data::with_entry(entries, extra[0].0, extra[0].1),
            extra.drop_first(),
        )
    }
}

/// The schema with further properties among its own.
pub open spec fn with_properties(
    schema: Seq<(Seq<char>, DataView)>,
    extra: Seq<(Seq<char>, DataView)>,
) -> Seq<(Seq<char>, DataView)> {
    match data::entry_of(schema, "properties"@) {
        Some(DataView::Object(properties)) => data::with_entry(
            schema,
            "properties"@,
            DataView::Object(added_properties(properties, extra)),
        ),
        _ => schema,
    }
}

/// The schema with further required properties among its own.
pub open spec fn with_required(
    schema: Seq<(Seq<char>, DataView)>,
    extra: Option<Seq<DataView>>,
) -> Seq<(Seq<char>, DataView)> {
    match (extra, data::entry_of(schema, "required"@)) {
        (Some(extra), Some(DataView::List(required))) => data::with_entry(
            schema,
            "required"@,
            DataView::List(added_items(required, extra)),
        ),
        _ => schema,
    }
}

/// The schema `base` with what `extra` adds: the properties that it lacks,
/// what else is required, and every other entry.
pub open spec fn merged_schemas(base: DataView, extra: DataView) -> DataView {
    match (base, extra, extra.object_field("properties"@)) {
        (DataView::Object(schema), DataView::Object(entries), Some(properties)) => {
            DataView::Object(
                with_other_entries(
                    with_required(
                        with_properties(schema, properties),
                        extra.list_field("required"@),
                    ),
                    entries,
                ),
            )
        },
        _ => base,
    }
}

/// Adds the properties of `extra` that `properties` lack.
fn add_properties(properties: &mut Vec<(String, DataValue)>, extra: &Vec<(String, DataValue)>)
    ensures
        final(properties).deep_view() == added_properties(
            old(properties).deep_view(),
            extra.deep_view(),
        ),
{
    let ghost start = properties.deep_view();
    let ghost all = extra.deep_view();
    let mut i: usize = 0;
    assert(all.skip(0) =~= all);
    while i < extra.len()
        invariant
            i <= extra.len(),
            all == extra.deep_view(),
            added_properties(start, all) == added_properties(
                properties.deep_view(),
                all.skip(i as int),
            ),
        decreases extra.len() - i,
    {
        assert(all.skip(i as int)[0] == all[i as int]);
        assert(all[i as int] == (extra@[i as int].0@, extra@[i as int].1.deep_view()));
        assert(all.skip(i as int).drop_first() =~= all.skip(i + 1));
        let position = data::find_entry(properties, extra[i].0.as_str());
        if position.is_none() {
            data::insert_entry(properties, extra[i].0.clone(), extra[i].1.duplicate());
        }
        i = i + 1;
    }
}

/// Whether one of the items has the contents of `item`.
fn holds_item(items: &Vec<DataValue>, item: &DataValue) -> (r: bool)
    ensures
        r == items.deep_view().contains(item.deep_view()),
{
    let mut i: usize = 0;
    while i < items.len()
        invariant
            i <= items.len(),
            forall|k: int| 0 <= k < i ==> items.deep_view()[k] != item.deep_view(),
        decreases items.len() - i,
    {
        if items[i].same(item) {
            assert(items.deep_view()[i as int] == item.deep_view());
            return true;
        }
        assert(items.deep_view()[i as int] == items@[i as int].deep_view());
        i = i + 1;
    }
    false
}

/// Appends the items of `extra` that `items` lack.
fn add_items(items: &mut Vec<DataValue>, extra: &Vec<DataValue>)
    ensures
        final(items).deep_view() == added_items(old(items).deep_view(), extra.deep_view()),
{
    let ghost start = items.deep_view();
    let ghost all = extra.deep_view();
    let mut i: usize = 0;
    assert(all.skip(0) =~= all);
    while i < extra.len()
        invariant
            i <= extra.len(),
            all == extra.deep_view(),
            added_items(start, all) == added_items(items.deep_view(), all.skip(i as int)),
        decreases extra.len() - i,
    {
        assert(all.skip(i as int)[0] == all[i as int]);
        assert(all[i as int] == extra@[i as int].deep_view());
        assert(all.skip(i as int).drop_first() =~= all.skip(i + 1));
        if !holds_item(items, &extra[i]) {
            let ghost before = items.deep_view();
            items.push(extra[i].duplicate());
            assert(items.deep_view() =~= before.push(all[i as int]));
        }
        i = i + 1;
    }
}

/// Enters the entries of `extra` but for those named `properties` and
/// `required`.
fn add_other_entries(entries: &mut Vec<(String, DataValue)>, extra: &Vec<(String, DataValue)>)
    ensures
        final(entries).deep_view() == with_other_entries(
            old(entries).deep_view(),
            extra.deep_view(),
        ),
{
    let ghost start = entries.deep_view();
    let ghost all = extra.deep_view();
    let mut i: usize = 0;
    assert(all.skip(0) =~= all);
    while i < extra.len()
        invariant
            i <= extra.len(),
            all == extra.deep_view(),
            with_other_entries(start, all) == with_other_entries(
                entries.deep_view(),
                all.skip(i as int),
            ),
        decreases extra.len() - i,
    {
        assert(all.skip(i as int)[0] == all[i as int]);
        assert(all[i as int] == (extra@[i as int].0@, extra@[i as int].1.deep_view()));
        assert(all.skip(i as int).drop_first() =~= all.skip(i + 1));
        let key = extra[i].0.as_str();
        if !text::same(key, "properties") && !text::same(key, "required") {
            data::insert_entry(entries, extra[i].0.clone(), extra[i].1.duplicate());
        }
        i = i + 1;
    }
}

/// The schema `base` with what `extra` adds.
///
/// A property that the base has is kept as it is; what the base requires is
/// still required. A base that is no object, and an addition without
/// properties, leave the base as it is.
pub fn merge_tool_schemas(base: DataValue, extra: DataValue) -> (r: DataValue)
    ensures
        r.deep_view() == merged_schemas(base.deep_view(), extra.deep_view()),
{
    let ghost base_view = base.deep_view();
    let ghost extra_view = extra.deep_view();
    match (base, &extra) {
        (DataValue::Object(entries), DataValue::Object(extra_entries)) => {
            proof {
                data::lemma_entry_contents(entries);
                data::lemma_entry_contents(*extra_entries);
            }
            let mut schema = entries;
            if let Some(extra_properties) = extra.object_at("properties") {
                let ghost before = schema.deep_view();
                if let Some(i) = data::find_entry(&schema, "properties") {
                    if let DataValue::Object(own) = &schema[i].1 {
                        proof {
                            data::lemma_entry_contents(*own);
                        }
                        let mut properties = own.duplicate();
                        add_properties(&mut properties, extra_properties);
                        proof {
                            data::lemma_entry_contents(properties);
                        }
                        data::insert_entry(
                            &mut schema,
                            "properties".to_string(),
                            DataValue::Object(properties),
                        );
                    }
                }
                assert(schema.deep_view() == with_properties(
                    before,
                    extra_properties.deep_view(),
                ));
                let ghost middle = schema.deep_view();
                if let Some(extra_required) = extra.list_at("required") {
                    if let Some(i) = data::find_entry(&schema, "required") {
                        if let DataValue::List(own) = &schema[i].1 {
                            proof {
                                data::lemma_list_contents(*own);
                            }
                            let mut required = own.duplicate();
                            add_items(&mut required, extra_required);
                            proof {
                                data::lemma_list_contents(required);
                            }
                            data::insert_entry(
                                &mut schema,
                                "required".to_string(),
                                DataValue::List(required),
                            );
                        }
                    }
                }
                assert(schema.deep_view() == with_required(
                    middle,
                    extra_view.list_field("required"@),
                ));
                add_other_entries(&mut schema, extra_entries);
            }
            proof {
                data::lemma_entry_contents(schema);
            }
            DataValue::Object(schema)
        },
        (base, _) => base,
    }
}

// ─── Laws ───────────────────────────────────────────────────────────────────

proof fn lemma_added_properties(
    properties: Seq<(Seq<char>, DataView)>,
    extra: Seq<(Seq<char>, DataView)>,
    key: Seq<char>,
)
    requires
        data::sorted(properties),
    ensures
        data::sorted(added_properties(properties, extra)),
        data::entry_of(added_properties(properties, extra), key) == (match data::entry_of(
            properties,
            key,
        ) {
            Some(value) => Some(value),
            None => data::entry_of(extra, key),
        }),
    decreases extra.len(),
{
    if extra.len() > 0 {
        if data::entry_of(properties, extra[0].0) is Some {
            lemma_added_properties(properties, extra.drop_first(), key);
        } else {
            let more = data::with_entry(properties, extra[0].0, extra[0].1);
            data::law_insert_keeps_order(properties, extra[0].0, extra[0].1);
            data::law_entry_after_insert(properties, extra[0].0, extra[0].1, key);
            lemma_added_properties(more, extra.drop_first(), key);
        }
    }
}

proof fn lemma_added_items(items: Seq<DataView>, extra: Seq<DataView>, item: DataView)
    ensures
        items.is_prefix_of(added_items(items, extra)),
        added_items(items, extra).contains(item) == (items.contains(item) || extra.contains(item)),
    decreases extra.len(),
{
    if extra.len() > 0 {
        let rest = extra.drop_first();
        assert(extra.contains(item) == (extra[0] == item || rest.contains(item))) by {
            if extra.contains(item) {
                let i = choose|i: int| 0 <= i < extra.len() && extra[i] == item;
                if i > 0 {
                    assert(rest[i - 1] == item);
                }
            }
            if rest.contains(item) {
                let i = choose|i: int| 0 <= i < rest.len() && rest[i] == item;
                assert(extra[i + 1] == item);
            }
        }
        if items.contains(extra[0]) {
            lemma_added_items(items, rest, item);
        } else {
            let more = items.push(extra[0]);
            lemma_added_items(more, rest, item);
            assert(more.contains(item) == (items.contains(item) || extra[0] == item)) by {
                if items.contains(item) {
                    let i = choose|i: int| 0 <= i < items.len() && items[i] == item;
                    assert(more[i] == item);
                }
                assert(more[items.len() as int] == extra[0]);
                if more.contains(item) {
                    let i = choose|i: int| 0 <= i < more.len() && more[i] == item;
                    if i < items.len() {
                        assert(items[i] == item);
                    }
                }
            }
            assert(items.is_prefix_of(more));
            let all = added_items(items, extra);
            assert(all.take(items.len() as int) =~= all.take(more.len() as int).take(
                items.len() as int,
            ));
        }
    } else {
        assert(items.take(items.len() as int) =~= items);
    }
}

proof fn lemma_other_entries(
    entries: Seq<(Seq<char>, DataView)>,
    extra: Seq<(Seq<char>, DataView)>,
    key: Seq<char>,
)
    requires
        data::sorted(entries),
        key == "properties"@ || key == "required"@,
    ensures
        data::sorted(with_other_entries(entries, extra)),
        data::entry_of(with_other_entries(entries, extra), key) == data::entry_of(entries, key),
    decreases extra.len(),
{
    if extra.len() > 0 {
        if extra[0].0 == "properties"@ || extra[0].0 == "required"@ {
            lemma_other_entries(entries, extra.drop_first(), key);
        } else {
            let more = data::with_entry(entries, extra[0].0, extra[0].1);
            data::law_insert_keeps_order(entries, extra[0].0, extra[0].1);
            data::law_entry_after_insert(entries, extra[0].0, extra[0].1, key);
            lemma_other_entries(more, extra.drop_first(), key);
        }
    }
}

/// Merging adds and never takes away: a property of the base is kept as it is,
/// and one that only the addition has is there too.
pub proof fn law_merge_adds_properties(
    schema: Seq<(Seq<char>, DataView)>,
    own: Seq<(Seq<char>, DataView)>,
    extra: DataView,
    added: Seq<(Seq<char>, DataView)>,
    key: Seq<char>,
)
    requires
        data::sorted(schema),
        data::sorted(own),
        data::entry_of(schema, "properties"@) == Some(DataView::Object(own)),
        extra.object_field("properties"@) == Some(added),
    ensures
        merged_schemas(DataView::Object(schema), extra).object_field("properties"@) matches Some(
            merged,
        ) && data::entry_of(merged, key) == (match data::entry_of(own, key) {
            Some(value) => Some(value),
            None => data::entry_of(added, key),
        }),
{
    lemma_property_names();
    lemma_added_properties(own, added, key);
    let first = with_properties(schema, added);
    data::law_insert_keeps_order(
        schema,
        "properties"@,
        DataView::Object(added_properties(own, added)),
    );
    data::law_entry_after_insert(
        schema,
        "properties"@,
        DataView::Object(added_properties(own, added)),
        "properties"@,
    );
    let second = with_required(first, extra.list_field("required"@));
    if let (Some(more), Some(DataView::List(required))) = (
        extra.list_field("required"@),
        data::entry_of(first, "required"@),
    ) {
        let value = DataView::List(added_items(required, more));
        data::law_insert_keeps_order(first, "required"@, value);
        data::law_entry_after_insert(first, "required"@, value, "properties"@);
    }
    lemma_other_entries(second, extra->Object_0, "properties"@);
}

/// What the base requires is still required, in its place; and what the
/// addition requires is required too.
pub proof fn law_merge_adds_required(
    schema: Seq<(Seq<char>, DataView)>,
    own: Seq<DataView>,
    extra: DataView,
    added: Seq<DataView>,
    item: DataView,
)
    requires
        data::sorted(schema),
        data::entry_of(schema, "required"@) == Some(DataView::List(own)),
        extra.object_field("properties"@) is Some,
        extra.list_field("required"@) == Some(added),
    ensures
        merged_schemas(DataView::Object(schema), extra).list_field("required"@) matches Some(
            merged,
        ) && own.is_prefix_of(merged) && merged.contains(item) == (own.contains(item)
            || added.contains(item)),
{
    lemma_property_names();
    lemma_added_items(own, added, item);
    let properties = extra.object_field("properties"@)->0;
    let first = with_properties(schema, properties);
    if let Some(DataView::Object(base)) = data::entry_of(schema, "properties"@) {
        let value = DataView::Object(added_properties(base, properties));
        data::law_insert_keeps_order(schema, "properties"@, value);
        data::law_entry_after_insert(schema, "properties"@, value, "required"@);
    }
    let value = DataView::List(added_items(own, added));
    data::law_insert_keeps_order(first, "required"@, value);
    data::law_entry_after_insert(first, "required"@, value, "required"@);
    lemma_other_entries(
        with_required(first, Some(added)),
        extra->Object_0,
        "required"@,
    );
}

proof fn lemma_property_names()
    ensures
        "properties"@ != "required"@,
{
    reveal_strlit("properties");
    reveal_strlit("required");
    assert("properties"@[0] == 'p' && "required"@[0] == 'r');
}

/// The name of a tool stays its own; what the domain says of it takes the place of what it
/// says of itself, and where the domain says nothing, its own word stands.
pub proof fn law_domain_has_the_last_word(tool: DecoratedToolView)
    ensures
        tool.face().name == tool.inner.name,
        tool.decorator.description_override matches Some(description) ==> tool.face().description
            == description,
        tool.decorator.description_override is None ==> tool.face().description
            == tool.inner.description,
        tool.decorator.permission_override == Some(PermissionLevel::Read)
            ==> tool.face().risk_level == RiskLevel::Low,
        tool.decorator.permission_override == Some(PermissionLevel::Standard)
            ==> tool.face().risk_level == RiskLevel::Medium,
        tool.decorator.permission_override == Some(PermissionLevel::Full)
            ==> tool.face().risk_level == RiskLevel::High,
        tool.decorator.permission_override is None ==> tool.face().risk_level
            == tool.inner.risk_level,
        tool.decorator.extra_params is Null || tool.decorator.extra_params == DataView::Object(
            Seq::empty(),
        ) ==> tool.face().parameters_schema == tool.inner.parameters_schema,
        !(tool.inner.parameters_schema is Object) ==> tool.face().parameters_schema
            == tool.inner.parameters_schema,
{
}

/// Further parameters of a tool are among those that the model sees, whether they were
/// given as a schema or as its properties alone; the tool's own stay as they are.
pub proof fn law_further_parameters_are_seen(
    tool: DecoratedToolView,
    schema: Seq<(Seq<char>, DataView)>,
    own: Seq<(Seq<char>, DataView)>,
    params: Seq<(Seq<char>, DataView)>,
    key: Seq<char>,
)
    requires
        tool.inner.parameters_schema == DataView::Object(schema),
        data::sorted(schema),
        data::sorted(own),
        data::entry_of(schema, "properties"@) == Some(DataView::Object(own)),
        tool.decorator.extra_params == DataView::Object(params) && data::entry_of(
            params,
            "properties"@,
        ) is None || tool.decorator.extra_params.object_field("properties"@) == Some(params),
    ensures
        params.len() > 0 ==> {
            &&& tool.face().parameters_schema.object_field("properties"@) matches Some(seen)
            &&& data::entry_of(seen, key) == (match data::entry_of(own, key) {
                Some(value) => Some(value),
                None => data::entry_of(params, key),
            })
        },
{
    if params.len() > 0 {
        let extra = tool.decorator.extra_params;
        let bare = DataView::Object(params);
        assert(bare != DataView::Object(Seq::empty())) by {
            assert(bare->Object_0.len() > 0);
        }
        if extra == bare && data::entry_of(params, "properties"@) is None {
            data::law_entry_after_insert(Seq::empty(), "properties"@, bare, "properties"@);
        } else {
            assert(extra is Object);
            assert(extra->Object_0.len() > 0);
        }
        law_merge_adds_properties(schema, own, schema_of(extra), params, key);
    }
}

/// Every other entry of the addition is there after a merge, in place of one of the base of
/// the same key; the other entries of the base stay.
pub proof fn law_merge_adds_other_entries(
    schema: Seq<(Seq<char>, DataView)>,
    extra: Seq<(Seq<char>, DataView)>,
    key: Seq<char>,
)
    requires
        data::sorted(schema),
        data::sorted(extra),
        DataView::Object(extra).object_field("properties"@) is Some,
        key != "properties"@,
        key != "required"@,
    ensures
        merged_schemas(DataView::Object(schema), DataView::Object(extra)).field(key) == (
        match data::entry_of(extra, key) {
            Some(value) => Some(value),
            None => data::entry_of(schema, key),
        }),
{
    let whole = DataView::Object(extra);
    let properties = whole.object_field("properties"@)->0;
    let first = with_properties(schema, properties);
    if let Some(DataView::Object(base)) = data::entry_of(schema, "properties"@) {
        let value = DataView::Object(added_properties(base, properties));
        data::law_insert_keeps_order(schema, "properties"@, value);
        data::law_entry_after_insert(schema, "properties"@, value, key);
    }
    let second = with_required(first, whole.list_field("required"@));
    if let (Some(more), Some(DataView::List(required))) = (
        whole.list_field("required"@),
        data::entry_of(first, "required"@),
    ) {
        let value = DataView::List(added_items(required, more));
        data::law_insert_keeps_order(first, "required"@, value);
        data::law_entry_after_insert(first, "required"@, value, key);
    }
    lemma_other_entry(second, extra, key);
}

proof fn lemma_other_entry(
    entries: Seq<(Seq<char>, DataView)>,
    extra: Seq<(Seq<char>, DataView)>,
    key: Seq<char>,
)
    requires
        data::sorted(entries),
        data::sorted(extra),
        key != "properties"@,
        key != "required"@,
    ensures
        data::entry_of(with_other_entries(entries, extra), key) == (match data::entry_of(
            extra,
            key,
        ) {
            Some(value) => Some(value),
            None => data::entry_of(entries, key),
        }),
    decreases extra.len(),
{
    if extra.len() > 0 {
        let rest = extra.drop_first();
        assert forall|i: int, j: int| 0 <= i < j < rest.len() implies text::text_before(
            #[trigger] rest[i].0,
            #[trigger] rest[j].0,
        ) by {
            assert(rest[i] == extra[i + 1] && rest[j] == extra[j + 1]);
        }
        if extra[0].0 == "properties"@ || extra[0].0 == "required"@ {
            lemma_other_entry(entries, rest, key);
        } else {
            let more = data::with_entry(entries, extra[0].0, extra[0].1);
            data::law_insert_keeps_order(entries, extra[0].0, extra[0].1);
            data::law_entry_after_insert(entries, extra[0].0, extra[0].1, key);
            lemma_other_entry(more, rest, key);
            if extra[0].0 == key {
                lemma_no_later_entry(extra, rest, key);
            }
        }
    }
}

proof fn lemma_no_later_entry(
    extra: Seq<(Seq<char>, DataView)>,
    later: Seq<(Seq<char>, DataView)>,
    key: Seq<char>,
)
    requires
        data::sorted(extra),
        extra.len() > 0,
        extra[0].0 == key,
        later.len() < extra.len(),
        later == extra.skip(extra.len() - later.len()),
    ensures
        data::entry_of(later, key) is None,
    decreases later.len(),
{
    if later.len() > 0 {
        let n = extra.len() - later.len();
        assert(later[0] == extra[n]);
        assert(text::text_before(extra[0].0, extra[n].0));
        data::lemma_text_before_total(key, key);
        assert(later.drop_first() =~= extra.skip(n + 1));
        lemma_no_later_entry(extra, later.drop_first(), key);
    }
}

/// A base that is no object, and an addition without properties, leave the base as it is.
pub proof fn law_merge_may_leave_the_base(base: DataView, extra: DataView)
    ensures
        !(base is Object) ==> merged_schemas(base, extra) == base,
        !(extra is Object) ==> merged_schemas(base, extra) == base,
        extra.object_field("properties"@) is None ==> merged_schemas(base, extra) == base,
{
}

} // verus!
