//! The data that flows between an agent, its model and its tools.

use vstd::prelude::*;
use base64::engine::general_purpose::STANDARD;
use base64::Engine;
use uuid::Uuid;
use crate::collections::Table;
use crate::data::{DataValue, DataView};
use crate::duplicate::Duplicate;
use crate::text;

verus! {

// ─── Content ────────────────────────────────────────────────────────────────

/// A piece of the content of a message.
#[derive(Debug, PartialEq)]
pub enum ContentBlock {
    /// Plain text.
    Text { text: String },
    /// An image as raw bytes.
    Image { mime_type: String, data: Vec<u8> },
    /// A file, by its address.
    File { mime_type: String, uri: String },
    /// A tool call that the model asks for; the arguments are a JSON text.
    ToolCall { id: String, name: String, args: String },
    /// What a tool call gave.
    ToolResult { call_id: String, content: String },
    /// What the model wrote while thinking.
    Thinking { text: String },
}

/// The contents of a [`ContentBlock`].
#[verifier::ext_equal]
pub enum ContentBlockView {
    Text { text: Seq<char> },
    Image { mime_type: Seq<char>, data: Seq<u8> },
    File { mime_type: Seq<char>, uri: Seq<char> },
    ToolCall { id: Seq<char>, name: Seq<char>, args: Seq<char> },
    ToolResult { call_id: Seq<char>, content: Seq<char> },
    Thinking { text: Seq<char> },
}

impl DeepView for ContentBlock {
    type V = ContentBlockView;

    open spec fn deep_view(&self) -> ContentBlockView {
        match self {
            ContentBlock::Text { text } => ContentBlockView::Text { text: text.deep_view() },
            ContentBlock::Image { mime_type, data } => ContentBlockView::Image {
                mime_type: mime_type.deep_view(),
                data: data.deep_view(),
            },
            ContentBlock::File { mime_type, uri } => ContentBlockView::File {
                mime_type: mime_type.deep_view(),
                uri: uri.deep_view(),
            },
            ContentBlock::ToolCall { id, name, args } => ContentBlockView::ToolCall {
                id: id.deep_view(),
                name: name.deep_view(),
                args: args.deep_view(),
            },
            ContentBlock::ToolResult { call_id, content } => ContentBlockView::ToolResult {
                call_id: call_id.deep_view(),
                content: content.deep_view(),
            },
            ContentBlock::Thinking { text } => ContentBlockView::Thinking { text: text.deep_view() },
        }
    }
}

impl Duplicate for ContentBlock {
    fn duplicate(&self) -> (copy: Self) {
        match self {
            ContentBlock::Text { text } => ContentBlock::Text { text: text.duplicate() },
            ContentBlock::Image { mime_type, data } => ContentBlock::Image {
                mime_type: mime_type.duplicate(),
                data: data.duplicate(),
            },
            ContentBlock::File { mime_type, uri } => ContentBlock::File {
                mime_type: mime_type.duplicate(),
                uri: uri.duplicate(),
            },
            ContentBlock::ToolCall { id, name, args } => ContentBlock::ToolCall {
                id: id.duplicate(),
                name: name.duplicate(),
                args: args.duplicate(),
            },
            ContentBlock::ToolResult { call_id, content } => ContentBlock::ToolResult {
                call_id: call_id.duplicate(),
                content: content.duplicate(),
            },
            ContentBlock::Thinking { text } => ContentBlock::Thinking { text: text.duplicate() },
        }
    }
}

impl Clone for ContentBlock {
    fn clone(&self) -> (copy: Self)
        ensures
            copy.deep_view() == self.deep_view(),
    {
        self.duplicate()
    }
}

/// The base64 text of `data`, in the standard alphabet and with padding, as
/// `base64::Engine::encode` writes it.
pub uninterp spec fn base64_text(data: Seq<u8>) -> Seq<char>;

/// The bytes that a base64 text stands for, as `base64::Engine::decode` reads
/// it: none where the text is no base64.
pub uninterp spec fn base64_data(text: Seq<char>) -> Option<Seq<u8>>;

/// An error of `base64::Engine::decode`.
#[verifier::external_type_specification]
#[verifier::external_body]
pub struct ExDecodeError(base64::DecodeError);

/// `base64::Engine::encode` of the `STANDARD` engine. Its result depends on the
/// bytes alone, and decoding it gives the bytes back.
#[verifier::external_body]
fn base64_encode(data: &Vec<u8>) -> (r: String)
    ensures
        r@ == base64_text(data@),
        base64_data(r@) == Some(data@),
{
    STANDARD.encode(data)
}

/// `base64::Engine::decode` of the `STANDARD` engine. Its result depends on the
/// text alone.
#[verifier::external_body]
fn base64_decode(text: &str) -> (r: Result<Vec<u8>, base64::DecodeError>)
    ensures
        match r {
            Ok(data) => base64_data(text@) == Some(data@),
            Err(_) => base64_data(text@) is None,
        },
{
    STANDARD.decode(text)
}

/// The text in which the bytes of an image are written down.
pub fn encode_image(data: &Vec<u8>) -> (r: String)
    ensures
        r@ == base64_text(data@),
        base64_data(r@) == Some(data@),
{
    base64_encode(data)
}

/// The bytes of an image that was written down as `text`: none where the text
/// is no base64.
pub fn decode_image(text: &str) -> (r: Option<Vec<u8>>)
    ensures
        match r {
            Some(data) => base64_data(text@) == Some(data@),
            None => base64_data(text@) is None,
        },
{
    match base64_decode(text) {
        Ok(data) => Some(data),
        Err(_) => None,
    }
}

// ─── Messages ───────────────────────────────────────────────────────────────

/// Who wrote a message.
#[derive(Debug, Clone, Copy, PartialEq, Eq, Structural)]
pub enum Role {
    System,
    User,
    Assistant,
    Tool,
}

impl DeepView for Role {
    type V = Role;

    open spec fn deep_view(&self) -> Role {
        *self
    }
}

impl Duplicate for Role {
    fn duplicate(&self) -> (copy: Self) {
        *self
    }
}

/// A message of a conversation.
#[derive(Debug, PartialEq)]
pub struct Message {
    /// Who wrote it.
    pub role: Role,
    /// What it says, piece by piece.
    pub content: Vec<ContentBlock>,
    /// Further facts about it.
    pub metadata: Table<String>,
}

/// The contents of a [`Message`].
#[verifier::ext_equal]
pub struct MessageView {
    pub role: Role,
    pub content: Seq<ContentBlockView>,
    pub metadata: Seq<(Seq<char>, Seq<char>)>,
}

impl DeepView for Message {
    type V = MessageView;

    open spec fn deep_view(&self) -> MessageView {
        MessageView {
            role: self.role,
            content: self.content.deep_view(),
            metadata: self.metadata.deep_view(),
        }
    }
}

impl Duplicate for Message {
    fn duplicate(&self) -> (copy: Self) {
        Message {
            role: self.role,
            content: self.content.duplicate(),
            metadata: self.metadata.duplicate(),
        }
    }
}

impl Clone for Message {
    fn clone(&self) -> (copy: Self)
        ensures
            copy.deep_view() == self.deep_view(),
    {
        self.duplicate()
    }
}

/// The message of this author whose only piece is `text`.
pub open spec fn text_message(role: Role, text: Seq<char>) -> MessageView {
    MessageView {
        role,
        content: seq![ContentBlockView::Text { text }],
        metadata: Seq::empty(),
    }
}

/// The texts among the pieces, in order.
pub open spec fn texts_among(content: Seq<ContentBlockView>) -> Seq<Seq<char>>
    decreases content.len(),
{
    if content.len() == 0 {
        Seq::empty()
    } else {
        let before = texts_among(content.drop_last());
        match content.last() {
            ContentBlockView::Text { text } => before.push(text),
            _ => before,
        }
    }
}

/// The tool calls among the pieces, in order.
pub open spec fn calls_among(content: Seq<ContentBlockView>) -> Seq<ContentBlockView>
    decreases content.len(),
{
    if content.len() == 0 {
        Seq::empty()
    } else {
        let before = calls_among(content.drop_last());
        match content.last() {
            ContentBlockView::ToolCall { .. } => before.push(content.last()),
            _ => before,
        }
    }
}

impl Message {
    /// A message with one text.
    pub fn text(role: Role, text: String) -> (r: Self)
        ensures
            r.deep_view() == text_message(role, text@),
    {
        Message { role, content: vec![ContentBlock::Text { text }], metadata: Table::new() }
    }

    /// A system message.
    pub fn system(text: String) -> (r: Self)
        ensures
            r.deep_view() == text_message(Role::System, text@),
    {
        Message::text(Role::System, text)
    }

    /// A user's message.
    pub fn user(text: String) -> (r: Self)
        ensures
            r.deep_view() == text_message(Role::User, text@),
    {
        Message::text(Role::User, text)
    }

    /// A message of the assistant.
    pub fn assistant(text: String) -> (r: Self)
        ensures
            r.deep_view() == text_message(Role::Assistant, text@),
    {
        Message::text(Role::Assistant, text)
    }

    /// A message that hands a tool's result back.
    pub fn tool_result(call_id: String, content: String) -> (r: Self)
        ensures
            r.deep_view() == (MessageView {
                role: Role::Tool,
                content: seq![
                    ContentBlockView::ToolResult { call_id: call_id@, content: content@ },
                ],
                metadata: Seq::empty(),
            }),
    {
        Message {
            role: Role::Tool,
            content: vec![ContentBlock::ToolResult { call_id, content }],
            metadata: Table::new(),
        }
    }

    /// The texts of this message, one per line.
    pub fn text_content(&self) -> (r: String)
        ensures
            r@ == text::joined(texts_among(self.deep_view().content), "\n"@),
    {
        let mut texts: Vec<String> = Vec::new();
        let ghost all = self.content.deep_view();
        let mut i: usize = 0;
        while i < self.content.len()
            invariant
                i <= self.content.len(),
                all == self.content.deep_view(),
                texts.deep_view() == texts_among(all.take(i as int)),
            decreases self.content.len() - i,
        {
            let ghost before = texts.deep_view();
            assert(all.take(i + 1).drop_last() =~= all.take(i as int));
            assert(all[i as int] == self.content@[i as int].deep_view());
            if let ContentBlock::Text { text } = &self.content[i] {
                texts.push(text.clone());
                assert(texts.deep_view() =~= before.push(text@));
            }
            i = i + 1;
        }
        assert(all.take(i as int) =~= all);
        text::join(&texts, "\n")
    }

    /// The tool calls of this message.
    pub fn tool_calls(&self) -> (r: Vec<&ContentBlock>)
        ensures
            r.deep_view() == calls_among(self.deep_view().content),
    {
        let mut calls: Vec<&ContentBlock> = Vec::new();
        let ghost all = self.content.deep_view();
        let mut i: usize = 0;
        while i < self.content.len()
            invariant
                i <= self.content.len(),
                all == self.content.deep_view(),
                calls.deep_view() == calls_among(all.take(i as int)),
            decreases self.content.len() - i,
        {
            let ghost before = calls.deep_view();
            assert(all.take(i + 1).drop_last() =~= all.take(i as int));
            assert(all[i as int] == self.content@[i as int].deep_view());
            if let ContentBlock::ToolCall { .. } = &self.content[i] {
                calls.push(&self.content[i]);
                assert(calls.deep_view() =~= before.push(all[i as int]));
            }
            i = i + 1;
        }
        assert(all.take(i as int) =~= all);
        calls
    }
}

// ─── Conversations ──────────────────────────────────────────────────────────

/// A sequence of messages.
#[derive(Debug, PartialEq)]
pub struct Conversation {
    /// By which the conversation is told from others.
    pub id: String,
    /// Its messages, oldest first.
    pub messages: Vec<Message>,
    /// Further facts about it.
    pub metadata: Table<String>,
}

/// The contents of a [`Conversation`].
#[verifier::ext_equal]
pub struct ConversationView {
    pub id: Seq<char>,
    pub messages: Seq<MessageView>,
    pub metadata: Seq<(Seq<char>, Seq<char>)>,
}

impl DeepView for Conversation {
    type V = ConversationView;

    open spec fn deep_view(&self) -> ConversationView {
        ConversationView {
            id: self.id.deep_view(),
            messages: self.messages.deep_view(),
            metadata: self.metadata.deep_view(),
        }
    }
}

impl Duplicate for Conversation {
    fn duplicate(&self) -> (copy: Self) {
        Conversation {
            id: self.id.duplicate(),
            messages: self.messages.duplicate(),
            metadata: self.metadata.duplicate(),
        }
    }
}

impl Clone for Conversation {
    fn clone(&self) -> (copy: Self)
        ensures
            copy.deep_view() == self.deep_view(),
    {
        self.duplicate()
    }
}

/// A lower-case hexadecimal digit.
pub open spec fn hex_digit(c: char) -> bool {
    ('0' <= c && c <= '9') || ('a' <= c && c <= 'f')
}

/// The hyphenated form of a random UUID.
pub open spec fn uuid_form(id: Seq<char>) -> bool {
    &&& id.len() == 36
    &&& id[8] == '-' && id[13] == '-' && id[18] == '-' && id[23] == '-'
    &&& id[14] == '4'
    &&& forall|i: int|
        0 <= i < 36 && i != 8 && i != 13 && i != 18 && i != 23 ==> hex_digit(#[trigger] id[i])
}

/// `uuid::Uuid::new_v4`, written in its hyphenated form. Which one it is rests
/// on chance; its form does not.
#[verifier::external_body]
fn new_id() -> (id: String)
    ensures
        uuid_form(id@),
{
    Uuid::new_v4().to_string()
}

impl Conversation {
    /// A conversation without messages, under a new id.
    pub fn new() -> (r: Self)
        ensures
            uuid_form(r.id@),
            r.deep_view() == (ConversationView {
                id: r.id@,
                messages: Seq::empty(),
                metadata: Seq::empty(),
            }),
    {
        Conversation::with_id(new_id())
    }

    /// A conversation without messages.
    pub fn with_id(id: String) -> (r: Self)
        ensures
            r.deep_view() == (ConversationView {
                id: id@,
                messages: Seq::empty(),
                metadata: Seq::empty(),
            }),
    {
        Conversation { id, messages: Vec::new(), metadata: Table::new() }
    }

    /// Appends a message.
    pub fn add_message(&mut self, message: Message)
        ensures
            final(self).deep_view() == (ConversationView {
                messages: old(self).deep_view().messages.push(message.deep_view()),
                ..old(self).deep_view()
            }),
    {
        self.messages.push(message);
        assert(self.messages.deep_view() =~= old(self).messages.deep_view().push(
            message.deep_view(),
        ));
    }

    /// The newest message.
    pub fn last_message(&self) -> (r: Option<&Message>)
        ensures
            match r {
                Some(message) => self.messages.len() > 0 && message.deep_view()
                    == self.deep_view().messages.last(),
                None => self.messages.len() == 0,
            },
    {
        if self.messages.len() == 0 {
            None
        } else {
            Some(&self.messages[self.messages.len() - 1])
        }
    }

    /// The number of messages.
    pub fn len(&self) -> (n: usize)
        ensures
            n == self.deep_view().messages.len(),
    {
        self.messages.len()
    }

    /// Whether there are no messages.
    pub fn is_empty(&self) -> (r: bool)
        ensures
            r == (self.deep_view().messages.len() == 0),
    {
        self.messages.len() == 0
    }
}

impl Default for Conversation {
    fn default() -> (r: Self)
        ensures
            uuid_form(r.id@),
            r.deep_view() == (ConversationView {
                id: r.id@,
                messages: Seq::empty(),
                metadata: Seq::empty(),
            }),
    {
        Conversation::new()
    }
}

// ─── Model configuration ────────────────────────────────────────────────────

/// How a model is reached.
#[derive(Debug, Clone, Copy, PartialEq, Eq, Structural)]
pub enum ProviderType {
    /// A cloud API.
    Cloud,
    /// A model server on this machine.
    Local,
    /// The model itself, loaded in the process.
    Transformers,
}

impl DeepView for ProviderType {
    type V = ProviderType;

    open spec fn deep_view(&self) -> ProviderType {
        *self
    }
}

impl Duplicate for ProviderType {
    fn duplicate(&self) -> (copy: Self) {
        *self
    }
}

/// The protocol of a cloud API.
#[derive(Debug, Clone, Copy, PartialEq, Eq, Structural)]
pub enum CloudProviderKind {
    OpenAI,
    Anthropic,
    Gemini,
}

impl DeepView for CloudProviderKind {
    type V = CloudProviderKind;

    open spec fn deep_view(&self) -> CloudProviderKind {
        *self
    }
}

impl Duplicate for CloudProviderKind {
    fn duplicate(&self) -> (copy: Self) {
        *self
    }
}

/// How to connect to a model.
#[derive(Debug, PartialEq)]
pub struct ModelConfig {
    /// How the model is reached.
    pub provider_type: ProviderType,
    /// The protocol, where it is a cloud API.
    pub cloud_kind: Option<CloudProviderKind>,
    /// The key of a cloud API.
    pub api_key: Option<String>,
    /// Where the API is.
    pub base_url: Option<String>,
    /// The port of a local server.
    pub port: Option<u16>,
    /// The name of the model.
    pub model_name: Option<String>,
    /// Where a local model lies.
    pub model_path: Option<String>,
    /// Further settings of the provider.
    pub extra: Table<String>,
}

/// The contents of a [`ModelConfig`].
#[verifier::ext_equal]
pub struct ModelConfigView {
    pub provider_type: ProviderType,
    pub cloud_kind: Option<CloudProviderKind>,
    pub api_key: Option<Seq<char>>,
    pub base_url: Option<Seq<char>>,
    pub port: Option<u16>,
    pub model_name: Option<Seq<char>>,
    pub model_path: Option<Seq<char>>,
    pub extra: Seq<(Seq<char>, Seq<char>)>,
}

impl DeepView for ModelConfig {
    type V = ModelConfigView;

    open spec fn deep_view(&self) -> ModelConfigView {
        ModelConfigView {
            provider_type: self.provider_type,
            cloud_kind: self.cloud_kind.deep_view(),
            api_key: self.api_key.deep_view(),
            base_url: self.base_url.deep_view(),
            port: self.port.deep_view(),
            model_name: self.model_name.deep_view(),
            model_path: self.model_path.deep_view(),
            extra: self.extra.deep_view(),
        }
    }
}

impl Duplicate for ModelConfig {
    fn duplicate(&self) -> (copy: Self) {
        ModelConfig {
            provider_type: self.provider_type,
            cloud_kind: self.cloud_kind.duplicate(),
            api_key: self.api_key.duplicate(),
            base_url: self.base_url.duplicate(),
            port: self.port.duplicate(),
            model_name: self.model_name.duplicate(),
            model_path: self.model_path.duplicate(),
            extra: self.extra.duplicate(),
        }
    }
}

impl Clone for ModelConfig {
    fn clone(&self) -> (copy: Self)
        ensures
            copy.deep_view() == self.deep_view(),
    {
        self.duplicate()
    }
}

/// The configuration in which nothing is set.
pub open spec fn bare_config(provider_type: ProviderType) -> ModelConfigView {
    ModelConfigView {
        provider_type,
        cloud_kind: None,
        api_key: None,
        base_url: None,
        port: None,
        model_name: None,
        model_path: None,
        extra: Seq::empty(),
    }
}

/// The configuration of a cloud API.
pub open spec fn cloud_config(
    kind: CloudProviderKind,
    api_key: Seq<char>,
    base_url: Seq<char>,
    model_name: Seq<char>,
) -> ModelConfigView {
    ModelConfigView {
        cloud_kind: Some(kind),
        api_key: Some(api_key),
        base_url: Some(base_url),
        model_name: Some(model_name),
        ..bare_config(ProviderType::Cloud)
    }
}

/// The configuration of a local server.
pub open spec fn local_config(host: Seq<char>, port: u16, model_name: Seq<char>) -> ModelConfigView {
    ModelConfigView {
        base_url: Some(host),
        port: Some(port),
        model_name: Some(model_name),
        ..bare_config(ProviderType::Local)
    }
}

/// An ASCII decimal digit.
pub open spec fn ascii_digit(c: char) -> bool {
    '0' <= c && c <= '9'
}

/// What follows the last colon of the address begins with a digit.
pub open spec fn names_port(url: Seq<char>) -> bool {
    let n = text::after_last(url, ':') as int;
    0 < n < url.len() && ascii_digit(url[url.len() - n])
}

/// The address to call: the base address with the port, unless it names one.
pub open spec fn url_of(base_url: Option<Seq<char>>, port: Option<u16>) -> Seq<char> {
    match (base_url, port) {
        (Some(url), Some(port)) => if names_port(url) {
            url
        } else {
            url + ":"@ + text::digits(port as nat)
        },
        (Some(url), None) => url,
        (None, Some(port)) => "http://localhost:"@ + text::digits(port as nat),
        (None, None) => Seq::empty(),
    }
}

/// Whether what follows the last colon of the address begins with a digit.
fn has_port(url: &str) -> (r: bool)
    ensures
        r == names_port(url@),
{
    let v = text::chars(url);
    let mut n: usize = 0;
    while n < v.len() && v[v.len() - 1 - n] != ':'
        invariant
            n <= v.len(),
            v@ == url@,
            forall|k: int| v.len() - n <= k < v.len() ==> v@[k] != ':',
        decreases v.len() - n,
    {
        n = n + 1;
    }
    proof {
        text::lemma_after_last(url@, ':', n as int);
    }
    n > 0 && n < v.len() && '0' <= v[v.len() - n] && v[v.len() - n] <= '9'
}

impl ModelConfig {
    /// The OpenAI API.
    pub fn openai(api_key: String, model_name: String) -> (r: Self)
        ensures
            r.deep_view() == cloud_config(
                CloudProviderKind::OpenAI,
                api_key@,
                "https://api.openai.com/v1"@,
                model_name@,
            ),
    {
        ModelConfig::openai_compatible(
            api_key,
            "https://api.openai.com/v1".to_string(),
            model_name,
        )
    }

    /// An API with OpenAI's protocol.
    pub fn openai_compatible(api_key: String, base_url: String, model_name: String) -> (r: Self)
        ensures
            r.deep_view() == cloud_config(
                CloudProviderKind::OpenAI,
                api_key@,
                base_url@,
                model_name@,
            ),
    {
        ModelConfig {
            cloud_kind: Some(CloudProviderKind::OpenAI),
            api_key: Some(api_key),
            base_url: Some(base_url),
            model_name: Some(model_name),
            ..ModelConfig::default()
        }
    }

    /// Anthropic's API.
    pub fn anthropic(api_key: String, model_name: String) -> (r: Self)
        ensures
            r.deep_view() == cloud_config(
                CloudProviderKind::Anthropic,
                api_key@,
                "https://api.anthropic.com/v1"@,
                model_name@,
            ),
    {
        ModelConfig {
            cloud_kind: Some(CloudProviderKind::Anthropic),
            api_key: Some(api_key),
            base_url: Some("https://api.anthropic.com/v1".to_string()),
            model_name: Some(model_name),
            ..ModelConfig::default()
        }
    }

    /// Google's Gemini API.
    pub fn gemini(api_key: String, model_name: String) -> (r: Self)
        ensures
            r.deep_view() == cloud_config(
                CloudProviderKind::Gemini,
                api_key@,
                "https://generativelanguage.googleapis.com/v1beta"@,
                model_name@,
            ),
    {
        ModelConfig {
            cloud_kind: Some(CloudProviderKind::Gemini),
            api_key: Some(api_key),
            base_url: Some("https://generativelanguage.googleapis.com/v1beta".to_string()),
            model_name: Some(model_name),
            ..ModelConfig::default()
        }
    }

    /// An Ollama server on this machine.
    pub fn ollama(model_name: String) -> (r: Self)
        ensures
            r.deep_view() == local_config("http://localhost"@, 11434, model_name@),
    {
        ModelConfig::ollama_custom("http://localhost".to_string(), 11434, model_name)
    }

    /// An Ollama server at another place.
    pub fn ollama_custom(host: String, port: u16, model_name: String) -> (r: Self)
        ensures
            r.deep_view() == local_config(host@, port, model_name@),
    {
        ModelConfig {
            provider_type: ProviderType::Local,
            base_url: Some(host),
            port: Some(port),
            model_name: Some(model_name),
            ..ModelConfig::default()
        }
    }

    /// A model loaded from this machine.
    pub fn transformers(model_path: String) -> (r: Self)
        ensures
            r.deep_view() == (ModelConfigView {
                model_path: Some(model_path@),
                ..bare_config(ProviderType::Transformers)
            }),
    {
        ModelConfig {
            provider_type: ProviderType::Transformers,
            model_path: Some(model_path),
            ..ModelConfig::default()
        }
    }

    /// The address to call.
    pub fn resolved_url(&self) -> (r: String)
        ensures
            r@ == url_of(self.deep_view().base_url, self.deep_view().port),
    {
        match (&self.base_url, &self.port) {
            (Some(url), Some(port)) => {
                if has_port(url.as_str()) {
                    url.clone()
                } else {
                    let mut r = url.clone();
                    r.push_str(":");
                    r.push_str(text::decimal(*port as u64).as_str());
                    r
                }
            },
            (Some(url), None) => url.clone(),
            (None, Some(port)) => {
                text::concat("http://localhost:", text::decimal(*port as u64).as_str())
            },
            (None, None) => String::new(),
        }
    }
}

impl Default for ModelConfig {
    fn default() -> (r: Self)
        ensures
            r.deep_view() == bare_config(ProviderType::Cloud),
    {
        ModelConfig {
            provider_type: ProviderType::Cloud,
            cloud_kind: None,
            api_key: None,
            base_url: None,
            port: None,
            model_name: None,
            model_path: None,
            extra: Table::new(),
        }
    }
}

/// An address that names a port is called as it is.
pub proof fn law_port_is_named_once(url: Seq<char>, port: u16)
    requires
        names_port(url),
    ensures
        url_of(Some(url), Some(port)) == url,
{
}

/// The address that is built from a base address and a port names a port, so
/// that it stays as it is when it is built again.
pub proof fn law_built_url_names_port(url: Seq<char>, port: u16)
    ensures
        names_port(url_of(Some(url), Some(port))),
        names_port(url_of(None, Some(port))),
{
    if !names_port(url) {
        lemma_appended_port(url, port);
    }
    reveal_strlit("http://localhost:");
    reveal_strlit(":");
    let host = "http://localhost:"@.drop_last();
    assert(host + ":"@ =~= "http://localhost:"@);
    lemma_appended_port(host, port);
}

proof fn lemma_appended_port(url: Seq<char>, port: u16)
    ensures
        names_port(url + ":"@ + text::digits(port as nat)),
{
    reveal_strlit(":");
    let tail = text::digits(port as nat);
    lemma_digits(port as nat);
    let whole = url + ":"@ + tail;
    assert forall|k: int| whole.len() - tail.len() <= k < whole.len() implies whole[k] != ':' by {
        assert(whole[k] == tail[k - (whole.len() - tail.len())]);
        assert(ascii_digit(tail[k - (whole.len() - tail.len())]));
    }
    assert(whole[whole.len() - tail.len() - 1] == ':');
    text::lemma_after_last(whole, ':', tail.len() as int);
    assert(whole[whole.len() - tail.len()] == tail[0]);
    assert(ascii_digit(tail[0]));
}

proof fn lemma_digits(n: nat)
    ensures
        text::digits(n).len() > 0,
        forall|k: int| 0 <= k < text::digits(n).len() ==> ascii_digit(#[trigger] text::digits(n)[k]),
    decreases n,
{
    if n >= 10 {
        lemma_digits(n / 10);
    }
}

/// What a model can do.
#[derive(Debug, PartialEq)]
pub struct ModelCapability {
    /// Whether it takes images and files.
    pub supports_multimodal: bool,
    /// Whether it answers piece by piece.
    pub supports_streaming: bool,
    /// Whether it calls tools.
    pub supports_tools: bool,
    /// How many tokens it can look at.
    pub context_window_size: u32,
    /// How many tokens it writes at most.
    pub max_output_tokens: u32,
}

/// The contents of a [`ModelCapability`].
#[verifier::ext_equal]
pub struct ModelCapabilityView {
    pub supports_multimodal: bool,
    pub supports_streaming: bool,
    pub supports_tools: bool,
    pub context_window_size: u32,
    pub max_output_tokens: u32,
}

impl DeepView for ModelCapability {
    type V = ModelCapabilityView;

    open spec fn deep_view(&self) -> ModelCapabilityView {
        ModelCapabilityView {
            supports_multimodal: self.supports_multimodal,
            supports_streaming: self.supports_streaming,
            supports_tools: self.supports_tools,
            context_window_size: self.context_window_size,
            max_output_tokens: self.max_output_tokens,
        }
    }
}

impl Duplicate for ModelCapability {
    fn duplicate(&self) -> (copy: Self) {
        ModelCapability {
            supports_multimodal: self.supports_multimodal,
            supports_streaming: self.supports_streaming,
            supports_tools: self.supports_tools,
            context_window_size: self.context_window_size,
            max_output_tokens: self.max_output_tokens,
        }
    }
}

impl Clone for ModelCapability {
    fn clone(&self) -> (copy: Self)
        ensures
            copy.deep_view() == self.deep_view(),
    {
        self.duplicate()
    }
}

impl ModelCapability {
    /// A model of the GPT-4 class.
    pub fn gpt4_class() -> (r: Self)
        ensures
            r == (ModelCapability {
                supports_multimodal: true,
                supports_streaming: true,
                supports_tools: true,
                context_window_size: 128000,
                max_output_tokens: 4096,
            }),
    {
        ModelCapability {
            supports_multimodal: true,
            supports_streaming: true,
            supports_tools: true,
            context_window_size: 128000,
            max_output_tokens: 4096,
        }
    }

    /// A large model with a long context.
    pub fn claude_class() -> (r: Self)
        ensures
            r == (ModelCapability {
                supports_multimodal: true,
                supports_streaming: true,
                supports_tools: true,
                context_window_size: 200000,
                max_output_tokens: 8192,
            }),
    {
        ModelCapability {
            supports_multimodal: true,
            supports_streaming: true,
            supports_tools: true,
            context_window_size: 200000,
            max_output_tokens: 8192,
        }
    }

    /// A model that takes and gives text alone.
    pub fn basic_text() -> (r: Self)
        ensures
            r == (ModelCapability {
                supports_multimodal: false,
                supports_streaming: true,
                supports_tools: false,
                context_window_size: 4096,
                max_output_tokens: 2048,
            }),
    {
        ModelCapability {
            supports_multimodal: false,
            supports_streaming: true,
            supports_tools: false,
            context_window_size: 4096,
            max_output_tokens: 2048,
        }
    }
}

// ─── Inference ──────────────────────────────────────────────────────────────

/// The tokens that a call of a model used.
#[derive(Debug, PartialEq)]
pub struct TokenUsage {
    pub prompt_tokens: u32,
    pub completion_tokens: u32,
    pub total_tokens: u32,
}

/// The contents of a [`TokenUsage`].
#[verifier::ext_equal]
pub struct TokenUsageView {
    pub prompt_tokens: u32,
    pub completion_tokens: u32,
    pub total_tokens: u32,
}

impl DeepView for TokenUsage {
    type V = TokenUsageView;

    open spec fn deep_view(&self) -> TokenUsageView {
        TokenUsageView {
            prompt_tokens: self.prompt_tokens,
            completion_tokens: self.completion_tokens,
            total_tokens: self.total_tokens,
        }
    }
}

impl Duplicate for TokenUsage {
    fn duplicate(&self) -> (copy: Self) {
        TokenUsage {
            prompt_tokens: self.prompt_tokens,
            completion_tokens: self.completion_tokens,
            total_tokens: self.total_tokens,
        }
    }
}

impl Clone for TokenUsage {
    fn clone(&self) -> (copy: Self)
        ensures
            copy.deep_view() == self.deep_view(),
    {
        self.duplicate()
    }
}

/// A complete answer of a model.
#[derive(Debug)]
pub struct InferenceResponse {
    /// What the assistant said.
    pub message: Message,
    /// The tokens it took.
    pub usage: TokenUsage,
    /// The model that answered.
    pub model: String,
    /// Further facts about it.
    pub metadata: Table<String>,
}

/// The contents of a [`InferenceResponse`].
#[verifier::ext_equal]
pub struct InferenceResponseView {
    pub message: MessageView,
    pub usage: TokenUsageView,
    pub model: Seq<char>,
    pub metadata: Seq<(Seq<char>, Seq<char>)>,
}

impl DeepView for InferenceResponse {
    type V = InferenceResponseView;

    open spec fn deep_view(&self) -> InferenceResponseView {
        InferenceResponseView {
            message: self.message.deep_view(),
            usage: self.usage.deep_view(),
            model: self.model.deep_view(),
            metadata: self.metadata.deep_view(),
        }
    }
}

impl Duplicate for InferenceResponse {
    fn duplicate(&self) -> (copy: Self) {
        InferenceResponse {
            message: self.message.duplicate(),
            usage: self.usage.duplicate(),
            model: self.model.duplicate(),
            metadata: self.metadata.duplicate(),
        }
    }
}

impl Clone for InferenceResponse {
    fn clone(&self) -> (copy: Self)
        ensures
            copy.deep_view() == self.deep_view(),
    {
        self.duplicate()
    }
}

/// A piece of an answer.
#[derive(Debug)]
pub struct InferenceStreamChunk {
    /// The content that came with this piece.
    pub content: Vec<ContentBlock>,
    /// Whether it is the last piece.
    pub is_final: bool,
    /// The tokens, with the last piece.
    pub usage: Option<TokenUsage>,
    /// The model that answers.
    pub model: Option<String>,
}

/// The contents of a [`InferenceStreamChunk`].
#[verifier::ext_equal]
pub struct InferenceStreamChunkView {
    pub content: Seq<ContentBlockView>,
    pub is_final: bool,
    pub usage: Option<TokenUsageView>,
    pub model: Option<Seq<char>>,
}

impl DeepView for InferenceStreamChunk {
    type V = InferenceStreamChunkView;

    open spec fn deep_view(&self) -> InferenceStreamChunkView {
        InferenceStreamChunkView {
            content: self.content.deep_view(),
            is_final: self.is_final,
            usage: self.usage.deep_view(),
            model: self.model.deep_view(),
        }
    }
}

impl Duplicate for InferenceStreamChunk {
    fn duplicate(&self) -> (copy: Self) {
        InferenceStreamChunk {
            content: self.content.duplicate(),
            is_final: self.is_final,
            usage: self.usage.duplicate(),
            model: self.model.duplicate(),
        }
    }
}

impl Clone for InferenceStreamChunk {
    fn clone(&self) -> (copy: Self)
        ensures
            copy.deep_view() == self.deep_view(),
    {
        self.duplicate()
    }
}

/// A tool as the model sees it.
#[derive(Debug, PartialEq)]
pub struct ToolDefinition {
    pub name: String,
    pub description: String,
    /// The JSON schema of its parameters.
    pub parameters_schema: DataValue,
}

/// The contents of a [`ToolDefinition`].
#[verifier::ext_equal]
pub struct ToolDefinitionView {
    pub name: Seq<char>,
    pub description: Seq<char>,
    pub parameters_schema: DataView,
}

impl DeepView for ToolDefinition {
    type V = ToolDefinitionView;

    open spec fn deep_view(&self) -> ToolDefinitionView {
        ToolDefinitionView {
            name: self.name.deep_view(),
            description: self.description.deep_view(),
            parameters_schema: self.parameters_schema.deep_view(),
        }
    }
}

impl Duplicate for ToolDefinition {
    fn duplicate(&self) -> (copy: Self) {
        ToolDefinition {
            name: self.name.duplicate(),
            description: self.description.duplicate(),
            parameters_schema: self.parameters_schema.duplicate(),
        }
    }
}

impl Clone for ToolDefinition {
    fn clone(&self) -> (copy: Self)
        ensures
            copy.deep_view() == self.deep_view(),
    {
        self.duplicate()
    }
}

/// What a tool gave.
#[derive(Debug)]
pub struct ToolOutput {
    /// Whether it succeeded.
    pub success: bool,
    /// Its result.
    pub content: String,
    /// What went wrong, where it failed.
    pub error: Option<String>,
}

/// The contents of a [`ToolOutput`].
#[verifier::ext_equal]
pub struct ToolOutputView {
    pub success: bool,
    pub content: Seq<char>,
    pub error: Option<Seq<char>>,
}

impl DeepView for ToolOutput {
    type V = ToolOutputView;

    open spec fn deep_view(&self) -> ToolOutputView {
        ToolOutputView {
            success: self.success,
            content: self.content.deep_view(),
            error: self.error.deep_view(),
        }
    }
}

impl Duplicate for ToolOutput {
    fn duplicate(&self) -> (copy: Self) {
        ToolOutput {
            success: self.success,
            content: self.content.duplicate(),
            error: self.error.duplicate(),
        }
    }
}

impl Clone for ToolOutput {
    fn clone(&self) -> (copy: Self)
        ensures
            copy.deep_view() == self.deep_view(),
    {
        self.duplicate()
    }
}

/// How the output of a model is constrained.
#[derive(Debug, Clone, Copy, PartialEq, Eq, Structural)]
pub enum ConstrainedMode {
    BnfGrammar,
    JsonSchema,
    Regex,
}

impl DeepView for ConstrainedMode {
    type V = ConstrainedMode;

    open spec fn deep_view(&self) -> ConstrainedMode {
        *self
    }
}

impl Duplicate for ConstrainedMode {
    fn duplicate(&self) -> (copy: Self) {
        *self
    }
}

/// Which layer of the parser understood the output.
#[derive(Debug, Clone, Copy, PartialEq, Eq, Structural)]
pub enum ParsingLayer {
    /// The output was correct when it was written.
    ConstrainedDecoding,
    /// The output was repaired.
    FuzzyRepair,
    /// The model corrected it.
    FallbackSelfCorrection,
}

impl DeepView for ParsingLayer {
    type V = ParsingLayer;

    open spec fn deep_view(&self) -> ParsingLayer {
        *self
    }
}

impl Duplicate for ParsingLayer {
    fn duplicate(&self) -> (copy: Self) {
        *self
    }
}

/// The output of a model, understood.
#[derive(Debug)]
pub struct ParsedOutput {
    pub content: Vec<ContentBlock>,
    pub parsing_layer: ParsingLayer,
    /// How often the model was asked again.
    pub fallback_retries: usize,
}

/// The contents of a [`ParsedOutput`].
#[verifier::ext_equal]
pub struct ParsedOutputView {
    pub content: Seq<ContentBlockView>,
    pub parsing_layer: ParsingLayer,
    pub fallback_retries: usize,
}

impl DeepView for ParsedOutput {
    type V = ParsedOutputView;

    open spec fn deep_view(&self) -> ParsedOutputView {
        ParsedOutputView {
            content: self.content.deep_view(),
            parsing_layer: self.parsing_layer,
            fallback_retries: self.fallback_retries,
        }
    }
}

impl Duplicate for ParsedOutput {
    fn duplicate(&self) -> (copy: Self) {
        ParsedOutput {
            content: self.content.duplicate(),
            parsing_layer: self.parsing_layer,
            fallback_retries: self.fallback_retries,
        }
    }
}

impl Clone for ParsedOutput {
    fn clone(&self) -> (copy: Self)
        ensures
            copy.deep_view() == self.deep_view(),
    {
        self.duplicate()
    }
}

/// The form that the final output of a model must have.
#[derive(Debug, PartialEq)]
pub struct StructuredOutputConfig {
    /// The JSON schema of the output.
    pub schema: DataValue,
    /// How often the model may be asked again.
    pub max_retries: usize,
    /// Whether it is asked again at all.
    pub re_prompt_on_failure: bool,
    /// What it is told then.
    pub error_prompt_template: Option<String>,
}

/// The contents of a [`StructuredOutputConfig`].
#[verifier::ext_equal]
pub struct StructuredOutputConfigView {
    pub schema: DataView,
    pub max_retries: usize,
    pub re_prompt_on_failure: bool,
    pub error_prompt_template: Option<Seq<char>>,
}

impl DeepView for StructuredOutputConfig {
    type V = StructuredOutputConfigView;

    open spec fn deep_view(&self) -> StructuredOutputConfigView {
        StructuredOutputConfigView {
            schema: self.schema.deep_view(),
            max_retries: self.max_retries,
            re_prompt_on_failure: self.re_prompt_on_failure,
            error_prompt_template: self.error_prompt_template.deep_view(),
        }
    }
}

impl Duplicate for StructuredOutputConfig {
    fn duplicate(&self) -> (copy: Self) {
        StructuredOutputConfig {
            schema: self.schema.duplicate(),
            max_retries: self.max_retries,
            re_prompt_on_failure: self.re_prompt_on_failure,
            error_prompt_template: self.error_prompt_template.duplicate(),
        }
    }
}

impl Clone for StructuredOutputConfig {
    fn clone(&self) -> (copy: Self)
        ensures
            copy.deep_view() == self.deep_view(),
    {
        self.duplicate()
    }
}

// ─── Permissions ────────────────────────────────────────────────────────────

/// How risky a tool is.
#[derive(Debug, Clone, Copy, PartialEq, Eq, Structural)]
pub enum RiskLevel {
    Low,
    Medium,
    High,
}

impl DeepView for RiskLevel {
    type V = RiskLevel;

    open spec fn deep_view(&self) -> RiskLevel {
        *self
    }
}

impl Duplicate for RiskLevel {
    fn duplicate(&self) -> (copy: Self) {
        *self
    }
}

/// What a tool may do.
#[derive(Debug, Clone, Copy, PartialEq, Eq, Structural)]
pub enum PermissionLevel {
    /// Look, and change nothing.
    Read,
    /// Change things within bounds.
    Standard,
    /// Change anything.
    Full,
}

impl DeepView for PermissionLevel {
    type V = PermissionLevel;

    open spec fn deep_view(&self) -> PermissionLevel {
        *self
    }
}

impl Duplicate for PermissionLevel {
    fn duplicate(&self) -> (copy: Self) {
        *self
    }
}

impl PermissionLevel {
    /// The place of this level in the order `Read`, `Standard`, `Full`.
    pub open spec fn rank(self) -> int {
        match self {
            PermissionLevel::Read => 0,
            PermissionLevel::Standard => 1,
            PermissionLevel::Full => 2,
        }
    }

    /// A tool of this level runs without asking, up to the threshold.
    pub open spec fn auto_approved(self, threshold: PermissionLevel) -> bool {
        self.rank() <= threshold.rank()
    }

    /// The level of a tool with this risk.
    pub open spec fn of_risk(risk: RiskLevel) -> PermissionLevel {
        match risk {
            RiskLevel::Low => PermissionLevel::Read,
            RiskLevel::Medium => PermissionLevel::Standard,
            RiskLevel::High => PermissionLevel::Full,
        }
    }

    /// The risk of a tool with this level.
    pub open spec fn risk(self) -> RiskLevel {
        match self {
            PermissionLevel::Read => RiskLevel::Low,
            PermissionLevel::Standard => RiskLevel::Medium,
            PermissionLevel::Full => RiskLevel::High,
        }
    }

    /// The level of a tool with this risk.
    pub fn from_risk_level(risk: RiskLevel) -> (r: Self)
        ensures
            r == PermissionLevel::of_risk(risk),
    {
        match risk {
            RiskLevel::Low => PermissionLevel::Read,
            RiskLevel::Medium => PermissionLevel::Standard,
            RiskLevel::High => PermissionLevel::Full,
        }
    }

    /// The risk of a tool with this level.
    pub fn to_risk_level(self) -> (r: RiskLevel)
        ensures
            r == self.risk(),
    {
        match self {
            PermissionLevel::Read => RiskLevel::Low,
            PermissionLevel::Standard => RiskLevel::Medium,
            PermissionLevel::Full => RiskLevel::High,
        }
    }

    /// Whether a tool of this level runs without asking: it does up to the
    /// threshold.
    pub fn should_auto_approve(&self, threshold: &PermissionLevel) -> (r: bool)
        ensures
            r == self.auto_approved(*threshold),
    {
        match (self, threshold) {
            (PermissionLevel::Read, _) => true,
            (PermissionLevel::Standard, PermissionLevel::Read) => false,
            (PermissionLevel::Standard, _) => true,
            (PermissionLevel::Full, PermissionLevel::Full) => true,
            (PermissionLevel::Full, _) => false,
        }
    }
}

/// Risks and levels stand for each other.
pub proof fn law_risk_round_trip(risk: RiskLevel, level: PermissionLevel)
    ensures
        PermissionLevel::of_risk(risk).risk() == risk,
        PermissionLevel::of_risk(level.risk()) == level,
{
}

/// What runs without asking under a threshold does so under a higher one, and
/// so does every lower level.
pub proof fn law_auto_approve_is_monotone(
    level: PermissionLevel,
    lower: PermissionLevel,
    threshold: PermissionLevel,
    higher: PermissionLevel,
)
    requires
        level.auto_approved(threshold),
        lower.rank() <= level.rank(),
        threshold.rank() <= higher.rank(),
    ensures
        level.auto_approved(higher),
        lower.auto_approved(threshold),
{
}

/// When the user is asked about a command.
#[derive(Debug, Clone, Copy, PartialEq, Eq, Structural)]
pub enum ApprovalPolicy {
    /// Never.
    Never,
    /// When it is not clear whether the command is safe.
    OnFailure,
    /// When it runs outside the trusted directories.
    OnUntrustedDir,
    /// Always.
    OnRequest,
}

impl DeepView for ApprovalPolicy {
    type V = ApprovalPolicy;

    open spec fn deep_view(&self) -> ApprovalPolicy {
        *self
    }
}

impl Duplicate for ApprovalPolicy {
    fn duplicate(&self) -> (copy: Self) {
        *self
    }
}

/// What is to be done about a tool call.
#[derive(Debug, PartialEq)]
pub enum PermissionAction {
    /// Refuse it.
    Deny { reason: String },
    /// Run it without asking.
    AutoApprove,
    /// Ask the user.
    RequireConfirmation,
    /// Go by the level.
    UseDefaultPermission { level: PermissionLevel },
}

/// The contents of a [`PermissionAction`].
#[verifier::ext_equal]
pub enum PermissionActionView {
    Deny { reason: Seq<char> },
    AutoApprove,
    RequireConfirmation,
    UseDefaultPermission { level: PermissionLevel },
}

impl DeepView for PermissionAction {
    type V = PermissionActionView;

    open spec fn deep_view(&self) -> PermissionActionView {
        match self {
            PermissionAction::Deny { reason } => PermissionActionView::Deny { reason: reason.deep_view() },
            PermissionAction::AutoApprove => PermissionActionView::AutoApprove,
            PermissionAction::RequireConfirmation => PermissionActionView::RequireConfirmation,
            PermissionAction::UseDefaultPermission { level } => PermissionActionView::UseDefaultPermission { level: *level },
        }
    }
}

impl Duplicate for PermissionAction {
    fn duplicate(&self) -> (copy: Self) {
        match self {
            PermissionAction::Deny { reason } => PermissionAction::Deny { reason: reason.duplicate() },
            PermissionAction::AutoApprove => PermissionAction::AutoApprove,
            PermissionAction::RequireConfirmation => PermissionAction::RequireConfirmation,
            PermissionAction::UseDefaultPermission { level } => PermissionAction::UseDefaultPermission { level: *level },
        }
    }
}

impl Clone for PermissionAction {
    fn clone(&self) -> (copy: Self)
        ensures
            copy.deep_view() == self.deep_view(),
    {
        self.duplicate()
    }
}

// ─── Approval, hooks, interrupts and retries ────────────────────────────────

/// A tool call that a person is asked about.
#[derive(Debug, PartialEq)]
pub struct ApprovalRequest {
    /// The tool.
    pub tool_name: String,
    /// The arguments.
    pub args: DataValue,
    /// The risk.
    pub risk_level: RiskLevel,
    /// The level, where it is given.
    pub permission_level: Option<PermissionLevel>,
    /// Why the tool is to be called.
    pub justification: String,
}

/// The contents of a [`ApprovalRequest`].
#[verifier::ext_equal]
pub struct ApprovalRequestView {
    pub tool_name: Seq<char>,
    pub args: DataView,
    pub risk_level: RiskLevel,
    pub permission_level: Option<PermissionLevel>,
    pub justification: Seq<char>,
}

impl DeepView for ApprovalRequest {
    type V = ApprovalRequestView;

    open spec fn deep_view(&self) -> ApprovalRequestView {
        ApprovalRequestView {
            tool_name: self.tool_name.deep_view(),
            args: self.args.deep_view(),
            risk_level: self.risk_level,
            permission_level: self.permission_level.deep_view(),
            justification: self.justification.deep_view(),
        }
    }
}

impl Duplicate for ApprovalRequest {
    fn duplicate(&self) -> (copy: Self) {
        ApprovalRequest {
            tool_name: self.tool_name.duplicate(),
            args: self.args.duplicate(),
            risk_level: self.risk_level,
            permission_level: self.permission_level.duplicate(),
            justification: self.justification.duplicate(),
        }
    }
}

impl Clone for ApprovalRequest {
    fn clone(&self) -> (copy: Self)
        ensures
            copy.deep_view() == self.deep_view(),
    {
        self.duplicate()
    }
}

/// What the person answers.
#[derive(Debug, PartialEq)]
pub enum ApprovalResponse {
    /// The call may run, with other arguments where they are given.
    Approved { modified_args: Option<DataValue> },
    /// The call may not run.
    Denied { reason: String },
    /// The call may run with these arguments.
    Modified { args: DataValue },
    /// The person wants to look on first.
    Observe { observation: String },
}

/// The contents of a [`ApprovalResponse`].
#[verifier::ext_equal]
pub enum ApprovalResponseView {
    Approved { modified_args: Option<DataView> },
    Denied { reason: Seq<char> },
    Modified { args: DataView },
    Observe { observation: Seq<char> },
}

impl DeepView for ApprovalResponse {
    type V = ApprovalResponseView;

    open spec fn deep_view(&self) -> ApprovalResponseView {
        match self {
            ApprovalResponse::Approved { modified_args } => ApprovalResponseView::Approved {
                modified_args: modified_args.deep_view()
            },
            ApprovalResponse::Denied { reason } => ApprovalResponseView::Denied { reason: reason.deep_view() },
            ApprovalResponse::Modified { args } => ApprovalResponseView::Modified { args: args.deep_view() },
            ApprovalResponse::Observe { observation } => ApprovalResponseView::Observe {
                observation: observation.deep_view()
            },
        }
    }
}

impl Duplicate for ApprovalResponse {
    fn duplicate(&self) -> (copy: Self) {
        match self {
            ApprovalResponse::Approved { modified_args } => ApprovalResponse::Approved {
                modified_args: modified_args.duplicate()
            },
            ApprovalResponse::Denied { reason } => ApprovalResponse::Denied { reason: reason.duplicate() },
            ApprovalResponse::Modified { args } => ApprovalResponse::Modified { args: args.duplicate() },
            ApprovalResponse::Observe { observation } => ApprovalResponse::Observe {
                observation: observation.duplicate()
            },
        }
    }
}

impl Clone for ApprovalResponse {
    fn clone(&self) -> (copy: Self)
        ensures
            copy.deep_view() == self.deep_view(),
    {
        self.duplicate()
    }
}

/// The shape that the output of a model is held to while it is made.
#[derive(Debug, PartialEq)]
pub struct ConstrainedOutputConfig {
    /// The JSON Schema of the output.
    pub schema: DataValue,
    /// How the model is held to it.
    pub mode: ConstrainedMode,
}

/// The contents of a [`ConstrainedOutputConfig`].
#[verifier::ext_equal]
pub struct ConstrainedOutputConfigView {
    pub schema: DataView,
    pub mode: ConstrainedMode,
}

impl DeepView for ConstrainedOutputConfig {
    type V = ConstrainedOutputConfigView;

    open spec fn deep_view(&self) -> ConstrainedOutputConfigView {
        ConstrainedOutputConfigView {
            schema: self.schema.deep_view(),
            mode: self.mode,
        }
    }
}

impl Duplicate for ConstrainedOutputConfig {
    fn duplicate(&self) -> (copy: Self) {
        ConstrainedOutputConfig {
            schema: self.schema.duplicate(),
            mode: self.mode,
        }
    }
}

impl Clone for ConstrainedOutputConfig {
    fn clone(&self) -> (copy: Self)
        ensures
            copy.deep_view() == self.deep_view(),
    {
        self.duplicate()
    }
}

/// What a hook decides.
#[derive(Debug, PartialEq)]
pub enum HookResult {
    /// Go on.
    Allow,
    /// Do not go on.
    Deny { reason: String },
    /// Go on with these arguments.
    Modify { modified_args: DataValue },
}

/// The contents of a [`HookResult`].
#[verifier::ext_equal]
pub enum HookResultView {
    Allow,
    Deny { reason: Seq<char> },
    Modify { modified_args: DataView },
}

impl DeepView for HookResult {
    type V = HookResultView;

    open spec fn deep_view(&self) -> HookResultView {
        match self {
            HookResult::Allow => HookResultView::Allow,
            HookResult::Deny { reason } => HookResultView::Deny { reason: reason.deep_view() },
            HookResult::Modify { modified_args } => HookResultView::Modify {
                modified_args: modified_args.deep_view()
            },
        }
    }
}

impl Duplicate for HookResult {
    fn duplicate(&self) -> (copy: Self) {
        match self {
            HookResult::Allow => HookResult::Allow,
            HookResult::Deny { reason } => HookResult::Deny { reason: reason.duplicate() },
            HookResult::Modify { modified_args } => HookResult::Modify {
                modified_args: modified_args.duplicate()
            },
        }
    }
}

impl Clone for HookResult {
    fn clone(&self) -> (copy: Self)
        ensures
            copy.deep_view() == self.deep_view(),
    {
        self.duplicate()
    }
}

/// Why a session stopped for a person.
#[derive(Debug, PartialEq)]
pub enum InterruptReason {
    /// A call is to be approved.
    HumanApprovalNeeded { tool_name: String, args: DataValue },
    /// The agent asks a question.
    HumanFeedbackRequested { question: String },
    /// The way of working changes.
    ParadigmBoundary { from: String, to: String },
    /// Another reason.
    Custom { reason: String },
}

/// The contents of a [`InterruptReason`].
#[verifier::ext_equal]
pub enum InterruptReasonView {
    HumanApprovalNeeded { tool_name: Seq<char>, args: DataView },
    HumanFeedbackRequested { question: Seq<char> },
    ParadigmBoundary { from: Seq<char>, to: Seq<char> },
    Custom { reason: Seq<char> },
}

impl DeepView for InterruptReason {
    type V = InterruptReasonView;

    open spec fn deep_view(&self) -> InterruptReasonView {
        match self {
            InterruptReason::HumanApprovalNeeded { tool_name, args } => InterruptReasonView::HumanApprovalNeeded {
                tool_name: tool_name.deep_view(),
                args: args.deep_view(),
            },
            InterruptReason::HumanFeedbackRequested { question } => InterruptReasonView::HumanFeedbackRequested {
                question: question.deep_view()
            },
            InterruptReason::ParadigmBoundary { from, to } => InterruptReasonView::ParadigmBoundary {
                from: from.deep_view(),
                to: to.deep_view(),
            },
            InterruptReason::Custom { reason } => InterruptReasonView::Custom { reason: reason.deep_view() },
        }
    }
}

impl Duplicate for InterruptReason {
    fn duplicate(&self) -> (copy: Self) {
        match self {
            InterruptReason::HumanApprovalNeeded { tool_name, args } => InterruptReason::HumanApprovalNeeded {
                tool_name: tool_name.duplicate(),
                args: args.duplicate(),
            },
            InterruptReason::HumanFeedbackRequested { question } => InterruptReason::HumanFeedbackRequested {
                question: question.duplicate()
            },
            InterruptReason::ParadigmBoundary { from, to } => InterruptReason::ParadigmBoundary {
                from: from.duplicate(),
                to: to.duplicate(),
            },
            InterruptReason::Custom { reason } => InterruptReason::Custom { reason: reason.duplicate() },
        }
    }
}

impl Clone for InterruptReason {
    fn clone(&self) -> (copy: Self)
        ensures
            copy.deep_view() == self.deep_view(),
    {
        self.duplicate()
    }
}

/// Where a session stopped for a person.
#[derive(Debug, PartialEq)]
pub struct InterruptPoint {
    /// The name by which the session goes on.
    pub id: String,
    /// The iteration.
    pub iteration: usize,
    /// Why it stopped.
    pub reason: InterruptReason,
    /// The checkpoint to go on from, where there is one.
    pub checkpoint_id: Option<String>,
}

/// The contents of a [`InterruptPoint`].
#[verifier::ext_equal]
pub struct InterruptPointView {
    pub id: Seq<char>,
    pub iteration: usize,
    pub reason: InterruptReasonView,
    pub checkpoint_id: Option<Seq<char>>,
}

impl DeepView for InterruptPoint {
    type V = InterruptPointView;

    open spec fn deep_view(&self) -> InterruptPointView {
        InterruptPointView {
            id: self.id.deep_view(),
            iteration: self.iteration,
            reason: self.reason.deep_view(),
            checkpoint_id: self.checkpoint_id.deep_view(),
        }
    }
}

impl Duplicate for InterruptPoint {
    fn duplicate(&self) -> (copy: Self) {
        InterruptPoint {
            id: self.id.duplicate(),
            iteration: self.iteration,
            reason: self.reason.duplicate(),
            checkpoint_id: self.checkpoint_id.duplicate(),
        }
    }
}

impl Clone for InterruptPoint {
    fn clone(&self) -> (copy: Self)
        ensures
            copy.deep_view() == self.deep_view(),
    {
        self.duplicate()
    }
}

/// How a session goes on.
#[derive(Debug, PartialEq)]
pub enum ResumeAction {
    /// As planned.
    Continue,
    /// In another way.
    Modify { modified_args: Option<DataValue> },
    /// Not at all.
    Stop,
}

/// The contents of a [`ResumeAction`].
#[verifier::ext_equal]
pub enum ResumeActionView {
    Continue,
    Modify { modified_args: Option<DataView> },
    Stop,
}

impl DeepView for ResumeAction {
    type V = ResumeActionView;

    open spec fn deep_view(&self) -> ResumeActionView {
        match self {
            ResumeAction::Continue => ResumeActionView::Continue,
            ResumeAction::Modify { modified_args } => ResumeActionView::Modify {
                modified_args: modified_args.deep_view()
            },
            ResumeAction::Stop => ResumeActionView::Stop,
        }
    }
}

impl Duplicate for ResumeAction {
    fn duplicate(&self) -> (copy: Self) {
        match self {
            ResumeAction::Continue => ResumeAction::Continue,
            ResumeAction::Modify { modified_args } => ResumeAction::Modify {
                modified_args: modified_args.duplicate()
            },
            ResumeAction::Stop => ResumeAction::Stop,
        }
    }
}

impl Clone for ResumeAction {
    fn clone(&self) -> (copy: Self)
        ensures
            copy.deep_view() == self.deep_view(),
    {
        self.duplicate()
    }
}

/// What a person says for a session to go on.
#[derive(Debug, PartialEq)]
pub struct ResumeSignal {
    /// Where the session stopped.
    pub interrupt_id: String,
    /// What the agent is told.
    pub feedback: String,
    /// How the session goes on.
    pub action: ResumeAction,
}

/// The contents of a [`ResumeSignal`].
#[verifier::ext_equal]
pub struct ResumeSignalView {
    pub interrupt_id: Seq<char>,
    pub feedback: Seq<char>,
    pub action: ResumeActionView,
}

impl DeepView for ResumeSignal {
    type V = ResumeSignalView;

    open spec fn deep_view(&self) -> ResumeSignalView {
        ResumeSignalView {
            interrupt_id: self.interrupt_id.deep_view(),
            feedback: self.feedback.deep_view(),
            action: self.action.deep_view(),
        }
    }
}

impl Duplicate for ResumeSignal {
    fn duplicate(&self) -> (copy: Self) {
        ResumeSignal {
            interrupt_id: self.interrupt_id.duplicate(),
            feedback: self.feedback.duplicate(),
            action: self.action.duplicate(),
        }
    }
}

impl Clone for ResumeSignal {
    fn clone(&self) -> (copy: Self)
        ensures
            copy.deep_view() == self.deep_view(),
    {
        self.duplicate()
    }
}

/// An output that has to be made again.
#[derive(Debug, PartialEq)]
pub struct ModelRetry {
    /// What was wrong with it.
    pub error_message: String,
    /// How often it was made again.
    pub retry_count: usize,
    /// The JSON Schema that it was held to.
    pub expected_schema: DataValue,
    /// The output.
    pub failed_output: String,
}

/// The contents of a [`ModelRetry`].
#[verifier::ext_equal]
pub struct ModelRetryView {
    pub error_message: Seq<char>,
    pub retry_count: usize,
    pub expected_schema: DataView,
    pub failed_output: Seq<char>,
}

impl DeepView for ModelRetry {
    type V = ModelRetryView;

    open spec fn deep_view(&self) -> ModelRetryView {
        ModelRetryView {
            error_message: self.error_message.deep_view(),
            retry_count: self.retry_count,
            expected_schema: self.expected_schema.deep_view(),
            failed_output: self.failed_output.deep_view(),
        }
    }
}

impl Duplicate for ModelRetry {
    fn duplicate(&self) -> (copy: Self) {
        ModelRetry {
            error_message: self.error_message.duplicate(),
            retry_count: self.retry_count,
            expected_schema: self.expected_schema.duplicate(),
            failed_output: self.failed_output.duplicate(),
        }
    }
}

impl Clone for ModelRetry {
    fn clone(&self) -> (copy: Self)
        ensures
            copy.deep_view() == self.deep_view(),
    {
        self.duplicate()
    }
}

// ─── Search and hooks ───────────────────────────────────────────────────────

/// How skills and memories are selected.
#[derive(Debug, Clone, Copy, PartialEq, Eq, Structural)]
pub enum SelectionMode {
    KeywordMatch,
    VectorSimilarity,
    Hybrid,
}

impl DeepView for SelectionMode {
    type V = SelectionMode;

    open spec fn deep_view(&self) -> SelectionMode {
        *self
    }
}

impl Duplicate for SelectionMode {
    fn duplicate(&self) -> (copy: Self) {
        *self
    }
}

/// A point in the life of an agent's loop at which hooks run.
#[derive(Debug, Clone, Copy, PartialEq, Eq, Structural)]
pub enum HookPoint {
    PreToolUse,
    PostToolUse,
    PreInfer,
    PostInfer,
    PreCheckpoint,
    Notification,
    Stop,
}

impl DeepView for HookPoint {
    type V = HookPoint;

    open spec fn deep_view(&self) -> HookPoint {
        *self
    }
}

impl Duplicate for HookPoint {
    fn duplicate(&self) -> (copy: Self) {
        *self
    }
}

/// How a tool shows to the model: as the domain resolved it, and as the tool itself
/// says where the domain resolves nothing.
pub fn effective_exposure<E>(resolved: Option<E>, own: E) -> (r: E)
    ensures
        r == match resolved {
            Some(exposure) => exposure,
            None => own,
        },
{
    match resolved {
        Some(exposure) => exposure,
        None => own,
    }
}

/// `text` holds `keyword`, whatever the case of the letters.
pub open spec fn holds_keyword(text: Seq<char>, keyword: Seq<char>) -> bool {
    text::occurs(text::in_lower_case(text), text::in_lower_case(keyword))
}

/// Whether `text` holds `keyword`, whatever the case of the letters.
pub fn keyword_matches(text: &str, keyword: &str) -> (r: bool)
    ensures
        r == holds_keyword(text@, keyword@),
        vstd::utf8::is_ascii_chars(text@) && vstd::utf8::is_ascii_chars(keyword@) ==> r
            == text::occurs(text::ascii_lowered(text@), text::ascii_lowered(keyword@)),
{
    let haystack = text::lower(text);
    let needle = text::lower(keyword);
    text::contains(haystack.as_str(), needle.as_str())
}

/// In ASCII texts the case of the letters makes no difference to a keyword, and a
/// longer text keeps the keywords of its parts.
pub proof fn law_keywords_are_kept(
    text: Seq<char>,
    keyword: Seq<char>,
    before: Seq<char>,
    after: Seq<char>,
)
    requires
        vstd::utf8::is_ascii_chars(text),
        vstd::utf8::is_ascii_chars(keyword),
        vstd::utf8::is_ascii_chars(before),
        vstd::utf8::is_ascii_chars(after),
    ensures
        holds_keyword(text, keyword) == text::occurs(
            text::ascii_lowered(text),
            text::ascii_lowered(keyword),
        ),
        holds_keyword(text, keyword) == holds_keyword(
            text::ascii_uppered(text),
            text::ascii_lowered(keyword),
        ),
        holds_keyword(text, keyword) == holds_keyword(
            text::ascii_lowered(text),
            text::ascii_uppered(keyword),
        ),
        holds_keyword(text, keyword) ==> holds_keyword(before + text + after, keyword),
{
    text::lemma_lowered_any_case(text);
    text::lemma_lowered_any_case(keyword);
    let whole = before + text + after;
    assert(vstd::utf8::is_ascii_chars(whole));
    assert(text::ascii_lowered(whole) =~= text::ascii_lowered(before) + text::ascii_lowered(text)
        + text::ascii_lowered(after));
    text::lemma_occurs_inside(
        text::ascii_lowered(before),
        text::ascii_lowered(text),
        text::ascii_lowered(after),
    );
    if holds_keyword(text, keyword) {
        text::lemma_occurs_through(
            text::ascii_lowered(whole),
            text::ascii_lowered(text),
            text::ascii_lowered(keyword),
        );
    }
}

/// Every text holds the empty keyword.
pub proof fn law_empty_keyword_is_held(text: Seq<char>)
    ensures
        holds_keyword(text, Seq::empty()),
{
    let whole = text::in_lower_case(text);
    let keyword = text::in_lower_case(Seq::empty());
    assert(keyword =~= Seq::empty());
    assert(whole.subrange(0, 0) =~= keyword);
    assert(text::stands_at(whole, keyword, 0));
}

/// The three levels stand for the three risks, from the lowest to the highest, and a tool
/// runs without asking exactly where its level is no higher than the threshold.
pub proof fn law_levels_stand_for_risks(level: PermissionLevel, threshold: PermissionLevel)
    ensures
        level.risk() == RiskLevel::Low <==> level == PermissionLevel::Read,
        level.risk() == RiskLevel::Medium <==> level == PermissionLevel::Standard,
        level.risk() == RiskLevel::High <==> level == PermissionLevel::Full,
        level.auto_approved(PermissionLevel::Full),
        PermissionLevel::Read.auto_approved(threshold),
        level.auto_approved(PermissionLevel::Read) <==> level == PermissionLevel::Read,
        level.auto_approved(PermissionLevel::Standard) <==> level != PermissionLevel::Full,
{
}

/// A piece that is added to a message adds its text to the texts where it is one, its call
/// to the calls where it is one, and else nothing to either.
pub proof fn law_pieces_are_told_apart(content: Seq<ContentBlockView>, piece: ContentBlockView)
    ensures
        texts_among(Seq::empty()).len() == 0,
        calls_among(Seq::empty()).len() == 0,
        piece matches ContentBlockView::Text { text } ==> texts_among(content.push(piece))
            == texts_among(content).push(text),
        !(piece is Text) ==> texts_among(content.push(piece)) == texts_among(content),
        piece is ToolCall ==> calls_among(content.push(piece)) == calls_among(content).push(piece),
        !(piece is ToolCall) ==> calls_among(content.push(piece)) == calls_among(content),
{
    assert(content.push(piece).drop_last() =~= content);
}

/// A message with one text has it as its only text, and calls no tool.
pub proof fn law_message_has_its_text(role: Role, text: Seq<char>)
    ensures
        text_message(role, text).role == role,
        texts_among(text_message(role, text).content) == seq![text],
        calls_among(text_message(role, text).content).len() == 0,
        text_message(role, text).metadata.len() == 0,
{
    let content = text_message(role, text).content;
    assert(content.drop_last() =~= Seq::<ContentBlockView>::empty());
    assert(texts_among(content.drop_last()) =~= Seq::<Seq<char>>::empty());
    assert(texts_among(content) =~= seq![text]);
    assert(calls_among(content.drop_last()).len() == 0);
    assert(!(content.last() is ToolCall));
}

/// The address to call begins with the base address; the port follows it, behind a colon,
/// where there is one that the address does not name, and nothing does where there is none.
/// Without a base address the machine itself is called.
pub proof fn law_address_and_port(url: Seq<char>, port: u16)
    ensures
        url.is_prefix_of(url_of(Some(url), Some(port))),
        !names_port(url) ==> url_of(Some(url), Some(port)).skip(url.len() as int) == ":"@
            + text::digits(port as nat),
        url_of(Some(url), None) == url,
        !names_port("http://localhost"@) && url_of(None, Some(port)) == url_of(
            Some("http://localhost"@),
            Some(port),
        ),
        url_of(None, None).len() == 0,
{
    let built = url_of(Some(url), Some(port));
    assert(built.take(url.len() as int) =~= url);
    if !names_port(url) {
        assert(built.skip(url.len() as int) =~= ":"@ + text::digits(port as nat));
    }
    let host = "http://localhost"@;
    reveal_strlit("http://localhost");
    reveal_strlit("http://localhost:");
    reveal_strlit(":");
    text::lemma_after_last(host, ':', 11);
    assert(host + ":"@ =~= "http://localhost:"@);
}

/// An address names a port exactly where a digit follows its last colon.
pub proof fn law_address_names_port(host: Seq<char>, rest: Seq<char>)
    requires
        !rest.contains(':'),
        rest.len() > 0,
    ensures
        names_port(host + seq![':'] + rest) <==> '0' <= rest[0] && rest[0] <= '9',
        !names_port(rest),
{
    let url = host + seq![':'] + rest;
    assert forall|k: int| url.len() - rest.len() <= k < url.len() implies url[k] != ':' by {
        assert(url[k] == rest[k - host.len() - 1]);
        assert(rest.contains(rest[k - host.len() - 1]));
    }
    text::lemma_after_last(url, ':', rest.len() as int);
    assert(url[url.len() - rest.len()] == rest[0]);
    assert forall|k: int| 0 <= k < rest.len() implies rest[k] != ':' by {
        assert(rest.contains(rest[k]));
    }
    text::lemma_after_last(rest, ':', rest.len() as int);
}

/// What the configurations of the providers hold, and that all else is left open.
pub proof fn law_configs_hold_what_was_given(
    kind: CloudProviderKind,
    key: Seq<char>,
    url: Seq<char>,
    port: u16,
    model: Seq<char>,
)
    ensures
        ({
            let cloud = cloud_config(kind, key, url, model);
            let local = local_config(url, port, model);
            &&& cloud.provider_type == ProviderType::Cloud
            &&& cloud.cloud_kind == Some(kind)
            &&& cloud.api_key == Some(key)
            &&& cloud.base_url == Some(url)
            &&& cloud.model_name == Some(model)
            &&& cloud.port is None && cloud.model_path is None && cloud.extra.len() == 0
            &&& local.provider_type == ProviderType::Local
            &&& local.base_url == Some(url)
            &&& local.port == Some(port)
            &&& local.model_name == Some(model)
            &&& local.cloud_kind is None && local.api_key is None && local.model_path is None
            &&& local.extra.len() == 0
        }),
{
}

} // verus!
