//! Models that turn texts into vectors, and how to reach them.

use vstd::prelude::*;
use crate::duplicate::Duplicate;
use crate::text;

verus! {

// ─── EmbeddingModel ─────────────────────────────────────────────────────────

/// An embedding model, by its name.
#[derive(Debug, PartialEq, Eq, Hash)]
pub struct EmbeddingModel(pub String);

impl DeepView for EmbeddingModel {
    type V = Seq<char>;

    open spec fn deep_view(&self) -> Seq<char> {
        self.0@
    }
}

impl Duplicate for EmbeddingModel {
    fn duplicate(&self) -> (copy: Self) {
        EmbeddingModel(self.0.clone())
    }
}

impl Clone for EmbeddingModel {
    fn clone(&self) -> (copy: Self)
        ensures
            copy.deep_view() == self.deep_view(),
    {
        self.duplicate()
    }
}

/// The models whose dimension is known, each with it.
pub open spec fn known_dimensions() -> Seq<(Seq<char>, usize)> {
    seq![
        ("all-MiniLM-L6-v2"@, 384),
        ("bge-base-en-v1.5"@, 768),
        ("mixedbread-embed-large-v1"@, 1024),
        ("text-embedding-3-small"@, 1536),
        ("text-embedding-3-large"@, 3072),
        ("voyage-3"@, 1024),
        ("voyage-3-lite"@, 512),
    ]
}

/// What the first entry whose name is `name`, but for the case of ASCII
/// letters, holds: 0 where there is none.
pub open spec fn dimension_in(table: Seq<(Seq<char>, usize)>, name: Seq<char>) -> usize
    decreases table.len(),
{
    if table.len() == 0 {
        0
    } else if text::ascii_lowered(table[0].0) == text::ascii_lowered(name) {
        table[0].1
    } else {
        dimension_in(table.drop_first(), name)
    }
}

/// The models whose dimension is known, each with it.
pub fn known_embedding_dimensions() -> (r: Vec<(String, usize)>)
    ensures
        r.deep_view() == known_dimensions(),
{
    vec![
        ("all-MiniLM-L6-v2".to_string(), 384),
        ("bge-base-en-v1.5".to_string(), 768),
        ("mixedbread-embed-large-v1".to_string(), 1024),
        ("text-embedding-3-small".to_string(), 1536),
        ("text-embedding-3-large".to_string(), 3072),
        ("voyage-3".to_string(), 1024),
        ("voyage-3-lite".to_string(), 512),
    ]
}

impl EmbeddingModel {
    /// The model with this name.
    pub fn new(name: String) -> (r: Self)
        ensures
            r.deep_view() == name@,
    {
        EmbeddingModel(name)
    }

    /// The name of the model.
    pub fn as_str(&self) -> (r: &str)
        ensures
            r@ == self.deep_view(),
    {
        self.0.as_str()
    }

    /// The dimension of the model's vectors: 0 where only the running model
    /// knows it.
    pub fn dimension(&self) -> (n: usize)
        ensures
            n == dimension_in(known_dimensions(), self.deep_view()),
    {
        let table = known_embedding_dimensions();
        let ghost all = table.deep_view();
        let mut i: usize = 0;
        assert(all.skip(0) =~= all);
        while i < table.len()
            invariant
                i <= table.len(),
                all == table.deep_view(),
                all == known_dimensions(),
                dimension_in(all, self.deep_view()) == dimension_in(
                    all.skip(i as int),
                    self.deep_view(),
                ),
            decreases table.len() - i,
        {
            assert(all.skip(i as int)[0] == all[i as int]);
            assert(all[i as int] == (table@[i as int].0@, table@[i as int].1));
            if text::eq_ignore_ascii_case(table[i].0.as_str(), self.0.as_str()) {
                return table[i].1;
            }
            assert(all.skip(i as int).drop_first() =~= all.skip(i + 1));
            i = i + 1;
        }
        0
    }

    /// OpenAI's small model.
    pub fn openai_small() -> (r: Self)
        ensures
            r.deep_view() == "text-embedding-3-small"@,
    {
        EmbeddingModel("text-embedding-3-small".to_string())
    }

    /// OpenAI's large model.
    pub fn openai_large() -> (r: Self)
        ensures
            r.deep_view() == "text-embedding-3-large"@,
    {
        EmbeddingModel("text-embedding-3-large".to_string())
    }

    /// Voyage's model.
    pub fn voyage3() -> (r: Self)
        ensures
            r.deep_view() == "voyage-3"@,
    {
        EmbeddingModel("voyage-3".to_string())
    }

    /// Voyage's small model.
    pub fn voyage3_lite() -> (r: Self)
        ensures
            r.deep_view() == "voyage-3-lite"@,
    {
        EmbeddingModel("voyage-3-lite".to_string())
    }

    /// The model that Ollama commonly serves.
    pub fn nomic_embed_text() -> (r: Self)
        ensures
            r.deep_view() == "nomic-embed-text"@,
    {
        EmbeddingModel("nomic-embed-text".to_string())
    }

    /// A small model for this machine.
    pub fn allminilm_l6_v2() -> (r: Self)
        ensures
            r.deep_view() == "all-MiniLM-L6-v2"@,
    {
        EmbeddingModel("all-MiniLM-L6-v2".to_string())
    }

    /// A medium model for this machine.
    pub fn bge_base_en_v15() -> (r: Self)
        ensures
            r.deep_view() == "bge-base-en-v1.5"@,
    {
        EmbeddingModel("bge-base-en-v1.5".to_string())
    }

    /// A large model for this machine.
    pub fn mxbai_embed_large_v1() -> (r: Self)
        ensures
            r.deep_view() == "mixedbread-embed-large-v1"@,
    {
        EmbeddingModel("mixedbread-embed-large-v1".to_string())
    }
}

/// The dimension does not depend on the case of the letters in the name.
pub proof fn law_dimension_ignores_case(table: Seq<(Seq<char>, usize)>, a: Seq<char>, b: Seq<char>)
    requires
        text::ascii_lowered(a) == text::ascii_lowered(b),
    ensures
        dimension_in(table, a) == dimension_in(table, b),
    decreases table.len(),
{
    if table.len() > 0 {
        law_dimension_ignores_case(table.drop_first(), a, b);
    }
}

impl From<String> for EmbeddingModel {
    fn from(s: String) -> (r: Self) {
        EmbeddingModel(s)
    }
}

impl vstd::std_specs::convert::FromSpecImpl<String> for EmbeddingModel {
    open spec fn obeys_from_spec() -> bool {
        true
    }

    open spec fn from_spec(s: String) -> Self {
        EmbeddingModel(s)
    }
}

// ─── EmbeddingProvider ──────────────────────────────────────────────────────

/// Who computes the vectors.
#[derive(Debug, Clone, Copy, PartialEq, Eq, Structural)]
pub enum EmbeddingProvider {
    /// Whoever is found to be there.
    Auto,
    /// OpenAI's API.
    OpenAi,
    /// Voyage's API.
    Voyage,
    /// An Ollama server on this machine.
    Ollama,
    /// A model in this process.
    FastEmbed,
    /// The BGE-M3 model in this process.
    BgeM3,
    /// An API with OpenAI's protocol.
    OpenAiCompat,
}

impl DeepView for EmbeddingProvider {
    type V = EmbeddingProvider;

    open spec fn deep_view(&self) -> EmbeddingProvider {
        *self
    }
}

impl Duplicate for EmbeddingProvider {
    fn duplicate(&self) -> (copy: Self) {
        *self
    }
}

impl Default for EmbeddingProvider {
    fn default() -> (r: Self)
        ensures
            r == EmbeddingProvider::Auto,
    {
        EmbeddingProvider::Auto
    }
}

/// The provider that goes by this name, in lower case and without white space
/// around it.
pub open spec fn provider_named(name: Seq<char>) -> Option<EmbeddingProvider> {
    if name == "auto"@ {
        Some(EmbeddingProvider::Auto)
    } else if name == "openai"@ {
        Some(EmbeddingProvider::OpenAi)
    } else if name == "voyage"@ {
        Some(EmbeddingProvider::Voyage)
    } else if name == "ollama"@ {
        Some(EmbeddingProvider::Ollama)
    } else if name == "fastembed"@ {
        Some(EmbeddingProvider::FastEmbed)
    } else if name == "bge-m3"@ || name == "bge_m3"@ || name == "bgem3"@ {
        Some(EmbeddingProvider::BgeM3)
    } else if name == "openai-compat"@ || name == "openai_compat"@ || name
        == "openai-compatible"@ {
        Some(EmbeddingProvider::OpenAiCompat)
    } else {
        None
    }
}

impl EmbeddingProvider {
    /// The name by which the provider goes.
    pub open spec fn spec_name(self) -> Seq<char> {
        match self {
            EmbeddingProvider::Auto => "auto"@,
            EmbeddingProvider::OpenAi => "openai"@,
            EmbeddingProvider::Voyage => "voyage"@,
            EmbeddingProvider::Ollama => "ollama"@,
            EmbeddingProvider::FastEmbed => "fastembed"@,
            EmbeddingProvider::BgeM3 => "bge-m3"@,
            EmbeddingProvider::OpenAiCompat => "openai-compat"@,
        }
    }

    /// The provider with this name, whatever the case of its letters and the
    /// white space around it.
    pub fn parse(s: &str) -> (r: Option<Self>)
        ensures
            r == provider_parsed(s@),
    {
        let trimmed = text::trim(s);
        let lower = text::to_ascii_lowercase(trimmed.as_str());
        let name = lower.as_str();
        if text::same(name, "auto") {
            Some(EmbeddingProvider::Auto)
        } else if text::same(name, "openai") {
            Some(EmbeddingProvider::OpenAi)
        } else if text::same(name, "voyage") {
            Some(EmbeddingProvider::Voyage)
        } else if text::same(name, "ollama") {
            Some(EmbeddingProvider::Ollama)
        } else if text::same(name, "fastembed") {
            Some(EmbeddingProvider::FastEmbed)
        } else if text::same(name, "bge-m3") || text::same(name, "bge_m3") || text::same(
            name,
            "bgem3",
        ) {
            Some(EmbeddingProvider::BgeM3)
        } else if text::same(name, "openai-compat") || text::same(name, "openai_compat")
            || text::same(name, "openai-compatible") {
            Some(EmbeddingProvider::OpenAiCompat)
        } else {
            None
        }
    }

    /// The name by which the provider goes.
    pub fn name(&self) -> (r: &'static str)
        ensures
            r@ == self.spec_name(),
    {
        match self {
            EmbeddingProvider::Auto => "auto",
            EmbeddingProvider::OpenAi => "openai",
            EmbeddingProvider::Voyage => "voyage",
            EmbeddingProvider::Ollama => "ollama",
            EmbeddingProvider::FastEmbed => "fastembed",
            EmbeddingProvider::BgeM3 => "bge-m3",
            EmbeddingProvider::OpenAiCompat => "openai-compat",
        }
    }
}

/// The provider that is found by what a user typed.
pub open spec fn provider_parsed(typed: Seq<char>) -> Option<EmbeddingProvider> {
    provider_named(text::ascii_lowered(text::trimmed(typed)))
}

/// A provider is found by the name it goes by.
pub proof fn law_provider_name_round_trip(provider: EmbeddingProvider)
    ensures
        provider_parsed(provider.spec_name()) == Some(provider),
{
    reveal_strlit("auto");
    reveal_strlit("openai");
    reveal_strlit("voyage");
    reveal_strlit("ollama");
    reveal_strlit("fastembed");
    reveal_strlit("bge-m3");
    reveal_strlit("bge_m3");
    reveal_strlit("bgem3");
    reveal_strlit("openai-compat");
    assert("auto"@[0] == 'a');
    assert("openai"@[0] == 'o' && "openai"@[1] == 'p');
    assert("voyage"@[0] == 'v');
    assert("ollama"@[0] == 'o' && "ollama"@[1] == 'l');
    assert("fastembed"@[0] == 'f');
    assert("bge-m3"@[0] == 'b');
    assert("openai-compat"@[0] == 'o' && "openai-compat"@[1] == 'p');
    assert("openai"@.len() == 6 && "openai-compat"@.len() == 13);
    let name = provider.spec_name();
    assert(!text::white_space(name[0]) && !text::white_space(name.last()));
    assert(text::trimmed(name) == name);
    assert(text::ascii_lowered(name) =~= name);
}

/// Neither the case of the letters nor the white space around them changes which
/// provider is found.
pub proof fn law_provider_is_found_in_any_case(typed: Seq<char>)
    ensures
        provider_parsed(text::ascii_uppered(text::trimmed(typed))) == provider_parsed(typed),
        provider_parsed(text::ascii_uppered(typed)) == provider_parsed(typed),
        provider_parsed(text::trimmed(typed)) == provider_parsed(typed),
{
    let bare = text::trimmed(typed);
    text::lemma_trimmed_twice(typed);
    text::lemma_trimmed_uppered(bare);
    text::lemma_trimmed_uppered(typed);
    text::lemma_lowered_any_case(bare);
}

/// Some providers go by several names, and no name but these finds one.
pub proof fn law_provider_names(name: Seq<char>)
    ensures
        name == "bge-m3"@ || name == "bge_m3"@ || name == "bgem3"@ ==> provider_named(name)
            == Some(EmbeddingProvider::BgeM3),
        name == "openai-compat"@ || name == "openai_compat"@ || name == "openai-compatible"@
            ==> provider_named(name) == Some(EmbeddingProvider::OpenAiCompat),
        provider_named(name) is None <==> {
            &&& name != "auto"@ && name != "openai"@ && name != "voyage"@
            &&& name != "ollama"@ && name != "fastembed"@
            &&& name != "bge-m3"@ && name != "bge_m3"@ && name != "bgem3"@
            &&& name != "openai-compat"@ && name != "openai_compat"@
            &&& name != "openai-compatible"@
        },
{
    reveal_strlit("auto");
    reveal_strlit("openai");
    reveal_strlit("voyage");
    reveal_strlit("ollama");
    reveal_strlit("fastembed");
    reveal_strlit("bge-m3");
    reveal_strlit("bge_m3");
    reveal_strlit("bgem3");
    reveal_strlit("openai-compat");
    reveal_strlit("openai_compat");
    reveal_strlit("openai-compatible");
    assert("auto"@[0] == 'a' && "voyage"@[0] == 'v' && "fastembed"@[0] == 'f');
    assert("ollama"@[1] == 'l');
    assert("bge-m3"@[0] == 'b' && "bge_m3"@[0] == 'b' && "bgem3"@[0] == 'b');
    assert("openai-compat"@[0] == 'o' && "openai-compat"@[1] == 'p');
    assert("openai_compat"@[0] == 'o' && "openai_compat"@[1] == 'p');
    assert("openai-compatible"@[0] == 'o' && "openai-compatible"@[1] == 'p');
    assert("openai"@.len() == 6 && "openai-compat"@.len() == 13);
    assert("openai_compat"@.len() == 13 && "openai-compatible"@.len() == 17);
}

// ─── EmbeddingConfig ────────────────────────────────────────────────────────

/// What a vector is for.
#[derive(Debug, Clone, Copy, PartialEq, Eq, Structural)]
pub enum InputType {
    /// A search.
    Query,
    /// A document that searches are to find.
    Document,
}

impl DeepView for InputType {
    type V = InputType;

    open spec fn deep_view(&self) -> InputType {
        *self
    }
}

impl Duplicate for InputType {
    fn duplicate(&self) -> (copy: Self) {
        *self
    }
}

/// How vectors are computed.
#[derive(Debug)]
pub struct EmbeddingConfig {
    /// Who computes them.
    pub provider: EmbeddingProvider,
    /// The model, where it is not the provider's own choice.
    pub model: Option<EmbeddingModel>,
    /// The key of the provider's API.
    pub api_key: Option<String>,
    /// Where the API is, where it is not the provider's own.
    pub base_url: Option<String>,
    /// Who computes them where the first provider fails.
    pub fallback: Option<EmbeddingProvider>,
    /// What they are for.
    pub input_type: Option<InputType>,
    /// Their dimension, where it is not the model's own.
    pub output_dimensionality: Option<usize>,
    /// How long a text may be.
    pub max_input_tokens: Option<usize>,
}

/// The contents of a [`EmbeddingConfig`].
#[verifier::ext_equal]
pub struct EmbeddingConfigView {
    pub provider: EmbeddingProvider,
    pub model: Option<Seq<char>>,
    pub api_key: Option<Seq<char>>,
    pub base_url: Option<Seq<char>>,
    pub fallback: Option<EmbeddingProvider>,
    pub input_type: Option<InputType>,
    pub output_dimensionality: Option<usize>,
    pub max_input_tokens: Option<usize>,
}

impl DeepView for EmbeddingConfig {
    type V = EmbeddingConfigView;

    open spec fn deep_view(&self) -> EmbeddingConfigView {
        EmbeddingConfigView {
            provider: self.provider,
            model: self.model.deep_view(),
            api_key: self.api_key.deep_view(),
            base_url: self.base_url.deep_view(),
            fallback: self.fallback.deep_view(),
            input_type: self.input_type.deep_view(),
            output_dimensionality: self.output_dimensionality.deep_view(),
            max_input_tokens: self.max_input_tokens.deep_view(),
        }
    }
}

impl Duplicate for EmbeddingConfig {
    fn duplicate(&self) -> (copy: Self) {
        EmbeddingConfig {
            provider: self.provider,
            model: self.model.duplicate(),
            api_key: self.api_key.duplicate(),
            base_url: self.base_url.duplicate(),
            fallback: self.fallback.duplicate(),
            input_type: self.input_type.duplicate(),
            output_dimensionality: self.output_dimensionality.duplicate(),
            max_input_tokens: self.max_input_tokens.duplicate(),
        }
    }
}

impl Clone for EmbeddingConfig {
    fn clone(&self) -> (copy: Self)
        ensures
            copy.deep_view() == self.deep_view(),
    {
        self.duplicate()
    }
}

/// The configuration in which nothing but the provider is set.
pub open spec fn config_of(provider: EmbeddingProvider) -> EmbeddingConfigView {
    EmbeddingConfigView {
        provider,
        model: None,
        api_key: None,
        base_url: None,
        fallback: None,
        input_type: None,
        output_dimensionality: None,
        max_input_tokens: None,
    }
}

impl Default for EmbeddingConfig {
    fn default() -> (r: Self)
        ensures
            r.deep_view() == config_of(EmbeddingProvider::Auto),
    {
        EmbeddingConfig {
            provider: EmbeddingProvider::Auto,
            model: None,
            api_key: None,
            base_url: None,
            fallback: None,
            input_type: None,
            output_dimensionality: None,
            max_input_tokens: None,
        }
    }
}

impl EmbeddingConfig {
    /// Whoever is found to be there.
    pub fn auto() -> (r: Self)
        ensures
            r.deep_view() == config_of(EmbeddingProvider::Auto),
    {
        EmbeddingConfig::default()
    }

    /// OpenAI's API.
    pub fn openai(api_key: String) -> (r: Self)
        ensures
            r.deep_view() == (EmbeddingConfigView {
                api_key: Some(api_key@),
                ..config_of(EmbeddingProvider::OpenAi)
            }),
    {
        EmbeddingConfig {
            provider: EmbeddingProvider::OpenAi,
            api_key: Some(api_key),
            ..EmbeddingConfig::default()
        }
    }

    /// Voyage's API.
    pub fn voyage(api_key: String) -> (r: Self)
        ensures
            r.deep_view() == (EmbeddingConfigView {
                api_key: Some(api_key@),
                ..config_of(EmbeddingProvider::Voyage)
            }),
    {
        EmbeddingConfig {
            provider: EmbeddingProvider::Voyage,
            api_key: Some(api_key),
            ..EmbeddingConfig::default()
        }
    }

    /// An Ollama server on this machine.
    pub fn ollama() -> (r: Self)
        ensures
            r.deep_view() == config_of(EmbeddingProvider::Ollama),
    {
        EmbeddingConfig { provider: EmbeddingProvider::Ollama, ..EmbeddingConfig::default() }
    }

    /// An API with OpenAI's protocol.
    pub fn openai_compat(api_key: String, base_url: String) -> (r: Self)
        ensures
            r.deep_view() == (EmbeddingConfigView {
                api_key: Some(api_key@),
                base_url: Some(base_url@),
                ..config_of(EmbeddingProvider::OpenAiCompat)
            }),
    {
        EmbeddingConfig {
            provider: EmbeddingProvider::OpenAiCompat,
            api_key: Some(api_key),
            base_url: Some(base_url),
            ..EmbeddingConfig::default()
        }
    }

    /// A model in this process.
    pub fn fastembed() -> (r: Self)
        ensures
            r.deep_view() == config_of(EmbeddingProvider::FastEmbed),
    {
        EmbeddingConfig { provider: EmbeddingProvider::FastEmbed, ..EmbeddingConfig::default() }
    }

    /// This configuration with a model.
    pub fn with_model(self, model: EmbeddingModel) -> (r: Self)
        ensures
            r.deep_view() == (EmbeddingConfigView {
                model: Some(model.deep_view()),
                ..self.deep_view()
            }),
    {
        EmbeddingConfig { model: Some(model), ..self }
    }

    /// This configuration with an address.
    pub fn with_base_url(self, base_url: String) -> (r: Self)
        ensures
            r.deep_view() == (EmbeddingConfigView {
                base_url: Some(base_url@),
                ..self.deep_view()
            }),
    {
        EmbeddingConfig { base_url: Some(base_url), ..self }
    }

    /// This configuration with a second provider.
    pub fn with_fallback(self, fallback: EmbeddingProvider) -> (r: Self)
        ensures
            r.deep_view() == (EmbeddingConfigView {
                fallback: Some(fallback),
                ..self.deep_view()
            }),
    {
        EmbeddingConfig { fallback: Some(fallback), ..self }
    }
}

// ─── EmbeddingHealthStatus ──────────────────────────────────────────────────

/// Whether vectors can be computed.
#[derive(Debug)]
pub struct EmbeddingHealthStatus {
    /// The model of the first service.
    pub primary_service: String,
    /// Whether it works.
    pub primary_healthy: bool,
    /// The model of the second service, where there is one.
    pub fallback_service: Option<String>,
    /// Whether that works.
    pub fallback_healthy: Option<bool>,
    /// Whether vectors are kept.
    pub cache_enabled: bool,
    /// How many are kept.
    pub cache_size: usize,
}

/// The contents of a [`EmbeddingHealthStatus`].
#[verifier::ext_equal]
pub struct EmbeddingHealthStatusView {
    pub primary_service: Seq<char>,
    pub primary_healthy: bool,
    pub fallback_service: Option<Seq<char>>,
    pub fallback_healthy: Option<bool>,
    pub cache_enabled: bool,
    pub cache_size: usize,
}

impl DeepView for EmbeddingHealthStatus {
    type V = EmbeddingHealthStatusView;

    open spec fn deep_view(&self) -> EmbeddingHealthStatusView {
        EmbeddingHealthStatusView {
            primary_service: self.primary_service.deep_view(),
            primary_healthy: self.primary_healthy,
            fallback_service: self.fallback_service.deep_view(),
            fallback_healthy: self.fallback_healthy.deep_view(),
            cache_enabled: self.cache_enabled,
            cache_size: self.cache_size,
        }
    }
}

impl Duplicate for EmbeddingHealthStatus {
    fn duplicate(&self) -> (copy: Self) {
        EmbeddingHealthStatus {
            primary_service: self.primary_service.duplicate(),
            primary_healthy: self.primary_healthy,
            fallback_service: self.fallback_service.duplicate(),
            fallback_healthy: self.fallback_healthy.duplicate(),
            cache_enabled: self.cache_enabled,
            cache_size: self.cache_size,
        }
    }
}

impl Clone for EmbeddingHealthStatus {
    fn clone(&self) -> (copy: Self)
        ensures
            copy.deep_view() == self.deep_view(),
    {
        self.duplicate()
    }
}

impl EmbeddingHealthStatus {
    /// Whether either service works.
    pub fn is_functional(&self) -> (r: bool)
        ensures
            r == (self.primary_healthy || self.fallback_healthy == Some(true)),
    {
        self.primary_healthy || match self.fallback_healthy {
            Some(healthy) => healthy,
            None => false,
        }
    }

    /// A report.
    pub fn new(
        primary_service: String,
        primary_healthy: bool,
        fallback_service: Option<String>,
        fallback_healthy: Option<bool>,
        cache_enabled: bool,
        cache_size: usize,
    ) -> (r: Self)
        ensures
            r.deep_view() == (EmbeddingHealthStatusView {
                primary_service: primary_service@,
                primary_healthy,
                fallback_service: fallback_service.deep_view(),
                fallback_healthy: fallback_healthy.deep_view(),
                cache_enabled,
                cache_size,
            }),
    {
        EmbeddingHealthStatus {
            primary_service,
            primary_healthy,
            fallback_service,
            fallback_healthy,
            cache_enabled,
            cache_size,
        }
    }
}

/// What is to be done to learn the dimension of a service's vectors.
#[derive(Debug, Clone, Copy, PartialEq, Eq, Structural)]
pub enum DimensionStep {
    /// Nothing: it is known.
    Known(usize),
    /// Compute a vector and count.
    Probe,
}

/// What is to be done to learn the dimension of the model's vectors.
pub fn dimension_step(model: &EmbeddingModel) -> (r: DimensionStep)
    ensures
        r == (if dimension_in(known_dimensions(), model.deep_view()) > 0 {
            DimensionStep::Known(dimension_in(known_dimensions(), model.deep_view()))
        } else {
            DimensionStep::Probe
        }),
{
    let dimension = model.dimension();
    if dimension > 0 {
        DimensionStep::Known(dimension)
    } else {
        DimensionStep::Probe
    }
}

/// What is wrong with a vector that a service computed: `finite` says of each
/// component whether it is a finite number.
pub fn vector_fault(finite: &Vec<bool>) -> (r: Option<&'static str>)
    ensures
        match r {
            Some(fault) => if finite@.len() == 0 {
                fault@ == "Embedding service returned empty vector"@
            } else {
                finite@.contains(false) && fault@
                    == "Embedding service returned non-finite values"@
            },
            None => finite@.len() > 0 && !finite@.contains(false),
        },
{
    if finite.len() == 0 {
        return Some("Embedding service returned empty vector");
    }
    let mut i: usize = 0;
    while i < finite.len()
        invariant
            i <= finite.len(),
            finite.len() > 0,
            forall|k: int| 0 <= k < i ==> finite@[k],
        decreases finite.len() - i,
    {
        if !finite[i] {
            assert(finite@[i as int] == false);
            return Some("Embedding service returned non-finite values");
        }
        i = i + 1;
    }
    None
}

/// The size of a model is that of the first entry of its name, whatever the case of the
/// letters, and nought where there is none.
pub proof fn law_dimension_is_listed(table: Seq<(Seq<char>, usize)>, name: Seq<char>, i: int)
    requires
        0 <= i <= table.len(),
        forall|k: int|
            0 <= k < i ==> text::ascii_lowered((#[trigger] table[k]).0) != text::ascii_lowered(
                name,
            ),
    ensures
        i < table.len() && text::ascii_lowered(table[i].0) == text::ascii_lowered(name)
            ==> dimension_in(table, name) == table[i].1,
        i == table.len() ==> dimension_in(table, name) == 0,
    decreases table.len(),
{
    if i > 0 {
        let rest = table.drop_first();
        assert forall|k: int| 0 <= k < i - 1 implies text::ascii_lowered((#[trigger] rest[k]).0)
            != text::ascii_lowered(name) by {
            assert(rest[k] == table[k + 1]);
        }
        assert(text::ascii_lowered(table[0].0) != text::ascii_lowered(name));
        law_dimension_is_listed(rest, name, i - 1);
    }
}

/// A configuration of a provider names it and leaves all else open.
pub proof fn law_config_of_a_provider(provider: EmbeddingProvider)
    ensures
        config_of(provider).provider == provider,
        config_of(provider).model is None,
        config_of(provider).api_key is None,
        config_of(provider).base_url is None,
        config_of(provider).fallback is None,
        config_of(provider).input_type is None,
        config_of(provider).output_dimensionality is None,
        config_of(provider).max_input_tokens is None,
{
}

} // verus!
