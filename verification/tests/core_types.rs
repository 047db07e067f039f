//! Messages, models, sessions, retrieval and embeddings.

use oneai_domain::collections::Table;
use oneai_domain::embedding::{
    dimension_step, vector_fault, DimensionStep, EmbeddingConfig, EmbeddingHealthStatus,
    EmbeddingModel, EmbeddingProvider,
};
use oneai_domain::retrieval::{default_retrieval_top_k, Filter, SearchMode};
use oneai_domain::session::{CronJobSpec, SessionInfo};
use oneai_domain::types::{
    decode_image, effective_exposure, encode_image, keyword_matches, ContentBlock, Conversation, Message,
    ModelCapability, ModelConfig, PermissionLevel, RiskLevel, Role,
};

#[test]
fn images_go_through_base64() {
    let data = vec![0u8, 1, 2, 250, 255];
    let text = encode_image(&data);
    assert_eq!(text, "AAEC+v8=");
    assert_eq!(decode_image(&text), Some(data));
    assert_eq!(decode_image("%%%"), None);
}

#[test]
fn messages_and_their_texts() {
    let message = Message::user("hello".to_string());
    assert_eq!(message.role, Role::User);
    assert_eq!(message.text_content(), "hello");
    assert!(message.tool_calls().is_empty());
    let mut call = Message::assistant("calling".to_string());
    call.content.push(ContentBlock::ToolCall {
        id: "1".to_string(),
        name: "grep".to_string(),
        args: "{}".to_string(),
    });
    assert_eq!(call.tool_calls().len(), 1);
    let result = Message::tool_result("1".to_string(), "found".to_string());
    assert_eq!(result.role, Role::Tool);
}

#[test]
fn conversations_grow() {
    let mut conversation = Conversation::with_id("c".to_string());
    assert!(conversation.is_empty());
    conversation.add_message(Message::system("be brief".to_string()));
    conversation.add_message(Message::user("hi".to_string()));
    assert_eq!(conversation.len(), 2);
    assert_eq!(conversation.last_message().unwrap().text_content(), "hi");
}

#[test]
fn new_conversations_have_their_own_names() {
    let a = Conversation::new();
    let b = Conversation::new();
    assert_ne!(a.id, b.id);
    assert_eq!(a.id.len(), 36);
}

#[test]
fn addresses_of_models() {
    let openai = ModelConfig::openai("k".to_string(), "gpt".to_string());
    assert!(openai.resolved_url().starts_with("https://"));
    let own = ModelConfig::openai_compatible(
        "k".to_string(),
        "http://x".to_string(),
        "m".to_string(),
    );
    assert_eq!(own.resolved_url(), "http://x");
    let ollama = ModelConfig::ollama_custom("http://host".to_string(), 1234, "m".to_string());
    assert!(ollama.resolved_url().contains("1234"));
}

#[test]
fn capabilities_of_models() {
    assert!(ModelCapability::gpt4_class().supports_tools);
    assert!(!ModelCapability::basic_text().supports_multimodal);
}

#[test]
fn levels_and_risks_correspond() {
    for risk in [RiskLevel::Low, RiskLevel::Medium, RiskLevel::High] {
        assert_eq!(PermissionLevel::from_risk_level(risk).to_risk_level(), risk);
    }
    assert!(PermissionLevel::Read.should_auto_approve(&PermissionLevel::Standard));
    assert!(!PermissionLevel::Full.should_auto_approve(&PermissionLevel::Standard));
}

#[test]
fn keywords_are_found_whatever_their_case() {
    assert!(keyword_matches("Please DEBUG this", "debug"));
    assert!(!keyword_matches("hello", "debug"));
}

#[test]
fn a_longer_text_keeps_its_keywords() {
    assert!(keyword_matches("DEBUG", "debug"));
    assert!(keyword_matches("please DEBUG this", "Debug"));
    assert!(keyword_matches("", ""));
    assert!(keyword_matches("anything", ""));
    assert!(!keyword_matches("", "debug"));
}

#[test]
fn sessions_and_jobs() {
    let info = SessionInfo::new("s".to_string(), 1, 2, 3)
        .with_workspace(Some("/w".to_string()))
        .with_archived(true);
    assert_eq!(info.workspace.as_deref(), Some("/w"));
    assert!(info.archived);
    let job = CronJobSpec::new("n".to_string(), "daily".to_string(), "t".to_string());
    assert!(job.enabled);
    assert_eq!(job.schedule, "daily");
}

#[test]
fn filters_hold_metadata_to_their_values() {
    let filter = Filter::new()
        .with_eq("lang".to_string(), "rust".to_string())
        .with_in("kind".to_string(), vec!["a".to_string(), "b".to_string()]);
    let meta = |lang: &str, kind: &str| {
        Table::from_pairs(vec![
            ("lang".to_string(), lang.to_string()),
            ("kind".to_string(), kind.to_string()),
        ])
    };
    assert!(filter.matches(&meta("rust", "b")));
    assert!(!filter.matches(&meta("go", "b")));
    assert!(!filter.matches(&meta("rust", "c")));
    assert!(Filter::new().matches(&Table::new()));
    assert_eq!(default_retrieval_top_k(), 5);
    assert_ne!(SearchMode::Keyword, SearchMode::Vector);
}

#[test]
fn dimensions_of_embedding_models() {
    assert_eq!(EmbeddingModel::openai_small().dimension(), 1536);
    assert_eq!(EmbeddingModel::openai_large().dimension(), 3072);
    assert_eq!(EmbeddingModel::new("unknown".to_string()).dimension(), 0);
    assert_eq!(dimension_step(&EmbeddingModel::openai_small()), DimensionStep::Known(1536));
    assert_eq!(
        dimension_step(&EmbeddingModel::new("unknown".to_string())),
        DimensionStep::Probe
    );
}

#[test]
fn providers_are_read_by_name() {
    assert_eq!(EmbeddingProvider::parse("OpenAI"), Some(EmbeddingProvider::OpenAi));
    assert_eq!(EmbeddingProvider::parse("nothing"), None);
    let config = EmbeddingConfig::openai("k".to_string())
        .with_model(EmbeddingModel::openai_large())
        .with_base_url("http://x".to_string());
    assert_eq!(config.base_url.as_deref(), Some("http://x"));
}

#[test]
fn every_provider_is_read_by_its_own_name() {
    for provider in [
        EmbeddingProvider::Auto,
        EmbeddingProvider::OpenAi,
        EmbeddingProvider::Voyage,
        EmbeddingProvider::Ollama,
        EmbeddingProvider::FastEmbed,
        EmbeddingProvider::BgeM3,
        EmbeddingProvider::OpenAiCompat,
    ] {
        let name = provider.name();
        assert_eq!(EmbeddingProvider::parse(name), Some(provider));
        assert_eq!(EmbeddingProvider::parse(&name.to_ascii_uppercase()), Some(provider));
        assert_eq!(EmbeddingProvider::parse(&format!(" \t{}\n", name)), Some(provider));
    }
    for name in ["openai-compat", "openai_compat", "openai-compatible"] {
        assert_eq!(EmbeddingProvider::parse(name), Some(EmbeddingProvider::OpenAiCompat));
    }
}

#[test]
fn vectors_are_checked() {
    assert_eq!(vector_fault(&vec![]), Some("Embedding service returned empty vector"));
    assert_eq!(
        vector_fault(&vec![true, false]),
        Some("Embedding service returned non-finite values")
    );
    assert_eq!(vector_fault(&vec![true]), None);
    let status =
        EmbeddingHealthStatus::new("a".to_string(), false, None, Some(true), false, 0);
    assert!(status.is_functional());
}

#[test]
fn what_is_resolved_goes_before_what_a_tool_says() {
    assert_eq!(effective_exposure(Some("hidden"), "direct"), "hidden");
    assert_eq!(effective_exposure(None, "direct"), "direct");
}
