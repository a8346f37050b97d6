use vinput_daemon::post_processor::{LlmConfig, PostProcessor, DEFAULT_TEMPERATURE_BITS};
use vinput_daemon::protocol::{SOURCE_ASR, SOURCE_LLM};

fn configured() -> PostProcessor {
    let config = LlmConfig {
        endpoint: Some("https://api.example.com/v1/chat".to_string()),
        api_key: Some("test-key".to_string()),
        ..Default::default()
    };
    PostProcessor::with_config(config)
}

#[test]
fn test_post_processor_creation() {
    let processor = PostProcessor::new();
    assert!(!processor.is_configured());
}

#[test]
fn test_post_processor_with_config() {
    let config = LlmConfig {
        endpoint: Some("https://api.example.com/v1/chat".to_string()),
        api_key: Some("test-key".to_string()),
        model: Some("gpt-4".to_string()),
        ..Default::default()
    };

    let processor = PostProcessor::with_config(config);
    assert!(processor.is_configured());
}

#[test]
fn test_process_without_config() {
    let processor = PostProcessor::new();
    let result = processor.process("你好世界").unwrap();

    assert_eq!(result.commit_text, "你好世界");
    assert_eq!(result.candidates.len(), 1);
    assert_eq!(result.candidates[0].source, SOURCE_ASR);
}

#[test]
fn test_process_with_config() {
    let processor = configured();
    let result = processor.process("你好世界").unwrap();

    assert!(result.commit_text.ends_with('。'));
    assert_eq!(result.candidates[0].source, SOURCE_LLM);
}

#[test]
fn default_config_values() {
    let config = LlmConfig::default();
    assert!(config.endpoint.is_none());
    assert!(config.api_key.is_none());
    assert!(config.model.is_none());
    assert_eq!(config.max_tokens, Some(100));
    assert_eq!(config.temperature_bits, Some(DEFAULT_TEMPERATURE_BITS));
    assert_eq!(f32::from_bits(DEFAULT_TEMPERATURE_BITS), 0.7f32);
}

#[test]
fn endpoint_alone_is_not_enough() {
    let config = LlmConfig { endpoint: Some("e".to_string()), ..Default::default() };
    assert!(!PostProcessor::with_config(config).is_configured());
    let config = LlmConfig { api_key: Some("k".to_string()), ..Default::default() };
    assert!(!PostProcessor::with_config(config).is_configured());
}

#[test]
fn update_config_recomputes_flag() {
    let mut processor = PostProcessor::default();
    processor.update_config(LlmConfig {
        endpoint: Some("e".to_string()),
        api_key: Some("k".to_string()),
        ..Default::default()
    });
    assert!(processor.is_configured());
    processor.update_config(LlmConfig::default());
    assert!(!processor.is_configured());
}

#[test]
fn punctuation_appends_full_stop_after_trimming() {
    let result = configured().process("  你好世界 \n").unwrap();
    assert_eq!(result.commit_text, "你好世界。");
    assert_eq!(result.candidates.len(), 1);
    assert_eq!(result.candidates[0].text, "你好世界。");
    assert_eq!(result.candidates[0].source, SOURCE_LLM);
}

#[test]
fn punctuation_keeps_existing_terminators() {
    let p = configured();
    for text in ["好。", "好！", "好？", "ok.", "ok!", "ok?"] {
        assert_eq!(p.process(text).unwrap().commit_text, text);
    }
    assert_eq!(p.process("\u{3000}ok?\u{3000}").unwrap().commit_text, "ok?");
}

#[test]
fn punctuation_of_blank_text_is_empty() {
    let p = configured();
    assert_eq!(p.process("").unwrap().commit_text, "");
    assert_eq!(p.process(" \t\u{2003} ").unwrap().commit_text, "");
}

#[test]
fn punctuation_is_idempotent() {
    let p = configured();
    let once = p.process(" 你好 ").unwrap().commit_text;
    let twice = p.process(&once).unwrap().commit_text;
    assert_eq!(once, twice);
}

#[test]
fn unconfigured_process_keeps_text_verbatim() {
    let result = PostProcessor::new().process("  raw ").unwrap();
    assert_eq!(result.commit_text, "  raw ");
    assert_eq!(result.candidates[0].text, "  raw ");
}

#[test]
fn process_command_returns_spoken_text() {
    let result = configured().process_command("删除这句", "选中的文字").unwrap();
    assert_eq!(result.commit_text, "删除这句");
    assert_eq!(result.candidates[0].source, SOURCE_LLM);

    let result = PostProcessor::new().process_command("删除这句", "选中的文字").unwrap();
    assert_eq!(result.commit_text, "删除这句");
    assert_eq!(result.candidates[0].source, SOURCE_ASR);
}

#[test]
fn only_white_space_characters_are_trimmed() {
    let p = configured();
    // U+0085 and U+00A0 carry the White_Space property; U+200B does not.
    assert_eq!(p.process("\u{85}好\u{a0}").unwrap().commit_text, "好。");
    assert_eq!(p.process("\u{200b}").unwrap().commit_text, "\u{200b}。");
}
