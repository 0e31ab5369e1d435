use codex_code_review::ai_cache::{generate_file_key, generate_key, AICache, CachedResponse};
use codex_code_review::ai_client::{
    analysis_or_fallback, extract_json, AIClient, AIIssue, QuickCheckType,
};
use codex_code_review::analyzer::{IssueCategory, IssueSeverity};
use codex_code_review::config::LocalAIConfig;
use codex_code_review::time::Timestamp;
use std::hash::{Hash, Hasher};

fn at(secs: i64) -> Timestamp {
    Timestamp { secs, nanos: 0 }
}

#[test]
fn test_ai_issue_conversion() {
    let ai_issue = AIIssue {
        severity: "error".to_string(),
        category: "bug".to_string(),
        description: "Null pointer dereference".to_string(),
        line: Some(42),
        suggestion: Some("Check for null".to_string()),
    };
    let issue = ai_issue.to_issue();
    assert_eq!(issue.severity, IssueSeverity::Error);
    assert_eq!(issue.line, Some(42));
}

#[test]
fn ai_issue_words_are_case_insensitive() {
    let ai_issue = AIIssue {
        severity: "CRITICAL".to_string(),
        category: "Security".to_string(),
        description: "d".to_string(),
        line: None,
        suggestion: None,
    };
    let issue = ai_issue.to_issue();
    assert_eq!(issue.severity, IssueSeverity::Critical);
    assert_eq!(issue.category, IssueCategory::Security);
    let odd = AIIssue { severity: "meh".to_string(), category: "misc".to_string(), ..ai_issue };
    let issue = odd.to_issue();
    assert_eq!(issue.severity, IssueSeverity::Info);
    assert_eq!(issue.category, IssueCategory::Maintainability);
}

#[test]
fn test_create_analysis_prompt() {
    let config = LocalAIConfig::default();
    let client = AIClient::new(config);
    let prompt = client.create_analysis_prompt("test.rs", "fn main() {}", "rust");
    assert!(prompt.contains("code review expert"));
    assert!(prompt.contains("fn main() {}"));
    assert!(prompt.contains("from file \"test.rs\"."));
}

#[test]
fn client_models_and_endpoint() {
    let client = AIClient::new(LocalAIConfig::default());
    assert_eq!(client.coding_model(), "deepseek-coder:33b");
    assert_eq!(client.review_model(), "codellama:13b-instruct");
    assert_eq!(client.quick_check_model(), "qwen2.5-coder:7b");
    assert_eq!(client.generate_url(), "http://localhost:11434/v1/api/generate");
    assert_eq!(
        client.quick_check_prompt("x", QuickCheckType::HasBugs),
        "Does this code have any obvious bugs? Answer with just YES or NO.\n\nx"
    );
    assert!(AIClient::quick_check_answer("YES, it does"));
    assert!(!AIClient::quick_check_answer("No."));
}

#[test]
fn json_is_taken_between_braces() {
    assert_eq!(extract_json("Sure: {\"a\": {\"b\": 1}} done"), "{\"a\": {\"b\": 1}}");
    assert_eq!(extract_json("no json"), "no json");
    assert_eq!(extract_json("} x {"), "} x {");
    assert_eq!(extract_json("}{"), "");
    let fallback = analysis_or_fallback(None);
    assert_eq!(fallback.overall_quality, "unknown");
    assert!(fallback.issues.is_empty());
}

#[test]
fn test_generate_key() {
    let key1 = generate_key("code content", "analyze this");
    let key2 = generate_key("code content", "analyze this");
    let key3 = generate_key("different code", "analyze this");
    assert_eq!(key1, key2);
    assert_ne!(key1, key3);
}

#[test]
fn keys_are_the_hash_in_hex() {
    let mut h = std::collections::hash_map::DefaultHasher::new();
    "code".hash(&mut h);
    "prompt".hash(&mut h);
    assert_eq!(generate_key("code", "prompt"), format!("{:x}", h.finish()));
    assert_eq!(AIClient::cache_key("model", "prompt"), generate_key("prompt", "model"));
    assert_ne!(generate_file_key("a.rs", "analyze", "t1"), generate_file_key("a.rs", "analyze", "t2"));
}

#[test]
fn test_cache_put_get() {
    let mut cache = AICache::new(10);
    cache.put("test_key".to_string(), "test_response".to_string(), 3600);
    let result = cache.get("test_key");
    assert_eq!(result, Some("test_response".to_string()));
}

#[test]
fn test_cache_miss() {
    let cache = AICache::new(10);
    let result = cache.get("nonexistent");
    assert_eq!(result, None);
}

#[test]
fn test_cache_expiration() {
    let mut cache = AICache::new(10);
    cache.put("expired_key".to_string(), "expired_response".to_string(), 0);
    let result = cache.get("expired_key");
    assert_eq!(result, None);
}

#[test]
fn cache_entries_live_for_their_ttl() {
    let mut cache = AICache::new(10);
    cache.put_at("k".to_string(), "v".to_string(), 60, at(1000));
    assert_eq!(cache.get_at("k", &at(1059)), Some("v".to_string()));
    assert_eq!(cache.get_at("k", &Timestamp { secs: 1059, nanos: 999_999_999 }), Some("v".to_string()));
    assert_eq!(cache.get_at("k", &at(1060)), None);
    let stats = cache.stats_at(&at(1060));
    assert_eq!(stats.total_entries, 1);
    assert_eq!(stats.expired_entries, 1);
    assert_eq!(stats.active_entries, 0);
}

#[test]
fn test_cache_eviction() {
    let mut cache = AICache::new(3);
    for i in 0..4 {
        cache.put_at(format!("key_{i}"), format!("response_{i}"), 3600, at(100 + i));
    }
    let stats = cache.stats_at(&at(200));
    assert_eq!(stats.total_entries, 3);
    assert_eq!(cache.get_at("key_0", &at(200)), None);
    assert_eq!(cache.get_at("key_3", &at(200)), Some("response_3".to_string()));
}

#[test]
fn test_cache_clear() {
    let mut cache = AICache::new(10);
    cache.put("key1".to_string(), "response1".to_string(), 3600);
    cache.put("key2".to_string(), "response2".to_string(), 3600);
    cache.clear();
    let stats = cache.stats();
    assert_eq!(stats.total_entries, 0);
}

#[test]
fn test_cleanup_expired() {
    let mut cache = AICache::new(10);
    cache.put_at("expired".to_string(), "data".to_string(), 0, at(50));
    cache.put_at("valid".to_string(), "data".to_string(), 3600, at(50));
    cache.cleanup_expired_at(&at(60));
    let stats = cache.stats_at(&at(60));
    assert_eq!(stats.total_entries, 1);
    assert_eq!(stats.active_entries, 1);
}

#[test]
fn persistent_cache_and_reload() {
    let mut cache = AICache::new(5).with_persistent_cache("/tmp/cache.json".to_string());
    assert_eq!(cache.persistent_file().map(|s| s.as_str()), Some("/tmp/cache.json"));
    let entry = |r: &str| CachedResponse { response: r.to_string(), timestamp: at(1), ttl_secs: 100 };
    cache.load_entries(vec![("a".to_string(), entry("1")), ("b".to_string(), entry("2")), ("a".to_string(), entry("3"))]);
    assert_eq!(cache.len(), 2);
    assert_eq!(cache.get_at("a", &at(2)), Some("3".to_string()));
    assert_eq!(cache.entries().len(), 2);
}

#[test]
fn client_remembers_replies() {
    let mut cache = AICache::new(4);
    assert_eq!(AIClient::cached_reply_at(&cache, "m", "p", &at(10)), None);
    AIClient::remember_reply_at(&mut cache, "m", "p", "reply".to_string(), at(10));
    assert_eq!(AIClient::cached_reply_at(&cache, "m", "p", &at(3609)), Some("reply".to_string()));
    assert_eq!(AIClient::cached_reply_at(&cache, "m", "p", &at(3610)), None);
    assert_eq!(AIClient::cached_reply_at(&cache, "other", "p", &at(11)), None);
}

#[test]
fn cache_utilization_is_active_over_maximum() {
    let mut cache = AICache::new(4);
    cache.put_at("a".to_string(), "1".to_string(), 3600, at(10));
    cache.put_at("b".to_string(), "2".to_string(), 5, at(10));
    let u = cache.stats_at(&at(20)).utilization();
    assert_eq!((u.numerator, u.denominator), (1, 4));
    let empty = AICache::new(0).stats_at(&at(0)).utilization();
    assert_eq!(empty.numerator, 0);
    assert_eq!(empty.denominator, 1);
}
