use rebe_core::error::{EngineError, ErrorKind};
use rebe_core::rag::digest::{
    avg_confidence_items, avg_confidence_risks, default_priority, digest_user_prompt, store_digest,
    strip_code_fences, ChatMessage, DigestItem, DigestResult, RiskItem,
};

fn item(text: &str, confidence: i32) -> DigestItem {
    DigestItem { text: text.to_string(), confidence, related_user_ids: vec![], priority: "medium".to_string() }
}

fn risk(text: &str, confidence: i32) -> RiskItem {
    RiskItem { text: text.to_string(), confidence, priority: "medium".to_string() }
}

fn message(user_id: &str, user_name: &str, content: &str, created_at: &str) -> ChatMessage {
    ChatMessage {
        user_id: user_id.to_string(),
        user_name: user_name.to_string(),
        content: content.to_string(),
        created_at: created_at.to_string(),
    }
}

#[test]
fn priority_defaults_to_medium() {
    assert_eq!(default_priority(), "medium");
}

#[test]
fn mean_confidence() {
    assert_eq!(avg_confidence_items(&[]), 0);
    assert_eq!(avg_confidence_risks(&[]), 0);
    assert_eq!(avg_confidence_items(&[item("a", 900_000)]), 900_000);
    assert_eq!(avg_confidence_items(&[item("a", 900_000), item("b", 850_000)]), 875_000);
    assert_eq!(avg_confidence_items(&[item("a", 1), item("b", 2)]), 1);
    assert_eq!(avg_confidence_items(&[item("a", -1), item("b", -2)]), -1);
    assert_eq!(avg_confidence_risks(&[risk("a", 700_000), risk("b", 500_000), risk("c", 600_000)]), 600_000);
    assert_eq!(avg_confidence_risks(&[risk("a", i32::MAX), risk("b", i32::MAX)]), i32::MAX);
    assert_eq!(avg_confidence_risks(&[risk("a", i32::MIN), risk("b", i32::MIN)]), i32::MIN);
    assert_eq!(avg_confidence_items(&[item("a", i32::MAX), item("b", i32::MIN)]), 0);
}

#[test]
fn prompt_lists_the_messages() {
    let messages = vec![
        message("u1", "김PD", "예산 확정했습니다", "2026-02-23T10:00:00Z"),
        message("u2", "이CD", "알겠습니다", "2026-02-23T10:01:00Z"),
    ];
    let prompt = digest_user_prompt(&messages).unwrap();
    assert_eq!(
        prompt,
        "다음 채팅 메시지들을 분석해주세요 (2 messages):\n\n[2026-02-23T10:00:00Z] 김PD (u1): 예산 확정했습니다\n[2026-02-23T10:01:00Z] 이CD (u2): 알겠습니다"
    );
    let one = digest_user_prompt(&messages[..1]).unwrap();
    assert_eq!(one, "다음 채팅 메시지들을 분석해주세요 (1 messages):\n\n[2026-02-23T10:00:00Z] 김PD (u1): 예산 확정했습니다");
    let many: Vec<ChatMessage> = (0..12).map(|i| message("u", "n", &format!("m{}", i), "t")).collect();
    let prompt = digest_user_prompt(&many).unwrap();
    assert!(prompt.starts_with("다음 채팅 메시지들을 분석해주세요 (12 messages):\n\n[t] n (u): m0\n[t] n (u): m1\n"));
    assert!(prompt.ends_with("\n[t] n (u): m11"));
}

#[test]
fn prompt_needs_messages() {
    assert_eq!(digest_user_prompt(&[]).unwrap_err(), EngineError::NoMessages);
    assert_eq!(EngineError::NoMessages.kind(), ErrorKind::InvalidArgument);
}

#[test]
fn code_fences_are_stripped() {
    assert_eq!(strip_code_fences("{\"a\":1}"), "{\"a\":1}");
    assert_eq!(strip_code_fences("  {\"a\":1}\n"), "{\"a\":1}");
    assert_eq!(strip_code_fences("```json\n{\"a\":1}\n```"), "{\"a\":1}");
    assert_eq!(strip_code_fences("```\n{\"a\":1}\n```"), "{\"a\":1}");
    assert_eq!(strip_code_fences("\n```json\n{\"a\":1}\n```\n\n"), "{\"a\":1}");
    assert_eq!(strip_code_fences("```json{\"a\":1}```"), "{\"a\":1}");
    assert_eq!(strip_code_fences("``````{}``````"), "{}");
    assert_eq!(strip_code_fences("```json```json{}"), "{}");
    assert_eq!(strip_code_fences("```json```"), "");
    assert_eq!(strip_code_fences(""), "");
    assert_eq!(strip_code_fences("   "), "");
    // Only fences at the ends go.
    assert_eq!(strip_code_fences("a ``` b"), "a ``` b");
    assert_eq!(strip_code_fences("``json"), "``json");
    // The same as the chain of standard trims.
    for text in ["```json\n{}\n```", " x ", "```\u{3000}가\u{3000}```", "```JSON\n{}```", "\t```json \n ```"] {
        let expected = text
            .trim()
            .trim_start_matches("```json")
            .trim_start_matches("```")
            .trim_end_matches("```")
            .trim();
        assert_eq!(strip_code_fences(text), expected);
    }
}

#[test]
fn four_records_are_stored_of_a_digest() {
    let digest = DigestResult {
        decisions: vec![item("예산 3000만원으로 확정", 900_000), item("일정 확정", 800_000)],
        action_items: vec![item("김PD가 촬영 장소 섭외", 850_000)],
        risks: vec![],
        summary: "예산이 확정되었고 촬영 준비가 진행 중입니다.".to_string(),
    };
    let records = store_digest(&digest);
    assert_eq!(records.len(), 4);
    let kinds: Vec<&str> = records.iter().map(|r| r.digest_type.as_str()).collect();
    assert_eq!(kinds, vec!["decisions", "action_items", "risks", "summary"]);
    let confidences: Vec<i32> = records.iter().map(|r| r.confidence).collect();
    assert_eq!(confidences, vec![850_000, 850_000, 0, 800_000]);
    for r in &records {
        assert_eq!(r.id.len(), 36);
    }
    assert_ne!(records[0].id, records[1].id);
}
