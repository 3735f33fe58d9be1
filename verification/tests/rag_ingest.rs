use rebe_core::rag::digest::{DigestItem, DigestResult, RiskItem};
use rebe_core::rag::ingest::{
    action_knowledge_type, extraction_user_prompt, format_digest_for_extraction, from_action, from_action_at,
    from_digest, from_digest_at, from_digest_items, from_digest_items_at, from_review, from_review_at, submit_item,
    submit_item_at, ExtractedItem, ExtractionResult,
};
use rebe_core::rag::knowledge::{validate_knowledge_item, KnowledgeItem};

const NOW: &str = "2026-02-23T10:00:00+00:00";

fn s(x: &str) -> Option<String> {
    Some(x.to_string())
}

fn digest_item(text: &str, confidence: i32, priority: &str) -> DigestItem {
    DigestItem { text: text.to_string(), confidence, related_user_ids: vec![], priority: priority.to_string() }
}

fn risk_item(text: &str, confidence: i32, priority: &str) -> RiskItem {
    RiskItem { text: text.to_string(), confidence, priority: priority.to_string() }
}

fn check_defaults(item: &KnowledgeItem) {
    assert_eq!(item.id, "");
    assert_eq!(item.summary, None);
    assert_eq!(item.relevance_score, 500_000);
    assert_eq!(item.usage_count, 0);
    assert_eq!(item.decision_maker, None);
    assert_eq!(item.financial_impact_krw, None);
    assert_eq!(item.did_author, None);
    assert!(item.is_active);
    assert_eq!(item.expires_at, None);
    assert_eq!(item.created_at, item.updated_at);
}

#[test]
fn test_format_digest() {
    let digest = DigestResult {
        decisions: vec![digest_item("예산 3000만원 확정", 900_000, "high")],
        action_items: vec![],
        risks: vec![risk_item("일정 촉박", 700_000, "medium")],
        summary: "예산 확정 회의".to_string(),
    };

    let formatted = format_digest_for_extraction(&digest);
    assert!(formatted.contains("예산 3000만원 확정"));
    assert!(formatted.contains("일정 촉박"));
    assert!(formatted.contains("예산 확정 회의"));
}

#[test]
fn digest_text_has_a_section_per_kind_that_has_items() {
    let digest = DigestResult {
        decisions: vec![digest_item("예산 3000만원 확정", 900_000, "high")],
        action_items: vec![],
        risks: vec![risk_item("일정 촉박", 700_000, "medium")],
        summary: "예산 확정 회의".to_string(),
    };
    assert_eq!(
        format_digest_for_extraction(&digest),
        "## Decisions:\n- [high] 예산 3000만원 확정\n\n## Risks:\n- [medium] 일정 촉박\n\n## Summary: 예산 확정 회의"
    );

    let full = DigestResult {
        decisions: vec![digest_item("d1", 1, "low"), digest_item("d2", 1, "high")],
        action_items: vec![digest_item("a1", 1, "medium")],
        risks: vec![risk_item("r1", 1, "high"), risk_item("r2", 1, "low")],
        summary: "s".to_string(),
    };
    assert_eq!(
        format_digest_for_extraction(&full),
        "## Decisions:\n- [low] d1\n- [high] d2\n\n## Action Items:\n- [medium] a1\n\n## Risks:\n- [high] r1\n- [low] r2\n\n## Summary: s"
    );

    let empty = DigestResult { decisions: vec![], action_items: vec![], risks: vec![], summary: "요약".to_string() };
    assert_eq!(format_digest_for_extraction(&empty), "\n## Summary: 요약");
}

#[test]
fn extraction_prompt_wraps_the_digest_text() {
    assert_eq!(
        extraction_user_prompt("## Decisions:"),
        "다음 채팅 다이제스트에서 재사용 가능한 지식 패턴을 추출해주세요:\n\n## Decisions:"
    );
}

#[test]
fn action_types_map_to_knowledge_types() {
    for (action, knowledge) in [
        ("create_task", "workflow"),
        ("complete_task", "workflow"),
        ("schedule_event", "schedule_change"),
        ("reschedule", "schedule_change"),
        ("budget_update", "budget_decision"),
        ("expense_record", "budget_decision"),
        ("decision", "decision_pattern"),
        ("approval", "decision_pattern"),
        ("risk_flag", "recurring_risk"),
        ("anything_else", "context"),
        ("", "context"),
        ("Create_Task", "context"),
    ] {
        assert_eq!(action_knowledge_type(action), knowledge);
    }
}

#[test]
fn an_action_becomes_one_item() {
    let plan = from_action_at(
        false,
        "budget_update",
        "예산 10% 증액",
        Some("u1"),
        Some("p1"),
        "action-1",
        s("{\"action_type\":\"budget_update\"}"),
        NOW,
    );
    assert_eq!(plan.skipped_count, 0);
    assert!(plan.mark_extracted);
    assert_eq!(plan.items.len(), 1);
    let item = &plan.items[0];
    check_defaults(item);
    assert_eq!(item.content, "예산 10% 증액");
    assert_eq!(item.knowledge_type, "budget_decision");
    assert_eq!(item.source_type, "brain_action");
    assert_eq!(item.scope, "team");
    assert_eq!((&item.scope_layer, &item.role_tag, &item.dialectic_tag), (&None, &None, &None));
    assert_eq!(item.confidence, 600_000);
    assert_eq!(item.outcome, None);
    assert_eq!(item.source_id, s("action-1"));
    assert_eq!(item.source_context, s("{\"action_type\":\"budget_update\"}"));
    assert_eq!(item.user_id, s("u1"));
    assert_eq!(item.project_id, s("p1"));
    assert_eq!(item.created_at, NOW);
    assert_eq!(validate_knowledge_item(item), Ok(()));

    let personal = from_action_at(false, "x", "c", None, None, "a", None, NOW);
    assert_eq!(personal.items[0].scope, "personal");
    assert_eq!(personal.items[0].knowledge_type, "context");
    assert_eq!(personal.items[0].user_id, None);
    assert_eq!(personal.items[0].source_context, None);

    let stamped = from_action(false, "decision", "c", None, None, "a", None);
    assert_eq!(stamped.items.len(), 1);
    assert!(chrono::DateTime::parse_from_rfc3339(&stamped.items[0].created_at).is_ok());
    assert_eq!(stamped.items[0].created_at, stamped.items[0].updated_at);
    assert_eq!(stamped.items[0].knowledge_type, "decision_pattern");
}

#[test]
fn a_source_that_was_extracted_before_is_skipped() {
    let plan = from_action_at(true, "decision", "c", None, None, "a", None, NOW);
    assert!(plan.items.is_empty());
    assert_eq!(plan.skipped_count, 0);
    assert!(!plan.mark_extracted);
    assert!(from_action(true, "decision", "c", None, None, "a", None).items.is_empty());

    let plan = from_review_at(true, "a", "b", 4_000_000, "충분히 긴 평가 내용입니다", None, None, "r", None, NOW);
    assert!(plan.items.is_empty());
    assert_eq!(plan.skipped_count, 0);
    assert!(!plan.mark_extracted);
    assert!(from_review(true, "a", "b", 4_000_000, "충분히 긴 평가 내용입니다", None, None, "r", None).items.is_empty());

    let extracted = ExtractionResult {
        items: vec![ExtractedItem {
            content: "c".to_string(),
            knowledge_type: "context".to_string(),
            role_tag: None,
            dialectic_tag: None,
            scope_layer: None,
            confidence: 700_000,
        }],
    };
    let plan = from_digest_at(true, &extracted, None, None, "d", &None, NOW);
    assert!(plan.items.is_empty());
    assert!(!plan.mark_extracted);
    assert!(from_digest(true, &extracted, None, None, "d", &None).items.is_empty());
}

#[test]
fn a_review_becomes_one_item() {
    let plan = from_review_at(
        false,
        "김PD",
        "이CD",
        4_500_000,
        "일정 관리가 훌륭했습니다",
        Some("u1"),
        None,
        "review-1",
        s("{}"),
        NOW,
    );
    assert_eq!(plan.skipped_count, 0);
    assert!(plan.mark_extracted);
    assert_eq!(plan.items.len(), 1);
    let item = &plan.items[0];
    check_defaults(item);
    assert_eq!(item.content, "김PD님의 이CD님 평가 (4.5점/5점): 일정 관리가 훌륭했습니다");
    assert_eq!(item.knowledge_type, "feedback_pattern");
    assert_eq!(item.source_type, "peer_review");
    // A review is of team scope also without a project.
    assert_eq!(item.scope, "team");
    assert_eq!(item.dialectic_tag, None);
    assert_eq!(item.confidence, 900_000);
    assert_eq!(item.source_id, s("review-1"));
    assert_eq!(item.source_context, s("{}"));
    assert_eq!(item.user_id, s("u1"));
    assert_eq!(item.project_id, None);
    assert_eq!(validate_knowledge_item(item), Ok(()));
}

#[test]
fn a_low_rating_is_a_constraint() {
    let comment = "소통이 부족했습니다 정말로";
    let low = from_review_at(false, "a", "b", 2_999_999, comment, None, None, "r", None, NOW);
    assert_eq!(low.items[0].dialectic_tag, s("constraint"));
    assert_eq!(low.items[0].confidence, 599_999);
    assert_eq!(low.items[0].content, format!("a님의 b님 평가 (2.999999점/5점): {}", comment));
    let three = from_review_at(false, "a", "b", 3_000_000, comment, None, None, "r", None, NOW);
    assert_eq!(three.items[0].dialectic_tag, None);
    assert_eq!(three.items[0].confidence, 600_000);
    assert_eq!(three.items[0].content, format!("a님의 b님 평가 (3점/5점): {}", comment));
    let top = from_review_at(false, "a", "b", 5_000_000, comment, None, None, "r", None, NOW);
    assert_eq!(top.items[0].confidence, 1_000_000);
    let over = from_review_at(false, "a", "b", 7_250_000, comment, None, None, "r", None, NOW);
    assert_eq!(over.items[0].confidence, 1_000_000);
    assert_eq!(over.items[0].content, format!("a님의 b님 평가 (7.25점/5점): {}", comment));
    let zero = from_review_at(false, "a", "b", 0, comment, None, None, "r", None, NOW);
    assert_eq!(zero.items[0].confidence, 0);
    assert_eq!(zero.items[0].content, format!("a님의 b님 평가 (0점/5점): {}", comment));
    let small = from_review_at(false, "a", "b", 50_000, comment, None, None, "r", None, NOW);
    assert_eq!(small.items[0].content, format!("a님의 b님 평가 (0.05점/5점): {}", comment));
    let negative = from_review_at(false, "a", "b", -1_500_001, comment, None, None, "r", None, NOW);
    assert_eq!(negative.items[0].confidence, -300_000);
    assert_eq!(negative.items[0].content, format!("a님의 b님 평가 (-1.500001점/5점): {}", comment));
}

#[test]
fn a_slight_comment_is_skipped() {
    for comment in ["", "   ", "\n\t          \n", "too short", "123456789", "가나다"] {
        let plan = from_review_at(false, "a", "b", 4_000_000, comment, None, None, "r", None, NOW);
        assert!(plan.items.is_empty());
        assert_eq!(plan.skipped_count, 1);
        assert!(!plan.mark_extracted);
    }
    // Ten bytes are enough, however few characters they are.
    for comment in ["1234567890", "가나다라", " 가나다 "] {
        let plan = from_review_at(false, "a", "b", 4_000_000, comment, None, None, "r", None, NOW);
        assert_eq!(plan.items.len(), 1);
        assert_eq!(plan.skipped_count, 0);
    }
}

#[test]
fn extracted_items_become_items_in_their_order() {
    let extracted = ExtractionResult {
        items: vec![
            ExtractedItem {
                content: "예산 협상 시 목표 내수율을 역산하여 견적 하한선 설정".to_string(),
                knowledge_type: "budget_decision".to_string(),
                role_tag: s("CEO"),
                dialectic_tag: None,
                scope_layer: s("operations"),
                confidence: 850_000,
            },
            ExtractedItem {
                content: "일정 지연은 반복되는 리스크".to_string(),
                knowledge_type: "recurring_risk".to_string(),
                role_tag: None,
                dialectic_tag: s("risk"),
                scope_layer: None,
                confidence: 100_000,
            },
        ],
    };
    let context = s("{\"digest_summary\":\"요약\",\"extraction_source\":\"digest_deep_analysis\"}");
    let plan = from_digest_at(false, &extracted, Some("u1"), Some("p1"), "digest-1", &context, NOW);
    assert!(plan.mark_extracted);
    assert_eq!(plan.skipped_count, 0);
    assert_eq!(plan.items.len(), 2);
    let first = &plan.items[0];
    check_defaults(first);
    assert_eq!(first.content, "예산 협상 시 목표 내수율을 역산하여 견적 하한선 설정");
    assert_eq!(first.knowledge_type, "budget_decision");
    assert_eq!(first.source_type, "chat_digest");
    assert_eq!(first.scope, "team");
    assert_eq!(first.scope_layer, s("operations"));
    assert_eq!(first.role_tag, s("CEO"));
    assert_eq!(first.dialectic_tag, None);
    assert_eq!(first.confidence, 850_000);
    assert_eq!(first.outcome, None);
    assert_eq!(first.source_id, s("digest-1"));
    assert_eq!(first.source_context, context);
    assert_eq!((&first.user_id, &first.project_id), (&s("u1"), &s("p1")));
    assert_eq!(first.created_at, NOW);
    let second = &plan.items[1];
    assert_eq!(second.dialectic_tag, s("risk"));
    assert_eq!(second.confidence, 100_000);
    assert_eq!(second.source_context, context);

    // An extraction without items is still recorded.
    let nothing = from_digest_at(false, &ExtractionResult { items: vec![] }, None, None, "d", &None, NOW);
    assert!(nothing.items.is_empty());
    assert!(nothing.mark_extracted);
    let personal = from_digest(false, &extracted, None, None, "d", &None);
    assert_eq!(personal.items.len(), 2);
    assert_eq!(personal.items[0].scope, "personal");
}

#[test]
fn confident_decisions_and_risks_become_items() {
    let digest = DigestResult {
        decisions: vec![
            digest_item("확정 1", 600_000, "high"),
            digest_item("불확실", 599_999, "high"),
            digest_item("확정 2", 900_000, "low"),
        ],
        action_items: vec![digest_item("액션", 990_000, "high")],
        risks: vec![risk_item("낮음", 499_999, "low"), risk_item("리스크", 500_000, "high")],
        summary: "요약".to_string(),
    };
    let plan = from_digest_items_at(&digest, Some("u1"), Some("p1"), NOW);
    assert!(!plan.mark_extracted);
    assert_eq!(plan.skipped_count, 0);
    let contents: Vec<&str> = plan.items.iter().map(|i| i.content.as_str()).collect();
    assert_eq!(contents, vec!["확정 1", "확정 2", "리스크"]);
    let decision = &plan.items[0];
    check_defaults(decision);
    assert_eq!(decision.knowledge_type, "decision_pattern");
    assert_eq!(decision.source_type, "chat_digest");
    assert_eq!(decision.scope, "team");
    assert_eq!(decision.dialectic_tag, None);
    assert_eq!(decision.confidence, 600_000);
    assert_eq!(decision.outcome, s("confirmed"));
    assert_eq!((&decision.source_id, &decision.source_context), (&None, &None));
    assert_eq!((&decision.user_id, &decision.project_id), (&s("u1"), &s("p1")));
    assert_eq!(validate_knowledge_item(decision), Ok(()));
    let risk = &plan.items[2];
    check_defaults(risk);
    assert_eq!(risk.knowledge_type, "recurring_risk");
    assert_eq!(risk.dialectic_tag, s("risk"));
    assert_eq!(risk.confidence, 500_000);
    assert_eq!(risk.outcome, None);
    assert_eq!(validate_knowledge_item(risk), Ok(()));

    let personal = from_digest_items(&digest, None, None);
    assert_eq!(personal.items.len(), 3);
    assert_eq!(personal.items[0].scope, "personal");
    let empty = DigestResult { decisions: vec![], action_items: vec![], risks: vec![], summary: String::new() };
    assert!(from_digest_items_at(&empty, None, None, NOW).items.is_empty());
}

#[test]
fn an_item_that_a_caller_hands_in() {
    let item = submit_item_at(
        "내용".to_string(),
        "context".to_string(),
        "manual".to_string(),
        None,
        None,
        None,
        None,
        None,
        None,
        None,
        None,
        None,
        None,
        NOW,
    );
    check_defaults(&item);
    assert_eq!(item.content, "내용");
    assert_eq!(item.knowledge_type, "context");
    assert_eq!(item.source_type, "manual");
    assert_eq!(item.scope, "personal");
    assert_eq!(item.confidence, 500_000);
    assert_eq!(item.outcome, None);
    assert_eq!(item.created_at, NOW);
    assert_eq!(validate_knowledge_item(&item), Ok(()));

    let item = submit_item(
        "c".to_string(),
        "workflow".to_string(),
        "import".to_string(),
        s("role"),
        s("creative"),
        s("CD"),
        s("quality"),
        Some(910_000),
        s("u1"),
        s("p1"),
        s("src"),
        s("{}"),
        s("did:key:z6Mk"),
    );
    assert_eq!(item.id, "");
    assert_eq!(item.scope, "role");
    assert_eq!(item.scope_layer, s("creative"));
    assert_eq!(item.role_tag, s("CD"));
    assert_eq!(item.dialectic_tag, s("quality"));
    assert_eq!(item.confidence, 910_000);
    assert_eq!(item.relevance_score, 500_000);
    assert_eq!((&item.user_id, &item.project_id), (&s("u1"), &s("p1")));
    assert_eq!((&item.source_id, &item.source_context), (&s("src"), &s("{}")));
    assert_eq!(item.did_author, s("did:key:z6Mk"));
    assert!(item.is_active);
    assert_eq!(item.created_at, item.updated_at);
    assert!(chrono::DateTime::parse_from_rfc3339(&item.created_at).is_ok());
    assert_eq!(validate_knowledge_item(&item), Ok(()));
}
