use rebe_core::error::{EngineError, ErrorKind};
use rebe_core::rag::query::{
    antithesis_params, build_rag_context, candidate_limit, dialectic_params, dialectic_search, hybrid_score,
    hybrid_search, is_search_scope, log_query, matches_scope, merge_passes, personal_params, rank, search_params,
    similarity_from_distance, thesis_params, usage_factor, validate_search_params, CandidateRow, DialecticParams,
    RankKey, SearchParams, SearchResult,
};

fn s(x: &str) -> Option<String> {
    Some(x.to_string())
}

fn row(id: &str, scope: &str, similarity: i32) -> CandidateRow {
    CandidateRow {
        id: id.to_string(),
        content: format!("content of {}", id),
        summary: None,
        knowledge_type: "context".to_string(),
        source_type: "test".to_string(),
        scope: scope.to_string(),
        role_tag: None,
        dialectic_tag: None,
        confidence: 700_000,
        relevance_score: 500_000,
        usage_count: 0,
        project_id: None,
        user_id: None,
        similarity,
    }
}

fn result(id: &str, hybrid_score: i64, similarity: i32) -> SearchResult {
    SearchResult {
        id: id.to_string(),
        content: format!("content of {}", id),
        summary: None,
        knowledge_type: "context".to_string(),
        source_type: "test".to_string(),
        scope: "global".to_string(),
        role_tag: None,
        dialectic_tag: None,
        confidence: 700_000,
        relevance_score: 500_000,
        usage_count: 0,
        similarity,
        hybrid_score,
        project_id: None,
        user_id: None,
    }
}

fn ids(results: &[SearchResult]) -> Vec<String> {
    results.iter().map(|r| r.id.clone()).collect()
}

#[test]
fn default_parameters() {
    let p = SearchParams::default();
    assert!(p.query_embedding.is_empty());
    assert_eq!(p.scope, "all");
    assert_eq!((p.user_id, p.project_id, p.role_tag, p.knowledge_type), (None, None, None, None));
    assert_eq!(p.threshold, 300_000);
    assert_eq!(p.limit, 5);
    assert_eq!((p.vector_weight, p.relevance_weight, p.usage_weight), (700_000, 200_000, 100_000));

    let d = DialecticParams::default();
    assert_eq!(d.opposing_tags, vec!["risk", "constraint", "client_concern"]);
    assert_eq!(d.threshold, 250_000);
    assert_eq!(d.limit, 3);
    assert_eq!((d.user_id, d.project_id, d.role_tag), (None, None, None));
}

#[test]
fn hybrid_fusion_of_two_rows() {
    // similarity 0.90 / 0.80, relevance 0.30 / 0.95, usage 0 / 40, weights 0.70 / 0.20 / 0.10
    assert_eq!(hybrid_score(900_000, 300_000, 0, 700_000, 200_000, 100_000), 690_000);
    assert_eq!(hybrid_score(800_000, 950_000, 40, 700_000, 200_000, 100_000), 850_000);

    let mut first = row("first", "global", 900_000);
    first.relevance_score = 300_000;
    first.usage_count = 0;
    let mut second = row("second", "global", 800_000);
    second.relevance_score = 950_000;
    second.usage_count = 40;
    let results = hybrid_search(vec![first, second], &SearchParams::default()).unwrap();
    assert_eq!(ids(&results), vec!["second", "first"]);
    assert_eq!(results[0].hybrid_score, 850_000);
    assert_eq!(results[1].hybrid_score, 690_000);
    assert_eq!(results[0].similarity, 800_000);
    assert_eq!(results[0].relevance_score, 950_000);
    assert_eq!(results[0].usage_count, 40);
}

#[test]
fn usage_factor_is_a_twentieth_per_use_up_to_one() {
    assert_eq!(usage_factor(0), 0);
    assert_eq!(usage_factor(1), 50_000);
    assert_eq!(usage_factor(10), 500_000);
    assert_eq!(usage_factor(19), 950_000);
    assert_eq!(usage_factor(20), 1_000_000);
    assert_eq!(usage_factor(21), 1_000_000);
    assert_eq!(usage_factor(i64::MAX), 1_000_000);
    assert_eq!(usage_factor(-3), 0);
    assert_eq!(usage_factor(i64::MIN), 0);
}

#[test]
fn hybrid_score_is_the_weighted_sum_cut_to_millionths() {
    assert_eq!(hybrid_score(0, 0, 0, 700_000, 200_000, 100_000), 0);
    assert_eq!(hybrid_score(1_000_000, 1_000_000, 20, 700_000, 200_000, 100_000), 1_000_000);
    assert_eq!(hybrid_score(333_333, 0, 0, 700_000, 0, 0), 233_333);
    assert_eq!(hybrid_score(1, 0, 0, 999_999, 0, 0), 0);
    assert_eq!(hybrid_score(-1, 0, 0, 999_999, 0, 0), 0);
    assert_eq!(hybrid_score(-500_000, 0, 0, 700_000, 0, 0), -350_000);
    assert_eq!(hybrid_score(-333_333, 0, 0, 700_000, 0, 0), -233_333);
    assert_eq!(hybrid_score(500_000, 500_000, 5, 1_000_000, 1_000_000, 1_000_000), 1_250_000);
    let extreme = hybrid_score(i32::MAX, i32::MAX, i64::MAX, i32::MAX, i32::MAX, i32::MAX);
    let expected = (2 * (i32::MAX as i128) * (i32::MAX as i128) + 1_000_000 * (i32::MAX as i128)) / 1_000_000;
    assert_eq!(extreme as i128, expected);
    let low = hybrid_score(i32::MIN, i32::MAX, 0, i32::MAX, i32::MIN, 0);
    assert_eq!(low as i128, -((2 * (i32::MAX as i128) * 0x8000_0000) / 1_000_000));
}

#[test]
fn candidate_limit_and_similarity() {
    assert_eq!(candidate_limit(5), 25);
    assert_eq!(candidate_limit(0), 0);
    assert_eq!(candidate_limit(usize::MAX / 5), usize::MAX / 5 * 5);
    assert_eq!(candidate_limit(usize::MAX / 5 + 1), usize::MAX);
    assert_eq!(candidate_limit(usize::MAX), usize::MAX);
    assert_eq!(similarity_from_distance(0), 1_000_000);
    assert_eq!(similarity_from_distance(100_000), 900_000);
    assert_eq!(similarity_from_distance(2_000_000), -1_000_000);
    assert_eq!(similarity_from_distance(i32::MAX), 1_000_000 - i32::MAX);
    assert_eq!(similarity_from_distance(1_000_000 - i32::MAX), i32::MAX);
    assert_eq!(similarity_from_distance(i32::MIN), i32::MAX);
}

#[test]
fn personal_scope_admits_own_personal_rows() {
    let mut r = row("a", "personal", 0);
    r.user_id = s("u1");
    assert!(matches_scope(&r, "personal", &s("u1"), &None, &None));
    assert!(!matches_scope(&r, "personal", &s("u2"), &None, &None));
    assert!(!matches_scope(&r, "personal", &None, &None, &None));
    let nobody = row("b", "personal", 0);
    assert!(matches_scope(&nobody, "personal", &None, &None, &None));
    assert!(!matches_scope(&nobody, "personal", &s("u1"), &None, &None));
    let mut team = row("c", "team", 0);
    team.user_id = s("u1");
    assert!(!matches_scope(&team, "personal", &s("u1"), &None, &None));
}

#[test]
fn team_scope_admits_team_and_global_rows_of_the_project_or_of_none() {
    let mut r = row("a", "team", 0);
    r.project_id = s("p1");
    assert!(matches_scope(&r, "team", &None, &s("p1"), &None));
    assert!(!matches_scope(&r, "team", &None, &s("p2"), &None));
    assert!(!matches_scope(&r, "team", &None, &None, &None));
    let free = row("b", "global", 0);
    assert!(matches_scope(&free, "team", &None, &s("p1"), &None));
    assert!(matches_scope(&free, "team", &None, &None, &None));
    let mut personal = row("c", "personal", 0);
    personal.project_id = s("p1");
    assert!(!matches_scope(&personal, "team", &None, &s("p1"), &None));
    assert!(!matches_scope(&row("d", "role", 0), "team", &None, &None, &None));
}

#[test]
fn role_scope_admits_role_and_global_rows_of_the_role_or_of_none() {
    let mut r = row("a", "role", 0);
    r.role_tag = s("PD");
    assert!(matches_scope(&r, "role", &None, &None, &s("PD")));
    assert!(!matches_scope(&r, "role", &None, &None, &s("CD")));
    assert!(!matches_scope(&r, "role", &None, &None, &None));
    assert!(matches_scope(&row("b", "global", 0), "role", &None, &None, &s("PD")));
    assert!(matches_scope(&row("c", "role", 0), "role", &None, &None, &None));
    assert!(!matches_scope(&row("d", "team", 0), "role", &None, &None, &None));
}

#[test]
fn all_scope_admits_own_project_and_shared_rows() {
    let mut own = row("a", "personal", 0);
    own.user_id = s("u1");
    assert!(matches_scope(&own, "all", &s("u1"), &None, &None));
    assert!(!matches_scope(&own, "all", &s("u2"), &None, &None));
    // A row without a user is nobody's own.
    assert!(!matches_scope(&row("b", "personal", 0), "all", &None, &None, &None));
    let mut team = row("c", "team", 0);
    team.project_id = s("p1");
    assert!(matches_scope(&team, "all", &None, &s("p1"), &None));
    assert!(!matches_scope(&team, "all", &None, &s("p2"), &None));
    // A team row without a project is not in the requested project.
    assert!(!matches_scope(&row("d", "team", 0), "all", &None, &None, &None));
    assert!(matches_scope(&row("e", "role", 0), "all", &None, &None, &None));
    assert!(matches_scope(&row("f", "global", 0), "all", &None, &None, &None));
    let mut foreign = row("g", "personal", 0);
    foreign.project_id = s("p1");
    assert!(!matches_scope(&foreign, "all", &None, &s("p1"), &None));
}

#[test]
fn unknown_scope_admits_nothing() {
    let r = row("a", "global", 0);
    assert!(!matches_scope(&r, "everything", &None, &None, &None));
    assert!(!matches_scope(&r, "", &None, &None, &None));
    assert!(!matches_scope(&r, "global", &None, &None, &None));
    let unknown = SearchParams { scope: "x".to_string(), ..SearchParams::default() };
    assert_eq!(validate_search_params(&unknown), Err(EngineError::UnknownScope));
    assert_eq!(hybrid_search(vec![row("a", "global", 900_000)], &unknown).unwrap_err(), EngineError::UnknownScope);
    let global = SearchParams { scope: "global".to_string(), ..SearchParams::default() };
    assert_eq!(hybrid_search(vec![], &global).unwrap_err(), EngineError::UnknownScope);
    assert_eq!(EngineError::UnknownScope.kind(), ErrorKind::InvalidArgument);
    for scope in ["personal", "team", "role", "all"] {
        assert!(is_search_scope(scope));
        let known = SearchParams { scope: scope.to_string(), ..SearchParams::default() };
        assert_eq!(validate_search_params(&known), Ok(()));
        assert!(hybrid_search(vec![], &known).unwrap().is_empty());
    }
    for scope in ["global", "", "All", "all "] {
        assert!(!is_search_scope(scope));
    }
}

#[test]
fn hybrid_search_filters_by_threshold_type_and_scope() {
    let mut typed = row("typed", "global", 900_000);
    typed.knowledge_type = "budget_decision".to_string();
    let rows = vec![
        row("low", "global", 299_999),
        row("edge", "global", 300_000),
        typed,
        row("hidden", "personal", 950_000),
    ];
    let results = hybrid_search(rows, &SearchParams::default()).unwrap();
    assert_eq!(ids(&results), vec!["typed", "edge"]);

    let mut typed = row("typed", "global", 900_000);
    typed.knowledge_type = "budget_decision".to_string();
    let rows = vec![row("edge", "global", 300_000), typed];
    let only_budget = SearchParams { knowledge_type: s("budget_decision"), ..SearchParams::default() };
    assert_eq!(ids(&hybrid_search(rows, &only_budget).unwrap()), vec!["typed"]);
    assert!(hybrid_search(vec![], &SearchParams::default()).unwrap().is_empty());
}

#[test]
fn hybrid_search_ranks_stably_and_cuts_to_the_limit() {
    let rows = vec![
        row("a", "global", 500_000),
        row("b", "global", 700_000),
        row("c", "global", 500_000),
        row("d", "global", 900_000),
        row("e", "global", 700_000),
        row("f", "global", 400_000),
        row("g", "global", 500_000),
    ];
    let results = hybrid_search(rows, &SearchParams::default()).unwrap();
    assert_eq!(ids(&results), vec!["d", "b", "e", "a", "c"]);
    for pair in results.windows(2) {
        assert!(pair[0].hybrid_score >= pair[1].hybrid_score);
    }
    let rows = vec![row("a", "global", 500_000), row("b", "global", 700_000)];
    let none = SearchParams { limit: 0, ..SearchParams::default() };
    assert!(hybrid_search(rows, &none).unwrap().is_empty());
}

#[test]
fn rank_by_either_value() {
    let items = vec![result("a", 1, 30), result("b", 3, 10), result("c", 2, 20), result("d", 3, 5)];
    assert_eq!(ids(&rank(items, RankKey::HybridScore, 10)), vec!["b", "d", "c", "a"]);
    let items = vec![result("a", 1, 30), result("b", 3, 10), result("c", 2, 20), result("d", 3, 5)];
    assert_eq!(ids(&rank(items, RankKey::Similarity, 2)), vec!["a", "c"]);
    assert!(rank(vec![], RankKey::Similarity, 3).is_empty());
    assert!(rank(vec![result("a", 1, 1)], RankKey::Similarity, 0).is_empty());
    let items = vec![result("x", i64::MIN, 0), result("y", i64::MAX, 0), result("z", 0, 0)];
    assert_eq!(ids(&rank(items, RankKey::HybridScore, 3)), vec!["y", "z", "x"]);
}

fn tagged(id: &str, scope: &str, tag: &str, similarity: i32) -> CandidateRow {
    let mut r = row(id, scope, similarity);
    r.dialectic_tag = s(tag);
    r
}

#[test]
fn dialectic_search_keeps_opposing_tags_and_ranks_by_similarity() {
    let mut high_relevance = tagged("constraint", "global", "constraint", 400_000);
    high_relevance.relevance_score = 1_000_000;
    high_relevance.usage_count = 100;
    let rows = vec![
        tagged("risk", "global", "risk", 600_000),
        tagged("opportunity", "global", "opportunity", 990_000),
        high_relevance,
        row("untagged", "global", 990_000),
        tagged("concern", "role", "client_concern", 800_000),
        tagged("low", "global", "risk", 249_999),
        tagged("edge", "global", "risk", 250_000),
    ];
    let results = dialectic_search(rows, &DialecticParams::default());
    assert_eq!(ids(&results), vec!["concern", "risk", "constraint"]);
    // The score is the raw similarity: relevance and usage do not count.
    assert_eq!(results[2].hybrid_score, 400_000);
    assert_eq!(results[0].hybrid_score, 800_000);
    assert_eq!(results[0].similarity, 800_000);

    let only_quality = DialecticParams { opposing_tags: vec!["quality".to_string()], ..DialecticParams::default() };
    let rows = vec![tagged("q", "global", "quality", 500_000), tagged("r", "global", "risk", 900_000)];
    assert_eq!(ids(&dialectic_search(rows, &only_quality)), vec!["q"]);
    let no_tags = DialecticParams { opposing_tags: vec![], ..DialecticParams::default() };
    assert!(dialectic_search(vec![tagged("r", "global", "risk", 900_000)], &no_tags).is_empty());
}

#[test]
fn dialectic_scope_admission() {
    let with_user = DialecticParams { user_id: s("u1"), ..DialecticParams::default() };
    let mut own = tagged("own", "personal", "risk", 900_000);
    own.user_id = s("u1");
    let mut foreign = tagged("foreign", "personal", "risk", 900_000);
    foreign.user_id = s("u2");
    let mut team_in_project = tagged("team_project", "team", "risk", 900_000);
    team_in_project.project_id = s("p1");
    let rows = vec![own, foreign, team_in_project, tagged("team_free", "team", "risk", 800_000)];
    assert_eq!(ids(&dialectic_search(rows, &with_user)), vec!["own", "team_free"]);

    // A row without a user is nobody's own, whatever the caller is called.
    let rows = vec![tagged("nobody", "personal", "risk", 900_000)];
    assert!(dialectic_search(rows, &DialecticParams::default()).is_empty());
    let empty_name = DialecticParams { user_id: s(""), ..DialecticParams::default() };
    let rows = vec![tagged("nobody", "personal", "risk", 900_000)];
    assert!(dialectic_search(rows, &empty_name).is_empty());
    let mut unnamed = tagged("unnamed", "personal", "risk", 900_000);
    unnamed.user_id = s("");
    assert_eq!(ids(&dialectic_search(vec![unnamed], &empty_name)), vec!["unnamed"]);
}

#[test]
fn dialectic_role_admission() {
    let as_pd = DialecticParams { role_tag: s("PD"), ..DialecticParams::default() };
    let mut pd = tagged("pd", "global", "risk", 900_000);
    pd.role_tag = s("PD");
    let mut cd = tagged("cd", "global", "risk", 800_000);
    cd.role_tag = s("CD");
    let mut ceo = tagged("ceo", "global", "risk", 700_000);
    ceo.role_tag = s("CEO");
    let rows = vec![pd, cd, ceo, tagged("any", "global", "risk", 600_000)];
    assert_eq!(ids(&dialectic_search(rows, &as_pd)), vec!["pd", "ceo", "any"]);

    // A caller without a role sees the rows without a role and those of
    // the role that everyone sees, and no others.
    let mut pd = tagged("pd", "global", "risk", 900_000);
    pd.role_tag = s("PD");
    let mut cd = tagged("cd", "global", "risk", 800_000);
    cd.role_tag = s("CD");
    let mut ceo = tagged("ceo", "global", "risk", 700_000);
    ceo.role_tag = s("CEO");
    let rows = vec![pd, cd, ceo, tagged("any", "global", "risk", 600_000)];
    assert_eq!(ids(&dialectic_search(rows, &DialecticParams::default())), vec!["ceo", "any"]);
}

#[test]
fn three_pass_dedup() {
    let thesis = vec![result("A", 3, 0), result("B", 2, 0), result("C", 1, 0)];
    let antithesis = vec![result("B", 9, 0), result("D", 8, 0)];
    let personal = vec![result("A", 7, 0), result("E", 6, 0)];
    let merged = merge_passes(thesis, antithesis, personal);
    assert_eq!(ids(&merged), vec!["A", "B", "C", "D", "E"]);
    // The first occurrence stays.
    assert_eq!(merged[0].hybrid_score, 3);
    assert_eq!(merged[1].hybrid_score, 2);

    assert!(merge_passes(vec![], vec![], vec![]).is_empty());
    let merged = merge_passes(vec![result("A", 1, 0), result("A", 2, 0)], vec![], vec![result("A", 3, 0)]);
    assert_eq!(ids(&merged), vec!["A"]);
    assert_eq!(merged[0].hybrid_score, 1);
    let merged = merge_passes(vec![], vec![result("X", 1, 0)], vec![result("Y", 1, 0)]);
    assert_eq!(ids(&merged), vec!["X", "Y"]);
}

#[test]
fn parameters_of_the_three_passes() {
    let embedding = vec![1u32, 2, 3];
    let thesis = thesis_params(embedding.clone(), s("team"), &s("u1"), &s("p1"), &s("PD"));
    assert_eq!(thesis.query_embedding, embedding);
    assert_eq!(thesis.scope, "team");
    assert_eq!((thesis.user_id, thesis.project_id, thesis.role_tag), (s("u1"), s("p1"), s("PD")));
    assert_eq!(thesis.knowledge_type, None);
    assert_eq!((thesis.threshold, thesis.limit), (300_000, 5));
    assert_eq!((thesis.vector_weight, thesis.relevance_weight, thesis.usage_weight), (700_000, 200_000, 100_000));
    assert_eq!(thesis_params(vec![], None, &None, &None, &None).scope, "all");

    let anti = antithesis_params(embedding.clone(), &s("u1"), &s("p1"), &s("PD"));
    assert_eq!(anti.query_embedding, embedding);
    assert_eq!((anti.user_id, anti.project_id, anti.role_tag), (s("u1"), s("p1"), s("PD")));
    assert_eq!(anti.opposing_tags, vec!["risk", "constraint", "client_concern"]);
    assert_eq!((anti.threshold, anti.limit), (250_000, 3));

    let personal = personal_params(embedding.clone(), &s("u1"));
    assert_eq!(personal.query_embedding, embedding);
    assert_eq!(personal.scope, "personal");
    assert_eq!((personal.user_id, personal.project_id, personal.role_tag), (s("u1"), None, None));
    assert_eq!((personal.threshold, personal.limit), (250_000, 3));
    assert_eq!((personal.vector_weight, personal.relevance_weight, personal.usage_weight), (700_000, 200_000, 100_000));
}

const HEADER: &str = "## 참고 지식 (Knowledge Base)\n아래는 이 조직에서 축적된 실제 판단 기록입니다. 반드시 이 내용을 바탕으로 구체적으로 답변하세요.\n\n";

fn chars(text: &str) -> usize {
    text.chars().count()
}

fn entry(kind: &str, confidence: i32, summary: Option<&str>, content: &str) -> SearchResult {
    let mut r = result("x", 0, 0);
    r.knowledge_type = kind.to_string();
    r.confidence = confidence;
    r.summary = summary.map(|x| x.to_string());
    r.content = content.to_string();
    r
}

#[test]
fn context_of_no_results_is_empty() {
    assert_eq!(build_rag_context(&[], 800), "");
    assert_eq!(build_rag_context(&[], 0), "");
}

#[test]
fn context_renders_header_and_blocks() {
    let items = vec![
        entry("budget_decision", 930_000, None, "예산 3000만원 확정"),
        entry("recurring_risk", 700_000, Some("일정 촉박"), "긴 내용"),
    ];
    let expected = format!(
        "{}### budget_decision (신뢰도: 93%)\n예산 3000만원 확정\n\n### recurring_risk (신뢰도: 70%)\n일정 촉박\n\n",
        HEADER
    );
    assert_eq!(build_rag_context(&items, 800), expected);
    // The budget counts characters: with exactly enough room everything
    // fits, though the text is longer in bytes.
    assert!(expected.len() > chars(&expected));
    assert_eq!(build_rag_context(&items, chars(&expected)), expected);
}

#[test]
fn context_writes_confidence_in_whole_percent() {
    for (confidence, percent) in [(0, "0"), (9_999, "0"), (10_000, "1"), (579_999, "57"), (1_000_000, "100"), (-19_999, "-1")] {
        let out = build_rag_context(&[entry("k", confidence, None, "c")], 800);
        assert_eq!(out, format!("{}### k (신뢰도: {}%)\nc\n\n", HEADER, percent));
    }
}

#[test]
fn context_cuts_the_block_that_does_not_fit() {
    let body = "가".repeat(200);
    let items = vec![entry("k", 500_000, None, &body), entry("later", 500_000, None, "never shown")];
    let header = "### k (신뢰도: 50%)\n";
    let max_chars = chars(HEADER) + chars(header) + 5 + 60;
    let expected = format!("{}{}{}…\n\n", HEADER, header, "가".repeat(60));
    assert_eq!(build_rag_context(&items, max_chars), expected);
    assert!(chars(&expected) <= max_chars);

    // With at least 50 characters of room the block is cut; with fewer it
    // is left out.
    let max_chars = chars(HEADER) + chars(header) + 5 + 50;
    assert_eq!(build_rag_context(&items, max_chars), format!("{}{}{}…\n\n", HEADER, header, "가".repeat(50)));
    let max_chars = chars(HEADER) + chars(header) + 5 + 49;
    assert_eq!(build_rag_context(&items, max_chars), HEADER);
    let max_chars = chars(HEADER) + chars(header) + 5 + 51;
    assert_eq!(build_rag_context(&items, max_chars), format!("{}{}{}…\n\n", HEADER, header, "가".repeat(51)));
}

#[test]
fn context_never_exceeds_a_budget_that_holds_the_header() {
    let items = vec![
        entry("a", 500_000, None, &"가".repeat(70)),
        entry("b", 500_000, Some(&"나".repeat(90)), "c"),
        entry("c", 500_000, None, &"x".repeat(300)),
    ];
    for max_chars in chars(HEADER)..chars(HEADER) + 520 {
        let out = build_rag_context(&items, max_chars);
        assert!(chars(&out) <= max_chars, "{} > {}", chars(&out), max_chars);
        assert!(out.starts_with(HEADER));
    }
}

#[test]
fn context_with_a_tiny_budget_is_the_header_alone() {
    let items = vec![entry("k", 500_000, None, "content")];
    assert_eq!(build_rag_context(&items, 0), HEADER);
    assert_eq!(build_rag_context(&items, 10), HEADER);
    assert_eq!(build_rag_context(&items, chars(HEADER)), HEADER);
}

#[test]
fn context_stops_at_the_first_block_that_does_not_fit() {
    let first = entry("a", 500_000, None, "short");
    let second = entry("b", 500_000, None, &"x".repeat(300));
    let third = entry("c", 500_000, None, "tiny");
    let first_block = "### a (신뢰도: 50%)\nshort\n\n";
    let max_chars = chars(HEADER) + chars(first_block) + 40;
    // The second block does not fit and has too little room; the third
    // would fit but is never reached.
    assert_eq!(build_rag_context(&[first, second, third], max_chars), format!("{}{}", HEADER, first_block));
}

#[test]
fn parameters_from_what_a_caller_gives() {
    let p = search_params(vec![7], None, None, None, None, None, None, None);
    assert_eq!(p.query_embedding, vec![7]);
    assert_eq!(p.scope, "all");
    assert_eq!((p.threshold, p.limit), (300_000, 5));
    assert_eq!((p.vector_weight, p.relevance_weight, p.usage_weight), (700_000, 200_000, 100_000));
    assert_eq!((p.user_id, p.project_id, p.role_tag, p.knowledge_type), (None, None, None, None));
    let p = search_params(vec![], s("team"), s("u"), s("p"), s("PD"), s("workflow"), Some(450_000), Some(9));
    assert_eq!(p.scope, "team");
    assert_eq!((p.user_id, p.project_id, p.role_tag, p.knowledge_type), (s("u"), s("p"), s("PD"), s("workflow")));
    assert_eq!((p.threshold, p.limit), (450_000, 9));
    assert_eq!((p.vector_weight, p.relevance_weight, p.usage_weight), (700_000, 200_000, 100_000));

    let d = dialectic_params(vec![7], None, None, None, None, None, None);
    assert_eq!(d.query_embedding, vec![7]);
    assert_eq!(d.opposing_tags, vec!["risk", "constraint", "client_concern"]);
    assert_eq!((d.threshold, d.limit), (250_000, 3));
    let d = dialectic_params(vec![], s("u"), s("p"), s("PD"), Some(vec!["quality".to_string()]), Some(1), Some(2));
    assert_eq!((d.user_id, d.project_id, d.role_tag), (s("u"), s("p"), s("PD")));
    assert_eq!(d.opposing_tags, vec!["quality"]);
    assert_eq!((d.threshold, d.limit), (1, 2));
    let d = dialectic_params(vec![], None, None, None, Some(vec![]), None, None);
    assert!(d.opposing_tags.is_empty());
}

#[test]
fn query_log_entry_of_results() {
    let entry = log_query(&[result("a", 0, 810_000), result("b", 0, 900_000), result("a", 0, 100_000)]);
    assert_eq!(entry.retrieved_ids, vec!["a", "b", "a"]);
    assert_eq!(entry.result_count, 3);
    assert_eq!(entry.top_similarity, 810_000);
    let none = log_query(&[]);
    assert!(none.retrieved_ids.is_empty());
    assert_eq!(none.result_count, 0);
    assert_eq!(none.top_similarity, 0);
}
