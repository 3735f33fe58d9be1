//! The patterns that a new store is seeded with: thirty pieces of the
//! agency's operating knowledge, in the words of its chief executive.

use vstd::prelude::*;
use vstd::string::*;
use crate::primitives::now_rfc3339;
use crate::rag::ingest::{nothing_to_do, IngestPlan, IngestPlanView};
use crate::rag::knowledge::{item_is_valid, spec_is_dialectic_tag, spec_is_scope_layer, KnowledgeItem, KnowledgeItemView};
use crate::text::{lemma_str_lt_total, opt_to_owned, opt_view};

verus! {

/// The number of seed patterns.
pub const PATTERN_COUNT: usize = 30;

/// A seed pattern. Confidence and relevance are millionths.
#[derive(Clone, Debug)]
pub struct CeoPattern {
    pub content: String,
    pub knowledge_type: String,
    pub confidence: i32,
    pub relevance_score: i32,
    pub scope_layer: Option<String>,
    pub dialectic_tag: Option<String>,
    pub source_context: Option<String>,
}

/// The source type under which the seeding is recorded.
pub open spec fn seed_source_type() -> Seq<char> {
    "ceo_pattern_seed"@
}

/// The source identifier under which the seeding is recorded.
pub open spec fn seed_source_id() -> Seq<char> {
    "ceo_30_patterns_v1"@
}

/// Whether a pattern is fit to be seeded: it has content and a knowledge
/// type, its confidence lies between 0.85 and 0.95, its relevance between
/// 0.8 and 0.9, and its layer and tag, where it has them, are known ones.
pub open spec fn pattern_is_sound(p: CeoPattern) -> bool {
    &&& p.content@.len() > 0
    &&& p.knowledge_type@.len() > 0
    &&& 850_000 <= p.confidence <= 950_000
    &&& 800_000 <= p.relevance_score <= 900_000
    &&& (p.scope_layer matches Some(l) ==> spec_is_scope_layer(l@))
    &&& (p.dialectic_tag matches Some(t) ==> spec_is_dialectic_tag(t@))
}

/// The item that a pattern is seeded as: of global scope, tagged with the
/// role `CEO`, confirmed, never used, created and updated at `now`.
pub open spec fn seed_item(p: CeoPattern, now: Seq<char>) -> KnowledgeItemView {
    KnowledgeItemView {
        id: Seq::empty(),
        content: p.content@,
        summary: None,
        knowledge_type: p.knowledge_type@,
        source_type: seed_source_type(),
        scope: "global"@,
        scope_layer: opt_view(p.scope_layer),
        role_tag: Some("CEO"@),
        dialectic_tag: opt_view(p.dialectic_tag),
        confidence: p.confidence as int,
        relevance_score: p.relevance_score as int,
        usage_count: 0,
        decision_maker: Some("김경신"@),
        outcome: Some("confirmed"@),
        financial_impact_krw: None,
        source_id: Some(seed_source_id()),
        source_context: opt_view(p.source_context),
        user_id: None,
        project_id: None,
        did_author: None,
        is_active: true,
        expires_at: None,
        created_at: now,
        updated_at: now,
    }
}

/// The plan of a seeding: nothing where the store was seeded before; else
/// one item per pattern, in their order, and a record of the seeding.
pub open spec fn spec_seed_plan(already_seeded: bool, patterns: Seq<CeoPattern>, now: Seq<char>) -> IngestPlanView {
    if already_seeded {
        nothing_to_do()
    } else {
        IngestPlanView {
            items: Seq::new(patterns.len(), |i: int| seed_item(patterns[i], now)),
            skipped_count: 0,
            mark_extracted: true,
        }
    }
}

/// The item of a sound pattern keeps the rules of the data model.
pub proof fn lemma_seed_item_is_valid(p: CeoPattern, now: Seq<char>)
    requires
        pattern_is_sound(p),
    ensures
        item_is_valid(seed_item(p, now)),
{
    lemma_str_lt_total(now, now);
}

/// Seeding is idempotent: the plan of a first seeding asks for a record of
/// it, and with the record in place the plan of a second seeding creates
/// nothing.
pub proof fn lemma_seeding_twice_creates_nothing(patterns: Seq<CeoPattern>, first: Seq<char>, second: Seq<char>)
    ensures
        spec_seed_plan(false, patterns, first).mark_extracted,
        spec_seed_plan(spec_seed_plan(false, patterns, first).mark_extracted, patterns, second) == nothing_to_do(),
        nothing_to_do().items.len() == 0,
{
}

/// The source type under which the seeding is recorded.
pub fn seed_source_type_name() -> (res: &'static str)
    ensures
        res@ == seed_source_type(),
{
    "ceo_pattern_seed"
}

/// The source identifier under which the seeding is recorded.
pub fn seed_source_id_name() -> (res: &'static str)
    ensures
        res@ == seed_source_id(),
{
    "ceo_30_patterns_v1"
}

fn pattern(
    content: &str,
    knowledge_type: &str,
    confidence: i32,
    relevance_score: i32,
    scope_layer: Option<&str>,
    dialectic_tag: Option<&str>,
    source_context: &str,
) -> (res: CeoPattern)
    ensures
        res.content@ == content@,
        res.knowledge_type@ == knowledge_type@,
        res.confidence == confidence,
        res.relevance_score == relevance_score,
        opt_view(res.scope_layer) == (match scope_layer {
            Some(l) => Some(l@),
            None => None,
        }),
        opt_view(res.dialectic_tag) == (match dialectic_tag {
            Some(t) => Some(t@),
            None => None,
        }),
        opt_view(res.source_context) == Some(source_context@),
{
    CeoPattern {
        content: String::from_str(content),
        knowledge_type: String::from_str(knowledge_type),
        confidence,
        relevance_score,
        scope_layer: opt_to_owned(scope_layer),
        dialectic_tag: opt_to_owned(dialectic_tag),
        source_context: Some(String::from_str(source_context)),
    }
}

/// The thirty seed patterns, each of them sound.
pub fn get_ceo_patterns() -> (res: Vec<CeoPattern>)
    ensures
        res@.len() == PATTERN_COUNT,
        forall|i: int| 0 <= i < res@.len() ==> pattern_is_sound(#[trigger] res@[i]),
{
    let mut patterns: Vec<CeoPattern> = Vec::new();
    proof {
        reveal_strlit("프로젝트 수주 결정 시 '내수율(수익률)' 기준으로 판단. 총 계약금액 대비 실제 내수가 30% 이하면 수주 거부 또는 재협상 요구. '돈 안 되는 일은 하지 않는다'는 원칙 고수.");
        reveal_strlit("deal_decision");
    }
    patterns.push(
        pattern(
            "프로젝트 수주 결정 시 '내수율(수익률)' 기준으로 판단. 총 계약금액 대비 실제 내수가 30% 이하면 수주 거부 또는 재협상 요구. '돈 안 되는 일은 하지 않는다'는 원칙 고수.",
            "deal_decision",
            950000,
            900000,
            Some("operations"),
            None,
            "{\"reason\":\"수주 의사결정 시 내수율 기준 판단 패턴\"}",
        ),
    );
    proof {
        reveal_strlit("예산 협상 시 '목표 내수율'을 역산하여 견적 하한선을 설정. 인건비+외주비+관리비를 먼저 산출하고, 목표 수익률을 더한 금액이 최소 견적. 클라이언트가 예산을 낮추면 스코프 축소로 대응.");
        reveal_strlit("budget_decision");
    }
    patterns.push(
        pattern(
            "예산 협상 시 '목표 내수율'을 역산하여 견적 하한선을 설정. 인건비+외주비+관리비를 먼저 산출하고, 목표 수익률을 더한 금액이 최소 견적. 클라이언트가 예산을 낮추면 스코프 축소로 대응.",
            "budget_decision",
            920000,
            900000,
            Some("operations"),
            None,
            "{\"reason\":\"예산 협상 시 견적 하한선 산출 방식\"}",
        ),
    );
    proof {
        reveal_strlit("대금 결제 조건은 '3:3:4' 또는 '5:5' 구조 선호. 선금 비율이 30% 미만이면 리스크 경고. 촬영 전 잔금 완납 불가 시 촬영 일정 조정도 불사.");
        reveal_strlit("payment_tracking");
    }
    patterns.push(
        pattern(
            "대금 결제 조건은 '3:3:4' 또는 '5:5' 구조 선호. 선금 비율이 30% 미만이면 리스크 경고. 촬영 전 잔금 완납 불가 시 촬영 일정 조정도 불사.",
            "payment_tracking",
            900000,
            850000,
            Some("operations"),
            Some("risk"),
            "{\"reason\":\"대금 결제 조건 및 리스크 관리 패턴\"}",
        ),
    );
    proof {
        reveal_strlit("계약 리스크 판단: 독소조항(지재권 양도, 과도한 위약금) 발견 시 법무팀 검토 후 수정 요구. 양보 불가 조항 리스트를 사전에 관리.");
        reveal_strlit("recurring_risk");
    }
    patterns.push(
        pattern(
            "계약 리스크 판단: 독소조항(지재권 양도, 과도한 위약금) 발견 시 법무팀 검토 후 수정 요구. 양보 불가 조항 리스트를 사전에 관리.",
            "recurring_risk",
            880000,
            850000,
            Some("operations"),
            Some("risk"),
            "{\"reason\":\"계약서 독소조항 대응 패턴\"}",
        ),
    );
    proof {
        reveal_strlit("예산 초과 시 대응 원칙: 1) 우선순위 재정렬(must-have vs nice-to-have), 2) 스코프 축소 제안, 3) 추가 예산 협상, 4) 최악의 경우 손절 판단. 감정이 아닌 숫자로 결정.");
        reveal_strlit("budget_judgment");
    }
    patterns.push(
        pattern(
            "예산 초과 시 대응 원칙: 1) 우선순위 재정렬(must-have vs nice-to-have), 2) 스코프 축소 제안, 3) 추가 예산 협상, 4) 최악의 경우 손절 판단. 감정이 아닌 숫자로 결정.",
            "budget_judgment",
            910000,
            900000,
            Some("operations"),
            Some("constraint"),
            "{\"reason\":\"예산 초과 시 단계적 대응 원칙\"}",
        ),
    );
    proof {
        reveal_strlit("크리에이티브 방향 결정은 '클라이언트 니즈 우선'이지만 '우리만의 해석'을 반드시 포함. '클라이언트가 원하는 것'과 '클라이언트에게 필요한 것'을 구분하여 제안.");
        reveal_strlit("creative_direction");
    }
    patterns.push(
        pattern(
            "크리에이티브 방향 결정은 '클라이언트 니즈 우선'이지만 '우리만의 해석'을 반드시 포함. '클라이언트가 원하는 것'과 '클라이언트에게 필요한 것'을 구분하여 제안.",
            "creative_direction",
            930000,
            900000,
            Some("creative"),
            Some("quality"),
            "{\"reason\":\"크리에이티브 방향 설정 원칙\"}",
        ),
    );
    proof {
        reveal_strlit("캠페인 전략 수립 시 '타겟 인사이트 → 핵심 메시지 → 크리에이티브 컨셉 → 실행 계획' 순서를 고수. 컨셉 없이 실행부터 들어가는 것을 경계.");
        reveal_strlit("campaign_strategy");
    }
    patterns.push(
        pattern(
            "캠페인 전략 수립 시 '타겟 인사이트 → 핵심 메시지 → 크리에이티브 컨셉 → 실행 계획' 순서를 고수. 컨셉 없이 실행부터 들어가는 것을 경계.",
            "campaign_strategy",
            900000,
            850000,
            Some("creative"),
            None,
            "{\"reason\":\"캠페인 전략 수립 프로세스\"}",
        ),
    );
    proof {
        reveal_strlit("네이밍/슬로건 결정 시 3가지 기준: 1) 발음 용이성(한영 모두), 2) 의미 전달력, 3) 법적 보호 가능성. 후보 3-5개를 테스트 후 최종 결정.");
        reveal_strlit("naming_decision");
    }
    patterns.push(
        pattern(
            "네이밍/슬로건 결정 시 3가지 기준: 1) 발음 용이성(한영 모두), 2) 의미 전달력, 3) 법적 보호 가능성. 후보 3-5개를 테스트 후 최종 결정.",
            "naming_decision",
            870000,
            800000,
            Some("creative"),
            None,
            "{\"reason\":\"네이밍/슬로건 결정 기준\"}",
        ),
    );
    proof {
        reveal_strlit("어워드 제출 전략: 칸/원쇼/클리오 등 티어1 어워드 위주로 집중. 수상 가능성 50% 미만이면 제출 안 함. 케이스 필름 퀄리티가 수상의 80%를 결정한다고 판단.");
        reveal_strlit("award_strategy");
    }
    patterns.push(
        pattern(
            "어워드 제출 전략: 칸/원쇼/클리오 등 티어1 어워드 위주로 집중. 수상 가능성 50% 미만이면 제출 안 함. 케이스 필름 퀄리티가 수상의 80%를 결정한다고 판단.",
            "award_strategy",
            880000,
            800000,
            Some("creative"),
            None,
            "{\"reason\":\"어워드 제출 전략 및 ROI 판단\"}",
        ),
    );
    proof {
        reveal_strlit("탤런트/모델 캐스팅 시 예산 대비 효과 분석 우선. A급 탤런트 비용이 전체 제작비의 40%를 초과하면 대안 탐색. 신인 발굴 통한 비용 절감 + 신선함 확보 전략 선호.");
        reveal_strlit("talent_casting");
    }
    patterns.push(
        pattern(
            "탤런트/모델 캐스팅 시 예산 대비 효과 분석 우선. A급 탤런트 비용이 전체 제작비의 40%를 초과하면 대안 탐색. 신인 발굴 통한 비용 절감 + 신선함 확보 전략 선호.",
            "talent_casting",
            860000,
            800000,
            Some("creative"),
            Some("constraint"),
            "{\"reason\":\"탤런트 캐스팅 예산 대비 효과 판단\"}",
        ),
    );
    proof {
        reveal_strlit("PT(제안서) 구조: 1) 클라이언트 과제 재정의(공감), 2) 시장/소비자 인사이트, 3) 전략 방향, 4) 크리에이티브 컨셉, 5) 실행 계획, 6) 예산/일정. 6페이지 내 핵심 전달이 이상적.");
        reveal_strlit("pitch_execution");
    }
    patterns.push(
        pattern(
            "PT(제안서) 구조: 1) 클라이언트 과제 재정의(공감), 2) 시장/소비자 인사이트, 3) 전략 방향, 4) 크리에이티브 컨셉, 5) 실행 계획, 6) 예산/일정. 6페이지 내 핵심 전달이 이상적.",
            "pitch_execution",
            930000,
            900000,
            Some("pitch"),
            None,
            "{\"reason\":\"제안서 표준 구조\"}",
        ),
    );
    proof {
        reveal_strlit("외주 업체 선정 기준: 1) 포트폴리오 퀄리티, 2) 일정 준수 이력, 3) 단가 합리성, 4) 커뮤니케이션 수월성. 신규 업체는 소규모 테스트 후 본계약.");
        reveal_strlit("vendor_selection");
    }
    patterns.push(
        pattern(
            "외주 업체 선정 기준: 1) 포트폴리오 퀄리티, 2) 일정 준수 이력, 3) 단가 합리성, 4) 커뮤니케이션 수월성. 신규 업체는 소규모 테스트 후 본계약.",
            "vendor_selection",
            890000,
            850000,
            Some("operations"),
            None,
            "{\"reason\":\"외주 업체 선정 기준 체계\"}",
        ),
    );
    proof {
        reveal_strlit("일정 변경 원칙: 클라이언트 요청에 의한 변경은 추가 비용 협상 필수. 내부 지연은 야근/주말 투입으로 만회. 마감 D-3일 이내 변경은 퀄리티 리스크로 간주.");
        reveal_strlit("schedule_change");
    }
    patterns.push(
        pattern(
            "일정 변경 원칙: 클라이언트 요청에 의한 변경은 추가 비용 협상 필수. 내부 지연은 야근/주말 투입으로 만회. 마감 D-3일 이내 변경은 퀄리티 리스크로 간주.",
            "schedule_change",
            910000,
            900000,
            Some("operations"),
            Some("risk"),
            "{\"reason\":\"일정 변경 시 비용/리스크 대응 원칙\"}",
        ),
    );
    proof {
        reveal_strlit("촬영 현장 의사결정 위임 체계: PD/CD에게 현장 재량권 부여하되, 예산 10% 이상 변동 또는 안전 이슈 발생 시 즉시 보고. 사후 보고보다 사전 상의를 중시.");
        reveal_strlit("workflow");
    }
    patterns.push(
        pattern(
            "촬영 현장 의사결정 위임 체계: PD/CD에게 현장 재량권 부여하되, 예산 10% 이상 변동 또는 안전 이슈 발생 시 즉시 보고. 사후 보고보다 사전 상의를 중시.",
            "workflow",
            890000,
            850000,
            Some("operations"),
            None,
            "{\"reason\":\"현장 의사결정 위임 체계\"}",
        ),
    );
    proof {
        reveal_strlit("PT 차별화 전략: 경쟁사 분석 후 '남들이 안 하는 것'에 집중. 형식적 차별화(인터랙티브 PT, 영상 PT 등)도 적극 활용. 첫 5분에 승부를 건다.");
        reveal_strlit("pitch_execution");
    }
    patterns.push(
        pattern(
            "PT 차별화 전략: 경쟁사 분석 후 '남들이 안 하는 것'에 집중. 형식적 차별화(인터랙티브 PT, 영상 PT 등)도 적극 활용. 첫 5분에 승부를 건다.",
            "pitch_execution",
            880000,
            850000,
            Some("pitch"),
            Some("opportunity"),
            "{\"reason\":\"PT 차별화 전략\"}",
        ),
    );
    proof {
        reveal_strlit("팀 커뮤니케이션 원칙: 중요한 결정은 카톡이 아닌 대면/화상으로. 문서화 필수(결정사항은 회의록으로 공유). '말로 한 약속'은 약속이 아니다.");
        reveal_strlit("communication_style");
    }
    patterns.push(
        pattern(
            "팀 커뮤니케이션 원칙: 중요한 결정은 카톡이 아닌 대면/화상으로. 문서화 필수(결정사항은 회의록으로 공유). '말로 한 약속'은 약속이 아니다.",
            "communication_style",
            920000,
            900000,
            None,
            None,
            "{\"reason\":\"팀 내부 커뮤니케이션 원칙\"}",
        ),
    );
    proof {
        reveal_strlit("피드백 방식: '샌드위치 피드백'보다 직접적 피드백 선호. 좋은 점/나쁜 점 명확히 구분. 감정이 아닌 결과물 기준으로 피드백. 피드백 후 개선 방향 반드시 제시.");
        reveal_strlit("feedback_pattern");
    }
    patterns.push(
        pattern(
            "피드백 방식: '샌드위치 피드백'보다 직접적 피드백 선호. 좋은 점/나쁜 점 명확히 구분. 감정이 아닌 결과물 기준으로 피드백. 피드백 후 개선 방향 반드시 제시.",
            "feedback_pattern",
            880000,
            850000,
            None,
            None,
            "{\"reason\":\"직접적 피드백 방식 선호 패턴\"}",
        ),
    );
    proof {
        reveal_strlit("이해관계자 조율 원칙: 클라이언트 내부 의사결정 구조를 먼저 파악. 실무자와 의사결정권자에게 다른 언어로 설명. 중간 보고를 자주 하여 '깜짝 쇼' 방지.");
        reveal_strlit("stakeholder_alignment");
    }
    patterns.push(
        pattern(
            "이해관계자 조율 원칙: 클라이언트 내부 의사결정 구조를 먼저 파악. 실무자와 의사결정권자에게 다른 언어로 설명. 중간 보고를 자주 하여 '깜짝 쇼' 방지.",
            "stakeholder_alignment",
            900000,
            850000,
            Some("pitch"),
            Some("client_concern"),
            "{\"reason\":\"이해관계자 소통 전략\"}",
        ),
    );
    proof {
        reveal_strlit("팀원 역량 판단 기준: 1) 자기 일의 범위를 스스로 정의할 수 있는가, 2) 문제 발생 시 해결책을 함께 가져오는가, 3) 마감을 지키는가. 이 3가지로 '프로'와 '주니어'를 구분.");
        reveal_strlit("judgment");
    }
    patterns.push(
        pattern(
            "팀원 역량 판단 기준: 1) 자기 일의 범위를 스스로 정의할 수 있는가, 2) 문제 발생 시 해결책을 함께 가져오는가, 3) 마감을 지키는가. 이 3가지로 '프로'와 '주니어'를 구분.",
            "judgment",
            910000,
            900000,
            None,
            None,
            "{\"reason\":\"팀원 역량 판단 3가지 기준\"}",
        ),
    );
    proof {
        reveal_strlit("협업 패턴: CD와는 크리에이티브 방향, EP와는 예산/계약, PD와는 일정/현장 중심으로 소통. 각 역할의 전문성을 존중하되 최종 결정권은 CEO에게 귀속.");
        reveal_strlit("collaboration_pattern");
    }
    patterns.push(
        pattern(
            "협업 패턴: CD와는 크리에이티브 방향, EP와는 예산/계약, PD와는 일정/현장 중심으로 소통. 각 역할의 전문성을 존중하되 최종 결정권은 CEO에게 귀속.",
            "collaboration_pattern",
            930000,
            900000,
            None,
            None,
            "{\"reason\":\"역할별 소통 패턴 총괄\"}",
        ),
    );
    proof {
        reveal_strlit("업계 교훈: '좋은 작품'과 '좋은 비즈니스'는 다르다. 수상작이 반드시 수익성이 좋은 것은 아님. 장기적으로는 수익이 있어야 좋은 작품도 만들 수 있다.");
        reveal_strlit("lesson_learned");
    }
    patterns.push(
        pattern(
            "업계 교훈: '좋은 작품'과 '좋은 비즈니스'는 다르다. 수상작이 반드시 수익성이 좋은 것은 아님. 장기적으로는 수익이 있어야 좋은 작품도 만들 수 있다.",
            "lesson_learned",
            940000,
            900000,
            None,
            None,
            "{\"reason\":\"수익성과 작품 퀄리티의 균형\"}",
        ),
    );
    proof {
        reveal_strlit("크리에이티브 에이전시 운영 노하우: 인력이 곧 자산. 핵심 인력 유지가 최우선. 프로젝트 실패보다 핵심 인력 이탈이 더 큰 리스크. 무리한 프로젝트 수주보다 팀 안정성 우선.");
        reveal_strlit("domain_expertise");
    }
    patterns.push(
        pattern(
            "크리에이티브 에이전시 운영 노하우: 인력이 곧 자산. 핵심 인력 유지가 최우선. 프로젝트 실패보다 핵심 인력 이탈이 더 큰 리스크. 무리한 프로젝트 수주보다 팀 안정성 우선.",
            "domain_expertise",
            930000,
            900000,
            None,
            Some("risk"),
            "{\"reason\":\"에이전시 핵심 인력 관리 원칙\"}",
        ),
    );
    proof {
        reveal_strlit("CEO(김경신)와 CD(크리에이티브 디렉터) 간 소통: 크리에이티브 방향의 '큰 그림'은 CEO가 설정하고 세부 실행은 CD에게 위임. 의견 충돌 시 '클라이언트 가치' 기준으로 판단.");
        reveal_strlit("collaboration_pattern");
    }
    patterns.push(
        pattern(
            "CEO(김경신)와 CD(크리에이티브 디렉터) 간 소통: 크리에이티브 방향의 '큰 그림'은 CEO가 설정하고 세부 실행은 CD에게 위임. 의견 충돌 시 '클라이언트 가치' 기준으로 판단.",
            "collaboration_pattern",
            880000,
            850000,
            Some("creative"),
            None,
            "{\"reason\":\"CEO-CD 크리에이티브 소통 패턴\"}",
        ),
    );
    proof {
        reveal_strlit("CEO와 EP(총괄 프로듀서) 간 소통: 계약/정산/리소스는 EP 주도. CEO는 최종 승인 역할. 예산 10% 이상 변동 시 CEO 사전 승인 필수.");
        reveal_strlit("collaboration_pattern");
    }
    patterns.push(
        pattern(
            "CEO와 EP(총괄 프로듀서) 간 소통: 계약/정산/리소스는 EP 주도. CEO는 최종 승인 역할. 예산 10% 이상 변동 시 CEO 사전 승인 필수.",
            "collaboration_pattern",
            890000,
            850000,
            Some("operations"),
            None,
            "{\"reason\":\"CEO-EP 재무/계약 소통 패턴\"}",
        ),
    );
    proof {
        reveal_strlit("CEO와 PD(프로듀서/라인PD) 간 소통: 현장 조율과 일정 관리는 PD 자율. 주간 진행 상황 요약 보고 필수. 일정 지연 2일 이상 시 대응 방안과 함께 보고.");
        reveal_strlit("collaboration_pattern");
    }
    patterns.push(
        pattern(
            "CEO와 PD(프로듀서/라인PD) 간 소통: 현장 조율과 일정 관리는 PD 자율. 주간 진행 상황 요약 보고 필수. 일정 지연 2일 이상 시 대응 방안과 함께 보고.",
            "collaboration_pattern",
            870000,
            850000,
            Some("operations"),
            None,
            "{\"reason\":\"CEO-PD 일정/현장 소통 패턴\"}",
        ),
    );
    proof {
        reveal_strlit("CEO와 AD(아트 디렉터/시니어AD) 간 소통: 비주얼 방향은 CD를 경유하되, 핵심 프로젝트는 CEO가 직접 디자인 QC. PPT 덱 퀄리티에 특히 높은 기준 적용.");
        reveal_strlit("collaboration_pattern");
    }
    patterns.push(
        pattern(
            "CEO와 AD(아트 디렉터/시니어AD) 간 소통: 비주얼 방향은 CD를 경유하되, 핵심 프로젝트는 CEO가 직접 디자인 QC. PPT 덱 퀄리티에 특히 높은 기준 적용.",
            "collaboration_pattern",
            850000,
            800000,
            Some("creative"),
            None,
            "{\"reason\":\"CEO-AD 디자인 QC 패턴\"}",
        ),
    );
    proof {
        reveal_strlit("CEO와 클라이언트 간 소통: 초기 관계 구축은 CEO가 직접. 안정화 후 담당 팀에 이관. 크리티컬 이슈(불만, 계약 변경) 시 CEO가 다시 전면에 등장.");
        reveal_strlit("collaboration_pattern");
    }
    patterns.push(
        pattern(
            "CEO와 클라이언트 간 소통: 초기 관계 구축은 CEO가 직접. 안정화 후 담당 팀에 이관. 크리티컬 이슈(불만, 계약 변경) 시 CEO가 다시 전면에 등장.",
            "collaboration_pattern",
            910000,
            900000,
            Some("pitch"),
            Some("client_concern"),
            "{\"reason\":\"CEO-클라이언트 관계 관리 패턴\"}",
        ),
    );
    proof {
        reveal_strlit("CEO와 외부 파트너(벤더) 간 소통: 핵심 벤더(촬영감독, 편집실)와는 CEO가 직접 관계 유지. 단가 협상은 EP에게 위임하되 최종 합의는 CEO 확인.");
        reveal_strlit("collaboration_pattern");
    }
    patterns.push(
        pattern(
            "CEO와 외부 파트너(벤더) 간 소통: 핵심 벤더(촬영감독, 편집실)와는 CEO가 직접 관계 유지. 단가 협상은 EP에게 위임하되 최종 합의는 CEO 확인.",
            "collaboration_pattern",
            860000,
            800000,
            Some("operations"),
            None,
            "{\"reason\":\"CEO-벤더 관계 및 단가 협상 패턴\"}",
        ),
    );
    proof {
        reveal_strlit("팀 전체 커뮤니케이션 룰: 긴급도에 따라 채널 구분 — 긴급: 전화, 중요: 대면/화상, 일상: 메신저. 회의는 30분 이내, 결론 없는 회의는 금지.");
        reveal_strlit("communication_style");
    }
    patterns.push(
        pattern(
            "팀 전체 커뮤니케이션 룰: 긴급도에 따라 채널 구분 — 긴급: 전화, 중요: 대면/화상, 일상: 메신저. 회의는 30분 이내, 결론 없는 회의는 금지.",
            "communication_style",
            900000,
            850000,
            None,
            None,
            "{\"reason\":\"긴급도별 커뮤니케이션 채널 규칙\"}",
        ),
    );
    proof {
        reveal_strlit("프로젝트별 보고 체계: 주 1회 진행 상황 공유(전체), 이슈 발생 시 당일 내 보고(관련자), 월 1회 포트폴리오 + 재무 현황 리뷰(CEO+EP).");
        reveal_strlit("workflow");
    }
    patterns.push(
        pattern(
            "프로젝트별 보고 체계: 주 1회 진행 상황 공유(전체), 이슈 발생 시 당일 내 보고(관련자), 월 1회 포트폴리오 + 재무 현황 리뷰(CEO+EP).",
            "workflow",
            880000,
            850000,
            Some("operations"),
            None,
            "{\"reason\":\"프로젝트 보고 주기 및 체계\"}",
        ),
    );
    patterns
}

/// Plans the seeding of a store with the given patterns, stamped with
/// `now`.
///
/// A store that was seeded before gets nothing. Else every pattern becomes
/// an item, in their order, and the seeding is to be recorded.
pub fn seed_patterns_at(already_seeded: bool, patterns: Vec<CeoPattern>, now: &str) -> (res: IngestPlan)
    ensures
        res@ == spec_seed_plan(already_seeded, patterns@, now@),
{
    if already_seeded {
        let plan = IngestPlan { items: Vec::new(), skipped_count: 0, mark_extracted: false };
        assert(plan@.items =~= Seq::<KnowledgeItemView>::empty());
        return plan;
    }
    let ghost all = patterns@;
    let mut items: Vec<KnowledgeItem> = Vec::new();
    for p in it: patterns
        invariant
            it.seq() == all,
            items@.len() == it.index(),
            forall|j: int| 0 <= j < items@.len() ==> (#[trigger] items@[j])@ == seed_item(all[j], now@),
    {
        let item = KnowledgeItem {
            id: String::new(),
            content: p.content,
            summary: None,
            knowledge_type: p.knowledge_type,
            source_type: String::from_str("ceo_pattern_seed"),
            scope: String::from_str("global"),
            scope_layer: p.scope_layer,
            role_tag: Some(String::from_str("CEO")),
            dialectic_tag: p.dialectic_tag,
            confidence: p.confidence,
            relevance_score: p.relevance_score,
            usage_count: 0,
            decision_maker: Some(String::from_str("김경신")),
            outcome: Some(String::from_str("confirmed")),
            financial_impact_krw: None,
            source_id: Some(String::from_str("ceo_30_patterns_v1")),
            source_context: p.source_context,
            user_id: None,
            project_id: None,
            did_author: None,
            is_active: true,
            expires_at: None,
            created_at: String::from_str(now),
            updated_at: String::from_str(now),
        };
        items.push(item);
    }
    let plan = IngestPlan { items, skipped_count: 0, mark_extracted: true };
    assert(plan@.items =~= spec_seed_plan(false, all, now@).items);
    plan
}

/// Plans the seeding of a store with the thirty patterns, stamped with the
/// current time.
///
/// A store that was seeded before gets nothing: seeding twice creates no
/// second row. Else the plan holds one item per pattern, each of which
/// keeps the rules of the data model, and asks for the seeding to be
/// recorded.
pub fn seed_ceo_patterns(already_seeded: bool) -> (res: IngestPlan)
    ensures
        already_seeded ==> res@ == nothing_to_do(),
        !already_seeded ==> res.items@.len() == PATTERN_COUNT && res.mark_extracted && res.skipped_count == 0,
        forall|i: int| 0 <= i < res.items@.len() ==> item_is_valid(#[trigger] res.items@[i]@),
        exists|patterns: Seq<CeoPattern>, now: Seq<char>| res@ == #[trigger] spec_seed_plan(already_seeded, patterns, now),
{
    let patterns = get_ceo_patterns();
    let now = now_rfc3339();
    let ghost all = patterns@;
    let plan = seed_patterns_at(already_seeded, patterns, now.as_str());
    proof {
        assert(plan@.items.len() == plan.items@.len());
        assert forall|i: int| 0 <= i < plan.items@.len() implies item_is_valid(#[trigger] plan.items@[i]@) by {
            assert(!already_seeded);
            assert(plan@.items[i] == plan.items@[i]@);
            assert(plan@.items[i] == seed_item(all[i], now@));
            lemma_seed_item_is_valid(all[i], now@);
        }
    }
    plan
}

} // verus!
