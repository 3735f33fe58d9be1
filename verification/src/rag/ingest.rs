//! Ingest: how knowledge items are made from deep extractions, actions,
//! reviews and the items of a digest.
//!
//! Every function here plans an ingest: it says which items to create. The
//! host embeds each item, writes it, and records the extraction where the
//! plan asks for it.

use vstd::prelude::*;
use vstd::string::*;
use crate::primitives::now_rfc3339;
use crate::rag::digest::{DigestItem, DigestResult, RiskItem};
use crate::rag::knowledge::{KnowledgeItem, KnowledgeItemView, INITIAL_RELEVANCE};
use crate::rag::query::{div_toward_zero, UNIT};
use crate::text::{join, lemma_string_views_push, string_views, opt_clone, opt_to_owned, opt_view, push_millionths, spec_join, spec_millionths, spec_trim, str_eq, str_trim};
use vstd::utf8::encode_utf8;

verus! {

/// A knowledge item as the analyzer extracted it. The confidence is
/// millionths.
#[derive(Clone, Debug)]
pub struct ExtractedItem {
    pub content: String,
    pub knowledge_type: String,
    pub role_tag: Option<String>,
    pub dialectic_tag: Option<String>,
    pub scope_layer: Option<String>,
    pub confidence: i32,
}

/// What the analyzer extracted from a digest.
#[derive(Clone, Debug)]
pub struct ExtractionResult {
    pub items: Vec<ExtractedItem>,
}

/// What an ingest did.
#[derive(Clone, Debug)]
pub struct IngestResult {
    pub created_ids: Vec<String>,
    pub skipped_count: usize,
    pub is_pseudo_embedding: bool,
}

/// What an ingest is to do: the items to create, how many sources were
/// skipped as not worth an item, and whether to record the source as
/// extracted.
#[derive(Clone, Debug)]
pub struct IngestPlan {
    pub items: Vec<KnowledgeItem>,
    pub skipped_count: usize,
    pub mark_extracted: bool,
}

/// The least confidence with which a decision of a digest becomes an item:
/// 0.6.
pub const DECISION_THRESHOLD: i32 = 600_000;

/// The least confidence with which a risk of a digest becomes an item: 0.5.
pub const RISK_THRESHOLD: i32 = 500_000;

/// The confidence of an item made from an action: 0.6.
pub const ACTION_CONFIDENCE: i32 = 600_000;

/// The rating below which a review counts as a constraint: 3.
pub const LOW_RATING: i32 = 3_000_000;

/// The least length of a comment, in bytes, with which a review becomes an
/// item.
pub const MIN_COMMENT_BYTES: usize = 10;

/// The views of a list of items.
pub open spec fn item_views(items: Seq<KnowledgeItem>) -> Seq<KnowledgeItemView> {
    Seq::new(items.len(), |i: int| items[i]@)
}

/// What varies between the items that ingest makes.
pub struct Draft {
    pub content: Seq<char>,
    pub knowledge_type: Seq<char>,
    pub source_type: Seq<char>,
    pub scope_layer: Option<Seq<char>>,
    pub role_tag: Option<Seq<char>>,
    pub dialectic_tag: Option<Seq<char>>,
    pub confidence: int,
    pub outcome: Option<Seq<char>>,
    pub source_id: Option<Seq<char>>,
    pub source_context: Option<Seq<char>>,
}

/// The scope of an ingested item: `team` where it belongs to a project,
/// else `personal`.
pub open spec fn scope_for(project_id: Option<Seq<char>>) -> Seq<char> {
    if project_id is Some {
        "team"@
    } else {
        "personal"@
    }
}

/// The item that ingest makes of a draft: active, never used, of relevance
/// 0.5, without identifier, created and updated at `now`.
pub open spec fn drafted_item(
    draft: Draft,
    scope: Seq<char>,
    user_id: Option<Seq<char>>,
    project_id: Option<Seq<char>>,
    now: Seq<char>,
) -> KnowledgeItemView {
    KnowledgeItemView {
        id: Seq::empty(),
        content: draft.content,
        summary: None,
        knowledge_type: draft.knowledge_type,
        source_type: draft.source_type,
        scope,
        scope_layer: draft.scope_layer,
        role_tag: draft.role_tag,
        dialectic_tag: draft.dialectic_tag,
        confidence: draft.confidence,
        relevance_score: INITIAL_RELEVANCE as int,
        usage_count: 0,
        decision_maker: None,
        outcome: draft.outcome,
        financial_impact_krw: None,
        source_id: draft.source_id,
        source_context: draft.source_context,
        user_id,
        project_id,
        did_author: None,
        is_active: true,
        expires_at: None,
        created_at: now,
        updated_at: now,
    }
}

/// The view of an optional string slice.
pub open spec fn opt_str_view(s: Option<&str>) -> Option<Seq<char>> {
    match s {
        Some(t) => Some(t@),
        None => None,
    }
}

// ---------------------------------------------------------------------------
// What the analyzer is asked
// ---------------------------------------------------------------------------

/// The line of a decision or action item: its priority and its text.
pub open spec fn item_line(priority: Seq<char>, text: Seq<char>) -> Seq<char> {
    "- ["@ + priority + "] "@ + text
}

/// The lines of decisions or action items.
pub open spec fn item_lines(items: Seq<DigestItem>) -> Seq<Seq<char>> {
    Seq::new(items.len(), |i: int| item_line(items[i].priority@, items[i].text@))
}

/// The lines of risks.
pub open spec fn risk_lines(items: Seq<RiskItem>) -> Seq<Seq<char>> {
    Seq::new(items.len(), |i: int| item_line(items[i].priority@, items[i].text@))
}

/// A section: its heading and its lines, or nothing where it has no lines.
pub open spec fn section(heading: Seq<char>, lines: Seq<Seq<char>>) -> Seq<Seq<char>> {
    if lines.len() == 0 {
        Seq::empty()
    } else {
        seq![heading] + lines
    }
}

/// The lines of a digest as the analyzer reads it: the sections of
/// decisions, action items and risks that are not empty, then the summary.
pub open spec fn digest_lines(digest: DigestResult) -> Seq<Seq<char>> {
    section("## Decisions:"@, item_lines(digest.decisions@)) + section(
        "\n## Action Items:"@,
        item_lines(digest.action_items@),
    ) + section("\n## Risks:"@, risk_lines(digest.risks@)) + seq!["\n## Summary: "@ + digest.summary@]
}

/// The text of a digest as the analyzer reads it.
pub open spec fn spec_format_digest(digest: DigestResult) -> Seq<char> {
    spec_join(digest_lines(digest), "\n"@)
}

fn line_of(priority: &str, text: &str) -> (res: String)
    ensures
        res@ == item_line(priority@, text@),
{
    let mut line = String::from_str("- [");
    line.append(priority);
    line.append("] ");
    line.append(text);
    line
}

/// Writes a digest as the text from which the analyzer extracts knowledge:
/// a section for the decisions, one for the action items and one for the
/// risks, each only where it has items, and the summary.
pub fn format_digest_for_extraction(digest: &DigestResult) -> (res: String)
    ensures
        res@ == spec_format_digest(*digest),
{
    let mut parts: Vec<String> = Vec::new();
    assert(string_views(parts@) =~= Seq::<Seq<char>>::empty());
    if digest.decisions.len() > 0 {
        let heading = String::from_str("## Decisions:");
        proof {
            lemma_string_views_push(parts@, heading);
        }
        parts.push(heading);
        let ghost head = string_views(parts@);
        let mut i: usize = 0;
        while i < digest.decisions.len()
            invariant
                i <= digest.decisions@.len(),
                string_views(parts@) == head + item_lines(digest.decisions@).take(i as int),
            decreases digest.decisions@.len() - i,
        {
            let d = &digest.decisions[i];
            let line = line_of(d.priority.as_str(), d.text.as_str());
            proof {
                lemma_string_views_push(parts@, line);
                assert((head + item_lines(digest.decisions@).take(i as int)).push(line@) =~= head + item_lines(digest.decisions@).take(i + 1));
            }
            parts.push(line);
            i += 1;
        }
        assert(item_lines(digest.decisions@).take(digest.decisions@.len() as int) =~= item_lines(digest.decisions@));
    }
    assert(string_views(parts@) =~= section("## Decisions:"@, item_lines(digest.decisions@)));
    let ghost first = string_views(parts@);
    if digest.action_items.len() > 0 {
        let heading = String::from_str("\n## Action Items:");
        proof {
            lemma_string_views_push(parts@, heading);
        }
        parts.push(heading);
        let ghost head = string_views(parts@);
        let mut i: usize = 0;
        while i < digest.action_items.len()
            invariant
                i <= digest.action_items@.len(),
                string_views(parts@) == head + item_lines(digest.action_items@).take(i as int),
            decreases digest.action_items@.len() - i,
        {
            let a = &digest.action_items[i];
            let line = line_of(a.priority.as_str(), a.text.as_str());
            proof {
                lemma_string_views_push(parts@, line);
                assert((head + item_lines(digest.action_items@).take(i as int)).push(line@) =~= head + item_lines(digest.action_items@).take(i + 1));
            }
            parts.push(line);
            i += 1;
        }
        assert(item_lines(digest.action_items@).take(digest.action_items@.len() as int) =~= item_lines(
            digest.action_items@,
        ));
    }
    assert(string_views(parts@) =~= first + section(
        "\n## Action Items:"@,
        item_lines(digest.action_items@),
    ));
    let ghost second = string_views(parts@);
    if digest.risks.len() > 0 {
        let heading = String::from_str("\n## Risks:");
        proof {
            lemma_string_views_push(parts@, heading);
        }
        parts.push(heading);
        let ghost head = string_views(parts@);
        let mut i: usize = 0;
        while i < digest.risks.len()
            invariant
                i <= digest.risks@.len(),
                string_views(parts@) == head + risk_lines(digest.risks@).take(i as int),
            decreases digest.risks@.len() - i,
        {
            let r = &digest.risks[i];
            let line = line_of(r.priority.as_str(), r.text.as_str());
            proof {
                lemma_string_views_push(parts@, line);
                assert((head + risk_lines(digest.risks@).take(i as int)).push(line@) =~= head + risk_lines(digest.risks@).take(i + 1));
            }
            parts.push(line);
            i += 1;
        }
        assert(risk_lines(digest.risks@).take(digest.risks@.len() as int) =~= risk_lines(digest.risks@));
    }
    assert(string_views(parts@) =~= second + section("\n## Risks:"@, risk_lines(digest.risks@)));
    let mut summary = String::from_str("\n## Summary: ");
    summary.append(digest.summary.as_str());
    proof {
        lemma_string_views_push(parts@, summary);
    }
    parts.push(summary);
    assert(string_views(parts@) =~= digest_lines(*digest));
    join(&parts, "\n")
}

/// What the analyzer is asked about the text of a digest.
pub fn extraction_user_prompt(digest_text: &str) -> (res: String)
    ensures
        res@ == "다음 채팅 다이제스트에서 재사용 가능한 지식 패턴을 추출해주세요:\n\n"@ + digest_text@,
{
    let mut prompt = String::from_str("다음 채팅 다이제스트에서 재사용 가능한 지식 패턴을 추출해주세요:\n\n");
    prompt.append(digest_text);
    prompt
}

// ---------------------------------------------------------------------------
// Plans
// ---------------------------------------------------------------------------

/// An ingest plan as plain values.
pub struct IngestPlanView {
    pub items: Seq<KnowledgeItemView>,
    pub skipped_count: nat,
    pub mark_extracted: bool,
}

impl View for IngestPlan {
    type V = IngestPlanView;

    open spec fn view(&self) -> IngestPlanView {
        IngestPlanView {
            items: item_views(self.items@),
            skipped_count: self.skipped_count as nat,
            mark_extracted: self.mark_extracted,
        }
    }
}

/// The plan that does nothing: what a source that was extracted before
/// gets.
pub open spec fn nothing_to_do() -> IngestPlanView {
    IngestPlanView { items: Seq::empty(), skipped_count: 0, mark_extracted: false }
}

/// The views of a list with one more item are the views of the list with
/// one more view.
pub proof fn lemma_item_views_push(items: Seq<KnowledgeItem>, last: KnowledgeItem)
    ensures
        item_views(items.push(last)) == item_views(items).push(last@),
{
    assert(item_views(items.push(last)) =~= item_views(items).push(last@));
}

fn scope_of(project_id: Option<&str>) -> (res: String)
    ensures
        res@ == scope_for(opt_str_view(project_id)),
{
    if project_id.is_some() {
        String::from_str("team")
    } else {
        String::from_str("personal")
    }
}

fn new_item(
    content: String,
    knowledge_type: String,
    source_type: &str,
    scope_layer: Option<String>,
    role_tag: Option<String>,
    dialectic_tag: Option<String>,
    confidence: i32,
    outcome: Option<String>,
    source_id: Option<String>,
    source_context: Option<String>,
    scope: String,
    user_id: Option<&str>,
    project_id: Option<&str>,
    now: &str,
) -> (res: KnowledgeItem)
    ensures
        res@ == drafted_item(
            (Draft {
                content: content@,
                knowledge_type: knowledge_type@,
                source_type: source_type@,
                scope_layer: opt_view(scope_layer),
                role_tag: opt_view(role_tag),
                dialectic_tag: opt_view(dialectic_tag),
                confidence: confidence as int,
                outcome: opt_view(outcome),
                source_id: opt_view(source_id),
                source_context: opt_view(source_context),
            }),
            scope@,
            opt_str_view(user_id),
            opt_str_view(project_id),
            now@,
        ),
{
    KnowledgeItem {
        id: String::new(),
        content,
        summary: None,
        knowledge_type,
        source_type: String::from_str(source_type),
        scope,
        scope_layer,
        role_tag,
        dialectic_tag,
        confidence,
        relevance_score: INITIAL_RELEVANCE,
        usage_count: 0,
        decision_maker: None,
        outcome,
        financial_impact_krw: None,
        source_id,
        source_context,
        user_id: opt_to_owned(user_id),
        project_id: opt_to_owned(project_id),
        did_author: None,
        is_active: true,
        expires_at: None,
        created_at: String::from_str(now),
        updated_at: String::from_str(now),
    }
}

fn skip_plan() -> (res: IngestPlan)
    ensures
        res@ == nothing_to_do(),
{
    let plan = IngestPlan { items: Vec::new(), skipped_count: 0, mark_extracted: false };
    assert(plan@.items =~= Seq::<KnowledgeItemView>::empty());
    plan
}

// ---------------------------------------------------------------------------
// From a caller
// ---------------------------------------------------------------------------

/// The confidence of an item whose caller names none: 0.5.
pub const DEFAULT_CONFIDENCE: i32 = 500_000;

/// The item that a caller hands in, with `personal` as its scope and 0.5 as
/// its confidence where the caller names none, and the DID of the device
/// as its author where the device has one.
pub open spec fn submitted_item(
    content: Seq<char>,
    knowledge_type: Seq<char>,
    source_type: Seq<char>,
    scope: Option<Seq<char>>,
    scope_layer: Option<Seq<char>>,
    role_tag: Option<Seq<char>>,
    dialectic_tag: Option<Seq<char>>,
    confidence: Option<i32>,
    user_id: Option<Seq<char>>,
    project_id: Option<Seq<char>>,
    source_id: Option<Seq<char>>,
    source_context: Option<Seq<char>>,
    did_author: Option<Seq<char>>,
    now: Seq<char>,
) -> KnowledgeItemView {
    KnowledgeItemView {
        id: Seq::empty(),
        content,
        summary: None,
        knowledge_type,
        source_type,
        scope: match scope {
            Some(s) => s,
            None => "personal"@,
        },
        scope_layer,
        role_tag,
        dialectic_tag,
        confidence: match confidence {
            Some(c) => c as int,
            None => DEFAULT_CONFIDENCE as int,
        },
        relevance_score: INITIAL_RELEVANCE as int,
        usage_count: 0,
        decision_maker: None,
        outcome: None,
        financial_impact_krw: None,
        source_id,
        source_context,
        user_id,
        project_id,
        did_author,
        is_active: true,
        expires_at: None,
        created_at: now,
        updated_at: now,
    }
}

/// Makes the item that a caller hands in, stamped with `now`.
pub fn submit_item_at(
    content: String,
    knowledge_type: String,
    source_type: String,
    scope: Option<String>,
    scope_layer: Option<String>,
    role_tag: Option<String>,
    dialectic_tag: Option<String>,
    confidence: Option<i32>,
    user_id: Option<String>,
    project_id: Option<String>,
    source_id: Option<String>,
    source_context: Option<String>,
    did_author: Option<String>,
    now: &str,
) -> (res: KnowledgeItem)
    ensures
        res@ == submitted_item(
            content@,
            knowledge_type@,
            source_type@,
            opt_view(scope),
            opt_view(scope_layer),
            opt_view(role_tag),
            opt_view(dialectic_tag),
            confidence,
            opt_view(user_id),
            opt_view(project_id),
            opt_view(source_id),
            opt_view(source_context),
            opt_view(did_author),
            now@,
        ),
{
    KnowledgeItem {
        id: String::new(),
        content,
        summary: None,
        knowledge_type,
        source_type,
        scope: match scope {
            Some(s) => s,
            None => String::from_str("personal"),
        },
        scope_layer,
        role_tag,
        dialectic_tag,
        confidence: match confidence {
            Some(c) => c,
            None => DEFAULT_CONFIDENCE,
        },
        relevance_score: INITIAL_RELEVANCE,
        usage_count: 0,
        decision_maker: None,
        outcome: None,
        financial_impact_krw: None,
        source_id,
        source_context,
        user_id,
        project_id,
        did_author,
        is_active: true,
        expires_at: None,
        created_at: String::from_str(now),
        updated_at: String::from_str(now),
    }
}

/// Makes the item that a caller hands in, stamped with the current time.
pub fn submit_item(
    content: String,
    knowledge_type: String,
    source_type: String,
    scope: Option<String>,
    scope_layer: Option<String>,
    role_tag: Option<String>,
    dialectic_tag: Option<String>,
    confidence: Option<i32>,
    user_id: Option<String>,
    project_id: Option<String>,
    source_id: Option<String>,
    source_context: Option<String>,
    did_author: Option<String>,
) -> (res: KnowledgeItem)
    ensures
        res@ == submitted_item(
            content@,
            knowledge_type@,
            source_type@,
            opt_view(scope),
            opt_view(scope_layer),
            opt_view(role_tag),
            opt_view(dialectic_tag),
            confidence,
            opt_view(user_id),
            opt_view(project_id),
            opt_view(source_id),
            opt_view(source_context),
            opt_view(did_author),
            res.created_at@,
        ),
{
    let now = now_rfc3339();
    submit_item_at(
        content,
        knowledge_type,
        source_type,
        scope,
        scope_layer,
        role_tag,
        dialectic_tag,
        confidence,
        user_id,
        project_id,
        source_id,
        source_context,
        did_author,
        now.as_str(),
    )
}

// ---------------------------------------------------------------------------
// From a deep extraction
// ---------------------------------------------------------------------------

/// The item that an extracted item becomes.
pub open spec fn extracted_item(
    item: ExtractedItem,
    user_id: Option<Seq<char>>,
    project_id: Option<Seq<char>>,
    source_id: Seq<char>,
    source_context: Option<Seq<char>>,
    now: Seq<char>,
) -> KnowledgeItemView {
    drafted_item(
        Draft {
            content: item.content@,
            knowledge_type: item.knowledge_type@,
            source_type: "chat_digest"@,
            scope_layer: opt_view(item.scope_layer),
            role_tag: opt_view(item.role_tag),
            dialectic_tag: opt_view(item.dialectic_tag),
            confidence: item.confidence as int,
            outcome: None,
            source_id: Some(source_id),
            source_context,
        },
        scope_for(project_id),
        user_id,
        project_id,
        now,
    )
}

/// The plan for what the analyzer extracted from a digest: nothing where
/// the digest was extracted before; else one item per extracted item, in
/// their order, and a record of the extraction.
pub open spec fn spec_from_digest(
    already_extracted: bool,
    extracted: Seq<ExtractedItem>,
    user_id: Option<Seq<char>>,
    project_id: Option<Seq<char>>,
    source_id: Seq<char>,
    source_context: Option<Seq<char>>,
    now: Seq<char>,
) -> IngestPlanView {
    if already_extracted {
        nothing_to_do()
    } else {
        IngestPlanView {
            items: Seq::new(
                extracted.len(),
                |i: int| extracted_item(extracted[i], user_id, project_id, source_id, source_context, now),
            ),
            skipped_count: 0,
            mark_extracted: true,
        }
    }
}

/// Plans the ingest of what the analyzer extracted from a digest, stamped
/// with `now`.
///
/// A digest that was extracted before gives nothing. Else every extracted
/// item becomes an item of source type `chat_digest`, of team scope where
/// a project is given and personal scope where not, and the extraction is
/// to be recorded.
pub fn from_digest_at(
    already_extracted: bool,
    extracted: &ExtractionResult,
    user_id: Option<&str>,
    project_id: Option<&str>,
    source_id: &str,
    source_context: &Option<String>,
    now: &str,
) -> (res: IngestPlan)
    ensures
        res@ == spec_from_digest(
            already_extracted,
            extracted.items@,
            opt_str_view(user_id),
            opt_str_view(project_id),
            source_id@,
            opt_view(*source_context),
            now@,
        ),
{
    if already_extracted {
        return skip_plan();
    }
    let ghost target = spec_from_digest(
        false,
        extracted.items@,
        opt_str_view(user_id),
        opt_str_view(project_id),
        source_id@,
        opt_view(*source_context),
        now@,
    ).items;
    let mut items: Vec<KnowledgeItem> = Vec::new();
    assert(item_views(items@) =~= target.take(0));
    let mut i: usize = 0;
    while i < extracted.items.len()
        invariant
            i <= extracted.items@.len(),
            target.len() == extracted.items@.len(),
            forall|j: int|
                0 <= j < target.len() ==> #[trigger] target[j] == extracted_item(
                    extracted.items@[j],
                    opt_str_view(user_id),
                    opt_str_view(project_id),
                    source_id@,
                    opt_view(*source_context),
                    now@,
                ),
            item_views(items@) == target.take(i as int),
        decreases extracted.items@.len() - i,
    {
        let e = &extracted.items[i];
        let item = new_item(
            e.content.clone(),
            e.knowledge_type.clone(),
            "chat_digest",
            opt_clone(&e.scope_layer),
            opt_clone(&e.role_tag),
            opt_clone(&e.dialectic_tag),
            e.confidence,
            None,
            Some(String::from_str(source_id)),
            opt_clone(source_context),
            scope_of(project_id),
            user_id,
            project_id,
            now,
        );
        proof {
            lemma_item_views_push(items@, item);
            assert(target.take(i as int).push(target[i as int]) =~= target.take(i + 1));
        }
        items.push(item);
        i += 1;
    }
    assert(target.take(target.len() as int) =~= target);
    IngestPlan { items, skipped_count: 0, mark_extracted: true }
}

/// Plans the ingest of what the analyzer extracted from a digest, stamped
/// with the current time.
pub fn from_digest(
    already_extracted: bool,
    extracted: &ExtractionResult,
    user_id: Option<&str>,
    project_id: Option<&str>,
    source_id: &str,
    source_context: &Option<String>,
) -> (res: IngestPlan)
    ensures
        exists|now: Seq<char>|
            res@ == #[trigger] spec_from_digest(
                already_extracted,
                extracted.items@,
                opt_str_view(user_id),
                opt_str_view(project_id),
                source_id@,
                opt_view(*source_context),
                now,
            ),
{
    let now = now_rfc3339();
    from_digest_at(already_extracted, extracted, user_id, project_id, source_id, source_context, now.as_str())
}

// ---------------------------------------------------------------------------
// From an action
// ---------------------------------------------------------------------------

/// The knowledge type that an action of a given type gives.
pub open spec fn spec_action_knowledge_type(action_type: Seq<char>) -> Seq<char> {
    if action_type == "create_task"@ || action_type == "complete_task"@ {
        "workflow"@
    } else if action_type == "schedule_event"@ || action_type == "reschedule"@ {
        "schedule_change"@
    } else if action_type == "budget_update"@ || action_type == "expense_record"@ {
        "budget_decision"@
    } else if action_type == "decision"@ || action_type == "approval"@ {
        "decision_pattern"@
    } else if action_type == "risk_flag"@ {
        "recurring_risk"@
    } else {
        "context"@
    }
}

/// The plan for an action: nothing where the action was extracted before;
/// else one item of confidence 0.6 with the content of the action, and a
/// record of the extraction.
pub open spec fn spec_from_action(
    already_extracted: bool,
    action_type: Seq<char>,
    action_content: Seq<char>,
    user_id: Option<Seq<char>>,
    project_id: Option<Seq<char>>,
    source_id: Seq<char>,
    source_context: Option<Seq<char>>,
    now: Seq<char>,
) -> IngestPlanView {
    if already_extracted {
        nothing_to_do()
    } else {
        IngestPlanView {
            items: seq![
                drafted_item(
                    Draft {
                        content: action_content,
                        knowledge_type: spec_action_knowledge_type(action_type),
                        source_type: "brain_action"@,
                        scope_layer: None,
                        role_tag: None,
                        dialectic_tag: None,
                        confidence: ACTION_CONFIDENCE as int,
                        outcome: None,
                        source_id: Some(source_id),
                        source_context,
                    },
                    scope_for(project_id),
                    user_id,
                    project_id,
                    now,
                ),
            ],
            skipped_count: 0,
            mark_extracted: true,
        }
    }
}

/// The knowledge type that an action of a given type gives: tasks are
/// workflow, scheduling is a schedule change, budget and expenses are
/// budget decisions, decisions and approvals are decision patterns, a risk
/// flag is a recurring risk, anything else is context.
pub fn action_knowledge_type(action_type: &str) -> (res: &'static str)
    ensures
        res@ == spec_action_knowledge_type(action_type@),
{
    if str_eq(action_type, "create_task") || str_eq(action_type, "complete_task") {
        "workflow"
    } else if str_eq(action_type, "schedule_event") || str_eq(action_type, "reschedule") {
        "schedule_change"
    } else if str_eq(action_type, "budget_update") || str_eq(action_type, "expense_record") {
        "budget_decision"
    } else if str_eq(action_type, "decision") || str_eq(action_type, "approval") {
        "decision_pattern"
    } else if str_eq(action_type, "risk_flag") {
        "recurring_risk"
    } else {
        "context"
    }
}

fn single(item: KnowledgeItem) -> (res: IngestPlan)
    ensures
        res@ == (IngestPlanView { items: seq![item@], skipped_count: 0, mark_extracted: true }),
{
    let mut items: Vec<KnowledgeItem> = Vec::new();
    items.push(item);
    let plan = IngestPlan { items, skipped_count: 0, mark_extracted: true };
    assert(plan@.items =~= seq![item@]);
    plan
}

/// Plans the ingest of an action, stamped with `now`.
pub fn from_action_at(
    already_extracted: bool,
    action_type: &str,
    action_content: &str,
    user_id: Option<&str>,
    project_id: Option<&str>,
    source_id: &str,
    source_context: Option<String>,
    now: &str,
) -> (res: IngestPlan)
    ensures
        res@ == spec_from_action(
            already_extracted,
            action_type@,
            action_content@,
            opt_str_view(user_id),
            opt_str_view(project_id),
            source_id@,
            opt_view(source_context),
            now@,
        ),
{
    if already_extracted {
        return skip_plan();
    }
    let item = new_item(
        String::from_str(action_content),
        String::from_str(action_knowledge_type(action_type)),
        "brain_action",
        None,
        None,
        None,
        ACTION_CONFIDENCE,
        None,
        Some(String::from_str(source_id)),
        source_context,
        scope_of(project_id),
        user_id,
        project_id,
        now,
    );
    single(item)
}

/// Plans the ingest of an action, stamped with the current time.
pub fn from_action(
    already_extracted: bool,
    action_type: &str,
    action_content: &str,
    user_id: Option<&str>,
    project_id: Option<&str>,
    source_id: &str,
    source_context: Option<String>,
) -> (res: IngestPlan)
    ensures
        exists|now: Seq<char>|
            res@ == #[trigger] spec_from_action(
                already_extracted,
                action_type@,
                action_content@,
                opt_str_view(user_id),
                opt_str_view(project_id),
                source_id@,
                opt_view(source_context),
                now,
            ),
{
    let now = now_rfc3339();
    from_action_at(
        already_extracted,
        action_type,
        action_content,
        user_id,
        project_id,
        source_id,
        source_context,
        now.as_str(),
    )
}

// ---------------------------------------------------------------------------
// From a review
// ---------------------------------------------------------------------------

/// Whether a comment is too slight for an item: blank, or shorter than ten
/// bytes.
pub open spec fn comment_is_slight(comment: Seq<char>) -> bool {
    spec_trim(comment).len() == 0 || encode_utf8(comment).len() < MIN_COMMENT_BYTES
}

/// The content of the item of a review. The rating is millionths of a
/// point.
pub open spec fn review_content(reviewer_name: Seq<char>, reviewee_name: Seq<char>, rating: int, comment: Seq<char>) -> Seq<
    char,
> {
    reviewer_name + "님의 "@ + reviewee_name + "님 평가 ("@ + spec_millionths(rating) + "점/5점): "@ + comment
}

/// The confidence of the item of a review: a fifth of the rating, at most
/// one.
pub open spec fn review_confidence(rating: int) -> int {
    let fifth = div_toward_zero(rating, 5);
    if fifth > UNIT {
        UNIT as int
    } else {
        fifth
    }
}

/// The plan for a review: nothing where the review was extracted before; a
/// skip where the comment is too slight; else one item of team scope, a
/// constraint where the rating is below three, and a record of the
/// extraction.
pub open spec fn spec_from_review(
    already_extracted: bool,
    reviewer_name: Seq<char>,
    reviewee_name: Seq<char>,
    rating: int,
    comment: Seq<char>,
    user_id: Option<Seq<char>>,
    project_id: Option<Seq<char>>,
    source_id: Seq<char>,
    source_context: Option<Seq<char>>,
    now: Seq<char>,
) -> IngestPlanView {
    if already_extracted {
        nothing_to_do()
    } else if comment_is_slight(comment) {
        IngestPlanView { items: Seq::empty(), skipped_count: 1, mark_extracted: false }
    } else {
        IngestPlanView {
            items: seq![
                drafted_item(
                    Draft {
                        content: review_content(reviewer_name, reviewee_name, rating, comment),
                        knowledge_type: "feedback_pattern"@,
                        source_type: "peer_review"@,
                        scope_layer: None,
                        role_tag: None,
                        dialectic_tag: if rating < LOW_RATING {
                            Some("constraint"@)
                        } else {
                            None
                        },
                        confidence: review_confidence(rating),
                        outcome: None,
                        source_id: Some(source_id),
                        source_context,
                    },
                    "team"@,
                    user_id,
                    project_id,
                    now,
                ),
            ],
            skipped_count: 0,
            mark_extracted: true,
        }
    }
}

/// Plans the ingest of a peer review, stamped with `now`. The rating is
/// millionths of a point.
pub fn from_review_at(
    already_extracted: bool,
    reviewer_name: &str,
    reviewee_name: &str,
    rating: i32,
    comment: &str,
    user_id: Option<&str>,
    project_id: Option<&str>,
    source_id: &str,
    source_context: Option<String>,
    now: &str,
) -> (res: IngestPlan)
    ensures
        res@ == spec_from_review(
            already_extracted,
            reviewer_name@,
            reviewee_name@,
            rating as int,
            comment@,
            opt_str_view(user_id),
            opt_str_view(project_id),
            source_id@,
            opt_view(source_context),
            now@,
        ),
{
    if already_extracted {
        return skip_plan();
    }
    if str_trim(comment).unicode_len() == 0 || comment.as_bytes().len() < MIN_COMMENT_BYTES {
        let plan = IngestPlan { items: Vec::new(), skipped_count: 1, mark_extracted: false };
        assert(plan@.items =~= Seq::<KnowledgeItemView>::empty());
        return plan;
    }
    let mut content = String::from_str(reviewer_name);
    content.append("님의 ");
    content.append(reviewee_name);
    content.append("님 평가 (");
    push_millionths(&mut content, rating as i64);
    content.append("점/5점): ");
    content.append(comment);
    let fifth: i32 = if rating >= 0 {
        rating / 5
    } else {
        -((-(rating as i64)) / 5) as i32
    };
    let confidence = if fifth > UNIT {
        UNIT
    } else {
        fifth
    };
    let dialectic_tag = if rating < LOW_RATING {
        Some(String::from_str("constraint"))
    } else {
        None
    };
    let item = new_item(
        content,
        String::from_str("feedback_pattern"),
        "peer_review",
        None,
        None,
        dialectic_tag,
        confidence,
        None,
        Some(String::from_str(source_id)),
        source_context,
        String::from_str("team"),
        user_id,
        project_id,
        now,
    );
    single(item)
}

/// Plans the ingest of a peer review, stamped with the current time.
pub fn from_review(
    already_extracted: bool,
    reviewer_name: &str,
    reviewee_name: &str,
    rating: i32,
    comment: &str,
    user_id: Option<&str>,
    project_id: Option<&str>,
    source_id: &str,
    source_context: Option<String>,
) -> (res: IngestPlan)
    ensures
        exists|now: Seq<char>|
            res@ == #[trigger] spec_from_review(
                already_extracted,
                reviewer_name@,
                reviewee_name@,
                rating as int,
                comment@,
                opt_str_view(user_id),
                opt_str_view(project_id),
                source_id@,
                opt_view(source_context),
                now,
            ),
{
    let now = now_rfc3339();
    from_review_at(
        already_extracted,
        reviewer_name,
        reviewee_name,
        rating,
        comment,
        user_id,
        project_id,
        source_id,
        source_context,
        now.as_str(),
    )
}

// ---------------------------------------------------------------------------
// Extraction happens once
// ---------------------------------------------------------------------------

/// A source is extracted once: the plan for a digest, an action or a review
/// that creates items asks for a record of the extraction, and with the
/// record in place the plan for the same source creates nothing, whatever
/// the source then holds.
pub proof fn lemma_extracted_source_is_skipped(
    extracted: Seq<ExtractedItem>,
    action_type: Seq<char>,
    text: Seq<char>,
    reviewer_name: Seq<char>,
    reviewee_name: Seq<char>,
    rating: int,
    user_id: Option<Seq<char>>,
    project_id: Option<Seq<char>>,
    source_id: Seq<char>,
    source_context: Option<Seq<char>>,
    first: Seq<char>,
    second: Seq<char>,
)
    ensures
        ({
            let plan = spec_from_digest(false, extracted, user_id, project_id, source_id, source_context, first);
            plan.mark_extracted && spec_from_digest(
                plan.mark_extracted,
                extracted,
                user_id,
                project_id,
                source_id,
                source_context,
                second,
            ) == nothing_to_do()
        }),
        ({
            let plan = spec_from_action(false, action_type, text, user_id, project_id, source_id, source_context, first);
            plan.mark_extracted && spec_from_action(
                plan.mark_extracted,
                action_type,
                text,
                user_id,
                project_id,
                source_id,
                source_context,
                second,
            ) == nothing_to_do()
        }),
        ({
            let plan = spec_from_review(
                false,
                reviewer_name,
                reviewee_name,
                rating,
                text,
                user_id,
                project_id,
                source_id,
                source_context,
                first,
            );
            plan.items.len() > 0 ==> plan.mark_extracted && spec_from_review(
                plan.mark_extracted,
                reviewer_name,
                reviewee_name,
                rating,
                text,
                user_id,
                project_id,
                source_id,
                source_context,
                second,
            ) == nothing_to_do()
        }),
        nothing_to_do().items.len() == 0,
{
}

// ---------------------------------------------------------------------------
// From the items of a digest
// ---------------------------------------------------------------------------

/// The item that a decision of a digest becomes.
pub open spec fn decision_item(
    decision: DigestItem,
    user_id: Option<Seq<char>>,
    project_id: Option<Seq<char>>,
    now: Seq<char>,
) -> KnowledgeItemView {
    drafted_item(
        Draft {
            content: decision.text@,
            knowledge_type: "decision_pattern"@,
            source_type: "chat_digest"@,
            scope_layer: None,
            role_tag: None,
            dialectic_tag: None,
            confidence: decision.confidence as int,
            outcome: Some("confirmed"@),
            source_id: None,
            source_context: None,
        },
        scope_for(project_id),
        user_id,
        project_id,
        now,
    )
}

/// The item that a risk of a digest becomes.
pub open spec fn risk_item(risk: RiskItem, user_id: Option<Seq<char>>, project_id: Option<Seq<char>>, now: Seq<char>) -> KnowledgeItemView {
    drafted_item(
        Draft {
            content: risk.text@,
            knowledge_type: "recurring_risk"@,
            source_type: "chat_digest"@,
            scope_layer: None,
            role_tag: None,
            dialectic_tag: Some("risk"@),
            confidence: risk.confidence as int,
            outcome: None,
            source_id: None,
            source_context: None,
        },
        scope_for(project_id),
        user_id,
        project_id,
        now,
    )
}

/// The items of the decisions of confidence 0.6 or more, in their order.
pub open spec fn decision_items(
    decisions: Seq<DigestItem>,
    user_id: Option<Seq<char>>,
    project_id: Option<Seq<char>>,
    now: Seq<char>,
) -> Seq<KnowledgeItemView>
    decreases decisions.len(),
{
    if decisions.len() == 0 {
        Seq::empty()
    } else {
        let before = decision_items(decisions.drop_last(), user_id, project_id, now);
        if decisions.last().confidence >= DECISION_THRESHOLD {
            before.push(decision_item(decisions.last(), user_id, project_id, now))
        } else {
            before
        }
    }
}

/// The items of the risks of confidence 0.5 or more, in their order.
pub open spec fn risk_items(risks: Seq<RiskItem>, user_id: Option<Seq<char>>, project_id: Option<Seq<char>>, now: Seq<char>) -> Seq<
    KnowledgeItemView,
>
    decreases risks.len(),
{
    if risks.len() == 0 {
        Seq::empty()
    } else {
        let before = risk_items(risks.drop_last(), user_id, project_id, now);
        if risks.last().confidence >= RISK_THRESHOLD {
            before.push(risk_item(risks.last(), user_id, project_id, now))
        } else {
            before
        }
    }
}

/// The plan for the items of a digest: the confident decisions as
/// confirmed decision patterns, then the confident risks as recurring
/// risks. Nothing is recorded as extracted.
pub open spec fn spec_from_digest_items(
    digest: DigestResult,
    user_id: Option<Seq<char>>,
    project_id: Option<Seq<char>>,
    now: Seq<char>,
) -> IngestPlanView {
    IngestPlanView {
        items: decision_items(digest.decisions@, user_id, project_id, now) + risk_items(
            digest.risks@,
            user_id,
            project_id,
            now,
        ),
        skipped_count: 0,
        mark_extracted: false,
    }
}

/// Plans the ingest of the decisions and risks of a digest as they are,
/// without asking the analyzer, stamped with `now`.
pub fn from_digest_items_at(digest: &DigestResult, user_id: Option<&str>, project_id: Option<&str>, now: &str) -> (res:
    IngestPlan)
    ensures
        res@ == spec_from_digest_items(*digest, opt_str_view(user_id), opt_str_view(project_id), now@),
{
    let ghost user = opt_str_view(user_id);
    let ghost project = opt_str_view(project_id);
    let mut items: Vec<KnowledgeItem> = Vec::new();
    assert(item_views(items@) =~= Seq::<KnowledgeItemView>::empty());
    let mut i: usize = 0;
    while i < digest.decisions.len()
        invariant
            i <= digest.decisions@.len(),
            user == opt_str_view(user_id),
            project == opt_str_view(project_id),
            item_views(items@) == decision_items(digest.decisions@.take(i as int), user, project, now@),
        decreases digest.decisions@.len() - i,
    {
        let decision = &digest.decisions[i];
        proof {
            let front = digest.decisions@.take(i + 1);
            assert(front.drop_last() =~= digest.decisions@.take(i as int));
            assert(front.last() == *decision);
        }
        if decision.confidence >= DECISION_THRESHOLD {
            let item = new_item(
                decision.text.clone(),
                String::from_str("decision_pattern"),
                "chat_digest",
                None,
                None,
                None,
                decision.confidence,
                Some(String::from_str("confirmed")),
                None,
                None,
                scope_of(project_id),
                user_id,
                project_id,
                now,
            );
            proof {
                lemma_item_views_push(items@, item);
            }
            items.push(item);
        }
        i += 1;
    }
    assert(digest.decisions@.take(digest.decisions@.len() as int) =~= digest.decisions@);
    let ghost first = item_views(items@);
    assert(first + Seq::<KnowledgeItemView>::empty() =~= first);
    let mut k: usize = 0;
    while k < digest.risks.len()
        invariant
            k <= digest.risks@.len(),
            user == opt_str_view(user_id),
            project == opt_str_view(project_id),
            item_views(items@) == first + risk_items(digest.risks@.take(k as int), user, project, now@),
        decreases digest.risks@.len() - k,
    {
        let risk = &digest.risks[k];
        proof {
            let front = digest.risks@.take(k + 1);
            assert(front.drop_last() =~= digest.risks@.take(k as int));
            assert(front.last() == *risk);
        }
        if risk.confidence >= RISK_THRESHOLD {
            let item = new_item(
                risk.text.clone(),
                String::from_str("recurring_risk"),
                "chat_digest",
                None,
                None,
                Some(String::from_str("risk")),
                risk.confidence,
                None,
                None,
                None,
                scope_of(project_id),
                user_id,
                project_id,
                now,
            );
            proof {
                lemma_item_views_push(items@, item);
                let before = risk_items(digest.risks@.take(k as int), user, project, now@);
                assert((first + before).push(item@) =~= first + before.push(item@));
            }
            items.push(item);
        }
        k += 1;
    }
    assert(digest.risks@.take(digest.risks@.len() as int) =~= digest.risks@);
    IngestPlan { items, skipped_count: 0, mark_extracted: false }
}

/// Plans the ingest of the decisions and risks of a digest as they are,
/// stamped with the current time.
pub fn from_digest_items(digest: &DigestResult, user_id: Option<&str>, project_id: Option<&str>) -> (res: IngestPlan)
    ensures
        exists|now: Seq<char>|
            res@ == #[trigger] spec_from_digest_items(*digest, opt_str_view(user_id), opt_str_view(project_id), now),
{
    let now = now_rfc3339();
    from_digest_items_at(digest, user_id, project_id, now.as_str())
}

} // verus!
