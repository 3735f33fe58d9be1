//! Knowledge items: what a valid item is, how an item is prepared for the
//! store, and how feedback moves its relevance.

use vstd::prelude::*;
use vstd::string::*;
use crate::error::EngineError;
use crate::primitives::new_uuid;
use crate::rag::embedding::{spec_is_valid_embedding_blob, spec_vector_to_blob, vector_to_blob, EMBEDDING_DIM};
use crate::rag::query::UNIT;
use crate::text::{opt_view, str_eq, str_less, str_lt};

verus! {

/// A knowledge item. Confidence and relevance are millionths.
#[derive(Clone, Debug)]
pub struct KnowledgeItem {
    pub id: String,
    pub content: String,
    pub summary: Option<String>,
    pub knowledge_type: String,
    pub source_type: String,
    pub scope: String,
    pub scope_layer: Option<String>,
    pub role_tag: Option<String>,
    pub dialectic_tag: Option<String>,
    pub confidence: i32,
    pub relevance_score: i32,
    pub usage_count: i64,
    pub decision_maker: Option<String>,
    pub outcome: Option<String>,
    pub financial_impact_krw: Option<i64>,
    pub source_id: Option<String>,
    pub source_context: Option<String>,
    pub user_id: Option<String>,
    pub project_id: Option<String>,
    pub did_author: Option<String>,
    pub is_active: bool,
    pub expires_at: Option<String>,
    pub created_at: String,
    pub updated_at: String,
}

/// A knowledge item as plain values.
pub struct KnowledgeItemView {
    pub id: Seq<char>,
    pub content: Seq<char>,
    pub summary: Option<Seq<char>>,
    pub knowledge_type: Seq<char>,
    pub source_type: Seq<char>,
    pub scope: Seq<char>,
    pub scope_layer: Option<Seq<char>>,
    pub role_tag: Option<Seq<char>>,
    pub dialectic_tag: Option<Seq<char>>,
    pub confidence: int,
    pub relevance_score: int,
    pub usage_count: int,
    pub decision_maker: Option<Seq<char>>,
    pub outcome: Option<Seq<char>>,
    pub financial_impact_krw: Option<i64>,
    pub source_id: Option<Seq<char>>,
    pub source_context: Option<Seq<char>>,
    pub user_id: Option<Seq<char>>,
    pub project_id: Option<Seq<char>>,
    pub did_author: Option<Seq<char>>,
    pub is_active: bool,
    pub expires_at: Option<Seq<char>>,
    pub created_at: Seq<char>,
    pub updated_at: Seq<char>,
}

impl View for KnowledgeItem {
    type V = KnowledgeItemView;

    open spec fn view(&self) -> KnowledgeItemView {
        KnowledgeItemView {
            id: self.id@,
            content: self.content@,
            summary: opt_view(self.summary),
            knowledge_type: self.knowledge_type@,
            source_type: self.source_type@,
            scope: self.scope@,
            scope_layer: opt_view(self.scope_layer),
            role_tag: opt_view(self.role_tag),
            dialectic_tag: opt_view(self.dialectic_tag),
            confidence: self.confidence as int,
            relevance_score: self.relevance_score as int,
            usage_count: self.usage_count as int,
            decision_maker: opt_view(self.decision_maker),
            outcome: opt_view(self.outcome),
            financial_impact_krw: self.financial_impact_krw,
            source_id: opt_view(self.source_id),
            source_context: opt_view(self.source_context),
            user_id: opt_view(self.user_id),
            project_id: opt_view(self.project_id),
            did_author: opt_view(self.did_author),
            is_active: self.is_active,
            expires_at: opt_view(self.expires_at),
            created_at: self.created_at@,
            updated_at: self.updated_at@,
        }
    }
}

/// The relevance that a new item begins with: 0.5.
pub const INITIAL_RELEVANCE: i32 = 500_000;

/// What the store is to write for a new item: the identifier of the item
/// and the bytes of its embedding, under the same identifier in both
/// tables.
#[derive(Clone, Debug)]
pub struct KnowledgeWrite {
    pub id: String,
    pub blob: Vec<u8>,
}

/// Statistics of the knowledge base.
#[derive(Clone, Debug)]
pub struct RagStats {
    pub initialized: bool,
    /// How many items the store holds.
    pub knowledge_count: i64,
    /// How many of them are active.
    pub active_count: i64,
    /// The active items by scope.
    pub by_scope: Vec<ScopeCount>,
    /// The active items by knowledge type, the most frequent types first.
    pub by_type: Vec<TypeCount>,
    /// When the newest item was created.
    pub last_created_at: Option<String>,
    /// How often the active items were used in all.
    pub total_usage: i64,
}

/// How many active items a scope has.
#[derive(Clone, Debug)]
pub struct ScopeCount {
    pub scope: String,
    pub count: i64,
}

/// How many active items a knowledge type has.
#[derive(Clone, Debug)]
pub struct TypeCount {
    pub knowledge_type: String,
    pub count: i64,
}

/// What helpful feedback adds to the relevance of an item: 0.02.
pub const FEEDBACK_HELPFUL: i32 = 20_000;

/// What unhelpful feedback takes from the relevance of an item: 0.03.
pub const FEEDBACK_UNHELPFUL: i32 = 30_000;

/// The four scopes.
pub open spec fn spec_is_scope(s: Seq<char>) -> bool {
    s == "personal"@ || s == "team"@ || s == "role"@ || s == "global"@
}

/// The six scope layers.
pub open spec fn spec_is_scope_layer(s: Seq<char>) -> bool {
    s == "operations"@ || s == "creative"@ || s == "pitch"@ || s == "strategy"@ || s == "execution"@ || s
        == "culture"@
}

/// The five dialectic tags.
pub open spec fn spec_is_dialectic_tag(s: Seq<char>) -> bool {
    s == "risk"@ || s == "opportunity"@ || s == "constraint"@ || s == "quality"@ || s == "client_concern"@
}

/// The four outcomes.
pub open spec fn spec_is_outcome(s: Seq<char>) -> bool {
    s == "confirmed"@ || s == "rejected"@ || s == "pending"@ || s == "escalated"@
}

/// The first rule of the data model that an item breaks, if it breaks one.
pub open spec fn spec_validate(item: KnowledgeItemView) -> Result<(), EngineError> {
    if !spec_is_scope(item.scope) {
        Err(EngineError::UnknownScope)
    } else if item.scope_layer matches Some(l) && !spec_is_scope_layer(l) {
        Err(EngineError::UnknownScopeLayer)
    } else if item.dialectic_tag matches Some(t) && !spec_is_dialectic_tag(t) {
        Err(EngineError::UnknownDialecticTag)
    } else if item.outcome matches Some(o) && !spec_is_outcome(o) {
        Err(EngineError::UnknownOutcome)
    } else if !(0 <= item.confidence <= UNIT) {
        Err(EngineError::ConfidenceOutOfRange)
    } else if !(0 <= item.relevance_score <= UNIT) {
        Err(EngineError::RelevanceOutOfRange)
    } else if item.usage_count < 0 {
        Err(EngineError::NegativeUsageCount)
    } else if str_lt(item.updated_at, item.created_at) {
        Err(EngineError::TimestampOrder)
    } else {
        Ok(())
    }
}

/// Whether an item keeps the rules of the data model: its scope and its
/// optional layer, tag and outcome are known values, confidence and
/// relevance lie in `[0, 1]`, the usage count is not negative, and it was
/// not updated before it was created.
pub open spec fn item_is_valid(item: KnowledgeItemView) -> bool {
    spec_validate(item) is Ok
}

/// The relevance after one piece of feedback: 0.02 more where it was
/// helpful, 0.03 less where it was not, kept within `[0, 1]`.
pub open spec fn spec_update_feedback(relevance_score: int, was_helpful: bool) -> int {
    let moved = if was_helpful {
        relevance_score + FEEDBACK_HELPFUL
    } else {
        relevance_score - FEEDBACK_UNHELPFUL
    };
    if moved < 0 {
        0
    } else if moved > UNIT {
        UNIT as int
    } else {
        moved
    }
}

/// The relevance after a sequence of feedback, the first piece first.
pub open spec fn spec_feedback_sequence(relevance_score: int, feedback: Seq<bool>) -> int
    decreases feedback.len(),
{
    if feedback.len() == 0 {
        relevance_score
    } else {
        spec_update_feedback(spec_feedback_sequence(relevance_score, feedback.drop_last()), feedback.last())
    }
}

/// After any sequence of feedback of at least one piece the relevance lies
/// in `[0, 1]`, wherever it began; a relevance that began there never
/// leaves.
pub proof fn lemma_feedback_keeps_range(relevance_score: int, feedback: Seq<bool>)
    ensures
        feedback.len() > 0 || 0 <= relevance_score <= UNIT ==> 0 <= spec_feedback_sequence(relevance_score, feedback)
            <= UNIT,
    decreases feedback.len(),
{
    if feedback.len() > 0 {
        lemma_feedback_keeps_range(relevance_score, feedback.drop_last());
    }
}

// ---------------------------------------------------------------------------
// The store as a write sees it
// ---------------------------------------------------------------------------

/// The rows of the item table by identifier. A row holds everything of an
/// item but its embedding.
pub type Rows = Map<Seq<char>, KnowledgeItemView>;

/// The rows of the embedding table by identifier.
pub type Embeddings = Map<Seq<char>, Seq<u32>>;

/// The two tables of a store.
pub struct Store {
    pub rows: Rows,
    pub embeddings: Embeddings,
}

/// Whether an embedding exists exactly where its item exists.
pub open spec fn tables_agree(store: Store) -> bool {
    store.rows.dom() == store.embeddings.dom()
}

/// Whether every embedding has its item.
pub open spec fn embeddings_owned(store: Store) -> bool {
    store.embeddings.dom().subset_of(store.rows.dom())
}

/// The identifier under which a new item is written: its own where it has
/// one, else the fresh one.
pub open spec fn write_id(item: KnowledgeItemView, fresh_id: Seq<char>) -> Seq<char> {
    if item.id.len() == 0 {
        fresh_id
    } else {
        item.id
    }
}

/// An item under another identifier.
pub open spec fn with_id(item: KnowledgeItemView, id: Seq<char>) -> KnowledgeItemView {
    KnowledgeItemView { id, ..item }
}

/// The store after the host carried out the creation of an item in one
/// transaction: unchanged where the item or the embedding is rejected;
/// else with the item and its embedding under one identifier.
pub open spec fn store_after_create(store: Store, item: KnowledgeItemView, embedding: Seq<u32>, fresh_id: Seq<char>) -> Store {
    match spec_check_write(item, embedding.len()) {
        Err(_) => store,
        Ok(()) => Store {
            rows: store.rows.insert(write_id(item, fresh_id), with_id(item, write_id(item, fresh_id))),
            embeddings: store.embeddings.insert(write_id(item, fresh_id), embedding),
        },
    }
}

/// Creating an item keeps the tables in agreement: in a store in which an
/// embedding exists exactly where its item exists, the same holds after
/// the creation, whether it succeeds or is rejected; a rejected creation
/// changes nothing; and a created item has its embedding of 384 elements
/// under its identifier.
pub proof fn lemma_create_keeps_tables(store: Store, item: KnowledgeItemView, embedding: Seq<u32>, fresh_id: Seq<char>)
    requires
        tables_agree(store),
    ensures
        tables_agree(store_after_create(store, item, embedding, fresh_id)),
        spec_check_write(item, embedding.len()) is Err ==> store_after_create(store, item, embedding, fresh_id) == store,
        spec_check_write(item, embedding.len()) is Ok ==> {
            let after = store_after_create(store, item, embedding, fresh_id);
            let id = write_id(item, fresh_id);
            &&& after.rows.dom().contains(id)
            &&& after.embeddings.dom().contains(id)
            &&& after.rows[id] == with_id(item, id)
            &&& after.embeddings[id] == embedding
            &&& embedding.len() == EMBEDDING_DIM
            &&& forall|other: Seq<char>|
                other != id ==> {
                    &&& after.rows.dom().contains(other) == store.rows.dom().contains(other)
                    &&& after.embeddings.dom().contains(other) == store.embeddings.dom().contains(other)
                }
        },
{
    if spec_check_write(item, embedding.len()) is Ok {
        let after = store_after_create(store, item, embedding, fresh_id);
        assert(after.rows.dom() =~= after.embeddings.dom());
    }
}

/// Whether a string is one of the four scopes.
pub fn is_scope(s: &str) -> (res: bool)
    ensures
        res == spec_is_scope(s@),
{
    str_eq(s, "personal") || str_eq(s, "team") || str_eq(s, "role") || str_eq(s, "global")
}

/// Whether a string is one of the six scope layers.
pub fn is_scope_layer(s: &str) -> (res: bool)
    ensures
        res == spec_is_scope_layer(s@),
{
    str_eq(s, "operations") || str_eq(s, "creative") || str_eq(s, "pitch") || str_eq(s, "strategy") || str_eq(
        s,
        "execution",
    ) || str_eq(s, "culture")
}

/// Whether a string is one of the five dialectic tags.
pub fn is_dialectic_tag(s: &str) -> (res: bool)
    ensures
        res == spec_is_dialectic_tag(s@),
{
    str_eq(s, "risk") || str_eq(s, "opportunity") || str_eq(s, "constraint") || str_eq(s, "quality") || str_eq(
        s,
        "client_concern",
    )
}

/// Whether a string is one of the four outcomes.
pub fn is_outcome(s: &str) -> (res: bool)
    ensures
        res == spec_is_outcome(s@),
{
    str_eq(s, "confirmed") || str_eq(s, "rejected") || str_eq(s, "pending") || str_eq(s, "escalated")
}

/// Checks an item against the rules of the data model and names the first
/// that it breaks.
pub fn validate_knowledge_item(item: &KnowledgeItem) -> (res: Result<(), EngineError>)
    ensures
        res == spec_validate(item@),
{
    if !is_scope(item.scope.as_str()) {
        return Err(EngineError::UnknownScope);
    }
    if let Some(l) = &item.scope_layer {
        if !is_scope_layer(l.as_str()) {
            return Err(EngineError::UnknownScopeLayer);
        }
    }
    if let Some(t) = &item.dialectic_tag {
        if !is_dialectic_tag(t.as_str()) {
            return Err(EngineError::UnknownDialecticTag);
        }
    }
    if let Some(o) = &item.outcome {
        if !is_outcome(o.as_str()) {
            return Err(EngineError::UnknownOutcome);
        }
    }
    if item.confidence < 0 || item.confidence > UNIT {
        return Err(EngineError::ConfidenceOutOfRange);
    }
    if item.relevance_score < 0 || item.relevance_score > UNIT {
        return Err(EngineError::RelevanceOutOfRange);
    }
    if item.usage_count < 0 {
        return Err(EngineError::NegativeUsageCount);
    }
    if str_less(item.updated_at.as_str(), item.created_at.as_str()) {
        return Err(EngineError::TimestampOrder);
    }
    Ok(())
}

/// What preparing an item with an embedding of `dimensions` elements gives:
/// the first rule that the item breaks, or the error of an embedding that
/// has not 384 dimensions, or nothing to object to.
pub open spec fn spec_check_write(item: KnowledgeItemView, dimensions: nat) -> Result<(), EngineError> {
    match spec_validate(item) {
        Err(e) => Err(e),
        Ok(()) => if dimensions != EMBEDDING_DIM {
            Err(EngineError::EmbeddingDimension)
        } else {
            Ok(())
        },
    }
}

/// Prepares a new item for the store, with `fresh_id` as its identifier
/// where it brings none.
///
/// An item that breaks a rule of the data model is rejected, and so is an
/// embedding that has not 384 dimensions. Else the write holds the
/// identifier of the item, its own where it has one, and the bytes of the
/// embedding, a whole embedding, to be written under that one identifier:
/// an item is never written without its embedding.
pub fn create_knowledge_item_with_id(item: &KnowledgeItem, embedding: &[u32], fresh_id: String) -> (res: Result<
    KnowledgeWrite,
    EngineError,
>)
    ensures
        match res {
            Ok(write) => {
                &&& spec_check_write(item@, embedding@.len()) is Ok
                &&& item_is_valid(item@)
                &&& embedding@.len() == EMBEDDING_DIM
                &&& write.id@ == write_id(item@, fresh_id@)
                &&& write.blob@ == spec_vector_to_blob(embedding@)
                &&& spec_is_valid_embedding_blob(write.blob@)
            },
            Err(e) => spec_check_write(item@, embedding@.len()) == Err::<(), EngineError>(e),
        },
{
    match validate_knowledge_item(item) {
        Ok(()) => {},
        Err(e) => {
            return Err(e);
        },
    }
    if embedding.len() != EMBEDDING_DIM {
        return Err(EngineError::EmbeddingDimension);
    }
    let id = if item.id.as_str().unicode_len() == 0 {
        fresh_id
    } else {
        item.id.clone()
    };
    Ok(KnowledgeWrite { id, blob: vector_to_blob(embedding) })
}

/// Prepares a new item for the store. An item without an identifier gets a
/// fresh random one.
///
/// An item that breaks a rule of the data model is rejected, and so is an
/// embedding that has not 384 dimensions. Else the write holds the
/// identifier of the item, which is its own where it has one and never
/// empty, and the bytes of the embedding, a whole embedding, to be written
/// under that one identifier.
pub fn create_knowledge_item(item: &KnowledgeItem, embedding: &[u32]) -> (res: Result<KnowledgeWrite, EngineError>)
    ensures
        match res {
            Ok(write) => {
                &&& spec_check_write(item@, embedding@.len()) is Ok
                &&& item_is_valid(item@)
                &&& embedding@.len() == EMBEDDING_DIM
                &&& item.id@.len() > 0 ==> write.id@ == item.id@
                &&& write.id@.len() > 0
                &&& write.blob@ == spec_vector_to_blob(embedding@)
                &&& spec_is_valid_embedding_blob(write.blob@)
            },
            Err(e) => spec_check_write(item@, embedding@.len()) == Err::<(), EngineError>(e),
        },
{
    let fresh_id = new_uuid();
    create_knowledge_item_with_id(item, embedding, fresh_id)
}

/// The relevance of an item after one piece of feedback: 0.02 more where it
/// was helpful, 0.03 less where it was not, and always within `[0, 1]`.
pub fn update_feedback(relevance_score: i32, was_helpful: bool) -> (res: i32)
    ensures
        res == spec_update_feedback(relevance_score as int, was_helpful),
        0 <= res <= UNIT,
{
    let moved: i64 = if was_helpful {
        relevance_score as i64 + FEEDBACK_HELPFUL as i64
    } else {
        relevance_score as i64 - FEEDBACK_UNHELPFUL as i64
    };
    if moved < 0 {
        0
    } else if moved > UNIT as i64 {
        UNIT
    } else {
        moved as i32
    }
}

} // verus!
