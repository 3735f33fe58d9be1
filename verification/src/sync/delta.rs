//! What changed, and how it is merged: last write wins.
//!
//! The store is the host's. The merge asks it, item by item, when the local
//! row was last updated, and tells it whether to write the incoming one.

use vstd::prelude::*;
use crate::rag::knowledge::{embeddings_owned, tables_agree, Embeddings, KnowledgeItemView, Rows, Store};
use crate::text::{lemma_str_lt_total, lemma_str_lt_transitive, opt_view, str_less, str_lt};

verus! {

/// A knowledge item with its embedding, as it travels between devices.
/// Confidence and relevance are millionths; the embedding is held as the
/// bit patterns of its 32-bit floats.
#[derive(Clone, Debug)]
pub struct SyncItem {
    pub id: String,
    pub content: String,
    pub summary: Option<String>,
    pub knowledge_type: String,
    pub source_type: String,
    pub scope: String,
    pub scope_layer: Option<String>,
    pub role_tag: Option<String>,
    pub dialectic_tag: Option<String>,
    pub confidence: i32,
    pub relevance_score: i32,
    pub usage_count: i64,
    pub decision_maker: Option<String>,
    pub outcome: Option<String>,
    pub financial_impact_krw: Option<i64>,
    pub source_id: Option<String>,
    pub source_context: Option<String>,
    pub user_id: Option<String>,
    pub project_id: Option<String>,
    pub did_author: Option<String>,
    pub is_active: bool,
    pub expires_at: Option<String>,
    pub created_at: String,
    pub updated_at: String,
    pub embedding: Vec<u32>,
}

/// The items that changed since a point in time.
#[derive(Clone, Debug)]
pub struct SyncDelta {
    /// The items that are new or were updated.
    pub items: Vec<SyncItem>,
    /// When the delta was taken.
    pub extracted_at: String,
    /// The point in time since which changes count; `None` for all items.
    pub since: Option<String>,
    /// How many items the store holds in all.
    pub total_count: i64,
}

/// What the store remembers of the last sync.
#[derive(Clone, Debug)]
pub struct SyncMeta {
    pub last_sync_at: Option<String>,
    pub last_sync_item_count: i64,
    pub sync_enabled: bool,
}

/// What to do with an incoming item.
#[derive(Clone, Copy, Debug, PartialEq, Eq, Structural)]
pub enum MergeAction {
    /// Leave the local row as it is.
    Skip,
    /// Write the incoming item over the local row, or as a new row.
    UpsertItem,
    /// Write the incoming item and its embedding.
    UpsertItemAndEmbedding,
}

/// How far a merge has come.
#[derive(Clone, Copy, Debug, PartialEq, Eq, Structural)]
pub struct MergeProgress {
    pub upserted: usize,
    pub skipped: usize,
}

/// Whether an item counts as changed since a point in time: every item
/// where no point is given, else those updated strictly later.
pub open spec fn spec_changed_since(updated_at: Seq<char>, since: Option<Seq<char>>) -> bool {
    match since {
        None => true,
        Some(ts) => str_lt(ts, updated_at),
    }
}

/// Last write wins: an incoming item is written where there is no local row
/// or where it was updated strictly later than the local row.
pub open spec fn spec_should_upsert(local_updated_at: Option<Seq<char>>, incoming_updated_at: Seq<char>) -> bool {
    match local_updated_at {
        None => true,
        Some(local) => str_lt(local, incoming_updated_at),
    }
}

/// The action for an incoming item.
pub open spec fn spec_merge_action(local_updated_at: Option<Seq<char>>, item: SyncItem) -> MergeAction {
    if !spec_should_upsert(local_updated_at, item.updated_at@) {
        MergeAction::Skip
    } else if item.embedding@.len() > 0 {
        MergeAction::UpsertItemAndEmbedding
    } else {
        MergeAction::UpsertItem
    }
}

// ---------------------------------------------------------------------------
// The store as the merge sees it
// ---------------------------------------------------------------------------

/// The row that an incoming item is written as.
pub open spec fn row_of(item: SyncItem) -> KnowledgeItemView {
    KnowledgeItemView {
        id: item.id@,
        content: item.content@,
        summary: opt_view(item.summary),
        knowledge_type: item.knowledge_type@,
        source_type: item.source_type@,
        scope: item.scope@,
        scope_layer: opt_view(item.scope_layer),
        role_tag: opt_view(item.role_tag),
        dialectic_tag: opt_view(item.dialectic_tag),
        confidence: item.confidence as int,
        relevance_score: item.relevance_score as int,
        usage_count: item.usage_count as int,
        decision_maker: opt_view(item.decision_maker),
        outcome: opt_view(item.outcome),
        financial_impact_krw: item.financial_impact_krw,
        source_id: opt_view(item.source_id),
        source_context: opt_view(item.source_context),
        user_id: opt_view(item.user_id),
        project_id: opt_view(item.project_id),
        did_author: opt_view(item.did_author),
        is_active: item.is_active,
        expires_at: opt_view(item.expires_at),
        created_at: item.created_at@,
        updated_at: item.updated_at@,
    }
}

/// When the store last updated the row of an identifier.
pub open spec fn local_updated_at(rows: Rows, id: Seq<char>) -> Option<Seq<char>> {
    if rows.dom().contains(id) {
        Some(rows[id].updated_at)
    } else {
        None
    }
}

/// The item table after one incoming item was merged.
pub open spec fn merge_item(rows: Rows, item: SyncItem) -> Rows {
    if spec_should_upsert(local_updated_at(rows, item.id@), item.updated_at@) {
        rows.insert(item.id@, row_of(item))
    } else {
        rows
    }
}

/// The item table after the incoming items were merged one after another.
pub open spec fn merge_items(rows: Rows, items: Seq<SyncItem>) -> Rows
    decreases items.len(),
{
    if items.len() == 0 {
        rows
    } else {
        merge_item(merge_items(rows, items.drop_last()), items.last())
    }
}

/// The store after the host did what the merge told it for one incoming
/// item: nothing for a skip; else the row is written; and the embedding is
/// written only where the item brings one, so that an item without
/// embedding leaves the stored embedding of its identifier as it is.
pub open spec fn store_after_item(store: Store, item: SyncItem) -> Store {
    match spec_merge_action(local_updated_at(store.rows, item.id@), item) {
        MergeAction::Skip => store,
        MergeAction::UpsertItem => Store { rows: store.rows.insert(item.id@, row_of(item)), embeddings: store.embeddings },
        MergeAction::UpsertItemAndEmbedding => Store {
            rows: store.rows.insert(item.id@, row_of(item)),
            embeddings: store.embeddings.insert(item.id@, item.embedding@),
        },
    }
}

/// The store after the incoming items were merged one after another.
pub open spec fn store_after_items(store: Store, items: Seq<SyncItem>) -> Store
    decreases items.len(),
{
    if items.len() == 0 {
        store
    } else {
        store_after_item(store_after_items(store, items.drop_last()), items.last())
    }
}

/// Whether `row` is the newest of the local row of an identifier and the
/// incoming items with that identifier: it is one of them, and none of them
/// was updated later.
pub open spec fn is_newest(row: KnowledgeItemView, id: Seq<char>, local: Rows, items: Seq<SyncItem>) -> bool {
    &&& {
        ||| (local.dom().contains(id) && row == local[id])
        ||| exists|i: int| 0 <= i < items.len() && row_of(#[trigger] items[i]) == row && row.id == id
    }
    &&& local.dom().contains(id) ==> !str_lt(row.updated_at, local[id].updated_at)
    &&& forall|i: int|
        0 <= i < items.len() && (#[trigger] items[i]).id@ == id ==> !str_lt(row.updated_at, items[i].updated_at@)
}

proof fn lemma_newer_stays_newest(old: Seq<char>, row: Seq<char>, other: Seq<char>)
    requires
        str_lt(old, row),
        !str_lt(old, other),
    ensures
        !str_lt(row, other),
{
    if str_lt(row, other) {
        lemma_str_lt_transitive(old, row, other);
    }
}

/// Last write wins. After a merge, the item table holds exactly the
/// identifiers it held and those that came in. The row of every identifier
/// that came in is the newest of the local row and the incoming items of
/// that identifier, so its `updated_at` is the latest of theirs and its
/// other fields come from the row that bears it; a local row that is as new
/// as what came in stays. Rows of other identifiers are untouched.
pub proof fn lemma_last_write_wins(local: Rows, items: Seq<SyncItem>, id: Seq<char>)
    ensures
        merge_items(local, items).dom().contains(id) <==> local.dom().contains(id) || exists|i: int|
            0 <= i < items.len() && (#[trigger] items[i]).id@ == id,
        merge_items(local, items).dom().contains(id) ==> is_newest(merge_items(local, items)[id], id, local, items),
        local.dom().contains(id) && (forall|i: int|
            0 <= i < items.len() && (#[trigger] items[i]).id@ == id ==> !str_lt(
                local[id].updated_at,
                items[i].updated_at@,
            )) ==> merge_items(local, items)[id] == local[id],
    decreases items.len(),
{
    if items.len() > 0 {
        let front = items.drop_last();
        let last = items.last();
        let before = merge_items(local, front);
        let after = merge_items(local, items);
        lemma_last_write_wins(local, front, id);
        assert forall|i: int| 0 <= i < front.len() implies #[trigger] front[i] == items[i] by {}
        assert(items[items.len() - 1] == last);
        // The identifiers of the table.
        if exists|i: int| 0 <= i < front.len() && (#[trigger] front[i]).id@ == id {
            let i = choose|i: int| 0 <= i < front.len() && (#[trigger] front[i]).id@ == id;
            assert(items[i].id@ == id);
        }
        if exists|i: int| 0 <= i < items.len() && (#[trigger] items[i]).id@ == id {
            let i = choose|i: int| 0 <= i < items.len() && (#[trigger] items[i]).id@ == id;
            if i < front.len() {
                assert(front[i].id@ == id);
            }
        }
        let written = last.id@ == id && spec_should_upsert(local_updated_at(before, id), last.updated_at@);
        if after.dom().contains(id) {
            let row = after[id];
            if written {
                assert(row == row_of(last));
                assert(row_of(items[items.len() - 1]) == row);
                lemma_str_lt_total(row.updated_at, row.updated_at);
                if before.dom().contains(id) {
                    let old = before[id].updated_at;
                    assert(str_lt(old, row.updated_at));
                    if local.dom().contains(id) {
                        lemma_newer_stays_newest(old, row.updated_at, local[id].updated_at);
                    }
                    assert forall|i: int| 0 <= i < items.len() && (#[trigger] items[i]).id@ == id implies !str_lt(
                        row.updated_at,
                        items[i].updated_at@,
                    ) by {
                        if i < front.len() {
                            assert(front[i].id@ == id);
                            assert(!str_lt(old, front[i].updated_at@));
                            lemma_newer_stays_newest(old, row.updated_at, items[i].updated_at@);
                        }
                    }
                } else {
                    assert forall|i: int| 0 <= i < items.len() && (#[trigger] items[i]).id@ == id implies !str_lt(
                        row.updated_at,
                        items[i].updated_at@,
                    ) by {
                        if i < front.len() {
                            assert(front[i].id@ == id);
                        }
                    }
                }
                assert(is_newest(row, id, local, items));
            } else {
                assert(row == before[id]);
                assert(before.dom().contains(id));
                if exists|i: int| 0 <= i < front.len() && row_of(#[trigger] front[i]) == row && row.id == id {
                    let i = choose|i: int| 0 <= i < front.len() && row_of(#[trigger] front[i]) == row && row.id == id;
                    assert(row_of(items[i]) == row);
                }
                assert forall|i: int| 0 <= i < items.len() && (#[trigger] items[i]).id@ == id implies !str_lt(
                    row.updated_at,
                    items[i].updated_at@,
                ) by {
                    if i < front.len() {
                        assert(front[i].id@ == id);
                    }
                }
                assert(is_newest(row, id, local, items));
            }
        }
        if local.dom().contains(id) && (forall|i: int|
            0 <= i < items.len() && (#[trigger] items[i]).id@ == id ==> !str_lt(
                local[id].updated_at,
                items[i].updated_at@,
            )) {
            assert forall|i: int| 0 <= i < front.len() && (#[trigger] front[i]).id@ == id implies !str_lt(
                local[id].updated_at,
                front[i].updated_at@,
            ) by {
                assert(items[i].id@ == id);
            }
            assert(before[id] == local[id]);
            if last.id@ == id {
                assert(items[items.len() - 1].id@ == id);
            }
        }
    } else if local.dom().contains(id) {
        lemma_str_lt_total(local[id].updated_at, local[id].updated_at);
    }
}

/// An item that is merged a second time changes nothing: a store that has
/// merged a delta skips every item of it afterwards.
pub proof fn lemma_merge_again_skips(local: Rows, items: Seq<SyncItem>, k: int)
    requires
        0 <= k < items.len(),
    ensures
        !spec_should_upsert(
            local_updated_at(merge_items(local, items), items[k].id@),
            items[k].updated_at@,
        ),
{
    let id = items[k].id@;
    lemma_last_write_wins(local, items, id);
    assert(items[k].id@ == id);
}

/// The two tables of a store after a merge. The item table is the one that
/// last write wins gives. The stored embedding of an identifier is the
/// local one unless an item of that identifier with an embedding came in:
/// items without embedding leave it as it is, and where there is one after
/// the merge, it is the local one or that of an incoming item of the
/// identifier.
pub proof fn lemma_store_after_items(store: Store, items: Seq<SyncItem>, id: Seq<char>)
    ensures
        store_after_items(store, items).rows == merge_items(store.rows, items),
        (forall|i: int| 0 <= i < items.len() && (#[trigger] items[i]).id@ == id ==> items[i].embedding@.len() == 0) ==> {
            &&& store_after_items(store, items).embeddings.dom().contains(id) == store.embeddings.dom().contains(id)
            &&& store.embeddings.dom().contains(id) ==> store_after_items(store, items).embeddings[id]
                == store.embeddings[id]
        },
        store_after_items(store, items).embeddings.dom().contains(id) ==> {
            ||| (store.embeddings.dom().contains(id) && store_after_items(store, items).embeddings[id]
                == store.embeddings[id])
            ||| exists|i: int|
                0 <= i < items.len() && (#[trigger] items[i]).id@ == id && items[i].embedding@.len() > 0
                    && store_after_items(store, items).embeddings[id] == items[i].embedding@
        },
    decreases items.len(),
{
    if items.len() > 0 {
        let front = items.drop_last();
        let last = items.last();
        lemma_store_after_items(store, front, id);
        let before = store_after_items(store, front);
        let after = store_after_items(store, items);
        assert forall|i: int| 0 <= i < front.len() implies #[trigger] front[i] == items[i] by {}
        assert(items[items.len() - 1] == last);
        if forall|i: int| 0 <= i < items.len() && (#[trigger] items[i]).id@ == id ==> items[i].embedding@.len() == 0 {
            assert forall|i: int| 0 <= i < front.len() && (#[trigger] front[i]).id@ == id implies front[i].embedding@.len()
                == 0 by {
                assert(items[i].id@ == id);
            }
        }
        if after.embeddings.dom().contains(id) {
            if last.id@ == id && spec_merge_action(local_updated_at(before.rows, id), last)
                == MergeAction::UpsertItemAndEmbedding {
                assert(after.embeddings[id] == items[items.len() - 1].embedding@);
            } else {
                assert(after.embeddings[id] == before.embeddings[id]);
                if exists|i: int|
                    0 <= i < front.len() && (#[trigger] front[i]).id@ == id && front[i].embedding@.len() > 0
                        && before.embeddings[id] == front[i].embedding@ {
                    let i = choose|i: int|
                        0 <= i < front.len() && (#[trigger] front[i]).id@ == id && front[i].embedding@.len() > 0
                            && before.embeddings[id] == front[i].embedding@;
                    assert(items[i].id@ == id);
                }
            }
        }
    }
}

/// A merge never leaves an embedding without its item. And where every
/// incoming item brings its embedding, a store in which an embedding exists
/// exactly where its item exists is such a store after the merge too.
pub proof fn lemma_merge_keeps_tables(store: Store, items: Seq<SyncItem>)
    ensures
        embeddings_owned(store) ==> embeddings_owned(store_after_items(store, items)),
        tables_agree(store) && (forall|i: int| 0 <= i < items.len() ==> (#[trigger] items[i]).embedding@.len() > 0)
            ==> tables_agree(store_after_items(store, items)),
    decreases items.len(),
{
    if items.len() > 0 {
        let front = items.drop_last();
        lemma_merge_keeps_tables(store, front);
        let before = store_after_items(store, front);
        let after = store_after_items(store, items);
        assert forall|i: int| 0 <= i < front.len() implies #[trigger] front[i] == items[i] by {}
        assert(items[items.len() - 1] == items.last());
        if tables_agree(store) && (forall|i: int| 0 <= i < items.len() ==> (#[trigger] items[i]).embedding@.len() > 0) {
            assert forall|i: int| 0 <= i < front.len() implies (#[trigger] front[i]).embedding@.len() > 0 by {
                assert(items[i].embedding@.len() > 0);
            }
            assert(after.rows.dom() =~= after.embeddings.dom());
        }
    }
}

/// Whether an item counts as changed since a point in time.
pub fn changed_since(updated_at: &str, since: Option<&str>) -> (res: bool)
    ensures
        res == spec_changed_since(
            updated_at@,
            match since {
                Some(ts) => Some(ts@),
                None => None,
            },
        ),
{
    match since {
        None => true,
        Some(ts) => str_less(ts, updated_at),
    }
}

/// Last write wins: whether an incoming item is to be written, given when
/// the local row of its identifier was last updated, if there is one.
pub fn should_upsert(local_updated_at: Option<&str>, incoming_updated_at: &str) -> (res: bool)
    ensures
        res == spec_should_upsert(
            match local_updated_at {
                Some(ts) => Some(ts@),
                None => None,
            },
            incoming_updated_at@,
        ),
{
    match local_updated_at {
        None => true,
        Some(local) => str_less(local, incoming_updated_at),
    }
}

impl MergeProgress {
    /// The progress of a merge that has not begun.
    pub fn new() -> (res: MergeProgress)
        ensures
            res.upserted == 0,
            res.skipped == 0,
    {
        MergeProgress { upserted: 0, skipped: 0 }
    }
}

/// One step of the merge: decides what to do with an incoming item, given
/// when the local row of its identifier was last updated, and counts it.
///
/// The item is written where there is no local row or where it is strictly
/// newer, together with its embedding where it has one; else it is
/// skipped. The counters stop at the largest `usize`.
pub fn apply_delta(progress: &mut MergeProgress, local_updated_at: Option<&str>, item: &SyncItem) -> (res: MergeAction)
    ensures
        res == spec_merge_action(
            match local_updated_at {
                Some(ts) => Some(ts@),
                None => None,
            },
            *item,
        ),
        res == MergeAction::Skip ==> final(progress).upserted == old(progress).upserted && final(progress).skipped == (
        if old(progress).skipped < usize::MAX {
            old(progress).skipped + 1
        } else {
            usize::MAX as int
        }),
        res != MergeAction::Skip ==> final(progress).skipped == old(progress).skipped && final(progress).upserted == (
        if old(progress).upserted < usize::MAX {
            old(progress).upserted + 1
        } else {
            usize::MAX as int
        }),
{
    if !should_upsert(local_updated_at, item.updated_at.as_str()) {
        if progress.skipped < usize::MAX {
            progress.skipped = progress.skipped + 1;
        }
        MergeAction::Skip
    } else {
        if progress.upserted < usize::MAX {
            progress.upserted = progress.upserted + 1;
        }
        if item.embedding.len() > 0 {
            MergeAction::UpsertItemAndEmbedding
        } else {
            MergeAction::UpsertItem
        }
    }
}

} // verus!
