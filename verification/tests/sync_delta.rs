use rebe_core::sync::delta::{apply_delta, changed_since, should_upsert, MergeAction, MergeProgress, SyncItem};
use std::collections::HashMap;

fn item(id: &str, content: &str, updated_at: &str) -> SyncItem {
    SyncItem {
        id: id.to_string(),
        content: content.to_string(),
        summary: None,
        knowledge_type: "context".to_string(),
        source_type: "test".to_string(),
        scope: "personal".to_string(),
        scope_layer: None,
        role_tag: None,
        dialectic_tag: None,
        confidence: 700_000,
        relevance_score: 500_000,
        usage_count: 0,
        decision_maker: None,
        outcome: None,
        financial_impact_krw: None,
        source_id: None,
        source_context: None,
        user_id: None,
        project_id: None,
        did_author: None,
        is_active: true,
        expires_at: None,
        created_at: "2026-02-01T00:00:00+00:00".to_string(),
        updated_at: updated_at.to_string(),
        embedding: vec![1, 2, 3],
    }
}

/// Merges a delta into a store held in memory, as a host does with its
/// database.
fn merge(store: &mut HashMap<String, SyncItem>, items: &[SyncItem]) -> MergeProgress {
    let mut progress = MergeProgress::new();
    for incoming in items {
        let local = store.get(&incoming.id).map(|row| row.updated_at.clone());
        match apply_delta(&mut progress, local.as_deref(), incoming) {
            MergeAction::Skip => {}
            MergeAction::UpsertItem | MergeAction::UpsertItemAndEmbedding => {
                store.insert(incoming.id.clone(), incoming.clone());
            }
        }
    }
    progress
}

#[test]
fn last_write_wins() {
    assert!(should_upsert(None, "2026-02-23T10:00:00+00:00"));
    assert!(should_upsert(Some("2026-02-23T09:59:59+00:00"), "2026-02-23T10:00:00+00:00"));
    assert!(!should_upsert(Some("2026-02-23T10:00:00+00:00"), "2026-02-23T10:00:00+00:00"));
    assert!(!should_upsert(Some("2026-02-23T10:00:01+00:00"), "2026-02-23T10:00:00+00:00"));
    assert!(should_upsert(Some("2026-02-23T10:00:00"), "2026-02-23T10:00:00.5"));
    assert!(should_upsert(Some(""), "a"));
    assert!(!should_upsert(Some(""), ""));
    assert!(!should_upsert(Some("b"), "a"));
    assert!(should_upsert(Some("가"), "나"));
}

#[test]
fn order_is_that_of_rust_strings() {
    let samples = ["", "a", "ab", "b", "2026-02-23T10:00:00Z", "2026-02-23 10:00:00", "가", "나", "z", "é", "\u{10FFFF}"];
    for a in samples {
        for b in samples {
            assert_eq!(should_upsert(Some(a), b), a < b, "{:?} < {:?}", a, b);
            assert_eq!(changed_since(b, Some(a)), b > a);
        }
        assert!(changed_since(a, None));
    }
}

#[test]
fn step_decides_and_counts() {
    let mut progress = MergeProgress::new();
    assert_eq!((progress.upserted, progress.skipped), (0, 0));
    let incoming = item("a", "c", "2026-02-23T10:00:00+00:00");
    assert_eq!(apply_delta(&mut progress, None, &incoming), MergeAction::UpsertItemAndEmbedding);
    assert_eq!((progress.upserted, progress.skipped), (1, 0));
    assert_eq!(apply_delta(&mut progress, Some("2026-02-23T10:00:00+00:00"), &incoming), MergeAction::Skip);
    assert_eq!((progress.upserted, progress.skipped), (1, 1));
    assert_eq!(apply_delta(&mut progress, Some("2026-02-24T10:00:00+00:00"), &incoming), MergeAction::Skip);
    assert_eq!((progress.upserted, progress.skipped), (1, 2));
    let bare = SyncItem { embedding: vec![], ..incoming.clone() };
    assert_eq!(apply_delta(&mut progress, Some("2026-02-22T10:00:00+00:00"), &bare), MergeAction::UpsertItem);
    assert_eq!((progress.upserted, progress.skipped), (2, 2));
    // An item without embedding that is skipped is skipped all the same.
    assert_eq!(apply_delta(&mut progress, Some("2026-02-23T10:00:00+00:00"), &bare), MergeAction::Skip);

    let mut full = MergeProgress { upserted: usize::MAX, skipped: usize::MAX };
    apply_delta(&mut full, None, &incoming);
    apply_delta(&mut full, Some("z"), &incoming);
    assert_eq!((full.upserted, full.skipped), (usize::MAX, usize::MAX));
}

#[test]
fn merged_store_holds_the_newest_of_each_identifier() {
    let mut store = HashMap::new();
    store.insert("a".to_string(), item("a", "local a", "2026-02-23T10:00:00+00:00"));
    store.insert("b".to_string(), item("b", "local b", "2026-02-23T10:00:00+00:00"));
    store.insert("c".to_string(), item("c", "local c", "2026-02-23T10:00:00+00:00"));
    let incoming = vec![
        item("a", "older a", "2026-02-22T10:00:00+00:00"),
        item("b", "newer b", "2026-02-24T10:00:00+00:00"),
        item("d", "new d", "2026-02-20T10:00:00+00:00"),
        item("b", "newest b", "2026-02-25T10:00:00+00:00"),
        item("b", "stale b", "2026-02-24T12:00:00+00:00"),
        item("d", "same d", "2026-02-20T10:00:00+00:00"),
    ];
    let progress = merge(&mut store, &incoming);
    assert_eq!((progress.upserted, progress.skipped), (3, 3));
    assert_eq!(store.len(), 4);
    for id in ["a", "b", "c", "d"] {
        let stored = &store[id];
        // The stored time is the latest of the local and the incoming ones,
        // and the row is the one that bears it.
        let mut latest = None;
        if let Some(local) = [("a", "local a"), ("b", "local b"), ("c", "local c")].iter().find(|(i, _)| *i == id) {
            latest = Some(("2026-02-23T10:00:00+00:00".to_string(), local.1.to_string()));
        }
        for inc in incoming.iter().filter(|i| i.id == id) {
            if latest.as_ref().map(|(t, _)| inc.updated_at > *t).unwrap_or(true) {
                latest = Some((inc.updated_at.clone(), inc.content.clone()));
            }
        }
        let (time, content) = latest.unwrap();
        assert_eq!(stored.updated_at, time);
        assert_eq!(stored.content, content);
    }
    assert_eq!(store["a"].content, "local a");
    assert_eq!(store["b"].content, "newest b");
    assert_eq!(store["c"].content, "local c");
    assert_eq!(store["d"].content, "new d");
}

#[test]
fn test_lww_on_import() {
    // One device exports an item; the other has changed it since.
    let exported = vec![item("id-1", "원본 내용", "2026-02-23T10:00:00.000000+00:00")];
    let mut store = HashMap::new();
    store.insert("id-1".to_string(), item("id-1", "수정된 내용", "2026-02-23T10:00:00.010000+00:00"));

    let progress = merge(&mut store, &exported);
    assert_eq!(progress.skipped, 1);
    assert_eq!(progress.upserted, 0);
    assert_eq!(store["id-1"].content, "수정된 내용");
}

#[test]
fn importing_a_delta_again_changes_nothing() {
    let device1 = vec![
        item("1", "예산 3000만원 확정", "2026-02-23T10:00:00+00:00"),
        item("2", "크리에이티브 방향 논의 필요", "2026-02-23T10:00:01+00:00"),
        item("3", "납품일 2월 28일 확정", "2026-02-23T10:00:02+00:00"),
    ];
    let mut store = HashMap::new();
    let first = merge(&mut store, &device1);
    assert_eq!((first.upserted, first.skipped), (3, 0));

    store.insert("2".to_string(), item("2", "수정됨", "2026-02-24T00:00:00+00:00"));
    let again = merge(&mut store, &device1);
    assert_eq!((again.upserted, again.skipped), (0, 3));
    assert_eq!(store["1"].content, "예산 3000만원 확정");
    assert_eq!(store["2"].content, "수정됨");
    assert_eq!(store["3"].content, "납품일 2월 28일 확정");
}

#[test]
fn an_item_without_embedding_leaves_the_stored_embedding() {
    // The host keeps items and embeddings in two tables and writes the
    // embedding only where the merge says so.
    let mut rows: HashMap<String, SyncItem> = HashMap::new();
    let mut embeddings: HashMap<String, Vec<u32>> = HashMap::new();
    rows.insert("a".to_string(), item("a", "local", "2026-02-23T10:00:00+00:00"));
    embeddings.insert("a".to_string(), vec![7, 8, 9]);

    let bare = SyncItem { embedding: vec![], ..item("a", "newer, no embedding", "2026-02-24T10:00:00+00:00") };
    let full = SyncItem { embedding: vec![4, 5], ..item("b", "new, with embedding", "2026-02-24T10:00:00+00:00") };
    let mut progress = MergeProgress::new();
    for incoming in [bare, full] {
        let local = rows.get(&incoming.id).map(|row| row.updated_at.clone());
        match apply_delta(&mut progress, local.as_deref(), &incoming) {
            MergeAction::Skip => {}
            MergeAction::UpsertItem => {
                rows.insert(incoming.id.clone(), incoming.clone());
            }
            MergeAction::UpsertItemAndEmbedding => {
                embeddings.insert(incoming.id.clone(), incoming.embedding.clone());
                rows.insert(incoming.id.clone(), incoming.clone());
            }
        }
    }
    assert_eq!((progress.upserted, progress.skipped), (2, 0));
    assert_eq!(rows["a"].content, "newer, no embedding");
    assert_eq!(embeddings["a"], vec![7, 8, 9]);
    assert_eq!(embeddings["b"], vec![4, 5]);
}
