//! Hybrid and dialectic retrieval over rows that the vector index handed
//! back: scope projection, score fusion, ranking, the three-pass merge and
//! the rendering of a context.

use vstd::prelude::*;
use vstd::string::*;
use crate::error::EngineError;
use crate::text::{opt_clone, opt_str_eq, opt_view, push_decimal_int, spec_decimal_int, str_eq, string_views};

verus! {

/// One, in millionths.
pub const UNIT: i32 = 1_000_000;

/// The usage count from which the usage factor is one.
pub const USAGE_SATURATION: i64 = 20;

/// What one use adds to the usage factor: a twentieth, in millionths.
pub const USAGE_STEP: i32 = 50_000;

/// A row of the store as retrieval sees it, with its cosine similarity to
/// the query in millionths.
#[derive(Clone, Debug)]
pub struct CandidateRow {
    pub id: String,
    pub content: String,
    pub summary: Option<String>,
    pub knowledge_type: String,
    pub source_type: String,
    pub scope: String,
    pub role_tag: Option<String>,
    pub dialectic_tag: Option<String>,
    pub confidence: i32,
    pub relevance_score: i32,
    pub usage_count: i64,
    pub project_id: Option<String>,
    pub user_id: Option<String>,
    pub similarity: i32,
}

/// A retrieved item with its scores, in millionths.
#[derive(Clone, Debug)]
pub struct SearchResult {
    pub id: String,
    pub content: String,
    pub summary: Option<String>,
    pub knowledge_type: String,
    pub source_type: String,
    pub scope: String,
    pub role_tag: Option<String>,
    pub dialectic_tag: Option<String>,
    pub confidence: i32,
    pub relevance_score: i32,
    pub usage_count: i64,
    pub similarity: i32,
    pub hybrid_score: i64,
    pub project_id: Option<String>,
    pub user_id: Option<String>,
}

/// What a hybrid search is asked for. The query embedding is held as the
/// bit patterns of its 32-bit floats.
#[derive(Clone, Debug)]
pub struct SearchParams {
    pub query_embedding: Vec<u32>,
    pub scope: String,
    pub user_id: Option<String>,
    pub project_id: Option<String>,
    pub role_tag: Option<String>,
    pub knowledge_type: Option<String>,
    pub threshold: i32,
    pub limit: usize,
    pub vector_weight: i32,
    pub relevance_weight: i32,
    pub usage_weight: i32,
}

/// What a dialectic search is asked for.
#[derive(Clone, Debug)]
pub struct DialecticParams {
    pub query_embedding: Vec<u32>,
    pub user_id: Option<String>,
    pub project_id: Option<String>,
    pub role_tag: Option<String>,
    pub opposing_tags: Vec<String>,
    pub threshold: i32,
    pub limit: usize,
}

impl Default for SearchParams {
    /// Scope `all`, threshold 0.30, five results, weights 0.70, 0.20 and
    /// 0.10.
    fn default() -> (res: SearchParams)
        ensures
            res.query_embedding@.len() == 0,
            res.scope@ == "all"@,
            res.user_id is None,
            res.project_id is None,
            res.role_tag is None,
            res.knowledge_type is None,
            res.threshold == 300_000,
            res.limit == 5,
            res.vector_weight == 700_000,
            res.relevance_weight == 200_000,
            res.usage_weight == 100_000,
    {
        SearchParams {
            query_embedding: Vec::new(),
            scope: String::from_str("all"),
            user_id: None,
            project_id: None,
            role_tag: None,
            knowledge_type: None,
            threshold: 300_000,
            limit: 5,
            vector_weight: 700_000,
            relevance_weight: 200_000,
            usage_weight: 100_000,
        }
    }
}

/// The tags that a dialectic search looks for unless told otherwise.
pub open spec fn default_opposing_tags() -> Seq<Seq<char>> {
    seq!["risk"@, "constraint"@, "client_concern"@]
}

impl Default for DialecticParams {
    /// Tags `risk`, `constraint` and `client_concern`, threshold 0.25, three
    /// results.
    fn default() -> (res: DialecticParams)
        ensures
            res.query_embedding@.len() == 0,
            res.user_id is None,
            res.project_id is None,
            res.role_tag is None,
            string_views(res.opposing_tags@) == default_opposing_tags(),
            res.threshold == 250_000,
            res.limit == 3,
    {
        let mut opposing_tags: Vec<String> = Vec::new();
        opposing_tags.push(String::from_str("risk"));
        opposing_tags.push(String::from_str("constraint"));
        opposing_tags.push(String::from_str("client_concern"));
        assert(string_views(opposing_tags@) =~= default_opposing_tags());
        DialecticParams {
            query_embedding: Vec::new(),
            user_id: None,
            project_id: None,
            role_tag: None,
            opposing_tags,
            threshold: 250_000,
            limit: 3,
        }
    }
}

// ---------------------------------------------------------------------------
// Scope projection
// ---------------------------------------------------------------------------

/// Whether a row is admitted under a requested scope.
///
/// * `personal`: the row is personal and its user is the requested one.
/// * `team`: the row is of team or global scope, and its project is the
///   requested one or it has none.
/// * `role`: the row is of role or global scope, and its role is the
///   requested one or it has none.
/// * `all`: the row is the user's own, or of team or global scope in the
///   requested project, or of role or global scope.
///
/// Any other requested scope admits nothing.
pub open spec fn scope_admits(
    row: CandidateRow,
    search_scope: Seq<char>,
    user_id: Option<Seq<char>>,
    project_id: Option<Seq<char>>,
    role_tag: Option<Seq<char>>,
) -> bool {
    let team_like = row.scope@ == "team"@ || row.scope@ == "global"@;
    let role_like = row.scope@ == "role"@ || row.scope@ == "global"@;
    if search_scope == "personal"@ {
        row.scope@ == "personal"@ && user_id == opt_view(row.user_id)
    } else if search_scope == "team"@ {
        team_like && (project_id == opt_view(row.project_id) || row.project_id is None)
    } else if search_scope == "role"@ {
        role_like && (role_tag == opt_view(row.role_tag) || row.role_tag is None)
    } else if search_scope == "all"@ {
        ||| (user_id == opt_view(row.user_id) && row.user_id is Some)
        ||| (project_id == opt_view(row.project_id) && row.project_id is Some && team_like)
        ||| role_like
    } else {
        false
    }
}

/// Whether a row is admitted under a requested scope.
pub fn matches_scope(
    row: &CandidateRow,
    search_scope: &str,
    user_id: &Option<String>,
    project_id: &Option<String>,
    role_tag: &Option<String>,
) -> (res: bool)
    ensures
        res == scope_admits(*row, search_scope@, opt_view(*user_id), opt_view(*project_id), opt_view(*role_tag)),
{
    let is_team = str_eq(row.scope.as_str(), "team");
    let is_global = str_eq(row.scope.as_str(), "global");
    let is_role = str_eq(row.scope.as_str(), "role");
    if str_eq(search_scope, "personal") {
        str_eq(row.scope.as_str(), "personal") && opt_str_eq(user_id, &row.user_id)
    } else if str_eq(search_scope, "team") {
        (is_team || is_global) && (opt_str_eq(project_id, &row.project_id) || row.project_id.is_none())
    } else if str_eq(search_scope, "role") {
        (is_role || is_global) && (opt_str_eq(role_tag, &row.role_tag) || row.role_tag.is_none())
    } else if str_eq(search_scope, "all") {
        let is_own = opt_str_eq(user_id, &row.user_id) && row.user_id.is_some();
        let in_project = opt_str_eq(project_id, &row.project_id) && row.project_id.is_some() && (is_team
            || is_global);
        is_own || in_project || is_role || is_global
    } else {
        false
    }
}

// ---------------------------------------------------------------------------
// Score fusion
// ---------------------------------------------------------------------------

/// The quotient of `n` by a positive `d`, rounded toward zero.
pub open spec fn div_toward_zero(n: int, d: int) -> int {
    if n >= 0 {
        n / d
    } else {
        -((-n) / d)
    }
}

/// The usage factor in millionths: a twentieth per use, at most one. A
/// count below zero counts as zero.
pub open spec fn spec_usage_factor(usage_count: int) -> int {
    if usage_count >= USAGE_SATURATION {
        UNIT as int
    } else if usage_count <= 0 {
        0
    } else {
        usage_count * USAGE_STEP
    }
}

/// The weighted sum of similarity, relevance and usage factor, in
/// millionths of millionths.
pub open spec fn weighted_sum(
    similarity: int,
    relevance_score: int,
    usage_count: int,
    vector_weight: int,
    relevance_weight: int,
    usage_weight: int,
) -> int {
    similarity * vector_weight + relevance_score * relevance_weight + spec_usage_factor(usage_count) * usage_weight
}

/// The hybrid score in millionths: the weighted sum, cut to whole
/// millionths.
pub open spec fn spec_hybrid_score(
    similarity: int,
    relevance_score: int,
    usage_count: int,
    vector_weight: int,
    relevance_weight: int,
    usage_weight: int,
) -> int {
    div_toward_zero(
        weighted_sum(similarity, relevance_score, usage_count, vector_weight, relevance_weight, usage_weight),
        UNIT as int,
    )
}

fn product(x: i32, y: i32) -> (res: i128)
    ensures
        res == x * y,
        -0x4000_0000_0000_0000 <= res <= 0x4000_0000_0000_0000,
{
    assert(-0x4000_0000_0000_0000 <= x * y <= 0x4000_0000_0000_0000) by (nonlinear_arith)
        requires
            -0x8000_0000 <= x <= 0x8000_0000,
            -0x8000_0000 <= y <= 0x8000_0000,
    ;
    (x as i128) * (y as i128)
}

/// The usage factor in millionths.
pub fn usage_factor(usage_count: i64) -> (res: i32)
    ensures
        res == spec_usage_factor(usage_count as int),
        0 <= res <= UNIT,
{
    if usage_count >= USAGE_SATURATION {
        UNIT
    } else if usage_count <= 0 {
        0
    } else {
        (usage_count as i32) * USAGE_STEP
    }
}

/// The hybrid score of a row: similarity, relevance and usage factor, each
/// times its weight. All values are millionths; the score differs from the
/// exact weighted sum by less than one millionth.
pub fn hybrid_score(
    similarity: i32,
    relevance_score: i32,
    usage_count: i64,
    vector_weight: i32,
    relevance_weight: i32,
    usage_weight: i32,
) -> (res: i64)
    ensures
        res == spec_hybrid_score(
            similarity as int,
            relevance_score as int,
            usage_count as int,
            vector_weight as int,
            relevance_weight as int,
            usage_weight as int,
        ),
        -(UNIT as int) < res * UNIT - weighted_sum(
            similarity as int,
            relevance_score as int,
            usage_count as int,
            vector_weight as int,
            relevance_weight as int,
            usage_weight as int,
        ) < UNIT as int,
{
    let factor = usage_factor(usage_count);
    let a = product(similarity, vector_weight);
    let b = product(relevance_score, relevance_weight);
    let c = product(factor, usage_weight);
    let sum: i128 = a + b + c;
    let unit: i128 = 1_000_000;
    let scaled: i128 = if sum >= 0 {
        sum / unit
    } else {
        -((-sum) / unit)
    };
    scaled as i64
}

// ---------------------------------------------------------------------------
// Ranking
// ---------------------------------------------------------------------------

/// What results are ranked by.
#[derive(Clone, Copy, Debug, PartialEq, Eq, Structural)]
pub enum RankKey {
    /// The hybrid score.
    HybridScore,
    /// The raw similarity.
    Similarity,
}

/// The value that a result is ranked by.
pub open spec fn rank_value(item: SearchResult, key: RankKey) -> int {
    match key {
        RankKey::HybridScore => item.hybrid_score as int,
        RankKey::Similarity => item.similarity as int,
    }
}

/// The position of the best result: the first among those of the highest
/// value. Zero for an empty list.
pub open spec fn first_best(items: Seq<SearchResult>, key: RankKey) -> int
    decreases items.len(),
{
    if items.len() <= 1 {
        0
    } else {
        let before = first_best(items.drop_last(), key);
        if rank_value(items.last(), key) > rank_value(items[before], key) {
            items.len() - 1
        } else {
            before
        }
    }
}

/// The first `limit` results in descending order of value, results of equal
/// value in the order in which they came: the best one, then the best of
/// the rest, and so on.
pub open spec fn top_ranked(items: Seq<SearchResult>, key: RankKey, limit: nat) -> Seq<SearchResult>
    decreases limit,
{
    if limit == 0 || items.len() == 0 {
        Seq::empty()
    } else {
        let best = first_best(items, key);
        seq![items[best]] + top_ranked(items.remove(best), key, (limit - 1) as nat)
    }
}

/// The best result is one of the list, none has a higher value, and none
/// before it has the same value.
pub proof fn lemma_first_best(items: Seq<SearchResult>, key: RankKey)
    requires
        items.len() > 0,
    ensures
        0 <= first_best(items, key) < items.len(),
        forall|j: int| 0 <= j < items.len() ==> rank_value(#[trigger] items[j], key) <= rank_value(items[first_best(items, key)], key),
        forall|j: int| 0 <= j < first_best(items, key) ==> rank_value(#[trigger] items[j], key) < rank_value(items[first_best(items, key)], key),
    decreases items.len(),
{
    if items.len() > 1 {
        let front = items.drop_last();
        lemma_first_best(front, key);
        let before = first_best(front, key);
        assert(front[before] == items[before]);
        assert forall|j: int| 0 <= j < items.len() implies rank_value(#[trigger] items[j], key) <= rank_value(
            items[first_best(items, key)],
            key,
        ) by {
            if j < items.len() - 1 {
                assert(front[j] == items[j]);
            }
        }
        assert forall|j: int| 0 <= j < first_best(items, key) implies rank_value(#[trigger] items[j], key) < rank_value(
            items[first_best(items, key)],
            key,
        ) by {
            if j < items.len() - 1 {
                assert(front[j] == items[j]);
            }
        }
    }
}

/// A ranking holds as many results as asked for, or all there are.
pub proof fn lemma_top_ranked_len(items: Seq<SearchResult>, key: RankKey, limit: nat)
    ensures
        top_ranked(items, key, limit).len() == if limit <= items.len() { limit } else { items.len() },
    decreases limit,
{
    if limit > 0 && items.len() > 0 {
        lemma_first_best(items, key);
        lemma_top_ranked_len(items.remove(first_best(items, key)), key, (limit - 1) as nat);
    }
}

/// Every ranked result is one of the list.
pub proof fn lemma_top_ranked_members(items: Seq<SearchResult>, key: RankKey, limit: nat)
    ensures
        forall|a: int| 0 <= a < top_ranked(items, key, limit).len() ==> items.contains(#[trigger] top_ranked(items, key, limit)[a]),
    decreases limit,
{
    if limit > 0 && items.len() > 0 {
        lemma_first_best(items, key);
        let best = first_best(items, key);
        let rest = items.remove(best);
        lemma_top_ranked_members(rest, key, (limit - 1) as nat);
        let tail = top_ranked(rest, key, (limit - 1) as nat);
        let out = top_ranked(items, key, limit);
        assert forall|a: int| 0 <= a < out.len() implies items.contains(#[trigger] out[a]) by {
            if a == 0 {
                assert(out[0] == items[best]);
            } else {
                assert(out[a] == tail[a - 1]);
                assert(rest.contains(tail[a - 1]));
                let j = choose|j: int| 0 <= j < rest.len() && rest[j] == tail[a - 1];
                if j < best {
                    assert(items[j] == rest[j]);
                } else {
                    assert(items[j + 1] == rest[j]);
                }
            }
        }
    }
}

/// A ranking is in descending order of value.
pub proof fn lemma_top_ranked_descending(items: Seq<SearchResult>, key: RankKey, limit: nat)
    ensures
        forall|a: int, b: int|
            0 <= a <= b < top_ranked(items, key, limit).len() ==> rank_value(
                #[trigger] top_ranked(items, key, limit)[a],
                key,
            ) >= rank_value(#[trigger] top_ranked(items, key, limit)[b], key),
    decreases limit,
{
    if limit > 0 && items.len() > 0 {
        lemma_first_best(items, key);
        let best = first_best(items, key);
        let rest = items.remove(best);
        lemma_top_ranked_descending(rest, key, (limit - 1) as nat);
        lemma_top_ranked_members(rest, key, (limit - 1) as nat);
        let tail = top_ranked(rest, key, (limit - 1) as nat);
        let out = top_ranked(items, key, limit);
        assert forall|a: int, b: int| 0 <= a <= b < out.len() implies rank_value(#[trigger] out[a], key) >= rank_value(
            #[trigger] out[b],
            key,
        ) by {
            if b > 0 {
                assert(out[b] == tail[b - 1]);
                assert(rest.contains(tail[b - 1]));
                let j = choose|j: int| 0 <= j < rest.len() && rest[j] == tail[b - 1];
                if j < best {
                    assert(items[j] == rest[j]);
                } else {
                    assert(items[j + 1] == rest[j]);
                }
                if a > 0 {
                    assert(out[a] == tail[a - 1]);
                } else {
                    assert(out[0] == items[best]);
                }
            }
        }
    }
}

/// Whether the result at position `i` ranks before the one at position
/// `j`: the higher value first, of equal values the earlier position.
pub open spec fn ranks_before(items: Seq<SearchResult>, key: RankKey, i: int, j: int) -> bool {
    rank_value(items[i], key) > rank_value(items[j], key) || (rank_value(items[i], key) == rank_value(
        items[j],
        key,
    ) && i < j)
}

/// The positions in `items` of the ranked results, in the order of the
/// ranking.
pub open spec fn ranked_positions(items: Seq<SearchResult>, key: RankKey, limit: nat) -> Seq<int>
    decreases limit,
{
    if limit == 0 || items.len() == 0 {
        Seq::empty()
    } else {
        let best = first_best(items, key);
        let tail = ranked_positions(items.remove(best), key, (limit - 1) as nat);
        seq![best] + Seq::new(
            tail.len(),
            |k: int| if tail[k] < best {
                tail[k]
            } else {
                tail[k] + 1
            },
        )
    }
}

/// A ranking is the stable descending sort, cut to the limit. Each ranked
/// result stands at a position of its own in `items`; a result that comes
/// earlier in the ranking ranks before every later one, so that results of
/// equal value keep the order in which they came; and every ranked result
/// ranks before every result that was left out.
pub proof fn lemma_ranking_is_stable(items: Seq<SearchResult>, key: RankKey, limit: nat)
    ensures
        ranked_positions(items, key, limit).len() == top_ranked(items, key, limit).len(),
        forall|k: int|
            0 <= k < ranked_positions(items, key, limit).len() ==> {
                &&& 0 <= (#[trigger] ranked_positions(items, key, limit)[k]) < items.len()
                &&& top_ranked(items, key, limit)[k] == items[ranked_positions(items, key, limit)[k]]
            },
        forall|a: int, b: int|
            0 <= a < b < ranked_positions(items, key, limit).len() ==> ranks_before(
                items,
                key,
                #[trigger] ranked_positions(items, key, limit)[a],
                #[trigger] ranked_positions(items, key, limit)[b],
            ),
        forall|a: int, j: int|
            0 <= a < ranked_positions(items, key, limit).len() && 0 <= j < items.len() && !ranked_positions(
                items,
                key,
                limit,
            ).contains(j) ==> #[trigger] ranks_before(items, key, ranked_positions(items, key, limit)[a], j),
    decreases limit,
{
    if limit > 0 && items.len() > 0 {
        lemma_first_best(items, key);
        let best = first_best(items, key);
        let rest = items.remove(best);
        let less = (limit - 1) as nat;
        lemma_ranking_is_stable(rest, key, less);
        let tail = ranked_positions(rest, key, less);
        let pos = ranked_positions(items, key, limit);
        let out = top_ranked(items, key, limit);
        let out_tail = top_ranked(rest, key, less);
        assert(pos.len() == tail.len() + 1);
        assert(pos[0] == best);
        assert forall|k: int| 1 <= k < pos.len() implies pos[k] == (if tail[k - 1] < best {
            tail[k - 1]
        } else {
            tail[k - 1] + 1
        }) && 0 <= pos[k] < items.len() && pos[k] != best && items[pos[k]] == rest[tail[k - 1]] by {
            assert(0 <= tail[k - 1] < rest.len());
        }
        assert forall|k: int| 0 <= k < pos.len() implies 0 <= (#[trigger] pos[k]) < items.len() && out[k] == items[pos[k]] by {
            if k > 0 {
                assert(out[k] == out_tail[k - 1]);
                assert(out_tail[k - 1] == rest[tail[k - 1]]);
            }
        }
        assert forall|a: int, b: int| 0 <= a < b < pos.len() implies ranks_before(
            items,
            key,
            #[trigger] pos[a],
            #[trigger] pos[b],
        ) by {
            if a == 0 {
                assert(rank_value(items[pos[b]], key) <= rank_value(items[best], key));
                if pos[b] < best {
                    assert(rank_value(items[pos[b]], key) < rank_value(items[best], key));
                }
            } else {
                assert(ranks_before(rest, key, tail[a - 1], tail[b - 1]));
            }
        }
        assert forall|a: int, j: int|
            0 <= a < pos.len() && 0 <= j < items.len() && !pos.contains(j) implies #[trigger] ranks_before(
            items,
            key,
            pos[a],
            j,
        ) by {
            assert(j != best) by {
                if j == best {
                    assert(pos[0] == j);
                }
            }
            if a == 0 {
                assert(rank_value(items[j], key) <= rank_value(items[best], key));
                if j < best {
                    assert(rank_value(items[j], key) < rank_value(items[best], key));
                }
            } else {
                let j_rest = if j < best {
                    j
                } else {
                    j - 1
                };
                assert(rest[j_rest] == items[j]);
                if tail.contains(j_rest) {
                    let k = choose|k: int| 0 <= k < tail.len() && tail[k] == j_rest;
                    assert(pos[k + 1] == j);
                }
                assert(ranks_before(rest, key, tail[a - 1], j_rest));
            }
        }
    }
}

fn rank_value_of(item: &SearchResult, key: RankKey) -> (res: i64)
    ensures
        res == rank_value(*item, key),
{
    match key {
        RankKey::HybridScore => item.hybrid_score,
        RankKey::Similarity => item.similarity as i64,
    }
}

fn first_best_index(items: &Vec<SearchResult>, key: RankKey) -> (res: usize)
    requires
        items@.len() > 0,
    ensures
        res == first_best(items@, key),
        res < items@.len(),
{
    let mut best: usize = 0;
    let mut j: usize = 1;
    assert(items@.take(1).len() == 1);
    while j < items.len()
        invariant
            1 <= j <= items@.len(),
            best < j,
            best == first_best(items@.take(j as int), key),
        decreases items@.len() - j,
    {
        proof {
            let front = items@.take(j + 1);
            assert(front.drop_last() =~= items@.take(j as int));
            assert(front.last() == items@[j as int]);
            assert(front[best as int] == items@[best as int]);
        }
        if rank_value_of(&items[j], key) > rank_value_of(&items[best], key) {
            best = j;
        }
        j += 1;
    }
    assert(items@.take(items@.len() as int) =~= items@);
    best
}

/// Ranks results: the first `limit` of them in descending order of the
/// chosen value, results of equal value in the order in which they came.
pub fn rank(items: Vec<SearchResult>, key: RankKey, limit: usize) -> (res: Vec<SearchResult>)
    ensures
        res@ == top_ranked(items@, key, limit as nat),
{
    let mut pool = items;
    let mut out: Vec<SearchResult> = Vec::new();
    while out.len() < limit && pool.len() > 0
        invariant
            out@.len() <= limit,
            out@ + top_ranked(pool@, key, (limit - out@.len()) as nat) == top_ranked(items@, key, limit as nat),
        decreases pool@.len(),
    {
        let best = first_best_index(&pool, key);
        let ghost before = pool@;
        let ghost taken = out@;
        let item = pool.remove(best);
        out.push(item);
        proof {
            let tail = top_ranked(pool@, key, (limit - out@.len()) as nat);
            assert(top_ranked(before, key, (limit - taken.len()) as nat) == seq![before[best as int]] + tail);
            assert(out@ + tail =~= taken + (seq![before[best as int]] + tail));
        }
    }
    assert(out@ + Seq::<SearchResult>::empty() =~= out@);
    out
}

// ---------------------------------------------------------------------------
// Hybrid search
// ---------------------------------------------------------------------------

/// The result that a row becomes under a given hybrid score.
pub open spec fn result_of(row: CandidateRow, score: int) -> SearchResult {
    SearchResult {
        id: row.id,
        content: row.content,
        summary: row.summary,
        knowledge_type: row.knowledge_type,
        source_type: row.source_type,
        scope: row.scope,
        role_tag: row.role_tag,
        dialectic_tag: row.dialectic_tag,
        confidence: row.confidence,
        relevance_score: row.relevance_score,
        usage_count: row.usage_count,
        similarity: row.similarity,
        hybrid_score: score as i64,
        project_id: row.project_id,
        user_id: row.user_id,
    }
}

/// Whether a hybrid search keeps a row: it passes the scope projection, is
/// of the asked knowledge type where one is asked for, and is at least as
/// similar as the threshold asks.
pub open spec fn hybrid_admits(row: CandidateRow, params: SearchParams) -> bool {
    &&& scope_admits(
        row,
        params.scope@,
        opt_view(params.user_id),
        opt_view(params.project_id),
        opt_view(params.role_tag),
    )
    &&& (params.knowledge_type matches Some(kt) ==> row.knowledge_type@ == kt@)
    &&& row.similarity >= params.threshold
}

/// The result that a hybrid search makes of a row it keeps.
pub open spec fn hybrid_result(row: CandidateRow, params: SearchParams) -> SearchResult {
    result_of(
        row,
        spec_hybrid_score(
            row.similarity as int,
            row.relevance_score as int,
            row.usage_count as int,
            params.vector_weight as int,
            params.relevance_weight as int,
            params.usage_weight as int,
        ),
    )
}

/// The results of the rows that a hybrid search keeps, in the order of the
/// rows.
pub open spec fn hybrid_candidates(rows: Seq<CandidateRow>, params: SearchParams) -> Seq<SearchResult>
    decreases rows.len(),
{
    if rows.len() == 0 {
        Seq::empty()
    } else {
        let before = hybrid_candidates(rows.drop_last(), params);
        if hybrid_admits(rows.last(), params) {
            before.push(hybrid_result(rows.last(), params))
        } else {
            before
        }
    }
}

/// What a hybrid search returns for the rows that the index handed back.
pub open spec fn spec_hybrid_search(rows: Seq<CandidateRow>, params: SearchParams) -> Seq<SearchResult> {
    top_ranked(hybrid_candidates(rows, params), RankKey::HybridScore, params.limit as nat)
}

/// How many neighbours to ask the index for: five times the limit, or as
/// many as a `usize` counts.
pub fn candidate_limit(limit: usize) -> (res: usize)
    ensures
        res == if limit * 5 <= usize::MAX { limit * 5 } else { usize::MAX as int },
{
    if limit <= usize::MAX / 5 {
        limit * 5
    } else {
        usize::MAX
    }
}

/// The similarity that a cosine distance stands for: one minus the
/// distance, in millionths.
pub fn similarity_from_distance(distance: i32) -> (res: i32)
    ensures
        res == if UNIT - distance <= i32::MAX { UNIT - distance } else { i32::MAX as int },
{
    if distance >= UNIT - i32::MAX {
        UNIT - distance
    } else {
        i32::MAX
    }
}

fn knowledge_type_matches(row: &CandidateRow, knowledge_type: &Option<String>) -> (res: bool)
    ensures
        res == (*knowledge_type matches Some(kt) ==> row.knowledge_type@ == kt@),
{
    match knowledge_type {
        Some(kt) => str_eq(row.knowledge_type.as_str(), kt.as_str()),
        None => true,
    }
}

fn into_result(row: CandidateRow, score: i64) -> (res: SearchResult)
    ensures
        res == result_of(row, score as int),
{
    SearchResult {
        id: row.id,
        content: row.content,
        summary: row.summary,
        knowledge_type: row.knowledge_type,
        source_type: row.source_type,
        scope: row.scope,
        role_tag: row.role_tag,
        dialectic_tag: row.dialectic_tag,
        confidence: row.confidence,
        relevance_score: row.relevance_score,
        usage_count: row.usage_count,
        similarity: row.similarity,
        hybrid_score: score,
        project_id: row.project_id,
        user_id: row.user_id,
    }
}

/// The four scopes that a search can ask for.
pub open spec fn spec_is_search_scope(scope: Seq<char>) -> bool {
    scope == "personal"@ || scope == "team"@ || scope == "role"@ || scope == "all"@
}

/// Whether a string is one of the four scopes that a search can ask for.
pub fn is_search_scope(scope: &str) -> (res: bool)
    ensures
        res == spec_is_search_scope(scope@),
{
    str_eq(scope, "personal") || str_eq(scope, "team") || str_eq(scope, "role") || str_eq(scope, "all")
}

/// Checks the parameters of a hybrid search: the scope has to be one of
/// `personal`, `team`, `role` and `all`.
pub fn validate_search_params(params: &SearchParams) -> (res: Result<(), EngineError>)
    ensures
        res is Ok <==> spec_is_search_scope(params.scope@),
        res matches Err(e) ==> e == EngineError::UnknownScope,
{
    if is_search_scope(params.scope.as_str()) {
        Ok(())
    } else {
        Err(EngineError::UnknownScope)
    }
}

/// Hybrid search over the rows that the index handed back.
///
/// A scope that is none of the four is refused. Else the search keeps the
/// rows that pass the scope projection, the knowledge type filter and the
/// similarity threshold, gives each its hybrid score, and returns the
/// `limit` best in descending order of score, ties in the order of the
/// rows.
pub fn hybrid_search(rows: Vec<CandidateRow>, params: &SearchParams) -> (res: Result<Vec<SearchResult>, EngineError>)
    ensures
        match res {
            Ok(results) => spec_is_search_scope(params.scope@) && results@ == spec_hybrid_search(rows@, *params),
            Err(e) => !spec_is_search_scope(params.scope@) && e == EngineError::UnknownScope,
        },
{
    match validate_search_params(params) {
        Ok(()) => {},
        Err(e) => {
            return Err(e);
        },
    }
    let mut results: Vec<SearchResult> = Vec::new();
    let ghost all = rows@;
    for row in it: rows
        invariant
            it.seq() == all,
            results@ == hybrid_candidates(all.take(it.index() as int), *params),
    {
        proof {
            let front = all.take(it.index() + 1);
            assert(front.drop_last() =~= all.take(it.index() as int));
            assert(front.last() == row);
        }
        if matches_scope(&row, params.scope.as_str(), &params.user_id, &params.project_id, &params.role_tag)
            && knowledge_type_matches(&row, &params.knowledge_type) && row.similarity >= params.threshold {
            let score = hybrid_score(
                row.similarity,
                row.relevance_score,
                row.usage_count,
                params.vector_weight,
                params.relevance_weight,
                params.usage_weight,
            );
            results.push(into_result(row, score));
        }
    }
    assert(all.take(all.len() as int) =~= all);
    Ok(rank(results, RankKey::HybridScore, params.limit))
}

// ---------------------------------------------------------------------------
// Dialectic search
// ---------------------------------------------------------------------------

/// Whether a tag is one of a list of tags.
pub open spec fn tag_listed(tag: Seq<char>, tags: Seq<String>) -> bool {
    exists|i: int| 0 <= i < tags.len() && (#[trigger] tags[i])@ == tag
}

/// Whether a dialectic search keeps a row.
///
/// The row carries one of the opposing tags. Its scope is `role` or
/// `global`, or it is the caller's own (both name a user, and the same
/// one), or it is a team row without a project. By role, the row has no
/// role, or the role of the caller, or the role `CEO`, which everyone
/// sees. And it is at least as similar as the threshold asks.
pub open spec fn dialectic_admits(row: CandidateRow, params: DialecticParams) -> bool {
    let own = row.user_id is Some && params.user_id is Some && opt_view(row.user_id) == opt_view(params.user_id);
    let scope_ok = {
        ||| row.scope@ == "role"@
        ||| row.scope@ == "global"@
        ||| own
        ||| (row.scope@ == "team"@ && row.project_id is None)
    };
    let role_ok = {
        ||| row.role_tag is None
        ||| opt_view(row.role_tag) == opt_view(params.role_tag)
        ||| opt_view(row.role_tag) == Some("CEO"@)
    };
    &&& (row.dialectic_tag matches Some(t) && tag_listed(t@, params.opposing_tags@))
    &&& scope_ok
    &&& role_ok
    &&& row.similarity >= params.threshold
}

/// The results of the rows that a dialectic search keeps, in the order of
/// the rows. The score of each is its similarity.
pub open spec fn dialectic_candidates(rows: Seq<CandidateRow>, params: DialecticParams) -> Seq<SearchResult>
    decreases rows.len(),
{
    if rows.len() == 0 {
        Seq::empty()
    } else {
        let before = dialectic_candidates(rows.drop_last(), params);
        if dialectic_admits(rows.last(), params) {
            before.push(result_of(rows.last(), rows.last().similarity as int))
        } else {
            before
        }
    }
}

/// What a dialectic search returns for the rows that the store handed back.
pub open spec fn spec_dialectic_search(rows: Seq<CandidateRow>, params: DialecticParams) -> Seq<SearchResult> {
    top_ranked(dialectic_candidates(rows, params), RankKey::Similarity, params.limit as nat)
}

fn tag_is_listed(tag: &str, tags: &Vec<String>) -> (res: bool)
    ensures
        res == tag_listed(tag@, tags@),
{
    let mut i: usize = 0;
    while i < tags.len()
        invariant
            i <= tags@.len(),
            forall|j: int| 0 <= j < i ==> (#[trigger] tags@[j])@ != tag@,
        decreases tags@.len() - i,
    {
        if str_eq(tags[i].as_str(), tag) {
            return true;
        }
        i += 1;
    }
    false
}

fn dialectic_keeps(row: &CandidateRow, params: &DialecticParams) -> (res: bool)
    ensures
        res == dialectic_admits(*row, *params),
{
    let tag_ok = match &row.dialectic_tag {
        Some(t) => tag_is_listed(t.as_str(), &params.opposing_tags),
        None => false,
    };
    let own = row.user_id.is_some() && params.user_id.is_some() && opt_str_eq(&row.user_id, &params.user_id);
    let scope_ok = str_eq(row.scope.as_str(), "role") || str_eq(row.scope.as_str(), "global") || own || (str_eq(
        row.scope.as_str(),
        "team",
    ) && row.project_id.is_none());
    let is_ceo = match &row.role_tag {
        Some(r) => str_eq(r.as_str(), "CEO"),
        None => false,
    };
    let role_ok = row.role_tag.is_none() || opt_str_eq(&row.role_tag, &params.role_tag) || is_ceo;
    tag_ok && scope_ok && role_ok && row.similarity >= params.threshold
}

/// Dialectic search over the rows that the store handed back: the rows that
/// carry an opposing tag and are visible to the caller, ranked by raw
/// similarity, at most `limit` of them.
pub fn dialectic_search(rows: Vec<CandidateRow>, params: &DialecticParams) -> (res: Vec<SearchResult>)
    ensures
        res@ == spec_dialectic_search(rows@, *params),
{
    let mut results: Vec<SearchResult> = Vec::new();
    let ghost all = rows@;
    for row in it: rows
        invariant
            it.seq() == all,
            results@ == dialectic_candidates(all.take(it.index() as int), *params),
    {
        proof {
            let front = all.take(it.index() + 1);
            assert(front.drop_last() =~= all.take(it.index() as int));
            assert(front.last() == row);
        }
        if dialectic_keeps(&row, params) {
            let score = row.similarity as i64;
            results.push(into_result(row, score));
        }
    }
    assert(all.take(all.len() as int) =~= all);
    rank(results, RankKey::Similarity, params.limit)
}

// ---------------------------------------------------------------------------
// The three-pass merge
// ---------------------------------------------------------------------------

/// Whether one of the first `n` results has the given identifier.
pub open spec fn id_seen(items: Seq<SearchResult>, n: int, id: Seq<char>) -> bool {
    exists|i: int| 0 <= i < n && i < items.len() && (#[trigger] items[i]).id@ == id
}

/// The results without repeats: of results with one identifier only the
/// first stays, and the order of those that stay is kept.
pub open spec fn dedup_by_id(items: Seq<SearchResult>) -> Seq<SearchResult>
    decreases items.len(),
{
    if items.len() == 0 {
        Seq::empty()
    } else {
        let before = dedup_by_id(items.drop_last());
        if id_seen(items, items.len() - 1, items.last().id@) {
            before
        } else {
            before.push(items.last())
        }
    }
}

/// What the three passes give together: thesis, then antithesis, then
/// personal, without repeats.
pub open spec fn spec_merge_passes(
    thesis: Seq<SearchResult>,
    antithesis: Seq<SearchResult>,
    personal: Seq<SearchResult>,
) -> Seq<SearchResult> {
    dedup_by_id(thesis + antithesis + personal)
}

/// An identifier is among the results without repeats exactly when it is
/// among the results.
pub proof fn lemma_dedup_keeps_ids(items: Seq<SearchResult>, id: Seq<char>)
    ensures
        id_seen(dedup_by_id(items), dedup_by_id(items).len() as int, id) == id_seen(items, items.len() as int, id),
    decreases items.len(),
{
    let out = dedup_by_id(items);
    if items.len() > 0 {
        let front = items.drop_last();
        let before = dedup_by_id(front);
        lemma_dedup_keeps_ids(front, id);
        lemma_dedup_keeps_ids(front, items.last().id@);
        if id_seen(items, items.len() as int, id) {
            let i = choose|i: int| 0 <= i < items.len() && (#[trigger] items[i]).id@ == id;
            if i < items.len() - 1 {
                assert(front[i] == items[i]);
                assert(id_seen(front, front.len() as int, id));
            } else if id_seen(items, items.len() - 1, items.last().id@) {
                let k = choose|k: int| 0 <= k < items.len() - 1 && (#[trigger] items[k]).id@ == items.last().id@;
                assert(front[k] == items[k]);
                assert(id_seen(front, front.len() as int, id));
            } else {
                assert(out.last() == items.last());
            }
            if id_seen(before, before.len() as int, id) {
                let j = choose|j: int| 0 <= j < before.len() && (#[trigger] before[j]).id@ == id;
                assert(out[j] == before[j]);
            }
        }
        if id_seen(out, out.len() as int, id) {
            let j = choose|j: int| 0 <= j < out.len() && (#[trigger] out[j]).id@ == id;
            if j < before.len() {
                assert(before[j] == out[j]);
                assert(id_seen(before, before.len() as int, id));
                let i = choose|i: int| 0 <= i < front.len() && (#[trigger] front[i]).id@ == id;
                assert(items[i] == front[i]);
            } else {
                assert(out[j] == items.last());
                assert(items[items.len() - 1].id@ == id);
            }
        }
    }
}

/// No identifier occurs twice among the results without repeats.
pub proof fn lemma_dedup_distinct(items: Seq<SearchResult>)
    ensures
        forall|a: int, b: int|
            0 <= a < b < dedup_by_id(items).len() ==> (#[trigger] dedup_by_id(items)[a]).id@ != (
            #[trigger] dedup_by_id(items)[b]).id@,
    decreases items.len(),
{
    let out = dedup_by_id(items);
    if items.len() > 0 {
        let front = items.drop_last();
        let before = dedup_by_id(front);
        lemma_dedup_distinct(front);
        lemma_dedup_keeps_ids(front, items.last().id@);
        assert forall|a: int, b: int| 0 <= a < b < out.len() implies (#[trigger] out[a]).id@ != (#[trigger] out[b]).id@ by {
            if b < before.len() {
                assert(out[a] == before[a] && out[b] == before[b]);
            } else {
                assert(out[b] == items.last());
                assert(out[a] == before[a]);
                if out[a].id@ == out[b].id@ {
                    assert(id_seen(before, before.len() as int, items.last().id@));
                    let i = choose|i: int| 0 <= i < front.len() && (#[trigger] front[i]).id@ == items.last().id@;
                    assert(items[i] == front[i]);
                    assert(id_seen(items, items.len() - 1, items.last().id@));
                }
            }
        }
    }
}

fn id_is_among(items: &Vec<SearchResult>, id: &str) -> (res: bool)
    ensures
        res == id_seen(items@, items@.len() as int, id@),
{
    let mut i: usize = 0;
    while i < items.len()
        invariant
            i <= items@.len(),
            forall|j: int| 0 <= j < i ==> (#[trigger] items@[j]).id@ != id@,
        decreases items@.len() - i,
    {
        if str_eq(items[i].id.as_str(), id) {
            return true;
        }
        i += 1;
    }
    false
}

/// Merges the results of the three passes: thesis, then antithesis, then
/// personal, each identifier only where it first occurs.
pub fn merge_passes(thesis: Vec<SearchResult>, antithesis: Vec<SearchResult>, personal: Vec<SearchResult>) -> (res: Vec<
    SearchResult,
>)
    ensures
        res@ == spec_merge_passes(thesis@, antithesis@, personal@),
{
    let mut all = thesis;
    let mut second = antithesis;
    let mut third = personal;
    all.append(&mut second);
    all.append(&mut third);
    let ghost whole = all@;
    let mut out: Vec<SearchResult> = Vec::new();
    for item in it: all
        invariant
            it.seq() == whole,
            out@ == dedup_by_id(whole.take(it.index() as int)),
    {
        proof {
            let front = whole.take(it.index() + 1);
            let seen = whole.take(it.index() as int);
            assert(front.drop_last() =~= seen);
            assert(front.last() == item);
            lemma_dedup_keeps_ids(seen, item.id@);
            if id_seen(seen, seen.len() as int, item.id@) {
                let i = choose|i: int| 0 <= i < seen.len() && (#[trigger] seen[i]).id@ == item.id@;
                assert(front[i] == seen[i]);
            }
            if id_seen(front, front.len() - 1, item.id@) {
                let i = choose|i: int| 0 <= i < front.len() - 1 && (#[trigger] front[i]).id@ == item.id@;
                assert(front[i] == seen[i]);
            }
        }
        if !id_is_among(&out, item.id.as_str()) {
            out.push(item);
        }
    }
    assert(whole.take(whole.len() as int) =~= whole);
    out
}

// ---------------------------------------------------------------------------
// The three passes
// ---------------------------------------------------------------------------

/// The parameters of the thesis pass: a hybrid search over the requested
/// scope (`all` where none is requested), threshold 0.30, five results.
pub fn thesis_params(
    query_embedding: Vec<u32>,
    scope: Option<String>,
    user_id: &Option<String>,
    project_id: &Option<String>,
    role_tag: &Option<String>,
) -> (res: SearchParams)
    ensures
        res.query_embedding == query_embedding,
        res.scope@ == (match scope {
            Some(s) => s@,
            None => "all"@,
        }),
        res.user_id == *user_id,
        res.project_id == *project_id,
        res.role_tag == *role_tag,
        res.knowledge_type is None,
        res.threshold == 300_000,
        res.limit == 5,
        res.vector_weight == 700_000,
        res.relevance_weight == 200_000,
        res.usage_weight == 100_000,
{
    SearchParams {
        query_embedding,
        scope: match scope {
            Some(s) => s,
            None => String::from_str("all"),
        },
        user_id: opt_clone(user_id),
        project_id: opt_clone(project_id),
        role_tag: opt_clone(role_tag),
        knowledge_type: None,
        threshold: 300_000,
        limit: 5,
        vector_weight: 700_000,
        relevance_weight: 200_000,
        usage_weight: 100_000,
    }
}

/// The parameters of the antithesis pass: a dialectic search with the
/// default opposing tags, threshold 0.25, three results.
pub fn antithesis_params(
    query_embedding: Vec<u32>,
    user_id: &Option<String>,
    project_id: &Option<String>,
    role_tag: &Option<String>,
) -> (res: DialecticParams)
    ensures
        res.query_embedding == query_embedding,
        res.user_id == *user_id,
        res.project_id == *project_id,
        res.role_tag == *role_tag,
        string_views(res.opposing_tags@) == default_opposing_tags(),
        res.threshold == 250_000,
        res.limit == 3,
{
    let defaults = DialecticParams::default();
    DialecticParams {
        query_embedding,
        user_id: opt_clone(user_id),
        project_id: opt_clone(project_id),
        role_tag: opt_clone(role_tag),
        opposing_tags: defaults.opposing_tags,
        threshold: 250_000,
        limit: 3,
    }
}

/// The parameters of the personal pass: a hybrid search of scope
/// `personal` for the user alone, threshold 0.25, three results.
pub fn personal_params(query_embedding: Vec<u32>, user_id: &Option<String>) -> (res: SearchParams)
    ensures
        res.query_embedding == query_embedding,
        res.scope@ == "personal"@,
        res.user_id == *user_id,
        res.project_id is None,
        res.role_tag is None,
        res.knowledge_type is None,
        res.threshold == 250_000,
        res.limit == 3,
        res.vector_weight == 700_000,
        res.relevance_weight == 200_000,
        res.usage_weight == 100_000,
{
    SearchParams {
        query_embedding,
        scope: String::from_str("personal"),
        user_id: opt_clone(user_id),
        project_id: None,
        role_tag: None,
        knowledge_type: None,
        threshold: 250_000,
        limit: 3,
        vector_weight: 700_000,
        relevance_weight: 200_000,
        usage_weight: 100_000,
    }
}

// ---------------------------------------------------------------------------
// Parameters from what a caller gives
// ---------------------------------------------------------------------------

/// The parameters of a hybrid search from what a caller gives: scope `all`,
/// threshold 0.30 and five results where the caller names none, and the
/// default weights.
pub fn search_params(
    query_embedding: Vec<u32>,
    scope: Option<String>,
    user_id: Option<String>,
    project_id: Option<String>,
    role_tag: Option<String>,
    knowledge_type: Option<String>,
    threshold: Option<i32>,
    limit: Option<usize>,
) -> (res: SearchParams)
    ensures
        res.query_embedding == query_embedding,
        res.scope@ == (match scope {
            Some(s) => s@,
            None => "all"@,
        }),
        res.user_id == user_id,
        res.project_id == project_id,
        res.role_tag == role_tag,
        res.knowledge_type == knowledge_type,
        res.threshold == (match threshold {
            Some(t) => t,
            None => 300_000i32,
        }),
        res.limit == (match limit {
            Some(l) => l,
            None => 5usize,
        }),
        res.vector_weight == 700_000,
        res.relevance_weight == 200_000,
        res.usage_weight == 100_000,
{
    SearchParams {
        query_embedding,
        scope: match scope {
            Some(s) => s,
            None => String::from_str("all"),
        },
        user_id,
        project_id,
        role_tag,
        knowledge_type,
        threshold: match threshold {
            Some(t) => t,
            None => 300_000,
        },
        limit: match limit {
            Some(l) => l,
            None => 5,
        },
        vector_weight: 700_000,
        relevance_weight: 200_000,
        usage_weight: 100_000,
    }
}

/// The parameters of a dialectic search from what a caller gives: the
/// default opposing tags, threshold 0.25 and three results where the
/// caller names none.
pub fn dialectic_params(
    query_embedding: Vec<u32>,
    user_id: Option<String>,
    project_id: Option<String>,
    role_tag: Option<String>,
    opposing_tags: Option<Vec<String>>,
    threshold: Option<i32>,
    limit: Option<usize>,
) -> (res: DialecticParams)
    ensures
        res.query_embedding == query_embedding,
        res.user_id == user_id,
        res.project_id == project_id,
        res.role_tag == role_tag,
        match opposing_tags {
            Some(tags) => res.opposing_tags == tags,
            None => string_views(res.opposing_tags@) == default_opposing_tags(),
        },
        res.threshold == (match threshold {
            Some(t) => t,
            None => 250_000i32,
        }),
        res.limit == (match limit {
            Some(l) => l,
            None => 3usize,
        }),
{
    DialecticParams {
        query_embedding,
        user_id,
        project_id,
        role_tag,
        opposing_tags: match opposing_tags {
            Some(tags) => tags,
            None => DialecticParams::default().opposing_tags,
        },
        threshold: match threshold {
            Some(t) => t,
            None => 250_000,
        },
        limit: match limit {
            Some(l) => l,
            None => 3,
        },
    }
}

// ---------------------------------------------------------------------------
// The query log
// ---------------------------------------------------------------------------

/// What the query log keeps of the results of a query.
#[derive(Clone, Debug)]
pub struct QueryLogEntry {
    /// The identifiers of the results, in their order.
    pub retrieved_ids: Vec<String>,
    /// How many results there were.
    pub result_count: usize,
    /// The similarity of the first result in millionths; zero where there
    /// was none.
    pub top_similarity: i32,
}

/// The identifiers of a list of results.
pub open spec fn result_ids(results: Seq<SearchResult>) -> Seq<Seq<char>> {
    Seq::new(results.len(), |i: int| results[i].id@)
}

/// What the query log keeps of the results of a query: their identifiers
/// in their order, their number, and the similarity of the first.
pub fn log_query(results: &[SearchResult]) -> (res: QueryLogEntry)
    ensures
        string_views(res.retrieved_ids@) == result_ids(results@),
        res.result_count == results@.len(),
        res.top_similarity == if results@.len() > 0 { results@[0].similarity } else { 0i32 },
{
    let mut retrieved_ids: Vec<String> = Vec::new();
    let mut i: usize = 0;
    while i < results.len()
        invariant
            i <= results@.len(),
            retrieved_ids@.len() == i,
            forall|j: int| 0 <= j < i ==> (#[trigger] retrieved_ids@[j])@ == results@[j].id@,
        decreases results@.len() - i,
    {
        retrieved_ids.push(results[i].id.clone());
        i += 1;
    }
    assert(string_views(retrieved_ids@) =~= result_ids(results@));
    let top_similarity = if results.len() > 0 {
        results[0].similarity
    } else {
        0
    };
    QueryLogEntry { retrieved_ids, result_count: results.len(), top_similarity }
}

// ---------------------------------------------------------------------------
// Rendering a context
// ---------------------------------------------------------------------------

/// The least room, in characters, for which the text of a block that does
/// not fit is cut rather than left out.
pub const MIN_CUT_ROOM: usize = 50;

/// The characters that are held back for the end of a cut block.
pub const CUT_RESERVE: usize = 5;

/// The heading that every context begins with.
pub open spec fn context_header() -> Seq<char> {
    "## 참고 지식 (Knowledge Base)\n아래는 이 조직에서 축적된 실제 판단 기록입니다. 반드시 이 내용을 바탕으로 구체적으로 답변하세요.\n\n"@
}

/// The confidence of a result in whole percent.
pub open spec fn confidence_percent(confidence: int) -> int {
    div_toward_zero(confidence, 10_000)
}

/// The heading of a block: the knowledge type and the confidence in
/// percent.
pub open spec fn block_header(item: SearchResult) -> Seq<char> {
    "### "@ + item.knowledge_type@ + " (신뢰도: "@ + spec_decimal_int(confidence_percent(item.confidence as int))
        + "%)\n"@
}

/// The text of a block: the summary where there is one, else the content.
pub open spec fn block_body(item: SearchResult) -> Seq<char> {
    match item.summary {
        Some(s) => s@,
        None => item.content@,
    }
}

/// The end of a whole block: an empty line.
pub open spec fn block_end() -> Seq<char> {
    seq!['\n', '\n']
}

/// The end of a cut block: an ellipsis and an empty line.
pub open spec fn cut_end() -> Seq<char> {
    seq!['…', '\n', '\n']
}

/// A whole block: heading, text and an empty line.
pub open spec fn block(item: SearchResult) -> Seq<char> {
    block_header(item) + block_body(item) + block_end()
}

/// How many characters of the text are left for the block that no longer
/// fits: the budget less what is used, the heading and the reserve.
pub open spec fn room_left(item: SearchResult, used: int, max_chars: int) -> int {
    let room = max_chars - (used + block_header(item).len() + CUT_RESERVE);
    if room < 0 {
        0
    } else {
        room
    }
}

/// The block that closes a context when the whole block no longer fits:
/// the heading, the first characters of the text and an ellipsis, if at
/// least 50 characters are left for the text; else nothing.
pub open spec fn last_block(item: SearchResult, used: int, max_chars: int) -> Seq<char> {
    let room = room_left(item, used, max_chars);
    let body = block_body(item);
    if room >= MIN_CUT_ROOM {
        block_header(item) + body.take(if room < body.len() { room } else { body.len() as int }) + cut_end()
    } else {
        Seq::empty()
    }
}

/// The blocks of a context after `used` characters: whole blocks while
/// they fit in the budget, then the closing block of the first that does
/// not.
pub open spec fn render_blocks(items: Seq<SearchResult>, used: int, max_chars: int) -> Seq<char>
    decreases items.len(),
{
    if items.len() == 0 {
        Seq::empty()
    } else {
        let entry = block(items.first());
        if used + entry.len() > max_chars {
            last_block(items.first(), used, max_chars)
        } else {
            entry + render_blocks(items.drop_first(), used + entry.len(), max_chars)
        }
    }
}

/// The context for a list of results under a budget of `max_chars`
/// characters: nothing for no results, else the heading and then the
/// blocks.
pub open spec fn spec_build_rag_context(items: Seq<SearchResult>, max_chars: int) -> Seq<char> {
    if items.len() == 0 {
        Seq::empty()
    } else {
        context_header() + render_blocks(items, context_header().len() as int, max_chars)
    }
}

/// The blocks keep within the budget: what was used and what the blocks
/// add is never more than the budget.
pub proof fn lemma_blocks_within_budget(items: Seq<SearchResult>, used: int, max_chars: int)
    requires
        0 <= used <= max_chars,
    ensures
        used + render_blocks(items, used, max_chars).len() <= max_chars,
    decreases items.len(),
{
    if items.len() > 0 {
        let entry = block(items.first());
        if used + entry.len() > max_chars {
        } else {
            lemma_blocks_within_budget(items.drop_first(), used + entry.len(), max_chars);
        }
    }
}

/// A context keeps within its budget wherever the budget has room for the
/// heading, which is written whatever the budget.
pub proof fn lemma_context_within_budget(items: Seq<SearchResult>, max_chars: int)
    requires
        context_header().len() <= max_chars,
    ensures
        spec_build_rag_context(items, max_chars).len() <= max_chars,
{
    if items.len() > 0 {
        lemma_blocks_within_budget(items, context_header().len() as int, max_chars);
    }
}

fn header_of(item: &SearchResult) -> (res: String)
    ensures
        res@ == block_header(*item),
{
    let confidence = item.confidence as i64;
    let percent: i64 = if confidence >= 0 {
        confidence / 10_000
    } else {
        -((-confidence) / 10_000)
    };
    let mut header = String::from_str("### ");
    header.append(item.knowledge_type.as_str());
    header.append(" (신뢰도: ");
    push_decimal_int(&mut header, percent);
    header.append("%)\n");
    header
}

fn body_of(item: &SearchResult) -> (res: &str)
    ensures
        res@ == block_body(*item),
{
    match &item.summary {
        Some(s) => s.as_str(),
        None => item.content.as_str(),
    }
}

/// Renders results as a context for a prompt, within a budget of
/// `max_chars` characters.
///
/// No results give the empty string. Else the heading comes first, whatever
/// the budget, then one block per result while the blocks fit. The first
/// block that does not fit is cut to the room that is left, if that is at
/// least 50 characters, and ends the context. Where the budget has room
/// for the heading, the context is no longer than the budget.
pub fn build_rag_context(items: &[SearchResult], max_chars: usize) -> (res: String)
    ensures
        res@ == spec_build_rag_context(items@, max_chars as int),
        context_header().len() <= max_chars ==> res@.len() <= max_chars,
{
    proof {
        if context_header().len() <= max_chars {
            lemma_context_within_budget(items@, max_chars as int);
        }
    }
    if items.len() == 0 {
        return String::new();
    }
    let mut output = String::from_str(
        "## 참고 지식 (Knowledge Base)\n아래는 이 조직에서 축적된 실제 판단 기록입니다. 반드시 이 내용을 바탕으로 구체적으로 답변하세요.\n\n",
    );
    let mut chars_used: u128 = output.as_str().unicode_len() as u128;
    let budget: u128 = max_chars as u128;
    let mut i: usize = 0;
    assert(items@.skip(0) =~= items@);
    proof {
        reveal_strlit("\n\n");
        reveal_strlit("…\n\n");
        assert("\n\n"@ =~= block_end());
        assert("…\n\n"@ =~= cut_end());
    }
    while i < items.len()
        invariant
            i <= items@.len(),
            budget == max_chars,
            chars_used <= usize::MAX,
            context_header().len() <= max_chars ==> spec_build_rag_context(items@, max_chars as int).len() <= max_chars,
            "\n\n"@ == block_end(),
            "…\n\n"@ == cut_end(),
            output@ + render_blocks(items@.skip(i as int), chars_used as int, max_chars as int) == spec_build_rag_context(
                items@,
                max_chars as int,
            ),
        decreases items@.len() - i,
    {
        let item = &items[i];
        let ghost rest = items@.skip(i as int);
        assert(rest.first() == *item);
        assert(rest.drop_first() =~= items@.skip(i + 1));
        let header = header_of(item);
        let body = body_of(item);
        let header_chars = header.as_str().unicode_len();
        let body_chars = body.unicode_len();
        let entry_len: u128 = header_chars as u128 + body_chars as u128 + 2;
        assert(entry_len == block(*item).len());
        if chars_used + entry_len > budget {
            let needed: u128 = chars_used + header_chars as u128 + CUT_RESERVE as u128;
            let remaining: u128 = if budget > needed {
                (budget - needed) as u128
            } else {
                0
            };
            if remaining >= MIN_CUT_ROOM as u128 {
                let keep: usize = if remaining < body_chars as u128 {
                    remaining as usize
                } else {
                    body_chars
                };
                let ghost before = output@;
                output.append(header.as_str());
                output.append(body.substring_char(0, keep));
                output.append("…\n\n");
                assert(body@.subrange(0, keep as int) =~= body@.take(keep as int));
                assert(output@ =~= before + last_block(*item, chars_used as int, max_chars as int));
            } else {
                assert(output@ + Seq::<char>::empty() =~= output@);
            }
            return output;
        }
        let ghost before = output@;
        output.append(header.as_str());
        output.append(body);
        output.append("\n\n");
        assert(before + (block(*item) + render_blocks(rest.drop_first(), chars_used + entry_len, max_chars as int))
            =~= output@ + render_blocks(items@.skip(i + 1), chars_used + entry_len, max_chars as int));
        chars_used = chars_used + entry_len;
        i += 1;
    }
    assert(output@ + Seq::<char>::empty() =~= output@);
    output
}

} // verus!
