//! Chat digests: what the analyzer is asked, how its reply is unwrapped,
//! and what is stored of a digest.

use vstd::prelude::*;
use vstd::string::*;
use crate::error::EngineError;
use crate::primitives::new_uuid;
use crate::rag::query::div_toward_zero;
use crate::text::{push_decimal, spec_decimal, spec_trim, spec_trim_end_matches, spec_trim_start_matches, str_trim, trim_end_matches, trim_start_matches};

verus! {

/// A chat message as the analyzer reads it.
#[derive(Clone, Debug)]
pub struct ChatMessage {
    pub user_id: String,
    pub user_name: String,
    pub content: String,
    pub created_at: String,
}

/// A decision or an action item of a digest. The confidence is millionths.
#[derive(Clone, Debug)]
pub struct DigestItem {
    pub text: String,
    pub confidence: i32,
    pub related_user_ids: Vec<String>,
    pub priority: String,
}

/// A risk or blocker of a digest. The confidence is millionths.
#[derive(Clone, Debug)]
pub struct RiskItem {
    pub text: String,
    pub confidence: i32,
    pub priority: String,
}

/// What the analyzer found in a batch of messages.
#[derive(Clone, Debug)]
pub struct DigestResult {
    pub decisions: Vec<DigestItem>,
    pub action_items: Vec<DigestItem>,
    pub risks: Vec<RiskItem>,
    pub summary: String,
}

/// One of the four records that are stored of a digest: its identifier, its
/// type and its confidence in millionths.
#[derive(Clone, Debug)]
pub struct DigestRecord {
    pub id: String,
    pub digest_type: String,
    pub confidence: i32,
}

/// The confidence that the record of a summary is stored with: 0.8.
pub const SUMMARY_CONFIDENCE: i32 = 800_000;

/// The line that the analyzer reads for a message.
pub open spec fn message_line(m: ChatMessage) -> Seq<char> {
    "["@ + m.created_at@ + "] "@ + m.user_name@ + " ("@ + m.user_id@ + "): "@ + m.content@
}

/// The lines of the messages, one below the other.
pub open spec fn message_lines(messages: Seq<ChatMessage>) -> Seq<char>
    decreases messages.len(),
{
    if messages.len() == 0 {
        Seq::empty()
    } else if messages.len() == 1 {
        message_line(messages[0])
    } else {
        message_lines(messages.drop_last()) + "\n"@ + message_line(messages.last())
    }
}

/// What the analyzer is asked about a batch of messages.
pub open spec fn spec_digest_user_prompt(messages: Seq<ChatMessage>) -> Seq<char> {
    "다음 채팅 메시지들을 분석해주세요 ("@ + spec_decimal(messages.len()) + " messages):\n\n"@ + message_lines(
        messages,
    )
}

/// The JSON text inside a reply: the reply without the white space around
/// it and without the code fence that may enclose it.
pub open spec fn spec_strip_code_fences(text: Seq<char>) -> Seq<char> {
    spec_trim(
        spec_trim_end_matches(
            spec_trim_start_matches(spec_trim_start_matches(spec_trim(text), "```json"@), "```"@),
            "```"@,
        ),
    )
}

/// The sum of a list of numbers.
pub open spec fn sum_of(values: Seq<int>) -> int
    decreases values.len(),
{
    if values.len() == 0 {
        0
    } else {
        sum_of(values.drop_last()) + values.last()
    }
}

/// The mean of a list of confidences, cut to whole millionths; zero for an
/// empty list.
pub open spec fn mean_of(values: Seq<int>) -> int {
    if values.len() == 0 {
        0
    } else {
        div_toward_zero(sum_of(values), values.len() as int)
    }
}

/// The confidences of decisions or action items.
pub open spec fn item_confidences(items: Seq<DigestItem>) -> Seq<int> {
    Seq::new(items.len(), |i: int| items[i].confidence as int)
}

/// The confidences of risks.
pub open spec fn risk_confidences(items: Seq<RiskItem>) -> Seq<int> {
    Seq::new(items.len(), |i: int| items[i].confidence as int)
}

/// The priority of an item that names none: `medium`.
pub fn default_priority() -> (res: String)
    ensures
        res@ == "medium"@,
{
    String::from_str("medium")
}

proof fn lemma_sum_bounds(values: Seq<int>)
    requires
        forall|i: int| 0 <= i < values.len() ==> -0x8000_0000 <= #[trigger] values[i] <= 0x7fff_ffff,
    ensures
        -0x8000_0000 * values.len() <= sum_of(values) <= 0x7fff_ffff * values.len(),
    decreases values.len(),
{
    if values.len() > 0 {
        let front = values.drop_last();
        assert forall|i: int| 0 <= i < front.len() implies -0x8000_0000 <= #[trigger] front[i] <= 0x7fff_ffff by {
            assert(front[i] == values[i]);
        }
        lemma_sum_bounds(front);
    }
}

fn mean(sum: i128, count: usize) -> (res: i32)
    requires
        count > 0,
        -0x8000_0000 * count <= sum <= 0x7fff_ffff * count,
    ensures
        res == div_toward_zero(sum as int, count as int),
{
    let n = count as i128;
    if sum >= 0 {
        let q = sum / n;
        assert(q <= 0x7fff_ffff) by (nonlinear_arith)
            requires
                q == (sum as int) / (n as int),
                0 <= sum <= 0x7fff_ffff * n,
                n > 0,
        ;
        q as i32
    } else {
        let q = (-sum) / n;
        assert(0 <= q <= 0x8000_0000) by (nonlinear_arith)
            requires
                q == (-(sum as int)) / (n as int),
                0 <= -sum <= 0x8000_0000 * n,
                n > 0,
        ;
        (-q) as i32
    }
}

/// The mean confidence of decisions or action items; zero where there are
/// none.
pub fn avg_confidence_items(items: &[DigestItem]) -> (res: i32)
    ensures
        res == mean_of(item_confidences(items@)),
{
    if items.len() == 0 {
        return 0;
    }
    let ghost values = item_confidences(items@);
    let mut sum: i128 = 0;
    let mut i: usize = 0;
    while i < items.len()
        invariant
            i <= items@.len(),
            values == item_confidences(items@),
            sum == sum_of(values.take(i as int)),
            -0x8000_0000 * i <= sum <= 0x7fff_ffff * i,
        decreases items@.len() - i,
    {
        proof {
            let front = values.take(i + 1);
            assert(front.drop_last() =~= values.take(i as int));
            assert(front.last() == items@[i as int].confidence);
        }
        sum = sum + items[i].confidence as i128;
        i += 1;
    }
    proof {
        assert(values.take(values.len() as int) =~= values);
        lemma_sum_bounds(values);
    }
    mean(sum, items.len())
}

/// The mean confidence of risks; zero where there are none.
pub fn avg_confidence_risks(items: &[RiskItem]) -> (res: i32)
    ensures
        res == mean_of(risk_confidences(items@)),
{
    if items.len() == 0 {
        return 0;
    }
    let ghost values = risk_confidences(items@);
    let mut sum: i128 = 0;
    let mut i: usize = 0;
    while i < items.len()
        invariant
            i <= items@.len(),
            values == risk_confidences(items@),
            sum == sum_of(values.take(i as int)),
            -0x8000_0000 * i <= sum <= 0x7fff_ffff * i,
        decreases items@.len() - i,
    {
        proof {
            let front = values.take(i + 1);
            assert(front.drop_last() =~= values.take(i as int));
            assert(front.last() == items@[i as int].confidence);
        }
        sum = sum + items[i].confidence as i128;
        i += 1;
    }
    proof {
        assert(values.take(values.len() as int) =~= values);
        lemma_sum_bounds(values);
    }
    mean(sum, items.len())
}

/// What the analyzer is asked about a batch of messages: how many they are,
/// and one line per message with its time, its author and its text. A batch
/// without messages is refused.
pub fn digest_user_prompt(messages: &[ChatMessage]) -> (res: Result<String, EngineError>)
    ensures
        match res {
            Ok(prompt) => messages@.len() > 0 && prompt@ == spec_digest_user_prompt(messages@),
            Err(e) => messages@.len() == 0 && e == EngineError::NoMessages,
        },
{
    if messages.len() == 0 {
        return Err(EngineError::NoMessages);
    }
    let mut prompt = String::from_str("다음 채팅 메시지들을 분석해주세요 (");
    push_decimal(&mut prompt, messages.len() as u64);
    prompt.append(" messages):\n\n");
    let ghost head = prompt@;
    let mut i: usize = 0;
    while i < messages.len()
        invariant
            i <= messages@.len(),
            prompt@ == head + message_lines(messages@.take(i as int)),
        decreases messages@.len() - i,
    {
        let m = &messages[i];
        let ghost before = prompt@;
        if i > 0 {
            prompt.append("\n");
        }
        prompt.append("[");
        prompt.append(m.created_at.as_str());
        prompt.append("] ");
        prompt.append(m.user_name.as_str());
        prompt.append(" (");
        prompt.append(m.user_id.as_str());
        prompt.append("): ");
        prompt.append(m.content.as_str());
        proof {
            let front = messages@.take(i + 1);
            assert(front.drop_last() =~= messages@.take(i as int));
            assert(front.last() == *m);
            if i == 0 {
                assert(front[0] == *m);
                assert(prompt@ =~= head + message_line(*m));
            } else {
                assert(prompt@ =~= head + (message_lines(messages@.take(i as int)) + "\n"@ + message_line(*m)));
            }
        }
        i += 1;
    }
    assert(messages@.take(messages@.len() as int) =~= messages@);
    Ok(prompt)
}

/// The JSON text inside a reply of the analyzer: the reply without the
/// white space around it and without the code fence, with or without the
/// word `json`, that may enclose it.
pub fn strip_code_fences(text: &str) -> (res: String)
    ensures
        res@ == spec_strip_code_fences(text@),
{
    let trimmed = str_trim(text);
    let opened = trim_start_matches(trim_start_matches(trimmed, "```json"), "```");
    let closed = trim_end_matches(opened, "```");
    String::from_str(str_trim(closed))
}

fn record(digest_type: &str, confidence: i32) -> (res: DigestRecord)
    ensures
        res.digest_type@ == digest_type@,
        res.confidence == confidence,
        res.id@.len() > 0,
{
    DigestRecord { id: new_uuid(), digest_type: String::from_str(digest_type), confidence }
}

/// The four records that are stored of a digest, each under a fresh
/// identifier: `decisions`, `action_items` and `risks` with the mean
/// confidence of their items, and `summary` with confidence 0.8.
pub fn store_digest(digest: &DigestResult) -> (res: Vec<DigestRecord>)
    ensures
        res@.len() == 4,
        res@[0].digest_type@ == "decisions"@,
        res@[0].confidence == mean_of(item_confidences(digest.decisions@)),
        res@[1].digest_type@ == "action_items"@,
        res@[1].confidence == mean_of(item_confidences(digest.action_items@)),
        res@[2].digest_type@ == "risks"@,
        res@[2].confidence == mean_of(risk_confidences(digest.risks@)),
        res@[3].digest_type@ == "summary"@,
        res@[3].confidence == SUMMARY_CONFIDENCE,
        forall|i: int| 0 <= i < 4 ==> (#[trigger] res@[i]).id@.len() > 0,
{
    let mut records: Vec<DigestRecord> = Vec::new();
    records.push(record("decisions", avg_confidence_items(digest.decisions.as_slice())));
    records.push(record("action_items", avg_confidence_items(digest.action_items.as_slice())));
    records.push(record("risks", avg_confidence_risks(digest.risks.as_slice())));
    records.push(record("summary", SUMMARY_CONFIDENCE));
    records
}

} // verus!
