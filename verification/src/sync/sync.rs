//! Export and import of encrypted deltas, and the state of sync.
//!
//! The host reads the rows, writes the delta as JSON and hands the text in;
//! on the way back it gets the text of what came in and merges it row by
//! row.

use vstd::prelude::*;
use vstd::string::*;
use vstd::utf8::encode_utf8;
use crate::did::identity::DidIdentity;
use crate::error::EngineError;
use crate::primitives::now_rfc3339;
use crate::sync::delta::{MergeProgress, SyncDelta, SyncMeta};
use crate::sync::encryption::{decrypt_json, derive_sync_key, encrypt_json, json_fits, spec_decrypt_json, spec_derive_sync_key};
use crate::text::{lemma_parse_decimal_int, opt_clone, parse_i64, push_decimal_int, spec_decimal_int, spec_parse_i64, str_eq};

verus! {

/// What an export gave.
#[derive(Clone, Debug)]
pub struct ExportResult {
    /// The encrypted blob as Base64; empty where nothing changed.
    pub blob: String,
    /// How many items the blob holds.
    pub item_count: usize,
    /// How many items the store holds in all.
    pub total_count: i64,
    /// Whether only changes since a point in time were exported.
    pub is_delta: bool,
    /// That point in time.
    pub since: Option<String>,
    /// When the export was made.
    pub exported_at: String,
    /// The size of the plain JSON in bytes.
    pub raw_size_bytes: usize,
    /// The size of the blob in bytes.
    pub blob_size_bytes: usize,
}

/// What an import did.
#[derive(Clone, Debug)]
pub struct ImportResult {
    /// How many items were written.
    pub upserted: usize,
    /// How many items were skipped because the local row was as new.
    pub skipped: usize,
    /// How many items came in.
    pub incoming_count: usize,
    /// When the import was made.
    pub imported_at: String,
}

/// The state of sync.
#[derive(Clone, Debug)]
pub struct SyncStatus {
    pub enabled: bool,
    pub last_sync_at: Option<String>,
    pub last_sync_item_count: i64,
    pub pending_changes: i64,
    pub total_items: i64,
    pub did: Option<String>,
}

/// The values that a completed sync writes to the sync metadata.
#[derive(Clone, Debug)]
pub struct SyncCompletion {
    /// The value of `last_sync_at`.
    pub last_sync_at: String,
    /// The value of `last_sync_item_count`.
    pub last_sync_item_count: String,
}

/// Exports a delta as an encrypted blob.
///
/// `delta_json` is the JSON text of `delta`. A delta without items gives an
/// empty blob. Else the text is sealed under the sync key of the identity
/// into a blob that is not empty, and importing the blob under an identity
/// of the same secret seed gives the text back. Fails where the identity
/// holds no key, and where the text is too long to be sealed.
pub fn export_encrypted(identity: &DidIdentity, delta: &SyncDelta, delta_json: &str) -> (res: Result<
    ExportResult,
    EngineError,
>)
    ensures
        match res {
            Ok(out) => {
                &&& identity@ matches Some(v)
                &&& out.item_count == delta.items@.len()
                &&& out.total_count == delta.total_count
                &&& out.is_delta == delta.since is Some
                &&& out.since == delta.since
                &&& out.blob_size_bytes == encode_utf8(out.blob@).len()
                &&& if delta.items@.len() == 0 {
                    out.blob@.len() == 0 && out.raw_size_bytes == 0
                } else {
                    &&& json_fits(encode_utf8(delta_json@).len())
                    &&& out.raw_size_bytes == encode_utf8(delta_json@).len()
                    &&& out.blob@.len() > 0
                    &&& spec_decrypt_json(spec_derive_sync_key(v.seed), out.blob@) == Ok::<Seq<char>, EngineError>(
                        delta_json@,
                    )
                    &&& spec_import_encrypted(v.seed, out.blob@) == Ok::<Option<Seq<char>>, EngineError>(
                        Some(delta_json@),
                    )
                }
            },
            Err(e) => if identity@ is None {
                e == EngineError::NotInitialized
            } else {
                e == EngineError::Encryption && delta.items@.len() > 0 && !json_fits(
                    encode_utf8(delta_json@).len(),
                )
            },
        },
{
    let seed = match identity.get_signing_key() {
        Ok(seed) => seed,
        Err(e) => {
            return Err(e);
        },
    };
    let sync_key = match derive_sync_key(seed.as_slice()) {
        Ok(key) => key,
        Err(e) => {
            return Err(e);
        },
    };
    let item_count = delta.items.len();
    if item_count == 0 {
        let blob = String::new();
        let blob_size = blob.as_str().as_bytes().len();
        return Ok(
            ExportResult {
                blob,
                item_count: 0,
                total_count: delta.total_count,
                is_delta: delta.since.is_some(),
                since: opt_clone(&delta.since),
                exported_at: now_rfc3339(),
                raw_size_bytes: 0,
                blob_size_bytes: blob_size,
            },
        );
    }
    let raw_size = delta_json.as_bytes().len();
    let blob = match encrypt_json(&sync_key, delta_json) {
        Ok(blob) => blob,
        Err(e) => {
            return Err(e);
        },
    };
    let blob_size = blob.as_str().as_bytes().len();
    Ok(
        ExportResult {
            blob,
            item_count,
            total_count: delta.total_count,
            is_delta: delta.since.is_some(),
            since: opt_clone(&delta.since),
            exported_at: now_rfc3339(),
            raw_size_bytes: raw_size,
            blob_size_bytes: blob_size,
        },
    )
}

/// What an encrypted blob holds under the identity's sync key: nothing for
/// the empty blob, else the JSON text of a delta.
pub open spec fn spec_import_encrypted(seed: Seq<u8>, encrypted_blob: Seq<char>) -> Result<Option<Seq<char>>, EngineError> {
    if encrypted_blob.len() == 0 {
        Ok(None)
    } else {
        match spec_decrypt_json(spec_derive_sync_key(seed), encrypted_blob) {
            Ok(json) => Ok(Some(json)),
            Err(e) => Err(e),
        }
    }
}

/// Opens an encrypted blob for import.
///
/// The empty blob holds nothing, whatever the identity. Else the blob is
/// opened under the sync key of the identity and gives the JSON text of the
/// delta to merge. Fails where the identity holds no key and where the blob
/// does not open: a blob of another identity fails authentication.
pub fn import_encrypted(identity: &DidIdentity, encrypted_blob: &str) -> (res: Result<Option<String>, EngineError>)
    ensures
        match res {
            Ok(None) => encrypted_blob@.len() == 0,
            Ok(Some(json)) => identity@ matches Some(v) && spec_import_encrypted(v.seed, encrypted_blob@) == Ok::<
                Option<Seq<char>>,
                EngineError,
            >(Some(json@)),
            Err(e) => encrypted_blob@.len() > 0 && (match identity@ {
                None => e == EngineError::NotInitialized,
                Some(v) => spec_import_encrypted(v.seed, encrypted_blob@) == Err::<Option<Seq<char>>, EngineError>(e),
            }),
        },
{
    if encrypted_blob.unicode_len() == 0 {
        return Ok(None);
    }
    let seed = match identity.get_signing_key() {
        Ok(seed) => seed,
        Err(e) => {
            return Err(e);
        },
    };
    let sync_key = match derive_sync_key(seed.as_slice()) {
        Ok(key) => key,
        Err(e) => {
            return Err(e);
        },
    };
    match decrypt_json(&sync_key, encrypted_blob) {
        Ok(json) => Ok(Some(json)),
        Err(e) => Err(e),
    }
}

/// The result of an import that merged `incoming_count` items, stamped with
/// the current time.
pub fn import_result(progress: &MergeProgress, incoming_count: usize) -> (res: ImportResult)
    ensures
        res.upserted == progress.upserted,
        res.skipped == progress.skipped,
        res.incoming_count == incoming_count,
{
    ImportResult {
        upserted: progress.upserted,
        skipped: progress.skipped,
        incoming_count,
        imported_at: now_rfc3339(),
    }
}

/// The sync metadata that the stored values stand for: the count is the
/// stored number, or zero where none is stored or the text is no number;
/// sync is enabled only where the stored text is `true`.
pub open spec fn spec_sync_meta(
    last_sync_at: Option<String>,
    last_sync_item_count: Option<Seq<char>>,
    sync_enabled: Option<Seq<char>>,
    meta: SyncMeta,
) -> bool {
    &&& meta.last_sync_at == last_sync_at
    &&& meta.last_sync_item_count == (match last_sync_item_count {
        Some(text) => match spec_parse_i64(text) {
            Some(n) => n,
            None => 0i64,
        },
        None => 0i64,
    })
    &&& meta.sync_enabled == (sync_enabled == Some("true"@))
}

/// Reads the sync metadata from the values that the store holds under
/// `last_sync_at`, `last_sync_item_count` and `sync_enabled`. Sync is off
/// unless it was switched on.
pub fn get_sync_meta(last_sync_at: Option<String>, last_sync_item_count: Option<&str>, sync_enabled: Option<&str>) -> (res:
    SyncMeta)
    ensures
        spec_sync_meta(
            last_sync_at,
            match last_sync_item_count {
                Some(t) => Some(t@),
                None => None,
            },
            match sync_enabled {
                Some(t) => Some(t@),
                None => None,
            },
            res,
        ),
{
    let count = match last_sync_item_count {
        Some(text) => match parse_i64(text) {
            Some(n) => n,
            None => 0,
        },
        None => 0,
    };
    let enabled = match sync_enabled {
        Some(text) => str_eq(text, "true"),
        None => false,
    };
    SyncMeta { last_sync_at, last_sync_item_count: count, sync_enabled: enabled }
}

/// The state of sync, from the metadata, the DID where the identity has
/// one, and the two counts of the store.
pub fn get_sync_status(meta: SyncMeta, did: Option<String>, pending_changes: i64, total_items: i64) -> (res: SyncStatus)
    ensures
        res.enabled == meta.sync_enabled,
        res.last_sync_at == meta.last_sync_at,
        res.last_sync_item_count == meta.last_sync_item_count,
        res.pending_changes == pending_changes,
        res.total_items == total_items,
        res.did == did,
{
    SyncStatus {
        enabled: meta.sync_enabled,
        last_sync_at: meta.last_sync_at,
        last_sync_item_count: meta.last_sync_item_count,
        pending_changes,
        total_items,
        did,
    }
}

/// The text that is stored under `sync_enabled`: `true` or `false`.
pub fn set_sync_enabled(enabled: bool) -> (res: &'static str)
    ensures
        res@ == if enabled { "true"@ } else { "false"@ },
        (res@ == "true"@) == enabled,
{
    proof {
        reveal_strlit("true");
        reveal_strlit("false");
        assert("true"@.len() == 4);
        assert("false"@.len() == 5);
    }
    if enabled {
        "true"
    } else {
        "false"
    }
}

/// The values that a completed sync of `item_count` items stores: the
/// current time and the count in decimal. Reading the count back gives
/// `item_count`.
pub fn mark_sync_complete(item_count: i64) -> (res: SyncCompletion)
    ensures
        res.last_sync_item_count@ == spec_decimal_int(item_count as int),
        spec_parse_i64(res.last_sync_item_count@) == Some(item_count),
{
    let mut count = String::new();
    push_decimal_int(&mut count, item_count);
    proof {
        lemma_parse_decimal_int(item_count);
        assert(count@ =~= spec_decimal_int(item_count as int));
    }
    SyncCompletion { last_sync_at: now_rfc3339(), last_sync_item_count: count }
}

} // verus!
