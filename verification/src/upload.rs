use vstd::prelude::*;
use crate::proto::{
    encodable, spec_decoded_ref, spec_decoded_token, spec_total_parts, url_safe, FileRef,
    FileRefView, UploadToken, UploadTokenV1, BIG_UPLOAD_THRESHOLD, MAX_CAPABILITY_LEN,
    MAX_DECLARED_SIZE,
};
use crate::shared::{spec_message_file_ref, message_to_file_ref, MessageInfo, CHUNK_SIZE};

verus! {

// ---------------------------------------------------------------------------
// Start
// ---------------------------------------------------------------------------

/// Query of the start operation: the declared total size of the upload.
pub struct StartUploadQueryParams {
    pub file_size: u64,
}

/// Answer of the start operation: the opaque token that carries the whole
/// upload state, and the part size every chunk call must use.
pub struct StartUploadResponse {
    pub token: String,
    pub chunk_size: usize,
}

/// Relies on rand's `StdRng`: `SeedableRng::from_entropy` seeds a fresh
/// generator from the operating system and `RngCore::next_u64` draws one
/// value from it. Nothing can be promised of the draw; seeding aborts only if
/// the operating system cannot supply entropy at all.
#[verifier::external_body]
fn random_u64() -> u64 {
    let mut rng = <rand::rngs::StdRng as rand::SeedableRng>::from_entropy();
    rand::RngCore::next_u64(&mut rng)
}

/// The non-negative identifier a raw random draw folds into: the magnitude
/// of the draw read as a signed value, with the one magnitude that has no
/// signed counterpart folded to zero.
pub open spec fn spec_file_id_from_seed(seed: u64) -> int {
    if seed as i64 == i64::MIN {
        0
    } else if (seed as i64) < 0 {
        -((seed as i64) as int)
    } else {
        (seed as i64) as int
    }
}

/// Fold a raw random draw into the non-negative 63-bit identifier space.
pub fn file_id_from_seed(seed: u64) -> (r: i64)
    ensures
        r == spec_file_id_from_seed(seed),
        0 <= r,
{
    let s = seed as i64;
    if s == i64::MIN {
        0
    } else if s < 0 {
        -s
    } else {
        s
    }
}

/// Start an upload: choose a random correlation identifier, seal it together
/// with the declared size into an Upload Token, and hand back the token with
/// the mandated chunk size. No backing-store call is involved.
pub fn start_upload(query: StartUploadQueryParams) -> (r: StartUploadResponse)
    ensures
        r.chunk_size == CHUNK_SIZE,
        spec_decoded_token(r.token@) matches Some(UploadToken::V1(t))
            && t.file_size == query.file_size as i64
            && 0 <= t.file_id,
        url_safe(r.token@),
{
    let file_id = file_id_from_seed(random_u64());
    let token = UploadToken::V1(UploadTokenV1 { file_id, file_size: query.file_size as i64 });
    let encoded = token.to_api_string();
    proof {
        crate::proto::lemma_token_codec_round_trip(
            UploadTokenV1 { file_id, file_size: query.file_size as i64 },
        );
    }
    StartUploadResponse { token: encoded, chunk_size: CHUNK_SIZE }
}

// ---------------------------------------------------------------------------
// Chunk
// ---------------------------------------------------------------------------

/// Query of the chunk operation: the opaque token and the byte offset of
/// this part.
pub struct UploadChunkQueryParams {
    pub token: String,
    pub offset: u64,
}

/// The one backing-store call a chunk operation asks for: save these bytes as
/// part `file_part` of upload `file_id`, through the small or the big flow.
/// The big flow carries the total part count on every call; the small one
/// never does.
pub enum SavePartRequest {
    Small { file_id: i64, file_part: i32, bytes: Vec<u8> },
    Big { file_id: i64, file_part: i32, file_total_parts: i32, bytes: Vec<u8> },
}

/// Why an upload operation rejected its input. Every variant answers with
/// status 400: all of them blame the caller's input, never the backing store.
#[derive(Clone, Copy, Debug, PartialEq, Eq)]
pub enum UploadError {
    /// The token string does not decode to a known token.
    InvalidToken,
    /// The token decodes, but its declared size is outside the range the
    /// planner can split into 32-bit part numbers.
    UnusableToken,
    /// The offset is not a multiple of the chunk size.
    MisalignedOffset,
    /// The offset is aligned but names a part beyond the 32-bit part space.
    OffsetTooLarge,
}

impl UploadError {
    /// The HTTP status this rejection answers with.
    pub fn status(&self) -> (r: u16)
        ensures
            r == 400,
    {
        400
    }
}

/// A token whose declared size the planner accepts.
pub open spec fn token_size_ok(t: UploadTokenV1) -> bool {
    0 <= t.file_size <= MAX_DECLARED_SIZE
}

/// Plan one chunk call: decode the token, reject a misaligned offset, and
/// pick the small or big save call with the part index `offset / CHUNK_SIZE`.
/// Nothing is remembered between calls; the token carries everything.
pub fn upload_chunk(query: UploadChunkQueryParams, body: Vec<u8>) -> (r: Result<
    SavePartRequest,
    UploadError,
>)
    ensures
        match r {
            Ok(req) => {
                &&& spec_decoded_token(query.token@) matches Some(UploadToken::V1(t))
                &&& token_size_ok(t)
                &&& query.offset % (CHUNK_SIZE as u64) == 0
                &&& query.offset / (CHUNK_SIZE as u64) <= 0x7fff_ffff
                &&& if t.file_size >= BIG_UPLOAD_THRESHOLD {
                    req matches SavePartRequest::Big { file_id, file_part, file_total_parts, bytes }
                        && file_id == t.file_id
                        && file_part == query.offset / (CHUNK_SIZE as u64)
                        && file_total_parts == spec_total_parts(t.file_size as int)
                        && bytes@ == body@
                } else {
                    req matches SavePartRequest::Small { file_id, file_part, bytes }
                        && file_id == t.file_id
                        && file_part == query.offset / (CHUNK_SIZE as u64)
                        && bytes@ == body@
                }
            },
            Err(e) => match e {
                UploadError::InvalidToken => spec_decoded_token(query.token@) is None,
                UploadError::UnusableToken => spec_decoded_token(query.token@) matches Some(
                    UploadToken::V1(t),
                ) && !token_size_ok(t),
                UploadError::MisalignedOffset => spec_decoded_token(query.token@) matches Some(
                    UploadToken::V1(t),
                ) && token_size_ok(t) && query.offset % (CHUNK_SIZE as u64) != 0,
                UploadError::OffsetTooLarge => spec_decoded_token(query.token@) matches Some(
                    UploadToken::V1(t),
                ) && token_size_ok(t) && query.offset % (CHUNK_SIZE as u64) == 0 && query.offset / (
                CHUNK_SIZE as u64) > 0x7fff_ffff,
            },
        },
{
    let UploadChunkQueryParams { token, offset } = query;
    let decoded = match UploadToken::from_api_string(token) {
        None => {
            return Err(UploadError::InvalidToken);
        },
        Some(UploadToken::V1(t)) => t,
    };
    if decoded.file_size < 0 || decoded.file_size > MAX_DECLARED_SIZE {
        return Err(UploadError::UnusableToken);
    }
    if offset % (CHUNK_SIZE as u64) != 0 {
        return Err(UploadError::MisalignedOffset);
    }
    let part = offset / (CHUNK_SIZE as u64);
    if part > 0x7fff_ffff {
        return Err(UploadError::OffsetTooLarge);
    }
    let file_part = part as i32;
    if decoded.should_use_big_upload() {
        Ok(SavePartRequest::Big {
            file_id: decoded.file_id,
            file_part,
            file_total_parts: decoded.total_parts(),
            bytes: body,
        })
    } else {
        Ok(SavePartRequest::Small { file_id: decoded.file_id, file_part, bytes: body })
    }
}

// ---------------------------------------------------------------------------
// Finalize
// ---------------------------------------------------------------------------

/// Query of the finalize operation: the opaque token.
pub struct UploadFinalizeQueryParams {
    pub token: String,
}

/// Body of the finalize operation: the checksum and the name the stored file
/// should carry.
pub struct UploadFinalizeBody {
    pub md5: String,
    pub name: String,
}

/// Answer of the finalize operation: the encoded File Reference of the newly
/// stored file.
pub struct UploadFinalizeResponse {
    pub ref_string: String,
}

/// The assembled-file description finalize sends to the backing store. The
/// small flow carries an MD5 checksum; the big flow must omit it.
pub enum InputFilePlan {
    Small { file_id: i64, parts: i32, name: String, md5: String },
    Big { file_id: i64, parts: i32, name: String },
}

/// The complete send-as-file request finalize asks for: the assembled-file
/// description, posted to the caller's own account as a silent message with
/// forwarding disabled, correlated by the upload's own identifier.
pub struct SendFilePlan {
    pub file: InputFilePlan,
    pub to_self: bool,
    pub silent: bool,
    pub noforwards: bool,
    pub random_id: i64,
}

/// Plan the finalize call: decode the token and describe the whole
/// send-as-file request — the assembled file and its envelope — for the
/// backing store.
pub fn upload_finalize(query: UploadFinalizeQueryParams, body: UploadFinalizeBody) -> (r: Result<
    SendFilePlan,
    UploadError,
>)
    ensures
        match r {
            Ok(plan) => {
                &&& spec_decoded_token(query.token@) matches Some(UploadToken::V1(t))
                &&& token_size_ok(t)
                &&& plan.to_self
                &&& plan.silent
                &&& plan.noforwards
                &&& plan.random_id == t.file_id
                &&& if t.file_size >= BIG_UPLOAD_THRESHOLD {
                    plan.file matches InputFilePlan::Big { file_id, parts, name }
                        && file_id == t.file_id
                        && parts == spec_total_parts(t.file_size as int)
                        && name@ == body.name@
                } else {
                    plan.file matches InputFilePlan::Small { file_id, parts, name, md5 }
                        && file_id == t.file_id
                        && parts == spec_total_parts(t.file_size as int)
                        && name@ == body.name@
                        && md5@ == body.md5@
                }
            },
            Err(e) => match e {
                UploadError::InvalidToken => spec_decoded_token(query.token@) is None,
                UploadError::UnusableToken => spec_decoded_token(query.token@) matches Some(
                    UploadToken::V1(t),
                ) && !token_size_ok(t),
                _ => false,
            },
        },
{
    let UploadFinalizeBody { md5, name } = body;
    let decoded = match UploadToken::from_api_string(query.token) {
        None => {
            return Err(UploadError::InvalidToken);
        },
        Some(UploadToken::V1(t)) => t,
    };
    if decoded.file_size < 0 || decoded.file_size > MAX_DECLARED_SIZE {
        return Err(UploadError::UnusableToken);
    }
    let parts = decoded.total_parts();
    let file = if decoded.should_use_big_upload() {
        InputFilePlan::Big { file_id: decoded.file_id, parts, name }
    } else {
        InputFilePlan::Small { file_id: decoded.file_id, parts, name, md5 }
    };
    Ok(SendFilePlan {
        file,
        to_self: true,
        silent: true,
        noforwards: true,
        random_id: decoded.file_id,
    })
}

/// What came back from the backing store's send-as-file call, reduced to the
/// cases finalize distinguishes.
pub enum SendOutcome {
    /// The call itself failed.
    CallFailed,
    /// The call succeeded but did not answer with an update list.
    NotUpdates,
    /// The update list holds no new-message update.
    NoNewMessage,
    /// The new-message update does not carry a content message.
    NotMessage,
    /// The new content message, as stored.
    Message(MessageInfo),
}

/// Why finalize failed after the token was accepted. Both cases are upstream
/// failures — answered with status 500, never retried at this layer.
#[derive(Clone, Copy, Debug, PartialEq, Eq)]
pub enum FinalizeFailure {
    /// The backing store rejected the send call itself.
    UpstreamCallFailed,
    /// The backing store answered with something other than a freshly stored
    /// document message.
    UnexpectedResponse,
}

impl FinalizeFailure {
    /// The HTTP status this failure answers with.
    pub fn status(&self) -> (r: u16)
        ensures
            r == 500,
    {
        500
    }
}

/// What came back from one save-part call, reduced to what the protocol
/// distinguishes.
pub enum SaveOutcome {
    /// The backing store recorded the part.
    Saved,
    /// The call failed, or its answer had an unexpected shape.
    Failed,
}

/// Judge one save-part call: a recorded part is acknowledged with an empty
/// answer; anything else is an upstream failure, not retried at this layer.
pub fn upload_chunk_outcome(outcome: SaveOutcome) -> (r: u16)
    ensures
        r == match outcome {
            SaveOutcome::Saved => 204u16,
            SaveOutcome::Failed => 500u16,
        },
{
    match outcome {
        SaveOutcome::Saved => 204,
        SaveOutcome::Failed => 500,
    }
}

/// Judge the backing store's answer to the send-as-file call: exactly a new
/// content message carrying a plain stored document yields a reference, and
/// the returned string decodes to precisely the reference extracted from that
/// message. Everything else fails closed.
pub fn upload_finalize_outcome(outcome: SendOutcome) -> (r: Result<
    UploadFinalizeResponse,
    FinalizeFailure,
>)
    ensures
        match outcome {
            SendOutcome::CallFailed => r matches Err(FinalizeFailure::UpstreamCallFailed),
            SendOutcome::Message(m) => match spec_message_file_ref(m) {
                Some(v) => if encodable(v) {
                    r matches Ok(resp) && spec_decoded_ref(resp.ref_string@) == Some(v)
                        && url_safe(resp.ref_string@)
                } else {
                    r matches Err(FinalizeFailure::UnexpectedResponse)
                },
                None => r matches Err(FinalizeFailure::UnexpectedResponse),
            },
            _ => r matches Err(FinalizeFailure::UnexpectedResponse),
        },
{
    match outcome {
        SendOutcome::Message(m) => {
            match message_to_file_ref(&m) {
                Some(file_ref) => {
                    let fits = match &file_ref {
                        FileRef::V1(v) => (v.file_reference.len() as u64) <= MAX_CAPABILITY_LEN,
                    };
                    if fits {
                        proof {
                            let FileRefView::V1(v) = file_ref@;
                            crate::proto::lemma_ref_codec_round_trip(v);
                        }
                        Ok(UploadFinalizeResponse { ref_string: file_ref.to_ref_string() })
                    } else {
                        Err(FinalizeFailure::UnexpectedResponse)
                    }
                },
                None => Err(FinalizeFailure::UnexpectedResponse),
            }
        },
        SendOutcome::CallFailed => Err(FinalizeFailure::UpstreamCallFailed),
        _ => Err(FinalizeFailure::UnexpectedResponse),
    }
}

// ---------------------------------------------------------------------------
// Advertised size limit
// ---------------------------------------------------------------------------

/// One entry of the backing store's application configuration, reduced to
/// the integer-valued pairs the limit lookup reads.
pub struct AppConfigEntry {
    pub key: String,
    pub value: i64,
}

/// Answer of the limit operation: the advertised upload size ceiling.
pub struct UploadLimitResponse {
    pub file_size_limit: u64,
}

/// The configuration key that carries the account's part-count ceiling.
pub open spec fn spec_max_parts_key(premium: bool) -> Seq<char> {
    if premium {
        "upload_max_fileparts_premium"@
    } else {
        "upload_max_fileparts_default"@
    }
}

/// The value of the first entry with the given key, if any.
pub open spec fn spec_find_entry(entries: Seq<AppConfigEntry>, key: Seq<char>) -> Option<i64>
    decreases entries.len(),
{
    if entries.len() == 0 {
        None
    } else if entries[0].key@ == key {
        Some(entries[0].value)
    } else {
        spec_find_entry(entries.drop_first(), key)
    }
}

/// Compute the advertised upload size ceiling: the account's part-count
/// ceiling, looked up by account kind, times the chunk size. Nothing —
/// a missing key, a negative count, a product beyond the integer space —
/// is guessed around; the caller answers status 500 for `None`.
pub fn get_upload_limit(premium: bool, entries: &Vec<AppConfigEntry>) -> (r: Option<
    UploadLimitResponse,
>)
    ensures
        match spec_find_entry(entries@, spec_max_parts_key(premium)) {
            None => r is None,
            Some(v) => if 0 <= v && v * (CHUNK_SIZE as int) <= u64::MAX {
                r matches Some(resp) && resp.file_size_limit == v * (CHUNK_SIZE as int)
            } else {
                r is None
            },
        },
{
    let key: String = if premium {
        "upload_max_fileparts_premium".to_owned()
    } else {
        "upload_max_fileparts_default".to_owned()
    };
    let mut i: usize = 0;
    proof {
        assert(entries@.skip(0) =~= entries@);
    }
    while i < entries.len()
        invariant
            0 <= i <= entries@.len(),
            key@ == spec_max_parts_key(premium),
            spec_find_entry(entries@.skip(i as int), spec_max_parts_key(premium))
                == spec_find_entry(entries@, spec_max_parts_key(premium)),
        decreases entries@.len() - i,
    {
        proof {
            assert(entries@.skip(i as int)[0] == entries@[i as int]);
            assert(entries@.skip(i as int).drop_first() =~= entries@.skip(i as int + 1));
        }
        if entries[i].key.eq(&key) {
            let v = entries[i].value;
            proof {
                assert(spec_find_entry(entries@.skip(i as int), spec_max_parts_key(premium))
                    == Some(entries@[i as int].value));
            }
            if v < 0 {
                return None;
            }
            let limit = match (v as u64).checked_mul(CHUNK_SIZE as u64) {
                None => {
                    return None;
                },
                Some(l) => l,
            };
            return Some(UploadLimitResponse { file_size_limit: limit });
        }
        i = i + 1;
    }
    proof {
        assert(entries@.skip(i as int) =~= Seq::<AppConfigEntry>::empty());
    }
    None
}

} // verus!
