use vstd::prelude::*;
use vstd::string::StrSliceExecFns;
use crate::proto::{spec_decoded_ref, encodable, url_safe, FileRef, FileRefV1, FileRefView};
use crate::shared::{clone_bytes, message_to_file_ref, spec_message_file_ref, MessageInfo, CHUNK_SIZE};

verus! {

// ---------------------------------------------------------------------------
// Range header parsing
// ---------------------------------------------------------------------------

/// A decimal digit.
pub open spec fn spec_is_digit(c: char) -> bool {
    '0' <= c && c <= '9'
}

/// Every character of the sequence is a decimal digit.
pub open spec fn spec_all_digits(s: Seq<char>) -> bool {
    forall|i: int| 0 <= i < s.len() ==> spec_is_digit(#[trigger] s[i])
}

/// The number a digit sequence spells, most significant digit first.
pub open spec fn spec_digits_val(s: Seq<char>) -> int
    decreases s.len(),
{
    if s.len() == 0 {
        0
    } else {
        spec_digits_val(s.drop_last()) * 10 + (s.last() as int - '0' as int)
    }
}

/// What parsing a machine-word number with a fallback of zero yields: an
/// optional leading plus sign, then at least one digit, spelling a value the
/// machine word can hold; anything else — empty, stray characters, overflow —
/// falls back to zero.
pub open spec fn spec_parse_usize_or_zero(s: Seq<char>) -> int {
    let body = if s.len() > 0 && s[0] == '+' {
        s.drop_first()
    } else {
        s
    };
    if body.len() > 0 && spec_all_digits(body) && spec_digits_val(body) <= usize::MAX {
        spec_digits_val(body)
    } else {
        0
    }
}

/// The position of the first dash at or after `i`, if any.
pub open spec fn spec_find_dash(s: Seq<char>, i: int) -> Option<int>
    decreases s.len() - i,
{
    if i < 0 || i >= s.len() {
        None
    } else if s[i] == '-' {
        Some(i)
    } else {
        spec_find_dash(s, i + 1)
    }
}

/// The header names bytes: it begins with the six characters `bytes=`.
pub open spec fn spec_has_bytes_prefix(s: Seq<char>) -> bool {
    s.len() >= 6 && s[0] == 'b' && s[1] == 'y' && s[2] == 't' && s[3] == 'e' && s[4] == 's' && s[5]
        == '='
}

/// The pair a byte-range header parses to: the number before the first dash
/// and the number after it, either falling back to zero; a missing dash, a
/// dash at the prefix boundary, or a foreign prefix parses to `(0, 0)`. An
/// end of zero is read downstream as "unspecified", so a malformed header and
/// a literal `bytes=0-0` are indistinguishable by design.
pub open spec fn spec_parse_range_header(s: Seq<char>) -> (int, int) {
    if !spec_has_bytes_prefix(s) {
        (0, 0)
    } else {
        match spec_find_dash(s, 0) {
            None => (0, 0),
            Some(p) => if p <= 6 {
                (0, 0)
            } else {
                (
                    spec_parse_usize_or_zero(s.subrange(6, p)),
                    if p + 1 == s.len() {
                        0
                    } else {
                        spec_parse_usize_or_zero(s.subrange(p + 1, s.len() as int))
                    },
                )
            },
        }
    }
}

/// Digit sequences spell non-negative numbers.
proof fn lemma_digits_val_nonneg(s: Seq<char>)
    requires
        spec_all_digits(s),
    ensures
        spec_digits_val(s) >= 0,
    decreases s.len(),
{
    if s.len() > 0 {
        assert forall|i: int| 0 <= i < s.drop_last().len() implies spec_is_digit(
            #[trigger] s.drop_last()[i],
        ) by {
            assert(s.drop_last()[i] == s[i]);
        }
        lemma_digits_val_nonneg(s.drop_last());
        assert(spec_is_digit(s.last()));
    }
}

/// Parse the characters `[from, to)` of `s` as a machine-word number,
/// falling back to zero exactly as `spec_parse_usize_or_zero` says.
#[verifier::loop_isolation(false)]
fn parse_usize_or_zero(s: &str, from: usize, to: usize) -> (r: usize)
    requires
        from <= to <= s@.len(),
    ensures
        r as int == spec_parse_usize_or_zero(s@.subrange(from as int, to as int)),
{
    let ghost whole = s@.subrange(from as int, to as int);
    if from == to {
        return 0;
    }
    let first = s.get_char(from);
    proof {
        assert(whole[0] == s@[from as int]);
    }
    let start: usize = if first == '+' {
        from + 1
    } else {
        from
    };
    proof {
        if first == '+' {
            assert(whole.drop_first() =~= s@.subrange(start as int, to as int));
        }
    }
    if start == to {
        return 0;
    }
    let mut i: usize = start;
    let mut acc: usize = 0;
    let mut overflow = false;
    proof {
        assert(s@.subrange(start as int, start as int) =~= Seq::<char>::empty());
    }
    while i < to
        invariant
            start <= i <= to <= s@.len(),
            spec_all_digits(s@.subrange(start as int, i as int)),
            !overflow ==> acc as int == spec_digits_val(s@.subrange(start as int, i as int)),
            overflow ==> spec_digits_val(s@.subrange(start as int, i as int)) > usize::MAX,
        decreases to - i,
    {
        let c = s.get_char(i);
        let cu = c as u32;
        if cu < 48 || cu > 57 {
            proof {
                let body = s@.subrange(start as int, to as int);
                assert(body[i - start] == s@[i as int]);
                assert(!spec_all_digits(body));
            }
            return 0;
        }
        let d = (cu - 48) as usize;
        let ghost prefix = s@.subrange(start as int, i as int);
        let ghost grown = s@.subrange(start as int, i as int + 1);
        proof {
            assert(grown =~= prefix.push(s@[i as int]));
            assert(grown.drop_last() =~= prefix);
            assert(spec_digits_val(grown) == spec_digits_val(prefix) * 10 + d);
            assert forall|j: int| 0 <= j < grown.len() implies spec_is_digit(
                #[trigger] grown[j],
            ) by {
                if j < prefix.len() {
                    assert(grown[j] == prefix[j]);
                }
            }
        }
        if overflow {
            proof {
                lemma_digits_val_nonneg(prefix);
            }
        } else {
            if acc > (usize::MAX - d) / 10 {
                proof {
                    let m = (usize::MAX - d) as int;
                    vstd::arithmetic::div_mod::lemma_fundamental_div_mod(m, 10);
                    assert(acc as int * 10 >= (m / 10 + 1) * 10);
                    assert(spec_digits_val(grown) > usize::MAX);
                }
                overflow = true;
            } else {
                proof {
                    let m = (usize::MAX - d) as int;
                    vstd::arithmetic::div_mod::lemma_fundamental_div_mod(m, 10);
                    assert(acc as int * 10 <= (m / 10) * 10);
                }
                acc = acc * 10 + d;
            }
        }
        i = i + 1;
    }
    proof {
        let body = s@.subrange(start as int, to as int);
        if first == '+' {
            assert(body == whole.drop_first());
        } else {
            assert(body == whole);
        }
    }
    if overflow {
        0
    } else {
        acc
    }
}

/// Parse an HTTP byte-range header into its start and end numbers; see
/// `spec_parse_range_header` for the exact reading, including what falls
/// back to zero.
pub fn parse_range_header(range_header: String) -> (r: (usize, usize))
    ensures
        r.0 as int == spec_parse_range_header(range_header@).0,
        r.1 as int == spec_parse_range_header(range_header@).1,
{
    let s = range_header.as_str();
    let n = s.unicode_len();
    if n < 6 {
        return (0, 0);
    }
    let prefix_ok = s.get_char(0) == 'b' && s.get_char(1) == 'y' && s.get_char(2) == 't'
        && s.get_char(3) == 'e' && s.get_char(4) == 's' && s.get_char(5) == '=';
    if !prefix_ok {
        return (0, 0);
    }
    let mut i: usize = 0;
    let mut dash: usize = 0;
    let mut found = false;
    while i < n && !found
        invariant
            0 <= i <= n == s@.len(),
            !found ==> spec_find_dash(s@, 0) == spec_find_dash(s@, i as int),
            found ==> spec_find_dash(s@, 0) == Some(dash as int) && dash < n,
        decreases n - i, (if found { 0int } else { 1int }),
    {
        if s.get_char(i) == '-' {
            dash = i;
            found = true;
            proof {
                assert(spec_find_dash(s@, i as int) == Some(i as int));
            }
        } else {
            proof {
                assert(spec_find_dash(s@, i as int) == spec_find_dash(s@, i as int + 1));
            }
            i = i + 1;
        }
    }
    if !found {
        proof {
            assert(spec_find_dash(s@, i as int) is None);
        }
        return (0, 0);
    }
    if dash <= 6 {
        return (0, 0);
    }
    let start = parse_usize_or_zero(s, 6, dash);
    let end = if dash + 1 == n {
        0
    } else {
        parse_usize_or_zero(s, dash + 1, n)
    };
    (start, end)
}

// ---------------------------------------------------------------------------
// Fetch planning
// ---------------------------------------------------------------------------

/// Why a download operation rejected its input.
#[derive(Clone, Copy, Debug, PartialEq, Eq)]
pub enum DownloadError {
    /// The reference string does not decode to a known reference; answered
    /// with status 404.
    NotFound,
    /// The offset is not a multiple of the chunk size; answered with status
    /// 400.
    MisalignedOffset,
}

impl DownloadError {
    /// The HTTP status this rejection answers with.
    pub fn status(&self) -> (r: u16)
        ensures
            r == match self {
                DownloadError::NotFound => 404u16,
                DownloadError::MisalignedOffset => 400u16,
            },
    {
        match self {
            DownloadError::NotFound => 404,
            DownloadError::MisalignedOffset => 400,
        }
    }
}

/// The one backing-store fetch a download operation asks for: `limit` bytes
/// of the document starting at `offset`.
pub struct FetchRequest {
    pub document_id: i64,
    pub access_hash: i64,
    pub file_reference: Vec<u8>,
    pub offset: i64,
    pub limit: i32,
}

/// A planned fetch, together with the decoded reference the follow-up
/// decisions need.
pub struct ChunkPlan {
    pub file_ref: FileRefV1,
    pub request: FetchRequest,
}

/// The request fields a fetch of `v` uses, wherever it starts.
pub open spec fn fetch_addresses(req: FetchRequest, v: crate::proto::FileRefV1View) -> bool {
    &&& req.document_id == v.document_id
    &&& req.access_hash == v.access_hash
    &&& req.file_reference@ == v.file_reference
}

fn build_fetch_request(v: &FileRefV1, offset: i64, limit: i32) -> (r: FetchRequest)
    ensures
        fetch_addresses(r, v@),
        r.offset == offset,
        r.limit == limit,
{
    FetchRequest {
        document_id: v.document_id,
        access_hash: v.access_hash,
        file_reference: clone_bytes(&v.file_reference),
        offset,
        limit,
    }
}

/// Plan one chunk fetch: decode the reference — an undecodable one reads as
/// a missing chunk — reject a misaligned offset, and ask for exactly one
/// chunk-sized block at that offset.
pub fn get_chunk(file_ref: String, offset: usize) -> (r: Result<ChunkPlan, DownloadError>)
    ensures
        match spec_decoded_ref(file_ref@) {
            None => r matches Err(DownloadError::NotFound),
            Some(FileRefView::V1(v)) => if offset % CHUNK_SIZE != 0 {
                r matches Err(DownloadError::MisalignedOffset)
            } else {
                r matches Ok(plan) && plan.file_ref@ == v && fetch_addresses(plan.request, v)
                    && plan.request.offset == offset as i64 && plan.request.limit == CHUNK_SIZE as i32
            },
        },
{
    let decoded = match FileRef::from_ref_string(file_ref) {
        None => {
            return Err(DownloadError::NotFound);
        },
        Some(FileRef::V1(v)) => v,
    };
    if offset % CHUNK_SIZE != 0 {
        return Err(DownloadError::MisalignedOffset);
    }
    let request = build_fetch_request(&decoded, offset as i64, CHUNK_SIZE as i32);
    Ok(ChunkPlan { file_ref: decoded, request })
}

/// Plan the fetch behind a metadata lookup: decode the reference and ask for
/// a small probe at the start of the file; the probe's answer carries the
/// stored time.
pub fn get_file_meta(file_ref: String) -> (r: Result<ChunkPlan, DownloadError>)
    ensures
        match spec_decoded_ref(file_ref@) {
            None => r matches Err(DownloadError::NotFound),
            Some(FileRefView::V1(v)) => r matches Ok(plan) && plan.file_ref@ == v
                && fetch_addresses(plan.request, v) && plan.request.offset == 0
                && plan.request.limit == 4096,
        },
{
    let decoded = match FileRef::from_ref_string(file_ref) {
        None => {
            return Err(DownloadError::NotFound);
        },
        Some(FileRef::V1(v)) => v,
    };
    let request = build_fetch_request(&decoded, 0, 4096);
    Ok(ChunkPlan { file_ref: decoded, request })
}

// ---------------------------------------------------------------------------
// Fetch outcomes and the refresh protocol
// ---------------------------------------------------------------------------

/// What came back from one backing-store fetch, reduced to the cases the
/// gateway distinguishes.
pub enum FetchOutcome {
    /// The store served the block, with the file's stored time.
    Served { bytes: Vec<u8>, mtime: i32 },
    /// The store rejected the presented capability bytes as stale.
    Expired,
    /// Anything else: a failed call, or an answer of an unexpected shape.
    Failed,
}

/// The next move after a chunk fetch.
pub enum ChunkStep {
    /// Answer the fetched bytes verbatim, status 200.
    Data(Vec<u8>),
    /// The reference is stale: look up the owning message and refresh.
    NeedRefresh(i32),
    /// Answer status 500; nothing is retried at this layer.
    Failed,
}

/// Judge one chunk fetch. A stale reference never yields bytes: it always
/// turns into a refresh of the owning message.
pub fn get_chunk_outcome(file_ref: &FileRefV1, outcome: FetchOutcome) -> (r: ChunkStep)
    ensures
        match outcome {
            FetchOutcome::Served { bytes, mtime } => r matches ChunkStep::Data(b) && b@ == bytes@,
            FetchOutcome::Expired => r matches ChunkStep::NeedRefresh(id) && id
                == file_ref.message_id,
            FetchOutcome::Failed => r matches ChunkStep::Failed,
        },
{
    match outcome {
        FetchOutcome::Served { bytes, mtime: _ } => ChunkStep::Data(bytes),
        FetchOutcome::Expired => ChunkStep::NeedRefresh(file_ref.message_id),
        FetchOutcome::Failed => ChunkStep::Failed,
    }
}

/// Answer of the metadata lookup: the authoritative size from the reference
/// itself, and the stored time from the probe.
#[derive(Clone, Copy, Debug, PartialEq, Eq, Structural)]
pub struct FileMetaResponse {
    pub file_size: i64,
    pub mtime: i32,
}

/// The next move after a metadata probe.
pub enum MetaStep {
    /// Answer the metadata, status 200.
    Meta(FileMetaResponse),
    /// The reference is stale: look up the owning message and refresh.
    NeedRefresh(i32),
    /// Answer status 500.
    Failed,
}

/// Judge one metadata probe. The size comes from the reference — it is
/// authoritative and never recomputed from fetched bytes; only the stored
/// time comes from the probe's answer.
pub fn get_file_meta_outcome(file_ref: &FileRefV1, outcome: FetchOutcome) -> (r: MetaStep)
    ensures
        match outcome {
            FetchOutcome::Served { bytes, mtime } => r == MetaStep::Meta(FileMetaResponse {
                file_size: file_ref.file_size,
                mtime,
            }),
            FetchOutcome::Expired => r == MetaStep::NeedRefresh(file_ref.message_id),
            FetchOutcome::Failed => r == MetaStep::Failed,
        },
{
    match outcome {
        FetchOutcome::Served { bytes: _, mtime } => MetaStep::Meta(FileMetaResponse {
            file_size: file_ref.file_size,
            mtime,
        }),
        FetchOutcome::Expired => MetaStep::NeedRefresh(file_ref.message_id),
        FetchOutcome::Failed => MetaStep::Failed,
    }
}

/// What came back from the backing store's message lookup, reduced to the
/// cases the refresh protocol distinguishes.
pub enum LookupOutcome {
    /// The lookup call itself failed.
    Failed,
    /// The call succeeded but did not answer with a plain message list.
    Unexpected,
    /// The list holds no message at all.
    NoMessage,
    /// The message slot is empty: the owning message is gone.
    Empty,
    /// The slot holds a service message, not a content message.
    Service,
    /// The owning content message, as stored now.
    Found(MessageInfo),
}

/// Refresh a stale reference from its owning message: exactly a found
/// content message carrying a plain stored document yields a fresh encoded
/// reference — one that decodes to precisely the reference extracted from
/// the message — and everything else yields nothing, which the caller
/// answers as a missing chunk. A successful refresh is answered as status
/// 409 with the new reference in a header, never as file bytes.
pub fn refresh_file_reference(lookup: LookupOutcome) -> (r: Option<String>)
    ensures
        match lookup {
            LookupOutcome::Found(m) => match spec_message_file_ref(m) {
                Some(v) => if encodable(v) {
                    r matches Some(s) && spec_decoded_ref(s@) == Some(v) && url_safe(s@)
                } else {
                    r is None
                },
                None => r is None,
            },
            _ => r is None,
        },
{
    match lookup {
        LookupOutcome::Found(m) => {
            match message_to_file_ref(&m) {
                Some(fresh) => {
                    let fits = match &fresh {
                        FileRef::V1(v) => (v.file_reference.len() as u64)
                            <= crate::proto::MAX_CAPABILITY_LEN,
                    };
                    if fits {
                        proof {
                            let FileRefView::V1(v) = fresh@;
                            crate::proto::lemma_ref_codec_round_trip(v);
                        }
                        Some(fresh.to_ref_string())
                    } else {
                        None
                    }
                },
                None => None,
            }
        },
        _ => None,
    }
}

// ---------------------------------------------------------------------------
// The range gateway
// ---------------------------------------------------------------------------

/// A planned range fetch: one chunk-sized block at the alignment of the
/// requested start, together with the numbers the slicing step needs.
pub struct RangePlan {
    pub file_ref: FileRefV1,
    pub request: FetchRequest,
    pub start: usize,
    pub end: usize,
    pub aligned_offset: usize,
}

/// Plan a range request: parse the header — a missing one reads as "from the
/// start, to the end" — decode the reference, and ask for one chunk-sized
/// block at the aligned offset `floor(start / CHUNK_SIZE) * CHUNK_SIZE`.
/// This gateway serves at most one block per call; a longer range takes
/// successive requests.
pub fn get_chunk_by_range_header(file_ref: String, range_header: Option<String>) -> (r: Result<
    RangePlan,
    DownloadError,
>)
    ensures
        ({
            let parsed = match range_header {
                Some(h) => spec_parse_range_header(h@),
                None => (0int, 0int),
            };
            match spec_decoded_ref(file_ref@) {
                None => r matches Err(DownloadError::NotFound),
                Some(FileRefView::V1(v)) => r matches Ok(plan) && plan.file_ref@ == v
                    && fetch_addresses(plan.request, v) && plan.start == parsed.0 && plan.end
                    == parsed.1 && plan.aligned_offset == (parsed.0 / (CHUNK_SIZE as int)) * (
                CHUNK_SIZE as int) && plan.request.offset == plan.aligned_offset as i64
                    && plan.request.limit == CHUNK_SIZE as i32,
            }
        }),
{
    let (start, end) = match range_header {
        Some(h) => parse_range_header(h),
        None => (0usize, 0usize),
    };
    let decoded = match FileRef::from_ref_string(file_ref) {
        None => {
            return Err(DownloadError::NotFound);
        },
        Some(FileRef::V1(v)) => v,
    };
    proof {
        vstd::arithmetic::div_mod::lemma_fundamental_div_mod(start as int, CHUNK_SIZE as int);
    }
    let aligned_offset = (start / CHUNK_SIZE) * CHUNK_SIZE;
    let request = build_fetch_request(&decoded, aligned_offset as i64, CHUNK_SIZE as i32);
    Ok(RangePlan { file_ref: decoded, request, start, end, aligned_offset })
}

/// A served slice: the body and the numbers of its `Content-Range`.
pub struct RangeData {
    pub body: Vec<u8>,
    pub start: usize,
    pub end: usize,
    pub file_size: i64,
}

/// The next move after a range fetch.
pub enum RangeStep {
    /// Answer the slice, status 206, with `Content-Range: bytes start-end/file_size`.
    Sliced(RangeData),
    /// The fetched block cannot satisfy the requested range; answered with
    /// status 400.
    Unsatisfiable,
    /// Answer status 500. The range gateway does not refresh: a stale
    /// reference reads as an upstream failure here.
    Failed,
}

/// Judge one range fetch and slice the block. The requested end is clamped
/// to the last fetched byte when it is open or overshoots; the size in the
/// answer comes from the reference, authoritative even though only a slice
/// is returned. A block longer than a chunk is an answer of an unexpected
/// shape and fails.
pub fn get_chunk_by_range_outcome(plan: &RangePlan, outcome: FetchOutcome) -> (r: RangeStep)
    requires
        plan.aligned_offset == (plan.start as int / (CHUNK_SIZE as int)) * (CHUNK_SIZE as int),
    ensures
        match outcome {
            FetchOutcome::Served { bytes, mtime } => {
                let len = bytes@.len() as int;
                if len > CHUNK_SIZE {
                    r matches RangeStep::Failed
                } else if len == 0 || plan.start >= plan.aligned_offset + len || (plan.end != 0
                    && plan.end < plan.start) {
                    r matches RangeStep::Unsatisfiable
                } else {
                    let last = if plan.end == 0 || plan.end > plan.aligned_offset + len - 1 {
                        plan.aligned_offset + len - 1
                    } else {
                        plan.end as int
                    };
                    r matches RangeStep::Sliced(data) && data.start == plan.start && data.end
                        == last && data.file_size == plan.file_ref.file_size && data.body@
                        == bytes@.subrange(
                        plan.start - plan.aligned_offset,
                        last + 1 - plan.aligned_offset,
                    )
                }
            },
            _ => r matches RangeStep::Failed,
        },
{
    let bytes = match outcome {
        FetchOutcome::Served { bytes, mtime: _ } => bytes,
        _ => {
            return RangeStep::Failed;
        },
    };
    let len = bytes.len();
    if len > CHUNK_SIZE {
        return RangeStep::Failed;
    }
    proof {
        let c = CHUNK_SIZE as int;
        let st = plan.start as int;
        vstd::arithmetic::div_mod::lemma_fundamental_div_mod(st, c);
        vstd::arithmetic::div_mod::lemma_mod_bound(st, c);
        vstd::arithmetic::mul::lemma_mul_is_commutative(st / c, c);
        assert(plan.aligned_offset <= plan.start);
        let m = usize::MAX as int;
        vstd::arithmetic::div_mod::lemma_fundamental_div_mod(m, c);
        vstd::arithmetic::div_mod::lemma_mod_bound(m, c);
        vstd::arithmetic::div_mod::lemma_div_is_ordered(st, m, c);
        vstd::arithmetic::mul::lemma_mul_inequality(st / c, m / c, c);
        vstd::arithmetic::mul::lemma_mul_is_commutative(m / c, c);
        assert(m % c == c - 1);
        assert(plan.aligned_offset + c - 1 <= usize::MAX);
    }
    if len == 0 {
        return RangeStep::Unsatisfiable;
    }
    let rel_start = plan.start - plan.aligned_offset;
    if rel_start >= len {
        return RangeStep::Unsatisfiable;
    }
    if plan.end != 0 && plan.end < plan.start {
        return RangeStep::Unsatisfiable;
    }
    let rel_last = if plan.end == 0 || plan.end - plan.aligned_offset > len - 1 {
        len - 1
    } else {
        plan.end - plan.aligned_offset
    };
    let body = vstd::slice::slice_to_vec(
        vstd::slice::slice_subrange(bytes.as_slice(), rel_start, rel_last + 1),
    );
    RangeStep::Sliced(RangeData {
        body,
        start: plan.start,
        end: plan.aligned_offset + rel_last,
        file_size: plan.file_ref.file_size,
    })
}

} // verus!
