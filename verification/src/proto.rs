use vstd::prelude::*;
use vstd::bytes::{
    lemma_auto_spec_u32_to_from_le_bytes, lemma_auto_spec_u64_to_from_le_bytes,
    spec_u32_from_le_bytes, spec_u32_to_le_bytes, spec_u64_from_le_bytes, spec_u64_to_le_bytes,
    u32_from_le_bytes, u32_to_le_bytes, u64_from_le_bytes, u64_to_le_bytes,
};
use vstd::slice::{slice_subrange, slice_to_vec};
use crate::shared::CHUNK_SIZE;

verus! {

// ---------------------------------------------------------------------------
// Value types
// ---------------------------------------------------------------------------

/// Version 1 of a File Reference: the pointer to a stored file, together with
/// the capability bytes the backing store wants back whenever the file is
/// touched. `file_reference` is opaque and replaced wholesale on refresh;
/// `file_size` is fixed at finalize time and authoritative.
pub struct FileRefV1 {
    pub message_id: i32,
    pub document_id: i64,
    pub file_reference: Vec<u8>,
    pub access_hash: i64,
    pub file_size: i64,
}

/// A File Reference: a versioned union. Decoding rejects every version tag it
/// does not know, so a future version can be added without touching call
/// sites.
pub enum FileRef {
    V1(FileRefV1),
}

/// Mathematical image of `FileRefV1`, with the capability bytes as a sequence.
pub struct FileRefV1View {
    pub message_id: i32,
    pub document_id: i64,
    pub file_reference: Seq<u8>,
    pub access_hash: i64,
    pub file_size: i64,
}

/// Mathematical image of `FileRef`.
pub enum FileRefView {
    V1(FileRefV1View),
}

impl View for FileRefV1 {
    type V = FileRefV1View;

    open spec fn view(&self) -> FileRefV1View {
        FileRefV1View {
            message_id: self.message_id,
            document_id: self.document_id,
            file_reference: self.file_reference@,
            access_hash: self.access_hash,
            file_size: self.file_size,
        }
    }
}

impl View for FileRef {
    type V = FileRefView;

    open spec fn view(&self) -> FileRefView {
        match self {
            FileRef::V1(v) => FileRefView::V1(v@),
        }
    }
}

/// Version 1 of an Upload Token: the caller-chosen correlation identifier and
/// the declared total size, the whole state of an in-progress upload.
#[derive(Clone, Copy, Debug, PartialEq, Eq, Structural)]
pub struct UploadTokenV1 {
    pub file_id: i64,
    pub file_size: i64,
}

/// An Upload Token: a versioned union, like `FileRef`.
#[derive(Clone, Copy, Debug, PartialEq, Eq, Structural)]
pub enum UploadToken {
    V1(UploadTokenV1),
}

// ---------------------------------------------------------------------------
// Binary layer: a tagged, little-endian, length-delimited encoding
// ---------------------------------------------------------------------------

/// Version tag carried as the first byte of either payload.
pub const VERSION_1_TAG: u8 = 1;

/// Bytes of the fixed-width part of a version-1 File Reference payload:
/// tag, message id, document id, access hash, file size, capability length.
pub const REF_V1_HEADER_LEN: usize = 1 + 4 + 8 + 8 + 8 + 8;

/// Exact length of a version-1 Upload Token payload.
pub const TOKEN_V1_LEN: usize = 1 + 8 + 8;

/// The binary encoding of a version-1 File Reference: the version tag, the
/// integer fields in little-endian order, then the length-delimited
/// capability bytes.
pub open spec fn ref_v1_bytes(v: FileRefV1View) -> Seq<u8> {
    seq![VERSION_1_TAG] + spec_u32_to_le_bytes(v.message_id as u32)
        + spec_u64_to_le_bytes(v.document_id as u64)
        + spec_u64_to_le_bytes(v.access_hash as u64)
        + spec_u64_to_le_bytes(v.file_size as u64)
        + spec_u64_to_le_bytes(v.file_reference.len() as u64)
        + v.file_reference
}

/// The binary encoding of a File Reference.
pub open spec fn ref_bytes(r: FileRefView) -> Seq<u8> {
    match r {
        FileRefView::V1(v) => ref_v1_bytes(v),
    }
}

/// The binary decoding of a File Reference payload. It accepts exactly the
/// well-formed version-1 payloads: anything truncated, with trailing bytes,
/// or with an unknown version tag is rejected.
pub open spec fn parse_ref_bytes(b: Seq<u8>) -> Option<FileRefView> {
    if b.len() < REF_V1_HEADER_LEN {
        None
    } else if b[0] != VERSION_1_TAG {
        None
    } else if b.len() - REF_V1_HEADER_LEN != spec_u64_from_le_bytes(b.subrange(29, 37)) {
        None
    } else {
        Some(FileRefView::V1(FileRefV1View {
            message_id: spec_u32_from_le_bytes(b.subrange(1, 5)) as i32,
            document_id: spec_u64_from_le_bytes(b.subrange(5, 13)) as i64,
            access_hash: spec_u64_from_le_bytes(b.subrange(13, 21)) as i64,
            file_size: spec_u64_from_le_bytes(b.subrange(21, 29)) as i64,
            file_reference: b.subrange(37, b.len() as int),
        }))
    }
}

/// The binary encoding of a version-1 Upload Token: the version tag, then the
/// two integer fields in little-endian order.
pub open spec fn token_v1_bytes(t: UploadTokenV1) -> Seq<u8> {
    seq![VERSION_1_TAG] + spec_u64_to_le_bytes(t.file_id as u64)
        + spec_u64_to_le_bytes(t.file_size as u64)
}

/// The binary encoding of an Upload Token.
pub open spec fn token_bytes(t: UploadToken) -> Seq<u8> {
    match t {
        UploadToken::V1(v) => token_v1_bytes(v),
    }
}

/// The binary decoding of an Upload Token payload; strict, like
/// `parse_ref_bytes`.
pub open spec fn parse_token_bytes(b: Seq<u8>) -> Option<UploadToken> {
    if b.len() == TOKEN_V1_LEN && b[0] == VERSION_1_TAG {
        Some(UploadToken::V1(UploadTokenV1 {
            file_id: spec_u64_from_le_bytes(b.subrange(1, 9)) as i64,
            file_size: spec_u64_from_le_bytes(b.subrange(9, 17)) as i64,
        }))
    } else {
        None
    }
}

/// The longest capability-byte field the string layer will encode; real
/// capabilities are a few dozen bytes, so the bound is never felt.
pub const MAX_CAPABILITY_LEN: u64 = 0x1000_0000_0000_0000 - 37;

/// A File Reference value whose encoding stays within what the string layer
/// accepts; every reference this library builds satisfies it by far.
pub open spec fn encodable(v: FileRefView) -> bool {
    match v {
        FileRefView::V1(r) => r.file_reference.len() <= MAX_CAPABILITY_LEN,
    }
}

/// The File Reference value a string carries: the base64 step undone, then
/// the binary one. This is the whole meaning of `FileRef::from_ref_string`.
pub open spec fn spec_decoded_ref(s: Seq<char>) -> Option<FileRefView> {
    match b64_decode_of(s) {
        Some(payload) => parse_ref_bytes(payload),
        None => None,
    }
}

/// The Upload Token value a string carries; the whole meaning of
/// `UploadToken::from_api_string`.
pub open spec fn spec_decoded_token(s: Seq<char>) -> Option<UploadToken> {
    match b64_decode_of(s) {
        Some(payload) => parse_token_bytes(payload),
        None => None,
    }
}

// ---------------------------------------------------------------------------
// String layer: URL-safe, padding-free base64 (trusted boundary)
// ---------------------------------------------------------------------------

/// A character of the URL-safe base64 alphabet: what makes an encoded
/// reference or token safe to embed in a URL path segment or query value.
pub open spec fn is_url_safe_char(c: char) -> bool {
    ('A' <= c && c <= 'Z') || ('a' <= c && c <= 'z') || ('0' <= c && c <= '9') || c == '-' || c
        == '_'
}

/// Every character of the string is in the URL-safe alphabet.
pub open spec fn url_safe(s: Seq<char>) -> bool {
    forall|i: int| 0 <= i < s.len() ==> is_url_safe_char(#[trigger] s[i])
}

/// What base64's URL-safe, no-padding engine returns for a byte sequence.
pub uninterp spec fn b64_of(bytes: Seq<u8>) -> Seq<char>;

/// What the same engine's decoder returns for a string: the byte sequence it
/// accepts, or nothing.
pub uninterp spec fn b64_decode_of(s: Seq<char>) -> Option<Seq<u8>>;

/// Relies on base64's `Engine::encode` with the URL-safe no-padding engine:
/// the result is a pure function of the input bytes, drawn entirely from the
/// URL-safe alphabet with no padding appended, and decoding it with the same
/// engine gives the input back. The length bound keeps the crate's
/// output-size arithmetic, which would otherwise panic, in range.
#[verifier::external_body]
fn b64_encode(bytes: &[u8]) -> (r: String)
    requires
        bytes@.len() <= 0x1000_0000_0000_0000,
    ensures
        r@ == b64_of(bytes@),
        b64_decode_of(r@) == Some(bytes@),
        url_safe(r@),
{
    base64::Engine::encode(&base64::prelude::BASE64_URL_SAFE_NO_PAD, bytes)
}

/// Relies on base64's `Engine::decode` with the URL-safe no-padding engine:
/// the result is a pure function of the input string, and rejection is
/// reported as an error value, never a panic.
#[verifier::external_body]
fn b64_decode(s: &str) -> (r: Option<Vec<u8>>)
    ensures
        match r {
            Some(v) => b64_decode_of(s@) == Some(v@),
            None => b64_decode_of(s@) is None,
        },
{
    match base64::Engine::decode(&base64::prelude::BASE64_URL_SAFE_NO_PAD, s) {
        Ok(v) => Some(v),
        Err(_) => None,
    }
}

// ---------------------------------------------------------------------------
// Executable codec
// ---------------------------------------------------------------------------

fn encode_ref(r: &FileRef) -> (out: Vec<u8>)
    ensures
        out@ == ref_bytes(r@),
{
    match r {
        FileRef::V1(v) => {
            let mut out: Vec<u8> = Vec::new();
            out.push(VERSION_1_TAG);
            let mut field = u32_to_le_bytes(v.message_id as u32);
            out.append(&mut field);
            let mut field = u64_to_le_bytes(v.document_id as u64);
            out.append(&mut field);
            let mut field = u64_to_le_bytes(v.access_hash as u64);
            out.append(&mut field);
            let mut field = u64_to_le_bytes(v.file_size as u64);
            out.append(&mut field);
            let mut field = u64_to_le_bytes(v.file_reference.len() as u64);
            out.append(&mut field);
            out.extend_from_slice(v.file_reference.as_slice());
            proof {
                assert(out@ =~= ref_v1_bytes(v@));
            }
            out
        },
    }
}

fn decode_ref(b: &[u8]) -> (r: Option<FileRef>)
    ensures
        match r {
            Some(v) => parse_ref_bytes(b@) == Some(v@),
            None => parse_ref_bytes(b@) is None,
        },
{
    if b.len() < REF_V1_HEADER_LEN {
        return None;
    }
    if b[0] != VERSION_1_TAG {
        return None;
    }
    let declared_len = u64_from_le_bytes(slice_subrange(b, 29, 37));
    if (b.len() - REF_V1_HEADER_LEN) as u64 != declared_len {
        return None;
    }
    let message_id = u32_from_le_bytes(slice_subrange(b, 1, 5)) as i32;
    let document_id = u64_from_le_bytes(slice_subrange(b, 5, 13)) as i64;
    let access_hash = u64_from_le_bytes(slice_subrange(b, 13, 21)) as i64;
    let file_size = u64_from_le_bytes(slice_subrange(b, 21, 29)) as i64;
    let file_reference = slice_to_vec(slice_subrange(b, 37, b.len()));
    Some(FileRef::V1(FileRefV1 { message_id, document_id, file_reference, access_hash, file_size }))
}

fn encode_token(t: &UploadToken) -> (out: Vec<u8>)
    ensures
        out@ == token_bytes(*t),
{
    match t {
        UploadToken::V1(v) => {
            let mut out: Vec<u8> = Vec::new();
            out.push(VERSION_1_TAG);
            let mut field = u64_to_le_bytes(v.file_id as u64);
            out.append(&mut field);
            let mut field = u64_to_le_bytes(v.file_size as u64);
            out.append(&mut field);
            proof {
                assert(out@ =~= token_v1_bytes(*v));
            }
            out
        },
    }
}

fn decode_token(b: &[u8]) -> (r: Option<UploadToken>)
    ensures
        r == parse_token_bytes(b@),
{
    if b.len() != TOKEN_V1_LEN {
        return None;
    }
    if b[0] != VERSION_1_TAG {
        return None;
    }
    let file_id = u64_from_le_bytes(slice_subrange(b, 1, 9)) as i64;
    let file_size = u64_from_le_bytes(slice_subrange(b, 9, 17)) as i64;
    Some(UploadToken::V1(UploadTokenV1 { file_id, file_size }))
}

impl FileRef {
    /// Encode this reference as an opaque string, safe to embed in a URL
    /// path segment or query value.
    pub fn to_ref_string(&self) -> (r: String)
        requires
            encodable(self@),
        ensures
            r@ == b64_of(ref_bytes(self@)),
            b64_decode_of(r@) == Some(ref_bytes(self@)),
            url_safe(r@),
    {
        let bytes = encode_ref(self);
        proof {
            lemma_auto_spec_u32_to_from_le_bytes();
            lemma_auto_spec_u64_to_from_le_bytes();
        }
        b64_encode(bytes.as_slice())
    }

    /// Decode a reference string: undo the base64 step, then the binary one.
    /// Every failure, at either layer, is `None`; a partial value never comes
    /// out.
    pub fn from_ref_string(input: String) -> (r: Option<FileRef>)
        ensures
            match r {
                Some(v) => spec_decoded_ref(input@) == Some(v@),
                None => spec_decoded_ref(input@) is None,
            },
    {
        match b64_decode(input.as_str()) {
            None => None,
            Some(bytes) => decode_ref(bytes.as_slice()),
        }
    }
}

impl UploadToken {
    /// Decode a token string; strict, like `FileRef::from_ref_string`.
    pub fn from_api_string(input: String) -> (r: Option<UploadToken>)
        ensures
            r == spec_decoded_token(input@),
    {
        match b64_decode(input.as_str()) {
            None => None,
            Some(bytes) => decode_token(bytes.as_slice()),
        }
    }

    /// Encode this token as an opaque string, safe to embed in a URL path
    /// segment or query value.
    pub fn to_api_string(&self) -> (r: String)
        ensures
            r@ == b64_of(token_bytes(*self)),
            b64_decode_of(r@) == Some(token_bytes(*self)),
            url_safe(r@),
    {
        let bytes = encode_token(self);
        proof {
            lemma_auto_spec_u64_to_from_le_bytes();
        }
        b64_encode(bytes.as_slice())
    }
}

// ---------------------------------------------------------------------------
// Derived values of a token
// ---------------------------------------------------------------------------

/// Sizes at or above this threshold go through the backing store's big-upload
/// flow.
pub const BIG_UPLOAD_THRESHOLD: i64 = 10 * 1024 * 1024;

/// The largest declared file size the upload planner accepts: the part count
/// of anything up to it fits the backing store's 32-bit part numbers.
pub const MAX_DECLARED_SIZE: i64 = 0x7fff_ffff * 524288;

/// Number of fixed-size parts needed for `size` bytes: `ceil(size / 524288)`.
pub open spec fn spec_total_parts(size: int) -> int {
    (size + (CHUNK_SIZE - 1)) / (CHUNK_SIZE as int)
}

impl UploadTokenV1 {
    /// Whether this upload must use the big-upload flow.
    pub fn should_use_big_upload(&self) -> (r: bool)
        ensures
            r == (self.file_size >= 10 * 1024 * 1024),
    {
        self.file_size >= BIG_UPLOAD_THRESHOLD
    }

    /// How many fixed-size parts the declared size splits into.
    pub fn total_parts(&self) -> (r: i32)
        requires
            0 <= self.file_size <= MAX_DECLARED_SIZE,
        ensures
            r == spec_total_parts(self.file_size as int),
    {
        proof {
            let c = CHUNK_SIZE as int;
            vstd::arithmetic::div_mod::lemma_fundamental_div_mod_converse(
                MAX_DECLARED_SIZE + c - 1,
                c,
                0x7fff_ffff,
                c - 1,
            );
            vstd::arithmetic::div_mod::lemma_div_is_ordered(
                self.file_size + c - 1,
                MAX_DECLARED_SIZE + c - 1,
                c,
            );
            vstd::arithmetic::div_mod::lemma_div_is_ordered(0, self.file_size + c - 1, c);
        }
        ((self.file_size + (CHUNK_SIZE as i64) - 1) / (CHUNK_SIZE as i64)) as i32
    }
}

// ---------------------------------------------------------------------------
// Codec laws
// ---------------------------------------------------------------------------

/// Round trip: decoding the binary encoding of any version-1 File Reference
/// gives the reference back, unchanged.
pub proof fn lemma_ref_codec_round_trip(v: FileRefV1View)
    requires
        v.file_reference.len() <= u64::MAX,
    ensures
        parse_ref_bytes(ref_bytes(FileRefView::V1(v))) == Some(FileRefView::V1(v)),
{
    lemma_auto_spec_u32_to_from_le_bytes();
    lemma_auto_spec_u64_to_from_le_bytes();
    let b = ref_v1_bytes(v);
    assert(b.len() == 37 + v.file_reference.len());
    assert(b.subrange(1, 5) =~= spec_u32_to_le_bytes(v.message_id as u32));
    assert(b.subrange(5, 13) =~= spec_u64_to_le_bytes(v.document_id as u64));
    assert(b.subrange(13, 21) =~= spec_u64_to_le_bytes(v.access_hash as u64));
    assert(b.subrange(21, 29) =~= spec_u64_to_le_bytes(v.file_size as u64));
    assert(b.subrange(29, 37) =~= spec_u64_to_le_bytes(v.file_reference.len() as u64));
    assert(b.subrange(37, b.len() as int) =~= v.file_reference);
    let m = v.message_id;
    assert((m as u32) as i32 == m) by (bit_vector);
    let d = v.document_id;
    assert((d as u64) as i64 == d) by (bit_vector);
    let a = v.access_hash;
    assert((a as u64) as i64 == a) by (bit_vector);
    let s = v.file_size;
    assert((s as u64) as i64 == s) by (bit_vector);
}

/// Round trip: decoding the binary encoding of any version-1 Upload Token
/// gives the token back, unchanged.
pub proof fn lemma_token_codec_round_trip(t: UploadTokenV1)
    ensures
        parse_token_bytes(token_bytes(UploadToken::V1(t))) == Some(UploadToken::V1(t)),
{
    lemma_auto_spec_u64_to_from_le_bytes();
    let b = token_v1_bytes(t);
    assert(b.subrange(1, 9) =~= spec_u64_to_le_bytes(t.file_id as u64));
    assert(b.subrange(9, 17) =~= spec_u64_to_le_bytes(t.file_size as u64));
    let i = t.file_id;
    assert((i as u64) as i64 == i) by (bit_vector);
    let s = t.file_size;
    assert((s as u64) as i64 == s) by (bit_vector);
}

/// Round trip at the string layer: any string whose base64 decoding is the
/// encoding of a File Reference — which `to_ref_string` promises of every
/// string it returns — decodes to exactly that reference.
pub proof fn lemma_ref_string_round_trip(v: FileRefV1View, s: Seq<char>)
    requires
        encodable(FileRefView::V1(v)),
        b64_decode_of(s) == Some(ref_bytes(FileRefView::V1(v))),
    ensures
        spec_decoded_ref(s) == Some(FileRefView::V1(v)),
{
    lemma_ref_codec_round_trip(v);
}

/// Round trip at the string layer for Upload Tokens; `to_api_string` promises
/// the premise of every string it returns.
pub proof fn lemma_token_string_round_trip(t: UploadTokenV1, s: Seq<char>)
    requires
        b64_decode_of(s) == Some(token_bytes(UploadToken::V1(t))),
    ensures
        spec_decoded_token(s) == Some(UploadToken::V1(t)),
{
    lemma_token_codec_round_trip(t);
}

/// Decoding is canonical: a File Reference payload that decodes at all is
/// exactly the encoding of what it decodes to — no trailing bytes, no
/// alternative spellings, no partial values.
pub proof fn lemma_ref_codec_canonical(b: Seq<u8>, v: FileRefV1View)
    requires
        parse_ref_bytes(b) == Some(FileRefView::V1(v)),
    ensures
        ref_bytes(FileRefView::V1(v)) == b,
{
    lemma_auto_spec_u32_to_from_le_bytes();
    lemma_auto_spec_u64_to_from_le_bytes();
    let m = spec_u32_from_le_bytes(b.subrange(1, 5));
    assert((m as i32) as u32 == m) by (bit_vector);
    let d = spec_u64_from_le_bytes(b.subrange(5, 13));
    assert((d as i64) as u64 == d) by (bit_vector);
    let a = spec_u64_from_le_bytes(b.subrange(13, 21));
    assert((a as i64) as u64 == a) by (bit_vector);
    let s = spec_u64_from_le_bytes(b.subrange(21, 29));
    assert((s as i64) as u64 == s) by (bit_vector);
    assert(v.file_reference.len() == b.len() - 37);
    assert(ref_v1_bytes(v) =~= b);
}

/// Decoding is canonical for Upload Tokens as well.
pub proof fn lemma_token_codec_canonical(b: Seq<u8>, t: UploadTokenV1)
    requires
        parse_token_bytes(b) == Some(UploadToken::V1(t)),
    ensures
        token_bytes(UploadToken::V1(t)) == b,
{
    lemma_auto_spec_u64_to_from_le_bytes();
    let i = spec_u64_from_le_bytes(b.subrange(1, 9));
    assert((i as i64) as u64 == i) by (bit_vector);
    let s = spec_u64_from_le_bytes(b.subrange(9, 17));
    assert((s as i64) as u64 == s) by (bit_vector);
    assert(token_v1_bytes(t) =~= b);
}

/// Rejection: a File Reference payload that does not start with a known
/// version tag never decodes.
pub proof fn lemma_ref_codec_rejects_unknown_version(b: Seq<u8>)
    requires
        b.len() == 0 || b[0] != VERSION_1_TAG,
    ensures
        parse_ref_bytes(b) is None,
{
}

/// Rejection: an Upload Token payload that does not start with a known
/// version tag never decodes.
pub proof fn lemma_token_codec_rejects_unknown_version(b: Seq<u8>)
    requires
        b.len() == 0 || b[0] != VERSION_1_TAG,
    ensures
        parse_token_bytes(b) is None,
{
}

/// Rejection: any proper prefix of a valid File Reference payload — a
/// truncated transmission — never decodes.
pub proof fn lemma_ref_codec_rejects_truncation(v: FileRefV1View, n: int)
    requires
        v.file_reference.len() <= u64::MAX,
        0 <= n < ref_bytes(FileRefView::V1(v)).len(),
    ensures
        parse_ref_bytes(ref_bytes(FileRefView::V1(v)).take(n)) is None,
{
    lemma_auto_spec_u32_to_from_le_bytes();
    lemma_auto_spec_u64_to_from_le_bytes();
    let b = ref_v1_bytes(v);
    let p = b.take(n);
    assert(b.len() == 37 + v.file_reference.len());
    if n >= REF_V1_HEADER_LEN {
        assert(p.subrange(29, 37) =~= b.subrange(29, 37));
        assert(b.subrange(29, 37) =~= spec_u64_to_le_bytes(v.file_reference.len() as u64));
        assert(p.len() - REF_V1_HEADER_LEN < v.file_reference.len());
    }
}

/// Rejection: any proper prefix of a valid Upload Token payload never
/// decodes.
pub proof fn lemma_token_codec_rejects_truncation(t: UploadTokenV1, n: int)
    requires
        0 <= n < token_bytes(UploadToken::V1(t)).len(),
    ensures
        parse_token_bytes(token_bytes(UploadToken::V1(t)).take(n)) is None,
{
    lemma_auto_spec_u64_to_from_le_bytes();
    assert(token_v1_bytes(t).len() == 17);
}

} // verus!
