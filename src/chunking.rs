//! Framing of a large payload into an ordered, checksummed chunk stream: one
//! metadata frame, then the payload bytes in fixed-size data frames.

use vstd::prelude::*;
use std::collections::HashMap;
use crate::ids::new_uuid_text;

verus! {

/// Default size of a data frame: 10 MiB.
pub const DEFAULT_CHUNK_SIZE: usize = 10 * 1024 * 1024;

/// Lower-case hexadecimal text of the SHA-256 digest of `data`.
pub uninterp spec fn sha256_hex_of(data: Seq<u8>) -> Seq<char>;

/// Relies on `sha2::Sha256::digest` and the lower-hex formatting of its
/// 32-byte output: the text depends on the bytes alone and has 64 digits.
#[verifier::external_body]
fn sha256_hex(data: &[u8]) -> (r: String)
    ensures
        r@ == sha256_hex_of(data@),
        r@.len() == 64,
{
    format!("{:x}", <sha2::Sha256 as sha2::Digest>::digest(data))
}

/// Whole-payload description carried by the leading frame.
#[derive(Clone, Debug)]
pub struct ChunkMetadata {
    pub user_id: String,
    pub resource_id: String,
    pub filename: String,
    pub content_type: String,
    /// Size of the whole payload in bytes.
    pub total_size: i64,
    /// Number of data frames that follow.
    pub total_chunks: i32,
    /// Wire number of the resource type.
    pub resource_type: i32,
    pub title: Option<String>,
    pub metadata: HashMap<String, String>,
    /// Lower-case hex SHA-256 of the whole, unsplit payload.
    pub checksum: String,
}

/// What a frame carries.
#[derive(Clone, Debug)]
pub enum ChunkPayload {
    Metadata(ChunkMetadata),
    Data(Vec<u8>),
}

/// One frame of the upload stream.
#[derive(Clone, Debug)]
pub struct FileChunk {
    pub payload: ChunkPayload,
    /// 0 for the metadata frame, 1, 2, ... for data frames.
    pub chunk_index: i32,
    /// Set on the final frame of the stream only.
    pub is_last: bool,
}

/// What the caller says about an upload besides its bytes.
#[derive(Clone, Debug)]
pub struct UploadRequest {
    pub user_id: String,
    /// A pre-assigned logical resource id; one is generated when absent.
    pub resource_id: Option<String>,
    pub filename: String,
    pub content_type: String,
    pub resource_type: i32,
    pub title: Option<String>,
    pub metadata: HashMap<String, String>,
}

/// Number of data frames for `n` bytes in frames of `c` bytes: `ceil(n / c)`.
pub open spec fn chunk_count_spec(n: nat, c: nat) -> nat
    recommends
        c > 0,
{
    if n % c == 0 {
        n / c
    } else {
        n / c + 1
    }
}

/// The bytes of data frame `j` (from 1): bytes `(j-1)*c` up to `j*c`, or to the end.
pub open spec fn chunk_bytes(payload: Seq<u8>, c: nat, j: nat) -> Seq<u8> {
    let start = (j - 1) * (c as int);
    let end: int = if j * c <= payload.len() { (j * c) as int } else { payload.len() as int };
    payload.subrange(start, end)
}

/// `f` is data frame `j` of `payload` cut into frames of `c` bytes.
pub open spec fn is_data_frame(payload: Seq<u8>, c: nat, j: nat, f: FileChunk) -> bool {
    &&& f.chunk_index == j
    &&& f.is_last == (j == chunk_count_spec(payload.len(), c))
    &&& match f.payload {
        ChunkPayload::Data(bytes) => bytes@ == chunk_bytes(payload, c, j),
        ChunkPayload::Metadata(_) => false,
    }
}

/// `frames` are the data frames of `payload`, in order.
pub open spec fn data_frames_spec(payload: Seq<u8>, c: nat, frames: Seq<FileChunk>) -> bool {
    &&& frames.len() == chunk_count_spec(payload.len(), c)
    &&& forall|i: int| 0 <= i < frames.len() ==> is_data_frame(payload, c, (i + 1) as nat, #[trigger] frames[i])
}

/// `frames` is the whole stream: the metadata frame, then the data frames.
pub open spec fn stream_spec(meta: ChunkMetadata, payload: Seq<u8>, c: nat, frames: Seq<FileChunk>) -> bool {
    &&& frames.len() >= 1
    &&& frames[0].payload == ChunkPayload::Metadata(meta)
    &&& frames[0].chunk_index == 0
    &&& frames[0].is_last == (payload.len() == 0)
    &&& data_frames_spec(payload, c, frames.drop_first())
}

/// The metadata that describes `payload` for `request`, under `resource_id`.
pub open spec fn metadata_spec(
    request: UploadRequest,
    resource_id: String,
    payload: Seq<u8>,
    c: nat,
    checksum: String,
) -> ChunkMetadata {
    ChunkMetadata {
        user_id: request.user_id,
        resource_id: resource_id,
        filename: request.filename,
        content_type: request.content_type,
        total_size: payload.len() as i64,
        total_chunks: chunk_count_spec(payload.len(), c) as i32,
        resource_type: request.resource_type,
        title: request.title,
        metadata: request.metadata,
        checksum: checksum,
    }
}

/// Sizes that the frame header fields can hold.
pub open spec fn fits_frame_fields(n: nat, c: nat) -> bool {
    &&& n <= i64::MAX
    &&& chunk_count_spec(n, c) <= i32::MAX
}

proof fn lemma_count_step(n: int, c: int, k: int)
    requires
        c > 0,
        0 <= k,
        k * c < n,
    ensures
        (n <= (k + 1) * c) <==> chunk_count_spec(n as nat, c as nat) == k + 1,
        k + 1 <= chunk_count_spec(n as nat, c as nat),
{
    let q = n / c;
    let r = n % c;
    assert(n == c * q + r && 0 <= r < c) by (nonlinear_arith)
        requires c > 0, n >= 0, q == n / c, r == n % c;
    assert(k < q || (k == q && r > 0)) by (nonlinear_arith)
        requires c > 0, k * c < n, n == c * q + r, 0 <= r < c, k >= 0;
    if n <= (k + 1) * c {
        assert(q <= k + 1) by (nonlinear_arith)
            requires c > 0, n <= (k + 1) * c, n == c * q + r, 0 <= r < c;
        assert(q == k + 1 ==> r == 0) by (nonlinear_arith)
            requires c > 0, n <= (k + 1) * c, n == c * q + r, 0 <= r < c;
    } else {
        assert(q >= k + 1) by (nonlinear_arith)
            requires c > 0, n > (k + 1) * c, n == c * q + r, 0 <= r < c;
        assert(q == k + 1 ==> r > 0) by (nonlinear_arith)
            requires c > 0, n > (k + 1) * c, n == c * q + r, 0 <= r < c;
    }
}

/// Number of data frames for `n` bytes in frames of `c` bytes.
pub fn chunk_count(n: usize, c: usize) -> (r: usize)
    requires
        c > 0,
    ensures
        r == chunk_count_spec(n as nat, c as nat),
{
    if n % c == 0 {
        n / c
    } else {
        proof {
            assert(n / c < n) by (nonlinear_arith)
                requires c > 0, n % c != 0, n >= 0, n / c == n / c;
        }
        n / c + 1
    }
}

/// Cuts `payload` into data frames of at most `c` bytes, numbered from 1, the
/// final one marked last.
pub fn data_frames(payload: &[u8], c: usize) -> (r: Vec<FileChunk>)
    requires
        c > 0,
        chunk_count_spec(payload@.len(), c as nat) <= i32::MAX,
    ensures
        data_frames_spec(payload@, c as nat, r@),
{
    let n = payload.len();
    let ghost count = chunk_count_spec(n as nat, c as nat);
    let mut frames: Vec<FileChunk> = Vec::new();
    let mut start: usize = 0;
    if n == 0 {
        return frames;
    }
    proof {
        lemma_count_step(n as int, c as int, 0);
        assert(frames.len() * c == 0) by (nonlinear_arith)
            requires frames.len() == 0;
    }
    while start < n
        invariant
            c > 0,
            n == payload@.len(),
            count == chunk_count_spec(n as nat, c as nat),
            count <= i32::MAX,
            n > 0,
            start <= n,
            start < n ==> start == frames.len() * c,
            start < n ==> frames.len() < count,
            start == n ==> frames.len() == count,
            forall|i: int| 0 <= i < frames.len() ==> is_data_frame(payload@, c as nat, (i + 1) as nat, #[trigger] frames@[i]),
        decreases n - start,
    {
        let k = frames.len();
        proof {
            lemma_count_step(n as int, c as int, k as int);
        }
        let end: usize = if n - start > c { start + c } else { n };
        proof {
            assert(end == n <==> n <= (k + 1) * c) by (nonlinear_arith)
                requires start == k * c, end == (if n - start > c { start + c } else { n as int }), start < n, c > 0;
        }
        let mut bytes: Vec<u8> = Vec::new();
        bytes.extend_from_slice(&payload[start..end]);
        let frame = FileChunk {
            payload: ChunkPayload::Data(bytes),
            chunk_index: (k + 1) as i32,
            is_last: end == n,
        };
        proof {
            let j = (k + 1) as nat;
            assert((j - 1) * c == start) by (nonlinear_arith)
                requires j == k + 1, start == k * c;
            assert(end == (if j * c <= n { j * c } else { n as int })) by (nonlinear_arith)
                requires j == k + 1, start == k * c, end == (if n - start > c { start + c } else { n as int }), start < n, c > 0;
            assert(bytes@ =~= chunk_bytes(payload@, c as nat, j));
        }
        frames.push(frame);
        start = end;
        proof {
            if start < n {
                assert(start == frames.len() * c) by (nonlinear_arith)
                    requires start == (k + 1) * c, frames.len() == k + 1;
            }
        }
    }
    frames
}

/// Builds the whole upload stream for `payload`: the metadata frame with the
/// given resource id and checksum, then the data frames of `c` bytes.
pub fn frame_upload(
    request: UploadRequest,
    resource_id: String,
    checksum: String,
    payload: &[u8],
    c: usize,
) -> (r: Vec<FileChunk>)
    requires
        c > 0,
        fits_frame_fields(payload@.len(), c as nat),
    ensures
        stream_spec(metadata_spec(request, resource_id, payload@, c as nat, checksum), payload@, c as nat, r@),
{
    let count = chunk_count(payload.len(), c);
    let meta = ChunkMetadata {
        user_id: request.user_id,
        resource_id: resource_id,
        filename: request.filename,
        content_type: request.content_type,
        total_size: payload.len() as i64,
        total_chunks: count as i32,
        resource_type: request.resource_type,
        title: request.title,
        metadata: request.metadata,
        checksum: checksum,
    };
    let mut frames: Vec<FileChunk> = Vec::new();
    frames.push(FileChunk { payload: ChunkPayload::Metadata(meta), chunk_index: 0, is_last: payload.len() == 0 });
    let mut data = data_frames(payload, c);
    let ghost cut = data@;
    frames.append(&mut data);
    proof {
        assert(frames@.drop_first() =~= cut);
    }
    frames
}

/// Encodes an upload: computes the checksum of the whole payload, takes the
/// caller's resource id or generates one, and frames the payload in chunks
/// of `c` bytes behind the metadata frame.
pub fn encode_chunked_upload(request: UploadRequest, payload: &[u8], c: usize) -> (r: Vec<FileChunk>)
    requires
        c > 0,
        fits_frame_fields(payload@.len(), c as nat),
    ensures
        r@.len() >= 1,
        match r@[0].payload {
            ChunkPayload::Metadata(m) => {
                &&& stream_spec(m, payload@, c as nat, r@)
                &&& m == metadata_spec(request, m.resource_id, payload@, c as nat, m.checksum)
                &&& m.checksum@ == sha256_hex_of(payload@)
                &&& match request.resource_id {
                    Some(id) => m.resource_id == id,
                    None => m.resource_id@.len() == crate::ids::UUID_TEXT_LEN,
                }
            },
            ChunkPayload::Data(_) => false,
        },
{
    let checksum = sha256_hex(payload);
    let resource_id = match &request.resource_id {
        Some(id) => id.clone(),
        None => new_uuid_text(),
    };
    let ghost id = resource_id;
    let ghost sum = checksum;
    let ghost req = request;
    let r = frame_upload(request, resource_id, checksum, payload, c);
    proof {
        assert(metadata_spec(req, id, payload@, c as nat, sum).resource_id == id);
    }
    r
}

/// The payload bytes carried by a frame; none for the metadata frame.
pub open spec fn data_of(f: FileChunk) -> Seq<u8> {
    match f.payload {
        ChunkPayload::Data(bytes) => bytes@,
        ChunkPayload::Metadata(_) => Seq::empty(),
    }
}

/// The bytes of `frames` joined in order.
pub open spec fn joined_data(frames: Seq<FileChunk>) -> Seq<u8>
    decreases frames.len(),
{
    if frames.len() == 0 {
        Seq::empty()
    } else {
        joined_data(frames.drop_last()) + data_of(frames.last())
    }
}

proof fn lemma_before_last_chunk(n: int, c: int, m: int)
    requires
        c > 0,
        0 <= m < chunk_count_spec(n as nat, c as nat),
        n >= 0,
    ensures
        m * c < n,
{
    let q = n / c;
    let r = n % c;
    assert(n == c * q + r && 0 <= r < c) by (nonlinear_arith)
        requires c > 0, n >= 0, q == n / c, r == n % c;
    assert(m * c < n) by (nonlinear_arith)
        requires c > 0, n == c * q + r, 0 <= r < c, 0 <= m, (r == 0 && m < q) || (r != 0 && m < q + 1);
}

proof fn lemma_joined_prefix(payload: Seq<u8>, c: nat, frames: Seq<FileChunk>, m: nat)
    requires
        c > 0,
        data_frames_spec(payload, c, frames),
        m <= frames.len(),
    ensures
        joined_data(frames.subrange(0, m as int))
            == payload.subrange(0, if m * c <= payload.len() { (m * c) as int } else { payload.len() as int }),
    decreases m,
{
    let n = payload.len() as int;
    if m == 0 {
        assert(frames.subrange(0, 0) =~= Seq::<FileChunk>::empty());
        assert(payload.subrange(0, 0) =~= Seq::<u8>::empty());
    } else {
        let k = (m - 1) as nat;
        lemma_joined_prefix(payload, c, frames, k);
        lemma_before_last_chunk(n, c as int, k as int);
        assert(frames.subrange(0, m as int).drop_last() =~= frames.subrange(0, k as int));
        assert(is_data_frame(payload, c, m, frames[k as int]));
        assert(k * c <= n);
        assert((m - 1) * c == k * c);
        let end: int = if m * c <= n { (m * c) as int } else { n };
        assert(k * c <= end) by (nonlinear_arith)
            requires m == k + 1, end == (if m * c <= n { (m * c) as int } else { n }), k * c < n;
        assert(payload.subrange(0, (k * c) as int) + payload.subrange((k * c) as int, end)
            =~= payload.subrange(0, end));
    }
}

/// Round trip of the upload stream: one metadata frame leads; the data frames
/// that follow number `ceil(N / C)`, carry indices 1, 2, ... strictly
/// increasing, only the final frame of the stream is terminal, and their bytes
/// joined in order give back the payload.
pub proof fn lemma_upload_round_trip(meta: ChunkMetadata, payload: Seq<u8>, c: nat, frames: Seq<FileChunk>)
    requires
        c > 0,
        stream_spec(meta, payload, c, frames),
    ensures
        frames.len() == chunk_count_spec(payload.len(), c) + 1,
        frames[0].payload is Metadata,
        forall|j: int| 1 <= j < frames.len() ==> #[trigger] frames[j].payload is Data,
        forall|j: int| 0 <= j < frames.len() ==> #[trigger] frames[j].chunk_index == j,
        forall|i: int, j: int| 0 <= i < j < frames.len() ==> frames[i].chunk_index < frames[j].chunk_index,
        forall|j: int| 0 <= j < frames.len() ==> (#[trigger] frames[j].is_last <==> j == frames.len() - 1),
        joined_data(frames.drop_first()) == payload,
{
    let data = frames.drop_first();
    assert forall|j: int| 1 <= j < frames.len() implies #[trigger] frames[j].payload is Data && frames[j].chunk_index == j
        && (frames[j].is_last <==> j == frames.len() - 1) by {
        assert(data[j - 1] == frames[j]);
        assert(is_data_frame(payload, c, j as nat, data[j - 1]));
    }
    assert forall|j: int| 0 <= j < frames.len() implies #[trigger] frames[j].chunk_index == j by {
        if j >= 1 {
            assert(frames[j].payload is Data);
        }
    }
    lemma_joined_prefix(payload, c, data, data.len());
    assert(data.subrange(0, data.len() as int) =~= data);
    let n = payload.len() as int;
    if n > 0 {
        lemma_count_step_full(n, c as int);
        let count = chunk_count_spec(n as nat, c);
        assert(count > 0) by (nonlinear_arith)
            requires count * c >= n, n > 0, c > 0;
    }
    assert(frames[0].is_last <==> 0 == frames.len() - 1);
    assert forall|j: int| 0 <= j < frames.len() implies (#[trigger] frames[j].is_last <==> j == frames.len() - 1) by {
        if j >= 1 {
            assert(frames[j].payload is Data);
        }
    }
    assert(payload.subrange(0, n) =~= payload);
}

proof fn lemma_count_step_full(n: int, c: int)
    requires
        c > 0,
        n > 0,
    ensures
        chunk_count_spec(n as nat, c as nat) * c >= n,
{
    let q = n / c;
    let r = n % c;
    assert(n == c * q + r && 0 <= r < c) by (nonlinear_arith)
        requires c > 0, n >= 0, q == n / c, r == n % c;
    assert(chunk_count_spec(n as nat, c as nat) * c >= n) by (nonlinear_arith)
        requires c > 0, n == c * q + r, 0 <= r < c,
            chunk_count_spec(n as nat, c as nat) == (if r == 0 { q } else { q + 1 });
}

} // verus!
