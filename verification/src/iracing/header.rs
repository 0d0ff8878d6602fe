//! The fixed header at the start of iRacing's shared-memory telemetry file,
//! read from a byte snapshot of that memory, and the regions it points at.

use vstd::prelude::*;
use vstd::slice::slice_subrange;
use vstd::slice::slice_to_vec;

verus! {

/// Bytes taken by the header: ten `i32` fields, two of padding, then the
/// descriptors of the rotating telemetry buffers.
pub const HEADER_LEN: usize = 112;

/// Number of telemetry buffer descriptors the header has room for.
pub const MAX_BUFS: usize = 4;

/// Offset of the first buffer descriptor within the header.
pub const VAR_BUF_START: usize = 48;

/// Bytes taken by one buffer descriptor (tick count, offset, two of padding).
pub const VAR_BUF_LEN: usize = 16;

/// Bit of `Header::status` that is set while the simulator is running.
pub const STATUS_CONNECTED_FLAG: i32 = 1;

/// The little-endian unsigned value of the four bytes of `b` at `at`.
pub open spec fn le_u32(b: Seq<u8>, at: int) -> int {
    b[at] + b[at + 1] * 256 + b[at + 2] * 65536 + b[at + 3] * 16777216
}

/// The little-endian two's-complement `i32` stored in the four bytes of `b` at `at`.
pub open spec fn le_i32(b: Seq<u8>, at: int) -> i32 {
    le_u32(b, at) as i32
}

/// Reads a little-endian `i32` at byte offset `at`.
pub fn read_i32_le(b: &[u8], at: usize) -> (v: i32)
    requires
        at + 4 <= b@.len(),
    ensures
        v == le_i32(b@, at as int),
{
    let u: u32 = b[at] as u32 + (b[at + 1] as u32) * 256 + (b[at + 2] as u32) * 65536 + (b[at
        + 3] as u32) * 16777216;
    assert(u as int == le_u32(b@, at as int));
    u as i32
}

/// One rotating telemetry buffer: the tick at which it was last written and
/// where its row of values lies in the shared memory.
#[derive(Clone, Copy, Debug, PartialEq, Eq)]
pub struct VarBuf {
    pub tick_count: i32,
    pub buf_offset: i32,
}

/// The shared-memory header, as plain values.
#[derive(Clone, Copy, Debug, PartialEq, Eq)]
pub struct Header {
    /// Version of the layout; the client only talks to `IRSDK_VER`.
    pub ver: i32,
    /// Bit field; `STATUS_CONNECTED_FLAG` is set while the simulator runs.
    pub status: i32,
    pub tick_rate: i32,
    /// Bumped each time the session-info document changes.
    pub session_info_update: i32,
    pub session_info_len: i32,
    pub session_info_offset: i32,
    pub num_vars: i32,
    pub var_header_offset: i32,
    /// How many of `var_buf` are in use.
    pub num_buf: i32,
    /// Length of one telemetry row.
    pub buf_len: i32,
    pub var_buf: [VarBuf; 4],
}

/// The descriptor of buffer `i` in the header bytes `b`.
pub open spec fn var_buf_at(b: Seq<u8>, i: int) -> VarBuf {
    VarBuf {
        tick_count: le_i32(b, VAR_BUF_START + VAR_BUF_LEN * i),
        buf_offset: le_i32(b, VAR_BUF_START + VAR_BUF_LEN * i + 4),
    }
}

/// Whether `status` has the running bit set.
pub open spec fn status_connected(status: i32) -> bool {
    status & STATUS_CONNECTED_FLAG != 0
}

impl Header {
    /// `self` is what the first `HEADER_LEN` bytes of `b` say.
    pub open spec fn read_from(self, b: Seq<u8>) -> bool {
        &&& b.len() >= HEADER_LEN
        &&& self.ver == le_i32(b, 0)
        &&& self.status == le_i32(b, 4)
        &&& self.tick_rate == le_i32(b, 8)
        &&& self.session_info_update == le_i32(b, 12)
        &&& self.session_info_len == le_i32(b, 16)
        &&& self.session_info_offset == le_i32(b, 20)
        &&& self.num_vars == le_i32(b, 24)
        &&& self.var_header_offset == le_i32(b, 28)
        &&& self.num_buf == le_i32(b, 32)
        &&& self.buf_len == le_i32(b, 36)
        &&& forall|i: int| 0 <= i < MAX_BUFS ==> #[trigger] self.var_buf@[i] == var_buf_at(b, i)
    }

    /// The tick count of buffer `i`.
    pub open spec fn tick(self, i: int) -> i32 {
        self.var_buf@[i].tick_count
    }

    /// The buffers in use are all described: `num_buf` lies in `0..=MAX_BUFS`.
    pub open spec fn buffers_in_range(self) -> bool {
        0 <= self.num_buf <= MAX_BUFS
    }

    /// Reads the header from a snapshot of the shared memory; `None` when the
    /// snapshot is shorter than the header.
    pub fn parse(mem: &[u8]) -> (r: Option<Header>)
        ensures
            r is Some <==> mem@.len() >= HEADER_LEN,
            r matches Some(h) ==> h.read_from(mem@),
    {
        if mem.len() < HEADER_LEN {
            return None;
        }
        let var_buf = [
            read_var_buf(mem, 0),
            read_var_buf(mem, 1),
            read_var_buf(mem, 2),
            read_var_buf(mem, 3),
        ];
        let h = Header {
            ver: read_i32_le(mem, 0),
            status: read_i32_le(mem, 4),
            tick_rate: read_i32_le(mem, 8),
            session_info_update: read_i32_le(mem, 12),
            session_info_len: read_i32_le(mem, 16),
            session_info_offset: read_i32_le(mem, 20),
            num_vars: read_i32_le(mem, 24),
            var_header_offset: read_i32_le(mem, 28),
            num_buf: read_i32_le(mem, 32),
            buf_len: read_i32_le(mem, 36),
            var_buf,
        };
        assert(forall|i: int| 0 <= i < MAX_BUFS ==> #[trigger] h.var_buf@[i] == var_buf_at(mem@, i));
        Some(h)
    }

    /// Whether the simulator is running, from the status bit.
    pub fn is_header_connected(&self) -> (r: bool)
        ensures
            r == status_connected(self.status),
    {
        self.status & STATUS_CONNECTED_FLAG != 0
    }
}

/// Reads the descriptor of buffer `i`.
fn read_var_buf(mem: &[u8], i: usize) -> (v: VarBuf)
    requires
        i < MAX_BUFS,
        mem@.len() >= HEADER_LEN,
    ensures
        v == var_buf_at(mem@, i as int),
{
    let at: usize = VAR_BUF_START + VAR_BUF_LEN * i;
    VarBuf { tick_count: read_i32_le(mem, at), buf_offset: read_i32_le(mem, at + 4) }
}

/// Bytes after the header do not change what it says: two snapshots that agree
/// on their first `HEADER_LEN` bytes describe the same header.
pub proof fn lemma_header_reads_only_its_bytes(h: Header, a: Seq<u8>, b: Seq<u8>)
    requires
        a.len() >= HEADER_LEN,
        b.len() >= HEADER_LEN,
        forall|k: int| 0 <= k < HEADER_LEN ==> #[trigger] a[k] == b[k],
    ensures
        h.read_from(a) <==> h.read_from(b),
{
    assert forall|at: int| 0 <= at && at + 4 <= HEADER_LEN implies #[trigger] le_i32(a, at) == le_i32(
        b,
        at,
    ) by {
        assert(a[at] == b[at]);
        assert(a[at + 1] == b[at + 1]);
        assert(a[at + 2] == b[at + 2]);
        assert(a[at + 3] == b[at + 3]);
    }
    assert forall|i: int| 0 <= i < MAX_BUFS implies #[trigger] var_buf_at(a, i) == var_buf_at(b, i) by {
        assert(le_i32(a, VAR_BUF_START + VAR_BUF_LEN * i) == le_i32(b, VAR_BUF_START + VAR_BUF_LEN * i));
        assert(le_i32(a, VAR_BUF_START + VAR_BUF_LEN * i + 4) == le_i32(
            b,
            VAR_BUF_START + VAR_BUF_LEN * i + 4,
        ));
    }
    assert(le_i32(a, 0) == le_i32(b, 0));
    assert(le_i32(a, 4) == le_i32(b, 4));
    assert(le_i32(a, 8) == le_i32(b, 8));
    assert(le_i32(a, 12) == le_i32(b, 12));
    assert(le_i32(a, 16) == le_i32(b, 16));
    assert(le_i32(a, 20) == le_i32(b, 20));
    assert(le_i32(a, 24) == le_i32(b, 24));
    assert(le_i32(a, 28) == le_i32(b, 28));
    assert(le_i32(a, 32) == le_i32(b, 32));
    assert(le_i32(a, 36) == le_i32(b, 36));
}

/// Bytes taken by one variable descriptor in the shared memory.
pub const VAR_HEADER_LEN: usize = 144;

/// `offset..offset + len` is a region of a snapshot of `mem_len` bytes.
pub open spec fn region_within(mem_len: int, offset: int, len: int) -> bool {
    0 <= offset && 0 <= len && offset + len <= mem_len
}

/// The bytes `offset..offset + len` of the snapshot; `None` when the region is
/// not inside it (a negative offset or length, or one that runs past its end).
pub fn byte_region(mem: &[u8], offset: i64, len: i64) -> (r: Option<Vec<u8>>)
    ensures
        r is Some <==> region_within(mem@.len() as int, offset as int, len as int),
        r matches Some(v) ==> v@ == mem@.subrange(offset as int, offset + len),
{
    if offset < 0 || len < 0 {
        return None;
    }
    let start: u64 = offset as u64;
    let count: u64 = len as u64;
    if start + count > mem.len() as u64 {
        return None;
    }
    let part = slice_subrange(mem, start as usize, (start + count) as usize);
    Some(slice_to_vec(part))
}

impl Header {
    /// The telemetry row of buffer `idx`: `buf_len` bytes at its offset.
    pub fn data(&self, mem: &[u8], idx: usize) -> (r: Option<Vec<u8>>)
        requires
            idx < MAX_BUFS,
        ensures
            r is Some <==> region_within(
                mem@.len() as int,
                self.var_buf@[idx as int].buf_offset as int,
                self.buf_len as int,
            ),
            r matches Some(v) ==> v@ == mem@.subrange(
                self.var_buf@[idx as int].buf_offset as int,
                self.var_buf@[idx as int].buf_offset + self.buf_len,
            ),
    {
        byte_region(mem, self.var_buf[idx].buf_offset as i64, self.buf_len as i64)
    }

    /// The raw session-info document: `session_info_len` bytes at its offset.
    pub fn raw_session_info(&self, mem: &[u8]) -> (r: Option<Vec<u8>>)
        ensures
            r is Some <==> region_within(
                mem@.len() as int,
                self.session_info_offset as int,
                self.session_info_len as int,
            ),
            r matches Some(v) ==> v@ == mem@.subrange(
                self.session_info_offset as int,
                self.session_info_offset + self.session_info_len,
            ),
    {
        byte_region(mem, self.session_info_offset as i64, self.session_info_len as i64)
    }

    /// The `num_vars` variable descriptors, `VAR_HEADER_LEN` bytes each, that
    /// start at `var_header_offset`.
    pub fn raw_var_headers(&self, mem: &[u8]) -> (r: Option<Vec<u8>>)
        ensures
            r is Some <==> region_within(
                mem@.len() as int,
                self.var_header_offset as int,
                self.num_vars * VAR_HEADER_LEN,
            ),
            r matches Some(v) ==> v@ == mem@.subrange(
                self.var_header_offset as int,
                self.var_header_offset + self.num_vars * VAR_HEADER_LEN,
            ),
    {
        let len: i64 = (self.num_vars as i64) * (VAR_HEADER_LEN as i64);
        byte_region(mem, self.var_header_offset as i64, len)
    }
}

} // verus!
