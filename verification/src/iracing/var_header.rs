//! The variable descriptors of the shared-memory file: what each telemetry
//! value is called, where it sits in a row and of which type it is.

use vstd::prelude::*;
use vstd::slice::slice_subrange;
use crate::iracing::header::{Header, VAR_HEADER_LEN, le_i32, read_i32_le, region_within};
use crate::utils::{cp1252_text, cp1252_to_string};

verus! {

/// Offsets, within one descriptor, of its text fields and their ends.
pub const NAME_START: usize = 16;
pub const DESC_START: usize = 48;
pub const UNIT_START: usize = 112;

/// The type of a telemetry value.
#[derive(Clone, Copy, Debug, PartialEq, Eq)]
pub enum VarType {
    Char,
    Bool,
    Int,
    BitField,
    Float,
    Double,
}

/// The type that the code `code` of a descriptor names; codes 0 to 5 in the
/// order of `VarType`.
pub open spec fn var_type_of(code: i32) -> Option<VarType> {
    if code == 0 {
        Some(VarType::Char)
    } else if code == 1 {
        Some(VarType::Bool)
    } else if code == 2 {
        Some(VarType::Int)
    } else if code == 3 {
        Some(VarType::BitField)
    } else if code == 4 {
        Some(VarType::Float)
    } else if code == 5 {
        Some(VarType::Double)
    } else {
        None
    }
}

/// The type named by a descriptor's type code.
pub fn var_type_from_code(code: i32) -> (r: Option<VarType>)
    ensures
        r == var_type_of(code),
{
    match code {
        0 => Some(VarType::Char),
        1 => Some(VarType::Bool),
        2 => Some(VarType::Int),
        3 => Some(VarType::BitField),
        4 => Some(VarType::Float),
        5 => Some(VarType::Double),
        _ => None,
    }
}

/// Why a descriptor was not read.
#[derive(Debug, PartialEq, Eq)]
pub enum VarHeaderError {
    /// The type code names no known type.
    UnknownType(i32),
}

/// One variable descriptor.
#[derive(Debug)]
pub struct VarHeader {
    pub var_type: VarType,
    /// Offset of the value within a telemetry row.
    pub offset: i32,
    /// Number of entries (1 unless the value is an array).
    pub count: i32,
    pub count_as_time: bool,
    pub name: String,
    pub description: String,
    pub unit: String,
}

impl VarHeader {
    /// `self` is what the descriptor bytes `b` say.
    pub open spec fn read_from(self, b: Seq<u8>) -> bool {
        &&& b.len() == VAR_HEADER_LEN
        &&& var_type_of(le_i32(b, 0)) == Some(self.var_type)
        &&& self.offset == le_i32(b, 4)
        &&& self.count == le_i32(b, 8)
        &&& self.count_as_time == (b[12] != 0)
        &&& cp1252_text(b.subrange(NAME_START as int, DESC_START as int), self.name@)
        &&& cp1252_text(b.subrange(DESC_START as int, UNIT_START as int), self.description@)
        &&& cp1252_text(b.subrange(UNIT_START as int, VAR_HEADER_LEN as int), self.unit@)
    }

    /// Reads one descriptor; refused when its type code is unknown.
    pub fn from_raw(raw: &[u8]) -> (r: Result<VarHeader, VarHeaderError>)
        requires
            raw@.len() == VAR_HEADER_LEN,
        ensures
            r is Err <==> var_type_of(le_i32(raw@, 0)) is None,
            r matches Err(e) ==> e == VarHeaderError::UnknownType(le_i32(raw@, 0)),
            r matches Ok(h) ==> h.read_from(raw@),
    {
        let code: i32 = read_i32_le(raw, 0);
        let var_type = match var_type_from_code(code) {
            Some(t) => t,
            None => {
                return Err(VarHeaderError::UnknownType(code));
            },
        };
        Ok(VarHeader {
            var_type,
            offset: read_i32_le(raw, 4),
            count: read_i32_le(raw, 8),
            count_as_time: raw[12] != 0,
            name: cp1252_to_string(slice_subrange(raw, NAME_START, DESC_START)),
            description: cp1252_to_string(slice_subrange(raw, DESC_START, UNIT_START)),
            unit: cp1252_to_string(slice_subrange(raw, UNIT_START, VAR_HEADER_LEN)),
        })
    }
}

/// Descriptor `k` of the descriptor block `b`.
pub open spec fn record(b: Seq<u8>, k: int) -> Seq<u8> {
    b.subrange(k * VAR_HEADER_LEN, k * VAR_HEADER_LEN + VAR_HEADER_LEN)
}

/// Descriptor `k` of `b` has a known type code.
pub open spec fn readable(b: Seq<u8>, k: int) -> bool {
    var_type_of(le_i32(record(b, k), 0)) is Some
}

/// `out` holds, in order, the readable ones among the first `n` descriptors of
/// `b`, each read from its bytes; the others are left out.
pub open spec fn readable_prefix(out: Seq<VarHeader>, b: Seq<u8>, n: int) -> bool
    decreases n,
{
    if n <= 0 {
        out.len() == 0
    } else if readable(b, n - 1) {
        &&& out.len() > 0
        &&& out.last().read_from(record(b, n - 1))
        &&& readable_prefix(out.drop_last(), b, n - 1)
    } else {
        readable_prefix(out, b, n - 1)
    }
}

/// The variable descriptors of the snapshot `mem`, in order, without those of
/// unknown type; `None` when the descriptor block is not inside the snapshot.
pub fn read_var_headers(header: &Header, mem: &[u8]) -> (r: Option<Vec<VarHeader>>)
    ensures
        r is Some <==> region_within(
            mem@.len() as int,
            header.var_header_offset as int,
            header.num_vars * VAR_HEADER_LEN,
        ),
        r matches Some(v) ==> readable_prefix(
            v@,
            mem@.subrange(
                header.var_header_offset as int,
                header.var_header_offset + header.num_vars * VAR_HEADER_LEN,
            ),
            header.num_vars as int,
        ),
{
    let block = match header.raw_var_headers(mem) {
        Some(b) => b,
        None => {
            return None;
        },
    };
    let n: usize = header.num_vars as usize;
    assert(block@.len() == n * VAR_HEADER_LEN);
    let mut out: Vec<VarHeader> = Vec::new();
    let mut k: usize = 0;
    while k < n
        invariant
            n == header.num_vars,
            block@.len() == n * VAR_HEADER_LEN,
            k <= n,
            readable_prefix(out@, block@, k as int),
        decreases n - k,
    {
        assert((k + 1) * VAR_HEADER_LEN <= n * VAR_HEADER_LEN) by (nonlinear_arith)
            requires
                k < n,
        ;
        let blen: usize = block.len();
        assert(k * VAR_HEADER_LEN <= blen) by (nonlinear_arith)
            requires
                k < n,
                blen == n * VAR_HEADER_LEN,
        ;
        let start: usize = k * VAR_HEADER_LEN;
        let raw = slice_subrange(block.as_slice(), start, start + VAR_HEADER_LEN);
        assert(raw@ == record(block@, k as int));
        let ghost before = out@;
        match VarHeader::from_raw(raw) {
            Ok(h) => {
                out.push(h);
                assert(out@.drop_last() == before);
            },
            Err(_) => {},
        }
        k = k + 1;
    }
    Some(out)
}

/// Descriptor `i` is the last of the first `upto` descriptors of `s` that has
/// its name.
pub open spec fn is_last_named(s: Seq<VarHeader>, upto: int, i: int) -> bool {
    &&& 0 <= i < upto
    &&& forall|k: int| i < k < upto ==> (#[trigger] s[k]).name@ != s[i].name@
}

/// `out` is `s[from..]` keyed by name: no two entries of `out` share a name,
/// every name of `s[from..]` has an entry, and each entry is the last
/// descriptor of `s` with its name (a later one replaces an earlier one, as
/// inserting them in order into a map does).
pub open spec fn keyed_by_name(out: Seq<VarHeader>, s: Seq<VarHeader>, from: int) -> bool {
    &&& forall|a: int, b: int|
        0 <= a < b < out.len() ==> (#[trigger] out[a]).name@ != (#[trigger] out[b]).name@
    &&& forall|j: int|
        #![trigger out[j]]
        0 <= j < out.len() ==> exists|i: int|
            from <= i && #[trigger] is_last_named(s, s.len() as int, i) && s[i] == out[j]
    &&& forall|i: int|
        #![trigger s[i]]
        from <= i < s.len() ==> exists|j: int|
            0 <= j < out.len() && #[trigger] out[j].name@ == (#[trigger] s[i]).name@
}

/// Whether some descriptor of `out` is named `name`.
fn has_name(out: &Vec<VarHeader>, name: &String) -> (r: bool)
    ensures
        r <==> exists|j: int| 0 <= j < out@.len() && #[trigger] out@[j].name@ == name@,
{
    let mut j: usize = 0;
    while j < out.len()
        invariant
            j <= out@.len(),
            forall|k: int| 0 <= k < j ==> (#[trigger] out@[k]).name@ != name@,
        decreases out@.len() - j,
    {
        if out[j].name == *name {
            return true;
        }
        j = j + 1;
    }
    false
}

/// Adding the descriptor `s[from]`, whose name `out` lacks, to `out` keyed
/// from `from + 1` gives `s[from..]` keyed.
proof fn lemma_keyed_push(out: Seq<VarHeader>, s: Seq<VarHeader>, from: int)
    requires
        0 <= from < s.len(),
        keyed_by_name(out, s, from + 1),
        forall|j: int| 0 <= j < out.len() ==> (#[trigger] out[j]).name@ != s[from].name@,
    ensures
        keyed_by_name(out.push(s[from]), s, from),
{
    let next = out.push(s[from]);
    assert forall|k: int| from < k < s.len() implies (#[trigger] s[k]).name@ != s[from].name@ by {
        let j = choose|j: int| 0 <= j < out.len() && #[trigger] out[j].name@ == (#[trigger] s[k]).name@;
    }
    assert(is_last_named(s, s.len() as int, from));
    assert forall|j: int| #![trigger next[j]] 0 <= j < next.len() implies exists|i: int|
        from <= i && #[trigger] is_last_named(s, s.len() as int, i) && s[i] == next[j] by {
        if j < out.len() {
            assert(next[j] == out[j]);
        } else {
            assert(next[j] == s[from]);
        }
    }
    assert forall|i: int| #![trigger s[i]] from <= i < s.len() implies exists|j: int|
        0 <= j < next.len() && #[trigger] next[j].name@ == (#[trigger] s[i]).name@ by {
        if i == from {
            assert(next[out.len() as int] == s[from]);
        } else {
            let j = choose|j: int| 0 <= j < out.len() && #[trigger] out[j].name@ == (#[trigger] s[i]).name@;
            assert(next[j] == out[j]);
        }
    }
    assert forall|a: int, b: int| 0 <= a < b < next.len() implies (#[trigger] next[a]).name@
        != (#[trigger] next[b]).name@ by {
        assert(next[a] == out[a]);
        if b < out.len() {
            assert(next[b] == out[b]);
        }
    }
}

/// When `out` already has the name of `s[from]`, it is `s[from..]` keyed as
/// soon as it is `s[from + 1..]` keyed.
proof fn lemma_keyed_skip(out: Seq<VarHeader>, s: Seq<VarHeader>, from: int)
    requires
        0 <= from < s.len(),
        keyed_by_name(out, s, from + 1),
        exists|j: int| 0 <= j < out.len() && #[trigger] out[j].name@ == s[from].name@,
    ensures
        keyed_by_name(out, s, from),
{
    let j0 = choose|j: int| 0 <= j < out.len() && #[trigger] out[j].name@ == s[from].name@;
    assert forall|i: int| #![trigger s[i]] from <= i < s.len() implies exists|j: int|
        0 <= j < out.len() && #[trigger] out[j].name@ == (#[trigger] s[i]).name@ by {
        if i == from {
            assert(out[j0].name@ == s[i].name@);
        }
    }
    assert forall|j: int| #![trigger out[j]] 0 <= j < out.len() implies exists|i: int|
        from <= i && #[trigger] is_last_named(s, s.len() as int, i) && s[i] == out[j] by {
        let i = choose|i: int| from + 1 <= i && #[trigger] is_last_named(s, s.len() as int, i) && s[i] == out[j];
    }
}

/// The descriptors keyed by name, where of equal names the last one counts.
pub fn index_by_name(headers: Vec<VarHeader>) -> (out: Vec<VarHeader>)
    ensures
        keyed_by_name(out@, headers@, 0),
{
    let ghost all = headers@;
    let mut rest = headers;
    let mut out: Vec<VarHeader> = Vec::new();
    while rest.len() > 0
        invariant
            rest@.len() <= all.len(),
            rest@ == all.subrange(0, rest@.len() as int),
            keyed_by_name(out@, all, rest@.len() as int),
        decreases rest@.len(),
    {
        let ghost from = rest@.len() - 1;
        let h = rest.pop().unwrap();
        assert(h == all[from]);
        assert(rest@ == all.subrange(0, from));
        if !has_name(&out, &h.name) {
            proof {
                lemma_keyed_push(out@, all, from);
            }
            out.push(h);
        } else {
            proof {
                lemma_keyed_skip(out@, all, from);
            }
        }
    }
    out
}

/// The variable descriptors of the snapshot `mem` keyed by name, of equal
/// names the last one, without those of unknown type; `None` when the
/// descriptor block is not inside the snapshot.
pub fn get_var_headers(header: &Header, mem: &[u8]) -> (r: Option<Vec<VarHeader>>)
    ensures
        r is Some <==> region_within(
            mem@.len() as int,
            header.var_header_offset as int,
            header.num_vars * VAR_HEADER_LEN,
        ),
        r matches Some(v) ==> exists|read: Seq<VarHeader>|
            #[trigger] readable_prefix(
                read,
                mem@.subrange(
                    header.var_header_offset as int,
                    header.var_header_offset + header.num_vars * VAR_HEADER_LEN,
                ),
                header.num_vars as int,
            ) && keyed_by_name(v@, read, 0),
{
    match read_var_headers(header, mem) {
        Some(read) => Some(index_by_name(read)),
        None => None,
    }
}

} // verus!
