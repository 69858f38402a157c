use vstd::prelude::*;

use crate::wire::{le_u32, le_u64, push_bytes, push_u32, push_u64, read_bytes, read_u32, read_u64};

verus! {

/// Wire type of one datum of a record, a closed set fixed by the host.
#[derive(Debug, Clone, Copy, PartialEq, Eq, Structural)]
pub enum DataType {
    Int32,
    Int64,
    Float32,
    Float64,
    /// Three consecutive 64-bit floats.
    Xyz,
    /// Fixed-size opaque blobs (fixed-length strings on the host side).
    String8,
    String32,
    String64,
    String128,
    String256,
    String260,
}

impl DataType {
    pub open spec fn spec_size(self) -> nat {
        match self {
            DataType::Int32 => 4,
            DataType::Int64 => 8,
            DataType::Float32 => 4,
            DataType::Float64 => 8,
            DataType::Xyz => 24,
            DataType::String8 => 8,
            DataType::String32 => 32,
            DataType::String64 => 64,
            DataType::String128 => 128,
            DataType::String256 => 256,
            DataType::String260 => 260,
        }
    }

    pub open spec fn spec_code(self) -> u32 {
        match self {
            DataType::Int32 => 1,
            DataType::Int64 => 2,
            DataType::Float32 => 3,
            DataType::Float64 => 4,
            DataType::String8 => 5,
            DataType::String32 => 6,
            DataType::String64 => 7,
            DataType::String128 => 8,
            DataType::String256 => 9,
            DataType::String260 => 10,
            DataType::Xyz => 16,
        }
    }

    /// Number of bytes a datum of this type occupies in a record.
    pub fn size(self) -> (r: usize)
        ensures
            r == self.spec_size(),
    {
        match self {
            DataType::Int32 => 4,
            DataType::Int64 => 8,
            DataType::Float32 => 4,
            DataType::Float64 => 8,
            DataType::Xyz => 24,
            DataType::String8 => 8,
            DataType::String32 => 32,
            DataType::String64 => 64,
            DataType::String128 => 128,
            DataType::String256 => 256,
            DataType::String260 => 260,
        }
    }

    /// The host's numeric tag for this type.
    pub fn code(self) -> (r: u32)
        ensures
            r == self.spec_code(),
    {
        match self {
            DataType::Int32 => 1,
            DataType::Int64 => 2,
            DataType::Float32 => 3,
            DataType::Float64 => 4,
            DataType::String8 => 5,
            DataType::String32 => 6,
            DataType::String64 => 7,
            DataType::String128 => 8,
            DataType::String256 => 9,
            DataType::String260 => 10,
            DataType::Xyz => 16,
        }
    }
}

/// One datum of a record: the host's name for the value, its unit, the
/// change tolerance below which the host does not report it (the bits of a
/// 32-bit float; zero reports every change), and its wire type.
#[derive(Debug, Clone)]
pub struct DatumDefinition {
    pub name: String,
    pub units: String,
    pub epsilon_bits: u32,
    pub datatype: DataType,
}

/// The description of a record type: its identity and its datums in wire
/// order.
#[derive(Debug, Clone)]
pub struct DataDefinition {
    pub key: u64,
    pub datums: Vec<DatumDefinition>,
}

/// Bytes that the datums occupy, laid out back to back in declaration order.
pub open spec fn record_size(datums: Seq<DatumDefinition>) -> nat
    decreases datums.len(),
{
    if datums.len() == 0 {
        0
    } else {
        record_size(datums.drop_last()) + datums.last().datatype.spec_size()
    }
}

/// Where datum `i` starts in a record.
pub open spec fn datum_offset(datums: Seq<DatumDefinition>, i: int) -> nat {
    record_size(datums.subrange(0, i))
}

/// A decoded datum. Floats are carried as their IEEE-754 bits.
#[derive(Debug, Clone)]
pub enum DataValue {
    Int32(i32),
    Int64(i64),
    Float32(u32),
    Float64(u64),
    Xyz(u64, u64, u64),
    Bytes(Vec<u8>),
}

/// Whether `v` is the datum of type `t` stored at `off` in `b`.
pub open spec fn decodes_to(v: DataValue, t: DataType, b: Seq<u8>, off: int) -> bool {
    match t {
        DataType::Int32 => v == DataValue::Int32(le_u32(b, off) as i32),
        DataType::Int64 => v == DataValue::Int64(le_u64(b, off) as i64),
        DataType::Float32 => v == DataValue::Float32(le_u32(b, off) as u32),
        DataType::Float64 => v == DataValue::Float64(le_u64(b, off) as u64),
        DataType::Xyz => v == DataValue::Xyz(
            le_u64(b, off) as u64,
            le_u64(b, off + 8) as u64,
            le_u64(b, off + 16) as u64,
        ),
        _ => match v {
            DataValue::Bytes(x) => x@ == b.subrange(off, off + t.spec_size()),
            _ => false,
        },
    }
}

/// Whether `values` is the record described by `datums` read from `b`.
pub open spec fn record_decodes_to(
    values: Seq<DataValue>,
    datums: Seq<DatumDefinition>,
    b: Seq<u8>,
) -> bool {
    &&& values.len() == datums.len()
    &&& forall|i: int|
        0 <= i < datums.len() ==> decodes_to(
            #[trigger] values[i],
            datums[i].datatype,
            b,
            datum_offset(datums, i) as int,
        )
}

pub proof fn lemma_prefix_size(datums: Seq<DatumDefinition>, i: int)
    requires
        0 <= i <= datums.len(),
    ensures
        datum_offset(datums, i) <= record_size(datums),
    decreases datums.len(),
{
    if i < datums.len() {
        let d = datums.drop_last();
        assert(d.subrange(0, i) =~= datums.subrange(0, i));
        lemma_prefix_size(d, i);
        assert(datums.subrange(0, datums.len() as int) =~= datums);
    } else {
        assert(datums.subrange(0, i) =~= datums);
    }
}

/// Reads one datum of type `t` at `off`.
pub fn decode_datum(t: DataType, buf: &[u8], off: usize) -> (r: DataValue)
    requires
        off + t.spec_size() <= buf@.len(),
    ensures
        decodes_to(r, t, buf@, off as int),
{
    let _n = buf.len();
    match t {
        DataType::Int32 => DataValue::Int32(#[verifier::truncate] (read_u32(buf, off) as i32)),
        DataType::Int64 => DataValue::Int64(#[verifier::truncate] (read_u64(buf, off) as i64)),
        DataType::Float32 => DataValue::Float32(read_u32(buf, off)),
        DataType::Float64 => DataValue::Float64(read_u64(buf, off)),
        DataType::Xyz => DataValue::Xyz(
            read_u64(buf, off),
            read_u64(buf, off + 8),
            read_u64(buf, off + 16),
        ),
        _ => DataValue::Bytes(read_bytes(buf, off, t.size())),
    }
}

/// Decodes a record laid out as `datums` describes from the front of
/// `payload`; `None` when the payload is shorter than the record.
pub fn decode_record(datums: &[DatumDefinition], payload: &[u8]) -> (r: Option<Vec<DataValue>>)
    ensures
        r is Some <==> record_size(datums@) <= payload@.len(),
        r matches Some(values) ==> record_decodes_to(values@, datums@, payload@),
{
    let n = payload.len();
    let mut values: Vec<DataValue> = Vec::new();
    let mut off: usize = 0;
    let mut i: usize = 0;
    while i < datums.len()
        invariant
            n == payload@.len(),
            i <= datums@.len(),
            off == datum_offset(datums@, i as int),
            off <= n,
            values@.len() == i,
            forall|j: int|
                0 <= j < i ==> decodes_to(
                    #[trigger] values@[j],
                    datums@[j].datatype,
                    payload@,
                    datum_offset(datums@, j) as int,
                ),
        decreases datums@.len() - i,
    {
        let t = datums[i].datatype;
        let size = t.size();
        assert(datums@.subrange(0, i + 1).drop_last() =~= datums@.subrange(0, i as int));
        if size > n - off {
            proof {
                lemma_prefix_size(datums@, i + 1);
            }
            return None;
        }
        let v = decode_datum(t, payload, off);
        values.push(v);
        off = off + size;
        i = i + 1;
    }
    assert(datums@.subrange(0, i as int) =~= datums@);
    Some(values)
}

/// Whether `t` is one of the fixed-size blob types.
pub open spec fn is_blob(t: DataType) -> bool {
    match t {
        DataType::Int32 | DataType::Int64 | DataType::Float32 | DataType::Float64 | DataType::Xyz => false,
        _ => true,
    }
}

/// Whether `v` is a value of wire type `t`.
pub open spec fn value_fits(v: DataValue, t: DataType) -> bool {
    match v {
        DataValue::Int32(_) => t == DataType::Int32,
        DataValue::Int64(_) => t == DataType::Int64,
        DataValue::Float32(_) => t == DataType::Float32,
        DataValue::Float64(_) => t == DataType::Float64,
        DataValue::Xyz(..) => t == DataType::Xyz,
        DataValue::Bytes(x) => is_blob(t) && x@.len() == t.spec_size(),
    }
}

/// Whether `values` is a record of the type `datums` describes.
pub open spec fn record_fits(values: Seq<DataValue>, datums: Seq<DatumDefinition>) -> bool {
    &&& values.len() == datums.len()
    &&& forall|i: int| 0 <= i < datums.len() ==> value_fits(#[trigger] values[i], datums[i].datatype)
}

/// Whether two records hold the same values: blobs are compared by their
/// bytes.
pub open spec fn same_record(x: Seq<DataValue>, y: Seq<DataValue>) -> bool {
    &&& x.len() == y.len()
    &&& forall|i: int|
        0 <= i < x.len() ==> (#[trigger] x[i] == y[i] || (x[i] matches DataValue::Bytes(a) && y[i] matches DataValue::Bytes(
            b,
        ) && a@ == b@))
}

/// A datum ends where the next begins, and no later than any later one
/// starts.
pub proof fn lemma_offset_bound(datums: Seq<DatumDefinition>, j: int, i: int)
    requires
        0 <= j < i <= datums.len(),
    ensures
        datum_offset(datums, j) + datums[j].datatype.spec_size() <= datum_offset(datums, i),
{
    let p = datums.subrange(0, i);
    assert(datums.subrange(0, j + 1).drop_last() =~= datums.subrange(0, j));
    assert(p.subrange(0, j + 1) =~= datums.subrange(0, j + 1));
    lemma_prefix_size(p, j + 1);
    assert(p.subrange(0, p.len() as int) =~= p);
}

/// Bytes appended after a datum do not change what it decodes to.
pub proof fn lemma_decodes_extend(v: DataValue, t: DataType, b: Seq<u8>, c: Seq<u8>, off: int)
    requires
        decodes_to(v, t, b, off),
        0 <= off,
        off + t.spec_size() <= b.len() <= c.len(),
        c.subrange(0, b.len() as int) == b,
    ensures
        decodes_to(v, t, c, off),
{
    assert forall|k: int| 0 <= k < b.len() implies c[k] == b[k] by {
        assert(c.subrange(0, b.len() as int)[k] == c[k]);
    }
    assert(c.subrange(off, off + t.spec_size()) =~= b.subrange(off, off + t.spec_size()));
}

/// Appends datum `v` as type `t` lays it out; `false`, with nothing
/// appended, when `v` is not a value of that type.
pub fn encode_datum(out: &mut Vec<u8>, v: &DataValue, t: DataType) -> (r: bool)
    ensures
        r == value_fits(*v, t),
        r ==> final(out)@.len() == old(out)@.len() + t.spec_size(),
        r ==> final(out)@.subrange(0, old(out)@.len() as int) == old(out)@,
        r ==> decodes_to(*v, t, final(out)@, old(out)@.len() as int),
        !r ==> final(out)@ == old(out)@,
{
    let ghost n = old(out)@.len() as int;
    match v {
        DataValue::Int32(x) => {
            if t != DataType::Int32 {
                return false;
            }
            let x = *x;
            push_u32(out, x as u32);
            assert((x as u32) as i32 == x) by (bit_vector);
            true
        },
        DataValue::Int64(x) => {
            if t != DataType::Int64 {
                return false;
            }
            let x = *x;
            push_u64(out, x as u64);
            assert((x as u64) as i64 == x) by (bit_vector);
            true
        },
        DataValue::Float32(x) => {
            if t != DataType::Float32 {
                return false;
            }
            push_u32(out, *x);
            true
        },
        DataValue::Float64(x) => {
            if t != DataType::Float64 {
                return false;
            }
            push_u64(out, *x);
            true
        },
        DataValue::Xyz(a, b, c) => {
            if t != DataType::Xyz {
                return false;
            }
            push_u64(out, *a);
            let ghost s1 = out@;
            push_u64(out, *b);
            let ghost s2 = out@;
            push_u64(out, *c);
            proof {
                assert forall|k: int| 0 <= k < n + 16 implies out@[k] == s2[k] by {
                    assert(out@.subrange(0, n + 16)[k] == out@[k]);
                }
                assert forall|k: int| 0 <= k < n + 8 implies s2[k] == s1[k] by {
                    assert(s2.subrange(0, n + 8)[k] == s2[k]);
                }
                assert forall|k: int| 0 <= k < n implies s1[k] == old(out)@[k] by {
                    assert(s1.subrange(0, n)[k] == s1[k]);
                }
                assert(out@.subrange(0, n) =~= old(out)@);
            }
            true
        },
        DataValue::Bytes(x) => {
            let blob = match t {
                DataType::Int32 | DataType::Int64 | DataType::Float32 | DataType::Float64 | DataType::Xyz => false,
                _ => true,
            };
            if !blob || x.len() != t.size() {
                return false;
            }
            push_bytes(out, x.as_slice());
            assert(out@.subrange(0, n) =~= old(out)@);
            assert(out@.subrange(n, n + t.spec_size()) =~= x@);
            true
        },
    }
}

/// Lays out a record as `datums` describes it, datum after datum in
/// declaration order; `None` when `values` is not a record of that type.
/// Decoding the result under the same description gives the values back.
pub fn encode_record(datums: &[DatumDefinition], values: &[DataValue]) -> (r: Option<Vec<u8>>)
    ensures
        r is Some <==> record_fits(values@, datums@),
        r matches Some(b) ==> b@.len() == record_size(datums@) && record_decodes_to(values@, datums@, b@),
{
    if values.len() != datums.len() {
        return None;
    }
    let mut out: Vec<u8> = Vec::new();
    let mut i: usize = 0;
    while i < datums.len()
        invariant
            values@.len() == datums@.len(),
            i <= datums@.len(),
            out@.len() == datum_offset(datums@, i as int),
            forall|j: int| 0 <= j < i ==> value_fits(#[trigger] values@[j], datums@[j].datatype),
            forall|j: int|
                0 <= j < i ==> decodes_to(
                    #[trigger] values@[j],
                    datums@[j].datatype,
                    out@,
                    datum_offset(datums@, j) as int,
                ),
        decreases datums@.len() - i,
    {
        let ghost before = out@;
        let t = datums[i].datatype;
        if !encode_datum(&mut out, &values[i], t) {
            return None;
        }
        proof {
            assert(datums@.subrange(0, i + 1).drop_last() =~= datums@.subrange(0, i as int));
            assert forall|j: int| 0 <= j < i implies decodes_to(
                #[trigger] values@[j],
                datums@[j].datatype,
                out@,
                datum_offset(datums@, j) as int,
            ) by {
                lemma_offset_bound(datums@, j, i as int);
                lemma_decodes_extend(values@[j], datums@[j].datatype, before, out@, datum_offset(datums@, j) as int);
            }
        }
        i = i + 1;
    }
    assert(datums@.subrange(0, i as int) =~= datums@);
    Some(out)
}

/// Decoding is exact: two records read from the same bytes under the same
/// description are the same record. With the contracts of `encode_record`
/// and `decode_record`, decoding an encoded record gives back its values.
pub proof fn lemma_decode_unique(datums: Seq<DatumDefinition>, b: Seq<u8>, x: Seq<DataValue>, y: Seq<DataValue>)
    requires
        record_decodes_to(x, datums, b),
        record_decodes_to(y, datums, b),
    ensures
        same_record(x, y),
{
    assert forall|i: int| 0 <= i < x.len() implies (#[trigger] x[i] == y[i] || (x[i] matches DataValue::Bytes(
        p,
    ) && y[i] matches DataValue::Bytes(q) && p@ == q@)) by {
        assert(decodes_to(x[i], datums[i].datatype, b, datum_offset(datums, i) as int));
        assert(decodes_to(y[i], datums[i].datatype, b, datum_offset(datums, i) as int));
    }
}

/// One member of a client data area: where it starts, how many bytes it
/// spans, and its change tolerance (the bits of a 32-bit float).
#[derive(Debug, Clone, Copy, PartialEq, Eq, Structural)]
pub struct ClientDatum {
    pub offset: u32,
    pub size: u32,
    pub epsilon_bits: u32,
}

/// The description of a client data type: its identity, its size in
/// bytes, and its members, each lying within that size.
#[derive(Debug, Clone)]
pub struct ClientDataDefinition {
    pub key: u64,
    pub size: u32,
    pub datums: Vec<ClientDatum>,
}

impl ClientDataDefinition {
    pub open spec fn wf(&self) -> bool {
        forall|i: int|
            0 <= i < self.datums@.len() ==> self.datums@[i].offset + self.datums@[i].size
                <= self.size
    }

    /// Whether every member lies within the area.
    pub fn members_fit(&self) -> (r: bool)
        ensures
            r == self.wf(),
    {
        let mut i: usize = 0;
        while i < self.datums.len()
            invariant
                i <= self.datums@.len(),
                forall|j: int|
                    0 <= j < i ==> self.datums@[j].offset + self.datums@[j].size <= self.size,
            decreases self.datums@.len() - i,
        {
            let d = self.datums[i];
            if d.size > self.size || d.offset > self.size - d.size {
                return false;
            }
            i = i + 1;
        }
        true
    }
}

/// The furthest byte that any of the members reaches.
pub open spec fn members_end(datums: Seq<ClientDatum>) -> nat
    decreases datums.len(),
{
    if datums.len() == 0 {
        0
    } else {
        let e = (datums.last().offset + datums.last().size) as nat;
        let rest = members_end(datums.drop_last());
        if e > rest {
            e
        } else {
            rest
        }
    }
}

/// The description of a facility type: its identity and the host's names
/// of the fields to fetch, in order.
#[derive(Debug, Clone)]
pub struct FacilityDefinition {
    pub key: u64,
    pub fields: Vec<String>,
}

/// How often the host sends the data of a standing request.
#[derive(Debug, Clone, Copy, PartialEq, Eq, Structural)]
pub enum Period {
    /// The data is not sent.
    Never,
    /// The data is sent once.
    Once,
    /// The data is sent every rendered frame.
    VisualFrame,
    /// The data is sent every simulated frame, rendered or not.
    SimFrame,
    /// The data is sent once a second.
    Second,
}

impl Period {
    pub open spec fn spec_code(self) -> u32 {
        match self {
            Period::Never => 0,
            Period::Once => 1,
            Period::VisualFrame => 2,
            Period::SimFrame => 3,
            Period::Second => 4,
        }
    }

    /// The host's numeric code for this period.
    pub fn code(self) -> (r: u32)
        ensures
            r == self.spec_code(),
    {
        match self {
            Period::Never => 0,
            Period::Once => 1,
            Period::VisualFrame => 2,
            Period::SimFrame => 3,
            Period::Second => 4,
        }
    }
}

} // verus!
