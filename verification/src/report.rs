//! Telemetry records streamed out of the kernel ring buffer.
//!
//! A `ReportEntry` is the fixed-size, little-endian record the kernel side
//! writes: a flow id, a chunk id and length, and fifty data elements of
//! sixteen bytes each — 808 bytes in all.

use vstd::prelude::*;
use crate::wire::{
    spec_u32_to_le_bytes, spec_u32_from_le_bytes, spec_u16_to_le_bytes, spec_u16_from_le_bytes,
    spec_u64_to_le_bytes, spec_u64_from_le_bytes, u32_to_le_bytes, u16_to_le_bytes,
    u64_to_le_bytes, read_le_u32, read_le_u16, read_le_u64,
};

verus! {

/// How many data elements one report entry carries.
pub const REPORT_DATA_LEN: usize = 50;

/// The byte size of one encoded report entry.
pub const REPORT_ENTRY_BYTES: usize = 808;

/// One sample inside a report entry.
#[derive(Debug, Clone, Copy)]
pub struct ReportDataElem {
    pub rtt: u32,
    pub acked_bytes: u32,
    pub timestamp: u64,
}

impl Default for ReportDataElem {
    fn default() -> (r: Self)
        ensures
            r.rtt == 0 && r.acked_bytes == 0 && r.timestamp == 0,
    {
        ReportDataElem { rtt: 0, acked_bytes: 0, timestamp: 0 }
    }
}

/// One telemetry record; `data_array` always holds `REPORT_DATA_LEN`
/// elements.
#[derive(Debug, Clone)]
pub struct ReportEntry {
    pub flow_id: u32,
    pub chunk_id: i16,
    pub chunk_len: u16,
    pub data_array: Vec<ReportDataElem>,
}

/// The sixteen little-endian bytes of one data element.
pub open spec fn spec_elem_bytes(e: ReportDataElem) -> Seq<u8> {
    spec_u32_to_le_bytes(e.rtt) + spec_u32_to_le_bytes(e.acked_bytes) + spec_u64_to_le_bytes(
        e.timestamp,
    )
}

/// The element read from the first sixteen bytes of `s`.
pub open spec fn spec_elem_from_bytes(s: Seq<u8>) -> ReportDataElem
    recommends
        s.len() >= 16,
{
    ReportDataElem {
        rtt: spec_u32_from_le_bytes(s),
        acked_bytes: spec_u32_from_le_bytes(s.skip(4)),
        timestamp: spec_u64_from_le_bytes(s.skip(8)),
    }
}

/// The concatenated encodings of a sequence of data elements.
pub open spec fn spec_elems_bytes(s: Seq<ReportDataElem>) -> Seq<u8>
    decreases s.len(),
{
    if s.len() == 0 {
        Seq::empty()
    } else {
        spec_elems_bytes(s.drop_last()) + spec_elem_bytes(s.last())
    }
}

/// Each element contributes sixteen bytes.
pub proof fn lemma_elems_bytes_len(s: Seq<ReportDataElem>)
    ensures
        spec_elems_bytes(s).len() == 16 * s.len(),
    decreases s.len(),
{
    if s.len() > 0 {
        lemma_elems_bytes_len(s.drop_last());
    }
}

/// A report entry is well formed when its data array is full length.
pub open spec fn spec_report_entry_wf(e: ReportEntry) -> bool {
    e.data_array@.len() == REPORT_DATA_LEN
}

/// The 808 little-endian bytes of a report entry.
pub open spec fn spec_report_entry_bytes(e: ReportEntry) -> Seq<u8> {
    spec_u32_to_le_bytes(e.flow_id) + spec_u16_to_le_bytes(e.chunk_id as u16)
        + spec_u16_to_le_bytes(e.chunk_len) + spec_elems_bytes(e.data_array@)
}

/// `e` is exactly the record that the first 808 bytes of `s` spell.
pub open spec fn spec_report_entry_matches(e: ReportEntry, s: Seq<u8>) -> bool
    recommends
        s.len() >= REPORT_ENTRY_BYTES,
{
    &&& e.flow_id == spec_u32_from_le_bytes(s)
    &&& e.chunk_id == spec_u16_from_le_bytes(s.skip(4)) as i16
    &&& e.chunk_len == spec_u16_from_le_bytes(s.skip(6))
    &&& e.data_array@ == Seq::new(
        REPORT_DATA_LEN as nat,
        |i: int| spec_elem_from_bytes(s.skip(8 + 16 * i)),
    )
}

impl ReportEntry {
    /// The record as the kernel writes it: 808 little-endian bytes.
    pub fn as_bytes(&self) -> (r: Vec<u8>)
        requires
            spec_report_entry_wf(*self),
        ensures
            r@ == spec_report_entry_bytes(*self),
            r@.len() == REPORT_ENTRY_BYTES,
    {
        let mut r = u32_to_le_bytes(self.flow_id);
        let chunk_id_bits: u16 = #[verifier::truncate] (self.chunk_id as u16);
        let mut chunk_id_bytes = u16_to_le_bytes(chunk_id_bits);
        r.append(&mut chunk_id_bytes);
        let mut chunk_len_bytes = u16_to_le_bytes(self.chunk_len);
        r.append(&mut chunk_len_bytes);
        proof {
            assert(r@ =~= spec_u32_to_le_bytes(self.flow_id) + spec_u16_to_le_bytes(
                self.chunk_id as u16,
            ) + spec_u16_to_le_bytes(self.chunk_len) + spec_elems_bytes(
                self.data_array@.take(0),
            ));
        }
        let mut i: usize = 0;
        while i < self.data_array.len()
            invariant
                i <= self.data_array@.len(),
                self.data_array@.len() == REPORT_DATA_LEN,
                r@ == spec_u32_to_le_bytes(self.flow_id) + spec_u16_to_le_bytes(
                    self.chunk_id as u16,
                ) + spec_u16_to_le_bytes(self.chunk_len) + spec_elems_bytes(
                    self.data_array@.take(i as int),
                ),
            decreases self.data_array@.len() - i,
        {
            let e = self.data_array[i];
            let mut rtt_bytes = u32_to_le_bytes(e.rtt);
            r.append(&mut rtt_bytes);
            let mut acked_bytes = u32_to_le_bytes(e.acked_bytes);
            r.append(&mut acked_bytes);
            let mut ts_bytes = u64_to_le_bytes(e.timestamp);
            r.append(&mut ts_bytes);
            proof {
                let taken = self.data_array@.take(i + 1);
                assert(taken.drop_last() =~= self.data_array@.take(i as int));
                assert(taken.last() == self.data_array@[i as int]);
                assert(r@ =~= spec_u32_to_le_bytes(self.flow_id) + spec_u16_to_le_bytes(
                    self.chunk_id as u16,
                ) + spec_u16_to_le_bytes(self.chunk_len) + spec_elems_bytes(taken));
            }
            i = i + 1;
        }
        proof {
            assert(self.data_array@.take(self.data_array@.len() as int) =~= self.data_array@);
            lemma_elems_bytes_len(self.data_array@);
        }
        r
    }

    /// Reads a record back from the head of a ring-buffer payload.
    pub fn copy_from_bytes(buf: &[u8]) -> (r: Self)
        requires
            buf@.len() >= REPORT_ENTRY_BYTES,
        ensures
            spec_report_entry_matches(r, buf@),
            spec_report_entry_wf(r),
    {
        let flow_id = read_le_u32(buf, 0);
        let chunk_id_bits = read_le_u16(buf, 4);
        let chunk_id: i16 = #[verifier::truncate] (chunk_id_bits as i16);
        let chunk_len = read_le_u16(buf, 6);
        proof {
            assert(buf@.skip(0) =~= buf@);
        }
        let mut data_array: Vec<ReportDataElem> = Vec::new();
        let mut i: usize = 0;
        while i < REPORT_DATA_LEN
            invariant
                i <= REPORT_DATA_LEN,
                buf@.len() >= REPORT_ENTRY_BYTES,
                data_array@.len() == i,
                forall|j: int|
                    0 <= j < i ==> data_array@[j] == spec_elem_from_bytes(buf@.skip(8 + 16 * j)),
            decreases REPORT_DATA_LEN - i,
        {
            let base = 8 + 16 * i;
            let rtt = read_le_u32(buf, base);
            let acked_bytes = read_le_u32(buf, base + 4);
            let timestamp = read_le_u64(buf, base + 8);
            proof {
                assert(buf@.skip(base as int).skip(4) =~= buf@.skip(base + 4));
                assert(buf@.skip(base as int).skip(8) =~= buf@.skip(base + 8));
            }
            data_array.push(ReportDataElem { rtt, acked_bytes, timestamp });
            i = i + 1;
        }
        let r = ReportEntry { flow_id, chunk_id, chunk_len, data_array };
        proof {
            assert(r.data_array@ =~= Seq::new(
                REPORT_DATA_LEN as nat,
                |j: int| spec_elem_from_bytes(buf@.skip(8 + 16 * j)),
            ));
        }
        r
    }
}

/// Inside the concatenated element encodings, the bytes of element `i`
/// stand at offset `16 * i`.
pub proof fn lemma_elems_bytes_index(s: Seq<ReportDataElem>, i: int)
    requires
        0 <= i < s.len(),
    ensures
        spec_elems_bytes(s).subrange(16 * i, 16 * i + 16) == spec_elem_bytes(s[i]),
    decreases s.len(),
{
    lemma_elems_bytes_len(s);
    lemma_elems_bytes_len(s.drop_last());
    if i == s.len() - 1 {
        assert(spec_elems_bytes(s).subrange(16 * i, 16 * i + 16) =~= spec_elem_bytes(s.last()));
    } else {
        lemma_elems_bytes_index(s.drop_last(), i);
        assert(spec_elems_bytes(s).subrange(16 * i, 16 * i + 16) =~= spec_elems_bytes(
            s.drop_last(),
        ).subrange(16 * i, 16 * i + 16));
    }
}

/// Encoding a well-formed report entry and reading it back gives the
/// record unchanged.
pub proof fn lemma_report_entry_round_trip(e: ReportEntry)
    requires
        spec_report_entry_wf(e),
    ensures
        spec_report_entry_matches(e, spec_report_entry_bytes(e)),
{
    let s = spec_report_entry_bytes(e);
    lemma_elems_bytes_len(e.data_array@);
    crate::wire::lemma_u32_le_round_trip(e.flow_id);
    crate::wire::lemma_u16_le_round_trip(e.chunk_id as u16);
    crate::wire::lemma_u16_le_round_trip(e.chunk_len);
    let back = Seq::new(REPORT_DATA_LEN as nat, |i: int| spec_elem_from_bytes(s.skip(8 + 16 * i)));
    assert(spec_u32_from_le_bytes(s) == spec_u32_from_le_bytes(spec_u32_to_le_bytes(e.flow_id)));
    assert(s.skip(4).take(2) =~= spec_u16_to_le_bytes(e.chunk_id as u16));
    assert(spec_u16_from_le_bytes(s.skip(4)) == spec_u16_from_le_bytes(
        spec_u16_to_le_bytes(e.chunk_id as u16),
    ));
    let c = e.chunk_id;
    assert(c as u16 as i16 == c) by (bit_vector);
    assert(s.skip(6).take(2) =~= spec_u16_to_le_bytes(e.chunk_len));
    assert(spec_u16_from_le_bytes(s.skip(6)) == spec_u16_from_le_bytes(
        spec_u16_to_le_bytes(e.chunk_len),
    ));
    assert forall|i: int| 0 <= i < REPORT_DATA_LEN implies back[i] == e.data_array@[i] by {
        lemma_elems_bytes_index(e.data_array@, i);
        lemma_elem_round_trip(e.data_array@[i]);
        let t = s.skip(8 + 16 * i);
        assert(t.take(16) =~= spec_elems_bytes(e.data_array@).subrange(16 * i, 16 * i + 16));
        assert(spec_elem_from_bytes(t) == spec_elem_from_bytes(spec_elem_bytes(e.data_array@[i])));
    }
    assert(back =~= e.data_array@);
}

/// Encoding one data element and reading it back gives the element
/// unchanged.
pub proof fn lemma_elem_round_trip(e: ReportDataElem)
    ensures
        spec_elem_from_bytes(spec_elem_bytes(e)) == e,
{
    let s = spec_elem_bytes(e);
    crate::wire::lemma_u32_le_round_trip(e.rtt);
    crate::wire::lemma_u32_le_round_trip(e.acked_bytes);
    crate::wire::lemma_u64_le_round_trip(e.timestamp);
    assert(spec_u32_from_le_bytes(s) == spec_u32_from_le_bytes(spec_u32_to_le_bytes(e.rtt)));
    assert(s.skip(4).take(4) =~= spec_u32_to_le_bytes(e.acked_bytes));
    assert(spec_u32_from_le_bytes(s.skip(4)) == spec_u32_from_le_bytes(
        spec_u32_to_le_bytes(e.acked_bytes),
    ));
    assert(s.skip(8) =~= spec_u64_to_le_bytes(e.timestamp));
}

} // verus!
