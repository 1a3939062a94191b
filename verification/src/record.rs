//! The unit of data that travels through the pipeline.

use vstd::prelude::*;

verus! {

/// Number of payload bytes carried by every record.
pub const PAYLOAD_LEN: usize = 10240;

/// The payload whose bytes all equal `fill`.
pub open spec fn uniform_payload(fill: u8) -> [u8; PAYLOAD_LEN] {
    vstd::array::spec_array_fill_for_copy_type::<u8, PAYLOAD_LEN>(fill)
}

/// One generated record: its place in the run and a fixed-size opaque payload.
#[derive(Clone, Copy, Debug, PartialEq, Eq)]
pub struct Record {
    pub sequence: u64,
    pub payload: [u8; PAYLOAD_LEN],
}

/// The sequence number carried by the record generated at position `index` of a run
/// (positions count from zero). The counter wraps once it has used every `u64`.
pub open spec fn sequence_at(index: nat) -> u64 {
    (index % 0x1_0000_0000_0000_0000) as u64
}

/// The byte that fills the payload of the record generated at position `index`.
pub open spec fn fill_at(index: nat) -> u8 {
    (index % 256) as u8
}

/// The record generated at position `index` of a run.
pub open spec fn record_at(index: nat) -> Record {
    Record { sequence: sequence_at(index), payload: uniform_payload(fill_at(index)) }
}

/// The first `count` records of a run, in generation order.
pub open spec fn records(count: nat) -> Seq<Record> {
    Seq::new(count, |i: int| record_at(i as nat))
}

/// Every byte of a uniform payload is the fill byte, and there are `PAYLOAD_LEN` of them.
pub proof fn lemma_uniform_payload(fill: u8)
    ensures
        uniform_payload(fill)@.len() == PAYLOAD_LEN,
        forall|i: int| 0 <= i < PAYLOAD_LEN ==> uniform_payload(fill)@[i] == fill,
{
    broadcast use vstd::array::axiom_spec_array_fill_for_copy_type;
    broadcast use vstd::array::array_len_matches_n;
}

impl Record {
    /// Builds the record with the given sequence number whose payload repeats `fill`.
    pub fn filled(sequence: u64, fill: u8) -> (record: Record)
        ensures
            record == (Record { sequence, payload: uniform_payload(fill) }),
            record.payload@.len() == PAYLOAD_LEN,
            forall|i: int| 0 <= i < PAYLOAD_LEN ==> record.payload@[i] == fill,
    {
        proof {
            lemma_uniform_payload(fill);
        }
        Record { sequence, payload: [fill; PAYLOAD_LEN] }
    }
}

} // verus!
