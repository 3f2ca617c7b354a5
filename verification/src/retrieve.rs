use vstd::prelude::*;
use vstd::std_specs::cmp::PartialEqSpec;
use crate::codec::{decode_utf8, utf8_error};
use crate::error::Error;
use crate::id::{float_bits_eq, float_bits_equal, KoutenId};
use crate::text::utf8_chars;

verus! {

/// One value found by a retrieval: its id, its score and its payload.
/// The score is a 64-bit IEEE float, kept as its bit pattern.
#[derive(Debug, Clone)]
pub struct Hit {
    pub id: KoutenId,
    pub score_bits: u64,
    pub payload: Vec<u8>,
}

impl Hit {
    /// The payload read as UTF-8 text, with a `Utf8` error when it is not.
    pub fn payload_utf8(&self) -> (r: Result<&str, Error>)
        ensures
            r is Ok <==> vstd::utf8::valid_utf8(self.payload@),
            r matches Ok(s) ==> s@ == utf8_chars(self.payload@),
            r matches Err(e) ==> e@ == utf8_error(self.payload@),
    {
        decode_utf8(self.payload.as_slice())
    }
}

/// What a retrieval did. The candidate reduction is a 64-bit IEEE float,
/// kept as its bit pattern and compared as the float it stands for.
#[derive(Debug, Clone)]
pub struct RetrieveStats {
    pub total_vectors: i32,
    pub scanned: i32,
    pub skipped_vectors: i32,
    pub returned: i32,
    pub rings_touched: i32,
    pub payload_bytes: i32,
    pub estimated_tokens: i32,
    pub fanout_nodes: i32,
    pub candidate_reduction_bits: u64,
}

/// Two statistics are equal: equal counts and equal candidate reductions
/// (as floats: no NaN is equal to anything, and `0.0` equals `-0.0`).
pub open spec fn stats_eq(a: RetrieveStats, b: RetrieveStats) -> bool {
    &&& a.total_vectors == b.total_vectors
    &&& a.scanned == b.scanned
    &&& a.skipped_vectors == b.skipped_vectors
    &&& a.returned == b.returned
    &&& a.rings_touched == b.rings_touched
    &&& a.payload_bytes == b.payload_bytes
    &&& a.estimated_tokens == b.estimated_tokens
    &&& a.fanout_nodes == b.fanout_nodes
    &&& float_bits_eq(a.candidate_reduction_bits, b.candidate_reduction_bits)
}

impl PartialEq for RetrieveStats {
    fn eq(&self, other: &RetrieveStats) -> (r: bool) {
        self.total_vectors == other.total_vectors && self.scanned == other.scanned
            && self.skipped_vectors == other.skipped_vectors && self.returned == other.returned
            && self.rings_touched == other.rings_touched && self.payload_bytes
            == other.payload_bytes && self.estimated_tokens == other.estimated_tokens
            && self.fanout_nodes == other.fanout_nodes && float_bits_equal(
            self.candidate_reduction_bits,
            other.candidate_reduction_bits,
        )
    }
}

impl vstd::std_specs::cmp::PartialEqSpecImpl for RetrieveStats {
    open spec fn obeys_eq_spec() -> bool {
        true
    }

    open spec fn eq_spec(&self, other: &RetrieveStats) -> bool {
        stats_eq(*self, *other)
    }
}

/// The hits of a retrieval, best first, and what it did.
#[derive(Debug, Clone)]
pub struct RetrieveResult {
    pub hits: Vec<Hit>,
    pub stats: RetrieveStats,
}

/// Every payload of `hits` before index `k` is UTF-8.
pub open spec fn valid_before(hits: Seq<Hit>, k: int) -> bool {
    forall|j: int| 0 <= j < k ==> vstd::utf8::valid_utf8(#[trigger] hits[j].payload@)
}

impl RetrieveResult {
    /// There is no hit.
    pub fn is_empty(&self) -> (r: bool)
        ensures
            r == (self.hits@.len() == 0),
    {
        self.hits.len() == 0
    }

    /// The number of hits.
    pub fn len(&self) -> (n: usize)
        ensures
            n == self.hits@.len(),
    {
        self.hits.len()
    }

    /// The best hit, if there is one.
    pub fn first(&self) -> (r: Option<&Hit>)
        ensures
            self.hits@.len() == 0 ==> r is None,
            self.hits@.len() > 0 ==> r == Some(&self.hits@[0]),
    {
        if self.hits.len() == 0 {
            None
        } else {
            Some(&self.hits[0])
        }
    }

    /// The payloads of the hits, in order.
    pub fn payloads(&self) -> (r: Vec<&[u8]>)
        ensures
            r@.len() == self.hits@.len(),
            forall|i: int| 0 <= i < r@.len() ==> #[trigger] r@[i]@ == self.hits@[i].payload@,
    {
        let mut r: Vec<&[u8]> = Vec::new();
        let mut i: usize = 0;
        while i < self.hits.len()
            invariant
                i <= self.hits@.len(),
                r@.len() == i,
                forall|k: int| 0 <= k < i ==> #[trigger] r@[k]@ == self.hits@[k].payload@,
            decreases self.hits@.len() - i,
        {
            r.push(self.hits[i].payload.as_slice());
            i = i + 1;
        }
        r
    }

    /// The payloads of the hits read as UTF-8 text, in order; the `Utf8`
    /// error of the first payload that is not UTF-8, if any is not.
    pub fn payload_strings(&self) -> (r: Result<Vec<&str>, Error>)
        ensures
            r is Ok <==> valid_before(self.hits@, self.hits@.len() as int),
            r matches Ok(v) ==> v@.len() == self.hits@.len() && forall|i: int|
                0 <= i < v@.len() ==> #[trigger] v@[i]@ == utf8_chars(self.hits@[i].payload@),
            r matches Err(e) ==> exists|k: int|
                0 <= k < self.hits@.len() && valid_before(self.hits@, k)
                    && !vstd::utf8::valid_utf8(#[trigger] self.hits@[k].payload@) && e@
                    == utf8_error(self.hits@[k].payload@),
    {
        let mut v: Vec<&str> = Vec::new();
        let mut i: usize = 0;
        while i < self.hits.len()
            invariant
                i <= self.hits@.len(),
                v@.len() == i,
                valid_before(self.hits@, i as int),
                forall|k: int| 0 <= k < i ==> #[trigger] v@[k]@ == utf8_chars(self.hits@[k].payload@),
            decreases self.hits@.len() - i,
        {
            match self.hits[i].payload_utf8() {
                Ok(s) => v.push(s),
                Err(e) => {
                    assert(!vstd::utf8::valid_utf8(self.hits@[i as int].payload@));
                    return Err(e);
                },
            }
            i = i + 1;
        }
        Ok(v)
    }
}

/// Equality of retrieval statistics: statistics are equal only when every
/// count is the same and their candidate reductions are the same float (the
/// same bits, or `0.0` and `-0.0`); a NaN candidate reduction is equal to
/// nothing; equality is symmetric; and statistics whose candidate
/// reduction is not a NaN are equal to themselves.
pub proof fn stats_equality_law(a: RetrieveStats, b: RetrieveStats)
    ensures
        a.eq_spec(&b) ==> a.total_vectors == b.total_vectors && a.scanned == b.scanned
            && a.skipped_vectors == b.skipped_vectors && a.returned == b.returned
            && a.rings_touched == b.rings_touched && a.payload_bytes == b.payload_bytes
            && a.estimated_tokens == b.estimated_tokens && a.fanout_nodes == b.fanout_nodes,
        a.eq_spec(&b) ==> a.candidate_reduction_bits == b.candidate_reduction_bits || (
        a.candidate_reduction_bits & 0x7fff_ffff_ffff_ffffu64 == 0 && b.candidate_reduction_bits
            & 0x7fff_ffff_ffff_ffffu64 == 0),
        (a.candidate_reduction_bits & 0x7ff0_0000_0000_0000u64 == 0x7ff0_0000_0000_0000u64
            && a.candidate_reduction_bits & 0x000f_ffff_ffff_ffffu64 != 0) ==> !a.eq_spec(&b),
        a.eq_spec(&b) == b.eq_spec(&a),
        (a.total_vectors == b.total_vectors && a.scanned == b.scanned && a.skipped_vectors
            == b.skipped_vectors && a.returned == b.returned && a.rings_touched
            == b.rings_touched && a.payload_bytes == b.payload_bytes && a.estimated_tokens
            == b.estimated_tokens && a.fanout_nodes == b.fanout_nodes
            && a.candidate_reduction_bits == b.candidate_reduction_bits && !(
        a.candidate_reduction_bits & 0x7ff0_0000_0000_0000u64 == 0x7ff0_0000_0000_0000u64
            && a.candidate_reduction_bits & 0x000f_ffff_ffff_ffffu64 != 0)) ==> a.eq_spec(&b),
{
}

} // verus!
