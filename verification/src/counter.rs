//! The counter account shared by the counter programs: one `u64`, held as
//! its eight little-endian bytes.
use crate::codec::{
    lemma_u64_canonical, lemma_u64_framed, lemma_u64_len, parse_u64, read_u64, ser_u64, write_u64,
};
use vstd::prelude::*;

verus! {

#[derive(Clone, Copy, Debug, PartialEq, Eq, Structural)]
pub struct Counter {
    pub count: u64,
}

impl Default for Counter {
    fn default() -> (r: Self)
        ensures
            r.count == 0,
    {
        Counter { count: 0 }
    }
}

/// The counter an account's bytes hold: exactly one `u64` and nothing after.
pub open spec fn counter_from_bytes(b: Seq<u8>) -> Option<Counter> {
    match parse_u64(b, 0) {
        Some((count, q)) => if q == b.len() {
            Some(Counter { count })
        } else {
            None
        },
        None => None,
    }
}

pub open spec fn counter_bytes(c: Counter) -> Seq<u8> {
    ser_u64(c.count)
}

impl Counter {
    /// Reads a counter from the whole of `data`; `None` unless `data` holds
    /// exactly one `u64`.
    pub fn try_from_slice(data: &[u8]) -> (r: Option<Counter>)
        ensures
            r == counter_from_bytes(data@),
    {
        match read_u64(data, 0) {
            Some((count, q)) => if q == data.len() {
                Some(Counter { count })
            } else {
                None
            },
            None => None,
        }
    }

    pub fn to_bytes(&self) -> (r: Vec<u8>)
        ensures
            r@ == counter_bytes(*self),
    {
        let mut out: Vec<u8> = Vec::new();
        write_u64(&mut out, self.count);
        assert(out@ =~= counter_bytes(*self));
        out
    }
}

/// A counter written out reads back as itself.
pub proof fn lemma_counter_roundtrip(c: Counter)
    ensures
        counter_from_bytes(counter_bytes(c)) == Some(c),
{
    let b = counter_bytes(c);
    lemma_u64_len(c.count);
    assert(b.subrange(0, 8) =~= b);
    lemma_u64_framed(b, 0, c.count);
}

/// Bytes that hold a counter are exactly that counter written out.
pub proof fn lemma_counter_canonical(b: Seq<u8>)
    requires
        counter_from_bytes(b) is Some,
    ensures
        counter_bytes(counter_from_bytes(b).unwrap()) == b,
{
    lemma_u64_canonical(b, 0);
    assert(b.subrange(0, b.len() as int) =~= b);
}

} // verus!
