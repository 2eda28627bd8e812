//! The candidate account: a name and a vote count.
//!
//! Layout: the name as a string, then the votes (eight bytes).
use crate::account::ProgramError;
use crate::codec::{
    lemma_str_canonical, lemma_str_framed, lemma_u64_canonical, lemma_u64_framed, lemma_u64_len,
    overwritten, parse_str, parse_u64, read_str, read_u64, ser_str, ser_u64, str_fits,
    string_from_utf8, write_into, write_str, write_u64,
};
use vstd::prelude::*;
use vstd::slice::slice_to_vec;
use vstd::utf8::{
    encode_utf8, is_char_boundary, is_leading_byte_width_1, partial_valid_utf8_extend_ascii_block,
    valid_utf8, valid_utf8_split,
};

verus! {

broadcast use vstd::utf8::encode_utf8_valid_utf8, vstd::utf8::decode_utf8_encode_utf8,
    vstd::string::group_string_axioms;

#[derive(Debug)]
pub struct CandidateAccount {
    pub candidate_name: String,
    pub candidate_votes: u64,
}

/// A candidate as plain values.
pub struct CandidateView {
    pub name: Seq<char>,
    pub votes: u64,
}

impl View for CandidateAccount {
    type V = CandidateView;

    open spec fn view(&self) -> CandidateView {
        CandidateView { name: self.candidate_name@, votes: self.candidate_votes }
    }
}

pub open spec fn candidate_bytes(c: CandidateView) -> Seq<u8> {
    ser_str(c.name) + ser_u64(c.votes)
}

pub open spec fn candidate_from_bytes(b: Seq<u8>) -> Option<CandidateView> {
    match parse_str(b, 0) {
        Some((name, p)) => match parse_u64(b, p) {
            Some((votes, q)) => if q == b.len() {
                Some(CandidateView { name, votes })
            } else {
                None
            },
            None => None,
        },
        None => None,
    }
}

/// `b` cut to `len` bytes, or lengthened to `len` bytes with zero bytes.
pub open spec fn padded(b: Seq<u8>, len: nat) -> Seq<u8> {
    if b.len() > len {
        b.take(len as int)
    } else {
        b + Seq::new((len - b.len()) as nat, |_i: int| 0u8)
    }
}

/// Cutting a string to `len` bytes must not split a character.
pub open spec fn can_pad(s: Seq<char>, len: nat) -> bool {
    encode_utf8(s).len() > len ==> is_char_boundary(encode_utf8(s), len as int)
}

/// `n` copies of one byte that is a whole character on its own.
pub open spec fn repeated(byte: u8, n: nat) -> Seq<u8> {
    Seq::new(n, |_i: int| byte)
}

/// Bytes below 0x80 appended to valid UTF-8 keep it valid.
pub proof fn lemma_ascii_tail_valid(prefix: Seq<u8>, tail: Seq<u8>)
    requires
        valid_utf8(prefix),
        forall|i: int| 0 <= i < tail.len() ==> #[trigger] tail[i] < 0x80,
    ensures
        valid_utf8(prefix + tail),
{
    let b = prefix + tail;
    assert(b.subrange(0, prefix.len() as int) =~= prefix);
    assert forall|i: int|
        prefix.len() <= i < b.len() implies #[trigger] is_leading_byte_width_1(b[i]) by {
        assert(b[i] == tail[i - prefix.len()]);
    }
    partial_valid_utf8_extend_ascii_block(b, prefix.len() as int, b.len() as int);
    assert(b.subrange(0, b.len() as int) =~= b);
}

/// A string of `n` copies of an ASCII byte.
pub fn repeated_string(byte: u8, n: usize) -> (r: String)
    requires
        byte < 0x80,
    ensures
        encode_utf8(r@) == repeated(byte, n as nat),
{
    let mut v: Vec<u8> = Vec::new();
    let mut i: usize = 0;
    while i < n
        invariant
            i <= n,
            v@ == repeated(byte, i as nat),
        decreases n - i,
    {
        v.push(byte);
        i = i + 1;
        assert(v@ =~= repeated(byte, i as nat));
    }
    proof {
        lemma_ascii_tail_valid(seq![], v@);
        assert(seq![] + v@ =~= v@);
    }
    match string_from_utf8(v) {
        Some(s) => s,
        None => {
            assert(false);
            String::new()
        },
    }
}

impl CandidateAccount {
    pub const MAX_NAME_LENGTH: usize = 16;

    /// A candidate named with `name` cut or zero-padded to 16 bytes, and no
    /// votes.
    pub fn new(candidate_name: String) -> (r: Self)
        requires
            can_pad(candidate_name@, 16),
        ensures
            encode_utf8(r.candidate_name@) == padded(encode_utf8(candidate_name@), 16),
            r.candidate_votes == 0,
    {
        CandidateAccount {
            candidate_name: Self::checked_name(candidate_name.as_str()),
            candidate_votes: 0,
        }
    }

    /// `name` cut or zero-padded to exactly 16 bytes.
    pub fn checked_name(name: &str) -> (r: String)
        requires
            can_pad(name@, 16),
        ensures
            encode_utf8(r@) == padded(encode_utf8(name@), 16),
    {
        Self::pad_string_null(name.to_string(), Self::MAX_NAME_LENGTH)
    }

    /// `s` cut to `len` bytes, or lengthened to `len` bytes with NUL
    /// characters. Cutting in the middle of a character is left out: the
    /// program stops there.
    pub fn pad_string_null(s: String, len: usize) -> (r: String)
        requires
            can_pad(s@, len as nat),
        ensures
            encode_utf8(r@) == padded(encode_utf8(s@), len as nat),
    {
        let bytes = s.as_str().as_bytes();
        let n = bytes.len();
        let mut out: Vec<u8>;
        if n > len {
            out = slice_to_vec(&bytes[0..len]);
            proof {
                valid_utf8_split(bytes@, len as int);
                assert(out@ =~= padded(bytes@, len as nat));
            }
        } else {
            out = slice_to_vec(bytes);
            let mut i: usize = n;
            while i < len
                invariant
                    n <= i <= len,
                    out@ == bytes@ + repeated(0u8, (i - n) as nat),
                decreases len - i,
            {
                out.push(0u8);
                i = i + 1;
                assert(out@ =~= bytes@ + repeated(0u8, (i - n) as nat));
            }
            proof {
                lemma_ascii_tail_valid(bytes@, repeated(0u8, (len - n) as nat));
                assert(out@ =~= padded(bytes@, len as nat));
            }
        }
        match string_from_utf8(out) {
            Some(r) => r,
            None => {
                assert(false);
                String::new()
            },
        }
    }

    pub fn try_from_slice(data: &[u8]) -> (r: Option<CandidateAccount>)
        ensures
            r matches Some(c) ==> candidate_from_bytes(data@) == Some(c@),
            r is None ==> candidate_from_bytes(data@) is None,
    {
        let (candidate_name, p) = match read_str(data, 0) {
            Some(x) => x,
            None => return None,
        };
        let (candidate_votes, q) = match read_u64(data, p) {
            Some(x) => x,
            None => return None,
        };
        if q == data.len() {
            Some(CandidateAccount { candidate_name, candidate_votes })
        } else {
            None
        }
    }

    pub fn to_bytes(&self) -> (r: Vec<u8>)
        requires
            str_fits(self.candidate_name@),
        ensures
            r@ == candidate_bytes(self@),
    {
        let mut out: Vec<u8> = Vec::new();
        write_str(&mut out, &self.candidate_name);
        write_u64(&mut out, self.candidate_votes);
        assert(out@ =~= candidate_bytes(self@));
        out
    }

    /// Reads the candidate held by an account's data; `InvalidAccountData`
    /// unless the data holds exactly one candidate.
    pub fn load_mut(data: &[u8]) -> (r: Result<CandidateAccount, ProgramError>)
        ensures
            r matches Ok(c) ==> candidate_from_bytes(data@) == Some(c@),
            r is Err ==> candidate_from_bytes(data@) is None && r matches Err(
                ProgramError::InvalidAccountData,
            ),
    {
        match Self::try_from_slice(data) {
            Some(c) => Ok(c),
            None => Err(ProgramError::InvalidAccountData),
        }
    }

    pub fn increment_candidate_votes(&mut self)
        requires
            old(self).candidate_votes < u64::MAX,
        ensures
            final(self).candidate_votes == old(self).candidate_votes + 1,
            final(self).candidate_name == old(self).candidate_name,
    {
        self.candidate_votes = self.candidate_votes + 1;
    }

    /// Writes this candidate into the front of `dst`; `InvalidAccountData`
    /// (with as much written as fits) where it does not fit.
    pub fn save(&self, dst: &mut [u8]) -> (r: Result<(), ProgramError>)
        requires
            str_fits(self.candidate_name@),
        ensures
            final(dst)@ == overwritten(old(dst)@, candidate_bytes(self@)),
            r is Ok <==> candidate_bytes(self@).len() <= old(dst)@.len(),
            r is Err ==> r matches Err(ProgramError::InvalidAccountData),
    {
        let bytes = self.to_bytes();
        if write_into(dst, bytes.as_slice()) {
            Ok(())
        } else {
            Err(ProgramError::InvalidAccountData)
        }
    }
}

impl Default for CandidateAccount {
    /// A candidate named with 16 `n` characters and no votes.
    fn default() -> (r: Self)
        ensures
            encode_utf8(r.candidate_name@) == repeated(110u8, 16),
            r.candidate_votes == 0,
    {
        CandidateAccount { candidate_name: repeated_string(110u8, Self::MAX_NAME_LENGTH), candidate_votes: 0 }
    }
}

/// Padding gives exactly `len` bytes, keeps the bytes it does not cut, and
/// padding again changes nothing: a checked name is its own checked name.
pub proof fn lemma_padded(b: Seq<u8>, len: nat)
    ensures
        padded(b, len).len() == len,
        forall|i: int| 0 <= i < b.len() && i < len ==> #[trigger] padded(b, len)[i] == b[i],
        forall|i: int| b.len() <= i < len ==> #[trigger] padded(b, len)[i] == 0u8,
        padded(padded(b, len), len) == padded(b, len),
{
    let p = padded(b, len);
    assert(p.len() == len);
    assert(padded(p, len) =~= p);
}

/// A candidate written out reads back as itself, and bytes that hold a
/// candidate are exactly that candidate written out.
pub proof fn lemma_candidate_roundtrip(c: CandidateView, b: Seq<u8>)
    ensures
        str_fits(c.name) ==> candidate_from_bytes(candidate_bytes(c)) == Some(c),
        candidate_from_bytes(b) matches Some(d) ==> str_fits(d.name) && candidate_bytes(d) == b,
{
    if str_fits(c.name) {
        let x = ser_str(c.name);
        let e = candidate_bytes(c);
        let lx = x.len() as int;
        lemma_u64_len(c.votes);
        assert(e.subrange(0, lx) =~= x);
        lemma_str_framed(e, 0, c.name);
        assert(e.subrange(lx, lx + 8) =~= ser_u64(c.votes));
        lemma_u64_framed(e, lx, c.votes);
    }
    if candidate_from_bytes(b) is Some {
        lemma_str_canonical(b, 0);
        let (_, p) = parse_str(b, 0).unwrap();
        lemma_u64_canonical(b, p);
        assert(b =~= b.subrange(0, p) + b.subrange(p, p + 8));
    }
}

/// The candidate with one more vote.
pub open spec fn voted(c: CandidateView) -> CandidateView {
    CandidateView { votes: (c.votes + 1) as u64, ..c }
}

/// What adding a vote to the candidate's data answers, and what it then
/// holds.
pub open spec fn vote_effect(candidate: Seq<u8>) -> (Result<(), ProgramError>, Seq<u8>) {
    match candidate_from_bytes(candidate) {
        None => (Err(ProgramError::InvalidAccountData), candidate),
        Some(c) => (Ok(()), candidate_bytes(voted(c))),
    }
}

/// Loads the candidate held by an account's data, adds one vote and saves
/// it back: the data then holds the candidate with one more vote.
pub fn cast_vote(candidate_data: &mut [u8]) -> (r: Result<(), ProgramError>)
    requires
        candidate_from_bytes(old(candidate_data)@) matches Some(c) ==> c.votes < u64::MAX,
    ensures
        (r, final(candidate_data)@) == vote_effect(old(candidate_data)@),
{
    let mut candidate = match CandidateAccount::load_mut(candidate_data) {
        Ok(c) => c,
        Err(e) => return Err(e),
    };
    proof {
        lemma_candidate_roundtrip(candidate@, old(candidate_data)@);
    }
    let ghost before = candidate@;
    candidate.increment_candidate_votes();
    proof {
        lemma_u64_len(before.votes);
        lemma_u64_len(candidate.candidate_votes);
        assert(candidate@ == voted(before));
    }
    let r = candidate.save(candidate_data);
    assert(candidate_data@ =~= candidate_bytes(candidate@));
    match r {
        Ok(()) => Ok(()),
        Err(e) => Err(e),
    }
}

/// Saving a candidate into data of exactly its written length and loading
/// it back gives the same candidate.
pub proof fn lemma_candidate_save_load(c: CandidateView, dst: Seq<u8>)
    requires
        str_fits(c.name),
        dst.len() == candidate_bytes(c).len(),
    ensures
        candidate_from_bytes(overwritten(dst, candidate_bytes(c))) == Some(c),
{
    let e = candidate_bytes(c);
    assert(overwritten(dst, e) =~= e);
    lemma_candidate_roundtrip(c, e);
}

} // verus!
