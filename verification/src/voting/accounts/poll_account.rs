//! The poll account: an id, a name, a description, the voting window and
//! the number of candidates registered so far.
//!
//! Layout: the id (eight bytes), the name and the description as strings,
//! then the window's start and end and the candidate count (eight bytes
//! each).
use crate::account::ProgramError;
use crate::codec::{
    lemma_str_canonical, lemma_str_framed, lemma_u64_canonical, lemma_u64_framed, lemma_u64_len,
    overwritten, parse_str, parse_u64, read_str, read_u64, ser_str, ser_u64, str_fits,
    write_into, write_str, write_u64,
};
use crate::voting::accounts::candidate_account::{
    can_pad, padded, repeated, repeated_string, CandidateAccount,
};
use vstd::prelude::*;
use vstd::utf8::encode_utf8;

verus! {

broadcast use vstd::string::group_string_axioms;

#[derive(Debug)]
pub struct PollAccount {
    pub poll_id: u64,
    pub poll_name: String,
    pub poll_description: String,
    pub poll_voting_start: u64,
    pub poll_voting_end: u64,
    pub poll_option_index: u64,
}

/// A poll as plain values.
pub struct PollView {
    pub poll_id: u64,
    pub poll_name: Seq<char>,
    pub poll_description: Seq<char>,
    pub poll_voting_start: u64,
    pub poll_voting_end: u64,
    pub poll_option_index: u64,
}

impl View for PollAccount {
    type V = PollView;

    open spec fn view(&self) -> PollView {
        PollView {
            poll_id: self.poll_id,
            poll_name: self.poll_name@,
            poll_description: self.poll_description@,
            poll_voting_start: self.poll_voting_start,
            poll_voting_end: self.poll_voting_end,
            poll_option_index: self.poll_option_index,
        }
    }
}

/// The poll with one more candidate registered.
pub open spec fn incremented(p: PollView) -> PollView {
    PollView { poll_option_index: (p.poll_option_index + 1) as u64, ..p }
}

pub open spec fn poll_fits(p: PollView) -> bool {
    str_fits(p.poll_name) && str_fits(p.poll_description)
}

pub open spec fn poll_bytes(p: PollView) -> Seq<u8> {
    ser_u64(p.poll_id) + ser_str(p.poll_name) + ser_str(p.poll_description) + ser_u64(
        p.poll_voting_start,
    ) + ser_u64(p.poll_voting_end) + ser_u64(p.poll_option_index)
}

pub open spec fn poll_from_bytes(b: Seq<u8>) -> Option<PollView> {
    match parse_u64(b, 0) {
        Some((poll_id, p1)) => match parse_str(b, p1) {
            Some((poll_name, p2)) => match parse_str(b, p2) {
                Some((poll_description, p3)) => match parse_u64(b, p3) {
                    Some((poll_voting_start, p4)) => match parse_u64(b, p4) {
                        Some((poll_voting_end, p5)) => match parse_u64(b, p5) {
                            Some((poll_option_index, q)) => if q == b.len() {
                                Some(
                                    PollView {
                                        poll_id,
                                        poll_name,
                                        poll_description,
                                        poll_voting_start,
                                        poll_voting_end,
                                        poll_option_index,
                                    },
                                )
                            } else {
                                None
                            },
                            None => None,
                        },
                        None => None,
                    },
                    None => None,
                },
                None => None,
            },
            None => None,
        },
        None => None,
    }
}

impl PollAccount {
    pub const MAX_NAME_LENGTH: usize = 50;

    pub const MAX_DESCRIPTION_LENGTH: usize = 280;

    /// Adds one to the number of registered candidates.
    pub fn increment_option_index(&mut self)
        requires
            old(self).poll_option_index < u64::MAX,
        ensures
            final(self)@ == incremented(old(self)@),
    {
        self.poll_option_index = self.poll_option_index + 1;
    }

    /// `name` cut or zero-padded to exactly 50 bytes.
    pub fn checked_name(name: &str) -> (r: String)
        requires
            can_pad(name@, 50),
        ensures
            encode_utf8(r@) == padded(encode_utf8(name@), 50),
    {
        CandidateAccount::pad_string_null(name.to_string(), Self::MAX_NAME_LENGTH)
    }

    /// `description` cut or zero-padded to exactly 280 bytes.
    pub fn checked_desc(description: &str) -> (r: String)
        requires
            can_pad(description@, 280),
        ensures
            encode_utf8(r@) == padded(encode_utf8(description@), 280),
    {
        CandidateAccount::pad_string_null(description.to_string(), Self::MAX_DESCRIPTION_LENGTH)
    }

    pub fn try_from_slice(data: &[u8]) -> (r: Option<PollAccount>)
        ensures
            r matches Some(p) ==> poll_from_bytes(data@) == Some(p@),
            r is None ==> poll_from_bytes(data@) is None,
    {
        let (poll_id, p1) = match read_u64(data, 0) {
            Some(x) => x,
            None => return None,
        };
        let (poll_name, p2) = match read_str(data, p1) {
            Some(x) => x,
            None => return None,
        };
        let (poll_description, p3) = match read_str(data, p2) {
            Some(x) => x,
            None => return None,
        };
        let (poll_voting_start, p4) = match read_u64(data, p3) {
            Some(x) => x,
            None => return None,
        };
        let (poll_voting_end, p5) = match read_u64(data, p4) {
            Some(x) => x,
            None => return None,
        };
        let (poll_option_index, q) = match read_u64(data, p5) {
            Some(x) => x,
            None => return None,
        };
        if q == data.len() {
            Some(
                PollAccount {
                    poll_id,
                    poll_name,
                    poll_description,
                    poll_voting_start,
                    poll_voting_end,
                    poll_option_index,
                },
            )
        } else {
            None
        }
    }

    pub fn to_bytes(&self) -> (r: Vec<u8>)
        requires
            poll_fits(self@),
        ensures
            r@ == poll_bytes(self@),
    {
        let mut out: Vec<u8> = Vec::new();
        write_u64(&mut out, self.poll_id);
        write_str(&mut out, &self.poll_name);
        write_str(&mut out, &self.poll_description);
        write_u64(&mut out, self.poll_voting_start);
        write_u64(&mut out, self.poll_voting_end);
        write_u64(&mut out, self.poll_option_index);
        assert(out@ =~= poll_bytes(self@));
        out
    }

    /// Reads the poll held by an account's data; `InvalidAccountData`
    /// unless the data holds exactly one poll.
    pub fn load_mut(data: &[u8]) -> (r: Result<PollAccount, ProgramError>)
        ensures
            r matches Ok(p) ==> poll_from_bytes(data@) == Some(p@),
            r is Err ==> poll_from_bytes(data@) is None && r matches Err(
                ProgramError::InvalidAccountData,
            ),
    {
        match Self::try_from_slice(data) {
            Some(p) => Ok(p),
            None => Err(ProgramError::InvalidAccountData),
        }
    }

    /// Writes this poll into the front of `dst`; `InvalidAccountData` (with
    /// as much written as fits) where it does not fit.
    pub fn save(&self, dst: &mut [u8]) -> (r: Result<(), ProgramError>)
        requires
            poll_fits(self@),
        ensures
            final(dst)@ == overwritten(old(dst)@, poll_bytes(self@)),
            r is Ok <==> poll_bytes(self@).len() <= old(dst)@.len(),
            r is Err ==> r matches Err(ProgramError::InvalidAccountData),
    {
        let bytes = self.to_bytes();
        if write_into(dst, bytes.as_slice()) {
            Ok(())
        } else {
            Err(ProgramError::InvalidAccountData)
        }
    }
}

impl Default for PollAccount {
    /// A poll with id 0, a name of 50 `a` characters, a description of 280
    /// NUL characters, and zero start, end and candidate count.
    fn default() -> (r: Self)
        ensures
            r.poll_id == 0,
            encode_utf8(r.poll_name@) == repeated(97u8, 50),
            encode_utf8(r.poll_description@) == repeated(0u8, 280),
            r.poll_voting_start == 0,
            r.poll_voting_end == 0,
            r.poll_option_index == 0,
    {
        PollAccount {
            poll_id: 0,
            poll_name: repeated_string(97u8, Self::MAX_NAME_LENGTH),
            poll_description: repeated_string(0u8, Self::MAX_DESCRIPTION_LENGTH),
            poll_voting_start: 0,
            poll_voting_end: 0,
            poll_option_index: 0,
        }
    }
}

/// A poll written out reads back as itself, and bytes that hold a poll are
/// exactly that poll written out.
pub proof fn lemma_poll_roundtrip(p: PollView, b: Seq<u8>)
    ensures
        poll_fits(p) ==> poll_from_bytes(poll_bytes(p)) == Some(p),
        poll_from_bytes(b) matches Some(d) ==> poll_fits(d) && poll_bytes(d) == b,
{
    if poll_fits(p) {
        let e = poll_bytes(p);
        let a = ser_u64(p.poll_id);
        let n = ser_str(p.poll_name);
        let d = ser_str(p.poll_description);
        let s = ser_u64(p.poll_voting_start);
        let t = ser_u64(p.poll_voting_end);
        let i = ser_u64(p.poll_option_index);
        lemma_u64_len(p.poll_id);
        lemma_u64_len(p.poll_voting_start);
        lemma_u64_len(p.poll_voting_end);
        lemma_u64_len(p.poll_option_index);
        let o1 = 8int;
        let o2 = o1 + n.len();
        let o3 = o2 + d.len();
        let o4 = o3 + 8;
        let o5 = o4 + 8;
        assert(e.subrange(0, 8) =~= a);
        lemma_u64_framed(e, 0, p.poll_id);
        assert(e.subrange(o1, o2) =~= n);
        lemma_str_framed(e, o1, p.poll_name);
        assert(e.subrange(o2, o3) =~= d);
        lemma_str_framed(e, o2, p.poll_description);
        assert(e.subrange(o3, o4) =~= s);
        lemma_u64_framed(e, o3, p.poll_voting_start);
        assert(e.subrange(o4, o5) =~= t);
        lemma_u64_framed(e, o4, p.poll_voting_end);
        assert(e.subrange(o5, o5 + 8) =~= i);
        lemma_u64_framed(e, o5, p.poll_option_index);
    }
    if poll_from_bytes(b) is Some {
        lemma_u64_canonical(b, 0);
        lemma_str_canonical(b, 8);
        let (_, p2) = parse_str(b, 8).unwrap();
        lemma_str_canonical(b, p2);
        let (_, p3) = parse_str(b, p2).unwrap();
        lemma_u64_canonical(b, p3);
        lemma_u64_canonical(b, p3 + 8);
        lemma_u64_canonical(b, p3 + 16);
        assert(b =~= b.subrange(0, 8) + b.subrange(8, p2) + b.subrange(p2, p3) + b.subrange(
            p3,
            p3 + 8,
        ) + b.subrange(p3 + 8, p3 + 16) + b.subrange(p3 + 16, p3 + 24));
    }
}

/// What registering one more candidate in the poll's data answers, and what the data
/// then holds.
pub open spec fn register_effect(poll: Seq<u8>) -> (Result<(), ProgramError>, Seq<u8>) {
    match poll_from_bytes(poll) {
        None => (Err(ProgramError::InvalidAccountData), poll),
        Some(p) => (Ok(()), poll_bytes(incremented(p))),
    }
}

/// Registering a candidate in a poll read from some data and saving it
/// back loads, then registers, then saves exactly: the data then holds the
/// poll with one more candidate.
pub fn register_candidate(poll_data: &mut [u8]) -> (r: Result<(), ProgramError>)
    requires
        poll_from_bytes(old(poll_data)@) matches Some(p) ==> p.poll_option_index < u64::MAX,
    ensures
        (r, final(poll_data)@) == register_effect(old(poll_data)@),
{
    let mut poll = match PollAccount::load_mut(poll_data) {
        Ok(p) => p,
        Err(e) => return Err(e),
    };
    proof {
        lemma_poll_roundtrip(poll@, old(poll_data)@);
    }
    let ghost before = poll@;
    poll.increment_option_index();
    proof {
        lemma_u64_len(before.poll_option_index);
        lemma_u64_len(poll.poll_option_index);
        assert(poll_bytes(poll@).len() == poll_bytes(before).len());
    }
    let r = poll.save(poll_data);
    assert(poll_data@ =~= poll_bytes(poll@));
    match r {
        Ok(()) => Ok(()),
        Err(e) => Err(e),
    }
}

/// Registering a candidate is seen by the next load: the data then holds
/// the poll with one more candidate and everything else unchanged.
pub proof fn lemma_register_then_load(poll: Seq<u8>)
    requires
        register_effect(poll).0 is Ok,
    ensures
        poll_from_bytes(poll) matches Some(p) && poll_from_bytes(register_effect(poll).1) == Some(
            incremented(p),
        ) && incremented(p).poll_id == p.poll_id && incremented(p).poll_name == p.poll_name
            && incremented(p).poll_description == p.poll_description
            && incremented(p).poll_voting_start == p.poll_voting_start
            && incremented(p).poll_voting_end == p.poll_voting_end,
{
    let p = poll_from_bytes(poll).unwrap();
    lemma_poll_roundtrip(p, poll);
    lemma_poll_roundtrip(incremented(p), poll);
}

/// Saving a poll into data of exactly its written length and loading it
/// back gives the same poll.
pub proof fn lemma_poll_save_load(p: PollView, dst: Seq<u8>)
    requires
        poll_fits(p),
        dst.len() == poll_bytes(p).len(),
    ensures
        poll_from_bytes(overwritten(dst, poll_bytes(p))) == Some(p),
{
    let e = poll_bytes(p);
    assert(overwritten(dst, e) =~= e);
    lemma_poll_roundtrip(p, e);
}

} // verus!
