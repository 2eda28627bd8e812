//! The voting program's instructions and their byte layout: a one-byte tag
//! (0, 1 or 2) followed by the instruction's fields.
use crate::codec::{
    lemma_str_canonical, lemma_str_framed, lemma_u64_canonical, lemma_u64_framed, lemma_u64_len,
    lemma_u8_canonical, lemma_u8_framed, parse_str, parse_u64, parse_u8, read_str, read_u64,
    read_u8, ser_str, ser_u64, ser_u8, str_fits, write_str, write_u64, write_u8,
};
use vstd::prelude::*;

pub mod initialize_candidate;
pub mod initialize_poll;
pub mod vote;

pub use initialize_candidate::initialize_candidate;
pub use initialize_poll::initialize_poll;
pub use vote::vote;

verus! {

#[derive(Debug)]
pub enum VotingInstruction {
    InitializePoll {
        poll_id: u64,
        name: String,
        description: String,
        start_time: u64,
        end_time: u64,
    },
    InitializeCandidate { poll_id: u64, candidate: String },
    Vote { poll_id: u64, candidate: String },
}

/// An instruction as plain values.
pub enum InstructionView {
    InitializePoll {
        poll_id: u64,
        name: Seq<char>,
        description: Seq<char>,
        start_time: u64,
        end_time: u64,
    },
    InitializeCandidate { poll_id: u64, candidate: Seq<char> },
    Vote { poll_id: u64, candidate: Seq<char> },
}

impl View for VotingInstruction {
    type V = InstructionView;

    open spec fn view(&self) -> InstructionView {
        match self {
            VotingInstruction::InitializePoll { poll_id, name, description, start_time, end_time } =>
                InstructionView::InitializePoll {
                poll_id: *poll_id,
                name: name@,
                description: description@,
                start_time: *start_time,
                end_time: *end_time,
            },
            VotingInstruction::InitializeCandidate { poll_id, candidate } =>
                InstructionView::InitializeCandidate { poll_id: *poll_id, candidate: candidate@ },
            VotingInstruction::Vote { poll_id, candidate } => InstructionView::Vote {
                poll_id: *poll_id,
                candidate: candidate@,
            },
        }
    }
}

pub open spec fn instruction_fits(i: InstructionView) -> bool {
    match i {
        InstructionView::InitializePoll { name, description, .. } => str_fits(name) && str_fits(
            description,
        ),
        InstructionView::InitializeCandidate { candidate, .. } => str_fits(candidate),
        InstructionView::Vote { candidate, .. } => str_fits(candidate),
    }
}

pub open spec fn instruction_bytes(i: InstructionView) -> Seq<u8> {
    match i {
        InstructionView::InitializePoll { poll_id, name, description, start_time, end_time } =>
            ser_u8(0) + ser_u64(poll_id) + ser_str(name) + ser_str(description) + ser_u64(
            start_time,
        ) + ser_u64(end_time),
        InstructionView::InitializeCandidate { poll_id, candidate } => ser_u8(1) + ser_u64(poll_id)
            + ser_str(candidate),
        InstructionView::Vote { poll_id, candidate } => ser_u8(2) + ser_u64(poll_id) + ser_str(
            candidate,
        ),
    }
}

/// The fields of the two instructions that carry an id and a candidate,
/// read from `pos` to the end of `b`.
pub open spec fn id_and_name_from(b: Seq<u8>, pos: int) -> Option<(u64, Seq<char>)> {
    match parse_u64(b, pos) {
        Some((poll_id, p)) => match parse_str(b, p) {
            Some((candidate, q)) => if q == b.len() {
                Some((poll_id, candidate))
            } else {
                None
            },
            None => None,
        },
        None => None,
    }
}

pub open spec fn instruction_from_bytes(b: Seq<u8>) -> Option<InstructionView> {
    match parse_u8(b, 0) {
        Some((tag, p0)) => if tag == 0 {
            match parse_u64(b, p0) {
                Some((poll_id, p1)) => match parse_str(b, p1) {
                    Some((name, p2)) => match parse_str(b, p2) {
                        Some((description, p3)) => match parse_u64(b, p3) {
                            Some((start_time, p4)) => match parse_u64(b, p4) {
                                Some((end_time, q)) => if q == b.len() {
                                    Some(
                                        InstructionView::InitializePoll {
                                            poll_id,
                                            name,
                                            description,
                                            start_time,
                                            end_time,
                                        },
                                    )
                                } else {
                                    None
                                },
                                None => None,
                            },
                            None => None,
                        },
                        None => None,
                    },
                    None => None,
                },
                None => None,
            }
        } else if tag == 1 {
            match id_and_name_from(b, p0) {
                Some((poll_id, candidate)) => Some(
                    InstructionView::InitializeCandidate { poll_id, candidate },
                ),
                None => None,
            }
        } else if tag == 2 {
            match id_and_name_from(b, p0) {
                Some((poll_id, candidate)) => Some(InstructionView::Vote { poll_id, candidate }),
                None => None,
            }
        } else {
            None
        },
        None => None,
    }
}

fn read_id_and_name(data: &[u8], pos: usize) -> (r: Option<(u64, String)>)
    ensures
        r matches Some((id, s)) ==> id_and_name_from(data@, pos as int) == Some((id, s@)),
        r is None ==> id_and_name_from(data@, pos as int) is None,
{
    let (poll_id, p) = match read_u64(data, pos) {
        Some(x) => x,
        None => return None,
    };
    let (candidate, q) = match read_str(data, p) {
        Some(x) => x,
        None => return None,
    };
    if q == data.len() {
        Some((poll_id, candidate))
    } else {
        None
    }
}

impl VotingInstruction {
    /// Reads an instruction from the whole of `data`; `None` unless `data`
    /// holds exactly one instruction.
    pub fn try_from_slice(data: &[u8]) -> (r: Option<VotingInstruction>)
        ensures
            r matches Some(i) ==> instruction_from_bytes(data@) == Some(i@),
            r is None ==> instruction_from_bytes(data@) is None,
    {
        let (tag, p0) = match read_u8(data, 0) {
            Some(x) => x,
            None => return None,
        };
        if tag == 0 {
            let (poll_id, p1) = match read_u64(data, p0) {
                Some(x) => x,
                None => return None,
            };
            let (name, p2) = match read_str(data, p1) {
                Some(x) => x,
                None => return None,
            };
            let (description, p3) = match read_str(data, p2) {
                Some(x) => x,
                None => return None,
            };
            let (start_time, p4) = match read_u64(data, p3) {
                Some(x) => x,
                None => return None,
            };
            let (end_time, q) = match read_u64(data, p4) {
                Some(x) => x,
                None => return None,
            };
            if q == data.len() {
                Some(
                    VotingInstruction::InitializePoll {
                        poll_id,
                        name,
                        description,
                        start_time,
                        end_time,
                    },
                )
            } else {
                None
            }
        } else if tag == 1 {
            match read_id_and_name(data, p0) {
                Some((poll_id, candidate)) => Some(
                    VotingInstruction::InitializeCandidate { poll_id, candidate },
                ),
                None => None,
            }
        } else if tag == 2 {
            match read_id_and_name(data, p0) {
                Some((poll_id, candidate)) => Some(VotingInstruction::Vote { poll_id, candidate }),
                None => None,
            }
        } else {
            None
        }
    }

    pub fn to_bytes(&self) -> (r: Vec<u8>)
        requires
            instruction_fits(self@),
        ensures
            r@ == instruction_bytes(self@),
    {
        let mut out: Vec<u8> = Vec::new();
        match self {
            VotingInstruction::InitializePoll { poll_id, name, description, start_time, end_time } =>
                {
                write_u8(&mut out, 0);
                write_u64(&mut out, *poll_id);
                write_str(&mut out, name);
                write_str(&mut out, description);
                write_u64(&mut out, *start_time);
                write_u64(&mut out, *end_time);
            },
            VotingInstruction::InitializeCandidate { poll_id, candidate } => {
                write_u8(&mut out, 1);
                write_u64(&mut out, *poll_id);
                write_str(&mut out, candidate);
            },
            VotingInstruction::Vote { poll_id, candidate } => {
                write_u8(&mut out, 2);
                write_u64(&mut out, *poll_id);
                write_str(&mut out, candidate);
            },
        }
        assert(out@ =~= instruction_bytes(self@));
        out
    }
}

proof fn lemma_id_and_name_roundtrip(e: Seq<u8>, id: u64, name: Seq<char>)
    requires
        str_fits(name),
        e.len() == 1 + 8 + ser_str(name).len(),
        e.subrange(1, 9) == ser_u64(id),
        e.subrange(9, e.len() as int) == ser_str(name),
    ensures
        id_and_name_from(e, 1) == Some((id, name)),
{
    lemma_u64_framed(e, 1, id);
    lemma_str_framed(e, 9, name);
}

proof fn lemma_id_and_name_canonical(b: Seq<u8>)
    requires
        id_and_name_from(b, 1) is Some,
    ensures
        id_and_name_from(b, 1) matches Some((id, name)) && str_fits(name) && b.subrange(1, 9)
            == ser_u64(id) && b.subrange(9, b.len() as int) == ser_str(name),
{
    lemma_u64_canonical(b, 1);
    lemma_str_canonical(b, 9);
}

/// An instruction written out reads back as itself, and bytes that hold an
/// instruction are exactly that instruction written out.
pub proof fn lemma_instruction_roundtrip(i: InstructionView, b: Seq<u8>)
    ensures
        instruction_fits(i) ==> instruction_from_bytes(instruction_bytes(i)) == Some(i),
        instruction_from_bytes(b) matches Some(j) ==> instruction_fits(j) && instruction_bytes(j)
            == b,
{
    if instruction_fits(i) {
        let e = instruction_bytes(i);
        match i {
            InstructionView::InitializePoll { poll_id, name, description, start_time, end_time } => {
                lemma_u64_len(poll_id);
                lemma_u64_len(start_time);
                lemma_u64_len(end_time);
                let o2 = 9 + ser_str(name).len() as int;
                let o3 = o2 + ser_str(description).len() as int;
                assert(e.subrange(0, 1) =~= ser_u8(0));
                lemma_u8_framed(e, 0, 0);
                assert(e.subrange(1, 9) =~= ser_u64(poll_id));
                lemma_u64_framed(e, 1, poll_id);
                assert(e.subrange(9, o2) =~= ser_str(name));
                lemma_str_framed(e, 9, name);
                assert(e.subrange(o2, o3) =~= ser_str(description));
                lemma_str_framed(e, o2, description);
                assert(e.subrange(o3, o3 + 8) =~= ser_u64(start_time));
                lemma_u64_framed(e, o3, start_time);
                assert(e.subrange(o3 + 8, o3 + 16) =~= ser_u64(end_time));
                lemma_u64_framed(e, o3 + 8, end_time);
            },
            InstructionView::InitializeCandidate { poll_id, candidate } => {
                lemma_u64_len(poll_id);
                assert(e.subrange(0, 1) =~= ser_u8(1));
                lemma_u8_framed(e, 0, 1);
                assert(e.subrange(1, 9) =~= ser_u64(poll_id));
                assert(e.subrange(9, e.len() as int) =~= ser_str(candidate));
                lemma_id_and_name_roundtrip(e, poll_id, candidate);
            },
            InstructionView::Vote { poll_id, candidate } => {
                lemma_u64_len(poll_id);
                assert(e.subrange(0, 1) =~= ser_u8(2));
                lemma_u8_framed(e, 0, 2);
                assert(e.subrange(1, 9) =~= ser_u64(poll_id));
                assert(e.subrange(9, e.len() as int) =~= ser_str(candidate));
                lemma_id_and_name_roundtrip(e, poll_id, candidate);
            },
        }
    }
    if instruction_from_bytes(b) is Some {
        lemma_u8_canonical(b, 0);
        let tag = b[0];
        if tag == 0 {
            lemma_u64_canonical(b, 1);
            lemma_str_canonical(b, 9);
            let (_, p2) = parse_str(b, 9).unwrap();
            lemma_str_canonical(b, p2);
            let (_, p3) = parse_str(b, p2).unwrap();
            lemma_u64_canonical(b, p3);
            lemma_u64_canonical(b, p3 + 8);
            assert(b =~= b.subrange(0, 1) + b.subrange(1, 9) + b.subrange(9, p2) + b.subrange(
                p2,
                p3,
            ) + b.subrange(p3, p3 + 8) + b.subrange(p3 + 8, p3 + 16));
        } else {
            lemma_id_and_name_canonical(b);
            assert(b =~= b.subrange(0, 1) + b.subrange(1, 9) + b.subrange(9, b.len() as int));
        }
    }
}

} // verus!
