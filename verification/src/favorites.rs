//! A favourites record: a number, a colour and a list of hobbies: checking
//! the record an account holds, and setting its colour to blue.
//!
//! Account layout: the number (eight bytes little-endian), the colour as a
//! string, then the hobbies as a list of strings.
use crate::account::{is_owned_by, AccountMeta, ProgramError, Pubkey};
use crate::codec::{
    byte_len, lemma_str_canonical, lemma_str_framed, lemma_str_len, lemma_strs_canonical,
    lemma_strs_framed, lemma_u64_canonical, lemma_u64_framed, lemma_u64_len, overwritten,
    parse_str, parse_strs, parse_u64, read_str, read_strs, read_u64, ser_str, ser_strs, ser_u64,
    str_fits, strs_fit, write_into, write_str, write_strs, write_u64,
};
use vstd::prelude::*;
use vstd::utf8::encode_utf8;

verus! {

broadcast use vstd::string::group_string_axioms;

#[derive(Debug)]
pub struct Favorites {
    pub number: u64,
    pub color: String,
    pub hobbies: Vec<String>,
}

/// A favourites record as plain values: number, colour, hobbies.
pub type FavoritesView = (u64, Seq<char>, Seq<Seq<char>>);

impl View for Favorites {
    type V = FavoritesView;

    open spec fn view(&self) -> FavoritesView {
        (self.number, self.color@, self.hobbies.deep_view())
    }
}

/// The longest colour, in bytes, the program accepts.
pub const MAX_COLOR_LENGTH: usize = 50;

/// The most hobbies the program accepts.
pub const MAX_HOBBIES: usize = 50;

/// The fewest hobbies the program accepts.
pub const MIN_HOBBIES: usize = 5;

/// Whether every string of the record can be written out.
pub open spec fn favorites_fit(f: FavoritesView) -> bool {
    str_fits(f.1) && strs_fit(f.2)
}

pub open spec fn favorites_bytes(f: FavoritesView) -> Seq<u8> {
    ser_u64(f.0) + ser_str(f.1) + ser_strs(f.2)
}

pub open spec fn favorites_from_bytes(b: Seq<u8>) -> Option<FavoritesView> {
    match parse_u64(b, 0) {
        Some((number, p1)) => match parse_str(b, p1) {
            Some((color, p2)) => match parse_strs(b, p2) {
                Some((hobbies, q)) => if q == b.len() {
                    Some((number, color, hobbies))
                } else {
                    None
                },
                None => None,
            },
            None => None,
        },
        None => None,
    }
}

/// The colour the program writes: `blue`.
pub open spec fn blue() -> Seq<char> {
    seq!['b', 'l', 'u', 'e']
}

impl Favorites {
    pub fn try_from_slice(data: &[u8]) -> (r: Option<Favorites>)
        ensures
            r matches Some(f) ==> favorites_from_bytes(data@) == Some(f@),
            r is None ==> favorites_from_bytes(data@) is None,
    {
        let (number, p1) = match read_u64(data, 0) {
            Some(x) => x,
            None => return None,
        };
        let (color, p2) = match read_str(data, p1) {
            Some(x) => x,
            None => return None,
        };
        let (hobbies, q) = match read_strs(data, p2) {
            Some(x) => x,
            None => return None,
        };
        if q == data.len() {
            Some(Favorites { number, color, hobbies })
        } else {
            None
        }
    }

    pub fn to_bytes(&self) -> (r: Vec<u8>)
        requires
            favorites_fit(self@),
        ensures
            r@ == favorites_bytes(self@),
    {
        let mut out: Vec<u8> = Vec::new();
        write_u64(&mut out, self.number);
        write_str(&mut out, &self.color);
        write_strs(&mut out, &self.hobbies);
        assert(out@ =~= favorites_bytes(self@));
        out
    }
}

/// A record written out reads back as itself, and bytes that hold a record
/// are exactly that record written out.
pub proof fn lemma_favorites_roundtrip(f: FavoritesView, b: Seq<u8>)
    ensures
        favorites_fit(f) ==> favorites_from_bytes(favorites_bytes(f)) == Some(f),
        favorites_from_bytes(b) matches Some(g) ==> favorites_fit(g) && favorites_bytes(g) == b,
{
    if favorites_fit(f) {
        let x = ser_u64(f.0);
        let y = ser_str(f.1);
        let z = ser_strs(f.2);
        let ly = y.len() as int;
        let lz = z.len() as int;
        let e = favorites_bytes(f);
        lemma_u64_len(f.0);
        assert(e.subrange(0, 8) =~= x);
        lemma_u64_framed(e, 0, f.0);
        assert(e.subrange(8, 8 + ly) =~= y);
        lemma_str_framed(e, 8, f.1);
        assert(e.subrange(8 + ly, 8 + ly + lz) =~= z);
        lemma_strs_framed(e, 8 + ly, f.2);
    }
    if favorites_from_bytes(b) is Some {
        lemma_u64_canonical(b, 0);
        lemma_str_canonical(b, 8);
        let (_, p2) = parse_str(b, 8).unwrap();
        lemma_strs_canonical(b, p2);
        let (_, q) = parse_strs(b, p2).unwrap();
        assert(b =~= b.subrange(0, 8) + b.subrange(8, p2) + b.subrange(p2, q));
    }
}

/// Where the colour read was exactly four bytes long, the blue record fills
/// the data exactly and the next load reads it back: same number, same
/// hobbies, colour blue.
pub proof fn lemma_blue_record_reads_back(data: Seq<u8>)
    requires
        favorites_from_bytes(data) matches Some(f) && encode_utf8(f.1).len() == 4,
    ensures
        ({
            let f = favorites_from_bytes(data).unwrap();
            let new_bytes = favorites_bytes((f.0, blue(), f.2));
            &&& new_bytes.len() == data.len()
            &&& favorites_from_bytes(overwritten(data, new_bytes)) == Some((f.0, blue(), f.2))
        }),
{
    let f = favorites_from_bytes(data).unwrap();
    lemma_favorites_roundtrip(f, data);
    assert(encode_utf8(blue()).len() == 4) by {
        reveal_with_fuel(encode_utf8, 5);
    }
    lemma_str_len(f.1);
    lemma_str_len(blue());
    let g = (f.0, blue(), f.2);
    let new_bytes = favorites_bytes(g);
    assert(overwritten(data, new_bytes) =~= new_bytes);
    lemma_favorites_roundtrip(g, data);
}

/// What checking the first account and its record answers.
pub open spec fn check_result(program_id: Pubkey, account: AccountMeta, data: Seq<u8>) -> Result<
    (),
    ProgramError,
> {
    if !account.is_writable {
        Err(ProgramError::InvalidAccountData)
    } else if account.owner == program_id {
        Err(ProgramError::IncorrectProgramId)
    } else {
        match favorites_from_bytes(data) {
            None => Err(ProgramError::Custom(1)),
            Some(f) => if encode_utf8(f.1).len() > MAX_COLOR_LENGTH || f.2.len() > MAX_HOBBIES
                || f.2.len() < MIN_HOBBIES {
                Err(ProgramError::Custom(2))
            } else {
                Ok(())
            },
        }
    }
}

/// What setting the colour answers, and what the data then holds.
pub open spec fn blue_effect(data: Seq<u8>) -> (Result<(), ProgramError>, Seq<u8>) {
    match favorites_from_bytes(data) {
        None => (Err(ProgramError::Custom(1)), data),
        Some(f) => {
            let new_bytes = favorites_bytes((f.0, blue(), f.2));
            (
                if new_bytes.len() <= data.len() {
                    Ok(())
                } else {
                    Err(ProgramError::Custom(1))
                },
                overwritten(data, new_bytes),
            )
        },
    }
}

/// Checks the first account and the record it holds.
///
/// `data` is the first account's data. Fails with `InvalidAccountData`
/// where the account is not writable, `IncorrectProgramId` where it is
/// owned by `program_id`, `Custom(1)` where its data does not hold exactly
/// one record, and `Custom(2)` where the colour is longer than 50 bytes or
/// there are more than 50 or fewer than 5 hobbies.
pub fn check(program_id: &Pubkey, accounts: &[AccountMeta], data: &[u8]) -> (r: Result<
    (),
    ProgramError,
>)
    requires
        accounts@.len() > 0,
    ensures
        r == check_result(*program_id, accounts@[0], data@),
{
    let account = &accounts[0];
    if !account.is_writable {
        return Err(ProgramError::InvalidAccountData);
    }
    if is_owned_by(account, program_id) {
        return Err(ProgramError::IncorrectProgramId);
    }
    let favorites = match Favorites::try_from_slice(data) {
        Some(f) => f,
        None => return Err(ProgramError::Custom(1)),
    };
    if byte_len(&favorites.color) > MAX_COLOR_LENGTH {
        return Err(ProgramError::Custom(2));
    }
    if favorites.hobbies.len() > MAX_HOBBIES || favorites.hobbies.len() < MIN_HOBBIES {
        return Err(ProgramError::Custom(2));
    }
    Ok(())
}

/// Reads the record again and writes it back with colour `blue`.
///
/// Fails with `Custom(1)` where the data does not hold exactly one record;
/// otherwise the blue record is written into the front of the data: `Ok`
/// where it fits, `Custom(1)` (with as much written as fits) where it does
/// not.
pub fn set_color_blue(data: &mut [u8]) -> (r: Result<(), ProgramError>)
    ensures
        (r, final(data)@) == blue_effect(old(data)@),
{
    let favorites = match Favorites::try_from_slice(data) {
        Some(f) => f,
        None => return Err(ProgramError::Custom(1)),
    };
    proof {
        lemma_favorites_roundtrip(favorites@, old(data)@);
    }
    let mut favorites = favorites;
    favorites.color = "blue".to_string();
    proof {
        reveal_strlit("blue");
        assert(favorites.color@ == blue());
        assert(encode_utf8(blue()).len() == 4) by {
            reveal_with_fuel(encode_utf8, 5);
        }
    }
    let bytes = favorites.to_bytes();
    if write_into(data, bytes.as_slice()) {
        Ok(())
    } else {
        Err(ProgramError::Custom(1))
    }
}

/// Checks the first account and the record it holds, and answers the
/// check's error.
///
/// A record that passes [`check`] is left out by `requires`: there the
/// program borrows the account's data a second time while the first borrow
/// is held, and stops. [`set_color_blue`] is the change that second borrow
/// is for. The data is left as it was.
pub fn process_instruction(program_id: &Pubkey, accounts: &[AccountMeta], data: &mut [u8]) -> (r:
    Result<(), ProgramError>)
    requires
        accounts@.len() > 0,
        check_result(*program_id, accounts@[0], old(data)@) is Err,
    ensures
        r == check_result(*program_id, accounts@[0], old(data)@),
        final(data)@ == old(data)@,
{
    check(program_id, accounts, data)
}

} // verus!
