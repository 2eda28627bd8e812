//! The byte layout in which these programs keep accounts and read
//! instructions: fixed-width integers little-endian, a string as its UTF-8
//! byte length (four bytes, little-endian) followed by its bytes, a list as
//! its element count (four bytes) followed by the elements, and a record as
//! its fields one after another.
//!
//! Parsers are stated position by position: `parse_x(b, pos)` is the value
//! found at `pos` in `b` and the position just after it, or `None` where `b`
//! holds no such value there.
use vstd::bytes::*;
use vstd::prelude::*;
use vstd::slice::slice_to_vec;
use vstd::utf8::*;

verus! {

broadcast use vstd::utf8::encode_utf8_valid_utf8, vstd::utf8::encode_utf8_decode_utf8;

// ---------------------------------------------------------------------------
// Encodings
pub open spec fn ser_u8(x: u8) -> Seq<u8> {
    seq![x]
}

pub open spec fn ser_u32(x: u32) -> Seq<u8> {
    spec_u32_to_le_bytes(x)
}

pub open spec fn ser_u64(x: u64) -> Seq<u8> {
    spec_u64_to_le_bytes(x)
}

/// A string can be written only where its byte length fits the four-byte
/// length prefix.
pub open spec fn str_fits(s: Seq<char>) -> bool {
    encode_utf8(s).len() <= u32::MAX
}

pub open spec fn ser_str(s: Seq<char>) -> Seq<u8> {
    ser_u32(encode_utf8(s).len() as u32) + encode_utf8(s)
}

pub open spec fn strs_fit(v: Seq<Seq<char>>) -> bool {
    &&& v.len() <= u32::MAX
    &&& forall|i: int| 0 <= i < v.len() ==> str_fits(#[trigger] v[i])
}

/// The strings of a list, one after another, without the count.
pub open spec fn ser_str_items(v: Seq<Seq<char>>) -> Seq<u8>
    decreases v.len(),
{
    if v.len() == 0 {
        seq![]
    } else {
        ser_str_items(v.drop_last()) + ser_str(v.last())
    }
}

pub open spec fn ser_strs(v: Seq<Seq<char>>) -> Seq<u8> {
    ser_u32(v.len() as u32) + ser_str_items(v)
}

// ---------------------------------------------------------------------------
// Parsers
pub open spec fn parse_u8(b: Seq<u8>, pos: int) -> Option<(u8, int)> {
    if 0 <= pos < b.len() {
        Some((b[pos], pos + 1))
    } else {
        None
    }
}

pub open spec fn parse_u32(b: Seq<u8>, pos: int) -> Option<(u32, int)> {
    if 0 <= pos && pos + 4 <= b.len() {
        Some((spec_u32_from_le_bytes(b.subrange(pos, pos + 4)), pos + 4))
    } else {
        None
    }
}

pub open spec fn parse_u64(b: Seq<u8>, pos: int) -> Option<(u64, int)> {
    if 0 <= pos && pos + 8 <= b.len() {
        Some((spec_u64_from_le_bytes(b.subrange(pos, pos + 8)), pos + 8))
    } else {
        None
    }
}

/// A length, then that many bytes, which must be valid UTF-8.
pub open spec fn parse_str(b: Seq<u8>, pos: int) -> Option<(Seq<char>, int)> {
    match parse_u32(b, pos) {
        Some((n, p)) => if p + n <= b.len() && valid_utf8(b.subrange(p, p + n)) {
            Some((decode_utf8(b.subrange(p, p + n)), p + n))
        } else {
            None
        },
        None => None,
    }
}

/// `n` strings one after another.
pub open spec fn parse_str_items(b: Seq<u8>, pos: int, n: nat) -> Option<(Seq<Seq<char>>, int)>
    decreases n,
{
    if n == 0 {
        Some((seq![], pos))
    } else {
        match parse_str_items(b, pos, (n - 1) as nat) {
            Some((xs, p)) => match parse_str(b, p) {
                Some((s, q)) => Some((xs.push(s), q)),
                None => None,
            },
            None => None,
        }
    }
}

pub open spec fn parse_strs(b: Seq<u8>, pos: int) -> Option<(Seq<Seq<char>>, int)> {
    match parse_u32(b, pos) {
        Some((n, p)) => parse_str_items(b, p, n as nat),
        None => None,
    }
}

// ---------------------------------------------------------------------------
// Lemmas: a value written at a position is read back there, and what is read
// is exactly what was written there.
pub proof fn lemma_u8_framed(b: Seq<u8>, pos: int, x: u8)
    requires
        0 <= pos,
        pos + 1 <= b.len(),
        b.subrange(pos, pos + 1) == ser_u8(x),
    ensures
        parse_u8(b, pos) == Some((x, pos + 1)),
{
    assert(b.subrange(pos, pos + 1)[0] == b[pos]);
}

pub proof fn lemma_u8_canonical(b: Seq<u8>, pos: int)
    requires
        parse_u8(b, pos) is Some,
    ensures
        parse_u8(b, pos) matches Some((x, q)) && q == pos + 1 && b.subrange(pos, q) == ser_u8(x),
{
    assert(b.subrange(pos, pos + 1) =~= seq![b[pos]]);
}

pub proof fn lemma_u32_framed(b: Seq<u8>, pos: int, x: u32)
    requires
        0 <= pos,
        pos + 4 <= b.len(),
        b.subrange(pos, pos + 4) == ser_u32(x),
    ensures
        parse_u32(b, pos) == Some((x, pos + 4)),
{
    lemma_auto_spec_u32_to_from_le_bytes();
    assert(spec_u32_to_le_bytes(x).len() == 4);
}

pub proof fn lemma_u32_canonical(b: Seq<u8>, pos: int)
    requires
        parse_u32(b, pos) is Some,
    ensures
        parse_u32(b, pos) matches Some((x, q)) && q == pos + 4 && b.subrange(pos, q) == ser_u32(
            x,
        ),
{
    lemma_auto_spec_u32_to_from_le_bytes();
    assert(b.subrange(pos, pos + 4).len() == 4);
}

pub proof fn lemma_u32_len(x: u32)
    ensures
        ser_u32(x).len() == 4,
{
    lemma_auto_spec_u32_to_from_le_bytes();
}

pub proof fn lemma_u64_len(x: u64)
    ensures
        ser_u64(x).len() == 8,
{
    lemma_auto_spec_u64_to_from_le_bytes();
}

pub proof fn lemma_u64_framed(b: Seq<u8>, pos: int, x: u64)
    requires
        0 <= pos,
        pos + 8 <= b.len(),
        b.subrange(pos, pos + 8) == ser_u64(x),
    ensures
        parse_u64(b, pos) == Some((x, pos + 8)),
{
    lemma_auto_spec_u64_to_from_le_bytes();
    assert(spec_u64_to_le_bytes(x).len() == 8);
}

pub proof fn lemma_u64_canonical(b: Seq<u8>, pos: int)
    requires
        parse_u64(b, pos) is Some,
    ensures
        parse_u64(b, pos) matches Some((x, q)) && q == pos + 8 && b.subrange(pos, q) == ser_u64(
            x,
        ),
{
    lemma_auto_spec_u64_to_from_le_bytes();
    assert(b.subrange(pos, pos + 8).len() == 8);
}

pub proof fn lemma_str_len(s: Seq<char>)
    ensures
        ser_str(s).len() == 4 + encode_utf8(s).len(),
{
    lemma_u32_len(encode_utf8(s).len() as u32);
}

pub proof fn lemma_str_framed(b: Seq<u8>, pos: int, s: Seq<char>)
    requires
        str_fits(s),
        0 <= pos,
        pos + ser_str(s).len() <= b.len(),
        b.subrange(pos, pos + ser_str(s).len()) == ser_str(s),
    ensures
        parse_str(b, pos) == Some((s, pos + ser_str(s).len())),
{
    let e = encode_utf8(s);
    let n = e.len() as u32;
    lemma_str_len(s);
    let whole = b.subrange(pos, pos + ser_str(s).len());
    assert(b.subrange(pos, pos + 4) =~= whole.subrange(0, 4));
    assert(whole.subrange(0, 4) =~= ser_u32(n));
    lemma_u32_framed(b, pos, n);
    assert(b.subrange(pos + 4, pos + 4 + n) =~= whole.subrange(4, 4 + n as int));
    assert(whole.subrange(4, 4 + n as int) =~= e);
}

pub proof fn lemma_str_canonical(b: Seq<u8>, pos: int)
    requires
        parse_str(b, pos) is Some,
    ensures
        parse_str(b, pos) matches Some((s, q)) && str_fits(s) && q == pos + ser_str(s).len()
            && b.subrange(pos, q) == ser_str(s),
{
    lemma_u32_canonical(b, pos);
    let (n, p) = parse_u32(b, pos).unwrap();
    let bytes = b.subrange(p, p + n);
    vstd::utf8::decode_utf8_encode_utf8(bytes);
    let s = decode_utf8(bytes);
    assert(encode_utf8(s) == bytes);
    lemma_str_len(s);
    assert(b.subrange(pos, p + n) =~= b.subrange(pos, p) + bytes);
}

pub proof fn lemma_str_items_framed(b: Seq<u8>, pos: int, v: Seq<Seq<char>>)
    requires
        forall|i: int| 0 <= i < v.len() ==> str_fits(#[trigger] v[i]),
        0 <= pos,
        pos + ser_str_items(v).len() <= b.len(),
        b.subrange(pos, pos + ser_str_items(v).len()) == ser_str_items(v),
    ensures
        parse_str_items(b, pos, v.len()) == Some((v, pos + ser_str_items(v).len())),
    decreases v.len(),
{
    if v.len() > 0 {
        let init = v.drop_last();
        let a = ser_str_items(init);
        let c = ser_str(v.last());
        let whole = b.subrange(pos, pos + a.len() + c.len());
        assert(whole == a + c);
        assert(b.subrange(pos, pos + a.len()) =~= whole.subrange(0, a.len() as int));
        assert(whole.subrange(0, a.len() as int) =~= a);
        assert(forall|i: int| 0 <= i < init.len() ==> init[i] == v[i]);
        lemma_str_items_framed(b, pos, init);
        assert(b.subrange(pos + a.len(), pos + a.len() + c.len()) =~= whole.subrange(
            a.len() as int,
            (a.len() + c.len()) as int,
        ));
        assert(whole.subrange(a.len() as int, (a.len() + c.len()) as int) =~= c);
        assert(str_fits(v[v.len() - 1]));
        lemma_str_framed(b, pos + a.len(), v.last());
        assert(init.push(v.last()) =~= v);
    } else {
        assert(v =~= seq![]);
    }
}

pub proof fn lemma_str_items_canonical(b: Seq<u8>, pos: int, n: nat)
    requires
        0 <= pos <= b.len(),
        parse_str_items(b, pos, n) is Some,
    ensures
        parse_str_items(b, pos, n) matches Some((v, q)) && v.len() == n && (forall|i: int|
            0 <= i < v.len() ==> str_fits(#[trigger] v[i])) && pos <= q <= b.len() && q == pos
            + ser_str_items(v).len() && b.subrange(pos, q) == ser_str_items(v),
    decreases n,
{
    if n > 0 {
        lemma_str_items_canonical(b, pos, (n - 1) as nat);
        let (xs, p) = parse_str_items(b, pos, (n - 1) as nat).unwrap();
        lemma_str_canonical(b, p);
        let (s, q) = parse_str(b, p).unwrap();
        let v = xs.push(s);
        assert(v.drop_last() =~= xs);
        assert(b.subrange(pos, q) =~= b.subrange(pos, p) + b.subrange(p, q));
        assert forall|i: int| 0 <= i < v.len() implies str_fits(#[trigger] v[i]) by {
            if i < xs.len() {
                assert(v[i] == xs[i]);
            }
        }
    } else {
        assert(b.subrange(pos, pos) =~= seq![]);
    }
}

pub proof fn lemma_strs_framed(b: Seq<u8>, pos: int, v: Seq<Seq<char>>)
    requires
        strs_fit(v),
        0 <= pos,
        pos + ser_strs(v).len() <= b.len(),
        b.subrange(pos, pos + ser_strs(v).len()) == ser_strs(v),
    ensures
        parse_strs(b, pos) == Some((v, pos + ser_strs(v).len())),
{
    let a = ser_u32(v.len() as u32);
    let c = ser_str_items(v);
    lemma_u32_len(v.len() as u32);
    let whole = b.subrange(pos, pos + ser_strs(v).len());
    assert(b.subrange(pos, pos + 4) =~= whole.subrange(0, 4));
    assert(whole.subrange(0, 4) =~= a);
    lemma_u32_framed(b, pos, v.len() as u32);
    assert(b.subrange(pos + 4, pos + 4 + c.len()) =~= whole.subrange(4, (4 + c.len()) as int));
    assert(whole.subrange(4, (4 + c.len()) as int) =~= c);
    lemma_str_items_framed(b, pos + 4, v);
}

pub proof fn lemma_strs_canonical(b: Seq<u8>, pos: int)
    requires
        parse_strs(b, pos) is Some,
    ensures
        parse_strs(b, pos) matches Some((v, q)) && strs_fit(v) && q == pos + ser_strs(v).len()
            && b.subrange(pos, q) == ser_strs(v),
{
    lemma_u32_canonical(b, pos);
    let (n, p) = parse_u32(b, pos).unwrap();
    lemma_str_items_canonical(b, p, n as nat);
    let (v, q) = parse_str_items(b, p, n as nat).unwrap();
    assert(b.subrange(pos, q) =~= b.subrange(pos, p) + b.subrange(p, q));
}

// ---------------------------------------------------------------------------
// Reading
/// Builds a `String` from bytes; `None` where the bytes are not UTF-8.
///
/// Calls `String::from_utf8`, which std documents as failing exactly on
/// bytes that are not valid UTF-8 and otherwise holding those bytes; stated
/// here over vstd's UTF-8 decoding.
#[verifier::external_body]
pub fn string_from_utf8(bytes: Vec<u8>) -> (r: Option<String>)
    ensures
        r is Some <==> valid_utf8(bytes@),
        r matches Some(s) ==> s@ == decode_utf8(bytes@),
{
    String::from_utf8(bytes).ok()
}

/// The length of a string in bytes.
pub fn byte_len(s: &String) -> (n: usize)
    ensures
        n == encode_utf8(s@).len(),
{
    s.as_str().as_bytes().len()
}

pub fn read_u8(b: &[u8], pos: usize) -> (r: Option<(u8, usize)>)
    ensures
        r matches Some((v, q)) ==> parse_u8(b@, pos as int) == Some((v, q as int)),
        r is None ==> parse_u8(b@, pos as int) is None,
{
    if pos < b.len() {
        Some((b[pos], pos + 1))
    } else {
        None
    }
}

pub fn read_u32(b: &[u8], pos: usize) -> (r: Option<(u32, usize)>)
    ensures
        r matches Some((v, q)) ==> parse_u32(b@, pos as int) == Some((v, q as int)),
        r is None ==> parse_u32(b@, pos as int) is None,
{
    if pos <= b.len() && 4 <= b.len() - pos {
        let s = &b[pos..pos + 4];
        let v = u32_from_le_bytes(s);
        Some((v, pos + 4))
    } else {
        None
    }
}

pub fn read_u64(b: &[u8], pos: usize) -> (r: Option<(u64, usize)>)
    ensures
        r matches Some((v, q)) ==> parse_u64(b@, pos as int) == Some((v, q as int)),
        r is None ==> parse_u64(b@, pos as int) is None,
{
    if pos <= b.len() && 8 <= b.len() - pos {
        let s = &b[pos..pos + 8];
        let v = u64_from_le_bytes(s);
        Some((v, pos + 8))
    } else {
        None
    }
}

pub fn read_str(b: &[u8], pos: usize) -> (r: Option<(String, usize)>)
    ensures
        r matches Some((s, q)) ==> parse_str(b@, pos as int) == Some((s@, q as int)),
        r is None ==> parse_str(b@, pos as int) is None,
{
    match read_u32(b, pos) {
        None => None,
        Some((n, p)) => {
            let n = n as usize;
            if n <= b.len() - p {
                let bytes = slice_to_vec(&b[p..p + n]);
                match string_from_utf8(bytes) {
                    Some(s) => Some((s, p + n)),
                    None => None,
                }
            } else {
                None
            }
        },
    }
}

pub fn read_strs(b: &[u8], pos: usize) -> (r: Option<(Vec<String>, usize)>)
    ensures
        r matches Some((xs, q)) ==> parse_strs(b@, pos as int) == Some((xs.deep_view(), q as int)),
        r is None ==> parse_strs(b@, pos as int) is None,
{
    match read_u32(b, pos) {
        None => None,
        Some((n, p)) => {
            let mut out: Vec<String> = Vec::new();
            let mut cur = p;
            let mut i: u32 = 0;
            while i < n
                invariant
                    i <= n,
                    p <= cur <= b@.len(),
                    parse_u32(b@, pos as int) == Some((n, p as int)),
                    parse_str_items(b@, p as int, i as nat) == Some((out.deep_view(), cur as int)),
                decreases n - i,
            {
                proof {
                    lemma_str_items_canonical(b@, p as int, i as nat);
                }
                match read_str(b, cur) {
                    None => {
                        assert(parse_str_items(b@, p as int, (i + 1) as nat) is None);
                        assert forall|k: nat| k > i implies parse_str_items(
                            b@,
                            p as int,
                            k,
                        ) is None by {
                            lemma_str_items_none_after(b@, p as int, (i + 1) as nat, k);
                        }
                        return None;
                    },
                    Some((s, q)) => {
                        let ghost old_view = out.deep_view();
                        out.push(s);
                        assert(out.deep_view() =~= old_view.push(s@));
                        cur = q;
                        i = i + 1;
                    },
                }
            }
            Some((out, cur))
        },
    }
}

/// Once `n` strings cannot be read, no longer list can.
pub proof fn lemma_str_items_none_after(b: Seq<u8>, pos: int, n: nat, k: nat)
    requires
        parse_str_items(b, pos, n) is None,
        n <= k,
    ensures
        parse_str_items(b, pos, k) is None,
    decreases k - n,
{
    if n < k {
        lemma_str_items_none_after(b, pos, n, (k - 1) as nat);
    }
}

// ---------------------------------------------------------------------------
// Writing
pub fn append_bytes(out: &mut Vec<u8>, src: &[u8])
    ensures
        final(out)@ == old(out)@ + src@,
{
    let mut v = slice_to_vec(src);
    out.append(&mut v);
}

pub fn write_u8(out: &mut Vec<u8>, x: u8)
    ensures
        final(out)@ == old(out)@ + ser_u8(x),
{
    out.push(x);
}

pub fn write_u32(out: &mut Vec<u8>, x: u32)
    ensures
        final(out)@ == old(out)@ + ser_u32(x),
{
    let mut v = u32_to_le_bytes(x);
    out.append(&mut v);
}

pub fn write_u64(out: &mut Vec<u8>, x: u64)
    ensures
        final(out)@ == old(out)@ + ser_u64(x),
{
    let mut v = u64_to_le_bytes(x);
    out.append(&mut v);
}

pub fn write_str(out: &mut Vec<u8>, s: &String)
    requires
        str_fits(s@),
    ensures
        final(out)@ == old(out)@ + ser_str(s@),
{
    let bytes = s.as_str().as_bytes();
    write_u32(out, bytes.len() as u32);
    append_bytes(out, bytes);
    assert(final(out)@ =~= old(out)@ + ser_str(s@));
}

pub fn write_strs(out: &mut Vec<u8>, v: &Vec<String>)
    requires
        strs_fit(v.deep_view()),
    ensures
        final(out)@ == old(out)@ + ser_strs(v.deep_view()),
{
    let ghost start = old(out)@;
    write_u32(out, v.len() as u32);
    let ghost mid = out@;
    let mut i: usize = 0;
    while i < v.len()
        invariant
            i <= v.len(),
            strs_fit(v.deep_view()),
            mid == start + ser_u32(v.len() as u32),
            out@ == mid + ser_str_items(v.deep_view().take(i as int)),
        decreases v.len() - i,
    {
        assert(str_fits(v.deep_view()[i as int]));
        write_str(out, &v[i]);
        assert(v.deep_view().take(i + 1).drop_last() =~= v.deep_view().take(i as int));
        assert(out@ =~= mid + ser_str_items(v.deep_view().take(i + 1)));
        i = i + 1;
    }
    assert(v.deep_view().take(v.len() as int) =~= v.deep_view());
    assert(out@ =~= start + ser_strs(v.deep_view()));
}

// ---------------------------------------------------------------------------
// Writing a value into an account's data
/// What writing `src` into the front of a buffer holding `dst` leaves there:
/// `src` followed by the rest of `dst` where it fits, otherwise as much of
/// `src` as fits.
pub open spec fn overwritten(dst: Seq<u8>, src: Seq<u8>) -> Seq<u8> {
    if src.len() <= dst.len() {
        src + dst.skip(src.len() as int)
    } else {
        src.take(dst.len() as int)
    }
}

/// Writes `src` into the front of `dst`, keeping `dst`'s length; reports
/// whether all of `src` fitted.
pub fn write_into(dst: &mut [u8], src: &[u8]) -> (fits: bool)
    ensures
        fits == (src@.len() <= old(dst)@.len()),
        final(dst)@ == overwritten(old(dst)@, src@),
{
    let n = if src.len() <= dst.len() {
        src.len()
    } else {
        dst.len()
    };
    let mut i: usize = 0;
    while i < n
        invariant
            n <= src@.len(),
            n <= old(dst)@.len(),
            n == src@.len() || n == old(dst)@.len(),
            0 <= i <= n,
            dst@.len() == old(dst)@.len(),
            forall|j: int| 0 <= j < i ==> dst@[j] == src@[j],
            forall|j: int| i <= j < dst@.len() ==> dst@[j] == old(dst)@[j],
        decreases n - i,
    {
        dst[i] = src[i];
        i = i + 1;
    }
    assert(dst@ =~= overwritten(old(dst)@, src@));
    src.len() <= dst.len()
}

} // verus!
