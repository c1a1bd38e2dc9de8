//! Module paths as nul-terminated UTF-16 strings, and their bytes.
use vstd::prelude::*;

verus! {

/// The UTF-16 code units of one character: itself below 0x10000, otherwise a
/// surrogate pair.
pub open spec fn utf16_units(c: char) -> Seq<u16> {
    let v = c as u32;
    if v < 0x10000 {
        seq![v as u16]
    } else {
        let w = (v - 0x10000) as u32;
        seq![(0xD800 + (w >> 10)) as u16, (0xDC00 + (w & 0x3FF)) as u16]
    }
}

/// The UTF-16 code units of a string.
pub open spec fn utf16_of(s: Seq<char>) -> Seq<u16>
    decreases s.len(),
{
    if s.len() == 0 {
        Seq::empty()
    } else {
        utf16_units(s[0]) + utf16_of(s.drop_first())
    }
}

/// No nul unit stands anywhere but in the last position.
pub open spec fn no_interior_nul(u: Seq<u16>) -> bool {
    forall|i: int| 0 <= i < u.len() - 1 ==> u[i] != 0
}

/// `u` with a nul unit at its end, added unless it is already there.
pub open spec fn with_nul(u: Seq<u16>) -> Seq<u16> {
    if u.len() > 0 && u.last() == 0 {
        u
    } else {
        u.push(0)
    }
}

/// Relies on `widestring::U16CString::from_str` and `into_vec_with_nul`: the string
/// encoded as UTF-16 (by `str::encode_utf16`), refused when a nul unit stands before the last position,
/// and otherwise nul-terminated.
#[verifier::external_body]
fn encode_wide_with_nul(s: &str) -> (r: Option<Vec<u16>>)
    ensures
        r is Some <==> no_interior_nul(utf16_of(s@)),
        r matches Some(v) ==> v@ == with_nul(utf16_of(s@)),
{
    widestring::U16CString::from_str(s).ok().map(|w| w.into_vec_with_nul())
}

/// The bytes of a sequence of UTF-16 units, each unit least significant byte first.
pub open spec fn u16s_le_bytes(u: Seq<u16>) -> Seq<u8> {
    Seq::new(
        2 * u.len(),
        |i: int|
            if i % 2 == 0 {
                (u[i / 2] & 0xff) as u8
            } else {
                (u[i / 2] >> 8) as u8
            },
    )
}

/// The little-endian bytes of `units`.
pub fn wide_to_le_bytes(units: &Vec<u16>) -> (r: Vec<u8>)
    requires
        2 * units@.len() <= usize::MAX,
    ensures
        r@ == u16s_le_bytes(units@),
{
    let mut r: Vec<u8> = Vec::new();
    let mut i: usize = 0;
    while i < units.len()
        invariant
            i <= units@.len(),
            r@.len() == 2 * i,
            forall|k: int| 0 <= k < 2 * i ==> r@[k] == u16s_le_bytes(units@)[k],
        decreases units@.len() - i,
    {
        let u = units[i];
        r.push((u & 0xff) as u8);
        r.push((u >> 8) as u8);
        proof {
            assert((2 * i) as int / 2 == i);
            assert((2 * i + 1) as int / 2 == i);
            assert((2 * i) as int % 2 == 0);
            assert((2 * i + 1) as int % 2 == 1);
        }
        i = i + 1;
    }
    assert(r@ =~= u16s_le_bytes(units@));
    r
}

/// The path can be passed as a nul-terminated wide string whose bytes fit in memory.
pub open spec fn wide_path_ok(path: Seq<char>) -> bool {
    no_interior_nul(utf16_of(path)) && 2 * with_nul(utf16_of(path)).len() <= usize::MAX
}

/// A module path as the bytes of a nul-terminated UTF-16 string; `None` where the
/// path holds a nul character before its end.
pub fn path_to_wide_bytes(path: &str) -> (r: Option<Vec<u8>>)
    ensures
        r is Some <==> wide_path_ok(path@),
        r matches Some(b) ==> b@ == u16s_le_bytes(with_nul(utf16_of(path@))),
{
    match encode_wide_with_nul(path) {
        Some(units) => {
            if units.len() > usize::MAX / 2 {
                return None;
            }
            Some(wide_to_le_bytes(&units))
        },
        None => None,
    }
}

} // verus!
