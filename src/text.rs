//! Host text as the host sees it: a sequence of code points, which may hold
//! values (such as lone surrogates) that no native `char` can carry.
use vstd::prelude::*;
use vstd::utf8::{char_is_scalar, char_u32_cast, encode_utf8, is_scalar};

verus! {

/// True when every code point of `units` is a Unicode scalar value.
pub open spec fn all_scalar(units: Seq<u32>) -> bool {
    forall|i: int| 0 <= i < units.len() ==> is_scalar(#[trigger] units[i])
}

/// The character of each code point, in order (meaningful where every code
/// point is a scalar value).
pub open spec fn chars_of(units: Seq<u32>) -> Seq<char> {
    units.map_values(|u: u32| u as char)
}

/// The code point of each character, in order.
pub open spec fn units_of(chars: Seq<char>) -> Seq<u32> {
    chars.map_values(|c: char| c as u32)
}

/// Why host text could not cross into native text.
#[derive(Debug, Clone, Copy, PartialEq, Eq, Structural)]
pub enum BoundaryError {
    /// The code point at `position` is not a Unicode scalar value (a lone
    /// surrogate, or a value past the last plane).
    Encoding { position: usize },
}

/// Relies on std's `char::from_u32`: `Some` exactly for a Unicode scalar
/// value, holding the character with that code point.
#[verifier::external_body]
fn char_of_unit(u: u32) -> (r: Option<char>)
    ensures
        r is Some <==> is_scalar(u),
        r matches Some(c) ==> c as u32 == u,
{
    char::from_u32(u)
}

/// Relies on std's `String::push`: appends one character at the end.
#[verifier::external_body]
fn push_char(s: &mut String, c: char)
    ensures
        final(s)@ == old(s)@.push(c),
{
    s.push(c)
}

/// Native text holding the characters of host text, or the position of the
/// first code point that no native character can carry.
pub fn to_native(units: &[u32]) -> (r: Result<String, BoundaryError>)
    ensures
        r is Ok <==> all_scalar(units@),
        r matches Ok(s) ==> s@ == chars_of(units@) && units_of(s@) == units@,
        r matches Err(BoundaryError::Encoding { position }) ==> {
            &&& position < units@.len()
            &&& !is_scalar(units@[position as int])
            &&& all_scalar(units@.take(position as int))
        },
{
    let mut s = String::new();
    let n = units.len();
    for i in 0..n
        invariant
            n == units@.len(),
            all_scalar(units@.take(i as int)),
            s@ == chars_of(units@.take(i as int)),
            units_of(s@) == units@.take(i as int),
    {
        match char_of_unit(units[i]) {
            Some(c) => {
                proof {
                    assert(units@.take(i + 1) =~= units@.take(i as int).push(units@[i as int]));
                    assert(units_of(s@.push(c)) =~= units_of(s@).push(c as u32));
                    char_u32_cast(c, units@[i as int]);
                }
                push_char(&mut s, c);
                assert(s@ =~= chars_of(units@.take(i + 1)));
            },
            None => {
                proof {
                    assert(!all_scalar(units@));
                }
                return Err(BoundaryError::Encoding { position: i });
            },
        }
    }
    proof {
        assert(units@.take(n as int) =~= units@);
    }
    Ok(s)
}

/// Host text made of the code points of a native string.
pub fn to_host(s: &str) -> (r: Vec<u32>)
    ensures
        r@ == units_of(s@),
{
    let mut r: Vec<u32> = Vec::new();
    for c in it: s.chars()
        invariant
            it.seq() == s@,
            r@ == units_of(s@.take(it.index() as int)),
    {
        r.push(c as u32);
    }
    proof {
        assert(s@.take(s@.len() as int) =~= s@);
    }
    r
}

/// What `to_native` owes for `units`: success exactly on scalar values, the
/// same characters on success, and the first offending position on failure.
pub open spec fn decoded_as(units: Seq<u32>, r: Result<String, BoundaryError>) -> bool {
    &&& (r is Ok <==> all_scalar(units))
    &&& (r matches Ok(s) ==> s@ == chars_of(units))
    &&& (r matches Err(BoundaryError::Encoding { position }) ==> {
        &&& position < units.len()
        &&& !is_scalar(units[position as int])
        &&& all_scalar(units.take(position as int))
    })
}

/// A decoding outcome with the native text seen as its characters.
pub open spec fn outcome_view(r: Result<String, BoundaryError>) -> Result<Seq<char>, BoundaryError> {
    match r {
        Ok(s) => Ok(s@),
        Err(e) => Err(e),
    }
}

/// A native result crosses the boundary unaltered: the host text made from
/// it holds only scalar values, one per character, and stands for exactly
/// the same characters.
pub proof fn lemma_output_unaltered(out: Seq<char>)
    ensures
        all_scalar(units_of(out)),
        units_of(out).len() == out.len(),
        chars_of(units_of(out)) == out,
{
    assert forall|i: int| 0 <= i < units_of(out).len() implies is_scalar(
        #[trigger] units_of(out)[i],
    ) by {
        char_is_scalar(out[i]);
    }
    assert forall|i: int| 0 <= i < out.len() implies #[trigger] chars_of(units_of(out))[i]
        == out[i] by {
        char_u32_cast(out[i], out[i] as u32);
    }
    assert(chars_of(units_of(out)) =~= out);
}

/// Native text carried into host text and back is the same text, down to
/// its UTF-8 bytes.
pub proof fn lemma_native_round_trip(s: Seq<char>)
    ensures
        chars_of(units_of(s)) == s,
        encode_utf8(chars_of(units_of(s))) == encode_utf8(s),
{
    lemma_output_unaltered(s);
}

/// Host text that crosses into native text and back comes out as the same
/// code points.
pub proof fn lemma_host_round_trip(units: Seq<u32>)
    requires
        all_scalar(units),
    ensures
        units_of(chars_of(units)) == units,
{
    assert forall|i: int| 0 <= i < units.len() implies #[trigger] units_of(chars_of(units))[i]
        == units[i] by {
        assert(is_scalar(units[i]));
    }
    assert(units_of(chars_of(units)) =~= units);
}

/// Decoding is deterministic: any two outcomes that meet the contract of
/// `to_native` on the same host text are the same outcome.
pub proof fn lemma_decoding_deterministic(
    units: Seq<u32>,
    r1: Result<String, BoundaryError>,
    r2: Result<String, BoundaryError>,
)
    requires
        decoded_as(units, r1),
        decoded_as(units, r2),
    ensures
        outcome_view(r1) == outcome_view(r2),
{
    if let (Err(BoundaryError::Encoding { position: p }), Err(BoundaryError::Encoding { position: q })) = (r1, r2) {
        if p < q {
            assert(units.take(q as int)[p as int] == units[p as int]);
        } else if q < p {
            assert(units.take(p as int)[q as int] == units[q as int]);
        }
    }
}

} // verus!
