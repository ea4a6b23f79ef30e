//! Text utilities around platform wide-character buffers: process names
//! arrive as fixed-size, zero-padded UTF-16 arrays.

use vstd::prelude::*;

verus! {

/// What lossy UTF-16 decoding yields for a unit sequence; the result is a
/// function of the units alone.
pub uninterp spec fn lossy_utf16(units: Seq<u16>) -> Seq<char>;

/// Relies on `String::from_utf16_lossy`: the decoding depends on the units
/// alone, and an empty buffer decodes to the empty string.
#[verifier::external_body]
fn utf16_lossy(units: &[u16]) -> (r: String)
    ensures
        r@ == lossy_utf16(units@),
        units@.len() == 0 ==> r@.len() == 0,
{
    String::from_utf16_lossy(units)
}

/// The buffer with its zero padding removed.
pub open spec fn spec_trim_zero_units(s: Seq<u16>) -> Seq<u16>
    decreases s.len(),
{
    if s.len() > 0 && s.last() == 0 {
        spec_trim_zero_units(s.drop_last())
    } else {
        s
    }
}

/// The name held in a zero-padded wide-character buffer: everything up to
/// the trailing zero units, decoded lossily.
pub fn process_lossy_name(value: &[u16]) -> (r: String)
    ensures
        r@ == lossy_utf16(spec_trim_zero_units(value@)),
{
    let mut end = value.len();
    proof {
        assert(value@.subrange(0, value@.len() as int) =~= value@);
    }
    while end > 0 && value[end - 1] == 0
        invariant
            end <= value@.len(),
            spec_trim_zero_units(value@) == spec_trim_zero_units(value@.subrange(0, end as int)),
        decreases end,
    {
        proof {
            assert(value@.subrange(0, end as int).drop_last() =~= value@.subrange(
                0,
                end - 1,
            ));
        }
        end = end - 1;
    }
    proof {
        assert(value@.subrange(0, value@.len() as int) =~= value@);
        assert(spec_trim_zero_units(value@.subrange(0, end as int)) == value@.subrange(
            0,
            end as int,
        ));
    }
    utf16_lossy(&value[0..end])
}

} // verus!
