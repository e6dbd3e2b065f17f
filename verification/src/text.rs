//! Decoding of the fixed-width, nul-terminated UTF-16 text fields that the
//! configuration service stores interface descriptions and profile names in.
//!
//! Decoding is a total function with an explicit malformed outcome: a field
//! with no terminator inside its bounds is reported as such, never assumed
//! well-formed.

use vstd::prelude::*;

verus! {

/// Whether a fixed-width text field holds a nul terminator anywhere inside
/// its bounds.
pub open spec fn has_nul(s: Seq<u16>) -> bool {
    exists|i: int| 0 <= i < s.len() && s[i] == 0
}

/// Index of the first nul code unit. Meaningful only when `has_nul(s)` holds.
pub open spec fn first_nul(s: Seq<u16>) -> int
    decreases s.len(),
{
    if s.len() == 0 {
        0
    } else if s[0] == 0 {
        0
    } else {
        1 + first_nul(s.drop_first())
    }
}

/// `first_nul` really is the first terminator: it lands on a nul and nothing
/// before it is one.
pub proof fn lemma_first_nul(s: Seq<u16>)
    requires
        has_nul(s),
    ensures
        0 <= first_nul(s) < s.len(),
        s[first_nul(s)] == 0,
        forall|j: int| 0 <= j < first_nul(s) ==> s[j] != 0,
    decreases s.len(),
{
    if s.len() == 0 {
    } else if s[0] == 0 {
    } else {
        let t = s.drop_first();
        assert(has_nul(t)) by {
            let i = choose|i: int| 0 <= i < s.len() && s[i] == 0;
            assert(t[i - 1] == 0);
        }
        lemma_first_nul(t);
        assert forall|j: int| 0 <= j < first_nul(s) implies s[j] != 0 by {
            if j > 0 {
                assert(s[j] == t[j - 1]);
            }
        }
    }
}

/// The character sequence that lossy UTF-16 decoding yields for the given
/// code units. Its exact value is fixed by the decoder; contracts name it
/// rather than restate the UTF-16 algorithm.
pub uninterp spec fn utf16_decoded(s: Seq<u16>) -> Seq<char>;

/// Relies on `String::from_utf16_lossy`: the result is a pure function of the
/// code units alone, and decoding no code units yields the empty string.
#[verifier::external_body]
fn decode_utf16_units(units: &[u16]) -> (r: String)
    ensures
        r@ == utf16_decoded(units@),
        units@.len() == 0 ==> r@.len() == 0,
{
    String::from_utf16_lossy(units)
}

/// The text that a well-formed field decodes to: everything before the first
/// terminator, decoded. Meaningful only when `has_nul(s)` holds.
pub open spec fn field_text(s: Seq<u16>) -> Seq<char> {
    utf16_decoded(s.take(first_nul(s)))
}

/// Decode a fixed-width text field: the code units before the first nul
/// terminator, or `None` when no terminator lies inside the bounds.
pub fn parse_utf16_slice(field: &Vec<u16>) -> (r: Option<String>)
    ensures
        r is Some <==> has_nul(field@),
        r matches Some(t) ==> t@ == field_text(field@),
{
    let n = field.len();
    let mut i: usize = 0;
    while i < n
        invariant
            n == field@.len(),
            0 <= i <= n,
            forall|j: int| 0 <= j < i ==> field@[j] != 0,
        decreases n - i,
    {
        if field[i] == 0 {
            proof {
                lemma_first_nul(field@);
                assert(first_nul(field@) == i) by {
                    let f = first_nul(field@);
                    if f < i {
                        assert(field@[f] != 0);
                    }
                    if f > i {
                        assert(field@[i as int] != 0);
                    }
                }
            }
            let mut prefix: Vec<u16> = Vec::new();
            let mut k: usize = 0;
            while k < i
                invariant
                    0 <= k <= i < field@.len(),
                    prefix@ == field@.take(k as int),
                decreases i - k,
            {
                prefix.push(field[k]);
                proof {
                    assert(prefix@ =~= field@.take(k + 1));
                }
                k = k + 1;
            }
            let decoded = decode_utf16_units(prefix.as_slice());
            return Some(decoded);
        }
        i = i + 1;
    }
    None
}

} // verus!
