//! Text helpers that the rest of the bridge builds its strings with.

use vstd::prelude::*;
use vstd::utf8::*;

verus! {

/// `String::push` appends the one character to the end of the string and
/// leaves the characters before it as they were.
pub assume_specification[ String::push ](s: &mut String, ch: char)
    ensures
        final(s)@ == old(s)@.push(ch),
;

/// The text that `String::from_utf8_lossy` makes of `bytes`, whatever they
/// hold.
pub uninterp spec fn lossy_text(bytes: Seq<u8>) -> Seq<char>;

/// `String::from_utf8_lossy`, with the result moved into a `String` of its
/// own. The result depends on the bytes alone. Bytes that are valid UTF-8
/// come back as the text that they encode; of other bytes the contract only
/// names the result.
#[verifier::external_body]
pub(crate) fn decode_lossy(bytes: &[u8]) -> (text: String)
    ensures
        text@ == lossy_text(bytes@),
        valid_utf8(bytes@) ==> text@ == decode_utf8(bytes@),
{
    String::from_utf8_lossy(bytes).into_owned()
}

/// `String::from_utf8`: the text that the bytes encode where they are valid
/// UTF-8, and no text where they are not.
#[verifier::external_body]
pub(crate) fn decode_strict(bytes: Vec<u8>) -> (text: Option<String>)
    ensures
        text is Some <==> valid_utf8(bytes@),
        text matches Some(t) ==> t@ == decode_utf8(bytes@),
{
    match String::from_utf8(bytes) {
        Ok(t) => Some(t),
        Err(_) => None,
    }
}

/// Whether two texts hold the same characters.
pub fn text_eq(a: &str, b: &str) -> (same: bool)
    ensures
        same <==> a@ == b@,
{
    let x = a.as_bytes();
    let y = b.as_bytes();
    proof {
        encode_utf8_decode_utf8(a@);
        encode_utf8_decode_utf8(b@);
    }
    if x.len() != y.len() {
        return false;
    }
    let mut i: usize = 0;
    while i < x.len()
        invariant
            i <= x.len(),
            x.len() == y.len(),
            x@ == encode_utf8(a@),
            y@ == encode_utf8(b@),
            forall|k: int| 0 <= k < i ==> x@[k] == y@[k],
        decreases x.len() - i,
    {
        if x[i] != y[i] {
            return false;
        }
        i += 1;
    }
    assert(x@ =~= y@);
    true
}

/// The decimal digit that stands for `d`.
pub open spec fn digit(d: nat) -> char
    recommends
        d < 10,
{
    (('0' as u8) + (d as u8)) as char
}

/// The decimal numeral of `n`, without leading zeros.
pub open spec fn decimal(n: nat) -> Seq<char>
    decreases n,
{
    if n < 10 {
        seq![digit(n)]
    } else {
        decimal(n / 10).push(digit(n % 10))
    }
}

/// A result of two texts as plain values.
pub open spec fn text_result(r: Result<String, String>) -> Result<Seq<char>, Seq<char>> {
    match r {
        Ok(text) => Ok(text@),
        Err(text) => Err(text@),
    }
}

/// Appends the decimal numeral of `n` to `out`.
pub fn push_decimal(out: &mut String, n: u16)
    ensures
        final(out)@ == old(out)@ + decimal(n as nat),
    decreases n,
{
    if n >= 10 {
        push_decimal(out, n / 10);
    }
    let d: u8 = (n % 10) as u8;
    let c: char = (48u8 + d) as char;
    out.push(c);
}

} // verus!
