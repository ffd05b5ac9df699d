//! Standard base64 (RFC 4648 alphabet, with `=` padding), in which clients
//! send and receive encrypted payloads.
use vstd::prelude::*;

verus! {

/// The character of a six-bit value in the standard alphabet.
pub open spec fn base64_char(v: int) -> char {
    if v < 26 {
        ((v + 65) as u8) as char
    } else if v < 52 {
        ((v - 26 + 97) as u8) as char
    } else if v < 62 {
        ((v - 52 + 48) as u8) as char
    } else if v == 62 {
        '+'
    } else {
        '/'
    }
}

/// The standard padded base64 text of a byte string: each group of three
/// bytes becomes four characters, and a final group of one or two bytes is
/// padded with `=` to four characters.
pub open spec fn base64_text(b: Seq<u8>) -> Seq<char>
    decreases b.len(),
{
    if b.len() == 0 {
        Seq::empty()
    } else if b.len() == 1 {
        seq![base64_char((b[0] as int) / 4), base64_char(((b[0] as int) % 4) * 16), '=', '=']
    } else if b.len() == 2 {
        seq![
            base64_char((b[0] as int) / 4),
            base64_char(((b[0] as int) % 4) * 16 + (b[1] as int) / 16),
            base64_char(((b[1] as int) % 16) * 4),
            '=',
        ]
    } else {
        seq![
            base64_char((b[0] as int) / 4),
            base64_char(((b[0] as int) % 4) * 16 + (b[1] as int) / 16),
            base64_char(((b[1] as int) % 16) * 4 + (b[2] as int) / 64),
            base64_char((b[2] as int) % 64),
        ] + base64_text(b.subrange(3, b.len() as int))
    }
}

/// Encodes bytes with `base64`'s `STANDARD` engine, which writes the padded
/// standard form.
#[verifier::external_body]
pub(crate) fn base64_encode(bytes: &[u8]) -> (s: String)
    ensures
        s@ == base64_text(bytes@),
{
    base64::Engine::encode(&base64::prelude::BASE64_STANDARD, bytes)
}

/// Decodes text with `base64`'s `STANDARD` engine. That engine requires
/// canonical padding and refuses non-zero trailing bits, so it accepts
/// exactly the texts that are the standard form of some bytes, and gives
/// those bytes back.
#[verifier::external_body]
pub(crate) fn base64_decode(text: &str) -> (res: Option<Vec<u8>>)
    ensures
        res matches Some(b) ==> text@ == base64_text(b@),
        forall|b: Seq<u8>| #[trigger] base64_text(b) == text@ ==> (res is Some && res->0@ == b),
{
    match base64::Engine::decode(&base64::prelude::BASE64_STANDARD, text) {
        Ok(b) => Some(b),
        Err(_) => None,
    }
}

} // verus!
