use vstd::prelude::*;

verus! {

/// The 64-character standard base64 alphabet (RFC 4648, section 4).
pub open spec fn b64_alphabet() -> Seq<char> {
    seq![
        'A', 'B', 'C', 'D', 'E', 'F', 'G', 'H', 'I', 'J', 'K', 'L', 'M',
        'N', 'O', 'P', 'Q', 'R', 'S', 'T', 'U', 'V', 'W', 'X', 'Y', 'Z',
        'a', 'b', 'c', 'd', 'e', 'f', 'g', 'h', 'i', 'j', 'k', 'l', 'm',
        'n', 'o', 'p', 'q', 'r', 's', 't', 'u', 'v', 'w', 'x', 'y', 'z',
        '0', '1', '2', '3', '4', '5', '6', '7', '8', '9', '+', '/',
    ]
}

/// The alphabet character for a 6-bit group.
pub open spec fn b64_char(v: int) -> char {
    b64_alphabet()[v]
}

/// Standard base64 with '=' padding: each 3-byte group becomes 4
/// characters; a trailing group of 1 or 2 bytes is padded to 4.
pub open spec fn base64_encode(s: Seq<u8>) -> Seq<char>
    decreases s.len(),
{
    if s.len() == 0 {
        Seq::empty()
    } else if s.len() == 1 {
        seq![
            b64_char((s[0] >> 2) as int),
            b64_char(((s[0] & 0x03) << 4) as int),
            '=',
            '=',
        ]
    } else if s.len() == 2 {
        seq![
            b64_char((s[0] >> 2) as int),
            b64_char((((s[0] & 0x03) << 4) | (s[1] >> 4)) as int),
            b64_char(((s[1] & 0x0f) << 2) as int),
            '=',
        ]
    } else {
        seq![
            b64_char((s[0] >> 2) as int),
            b64_char((((s[0] & 0x03) << 4) | (s[1] >> 4)) as int),
            b64_char((((s[1] & 0x0f) << 2) | (s[2] >> 6)) as int),
            b64_char((s[2] & 0x3f) as int),
        ] + base64_encode(s.skip(3))
    }
}

/// Relies on base64::engine::Engine::encode with the STANDARD engine:
/// RFC 4648 base64 over the standard alphabet, with '=' padding.
#[verifier::external_body]
pub(crate) fn base64_standard_encode(bytes: &Vec<u8>) -> (r: String)
    ensures
        r@ == base64_encode(bytes@),
{
    base64::Engine::encode(&base64::engine::general_purpose::STANDARD, bytes)
}

} // verus!
