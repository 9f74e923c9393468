//! The shape of a destination address on the foreign chain.

use vstd::prelude::*;
use vstd::utf8::*;

verus! {

/// The number of bytes in a destination address, prefix included.
pub const DESTINATION_ADDRESS_LEN: usize = 42;

/// Whether `address` looks like a foreign-chain address: it starts with the
/// two characters `0x`, and written out in UTF-8 it is exactly
/// [`DESTINATION_ADDRESS_LEN`] bytes long. Nothing is said about the
/// characters after the prefix.
pub open spec fn has_destination_shape(address: Seq<char>) -> bool {
    &&& address.len() >= 2
    &&& address[0] == '0'
    &&& address[1] == 'x'
    &&& encode_utf8(address).len() == DESTINATION_ADDRESS_LEN
}

/// The encoding of a text begins with the byte of `0` exactly when the text
/// begins with the character `0`, and likewise for `x`.
proof fn lemma_first_byte(text: Seq<char>, c: char)
    requires
        c == '0' || c == 'x',
    ensures
        (text.len() >= 1 && text[0] == c) <==> (encode_utf8(text).len() >= 1 && encode_utf8(
            text,
        )[0] == c as u8),
        text.len() >= 1 && text[0] == c ==> encode_utf8(text) =~= seq![c as u8] + encode_utf8(
            text.drop_first(),
        ),
{
    if text.len() >= 1 {
        let scalar = text[0] as u32;
        let wanted = c as u32;
        char_u32_cast(text[0], scalar);
        assert(has_width_1_encoding(scalar) ==> (leading_byte_width_1(scalar) == wanted as u8
            <==> scalar == wanted)) by (bit_vector)
            requires
                wanted == 0x30 || wanted == 0x78,
        ;
        assert(leading_byte_width_2(scalar) >= 0xC0) by (bit_vector);
        assert(leading_byte_width_3(scalar) >= 0xC0) by (bit_vector);
        assert(leading_byte_width_4(scalar) >= 0xC0) by (bit_vector);
    }
}

/// Tells whether `address` has the shape of a foreign-chain address.
pub fn is_valid_destination(address: &str) -> (valid: bool)
    ensures
        valid == has_destination_shape(address@),
{
    let bytes = address.as_bytes();
    proof {
        lemma_first_byte(address@, '0');
        if address@.len() >= 1 && address@[0] == '0' {
            lemma_first_byte(address@.drop_first(), 'x');
        }
    }
    bytes.len() == DESTINATION_ADDRESS_LEN && bytes[0] == 0x30u8 && bytes[1] == 0x78u8
}

} // verus!
