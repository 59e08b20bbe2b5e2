//! Percent-encoding of identifiers that are placed in a path segment.

use vstd::prelude::*;
use vstd::string::*;

verus! {

/// The bytes that stay as they are: ASCII letters and digits, `-`, `.`,
/// `_` and `~`.
pub open spec fn is_unreserved(byte: u8) -> bool {
    ||| 0x30 <= byte <= 0x39
    ||| 0x41 <= byte <= 0x5a
    ||| 0x61 <= byte <= 0x7a
    ||| byte == 0x2d
    ||| byte == 0x2e
    ||| byte == 0x5f
    ||| byte == 0x7e
}

/// The upper-case hexadecimal digit for a value below sixteen.
pub open spec fn hex_digit(nibble: u8) -> char {
    if nibble < 10 {
        (0x30 + nibble) as u8 as char
    } else {
        (0x37 + nibble) as u8 as char
    }
}

/// One byte, encoded: itself where it is unreserved, else `%` and its two
/// hexadecimal digits.
pub open spec fn encoded_byte(byte: u8) -> Seq<char> {
    if is_unreserved(byte) {
        seq![byte as char]
    } else {
        seq!['%', hex_digit(byte / 16), hex_digit(byte % 16)]
    }
}

/// The percent-encoding of a run of bytes: each byte encoded, in order.
pub open spec fn percent_encoded(bytes: Seq<u8>) -> Seq<char> {
    bytes.flat_map(|byte: u8| encoded_byte(byte))
}

/// The characters that an encoded text is made of: `%` and the unreserved
/// ones.
pub open spec fn is_segment_char(c: char) -> bool {
    c == '%' || (c as u32 <= 0x7f && is_unreserved(c as u8))
}

/// An encoded text holds `%` and unreserved characters only: no slash, no
/// question mark and no number sign, so it stays within one segment of a
/// path.
pub proof fn lemma_encoded_is_one_segment(bytes: Seq<u8>)
    ensures
        forall|i: int|
            0 <= i < percent_encoded(bytes).len() ==> is_segment_char(
                #[trigger] percent_encoded(bytes)[i],
            ),
        forall|i: int|
            0 <= i < percent_encoded(bytes).len() ==> {
                let c = #[trigger] percent_encoded(bytes)[i];
                c != '/' && c != '?' && c != '#'
            },
    decreases bytes.len(),
{
    let encode = |byte: u8| encoded_byte(byte);
    if bytes.len() == 0 {
        assert(bytes.map_values(encode) =~= Seq::<Seq<char>>::empty());
    } else {
        let rest = bytes.drop_last();
        let last = bytes.last();
        lemma_encoded_is_one_segment(rest);
        bytes.lemma_flat_map_take_append(encode, bytes.len() - 1);
        assert(bytes.take(bytes.len() as int) == bytes);
        assert(bytes.take(bytes.len() - 1) == rest);
        assert(percent_encoded(bytes) == percent_encoded(rest) + encoded_byte(last));
        assert forall|k: int| 0 <= k < encoded_byte(last).len() implies is_segment_char(
            #[trigger] encoded_byte(last)[k],
        ) by {
            let high = last / 16;
            let low = last % 16;
            assert(is_segment_char(hex_digit(high)));
            assert(is_segment_char(hex_digit(low)));
        }
        assert forall|i: int| 0 <= i < percent_encoded(bytes).len() implies is_segment_char(
            #[trigger] percent_encoded(bytes)[i],
        ) by {
            if i >= percent_encoded(rest).len() {
                assert(percent_encoded(bytes)[i] == encoded_byte(last)[i - percent_encoded(
                    rest,
                ).len()]);
            } else {
                assert(percent_encoded(bytes)[i] == percent_encoded(rest)[i]);
            }
        }
    }
}

/// Calls `urlencoding::encode`, which walks the UTF-8 bytes of `data`,
/// copies the unreserved ones and writes every other byte as `%` and two
/// upper-case hexadecimal digits.
#[verifier::external_body]
pub(crate) fn encode(data: &str) -> (encoded: String)
    ensures
        encoded@ == percent_encoded(data.spec_bytes()),
{
    urlencoding::encode(data).into_owned()
}

} // verus!
