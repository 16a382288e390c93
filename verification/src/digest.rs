//! The digest that pins the bundle of an invocation.
use vstd::prelude::*;

verus! {

/// How many digits write a digest.
pub const DIGEST_TEXT_LEN: usize = 64;

/// The value of a hexadecimal digit, in either case.
pub open spec fn hex_value(byte: u8) -> Option<u8> {
    if 48 <= byte <= 57 {
        Some((byte - 48) as u8)
    } else if 97 <= byte <= 102 {
        Some((byte - 97 + 10) as u8)
    } else if 65 <= byte <= 70 {
        Some((byte - 65 + 10) as u8)
    } else {
        None
    }
}

/// The value of a hexadecimal digit, in either case.
pub fn decode_hex(byte: u8) -> (value: Option<u8>)
    ensures
        value == hex_value(byte),
{
    if 48 <= byte && byte <= 57 {
        Some(byte - 48)
    } else if 97 <= byte && byte <= 102 {
        Some(byte - 97 + 10)
    } else if 65 <= byte && byte <= 70 {
        Some(byte - 65 + 10)
    } else {
        None
    }
}

/// The two digits at place `i` of `text` write the byte `byte`.
pub open spec fn writes_byte(text: Seq<u8>, i: int, byte: u8) -> bool {
    &&& hex_value(text[2 * i]) is Some
    &&& hex_value(text[2 * i + 1]) is Some
    &&& byte == 16 * hex_value(text[2 * i])->0 + hex_value(text[2 * i + 1])->0
}

/// `text` writes the digest in hexadecimal.
pub open spec fn writes_digest(text: Seq<u8>, digest: Seq<u8>) -> bool {
    &&& text.len() == DIGEST_TEXT_LEN
    &&& digest.len() == 32
    &&& forall|i: int| 0 <= i < 32 ==> #[trigger] writes_byte(text, i, digest[i])
}

proof fn lemma_nibbles(high: u8, low: u8)
    requires
        high < 16,
        low < 16,
    ensures
        (high << 4u8) | low == 16 * high + low,
{
    assert((high << 4u8) | low == 16 * high + low) by (bit_vector)
        requires
            high < 16,
            low < 16,
    ;
}

proof fn lemma_accumulate(different: u8, byte: u8, written: u8)
    ensures
        (different | (byte ^ written)) == 0 <==> (different == 0 && byte == written),
{
    assert((different | (byte ^ written)) == 0 <==> (different == 0 && byte == written))
        by (bit_vector);
}

/// Holds the digest of a bundle against the one that the caller expects. It fails on a missing
/// text, on one that is not 64 digits long, on one with another character, and on one that
/// writes another digest. All bytes are held against each other before the answer.
pub fn verify_bundle_sha256(actual: &[u8; 32], expected: Option<&[u8]>) -> (verified: Result<
    (),
    (),
>)
    ensures
        verified is Ok <==> expected is Some && writes_digest(expected->0@, actual@),
{
    let text = match expected {
        Some(text) => text,
        None => return Err(()),
    };
    if text.len() != DIGEST_TEXT_LEN {
        return Err(());
    }
    let mut different: u8 = 0;
    let mut index: usize = 0;
    while index < 32
        invariant
            index <= 32,
            expected == Some(text),
            text@.len() == 64,
            actual@.len() == 32,
            forall|i: int|
                0 <= i < index ==> hex_value(#[trigger] text@[2 * i]) is Some && hex_value(
                    text@[2 * i + 1],
                ) is Some,
            different == 0 <==> forall|i: int|
                0 <= i < index ==> #[trigger] writes_byte(text@, i, actual@[i]),
        decreases 32 - index,
    {
        let high = match decode_hex(text[index * 2]) {
            Some(high) => high,
            None => {
                assert(!writes_byte(text@, index as int, actual@[index as int]));
                return Err(());
            },
        };
        let low = match decode_hex(text[index * 2 + 1]) {
            Some(low) => low,
            None => {
                assert(!writes_byte(text@, index as int, actual@[index as int]));
                return Err(());
            },
        };
        let byte = actual[index];
        let written = (high << 4u8) | low;
        let ghost before = different;
        proof {
            lemma_nibbles(high, low);
            lemma_accumulate(different, byte, written);
            assert(writes_byte(text@, index as int, byte) <==> byte == written);
        }
        different = different | (byte ^ written);
        index = index + 1;
        proof {
            if different == 0 {
                assert forall|i: int| 0 <= i < index implies #[trigger] writes_byte(
                    text@,
                    i,
                    actual@[i],
                ) by {}
            } else if before == 0 {
                assert(!writes_byte(text@, index - 1, actual@[index - 1]));
            } else {
                let i = choose|i: int|
                    0 <= i < index - 1 && !#[trigger] writes_byte(text@, i, actual@[i]);
                assert(!writes_byte(text@, i, actual@[i]));
            }
        }
    }
    if different == 0 {
        Ok(())
    } else {
        Err(())
    }
}

/// The digit of a value below sixteen, in lower case.
pub open spec fn lower_digit(value: u8) -> u8 {
    if value < 10 {
        (48 + value) as u8
    } else {
        (97 + value - 10) as u8
    }
}

/// The digit of a value below sixteen, in upper case.
pub open spec fn upper_digit(value: u8) -> u8 {
    if value < 10 {
        (48 + value) as u8
    } else {
        (65 + value - 10) as u8
    }
}

/// A digest in hexadecimal.
pub open spec fn hex_text(digest: Seq<u8>, upper: bool) -> Seq<u8> {
    Seq::new(
        2 * digest.len(),
        |k: int|
            {
                let byte = digest[k / 2];
                let value = if k % 2 == 0 {
                    byte / 16
                } else {
                    byte % 16
                };
                if upper {
                    upper_digit(value)
                } else {
                    lower_digit(value)
                }
            },
    )
}

/// A digest written in hexadecimal, in lower or upper case, is accepted for that digest.
pub proof fn law_written_digest_is_accepted(digest: Seq<u8>, upper: bool)
    requires
        digest.len() == 32,
    ensures
        writes_digest(hex_text(digest, upper), digest),
{
    let text = hex_text(digest, upper);
    assert forall|i: int| 0 <= i < 32 implies #[trigger] writes_byte(text, i, digest[i]) by {
        assert((2 * i) / 2 == i && (2 * i + 1) / 2 == i);
    }
}

/// A text is accepted for one digest only.
pub proof fn law_text_pins_one_digest(text: Seq<u8>, first: Seq<u8>, second: Seq<u8>)
    requires
        writes_digest(text, first),
        writes_digest(text, second),
    ensures
        first == second,
{
    assert forall|i: int| 0 <= i < 32 implies first[i] == second[i] by {
        assert(writes_byte(text, i, first[i]));
        assert(writes_byte(text, i, second[i]));
    }
}

/// A byte is a digit exactly where it writes a value below sixteen, in lower or in upper case, and
/// its value is that one.
pub proof fn law_digits_are_those_of_their_values(byte: u8, value: u8)
    requires
        value < 16,
    ensures
        hex_value(byte) == Some(value) <==> (byte == lower_digit(value) || byte == upper_digit(
            value,
        )),
        hex_value(byte) matches Some(found) ==> found < 16,
        value < 10 ==> lower_digit(value) as char as int == '0' as int + value,
        value >= 10 ==> lower_digit(value) as char as int == 'a' as int + value - 10,
        value >= 10 ==> upper_digit(value) as char as int == 'A' as int + value - 10,
{
}

/// A text is accepted only if it is as long as the written digest and agrees with it digit by
/// digit, each in lower or in upper case.
pub proof fn law_accepted_text_is_the_written_digest(text: Seq<u8>, digest: Seq<u8>, k: int)
    requires
        writes_digest(text, digest),
        0 <= k < 64,
    ensures
        text.len() == 64,
        digest.len() == 32,
        text[k] == hex_text(digest, false)[k] || text[k] == hex_text(digest, true)[k],
{
    let i = k / 2;
    assert(writes_byte(text, i, digest[i]));
    let high = hex_value(text[2 * i])->0;
    let low = hex_value(text[2 * i + 1])->0;
    law_digits_are_those_of_their_values(text[2 * i], high);
    law_digits_are_those_of_their_values(text[2 * i + 1], low);
    assert(k == 2 * i || k == 2 * i + 1);
    assert(digest[i] / 16 == high && digest[i] % 16 == low) by (nonlinear_arith)
        requires
            digest[i] == 16 * high + low,
            high < 16,
            low < 16,
    ;
}

} // verus!
