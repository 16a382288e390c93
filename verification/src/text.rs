//! Text that the library renders: decimal numbers, quoted strings, messages from bytes.
use vstd::prelude::*;

verus! {

/// The decimal digit of `d`, for `d` below ten.
pub open spec fn digit(d: nat) -> char {
    ('0' as int + d) as char
}

/// The decimal digits of `n`, without leading zeros.
pub open spec fn decimal_nat(n: nat) -> Seq<char>
    decreases n,
{
    if n < 10 {
        seq![digit(n)]
    } else {
        decimal_nat(n / 10).push(digit(n % 10))
    }
}

/// The decimal text of `n`, with a sign where `n` is negative.
pub open spec fn decimal(n: int) -> Seq<char> {
    if n < 0 {
        seq!['-'] + decimal_nat((-n) as nat)
    } else {
        decimal_nat(n as nat)
    }
}

/// The number that a text of decimal digits stands for.
pub open spec fn number_of(digits: Seq<char>) -> int
    decreases digits.len(),
{
    if digits.len() == 0 {
        0
    } else {
        10 * number_of(digits.drop_last()) + (digits.last() as int - '0' as int)
    }
}

/// The decimal text of a number consists of digits, has no leading zero, and stands for that
/// number again.
pub proof fn law_decimal_text_stands_for_its_number(n: nat)
    ensures
        number_of(decimal(n as int)) == n,
        decimal(n as int).len() > 0,
        decimal(n as int).len() > 1 ==> decimal(n as int)[0] != '0',
        n > 0 ==> decimal(n as int)[0] != '0',
        forall|i: int|
            0 <= i < decimal(n as int).len() ==> '0' <= #[trigger] decimal(n as int)[i] <= '9',
        n > 0 ==> decimal(-(n as int)) == seq!['-'] + decimal(n as int),
    decreases n,
{
    let text = decimal_nat(n);
    if n < 10 {
        assert(text.drop_last() == Seq::<char>::empty());
        assert(number_of(text.drop_last()) == 0);
        assert(text.last() == digit(n));
    } else {
        let before = decimal_nat(n / 10);
        law_decimal_text_stands_for_its_number(n / 10);
        assert(text.drop_last() == before);
        assert(text.last() == digit(n % 10));
        assert forall|i: int| 0 <= i < text.len() implies '0' <= #[trigger] text[i] <= '9' by {
            if i < before.len() {
                assert(text[i] == before[i]);
                assert('0' <= decimal(n as int / 10)[i] <= '9');
            }
        }
    }
}

/// Decimal text of a number that is not negative is plain.
pub proof fn lemma_decimal_is_plain(n: nat)
    ensures
        plain_text(decimal_nat(n)),
    decreases n,
{
    if n >= 10 {
        lemma_decimal_is_plain(n / 10);
        assert(is_plain(digit(n % 10)));
        let before = decimal_nat(n / 10);
        assert forall|i: int| 0 <= i < decimal_nat(n).len() implies is_plain(
            #[trigger] decimal_nat(n)[i],
        ) by {
            if i < before.len() {
                assert(decimal_nat(n)[i] == before[i]);
            }
        }
    }
}

fn digit_text(d: u64) -> (text: &'static str)
    requires
        d < 10,
    ensures
        text@ == seq![digit(d as nat)],
{
    proof {
        reveal_strlit("0");
        reveal_strlit("1");
        reveal_strlit("2");
        reveal_strlit("3");
        reveal_strlit("4");
        reveal_strlit("5");
        reveal_strlit("6");
        reveal_strlit("7");
        reveal_strlit("8");
        reveal_strlit("9");
    }
    match d {
        0 => "0",
        1 => "1",
        2 => "2",
        3 => "3",
        4 => "4",
        5 => "5",
        6 => "6",
        7 => "7",
        8 => "8",
        _ => "9",
    }
}

/// Appends the decimal digits of `n` to `out`.
pub fn append_decimal_u64(out: &mut String, n: u64)
    ensures
        final(out)@ == old(out)@ + decimal_nat(n as nat),
    decreases n,
{
    if n >= 10 {
        append_decimal_u64(out, n / 10);
    }
    out.append(digit_text(n % 10));
    assert(out@ == old(out)@ + decimal_nat(n as nat));
}

/// Appends the decimal text of `n` to `out`.
pub fn append_decimal(out: &mut String, n: i32)
    ensures
        final(out)@ == old(out)@ + decimal(n as int),
{
    if n < 0 {
        proof {
            reveal_strlit("-");
        }
        out.append("-");
        let magnitude: u64 = (-(n as i64)) as u64;
        append_decimal_u64(out, magnitude);
        assert(out@ == old(out)@ + decimal(n as int));
    } else {
        append_decimal_u64(out, n as u64);
    }
}

/// What `{:?}` of `core::fmt` writes for a string: the string between double quotes, with
/// the characters that std escapes written as escapes.
pub uninterp spec fn debug_text(text: Seq<char>) -> Seq<char>;

/// An ASCII letter or digit, or a hyphen.
pub open spec fn is_plain(c: char) -> bool {
    ('a' <= c && c <= 'z') || ('A' <= c && c <= 'Z') || ('0' <= c && c <= '9') || c == '-'
}

/// Every character of the text is plain.
pub open spec fn plain_text(text: Seq<char>) -> bool {
    forall|i: int| 0 <= i < text.len() ==> is_plain(#[trigger] text[i])
}

/// A text between double quotes.
pub open spec fn between_quotes(text: Seq<char>) -> Seq<char> {
    seq!['"'] + text + seq!['"']
}

/// A text as a program quotes it: as it is between double quotes where it is plain, and otherwise
/// as `core::fmt` writes it.
pub open spec fn quoted_text(text: Seq<char>) -> Seq<char> {
    if plain_text(text) {
        between_quotes(text)
    } else {
        debug_text(text)
    }
}

/// Calls `alloc::fmt::format` with the `Debug` form of a `str`. Claimed of it: what it writes
/// is a function of the characters alone, and text of ASCII letters, digits and hyphens comes out
/// as it is between double quotes. Which other characters std escapes, and how, is left unsaid.
#[verifier::external_body]
pub(crate) fn quoted(text: &str) -> (quoted: String)
    ensures
        quoted@ == debug_text(text@),
        plain_text(text@) ==> quoted@ == between_quotes(text@),
{
    format!("{text:?}")
}

/// Calls `core::str::from_utf8`. Claimed of it: it succeeds exactly on the byte sequences that
/// are valid UTF-8.
#[verifier::external_body]
pub(crate) fn is_utf8(bytes: &[u8]) -> (valid: bool)
    ensures
        valid == vstd::utf8::valid_utf8(bytes@),
{
    core::str::from_utf8(bytes).is_ok()
}

/// What the `Display` form of a `bstr::BStr` shows of bytes that need not be UTF-8.
pub uninterp spec fn lossy_text(bytes: Seq<u8>) -> Seq<char>;

/// Formats a `bstr::BStr` with its `Display` implementation. Claimed of it: the text is a
/// function of the bytes alone, and bytes that are valid UTF-8 come out as the characters that
/// they encode. Where the replacement characters stand in other text is left unsaid.
#[verifier::external_body]
fn lossy(bytes: &[u8]) -> (text: String)
    ensures
        text@ == lossy_text(bytes@),
        vstd::utf8::valid_utf8(bytes@) ==> text@ == vstd::utf8::decode_utf8(bytes@),
{
    format!("{}", bstr::BStr::new(bytes))
}

/// The message of a native panic. A caller that hands over no bytes panics with an empty message.
pub fn panic_message(msg: Option<&[u8]>) -> (message: String)
    ensures
        message@ == lossy_text(
            match msg {
                Some(bytes) => bytes@,
                None => Seq::<u8>::empty(),
            },
        ),
        msg is None ==> message@ == Seq::<char>::empty(),
        msg matches Some(bytes) ==> (vstd::utf8::valid_utf8(bytes@) ==> message@
            == vstd::utf8::decode_utf8(bytes@)),
{
    match msg {
        Some(bytes) => lossy(bytes),
        None => {
            let empty: [u8; 0] = [];
            assert(empty@ == Seq::<u8>::empty());
            lossy(&empty)
        },
    }
}

} // verus!
