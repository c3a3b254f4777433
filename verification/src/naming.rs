//! The names under which extracted firmware is offered for saving.

use vstd::prelude::*;
use vstd::string::*;

verus! {

/// A symbol's name without the one underscore that C name mangling puts in
/// front of it; a name that does not begin with an underscore is kept whole.
pub open spec fn strip_leading_underscore(name: Seq<char>) -> Seq<char> {
    if name.len() > 0 && name[0] == '_' {
        name.drop_first()
    } else {
        name
    }
}

/// The upper-case hexadecimal digit for a number below sixteen.
pub open spec fn hex_digit(digit: nat) -> char {
    seq!['0', '1', '2', '3', '4', '5', '6', '7', '8', '9', 'A', 'B', 'C', 'D', 'E', 'F'][digit as int]
}

/// The upper-case hexadecimal numeral of `number`, without a prefix and
/// without leading zeros; zero is written `0`.
pub open spec fn upper_hex(number: nat) -> Seq<char>
    decreases number,
{
    if number < 16 {
        seq![hex_digit(number)]
    } else {
        upper_hex(number / 16).push(hex_digit(number % 16))
    }
}

/// The name given to firmware at an address that no symbol encloses.
pub open spec fn fallback_name(address: u64) -> Seq<char> {
    "data_"@ + upper_hex(address as nat)
}

/// The number that an upper-case hexadecimal digit stands for.
pub open spec fn hex_digit_value(digit: char) -> nat {
    if '0' <= digit <= '9' {
        (digit as nat - '0' as nat) as nat
    } else {
        (digit as nat - 'A' as nat + 10) as nat
    }
}

/// The number that a hexadecimal numeral stands for.
pub open spec fn hex_value(digits: Seq<char>) -> nat
    decreases digits.len(),
{
    if digits.len() == 0 {
        0
    } else {
        16 * hex_value(digits.drop_last()) + hex_digit_value(digits.last())
    }
}

/// A name that begins with an underscore loses exactly that one character,
/// however many underscores follow it.
pub proof fn lemma_strip_removes_first_underscore(rest: Seq<char>)
    ensures
        strip_leading_underscore(seq!['_'] + rest) == rest,
{
    assert((seq!['_'] + rest).drop_first() =~= rest);
}

/// A name that does not begin with an underscore is left as it is.
pub proof fn lemma_strip_keeps_other_names(name: Seq<char>)
    requires
        name.len() == 0 || name[0] != '_',
    ensures
        strip_leading_underscore(name) == name,
{
}

/// The numeral of a number stands for that number, is made of upper-case
/// hexadecimal digits, and begins with a zero only when the number is zero.
pub proof fn lemma_upper_hex_denotes(number: nat)
    ensures
        hex_value(upper_hex(number)) == number,
        upper_hex(number).len() >= 1,
        upper_hex(number)[0] == '0' <==> number == 0,
        forall|i: int|
            0 <= i < upper_hex(number).len() ==> {
                let digit = #[trigger] upper_hex(number)[i];
                '0' <= digit <= '9' || 'A' <= digit <= 'F'
            },
    decreases number,
{
    let low = hex_digit(number % 16);
    assert(hex_digit_value(low) == number % 16 && ('0' <= low <= '9' || 'A' <= low <= 'F'));
    if number < 16 {
        let numeral = upper_hex(number);
        assert(numeral.drop_last() =~= Seq::<char>::empty());
        assert(hex_value(numeral.drop_last()) == 0);
    } else {
        lemma_upper_hex_denotes(number / 16);
        let numeral = upper_hex(number);
        assert(numeral.drop_last() =~= upper_hex(number / 16));
    }
}

/// The text of one upper-case hexadecimal digit.
fn hex_digit_text(digit: u64) -> (text: &'static str)
    requires
        digit < 16,
    ensures
        text@ == seq![hex_digit(digit as nat)],
{
    proof {
        reveal_strlit("0123456789ABCDEF");
    }
    let at = digit as usize;
    let text = "0123456789ABCDEF".substring_char(at, at + 1);
    assert(text@ =~= seq![hex_digit(digit as nat)]);
    text
}

/// Appends the upper-case hexadecimal numeral of `number` to `text`.
fn append_upper_hex(text: &mut String, number: u64)
    ensures
        final(text)@ == old(text)@ + upper_hex(number as nat),
    decreases number,
{
    if number >= 16 {
        append_upper_hex(text, number / 16);
    }
    text.append(hex_digit_text(number % 16));
    assert(text@ =~= old(text)@ + upper_hex(number as nat));
}

/// Removes the one leading underscore of a symbol's name, if it has one.
pub fn strip_symbol_name(full_name: &str) -> (name: String)
    ensures
        name@ == strip_leading_underscore(full_name@),
{
    let count = full_name.unicode_len();
    if count > 0 && full_name.get_char(0) == '_' {
        full_name.substring_char(1, count).to_owned()
    } else {
        full_name.to_owned()
    }
}

/// Builds the name of firmware at an address that no symbol encloses.
pub fn fallback_fw_name(address: u64) -> (name: String)
    ensures
        name@ == fallback_name(address),
{
    let mut name = "data_".to_owned();
    append_upper_hex(&mut name, address);
    name
}

} // verus!
