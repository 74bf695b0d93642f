use vstd::prelude::*;

verus! {

/// `String::push` of the standard library: the string afterwards is the
/// string before with `ch` appended, and nothing else.
pub assume_specification[ String::push ](text: &mut String, ch: char)
    ensures
        final(text)@ == old(text)@.push(ch),
;

/// `String::push_str` of the standard library: the string afterwards is the
/// string before followed by the characters of `string`.
pub assume_specification[ String::push_str ](text: &mut String, string: &str)
    ensures
        final(text)@ == old(text)@ + string@,
;

/// The character of a digit below sixteen: `0` to `9`, which start at code
/// 48, then `a` to `f`, which start at code 97.
pub open spec fn digit(d: nat) -> char {
    if d < 10 {
        (48 + d) as char
    } else {
        (87 + d) as char
    }
}

/// `value` in decimal, without leading zeros.
pub open spec fn decimal(value: nat) -> Seq<char>
    decreases value,
{
    if value < 10 {
        seq![digit(value)]
    } else {
        decimal(value / 10).push(digit(value % 10))
    }
}

/// `value` in lower-case hexadecimal, without leading zeros.
pub open spec fn hexadecimal(value: nat) -> Seq<char>
    decreases value,
{
    if value < 16 {
        seq![digit(value)]
    } else {
        hexadecimal(value / 16).push(digit(value % 16))
    }
}

/// The bytes in hexadecimal, separated by a comma and a space.
pub open spec fn hexadecimal_list(bytes: Seq<u8>) -> Seq<char>
    decreases bytes.len(),
{
    if bytes.len() == 0 {
        Seq::empty()
    } else if bytes.len() == 1 {
        hexadecimal(bytes[0] as nat)
    } else {
        hexadecimal_list(bytes.drop_last()) + seq![',', ' '] + hexadecimal(bytes.last() as nat)
    }
}

/// The character of a digit below sixteen.
pub fn digit_char(d: u8) -> (ch: char)
    requires
        d < 16,
    ensures
        ch == digit(d as nat),
{
    if d < 10 {
        (48u8 + d) as char
    } else {
        (87u8 + d) as char
    }
}

/// Appends `value` in decimal.
pub fn push_decimal(text: &mut String, value: u16)
    ensures
        final(text)@ == old(text)@ + decimal(value as nat),
    decreases value,
{
    if value >= 10 {
        push_decimal(text, value / 10);
    }
    text.push(digit_char((value % 10) as u8));
    assert(text@ =~= old(text)@ + decimal(value as nat));
}

/// Appends `value` in lower-case hexadecimal.
pub fn push_hexadecimal(text: &mut String, value: u8)
    ensures
        final(text)@ == old(text)@ + hexadecimal(value as nat),
    decreases value,
{
    if value >= 16 {
        push_hexadecimal(text, value / 16);
    }
    text.push(digit_char(value % 16));
    assert(text@ =~= old(text)@ + hexadecimal(value as nat));
}

/// Appends the bytes in hexadecimal, separated by a comma and a space.
pub fn push_hexadecimal_list(text: &mut String, bytes: &Vec<u8>)
    ensures
        final(text)@ == old(text)@ + hexadecimal_list(bytes@),
{
    let mut i: usize = 0;
    assert(bytes@.take(0) =~= Seq::<u8>::empty());
    assert(text@ =~= old(text)@ + hexadecimal_list(bytes@.take(0)));
    while i < bytes.len()
        invariant
            i <= bytes@.len(),
            text@ == old(text)@ + hexadecimal_list(bytes@.take(i as int)),
        decreases bytes@.len() - i,
    {
        if i > 0 {
            text.push_str(", ");
        }
        push_hexadecimal(text, bytes[i]);
        proof {
            reveal_strlit(", ");
            let next = bytes@.take(i + 1);
            assert(next.drop_last() =~= bytes@.take(i as int));
            assert(next.last() == bytes@[i as int]);
            assert(", "@ =~= seq![',', ' ']);
            assert(text@ =~= old(text)@ + hexadecimal_list(next));
        }
        i = i + 1;
    }
    assert(bytes@.take(i as int) =~= bytes@);
}

} // verus!
